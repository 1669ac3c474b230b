//! JSON documents exchanged with the EzerDesk server.
//!
//! Parsing and printing are done by `serde_json`; this module holds one level of a
//! parsed document as plain values (nested values stay as their compact JSON text,
//! to be parsed again when the logic reads into them) and the lookups the commands
//! make on them.
use vstd::prelude::*;

use serde_json::Value;

use crate::text::{chars_eq, chars_of};

verus! {

/// One level of a parsed JSON document. Arrays and objects hold their elements
/// as compact JSON text.
pub enum JsonValue {
    Null,
    Bool(bool),
    /// A number, with its value when it is an integer that fits in `i64`.
    Number(Option<i64>),
    Str(String),
    Array(Vec<String>),
    Object(Vec<(String, String)>),
}

/// The mathematical value of a [`JsonValue`].
pub enum JsonView {
    Null,
    Bool(bool),
    Number(Option<i64>),
    Str(Seq<char>),
    Array(Seq<Seq<char>>),
    Object(Seq<(Seq<char>, Seq<char>)>),
}

impl View for JsonValue {
    type V = JsonView;

    open spec fn view(&self) -> JsonView {
        match self {
            JsonValue::Null => JsonView::Null,
            JsonValue::Bool(b) => JsonView::Bool(*b),
            JsonValue::Number(n) => JsonView::Number(*n),
            JsonValue::Str(s) => JsonView::Str(s@),
            JsonValue::Array(items) => JsonView::Array(texts_view(items@)),
            JsonValue::Object(entries) => JsonView::Object(entries_view(entries@)),
        }
    }
}

/// The views of a sequence of strings.
pub open spec fn texts_view(items: Seq<String>) -> Seq<Seq<char>> {
    items.map_values(|t: String| t@)
}

/// The views of a sequence of key/text pairs.
pub open spec fn entries_view(entries: Seq<(String, String)>) -> Seq<(Seq<char>, Seq<char>)> {
    entries.map_values(|e: (String, String)| (e.0@, e.1@))
}

/// A value of a request-body field.
pub enum JsonField {
    Text(String),
    Flag(bool),
    Int(i64),
}

/// The mathematical value of a [`JsonField`].
pub enum JsonFieldView {
    Text(Seq<char>),
    Flag(bool),
    Int(i64),
}

impl View for JsonField {
    type V = JsonFieldView;

    open spec fn view(&self) -> JsonFieldView {
        match self {
            JsonField::Text(s) => JsonFieldView::Text(s@),
            JsonField::Flag(b) => JsonFieldView::Flag(*b),
            JsonField::Int(i) => JsonFieldView::Int(*i),
        }
    }
}

/// The view of an optional parsed value.
pub open spec fn opt_json_view(v: Option<JsonValue>) -> Option<JsonView> {
    match v {
        Some(j) => Some(j@),
        None => None,
    }
}

/// What `serde_json` parses from a text, one level deep (`None` when the text
/// is not JSON).
pub uninterp spec fn json_document(text: Seq<char>) -> Option<JsonView>;

/// What `serde_json` parses from a text as a list of values: the elements as
/// compact text, or the parser's error message.
pub uninterp spec fn json_list_document(text: Seq<char>) -> Result<Seq<Seq<char>>, Seq<char>>;

/// The compact JSON text of an object with the given fields, as `serde_json`
/// prints a map built by inserting them in order.
pub uninterp spec fn json_object_text(fields: Seq<(Seq<char>, JsonFieldView)>) -> Seq<char>;

/// Parses JSON text with `serde_json::from_str::<serde_json::Value>`, keeping one
/// level: the contract names the result by the text alone. Nested values are
/// carried as their compact text (`Value::to_string`), which `serde_json` parses
/// back to the same value; that round trip is not stated here.
#[verifier::external_body]
fn parse_value(text: &str) -> (r: Option<JsonValue>)
    ensures
        opt_json_view(r) == json_document(text@),
{
    match serde_json::from_str::<Value>(text) {
        Err(_) => None,
        Ok(Value::Null) => Some(JsonValue::Null),
        Ok(Value::Bool(b)) => Some(JsonValue::Bool(b)),
        Ok(Value::Number(n)) => Some(JsonValue::Number(n.as_i64())),
        Ok(Value::String(s)) => Some(JsonValue::Str(s)),
        Ok(Value::Array(a)) => Some(JsonValue::Array(a.iter().map(|e| e.to_string()).collect())),
        Ok(Value::Object(m)) => Some(
            JsonValue::Object(m.iter().map(|(k, e)| (k.clone(), e.to_string())).collect()),
        ),
    }
}

/// Parses JSON text as a list with `serde_json::from_str::<Vec<serde_json::Value>>`:
/// the elements as compact text, or the error's message. The contract names the
/// result by the text alone.
#[verifier::external_body]
fn parse_list(text: &str) -> (r: Result<Vec<String>, String>)
    ensures
        match (r, json_list_document(text@)) {
            (Ok(items), Ok(expected)) => texts_view(items@) == expected,
            (Err(e), Err(expected)) => e@ == expected,
            _ => false,
        },
{
    match serde_json::from_str::<Vec<Value>>(text) {
        Ok(items) => Ok(items.iter().map(|e| e.to_string()).collect()),
        Err(e) => Err(e.to_string()),
    }
}

/// Prints an object with `serde_json`: a `serde_json::Map` filled by inserting the
/// fields in order, printed with `to_string`. The contract names the text by the
/// fields alone; the order in which the map prints its keys is `serde_json`'s.
#[verifier::external_body]
fn print_object(fields: &Vec<(String, JsonField)>) -> (r: String)
    ensures
        r@ == json_object_text(fields@.map_values(|f: (String, JsonField)| (f.0@, f.1@))),
{
    let mut map = serde_json::Map::new();
    for (k, v) in fields.iter() {
        let value = match v {
            JsonField::Text(s) => Value::from(s.as_str()),
            JsonField::Flag(b) => Value::from(*b),
            JsonField::Int(i) => Value::from(*i),
        };
        map.insert(k.clone(), value);
    }
    Value::Object(map).to_string()
}

/// Parses a JSON document one level deep; `None` when the text is not JSON.
pub fn parse_json(text: &str) -> (r: Option<JsonValue>)
    ensures
        opt_json_view(r) == json_document(text@),
{
    parse_value(text)
}

/// Parses a JSON list: its elements as compact text, or the parser's message.
pub fn parse_json_list(text: &str) -> (r: Result<Vec<String>, String>)
    ensures
        match (r, json_list_document(text@)) {
            (Ok(items), Ok(expected)) => texts_view(items@) == expected,
            (Err(e), Err(expected)) => e@ == expected,
            _ => false,
        },
{
    parse_list(text)
}

/// The compact JSON text of an object with the given fields.
pub fn object_text(fields: &Vec<(String, JsonField)>) -> (r: String)
    ensures
        r@ == json_object_text(fields@.map_values(|f: (String, JsonField)| (f.0@, f.1@))),
{
    print_object(fields)
}

/// The text of the first entry of `entries` whose key is `key`.
pub open spec fn lookup(entries: Seq<(Seq<char>, Seq<char>)>, key: Seq<char>) -> Option<Seq<char>>
    decreases entries.len(),
{
    if entries.len() == 0 {
        None
    } else if entries[0].0 == key {
        Some(entries[0].1)
    } else {
        lookup(entries.drop_first(), key)
    }
}

/// The text of the member `key` of a parsed document (`Value::get`): `None` when
/// the document is not an object or has no such member.
pub open spec fn member(doc: Option<JsonView>, key: Seq<char>) -> Option<Seq<char>> {
    match doc {
        Some(JsonView::Object(entries)) => lookup(entries, key),
        _ => None,
    }
}

/// The string held by a JSON text (`Value::as_str`).
pub open spec fn text_as_str(t: Option<Seq<char>>) -> Option<Seq<char>> {
    match t {
        Some(t) => match json_document(t) {
            Some(JsonView::Str(s)) => Some(s),
            _ => None,
        },
        None => None,
    }
}

/// The integer held by a JSON text (`Value::as_i64`).
pub open spec fn text_as_i64(t: Option<Seq<char>>) -> Option<i64> {
    match t {
        Some(t) => match json_document(t) {
            Some(JsonView::Number(n)) => n,
            _ => None,
        },
        None => None,
    }
}

/// The boolean held by a JSON text (`Value::as_bool`).
pub open spec fn text_as_bool(t: Option<Seq<char>>) -> Option<bool> {
    match t {
        Some(t) => match json_document(t) {
            Some(JsonView::Bool(b)) => Some(b),
            _ => None,
        },
        None => None,
    }
}

/// The element texts held by a JSON text (`Value::as_array`).
pub open spec fn text_as_array(t: Option<Seq<char>>) -> Option<Seq<Seq<char>>> {
    match t {
        Some(t) => match json_document(t) {
            Some(JsonView::Array(items)) => Some(items),
            _ => None,
        },
        None => None,
    }
}

/// The text of member `key` of a parsed value (`Value::get`).
pub fn member_text(v: &Option<JsonValue>, key: &str) -> (r: Option<String>)
    ensures
        match r {
            Some(s) => member(opt_json_view(*v), key@) == Some(s@),
            None => member(opt_json_view(*v), key@) is None,
        },
{
    match v {
        Some(JsonValue::Object(entries)) => {
            let k = chars_of(key);
            let ghost es = entries_view(entries@);
            let mut i: usize = 0;
            assert(es.skip(0) =~= es);
            while i < entries.len()
                invariant
                    i <= entries.len(),
                    k@ == key@,
                    es == entries_view(entries@),
                    opt_json_view(*v) == Some(JsonView::Object(es)),
                    lookup(es, key@) == lookup(es.skip(i as int), key@),
                decreases entries.len() - i,
            {
                let ek = chars_of(entries[i].0.as_str());
                assert(es.skip(i as int)[0] == es[i as int]);
                assert(es[i as int] == (entries@[i as int].0@, entries@[i as int].1@));
                if chars_eq(&ek, &k) {
                    let found = entries[i].1.clone();
                    assert(found@ == es[i as int].1);
                    return Some(found);
                }
                assert(es.skip(i as int).drop_first() =~= es.skip(i + 1));
                i = i + 1;
            }
            None
        },
        _ => None,
    }
}

/// The string held by an optional JSON text (`Value::as_str`).
pub fn as_str(t: &Option<String>) -> (r: Option<String>)
    ensures
        match r {
            Some(s) => text_as_str(opt_text(*t)) == Some(s@),
            None => text_as_str(opt_text(*t)) is None,
        },
{
    match t {
        Some(t) => match parse_json(t.as_str()) {
            Some(JsonValue::Str(s)) => Some(s),
            _ => None,
        },
        None => None,
    }
}

/// The integer held by an optional JSON text (`Value::as_i64`).
pub fn as_i64(t: &Option<String>) -> (r: Option<i64>)
    ensures
        r == text_as_i64(opt_text(*t)),
{
    match t {
        Some(t) => match parse_json(t.as_str()) {
            Some(JsonValue::Number(n)) => n,
            _ => None,
        },
        None => None,
    }
}

/// The boolean held by an optional JSON text (`Value::as_bool`).
pub fn as_bool(t: &Option<String>) -> (r: Option<bool>)
    ensures
        r == text_as_bool(opt_text(*t)),
{
    match t {
        Some(t) => match parse_json(t.as_str()) {
            Some(JsonValue::Bool(b)) => Some(b),
            _ => None,
        },
        None => None,
    }
}

/// The element texts held by an optional JSON text (`Value::as_array`).
pub fn as_array(t: &Option<String>) -> (r: Option<Vec<String>>)
    ensures
        match r {
            Some(items) => text_as_array(opt_text(*t)) == Some(texts_view(items@)),
            None => text_as_array(opt_text(*t)) is None,
        },
{
    match t {
        Some(t) => match parse_json(t.as_str()) {
            Some(JsonValue::Array(items)) => Some(items),
            _ => None,
        },
        None => None,
    }
}

/// The view of an optional string.
pub open spec fn opt_text(t: Option<String>) -> Option<Seq<char>> {
    match t {
        Some(s) => Some(s@),
        None => None,
    }
}

/// The string member `key` of a parsed value (`value.get(key).and_then(as_str)`).
pub fn str_member(v: &Option<JsonValue>, key: &str) -> (r: Option<String>)
    ensures
        opt_text(r) == text_as_str(member(opt_json_view(*v), key@)),
{
    let t = member_text(v, key);
    as_str(&t)
}

} // verus!
