//! The review commands (`submit`, `approve`, `reject`, `withdraw`, `pending`):
//! their request bodies, the saved session they use, and what they make of the
//! server's replies.
use vstd::prelude::*;

use crate::http::{is_success, spec_is_success};
use crate::json::{
    as_bool, as_str, json_document, json_list_document, json_object_text, member, member_text,
    object_text, parse_json, parse_json_list, text_as_bool, text_as_str, JsonField, JsonFieldView,
};
use crate::text::{str_eq, trim, trim_ws};

verus! {

/// A one-element sequence for `Some`, an empty one for `None`.
pub open spec fn opt_seq(o: Option<Seq<char>>) -> Seq<Seq<char>> {
    match o {
        Some(x) => seq![x],
        None => seq![],
    }
}

/// The views of a sequence of strings.
pub open spec fn strings_view(v: Seq<String>) -> Seq<Seq<char>> {
    v.map_values(|s: String| s@)
}

/// The error a command reports when the server answers with a failure status.
pub open spec fn status_error(status: Seq<char>, body: Seq<char>) -> Seq<char> {
    "Error "@ + status + ": "@ + body
}

/// What a review command prints after the success line (the reply's `mensaje`
/// and, for `withdraw`, its `nota`), or its error. `status` is the status as
/// shown (code and reason).
pub open spec fn reply_of(code: u16, status: Seq<char>, body: Seq<char>, with_note: bool) -> Result<
    Seq<Seq<char>>,
    Seq<char>,
> {
    if spec_is_success(code) {
        let doc = json_document(body);
        let note = if with_note {
            opt_seq(text_as_str(member(doc, "nota"@)))
        } else {
            seq![]
        };
        Ok(opt_seq(text_as_str(member(doc, "mensaje"@))) + note)
    } else {
        Err(status_error(status, body))
    }
}

/// The error line of a failed request.
pub fn status_error_text(status: &str, body: &str) -> (r: String)
    ensures
        r@ == status_error(status@, body@),
{
    let mut s = String::from_str("Error ");
    s.append(status);
    s.append(": ");
    s.append(body);
    s
}

/// Reads the server's reply to a review command: on success the lines to print
/// after the success message, else the error.
pub fn review_reply(code: u16, status: &str, body: &str, with_note: bool) -> (r: Result<
    Vec<String>,
    String,
>)
    ensures
        match (r, reply_of(code, status@, body@, with_note)) {
            (Ok(lines), Ok(expected)) => strings_view(lines@) == expected,
            (Err(m), Err(expected)) => m@ == expected,
            _ => false,
        },
{
    if !is_success(code) {
        return Err(status_error_text(status, body));
    }
    let doc = parse_json(body);
    let mut lines: Vec<String> = Vec::new();
    let msg = as_str(&member_text(&doc, "mensaje"));
    match msg {
        Some(m) => lines.push(m),
        None => {},
    }
    let ghost first = lines@;
    if with_note {
        match as_str(&member_text(&doc, "nota")) {
            Some(n) => lines.push(n),
            None => {},
        }
    }
    assert(strings_view(lines@) =~= reply_of(code, status@, body@, with_note)->Ok_0);
    Ok(lines)
}

/// The body of `approve`: the marketplace slug when one is given, else `{}`.
pub open spec fn approve_body_of(slug: Option<Seq<char>>) -> Seq<char> {
    match slug {
        Some(s) => json_object_text(seq![("slug"@, JsonFieldView::Text(s))]),
        None => "{}"@,
    }
}

/// The request body of `approve`.
pub fn approve_body(slug: Option<&str>) -> (r: String)
    ensures
        r@ == approve_body_of(
            match slug {
                Some(s) => Some(s@),
                None => None,
            },
        ),
{
    match slug {
        Some(s) => {
            let fields = vec![(String::from_str("slug"), JsonField::Text(String::from_str(s)))];
            let r = object_text(&fields);
            assert(fields@.map_values(|f: (String, JsonField)| (f.0@, f.1@)) =~= seq![
                ("slug"@, JsonFieldView::Text(s@)),
            ]);
            r
        },
        None => String::from_str("{}"),
    }
}

/// The request body of `reject`: the reason.
pub fn reject_body(reason: &str) -> (r: String)
    ensures
        r@ == json_object_text(seq![("motivo"@, JsonFieldView::Text(reason@))]),
{
    let fields = vec![(String::from_str("motivo"), JsonField::Text(String::from_str(reason)))];
    let r = object_text(&fields);
    assert(fields@.map_values(|f: (String, JsonField)| (f.0@, f.1@)) =~= seq![
        ("motivo"@, JsonFieldView::Text(reason@)),
    ]);
    r
}

/// The saved session file (`.ezer-session`) as the commands find it.
pub enum SessionFile {
    /// There is no such file.
    Missing,
    /// The file exists but could not be read; the error's text.
    Unreadable(String),
    /// The file's content.
    Text(String),
}

/// The session cookies that `submit`, `approve`, `reject`, `pending` and `logs`
/// send, or why they cannot run.
pub open spec fn session_of(file: SessionFile) -> Result<Seq<char>, Seq<char>> {
    match file {
        SessionFile::Missing => Err(
            "No hay sesión guardada. Ejecuta 'ezer publish' primero para autenticarte."@,
        ),
        SessionFile::Unreadable(e) => Err("No se pudo leer sesión: "@ + e@),
        SessionFile::Text(t) => Ok(trim_ws(t@)),
    }
}

/// Reads the saved session: its trimmed content.
pub fn read_session(file: SessionFile) -> (r: Result<String, String>)
    ensures
        match (r, session_of(file)) {
            (Ok(s), Ok(e)) => s@ == e,
            (Err(m), Err(e)) => m@ == e,
            _ => false,
        },
{
    match file {
        SessionFile::Missing => Err(
            String::from_str(
                "No hay sesión guardada. Ejecuta 'ezer publish' primero para autenticarte.",
            ),
        ),
        SessionFile::Unreadable(e) => {
            let mut m = String::from_str("No se pudo leer sesión: ");
            m.append(e.as_str());
            Err(m)
        },
        SessionFile::Text(t) => Ok(trim(t.as_str())),
    }
}

/// The session cookies that `withdraw` sends: an unreadable file counts as an
/// empty session.
pub open spec fn withdraw_session_of(file: SessionFile) -> Result<Seq<char>, Seq<char>> {
    match file {
        SessionFile::Missing => Err("No hay sesión guardada. Ejecuta 'ezer publish' primero."@),
        SessionFile::Unreadable(_) => Ok(seq![]),
        SessionFile::Text(t) => Ok(trim_ws(t@)),
    }
}

/// Reads the saved session for `withdraw`.
pub fn withdraw_session(file: SessionFile) -> (r: Result<String, String>)
    ensures
        match (r, withdraw_session_of(file)) {
            (Ok(s), Ok(e)) => s@ == e,
            (Err(m), Err(e)) => m@ == e,
            _ => false,
        },
{
    match file {
        SessionFile::Missing => Err(
            String::from_str("No hay sesión guardada. Ejecuta 'ezer publish' primero."),
        ),
        SessionFile::Unreadable(_) => Ok(String::new()),
        SessionFile::Text(t) => Ok(trim(t.as_str())),
    }
}

/// A plugin waiting for review, as `ezer pending` lists it.
pub struct PendingPlugin {
    pub id: String,
    pub name: String,
    pub version: String,
    pub signature_verified: bool,
}

/// The mathematical value of a [`PendingPlugin`].
pub struct PendingPluginView {
    pub id: Seq<char>,
    pub name: Seq<char>,
    pub version: Seq<char>,
    pub signature_verified: bool,
}

impl View for PendingPlugin {
    type V = PendingPluginView;

    open spec fn view(&self) -> PendingPluginView {
        PendingPluginView {
            id: self.id@,
            name: self.name@,
            version: self.version@,
            signature_verified: self.signature_verified,
        }
    }
}

/// A string member of a plugin record, or `?`.
pub open spec fn field_or_unknown(item: Seq<char>, key: Seq<char>) -> Seq<char> {
    match text_as_str(member(json_document(item), key)) {
        Some(s) => s,
        None => "?"@,
    }
}

/// Whether a plugin record is waiting for review.
pub open spec fn is_pending(item: Seq<char>) -> bool {
    text_as_str(member(json_document(item), "estado_revision"@)) == Some("pendiente"@)
}

/// How a plugin record is listed.
pub open spec fn pending_view_of(item: Seq<char>) -> PendingPluginView {
    PendingPluginView {
        id: field_or_unknown(item, "id"@),
        name: field_or_unknown(item, "nombre"@),
        version: field_or_unknown(item, "version"@),
        signature_verified: match text_as_bool(member(json_document(item), "firma_verificada"@)) {
            Some(b) => b,
            None => false,
        },
    }
}

/// The plugins of a list that wait for review, in the list's order.
pub open spec fn pending_entries(items: Seq<Seq<char>>) -> Seq<PendingPluginView>
    decreases items.len(),
{
    if items.len() == 0 {
        seq![]
    } else {
        let rest = pending_entries(items.drop_last());
        if is_pending(items.last()) {
            rest.push(pending_view_of(items.last()))
        } else {
            rest
        }
    }
}

/// What `ezer pending` lists for the server's reply to `GET /api/v1/plugins/all`,
/// or its error.
pub open spec fn pending_of(code: u16, status: Seq<char>, body: Seq<char>) -> Result<
    Seq<PendingPluginView>,
    Seq<char>,
> {
    if !spec_is_success(code) {
        Err(status_error(status, body))
    } else {
        match json_list_document(body) {
            Err(e) => Err("Error parseando JSON: "@ + e),
            Ok(items) => Ok(pending_entries(items)),
        }
    }
}

/// The views of a list of pending plugins.
pub open spec fn pendings_view(v: Seq<PendingPlugin>) -> Seq<PendingPluginView> {
    v.map_values(|p: PendingPlugin| p@)
}

/// A string member of a plugin record, or `?`.
fn member_or_unknown(item: &str, key: &str) -> (r: String)
    ensures
        r@ == field_or_unknown(item@, key@),
{
    let doc = parse_json(item);
    match as_str(&member_text(&doc, key)) {
        Some(s) => s,
        None => String::from_str("?"),
    }
}

/// Reads the list of plugins that wait for review from the server's reply.
pub fn pending_plugins(code: u16, status: &str, body: &str) -> (r: Result<
    Vec<PendingPlugin>,
    String,
>)
    ensures
        match (r, pending_of(code, status@, body@)) {
            (Ok(list), Ok(expected)) => pendings_view(list@) == expected,
            (Err(m), Err(expected)) => m@ == expected,
            _ => false,
        },
{
    if !is_success(code) {
        return Err(status_error_text(status, body));
    }
    let items = match parse_json_list(body) {
        Err(e) => {
            let mut m = String::from_str("Error parseando JSON: ");
            m.append(e.as_str());
            return Err(m);
        },
        Ok(items) => items,
    };
    let ghost texts = items@.map_values(|t: String| t@);
    let mut out: Vec<PendingPlugin> = Vec::new();
    let mut i: usize = 0;
    assert(texts.take(0) =~= Seq::<Seq<char>>::empty());
    assert(pendings_view(out@) =~= Seq::<PendingPluginView>::empty());
    while i < items.len()
        invariant
            i <= items.len(),
            texts == items@.map_values(|t: String| t@),
            pendings_view(out@) == pending_entries(texts.take(i as int)),
        decreases items.len() - i,
    {
        assert(texts.take(i + 1).drop_last() =~= texts.take(i as int));
        assert(texts.take(i + 1).last() == items@[i as int]@);
        let item = items[i].as_str();
        let doc = parse_json(item);
        let state = as_str(&member_text(&doc, "estado_revision"));
        let pending = match &state {
            Some(s) => str_eq(s.as_str(), "pendiente"),
            None => false,
        };
        if pending {
            let ghost before = out@;
            let p = PendingPlugin {
                id: member_or_unknown(item, "id"),
                name: member_or_unknown(item, "nombre"),
                version: member_or_unknown(item, "version"),
                signature_verified: match as_bool(&member_text(&doc, "firma_verificada")) {
                    Some(b) => b,
                    None => false,
                },
            };
            out.push(p);
            assert(pendings_view(out@) =~= pendings_view(before).push(p@));
        }
        i = i + 1;
    }
    assert(texts.take(items.len() as int) =~= texts);
    Ok(out)
}

/// Every plugin that `ezer pending` lists waits for review, and no plugin that
/// waits for review is left out: the list holds one entry per pending record.
pub proof fn lemma_pending_entries_are_pending(items: Seq<Seq<char>>)
    ensures
        pending_entries(items).len() == items.filter(|t: Seq<char>| is_pending(t)).len(),
        pending_entries(items) == items.filter(|t: Seq<char>| is_pending(t)).map_values(
            |t: Seq<char>| pending_view_of(t),
        ),
    decreases items.len(),
{
    reveal(Seq::filter);
    if items.len() > 0 {
        lemma_pending_entries_are_pending(items.drop_last());
        let f = items.filter(|t: Seq<char>| is_pending(t));
        let g = items.drop_last().filter(|t: Seq<char>| is_pending(t));
        if is_pending(items.last()) {
            assert(f == g.push(items.last()));
            assert(f.map_values(|t: Seq<char>| pending_view_of(t)) =~= g.map_values(
                |t: Seq<char>| pending_view_of(t),
            ).push(pending_view_of(items.last())));
        } else {
            assert(f == g);
        }
    } else {
        assert(items.filter(|t: Seq<char>| is_pending(t)) =~= Seq::<Seq<char>>::empty());
    }
}

/// The records of a list that wait for review, in order.
pub open spec fn pending_records(items: Seq<Seq<char>>) -> Seq<Seq<char>> {
    items.filter(|t: Seq<char>| is_pending(t))
}

/// Each plugin that `ezer pending` lists is the next record waiting for review,
/// shown with that record's own fields: its signature counts as verified exactly
/// when the record's `firma_verificada` is `true` (absent or not a boolean counts
/// as not verified), and its id, name and version are the record's strings (`?`
/// when missing).
pub proof fn lemma_pending_fields(items: Seq<Seq<char>>)
    ensures
        forall|i: int|
            0 <= i < pending_entries(items).len() ==> {
                let rec = #[trigger] pending_records(items)[i];
                let shown = pending_entries(items)[i];
                &&& is_pending(rec)
                &&& shown.signature_verified == (text_as_bool(
                    member(json_document(rec), "firma_verificada"@),
                ) == Some(true))
                &&& shown.id == field_or_unknown(rec, "id"@)
                &&& shown.name == field_or_unknown(rec, "nombre"@)
                &&& shown.version == field_or_unknown(rec, "version"@)
            },
{
    lemma_pending_entries_are_pending(items);
    let f = pending_records(items);
    assert forall|i: int| 0 <= i < f.len() implies is_pending(#[trigger] f[i]) by {
        items.lemma_filter_pred(|t: Seq<char>| is_pending(t), i);
    }
}

/// A record is shown as signed exactly when its `firma_verificada` is `true`.
pub proof fn lemma_signature_as_recorded(item: Seq<char>)
    ensures
        pending_view_of(item).signature_verified == (text_as_bool(
            member(json_document(item), "firma_verificada"@),
        ) == Some(true)),
        text_as_bool(member(json_document(item), "firma_verificada"@)) == Some(false)
            ==> !pending_view_of(item).signature_verified,
{
}

} // verus!
