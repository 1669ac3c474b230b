//! `ezer publish`: the image sent with the plugin, the upload and login bodies, the
//! login steps, and what the server's replies mean.
use vstd::prelude::*;

use crate::b64::{b64_text, encode_standard};
use crate::http::{is_success, spec_is_success};
use crate::json::{
    as_array, as_str, json_document, json_object_text, member, member_text, object_text,
    parse_json, text_as_array, text_as_str, JsonField, JsonFieldView,
};
use crate::text::{chars_of, str_eq, trim, trim_ws};

verus! {

/// A character with ASCII upper-case letters made lower case.
pub open spec fn ascii_lower(c: char) -> char {
    if 'A' <= c && c <= 'Z' {
        ((c as u32) + 32) as char
    } else {
        c
    }
}

/// A text with ASCII upper-case letters made lower case.
pub open spec fn ascii_lower_text(s: Seq<char>) -> Seq<char> {
    s.map_values(|c: char| ascii_lower(c))
}

/// The index of the last `c` in `s`, or -1.
pub open spec fn last_pos(s: Seq<char>, c: char) -> int
    decreases s.len(),
{
    if s.len() == 0 {
        -1
    } else if s.last() == c {
        s.len() - 1
    } else {
        last_pos(s.drop_last(), c)
    }
}

/// The part of a path after its last `.` (the whole path when it has none), as
/// `rsplit('.').next()` gives it.
pub open spec fn after_last_dot(path: Seq<char>) -> Seq<char> {
    path.subrange(last_pos(path, '.') + 1, path.len() as int)
}

/// The MIME type sent for an image, from its extension compared without regard
/// to case. (For these extensions comparing the ASCII lower-case form is the same
/// as comparing `to_lowercase()`: no other character lower-cases to these letters.)
pub open spec fn mime_of(path: Seq<char>) -> Seq<char> {
    let ext = ascii_lower_text(after_last_dot(path));
    if ext == "jpg"@ || ext == "jpeg"@ {
        "image/jpeg"@
    } else if ext == "gif"@ {
        "image/gif"@
    } else if ext == "webp"@ {
        "image/webp"@
    } else {
        "image/png"@
    }
}

/// Lower-cases the ASCII letters of a sequence.
fn lower_ascii(v: &Vec<char>, from: usize) -> (r: Vec<char>)
    requires
        from <= v.len(),
    ensures
        r@ == ascii_lower_text(v@.subrange(from as int, v.len() as int)),
{
    let mut out: Vec<char> = Vec::new();
    let mut i = from;
    while i < v.len()
        invariant
            from <= i <= v.len(),
            out@ == ascii_lower_text(v@.subrange(from as int, i as int)),
        decreases v.len() - i,
    {
        let c = v[i];
        let l = if 'A' <= c && c <= 'Z' {
            char_plus_32(c)
        } else {
            c
        };
        out.push(l);
        i = i + 1;
        assert(out@ =~= ascii_lower_text(v@.subrange(from as int, i as int)));
    }
    out
}

/// The lower-case letter of an ASCII upper-case letter.
fn char_plus_32(c: char) -> (r: char)
    requires
        'A' <= c && c <= 'Z',
    ensures
        r == ascii_lower(c),
{
    let n = (c as u32) + 32;
    let b: u8 = n as u8;
    b as char
}

/// Whether the lower-cased extension is `w`.
fn ext_is(ext: &Vec<char>, w: &str) -> (r: bool)
    ensures
        r == (ext@ == w@),
{
    let wv = chars_of(w);
    crate::text::chars_eq(ext, &wv)
}

/// The MIME type sent for an image path.
pub fn image_mime_type(path: &str) -> (r: String)
    ensures
        r@ == mime_of(path@),
{
    let v = chars_of(path);
    let mut j: usize = v.len();
    assert(v@.subrange(0, v.len() as int) =~= v@);
    while j > 0 && v[j - 1] != '.'
        invariant
            j <= v.len(),
            last_pos(v@, '.') == last_pos(v@.subrange(0, j as int), '.'),
        decreases j,
    {
        assert(v@.subrange(0, j as int).drop_last() =~= v@.subrange(0, j - 1));
        j = j - 1;
    }
    proof {
        if j > 0 {
            assert(v@.subrange(0, j as int).last() == v@[j - 1]);
        }
    }
    let ext = lower_ascii(&v, j);
    let m: &str = if ext_is(&ext, "jpg") || ext_is(&ext, "jpeg") {
        "image/jpeg"
    } else if ext_is(&ext, "gif") {
        "image/gif"
    } else if ext_is(&ext, "webp") {
        "image/webp"
    } else {
        "image/png"
    };
    String::from_str(m)
}

/// The image sent with the plugin: the path given with `--imagen`, else
/// `plugin.png` in the plugin's folder when it exists; none when that is empty.
pub open spec fn image_path_of(explicit: Option<Seq<char>>, default_path: Seq<char>, default_exists: bool) -> Option<Seq<char>> {
    let p = match explicit {
        Some(p) => p,
        None => if default_exists {
            default_path
        } else {
            seq![]
        },
    };
    if p.len() == 0 {
        None
    } else {
        Some(p)
    }
}

/// Picks the image sent with the plugin.
pub fn image_path(explicit: Option<&str>, default_path: &str, default_exists: bool) -> (r: Option<String>)
    ensures
        match r {
            Some(p) => image_path_of(
                match explicit {
                    Some(e) => Some(e@),
                    None => None,
                },
                default_path@,
                default_exists,
            ) == Some(p@),
            None => image_path_of(
                match explicit {
                    Some(e) => Some(e@),
                    None => None,
                },
                default_path@,
                default_exists,
            ) is None,
        },
{
    let p: &str = match explicit {
        Some(p) => p,
        None => if default_exists {
            default_path
        } else {
            ""
        },
    };
    proof {
        reveal_strlit("");
    }
    let pv = chars_of(p);
    if pv.len() == 0 {
        None
    } else {
        Some(String::from_str(p))
    }
}

/// The views of a list of body fields.
pub open spec fn fields_view(fields: Seq<(String, JsonField)>) -> Seq<(Seq<char>, JsonFieldView)> {
    fields.map_values(|f: (String, JsonField)| (f.0@, f.1@))
}

/// The fields of the upload request: the plugin in Base64, its price and flags,
/// and the image in Base64 with its type when there is one.
pub open spec fn upload_fields_of(
    wasm: Seq<u8>,
    price: i64,
    paid: bool,
    active: bool,
    image: Option<(Seq<u8>, Seq<char>)>,
) -> Seq<(Seq<char>, JsonFieldView)> {
    let base = seq![
        ("codigo_wasm_base64"@, JsonFieldView::Text(b64_text(wasm))),
        ("precio"@, JsonFieldView::Int(price)),
        ("es_pago"@, JsonFieldView::Flag(paid)),
        ("activo"@, JsonFieldView::Flag(active)),
    ];
    match image {
        Some((bytes, mime)) => base + seq![
            ("imagen_base64"@, JsonFieldView::Text(b64_text(bytes))),
            ("imagen_tipo"@, JsonFieldView::Text(mime)),
        ],
        None => base,
    }
}

/// The body of the upload request.
pub fn upload_body(wasm: &[u8], price: i64, paid: bool, active: bool, image: Option<(&[u8], &str)>) -> (r: String)
    ensures
        r@ == json_object_text(
            upload_fields_of(
                wasm@,
                price,
                paid,
                active,
                match image {
                    Some((b, m)) => Some((b@, m@)),
                    None => None,
                },
            ),
        ),
{
    let mut fields: Vec<(String, JsonField)> = Vec::new();
    fields.push((String::from_str("codigo_wasm_base64"), JsonField::Text(encode_standard(wasm))));
    fields.push((String::from_str("precio"), JsonField::Int(price)));
    fields.push((String::from_str("es_pago"), JsonField::Flag(paid)));
    fields.push((String::from_str("activo"), JsonField::Flag(active)));
    match image {
        Some((bytes, mime)) => {
            fields.push((String::from_str("imagen_base64"), JsonField::Text(encode_standard(bytes))));
            fields.push((String::from_str("imagen_tipo"), JsonField::Text(String::from_str(mime))));
        },
        None => {},
    }
    assert(fields_view(fields@) =~= upload_fields_of(
        wasm@,
        price,
        paid,
        active,
        match image {
            Some((b, m)) => Some((b@, m@)),
            None => None,
        },
    ));
    object_text(&fields)
}

/// The body of the login request.
pub fn login_body(email: &str, password: &str) -> (r: String)
    ensures
        r@ == json_object_text(
            seq![("correo"@, JsonFieldView::Text(email@)), ("clave"@, JsonFieldView::Text(password@))],
        ),
{
    let fields = vec![
        (String::from_str("correo"), JsonField::Text(String::from_str(email))),
        (String::from_str("clave"), JsonField::Text(String::from_str(password))),
    ];
    assert(fields_view(fields@) =~= seq![
        ("correo"@, JsonFieldView::Text(email@)),
        ("clave"@, JsonFieldView::Text(password@)),
    ]);
    object_text(&fields)
}

/// The body of the one-time-code request.
pub fn otp_body(code: &str, mfa_token: &str) -> (r: String)
    ensures
        r@ == json_object_text(
            seq![("code"@, JsonFieldView::Text(code@)), ("mfa_token"@, JsonFieldView::Text(mfa_token@))],
        ),
{
    let fields = vec![
        (String::from_str("code"), JsonField::Text(String::from_str(code))),
        (String::from_str("mfa_token"), JsonField::Text(String::from_str(mfa_token))),
    ];
    assert(fields_view(fields@) =~= seq![
        ("code"@, JsonFieldView::Text(code@)),
        ("mfa_token"@, JsonFieldView::Text(mfa_token@)),
    ]);
    object_text(&fields)
}

/// The session that `publish` starts from: the saved file's trimmed content, or
/// nothing when it cannot be read.
pub open spec fn saved_session_of(content: Option<Seq<char>>) -> Seq<char> {
    match content {
        Some(c) => trim_ws(c),
        None => seq![],
    }
}

/// The session that `publish` starts from.
pub fn saved_session(content: Option<&str>) -> (r: String)
    ensures
        r@ == saved_session_of(
            match content {
                Some(c) => Some(c@),
                None => None,
            },
        ),
{
    match content {
        Some(c) => trim(c),
        None => String::new(),
    }
}

/// The `Set-Cookie` values joined into one `Cookie` header.
pub open spec fn joined(parts: Seq<Seq<char>>, sep: Seq<char>) -> Seq<char>
    decreases parts.len(),
{
    if parts.len() == 0 {
        seq![]
    } else if parts.len() == 1 {
        parts[0]
    } else {
        joined(parts.drop_last(), sep) + sep + parts.last()
    }
}

/// Joins texts with a separator.
pub fn join(parts: &Vec<String>, sep: &str) -> (r: String)
    ensures
        r@ == joined(parts@.map_values(|s: String| s@), sep@),
{
    let ghost pv = parts@.map_values(|s: String| s@);
    let mut out = String::new();
    let mut i: usize = 0;
    assert(pv.take(0) =~= Seq::<Seq<char>>::empty());
    while i < parts.len()
        invariant
            i <= parts.len(),
            pv == parts@.map_values(|s: String| s@),
            out@ == joined(pv.take(i as int), sep@),
        decreases parts.len() - i,
    {
        assert(pv.take(i + 1).drop_last() =~= pv.take(i as int));
        assert(pv.take(i + 1).last() == parts@[i as int]@);
        if i > 0 {
            out.append(sep);
        }
        out.append(parts[i].as_str());
        proof {
            if i == 0 {
                assert(pv.take(1)[0] == parts@[0]@);
                assert(out@ =~= pv.take(1)[0]);
            }
        }
        i = i + 1;
    }
    assert(pv.take(parts.len() as int) =~= pv);
    out
}

/// The session cookies after a login or code request: the `Set-Cookie` values
/// of the reply joined with `; `.
pub fn join_cookies(cookies: &Vec<String>) -> (r: String)
    ensures
        r@ == joined(cookies@.map_values(|s: String| s@), "; "@),
{
    join(cookies, "; ")
}

/// Where the login stands after the server's reply to the login request.
pub enum LoginStep {
    /// The login failed; the error to report.
    Rejected(String),
    /// The server asks for a one-time code; the token to send with it.
    NeedsCode(String),
    /// Logged in.
    LoggedIn,
}

/// The mathematical value of a [`LoginStep`].
pub enum LoginStepView {
    Rejected(Seq<char>),
    NeedsCode(Seq<char>),
    LoggedIn,
}

impl View for LoginStep {
    type V = LoginStepView;

    open spec fn view(&self) -> LoginStepView {
        match self {
            LoginStep::Rejected(m) => LoginStepView::Rejected(m@),
            LoginStep::NeedsCode(t) => LoginStepView::NeedsCode(t@),
            LoginStep::LoggedIn => LoginStepView::LoggedIn,
        }
    }
}

/// Where the login stands after the reply to the login request: a failure
/// status rejects it; a body with `status` `mfa_required` asks for a code (with
/// the `mfa_token`, empty when absent); anything else logs in.
pub open spec fn login_step_of(code: u16, body: Seq<char>) -> LoginStepView {
    if !spec_is_success(code) {
        LoginStepView::Rejected("Login fallido: "@ + body)
    } else {
        let doc = json_document(body);
        if text_as_str(member(doc, "status"@)) == Some("mfa_required"@) {
            LoginStepView::NeedsCode(
                match text_as_str(member(doc, "mfa_token"@)) {
                    Some(t) => t,
                    None => seq![],
                },
            )
        } else {
            LoginStepView::LoggedIn
        }
    }
}

/// Reads the reply to the login request.
pub fn login_step(code: u16, body: &str) -> (r: LoginStep)
    ensures
        r@ == login_step_of(code, body@),
{
    if !is_success(code) {
        let mut m = String::from_str("Login fallido: ");
        m.append(body);
        return LoginStep::Rejected(m);
    }
    let doc = parse_json(body);
    let status = as_str(&member_text(&doc, "status"));
    let mfa = match &status {
        Some(s) => str_eq(s.as_str(), "mfa_required"),
        None => false,
    };
    if mfa {
        let token = match as_str(&member_text(&doc, "mfa_token")) {
            Some(t) => t,
            None => String::new(),
        };
        LoginStep::NeedsCode(token)
    } else {
        LoginStep::LoggedIn
    }
}

/// Reads the reply to the one-time-code request.
pub fn otp_step(code: u16) -> (r: Result<(), String>)
    ensures
        r is Ok <==> spec_is_success(code),
        r matches Err(m) ==> m@ == "Código OTP inválido"@,
{
    if is_success(code) {
        Ok(())
    } else {
        Err(String::from_str("Código OTP inválido"))
    }
}

/// The reply to an authenticated request: its body on success, else the body as
/// the error; a 401 also discards the saved session.
pub struct AuthReply {
    pub result: Result<String, String>,
    pub clear_session: bool,
}

/// Reads the reply to an authenticated request.
pub fn auth_reply(code: u16, body: String) -> (r: AuthReply)
    ensures
        r.clear_session == (code == 401),
        match r.result {
            Ok(b) => spec_is_success(code) && b@ == body@,
            Err(b) => !spec_is_success(code) && b@ == body@,
        },
{
    let clear = code == 401;
    if is_success(code) {
        AuthReply { result: Ok(body), clear_session: clear }
    } else {
        AuthReply { result: Err(body), clear_session: clear }
    }
}

/// The string elements of a list, in order, skipping the others.
pub open spec fn str_items(items: Seq<Seq<char>>) -> Seq<Seq<char>>
    decreases items.len(),
{
    if items.len() == 0 {
        seq![]
    } else {
        let rest = str_items(items.drop_last());
        match text_as_str(Some(items.last())) {
            Some(s) => rest.push(s),
            None => rest,
        }
    }
}

/// What the reply to the upload means: a validation failure lists its details,
/// a reply with an `error` is a refusal (with its `codigo`, or `DESCONOCIDO`),
/// anything else is a success.
pub open spec fn upload_verdict_of(body: Seq<char>) -> Result<(), Seq<char>> {
    let doc = json_document(body);
    let code = text_as_str(member(doc, "codigo"@));
    let details = text_as_array(member(doc, "detalles"@));
    if doc is Some && code == Some("VALIDACION_FALLIDA"@) && details is Some {
        Err("Validación fallida:\n  • "@ + joined(str_items(details->0), "\n  • "@))
    } else {
        match text_as_str(member(doc, "error"@)) {
            Some(e) => Err(
                "El servidor rechazó el plugin ("@ + match code {
                    Some(c) => c,
                    None => "DESCONOCIDO"@,
                } + "): "@ + e,
            ),
            None => Ok(()),
        }
    }
}

/// The string elements of a list of JSON texts.
fn string_items(items: &Vec<String>) -> (r: Vec<String>)
    ensures
        r@.map_values(|s: String| s@) == str_items(items@.map_values(|s: String| s@)),
{
    let ghost texts = items@.map_values(|s: String| s@);
    let mut out: Vec<String> = Vec::new();
    let mut i: usize = 0;
    assert(texts.take(0) =~= Seq::<Seq<char>>::empty());
    assert(out@.map_values(|s: String| s@) =~= Seq::<Seq<char>>::empty());
    while i < items.len()
        invariant
            i <= items.len(),
            texts == items@.map_values(|s: String| s@),
            out@.map_values(|s: String| s@) == str_items(texts.take(i as int)),
        decreases items.len() - i,
    {
        assert(texts.take(i + 1).drop_last() =~= texts.take(i as int));
        assert(texts.take(i + 1).last() == items@[i as int]@);
        let ghost before = out@;
        match as_str(&Some(items[i].clone())) {
            Some(s) => {
                out.push(s);
                assert(out@.map_values(|s: String| s@) =~= before.map_values(|s: String| s@).push(
                    s@,
                ));
            },
            None => {},
        }
        i = i + 1;
    }
    assert(texts.take(items.len() as int) =~= texts);
    out
}

/// Reads the reply to the upload request.
pub fn upload_verdict(body: &str) -> (r: Result<(), String>)
    ensures
        match (r, upload_verdict_of(body@)) {
            (Ok(()), Ok(())) => true,
            (Err(m), Err(e)) => m@ == e,
            _ => false,
        },
{
    let doc = parse_json(body);
    let code = as_str(&member_text(&doc, "codigo"));
    let details = as_array(&member_text(&doc, "detalles"));
    let failed = match &code {
        Some(c) => str_eq(c.as_str(), "VALIDACION_FALLIDA"),
        None => false,
    };
    if doc.is_some() && failed && details.is_some() {
        let items = match details {
            Some(d) => d,
            None => Vec::new(),
        };
        let strings = string_items(&items);
        let mut m = String::from_str("Validación fallida:\n  • ");
        let list = join(&strings, "\n  • ");
        m.append(list.as_str());
        return Err(m);
    }
    match as_str(&member_text(&doc, "error")) {
        Some(e) => {
            let mut m = String::from_str("El servidor rechazó el plugin (");
            match &code {
                Some(c) => m.append(c.as_str()),
                None => m.append("DESCONOCIDO"),
            }
            m.append("): ");
            m.append(e.as_str());
            Err(m)
        },
        None => Ok(()),
    }
}

/// The upload body carries the plugin and the flags exactly as given: the module
/// in Base64, the price, the paid flag and the active flag, each independent of the
/// others (a price never changes the paid flag), then the image and its type when
/// one is sent.
pub proof fn lemma_upload_fields_as_given(
    wasm: Seq<u8>,
    price: i64,
    paid: bool,
    active: bool,
    image: Option<(Seq<u8>, Seq<char>)>,
)
    ensures
        ({
            let f = upload_fields_of(wasm, price, paid, active, image);
            &&& f.len() == (if image is Some { 6int } else { 4int })
            &&& f[0] == ("codigo_wasm_base64"@, JsonFieldView::Text(b64_text(wasm)))
            &&& f[1] == ("precio"@, JsonFieldView::Int(price))
            &&& f[2] == ("es_pago"@, JsonFieldView::Flag(paid))
            &&& f[3] == ("activo"@, JsonFieldView::Flag(active))
            &&& image matches Some((bytes, mime)) ==> {
                &&& f[4] == ("imagen_base64"@, JsonFieldView::Text(b64_text(bytes)))
                &&& f[5] == ("imagen_tipo"@, JsonFieldView::Text(mime))
            }
        }),
{
}

/// An image path given with `--imagen` is always the one sent, whether or not the
/// folder has a `plugin.png`; without one, `plugin.png` is sent exactly when it
/// exists; an empty path sends nothing.
pub proof fn lemma_explicit_image_wins(
    explicit: Option<Seq<char>>,
    default_path: Seq<char>,
    default_exists: bool,
)
    ensures
        match explicit {
            Some(p) => image_path_of(explicit, default_path, default_exists) == if p.len() > 0 {
                Some(p)
            } else {
                None
            },
            None => image_path_of(explicit, default_path, default_exists) == if default_exists
                && default_path.len() > 0 {
                Some(default_path)
            } else {
                None
            },
        },
{
}

/// After a successful login reply, a one-time code is asked for exactly when the
/// reply's `status` is the string `mfa_required` (and then with the reply's
/// `mfa_token`); any other reply completes the login. A failure status always
/// rejects the login with the reply's body.
pub proof fn lemma_code_only_when_required(code: u16, body: Seq<char>)
    ensures
        !spec_is_success(code) ==> login_step_of(code, body) == LoginStepView::Rejected(
            "Login fallido: "@ + body,
        ),
        spec_is_success(code) ==> ((login_step_of(code, body) is NeedsCode) <==> text_as_str(
            member(json_document(body), "status"@),
        ) == Some("mfa_required"@)),
        spec_is_success(code) && text_as_str(member(json_document(body), "status"@)) != Some(
            "mfa_required"@,
        ) ==> login_step_of(code, body) == LoginStepView::LoggedIn,
        login_step_of(code, body) matches LoginStepView::NeedsCode(t) ==> (t == match text_as_str(
            member(json_document(body), "mfa_token"@),
        ) {
            Some(x) => x,
            None => seq![],
        }),
{
}

} // verus!
