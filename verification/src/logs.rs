//! `ezer logs`: the WebSocket ticket, the messages of the log stream and the
//! lines shown for them.
use vstd::prelude::*;

use crate::json::{
    as_i64, as_str, json_document, member, member_text, opt_json_view, parse_json, text_as_i64,
    text_as_str, JsonValue, JsonView,
};
use crate::size::{decimal, digit_char, push_decimal};
use crate::text::{push_char, str_eq};

verus! {

/// The earliest Unix time that `chrono` turns into a date (year -262143).
pub const MIN_TIMESTAMP: i64 = -8334601228800;

/// The latest Unix time that `chrono` turns into a date (end of year 262142).
pub const MAX_TIMESTAMP: i64 = 8210266876799;

/// Two decimal digits of a number below 100.
pub open spec fn two_digits(n: nat) -> Seq<char> {
    seq![digit_char(n / 10), digit_char(n % 10)]
}

/// The UTC time of day of a Unix time, as `HH:MM:SS`.
pub open spec fn clock_text(ts: int) -> Seq<char> {
    let s = ts % 86400;
    two_digits((s / 3600) as nat) + seq![':'] + two_digits(((s % 3600) / 60) as nat) + seq![':']
        + two_digits((s % 60) as nat)
}

/// `chrono::DateTime::from_timestamp(ts, 0)` formatted with `%H:%M:%S`: the
/// conversion succeeds exactly for the Unix times of years -262143 to 262142
/// (chrono's date range), and the text is the UTC time of day.
#[verifier::external_body]
fn utc_clock(ts: i64) -> (r: Option<String>)
    ensures
        match r {
            Some(s) => MIN_TIMESTAMP <= ts <= MAX_TIMESTAMP && s@ == clock_text(ts as int),
            None => !(MIN_TIMESTAMP <= ts <= MAX_TIMESTAMP),
        },
{
    chrono::DateTime::from_timestamp(ts, 0).map(|d| d.format("%H:%M:%S").to_string())
}

/// How a log level is coloured.
#[derive(PartialEq, Eq, Structural, Clone, Copy, Debug)]
pub enum LevelKind {
    Error,
    Warn,
    Info,
    Other,
}

/// One line of `ezer logs`, before styling.
pub struct LogLine {
    /// `HH:MM:SS`, or `??:??:??` when the time is out of range.
    pub time: String,
    pub level: String,
    pub kind: LevelKind,
    pub message: String,
    /// ` fuel:N` when the fuel used is positive, else empty.
    pub fuel: String,
    /// ` mem:N` when the memory used is positive, else empty.
    pub memory: String,
}

/// The mathematical value of a [`LogLine`].
pub struct LogLineView {
    pub time: Seq<char>,
    pub level: Seq<char>,
    pub kind: LevelKind,
    pub message: Seq<char>,
    pub fuel: Seq<char>,
    pub memory: Seq<char>,
}

impl View for LogLine {
    type V = LogLineView;

    open spec fn view(&self) -> LogLineView {
        LogLineView {
            time: self.time@,
            level: self.level@,
            kind: self.kind,
            message: self.message@,
            fuel: self.fuel@,
            memory: self.memory@,
        }
    }
}

/// The colour class of a level name.
pub open spec fn level_kind_of(level: Seq<char>) -> LevelKind {
    if level == "ERROR"@ || level == "error"@ {
        LevelKind::Error
    } else if level == "WARN"@ || level == "warn"@ {
        LevelKind::Warn
    } else if level == "INFO"@ || level == "info"@ {
        LevelKind::Info
    } else {
        LevelKind::Other
    }
}

/// ` {label}:{n}` when `n` is positive, else nothing.
pub open spec fn counter_text(label: Seq<char>, n: i64) -> Seq<char> {
    if n > 0 {
        seq![' '] + label + seq![':'] + decimal(n as nat)
    } else {
        seq![]
    }
}

/// The time shown for a Unix time.
pub open spec fn shown_time(ts: i64) -> Seq<char> {
    if MIN_TIMESTAMP <= ts <= MAX_TIMESTAMP {
        clock_text(ts as int)
    } else {
        "??:??:??"@
    }
}

/// The string member `key` of a document, or a default.
pub open spec fn str_or(doc: Option<JsonView>, key: Seq<char>, default: Seq<char>) -> Seq<char> {
    match text_as_str(member(doc, key)) {
        Some(s) => s,
        None => default,
    }
}

/// The integer member `key` of a document, or 0.
pub open spec fn int_or_zero(doc: Option<JsonView>, key: Seq<char>) -> i64 {
    match text_as_i64(member(doc, key)) {
        Some(n) => n,
        None => 0,
    }
}

/// The line shown for one event of the log stream: only log events
/// (`plugin_log_historico`, `plugin_log_creado`) are shown; their `datos` give
/// the time, level (default `info`), message, fuel and memory.
pub open spec fn log_line_of(entry: Seq<char>) -> Option<LogLineView> {
    let doc = json_document(entry);
    let tipo = str_or(doc, "tipo"@, "unknown"@);
    if tipo == "plugin_log_historico"@ || tipo == "plugin_log_creado"@ {
        let datos = match member(doc, "datos"@) {
            Some(d) => json_document(d),
            None => None,
        };
        let level = str_or(datos, "nivel"@, "info"@);
        Some(
            LogLineView {
                time: shown_time(int_or_zero(datos, "creado_en"@)),
                level: level,
                kind: level_kind_of(level),
                message: str_or(datos, "mensaje"@, ""@),
                fuel: counter_text("fuel"@, int_or_zero(datos, "fuel_consumido"@)),
                memory: counter_text("mem"@, int_or_zero(datos, "memoria_usada"@)),
            },
        )
    } else {
        None
    }
}

/// The lines shown for a list of events, in order.
pub open spec fn lines_of_entries(items: Seq<Seq<char>>) -> Seq<LogLineView>
    decreases items.len(),
{
    if items.len() == 0 {
        seq![]
    } else {
        let rest = lines_of_entries(items.drop_last());
        match log_line_of(items.last()) {
            Some(l) => rest.push(l),
            None => rest,
        }
    }
}

/// The lines shown for one text message of the stream: a JSON array holds the
/// past events, anything else one event; text that is not JSON shows nothing.
pub open spec fn message_lines(text: Seq<char>) -> Seq<LogLineView> {
    match json_document(text) {
        None => seq![],
        Some(JsonView::Array(items)) => lines_of_entries(items),
        Some(_) => match log_line_of(text) {
            Some(l) => seq![l],
            None => seq![],
        },
    }
}

/// The views of a sequence of lines.
pub open spec fn lines_view(lines: Seq<LogLine>) -> Seq<LogLineView> {
    lines.map_values(|l: LogLine| l@)
}

/// The string member `key` of a document, or a default.
fn str_member_or(doc: &Option<JsonValue>, key: &str, default: &str) -> (r: String)
    ensures
        r@ == str_or(opt_json_view(*doc), key@, default@),
{
    match as_str(&member_text(doc, key)) {
        Some(s) => s,
        None => String::from_str(default),
    }
}

/// The integer member `key` of a document, or 0.
fn int_member_or_zero(doc: &Option<JsonValue>, key: &str) -> (r: i64)
    ensures
        r == int_or_zero(opt_json_view(*doc), key@),
{
    match as_i64(&member_text(doc, key)) {
        Some(n) => n,
        None => 0,
    }
}

/// ` {label}:{n}` when `n` is positive, else nothing.
fn counter(label: &str, n: i64) -> (r: String)
    ensures
        r@ == counter_text(label@, n),
{
    let mut s = String::new();
    if n > 0 {
        push_char(&mut s, ' ');
        s.append(label);
        push_char(&mut s, ':');
        push_decimal(&mut s, n as u128);
        assert(s@ =~= counter_text(label@, n));
    }
    s
}

/// The colour class of a level name.
pub fn level_kind(level: &str) -> (r: LevelKind)
    ensures
        r == level_kind_of(level@),
{
    if str_eq(level, "ERROR") || str_eq(level, "error") {
        LevelKind::Error
    } else if str_eq(level, "WARN") || str_eq(level, "warn") {
        LevelKind::Warn
    } else if str_eq(level, "INFO") || str_eq(level, "info") {
        LevelKind::Info
    } else {
        LevelKind::Other
    }
}

/// The time shown for a Unix time: `HH:MM:SS` in UTC, or `??:??:??`.
pub fn format_time(ts: i64) -> (r: String)
    ensures
        r@ == shown_time(ts),
{
    match utc_clock(ts) {
        Some(s) => s,
        None => String::from_str("??:??:??"),
    }
}

/// The line shown for one event of the log stream, if it is a log event.
pub fn render_log_entry(entry: &str) -> (r: Option<LogLine>)
    ensures
        match r {
            Some(l) => log_line_of(entry@) == Some(l@),
            None => log_line_of(entry@) is None,
        },
{
    let doc = parse_json(entry);
    let tipo = str_member_or(&doc, "tipo", "unknown");
    if str_eq(tipo.as_str(), "plugin_log_historico") || str_eq(tipo.as_str(), "plugin_log_creado") {
        let datos = match member_text(&doc, "datos") {
            Some(d) => parse_json(d.as_str()),
            None => None,
        };
        let level = str_member_or(&datos, "nivel", "info");
        let kind = level_kind(level.as_str());
        let line = LogLine {
            time: format_time(int_member_or_zero(&datos, "creado_en")),
            level: level,
            kind: kind,
            message: str_member_or(&datos, "mensaje", ""),
            fuel: counter("fuel", int_member_or_zero(&datos, "fuel_consumido")),
            memory: counter("mem", int_member_or_zero(&datos, "memoria_usada")),
        };
        Some(line)
    } else {
        None
    }
}

/// The lines shown for one text message of the log stream.
pub fn message_log_lines(text: &str) -> (r: Vec<LogLine>)
    ensures
        lines_view(r@) == message_lines(text@),
{
    match parse_json(text) {
        None => {
            let r: Vec<LogLine> = Vec::new();
            assert(lines_view(r@) =~= Seq::<LogLineView>::empty());
            r
        },
        Some(JsonValue::Array(items)) => {
            let mut out: Vec<LogLine> = Vec::new();
            let ghost texts = items@.map_values(|t: String| t@);
            let mut i: usize = 0;
            assert(texts.take(0) =~= Seq::<Seq<char>>::empty());
            assert(lines_view(out@) =~= Seq::<LogLineView>::empty());
            while i < items.len()
                invariant
                    i <= items.len(),
                    texts == items@.map_values(|t: String| t@),
                    lines_view(out@) == lines_of_entries(texts.take(i as int)),
                decreases items.len() - i,
            {
                assert(texts.take(i + 1).drop_last() =~= texts.take(i as int));
                assert(texts.take(i + 1).last() == items@[i as int]@);
                let ghost before = out@;
                match render_log_entry(items[i].as_str()) {
                    Some(l) => {
                        out.push(l);
                        assert(lines_view(out@) =~= lines_view(before).push(l@));
                    },
                    None => {},
                }
                i = i + 1;
            }
            assert(texts.take(items.len() as int) =~= texts);
            out
        },
        Some(_) => {
            let mut out: Vec<LogLine> = Vec::new();
            match render_log_entry(text) {
                Some(l) => {
                    out.push(l);
                    assert(lines_view(out@) =~= seq![l@]);
                },
                None => {
                    assert(lines_view(out@) =~= Seq::<LogLineView>::empty());
                },
            }
            out
        },
    }
}

/// What the log stream delivered.
pub enum StreamEvent {
    /// A text message.
    Text(String),
    /// The server closed the connection.
    Close,
    /// The connection failed; the error's text.
    Failure(String),
    /// Any other frame (binary, ping, pong).
    Other,
}

/// What `ezer logs` does with a stream event.
pub enum StreamAction {
    /// Print these lines and keep reading.
    Show(Vec<LogLine>),
    /// Report that the server closed the connection, and stop.
    Closed,
    /// Report the error, and stop.
    Failed(String),
    /// Keep reading.
    Skip,
}

/// What `ezer logs` does with a stream event: text messages are shown, a close
/// or an error ends the stream, other frames are skipped.
pub fn on_stream_event(event: StreamEvent) -> (r: StreamAction)
    ensures
        match (event, r) {
            (StreamEvent::Text(t), StreamAction::Show(lines)) => lines_view(lines@) == message_lines(t@),
            (StreamEvent::Close, StreamAction::Closed) => true,
            (StreamEvent::Failure(e), StreamAction::Failed(m)) => m@ == e@,
            (StreamEvent::Other, StreamAction::Skip) => true,
            _ => false,
        },
{
    match event {
        StreamEvent::Text(t) => StreamAction::Show(message_log_lines(t.as_str())),
        StreamEvent::Close => StreamAction::Closed,
        StreamEvent::Failure(e) => StreamAction::Failed(e),
        StreamEvent::Other => StreamAction::Skip,
    }
}

/// The WebSocket ticket in the server's reply, or the error `ezer logs` stops with.
pub open spec fn ticket_of(body: Seq<char>) -> Result<Seq<char>, Seq<char>> {
    match json_document(body) {
        None => Err("Error parseando ticket"@),
        Some(doc) => match text_as_str(member(Some(doc), "ticket"@)) {
            Some(t) => Ok(t),
            None => Err("No se recibió ticket WebSocket"@),
        },
    }
}

/// Reads the WebSocket ticket from the body of the ticket request.
pub fn ws_ticket(body: &str) -> (r: Result<String, String>)
    ensures
        match (r, ticket_of(body@)) {
            (Ok(t), Ok(e)) => t@ == e,
            (Err(m), Err(e)) => m@ == e,
            _ => false,
        },
{
    let doc = parse_json(body);
    match doc {
        None => Err(String::from_str("Error parseando ticket")),
        Some(_) => match as_str(&member_text(&doc, "ticket")) {
            Some(t) => Ok(t),
            None => Err(String::from_str("No se recibió ticket WebSocket")),
        },
    }
}

} // verus!
