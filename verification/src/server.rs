//! Addresses of the EzerDesk server and of its endpoints.
use vstd::prelude::*;

use crate::text::{trim_end_char, trim_end_matches_char, trim_start_matches_str, trim_start_str};

verus! {

/// The server used when neither `--server` nor `EZER_SERVER` names one.
pub const DEFAULT_SERVER: &'static str = "http://localhost:8000";

/// The server a command talks to: `--server` when given, else `EZER_SERVER`,
/// else the default, without trailing slashes.
pub open spec fn base_url_of(
    server: Option<Seq<char>>,
    env_server: Option<Seq<char>>,
) -> Seq<char> {
    let chosen = match server {
        Some(s) => s,
        None => match env_server {
            Some(e) => e,
            None => DEFAULT_SERVER@,
        },
    };
    trim_end_char(chosen, '/')
}

/// Picks the server from the `--server` option and the `EZER_SERVER` variable
/// (when set to valid Unicode) and drops its trailing slashes.
pub fn resolve_base_url(server: Option<&str>, env_server: Option<&str>) -> (r: String)
    ensures
        r@ == base_url_of(
            match server {
                Some(s) => Some(s@),
                None => None,
            },
            match env_server {
                Some(e) => Some(e@),
                None => None,
            },
        ),
{
    let chosen: &str = match server {
        Some(s) => s,
        None => match env_server {
            Some(e) => e,
            None => DEFAULT_SERVER,
        },
    };
    trim_end_matches_char(chosen, '/')
}

/// The URL of an endpoint: the base followed by the path.
pub fn endpoint(base: &str, path: &str) -> (r: String)
    ensures
        r@ == base@ + path@,
{
    crate::text::concat_str(base, path)
}

/// The URL of an action on one plugin: `{base}/api/v1/plugins/{id}/{action}`.
pub fn plugin_endpoint(base: &str, plugin_id: &str, action: &str) -> (r: String)
    ensures
        r@ == base@ + "/api/v1/plugins/"@ + plugin_id@ + "/"@ + action@,
{
    let mut s = String::from_str(base);
    s.append("/api/v1/plugins/");
    s.append(plugin_id);
    s.append("/");
    s.append(action);
    s
}

/// The WebSocket address of a plugin's log stream.
pub open spec fn logs_ws_url_of(base: Seq<char>, plugin_id: Seq<char>, ticket: Seq<char>) -> Seq<char> {
    let host = trim_start_str(trim_start_str(base, "http://"@), "https://"@);
    "ws://"@ + host + "/api/v1/plugins/"@ + plugin_id + "/logs/ws?ticket="@ + ticket
}

/// The WebSocket address of a plugin's log stream: the server without its
/// `http://` and `https://` prefixes, under `ws://`.
pub fn logs_ws_url(base: &str, plugin_id: &str, ticket: &str) -> (r: String)
    ensures
        r@ == logs_ws_url_of(base@, plugin_id@, ticket@),
{
    let without_http = trim_start_matches_str(base, "http://");
    let host = trim_start_matches_str(without_http.as_str(), "https://");
    let mut s = String::from_str("ws://");
    s.append(host.as_str());
    s.append("/api/v1/plugins/");
    s.append(plugin_id);
    s.append("/logs/ws?ticket=");
    s.append(ticket);
    s
}

/// A resolved server address never ends with a slash, and resolving it again
/// gives it back.
pub proof fn lemma_base_url_is_trimmed(server: Option<Seq<char>>, env_server: Option<Seq<char>>)
    ensures
        ({
            let b = base_url_of(server, env_server);
            &&& (b.len() == 0 || b.last() != '/')
            &&& base_url_of(Some(b), env_server) == b
        }),
{
    let chosen = match server {
        Some(s) => s,
        None => match env_server {
            Some(e) => e,
            None => DEFAULT_SERVER@,
        },
    };
    lemma_trim_end_char_trimmed(chosen, '/');
}

/// `trim_end_char` leaves no trailing `c`, and is idempotent.
pub proof fn lemma_trim_end_char_trimmed(s: Seq<char>, c: char)
    ensures
        trim_end_char(s, c).len() == 0 || trim_end_char(s, c).last() != c,
        trim_end_char(trim_end_char(s, c), c) == trim_end_char(s, c),
    decreases s.len(),
{
    if s.len() > 0 && s.last() == c {
        lemma_trim_end_char_trimmed(s.drop_last(), c);
    }
}

/// An explicit `--server` always wins over `EZER_SERVER`.
pub proof fn lemma_explicit_server_wins(server: Seq<char>, env_a: Option<Seq<char>>, env_b: Option<Seq<char>>)
    ensures
        base_url_of(Some(server), env_a) == base_url_of(Some(server), env_b),
{
}

/// The log stream address does not depend on whether the server was written
/// with an `http://` prefix.
pub proof fn lemma_ws_url_ignores_http_prefix(base: Seq<char>, plugin_id: Seq<char>, ticket: Seq<char>)
    ensures
        logs_ws_url_of("http://"@ + base, plugin_id, ticket) == logs_ws_url_of(base, plugin_id, ticket),
{
    let p = "http://"@;
    let s = p + base;
    assert(s.subrange(0, p.len() as int) =~= p);
    assert(s.subrange(p.len() as int, s.len() as int) =~= base);
    reveal_strlit("http://");
    assert(p.len() > 0);
}

} // verus!
