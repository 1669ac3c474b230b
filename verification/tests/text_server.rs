use ezer_cli::http::is_success;
use ezer_cli::server::{endpoint, logs_ws_url, plugin_endpoint, resolve_base_url, DEFAULT_SERVER};
use ezer_cli::text::{
    chars_of, concat_str, is_whitespace, str_eq, str_starts_with, trim, trim_end_matches_char,
    trim_start_matches_str,
};

#[test]
fn trim_agrees_with_std() {
    let samples: [&str; 8] = [
        "",
        "   ",
        "  abc  ",
        "\t\ncookie=1; b=2\r\n",
        "\u{3000}x\u{2028}",
        "\u{200B}zero-width\u{200B}",
        "a b",
        "\u{85}\u{a0}y\u{1680}",
    ];
    for s in samples.iter() {
        assert_eq!(trim(s), s.trim(), "sample {:?}", s);
    }
}

#[test]
fn whitespace_agrees_with_std() {
    for n in 0u32..0x3100 {
        if let Some(c) = char::from_u32(n) {
            assert_eq!(is_whitespace(c), c.is_whitespace(), "char {:x}", n);
        }
    }
}

#[test]
fn trim_helpers_agree_with_std() {
    assert_eq!(trim_end_matches_char("http://x.com///", '/'), "http://x.com");
    assert_eq!(trim_end_matches_char("////", '/'), "");
    assert_eq!(trim_start_matches_str("https://https://a", "https://"), "a");
    assert_eq!(trim_start_matches_str("abc", ""), "abc");
    assert_eq!(concat_str("ab", "cd"), "abcd");
    assert!(str_eq("ñandú", "ñandú"));
    assert!(!str_eq("a", "ab"));
    assert!(str_starts_with("01_dashboard", "01"));
    assert!(!str_starts_with("01", "01_dashboard"));
    assert_eq!(chars_of("añb"), vec!['a', 'ñ', 'b']);
}

#[test]
fn base_url_prefers_the_option() {
    assert_eq!(resolve_base_url(Some("https://a.com/"), Some("https://b.com")), "https://a.com");
    assert_eq!(resolve_base_url(None, Some("https://b.com//")), "https://b.com");
    assert_eq!(resolve_base_url(None, None), "http://localhost:8000");
    assert_eq!(DEFAULT_SERVER, "http://localhost:8000");
}

#[test]
fn base_url_law_no_trailing_slash() {
    let inputs: [&str; 4] = ["x/", "/", "http://h:1/a//", "plain"];
    for s in inputs.iter() {
        let r = resolve_base_url(Some(s), None);
        assert!(!r.ends_with('/'));
        assert_eq!(r, s.trim_end_matches('/'));
    }
}

#[test]
fn endpoints() {
    assert_eq!(endpoint("http://h", "/api/v1/auth/login"), "http://h/api/v1/auth/login");
    assert_eq!(
        plugin_endpoint("http://h", "abc-123", "submit"),
        "http://h/api/v1/plugins/abc-123/submit"
    );
}

#[test]
fn websocket_url() {
    assert_eq!(
        logs_ws_url("https://ezer.io", "p1", "T0K"),
        "ws://ezer.io/api/v1/plugins/p1/logs/ws?ticket=T0K"
    );
    assert_eq!(
        logs_ws_url("http://localhost:8000", "p1", "t"),
        "ws://localhost:8000/api/v1/plugins/p1/logs/ws?ticket=t"
    );
    assert_eq!(
        logs_ws_url("http://https://h", "p", "t"),
        "ws://h/api/v1/plugins/p/logs/ws?ticket=t"
    );
}

#[test]
fn success_codes() {
    assert!(is_success(200));
    assert!(is_success(204));
    assert!(is_success(299));
    assert!(!is_success(199));
    assert!(!is_success(300));
    assert!(!is_success(401));
}

#[test]
fn trimming_twice_is_trimming_once() {
    let samples: [&str; 4] = ["  a=1; b=2\n", "", "\t\t", "x"];
    for s in samples.iter() {
        let once = trim(s);
        assert_eq!(trim(&once), once);
    }
    let saved = ezer_cli::publish::saved_session(Some(" sid=abc \n"));
    let reread = ezer_cli::review::read_session(ezer_cli::review::SessionFile::Text(saved.clone()));
    assert_eq!(reread, Ok(saved));
}

#[test]
fn different_modules_give_different_bodies() {
    let a: [u8; 3] = [1, 2, 3];
    let b: [u8; 3] = [1, 2, 4];
    let c: [u8; 2] = [1, 2];
    let body_a = ezer_cli::publish::upload_body(&a, 0, false, false, None);
    let body_b = ezer_cli::publish::upload_body(&b, 0, false, false, None);
    let body_c = ezer_cli::publish::upload_body(&c, 0, false, false, None);
    assert_ne!(body_a, body_b);
    assert_ne!(body_a, body_c);
    assert_ne!(body_b, body_c);
}
