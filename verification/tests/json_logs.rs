use ezer_cli::json::{
    as_array, as_bool, as_i64, as_str, member_text, object_text, parse_json, parse_json_list,
    str_member, JsonField, JsonValue,
};
use ezer_cli::logs::{
    format_time, level_kind, message_log_lines, on_stream_event, render_log_entry, ws_ticket,
    LevelKind, StreamAction, StreamEvent, MAX_TIMESTAMP, MIN_TIMESTAMP,
};

#[test]
fn parse_object_one_level() {
    let doc = parse_json("{\"a\": 1, \"b\": [1, 2], \"c\": {\"d\": \"x\"}}");
    match &doc {
        Some(JsonValue::Object(entries)) => {
            assert_eq!(entries.len(), 3);
            assert_eq!(entries[0], ("a".to_string(), "1".to_string()));
            assert_eq!(entries[1], ("b".to_string(), "[1,2]".to_string()));
            assert_eq!(entries[2], ("c".to_string(), "{\"d\":\"x\"}".to_string()));
        }
        _ => panic!("expected an object"),
    }
    assert_eq!(as_i64(&member_text(&doc, "a")), Some(1));
    assert_eq!(as_array(&member_text(&doc, "b")), Some(vec!["1".to_string(), "2".to_string()]));
    assert_eq!(member_text(&doc, "zz"), None);
}

#[test]
fn parse_scalars() {
    assert!(matches!(parse_json("null"), Some(JsonValue::Null)));
    assert!(matches!(parse_json("true"), Some(JsonValue::Bool(true))));
    assert!(matches!(parse_json("-7"), Some(JsonValue::Number(Some(-7)))));
    assert!(matches!(parse_json("1.5"), Some(JsonValue::Number(None))));
    assert!(matches!(parse_json("18446744073709551615"), Some(JsonValue::Number(None))));
    match parse_json("\"hola\"") {
        Some(JsonValue::Str(s)) => assert_eq!(s, "hola"),
        _ => panic!("expected a string"),
    }
    assert!(parse_json("{not json").is_none());
    assert!(parse_json("").is_none());
}

#[test]
fn member_conversions() {
    let doc = parse_json("{\"s\":\"v\",\"n\":3,\"b\":false}");
    assert_eq!(str_member(&doc, "s"), Some("v".to_string()));
    assert_eq!(str_member(&doc, "n"), None);
    assert_eq!(as_bool(&member_text(&doc, "b")), Some(false));
    assert_eq!(as_str(&None), None);
    let list = parse_json("[1]");
    assert_eq!(member_text(&list, "0"), None);
}

#[test]
fn parse_lists() {
    assert_eq!(
        parse_json_list("[{\"a\":1}, \"x\"]"),
        Ok(vec!["{\"a\":1}".to_string(), "\"x\"".to_string()])
    );
    let err = parse_json_list("{}").unwrap_err();
    let expected = serde_json::from_str::<Vec<serde_json::Value>>("{}").unwrap_err().to_string();
    assert_eq!(err, expected);
}

#[test]
fn object_text_matches_serde_json() {
    let fields = vec![
        ("zeta".to_string(), JsonField::Text("a\"b".to_string())),
        ("alfa".to_string(), JsonField::Int(-3)),
        ("beta".to_string(), JsonField::Flag(true)),
    ];
    let mut map = serde_json::Map::new();
    map.insert("zeta".to_string(), serde_json::Value::from("a\"b"));
    map.insert("alfa".to_string(), serde_json::Value::from(-3i64));
    map.insert("beta".to_string(), serde_json::Value::from(true));
    assert_eq!(object_text(&fields), serde_json::Value::Object(map).to_string());
    assert_eq!(object_text(&fields), "{\"alfa\":-3,\"beta\":true,\"zeta\":\"a\\\"b\"}");
}

#[test]
fn level_kinds() {
    assert_eq!(level_kind("ERROR"), LevelKind::Error);
    assert_eq!(level_kind("error"), LevelKind::Error);
    assert_eq!(level_kind("Error"), LevelKind::Other);
    assert_eq!(level_kind("warn"), LevelKind::Warn);
    assert_eq!(level_kind("INFO"), LevelKind::Info);
    assert_eq!(level_kind("debug"), LevelKind::Other);
}

#[test]
fn times_of_day() {
    assert_eq!(format_time(0), "00:00:00");
    assert_eq!(format_time(3661), "01:01:01");
    assert_eq!(format_time(1_700_000_000), "22:13:20");
    assert_eq!(format_time(-1), "23:59:59");
    assert_eq!(format_time(MAX_TIMESTAMP), "23:59:59");
    assert_eq!(format_time(MIN_TIMESTAMP), "00:00:00");
    assert_eq!(format_time(MAX_TIMESTAMP + 1), "??:??:??");
    assert_eq!(format_time(MIN_TIMESTAMP - 1), "??:??:??");
    assert_eq!(format_time(i64::MAX), "??:??:??");
}

#[test]
fn times_agree_with_chrono() {
    let samples: [i64; 7] = [0, 59, 86399, 86400, 1_234_567_890, -86401, 253_402_300_799];
    for &t in samples.iter() {
        let expected = chrono::DateTime::from_timestamp(t, 0)
            .map(|d| d.format("%H:%M:%S").to_string())
            .unwrap_or_else(|| "??:??:??".to_string());
        assert_eq!(format_time(t), expected);
    }
    assert!(chrono::DateTime::from_timestamp(MAX_TIMESTAMP, 0).is_some());
    assert!(chrono::DateTime::from_timestamp(MAX_TIMESTAMP + 1, 0).is_none());
    assert!(chrono::DateTime::from_timestamp(MIN_TIMESTAMP, 0).is_some());
    assert!(chrono::DateTime::from_timestamp(MIN_TIMESTAMP - 1, 0).is_none());
}

#[test]
fn log_entry_rendering() {
    let entry = "{\"tipo\":\"plugin_log_creado\",\"datos\":{\"creado_en\":3600,\"nivel\":\"WARN\",\"mensaje\":\"hola\",\"fuel_consumido\":12,\"memoria_usada\":0}}";
    let line = render_log_entry(entry).expect("a log line");
    assert_eq!(line.time, "01:00:00");
    assert_eq!(line.level, "WARN");
    assert_eq!(line.kind, LevelKind::Warn);
    assert_eq!(line.message, "hola");
    assert_eq!(line.fuel, " fuel:12");
    assert_eq!(line.memory, "");
}

#[test]
fn log_entry_defaults() {
    let line = render_log_entry("{\"tipo\":\"plugin_log_historico\"}").expect("a log line");
    assert_eq!(line.time, "00:00:00");
    assert_eq!(line.level, "info");
    assert_eq!(line.kind, LevelKind::Info);
    assert_eq!(line.message, "");
    assert_eq!(line.fuel, "");
    assert_eq!(line.memory, "");
    let mem = render_log_entry(
        "{\"tipo\":\"plugin_log_historico\",\"datos\":{\"memoria_usada\":65536,\"fuel_consumido\":-4}}",
    )
    .unwrap();
    assert_eq!(mem.memory, " mem:65536");
    assert_eq!(mem.fuel, "");
}

#[test]
fn other_events_are_not_shown() {
    assert!(render_log_entry("{\"tipo\":\"otro\"}").is_none());
    assert!(render_log_entry("{}").is_none());
    assert!(render_log_entry("nope").is_none());
}

#[test]
fn message_lines_for_arrays_and_single_events() {
    let history = "[{\"tipo\":\"plugin_log_historico\",\"datos\":{\"mensaje\":\"a\"}},{\"tipo\":\"x\"},{\"tipo\":\"plugin_log_creado\",\"datos\":{\"mensaje\":\"b\"}}]";
    let lines = message_log_lines(history);
    assert_eq!(lines.len(), 2);
    assert_eq!(lines[0].message, "a");
    assert_eq!(lines[1].message, "b");
    let one = message_log_lines("{\"tipo\":\"plugin_log_creado\",\"datos\":{\"mensaje\":\"c\"}}");
    assert_eq!(one.len(), 1);
    assert_eq!(one[0].message, "c");
    assert!(message_log_lines("garbage").is_empty());
}

#[test]
fn stream_events() {
    match on_stream_event(StreamEvent::Text("[]".to_string())) {
        StreamAction::Show(lines) => assert!(lines.is_empty()),
        _ => panic!("text is shown"),
    }
    assert!(matches!(on_stream_event(StreamEvent::Close), StreamAction::Closed));
    match on_stream_event(StreamEvent::Failure("boom".to_string())) {
        StreamAction::Failed(m) => assert_eq!(m, "boom"),
        _ => panic!("failure stops"),
    }
    assert!(matches!(on_stream_event(StreamEvent::Other), StreamAction::Skip));
}

#[test]
fn tickets() {
    assert_eq!(ws_ticket("{\"ticket\":\"abc\"}"), Ok("abc".to_string()));
    assert_eq!(ws_ticket("{\"ticket\":5}"), Err("No se recibió ticket WebSocket".to_string()));
    assert_eq!(ws_ticket("[1]"), Err("No se recibió ticket WebSocket".to_string()));
    assert_eq!(ws_ticket("<html>"), Err("Error parseando ticket".to_string()));
}
