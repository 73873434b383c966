use audd::errors::AudDError;
use audd::helpers::{
    add_return_to_url, callback_decode_error, classify_callback, derive_longpoll_category,
    match_event, notification_event, CallbackPayload,
};
use audd::json::JsonValue;
use audd::models::{CallbackEvent, StreamCallbackMatch, StreamCallbackNotification, StreamCallbackSong};

fn st(t: &str) -> JsonValue {
    JsonValue::Str(t.to_string())
}

fn obj(pairs: Vec<(&str, JsonValue)>) -> JsonValue {
    JsonValue::Object(pairs.into_iter().map(|(k, v)| (k.to_string(), v)).collect())
}

fn entries(v: JsonValue) -> Vec<(String, JsonValue)> {
    match v {
        JsonValue::Object(e) => e,
        _ => Vec::new(),
    }
}

#[test]
fn derive_category_is_nine_hex_chars() {
    let c = derive_longpoll_category("test", 7);
    assert_eq!(c.len(), 9);
    assert!(c.chars().all(|c| c.is_ascii_hexdigit()));
}

#[test]
fn derive_category_is_deterministic() {
    let a = derive_longpoll_category("abc", 1);
    let b = derive_longpoll_category("abc", 1);
    assert_eq!(a, b);
    let c = derive_longpoll_category("abc", 2);
    assert_ne!(a, c);
}

#[test]
fn derive_category_known_values() {
    // MD5(MD5(token) || str(radio_id))[:9]
    assert_eq!(derive_longpoll_category("test", 7), "8d1693915");
    assert_eq!(derive_longpoll_category("abc", 1), "e895eb24e");
    assert_eq!(derive_longpoll_category("abc", 2), "cfa6d70d4");
    assert_eq!(derive_longpoll_category("", -5), "6a0b0f9f0");
}

#[test]
fn add_return_appends() {
    let out = add_return_to_url(
        "https://example.com/cb",
        Some(&["apple_music".into(), "spotify".into()]),
    )
    .unwrap();
    assert!(
        out.contains("return=apple_music%2Cspotify") || out.contains("return=apple_music,spotify"),
        "got {out}"
    );
}

#[test]
fn add_return_merges_with_existing_query() {
    let out = add_return_to_url("https://example.com/cb?utm=x", Some(&["spotify".into()])).unwrap();
    assert!(out.contains("utm=x"));
    assert!(out.contains("return=spotify"));
}

#[test]
fn add_return_rejects_duplicate() {
    let err = add_return_to_url("https://example.com/cb?return=apple_music", Some(&["spotify".into()]))
        .unwrap_err();
    assert!(err.is_invalid_request());
    assert_eq!(err.error_code(), Some(0));
}

#[test]
fn add_return_no_metadata_passthrough() {
    let out = add_return_to_url("https://example.com/cb", None).unwrap();
    assert_eq!(out, "https://example.com/cb");
    let out = add_return_to_url("not a url", Some(&[])).unwrap();
    assert_eq!(out, "not a url");
}

#[test]
fn add_return_unparseable_url_is_source_error() {
    let err = add_return_to_url("not a url", Some(&["spotify".into()])).unwrap_err();
    match err {
        AudDError::Source(m) => assert!(m.starts_with("could not parse callback URL `not a url`: ")),
        other => panic!("expected Source, got {other:?}"),
    }
}

#[test]
fn parse_callback_match() {
    let body = obj(vec![
        ("status", st("success")),
        (
            "result",
            obj(vec![
                ("radio_id", JsonValue::Int(7)),
                (
                    "results",
                    JsonValue::Array(vec![obj(vec![
                        ("artist", st("X")),
                        ("title", st("Y")),
                        ("score", JsonValue::Int(100)),
                    ])]),
                ),
            ]),
        ),
    ]);
    let result = match classify_callback(&body).unwrap() {
        CallbackPayload::Match { result } => result,
        other => panic!("should be a match: {other:?}"),
    };
    let song = StreamCallbackSong {
        artist: Some("X".into()),
        title: Some("Y".into()),
        score: Some(100),
        ..Default::default()
    };
    let typed = StreamCallbackMatch::from_wire(entries(result), vec![song]);
    let ev = match_event(typed, body);
    let m = ev.as_match().expect("should be a match");
    assert_eq!(m.radio_id, Some(7));
    assert_eq!(m.song.title.as_deref(), Some("Y"));
    assert!(m.alternatives.is_empty());
    assert!(m.raw_response.contains_key("status"));
    assert!(ev.as_notification().is_none());
}

#[test]
fn parse_callback_notification() {
    let body = obj(vec![
        ("status", st("-")),
        (
            "notification",
            obj(vec![
                ("radio_id", JsonValue::Int(3)),
                ("stream_running", JsonValue::Bool(false)),
                ("notification_code", JsonValue::Int(650)),
                ("notification_message", st("x")),
            ]),
        ),
        ("time", JsonValue::Int(1)),
    ]);
    let (time, notification) = match classify_callback(&body).unwrap() {
        CallbackPayload::Notification { notification, time } => (time, notification),
        other => panic!("should be a notification: {other:?}"),
    };
    assert_eq!(notification.get("notification_code").and_then(|c| c.as_i64()), Some(650));
    let typed = StreamCallbackNotification {
        radio_id: Some(3),
        stream_running: Some(false),
        notification_code: Some(650),
        notification_message: Some("x".into()),
        ..Default::default()
    };
    let ev = notification_event(typed, time, body);
    let n = ev.as_notification().expect("should be a notification");
    assert_eq!(n.radio_id, Some(3));
    assert_eq!(n.notification_code, Some(650));
    assert_eq!(n.time, Some(1));
    assert!(matches!(ev, CallbackEvent::Notification(_)));
}

#[test]
fn notification_wins_over_result() {
    let body = obj(vec![("result", obj(vec![])), ("notification", obj(vec![]))]);
    assert!(matches!(classify_callback(&body), Ok(CallbackPayload::Notification { time: None, .. })));
}

#[test]
fn parse_callback_neither_shape_errors() {
    let body = obj(vec![("status", st("success"))]);
    let err = classify_callback(&body).unwrap_err();
    match err {
        AudDError::Serialization { message, raw_text } => {
            assert_eq!(message, "callback body has neither `result` nor `notification`");
            assert_eq!(raw_text, "{\"status\":\"success\"}");
        }
        other => panic!("expected Serialization, got {other:?}"),
    }
}

#[test]
fn callback_decode_error_text() {
    let body = obj(vec![("result", JsonValue::Int(1))]);
    match callback_decode_error(false, "invalid type", &body) {
        AudDError::Serialization { message, raw_text } => {
            assert_eq!(message, "callback result: invalid type");
            assert_eq!(raw_text, "{\"result\":1}");
        }
        other => panic!("got {other:?}"),
    }
    match callback_decode_error(true, "missing field", &body) {
        AudDError::Serialization { message, .. } => assert_eq!(message, "callback notification: missing field"),
        other => panic!("got {other:?}"),
    }
}

#[test]
fn handle_callback_invalid_json_is_serialization_error() {
    let bytes = b"not json";
    let err = audd::helpers::classify_callback_bytes(bytes.as_slice()).unwrap_err();
    match err {
        AudDError::Serialization { message, raw_text } => {
            assert!(message.contains("not valid JSON"));
            assert_eq!(raw_text, "not json");
        }
        other => panic!("expected Serialization, got {other:?}"),
    }
}

#[test]
fn handle_callback_parses_raw_bytes() {
    let bytes = br#"{"result":{"radio_id":1,"results":[{"artist":"X","title":"Y","score":50}]}}"#;
    let (payload, envelope) = audd::helpers::classify_callback_bytes(bytes.as_slice()).unwrap();
    let result = match payload {
        CallbackPayload::Match { result } => result,
        other => panic!("should be a match: {other:?}"),
    };
    let songs = result.get("results").and_then(|r| r.as_array()).unwrap();
    assert_eq!(songs[0].get("score").and_then(|s| s.as_i64()), Some(50));
    assert!(envelope.contains_key("result"));
}

#[test]
fn callback_bytes_keep_invalid_utf8_lossily() {
    let bytes = b"\xff{";
    match audd::helpers::classify_callback_bytes(bytes.as_slice()).unwrap_err() {
        AudDError::Serialization { raw_text, .. } => assert_eq!(raw_text, "\u{fffd}{"),
        other => panic!("got {other:?}"),
    }
    let body = br#"{"status":"success"}"#;
    assert!(matches!(
        audd::helpers::classify_callback_bytes(body.as_slice()),
        Err(AudDError::Serialization { .. })
    ));
}
