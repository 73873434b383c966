use audd::decode::HttpResponse;
use audd::errors::{AudDError, ErrorKind};
use audd::helpers::CallbackPayload;
use audd::json::JsonValue;
use audd::longpoll::LongpollIterateOptions;
use audd::streams::{
    add_stream_fields, callback_url_text, delete_stream_fields, endpoint_url,
    is_longpoll_keepalive, longpoll_params, longpoll_step, next_cursor, preflight_outcome,
    set_callback_url_fields, set_stream_url_fields, tokenless_longpoll_step, LongpollOptions,
    LongpollRun, LongpollStep,
};

fn st(t: &str) -> JsonValue {
    JsonValue::Str(t.to_string())
}

fn obj(pairs: Vec<(&str, JsonValue)>) -> JsonValue {
    JsonValue::Object(pairs.into_iter().map(|(k, v)| (k.to_string(), v)).collect())
}

fn pairs(v: &[(&'static str, String)]) -> Vec<(String, String)> {
    v.iter().map(|(k, s)| (k.to_string(), s.clone())).collect()
}

fn ok_json(body: JsonValue) -> Result<HttpResponse, AudDError> {
    Ok(HttpResponse { json_body: Some(body), http_status: 200, request_id: None, raw_text: String::new() })
}

#[test]
fn longpoll_options_default() {
    let o = LongpollOptions::default();
    assert_eq!(o.timeout, 50);
    assert!(!o.skip_callback_check);
    assert_eq!(o.since_time, None);
}

#[test]
fn longpoll_options_chain() {
    let o = LongpollOptions::default().timeout(30).since_time(123).skip_callback_check(true);
    assert_eq!(o.timeout, 30);
    assert_eq!(o.since_time, Some(123));
    assert!(o.skip_callback_check);
}

#[test]
fn iterate_options_default() {
    let o = LongpollIterateOptions::default();
    assert_eq!(o.timeout, 50);
    assert_eq!(o.since_time, None);
}

#[test]
fn keepalive_detection() {
    let kp = obj(vec![("timeout", st("no events before timeout")), ("timestamp", JsonValue::Int(1))]);
    assert!(is_longpoll_keepalive(&kp));

    let with_result = obj(vec![
        ("result", obj(vec![("radio_id", JsonValue::Int(1)), ("results", JsonValue::Array(vec![]))])),
        ("timeout", st("no events")),
    ]);
    assert!(!is_longpoll_keepalive(&with_result));

    let with_notif = obj(vec![("notification", obj(vec![("radio_id", JsonValue::Int(1))])), ("timeout", st("x"))]);
    assert!(!is_longpoll_keepalive(&with_notif));

    let no_timeout = obj(vec![("timestamp", JsonValue::Int(1))]);
    assert!(!is_longpoll_keepalive(&no_timeout));

    let not_object = JsonValue::Array(vec![JsonValue::Int(1), JsonValue::Int(2), JsonValue::Int(3)]);
    assert!(!is_longpoll_keepalive(&not_object));
}

#[test]
fn endpoint_urls() {
    assert_eq!(endpoint_url("https://api.audd.io", "setCallbackUrl"), "https://api.audd.io/setCallbackUrl/");
    assert_eq!(endpoint_url("http://127.0.0.1:8080", "longpoll"), "http://127.0.0.1:8080/longpoll/");
}

#[test]
fn stream_request_fields() {
    let f = add_stream_fields("twitch:somechannel", 2, None);
    assert_eq!(
        pairs(&f),
        vec![("url".to_string(), "twitch:somechannel".to_string()), ("radio_id".to_string(), "2".to_string())]
    );
    let f = add_stream_fields("https://x/radio.m3u8", -7, Some("before"));
    assert_eq!(f.len(), 3);
    assert_eq!(f[1].1, "-7");
    assert_eq!((f[2].0, f[2].1.as_str()), ("callbacks", "before"));
    let f = set_stream_url_fields(9, "https://y");
    assert_eq!(pairs(&f), vec![("radio_id".to_string(), "9".to_string()), ("url".to_string(), "https://y".to_string())]);
    let f = delete_stream_fields(i64::MIN);
    assert_eq!(f[0].1, "-9223372036854775808");
    let f = set_callback_url_fields("https://cb".to_string());
    assert_eq!(pairs(&f), vec![("url".to_string(), "https://cb".to_string())]);
}

#[test]
fn longpoll_query() {
    let p = longpoll_params("abc123def", 50, None);
    assert_eq!(
        pairs(&p),
        vec![("category".to_string(), "abc123def".to_string()), ("timeout".to_string(), "50".to_string())]
    );
    let p = longpoll_params("cat", 30, Some(1700000000123));
    assert_eq!(p.len(), 3);
    assert_eq!((p[2].0, p[2].1.as_str()), ("since_time", "1700000000123"));
}

#[test]
fn callback_url_text_forms() {
    assert_eq!(callback_url_text(&st("https://example.com/cb")), "https://example.com/cb");
    assert_eq!(callback_url_text(&JsonValue::Null), "null");
    assert_eq!(callback_url_text(&obj(vec![("u", JsonValue::Int(1))])), "{\"u\":1}");
}

#[test]
fn preflight_passes_with_callback() {
    assert!(preflight_outcome(Ok("https://example.com/cb".to_string())).is_ok());
}

#[test]
fn preflight_explains_missing_callback() {
    let answer = AudDError::Api {
        code: 19,
        message: "no callback".to_string(),
        kind: ErrorKind::Blocked,
        http_status: 200,
        request_id: Some("req-9".to_string()),
        requested_params: Vec::new(),
        request_method: None,
        branded_message: None,
        raw_response: JsonValue::Null,
    };
    match preflight_outcome(Err(answer)) {
        Err(AudDError::Api { code, message, kind, http_status, request_id, .. }) => {
            assert_eq!(code, 0);
            assert_eq!(kind, ErrorKind::InvalidRequest);
            assert_eq!(http_status, 200);
            assert_eq!(request_id.as_deref(), Some("req-9"));
            assert!(message.contains("no callback URL is configured"));
            assert!(message.contains("skip_callback_check=true"));
        }
        other => panic!("got {other:?}"),
    }
}

#[test]
fn preflight_passes_other_errors_on() {
    let e = AudDError::Connection { message: "down".to_string(), source: None };
    match preflight_outcome(Err(e)) {
        Err(AudDError::Connection { message, .. }) => assert_eq!(message, "down"),
        other => panic!("got {other:?}"),
    }
}

#[test]
fn cursor_advances_on_timestamp() {
    assert_eq!(next_cursor(&obj(vec![("timestamp", JsonValue::Int(42))]), None), Some(42));
    assert_eq!(next_cursor(&obj(vec![("timestamp", st("42"))]), Some(7)), Some(7));
    assert_eq!(next_cursor(&obj(vec![]), Some(7)), Some(7));
}

#[test]
fn step_absorbs_keepalive() {
    let body = obj(vec![("timeout", st("no events before timeout")), ("timestamp", JsonValue::Int(42))]);
    match longpoll_step(ok_json(body), Some(1)) {
        LongpollStep::Keepalive { since_time } => assert_eq!(since_time, Some(42)),
        other => panic!("got {other:?}"),
    }
}

#[test]
fn step_delivers_match_and_advances() {
    let result = obj(vec![
        ("radio_id", JsonValue::Int(1)),
        ("results", JsonValue::Array(vec![obj(vec![("artist", st("X")), ("title", st("Y"))])])),
    ]);
    let body = obj(vec![("result", result), ("timestamp", JsonValue::Int(43))]);
    match longpoll_step(ok_json(body), Some(42)) {
        LongpollStep::Event { payload: CallbackPayload::Match { result }, envelope, since_time } => {
            assert_eq!(since_time, Some(43));
            assert_eq!(result.get("radio_id").and_then(|r| r.as_i64()), Some(1));
            assert!(envelope.contains_key("timestamp"));
        }
        other => panic!("got {other:?}"),
    }
}

#[test]
fn step_delivers_notification() {
    let body = obj(vec![
        ("notification", obj(vec![("radio_id", JsonValue::Int(3)), ("notification_code", JsonValue::Int(650))])),
        ("time", JsonValue::Int(1700000000)),
    ]);
    match longpoll_step(ok_json(body), None) {
        LongpollStep::Event { payload: CallbackPayload::Notification { notification, time }, since_time, .. } => {
            assert_eq!(time, Some(1700000000));
            assert_eq!(since_time, None);
            assert_eq!(notification.get("notification_code").and_then(|c| c.as_i64()), Some(650));
        }
        other => panic!("got {other:?}"),
    }
}

#[test]
fn step_fails_on_errors() {
    let e = AudDError::Connection { message: "reset".to_string(), source: None };
    assert!(matches!(longpoll_step(Err(e), None), LongpollStep::Fail(AudDError::Connection { .. })));
    let r = HttpResponse { json_body: None, http_status: 503, request_id: None, raw_text: "oh no".into() };
    match longpoll_step(Ok(r), None) {
        LongpollStep::Fail(AudDError::Server { http_status, message, raw_response, .. }) => {
            assert_eq!(http_status, 503);
            assert_eq!(message, "Longpoll endpoint returned HTTP 503");
            assert_eq!(raw_response, "oh no");
        }
        other => panic!("got {other:?}"),
    }
    let r = HttpResponse { json_body: None, http_status: 200, request_id: None, raw_text: "garbage".into() };
    assert!(matches!(longpoll_step(Ok(r), None), LongpollStep::Fail(AudDError::Serialization { .. })));
    let body = obj(vec![("status", st("success"))]);
    match longpoll_step(ok_json(body), None) {
        LongpollStep::Fail(AudDError::Serialization { message, .. }) => {
            assert_eq!(message, "callback body has neither `result` nor `notification`");
        }
        other => panic!("got {other:?}"),
    }
}

#[test]
fn tokenless_step_refuses_non_objects_and_absorbs_keepalive() {
    let r = ok_json(JsonValue::Array(vec![JsonValue::Int(1)]));
    match tokenless_longpoll_step(r, None) {
        LongpollStep::Fail(AudDError::Serialization { message, .. }) => {
            assert_eq!(message, "Longpoll response was not a JSON object");
        }
        other => panic!("got {other:?}"),
    }
    // The authenticated step classifies the same body instead.
    let r = ok_json(JsonValue::Array(vec![JsonValue::Int(1)]));
    match longpoll_step(r, None) {
        LongpollStep::Fail(AudDError::Serialization { message, .. }) => {
            assert_eq!(message, "callback body has neither `result` nor `notification`");
        }
        other => panic!("got {other:?}"),
    }
    let body = obj(vec![("timeout", st("no events before timeout")), ("timestamp", JsonValue::Int(42))]);
    assert!(matches!(
        tokenless_longpoll_step(ok_json(body), None),
        LongpollStep::Keepalive { since_time: Some(42) }
    ));
    let r = HttpResponse { json_body: None, http_status: 500, request_id: None, raw_text: "oh no".into() };
    assert!(matches!(
        tokenless_longpoll_step(Ok(r), None),
        LongpollStep::Fail(AudDError::Server { http_status: 500, .. })
    ));
    let result = obj(vec![("radio_id", JsonValue::Int(5)), ("results", JsonValue::Array(vec![]))]);
    let body = obj(vec![("result", result), ("timestamp", JsonValue::Int(43))]);
    assert!(matches!(
        tokenless_longpoll_step(ok_json(body), Some(42)),
        LongpollStep::Event { payload: CallbackPayload::Match { .. }, since_time: Some(43), .. }
    ));
}

#[test]
fn run_chains_cursor_and_stops_at_first_failure() {
    let mut run = LongpollRun::new("cat", 30, None, false);
    let q = run.next_request().unwrap();
    assert_eq!(pairs(&q), vec![("category".to_string(), "cat".to_string()), ("timeout".to_string(), "30".to_string())]);
    // Asking again before the outcome gives the same query.
    assert_eq!(pairs(&run.next_request().unwrap()), pairs(&q));
    let keepalive = obj(vec![("timeout", st("no events before timeout")), ("timestamp", JsonValue::Int(42))]);
    assert!(matches!(run.advance(ok_json(keepalive)), LongpollStep::Keepalive { since_time: Some(42) }));
    let q = run.next_request().unwrap();
    assert_eq!(q.len(), 3);
    assert_eq!((q[2].0, q[2].1.as_str()), ("since_time", "42"));
    let event = obj(vec![
        ("result", obj(vec![("radio_id", JsonValue::Int(1)), ("results", JsonValue::Array(vec![]))])),
        ("timestamp", JsonValue::Int(43)),
    ]);
    assert!(matches!(run.advance(ok_json(event)), LongpollStep::Event { since_time: Some(43), .. }));
    let q = run.next_request().unwrap();
    assert_eq!(q[2].1, "43");
    let r = HttpResponse { json_body: None, http_status: 502, request_id: None, raw_text: "bad".into() };
    assert!(matches!(run.advance(Ok(r)), LongpollStep::Fail(AudDError::Server { http_status: 502, .. })));
    assert!(run.next_request().is_none());
    assert!(run.next_request().is_none());
}

#[test]
fn tokenless_run_starts_from_configured_cursor() {
    let mut run = LongpollRun::new("abc", 50, Some(7), true);
    let q = run.next_request().unwrap();
    assert_eq!(q[2].1, "7");
    let r = ok_json(JsonValue::Array(vec![]));
    assert!(matches!(run.advance(r), LongpollStep::Fail(AudDError::Serialization { .. })));
    assert!(run.next_request().is_none());
}
