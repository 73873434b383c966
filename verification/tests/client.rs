use audd::client::{exception_event, request_event, response_event};
use audd::decode::HttpResponse;
use audd::http::query_with_token;
use audd::client::{
    build_enterprise_fields, check_new_api_token, join_return, recognize_fields, resolve_token,
    EnterpriseOptions, EventKind,
};
use audd::errors::AudDError;
use audd::source::{
    reader_attempt, ReaderAttempt, classify_source_text, consumed_reader_error, missing_path_error, upload_file_name, SourceKind,
};
use audd::user_agent::{rustc_version, user_agent_text};

fn pairs(v: &[(&'static str, String)]) -> Vec<(String, String)> {
    v.iter().map(|(k, s)| (k.to_string(), s.clone())).collect()
}

fn p(k: &str, v: &str) -> (String, String) {
    (k.to_string(), v.to_string())
}

#[test]
fn enterprise_fields_all_set() {
    let opts = EnterpriseOptions {
        skip: Some(2),
        every: Some(5),
        limit: Some(10),
        skip_first_seconds: Some(30),
        use_timecode: Some(true),
        accurate_offsets: Some(false),
        ..Default::default()
    };
    let f = build_enterprise_fields(Some("apple_music,deezer"), &opts);
    assert_eq!(
        pairs(&f),
        vec![
            p("return", "apple_music,deezer"),
            p("skip", "2"),
            p("every", "5"),
            p("limit", "10"),
            p("skip_first_seconds", "30"),
            p("use_timecode", "true"),
            p("accurate_offsets", "false"),
        ]
    );
}

#[test]
fn enterprise_fields_only_set_options() {
    let opts = EnterpriseOptions { limit: Some(-1), ..Default::default() };
    assert_eq!(pairs(&build_enterprise_fields(None, &opts)), vec![p("limit", "-1")]);
    assert!(build_enterprise_fields(None, &EnterpriseOptions::default()).is_empty());
}

#[test]
fn recognize_fields_forms() {
    let ret = vec!["apple_music".to_string(), "spotify".to_string()];
    assert_eq!(
        pairs(&recognize_fields(Some(&ret), Some("us"))),
        vec![p("return", "apple_music,spotify"), p("market", "us")]
    );
    assert!(recognize_fields(None, None).is_empty());
    let empty: Vec<String> = Vec::new();
    assert_eq!(pairs(&recognize_fields(Some(&empty), None)), vec![p("return", "")]);
    assert_eq!(join_return(Some(&ret)).as_deref(), Some("apple_music,spotify"));
    assert_eq!(join_return(None), None);
}

#[test]
fn from_env_picks_up_audd_api_token() {
    assert_eq!(resolve_token("", Some("env-tok".to_string())).unwrap(), "env-tok");
}

#[test]
fn try_new_uses_explicit_over_env() {
    assert_eq!(resolve_token("explicit", Some("env-tok-3".to_string())).unwrap(), "explicit");
}

#[test]
fn from_env_errors_when_missing() {
    for env in [None, Some(String::new())] {
        match resolve_token("", env) {
            Err(AudDError::Configuration { message }) => {
                assert!(message.contains("dashboard.audd.io"), "expected dashboard URL hint in: {message}");
                assert!(message.contains("AUDD_API_TOKEN"));
            }
            other => panic!("expected Configuration, got {other:?}"),
        }
    }
}

#[test]
fn set_api_token_rejects_empty() {
    match check_new_api_token("") {
        Err(AudDError::Configuration { message }) => assert!(message.to_lowercase().contains("non-empty")),
        other => panic!("expected Configuration, got {other:?}"),
    }
    assert!(check_new_api_token("new").is_ok());
}

#[test]
fn event_kinds_are_distinct() {
    assert_ne!(EventKind::Request, EventKind::Response);
    assert_ne!(EventKind::Response, EventKind::Exception);
}

#[test]
fn from_str_detects_url_vs_path() {
    assert_eq!(classify_source_text("https://example.com/x.mp3"), SourceKind::Url);
    assert_eq!(classify_source_text("http://example.com/x.mp3"), SourceKind::Url);
    assert_eq!(classify_source_text("/some/path"), SourceKind::Path);
    assert_eq!(classify_source_text("ftp://x"), SourceKind::Path);
    assert_eq!(classify_source_text("http:/x"), SourceKind::Path);
}

#[test]
fn source_names_and_errors() {
    assert_eq!(upload_file_name(None), "upload.bin");
    assert_eq!(upload_file_name(Some("clip.mp3".into())), "clip.mp3");
    match missing_path_error("/no/such/file") {
        AudDError::Source(m) => assert_eq!(
            m,
            "/no/such/file is not an existing file path. Pass a URL (http:// or https://), a Path, or bytes."
        ),
        other => panic!("got {other:?}"),
    }
    assert!(matches!(consumed_reader_error(), AudDError::Source(m) if m.starts_with("Cannot retry an unbuffered reader")));
}

#[test]
fn user_agent_format() {
    let ua = user_agent_text("1.4.0", rustc_version(None), "linux");
    assert_eq!(ua, "audd-rust/1.4.0 rust/unknown (linux)");
    assert!(ua.starts_with("audd-rust/"), "got {ua}");
    assert!(ua.contains(" rust/"));
    assert!(ua.contains('('));
    assert_eq!(rustc_version(Some("1.80.0")), "1.80.0");
}

#[test]
fn try_new_falls_back_to_env_when_empty() {
    assert_eq!(resolve_token("", Some("env-tok-2".to_string())).unwrap(), "env-tok-2");
}

#[test]
fn query_token_added_once() {
    let q = vec![("category".to_string(), "cat".to_string())];
    let out = query_with_token(q, "tok");
    assert_eq!(out, vec![p("category", "cat"), p("api_token", "tok")]);
    let q = vec![p("api_token", "mine"), p("x", "1")];
    assert_eq!(query_with_token(q.clone(), "tok"), q);
    assert_eq!(query_with_token(Vec::new(), ""), vec![p("api_token", "")]);
}

#[test]
fn event_fields_per_stage() {
    let e = request_event("recognize", "https://api.audd.io/");
    assert_eq!(e.kind, EventKind::Request);
    assert_eq!((e.method.as_str(), e.url.as_str()), ("recognize", "https://api.audd.io/"));
    assert!(e.request_id.is_none() && e.http_status.is_none() && e.error_code.is_none());
    let resp = HttpResponse { json_body: None, http_status: 502, request_id: Some("r-1".into()), raw_text: String::new() };
    let e = response_event("recognize", "u", &resp);
    assert_eq!(e.kind, EventKind::Response);
    assert_eq!(e.http_status, Some(502));
    assert_eq!(e.request_id.as_deref(), Some("r-1"));
    assert!(e.error_code.is_none());
    let err = AudDError::Server { http_status: 500, message: "m".into(), request_id: Some("r-2".into()), raw_response: String::new() };
    let e = exception_event("recognize_enterprise", "u", &err);
    assert_eq!(e.kind, EventKind::Exception);
    assert_eq!(e.request_id.as_deref(), Some("r-2"));
    assert!(e.http_status.is_none() && e.error_code.is_none());
    let err = AudDError::Connection { message: "x".into(), source: None };
    let e = exception_event("recognize", "u", &err);
    assert!(e.request_id.is_none() && e.error_code.is_none());
}

#[test]
fn reader_attempts() {
    assert_eq!(reader_attempt(true, true), ReaderAttempt::Buffered);
    assert_eq!(reader_attempt(true, false), ReaderAttempt::Buffered);
    assert_eq!(reader_attempt(false, true), ReaderAttempt::ReadNow);
    assert_eq!(reader_attempt(false, false), ReaderAttempt::Consumed);
}
