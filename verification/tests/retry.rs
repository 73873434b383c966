use audd::errors::{AudDError, ErrorSource};
use audd::retry::{
    is_pre_upload_connection_error, no_attempt_error, should_retry_error, should_retry_response,
    RetryClass, RetryLoop, RetryStep,
};

fn connection(source: Option<ErrorSource>) -> AudDError {
    AudDError::Connection { message: "boom".to_string(), source }
}

fn transport(is_connect: bool, is_request: bool, is_timeout: bool) -> Option<ErrorSource> {
    Some(ErrorSource::Transport { is_connect, is_request, is_timeout })
}

#[test]
fn read_retries_on_5xx() {
    assert!(should_retry_response(503, RetryClass::Read));
    assert!(should_retry_response(429, RetryClass::Read));
    assert!(should_retry_response(408, RetryClass::Read));
    assert!(!should_retry_response(404, RetryClass::Read));
}

#[test]
fn recognition_skips_429() {
    assert!(should_retry_response(503, RetryClass::Recognition));
    assert!(!should_retry_response(429, RetryClass::Recognition));
}

#[test]
fn mutating_no_retry_on_response() {
    assert!(!should_retry_response(503, RetryClass::Mutating));
    assert!(!should_retry_response(429, RetryClass::Mutating));
}

#[test]
fn status_boundaries() {
    assert!(!should_retry_response(499, RetryClass::Read));
    assert!(should_retry_response(500, RetryClass::Read));
    assert!(!should_retry_response(499, RetryClass::Recognition));
    assert!(should_retry_response(500, RetryClass::Recognition));
    assert!(!should_retry_response(408, RetryClass::Recognition));
    assert!(!should_retry_response(200, RetryClass::Read));
    assert!(!should_retry_response(500, RetryClass::Mutating));
}

#[test]
fn pre_upload_heuristic() {
    assert!(is_pre_upload_connection_error(&ErrorSource::Transport {
        is_connect: true,
        is_request: false,
        is_timeout: true
    }));
    assert!(is_pre_upload_connection_error(&ErrorSource::Transport {
        is_connect: false,
        is_request: true,
        is_timeout: false
    }));
    assert!(!is_pre_upload_connection_error(&ErrorSource::Transport {
        is_connect: false,
        is_request: true,
        is_timeout: true
    }));
    assert!(!is_pre_upload_connection_error(&ErrorSource::Transport {
        is_connect: false,
        is_request: false,
        is_timeout: false
    }));
    assert!(!is_pre_upload_connection_error(&ErrorSource::Other));
}

#[test]
fn read_retries_every_connection_error() {
    assert!(should_retry_error(&connection(None), RetryClass::Read));
    assert!(should_retry_error(&connection(Some(ErrorSource::Other)), RetryClass::Read));
    assert!(should_retry_error(&connection(transport(false, false, true)), RetryClass::Read));
}

#[test]
fn metered_retries_only_pre_upload_failures() {
    for class in [RetryClass::Recognition, RetryClass::Mutating] {
        assert!(!should_retry_error(&connection(None), class));
        assert!(!should_retry_error(&connection(Some(ErrorSource::Other)), class));
        assert!(should_retry_error(&connection(transport(true, false, false)), class));
        assert!(should_retry_error(&connection(transport(false, true, false)), class));
        // A read timeout after the upload is never retried.
        assert!(!should_retry_error(&connection(transport(false, true, true)), class));
        assert!(!should_retry_error(&connection(transport(false, false, true)), class));
    }
}

#[test]
fn only_connection_errors_are_retried() {
    let e = AudDError::Configuration { message: "x".to_string() };
    assert!(!should_retry_error(&e, RetryClass::Read));
    let e = AudDError::Serialization { message: "x".to_string(), raw_text: String::new() };
    assert!(!should_retry_error(&e, RetryClass::Read));
    let e = AudDError::Source("x".to_string());
    assert!(!should_retry_error(&e, RetryClass::Read));
}

#[test]
fn retry_loop_first_success_after_one_retry() {
    let mut l = RetryLoop::start(RetryClass::Read, 3).unwrap();
    assert_eq!(l.attempt(), 0);
    assert_eq!(l.after_response(503), RetryStep::Retry { backoff_attempt: 0 });
    assert_eq!(l.attempt(), 1);
    assert_eq!(l.after_response(200), RetryStep::Finish);
    assert_eq!(l.attempt(), 1);
}

#[test]
fn retry_loop_respects_max_attempts() {
    let mut l = RetryLoop::start(RetryClass::Read, 2).unwrap();
    assert_eq!(l.after_response(503), RetryStep::Retry { backoff_attempt: 0 });
    assert_eq!(l.after_response(503), RetryStep::Finish);
    assert_eq!(l.attempt(), 1);
    assert_eq!(l.max_attempts(), 2);
}

#[test]
fn retry_loop_single_attempt_never_retries() {
    let mut l = RetryLoop::start(RetryClass::Read, 1).unwrap();
    assert_eq!(l.after_response(503), RetryStep::Finish);
    let mut l = RetryLoop::start(RetryClass::Mutating, 1).unwrap();
    assert_eq!(l.after_error(&connection(transport(true, false, false))), RetryStep::Finish);
}

#[test]
fn retry_loop_error_path() {
    let mut l = RetryLoop::start(RetryClass::Recognition, 3).unwrap();
    assert_eq!(
        l.after_error(&connection(transport(true, false, false))),
        RetryStep::Retry { backoff_attempt: 0 }
    );
    assert_eq!(
        l.after_error(&connection(transport(true, false, false))),
        RetryStep::Retry { backoff_attempt: 1 }
    );
    assert_eq!(l.after_error(&connection(transport(true, false, false))), RetryStep::Finish);
    assert_eq!(l.attempt(), 2);
    let mut l = RetryLoop::start(RetryClass::Recognition, 3).unwrap();
    assert_eq!(l.after_error(&connection(transport(false, true, true))), RetryStep::Finish);
}

#[test]
fn retry_loop_zero_attempts() {
    assert!(RetryLoop::start(RetryClass::Read, 0).is_none());
    match no_attempt_error() {
        AudDError::Connection { message, source } => {
            assert_eq!(message, "retry loop exited without result (max_attempts=0?)");
            assert!(source.is_none());
        }
        other => panic!("expected Connection, got {other:?}"),
    }
}
