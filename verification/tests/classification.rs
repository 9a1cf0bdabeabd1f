use b2_upload::{categorize, ErrorCategory, JsonErrorObj, RawError, UploadPartError};
use std::future::Future;
use std::sync::Arc;
use std::task::{Context, Poll, Wake, Waker};

struct Idle;

impl Wake for Idle {
    fn wake(self: Arc<Self>) {}
}

fn run_to_end<F: Future>(future: F) -> F::Output {
    let waker = Waker::from(Arc::new(Idle));
    let mut context = Context::from_waker(&waker);
    let mut future = Box::pin(future);
    loop {
        if let Poll::Ready(value) = future.as_mut().poll(&mut context) {
            return value;
        }
    }
}

fn undecodable() -> reqwest::Error {
    let answer = reqwest::Response::from(http::Response::new("{ \"status\": "));
    match run_to_end(answer.json::<serde_json::Value>()) {
        Err(e) => e,
        Ok(value) => panic!("decoded {value}"),
    }
}

fn object(status: u16, code: &str) -> JsonErrorObj {
    JsonErrorObj {
        status,
        code: code.to_string(),
        message: format!("message for {code}"),
    }
}

#[test]
fn bad_request_is_recognised() {
    let raw = object(400, "bad_request");
    match UploadPartError::from(raw.clone()) {
        UploadPartError::BadRequest { raw_error } => assert_eq!(raw_error, raw),
        other => panic!("{other:?}"),
    }
}

#[test]
fn unauthorized_is_recognised() {
    let raw = object(401, "unauthorized");
    match UploadPartError::from(raw.clone()) {
        UploadPartError::Unauthorized { raw_error } => assert_eq!(raw_error, raw),
        other => panic!("{other:?}"),
    }
}

#[test]
fn bad_auth_token_is_recognised() {
    let raw = object(401, "bad_auth_token");
    match UploadPartError::from(raw.clone()) {
        UploadPartError::BadAuthToken { raw_error } => assert_eq!(raw_error, raw),
        other => panic!("{other:?}"),
    }
}

#[test]
fn expired_auth_token_is_recognised() {
    let raw = object(401, "expired_auth_token");
    match UploadPartError::from(raw.clone()) {
        UploadPartError::ExpiredAuthToken { raw_error } => assert_eq!(raw_error, raw),
        other => panic!("{other:?}"),
    }
}

#[test]
fn request_timeout_is_recognised() {
    let raw = object(408, "request_timeout");
    match UploadPartError::from(raw.clone()) {
        UploadPartError::RequestTimeout { raw_error } => assert_eq!(raw_error, raw),
        other => panic!("{other:?}"),
    }
}

#[test]
fn service_unavailable_is_recognised() {
    let raw = object(503, "service_unavailable");
    match UploadPartError::from(raw.clone()) {
        UploadPartError::ServiceUnavailable { raw_error } => assert_eq!(raw_error, raw),
        other => panic!("{other:?}"),
    }
}

#[test]
fn into_gives_the_same_error_as_from() {
    let error: UploadPartError = object(408, "request_timeout").into();
    assert_eq!(error.category(), ErrorCategory::RequestTimeout);
}

#[test]
fn unmapped_pairs_are_unexpected() {
    let pairs: [(u16, &str); 12] = [
        (400, "unauthorized"),
        (401, "bad_request"),
        (401, "request_timeout"),
        (403, "bad_auth_token"),
        (405, "method_not_allowed"),
        (408, "service_unavailable"),
        (500, "internal_error"),
        (503, "bad_request"),
        (400, ""),
        (400, "Bad_Request"),
        (400, "bad_request "),
        (0, "bad_request"),
    ];
    for (status, code) in pairs {
        let raw = object(status, code);
        match UploadPartError::from(raw.clone()) {
            UploadPartError::Unexpected { raw_error: RawError::JsonError(kept) } => {
                assert_eq!(kept, raw)
            }
            other => panic!("{status} {code}: {other:?}"),
        }
    }
}

#[test]
fn every_error_made_of_an_object_keeps_it() {
    let codes = [
        "bad_request",
        "unauthorized",
        "bad_auth_token",
        "expired_auth_token",
        "request_timeout",
        "service_unavailable",
        "other",
    ];
    for status in [200u16, 400, 401, 408, 503] {
        for code in codes {
            let raw = object(status, code);
            let error = UploadPartError::from(raw.clone());
            assert_eq!(error.payload(), Some(&raw));
            assert_eq!(error.category(), categorize(status, &code.to_string()));
        }
    }
}

#[test]
fn the_table_of_categories() {
    assert_eq!(categorize(400, &"bad_request".to_string()), ErrorCategory::BadRequest);
    assert_eq!(categorize(401, &"unauthorized".to_string()), ErrorCategory::Unauthorized);
    assert_eq!(categorize(401, &"bad_auth_token".to_string()), ErrorCategory::BadAuthToken);
    assert_eq!(categorize(401, &"expired_auth_token".to_string()), ErrorCategory::ExpiredAuthToken);
    assert_eq!(categorize(408, &"request_timeout".to_string()), ErrorCategory::RequestTimeout);
    assert_eq!(categorize(503, &"service_unavailable".to_string()), ErrorCategory::ServiceUnavailable);
    assert_eq!(categorize(503, &"request_timeout".to_string()), ErrorCategory::Unexpected);
    assert_eq!(categorize(400, &"expired_auth_token".to_string()), ErrorCategory::Unexpected);
}

#[test]
fn a_transport_error_is_unexpected() {
    let error = UploadPartError::from(undecodable());
    assert_eq!(error.category(), ErrorCategory::Unexpected);
    assert_eq!(error.payload(), None);
    match error {
        UploadPartError::Unexpected { raw_error: RawError::ReqwestError(e) } => {
            assert!(e.is_decode())
        }
        other => panic!("{other:?}"),
    }
}
