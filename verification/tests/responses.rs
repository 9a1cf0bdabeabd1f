use b2_upload::{
    error_outcome, expected_body, record_outcome, transport_failure, EncryptionAlgorithm,
    EncryptionMode, ErrorCategory, ExpectedBody, FileId, JsonErrorObj, Md5, PartNumber, RawError,
    ServerSideEncryption, Sha1, TimeStamp, UploadPartError, UploadPartOk,
};
use std::future::Future;
use std::sync::Arc;
use std::task::{Context, Poll, Wake, Waker};

struct Quiet;

impl Wake for Quiet {
    fn wake(self: Arc<Self>) {}
}

fn complete<F: Future>(future: F) -> F::Output {
    let waker = Waker::from(Arc::new(Quiet));
    let mut context = Context::from_waker(&waker);
    let mut future = Box::pin(future);
    loop {
        if let Poll::Ready(value) = future.as_mut().poll(&mut context) {
            return value;
        }
    }
}

fn read_json(body: &'static str) -> Result<serde_json::Value, reqwest::Error> {
    complete(reqwest::Response::from(http::Response::new(body)).json::<serde_json::Value>())
}

fn text(value: &serde_json::Value, field: &str) -> String {
    value[field].as_str().expect("a string").to_string()
}

fn record_of(value: &serde_json::Value) -> UploadPartOk {
    let number = u16::try_from(value["partNumber"].as_u64().expect("a number")).expect("small");
    let encryption = &value["serverSideEncryption"];
    UploadPartOk::new(
        FileId(text(value, "fileId")),
        PartNumber::new(number).expect("a part number in range"),
        value["contentLength"].as_u64().expect("a number"),
        Sha1(text(value, "contentSha1")),
        value["contentMd5"].as_str().map(|m| Md5(m.to_string())),
        if encryption.is_null() {
            None
        } else {
            Some(ServerSideEncryption {
                mode: match encryption["mode"].as_str() {
                    Some("SSE-C") => Some(EncryptionMode::SseC),
                    Some("SSE-B2") => Some(EncryptionMode::SseB2),
                    _ => None,
                },
                algorithm: match encryption["algorithm"].as_str() {
                    Some("AES256") => Some(EncryptionAlgorithm::Aes256),
                    _ => None,
                },
            })
        },
        TimeStamp(value["uploadTimestamp"].as_u64().expect("a number")),
    )
}

fn object_of(value: &serde_json::Value) -> JsonErrorObj {
    JsonErrorObj {
        status: u16::try_from(value["status"].as_u64().expect("a number")).expect("small"),
        code: text(value, "code"),
        message: text(value, "message"),
    }
}

const STORED: &str = "{\"fileId\": \"4_ze73ede9c9c8412db49f60715_f100b4e93fbae6252_d20150824_m224353_c900_v8881000_t0001\", \"partNumber\": 1, \"contentLength\": 100000000, \"contentSha1\": \"062685a84ab248d2488f02f6b01b948de2514ad8\", \"contentMd5\": \"0c1b2a6c3e3e4b4a4b3b8c5b2a6e3f7d\", \"serverSideEncryption\": {\"algorithm\": \"AES256\", \"mode\": \"SSE-C\"}, \"uploadTimestamp\": 1462212185000}";

const REFUSED: &str =
    "{\"status\": 401, \"code\": \"expired_auth_token\", \"message\": \"Authorization token has expired\"}";

const UNKNOWN: &str = "{\"status\": 507, \"code\": \"storage_cap_exceeded\", \"message\": \"full\"}";

#[test]
fn only_status_200_announces_the_record() {
    assert_eq!(expected_body(200), ExpectedBody::Record);
    for status in [0u16, 100, 199, 201, 204, 301, 400, 401, 408, 500, 503, 2000, u16::MAX] {
        assert_eq!(expected_body(status), ExpectedBody::ErrorObject);
    }
}

#[test]
fn a_well_formed_record_comes_back_with_every_field_as_given() {
    let decoded = read_json(STORED).map(|value| record_of(&value));
    let record = record_outcome(decoded).expect("the record");
    assert_eq!(
        record.file_id(),
        &FileId(
            "4_ze73ede9c9c8412db49f60715_f100b4e93fbae6252_d20150824_m224353_c900_v8881000_t0001"
                .to_string()
        )
    );
    assert_eq!(record.part_number().get(), 1);
    assert_eq!(record.content_length(), 100_000_000);
    assert_eq!(
        record.content_sha1(),
        &Sha1("062685a84ab248d2488f02f6b01b948de2514ad8".to_string())
    );
    assert_eq!(record.content_md5(), Some(&Md5("0c1b2a6c3e3e4b4a4b3b8c5b2a6e3f7d".to_string())));
    assert_eq!(
        record.server_side_encryption(),
        Some(ServerSideEncryption {
            mode: Some(EncryptionMode::SseC),
            algorithm: Some(EncryptionAlgorithm::Aes256),
        })
    );
    assert_eq!(record.upload_timestamp(), TimeStamp(1_462_212_185_000));
}

#[test]
fn a_record_without_the_optional_fields() {
    let given = UploadPartOk::new(
        FileId("4_z".to_string()),
        PartNumber::new(10000).expect("in range"),
        0,
        Sha1("none".to_string()),
        None,
        None,
        TimeStamp(0),
    );
    let record = record_outcome(Ok(given.clone())).expect("the record");
    assert_eq!(record, given);
    assert_eq!(record.content_md5(), None);
    assert_eq!(record.server_side_encryption(), None);
    assert_eq!(record.part_number().get(), 10000);
}

#[test]
fn a_malformed_record_is_an_unexpected_error() {
    let decoded = read_json("{\"fileId\": \"4_z\", \"partNumber\": ").map(|v| record_of(&v));
    match record_outcome(decoded) {
        Err(UploadPartError::Unexpected { raw_error: RawError::ReqwestError(e) }) => {
            assert!(e.is_decode())
        }
        other => panic!("{other:?}"),
    }
}

#[test]
fn a_malformed_error_object_is_an_unexpected_error() {
    let decoded = read_json("<html>busy</html>").map(|v| object_of(&v));
    match error_outcome(decoded) {
        Err(UploadPartError::Unexpected { raw_error: RawError::ReqwestError(e) }) => {
            assert!(e.is_decode())
        }
        other => panic!("{other:?}"),
    }
}

#[test]
fn an_empty_body_is_an_unexpected_error() {
    match error_outcome(read_json("").map(|v| object_of(&v))) {
        Err(error) => {
            assert_eq!(error.category(), ErrorCategory::Unexpected);
            assert_eq!(error.payload(), None);
        }
        Ok(record) => panic!("{record:?}"),
    }
}

#[test]
fn a_documented_error_object_gives_its_error() {
    let decoded = read_json(REFUSED).map(|v| object_of(&v));
    match error_outcome(decoded) {
        Err(UploadPartError::ExpiredAuthToken { raw_error }) => {
            assert_eq!(raw_error.status, 401);
            assert_eq!(raw_error.code, "expired_auth_token");
            assert_eq!(raw_error.message, "Authorization token has expired");
        }
        other => panic!("{other:?}"),
    }
}

#[test]
fn an_undocumented_error_object_is_unexpected_and_kept() {
    let decoded = read_json(UNKNOWN).map(|v| object_of(&v));
    match error_outcome(decoded) {
        Err(UploadPartError::Unexpected { raw_error: RawError::JsonError(raw) }) => {
            assert_eq!(
                raw,
                JsonErrorObj {
                    status: 507,
                    code: "storage_cap_exceeded".to_string(),
                    message: "full".to_string(),
                }
            );
        }
        other => panic!("{other:?}"),
    }
}

#[test]
fn an_error_object_never_gives_a_record() {
    let statuses = [200u16, 400, 401, 408, 503];
    for status in statuses {
        let raw = JsonErrorObj {
            status,
            code: "bad_request".to_string(),
            message: String::new(),
        };
        assert!(error_outcome(Ok(raw)).is_err());
    }
}

#[test]
fn a_failure_to_send_is_unexpected() {
    let failure = match read_json("not json") {
        Err(e) => e,
        Ok(value) => panic!("decoded {value}"),
    };
    match transport_failure(failure) {
        Err(UploadPartError::Unexpected { raw_error: RawError::ReqwestError(_) }) => {}
        other => panic!("{other:?}"),
    }
}
