//! What can go wrong with an upload, and how the store's error object is
//! sorted into it.

use vstd::prelude::*;
use vstd::std_specs::convert::FromSpecImpl;

verus! {

/// The error object that the store sends with every status but success.
#[derive(Debug, Clone, PartialEq, Eq)]
pub struct JsonErrorObj {
    /// The HTTP status, repeated in the body.
    pub status: u16,
    /// The short machine-readable code.
    pub code: String,
    /// The text for a human reader.
    pub message: String,
}

/// An error that the store's documentation does not list for this call.
#[derive(Debug)]
pub enum RawError {
    /// The transport failed: the network, a timeout, or a body that could
    /// not be decoded.
    ReqwestError(reqwest::Error),
    /// The store sent an error object with an undocumented status and code.
    JsonError(JsonErrorObj),
}

/// The categories of failure, without their payload.
#[derive(Debug, Clone, Copy, PartialEq, Eq, Structural)]
pub enum ErrorCategory {
    BadRequest,
    Unauthorized,
    BadAuthToken,
    ExpiredAuthToken,
    RequestTimeout,
    ServiceUnavailable,
    Unexpected,
}

/// Why an upload of a part failed.
#[allow(inconsistent_fields)]
#[derive(Debug)]
pub enum UploadPartError {
    BadRequest { raw_error: JsonErrorObj },
    Unauthorized { raw_error: JsonErrorObj },
    /// The upload token is not valid: ask for a new upload URL and token.
    BadAuthToken { raw_error: JsonErrorObj },
    /// The upload token has expired: ask for a new upload URL and token.
    ExpiredAuthToken { raw_error: JsonErrorObj },
    RequestTimeout { raw_error: JsonErrorObj },
    /// The store is busy: ask for a new upload URL and token.
    ServiceUnavailable { raw_error: JsonErrorObj },
    Unexpected { raw_error: RawError },
}

/// The table of documented failures: the category that a status and a code
/// stand for. Every pair that the table does not hold is unexpected.
pub open spec fn category_of(status: u16, code: Seq<char>) -> ErrorCategory {
    if status == 400 && code == "bad_request"@ {
        ErrorCategory::BadRequest
    } else if status == 401 && code == "unauthorized"@ {
        ErrorCategory::Unauthorized
    } else if status == 401 && code == "bad_auth_token"@ {
        ErrorCategory::BadAuthToken
    } else if status == 401 && code == "expired_auth_token"@ {
        ErrorCategory::ExpiredAuthToken
    } else if status == 408 && code == "request_timeout"@ {
        ErrorCategory::RequestTimeout
    } else if status == 503 && code == "service_unavailable"@ {
        ErrorCategory::ServiceUnavailable
    } else {
        ErrorCategory::Unexpected
    }
}

/// The error of a category that carries `raw` as its payload.
pub open spec fn error_with(category: ErrorCategory, raw: JsonErrorObj) -> UploadPartError {
    match category {
        ErrorCategory::BadRequest => UploadPartError::BadRequest { raw_error: raw },
        ErrorCategory::Unauthorized => UploadPartError::Unauthorized { raw_error: raw },
        ErrorCategory::BadAuthToken => UploadPartError::BadAuthToken { raw_error: raw },
        ErrorCategory::ExpiredAuthToken => UploadPartError::ExpiredAuthToken { raw_error: raw },
        ErrorCategory::RequestTimeout => UploadPartError::RequestTimeout { raw_error: raw },
        ErrorCategory::ServiceUnavailable => UploadPartError::ServiceUnavailable {
            raw_error: raw,
        },
        ErrorCategory::Unexpected => UploadPartError::Unexpected {
            raw_error: RawError::JsonError(raw),
        },
    }
}

/// What the store's error object becomes: the error of its category, with
/// the object itself as the payload.
pub open spec fn classified(e: JsonErrorObj) -> UploadPartError {
    error_with(category_of(e.status, e.code@), e)
}

/// Whether the table of documented failures holds this status and code.
pub open spec fn documented(status: u16, code: Seq<char>) -> bool {
    ||| status == 400 && code == "bad_request"@
    ||| status == 401 && code == "unauthorized"@
    ||| status == 401 && code == "bad_auth_token"@
    ||| status == 401 && code == "expired_auth_token"@
    ||| status == 408 && code == "request_timeout"@
    ||| status == 503 && code == "service_unavailable"@
}

/// Every documented status and code gives the error of its own category,
/// whatever the message, and the error carries the object unchanged.
pub proof fn lemma_documented_pairs(e: JsonErrorObj)
    ensures
        e.status == 400 && e.code@ == "bad_request"@ ==> classified(e)
            == (UploadPartError::BadRequest { raw_error: e }),
        e.status == 401 && e.code@ == "unauthorized"@ ==> classified(e)
            == (UploadPartError::Unauthorized { raw_error: e }),
        e.status == 401 && e.code@ == "bad_auth_token"@ ==> classified(e)
            == (UploadPartError::BadAuthToken { raw_error: e }),
        e.status == 401 && e.code@ == "expired_auth_token"@ ==> classified(e)
            == (UploadPartError::ExpiredAuthToken { raw_error: e }),
        e.status == 408 && e.code@ == "request_timeout"@ ==> classified(e)
            == (UploadPartError::RequestTimeout { raw_error: e }),
        e.status == 503 && e.code@ == "service_unavailable"@ ==> classified(e)
            == (UploadPartError::ServiceUnavailable { raw_error: e }),
        documented(e.status, e.code@) <==> classified(e).category_spec()
            != ErrorCategory::Unexpected,
        classified(e).payload_spec() == Some(e),
{
    reveal_strlit("unauthorized");
    reveal_strlit("bad_auth_token");
    reveal_strlit("expired_auth_token");
    assert("unauthorized"@.len() == 12);
    assert("bad_auth_token"@.len() == 14);
    assert("expired_auth_token"@.len() == 18);
}

/// A status and code that the table does not hold give the unexpected
/// error, which carries the object unchanged.
pub proof fn lemma_unmapped_is_unexpected(e: JsonErrorObj)
    requires
        !documented(e.status, e.code@),
    ensures
        classified(e) == (UploadPartError::Unexpected { raw_error: RawError::JsonError(e) }),
{
}

/// Whether `code` reads exactly `name`.
fn code_is(code: &String, name: &str) -> (r: bool)
    ensures
        r == (code@ == name@),
{
    let wanted: String = String::from_str(name);
    *code == wanted
}

/// Looks a status and a code up in the table of documented failures.
pub fn categorize(status: u16, code: &String) -> (r: ErrorCategory)
    ensures
        r == category_of(status, code@),
{
    if status == 400 && code_is(code, "bad_request") {
        ErrorCategory::BadRequest
    } else if status == 401 && code_is(code, "unauthorized") {
        ErrorCategory::Unauthorized
    } else if status == 401 && code_is(code, "bad_auth_token") {
        ErrorCategory::BadAuthToken
    } else if status == 401 && code_is(code, "expired_auth_token") {
        ErrorCategory::ExpiredAuthToken
    } else if status == 408 && code_is(code, "request_timeout") {
        ErrorCategory::RequestTimeout
    } else if status == 503 && code_is(code, "service_unavailable") {
        ErrorCategory::ServiceUnavailable
    } else {
        ErrorCategory::Unexpected
    }
}

impl UploadPartError {
    /// The category of this error.
    pub open spec fn category_spec(self) -> ErrorCategory {
        match self {
            UploadPartError::BadRequest { .. } => ErrorCategory::BadRequest,
            UploadPartError::Unauthorized { .. } => ErrorCategory::Unauthorized,
            UploadPartError::BadAuthToken { .. } => ErrorCategory::BadAuthToken,
            UploadPartError::ExpiredAuthToken { .. } => ErrorCategory::ExpiredAuthToken,
            UploadPartError::RequestTimeout { .. } => ErrorCategory::RequestTimeout,
            UploadPartError::ServiceUnavailable { .. } => ErrorCategory::ServiceUnavailable,
            UploadPartError::Unexpected { .. } => ErrorCategory::Unexpected,
        }
    }

    /// The store's error object that this error carries, if the store sent
    /// one.
    pub open spec fn payload_spec(self) -> Option<JsonErrorObj> {
        match self {
            UploadPartError::BadRequest { raw_error } => Some(raw_error),
            UploadPartError::Unauthorized { raw_error } => Some(raw_error),
            UploadPartError::BadAuthToken { raw_error } => Some(raw_error),
            UploadPartError::ExpiredAuthToken { raw_error } => Some(raw_error),
            UploadPartError::RequestTimeout { raw_error } => Some(raw_error),
            UploadPartError::ServiceUnavailable { raw_error } => Some(raw_error),
            UploadPartError::Unexpected { raw_error: RawError::JsonError(raw) } => Some(raw),
            UploadPartError::Unexpected { raw_error: RawError::ReqwestError(_) } => None,
        }
    }

    /// The category of this error.
    pub fn category(&self) -> (r: ErrorCategory)
        ensures
            r == self.category_spec(),
    {
        match self {
            UploadPartError::BadRequest { .. } => ErrorCategory::BadRequest,
            UploadPartError::Unauthorized { .. } => ErrorCategory::Unauthorized,
            UploadPartError::BadAuthToken { .. } => ErrorCategory::BadAuthToken,
            UploadPartError::ExpiredAuthToken { .. } => ErrorCategory::ExpiredAuthToken,
            UploadPartError::RequestTimeout { .. } => ErrorCategory::RequestTimeout,
            UploadPartError::ServiceUnavailable { .. } => ErrorCategory::ServiceUnavailable,
            UploadPartError::Unexpected { .. } => ErrorCategory::Unexpected,
        }
    }

    /// The store's error object that this error carries, if the store sent
    /// one.
    pub fn payload(&self) -> (r: Option<&JsonErrorObj>)
        ensures
            match r {
                Some(raw) => self.payload_spec() == Some(*raw),
                None => self.payload_spec().is_none(),
            },
    {
        match self {
            UploadPartError::BadRequest { raw_error } => Some(raw_error),
            UploadPartError::Unauthorized { raw_error } => Some(raw_error),
            UploadPartError::BadAuthToken { raw_error } => Some(raw_error),
            UploadPartError::ExpiredAuthToken { raw_error } => Some(raw_error),
            UploadPartError::RequestTimeout { raw_error } => Some(raw_error),
            UploadPartError::ServiceUnavailable { raw_error } => Some(raw_error),
            UploadPartError::Unexpected { raw_error: RawError::JsonError(raw) } => Some(raw),
            UploadPartError::Unexpected { raw_error: RawError::ReqwestError(_) } => None,
        }
    }
}

impl From<JsonErrorObj> for UploadPartError {
    /// Sorts the store's error object into its category. The object itself
    /// is kept as the payload.
    fn from(e: JsonErrorObj) -> (r: Self) {
        match categorize(e.status, &e.code) {
            ErrorCategory::BadRequest => UploadPartError::BadRequest { raw_error: e },
            ErrorCategory::Unauthorized => UploadPartError::Unauthorized { raw_error: e },
            ErrorCategory::BadAuthToken => UploadPartError::BadAuthToken { raw_error: e },
            ErrorCategory::ExpiredAuthToken => UploadPartError::ExpiredAuthToken { raw_error: e },
            ErrorCategory::RequestTimeout => UploadPartError::RequestTimeout { raw_error: e },
            ErrorCategory::ServiceUnavailable => UploadPartError::ServiceUnavailable {
                raw_error: e,
            },
            ErrorCategory::Unexpected => UploadPartError::Unexpected {
                raw_error: RawError::JsonError(e),
            },
        }
    }
}

impl FromSpecImpl<JsonErrorObj> for UploadPartError {
    open spec fn obeys_from_spec() -> bool {
        true
    }

    open spec fn from_spec(e: JsonErrorObj) -> Self {
        classified(e)
    }
}

impl From<reqwest::Error> for UploadPartError {
    /// A failure of the transport is unexpected, and keeps the transport's
    /// error.
    fn from(e: reqwest::Error) -> (r: Self) {
        UploadPartError::Unexpected { raw_error: RawError::ReqwestError(e) }
    }
}

impl FromSpecImpl<reqwest::Error> for UploadPartError {
    open spec fn obeys_from_spec() -> bool {
        true
    }

    open spec fn from_spec(e: reqwest::Error) -> Self {
        UploadPartError::Unexpected { raw_error: RawError::ReqwestError(e) }
    }
}

} // verus!
