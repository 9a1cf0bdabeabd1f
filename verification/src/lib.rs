//! Uploading one part of a large file to a B2-style object store: the request
//! headers that carry the parameters, and the classification of what the
//! store answers.

pub mod decimal;
pub mod error;
pub mod parameters;
pub mod response;
pub mod types;

pub use decimal::decimal_text;
pub use error::{categorize, ErrorCategory, JsonErrorObj, RawError, UploadPartError};
pub use parameters::{Header, UploadPartParameters, UploadPartParametersBuilder};
pub use response::{
    error_outcome, expected_body, record_outcome, transport_failure, ExpectedBody, UploadPartOk,
};
pub use types::{
    EncryptionAlgorithm, EncryptionMode, FileId, Md5, PartNumber, ServerSideEncryption,
    ServerSideEncryptionCustomerKey, Sha1, TimeStamp, UploadPartUrlParameters,
};
