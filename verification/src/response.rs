//! What the store answers to an upload, and what the caller gets for it.
//!
//! The transport first learns the status of the answer, and only then reads
//! the body as the record or as the error object that the status announces.
//! Each of these steps has its function here. Sending and decoding are the
//! transport's work.

use crate::error::{classified, JsonErrorObj, RawError, UploadPartError};
use crate::types::{FileId, Md5, PartNumber, ServerSideEncryption, Sha1, TimeStamp};
use vstd::prelude::*;

verus! {

/// What the record of a stored part holds.
pub ghost struct UploadPartOkView {
    pub file_id: Seq<char>,
    pub part_number: nat,
    pub content_length: nat,
    pub content_sha1: Seq<char>,
    pub content_md5: Option<Seq<char>>,
    pub server_side_encryption: Option<ServerSideEncryption>,
    pub upload_timestamp: TimeStamp,
}

/// The store's record of a part that it has stored.
#[derive(Debug, Clone, PartialEq, Eq)]
pub struct UploadPartOk {
    file_id: FileId,
    part_number: PartNumber,
    content_length: u64,
    content_sha1: Sha1,
    content_md5: Option<Md5>,
    server_side_encryption: Option<ServerSideEncryption>,
    upload_timestamp: TimeStamp,
}

impl View for UploadPartOk {
    type V = UploadPartOkView;

    closed spec fn view(&self) -> UploadPartOkView {
        UploadPartOkView {
            file_id: self.file_id@,
            part_number: self.part_number@,
            content_length: self.content_length as nat,
            content_sha1: self.content_sha1@,
            content_md5: match self.content_md5 {
                Some(m) => Some(m@),
                None => None,
            },
            server_side_encryption: self.server_side_encryption,
            upload_timestamp: self.upload_timestamp,
        }
    }
}

impl UploadPartOk {
    /// The record that holds these values, each as given.
    pub fn new(
        file_id: FileId,
        part_number: PartNumber,
        content_length: u64,
        content_sha1: Sha1,
        content_md5: Option<Md5>,
        server_side_encryption: Option<ServerSideEncryption>,
        upload_timestamp: TimeStamp,
    ) -> (r: Self)
        ensures
            r@ == (UploadPartOkView {
                file_id: file_id@,
                part_number: part_number@,
                content_length: content_length as nat,
                content_sha1: content_sha1@,
                content_md5: match content_md5 {
                    Some(m) => Some(m@),
                    None => None,
                },
                server_side_encryption,
                upload_timestamp,
            }),
    {
        UploadPartOk {
            file_id,
            part_number,
            content_length,
            content_sha1,
            content_md5,
            server_side_encryption,
            upload_timestamp,
        }
    }

    /// The large file that the part belongs to.
    pub fn file_id(&self) -> (r: &FileId)
        ensures
            r@ == self@.file_id,
    {
        &self.file_id
    }

    /// The number of the part.
    pub fn part_number(&self) -> (r: PartNumber)
        ensures
            r@ == self@.part_number,
    {
        self.part_number
    }

    /// The number of bytes stored.
    pub fn content_length(&self) -> (r: u64)
        ensures
            r == self@.content_length,
    {
        self.content_length
    }

    /// The SHA1 checksum of what was stored.
    pub fn content_sha1(&self) -> (r: &Sha1)
        ensures
            r@ == self@.content_sha1,
    {
        &self.content_sha1
    }

    /// The MD5 checksum of what was stored, where the store gives one.
    pub fn content_md5(&self) -> (r: Option<&Md5>)
        ensures
            match r {
                Some(m) => self@.content_md5 == Some(m@),
                None => self@.content_md5.is_none(),
            },
    {
        self.content_md5.as_ref()
    }

    /// How the part is encrypted, where the store says so.
    pub fn server_side_encryption(&self) -> (r: Option<ServerSideEncryption>)
        ensures
            r == self@.server_side_encryption,
    {
        self.server_side_encryption
    }

    /// When the store took the part.
    pub fn upload_timestamp(&self) -> (r: TimeStamp)
        ensures
            r == self@.upload_timestamp,
    {
        self.upload_timestamp
    }
}

/// The status of success.
pub const STATUS_OK: u16 = 200;

/// The number of `http_types::StatusCode::Ok`. Trusted: that enum is
/// `repr(u16)` and declares `Ok = 200`, and the cast reads the declared
/// discriminant.
#[verifier::external_body]
fn ok_status() -> (r: u16)
    ensures
        r == STATUS_OK,
{
    http_types::StatusCode::Ok as u16
}

/// What the body of an answer is to be read as.
#[derive(Debug, Clone, Copy, PartialEq, Eq, Structural)]
pub enum ExpectedBody {
    /// The record of the stored part.
    Record,
    /// The store's error object.
    ErrorObject,
}

/// What the body of an answer holds: the record where the status is that of
/// success, the error object with every other status.
pub open spec fn body_for(status: u16) -> ExpectedBody {
    if status == STATUS_OK {
        ExpectedBody::Record
    } else {
        ExpectedBody::ErrorObject
    }
}

/// What the result of an upload is once the body was read as the record:
/// the record, or the unexpected error that keeps the transport's error.
pub open spec fn record_result(decoded: Result<UploadPartOk, reqwest::Error>) -> Result<
    UploadPartOk,
    UploadPartError,
> {
    match decoded {
        Ok(record) => Ok(record),
        Err(e) => Err(UploadPartError::Unexpected { raw_error: RawError::ReqwestError(e) }),
    }
}

/// What the result of an upload is once the body was read as the error
/// object: the error that the object stands for, or the unexpected error
/// that keeps the transport's error.
pub open spec fn error_result(decoded: Result<JsonErrorObj, reqwest::Error>) -> Result<
    UploadPartOk,
    UploadPartError,
> {
    match decoded {
        Ok(object) => Err(classified(object)),
        Err(e) => Err(UploadPartError::Unexpected { raw_error: RawError::ReqwestError(e) }),
    }
}

/// Tells from the status of an answer what its body is to be read as.
pub fn expected_body(status: u16) -> (r: ExpectedBody)
    ensures
        r == body_for(status),
{
    if status == ok_status() {
        ExpectedBody::Record
    } else {
        ExpectedBody::ErrorObject
    }
}

/// Ends an upload whose answer had the status of success: `decoded` is what
/// reading the body as the record gave.
pub fn record_outcome(decoded: Result<UploadPartOk, reqwest::Error>) -> (r: Result<
    UploadPartOk,
    UploadPartError,
>)
    ensures
        r == record_result(decoded),
{
    match decoded {
        Ok(record) => Ok(record),
        Err(e) => Err(UploadPartError::from(e)),
    }
}

/// Ends an upload whose answer had another status: `decoded` is what
/// reading the body as the error object gave. Such an upload never
/// succeeds.
pub fn error_outcome(decoded: Result<JsonErrorObj, reqwest::Error>) -> (r: Result<
    UploadPartOk,
    UploadPartError,
>)
    ensures
        r == error_result(decoded),
{
    match decoded {
        Ok(object) => Err(UploadPartError::from(object)),
        Err(e) => Err(UploadPartError::from(e)),
    }
}

/// Ends an upload that the transport could not send, or whose answer it
/// could not receive.
pub fn transport_failure(e: reqwest::Error) -> (r: Result<UploadPartOk, UploadPartError>)
    ensures
        r == Err::<UploadPartOk, UploadPartError>(
            UploadPartError::Unexpected { raw_error: RawError::ReqwestError(e) },
        ),
{
    Err(UploadPartError::from(e))
}

/// A body that cannot be decoded ends the upload with the unexpected error,
/// whichever of the two it was to be read as, and the error keeps what the
/// transport reported.
pub proof fn lemma_undecodable_body_is_unexpected(e: reqwest::Error)
    ensures
        record_result(Err(e)) == Err::<UploadPartOk, UploadPartError>(
            UploadPartError::Unexpected { raw_error: RawError::ReqwestError(e) },
        ),
        error_result(Err(e)) == Err::<UploadPartOk, UploadPartError>(
            UploadPartError::Unexpected { raw_error: RawError::ReqwestError(e) },
        ),
{
}

/// A record that was decoded is the result, unchanged.
pub proof fn lemma_decoded_record_is_result(record: UploadPartOk)
    ensures
        record_result(Ok(record)) == Ok::<UploadPartOk, UploadPartError>(record),
{
}

} // verus!
