//! The plain values that an upload names: identifiers, checksums, encryption
//! settings and the upload target.

use vstd::prelude::*;

verus! {

/// `reqwest::Error`, the transport's own error. It is declared so that an
/// error of the library can carry it; nothing is read from it and nothing is
/// claimed of what it holds.
#[verifier::external_type_specification]
#[verifier::external_body]
pub struct ExTransportError(reqwest::Error);

/// The smallest number a part can have.
pub const MIN_PART_NUMBER: u16 = 1;

/// The largest number a part can have.
pub const MAX_PART_NUMBER: u16 = 10000;

/// The number of a part within its large file: from 1 to 10000.
#[derive(Debug, Clone, Copy, PartialEq, Eq)]
pub struct PartNumber {
    value: u16,
}

impl View for PartNumber {
    type V = nat;

    closed spec fn view(&self) -> nat {
        self.value as nat
    }
}

impl PartNumber {
    #[verifier::type_invariant]
    spec fn in_range(self) -> bool {
        MIN_PART_NUMBER <= self.value <= MAX_PART_NUMBER
    }

    /// The part number `value`, if a part can have it.
    pub fn new(value: u16) -> (r: Option<PartNumber>)
        ensures
            r.is_some() <==> MIN_PART_NUMBER <= value <= MAX_PART_NUMBER,
            r.is_some() ==> r.unwrap()@ == value,
    {
        if MIN_PART_NUMBER <= value && value <= MAX_PART_NUMBER {
            Some(PartNumber { value })
        } else {
            None
        }
    }

    /// The number itself.
    pub fn get(&self) -> (r: u16)
        ensures
            r == self@,
            MIN_PART_NUMBER <= r <= MAX_PART_NUMBER,
    {
        proof {
            use_type_invariant(self);
        }
        self.value
    }
}

/// A SHA1 checksum as the store exchanges it: text, most often 40 hex
/// digits.
#[derive(Debug, Clone, PartialEq, Eq)]
pub struct Sha1(pub String);

impl View for Sha1 {
    type V = Seq<char>;

    open spec fn view(&self) -> Seq<char> {
        self.0@
    }
}

/// An MD5 checksum as the store exchanges it.
#[derive(Debug, Clone, PartialEq, Eq)]
pub struct Md5(pub String);

impl View for Md5 {
    type V = Seq<char>;

    open spec fn view(&self) -> Seq<char> {
        self.0@
    }
}

/// The store's identifier of a file.
#[derive(Debug, Clone, PartialEq, Eq)]
pub struct FileId(pub String);

impl View for FileId {
    type V = Seq<char>;

    open spec fn view(&self) -> Seq<char> {
        self.0@
    }
}

/// A customer's encryption key, base64-encoded.
#[derive(Debug, Clone, PartialEq, Eq)]
pub struct ServerSideEncryptionCustomerKey(pub String);

impl View for ServerSideEncryptionCustomerKey {
    type V = Seq<char>;

    open spec fn view(&self) -> Seq<char> {
        self.0@
    }
}

/// A point in time, in milliseconds since the start of 1970 (UTC).
#[derive(Debug, Clone, Copy, PartialEq, Eq, Structural)]
pub struct TimeStamp(pub u64);

/// The cipher of server-side encryption.
#[derive(Debug, Clone, Copy, PartialEq, Eq, Structural)]
pub enum EncryptionAlgorithm {
    Aes256,
}

impl EncryptionAlgorithm {
    /// The name by which the store knows the cipher.
    pub open spec fn name(self) -> Seq<char> {
        "AES256"@
    }

    /// The name by which the store knows the cipher.
    pub fn as_str(&self) -> (r: &'static str)
        ensures
            r@ == self.name(),
    {
        "AES256"
    }
}

/// Who manages the key of server-side encryption.
#[derive(Debug, Clone, Copy, PartialEq, Eq, Structural)]
pub enum EncryptionMode {
    /// The store manages the key.
    SseB2,
    /// The customer supplies the key with each request.
    SseC,
}

/// How a stored part is encrypted. Both fields are empty for a part that is
/// not encrypted.
#[derive(Debug, Clone, Copy, PartialEq, Eq, Structural)]
pub struct ServerSideEncryption {
    pub mode: Option<EncryptionMode>,
    pub algorithm: Option<EncryptionAlgorithm>,
}

/// Where a part goes: the URL to post it to, and the token that authorizes
/// the upload.
#[derive(Debug, Clone)]
pub struct UploadPartUrlParameters {
    upload_url: String,
    authorization_token: String,
}

impl UploadPartUrlParameters {
    /// The URL that parts are posted to.
    pub closed spec fn url(self) -> Seq<char> {
        self.upload_url@
    }

    /// The token that authorizes uploads to that URL.
    pub closed spec fn token(self) -> Seq<char> {
        self.authorization_token@
    }

    /// An upload target.
    pub fn new(upload_url: String, authorization_token: String) -> (r: Self)
        ensures
            r.url() == upload_url@,
            r.token() == authorization_token@,
    {
        UploadPartUrlParameters { upload_url, authorization_token }
    }

    /// The URL that parts are posted to.
    pub fn upload_url(&self) -> (r: &String)
        ensures
            r@ == self.url(),
    {
        &self.upload_url
    }

    /// The token that authorizes uploads to that URL.
    pub fn authorization_token(&self) -> (r: &String)
        ensures
            r@ == self.token(),
    {
        &self.authorization_token
    }
}

} // verus!
