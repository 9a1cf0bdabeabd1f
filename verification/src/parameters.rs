//! The parameters of one upload, and the request headers that carry them.

use crate::decimal::{decimal, decimal_text};
use crate::types::{
    EncryptionAlgorithm, Md5, PartNumber, ServerSideEncryptionCustomerKey, Sha1,
    UploadPartUrlParameters,
};
use vstd::prelude::*;

verus! {

/// One request header.
#[derive(Debug, Clone, PartialEq, Eq)]
pub struct Header {
    pub name: String,
    pub value: String,
}

impl View for Header {
    type V = (Seq<char>, Seq<char>);

    open spec fn view(&self) -> (Seq<char>, Seq<char>) {
        (self.name@, self.value@)
    }
}

/// The names and values of a list of headers, in order.
pub open spec fn header_pairs(headers: Seq<Header>) -> Seq<(Seq<char>, Seq<char>)> {
    headers.map_values(|h: Header| h@)
}

/// A header that is sent only where its value is set.
pub open spec fn optional_header(name: Seq<char>, value: Option<Seq<char>>) -> Seq<
    (Seq<char>, Seq<char>),
> {
    match value {
        Some(v) => seq![(name, v)],
        None => Seq::empty(),
    }
}

/// What the parameters of an upload hold.
pub ghost struct UploadPartParametersView {
    pub part_number: nat,
    pub content_length: nat,
    pub content_sha1: Seq<char>,
    pub server_side_encryption_algorithm: Option<EncryptionAlgorithm>,
    pub server_side_encryption_customer_key: Option<Seq<char>>,
    pub server_side_encryption_customer_key_md5: Option<Seq<char>>,
}

impl UploadPartParametersView {
    /// The headers that carry the parameters: the part's number, its length
    /// and its checksum, then each encryption setting that is set.
    pub open spec fn headers(self) -> Seq<(Seq<char>, Seq<char>)> {
        seq![
            ("X-Bz-Part-Number"@, decimal(self.part_number)),
            ("Content-Length"@, decimal(self.content_length)),
            ("X-Bz-Content-Sha1"@, self.content_sha1),
        ] + optional_header(
            "X-Bz-Server-Side-Encryption-Customer-Algorithm"@,
            match self.server_side_encryption_algorithm {
                Some(a) => Some(a.name()),
                None => None,
            },
        ) + optional_header(
            "X-Bz-Server-Side-Encryption-Customer-Key"@,
            self.server_side_encryption_customer_key,
        ) + optional_header(
            "X-Bz-Server-Side-Encryption-Customer-Key-Md5"@,
            self.server_side_encryption_customer_key_md5,
        )
    }
}

/// The parameters of the upload of one part.
#[derive(Debug, Clone)]
pub struct UploadPartParameters {
    /// From 1 to 10000. The parts of one file have contiguous numbers,
    /// starting with 1.
    part_number: PartNumber,
    /// The number of bytes sent. Where the checksum follows the data, it
    /// counts in: the part's size plus 40.
    content_length: u64,
    /// The SHA1 checksum of the part, which the store checks on arrival.
    content_sha1: Sha1,
    /// Set where the large file was started with a customer's key: the
    /// cipher named then.
    server_side_encryption_algorithm: Option<EncryptionAlgorithm>,
    /// Set where the large file was started with a customer's key: that key.
    server_side_encryption_customer_key: Option<ServerSideEncryptionCustomerKey>,
    /// Set where the large file was started with a customer's key: the MD5
    /// checksum of that key.
    server_side_encryption_customer_key_md5: Option<Md5>,
}

impl View for UploadPartParameters {
    type V = UploadPartParametersView;

    closed spec fn view(&self) -> UploadPartParametersView {
        UploadPartParametersView {
            part_number: self.part_number@,
            content_length: self.content_length as nat,
            content_sha1: self.content_sha1@,
            server_side_encryption_algorithm: self.server_side_encryption_algorithm,
            server_side_encryption_customer_key: match self.server_side_encryption_customer_key {
                Some(k) => Some(k@),
                None => None,
            },
            server_side_encryption_customer_key_md5: match self.server_side_encryption_customer_key_md5 {
                Some(m) => Some(m@),
                None => None,
            },
        }
    }
}

/// A header with this name and value.
fn header(name: &str, value: String) -> (r: Header)
    ensures
        r@ == (name@, value@),
{
    Header { name: String::from_str(name), value }
}

impl UploadPartParameters {
    /// Starts the parameters of an upload with what every upload names.
    /// Nothing about encryption is set.
    pub fn builder(part_number: PartNumber, content_length: u64, content_sha1: Sha1) -> (r:
        UploadPartParametersBuilder)
        ensures
            r@ == (UploadPartParametersView {
                part_number: part_number@,
                content_length: content_length as nat,
                content_sha1: content_sha1@,
                server_side_encryption_algorithm: None,
                server_side_encryption_customer_key: None,
                server_side_encryption_customer_key_md5: None,
            }),
    {
        UploadPartParametersBuilder {
            params: UploadPartParameters {
                part_number,
                content_length,
                content_sha1,
                server_side_encryption_algorithm: None,
                server_side_encryption_customer_key: None,
                server_side_encryption_customer_key_md5: None,
            },
        }
    }

    /// The headers that carry these parameters, in the order in which they
    /// are sent.
    pub fn headers(&self) -> (r: Vec<Header>)
        ensures
            header_pairs(r@) == self@.headers(),
    {
        let mut out: Vec<Header> = Vec::new();
        out.push(header("X-Bz-Part-Number", decimal_text(self.part_number.get() as u64)));
        out.push(header("Content-Length", decimal_text(self.content_length)));
        out.push(header("X-Bz-Content-Sha1", self.content_sha1.0.clone()));
        if let Some(algorithm) = &self.server_side_encryption_algorithm {
            out.push(
                header(
                    "X-Bz-Server-Side-Encryption-Customer-Algorithm",
                    String::from_str(algorithm.as_str()),
                ),
            );
        }
        if let Some(key) = &self.server_side_encryption_customer_key {
            out.push(header("X-Bz-Server-Side-Encryption-Customer-Key", key.0.clone()));
        }
        if let Some(md5) = &self.server_side_encryption_customer_key_md5 {
            out.push(header("X-Bz-Server-Side-Encryption-Customer-Key-Md5", md5.0.clone()));
        }
        assert(header_pairs(out@) =~= self@.headers());
        out
    }

    /// The headers of the whole request: the authorization for the upload
    /// target, then the headers of these parameters.
    pub fn request_headers(&self, target: &UploadPartUrlParameters) -> (r: Vec<Header>)
        ensures
            header_pairs(r@) == seq![("Authorization"@, target.token())] + self@.headers(),
    {
        let mut out: Vec<Header> = Vec::new();
        out.push(header("Authorization", target.authorization_token().clone()));
        let mut rest: Vec<Header> = self.headers();
        let ghost carried = rest@;
        out.append(&mut rest);
        assert(header_pairs(out@) =~= seq![("Authorization"@, target.token())] + header_pairs(
            carried,
        ));
        out
    }

    /// The number of the part.
    pub fn part_number(&self) -> (r: PartNumber)
        ensures
            r@ == self@.part_number,
    {
        self.part_number
    }

    /// The number of bytes sent.
    pub fn content_length(&self) -> (r: u64)
        ensures
            r == self@.content_length,
    {
        self.content_length
    }

    /// The SHA1 checksum of the part.
    pub fn content_sha1(&self) -> (r: &Sha1)
        ensures
            r@ == self@.content_sha1,
    {
        &self.content_sha1
    }

    /// The cipher, where a customer's key is used.
    pub fn server_side_encryption_algorithm(&self) -> (r: Option<EncryptionAlgorithm>)
        ensures
            r == self@.server_side_encryption_algorithm,
    {
        self.server_side_encryption_algorithm
    }

    /// The customer's key, where one is used.
    pub fn server_side_encryption_customer_key(&self) -> (r: Option<
        &ServerSideEncryptionCustomerKey,
    >)
        ensures
            match r {
                Some(k) => self@.server_side_encryption_customer_key == Some(k@),
                None => self@.server_side_encryption_customer_key.is_none(),
            },
    {
        self.server_side_encryption_customer_key.as_ref()
    }

    /// The MD5 checksum of the customer's key, where one is used.
    pub fn server_side_encryption_customer_key_md5(&self) -> (r: Option<&Md5>)
        ensures
            match r {
                Some(m) => self@.server_side_encryption_customer_key_md5 == Some(m@),
                None => self@.server_side_encryption_customer_key_md5.is_none(),
            },
    {
        self.server_side_encryption_customer_key_md5.as_ref()
    }
}

/// Collects the parameters of an upload: the encryption settings are set one
/// by one, and `build` hands the parameters out.
#[derive(Debug, Clone)]
pub struct UploadPartParametersBuilder {
    params: UploadPartParameters,
}

impl View for UploadPartParametersBuilder {
    type V = UploadPartParametersView;

    closed spec fn view(&self) -> UploadPartParametersView {
        self.params@
    }
}

impl UploadPartParametersBuilder {
    /// Names the cipher. Nothing else changes.
    pub fn server_side_encryption_algorithm(self, algorithm: EncryptionAlgorithm) -> (r: Self)
        ensures
            r@ == (UploadPartParametersView {
                server_side_encryption_algorithm: Some(algorithm),
                ..self@
            }),
    {
        let mut params = self.params;
        params.server_side_encryption_algorithm = Some(algorithm);
        UploadPartParametersBuilder { params }
    }

    /// Sets the customer's key. Nothing else changes.
    pub fn server_side_encryption_customer_key(self, key: ServerSideEncryptionCustomerKey) -> (r:
        Self)
        ensures
            r@ == (UploadPartParametersView {
                server_side_encryption_customer_key: Some(key@),
                ..self@
            }),
    {
        let mut params = self.params;
        params.server_side_encryption_customer_key = Some(key);
        UploadPartParametersBuilder { params }
    }

    /// Sets the MD5 checksum of the customer's key. Nothing else changes.
    pub fn server_side_encryption_customer_key_md5(self, md5: Md5) -> (r: Self)
        ensures
            r@ == (UploadPartParametersView {
                server_side_encryption_customer_key_md5: Some(md5@),
                ..self@
            }),
    {
        let mut params = self.params;
        params.server_side_encryption_customer_key_md5 = Some(md5);
        UploadPartParametersBuilder { params }
    }

    /// The parameters as collected.
    pub fn build(self) -> (r: UploadPartParameters)
        ensures
            r@ == self@,
    {
        self.params
    }
}

} // verus!
