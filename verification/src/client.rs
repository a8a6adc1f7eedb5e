//! What a client of the gateway's HTTP surface decides apart from sending
//! requests: which URL a call goes to, what an answer's status means, and
//! how the headers of an answer describe an object.

use crate::text::{
    all_digits, chars_of, decimal, decimal_text, digits_value, digits_value_grows, is_digit, join,
    join3,
};
use vstd::prelude::*;

verus! {

/// What a call to the gateway can fail with.
#[derive(Debug, Clone, PartialEq, Eq)]
pub enum Error {
    /// The request could not be sent or the answer not read; the payload is
    /// the cause's text.
    Http(String),
    NotFound(String),
    AlreadyExists(String),
    BadRequest(String),
    ServerError(String),
}

/// A bucket as the gateway shows it to a client.
#[derive(Debug, Clone, PartialEq, Eq)]
pub struct Bucket {
    pub name: String,
    pub created_at: String,
}

/// An object's metadata as the gateway shows it to a client.
#[derive(Debug, Clone, PartialEq, Eq)]
pub struct ObjectMetadata {
    pub key: String,
    pub size: u64,
    pub content_type: Option<String>,
    pub etag: String,
    pub last_modified: String,
    pub metadata: Vec<(String, String)>,
}

/// The answer to a request for a signed URL.
#[derive(Debug, Clone, PartialEq, Eq)]
pub struct PublicUrlResponse {
    pub url: String,
    pub expires_in: u64,
}

/// The calls a client can make.
#[derive(Debug, Clone, Copy, PartialEq, Eq, Structural)]
pub enum Call {
    CreateBucket,
    ListBuckets,
    DeleteBucket,
    PutObject,
    GetObject,
    HeadObject,
    DeleteObject,
    ListObjects,
    GetPublicUrl,
}

/// The status that reports success for each call: 204 for deletions, 200
/// for the rest.
pub open spec fn success_status(call: Call) -> u16 {
    match call {
        Call::DeleteBucket | Call::DeleteObject => 204,
        _ => 200,
    }
}

/// What a `NotFound` names: the bucket for calls on a bucket, and
/// `<bucket>/<key>` for calls on an object, except for an upload, which
/// can only miss its bucket.
pub open spec fn missing_text(call: Call, bucket: Seq<char>, key: Seq<char>) -> Seq<char> {
    match call {
        Call::GetObject | Call::HeadObject | Call::DeleteObject | Call::GetPublicUrl => bucket
            + "/"@ + key,
        _ => bucket,
    }
}

/// The call reports a bad request as such.
pub open spec fn reports_bad_request(call: Call) -> bool {
    match call {
        Call::CreateBucket | Call::DeleteBucket | Call::PutObject | Call::GetPublicUrl => true,
        _ => false,
    }
}

/// The call reports a missing bucket or object as such.
pub open spec fn reports_missing(call: Call) -> bool {
    match call {
        Call::CreateBucket | Call::ListBuckets => false,
        _ => true,
    }
}

/// What a status other than the call's success status means: 404 is
/// `NotFound` and 400 is `BadRequest` for the calls that report them, 409
/// is `AlreadyExists` for the creation of a bucket, and anything else is
/// `ServerError` with the answer's body.
pub open spec fn failure_of(
    call: Call,
    status: u16,
    bucket: Seq<char>,
    key: Seq<char>,
    body: Seq<char>,
    error: Error,
) -> bool {
    if status == 409 && call == Call::CreateBucket {
        error matches Error::AlreadyExists(m) && m@ == bucket
    } else if status == 404 && reports_missing(call) {
        error matches Error::NotFound(m) && m@ == missing_text(call, bucket, key)
    } else if status == 400 && reports_bad_request(call) {
        error matches Error::BadRequest(m) && m@ == body
    } else {
        error matches Error::ServerError(m) && m@ == body
    }
}

/// Reads the status of an answer: `None` for the call's success status,
/// and the error to report for any other. `body` is the text of the
/// answer; `key` is ignored by calls on a bucket.
pub fn failure(call: Call, status: u16, bucket: &str, key: &str, body: &str) -> (r: Option<Error>)
    ensures
        r is None <==> status == success_status(call),
        r matches Some(e) ==> failure_of(call, status, bucket@, key@, body@, e),
{
    let expected: u16 = match call {
        Call::DeleteBucket | Call::DeleteObject => 204,
        _ => 200,
    };
    if status == expected {
        return None;
    }
    let missing = match call {
        Call::CreateBucket | Call::ListBuckets => false,
        _ => true,
    };
    let bad_request = match call {
        Call::CreateBucket | Call::DeleteBucket | Call::PutObject | Call::GetPublicUrl => true,
        _ => false,
    };
    let creation = match call {
        Call::CreateBucket => true,
        _ => false,
    };
    if status == 409 && creation {
        Some(Error::AlreadyExists(String::from_str(bucket)))
    } else if status == 404 && missing {
        let named = match call {
            Call::GetObject | Call::HeadObject | Call::DeleteObject | Call::GetPublicUrl => join3(
                bucket,
                "/",
                key,
            ),
            _ => String::from_str(bucket),
        };
        Some(Error::NotFound(named))
    } else if status == 400 && bad_request {
        Some(Error::BadRequest(String::from_str(body)))
    } else {
        Some(Error::ServerError(String::from_str(body)))
    }
}

/// `<base>/buckets`.
pub fn buckets_url(base: &str) -> (url: String)
    ensures
        url@ == base@ + "/buckets"@,
{
    join(base, "/buckets")
}

/// `<base>/buckets/<name>`.
pub fn bucket_url(base: &str, name: &str) -> (url: String)
    ensures
        url@ == base@ + "/buckets/"@ + name@,
{
    join3(base, "/buckets/", name)
}

/// `<base>/buckets/<bucket>/objects/<key>`.
pub fn object_url(base: &str, bucket: &str, key: &str) -> (url: String)
    ensures
        url@ == base@ + "/buckets/"@ + bucket@ + "/objects/"@ + key@,
{
    let mut url = join3(base, "/buckets/", bucket);
    url.append("/objects/");
    url.append(key);
    url
}

/// The query of a listing: `prefix=<prefix>` and `max_keys=<n>`, each
/// where given, joined by `&` and led by `?`; nothing where neither is.
pub open spec fn listing_query(prefix: Option<Seq<char>>, max_keys: Option<usize>) -> Seq<char> {
    match (prefix, max_keys) {
        (Some(p), Some(m)) => "?prefix="@ + p + "&max_keys="@ + decimal_text(m as nat),
        (Some(p), None) => "?prefix="@ + p,
        (None, Some(m)) => "?max_keys="@ + decimal_text(m as nat),
        (None, None) => Seq::empty(),
    }
}

/// `<base>/buckets/<bucket>/objects`, with the query of the listing.
pub fn objects_url(base: &str, bucket: &str, prefix: Option<&str>, max_keys: Option<usize>) -> (url:
    String)
    ensures
        url@ == base@ + "/buckets/"@ + bucket@ + "/objects"@ + listing_query(
            match prefix {
                Some(p) => Some(p@),
                None => None,
            },
            max_keys,
        ),
{
    let mut url = join3(base, "/buckets/", bucket);
    url.append("/objects");
    match prefix {
        Some(p) => {
            url.append("?prefix=");
            url.append(p);
            match max_keys {
                Some(m) => {
                    url.append("&max_keys=");
                    let count = decimal(m as u64);
                    url.append(count.as_str());
                },
                None => {
                },
            }
        },
        None => match max_keys {
            Some(m) => {
                url.append("?max_keys=");
                let count = decimal(m as u64);
                url.append(count.as_str());
            },
            None => {
            },
        },
    }
    url
}

/// `<base>/buckets/<bucket>/public-url/<key>`, with
/// `?expiration_secs=<n>` where a lifetime is asked for.
pub fn public_url_url(base: &str, bucket: &str, key: &str, expiration_secs: Option<u64>) -> (url:
    String)
    ensures
        url@ == base@ + "/buckets/"@ + bucket@ + "/public-url/"@ + key@ + (match expiration_secs {
            Some(n) => "?expiration_secs="@ + decimal_text(n as nat),
            None => Seq::empty(),
        }),
{
    let mut url = join3(base, "/buckets/", bucket);
    url.append("/public-url/");
    url.append(key);
    match expiration_secs {
        Some(n) => {
            url.append("?expiration_secs=");
            let count = decimal(n);
            url.append(count.as_str());
        },
        None => {
        },
    }
    url
}

/// The name of the header that carries the custom metadata `key`.
pub fn metadata_header(key: &str) -> (name: String)
    ensures
        name@ == "x-object-meta-"@ + key@,
{
    join("x-object-meta-", key)
}

/// `text` without the `+` that it may begin with.
pub open spec fn unsigned_part(text: Seq<char>) -> Seq<char> {
    if text.len() > 0 && text[0] == '+' {
        text.skip(1)
    } else {
        text
    }
}

/// The size that a `content-length` header writes: one or more decimal
/// digits, after an optional `+`, worth at most `u64::MAX`.
pub open spec fn size_of(text: Seq<char>) -> Option<u64> {
    let digits = unsigned_part(text);
    if digits.len() > 0 && all_digits(digits) && digits_value(digits) <= u64::MAX {
        Some(digits_value(digits) as u64)
    } else {
        None
    }
}

/// Reads the size that a `content-length` header writes.
pub fn parse_size(text: &str) -> (size: Option<u64>)
    ensures
        size == size_of(text@),
{
    let chars = chars_of(text);
    let n: usize = chars.len();
    let start: usize = if n > 0 && chars[0] == '+' {
        1
    } else {
        0
    };
    if start == n {
        return None;
    }
    let ghost digits = chars@.skip(start as int);
    let mut value: u64 = 0;
    let mut i: usize = start;
    while i < n
        invariant
            chars@ == text@,
            n == chars@.len(),
            start <= i <= n,
            digits == chars@.skip(start as int),
            digits == unsigned_part(text@),
            value == digits_value(digits.take(i - start)),
            forall|j: int| 0 <= j < i - start ==> is_digit(#[trigger] digits[j]),
        decreases n - i,
    {
        let c = chars[i];
        assert(digits[i - start] == c);
        if !('0' <= c && c <= '9') {
            return None;
        }
        proof {
            let upto = digits.take(i - start + 1);
            assert(upto.drop_last() =~= digits.take(i - start));
        }
        let digit: u64 = (c as u32 - '0' as u32) as u64;
        if value > (u64::MAX - digit) / 10 {
            proof {
                digits_value_grows(digits, i - start + 1);
            }
            return None;
        }
        value = value * 10 + digit;
        i += 1;
    }
    assert(digits.take(digits.len() as int) =~= digits);
    Some(value)
}

/// How the headers of an answer describe the object `key`: the size that
/// `content-length` writes, or zero where it is missing or writes none;
/// entity tag and time of modification as given, or empty; the content
/// type as given; and no custom metadata.
pub fn described_by_headers(
    key: &str,
    content_length: Option<&str>,
    content_type: Option<String>,
    etag: Option<String>,
    last_modified: Option<String>,
) -> (metadata: ObjectMetadata)
    ensures
        metadata.key@ == key@,
        metadata.size == (match content_length {
            Some(text) => match size_of(text@) {
                Some(n) => n,
                None => 0,
            },
            None => 0,
        }),
        metadata.content_type == content_type,
        match etag {
            Some(tag) => metadata.etag == tag,
            None => metadata.etag@.len() == 0,
        },
        match last_modified {
            Some(time) => metadata.last_modified == time,
            None => metadata.last_modified@.len() == 0,
        },
        metadata.metadata@.len() == 0,
{
    let size = match content_length {
        Some(text) => match parse_size(text) {
            Some(n) => n,
            None => 0,
        },
        None => 0,
    };
    ObjectMetadata {
        key: String::from_str(key),
        size,
        content_type,
        etag: match etag {
            Some(tag) => tag,
            None => String::new(),
        },
        last_modified: match last_modified {
            Some(time) => time,
            None => String::new(),
        },
        metadata: Vec::new(),
    }
}

impl Error {
    /// The message: a heading for the kind, then the detail.
    pub open spec fn message_text(self) -> Seq<char> {
        match self {
            Error::Http(s) => "HTTP error: "@ + s@,
            Error::NotFound(s) => "Not found: "@ + s@,
            Error::AlreadyExists(s) => "Already exists: "@ + s@,
            Error::BadRequest(s) => "Bad request: "@ + s@,
            Error::ServerError(s) => "Server error: "@ + s@,
        }
    }

    /// The human-readable message of this error.
    pub fn message(&self) -> (r: String)
        ensures
            r@ == self.message_text(),
    {
        match self {
            Error::Http(s) => join("HTTP error: ", s.as_str()),
            Error::NotFound(s) => join("Not found: ", s.as_str()),
            Error::AlreadyExists(s) => join("Already exists: ", s.as_str()),
            Error::BadRequest(s) => join("Bad request: ", s.as_str()),
            Error::ServerError(s) => join("Server error: ", s.as_str()),
        }
    }
}

} // verus!
