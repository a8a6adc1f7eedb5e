//! What the HTTP surface decides apart from framing: the shapes of its
//! requests and responses, which content type and custom metadata an upload
//! carries, which headers describe an object, and the defaults of a request
//! for a signed URL.

use crate::backend::{
    keys_unique, metadata_map, set_metadata, ObjectMetadata, PublicUrlPurpose,
};
use crate::instant::rfc2822_text;
use crate::instant::rfc3339_text;
use crate::metadata::Bucket;
use crate::text::{chars_of, decimal, decimal_text, has_prefix, join, starts_with, without_first};
use vstd::prelude::*;

verus! {

/// The header prefix that marks custom metadata.
pub const METADATA_HEADER_PREFIX: &'static str = "x-object-meta-";

/// How long a signed URL lasts when the request does not say, in seconds.
pub const DEFAULT_EXPIRATION_SECS: u64 = 3600;

/// The body of a request to create a bucket.
#[derive(Debug, Clone, PartialEq, Eq)]
pub struct CreateBucketRequest {
    pub name: String,
}

/// A bucket as the HTTP surface shows it.
#[derive(Debug, Clone, PartialEq, Eq)]
pub struct BucketResponse {
    pub id: String,
    pub name: String,
    pub created_at: String,
}

/// The answer to a listing of buckets.
#[derive(Debug, Clone, PartialEq, Eq)]
pub struct ListBucketsResponse {
    pub buckets: Vec<BucketResponse>,
}

/// An object's metadata as the HTTP surface shows it.
#[derive(Debug, Clone, PartialEq, Eq)]
pub struct ObjectMetadataResponse {
    pub key: String,
    pub size: u64,
    pub content_type: Option<String>,
    pub etag: String,
    /// RFC 3339 text of the time of the last modification.
    pub last_modified: String,
    pub metadata: Vec<(String, String)>,
}

/// The answer to a listing of objects.
#[derive(Debug, Clone, PartialEq, Eq)]
pub struct ListObjectsResponse {
    pub objects: Vec<ObjectMetadataResponse>,
}

/// The query of a listing of objects.
#[derive(Debug, Clone, PartialEq, Eq)]
pub struct ListObjectsQuery {
    pub prefix: Option<String>,
    pub max_keys: Option<usize>,
}

/// The query of a request for a signed URL.
#[derive(Debug, Clone, PartialEq, Eq)]
pub struct GetPublicUrlQuery {
    pub expiration_secs: Option<u64>,
    pub purpose: Option<PublicUrlPurpose>,
}

/// The answer to a request for a signed URL.
#[derive(Debug, Clone, PartialEq, Eq)]
pub struct PublicUrlResponse {
    pub url: String,
    pub expires_in: u64,
}

/// The headers that describe an object in a response.
#[derive(Debug, Clone, PartialEq, Eq)]
pub struct ObjectHeaders {
    /// `content-type`, where the object has one.
    pub content_type: Option<String>,
    /// `etag`.
    pub etag: String,
    /// `last-modified`, in RFC 2822; none where that format cannot show
    /// the time.
    pub last_modified: Option<String>,
    /// `content-length`, in decimal.
    pub content_length: String,
    /// One header per custom metadata entry, named `x-object-meta-<key>`.
    pub custom: Vec<(String, String)>,
}

/// The content type that a file name suggests for `key`, if any.
pub uninterp spec fn guessed_content_type(key: Seq<char>) -> Option<Seq<char>>;

/// Calls `mime_guess::from_path` and `MimeGuess::first`, and writes the
/// media type found as text. The guess goes by the key's extension alone,
/// looked up in a table that is part of the crate; it is named, not
/// described.
#[verifier::external_body]
fn mime_guess_first(key: &str) -> (guess: Option<String>)
    ensures
        match guess {
            Some(t) => guessed_content_type(key@) == Some(t@),
            None => guessed_content_type(key@) is None,
        },
{
    match mime_guess::from_path(key).first() {
        Some(mime) => Some(mime.to_string()),
        None => None,
    }
}

impl From<Bucket> for BucketResponse {
    fn from(bucket: Bucket) -> (r: BucketResponse) {
        BucketResponse { id: bucket.id, name: bucket.name, created_at: bucket.created_at }
    }
}

impl vstd::std_specs::convert::FromSpecImpl<Bucket> for BucketResponse {
    open spec fn obeys_from_spec() -> bool {
        true
    }

    open spec fn from_spec(bucket: Bucket) -> BucketResponse {
        BucketResponse { id: bucket.id, name: bucket.name, created_at: bucket.created_at }
    }
}

impl ListBucketsResponse {
    /// The response that shows `buckets`, in their order.
    pub fn from_buckets(buckets: Vec<Bucket>) -> (r: ListBucketsResponse)
        ensures
            r.buckets@.len() == buckets@.len(),
            forall|i: int|
                0 <= i < buckets@.len() ==> {
                    &&& (#[trigger] r.buckets@[i]).id == buckets@[i].id
                    &&& r.buckets@[i].name == buckets@[i].name
                    &&& r.buckets@[i].created_at == buckets@[i].created_at
                },
    {
        let ghost all = buckets@;
        let mut shown: Vec<BucketResponse> = Vec::new();
        for bucket in it: buckets
            invariant
                it.seq() == all,
                shown@.len() == it.index(),
                forall|i: int|
                    0 <= i < it.index() ==> {
                        &&& (#[trigger] shown@[i]).id == all[i].id
                        &&& shown@[i].name == all[i].name
                        &&& shown@[i].created_at == all[i].created_at
                    },
        {
            shown.push(
                BucketResponse { id: bucket.id, name: bucket.name, created_at: bucket.created_at },
            );
        }
        ListBucketsResponse { buckets: shown }
    }
}

impl ObjectMetadataResponse {
    /// `self` shows `metadata`: the same fields, the time as RFC 3339 text.
    pub open spec fn shows(self, metadata: ObjectMetadata) -> bool {
        &&& self.key == metadata.key
        &&& self.size == metadata.size
        &&& self.content_type == metadata.content_type
        &&& self.etag == metadata.etag
        &&& self.last_modified@ == rfc3339_text(
            metadata.last_modified.secs,
            metadata.last_modified.nanos,
        )
        &&& self.metadata == metadata.custom_metadata
    }

    /// The response that shows `metadata`, or `None` where the calendar
    /// has no date for its time of modification.
    pub fn from_metadata(metadata: ObjectMetadata) -> (r: Option<ObjectMetadataResponse>)
        ensures
            r is Some <==> metadata.last_modified.has_date(),
            r matches Some(shown) ==> shown.shows(metadata),
    {
        match metadata.last_modified.to_rfc3339() {
            Some(last_modified) => Some(
                ObjectMetadataResponse {
                    key: metadata.key,
                    size: metadata.size,
                    content_type: metadata.content_type,
                    etag: metadata.etag,
                    last_modified,
                    metadata: metadata.custom_metadata,
                },
            ),
            None => None,
        }
    }
}

impl GetPublicUrlQuery {
    /// The lifetime asked for, or an hour where none is.
    pub fn expiration_or_default(&self) -> (secs: u64)
        ensures
            secs == match self.expiration_secs {
                Some(n) => n,
                None => DEFAULT_EXPIRATION_SECS,
            },
    {
        match self.expiration_secs {
            Some(n) => n,
            None => DEFAULT_EXPIRATION_SECS,
        }
    }

    /// The purpose asked for, or retrieval where none is.
    pub fn purpose_or_default(&self) -> (purpose: PublicUrlPurpose)
        ensures
            purpose == match self.purpose {
                Some(p) => p,
                None => PublicUrlPurpose::Retrieve,
            },
    {
        match self.purpose {
            Some(p) => p,
            None => PublicUrlPurpose::Retrieve,
        }
    }
}

impl PublicUrlResponse {
    /// The answer that gives `url`, good for `expires_in` seconds.
    pub fn new(url: String, expires_in: u64) -> (r: PublicUrlResponse)
        ensures
            r.url == url,
            r.expires_in == expires_in,
    {
        PublicUrlResponse { url, expires_in }
    }
}

/// The content type of an upload: what the request's header says, and
/// where it says nothing, what the key's file name suggests.
pub fn upload_content_type(header: Option<String>, key: &str) -> (content_type: Option<String>)
    ensures
        match header {
            Some(t) => content_type == Some(t),
            None => match content_type {
                Some(t) => guessed_content_type(key@) == Some(t@),
                None => guessed_content_type(key@) is None,
            },
        },
{
    match header {
        Some(t) => Some(t),
        None => mime_guess_first(key),
    }
}

/// The custom metadata that request headers carry: for every header whose
/// name begins with `x-object-meta-`, the rest of the name with the
/// header's value, a later header replacing an earlier one of that name.
pub open spec fn metadata_of_headers(headers: Seq<(String, String)>) -> Map<Seq<char>, Seq<char>>
    decreases headers.len(),
{
    if headers.len() == 0 {
        Map::empty()
    } else {
        let earlier = metadata_of_headers(headers.drop_last());
        let (name, value) = headers.last();
        if has_prefix(name@, METADATA_HEADER_PREFIX@) {
            earlier.insert(name@.skip(METADATA_HEADER_PREFIX@.len() as int), value@)
        } else {
            earlier
        }
    }
}

/// Collects the custom metadata of an upload from its request headers,
/// given as pairs of name and value.
pub fn custom_metadata_from_headers(headers: &Vec<(String, String)>) -> (pairs: Vec<
    (String, String),
>)
    ensures
        keys_unique(pairs@),
        metadata_map(pairs@) == metadata_of_headers(headers@),
{
    let mut pairs: Vec<(String, String)> = Vec::new();
    let marker = chars_of(METADATA_HEADER_PREFIX);
    let mut i: usize = 0;
    while i < headers.len()
        invariant
            i <= headers@.len(),
            marker@ == METADATA_HEADER_PREFIX@,
            keys_unique(pairs@),
            metadata_map(pairs@) == metadata_of_headers(headers@.take(i as int)),
        decreases headers.len() - i,
    {
        proof {
            let upto = headers@.take(i + 1);
            assert(upto.drop_last() =~= headers@.take(i as int));
        }
        let name = chars_of(headers[i].0.as_str());
        if starts_with(name.as_slice(), marker.as_slice()) {
            let key = without_first(headers[i].0.as_str(), marker.len());
            let value = headers[i].1.clone();
            set_metadata(&mut pairs, key, value);
        }
        i += 1;
    }
    assert(headers@.take(headers@.len() as int) =~= headers@);
    pairs
}

/// `headers` describe `metadata`.
pub open spec fn describes_object(headers: ObjectHeaders, metadata: ObjectMetadata) -> bool {
    &&& headers.content_type == metadata.content_type
    &&& headers.etag == metadata.etag
    &&& headers.last_modified is Some <==> metadata.last_modified.fits_rfc2822()
    &&& headers.last_modified matches Some(text) ==> text@ == rfc2822_text(
        metadata.last_modified.secs,
        metadata.last_modified.nanos,
    )
    &&& headers.content_length@ == decimal_text(metadata.size as nat)
    &&& headers.custom@.len() == metadata.custom_metadata@.len()
    &&& forall|i: int|
        0 <= i < headers.custom@.len() ==> {
            &&& (#[trigger] headers.custom@[i]).0@ == METADATA_HEADER_PREFIX@
                + metadata.custom_metadata@[i].0@
            &&& headers.custom@[i].1 == metadata.custom_metadata@[i].1
        }
}

/// The headers that describe an object in the answer to a request for it.
pub fn object_headers(metadata: &ObjectMetadata) -> (headers: ObjectHeaders)
    ensures
        describes_object(headers, *metadata),
{
    let mut custom: Vec<(String, String)> = Vec::new();
    let mut i: usize = 0;
    while i < metadata.custom_metadata.len()
        invariant
            i <= metadata.custom_metadata@.len(),
            custom@.len() == i,
            forall|j: int|
                0 <= j < i ==> {
                    &&& (#[trigger] custom@[j]).0@ == METADATA_HEADER_PREFIX@
                        + metadata.custom_metadata@[j].0@
                    &&& custom@[j].1 == metadata.custom_metadata@[j].1
                },
        decreases metadata.custom_metadata.len() - i,
    {
        let pair = &metadata.custom_metadata[i];
        custom.push((join(METADATA_HEADER_PREFIX, pair.0.as_str()), pair.1.clone()));
        i += 1;
    }
    ObjectHeaders {
        content_type: match &metadata.content_type {
            Some(t) => Some(t.clone()),
            None => None,
        },
        etag: metadata.etag.clone(),
        last_modified: metadata.last_modified.to_rfc2822(),
        content_length: decimal(metadata.size),
        custom,
    }
}

} // verus!
