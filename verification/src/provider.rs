//! What the adapters for remote providers decide, apart from the calls
//! they make: how a provider's failure is classified, and how what a
//! provider reports about an object becomes `ObjectMetadata`.
//!
//! An adapter hands over plain values: the debug and display text of the
//! provider's error, and the fields of the provider's answer.

use crate::backend::{ObjectMetadata, PublicUrlPurpose};
use crate::error::BackendError;
use crate::etag::{compute_etag, etag_text, key_etag, provider_etag_or};
use crate::instant::Timestamp;
use crate::text::{chars_of, contains, has_prefix, has_substring, join, join3, matches_at};
use vstd::prelude::*;
use vstd::utf8::encode_utf8;

verus! {

/// The remote providers.
#[derive(Debug, Clone, Copy, PartialEq, Eq, Structural)]
pub enum Provider {
    S3,
    Gcs,
    Azure,
}

/// What was being done when the provider failed.
#[derive(Debug, Clone, Copy, PartialEq, Eq, Structural)]
pub enum Operation {
    Init,
    Put,
    Get,
    Head,
    Delete,
    List,
}

/// The text of a provider's error carries a marker of "does not exist":
/// `NoSuchKey`, `NoSuchBucket`, `NotFound` (and so `BlobNotFound` and
/// `ContainerNotFound`), or the HTTP status `404`.
pub open spec fn has_missing_marker(debug: Seq<char>) -> bool {
    ||| has_substring(debug, "NoSuchKey"@)
    ||| has_substring(debug, "NoSuchBucket"@)
    ||| has_substring(debug, "NotFound"@)
    ||| has_substring(debug, "404"@)
}

/// The provider's error says that what was asked for does not exist. The
/// rule is one for every provider and every operation but `Init`, whose
/// failures are always failures of configuration.
pub open spec fn signals_missing(operation: Operation, debug: Seq<char>) -> bool {
    operation != Operation::Init && has_missing_marker(debug)
}

/// What a `NotFound` names: the key for an object, the container for a
/// listing.
pub open spec fn missing_text(provider: Provider, operation: Operation, target: Seq<char>) -> Seq<
    char,
> {
    match (provider, operation) {
        (Provider::Azure, Operation::List) => "container:"@ + target,
        (_, Operation::List) => "bucket:"@ + target,
        _ => target,
    }
}

/// The words before the target in the message of a failure.
pub open spec fn failure_lead(provider: Provider, operation: Operation) -> Seq<char> {
    match (provider, operation) {
        (Provider::S3, Operation::Init) => "Cannot access S3 bucket '"@,
        (Provider::Gcs, Operation::Init) => "Cannot access GCS bucket '"@,
        (Provider::Azure, Operation::Init) => "Cannot access Azure container '"@,
        (Provider::Azure, Operation::Put) => "Failed to upload blob '"@,
        (_, Operation::Put) => "Failed to upload object '"@,
        (Provider::Azure, Operation::Get) => "Failed to get blob '"@,
        (_, Operation::Get) => "Failed to get object '"@,
        (_, Operation::Head) => "Failed to get metadata for '"@,
        (Provider::Azure, Operation::Delete) => "Failed to delete blob '"@,
        (_, Operation::Delete) => "Failed to delete object '"@,
        (Provider::Azure, Operation::List) => "Failed to list blobs: "@,
        (_, Operation::List) => "Failed to list objects: "@,
    }
}

/// The message of a failure: for a listing, the lead and the provider's
/// own words; for anything else, the lead, the target in quotes, and the
/// provider's own words.
pub open spec fn failure_text(
    provider: Provider,
    operation: Operation,
    target: Seq<char>,
    display: Seq<char>,
) -> Seq<char> {
    if operation == Operation::List {
        failure_lead(provider, operation) + display
    } else {
        failure_lead(provider, operation) + target + "': "@ + display
    }
}

/// How a provider's failure is reported: as `Configuration` when the
/// container could not be reached at start-up, as `NotFound` where the
/// error's text carries a marker of "does not exist", and as `Provider`
/// otherwise.
pub open spec fn classified(
    provider: Provider,
    operation: Operation,
    target: Seq<char>,
    debug: Seq<char>,
    display: Seq<char>,
    error: BackendError,
) -> bool {
    if signals_missing(operation, debug) {
        error matches BackendError::NotFound(m) && m@ == missing_text(provider, operation, target)
    } else if operation == Operation::Init {
        error matches BackendError::Configuration(m) && m@ == failure_text(
            provider,
            operation,
            target,
            display,
        )
    } else {
        error matches BackendError::Provider(m) && m@ == failure_text(
            provider,
            operation,
            target,
            display,
        )
    }
}

fn mentions(debug: &[char], marker: &str) -> (r: bool)
    ensures
        r == has_substring(debug@, marker@),
{
    let m = chars_of(marker);
    contains(debug, m.as_slice())
}

fn is_missing(operation: Operation, debug: &str) -> (r: bool)
    ensures
        r == signals_missing(operation, debug@),
{
    match operation {
        Operation::Init => false,
        _ => {
            let d = chars_of(debug);
            mentions(d.as_slice(), "NoSuchKey") || mentions(d.as_slice(), "NoSuchBucket")
                || mentions(d.as_slice(), "NotFound") || mentions(d.as_slice(), "404")
        },
    }
}

fn lead(provider: Provider, operation: Operation) -> (r: &'static str)
    ensures
        r@ == failure_lead(provider, operation),
{
    match operation {
        Operation::Init => match provider {
            Provider::S3 => "Cannot access S3 bucket '",
            Provider::Gcs => "Cannot access GCS bucket '",
            Provider::Azure => "Cannot access Azure container '",
        },
        Operation::Put => match provider {
            Provider::Azure => "Failed to upload blob '",
            _ => "Failed to upload object '",
        },
        Operation::Get => match provider {
            Provider::Azure => "Failed to get blob '",
            _ => "Failed to get object '",
        },
        Operation::Head => "Failed to get metadata for '",
        Operation::Delete => match provider {
            Provider::Azure => "Failed to delete blob '",
            _ => "Failed to delete object '",
        },
        Operation::List => match provider {
            Provider::Azure => "Failed to list blobs: ",
            _ => "Failed to list objects: ",
        },
    }
}

/// Classifies a provider's failure. `target` is the key for an operation
/// on an object and the container's name for `Init` and `List`; `debug`
/// and `display` are the two text forms of the provider's error.
pub fn classify_failure(
    provider: Provider,
    operation: Operation,
    target: &str,
    debug: &str,
    display: &str,
) -> (error: BackendError)
    ensures
        classified(provider, operation, target@, debug@, display@, error),
{
    if is_missing(operation, debug) {
        let named = match operation {
            Operation::List => match provider {
                Provider::Azure => join("container:", target),
                _ => join("bucket:", target),
            },
            _ => String::from_str(target),
        };
        return BackendError::NotFound(named);
    }
    let message = match operation {
        Operation::List => join(lead(provider, operation), display),
        _ => {
            let mut m = join3(lead(provider, operation), target, "': ");
            m.append(display);
            m
        },
    };
    match operation {
        Operation::Init => BackendError::Configuration(message),
        _ => BackendError::Provider(message),
    }
}

/// The failure of a body whose stream broke while it was being read for
/// an upload: `Provider`, with the cause after `Failed to read stream: `.
pub fn stream_failure(cause: &str) -> (error: BackendError)
    ensures
        error matches BackendError::Provider(m) && m@ == "Failed to read stream: "@ + cause@,
{
    BackendError::Provider(join("Failed to read stream: ", cause))
}

/// What the default test of existence makes of an inspection: an object
/// that can be inspected exists, one reported missing does not, and any
/// other failure is passed on.
pub fn exists_from_head(head: Result<ObjectMetadata, BackendError>) -> (r: Result<
    bool,
    BackendError,
>)
    ensures
        match head {
            Ok(_) => r == Ok::<bool, BackendError>(true),
            Err(BackendError::NotFound(_)) => r == Ok::<bool, BackendError>(false),
            Err(e) => r == Err::<bool, BackendError>(e),
        },
{
    match head {
        Ok(_) => Ok(true),
        Err(BackendError::NotFound(_)) => Ok(false),
        Err(e) => Err(e),
    }
}

/// The time to report for an object: what the provider reported, where it
/// reported a time that the calendar has a date for, and otherwise `now`.
pub open spec fn reported_or_now(reported: Option<Timestamp>, now: Timestamp) -> Timestamp {
    match reported {
        Some(t) => if t.has_date() {
            t
        } else {
            now
        },
        None => now,
    }
}

/// The entity tag to report for an object: the provider's own where it
/// gave one, and otherwise the tag of the key.
pub open spec fn reported_etag(reported: Option<String>, key: Seq<char>, etag: String) -> bool {
    match reported {
        Some(tag) => etag == tag,
        None => etag@ == etag_text(encode_utf8(key)),
    }
}

/// `metadata` describes the object `key` with the given size, time of
/// modification, content type and custom metadata, and with the provider's
/// entity tag or, for want of one, the tag of the key.
pub open spec fn describes(
    metadata: ObjectMetadata,
    key: String,
    size: u64,
    modified: Timestamp,
    etag: Option<String>,
    content_type: Option<String>,
    custom: Vec<(String, String)>,
) -> bool {
    &&& metadata.key == key
    &&& metadata.size == size
    &&& metadata.content_type == content_type
    &&& reported_etag(etag, key@, metadata.etag)
    &&& metadata.last_modified == modified
    &&& metadata.custom_metadata == custom
}

fn time_or_now(reported: Option<Timestamp>, now: Timestamp) -> (t: Timestamp)
    ensures
        t == reported_or_now(reported, now),
{
    match reported {
        Some(t) => if t.is_representable() {
            t
        } else {
            now
        },
        None => now,
    }
}

fn etag_or_key_tag(reported: Option<String>, key: &str) -> (etag: String)
    ensures
        reported_etag(reported, key@, etag),
{
    match reported {
        Some(tag) => tag,
        None => key_etag(key),
    }
}

/// What S3 reports about an object, as `ObjectMetadata`. The size is the
/// reported count read as unsigned. A missing entity tag is made up from
/// the key and a missing time is `now`.
pub fn s3_metadata_to_object_metadata(
    key: String,
    size: i64,
    last_modified: Option<Timestamp>,
    etag: Option<String>,
    content_type: Option<String>,
    metadata: Vec<(String, String)>,
    now: Timestamp,
) -> (r: ObjectMetadata)
    ensures
        describes(
            r,
            key,
            size as u64,
            match last_modified {
                Some(t) => t,
                None => now,
            },
            etag,
            content_type,
            metadata,
        ),
{
    let etag = etag_or_key_tag(etag, key.as_str());
    ObjectMetadata {
        key,
        size: size as u64,
        content_type,
        etag,
        last_modified: match last_modified {
            Some(t) => t,
            None => now,
        },
        custom_metadata: metadata,
    }
}

/// What GCS reports about an object, as `ObjectMetadata`. The MD5 that GCS
/// reports serves as entity tag; a missing one is made up from the name.
/// A missing update time, or one the calendar has no date for, is `now`.
pub fn gcs_metadata_to_object_metadata(
    name: String,
    size: i64,
    updated: Option<Timestamp>,
    md5_hash: Option<String>,
    content_type: Option<String>,
    metadata: Vec<(String, String)>,
    now: Timestamp,
) -> (r: ObjectMetadata)
    ensures
        describes(
            r,
            name,
            size as u64,
            reported_or_now(updated, now),
            md5_hash,
            content_type,
            metadata,
        ),
{
    let etag = etag_or_key_tag(md5_hash, name.as_str());
    ObjectMetadata {
        key: name,
        size: size as u64,
        content_type,
        etag,
        last_modified: time_or_now(updated, now),
        custom_metadata: metadata,
    }
}

/// What Azure reports about a blob, as `ObjectMetadata`. A missing entity
/// tag is made up from the name; a modification time the calendar has no
/// date for is `now`.
pub fn azure_metadata_to_object_metadata(
    name: String,
    size: u64,
    last_modified: Timestamp,
    etag: Option<String>,
    content_type: Option<String>,
    metadata: Vec<(String, String)>,
    now: Timestamp,
) -> (r: ObjectMetadata)
    ensures
        describes(
            r,
            name,
            size,
            reported_or_now(Some(last_modified), now),
            etag,
            content_type,
            metadata,
        ),
{
    let etag = etag_or_key_tag(etag, name.as_str());
    ObjectMetadata {
        key: name,
        size,
        content_type,
        etag,
        last_modified: time_or_now(Some(last_modified), now),
        custom_metadata: metadata,
    }
}

/// The metadata of an upload that a provider accepted without describing
/// it: the size and the SHA-256 entity tag of the body sent, at `now`.
pub fn uploaded_metadata(
    key: &str,
    body: &[u8],
    provider_etag: Option<String>,
    content_type: Option<String>,
    custom_metadata: Vec<(String, String)>,
    now: Timestamp,
) -> (r: ObjectMetadata)
    ensures
        r.key@ == key@,
        r.size == body@.len(),
        r.content_type == content_type,
        match provider_etag {
            Some(tag) => r.etag == tag,
            None => r.etag@ == etag_text(body@),
        },
        r.last_modified == now,
        r.custom_metadata == custom_metadata,
{
    ObjectMetadata {
        key: String::from_str(key),
        size: body.len() as u64,
        content_type,
        etag: provider_etag_or(provider_etag, compute_etag(body)),
        last_modified: now,
        custom_metadata,
    }
}

/// The metadata reported with a body whose inspection failed: what the
/// body itself tells, at `now`.
pub fn fallback_metadata(key: &str, body: &[u8], now: Timestamp) -> (r: ObjectMetadata)
    ensures
        r.key@ == key@,
        r.size == body@.len(),
        r.content_type is None,
        r.etag@ == etag_text(body@),
        r.last_modified == now,
        r.custom_metadata@.len() == 0,
{
    ObjectMetadata {
        key: String::from_str(key),
        size: body.len() as u64,
        content_type: None,
        etag: compute_etag(body),
        last_modified: now,
        custom_metadata: Vec::new(),
    }
}

/// The metadata to report with a body that was read: the inspection's
/// answer where it succeeded, and otherwise what the body itself tells.
pub fn metadata_with_body(
    head: Result<ObjectMetadata, BackendError>,
    key: &str,
    body: &[u8],
    now: Timestamp,
) -> (r: ObjectMetadata)
    ensures
        match head {
            Ok(metadata) => r == metadata,
            Err(_) => {
                &&& r.key@ == key@
                &&& r.size == body@.len()
                &&& r.content_type is None
                &&& r.etag@ == etag_text(body@)
                &&& r.last_modified == now
                &&& r.custom_metadata@.len() == 0
            },
        },
{
    match head {
        Ok(metadata) => metadata,
        Err(_) => fallback_metadata(key, body, now),
    }
}

/// One entry of an S3 listing as S3 reports it.
#[derive(Debug, Clone, PartialEq, Eq)]
pub struct S3Entry {
    pub key: Option<String>,
    pub size: Option<i64>,
    pub etag: Option<String>,
    pub last_modified: Option<Timestamp>,
}

/// One object of a GCS listing as GCS reports it.
#[derive(Debug, Clone, PartialEq, Eq)]
pub struct GcsEntry {
    pub name: String,
    pub size: i64,
    pub updated: Option<Timestamp>,
    pub md5_hash: Option<String>,
    pub content_type: Option<String>,
    pub metadata: Option<Vec<(String, String)>>,
}

/// One blob of an Azure listing as Azure reports it.
#[derive(Debug, Clone, PartialEq, Eq)]
pub struct AzureBlob {
    pub name: String,
    pub content_length: u64,
    pub last_modified: Timestamp,
    /// The debug text of the blob's entity tag.
    pub etag: String,
    pub content_type: String,
    pub metadata: Option<Vec<(String, String)>>,
}

/// One item of an Azure listing: a blob, or a prefix that stands for the
/// blobs below it.
#[derive(Debug, Clone, PartialEq, Eq)]
pub enum AzureItem {
    Blob(AzureBlob),
    Prefix(String),
}

/// The page size to ask S3 and GCS for: `max_keys` as a 32-bit signed
/// count, cut to its low 32 bits where it does not fit.
pub fn page_size_i32(max_keys: usize) -> (r: i32)
    ensures
        r == max_keys as i32,
{
    max_keys as i32
}

/// The page size to ask Azure for: `max_keys` cut to its low 32 bits, or
/// none where that is zero.
pub fn azure_page_size(max_keys: usize) -> (r: Option<u32>)
    ensures
        r == (if max_keys as u32 == 0 {
            None
        } else {
            Some(max_keys as u32)
        }),
{
    let n: u32 = max_keys as u32;
    if n == 0 {
        None
    } else {
        Some(n)
    }
}

/// The entries of an S3 listing that carry a key, in order.
pub open spec fn s3_keyed(entries: Seq<S3Entry>) -> Seq<S3Entry>
    decreases entries.len(),
{
    if entries.len() == 0 {
        Seq::empty()
    } else if entries.last().key is Some {
        s3_keyed(entries.drop_last()).push(entries.last())
    } else {
        s3_keyed(entries.drop_last())
    }
}

/// `listed` is what an S3 listing amounts to at `now`: one object for each
/// entry with a key, with size zero where none is reported, no content
/// type and no custom metadata.
pub open spec fn lists_s3(entries: Seq<S3Entry>, now: Timestamp, listed: Seq<ObjectMetadata>) -> bool {
    &&& listed.len() == s3_keyed(entries).len()
    &&& forall|i: int|
        0 <= i < listed.len() ==> {
            let entry = s3_keyed(entries)[i];
            let object = #[trigger] listed[i];
            &&& object.key == entry.key->0
            &&& object.size == (match entry.size {
                Some(n) => n as u64,
                None => 0,
            })
            &&& object.content_type is None
            &&& reported_etag(entry.etag, object.key@, object.etag)
            &&& object.last_modified == (match entry.last_modified {
                Some(t) => t,
                None => now,
            })
            &&& object.custom_metadata@.len() == 0
        }
}

/// Turns the entries of an S3 listing into objects.
pub fn s3_listing(entries: Vec<S3Entry>, now: Timestamp) -> (listed: Vec<ObjectMetadata>)
    ensures
        lists_s3(entries@, now, listed@),
{
    let ghost all = entries@;
    let mut listed: Vec<ObjectMetadata> = Vec::new();
    for entry in it: entries
        invariant
            it.seq() == all,
            lists_s3(all.take(it.index() as int), now, listed@),
    {
        proof {
            let upto = all.take(it.index() + 1);
            assert(upto.drop_last() =~= all.take(it.index() as int));
        }
        match entry.key {
            Some(key) => {
                let etag = etag_or_key_tag(entry.etag, key.as_str());
                listed.push(
                    ObjectMetadata {
                        key,
                        size: match entry.size {
                            Some(n) => n as u64,
                            None => 0,
                        },
                        content_type: None,
                        etag,
                        last_modified: match entry.last_modified {
                            Some(t) => t,
                            None => now,
                        },
                        custom_metadata: Vec::new(),
                    },
                );
            },
            None => {},
        }
    }
    assert(all.take(all.len() as int) =~= all);
    listed
}

/// `listed` is what a GCS listing amounts to at `now`: one object for each
/// entry, in order; a listing without entries is empty.
pub open spec fn lists_gcs(entries: Seq<GcsEntry>, now: Timestamp, listed: Seq<ObjectMetadata>) -> bool {
    &&& listed.len() == entries.len()
    &&& forall|i: int|
        0 <= i < listed.len() ==> {
            let entry = entries[i];
            let object = #[trigger] listed[i];
            &&& object.key == entry.name
            &&& object.size == entry.size as u64
            &&& object.content_type == entry.content_type
            &&& reported_etag(entry.md5_hash, entry.name@, object.etag)
            &&& object.last_modified == reported_or_now(entry.updated, now)
            &&& match entry.metadata {
                Some(pairs) => object.custom_metadata == pairs,
                None => object.custom_metadata@.len() == 0,
            }
        }
}

/// Turns the entries of a GCS listing into objects.
pub fn gcs_listing(entries: Option<Vec<GcsEntry>>, now: Timestamp) -> (listed: Vec<ObjectMetadata>)
    ensures
        lists_gcs(
            match entries {
                Some(items) => items@,
                None => Seq::empty(),
            },
            now,
            listed@,
        ),
{
    let mut listed: Vec<ObjectMetadata> = Vec::new();
    match entries {
        None => {},
        Some(items) => {
            let ghost all = items@;
            for entry in it: items
                invariant
                    it.seq() == all,
                    lists_gcs(all.take(it.index() as int), now, listed@),
            {
                let custom = match entry.metadata {
                    Some(pairs) => pairs,
                    None => Vec::new(),
                };
                let object = gcs_metadata_to_object_metadata(
                    entry.name,
                    entry.size,
                    entry.updated,
                    entry.md5_hash,
                    entry.content_type,
                    custom,
                    now,
                );
                listed.push(object);
            }
            assert(all.take(all.len() as int) =~= all);
        },
    }
    listed
}

/// The blobs among the items of an Azure listing, in order.
pub open spec fn azure_blobs(items: Seq<AzureItem>) -> Seq<AzureBlob>
    decreases items.len(),
{
    if items.len() == 0 {
        Seq::empty()
    } else {
        match items.last() {
            AzureItem::Blob(blob) => azure_blobs(items.drop_last()).push(blob),
            AzureItem::Prefix(_) => azure_blobs(items.drop_last()),
        }
    }
}

/// `listed` is what an Azure listing amounts to at `now`: one object for
/// each blob, in order, and none for a prefix.
pub open spec fn lists_azure(items: Seq<AzureItem>, now: Timestamp, listed: Seq<ObjectMetadata>) -> bool {
    &&& listed.len() == azure_blobs(items).len()
    &&& forall|i: int|
        0 <= i < listed.len() ==> {
            let blob = azure_blobs(items)[i];
            let object = #[trigger] listed[i];
            &&& object.key == blob.name
            &&& object.size == blob.content_length
            &&& object.content_type == Some(blob.content_type)
            &&& object.etag == blob.etag
            &&& object.last_modified == reported_or_now(Some(blob.last_modified), now)
            &&& match blob.metadata {
                Some(pairs) => object.custom_metadata == pairs,
                None => object.custom_metadata@.len() == 0,
            }
        }
}

/// Turns the items of an Azure listing into objects.
pub fn azure_listing(items: Vec<AzureItem>, now: Timestamp) -> (listed: Vec<ObjectMetadata>)
    ensures
        lists_azure(items@, now, listed@),
{
    let ghost all = items@;
    let mut listed: Vec<ObjectMetadata> = Vec::new();
    for item in it: items
        invariant
            it.seq() == all,
            lists_azure(all.take(it.index() as int), now, listed@),
    {
        proof {
            let upto = all.take(it.index() + 1);
            assert(upto.drop_last() =~= all.take(it.index() as int));
        }
        match item {
            AzureItem::Blob(blob) => {
                let custom = match blob.metadata {
                    Some(pairs) => pairs,
                    None => Vec::new(),
                };
                let object = azure_metadata_to_object_metadata(
                    blob.name,
                    blob.content_length,
                    blob.last_modified,
                    Some(blob.etag),
                    Some(blob.content_type),
                    custom,
                    now,
                );
                listed.push(object);
            },
            AzureItem::Prefix(_) => {},
        }
    }
    assert(all.take(all.len() as int) =~= all);
    listed
}

/// What a shared access signature allows.
#[derive(Debug, Clone, Copy, PartialEq, Eq, Structural)]
pub struct SasPermissions {
    pub read: bool,
    pub write: bool,
    pub create: bool,
}

/// The permissions of a signed URL: reading only for retrieval; writing
/// and creating, but not reading, for an upload.
pub fn sas_permissions(purpose: PublicUrlPurpose) -> (p: SasPermissions)
    ensures
        p.read == (purpose == PublicUrlPurpose::Retrieve),
        p.write == (purpose == PublicUrlPurpose::Upload),
        p.create == (purpose == PublicUrlPurpose::Upload),
{
    match purpose {
        PublicUrlPurpose::Retrieve => SasPermissions { read: true, write: false, create: false },
        PublicUrlPurpose::Upload => SasPermissions { read: false, write: true, create: true },
    }
}

/// When a URL signed at `now` for `expiration_secs` seconds runs out, or
/// `None` where that instant cannot be written down. The count of seconds
/// is read as a signed 64-bit number.
pub fn signed_url_expiry(now: Timestamp, expiration_secs: u64) -> (r: Option<Timestamp>)
    ensures
        match r {
            Some(t) => t.secs == now.secs + (expiration_secs as i64) && t.nanos == now.nanos,
            None => now.secs + (expiration_secs as i64) < i64::MIN || now.secs + (
            expiration_secs as i64) > i64::MAX,
        },
{
    now.checked_add_seconds(expiration_secs as i64)
}

/// The URL of a blob with its access token:
/// `https://<account>.blob.core.windows.net/<container>/<key>?<token>`.
pub open spec fn azure_url_text(
    account: Seq<char>,
    container: Seq<char>,
    key: Seq<char>,
    token: Seq<char>,
) -> Seq<char> {
    "https://"@ + account + ".blob.core.windows.net/"@ + container + "/"@ + key + "?"@ + token
}

/// Composes the URL that gives direct access to a blob.
pub fn azure_blob_url(account: &str, container: &str, key: &str, token: &str) -> (url: String)
    ensures
        url@ == azure_url_text(account@, container@, key@, token@),
{
    let mut url = join3("https://", account, ".blob.core.windows.net/");
    url.append(container);
    url.append("/");
    url.append(key);
    url.append("?");
    url.append(token);
    url
}

/// The step of signing a URL that failed.
#[derive(Debug, Clone, Copy, PartialEq, Eq, Structural)]
pub enum SigningStep {
    /// The requested lifetime was refused.
    PresignConfig,
    /// The request for the key could not be presigned.
    Presign,
    /// No shared access signature could be produced.
    SasSignature,
    /// The shared access signature could not be written as a token.
    SasToken,
}

/// The message of a failure to sign a URL for `key`.
pub open spec fn signing_failure_text(step: SigningStep, key: Seq<char>, display: Seq<char>) -> Seq<
    char,
> {
    match step {
        SigningStep::PresignConfig => "Failed to create presigning config: "@ + display,
        SigningStep::Presign => "Failed to generate presigned URL for '"@ + key + "': "@ + display,
        SigningStep::SasSignature => "Failed to generate SAS token: "@ + display,
        SigningStep::SasToken => "Failed to extract SAS token: "@ + display,
    }
}

/// The failure to report when a URL for `key` cannot be signed; `display`
/// is the provider's own description.
pub fn signing_failure(step: SigningStep, key: &str, display: &str) -> (error: BackendError)
    ensures
        error matches BackendError::Provider(m) && m@ == signing_failure_text(
            step,
            key@,
            display@,
        ),
{
    let message = match step {
        SigningStep::PresignConfig => join("Failed to create presigning config: ", display),
        SigningStep::Presign => {
            let mut m = join3("Failed to generate presigned URL for '", key, "': ");
            m.append(display);
            m
        },
        SigningStep::SasSignature => join("Failed to generate SAS token: ", display),
        SigningStep::SasToken => join("Failed to extract SAS token: ", display),
    };
    BackendError::Provider(message)
}

/// The parts of `s` between occurrences of `separator`, in order. A text
/// without the separator is its own single part.
pub open spec fn split_on(s: Seq<char>, separator: char) -> Seq<Seq<char>>
    decreases s.len(),
{
    if s.len() == 0 {
        seq![Seq::empty()]
    } else {
        let before = split_on(s.drop_last(), separator);
        if s.last() == separator {
            before.push(Seq::empty())
        } else {
            before.update(before.len() - 1, before.last().push(s.last()))
        }
    }
}

/// What follows `label` in the last part that begins with it; empty where
/// no part does.
pub open spec fn labelled_value(parts: Seq<Seq<char>>, label: Seq<char>) -> Seq<char>
    decreases parts.len(),
{
    if parts.len() == 0 {
        Seq::empty()
    } else if has_prefix(parts.last(), label) {
        parts.last().skip(label.len() as int)
    } else {
        labelled_value(parts.drop_last(), label)
    }
}

/// The account name that a connection string gives.
pub open spec fn connection_account(connection: Seq<char>) -> Seq<char> {
    labelled_value(split_on(connection, ';'), "AccountName="@)
}

/// The access key that a connection string gives.
pub open spec fn connection_key(connection: Seq<char>) -> Seq<char> {
    labelled_value(split_on(connection, ';'), "AccountKey="@)
}

/// Where the value of the part `start..end` lies if the part begins with
/// `label`, and `current` otherwise.
fn value_range(
    chars: &[char],
    label: &[char],
    start: usize,
    end: usize,
    current: (usize, usize),
) -> (r: (usize, usize))
    requires
        start <= end <= chars@.len(),
        current.0 <= current.1 <= chars@.len(),
    ensures
        r.0 <= r.1 <= chars@.len(),
        chars@.subrange(r.0 as int, r.1 as int) == (if has_prefix(
            chars@.subrange(start as int, end as int),
            label@,
        ) {
            chars@.subrange(start as int, end as int).skip(label@.len() as int)
        } else {
            chars@.subrange(current.0 as int, current.1 as int)
        }),
{
    let ghost part = chars@.subrange(start as int, end as int);
    if label.len() <= end - start && matches_at(chars, label, start) {
        proof {
            assert(part.subrange(0, label@.len() as int) =~= chars@.subrange(
                start as int,
                start + label@.len(),
            ));
        }
        (start + label.len(), end)
    } else {
        proof {
            if has_prefix(part, label@) {
                assert(part.subrange(0, label@.len() as int) =~= chars@.subrange(
                    start as int,
                    start + label@.len(),
                ));
            }
        }
        current
    }
}

/// Reads account name and access key out of a connection string: parts
/// separated by `;`, of which those that begin with `AccountName=` and
/// `AccountKey=` count, the last of each kind winning. A string that gives
/// no account name or no access key is a configuration error.
pub fn parse_connection_string(connection: &str) -> (r: Result<(String, String), BackendError>)
    ensures
        match r {
            Ok((account, key)) => {
                &&& account@ == connection_account(connection@)
                &&& key@ == connection_key(connection@)
                &&& account@.len() > 0
                &&& key@.len() > 0
            },
            Err(e) => {
                &&& connection_account(connection@).len() == 0 || connection_key(
                    connection@,
                ).len() == 0
                &&& e matches BackendError::Configuration(m)
                &&& m@ == "AccountName or AccountKey not found in connection string"@
            },
        },
{
    let chars = chars_of(connection);
    let name_label = chars_of("AccountName=");
    let key_label = chars_of("AccountKey=");
    let n: usize = chars.len();
    let ghost s = connection@;
    let ghost mut done: Seq<Seq<char>> = Seq::empty();
    let mut start: usize = 0;
    let mut account: (usize, usize) = (0, 0);
    let mut key: (usize, usize) = (0, 0);
    let mut i: usize = 0;
    proof {
        assert(s.take(0) =~= Seq::<char>::empty());
    }
    while i < n
        invariant
            chars@ == s,
            n == s.len(),
            start <= i <= n,
            split_on(s.take(i as int), ';') == done.push(s.subrange(start as int, i as int)),
            account.0 <= account.1 <= n,
            key.0 <= key.1 <= n,
            s.subrange(account.0 as int, account.1 as int) == labelled_value(done, name_label@),
            s.subrange(key.0 as int, key.1 as int) == labelled_value(done, key_label@),
        decreases n - i,
    {
        proof {
            let upto = s.take(i + 1);
            assert(upto.drop_last() =~= s.take(i as int));
        }
        if chars[i] == ';' {
            let ghost parts = done.push(s.subrange(start as int, i as int));
            proof {
                assert(parts.drop_last() =~= done);
            }
            account = value_range(chars.as_slice(), name_label.as_slice(), start, i, account);
            key = value_range(chars.as_slice(), key_label.as_slice(), start, i, key);
            proof {
                assert(s.subrange(i + 1, i + 1) =~= Seq::<char>::empty());
                done = parts;
            }
            start = i + 1;
        } else {
            proof {
                let grown = s.subrange(start as int, i as int).push(s[i as int]);
                assert(grown =~= s.subrange(start as int, i + 1));
            }
        }
        i += 1;
    }
    let ghost parts = done.push(s.subrange(start as int, n as int));
    proof {
        assert(s.take(n as int) =~= s);
        assert(parts.drop_last() =~= done);
    }
    account = value_range(chars.as_slice(), name_label.as_slice(), start, n, account);
    key = value_range(chars.as_slice(), key_label.as_slice(), start, n, key);
    if account.0 == account.1 || key.0 == key.1 {
        return Err(
            BackendError::Configuration(
                String::from_str("AccountName or AccountKey not found in connection string"),
            ),
        );
    }
    let account_name = String::from_str(connection.substring_char(account.0, account.1));
    let access_key = String::from_str(connection.substring_char(key.0, key.1));
    Ok((account_name, access_key))
}

} // verus!
