//! The vocabulary shared with a blob backend: what an object's metadata
//! holds, what can be asked of a backend, and what it can answer.
//!
//! The library never talks to a backend itself. An operation that needs one
//! hands out a [`Request`]; whoever drives the operation performs it and
//! hands back the matching [`Reply`].

use crate::error::BackendError;
use crate::instant::Timestamp;
use vstd::prelude::*;

verus! {

/// What is known of a stored object besides its body.
#[derive(Debug, Clone, PartialEq, Eq)]
pub struct ObjectMetadata {
    pub key: String,
    /// Length of the body in bytes.
    pub size: u64,
    pub content_type: Option<String>,
    pub etag: String,
    pub last_modified: Timestamp,
    /// Caller-supplied pairs, each key at most once; their order carries no
    /// meaning.
    pub custom_metadata: Vec<(String, String)>,
}

/// What a signed URL will be used for.
#[derive(Debug, Clone, Copy, PartialEq, Eq, Structural)]
pub enum PublicUrlPurpose {
    Retrieve,
    Upload,
}

/// Which kind of catalog record a key is expected to hold.
#[derive(Debug, Clone, Copy, PartialEq, Eq, Structural)]
pub enum RecordKind {
    Bucket,
    Lock,
}

/// How to treat a body whose stream breaks while a record is read.
#[derive(Debug, Clone, Copy, PartialEq, Eq, Structural)]
pub enum ReadMode {
    /// A chunk that fails to arrive fails the read.
    Strict,
    /// A chunk that fails to arrive is left out and the rest is decoded.
    SkipBrokenChunks,
}

/// Why a record could not be produced from a key.
#[derive(Debug, Clone, PartialEq, Eq)]
pub enum ReadFailure {
    /// The backend refused the read.
    Backend(BackendError),
    /// The body's stream broke; the payload is the cause's text.
    Stream(String),
    /// The body is not a valid record; the payload is the decoder's text.
    Decode(String),
}

/// Why a record could not be stored at a key.
#[derive(Debug, Clone, PartialEq, Eq)]
pub enum WriteFailure {
    /// The backend refused the write.
    Backend(BackendError),
    /// The record could not be encoded; the payload is the encoder's text.
    Encode(String),
}

/// One thing to ask of the backend.
#[derive(Debug, Clone, PartialEq, Eq)]
pub enum Request {
    /// Read the object at `key` and decode its body as a record of `kind`.
    ReadRecord { key: String, kind: RecordKind, mode: ReadMode },
    /// Encode `bucket` as JSON and store it at `key` with content type
    /// `application/json` and no custom metadata.
    WriteBucket { key: String, bucket: crate::metadata::Bucket },
    /// Encode `lock` as JSON and store it at `key` with content type
    /// `application/json` and no custom metadata.
    WriteLock { key: String, lock: crate::metadata::Lock },
    /// Store an empty body at `key`, with no content type and no custom
    /// metadata.
    WriteEmpty { key: String },
    /// Delete the object at `key`.
    Delete { key: String },
    /// List one page of the objects whose key begins with `prefix`.
    List { prefix: String, max_keys: Option<usize> },
}

/// The backend's answer to a [`Request`].
#[derive(Debug, PartialEq, Eq)]
pub enum Reply {
    /// Answers `ReadRecord` for a bucket record.
    Bucket(Result<crate::metadata::Bucket, ReadFailure>),
    /// Answers `ReadRecord` for a lock record.
    Lock(Result<crate::metadata::Lock, ReadFailure>),
    /// Answers `WriteBucket`, `WriteLock` and `WriteEmpty`.
    Written(Result<ObjectMetadata, WriteFailure>),
    /// Answers `Delete`.
    Deleted(Result<(), BackendError>),
    /// Answers `List`.
    Listed(Result<Vec<ObjectMetadata>, BackendError>),
}

/// Where an operation stands after a step: it either needs one more
/// exchange with the backend, or it is over.
pub enum Step<S, T> {
    /// Perform the request, then resume the state with the reply.
    Ask(S, Request),
    /// The operation is over, with this outcome.
    Done(Result<T, crate::error::ServiceError>),
}

/// What a body that is being read does about a chunk that failed to
/// arrive: a strict read fails with the cause's text, a tolerant one goes
/// on without the chunk.
pub fn broken_chunk(mode: ReadMode, cause: String) -> (failure: Option<ReadFailure>)
    ensures
        failure == (match mode {
            ReadMode::Strict => Some(ReadFailure::Stream(cause)),
            ReadMode::SkipBrokenChunks => None,
        }),
{
    match mode {
        ReadMode::Strict => Some(ReadFailure::Stream(cause)),
        ReadMode::SkipBrokenChunks => None,
    }
}

impl Request {
    /// The request reads the record of `kind` at `key` in `mode`.
    pub open spec fn reads(self, key: Seq<char>, kind: RecordKind, mode: ReadMode) -> bool {
        self matches Request::ReadRecord { key: k, kind: c, mode: m } && k@ == key && c == kind
            && m == mode
    }

    /// The request stores `bucket` at `key`.
    pub open spec fn writes_bucket(self, key: Seq<char>, bucket: crate::metadata::Bucket) -> bool {
        self matches Request::WriteBucket { key: k, bucket: b } && k@ == key && b == bucket
    }

    /// The request stores `lock` at `key`.
    pub open spec fn writes_lock(self, key: Seq<char>, lock: crate::metadata::Lock) -> bool {
        self matches Request::WriteLock { key: k, lock: l } && k@ == key && l == lock
    }

    /// The request stores an empty object at `key`.
    pub open spec fn writes_empty(self, key: Seq<char>) -> bool {
        self matches Request::WriteEmpty { key: k } && k@ == key
    }

    /// The request deletes the object at `key`.
    pub open spec fn deletes(self, key: Seq<char>) -> bool {
        self matches Request::Delete { key: k } && k@ == key
    }

    /// The request lists under `prefix`, up to `max_keys` entries.
    pub open spec fn lists(self, prefix: Seq<char>, max_keys: Option<usize>) -> bool {
        self matches Request::List { prefix: p, max_keys: m } && p@ == prefix && m == max_keys
    }
}

/// No two pairs carry the same key.
pub open spec fn keys_unique(pairs: Seq<(String, String)>) -> bool {
    forall|i: int, j: int|
        0 <= i < j < pairs.len() ==> (#[trigger] pairs[i]).0@ != (#[trigger] pairs[j]).0@
}

/// Some pair carries the key `key`.
pub open spec fn has_key(pairs: Seq<(String, String)>, key: Seq<char>) -> bool {
    exists|i: int| 0 <= i < pairs.len() && (#[trigger] pairs[i]).0@ == key
}

/// The position of a pair with the key `key`.
pub open spec fn index_of_key(pairs: Seq<(String, String)>, key: Seq<char>) -> int {
    choose|i: int| 0 <= i < pairs.len() && (#[trigger] pairs[i]).0@ == key
}

/// Custom metadata as a mapping from key to value.
pub open spec fn metadata_map(pairs: Seq<(String, String)>) -> Map<Seq<char>, Seq<char>> {
    Map::new(
        |k: Seq<char>| has_key(pairs, k),
        |k: Seq<char>| pairs[index_of_key(pairs, k)].1@,
    )
}

proof fn lemma_keyed(pairs: Seq<(String, String)>, i: int)
    requires
        keys_unique(pairs),
        0 <= i < pairs.len(),
    ensures
        has_key(pairs, pairs[i].0@),
        index_of_key(pairs, pairs[i].0@) == i,
{
}

fn position_of_key(pairs: &Vec<(String, String)>, key: &str) -> (at: Option<usize>)
    ensures
        match at {
            Some(i) => i < pairs@.len() && pairs@[i as int].0@ == key@,
            None => !has_key(pairs@, key@),
        },
{
    let wanted = crate::text::chars_of(key);
    let mut i: usize = 0;
    while i < pairs.len()
        invariant
            i <= pairs@.len(),
            wanted@ == key@,
            forall|j: int| 0 <= j < i ==> (#[trigger] pairs@[j]).0@ != key@,
        decreases pairs.len() - i,
    {
        let have = crate::text::chars_of(pairs[i].0.as_str());
        if crate::text::same_chars(have.as_slice(), wanted.as_slice()) {
            return Some(i);
        }
        i += 1;
    }
    None
}

/// Sets `key` to `value` in custom metadata, in place of any value that
/// the key had.
pub fn set_metadata(pairs: &mut Vec<(String, String)>, key: String, value: String)
    requires
        keys_unique(old(pairs)@),
    ensures
        keys_unique(final(pairs)@),
        metadata_map(final(pairs)@) == metadata_map(old(pairs)@).insert(key@, value@),
{
    let ghost before = pairs@;
    let ghost k = key@;
    let found = position_of_key(pairs, key.as_str());
    let ghost at: int = match found {
        Some(i) => i as int,
        None => before.len() as int,
    };
    match found {
        Some(i) => {
            pairs.set(i, (key, value));
        },
        None => {
            pairs.push((key, value));
        },
    }
    proof {
        let after = pairs@;
        lemma_keyed(after, at);
        assert forall|n: Seq<char>| has_key(after, n) <==> (n == k || has_key(before, n)) by {
            if has_key(before, n) {
                let i = index_of_key(before, n);
                assert(after[i].0@ == n);
            }
        }
    }
}

} // verus!
