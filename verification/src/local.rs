//! The rules of the backend that keeps objects as files: which keys it
//! accepts, where an object and its metadata lie, which files a listing
//! shows, and how an upload's size and entity tag are computed while its
//! body streams to disk.
//!
//! Each object is two files under `<root>/<bucket>/`: the payload at the
//! object's key, and beside it the metadata at `<key>.meta.json`.

use crate::backend::{ObjectMetadata, PublicUrlPurpose};
use crate::error::BackendError;
use crate::etag::{absorbed, etag_text, BodyDigest};
use crate::instant::Timestamp;
use crate::text::{
    chars_of, ends_with, has_prefix, has_substring, has_suffix, join, join3, starts_with,
    text_contains, text_starts_with,
};
use vstd::prelude::*;

verus! {

/// A backend rooted at a directory of the local file system.
#[derive(Debug, Clone, PartialEq, Eq)]
pub struct LocalBackend {
    /// The directory that holds the physical buckets.
    pub root_path: String,
    /// The physical bucket: the directory under the root that holds the
    /// objects.
    pub bucket_name: String,
}

/// The key would leave the bucket's directory: it holds `..` or begins
/// with `/`.
pub open spec fn leaves_bucket(key: Seq<char>) -> bool {
    has_substring(key, ".."@) || has_prefix(key, "/"@)
}

/// The file name of a path: what follows its last `/`, or all of it.
pub open spec fn file_name(path: Seq<char>) -> Seq<char>
    decreases path.len(),
{
    if path.len() == 0 {
        path
    } else if path.last() == '/' {
        Seq::empty()
    } else {
        file_name(path.drop_last()).push(path.last())
    }
}

/// The path names a JSON file: its file name ends in `.json` after at
/// least one more character.
pub open spec fn is_json_file(path: Seq<char>) -> bool {
    file_name(path).len() > 5 && has_suffix(file_name(path), ".json"@)
}

/// The path names the metadata file of an object.
pub open spec fn is_metadata_file(path: Seq<char>) -> bool {
    has_suffix(path, ".meta.json"@)
}

impl LocalBackend {
    /// The directory of the physical bucket: `<root>/<bucket>`.
    pub open spec fn bucket_path_text(self) -> Seq<char> {
        self.root_path@ + "/"@ + self.bucket_name@
    }

    /// The file that holds the payload of `key`: `<root>/<bucket>/<key>`.
    pub open spec fn full_path_text(self, key: Seq<char>) -> Seq<char> {
        self.bucket_path_text() + "/"@ + key
    }

    /// The file that holds the metadata of `key`.
    pub open spec fn metadata_path_text(self, key: Seq<char>) -> Seq<char> {
        self.full_path_text(key) + ".meta.json"@
    }

    /// A backend that keeps the bucket `bucket_name` under `root_path`.
    pub fn new(root_path: String, bucket_name: String) -> (backend: LocalBackend)
        ensures
            backend.root_path == root_path,
            backend.bucket_name == bucket_name,
    {
        LocalBackend { root_path, bucket_name }
    }

    /// The directory of the physical bucket.
    pub fn bucket_path(&self) -> (path: String)
        ensures
            path@ == self.bucket_path_text(),
    {
        join3(self.root_path.as_str(), "/", self.bucket_name.as_str())
    }

    /// Where the payload of `key` lies, or `InvalidPath` for a key that
    /// would leave the bucket's directory.
    pub fn get_full_path(&self, key: &str) -> (r: Result<String, BackendError>)
        ensures
            match r {
                Ok(path) => !leaves_bucket(key@) && path@ == self.full_path_text(key@),
                Err(e) => leaves_bucket(key@) && (e matches BackendError::InvalidPath(m) && m@
                    == "Invalid key: "@ + key@),
            },
    {
        if text_contains(key, "..") || text_starts_with(key, "/") {
            return Err(BackendError::InvalidPath(join("Invalid key: ", key)));
        }
        let bucket = self.bucket_path();
        Ok(join3(bucket.as_str(), "/", key))
    }

    /// Where the metadata of `key` lies, or `InvalidPath` for a key that
    /// would leave the bucket's directory.
    pub fn get_metadata_path(&self, key: &str) -> (r: Result<String, BackendError>)
        ensures
            match r {
                Ok(path) => !leaves_bucket(key@) && path@ == self.metadata_path_text(key@),
                Err(e) => leaves_bucket(key@) && (e matches BackendError::InvalidPath(m) && m@
                    == "Invalid key: "@ + key@),
            },
    {
        match self.get_full_path(key) {
            Ok(path) => Ok(join(path.as_str(), ".meta.json")),
            Err(e) => Err(e),
        }
    }

    /// The answer to a request for a signed URL: this backend has none to
    /// give.
    pub fn get_public_url(&self, key: &str, expiration_secs: u64, purpose: PublicUrlPurpose) -> (r:
        Result<String, BackendError>)
        ensures
            r matches Err(BackendError::Provider(m)) && m@
                == "Public URL generation is not supported for local backend"@,
    {
        Err(
            BackendError::Provider(
                String::from_str("Public URL generation is not supported for local backend"),
            ),
        )
    }
}

/// The error for an object whose payload or metadata file is not there.
pub fn missing_object(key: &str) -> (e: BackendError)
    ensures
        e matches BackendError::NotFound(m) && m@ == key@,
{
    BackendError::NotFound(String::from_str(key))
}

/// `metadata` describes the upload of `body` to `key` at `now`: the size
/// is the length of the body, the entity tag is the 64 hexadecimal digits
/// of its SHA-256, and content type and custom metadata are as supplied.
pub open spec fn describes_upload(
    metadata: ObjectMetadata,
    key: Seq<char>,
    body: Seq<u8>,
    content_type: Option<String>,
    custom_metadata: Vec<(String, String)>,
    now: Timestamp,
) -> bool {
    &&& metadata.key@ == key
    &&& metadata.size == body.len()
    &&& metadata.content_type == content_type
    &&& metadata.etag@ == etag_text(body)
    &&& metadata.etag@.len() == 64
    &&& metadata.last_modified == now
    &&& metadata.custom_metadata == custom_metadata
}

/// An upload in progress: the digest of the chunks written so far and
/// their total size.
pub struct PutProgress {
    digest: BodyDigest,
    total_size: u64,
}

impl PutProgress {
    /// The bytes written so far.
    pub closed spec fn written(self) -> Seq<u8> {
        absorbed(self.digest)
    }

    /// The number of bytes written so far, as counted.
    pub closed spec fn counted(self) -> u64 {
        self.total_size
    }

    /// The count is the length of what was written.
    pub open spec fn wf(self) -> bool {
        self.counted() == self.written().len()
    }

    /// An upload of which nothing has been written yet.
    pub fn new() -> (progress: PutProgress)
        ensures
            progress.wf(),
            progress.written() == Seq::<u8>::empty(),
    {
        PutProgress { digest: BodyDigest::new(), total_size: 0 }
    }

    /// The number of bytes written so far.
    pub fn size(&self) -> (n: u64)
        ensures
            n == self.counted(),
    {
        self.total_size
    }

    /// Whether `len` more bytes can still be counted.
    pub fn has_room_for(&self, len: usize) -> (r: bool)
        ensures
            r == (self.counted() + len <= u64::MAX),
    {
        len as u64 <= u64::MAX - self.total_size
    }

    /// Notes that `chunk` has been written after all that came before.
    pub fn absorb(&mut self, chunk: &[u8])
        requires
            old(self).wf(),
            old(self).counted() + chunk@.len() <= u64::MAX,
        ensures
            final(self).wf(),
            final(self).written() == old(self).written() + chunk@,
    {
        self.digest.update(chunk);
        self.total_size = self.total_size + chunk.len() as u64;
    }

    /// The metadata of the finished upload of `key` at `now`: the size of
    /// the body, its SHA-256 as entity tag, and what the caller supplied.
    pub fn finish(
        self,
        key: &str,
        content_type: Option<String>,
        custom_metadata: Vec<(String, String)>,
        now: Timestamp,
    ) -> (metadata: ObjectMetadata)
        requires
            self.wf(),
        ensures
            describes_upload(metadata, key@, self.written(), content_type, custom_metadata, now),
    {
        let size = self.total_size;
        let etag = self.digest.finish();
        ObjectMetadata {
            key: String::from_str(key),
            size,
            content_type,
            etag,
            last_modified: now,
            custom_metadata,
        }
    }
}

/// A listing in progress. The walk goes over the bucket's directory, all of
/// it, and asks the listing which files to show and when to stop; the
/// listing never holds more entries than its cap allows.
pub struct ListWalk {
    prefix: Vec<char>,
    max_keys: Option<usize>,
    results: Vec<ObjectMetadata>,
}

impl ListWalk {
    /// The prefix that listed keys must begin with.
    pub closed spec fn prefix(self) -> Seq<char> {
        self.prefix@
    }

    /// The most entries the listing may hold, if it is capped.
    pub closed spec fn max_keys(self) -> Option<usize> {
        self.max_keys
    }

    /// The entries collected so far.
    pub closed spec fn results(self) -> Seq<ObjectMetadata> {
        self.results@
    }

    /// The listing has reached its cap.
    pub open spec fn is_full(self) -> bool {
        self.max_keys() matches Some(max) && self.results().len() >= max
    }

    /// The listing holds no more entries than its cap allows.
    pub open spec fn wf(self) -> bool {
        self.max_keys() matches Some(max) ==> self.results().len() <= max
    }

    /// A listing of the keys that begin with `prefix`, capped at
    /// `max_keys` entries if given.
    pub fn new(prefix: &str, max_keys: Option<usize>) -> (walk: ListWalk)
        ensures
            walk.wf(),
            walk.prefix() == prefix@,
            walk.max_keys() == max_keys,
            walk.results() == Seq::<ObjectMetadata>::empty(),
    {
        ListWalk { prefix: chars_of(prefix), max_keys, results: Vec::new() }
    }

    /// Whether the walk should go on: it stops once the cap is reached.
    pub fn wants_more(&self) -> (r: bool)
        ensures
            r == !self.is_full(),
    {
        match self.max_keys {
            Some(max) => self.results.len() < max,
            None => true,
        }
    }

    /// Whether the bucket's directory itself, should it turn out to be a
    /// file, is shown: it is unless it is a JSON file or its key does not
    /// begin with the prefix. `relative_key` is the file's path below the
    /// bucket's directory.
    pub fn admits_start_file(&self, relative_key: &str) -> (r: bool)
        ensures
            r == (!is_json_file(relative_key@) && has_prefix(relative_key@, self.prefix())),
    {
        let k = chars_of(relative_key);
        if has_json_extension(k.as_slice()) {
            return false;
        }
        starts_with(k.as_slice(), self.prefix.as_slice())
    }

    /// Whether a file met in a directory is shown: it is unless it is a
    /// metadata file or its key does not begin with the prefix.
    /// `relative_key` is the file's path below the bucket's directory.
    pub fn admits_entry(&self, relative_key: &str) -> (r: bool)
        ensures
            r == (!is_metadata_file(relative_key@) && has_prefix(relative_key@, self.prefix())),
    {
        let k = chars_of(relative_key);
        let meta = chars_of(".meta.json");
        if ends_with(k.as_slice(), meta.as_slice()) {
            return false;
        }
        starts_with(k.as_slice(), self.prefix.as_slice())
    }

    /// Adds the metadata read for a file that is shown, unless the listing
    /// is full; says whether it was added. What the listing held stays as
    /// it was.
    pub fn push(&mut self, metadata: ObjectMetadata) -> (added: bool)
        requires
            old(self).wf(),
        ensures
            final(self).wf(),
            added == !old(self).is_full(),
            final(self).results() == (if added {
                old(self).results().push(metadata)
            } else {
                old(self).results()
            }),
            final(self).prefix() == old(self).prefix(),
            final(self).max_keys() == old(self).max_keys(),
    {
        let room = match self.max_keys {
            Some(max) => self.results.len() < max,
            None => true,
        };
        if room {
            self.results.push(metadata);
        }
        room
    }

    /// The listing: what was added, in order, and no more than the cap
    /// allows.
    pub fn finish(self) -> (results: Vec<ObjectMetadata>)
        requires
            self.wf(),
        ensures
            results@ == self.results(),
            self.max_keys() matches Some(max) ==> results@.len() <= max,
    {
        self.results
    }
}

fn has_json_extension(path: &[char]) -> (r: bool)
    ensures
        r == is_json_file(path@),
{
    let n: usize = path.len();
    // the file name starts after the last '/'
    let mut start: usize = n;
    proof {
        assert(path@.take(n as int) =~= path@);
    }
    while start > 0 && path[start - 1] != '/'
        invariant
            start <= n,
            n == path@.len(),
            file_name(path@) == file_name(path@.take(start as int)) + path@.skip(start as int),
        decreases start,
    {
        proof {
            let upto = path@.take(start as int);
            assert(upto.drop_last() =~= path@.take(start - 1));
        }
        start -= 1;
    }
    let json = chars_of(".json");
    proof {
        reveal_strlit(".json");
    }
    if n - start <= 5 {
        return false;
    }
    let r = crate::text::matches_at(path, json.as_slice(), n - 5);
    proof {
        let name = path@.skip(start as int);
        assert(name.subrange(name.len() - 5, name.len() as int) =~= path@.subrange(
            n - 5,
            n as int,
        ));
    }
    r
}

/// What an upload reports is decided by its body: two uploads that wrote
/// the same bytes, in whatever chunks, report the same size and the same
/// entity tag.
pub proof fn upload_is_described_by_its_body(a: PutProgress, b: PutProgress)
    requires
        a.wf(),
        b.wf(),
        a.written() == b.written(),
    ensures
        a.counted() == b.counted(),
        etag_text(a.written()) == etag_text(b.written()),
{
}

/// Every path that is handed out for a key lies below the bucket's
/// directory, and what follows the directory in it is the key itself,
/// which holds no `..`.
pub proof fn paths_stay_in_the_bucket(backend: LocalBackend, key: Seq<char>)
    requires
        !leaves_bucket(key),
    ensures
        has_prefix(backend.full_path_text(key), backend.bucket_path_text() + "/"@),
        backend.full_path_text(key).skip(backend.bucket_path_text().len() as int + 1) == key,
        has_prefix(backend.metadata_path_text(key), backend.bucket_path_text() + "/"@),
        !has_substring(key, ".."@),
{
    reveal_strlit("/");
    let lead = backend.bucket_path_text() + "/"@;
    let full = backend.full_path_text(key);
    let meta = backend.metadata_path_text(key);
    assert(full.subrange(0, lead.len() as int) =~= lead);
    assert(meta.subrange(0, lead.len() as int) =~= lead);
}

} // verus!
