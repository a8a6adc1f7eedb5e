//! Rules for bucket names and object keys, and the layout of keys in the
//! physical container:
//!
//! ```text
//! <bucket>/.bucket                   marker object
//! <bucket>/<object-key>              user payload
//! .metadata/buckets/<bucket>.json    catalog entry
//! .metadata/locks/<resource>         lock record
//! ```

use crate::error::ServiceError;
use crate::text::{
    chars_of, contains, has_prefix, has_substring, has_suffix, join, join3, same_chars,
    starts_with, text_ends_with, without_first,
};
use vstd::prelude::*;

verus! {

/// An ASCII lowercase letter or digit.
pub open spec fn is_lower_alnum(c: char) -> bool {
    ('a' <= c && c <= 'z') || ('0' <= c && c <= '9')
}

/// A character allowed inside a bucket name.
pub open spec fn is_name_char(c: char) -> bool {
    is_lower_alnum(c) || c == '-'
}

/// 3 to 63 characters, each a lowercase letter, a digit or `-`, the first
/// and the last not `-`.
pub open spec fn valid_bucket_name(name: Seq<char>) -> bool {
    &&& 3 <= name.len() <= 63
    &&& is_lower_alnum(name[0])
    &&& is_lower_alnum(name[name.len() - 1])
    &&& forall|i: int| 0 <= i < name.len() ==> is_name_char(#[trigger] name[i])
}

/// The key is empty.
pub open spec fn key_is_empty(key: Seq<char>) -> bool {
    key.len() == 0
}

/// The key could climb out of its bucket: it holds `..` or begins with `/`.
pub open spec fn key_escapes(key: Seq<char>) -> bool {
    has_substring(key, ".."@) || has_prefix(key, "/"@)
}

/// The key is the name kept for the bucket marker.
pub open spec fn key_is_reserved(key: Seq<char>) -> bool {
    key == ".bucket"@
}

/// A key that may name a user object.
pub open spec fn valid_object_key(key: Seq<char>) -> bool {
    !key_is_empty(key) && !key_escapes(key) && !key_is_reserved(key)
}

/// The error that refuses `key`: `InvalidObjectKey`, with a message for an
/// empty key, for a key that escapes, and for the reserved key, in this
/// order of precedence.
pub open spec fn key_rejection(key: Seq<char>, e: ServiceError) -> bool {
    e matches ServiceError::InvalidObjectKey(m) && m@ == (if key_is_empty(key) {
        "Key cannot be empty"@
    } else if key_escapes(key) {
        "Invalid key: "@ + key
    } else {
        ".bucket is a reserved name"@
    })
}

/// Where the catalog keeps the record of bucket `name`.
pub open spec fn bucket_key_text(name: Seq<char>) -> Seq<char> {
    ".metadata/buckets/"@ + name + ".json"@
}

/// Where the lock on `resource` is kept.
pub open spec fn lock_key_text(resource: Seq<char>) -> Seq<char> {
    ".metadata/locks/"@ + resource
}

/// The marker object of bucket `name`.
pub open spec fn marker_key_text(name: Seq<char>) -> Seq<char> {
    name + "/.bucket"@
}

/// The backend key of object `key` in bucket `bucket`.
pub open spec fn object_key_text(bucket: Seq<char>, key: Seq<char>) -> Seq<char> {
    bucket + "/"@ + key
}

/// The backend prefix that selects the objects of `bucket` whose key begins
/// with `prefix`; no prefix selects them all.
pub open spec fn list_prefix_text(bucket: Seq<char>, prefix: Option<Seq<char>>) -> Seq<char> {
    match prefix {
        Some(p) => bucket + "/"@ + p,
        None => bucket + "/"@,
    }
}

/// A backend key that ends as a bucket marker does.
pub open spec fn looks_like_marker(backend_key: Seq<char>) -> bool {
    has_suffix(backend_key, "/.bucket"@)
}

/// The key as the bucket's user sees it: the backend key without the
/// leading `<bucket>/`, or unchanged where it does not begin so.
pub open spec fn logical_key_text(bucket: Seq<char>, backend_key: Seq<char>) -> Seq<char> {
    if has_prefix(backend_key, bucket + "/"@) {
        backend_key.skip(bucket.len() as int + 1)
    } else {
        backend_key
    }
}

fn lower_alnum(c: char) -> (r: bool)
    ensures
        r == is_lower_alnum(c),
{
    ('a' <= c && c <= 'z') || ('0' <= c && c <= '9')
}

/// Whether `name` may name a bucket.
pub fn is_valid_bucket_name(name: &str) -> (r: bool)
    ensures
        r == valid_bucket_name(name@),
{
    let chars = chars_of(name);
    let n: usize = chars.len();
    if n < 3 || n > 63 {
        return false;
    }
    if !lower_alnum(chars[0]) {
        return false;
    }
    if !lower_alnum(chars[n - 1]) {
        return false;
    }
    let mut i: usize = 0;
    while i < n
        invariant
            n == chars@.len(),
            chars@ == name@,
            i <= n,
            forall|j: int| 0 <= j < i ==> is_name_char(#[trigger] chars@[j]),
        decreases n - i,
    {
        let c = chars[i];
        if !(lower_alnum(c) || c == '-') {
            return false;
        }
        i += 1;
    }
    true
}

/// Accepts a key that may name a user object and rejects every other with
/// `InvalidObjectKey`: an empty key, a key that holds `..` or begins with
/// `/`, and the reserved key `.bucket`, each with its own message.
pub fn validate_object_key(key: &str) -> (r: Result<(), ServiceError>)
    ensures
        r is Ok <==> valid_object_key(key@),
        r matches Err(e) ==> key_rejection(key@, e),
{
    let chars = chars_of(key);
    if chars.len() == 0 {
        return Err(ServiceError::InvalidObjectKey(String::from_str("Key cannot be empty")));
    }
    let dots = chars_of("..");
    let slash = chars_of("/");
    if contains(chars.as_slice(), dots.as_slice()) || starts_with(
        chars.as_slice(),
        slash.as_slice(),
    ) {
        return Err(ServiceError::InvalidObjectKey(join("Invalid key: ", key)));
    }
    let reserved = chars_of(".bucket");
    if same_chars(chars.as_slice(), reserved.as_slice()) {
        return Err(
            ServiceError::InvalidObjectKey(String::from_str(".bucket is a reserved name")),
        );
    }
    Ok(())
}

/// The key of the catalog record of bucket `name`.
pub fn bucket_key(name: &str) -> (key: String)
    ensures
        key@ == bucket_key_text(name@),
{
    join3(".metadata/buckets/", name, ".json")
}

/// The key of the lock record for `resource`.
pub fn lock_key(resource: &str) -> (key: String)
    ensures
        key@ == lock_key_text(resource@),
{
    join(".metadata/locks/", resource)
}

/// The key of the marker object of bucket `name`.
pub fn marker_key(name: &str) -> (key: String)
    ensures
        key@ == marker_key_text(name@),
{
    join(name, "/.bucket")
}

/// The backend key of object `key` in bucket `bucket`.
pub fn object_key(bucket: &str, key: &str) -> (full: String)
    ensures
        full@ == object_key_text(bucket@, key@),
{
    join3(bucket, "/", key)
}

/// The backend prefix for listing `bucket`, narrowed by `prefix` if given.
pub fn list_prefix(bucket: &str, prefix: Option<&str>) -> (full: String)
    ensures
        full@ == list_prefix_text(
            bucket@,
            match prefix {
                Some(p) => Some(p@),
                None => None,
            },
        ),
{
    match prefix {
        Some(p) => join3(bucket, "/", p),
        None => join(bucket, "/"),
    }
}

/// Whether a backend key ends as a bucket marker does.
pub fn is_marker_key(backend_key: &str) -> (r: bool)
    ensures
        r == looks_like_marker(backend_key@),
{
    text_ends_with(backend_key, "/.bucket")
}

/// The key as the user of `bucket` sees it.
pub fn logical_key(bucket: &str, backend_key: &str) -> (key: String)
    ensures
        key@ == logical_key_text(bucket@, backend_key@),
{
    let lead = join(bucket, "/");
    proof {
        reveal_strlit("/");
    }
    let k = chars_of(backend_key);
    let l = chars_of(lead.as_str());
    if starts_with(k.as_slice(), l.as_slice()) {
        without_first(backend_key, l.len())
    } else {
        String::from_str(backend_key)
    }
}

/// Prefixing a key with its bucket and stripping the bucket again gives the
/// key back.
pub proof fn logical_key_inverts_object_key(bucket: Seq<char>, key: Seq<char>)
    ensures
        logical_key_text(bucket, object_key_text(bucket, key)) == key,
{
    let lead = bucket + "/"@;
    let full = object_key_text(bucket, key);
    reveal_strlit("/");
    assert(full.subrange(0, lead.len() as int) =~= lead);
}

/// The marker of a bucket, seen from inside the bucket, is the reserved
/// key, and it is the only backend key under `<bucket>/` that is.
pub proof fn marker_is_the_reserved_key(bucket: Seq<char>, backend_key: Seq<char>)
    requires
        has_prefix(backend_key, bucket + "/"@),
    ensures
        key_is_reserved(logical_key_text(bucket, backend_key)) <==> backend_key
            == marker_key_text(bucket),
        backend_key == marker_key_text(bucket) ==> looks_like_marker(backend_key),
{
    let lead = bucket + "/"@;
    reveal_strlit("/");
    reveal_strlit(".bucket");
    reveal_strlit("/.bucket");
    crate::text::prefix_splits(backend_key, lead);
    let rest = backend_key.skip(lead.len() as int);
    if rest == ".bucket"@ {
        assert(backend_key =~= bucket + "/.bucket"@);
    }
    if backend_key == marker_key_text(bucket) {
        assert(rest =~= ".bucket"@);
        assert(backend_key.subrange(backend_key.len() - 8, backend_key.len() as int)
            =~= "/.bucket"@);
    }
}

/// Distinct bucket names have distinct catalog keys.
pub proof fn bucket_key_is_injective(a: Seq<char>, b: Seq<char>)
    requires
        bucket_key_text(a) == bucket_key_text(b),
    ensures
        a == b,
{
    let head = ".metadata/buckets/"@;
    let tail = ".json"@;
    let ka = bucket_key_text(a);
    let kb = bucket_key_text(b);
    assert(ka.len() == head.len() + a.len() + tail.len());
    assert(kb.len() == head.len() + b.len() + tail.len());
    assert(a =~= ka.subrange(head.len() as int, (head.len() + a.len()) as int));
    assert(b =~= kb.subrange(head.len() as int, (head.len() + b.len()) as int));
}

/// A valid bucket name holds no `/`.
pub proof fn bucket_names_hold_no_slash(name: Seq<char>, i: int)
    requires
        valid_bucket_name(name),
        0 <= i < name.len(),
    ensures
        name[i] != '/',
{
}

/// Buckets do not share backend keys: an object of one bucket never lies
/// at the backend key of an object of another, nor two objects of one
/// bucket at one key.
pub proof fn object_keys_do_not_collide(
    bucket_a: Seq<char>,
    key_a: Seq<char>,
    bucket_b: Seq<char>,
    key_b: Seq<char>,
)
    requires
        valid_bucket_name(bucket_a),
        valid_bucket_name(bucket_b),
        object_key_text(bucket_a, key_a) == object_key_text(bucket_b, key_b),
    ensures
        bucket_a == bucket_b,
        key_a == key_b,
{
    reveal_strlit("/");
    let full_a = object_key_text(bucket_a, key_a);
    let full_b = object_key_text(bucket_b, key_b);
    assert(full_a.len() == bucket_a.len() + 1 + key_a.len());
    assert(full_b.len() == bucket_b.len() + 1 + key_b.len());
    assert(full_a[bucket_a.len() as int] == '/');
    assert(full_b[bucket_b.len() as int] == '/');
    if bucket_a.len() < bucket_b.len() {
        assert(full_b[bucket_a.len() as int] == bucket_b[bucket_a.len() as int]);
        bucket_names_hold_no_slash(bucket_b, bucket_a.len() as int);
    }
    if bucket_b.len() < bucket_a.len() {
        assert(full_a[bucket_b.len() as int] == bucket_a[bucket_b.len() as int]);
        bucket_names_hold_no_slash(bucket_a, bucket_b.len() as int);
    }
    assert(bucket_a =~= full_a.subrange(0, bucket_a.len() as int));
    assert(bucket_b =~= full_b.subrange(0, bucket_b.len() as int));
    assert(key_a =~= full_a.skip(bucket_a.len() as int + 1));
    assert(key_b =~= full_b.skip(bucket_b.len() as int + 1));
}

/// The marker of a bucket is no object that a user can name: no valid key
/// of the bucket lies at the marker's backend key.
pub proof fn marker_is_out_of_reach(bucket: Seq<char>, key: Seq<char>)
    requires
        valid_object_key(key),
    ensures
        object_key_text(bucket, key) != marker_key_text(bucket),
{
    reveal_strlit("/");
    reveal_strlit(".bucket");
    reveal_strlit("/.bucket");
    let full = object_key_text(bucket, key);
    if full == marker_key_text(bucket) {
        assert(key =~= full.skip(bucket.len() as int + 1));
        assert(".bucket"@ =~= marker_key_text(bucket).skip(bucket.len() as int + 1));
    }
}

} // verus!
