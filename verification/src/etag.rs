//! Entity tags: the lowercase hexadecimal SHA-256 of an object's body, or,
//! where a listing has no body to hash, of its key.

use vstd::prelude::*;
use vstd::utf8::encode_utf8;

verus! {

/// The SHA-256 digest of `data`.
pub uninterp spec fn sha256(data: Seq<u8>) -> Seq<u8>;

/// A running SHA-256 computation over a body that arrives in chunks.
///
/// It holds a `sha2::Sha256`, whose working is taken on trust: all that is
/// said of one is which bytes it has absorbed.
#[verifier::external_body]
pub struct BodyDigest {
    hasher: sha2::Sha256,
}

/// The bytes fed to the digest so far, in order.
pub uninterp spec fn absorbed(digest: BodyDigest) -> Seq<u8>;

/// The lowercase hexadecimal digit for a value below sixteen.
pub open spec fn hex_digit(v: int) -> char {
    if v == 0 {
        '0'
    } else if v == 1 {
        '1'
    } else if v == 2 {
        '2'
    } else if v == 3 {
        '3'
    } else if v == 4 {
        '4'
    } else if v == 5 {
        '5'
    } else if v == 6 {
        '6'
    } else if v == 7 {
        '7'
    } else if v == 8 {
        '8'
    } else if v == 9 {
        '9'
    } else if v == 10 {
        'a'
    } else if v == 11 {
        'b'
    } else if v == 12 {
        'c'
    } else if v == 13 {
        'd'
    } else if v == 14 {
        'e'
    } else {
        'f'
    }
}

/// A lowercase hexadecimal digit.
pub open spec fn is_hex_digit(c: char) -> bool {
    ('0' <= c && c <= '9') || ('a' <= c && c <= 'f')
}

/// Two lowercase hexadecimal digits per byte, high digit first.
pub open spec fn hex_text(bytes: Seq<u8>) -> Seq<char> {
    Seq::new(
        2 * bytes.len(),
        |i: int|
            if i % 2 == 0 {
                hex_digit(bytes[i / 2] as int / 16)
            } else {
                hex_digit(bytes[i / 2] as int % 16)
            },
    )
}

/// The entity tag of a body: the hexadecimal text of its SHA-256.
pub open spec fn etag_text(body: Seq<u8>) -> Seq<char> {
    hex_text(sha256(body))
}

/// Calls `sha2::Digest::new` for `Sha256`: a digest that has absorbed
/// nothing.
#[verifier::external_body]
fn sha256_new() -> (digest: BodyDigest)
    ensures
        absorbed(digest) == Seq::<u8>::empty(),
{
    BodyDigest { hasher: <sha2::Sha256 as sha2::Digest>::new() }
}

/// Calls `sha2::Digest::update`: the digest has absorbed `data` after what
/// it had absorbed before.
#[verifier::external_body]
fn sha256_update(digest: &mut BodyDigest, data: &[u8])
    ensures
        absorbed(*final(digest)) == absorbed(*old(digest)) + data@,
{
    sha2::Digest::update(&mut digest.hasher, data)
}

/// Calls `sha2::Digest::finalize`: the 32-byte SHA-256 of everything
/// absorbed.
#[verifier::external_body]
fn sha256_finalize(digest: BodyDigest) -> (out: Vec<u8>)
    ensures
        out@ == sha256(absorbed(digest)),
        out@.len() == 32,
{
    sha2::Digest::finalize(digest.hasher).to_vec()
}

/// Calls `hex::encode`: each byte becomes two lowercase hexadecimal digits.
#[verifier::external_body]
fn hex_encode(data: &[u8]) -> (text: String)
    ensures
        text@ == hex_text(data@),
{
    hex::encode(data)
}

impl BodyDigest {
    /// A digest of the empty body.
    pub fn new() -> (digest: BodyDigest)
        ensures
            absorbed(digest) == Seq::<u8>::empty(),
    {
        sha256_new()
    }

    /// Absorbs the next chunk of the body.
    pub fn update(&mut self, chunk: &[u8])
        ensures
            absorbed(*final(self)) == absorbed(*old(self)) + chunk@,
    {
        sha256_update(self, chunk)
    }

    /// The entity tag of the body absorbed: 64 hexadecimal digits.
    pub fn finish(self) -> (etag: String)
        ensures
            etag@ == etag_text(absorbed(self)),
            etag@.len() == 64,
    {
        let out = sha256_finalize(self);
        hex_encode(out.as_slice())
    }
}

/// Lowercase hexadecimal text of `data`.
pub fn to_hex(data: &[u8]) -> (text: String)
    ensures
        text@ == hex_text(data@),
{
    hex_encode(data)
}

/// The entity tag of a whole body: the lowercase hexadecimal SHA-256 of
/// `data`, 64 digits.
pub fn compute_etag(data: &[u8]) -> (etag: String)
    ensures
        etag@ == etag_text(data@),
        etag@.len() == 64,
{
    let mut digest = BodyDigest::new();
    digest.update(data);
    digest.finish()
}

/// The entity tag made up for an object whose provider reports none and
/// whose body is not at hand: the tag of the key's UTF-8 bytes. It is the
/// same for every listing of the key.
pub fn key_etag(key: &str) -> (etag: String)
    ensures
        etag@ == etag_text(encode_utf8(key@)),
        etag@.len() == 64,
{
    compute_etag(key.as_bytes())
}

/// The provider's entity tag where it gave one, otherwise `computed`.
pub fn provider_etag_or(provider: Option<String>, computed: String) -> (etag: String)
    ensures
        etag == match provider {
            Some(tag) => tag,
            None => computed,
        },
{
    match provider {
        Some(tag) => tag,
        None => computed,
    }
}

/// Hexadecimal text tells bytes apart: equal text, equal bytes.
pub proof fn hex_text_is_injective(a: Seq<u8>, b: Seq<u8>)
    requires
        hex_text(a) == hex_text(b),
    ensures
        a == b,
{
    assert(hex_text(a).len() == 2 * a.len());
    assert(hex_text(b).len() == 2 * b.len());
    assert forall|i: int| 0 <= i < a.len() implies a[i] == b[i] by {
        let hi_a = hex_text(a)[2 * i];
        let lo_a = hex_text(a)[2 * i + 1];
        let hi_b = hex_text(b)[2 * i];
        let lo_b = hex_text(b)[2 * i + 1];
        assert(hi_a == hex_digit(a[i] as int / 16));
        assert(lo_a == hex_digit(a[i] as int % 16));
        assert(hi_b == hex_digit(b[i] as int / 16));
        assert(lo_b == hex_digit(b[i] as int % 16));
        hex_digit_is_injective(a[i] as int / 16, b[i] as int / 16);
        hex_digit_is_injective(a[i] as int % 16, b[i] as int % 16);
    }
    assert(a =~= b);
}

/// Distinct values below sixteen have distinct digits.
pub proof fn hex_digit_is_injective(v: int, w: int)
    requires
        0 <= v < 16,
        0 <= w < 16,
        hex_digit(v) == hex_digit(w),
    ensures
        v == w,
{
}

/// Hexadecimal text is two characters per byte, each a lowercase
/// hexadecimal digit.
pub proof fn hex_text_is_hexadecimal(bytes: Seq<u8>)
    ensures
        hex_text(bytes).len() == 2 * bytes.len(),
        forall|i: int| 0 <= i < 2 * bytes.len() ==> is_hex_digit(#[trigger] hex_text(bytes)[i]),
{
    assert forall|i: int| 0 <= i < 2 * bytes.len() implies is_hex_digit(
        #[trigger] hex_text(bytes)[i],
    ) by {
        let byte = bytes[i / 2] as int;
        assert(0 <= byte / 16 < 16 && 0 <= byte % 16 < 16);
    }
}

} // verus!
