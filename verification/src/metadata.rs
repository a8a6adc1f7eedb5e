//! The bucket catalog: bucket records, their identifiers, and the in-memory
//! cache that fronts the records kept in the backend.

use crate::etag::{hex_text, hex_text_is_hexadecimal, is_hex_digit, to_hex};
use crate::instant::Timestamp;
use crate::text::{chars_of, same_chars};
use std::collections::hash_map::DefaultHasher;
use std::hash::Hasher;
use vstd::prelude::*;
use vstd::std_specs::hash::DefaultHasherAdditionalSpecFns;

verus! {

/// The prefix under which catalog records are kept.
pub const BUCKETS_PREFIX: &'static str = ".metadata/buckets";

/// The prefix under which lock records are kept.
pub const LOCKS_PREFIX: &'static str = ".metadata/locks";

/// How long the cache may lag the backend, in seconds.
pub const CACHE_TTL_SECONDS: i64 = 60;

/// A logical bucket as the catalog records it.
#[derive(Debug, Clone, PartialEq, Eq)]
pub struct Bucket {
    /// Sixteen lowercase hexadecimal digits, decided by the name alone.
    pub id: String,
    pub name: String,
    /// RFC 3339 text of the creation time, in UTC.
    pub created_at: String,
}

/// An advisory lock as it is stored.
#[derive(Debug, Clone, PartialEq, Eq)]
pub struct Lock {
    pub resource: String,
    pub owner: String,
    pub acquired_at: Timestamp,
    pub expires_at: Timestamp,
}

impl Bucket {
    /// An equal record with its own storage.
    pub fn duplicate(&self) -> (r: Bucket)
        ensures
            r == *self,
    {
        Bucket { id: self.id.clone(), name: self.name.clone(), created_at: self.created_at.clone() }
    }
}

impl Lock {
    /// The lock is still held at `now`: it expires strictly later.
    pub open spec fn held_at(self, now: Timestamp) -> bool {
        now.precedes(self.expires_at)
    }

    /// The lock has run out at `now`: it expired strictly earlier.
    pub open spec fn lapsed_at(self, now: Timestamp) -> bool {
        self.expires_at.precedes(now)
    }
}

/// What hashing a string feeds to a hasher: the byte sequences written, in
/// order.
pub uninterp spec fn str_hash_writes(s: Seq<char>) -> Seq<Seq<u8>>;

/// Calls `<str as Hash>::hash`, which feeds the string to the hasher. What
/// it writes depends on the string alone, and is named, not described.
#[verifier::external_body]
fn hash_str(s: &str, state: &mut DefaultHasher)
    ensures
        final(state)@ == old(state)@ + str_hash_writes(s@),
{
    std::hash::Hash::hash(s, state)
}

/// The 64-bit hash of a bucket name under the default hasher.
pub open spec fn name_hash(name: Seq<char>) -> u64 {
    DefaultHasher::spec_finish(str_hash_writes(name))
}

/// The eight bytes of `v`, most significant first.
pub open spec fn be_bytes(v: u64) -> Seq<u8> {
    seq![
        (v >> 56) as u8,
        (v >> 48) as u8,
        (v >> 40) as u8,
        (v >> 32) as u8,
        (v >> 24) as u8,
        (v >> 16) as u8,
        (v >> 8) as u8,
        v as u8,
    ]
}

/// The identifier of the bucket called `name`: the sixteen lowercase
/// hexadecimal digits of the name's hash.
pub open spec fn bucket_id_text(name: Seq<char>) -> Seq<char> {
    hex_text(be_bytes(name_hash(name)))
}

fn u64_be_bytes(v: u64) -> (out: Vec<u8>)
    ensures
        out@ == be_bytes(v),
{
    let mut out: Vec<u8> = Vec::new();
    out.push((v >> 56) as u8);
    out.push((v >> 48) as u8);
    out.push((v >> 40) as u8);
    out.push((v >> 32) as u8);
    out.push((v >> 24) as u8);
    out.push((v >> 16) as u8);
    out.push((v >> 8) as u8);
    out.push(v as u8);
    out
}

/// The identifier of the bucket called `name`: sixteen lowercase
/// hexadecimal digits. It depends on the name alone.
pub fn generate_bucket_id(name: &str) -> (id: String)
    ensures
        id@ == bucket_id_text(name@),
        id@.len() == 16,
        forall|i: int| 0 <= i < 16 ==> is_hex_digit(#[trigger] id@[i]),
{
    let mut hasher = DefaultHasher::new();
    hash_str(name, &mut hasher);
    let hash: u64 = hasher.finish();
    let bytes = u64_be_bytes(hash);
    proof {
        hex_text_is_hexadecimal(bytes@);
    }
    to_hex(bytes.as_slice())
}

/// Every identifier is sixteen lowercase hexadecimal digits.
pub proof fn bucket_id_is_sixteen_hex_digits(name: Seq<char>)
    ensures
        bucket_id_text(name).len() == 16,
        forall|i: int| 0 <= i < 16 ==> is_hex_digit(#[trigger] bucket_id_text(name)[i]),
{
    hex_text_is_hexadecimal(be_bytes(name_hash(name)));
}

/// Two names share an identifier exactly when their hashes collide.
pub proof fn bucket_ids_differ_unless_hashes_collide(a: Seq<char>, b: Seq<char>)
    ensures
        bucket_id_text(a) == bucket_id_text(b) <==> name_hash(a) == name_hash(b),
{
    let ha = name_hash(a);
    let hb = name_hash(b);
    if bucket_id_text(a) == bucket_id_text(b) {
        crate::etag::hex_text_is_injective(be_bytes(ha), be_bytes(hb));
        assert(ha == hb) by (bit_vector)
            requires
                (ha >> 56) as u8 == (hb >> 56) as u8,
                (ha >> 48) as u8 == (hb >> 48) as u8,
                (ha >> 40) as u8 == (hb >> 40) as u8,
                (ha >> 32) as u8 == (hb >> 32) as u8,
                (ha >> 24) as u8 == (hb >> 24) as u8,
                (ha >> 16) as u8 == (hb >> 16) as u8,
                (ha >> 8) as u8 == (hb >> 8) as u8,
                ha as u8 == hb as u8,
        ;
    }
}

/// No two records in `s` carry the same name.
pub open spec fn names_unique(s: Seq<Bucket>) -> bool {
    forall|i: int, j: int| 0 <= i < j < s.len() ==> (#[trigger] s[i]).name@ != (#[trigger] s[j]).name@
}

/// Some record in `s` is called `name`.
pub open spec fn has_name(s: Seq<Bucket>, name: Seq<char>) -> bool {
    exists|i: int| 0 <= i < s.len() && (#[trigger] s[i]).name@ == name
}

/// The position of a record called `name`.
pub open spec fn index_named(s: Seq<Bucket>, name: Seq<char>) -> int {
    choose|i: int| 0 <= i < s.len() && (#[trigger] s[i]).name@ == name
}

/// The records of `s` by name.
pub open spec fn catalog_of(s: Seq<Bucket>) -> Map<Seq<char>, Bucket> {
    Map::new(|n: Seq<char>| has_name(s, n), |n: Seq<char>| s[index_named(s, n)])
}

/// The catalog that results from recording the buckets of `s` one after
/// another, a later record replacing an earlier one of the same name.
pub open spec fn catalog_loaded(s: Seq<Bucket>) -> Map<Seq<char>, Bucket>
    decreases s.len(),
{
    if s.len() == 0 {
        Map::empty()
    } else {
        catalog_loaded(s.drop_last()).insert(s.last().name@, s.last())
    }
}

/// Some record in `s` carries the identifier `id`.
pub open spec fn has_id(s: Seq<Bucket>, id: Seq<char>) -> bool {
    exists|i: int| 0 <= i < s.len() && (#[trigger] s[i]).id@ == id
}

/// The record at `i` is the first in `s` to carry the identifier `id`.
pub open spec fn is_first_with_id(s: Seq<Bucket>, id: Seq<char>, i: int) -> bool {
    &&& 0 <= i < s.len()
    &&& s[i].id@ == id
    &&& forall|j: int| 0 <= j < i ==> (#[trigger] s[j]).id@ != id
}

/// The first record in `s` to carry the identifier `id`, if any does.
pub open spec fn first_with_id(s: Seq<Bucket>, id: Seq<char>) -> Option<Bucket> {
    if has_id(s, id) {
        Some(s[choose|i: int| is_first_with_id(s, id, i)])
    } else {
        None
    }
}

proof fn lemma_first_with_id(s: Seq<Bucket>, id: Seq<char>, i: int)
    requires
        is_first_with_id(s, id, i),
    ensures
        first_with_id(s, id) == Some(s[i]),
{
}

proof fn lemma_named(s: Seq<Bucket>, i: int)
    requires
        names_unique(s),
        0 <= i < s.len(),
    ensures
        has_name(s, s[i].name@),
        index_named(s, s[i].name@) == i,
        catalog_of(s).contains_key(s[i].name@),
        catalog_of(s)[s[i].name@] == s[i],
{
}

/// The in-memory view of the catalog: the buckets known, by name, and when
/// the backend was last read in full.
pub struct BucketCache {
    buckets: Vec<Bucket>,
    last_refresh: Timestamp,
}

impl View for BucketCache {
    type V = Map<Seq<char>, Bucket>;

    open spec fn view(&self) -> Map<Seq<char>, Bucket> {
        catalog_of(self.entries())
    }
}

impl BucketCache {
    /// The records held, in the order in which their names first arrived.
    pub closed spec fn entries(&self) -> Seq<Bucket> {
        self.buckets@
    }

    /// When the cache was last filled from the backend.
    pub closed spec fn refreshed_at(&self) -> Timestamp {
        self.last_refresh
    }

    /// Every name occurs once.
    pub open spec fn wf(&self) -> bool {
        names_unique(self.entries())
    }

    /// The cache is too old to be trusted at `now`: more than
    /// `CACHE_TTL_SECONDS` have passed since it was filled.
    pub open spec fn expired_at(&self, now: Timestamp) -> bool {
        now.later_by_more_than(self.refreshed_at(), CACHE_TTL_SECONDS as int)
    }

    /// An empty cache that counts as expired at `now`, and so is filled
    /// before its first use.
    pub fn new(now: Timestamp) -> (cache: BucketCache)
        requires
            now.secs - (CACHE_TTL_SECONDS + 1) >= i64::MIN,
        ensures
            cache.wf(),
            cache.entries() == Seq::<Bucket>::empty(),
            cache@ == Map::<Seq<char>, Bucket>::empty(),
            cache.refreshed_at() == (Timestamp { secs: (now.secs - 61) as i64, nanos: now.nanos }),
            cache.expired_at(now),
    {
        let cache = BucketCache {
            buckets: Vec::new(),
            last_refresh: now.add_seconds(-(CACHE_TTL_SECONDS + 1)),
        };
        cache
    }

    /// Whether the cache must be refilled before it is read at `now`.
    pub fn is_expired(&self, now: Timestamp) -> (r: bool)
        ensures
            r == self.expired_at(now),
    {
        now.is_later_by_more_than(&self.last_refresh, CACHE_TTL_SECONDS)
    }

    /// How many buckets the cache holds.
    pub fn len(&self) -> (n: usize)
        ensures
            n == self.entries().len(),
    {
        self.buckets.len()
    }

    fn position(&self, name: &str) -> (at: Option<usize>)
        requires
            self.wf(),
        ensures
            match at {
                Some(i) => i < self.entries().len() && self.entries()[i as int].name@ == name@,
                None => !has_name(self.entries(), name@),
            },
    {
        let wanted = chars_of(name);
        let mut i: usize = 0;
        while i < self.buckets.len()
            invariant
                i <= self.buckets@.len(),
                wanted@ == name@,
                forall|j: int| 0 <= j < i ==> (#[trigger] self.buckets@[j]).name@ != name@,
            decreases self.buckets.len() - i,
        {
            let have = chars_of(self.buckets[i].name.as_str());
            if same_chars(have.as_slice(), wanted.as_slice()) {
                return Some(i);
            }
            i += 1;
        }
        None
    }

    /// The record of the bucket called `name`, if the cache holds one.
    pub fn get(&self, name: &str) -> (found: Option<&Bucket>)
        requires
            self.wf(),
        ensures
            match found {
                Some(b) => self@.contains_key(name@) && *b == self@[name@] && b.name@ == name@,
                None => !self@.contains_key(name@),
            },
    {
        match self.position(name) {
            Some(i) => {
                Some(&self.buckets[i])
            },
            None => None,
        }
    }

    /// Records `bucket` under its name, in place of any record of that name.
    pub fn insert(&mut self, bucket: Bucket)
        requires
            old(self).wf(),
        ensures
            final(self).wf(),
            final(self)@ == old(self)@.insert(bucket.name@, bucket),
            final(self).refreshed_at() == old(self).refreshed_at(),
    {
        let ghost before = self.entries();
        let ghost name = bucket.name@;
        match self.position(bucket.name.as_str()) {
            Some(i) => {
                self.buckets.set(i, bucket);
                proof {
                    let after = self.entries();
                    assert forall|n: Seq<char>| has_name(after, n) <==> (n == name || has_name(
                        before,
                        n,
                    )) by {
                        if has_name(before, n) {
                            let k = index_named(before, n);
                            assert(after[k].name@ == n);
                        }
                    }
                }
            },
            None => {
                self.buckets.push(bucket);
                proof {
                    let after = self.entries();
                    lemma_named(after, before.len() as int);
                    assert forall|n: Seq<char>| has_name(after, n) <==> (n == name || has_name(
                        before,
                        n,
                    )) by {
                        if has_name(before, n) {
                            let k = index_named(before, n);
                            assert(after[k].name@ == n);
                        }
                    }
                }
            },
        }
    }

    /// Forgets the bucket called `name` and hands back its record, if the
    /// cache held one.
    pub fn remove(&mut self, name: &str) -> (removed: Option<Bucket>)
        requires
            old(self).wf(),
        ensures
            final(self).wf(),
            final(self)@ == old(self)@.remove(name@),
            final(self).refreshed_at() == old(self).refreshed_at(),
            match removed {
                Some(b) => old(self)@.contains_key(name@) && b == old(self)@[name@],
                None => !old(self)@.contains_key(name@),
            },
    {
        let ghost before = self.entries();
        match self.position(name) {
            Some(i) => {
                let gone = self.buckets.remove(i);
                proof {
                    let after = self.entries();
                    assert forall|n: Seq<char>| has_name(after, n) <==> (n != name@ && has_name(
                        before,
                        n,
                    )) by {
                        if n != name@ && has_name(before, n) {
                            let k = index_named(before, n);
                            let k1 = if k < i { k } else { k - 1 };
                            assert(after[k1].name@ == n);
                        }
                    }
                }
                Some(gone)
            },
            None => {
                None
            },
        }
    }

    /// Replaces the whole content by `buckets`, recorded one after another,
    /// and notes `now` as the time of the refill.
    pub fn update(&mut self, buckets: Vec<Bucket>, now: Timestamp)
        ensures
            final(self).wf(),
            final(self)@ == catalog_loaded(buckets@),
            final(self).refreshed_at() == now,
    {
        self.buckets.clear();
        let ghost all = buckets@;
        let mut i: usize = 0;
        let n: usize = buckets.len();
        let mut rest = buckets;
        let mut taken: Vec<Bucket> = Vec::new();
        // Records are moved out from the back, so bring them into arrival
        // order first.
        while rest.len() > 0
            invariant
                rest@.len() + taken@.len() == all.len(),
                forall|k: int| 0 <= k < rest@.len() ==> rest@[k] == all[k],
                forall|k: int| 0 <= k < taken@.len() ==> taken@[k] == all[all.len() - 1 - k],
            decreases rest.len(),
        {
            let last = rest.pop().unwrap();
            taken.push(last);
        }
        while taken.len() > 0
            invariant
                self.wf(),
                all.len() == n,
                taken@.len() + i == all.len(),
                forall|k: int| 0 <= k < taken@.len() ==> taken@[k] == all[all.len() - 1 - k],
                self@ == catalog_loaded(all.take(i as int)),
            decreases taken.len(),
        {
            let next = taken.pop().unwrap();
            proof {
                let upto = all.take(i + 1);
                assert(upto.drop_last() =~= all.take(i as int));
            }
            self.insert(next);
            i += 1;
        }
        assert(all.take(i as int) =~= all);
        self.last_refresh = now;
    }

    /// Copies of all the records held.
    pub fn all_buckets(&self) -> (all: Vec<Bucket>)
        ensures
            all@ == self.entries(),
    {
        let mut all: Vec<Bucket> = Vec::new();
        let mut i: usize = 0;
        while i < self.buckets.len()
            invariant
                i <= self.buckets@.len(),
                all@ == self.buckets@.take(i as int),
            decreases self.buckets.len() - i,
        {
            all.push(self.buckets[i].duplicate());
            i += 1;
        }
        all
    }

    /// A copy of the first record whose identifier is `id`, if the cache
    /// holds one.
    pub fn find_by_id(&self, id: &str) -> (found: Option<Bucket>)
        ensures
            found == first_with_id(self.entries(), id@),
    {
        let wanted = chars_of(id);
        let mut i: usize = 0;
        while i < self.buckets.len()
            invariant
                i <= self.buckets@.len(),
                wanted@ == id@,
                forall|j: int| 0 <= j < i ==> (#[trigger] self.buckets@[j]).id@ != id@,
            decreases self.buckets.len() - i,
        {
            let have = chars_of(self.buckets[i].id.as_str());
            if same_chars(have.as_slice(), wanted.as_slice()) {
                proof {
                    lemma_first_with_id(self.entries(), id@, i as int);
                }
                return Some(self.buckets[i].duplicate());
            }
            i += 1;
        }
        None
    }
}

} // verus!
