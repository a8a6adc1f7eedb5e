//! How operations follow one another against an ideal backend: one that
//! never fails and holds exactly what was written to it.
//!
//! The backend is a mapping from keys to what is stored there, and
//! [`answers`] says how it answers a request. The laws of this module run
//! an operation step by step against it: each takes the steps and replies
//! of the run as parameters and requires of them only that every step is
//! what the operation does and every reply is what the backend answers.

use crate::backend::{ObjectMetadata, ReadFailure, ReadMode, RecordKind, Reply, Request, Step};
use crate::catalog::{CreateBucket, GetBucket};
use crate::error::{BackendError, ServiceError};
use crate::instant::Timestamp;
use crate::locks::{lock_installed_by, CleanupExpiredLocks, ReleaseLock, TryAcquireLock};
use crate::metadata::{Bucket, BucketCache, Lock, BUCKETS_PREFIX, LOCKS_PREFIX};
use crate::naming::{
    bucket_key_text, key_is_reserved, list_prefix_text, lock_key_text, looks_like_marker,
    marker_key_text, object_key_text, valid_bucket_name,
};
use crate::service;
use crate::text::has_prefix;
use vstd::prelude::*;

verus! {

/// What the backend holds at a key.
pub enum Stored {
    /// The JSON record of a bucket.
    Bucket(Bucket),
    /// The JSON record of a lock.
    Lock(Lock),
    /// Anything else.
    Other,
}

/// How the ideal backend that holds `store` answers `request`, and what it
/// holds afterwards.
///
/// Reading a record gives the record stored at the key, a decoding failure
/// where something else is stored there, and `NotFound` where nothing is.
/// Writing stores and succeeds. Deleting removes what is there and fails
/// with `NotFound` where nothing is. Listing gives the keys that begin with
/// the prefix and hold something, each once, up to the cap.
pub open spec fn answers(
    store: Map<Seq<char>, Stored>,
    request: Request,
    reply: Reply,
    after: Map<Seq<char>, Stored>,
) -> bool {
    match request {
        Request::ReadRecord { key, kind: RecordKind::Bucket, mode } => {
            &&& after == store
            &&& if !store.contains_key(key@) {
                reply matches Reply::Bucket(Err(ReadFailure::Backend(BackendError::NotFound(_))))
            } else {
                match store[key@] {
                    Stored::Bucket(bucket) => reply == Reply::Bucket(Ok(bucket)),
                    _ => reply matches Reply::Bucket(Err(ReadFailure::Decode(_))),
                }
            }
        },
        Request::ReadRecord { key, kind: RecordKind::Lock, mode } => {
            &&& after == store
            &&& if !store.contains_key(key@) {
                reply matches Reply::Lock(Err(ReadFailure::Backend(BackendError::NotFound(_))))
            } else {
                match store[key@] {
                    Stored::Lock(lock) => reply == Reply::Lock(Ok(lock)),
                    _ => reply matches Reply::Lock(Err(ReadFailure::Decode(_))),
                }
            }
        },
        Request::WriteBucket { key, bucket } => {
            &&& reply matches Reply::Written(Ok(_))
            &&& after == store.insert(key@, Stored::Bucket(bucket))
        },
        Request::WriteLock { key, lock } => {
            &&& reply matches Reply::Written(Ok(_))
            &&& after == store.insert(key@, Stored::Lock(lock))
        },
        Request::WriteEmpty { key } => {
            &&& reply matches Reply::Written(Ok(_))
            &&& after == store.insert(key@, Stored::Other)
        },
        Request::Delete { key } => {
            if store.contains_key(key@) {
                &&& reply matches Reply::Deleted(Ok(_))
                &&& after == store.remove(key@)
            } else {
                &&& reply matches Reply::Deleted(Err(BackendError::NotFound(_)))
                &&& after == store
            }
        },
        Request::List { prefix, max_keys } => {
            &&& after == store
            &&& reply matches Reply::Listed(Ok(listed))
            &&& lists(store, prefix@, max_keys, listed@)
        },
    }
}

/// `listed` is a listing of `store` under `prefix`: every entry names a key
/// that begins with the prefix and holds something, no key is named twice,
/// the cap is kept, and without a cap no such key is left out.
pub open spec fn lists(
    store: Map<Seq<char>, Stored>,
    prefix: Seq<char>,
    max_keys: Option<usize>,
    listed: Seq<ObjectMetadata>,
) -> bool {
    &&& forall|i: int|
        0 <= i < listed.len() ==> store.contains_key((#[trigger] listed[i]).key@) && has_prefix(
            listed[i].key@,
            prefix,
        )
    &&& forall|i: int, j: int|
        0 <= i < j < listed.len() ==> (#[trigger] listed[i]).key@ != (#[trigger] listed[j]).key@
    &&& max_keys matches Some(max) ==> listed.len() <= max
    &&& max_keys is None ==> forall|key: Seq<char>|
        store.contains_key(key) && has_prefix(key, prefix) ==> exists|i: int|
            0 <= i < listed.len() && (#[trigger] listed[i]).key@ == key
}

/// A bucket is created once. Against a backend without a record of the
/// bucket, a creation that starts from a cache without the bucket reads the
/// record's key, finds nothing, writes the record there, and ends with the
/// bucket; the backend then holds that record and nothing else has
/// changed. A second creation of the same name is refused with
/// `BucketAlreadyExists` at once.
pub proof fn bucket_is_created_once(
    name: Seq<char>,
    now: Timestamp,
    later: Timestamp,
    cache: BucketCache,
    store: Map<Seq<char>, Stored>,
    started: Step<CreateBucket, Bucket>,
    probe: Reply,
    store_probed: Map<Seq<char>, Stored>,
    probed: Step<CreateBucket, Bucket>,
    cache_probed: BucketCache,
    write: Reply,
    store_written: Map<Seq<char>, Stored>,
    ended: Step<CreateBucket, Bucket>,
    cache_ended: BucketCache,
    again: Step<CreateBucket, Bucket>,
)
    requires
        valid_bucket_name(name),
        now.has_date(),
        cache.wf(),
        !cache@.contains_key(name),
        !store.contains_key(bucket_key_text(name)),
        CreateBucket::begins(name, now, cache, started),
        started matches Step::Ask(state, request) ==> answers(store, request, probe, store_probed)
            && state.resumes(probe, cache, probed, cache_probed),
        probed matches Step::Ask(state, request) ==> answers(
            store_probed,
            request,
            write,
            store_written,
        ) && state.resumes(write, cache_probed, ended, cache_ended),
        CreateBucket::begins(name, later, cache_ended, again),
    ensures
        started matches Step::Ask(_, request) && request.reads(
            bucket_key_text(name),
            RecordKind::Bucket,
            ReadMode::Strict,
        ),
        probed is Ask,
        ended matches Step::Done(Ok(bucket)) && CreateBucket::prepared(bucket, name, now)
            && store_written == store.insert(bucket_key_text(name), Stored::Bucket(bucket))
            && cache_ended@ == cache@.insert(name, bucket),
        again matches Step::Done(Err(ServiceError::BucketAlreadyExists(m))) && m@ == name,
{
}

/// A bucket that the backend holds is not created again, at whatever time
/// and whatever the cache knows. If the cache knows the bucket, the
/// creation is refused with `BucketAlreadyExists` at once. If it does not,
/// the creation finds the record, reads it once more, and is refused
/// likewise; the cache has then learnt of the bucket. Either way nothing is
/// written and the backend is left as it was.
pub proof fn recorded_bucket_is_not_created_again(
    name: Seq<char>,
    now: Timestamp,
    existing: Bucket,
    cache: BucketCache,
    store: Map<Seq<char>, Stored>,
    started: Step<CreateBucket, Bucket>,
    probe: Reply,
    store_probed: Map<Seq<char>, Stored>,
    probed: Step<CreateBucket, Bucket>,
    cache_probed: BucketCache,
    recheck: Reply,
    store_rechecked: Map<Seq<char>, Stored>,
    ended: Step<CreateBucket, Bucket>,
    cache_ended: BucketCache,
)
    requires
        valid_bucket_name(name),
        cache.wf(),
        store.contains_key(bucket_key_text(name)),
        store[bucket_key_text(name)] == Stored::Bucket(existing),
        CreateBucket::begins(name, now, cache, started),
        started matches Step::Ask(state, request) ==> answers(store, request, probe, store_probed)
            && state.resumes(probe, cache, probed, cache_probed),
        probed matches Step::Ask(state, request) ==> answers(
            store_probed,
            request,
            recheck,
            store_rechecked,
        ) && state.resumes(recheck, cache_probed, ended, cache_ended),
    ensures
        cache@.contains_key(name) ==> (started matches Step::Done(
            Err(ServiceError::BucketAlreadyExists(m)),
        ) && m@ == name),
        !cache@.contains_key(name) ==> {
            &&& started matches Step::Ask(_, first) && !(first is WriteBucket)
            &&& probed matches Step::Ask(_, second) && !(second is WriteBucket)
            &&& ended matches Step::Done(Err(ServiceError::BucketAlreadyExists(m))) && m@ == name
            &&& store_probed == store
            &&& store_rechecked == store
            &&& cache_ended@ == cache@.insert(existing.name@, existing)
        },
{
}

/// Taking a free lock installs it: against a backend without a lock on the
/// resource, the attempt ends with `true`, and the backend then holds, at
/// the resource's lock key, the lock of that owner, expiring `ttl_seconds`
/// after `now`.
pub proof fn free_lock_is_installed(
    resource: Seq<char>,
    owner: Seq<char>,
    ttl_seconds: i64,
    now: Timestamp,
    store: Map<Seq<char>, Stored>,
    started: Step<TryAcquireLock, bool>,
    read: Reply,
    store_read: Map<Seq<char>, Stored>,
    asked: Step<TryAcquireLock, bool>,
    write: Reply,
    store_written: Map<Seq<char>, Stored>,
    ended: Step<TryAcquireLock, bool>,
)
    requires
        !store.contains_key(lock_key_text(resource)),
        TryAcquireLock::begins(resource, owner, ttl_seconds, now, started),
        started matches Step::Ask(state, request) ==> answers(store, request, read, store_read)
            && state.resumes(read, asked),
        asked matches Step::Ask(state, request) ==> answers(
            store_read,
            request,
            write,
            store_written,
        ) && state.resumes(write, ended),
    ensures
        asked is Ask,
        ended matches Step::Done(Ok(true)),
        store_written.contains_key(lock_key_text(resource)),
        store_written[lock_key_text(resource)] matches Stored::Lock(lock) && lock_installed_by(
            lock,
            resource,
            owner,
            ttl_seconds,
            now,
        ),
        store_written.remove(lock_key_text(resource)) == store,
{
}

/// A lock keeps others out until it expires, and not a moment longer.
/// Against a backend that holds a lock on the resource, an attempt at
/// `now` ends with `false` and changes nothing if the lock expires after
/// `now`; otherwise it ends with `true` and the backend holds the new lock
/// in place of the old.
pub proof fn lock_decides_the_next_attempt(
    resource: Seq<char>,
    owner: Seq<char>,
    ttl_seconds: i64,
    now: Timestamp,
    held: Lock,
    store: Map<Seq<char>, Stored>,
    started: Step<TryAcquireLock, bool>,
    read: Reply,
    store_read: Map<Seq<char>, Stored>,
    asked: Step<TryAcquireLock, bool>,
    write: Reply,
    store_written: Map<Seq<char>, Stored>,
    ended: Step<TryAcquireLock, bool>,
)
    requires
        store.contains_key(lock_key_text(resource)),
        store[lock_key_text(resource)] == Stored::Lock(held),
        TryAcquireLock::begins(resource, owner, ttl_seconds, now, started),
        started matches Step::Ask(state, request) ==> answers(store, request, read, store_read)
            && state.resumes(read, asked),
        asked matches Step::Ask(state, request) ==> answers(
            store_read,
            request,
            write,
            store_written,
        ) && state.resumes(write, ended),
    ensures
        held.held_at(now) ==> (asked matches Step::Done(Ok(false))) && store_read == store,
        !held.held_at(now) ==> (ended matches Step::Done(Ok(true)))
            && store_written.contains_key(lock_key_text(resource)) && (store_written[lock_key_text(
            resource,
        )] matches Stored::Lock(lock) && lock_installed_by(
            lock,
            resource,
            owner,
            ttl_seconds,
            now,
        )),
{
}

/// Releasing a lock. Against a backend that holds a lock on the resource,
/// a release by its owner deletes the record and succeeds; a release by
/// anyone else fails with `LockAcquisition` and changes nothing. Against a
/// backend without a lock on the resource, a release succeeds and changes
/// nothing.
pub proof fn release_frees_only_the_owners_lock(
    resource: Seq<char>,
    caller: Seq<char>,
    store: Map<Seq<char>, Stored>,
    started: Step<ReleaseLock, ()>,
    read: Reply,
    store_read: Map<Seq<char>, Stored>,
    asked: Step<ReleaseLock, ()>,
    delete: Reply,
    store_deleted: Map<Seq<char>, Stored>,
    ended: Step<ReleaseLock, ()>,
)
    requires
        store.contains_key(lock_key_text(resource)) ==> store[lock_key_text(resource)] is Lock,
        ReleaseLock::begins(resource, caller, started),
        started matches Step::Ask(state, request) ==> answers(store, request, read, store_read)
            && state.resumes(read, asked),
        asked matches Step::Ask(state, request) ==> answers(
            store_read,
            request,
            delete,
            store_deleted,
        ) && state.resumes(delete, ended),
    ensures
        !store.contains_key(lock_key_text(resource)) ==> (asked matches Step::Done(Ok(_)))
            && store_read == store,
        store.contains_key(lock_key_text(resource)) ==> (store[lock_key_text(
            resource,
        )] matches Stored::Lock(held) && if held.owner@ == caller {
            (ended matches Step::Done(Ok(_))) && store_deleted == store.remove(
                lock_key_text(resource),
            )
        } else {
            (asked matches Step::Done(Err(ServiceError::LockAcquisition(_)))) && store_read
                == store
        }),
{
}

/// The sweep frees what has lapsed. Against a backend whose only lock has
/// expired before `now`, the sweep lists, reads and deletes that lock and
/// ends with the count one; the backend then holds no lock, and whoever
/// tries next finds the resource free.
pub proof fn sweep_removes_the_lapsed_lock(
    resource: Seq<char>,
    held: Lock,
    now: Timestamp,
    store: Map<Seq<char>, Stored>,
    started: Step<CleanupExpiredLocks, u64>,
    listing: Reply,
    store_listed: Map<Seq<char>, Stored>,
    listed: Step<CleanupExpiredLocks, u64>,
    read: Reply,
    store_read: Map<Seq<char>, Stored>,
    asked: Step<CleanupExpiredLocks, u64>,
    delete: Reply,
    store_deleted: Map<Seq<char>, Stored>,
    ended: Step<CleanupExpiredLocks, u64>,
)
    requires
        store.contains_key(lock_key_text(resource)),
        store[lock_key_text(resource)] == Stored::Lock(held),
        forall|key: Seq<char>|
            store.contains_key(key) && has_prefix(key, LOCKS_PREFIX@) ==> key == lock_key_text(
                resource,
            ),
        held.lapsed_at(now),
        CleanupExpiredLocks::begins(now, started),
        started matches Step::Ask(state, request) ==> answers(store, request, listing, store_listed)
            && state.resumes(listing, listed),
        listed matches Step::Ask(state, request) ==> answers(
            store_listed,
            request,
            read,
            store_read,
        ) && state.resumes(read, asked),
        asked matches Step::Ask(state, request) ==> answers(
            store_read,
            request,
            delete,
            store_deleted,
        ) && state.resumes(delete, ended),
    ensures
        listed is Ask,
        asked is Ask,
        ended matches Step::Done(Ok(count)) && count == 1,
        store_deleted == store.remove(lock_key_text(resource)),
        !store_deleted.contains_key(lock_key_text(resource)),
{
    let key = lock_key_text(resource);
    reveal_strlit(".metadata/locks");
    reveal_strlit(".metadata/locks/");
    assert(key.subrange(0, LOCKS_PREFIX@.len() as int) =~= LOCKS_PREFIX@);
    assert(has_prefix(key, LOCKS_PREFIX@));
}

/// A bucket that the backend holds is found by a gateway whose cache has
/// not heard of it: the lookup reads the bucket's record, returns it, and
/// the cache has learnt of the bucket. The backend is left as it was.
pub proof fn recorded_bucket_is_found(
    name: Seq<char>,
    now: Timestamp,
    existing: Bucket,
    cache: BucketCache,
    store: Map<Seq<char>, Stored>,
    started: Step<GetBucket, Bucket>,
    probe: Reply,
    store_probed: Map<Seq<char>, Stored>,
    ended: Step<GetBucket, Bucket>,
    cache_ended: BucketCache,
)
    requires
        cache.wf(),
        !cache@.contains_key(name),
        store.contains_key(bucket_key_text(name)),
        store[bucket_key_text(name)] == Stored::Bucket(existing),
        GetBucket::begins(name, cache, started),
        started matches Step::Ask(state, request) ==> answers(store, request, probe, store_probed)
            && state.resumes(probe, cache, now, ended, cache_ended),
    ensures
        started is Ask,
        ended matches Step::Done(Ok(found)) && found == existing,
        cache_ended@ == cache@.insert(existing.name@, existing),
        store_probed == store,
{
}

/// A bucket that nobody has recorded is not found: against a backend
/// without any catalog record, a lookup from a cache without the bucket
/// reads the bucket's record, finds nothing, reloads the catalog, which is
/// empty, and ends with `BucketNotFound`.
pub proof fn unrecorded_bucket_is_not_found(
    name: Seq<char>,
    now: Timestamp,
    cache: BucketCache,
    store: Map<Seq<char>, Stored>,
    started: Step<GetBucket, Bucket>,
    probe: Reply,
    store_probed: Map<Seq<char>, Stored>,
    probed: Step<GetBucket, Bucket>,
    cache_probed: BucketCache,
    listing: Reply,
    store_listed: Map<Seq<char>, Stored>,
    ended: Step<GetBucket, Bucket>,
    cache_ended: BucketCache,
)
    requires
        cache.wf(),
        !cache@.contains_key(name),
        forall|key: Seq<char>| store.contains_key(key) ==> !has_prefix(key, BUCKETS_PREFIX@),
        GetBucket::begins(name, cache, started),
        started matches Step::Ask(state, request) ==> answers(store, request, probe, store_probed)
            && state.resumes(probe, cache, now, probed, cache_probed),
        probed matches Step::Ask(state, request) ==> answers(
            store_probed,
            request,
            listing,
            store_listed,
        ) && state.resumes(listing, cache_probed, now, ended, cache_ended),
    ensures
        started is Ask,
        probed is Ask,
        ended matches Step::Done(Err(ServiceError::BucketNotFound(m))) && m@ == name,
        cache_ended@ == Map::<Seq<char>, Bucket>::empty(),
        cache_ended.refreshed_at() == now,
        store_listed == store,
{
    let key = bucket_key_text(name);
    reveal_strlit(".metadata/buckets");
    reveal_strlit(".metadata/buckets/");
    assert(key.subrange(0, BUCKETS_PREFIX@.len() as int) =~= BUCKETS_PREFIX@);
}

/// A created bucket has its record and its marker. Against a backend
/// without a record of the bucket, the service's creation from a cache
/// without the bucket writes the record, then the marker, and ends with the
/// bucket; the backend then holds both, and nothing else has changed.
pub proof fn created_bucket_has_record_and_marker(
    name: Seq<char>,
    now: Timestamp,
    cache: BucketCache,
    store: Map<Seq<char>, Stored>,
    started: Step<service::CreateBucket, Bucket>,
    probe: Reply,
    store_probed: Map<Seq<char>, Stored>,
    probed: Step<service::CreateBucket, Bucket>,
    cache_probed: BucketCache,
    write: Reply,
    store_written: Map<Seq<char>, Stored>,
    written: Step<service::CreateBucket, Bucket>,
    cache_written: BucketCache,
    mark: Reply,
    store_marked: Map<Seq<char>, Stored>,
    ended: Step<service::CreateBucket, Bucket>,
    cache_ended: BucketCache,
)
    requires
        valid_bucket_name(name),
        now.has_date(),
        cache.wf(),
        !cache@.contains_key(name),
        !store.contains_key(bucket_key_text(name)),
        service::CreateBucket::begins(name, now, cache, started),
        started matches Step::Ask(state, request) ==> answers(store, request, probe, store_probed)
            && state.resumes(probe, cache, probed, cache_probed),
        probed matches Step::Ask(state, request) ==> answers(
            store_probed,
            request,
            write,
            store_written,
        ) && state.resumes(write, cache_probed, written, cache_written),
        written matches Step::Ask(state, request) ==> answers(
            store_written,
            request,
            mark,
            store_marked,
        ) && state.resumes(mark, cache_written, ended, cache_ended),
    ensures
        started is Ask,
        probed is Ask,
        written is Ask,
        ended matches Step::Done(Ok(bucket)) && CreateBucket::prepared(bucket, name, now)
            && store_marked == store.insert(bucket_key_text(name), Stored::Bucket(bucket)).insert(
            marker_key_text(name),
            Stored::Other,
        ) && cache_ended@ == cache@.insert(name, bucket),
{
}

/// A deleted bucket leaves nothing behind. Against a backend that holds
/// the record and the marker of a bucket and no object of it, the service's
/// deletion, from a cache that knows the bucket, lists the bucket, deletes
/// the marker, deletes the record, and succeeds; the backend then holds
/// neither, nothing else has changed, and the cache has forgotten the
/// bucket.
pub proof fn deleted_bucket_leaves_nothing(
    name: Seq<char>,
    now: Timestamp,
    cache: BucketCache,
    store: Map<Seq<char>, Stored>,
    started: Step<service::DeleteBucket, ()>,
    listing: Reply,
    store_listed: Map<Seq<char>, Stored>,
    listed: Step<service::DeleteBucket, ()>,
    cache_listed: BucketCache,
    unmark: Reply,
    store_unmarked: Map<Seq<char>, Stored>,
    unmarked: Step<service::DeleteBucket, ()>,
    cache_unmarked: BucketCache,
    delete: Reply,
    store_deleted: Map<Seq<char>, Stored>,
    ended: Step<service::DeleteBucket, ()>,
    cache_ended: BucketCache,
)
    requires
        cache.wf(),
        cache@.contains_key(name),
        store.contains_key(bucket_key_text(name)),
        store.contains_key(marker_key_text(name)),
        forall|key: Seq<char>|
            store.contains_key(key) && has_prefix(key, name + "/"@) ==> key == marker_key_text(
                name,
            ),
        service::DeleteBucket::begins(name, cache, started),
        started matches Step::Ask(state, request) ==> answers(store, request, listing, store_listed)
            && state.resumes(listing, cache, now, listed, cache_listed),
        listed matches Step::Ask(state, request) ==> answers(
            store_listed,
            request,
            unmark,
            store_unmarked,
        ) && state.resumes(unmark, cache_listed, now, unmarked, cache_unmarked),
        unmarked matches Step::Ask(state, request) ==> answers(
            store_unmarked,
            request,
            delete,
            store_deleted,
        ) && state.resumes(delete, cache_unmarked, now, ended, cache_ended),
    ensures
        started is Ask,
        listed is Ask,
        unmarked is Ask,
        ended matches Step::Done(Ok(_)),
        store_deleted == store.remove(marker_key_text(name)).remove(bucket_key_text(name)),
        cache_ended@ == cache@.remove(name),
{
    reveal_strlit("/.bucket");
    reveal_strlit(".metadata/buckets/");
    let marker = marker_key_text(name);
    assert(marker.subrange(marker.len() - 8, marker.len() as int) =~= "/.bucket"@);
    match listing {
        Reply::Listed(Ok(entries)) => {
            let all = entries@;
            service::shown_entries_are_the_unmarked(all);
            if service::shown_entries(all).len() > 0 {
                let first = service::shown_entries(all)[0];
                assert(all.contains(first));
            }
        },
        _ => {},
    }
}

/// `shown` is what a listing of bucket `name` under `prefix`, capped at
/// `max_keys`, shows of what the backend holds:
///
/// - each entry names, by its logical key, an object that the backend
///   holds in the bucket, begins with the prefix, is not the reserved key,
///   and does not end in `/.bucket`;
/// - there are no more entries than the cap allows;
/// - and, without a cap, none is missing: every key that the backend holds
///   under `<bucket>/<prefix>` is shown, unless it ends in `/.bucket`.
pub open spec fn shows_objects_of(
    store: Map<Seq<char>, Stored>,
    name: Seq<char>,
    prefix: Option<Seq<char>>,
    max_keys: Option<usize>,
    shown: Seq<ObjectMetadata>,
) -> bool {
    &&& forall|j: int|
        0 <= j < shown.len() ==> {
            &&& store.contains_key(object_key_text(name, (#[trigger] shown[j]).key@))
            &&& has_prefix(
                shown[j].key@,
                match prefix {
                    Some(p) => p,
                    None => Seq::empty(),
                },
            )
            &&& !key_is_reserved(shown[j].key@)
            &&& !looks_like_marker(shown[j].key@)
        }
    &&& max_keys matches Some(max) ==> shown.len() <= max
    &&& max_keys is None ==> forall|key: Seq<char>|
        store.contains_key(key) && has_prefix(key, list_prefix_text(name, prefix))
            && !looks_like_marker(key) ==> exists|j: int|
            0 <= j < shown.len() && object_key_text(name, (#[trigger] shown[j]).key@) == key
}

/// What the service shows of a backend's listing under the bucket's prefix
/// is what the backend holds of the bucket.
pub proof fn shown_listing_shows_the_objects(
    store: Map<Seq<char>, Stored>,
    name: Seq<char>,
    prefix: Option<Seq<char>>,
    max_keys: Option<usize>,
    listed: Seq<ObjectMetadata>,
    shown: Seq<ObjectMetadata>,
)
    requires
        lists(store, list_prefix_text(name, prefix), max_keys, listed),
        service::shows_listing(name, listed, shown),
    ensures
        shows_objects_of(store, name, prefix, max_keys, shown),
{
    let full = list_prefix_text(name, prefix);
    let lead = name + "/"@;
    let wanted = match prefix {
        Some(p) => p,
        None => Seq::empty(),
    };
    service::listing_shows_the_prefixed_objects(name, prefix, listed, shown);
    service::markers_are_never_shown(name, listed, shown);
    assert forall|j: int| 0 <= j < shown.len() implies store.contains_key(
        object_key_text(name, (#[trigger] shown[j]).key@),
    ) by {
        let i = choose|i: int|
            0 <= i < listed.len() && !looks_like_marker(listed[i].key@) && service::shown_as(
                name,
                listed[i],
                shown[j],
            );
        let key = listed[i].key@;
        crate::text::prefix_of_joined(key, lead, wanted);
        crate::text::prefix_splits(key, lead);
        reveal_strlit("/");
    }
    if max_keys is None {
        assert forall|key: Seq<char>|
            store.contains_key(key) && has_prefix(key, full) && !looks_like_marker(
                key,
            ) implies exists|j: int|
            0 <= j < shown.len() && object_key_text(name, (#[trigger] shown[j]).key@)
                == key by {
            crate::text::prefix_of_joined(key, lead, wanted);
            crate::text::prefix_splits(key, lead);
            reveal_strlit("/");
        }
    }
}

/// A listing shows the objects of the bucket under the prefix. Against any
/// backend, the listing of a bucket that the cache knows asks for the keys
/// under `<bucket>/<prefix>` and ends with what the backend holds of the
/// bucket there; the backend is left as it was.
pub proof fn listing_shows_the_objects_of_the_bucket(
    name: Seq<char>,
    prefix: Option<Seq<char>>,
    max_keys: Option<usize>,
    now: Timestamp,
    cache: BucketCache,
    store: Map<Seq<char>, Stored>,
    started: Step<service::ListObjects, Vec<ObjectMetadata>>,
    listing: Reply,
    store_listed: Map<Seq<char>, Stored>,
    ended: Step<service::ListObjects, Vec<ObjectMetadata>>,
    cache_ended: BucketCache,
)
    requires
        cache.wf(),
        cache@.contains_key(name),
        service::ListObjects::begins(name, prefix, max_keys, cache, started),
        started matches Step::Ask(state, request) ==> answers(store, request, listing, store_listed)
            && state.resumes(listing, cache, now, ended, cache_ended),
    ensures
        started matches Step::Ask(_, request) && request.lists(
            list_prefix_text(name, prefix),
            max_keys,
        ),
        ended matches Step::Done(Ok(shown)) && shows_objects_of(
            store,
            name,
            prefix,
            max_keys,
            shown@,
        ),
        store_listed == store,
{
    match (listing, ended) {
        (Reply::Listed(Ok(entries)), Step::Done(Ok(result))) => {
            shown_listing_shows_the_objects(store, name, prefix, max_keys, entries@, result@);
        },
        _ => {},
    }
}

/// The same holds of a bucket that only the backend knows. The listing of
/// a bucket whose record the backend holds, from a cache without the
/// bucket, first reads the record, then asks for the keys under
/// `<bucket>/<prefix>`, and ends with what the backend holds of the bucket
/// there; the backend is left as it was.
pub proof fn listing_shows_the_objects_of_a_recorded_bucket(
    name: Seq<char>,
    prefix: Option<Seq<char>>,
    max_keys: Option<usize>,
    now: Timestamp,
    existing: Bucket,
    cache: BucketCache,
    store: Map<Seq<char>, Stored>,
    started: Step<service::ListObjects, Vec<ObjectMetadata>>,
    probe: Reply,
    store_probed: Map<Seq<char>, Stored>,
    found: Step<service::ListObjects, Vec<ObjectMetadata>>,
    cache_found: BucketCache,
    listing: Reply,
    store_listed: Map<Seq<char>, Stored>,
    ended: Step<service::ListObjects, Vec<ObjectMetadata>>,
    cache_ended: BucketCache,
)
    requires
        cache.wf(),
        !cache@.contains_key(name),
        store.contains_key(bucket_key_text(name)),
        store[bucket_key_text(name)] == Stored::Bucket(existing),
        service::ListObjects::begins(name, prefix, max_keys, cache, started),
        started matches Step::Ask(state, request) ==> answers(store, request, probe, store_probed)
            && state.resumes(probe, cache, now, found, cache_found),
        found matches Step::Ask(state, request) ==> answers(
            store_probed,
            request,
            listing,
            store_listed,
        ) && state.resumes(listing, cache_found, now, ended, cache_ended),
    ensures
        started matches Step::Ask(_, request) && request.reads(
            bucket_key_text(name),
            RecordKind::Bucket,
            ReadMode::Strict,
        ),
        found matches Step::Ask(_, request) && request.lists(
            list_prefix_text(name, prefix),
            max_keys,
        ),
        ended matches Step::Done(Ok(shown)) && shows_objects_of(
            store,
            name,
            prefix,
            max_keys,
            shown@,
        ),
        store_listed == store,
{
    match (listing, ended) {
        (Reply::Listed(Ok(entries)), Step::Done(Ok(result))) => {
            shown_listing_shows_the_objects(store, name, prefix, max_keys, entries@, result@);
        },
        _ => {},
    }
}

/// Access to an object of a bucket that only the backend knows is decided
/// by the key alone, once the bucket's record has been read: a valid key
/// yields the backend key `<bucket>/<key>`, an invalid one is refused.
pub proof fn access_to_a_recorded_bucket(
    bucket: Seq<char>,
    key: Seq<char>,
    now: Timestamp,
    existing: Bucket,
    cache: BucketCache,
    store: Map<Seq<char>, Stored>,
    started: Step<service::ObjectAccess, String>,
    probe: Reply,
    store_probed: Map<Seq<char>, Stored>,
    ended: Step<service::ObjectAccess, String>,
    cache_ended: BucketCache,
)
    requires
        cache.wf(),
        !cache@.contains_key(bucket),
        store.contains_key(bucket_key_text(bucket)),
        store[bucket_key_text(bucket)] == Stored::Bucket(existing),
        service::ObjectAccess::begins(bucket, key, cache, started),
        started matches Step::Ask(state, request) ==> answers(store, request, probe, store_probed)
            && state.resumes(probe, cache, now, ended, cache_ended),
    ensures
        started matches Step::Ask(_, request) && request.reads(
            bucket_key_text(bucket),
            RecordKind::Bucket,
            ReadMode::Strict,
        ),
        service::ObjectAccess::admits(bucket, key, ended),
        store_probed == store,
{
}

/// A bucket that holds nothing but its marker lists as empty, whatever the
/// prefix and the cap.
pub proof fn bucket_with_only_its_marker_lists_nothing(
    name: Seq<char>,
    prefix: Option<Seq<char>>,
    max_keys: Option<usize>,
    now: Timestamp,
    cache: BucketCache,
    store: Map<Seq<char>, Stored>,
    started: Step<service::ListObjects, Vec<ObjectMetadata>>,
    listing: Reply,
    store_listed: Map<Seq<char>, Stored>,
    ended: Step<service::ListObjects, Vec<ObjectMetadata>>,
    cache_ended: BucketCache,
)
    requires
        cache.wf(),
        cache@.contains_key(name),
        forall|key: Seq<char>|
            store.contains_key(key) && has_prefix(key, name + "/"@) ==> key == marker_key_text(
                name,
            ),
        service::ListObjects::begins(name, prefix, max_keys, cache, started),
        started matches Step::Ask(state, request) ==> answers(store, request, listing, store_listed)
            && state.resumes(listing, cache, now, ended, cache_ended),
    ensures
        started is Ask,
        ended matches Step::Done(Ok(shown)) && shown@.len() == 0,
{
    let lead = name + "/"@;
    let wanted = match prefix {
        Some(p) => p,
        None => Seq::empty(),
    };
    let marker = marker_key_text(name);
    reveal_strlit("/.bucket");
    assert(marker.subrange(marker.len() - 8, marker.len() as int) =~= "/.bucket"@);
    match listing {
        Reply::Listed(Ok(entries)) => {
            let all = entries@;
            assert forall|i: int| 0 <= i < all.len() implies looks_like_marker(
                (#[trigger] all[i]).key@,
            ) by {
                crate::text::prefix_of_joined(all[i].key@, lead, wanted);
            }
            service::shown_entries_are_the_unmarked(all);
            if service::shown_entries(all).len() > 0 {
                let first = service::shown_entries(all)[0];
                assert(all.contains(first));
            }
        },
        _ => {},
    }
}

/// What is put is read back. A put and a later get of the same key of a
/// bucket, each once it is past the lookup of the bucket, whether the
/// cache or the backend answered it, are admitted exactly if the key is
/// valid, and then both go to the same backend key. So a backend that keeps
/// under each key what was last put there hands back, to the get, the body
/// and the metadata of the put: the size is the length of the body, the
/// entity tag is the 64 hexadecimal digits of its SHA-256, and content type
/// and custom metadata are as supplied. A put to another object, of this
/// bucket or of another, does not change that.
pub proof fn what_is_put_is_read_back(
    bucket: Seq<char>,
    key: Seq<char>,
    put: Step<service::ObjectAccess, String>,
    get: Step<service::ObjectAccess, String>,
    body: Seq<u8>,
    content_type: Option<String>,
    custom_metadata: Vec<(String, String)>,
    now: Timestamp,
    metadata: ObjectMetadata,
    objects: Map<Seq<char>, (Seq<u8>, ObjectMetadata)>,
    other_bucket: Seq<char>,
    other_key: Seq<char>,
    other: (Seq<u8>, ObjectMetadata),
)
    requires
        valid_bucket_name(bucket),
        valid_bucket_name(other_bucket),
        other_bucket != bucket || other_key != key,
        service::ObjectAccess::admits(bucket, key, put),
        service::ObjectAccess::admits(bucket, key, get),
        put matches Step::Done(Ok(at)) ==> crate::local::describes_upload(
            metadata,
            at@,
            body,
            content_type,
            custom_metadata,
            now,
        ),
    ensures
        put matches Step::Done(Ok(_)) <==> crate::naming::valid_object_key(key),
        get matches Step::Done(Ok(_)) <==> crate::naming::valid_object_key(key),
        put matches Step::Done(Ok(written)) ==> (get matches Step::Done(Ok(read)) ==> {
            let kept = objects.insert(written@, (body, metadata)).insert(
                object_key_text(other_bucket, other_key),
                other,
            );
            &&& written@ == object_key_text(bucket, key)
            &&& read@ == written@
            &&& kept.contains_key(read@)
            &&& kept[read@] == (body, metadata)
            &&& metadata.size == body.len()
            &&& metadata.etag@.len() == 64
            &&& metadata.etag@ == crate::etag::etag_text(body)
            &&& metadata.content_type == content_type
            &&& metadata.custom_metadata == custom_metadata
        }),
{
    if object_key_text(other_bucket, other_key) == object_key_text(bucket, key) {
        crate::naming::object_keys_do_not_collide(other_bucket, other_key, bucket, key);
    }
}

/// The backend holds, at `key`, a lock that has lapsed at `now`.
pub open spec fn holds_lapsed_lock(store: Map<Seq<char>, Stored>, key: Seq<char>, now: Timestamp) -> bool {
    store.contains_key(key) && (store[key] matches Stored::Lock(lock) && lock.lapsed_at(now))
}

/// How many of the entries of `listed`, from position `from` on, name a
/// lock that has lapsed at `now`.
pub open spec fn lapsed_among(
    store: Map<Seq<char>, Stored>,
    listed: Seq<ObjectMetadata>,
    now: Timestamp,
    from: int,
) -> nat
    decreases listed.len() - from,
{
    if from < 0 || from >= listed.len() {
        0
    } else {
        lapsed_among(store, listed, now, from + 1) + (if holds_lapsed_lock(
            store,
            listed[from].key@,
            now,
        ) {
            1nat
        } else {
            0nat
        })
    }
}

/// One of the first `upto` entries of `listed` names `key`, and the
/// backend held a lapsed lock there.
pub open spec fn was_swept(
    original: Map<Seq<char>, Stored>,
    listed: Seq<ObjectMetadata>,
    now: Timestamp,
    upto: int,
    key: Seq<char>,
) -> bool {
    holds_lapsed_lock(original, key, now) && exists|i: int|
        0 <= i < upto && i < listed.len() && (#[trigger] listed[i]).key@ == key
}

/// `store` is what is left of `original` once the lapsed locks among the
/// first `upto` entries of `listed` are gone: those keys are missing, and
/// everything else is as it was.
pub open spec fn is_left_of(
    store: Map<Seq<char>, Stored>,
    original: Map<Seq<char>, Stored>,
    listed: Seq<ObjectMetadata>,
    now: Timestamp,
    upto: int,
) -> bool {
    &&& forall|key: Seq<char>| #[trigger]
        store.contains_key(key) <==> original.contains_key(key) && !was_swept(
            original,
            listed,
            now,
            upto,
            key,
        )
    &&& forall|key: Seq<char>| #[trigger] store.contains_key(key) ==> store[key] == original[key]
}

/// A sweep that stands at `step`, against a backend that holds `store`,
/// runs to its end within `fuel` exchanges, ends with `count`, and leaves
/// the backend holding `after`.
pub open spec fn sweep_ends(
    step: Step<CleanupExpiredLocks, u64>,
    store: Map<Seq<char>, Stored>,
    fuel: nat,
    count: u64,
    after: Map<Seq<char>, Stored>,
) -> bool
    decreases fuel,
{
    match step {
        Step::Done(Ok(cleaned)) => cleaned == count && after == store,
        Step::Done(Err(_)) => false,
        Step::Ask(state, request) => fuel > 0 && exists|
            reply: Reply,
            held: Map<Seq<char>, Stored>,
            next: Step<CleanupExpiredLocks, u64>,
        |
            #![trigger answers(store, request, reply, held), state.resumes(reply, next)]
            answers(store, request, reply, held) && state.resumes(reply, next) && sweep_ends(
                next,
                held,
                (fuel - 1) as nat,
                count,
                after,
            ),
    }
}

proof fn sweep_goes_on(
    listed: Vec<ObjectMetadata>,
    next: int,
    cleaned: u64,
    now: Timestamp,
    step: Step<CleanupExpiredLocks, u64>,
    original: Map<Seq<char>, Stored>,
    store: Map<Seq<char>, Stored>,
    fuel: nat,
    count: u64,
    after: Map<Seq<char>, Stored>,
)
    requires
        lists(original, LOCKS_PREFIX@, None, listed@),
        0 <= next <= listed@.len(),
        cleaned <= next,
        CleanupExpiredLocks::moves_to(listed, next, cleaned, now, step),
        sweep_ends(step, store, fuel, count, after),
        is_left_of(store, original, listed@, now, next),
    ensures
        count == cleaned + lapsed_among(original, listed@, now, next),
        is_left_of(after, original, listed@, now, listed@.len() as int),
    decreases listed@.len() - next,
{
    let all = listed@;
    assert(all.len() == listed.len());
    if next >= all.len() {
        assert forall|key: Seq<char>|
            was_swept(original, all, now, next, key) <==> was_swept(
                original,
                all,
                now,
                all.len() as int,
                key,
            ) by {}
    } else {
        let key = all[next].key@;
        assert(original.contains_key(key));
        assert(!was_swept(original, all, now, next, key)) by {
            if was_swept(original, all, now, next, key) {
                let i = choose|i: int|
                    0 <= i < next && i < all.len() && (#[trigger] all[i]).key@ == key;
                assert(all[i].key@ != all[next].key@);
            }
        }
        assert(store.contains_key(key));
        assert(store[key] == original[key]);
        match step {
            Step::Ask(state, request) => {
                let (reply, held, read) = choose|
                    reply: Reply,
                    held: Map<Seq<char>, Stored>,
                    read: Step<CleanupExpiredLocks, u64>,
                |
                    #![trigger answers(store, request, reply, held), state.resumes(reply, read)]
                    answers(store, request, reply, held) && state.resumes(reply, read)
                        && sweep_ends(read, held, (fuel - 1) as nat, count, after);
                assert(held == store);
                if holds_lapsed_lock(original, key, now) {
                    match read {
                        Step::Ask(deleting, removal) => {
                            let (answer, emptied, moved) = choose|
                                answer: Reply,
                                emptied: Map<Seq<char>, Stored>,
                                moved: Step<CleanupExpiredLocks, u64>,
                            |
                                #![trigger answers(held, removal, answer, emptied), deleting.resumes(answer, moved)]
                                answers(held, removal, answer, emptied) && deleting.resumes(
                                    answer,
                                    moved,
                                ) && sweep_ends(moved, emptied, (fuel - 2) as nat, count, after);
                            assert(emptied == store.remove(key));
                            assert forall|other: Seq<char>|
                                was_swept(original, all, now, next + 1, other) <==> (other == key
                                    || was_swept(original, all, now, next, other)) by {
                                if was_swept(original, all, now, next + 1, other) && other != key {
                                    let i = choose|i: int|
                                        0 <= i < next + 1 && i < all.len() && (
                                        #[trigger] all[i]).key@ == other;
                                    assert(i < next);
                                }
                                if was_swept(original, all, now, next, other) {
                                    let i = choose|i: int|
                                        0 <= i < next && i < all.len() && (#[trigger] all[i]).key@
                                            == other;
                                    assert(i < next + 1);
                                }
                                if other == key {
                                    assert(all[next].key@ == other);
                                }
                            }
                            sweep_goes_on(
                                listed,
                                next + 1,
                                (cleaned + 1) as u64,
                                now,
                                moved,
                                original,
                                emptied,
                                (fuel - 2) as nat,
                                count,
                                after,
                            );
                        },
                        _ => {},
                    }
                } else {
                    assert forall|other: Seq<char>|
                        was_swept(original, all, now, next + 1, other) <==> was_swept(
                            original,
                            all,
                            now,
                            next,
                            other,
                        ) by {
                        if was_swept(original, all, now, next + 1, other) {
                            let i = choose|i: int|
                                0 <= i < next + 1 && i < all.len() && (#[trigger] all[i]).key@
                                    == other;
                            assert(i < next);
                        }
                        if was_swept(original, all, now, next, other) {
                            let i = choose|i: int|
                                0 <= i < next && i < all.len() && (#[trigger] all[i]).key@
                                    == other;
                            assert(i < next + 1);
                        }
                    }
                    sweep_goes_on(
                        listed,
                        next + 1,
                        cleaned,
                        now,
                        read,
                        original,
                        store,
                        (fuel - 1) as nat,
                        count,
                        after,
                    );
                }
            },
            _ => {},
        }
    }
}

/// The sweep removes every lapsed lock and nothing else. Against a backend
/// that holds any number of lock records, a sweep at `now` that runs to
/// its end leaves the backend without the locks that had lapsed at `now`
/// and with everything else as it was: locks still held, records that are
/// no locks, and all that lies outside the lock records. Its count is the
/// number of lapsed locks in the backend's listing of the lock records.
pub proof fn sweep_removes_every_lapsed_lock(
    now: Timestamp,
    store: Map<Seq<char>, Stored>,
    started: Step<CleanupExpiredLocks, u64>,
    fuel: nat,
    count: u64,
    after: Map<Seq<char>, Stored>,
)
    requires
        CleanupExpiredLocks::begins(now, started),
        sweep_ends(started, store, fuel, count, after),
    ensures
        forall|key: Seq<char>| #[trigger]
            after.contains_key(key) <==> store.contains_key(key) && !(has_prefix(
                key,
                LOCKS_PREFIX@,
            ) && holds_lapsed_lock(store, key, now)),
        forall|key: Seq<char>| #[trigger] after.contains_key(key) ==> after[key] == store[key],
        exists|listed: Seq<ObjectMetadata>|
            #[trigger] lists(store, LOCKS_PREFIX@, None, listed) && count == lapsed_among(
                store,
                listed,
                now,
                0,
            ),
{
    match started {
        Step::Ask(state, request) => {
            let (reply, held, moved) = choose|
                reply: Reply,
                held: Map<Seq<char>, Stored>,
                moved: Step<CleanupExpiredLocks, u64>,
            |
                #![trigger answers(store, request, reply, held), state.resumes(reply, moved)]
                answers(store, request, reply, held) && state.resumes(reply, moved)
                    && sweep_ends(moved, held, (fuel - 1) as nat, count, after);
            match reply {
                Reply::Listed(Ok(entries)) => {
                    let all = entries@;
                    assert forall|key: Seq<char>| !was_swept(store, all, now, 0, key) by {}
                    sweep_goes_on(
                        entries,
                        0,
                        0,
                        now,
                        moved,
                        store,
                        store,
                        (fuel - 1) as nat,
                        count,
                        after,
                    );
                    assert(lists(store, LOCKS_PREFIX@, None, all));
                    assert forall|key: Seq<char>|
                        was_swept(store, all, now, all.len() as int, key) <==> (has_prefix(
                            key,
                            LOCKS_PREFIX@,
                        ) && holds_lapsed_lock(store, key, now)) by {
                        if was_swept(store, all, now, all.len() as int, key) {
                            let i = choose|i: int|
                                0 <= i < all.len() && i < all.len() && (#[trigger] all[i]).key@
                                    == key;
                            assert(has_prefix(all[i].key@, LOCKS_PREFIX@));
                        }
                        if has_prefix(key, LOCKS_PREFIX@) && holds_lapsed_lock(store, key, now) {
                            let i = choose|i: int|
                                0 <= i < all.len() && (#[trigger] all[i]).key@ == key;
                            assert(all[i].key@ == key);
                        }
                    }
                },
                _ => {},
            }
        },
        _ => {},
    }
}

} // verus!
