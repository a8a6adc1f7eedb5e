//! Advisory locks kept as records in the backend.
//!
//! A lock on a resource is the record at `.metadata/locks/<resource>`. It is
//! held while its expiry lies in the future. Acquiring reads the record and
//! writes a new one where none is held; the two steps are not atomic, so
//! the lock is a hint for coarse coordination and not mutual exclusion.

use crate::backend::{ObjectMetadata, ReadFailure, ReadMode, RecordKind, Reply, Request, Step};
use crate::catalog::{
    is_protocol_error, protocol_error, settle, settled, write_error, write_failed,
};
use crate::error::{BackendError, ServiceError};
use crate::instant::Timestamp;
use crate::metadata::{Lock, LOCKS_PREFIX};
use crate::naming::{lock_key, lock_key_text};
use crate::text::{join, same_text};
use vstd::prelude::*;

verus! {

/// The lock that `owner` installs on `resource` at `now` for `ttl_seconds`.
pub open spec fn lock_installed_by(
    lock: Lock,
    resource: Seq<char>,
    owner: Seq<char>,
    ttl_seconds: i64,
    now: Timestamp,
) -> bool {
    &&& lock.resource@ == resource
    &&& lock.owner@ == owner
    &&& lock.acquired_at == now
    &&& lock.expires_at.secs == now.secs + ttl_seconds
    &&& lock.expires_at.nanos == now.nanos
}

/// Trying to take the lock on a resource: read the lock record and, unless
/// it shows a lock that is still held, write a new one.
pub enum TryAcquireLock {
    /// The current record has been asked for; `lock` is what will be
    /// written if the resource is free at `now`.
    Reading { lock: Lock, now: Timestamp },
    /// The new record has been sent to the backend.
    Writing,
}

impl TryAcquireLock {
    /// The step that writes `lock` as the new record.
    pub open spec fn installs(lock: Lock, step: Step<TryAcquireLock, bool>) -> bool {
        &&& step matches Step::Ask(TryAcquireLock::Writing, req)
        &&& req.writes_lock(lock_key_text(lock.resource@), lock)
    }

    /// What `resume` does, case by case: a lock that is still held refuses
    /// the attempt with `false`; a lapsed or missing one is replaced; a
    /// record that cannot be read fails the attempt; a successful write
    /// grants the lock with `true`.
    pub open spec fn resumes(self, reply: Reply, step: Step<TryAcquireLock, bool>) -> bool {
        match (self, reply) {
            (TryAcquireLock::Reading { lock, now }, Reply::Lock(Ok(existing))) => {
                if existing.held_at(now) {
                    step matches Step::Done(Ok(false))
                } else {
                    Self::installs(lock, step)
                }
            },
            (
                TryAcquireLock::Reading { lock, now },
                Reply::Lock(Err(ReadFailure::Backend(BackendError::NotFound(_)))),
            ) => Self::installs(lock, step),
            (TryAcquireLock::Reading { lock, now }, Reply::Lock(read)) => {
                &&& step matches Step::Done(Err(e))
                &&& settled::<Lock>(read, Err(e))
            },
            (TryAcquireLock::Writing, Reply::Written(Ok(_))) => step matches Step::Done(Ok(true)),
            (TryAcquireLock::Writing, Reply::Written(Err(failure))) => {
                step matches Step::Done(Err(e)) && write_failed(failure, e)
            },
            _ => step matches Step::Done(Err(e)) && is_protocol_error(e),
        }
    }

    /// What `begin` does: it prepares the lock to install and asks for the
    /// current lock record.
    pub open spec fn begins(
        resource: Seq<char>,
        owner: Seq<char>,
        ttl_seconds: i64,
        now: Timestamp,
        step: Step<TryAcquireLock, bool>,
    ) -> bool {
        &&& step matches Step::Ask(TryAcquireLock::Reading { lock, now: at }, req)
        &&& lock_installed_by(lock, resource, owner, ttl_seconds, now)
        &&& at == now
        &&& req.reads(lock_key_text(resource), RecordKind::Lock, ReadMode::Strict)
    }

    /// Starts an attempt by `owner` to lock `resource` at `now` for
    /// `ttl_seconds`: asks for the current lock record.
    pub fn begin(resource: &str, owner: &str, ttl_seconds: i64, now: Timestamp) -> (step: Step<
        TryAcquireLock,
        bool,
    >)
        requires
            i64::MIN <= now.secs + ttl_seconds <= i64::MAX,
        ensures
            Self::begins(resource@, owner@, ttl_seconds, now, step),
    {
        let lock = Lock {
            resource: String::from_str(resource),
            owner: String::from_str(owner),
            acquired_at: now,
            expires_at: now.add_seconds(ttl_seconds),
        };
        Step::Ask(
            TryAcquireLock::Reading { lock, now },
            Request::ReadRecord {
                key: lock_key(resource),
                kind: RecordKind::Lock,
                mode: ReadMode::Strict,
            },
        )
    }

    fn install(lock: Lock) -> (step: Step<TryAcquireLock, bool>)
        ensures
            Self::installs(lock, step),
    {
        let key = lock_key(lock.resource.as_str());
        Step::Ask(TryAcquireLock::Writing, Request::WriteLock { key, lock })
    }

    /// Takes the reply to the request last handed out and says what comes
    /// next.
    pub fn resume(self, reply: Reply) -> (step: Step<TryAcquireLock, bool>)
        ensures
            self.resumes(reply, step),
    {
        match self {
            TryAcquireLock::Reading { lock, now } => match reply {
                Reply::Lock(read) => match settle(read) {
                    Ok(Some(existing)) => {
                        if existing.expires_at.is_after(&now) {
                            Step::Done(Ok(false))
                        } else {
                            Self::install(lock)
                        }
                    },
                    Ok(None) => Self::install(lock),
                    Err(e) => Step::Done(Err(e)),
                },
                _ => Step::Done(Err(protocol_error())),
            },
            TryAcquireLock::Writing => match reply {
                Reply::Written(Ok(_)) => Step::Done(Ok(true)),
                Reply::Written(Err(failure)) => Step::Done(Err(write_error(failure))),
                _ => Step::Done(Err(protocol_error())),
            },
        }
    }
}

/// Releasing the lock on a resource: read the record, check the owner, and
/// delete it. Releasing a lock that does not exist succeeds.
pub enum ReleaseLock {
    /// The record at `key` has been asked for, on behalf of `owner`.
    Reading { key: String, owner: String },
    /// The deletion of the record has been asked for.
    Deleting,
}

impl ReleaseLock {
    /// What `resume` does, case by case: a lock of another owner fails the
    /// release with `LockAcquisition`, naming that owner; a missing lock
    /// ends it in success; the caller's own lock is deleted.
    pub open spec fn resumes(self, reply: Reply, step: Step<ReleaseLock, ()>) -> bool {
        match (self, reply) {
            (ReleaseLock::Reading { key, owner }, Reply::Lock(Ok(existing))) => {
                if existing.owner@ != owner@ {
                    &&& step matches Step::Done(Err(ServiceError::LockAcquisition(m)))
                    &&& m@ == "Cannot release lock owned by "@ + existing.owner@
                } else {
                    &&& step matches Step::Ask(ReleaseLock::Deleting, req)
                    &&& req.deletes(key@)
                }
            },
            (
                ReleaseLock::Reading { key, owner },
                Reply::Lock(Err(ReadFailure::Backend(BackendError::NotFound(_)))),
            ) => step matches Step::Done(Ok(_)),
            (ReleaseLock::Reading { key, owner }, Reply::Lock(read)) => {
                &&& step matches Step::Done(Err(e))
                &&& settled::<Lock>(read, Err(e))
            },
            (ReleaseLock::Deleting, Reply::Deleted(Ok(_))) => step matches Step::Done(Ok(_)),
            (ReleaseLock::Deleting, Reply::Deleted(Err(e))) => {
                step matches Step::Done(Err(ServiceError::Backend(cause))) && cause == e
            },
            _ => step matches Step::Done(Err(e)) && is_protocol_error(e),
        }
    }

    /// What `begin` does: it asks for the current lock record.
    pub open spec fn begins(resource: Seq<char>, owner: Seq<char>, step: Step<ReleaseLock, ()>) -> bool {
        &&& step matches Step::Ask(ReleaseLock::Reading { key, owner: o }, req)
        &&& key@ == lock_key_text(resource)
        &&& o@ == owner
        &&& req.reads(lock_key_text(resource), RecordKind::Lock, ReadMode::Strict)
    }

    /// Starts the release of the lock on `resource` by `owner`: asks for
    /// the current lock record.
    pub fn begin(resource: &str, owner: &str) -> (step: Step<ReleaseLock, ()>)
        ensures
            Self::begins(resource@, owner@, step),
    {
        Step::Ask(
            ReleaseLock::Reading { key: lock_key(resource), owner: String::from_str(owner) },
            Request::ReadRecord {
                key: lock_key(resource),
                kind: RecordKind::Lock,
                mode: ReadMode::Strict,
            },
        )
    }

    /// Takes the reply to the request last handed out and says what comes
    /// next.
    pub fn resume(self, reply: Reply) -> (step: Step<ReleaseLock, ()>)
        ensures
            self.resumes(reply, step),
    {
        match self {
            ReleaseLock::Reading { key, owner } => match reply {
                Reply::Lock(read) => match settle(read) {
                    Ok(Some(existing)) => {
                        if !same_text(existing.owner.as_str(), owner.as_str()) {
                            Step::Done(
                                Err(
                                    ServiceError::LockAcquisition(
                                        join(
                                            "Cannot release lock owned by ",
                                            existing.owner.as_str(),
                                        ),
                                    ),
                                ),
                            )
                        } else {
                            Step::Ask(ReleaseLock::Deleting, Request::Delete { key })
                        }
                    },
                    Ok(None) => Step::Done(Ok(())),
                    Err(e) => Step::Done(Err(e)),
                },
                _ => Step::Done(Err(protocol_error())),
            },
            ReleaseLock::Deleting => match reply {
                Reply::Deleted(Ok(_)) => Step::Done(Ok(())),
                Reply::Deleted(Err(e)) => Step::Done(Err(ServiceError::Backend(e))),
                _ => Step::Done(Err(protocol_error())),
            },
        }
    }
}

/// Sweeping lapsed locks: list the lock records, read each, and delete
/// those whose expiry lies in the past. A record that cannot be read or
/// deleted is passed over. The outcome is the number of records deleted.
pub enum CleanupExpiredLocks {
    /// The list of lock records has been asked for.
    Listing { now: Timestamp },
    /// `listed[next]` has been asked for; `cleaned` records are gone.
    Reading { listed: Vec<ObjectMetadata>, next: usize, cleaned: u64, now: Timestamp },
    /// The deletion of `listed[next]` has been asked for.
    Deleting { listed: Vec<ObjectMetadata>, next: usize, cleaned: u64, now: Timestamp },
}

impl CleanupExpiredLocks {
    /// A state that `begin` or `resume` can hand out.
    pub open spec fn wf(self) -> bool {
        match self {
            CleanupExpiredLocks::Listing { .. } => true,
            CleanupExpiredLocks::Reading { listed, next, cleaned, .. } => next < listed@.len()
                && cleaned <= next,
            CleanupExpiredLocks::Deleting { listed, next, cleaned, .. } => next < listed@.len()
                && cleaned <= next,
        }
    }

    /// The sweep moves on to the record at `at`, or ends with the count if
    /// there is none.
    pub open spec fn moves_to(
        listed: Vec<ObjectMetadata>,
        at: int,
        cleaned: u64,
        now: Timestamp,
        step: Step<CleanupExpiredLocks, u64>,
    ) -> bool {
        if at < listed@.len() {
            &&& step matches Step::Ask(
                CleanupExpiredLocks::Reading { listed: l, next, cleaned: c, now: t },
                req,
            )
            &&& l == listed
            &&& next == at
            &&& c == cleaned
            &&& t == now
            &&& req.reads(listed@[at].key@, RecordKind::Lock, ReadMode::SkipBrokenChunks)
        } else {
            step matches Step::Done(Ok(count)) && count == cleaned
        }
    }

    /// What `resume` does, case by case.
    pub open spec fn resumes(self, reply: Reply, step: Step<CleanupExpiredLocks, u64>) -> bool {
        match (self, reply) {
            (CleanupExpiredLocks::Listing { now }, Reply::Listed(Ok(objects))) => Self::moves_to(
                objects,
                0,
                0,
                now,
                step,
            ),
            (
                CleanupExpiredLocks::Listing { now },
                Reply::Listed(Err(BackendError::NotFound(_))),
            ) => step matches Step::Done(Ok(count)) && count == 0,
            (CleanupExpiredLocks::Listing { now }, Reply::Listed(Err(e))) => {
                step matches Step::Done(Err(ServiceError::Backend(cause))) && cause == e
            },
            (
                CleanupExpiredLocks::Reading { listed, next, cleaned, now },
                Reply::Lock(Ok(lock)),
            ) => {
                if lock.lapsed_at(now) {
                    &&& step matches Step::Ask(
                        CleanupExpiredLocks::Deleting { listed: l, next: n, cleaned: c, now: t },
                        req,
                    )
                    &&& l == listed
                    &&& n == next
                    &&& c == cleaned
                    &&& t == now
                    &&& req.deletes(listed@[next as int].key@)
                } else {
                    Self::moves_to(listed, next + 1, cleaned, now, step)
                }
            },
            (
                CleanupExpiredLocks::Reading { listed, next, cleaned, now },
                Reply::Lock(Err(_)),
            ) => Self::moves_to(listed, next + 1, cleaned, now, step),
            (
                CleanupExpiredLocks::Deleting { listed, next, cleaned, now },
                Reply::Deleted(Ok(_)),
            ) => Self::moves_to(listed, next + 1, (cleaned + 1) as u64, now, step),
            (
                CleanupExpiredLocks::Deleting { listed, next, cleaned, now },
                Reply::Deleted(Err(_)),
            ) => Self::moves_to(listed, next + 1, cleaned, now, step),
            _ => step matches Step::Done(Err(e)) && is_protocol_error(e),
        }
    }

    /// What `begin` does: it asks for the list of lock records.
    pub open spec fn begins(now: Timestamp, step: Step<CleanupExpiredLocks, u64>) -> bool {
        &&& step matches Step::Ask(CleanupExpiredLocks::Listing { now: at }, req)
        &&& at == now
        &&& req.lists(LOCKS_PREFIX@, None)
    }

    /// Starts a sweep at time `now`: asks for the list of lock records.
    pub fn begin(now: Timestamp) -> (step: Step<CleanupExpiredLocks, u64>)
        ensures
            Self::begins(now, step),
    {
        Step::Ask(
            CleanupExpiredLocks::Listing { now },
            Request::List { prefix: String::from_str(LOCKS_PREFIX), max_keys: None },
        )
    }

    fn move_to(listed: Vec<ObjectMetadata>, at: usize, cleaned: u64, now: Timestamp) -> (step: Step<
        CleanupExpiredLocks,
        u64,
    >)
        requires
            cleaned <= at,
        ensures
            Self::moves_to(listed, at as int, cleaned, now, step),
            step matches Step::Ask(next, _) ==> next.wf(),
    {
        if at < listed.len() {
            let key = listed[at].key.clone();
            Step::Ask(
                CleanupExpiredLocks::Reading { listed, next: at, cleaned, now },
                Request::ReadRecord {
                    key,
                    kind: RecordKind::Lock,
                    mode: ReadMode::SkipBrokenChunks,
                },
            )
        } else {
            Step::Done(Ok(cleaned))
        }
    }

    /// Takes the reply to the request last handed out and says what comes
    /// next.
    pub fn resume(self, reply: Reply) -> (step: Step<CleanupExpiredLocks, u64>)
        requires
            self.wf(),
        ensures
            self.resumes(reply, step),
            step matches Step::Ask(next, _) ==> next.wf(),
    {
        match self {
            CleanupExpiredLocks::Listing { now } => match reply {
                Reply::Listed(Ok(objects)) => Self::move_to(objects, 0, 0, now),
                Reply::Listed(Err(BackendError::NotFound(_))) => Step::Done(Ok(0)),
                Reply::Listed(Err(e)) => Step::Done(Err(ServiceError::Backend(e))),
                _ => Step::Done(Err(protocol_error())),
            },
            CleanupExpiredLocks::Reading { listed, next, cleaned, now } => {
                assert(next < listed.len());
                match reply {
                    Reply::Lock(Ok(lock)) => {
                        if lock.expires_at.is_before(&now) {
                            let key = listed[next].key.clone();
                            Step::Ask(
                                CleanupExpiredLocks::Deleting { listed, next, cleaned, now },
                                Request::Delete { key },
                            )
                        } else {
                            Self::move_to(listed, next + 1, cleaned, now)
                        }
                    },
                    Reply::Lock(Err(_)) => Self::move_to(listed, next + 1, cleaned, now),
                    _ => Step::Done(Err(protocol_error())),
                }
            },
            CleanupExpiredLocks::Deleting { listed, next, cleaned, now } => {
                assert(next < listed.len());
                match reply {
                    Reply::Deleted(Ok(_)) => Self::move_to(listed, next + 1, cleaned + 1, now),
                    Reply::Deleted(Err(_)) => Self::move_to(listed, next + 1, cleaned, now),
                    _ => Step::Done(Err(protocol_error())),
                }
            },
        }
    }
}

/// A lock installed at `start` for `ttl_seconds` is held at every instant
/// before `start + ttl_seconds`, has lapsed at every instant after it, and
/// is neither at that instant itself.
pub proof fn lock_is_held_for_its_ttl(
    lock: Lock,
    resource: Seq<char>,
    owner: Seq<char>,
    ttl_seconds: i64,
    start: Timestamp,
    now: Timestamp,
)
    requires
        lock_installed_by(lock, resource, owner, ttl_seconds, start),
        start.is_plain(),
        now.is_plain(),
    ensures
        lock.held_at(now) <==> now.total_nanos() < start.total_nanos() + ttl_seconds
            * 1_000_000_000,
        lock.lapsed_at(now) <==> now.total_nanos() > start.total_nanos() + ttl_seconds
            * 1_000_000_000,
        !(lock.held_at(now) && lock.lapsed_at(now)),
{
}

/// The sweep deletes a lock that has lapsed and leaves alone one that has
/// not: having read the lock at `listed[next]`, it asks for the deletion
/// of that very key exactly if the lock expired before `now`.
pub proof fn sweep_deletes_what_has_lapsed(
    listed: Vec<ObjectMetadata>,
    next: usize,
    cleaned: u64,
    now: Timestamp,
    lock: Lock,
    step: Step<CleanupExpiredLocks, u64>,
)
    requires
        next < listed@.len(),
        (CleanupExpiredLocks::Reading { listed, next, cleaned, now }).resumes(
            Reply::Lock(Ok(lock)),
            step,
        ),
    ensures
        lock.lapsed_at(now) ==> (step matches Step::Ask(CleanupExpiredLocks::Deleting { .. }, req)
            && req.deletes(listed@[next as int].key@)),
        !lock.lapsed_at(now) ==> !(step matches Step::Ask(
            CleanupExpiredLocks::Deleting { .. },
            _,
        )),
{
}

/// The life of a lock. A lock installed at `start` for `ttl_seconds`
///
/// - refuses whoever tries to take it at an instant `early` before its
///   expiry;
/// - and is deleted by a sweep that reads it at an instant `late` after
///   its expiry.
pub proof fn lock_is_exclusive_for_its_ttl_and_free_after(
    lock: Lock,
    resource: Seq<char>,
    owner: Seq<char>,
    ttl_seconds: i64,
    start: Timestamp,
    early: Timestamp,
    rival: Lock,
    refused: Step<TryAcquireLock, bool>,
    late: Timestamp,
    listed: Vec<ObjectMetadata>,
    next: usize,
    cleaned: u64,
    swept: Step<CleanupExpiredLocks, u64>,
)
    requires
        lock_installed_by(lock, resource, owner, ttl_seconds, start),
        start.is_plain() && early.is_plain() && late.is_plain(),
        early.total_nanos() < start.total_nanos() + ttl_seconds * 1_000_000_000,
        late.total_nanos() > start.total_nanos() + ttl_seconds * 1_000_000_000,
        (TryAcquireLock::Reading { lock: rival, now: early }).resumes(
            Reply::Lock(Ok(lock)),
            refused,
        ),
        next < listed@.len(),
        (CleanupExpiredLocks::Reading { listed, next, cleaned, now: late }).resumes(
            Reply::Lock(Ok(lock)),
            swept,
        ),
    ensures
        refused matches Step::Done(Ok(false)),
        swept matches Step::Ask(CleanupExpiredLocks::Deleting { .. }, req) && req.deletes(
            listed@[next as int].key@,
        ),
{
}

} // verus!
