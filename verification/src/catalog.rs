//! Catalog operations as resumable decisions.
//!
//! The catalog keeps one JSON record per bucket under `.metadata/buckets/`
//! in the backend and a cache of those records in memory. Each operation
//! here is a small state machine: `begin` and `resume` look at the cache,
//! decide, and either finish or name the one backend request to make next.

use crate::backend::{
    ObjectMetadata, ReadFailure, ReadMode, RecordKind, Reply, Request, Step, WriteFailure,
};
use crate::error::{BackendError, ServiceError};
use crate::instant::{rfc3339_text, Timestamp};
use crate::metadata::{
    bucket_id_text, catalog_loaded, first_with_id, generate_bucket_id, Bucket, BucketCache,
    BUCKETS_PREFIX,
};
use crate::naming::{bucket_key, bucket_key_text, is_valid_bucket_name, valid_bucket_name};
use crate::text::{chars_of, decimal, decimal_text, join, join3, lex_le, sorts_before};
use vstd::seq_lib::{to_multiset_build, to_multiset_insert};
use vstd::prelude::*;

verus! {

/// The error for a reply that does not answer the request that was made.
pub open spec fn is_protocol_error(e: ServiceError) -> bool {
    e matches ServiceError::Internal(m) && m@ == "Unexpected reply from the backend"@
}

/// The error for a reply that does not answer the request that was made.
pub fn protocol_error() -> (e: ServiceError)
    ensures
        is_protocol_error(e),
{
    ServiceError::Internal(String::from_str("Unexpected reply from the backend"))
}

/// What reading one record amounts to: the record, nothing where the
/// backend has no object at the key, or the error to report. A broken
/// stream is reported with the cause's text, an undecodable body with
/// `JSON error: ` before the decoder's text, and any other backend failure
/// as it came.
pub open spec fn settled<T>(
    read: Result<T, ReadFailure>,
    outcome: Result<Option<T>, ServiceError>,
) -> bool {
    match read {
        Ok(record) => outcome == Ok::<Option<T>, ServiceError>(Some(record)),
        Err(ReadFailure::Backend(BackendError::NotFound(_))) => outcome == Ok::<
            Option<T>,
            ServiceError,
        >(None),
        Err(ReadFailure::Backend(e)) => outcome == Err::<Option<T>, ServiceError>(
            ServiceError::Backend(e),
        ),
        Err(ReadFailure::Stream(cause)) => outcome matches Err(ServiceError::Internal(m)) && m
            == cause,
        Err(ReadFailure::Decode(cause)) => outcome matches Err(ServiceError::Internal(m)) && m@
            == "JSON error: "@ + cause@,
    }
}

/// The error to report for a record that could not be stored: a failure
/// of the backend as it came, and a failure to encode the record with
/// `JSON error: ` before the encoder's text.
pub open spec fn write_failed(failure: WriteFailure, e: ServiceError) -> bool {
    match failure {
        WriteFailure::Backend(cause) => e == ServiceError::Backend(cause),
        WriteFailure::Encode(cause) => e matches ServiceError::Internal(m) && m@
            == "JSON error: "@ + cause@,
    }
}

/// The error to report for a record that could not be stored.
pub fn write_error(failure: WriteFailure) -> (e: ServiceError)
    ensures
        write_failed(failure, e),
{
    match failure {
        WriteFailure::Backend(cause) => ServiceError::Backend(cause),
        WriteFailure::Encode(cause) => ServiceError::from_json_error(cause.as_str()),
    }
}

/// Turns the reading of one record into the record, its absence, or the
/// error to report.
pub fn settle<T>(read: Result<T, ReadFailure>) -> (outcome: Result<Option<T>, ServiceError>)
    ensures
        settled(read, outcome),
{
    match read {
        Ok(record) => Ok(Some(record)),
        Err(ReadFailure::Backend(BackendError::NotFound(_))) => Ok(None),
        Err(ReadFailure::Backend(e)) => Err(ServiceError::Backend(e)),
        Err(ReadFailure::Stream(cause)) => Err(ServiceError::Internal(cause)),
        Err(ReadFailure::Decode(cause)) => Err(ServiceError::from_json_error(cause.as_str())),
    }
}

/// Reloading the cache from the backend: list the catalog records, read
/// each one, and replace the cache by what could be read.
///
/// A record that cannot be read or decoded is skipped and counted. The
/// reload fails only if records were skipped and none was read.
pub enum CatalogRefresh {
    /// The list of catalog records has been asked for.
    Listing,
    /// `listed[next]` has been asked for; `loaded` holds the records read
    /// so far and `errors` counts those skipped.
    Reading { listed: Vec<ObjectMetadata>, next: usize, loaded: Vec<Bucket>, errors: usize },
}

/// The message of a reload that read nothing and skipped `errors` records.
pub open spec fn nothing_loaded_text(errors: nat) -> Seq<char> {
    "Failed to load any buckets ("@ + decimal_text(errors) + " errors)"@
}

impl CatalogRefresh {
    /// A state that `begin` or `resume` can hand out.
    pub open spec fn wf(self) -> bool {
        match self {
            CatalogRefresh::Listing => true,
            CatalogRefresh::Reading { listed, next, loaded, errors } => {
                &&& next < listed@.len()
                &&& loaded@.len() + errors == next
            },
        }
    }

    /// The request that reads the `at`-th listed record, tolerantly.
    pub open spec fn asks_for(req: Request, listed: Seq<ObjectMetadata>, at: int) -> bool {
        req.reads(listed[at].key@, RecordKind::Bucket, ReadMode::SkipBrokenChunks)
    }

    /// The reload ends having read `loaded` and skipped `errors` records:
    /// it fails, leaving the cache alone, if it skipped some and read none;
    /// otherwise the cache holds exactly `loaded`, refreshed at `now`.
    pub open spec fn finishes(
        loaded: Seq<Bucket>,
        errors: nat,
        before: BucketCache,
        now: Timestamp,
        step: Step<CatalogRefresh, ()>,
        after: BucketCache,
    ) -> bool {
        if errors > 0 && loaded.len() == 0 {
            &&& step matches Step::Done(Err(ServiceError::Internal(m)))
            &&& m@ == nothing_loaded_text(errors)
            &&& after == before
        } else {
            &&& step matches Step::Done(Ok(_))
            &&& after.wf()
            &&& after@ == catalog_loaded(loaded)
            &&& after.refreshed_at() == now
        }
    }

    /// What `resume` does, case by case.
    pub open spec fn resumes(
        self,
        reply: Reply,
        before: BucketCache,
        now: Timestamp,
        step: Step<CatalogRefresh, ()>,
        after: BucketCache,
    ) -> bool {
        match (self, reply) {
            (CatalogRefresh::Listing, Reply::Listed(Ok(objects))) => {
                if objects@.len() == 0 {
                    Self::finishes(Seq::empty(), 0, before, now, step, after)
                } else {
                    &&& step matches Step::Ask(
                        CatalogRefresh::Reading { listed, next, loaded, errors },
                        req,
                    )
                    &&& listed == objects
                    &&& next == 0
                    &&& loaded@.len() == 0
                    &&& errors == 0
                    &&& Self::asks_for(req, objects@, 0)
                    &&& after == before
                }
            },
            (CatalogRefresh::Listing, Reply::Listed(Err(BackendError::NotFound(_)))) => {
                Self::finishes(Seq::empty(), 0, before, now, step, after)
            },
            (CatalogRefresh::Listing, Reply::Listed(Err(e))) => {
                &&& step matches Step::Done(Err(ServiceError::Backend(cause)))
                &&& cause == e
                &&& after == before
            },
            (CatalogRefresh::Reading { listed, next, loaded, errors }, Reply::Bucket(read)) => {
                let loaded_now = match read {
                    Ok(bucket) => loaded@.push(bucket),
                    Err(_) => loaded@,
                };
                let errors_now: nat = match read {
                    Ok(_) => errors as nat,
                    Err(_) => (errors + 1) as nat,
                };
                if next + 1 < listed@.len() {
                    &&& step matches Step::Ask(
                        CatalogRefresh::Reading {
                            listed: listed2,
                            next: next2,
                            loaded: loaded2,
                            errors: errors2,
                        },
                        req,
                    )
                    &&& listed2 == listed
                    &&& next2 == next + 1
                    &&& loaded2@ == loaded_now
                    &&& errors2 == errors_now
                    &&& Self::asks_for(req, listed@, next + 1)
                    &&& after == before
                } else {
                    Self::finishes(loaded_now, errors_now, before, now, step, after)
                }
            },
            _ => {
                &&& step matches Step::Done(Err(e))
                &&& is_protocol_error(e)
                &&& after == before
            },
        }
    }

    /// Starts a reload: asks for the list of catalog records.
    pub fn begin() -> (step: Step<CatalogRefresh, ()>)
        ensures
            step matches Step::Ask(CatalogRefresh::Listing, req) && req.lists(
                BUCKETS_PREFIX@,
                None,
            ),
    {
        Step::Ask(
            CatalogRefresh::Listing,
            Request::List { prefix: String::from_str(BUCKETS_PREFIX), max_keys: None },
        )
    }

    fn finish(loaded: Vec<Bucket>, errors: usize, cache: &mut BucketCache, now: Timestamp) -> (step:
        Step<CatalogRefresh, ()>)
        ensures
            Self::finishes(loaded@, errors as nat, *old(cache), now, step, *final(cache)),
    {
        if errors > 0 && loaded.len() == 0 {
            let count = decimal(errors as u64);
            Step::Done(
                Err(
                    ServiceError::Internal(
                        join3("Failed to load any buckets (", count.as_str(), " errors)"),
                    ),
                ),
            )
        } else {
            cache.update(loaded, now);
            Step::Done(Ok(()))
        }
    }

    fn ask_for(listed: Vec<ObjectMetadata>, next: usize, loaded: Vec<Bucket>, errors: usize) -> (step:
        Step<CatalogRefresh, ()>)
        requires
            next < listed@.len(),
        ensures
            step matches Step::Ask(
                CatalogRefresh::Reading { listed: l, next: n, loaded: b, errors: e },
                req,
            ) && l == listed && n == next && b == loaded && e == errors && Self::asks_for(
                req,
                listed@,
                next as int,
            ),
    {
        let key = listed[next].key.clone();
        Step::Ask(
            CatalogRefresh::Reading { listed, next, loaded, errors },
            Request::ReadRecord {
                key,
                kind: RecordKind::Bucket,
                mode: ReadMode::SkipBrokenChunks,
            },
        )
    }

    /// Takes the reply to the request last handed out and says what comes
    /// next. `now` is the time of the call; it becomes the cache's refresh
    /// time if this step completes the reload.
    pub fn resume(self, reply: Reply, cache: &mut BucketCache, now: Timestamp) -> (step: Step<
        CatalogRefresh,
        (),
    >)
        requires
            self.wf(),
        ensures
            self.resumes(reply, *old(cache), now, step, *final(cache)),
            step matches Step::Ask(next, _) ==> next.wf(),
    {
        match self {
            CatalogRefresh::Listing => match reply {
                Reply::Listed(Ok(objects)) => {
                    if objects.len() == 0 {
                        Self::finish(Vec::new(), 0, cache, now)
                    } else {
                        Self::ask_for(objects, 0, Vec::new(), 0)
                    }
                },
                Reply::Listed(Err(BackendError::NotFound(_))) => {
                    Self::finish(Vec::new(), 0, cache, now)
                },
                Reply::Listed(Err(e)) => Step::Done(Err(ServiceError::Backend(e))),
                _ => Step::Done(Err(protocol_error())),
            },
            CatalogRefresh::Reading { listed, next, loaded, errors } => match reply {
                Reply::Bucket(read) => {
                    let total: usize = listed.len();
                    let mut loaded = loaded;
                    let mut errors = errors;
                    match read {
                        Ok(bucket) => {
                            loaded.push(bucket);
                        },
                        Err(_) => {
                            errors = errors + 1;
                        },
                    }
                    if next + 1 < total {
                        Self::ask_for(listed, next + 1, loaded, errors)
                    } else {
                        Self::finish(loaded, errors, cache, now)
                    }
                },
                _ => Step::Done(Err(protocol_error())),
            },
        }
    }
}

/// Looking a bucket up by name, in three tiers: the cache; on a miss, the
/// bucket's own record in the backend; if that is missing too, a full
/// reload of the cache and one more look at it.
pub enum GetBucket {
    /// The bucket's record has been asked for.
    Probing { name: String },
    /// The cache is being reloaded.
    Refreshing { name: String, refresh: CatalogRefresh },
}

impl GetBucket {
    /// A state that `begin` or `resume` can hand out.
    pub open spec fn wf(self) -> bool {
        match self {
            GetBucket::Probing { .. } => true,
            GetBucket::Refreshing { refresh, .. } => refresh.wf(),
        }
    }

    /// What `begin` does: a cached bucket is returned at once; otherwise
    /// its record is asked for.
    pub open spec fn begins(name: Seq<char>, cache: BucketCache, step: Step<GetBucket, Bucket>) -> bool {
        if cache@.contains_key(name) {
            step matches Step::Done(Ok(bucket)) && bucket == cache@[name]
        } else {
            &&& step matches Step::Ask(GetBucket::Probing { name: n }, req)
            &&& n@ == name
            &&& req.reads(bucket_key_text(name), RecordKind::Bucket, ReadMode::Strict)
        }
    }

    /// What `resume` does, case by case.
    pub open spec fn resumes(
        self,
        reply: Reply,
        before: BucketCache,
        now: Timestamp,
        step: Step<GetBucket, Bucket>,
        after: BucketCache,
    ) -> bool {
        match (self, reply) {
            (GetBucket::Probing { name }, Reply::Bucket(Ok(bucket))) => {
                &&& step matches Step::Done(Ok(found))
                &&& found == bucket
                &&& after.wf()
                &&& after@ == before@.insert(bucket.name@, bucket)
                &&& after.refreshed_at() == before.refreshed_at()
            },
            (
                GetBucket::Probing { name },
                Reply::Bucket(Err(ReadFailure::Backend(BackendError::NotFound(_)))),
            ) => {
                &&& step matches Step::Ask(
                    GetBucket::Refreshing { name: n, refresh: CatalogRefresh::Listing },
                    req,
                )
                &&& n == name
                &&& req.lists(BUCKETS_PREFIX@, None)
                &&& after == before
            },
            (GetBucket::Probing { name }, Reply::Bucket(read)) => {
                &&& step matches Step::Done(Err(e))
                &&& settled::<Bucket>(read, Err(e))
                &&& after == before
            },
            (GetBucket::Refreshing { name, refresh }, _) => {
                exists|inner: Step<CatalogRefresh, ()>|
                    {
                        &&& #[trigger] refresh.resumes(reply, before, now, inner, after)
                        &&& match inner {
                            Step::Ask(next, request) => {
                                &&& step matches Step::Ask(
                                    GetBucket::Refreshing { name: n, refresh: r },
                                    req,
                                )
                                &&& n == name
                                &&& r == next
                                &&& req == request
                            },
                            Step::Done(Err(e)) => step matches Step::Done(Err(cause)) && cause
                                == e,
                            Step::Done(Ok(_)) => Self::concludes(name@, after, step),
                        }
                    }
            },
            _ => {
                &&& step matches Step::Done(Err(e))
                &&& is_protocol_error(e)
                &&& after == before
            },
        }
    }

    /// The last look at the cache: the bucket if it is there, otherwise
    /// `BucketNotFound` with the name.
    pub open spec fn concludes(name: Seq<char>, cache: BucketCache, step: Step<GetBucket, Bucket>) -> bool {
        if cache@.contains_key(name) {
            step matches Step::Done(Ok(bucket)) && bucket == cache@[name]
        } else {
            step matches Step::Done(Err(ServiceError::BucketNotFound(m))) && m@ == name
        }
    }

    /// Starts the lookup of the bucket called `name`.
    pub fn begin(name: &str, cache: &BucketCache) -> (step: Step<GetBucket, Bucket>)
        requires
            cache.wf(),
        ensures
            Self::begins(name@, *cache, step),
            step matches Step::Ask(next, _) ==> next.wf(),
    {
        match cache.get(name) {
            Some(bucket) => Step::Done(Ok(bucket.duplicate())),
            None => Step::Ask(
                GetBucket::Probing { name: String::from_str(name) },
                Request::ReadRecord {
                    key: bucket_key(name),
                    kind: RecordKind::Bucket,
                    mode: ReadMode::Strict,
                },
            ),
        }
    }

    fn conclude(name: &str, cache: &BucketCache) -> (step: Step<GetBucket, Bucket>)
        requires
            cache.wf(),
        ensures
            Self::concludes(name@, *cache, step),
    {
        match cache.get(name) {
            Some(bucket) => Step::Done(Ok(bucket.duplicate())),
            None => Step::Done(Err(ServiceError::BucketNotFound(String::from_str(name)))),
        }
    }

    /// Takes the reply to the request last handed out and says what comes
    /// next.
    pub fn resume(self, reply: Reply, cache: &mut BucketCache, now: Timestamp) -> (step: Step<
        GetBucket,
        Bucket,
    >)
        requires
            self.wf(),
            old(cache).wf(),
        ensures
            self.resumes(reply, *old(cache), now, step, *final(cache)),
            final(cache).wf(),
            step matches Step::Ask(next, _) ==> next.wf(),
    {
        match self {
            GetBucket::Probing { name } => match reply {
                Reply::Bucket(read) => match settle(read) {
                    Ok(Some(bucket)) => {
                        cache.insert(bucket.duplicate());
                        Step::Done(Ok(bucket))
                    },
                    Ok(None) => match CatalogRefresh::begin() {
                        Step::Ask(refresh, request) => Step::Ask(
                            GetBucket::Refreshing { name, refresh },
                            request,
                        ),
                        Step::Done(_) => Step::Done(Err(protocol_error())),
                    },
                    Err(e) => Step::Done(Err(e)),
                },
                _ => Step::Done(Err(protocol_error())),
            },
            GetBucket::Refreshing { name, refresh } => {
                let inner = refresh.resume(reply, cache, now);
                match inner {
                    Step::Ask(next, request) => Step::Ask(
                        GetBucket::Refreshing { name, refresh: next },
                        request,
                    ),
                    Step::Done(Err(e)) => Step::Done(Err(e)),
                    Step::Done(Ok(_)) => Self::conclude(name.as_str(), cache),
                }
            },
        }
    }
}

/// The error for a creation that began at a time without a calendar date.
pub open spec fn is_clock_error(e: ServiceError) -> bool {
    e matches ServiceError::Internal(m) && m@ == "Creation time is out of range"@
}

/// Creating a bucket: check the name, check the cache, check the backend,
/// write the record, and only then remember the bucket in the cache.
pub enum CreateBucket {
    /// The record of the bucket called `name` has been asked for, to see
    /// that there is none; `now` is when the creation began.
    Probing { name: String, now: Timestamp },
    /// There was a record after all; it has been asked for once more so
    /// that the cache can learn of it.
    Rechecking { name: String },
    /// The new record has been sent to the backend.
    Saving { bucket: Bucket },
}

impl CreateBucket {
    /// The record of a bucket called `name` whose creation began at `now`.
    pub open spec fn prepared(bucket: Bucket, name: Seq<char>, now: Timestamp) -> bool {
        &&& bucket.name@ == name
        &&& bucket.id@ == bucket_id_text(name)
        &&& bucket.created_at@ == rfc3339_text(now.secs, now.nanos)
    }

    /// What `begin` does: an invalid name is refused; so is a name the
    /// cache knows; otherwise the bucket's record is asked for.
    pub open spec fn begins(
        name: Seq<char>,
        now: Timestamp,
        cache: BucketCache,
        step: Step<CreateBucket, Bucket>,
    ) -> bool {
        if !valid_bucket_name(name) {
            step matches Step::Done(Err(ServiceError::InvalidBucketName(m))) && m@
                == "Invalid bucket name: "@ + name
        } else if cache@.contains_key(name) {
            step matches Step::Done(Err(ServiceError::BucketAlreadyExists(m))) && m@ == name
        } else {
            &&& step matches Step::Ask(CreateBucket::Probing { name: n, now: began }, req)
            &&& n@ == name
            &&& began == now
            &&& req.reads(bucket_key_text(name), RecordKind::Bucket, ReadMode::Strict)
        }
    }

    /// What happens once the backend is seen to hold no record: the record
    /// is prepared and sent to the backend, unless the calendar has no date
    /// for the time at which the creation began.
    pub open spec fn saves(name: Seq<char>, now: Timestamp, step: Step<CreateBucket, Bucket>) -> bool {
        if now.has_date() {
            &&& step matches Step::Ask(CreateBucket::Saving { bucket }, req)
            &&& Self::prepared(bucket, name, now)
            &&& req.writes_bucket(bucket_key_text(name), bucket)
        } else {
            step matches Step::Done(Err(e)) && is_clock_error(e)
        }
    }

    /// What `resume` does, case by case.
    pub open spec fn resumes(
        self,
        reply: Reply,
        before: BucketCache,
        step: Step<CreateBucket, Bucket>,
        after: BucketCache,
    ) -> bool {
        match (self, reply) {
            (CreateBucket::Probing { name, now }, Reply::Bucket(Ok(_))) => {
                &&& step matches Step::Ask(CreateBucket::Rechecking { name: n }, req)
                &&& n == name
                &&& req.reads(bucket_key_text(name@), RecordKind::Bucket, ReadMode::Strict)
                &&& after == before
            },
            (
                CreateBucket::Probing { name, now },
                Reply::Bucket(Err(ReadFailure::Backend(BackendError::NotFound(_)))),
            ) => Self::saves(name@, now, step) && after == before,
            (CreateBucket::Probing { name, now }, Reply::Bucket(read)) => {
                &&& step matches Step::Done(Err(e))
                &&& settled::<Bucket>(read, Err(e))
                &&& after == before
            },
            (CreateBucket::Rechecking { name }, Reply::Bucket(Ok(existing))) => {
                &&& step matches Step::Done(Err(ServiceError::BucketAlreadyExists(m)))
                &&& m == name
                &&& after.wf()
                &&& after@ == before@.insert(existing.name@, existing)
                &&& after.refreshed_at() == before.refreshed_at()
            },
            (
                CreateBucket::Rechecking { name },
                Reply::Bucket(Err(ReadFailure::Backend(BackendError::NotFound(_)))),
            ) => {
                &&& step matches Step::Done(Err(ServiceError::BucketAlreadyExists(m)))
                &&& m == name
                &&& after == before
            },
            (CreateBucket::Rechecking { name }, Reply::Bucket(read)) => {
                &&& step matches Step::Done(Err(e))
                &&& settled::<Bucket>(read, Err(e))
                &&& after == before
            },
            (CreateBucket::Saving { bucket }, Reply::Written(Ok(_))) => {
                &&& step matches Step::Done(Ok(created))
                &&& created == bucket
                &&& after.wf()
                &&& after@ == before@.insert(bucket.name@, bucket)
                &&& after.refreshed_at() == before.refreshed_at()
            },
            (CreateBucket::Saving { bucket }, Reply::Written(Err(failure))) => {
                &&& step matches Step::Done(Err(e))
                &&& write_failed(failure, e)
                &&& after == before
            },
            _ => {
                &&& step matches Step::Done(Err(e))
                &&& is_protocol_error(e)
                &&& after == before
            },
        }
    }

    /// Starts the creation of a bucket called `name` at time `now`.
    pub fn begin(name: &str, now: Timestamp, cache: &BucketCache) -> (step: Step<
        CreateBucket,
        Bucket,
    >)
        requires
            cache.wf(),
        ensures
            Self::begins(name@, now, *cache, step),
    {
        if !is_valid_bucket_name(name) {
            return Step::Done(
                Err(ServiceError::InvalidBucketName(join("Invalid bucket name: ", name))),
            );
        }
        if cache.get(name).is_some() {
            return Step::Done(Err(ServiceError::BucketAlreadyExists(String::from_str(name))));
        }
        Step::Ask(
            CreateBucket::Probing { name: String::from_str(name), now },
            Request::ReadRecord {
                key: bucket_key(name),
                kind: RecordKind::Bucket,
                mode: ReadMode::Strict,
            },
        )
    }

    fn save(name: String, now: Timestamp) -> (step: Step<CreateBucket, Bucket>)
        ensures
            Self::saves(name@, now, step),
            now.is_ordinary() ==> step is Ask,
    {
        match now.to_rfc3339() {
            Some(created_at) => {
                let key = bucket_key(name.as_str());
                let bucket = Bucket { id: generate_bucket_id(name.as_str()), name, created_at };
                let record = bucket.duplicate();
                Step::Ask(
                    CreateBucket::Saving { bucket },
                    Request::WriteBucket { key, bucket: record },
                )
            },
            None => Step::Done(
                Err(ServiceError::Internal(String::from_str("Creation time is out of range"))),
            ),
        }
    }

    /// Takes the reply to the request last handed out and says what comes
    /// next. A creation that began at a clock reading of the years 0000 to
    /// 9999 and finds no record goes on to write one.
    pub fn resume(self, reply: Reply, cache: &mut BucketCache) -> (step: Step<CreateBucket, Bucket>)
        requires
            old(cache).wf(),
        ensures
            self.resumes(reply, *old(cache), step, *final(cache)),
            final(cache).wf(),
            (self matches CreateBucket::Probing { now, .. } && now.is_ordinary()
                && reply matches Reply::Bucket(
                Err(ReadFailure::Backend(BackendError::NotFound(_))),
            )) ==> step is Ask,
    {
        match self {
            CreateBucket::Probing { name, now } => match reply {
                Reply::Bucket(read) => match settle(read) {
                    Ok(Some(_)) => {
                        let key = bucket_key(name.as_str());
                        Step::Ask(
                            CreateBucket::Rechecking { name },
                            Request::ReadRecord {
                                key,
                                kind: RecordKind::Bucket,
                                mode: ReadMode::Strict,
                            },
                        )
                    },
                    Ok(None) => Self::save(name, now),
                    Err(e) => Step::Done(Err(e)),
                },
                _ => Step::Done(Err(protocol_error())),
            },
            CreateBucket::Rechecking { name } => match reply {
                Reply::Bucket(read) => match settle(read) {
                    Ok(Some(existing)) => {
                        cache.insert(existing);
                        Step::Done(Err(ServiceError::BucketAlreadyExists(name)))
                    },
                    Ok(None) => Step::Done(Err(ServiceError::BucketAlreadyExists(name))),
                    Err(e) => Step::Done(Err(e)),
                },
                _ => Step::Done(Err(protocol_error())),
            },
            CreateBucket::Saving { bucket } => match reply {
                Reply::Written(Ok(_)) => {
                    cache.insert(bucket.duplicate());
                    Step::Done(Ok(bucket))
                },
                Reply::Written(Err(failure)) => Step::Done(Err(write_error(failure))),
                _ => Step::Done(Err(protocol_error())),
            },
        }
    }
}

/// Records in the order of a listing: the latest creation time first.
/// Creation times are compared as text, which for RFC 3339 times in one
/// zone is their order in time.
pub open spec fn newest_first(s: Seq<Bucket>) -> bool {
    forall|i: int, j: int|
        0 <= i < j < s.len() ==> lex_le((#[trigger] s[j]).created_at@, (#[trigger] s[i]).created_at@)
}

/// `listed` holds the buckets of `entries`, each as often as `entries`
/// does, the latest created first.
pub open spec fn lists_all(entries: Seq<Bucket>, listed: Seq<Bucket>) -> bool {
    newest_first(listed) && listed.to_multiset() == entries.to_multiset()
}

fn created_no_later(a: &Bucket, b: &Bucket) -> (r: bool)
    ensures
        r == lex_le(a.created_at@, b.created_at@),
{
    let x = chars_of(a.created_at.as_str());
    let y = chars_of(b.created_at.as_str());
    sorts_before(x.as_slice(), y.as_slice())
}

/// Puts buckets in listing order: the latest creation time first.
pub fn sort_newest_first(buckets: Vec<Bucket>) -> (sorted: Vec<Bucket>)
    ensures
        lists_all(buckets@, sorted@),
{
    let ghost all = buckets@;
    let mut rest = buckets;
    let mut sorted: Vec<Bucket> = Vec::new();
    proof {
        broadcast use vstd::multiset::group_multiset_axioms;

        vstd::seq_lib::to_multiset_len(sorted@);
    }
    while rest.len() > 0
        invariant
            newest_first(sorted@),
            sorted@.to_multiset().add(rest@.to_multiset()) == all.to_multiset(),
        decreases rest.len(),
    {
        let ghost rest_before = rest@;
        let ghost sorted_before = sorted@;
        let next = rest.pop().unwrap();
        proof {
            assert(rest_before =~= rest@.push(next));
            to_multiset_build(rest@, next);
        }
        let mut at: usize = 0;
        while at < sorted.len() && created_no_later(&next, &sorted[at])
            invariant
                at <= sorted@.len(),
                forall|k: int| 0 <= k < at ==> lex_le(next.created_at@, (#[trigger] sorted@[k]).created_at@),
            decreases sorted.len() - at,
        {
            at += 1;
        }
        sorted.insert(at, next);
        proof {
            broadcast use vstd::multiset::group_multiset_axioms;

            to_multiset_insert(sorted_before, at as int, next);
            assert forall|i: int, j: int| 0 <= i < j < sorted@.len() implies lex_le(
                (#[trigger] sorted@[j]).created_at@,
                (#[trigger] sorted@[i]).created_at@,
            ) by {
                if i == at {
                    // what follows the new record is no later than the
                    // first record that it was put in front of
                    let first = sorted_before[at as int];
                    crate::text::lex_le_total(next.created_at@, first.created_at@);
                    if j - 1 > at {
                        crate::text::lex_le_transitive(
                            sorted_before[j - 1].created_at@,
                            first.created_at@,
                            next.created_at@,
                        );
                    }
                }
            }
        }
    }
    proof {
        broadcast use vstd::multiset::group_multiset_axioms;

        vstd::seq_lib::to_multiset_len(rest@);
        assert(sorted@.to_multiset() =~= all.to_multiset());
    }
    sorted
}

/// Listing all buckets: reload the cache if it has expired, then list what
/// it holds, the latest created first.
pub enum ListBuckets {
    /// The cache is being reloaded.
    Freshening { refresh: CatalogRefresh },
}

impl ListBuckets {
    /// A state that `begin` or `resume` can hand out.
    pub open spec fn wf(self) -> bool {
        match self {
            ListBuckets::Freshening { refresh } => refresh.wf(),
        }
    }

    /// The listing of what `cache` holds.
    pub open spec fn concludes(cache: BucketCache, step: Step<ListBuckets, Vec<Bucket>>) -> bool {
        step matches Step::Done(Ok(listed)) && lists_all(cache.entries(), listed@)
    }

    /// What `begin` does: an expired cache is reloaded first; a fresh one
    /// is listed at once.
    pub open spec fn begins(cache: BucketCache, now: Timestamp, step: Step<ListBuckets, Vec<Bucket>>) -> bool {
        if cache.expired_at(now) {
            &&& step matches Step::Ask(
                ListBuckets::Freshening { refresh: CatalogRefresh::Listing },
                req,
            )
            &&& req.lists(BUCKETS_PREFIX@, None)
        } else {
            Self::concludes(cache, step)
        }
    }

    /// What `resume` does: it carries the reload on, fails if the reload
    /// fails, and lists the cache once the reload is done.
    pub open spec fn resumes(
        self,
        reply: Reply,
        before: BucketCache,
        now: Timestamp,
        step: Step<ListBuckets, Vec<Bucket>>,
        after: BucketCache,
    ) -> bool {
        match self {
            ListBuckets::Freshening { refresh } => {
                exists|inner: Step<CatalogRefresh, ()>|
                    {
                        &&& #[trigger] refresh.resumes(reply, before, now, inner, after)
                        &&& match inner {
                            Step::Ask(next, request) => {
                                &&& step matches Step::Ask(
                                    ListBuckets::Freshening { refresh: r },
                                    req,
                                )
                                &&& r == next
                                &&& req == request
                            },
                            Step::Done(Err(e)) => step matches Step::Done(Err(cause)) && cause
                                == e,
                            Step::Done(Ok(_)) => Self::concludes(after, step),
                        }
                    }
            },
        }
    }

    fn conclude(cache: &BucketCache) -> (step: Step<ListBuckets, Vec<Bucket>>)
        ensures
            Self::concludes(*cache, step),
    {
        Step::Done(Ok(sort_newest_first(cache.all_buckets())))
    }

    /// Starts a listing at time `now`.
    pub fn begin(cache: &BucketCache, now: Timestamp) -> (step: Step<ListBuckets, Vec<Bucket>>)
        ensures
            Self::begins(*cache, now, step),
            step matches Step::Ask(next, _) ==> next.wf(),
    {
        if cache.is_expired(now) {
            match CatalogRefresh::begin() {
                Step::Ask(refresh, request) => Step::Ask(
                    ListBuckets::Freshening { refresh },
                    request,
                ),
                Step::Done(_) => Step::Done(Err(protocol_error())),
            }
        } else {
            Self::conclude(cache)
        }
    }

    /// Takes the reply to the request last handed out and says what comes
    /// next.
    pub fn resume(self, reply: Reply, cache: &mut BucketCache, now: Timestamp) -> (step: Step<
        ListBuckets,
        Vec<Bucket>,
    >)
        requires
            self.wf(),
        ensures
            self.resumes(reply, *old(cache), now, step, *final(cache)),
            step matches Step::Ask(next, _) ==> next.wf(),
    {
        match self {
            ListBuckets::Freshening { refresh } => {
                let inner = refresh.resume(reply, cache, now);
                match inner {
                    Step::Ask(next, request) => Step::Ask(
                        ListBuckets::Freshening { refresh: next },
                        request,
                    ),
                    Step::Done(Err(e)) => Step::Done(Err(e)),
                    Step::Done(Ok(_)) => Self::conclude(cache),
                }
            },
        }
    }
}

/// Looking a bucket up by identifier: reload the cache if it has expired
/// and search it; on a miss, reload it once more and search again.
pub enum GetBucketById {
    /// The expired cache is being reloaded before the first search.
    Freshening { id: String, refresh: CatalogRefresh },
    /// The first search missed; the cache is being reloaded for the second.
    Rescanning { id: String, refresh: CatalogRefresh },
}

impl GetBucketById {
    /// A state that `begin` or `resume` can hand out.
    pub open spec fn wf(self) -> bool {
        match self {
            GetBucketById::Freshening { refresh, .. } => refresh.wf(),
            GetBucketById::Rescanning { refresh, .. } => refresh.wf(),
        }
    }

    /// The first search: the first bucket in the cache with the identifier
    /// is returned; on a miss the cache is reloaded.
    pub open spec fn searches(id: Seq<char>, cache: BucketCache, step: Step<GetBucketById, Bucket>) -> bool {
        if first_with_id(cache.entries(), id) is Some {
            &&& step matches Step::Done(Ok(bucket))
            &&& Some(bucket) == first_with_id(cache.entries(), id)
        } else {
            &&& step matches Step::Ask(
                GetBucketById::Rescanning { id: i, refresh: CatalogRefresh::Listing },
                req,
            )
            &&& i@ == id
            &&& req.lists(BUCKETS_PREFIX@, None)
        }
    }

    /// The second search: the first bucket in the cache with the
    /// identifier is returned; a miss is `BucketNotFound`, naming the
    /// identifier.
    pub open spec fn concludes(id: Seq<char>, cache: BucketCache, step: Step<GetBucketById, Bucket>) -> bool {
        if first_with_id(cache.entries(), id) is Some {
            &&& step matches Step::Done(Ok(bucket))
            &&& Some(bucket) == first_with_id(cache.entries(), id)
        } else {
            step matches Step::Done(Err(ServiceError::BucketNotFound(m))) && m@ == "id: "@ + id
        }
    }

    /// What `begin` does: an expired cache is reloaded first; a fresh one
    /// is searched at once.
    pub open spec fn begins(
        id: Seq<char>,
        cache: BucketCache,
        now: Timestamp,
        step: Step<GetBucketById, Bucket>,
    ) -> bool {
        if cache.expired_at(now) {
            &&& step matches Step::Ask(
                GetBucketById::Freshening { id: i, refresh: CatalogRefresh::Listing },
                req,
            )
            &&& i@ == id
            &&& req.lists(BUCKETS_PREFIX@, None)
        } else {
            Self::searches(id, cache, step)
        }
    }

    /// What `resume` does: it carries the reload on, fails if the reload
    /// fails, and searches the cache once the reload is done.
    pub open spec fn resumes(
        self,
        reply: Reply,
        before: BucketCache,
        now: Timestamp,
        step: Step<GetBucketById, Bucket>,
        after: BucketCache,
    ) -> bool {
        match self {
            GetBucketById::Freshening { id, refresh } => {
                exists|inner: Step<CatalogRefresh, ()>|
                    {
                        &&& #[trigger] refresh.resumes(reply, before, now, inner, after)
                        &&& match inner {
                            Step::Ask(next, request) => {
                                &&& step matches Step::Ask(
                                    GetBucketById::Freshening { id: i, refresh: r },
                                    req,
                                )
                                &&& i == id
                                &&& r == next
                                &&& req == request
                            },
                            Step::Done(Err(e)) => step matches Step::Done(Err(cause)) && cause
                                == e,
                            Step::Done(Ok(_)) => Self::searches(id@, after, step),
                        }
                    }
            },
            GetBucketById::Rescanning { id, refresh } => {
                exists|inner: Step<CatalogRefresh, ()>|
                    {
                        &&& #[trigger] refresh.resumes(reply, before, now, inner, after)
                        &&& match inner {
                            Step::Ask(next, request) => {
                                &&& step matches Step::Ask(
                                    GetBucketById::Rescanning { id: i, refresh: r },
                                    req,
                                )
                                &&& i == id
                                &&& r == next
                                &&& req == request
                            },
                            Step::Done(Err(e)) => step matches Step::Done(Err(cause)) && cause
                                == e,
                            Step::Done(Ok(_)) => Self::concludes(id@, after, step),
                        }
                    }
            },
        }
    }

    fn search(id: &str, cache: &BucketCache) -> (step: Step<GetBucketById, Bucket>)
        ensures
            Self::searches(id@, *cache, step),
            step matches Step::Ask(next, _) ==> next.wf(),
    {
        match cache.find_by_id(id) {
            Some(bucket) => Step::Done(Ok(bucket)),
            None => match CatalogRefresh::begin() {
                Step::Ask(refresh, request) => Step::Ask(
                    GetBucketById::Rescanning { id: String::from_str(id), refresh },
                    request,
                ),
                Step::Done(_) => Step::Done(Err(protocol_error())),
            },
        }
    }

    fn conclude(id: &str, cache: &BucketCache) -> (step: Step<GetBucketById, Bucket>)
        ensures
            Self::concludes(id@, *cache, step),
    {
        match cache.find_by_id(id) {
            Some(bucket) => Step::Done(Ok(bucket)),
            None => Step::Done(Err(ServiceError::BucketNotFound(join("id: ", id)))),
        }
    }

    /// Starts the lookup of the bucket with identifier `id` at time `now`.
    pub fn begin(id: &str, cache: &BucketCache, now: Timestamp) -> (step: Step<
        GetBucketById,
        Bucket,
    >)
        ensures
            Self::begins(id@, *cache, now, step),
            step matches Step::Ask(next, _) ==> next.wf(),
    {
        if cache.is_expired(now) {
            match CatalogRefresh::begin() {
                Step::Ask(refresh, request) => Step::Ask(
                    GetBucketById::Freshening { id: String::from_str(id), refresh },
                    request,
                ),
                Step::Done(_) => Step::Done(Err(protocol_error())),
            }
        } else {
            Self::search(id, cache)
        }
    }

    /// Takes the reply to the request last handed out and says what comes
    /// next.
    pub fn resume(self, reply: Reply, cache: &mut BucketCache, now: Timestamp) -> (step: Step<
        GetBucketById,
        Bucket,
    >)
        requires
            self.wf(),
        ensures
            self.resumes(reply, *old(cache), now, step, *final(cache)),
            step matches Step::Ask(next, _) ==> next.wf(),
    {
        match self {
            GetBucketById::Freshening { id, refresh } => {
                let inner = refresh.resume(reply, cache, now);
                match inner {
                    Step::Ask(next, request) => Step::Ask(
                        GetBucketById::Freshening { id, refresh: next },
                        request,
                    ),
                    Step::Done(Err(e)) => Step::Done(Err(e)),
                    Step::Done(Ok(_)) => Self::search(id.as_str(), cache),
                }
            },
            GetBucketById::Rescanning { id, refresh } => {
                let inner = refresh.resume(reply, cache, now);
                match inner {
                    Step::Ask(next, request) => Step::Ask(
                        GetBucketById::Rescanning { id, refresh: next },
                        request,
                    ),
                    Step::Done(Err(e)) => Step::Done(Err(e)),
                    Step::Done(Ok(_)) => Self::conclude(id.as_str(), cache),
                }
            },
        }
    }
}

/// Deleting a bucket from the catalog: look it up, delete its record, and
/// only then forget it in the cache.
pub enum DeleteBucket {
    /// The bucket is being looked up.
    Finding { name: String, lookup: GetBucket },
    /// The deletion of the record has been asked for.
    Deleting { name: String },
}

impl DeleteBucket {
    /// A state that `begin` or `resume` can hand out.
    pub open spec fn wf(self) -> bool {
        match self {
            DeleteBucket::Finding { lookup, .. } => lookup.wf(),
            DeleteBucket::Deleting { .. } => true,
        }
    }

    /// How the deletion goes on from a step of the lookup: a lookup that
    /// asks is carried on, one that fails ends the deletion with its error,
    /// and one that finds the bucket leads to the deletion of the record.
    pub open spec fn follows(
        name: String,
        inner: Step<GetBucket, Bucket>,
        step: Step<DeleteBucket, ()>,
    ) -> bool {
        match inner {
            Step::Ask(next, request) => {
                &&& step matches Step::Ask(DeleteBucket::Finding { name: n, lookup }, req)
                &&& n == name
                &&& lookup == next
                &&& req == request
            },
            Step::Done(Err(e)) => step matches Step::Done(Err(cause)) && cause == e,
            Step::Done(Ok(_)) => {
                &&& step matches Step::Ask(DeleteBucket::Deleting { name: n }, req)
                &&& n == name
                &&& req.deletes(bucket_key_text(name@))
            },
        }
    }

    /// What `begin` does: it starts the lookup and goes on from there.
    pub open spec fn begins(name: Seq<char>, cache: BucketCache, step: Step<DeleteBucket, ()>) -> bool {
        exists|inner: Step<GetBucket, Bucket>, owned: String|
            {
                &&& #[trigger] GetBucket::begins(name, cache, inner)
                &&& owned@ == name
                &&& #[trigger] Self::follows(owned, inner, step)
            }
    }

    /// What `resume` does, case by case.
    pub open spec fn resumes(
        self,
        reply: Reply,
        before: BucketCache,
        now: Timestamp,
        step: Step<DeleteBucket, ()>,
        after: BucketCache,
    ) -> bool {
        match (self, reply) {
            (DeleteBucket::Finding { name, lookup }, _) => {
                exists|inner: Step<GetBucket, Bucket>|
                    {
                        &&& #[trigger] lookup.resumes(reply, before, now, inner, after)
                        &&& Self::follows(name, inner, step)
                    }
            },
            (DeleteBucket::Deleting { name }, Reply::Deleted(Ok(_))) => {
                &&& step matches Step::Done(Ok(_))
                &&& after.wf()
                &&& after@ == before@.remove(name@)
                &&& after.refreshed_at() == before.refreshed_at()
            },
            (DeleteBucket::Deleting { name }, Reply::Deleted(Err(e))) => {
                &&& step matches Step::Done(Err(ServiceError::Backend(cause)))
                &&& cause == e
                &&& after == before
            },
            _ => {
                &&& step matches Step::Done(Err(e))
                &&& is_protocol_error(e)
                &&& after == before
            },
        }
    }

    fn follow(name: String, inner: Step<GetBucket, Bucket>) -> (step: Step<DeleteBucket, ()>)
        ensures
            Self::follows(name, inner, step),
            (inner matches Step::Ask(next, _) && next.wf()) ==> (step matches Step::Ask(s, _)
                && s.wf()),
            inner is Done ==> (step matches Step::Ask(s, _) ==> s.wf()),
    {
        match inner {
            Step::Ask(next, request) => Step::Ask(
                DeleteBucket::Finding { name, lookup: next },
                request,
            ),
            Step::Done(Err(e)) => Step::Done(Err(e)),
            Step::Done(Ok(_)) => {
                let key = bucket_key(name.as_str());
                Step::Ask(DeleteBucket::Deleting { name }, Request::Delete { key })
            },
        }
    }

    /// Starts the deletion of the bucket called `name`.
    pub fn begin(name: &str, cache: &BucketCache) -> (step: Step<DeleteBucket, ()>)
        requires
            cache.wf(),
        ensures
            Self::begins(name@, *cache, step),
            step matches Step::Ask(next, _) ==> next.wf(),
    {
        let inner = GetBucket::begin(name, cache);
        Self::follow(String::from_str(name), inner)
    }

    /// Takes the reply to the request last handed out and says what comes
    /// next.
    pub fn resume(self, reply: Reply, cache: &mut BucketCache, now: Timestamp) -> (step: Step<
        DeleteBucket,
        (),
    >)
        requires
            self.wf(),
            old(cache).wf(),
        ensures
            self.resumes(reply, *old(cache), now, step, *final(cache)),
            final(cache).wf(),
            step matches Step::Ask(next, _) ==> next.wf(),
    {
        match self {
            DeleteBucket::Finding { name, lookup } => {
                let inner = lookup.resume(reply, cache, now);
                Self::follow(name, inner)
            },
            DeleteBucket::Deleting { name } => match reply {
                Reply::Deleted(Ok(_)) => {
                    cache.remove(name.as_str());
                    Step::Done(Ok(()))
                },
                Reply::Deleted(Err(e)) => Step::Done(Err(ServiceError::Backend(e))),
                _ => Step::Done(Err(protocol_error())),
            },
        }
    }
}

/// Creating one bucket does not stand in the way of another: after a
/// bucket has been created, the cache knows no name that it did not know
/// before, except the name of that bucket.
pub proof fn creation_adds_one_name(
    bucket: Bucket,
    written: ObjectMetadata,
    before: BucketCache,
    step: Step<CreateBucket, Bucket>,
    after: BucketCache,
    other: Seq<char>,
)
    requires
        (CreateBucket::Saving { bucket }).resumes(Reply::Written(Ok(written)), before, step, after),
        other != bucket.name@,
    ensures
        after@.contains_key(bucket.name@),
        after@.contains_key(other) == before@.contains_key(other),
{
}

/// A bucket that has been removed from the catalog is unknown to the
/// cache: a lookup of its name has to ask the backend again.
pub proof fn removed_bucket_is_forgotten(
    name: String,
    before: BucketCache,
    now: Timestamp,
    step: Step<DeleteBucket, ()>,
    after: BucketCache,
    lookup: Step<GetBucket, Bucket>,
)
    requires
        (DeleteBucket::Deleting { name }).resumes(Reply::Deleted(Ok(())), before, now, step, after),
        GetBucket::begins(name@, after, lookup),
    ensures
        step matches Step::Done(Ok(_)),
        !after@.contains_key(name@),
        lookup matches Step::Ask(GetBucket::Probing { .. }, req) && req.reads(
            bucket_key_text(name@),
            RecordKind::Bucket,
            ReadMode::Strict,
        ),
{
}

/// The cache never answers "no such bucket" on its own: a lookup that
/// starts from a cache without the name does not end there, but asks the
/// backend.
pub proof fn absence_is_checked_with_the_backend(
    name: Seq<char>,
    cache: BucketCache,
    step: Step<GetBucket, Bucket>,
)
    requires
        !cache@.contains_key(name),
        GetBucket::begins(name, cache, step),
    ensures
        step is Ask,
{
}

} // verus!
