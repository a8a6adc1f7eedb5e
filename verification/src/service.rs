//! The service layer as resumable decisions: logical buckets mapped onto one
//! physical container by prefixing every key with its bucket's name.
//!
//! Every operation on objects first makes sure that the bucket exists, then
//! checks the key, and only then names the backend key to work on.

use crate::backend::{ObjectMetadata, Reply, Request, Step};
use crate::catalog;
use crate::catalog::{is_protocol_error, protocol_error, write_error, write_failed, GetBucket};
use crate::error::ServiceError;
use crate::instant::Timestamp;
use crate::metadata::{Bucket, BucketCache};
use crate::naming::{
    is_marker_key, key_rejection, list_prefix, list_prefix_text, logical_key, logical_key_text,
    looks_like_marker, marker_key, marker_key_text, object_key, object_key_text,
    valid_object_key, validate_object_key,
};
use crate::text::{has_prefix, join3, text_of};
use vstd::prelude::*;

verus! {

/// `shown` is `stored` as the user of `bucket` sees it: the same object
/// under its logical key.
pub open spec fn shown_as(bucket: Seq<char>, stored: ObjectMetadata, shown: ObjectMetadata) -> bool {
    &&& shown.key@ == logical_key_text(bucket, stored.key@)
    &&& shown.size == stored.size
    &&& shown.content_type == stored.content_type
    &&& shown.etag == stored.etag
    &&& shown.last_modified == stored.last_modified
    &&& shown.custom_metadata == stored.custom_metadata
}

/// The entries of a backend listing that are shown to a user: all but
/// those whose key ends as a bucket marker does, in the listing's order.
pub open spec fn shown_entries(listed: Seq<ObjectMetadata>) -> Seq<ObjectMetadata>
    decreases listed.len(),
{
    if listed.len() == 0 {
        Seq::empty()
    } else if looks_like_marker(listed.last().key@) {
        shown_entries(listed.drop_last())
    } else {
        shown_entries(listed.drop_last()).push(listed.last())
    }
}

/// `shown` is the listing `listed` as the user of `bucket` sees it.
pub open spec fn shows_listing(
    bucket: Seq<char>,
    listed: Seq<ObjectMetadata>,
    shown: Seq<ObjectMetadata>,
) -> bool {
    &&& shown.len() == shown_entries(listed).len()
    &&& forall|i: int|
        0 <= i < shown.len() ==> shown_as(bucket, shown_entries(listed)[i], #[trigger] shown[i])
}

/// Turns a backend listing into the listing of a bucket: marker objects
/// are left out and every key loses its leading `<bucket>/`.
pub fn visible_objects(bucket: &str, listed: Vec<ObjectMetadata>) -> (shown: Vec<ObjectMetadata>)
    ensures
        shows_listing(bucket@, listed@, shown@),
{
    let ghost all = listed@;
    let mut shown: Vec<ObjectMetadata> = Vec::new();
    for object in it: listed
        invariant
            it.seq() == all,
            shows_listing(bucket@, all.take(it.index() as int), shown@),
    {
        proof {
            let upto = all.take(it.index() + 1);
            assert(upto.drop_last() =~= all.take(it.index() as int));
        }
        if !is_marker_key(object.key.as_str()) {
            let key = logical_key(bucket, object.key.as_str());
            shown.push(
                ObjectMetadata {
                    key,
                    size: object.size,
                    content_type: object.content_type,
                    etag: object.etag,
                    last_modified: object.last_modified,
                    custom_metadata: object.custom_metadata,
                },
            );
        }
    }
    assert(all.take(all.len() as int) =~= all);
    shown
}

/// Admission to one object: the bucket must exist and the key must be
/// valid; the outcome is the backend key of the object.
///
/// This is the common first half of putting, getting, inspecting and
/// deleting an object, of asking whether it exists, and of signing a URL
/// for it. A missing bucket is reported before an invalid key.
pub enum ObjectAccess {
    /// The bucket is being looked up.
    Finding { bucket: String, key: String, lookup: GetBucket },
}

impl ObjectAccess {
    /// A state that `begin` or `resume` can hand out.
    pub open spec fn wf(self) -> bool {
        match self {
            ObjectAccess::Finding { lookup, .. } => lookup.wf(),
        }
    }

    /// The outcome once the bucket is known to exist: the backend key for
    /// a valid key, `InvalidObjectKey` for any other.
    pub open spec fn admits(bucket: Seq<char>, key: Seq<char>, step: Step<ObjectAccess, String>) -> bool {
        if valid_object_key(key) {
            step matches Step::Done(Ok(full)) && full@ == object_key_text(bucket, key)
        } else {
            step matches Step::Done(Err(e)) && key_rejection(key, e)
        }
    }

    /// How access goes on from a step of the lookup.
    pub open spec fn follows(
        bucket: String,
        key: String,
        inner: Step<GetBucket, Bucket>,
        step: Step<ObjectAccess, String>,
    ) -> bool {
        match inner {
            Step::Ask(next, request) => {
                &&& step matches Step::Ask(ObjectAccess::Finding { bucket: b, key: k, lookup }, req)
                &&& b == bucket
                &&& k == key
                &&& lookup == next
                &&& req == request
            },
            Step::Done(Err(e)) => step matches Step::Done(Err(cause)) && cause == e,
            Step::Done(Ok(_)) => Self::admits(bucket@, key@, step),
        }
    }

    /// What `begin` does: it starts the lookup and goes on from there.
    pub open spec fn begins(
        bucket: Seq<char>,
        key: Seq<char>,
        cache: BucketCache,
        step: Step<ObjectAccess, String>,
    ) -> bool {
        exists|inner: Step<GetBucket, Bucket>, b: String, k: String|
            {
                &&& #[trigger] GetBucket::begins(bucket, cache, inner)
                &&& b@ == bucket
                &&& k@ == key
                &&& #[trigger] Self::follows(b, k, inner, step)
            }
    }

    /// What `resume` does: it carries the lookup on and goes on from
    /// there.
    pub open spec fn resumes(
        self,
        reply: Reply,
        before: BucketCache,
        now: Timestamp,
        step: Step<ObjectAccess, String>,
        after: BucketCache,
    ) -> bool {
        match self {
            ObjectAccess::Finding { bucket, key, lookup } => {
                exists|inner: Step<GetBucket, Bucket>|
                    {
                        &&& #[trigger] lookup.resumes(reply, before, now, inner, after)
                        &&& Self::follows(bucket, key, inner, step)
                    }
            },
        }
    }

    fn follow(bucket: String, key: String, inner: Step<GetBucket, Bucket>) -> (step: Step<
        ObjectAccess,
        String,
    >)
        ensures
            Self::follows(bucket, key, inner, step),
            (inner matches Step::Ask(next, _) ==> next.wf()) ==> (step matches Step::Ask(s, _)
                ==> s.wf()),
    {
        match inner {
            Step::Ask(next, request) => Step::Ask(
                ObjectAccess::Finding { bucket, key, lookup: next },
                request,
            ),
            Step::Done(Err(e)) => Step::Done(Err(e)),
            Step::Done(Ok(_)) => match validate_object_key(key.as_str()) {
                Ok(_) => Step::Done(Ok(object_key(bucket.as_str(), key.as_str()))),
                Err(e) => Step::Done(Err(e)),
            },
        }
    }

    /// Starts access to object `key` of bucket `bucket`.
    pub fn begin(bucket: &str, key: &str, cache: &BucketCache) -> (step: Step<ObjectAccess, String>)
        requires
            cache.wf(),
        ensures
            Self::begins(bucket@, key@, *cache, step),
            step matches Step::Ask(next, _) ==> next.wf(),
    {
        let inner = GetBucket::begin(bucket, cache);
        Self::follow(String::from_str(bucket), String::from_str(key), inner)
    }

    /// Takes the reply to the request last handed out and says what comes
    /// next.
    pub fn resume(self, reply: Reply, cache: &mut BucketCache, now: Timestamp) -> (step: Step<
        ObjectAccess,
        String,
    >)
        requires
            self.wf(),
            old(cache).wf(),
        ensures
            self.resumes(reply, *old(cache), now, step, *final(cache)),
            final(cache).wf(),
            step matches Step::Ask(next, _) ==> next.wf(),
    {
        match self {
            ObjectAccess::Finding { bucket, key, lookup } => {
                let inner = lookup.resume(reply, cache, now);
                Self::follow(bucket, key, inner)
            },
        }
    }
}

/// Listing the objects of a bucket: make sure the bucket exists, list the
/// backend under the bucket's prefix, and show the result as the bucket's
/// user sees it.
pub enum ListObjects {
    /// The bucket is being looked up.
    Finding { bucket: String, prefix: Option<String>, max_keys: Option<usize>, lookup: GetBucket },
    /// The backend listing has been asked for.
    Listing { bucket: String },
}

impl ListObjects {
    /// A state that `begin` or `resume` can hand out.
    pub open spec fn wf(self) -> bool {
        match self {
            ListObjects::Finding { lookup, .. } => lookup.wf(),
            ListObjects::Listing { .. } => true,
        }
    }

    /// How the listing goes on from a step of the lookup: once the bucket
    /// is found, the backend is asked for the keys under
    /// `<bucket>/<prefix>`.
    pub open spec fn follows(
        bucket: String,
        prefix: Option<String>,
        max_keys: Option<usize>,
        inner: Step<GetBucket, Bucket>,
        step: Step<ListObjects, Vec<ObjectMetadata>>,
    ) -> bool {
        match inner {
            Step::Ask(next, request) => {
                &&& step matches Step::Ask(
                    ListObjects::Finding { bucket: b, prefix: p, max_keys: m, lookup },
                    req,
                )
                &&& b == bucket
                &&& p == prefix
                &&& m == max_keys
                &&& lookup == next
                &&& req == request
            },
            Step::Done(Err(e)) => step matches Step::Done(Err(cause)) && cause == e,
            Step::Done(Ok(_)) => {
                &&& step matches Step::Ask(ListObjects::Listing { bucket: b }, req)
                &&& b == bucket
                &&& req.lists(list_prefix_text(bucket@, text_of(prefix)), max_keys)
            },
        }
    }

    /// What `begin` does: it starts the lookup and goes on from there.
    pub open spec fn begins(
        bucket: Seq<char>,
        prefix: Option<Seq<char>>,
        max_keys: Option<usize>,
        cache: BucketCache,
        step: Step<ListObjects, Vec<ObjectMetadata>>,
    ) -> bool {
        exists|inner: Step<GetBucket, Bucket>, b: String, p: Option<String>|
            {
                &&& #[trigger] GetBucket::begins(bucket, cache, inner)
                &&& b@ == bucket
                &&& text_of(p) == prefix
                &&& #[trigger] Self::follows(b, p, max_keys, inner, step)
            }
    }

    /// What `resume` does, case by case.
    pub open spec fn resumes(
        self,
        reply: Reply,
        before: BucketCache,
        now: Timestamp,
        step: Step<ListObjects, Vec<ObjectMetadata>>,
        after: BucketCache,
    ) -> bool {
        match (self, reply) {
            (ListObjects::Finding { bucket, prefix, max_keys, lookup }, _) => {
                exists|inner: Step<GetBucket, Bucket>|
                    {
                        &&& #[trigger] lookup.resumes(reply, before, now, inner, after)
                        &&& Self::follows(bucket, prefix, max_keys, inner, step)
                    }
            },
            (ListObjects::Listing { bucket }, Reply::Listed(Ok(listed))) => {
                &&& step matches Step::Done(Ok(shown))
                &&& shows_listing(bucket@, listed@, shown@)
                &&& after == before
            },
            (ListObjects::Listing { bucket }, Reply::Listed(Err(e))) => {
                &&& step matches Step::Done(Err(ServiceError::Backend(cause)))
                &&& cause == e
                &&& after == before
            },
            _ => {
                &&& step matches Step::Done(Err(e))
                &&& is_protocol_error(e)
                &&& after == before
            },
        }
    }

    fn follow(
        bucket: String,
        prefix: Option<String>,
        max_keys: Option<usize>,
        inner: Step<GetBucket, Bucket>,
    ) -> (step: Step<ListObjects, Vec<ObjectMetadata>>)
        ensures
            Self::follows(bucket, prefix, max_keys, inner, step),
            (inner matches Step::Ask(next, _) ==> next.wf()) ==> (step matches Step::Ask(s, _)
                ==> s.wf()),
    {
        match inner {
            Step::Ask(next, request) => Step::Ask(
                ListObjects::Finding { bucket, prefix, max_keys, lookup: next },
                request,
            ),
            Step::Done(Err(e)) => Step::Done(Err(e)),
            Step::Done(Ok(_)) => {
                let full = match &prefix {
                    Some(p) => list_prefix(bucket.as_str(), Some(p.as_str())),
                    None => list_prefix(bucket.as_str(), None),
                };
                Step::Ask(
                    ListObjects::Listing { bucket },
                    Request::List { prefix: full, max_keys },
                )
            },
        }
    }

    /// Starts the listing of bucket `bucket`, narrowed to keys that begin
    /// with `prefix` and to `max_keys` entries where these are given.
    pub fn begin(
        bucket: &str,
        prefix: Option<&str>,
        max_keys: Option<usize>,
        cache: &BucketCache,
    ) -> (step: Step<ListObjects, Vec<ObjectMetadata>>)
        requires
            cache.wf(),
        ensures
            Self::begins(
                bucket@,
                match prefix {
                    Some(p) => Some(p@),
                    None => None,
                },
                max_keys,
                *cache,
                step,
            ),
            step matches Step::Ask(next, _) ==> next.wf(),
    {
        let inner = GetBucket::begin(bucket, cache);
        let owned = match prefix {
            Some(p) => Some(String::from_str(p)),
            None => None,
        };
        Self::follow(String::from_str(bucket), owned, max_keys, inner)
    }

    /// Takes the reply to the request last handed out and says what comes
    /// next.
    pub fn resume(self, reply: Reply, cache: &mut BucketCache, now: Timestamp) -> (step: Step<
        ListObjects,
        Vec<ObjectMetadata>,
    >)
        requires
            self.wf(),
            old(cache).wf(),
        ensures
            self.resumes(reply, *old(cache), now, step, *final(cache)),
            final(cache).wf(),
            step matches Step::Ask(next, _) ==> next.wf(),
    {
        match self {
            ListObjects::Finding { bucket, prefix, max_keys, lookup } => {
                let inner = lookup.resume(reply, cache, now);
                Self::follow(bucket, prefix, max_keys, inner)
            },
            ListObjects::Listing { bucket } => match reply {
                Reply::Listed(Ok(listed)) => Step::Done(
                    Ok(visible_objects(bucket.as_str(), listed)),
                ),
                Reply::Listed(Err(e)) => Step::Done(Err(ServiceError::Backend(e))),
                _ => Step::Done(Err(protocol_error())),
            },
        }
    }
}

/// Creating a bucket: record it in the catalog, then write its marker
/// object, the empty object `<name>/.bucket`.
pub enum CreateBucket {
    /// The catalog record is being created.
    Recording { create: catalog::CreateBucket },
    /// The marker object has been sent to the backend.
    Marking { bucket: Bucket },
}

impl CreateBucket {
    /// How creation goes on from a step of the catalog's part: once the
    /// record is written, the marker is.
    pub open spec fn follows(
        inner: Step<catalog::CreateBucket, Bucket>,
        step: Step<CreateBucket, Bucket>,
    ) -> bool {
        match inner {
            Step::Ask(next, request) => {
                &&& step matches Step::Ask(CreateBucket::Recording { create }, req)
                &&& create == next
                &&& req == request
            },
            Step::Done(Err(e)) => step matches Step::Done(Err(cause)) && cause == e,
            Step::Done(Ok(bucket)) => {
                &&& step matches Step::Ask(CreateBucket::Marking { bucket: b }, req)
                &&& b == bucket
                &&& req.writes_empty(marker_key_text(bucket.name@))
            },
        }
    }

    /// What `begin` does: it starts the catalog's part and goes on from
    /// there.
    pub open spec fn begins(
        name: Seq<char>,
        now: Timestamp,
        cache: BucketCache,
        step: Step<CreateBucket, Bucket>,
    ) -> bool {
        exists|inner: Step<catalog::CreateBucket, Bucket>|
            {
                &&& #[trigger] catalog::CreateBucket::begins(name, now, cache, inner)
                &&& Self::follows(inner, step)
            }
    }

    /// What `resume` does, case by case.
    pub open spec fn resumes(
        self,
        reply: Reply,
        before: BucketCache,
        step: Step<CreateBucket, Bucket>,
        after: BucketCache,
    ) -> bool {
        match (self, reply) {
            (CreateBucket::Recording { create }, _) => {
                exists|inner: Step<catalog::CreateBucket, Bucket>|
                    {
                        &&& #[trigger] create.resumes(reply, before, inner, after)
                        &&& Self::follows(inner, step)
                    }
            },
            (CreateBucket::Marking { bucket }, Reply::Written(Ok(_))) => {
                &&& step matches Step::Done(Ok(created))
                &&& created == bucket
                &&& after == before
            },
            (CreateBucket::Marking { bucket }, Reply::Written(Err(failure))) => {
                &&& step matches Step::Done(Err(e))
                &&& write_failed(failure, e)
                &&& after == before
            },
            _ => {
                &&& step matches Step::Done(Err(e))
                &&& is_protocol_error(e)
                &&& after == before
            },
        }
    }

    fn follow(inner: Step<catalog::CreateBucket, Bucket>) -> (step: Step<CreateBucket, Bucket>)
        ensures
            Self::follows(inner, step),
    {
        match inner {
            Step::Ask(next, request) => Step::Ask(
                CreateBucket::Recording { create: next },
                request,
            ),
            Step::Done(Err(e)) => Step::Done(Err(e)),
            Step::Done(Ok(bucket)) => {
                let key = marker_key(bucket.name.as_str());
                Step::Ask(CreateBucket::Marking { bucket }, Request::WriteEmpty { key })
            },
        }
    }

    /// Starts the creation of a bucket called `name` at time `now`.
    pub fn begin(name: &str, now: Timestamp, cache: &BucketCache) -> (step: Step<
        CreateBucket,
        Bucket,
    >)
        requires
            cache.wf(),
        ensures
            Self::begins(name@, now, *cache, step),
    {
        Self::follow(catalog::CreateBucket::begin(name, now, cache))
    }

    /// Takes the reply to the request last handed out and says what comes
    /// next.
    pub fn resume(self, reply: Reply, cache: &mut BucketCache) -> (step: Step<CreateBucket, Bucket>)
        requires
            old(cache).wf(),
        ensures
            self.resumes(reply, *old(cache), step, *final(cache)),
            final(cache).wf(),
    {
        match self {
            CreateBucket::Recording { create } => Self::follow(create.resume(reply, cache)),
            CreateBucket::Marking { bucket } => match reply {
                Reply::Written(Ok(_)) => Step::Done(Ok(bucket)),
                Reply::Written(Err(failure)) => Step::Done(Err(write_error(failure))),
                _ => Step::Done(Err(protocol_error())),
            },
        }
    }
}

/// Creating a bucket unless it exists: a bucket that the lookup finds is
/// returned as it is; if the lookup fails, for whatever reason, the bucket
/// is created.
pub enum UpsertBucket {
    /// The bucket is being looked up.
    Finding { name: String, lookup: GetBucket },
    /// The bucket is being created.
    Creating { create: CreateBucket },
}

impl UpsertBucket {
    /// A state that `begin` or `resume` can hand out.
    pub open spec fn wf(self) -> bool {
        match self {
            UpsertBucket::Finding { lookup, .. } => lookup.wf(),
            UpsertBucket::Creating { .. } => true,
        }
    }

    /// How the operation goes on from a step of the creation.
    pub open spec fn follows_creation(
        inner: Step<CreateBucket, Bucket>,
        step: Step<UpsertBucket, Bucket>,
    ) -> bool {
        match inner {
            Step::Ask(next, request) => {
                &&& step matches Step::Ask(UpsertBucket::Creating { create }, req)
                &&& create == next
                &&& req == request
            },
            Step::Done(outcome) => step matches Step::Done(same) && same == outcome,
        }
    }

    /// How the operation goes on from a step of the lookup: a bucket found
    /// is the outcome; a failed lookup starts the creation at `now`.
    pub open spec fn follows_lookup(
        name: String,
        inner: Step<GetBucket, Bucket>,
        now: Timestamp,
        cache: BucketCache,
        step: Step<UpsertBucket, Bucket>,
    ) -> bool {
        match inner {
            Step::Ask(next, request) => {
                &&& step matches Step::Ask(UpsertBucket::Finding { name: n, lookup }, req)
                &&& n == name
                &&& lookup == next
                &&& req == request
            },
            Step::Done(Ok(bucket)) => step matches Step::Done(Ok(found)) && found == bucket,
            Step::Done(Err(_)) => {
                exists|creation: Step<CreateBucket, Bucket>|
                    {
                        &&& #[trigger] CreateBucket::begins(name@, now, cache, creation)
                        &&& Self::follows_creation(creation, step)
                    }
            },
        }
    }

    /// What `begin` does: it starts the lookup and goes on from there.
    pub open spec fn begins(
        name: Seq<char>,
        now: Timestamp,
        cache: BucketCache,
        step: Step<UpsertBucket, Bucket>,
    ) -> bool {
        exists|inner: Step<GetBucket, Bucket>, owned: String|
            {
                &&& #[trigger] GetBucket::begins(name, cache, inner)
                &&& owned@ == name
                &&& #[trigger] Self::follows_lookup(owned, inner, now, cache, step)
            }
    }

    /// What `resume` does: it carries on whichever part is under way.
    pub open spec fn resumes(
        self,
        reply: Reply,
        before: BucketCache,
        now: Timestamp,
        step: Step<UpsertBucket, Bucket>,
        after: BucketCache,
    ) -> bool {
        match self {
            UpsertBucket::Finding { name, lookup } => {
                exists|inner: Step<GetBucket, Bucket>|
                    {
                        &&& #[trigger] lookup.resumes(reply, before, now, inner, after)
                        &&& Self::follows_lookup(name, inner, now, after, step)
                    }
            },
            UpsertBucket::Creating { create } => {
                exists|inner: Step<CreateBucket, Bucket>|
                    {
                        &&& #[trigger] create.resumes(reply, before, inner, after)
                        &&& Self::follows_creation(inner, step)
                    }
            },
        }
    }

    fn follow_creation(inner: Step<CreateBucket, Bucket>) -> (step: Step<UpsertBucket, Bucket>)
        ensures
            Self::follows_creation(inner, step),
            step matches Step::Ask(next, _) ==> next.wf(),
    {
        match inner {
            Step::Ask(next, request) => Step::Ask(UpsertBucket::Creating { create: next }, request),
            Step::Done(outcome) => Step::Done(outcome),
        }
    }

    fn follow_lookup(
        name: String,
        inner: Step<GetBucket, Bucket>,
        now: Timestamp,
        cache: &BucketCache,
    ) -> (step: Step<UpsertBucket, Bucket>)
        requires
            cache.wf(),
            inner matches Step::Ask(next, _) ==> next.wf(),
        ensures
            Self::follows_lookup(name, inner, now, *cache, step),
            step matches Step::Ask(next, _) ==> next.wf(),
    {
        match inner {
            Step::Ask(next, request) => Step::Ask(
                UpsertBucket::Finding { name, lookup: next },
                request,
            ),
            Step::Done(Ok(bucket)) => Step::Done(Ok(bucket)),
            Step::Done(Err(_)) => Self::follow_creation(
                CreateBucket::begin(name.as_str(), now, cache),
            ),
        }
    }

    /// Starts the operation for a bucket called `name` at time `now`.
    pub fn begin(name: &str, now: Timestamp, cache: &BucketCache) -> (step: Step<
        UpsertBucket,
        Bucket,
    >)
        requires
            cache.wf(),
        ensures
            Self::begins(name@, now, *cache, step),
            step matches Step::Ask(next, _) ==> next.wf(),
    {
        let inner = GetBucket::begin(name, cache);
        Self::follow_lookup(String::from_str(name), inner, now, cache)
    }

    /// Takes the reply to the request last handed out and says what comes
    /// next. `now` is the time of the call; it becomes the creation time if
    /// this step starts the creation.
    pub fn resume(self, reply: Reply, cache: &mut BucketCache, now: Timestamp) -> (step: Step<
        UpsertBucket,
        Bucket,
    >)
        requires
            self.wf(),
            old(cache).wf(),
        ensures
            self.resumes(reply, *old(cache), now, step, *final(cache)),
            final(cache).wf(),
            step matches Step::Ask(next, _) ==> next.wf(),
    {
        match self {
            UpsertBucket::Finding { name, lookup } => {
                let inner = lookup.resume(reply, cache, now);
                Self::follow_lookup(name, inner, now, cache)
            },
            UpsertBucket::Creating { create } => Self::follow_creation(
                create.resume(reply, cache),
            ),
        }
    }
}

/// The message that refuses to delete a bucket that still holds objects.
pub open spec fn not_empty_text(name: Seq<char>) -> Seq<char> {
    "Bucket "@ + name + " is not empty"@
}

/// Deleting a bucket: make sure it exists, list it, refuse if it holds any
/// object, delete its marker without minding the outcome, and remove it
/// from the catalog.
pub enum DeleteBucket {
    /// The bucket is being looked up.
    Finding { name: String, lookup: GetBucket },
    /// The bucket's objects are being listed.
    Listing { name: String, listing: ListObjects },
    /// The deletion of the marker has been asked for.
    Unmarking { name: String },
    /// The bucket is being removed from the catalog.
    Forgetting { removal: catalog::DeleteBucket },
}

impl DeleteBucket {
    /// A state that `begin` or `resume` can hand out.
    pub open spec fn wf(self) -> bool {
        match self {
            DeleteBucket::Finding { lookup, .. } => lookup.wf(),
            DeleteBucket::Listing { listing, .. } => listing.wf(),
            DeleteBucket::Unmarking { .. } => true,
            DeleteBucket::Forgetting { removal } => removal.wf(),
        }
    }

    /// How the deletion goes on from a step of the catalog's removal.
    pub open spec fn follows_removal(
        inner: Step<catalog::DeleteBucket, ()>,
        step: Step<DeleteBucket, ()>,
    ) -> bool {
        match inner {
            Step::Ask(next, request) => {
                &&& step matches Step::Ask(DeleteBucket::Forgetting { removal }, req)
                &&& removal == next
                &&& req == request
            },
            Step::Done(outcome) => step matches Step::Done(same) && same == outcome,
        }
    }

    /// How the deletion goes on from a step of the listing: a bucket that
    /// holds an object is not deleted; for an empty one the deletion of the
    /// marker is asked for.
    pub open spec fn follows_listing(
        name: String,
        inner: Step<ListObjects, Vec<ObjectMetadata>>,
        step: Step<DeleteBucket, ()>,
    ) -> bool {
        match inner {
            Step::Ask(next, request) => {
                &&& step matches Step::Ask(DeleteBucket::Listing { name: n, listing }, req)
                &&& n == name
                &&& listing == next
                &&& req == request
            },
            Step::Done(Err(e)) => step matches Step::Done(Err(cause)) && cause == e,
            Step::Done(Ok(objects)) => {
                if objects@.len() > 0 {
                    step matches Step::Done(Err(ServiceError::Internal(m))) && m@
                        == not_empty_text(name@)
                } else {
                    &&& step matches Step::Ask(DeleteBucket::Unmarking { name: n }, req)
                    &&& n == name
                    &&& req.deletes(marker_key_text(name@))
                }
            },
        }
    }

    /// How the deletion goes on from a step of the lookup: once the bucket
    /// is found, its listing starts.
    pub open spec fn follows_lookup(
        name: String,
        inner: Step<GetBucket, Bucket>,
        cache: BucketCache,
        step: Step<DeleteBucket, ()>,
    ) -> bool {
        match inner {
            Step::Ask(next, request) => {
                &&& step matches Step::Ask(DeleteBucket::Finding { name: n, lookup }, req)
                &&& n == name
                &&& lookup == next
                &&& req == request
            },
            Step::Done(Err(e)) => step matches Step::Done(Err(cause)) && cause == e,
            Step::Done(Ok(_)) => {
                exists|listing: Step<ListObjects, Vec<ObjectMetadata>>|
                    {
                        &&& #[trigger] ListObjects::begins(name@, None, None, cache, listing)
                        &&& Self::follows_listing(name, listing, step)
                    }
            },
        }
    }

    /// What `begin` does: it starts the lookup and goes on from there.
    pub open spec fn begins(name: Seq<char>, cache: BucketCache, step: Step<DeleteBucket, ()>) -> bool {
        exists|inner: Step<GetBucket, Bucket>, owned: String|
            {
                &&& #[trigger] GetBucket::begins(name, cache, inner)
                &&& owned@ == name
                &&& #[trigger] Self::follows_lookup(owned, inner, cache, step)
            }
    }

    /// What `resume` does, case by case.
    pub open spec fn resumes(
        self,
        reply: Reply,
        before: BucketCache,
        now: Timestamp,
        step: Step<DeleteBucket, ()>,
        after: BucketCache,
    ) -> bool {
        match (self, reply) {
            (DeleteBucket::Finding { name, lookup }, _) => {
                exists|inner: Step<GetBucket, Bucket>|
                    {
                        &&& #[trigger] lookup.resumes(reply, before, now, inner, after)
                        &&& Self::follows_lookup(name, inner, after, step)
                    }
            },
            (DeleteBucket::Listing { name, listing }, _) => {
                exists|inner: Step<ListObjects, Vec<ObjectMetadata>>|
                    {
                        &&& #[trigger] listing.resumes(reply, before, now, inner, after)
                        &&& Self::follows_listing(name, inner, step)
                    }
            },
            (DeleteBucket::Unmarking { name }, Reply::Deleted(_)) => {
                &&& after == before
                &&& exists|inner: Step<catalog::DeleteBucket, ()>|
                    {
                        &&& #[trigger] catalog::DeleteBucket::begins(name@, before, inner)
                        &&& Self::follows_removal(inner, step)
                    }
            },
            (DeleteBucket::Forgetting { removal }, _) => {
                exists|inner: Step<catalog::DeleteBucket, ()>|
                    {
                        &&& #[trigger] removal.resumes(reply, before, now, inner, after)
                        &&& Self::follows_removal(inner, step)
                    }
            },
            _ => {
                &&& step matches Step::Done(Err(e))
                &&& is_protocol_error(e)
                &&& after == before
            },
        }
    }

    fn follow_removal(inner: Step<catalog::DeleteBucket, ()>) -> (step: Step<DeleteBucket, ()>)
        requires
            inner matches Step::Ask(next, _) ==> next.wf(),
        ensures
            Self::follows_removal(inner, step),
            step matches Step::Ask(next, _) ==> next.wf(),
    {
        match inner {
            Step::Ask(next, request) => Step::Ask(
                DeleteBucket::Forgetting { removal: next },
                request,
            ),
            Step::Done(outcome) => Step::Done(outcome),
        }
    }

    fn follow_listing(name: String, inner: Step<ListObjects, Vec<ObjectMetadata>>) -> (step: Step<
        DeleteBucket,
        (),
    >)
        requires
            inner matches Step::Ask(next, _) ==> next.wf(),
        ensures
            Self::follows_listing(name, inner, step),
            step matches Step::Ask(next, _) ==> next.wf(),
    {
        match inner {
            Step::Ask(next, request) => Step::Ask(
                DeleteBucket::Listing { name, listing: next },
                request,
            ),
            Step::Done(Err(e)) => Step::Done(Err(e)),
            Step::Done(Ok(objects)) => {
                if objects.len() > 0 {
                    Step::Done(
                        Err(
                            ServiceError::Internal(
                                join3("Bucket ", name.as_str(), " is not empty"),
                            ),
                        ),
                    )
                } else {
                    let key = marker_key(name.as_str());
                    Step::Ask(DeleteBucket::Unmarking { name }, Request::Delete { key })
                }
            },
        }
    }

    fn follow_lookup(name: String, inner: Step<GetBucket, Bucket>, cache: &BucketCache) -> (step:
        Step<DeleteBucket, ()>)
        requires
            cache.wf(),
            inner matches Step::Ask(next, _) ==> next.wf(),
        ensures
            Self::follows_lookup(name, inner, *cache, step),
            step matches Step::Ask(next, _) ==> next.wf(),
    {
        match inner {
            Step::Ask(next, request) => Step::Ask(
                DeleteBucket::Finding { name, lookup: next },
                request,
            ),
            Step::Done(Err(e)) => Step::Done(Err(e)),
            Step::Done(Ok(_)) => {
                let listing = ListObjects::begin(name.as_str(), None, None, cache);
                Self::follow_listing(name, listing)
            },
        }
    }

    /// Starts the deletion of the bucket called `name`.
    pub fn begin(name: &str, cache: &BucketCache) -> (step: Step<DeleteBucket, ()>)
        requires
            cache.wf(),
        ensures
            Self::begins(name@, *cache, step),
            step matches Step::Ask(next, _) ==> next.wf(),
    {
        let inner = GetBucket::begin(name, cache);
        Self::follow_lookup(String::from_str(name), inner, cache)
    }

    /// Takes the reply to the request last handed out and says what comes
    /// next.
    pub fn resume(self, reply: Reply, cache: &mut BucketCache, now: Timestamp) -> (step: Step<
        DeleteBucket,
        (),
    >)
        requires
            self.wf(),
            old(cache).wf(),
        ensures
            self.resumes(reply, *old(cache), now, step, *final(cache)),
            final(cache).wf(),
            step matches Step::Ask(next, _) ==> next.wf(),
    {
        match self {
            DeleteBucket::Finding { name, lookup } => {
                let inner = lookup.resume(reply, cache, now);
                Self::follow_lookup(name, inner, cache)
            },
            DeleteBucket::Listing { name, listing } => {
                let inner = listing.resume(reply, cache, now);
                Self::follow_listing(name, inner)
            },
            DeleteBucket::Unmarking { name } => match reply {
                Reply::Deleted(_) => Self::follow_removal(
                    catalog::DeleteBucket::begin(name.as_str(), cache),
                ),
                _ => Step::Done(Err(protocol_error())),
            },
            DeleteBucket::Forgetting { removal } => {
                let inner = removal.resume(reply, cache, now);
                Self::follow_removal(inner)
            },
        }
    }
}

/// Every entry that is shown comes from a listed entry that is no marker,
/// and every listed entry that is no marker is shown.
pub proof fn shown_entries_are_the_unmarked(listed: Seq<ObjectMetadata>)
    ensures
        forall|k: int|
            0 <= k < shown_entries(listed).len() ==> listed.contains(
                #[trigger] shown_entries(listed)[k],
            ) && !looks_like_marker(shown_entries(listed)[k].key@),
        forall|i: int|
            0 <= i < listed.len() && !looks_like_marker((#[trigger] listed[i]).key@)
                ==> shown_entries(listed).contains(listed[i]),
    decreases listed.len(),
{
    if listed.len() > 0 {
        let earlier = listed.drop_last();
        shown_entries_are_the_unmarked(earlier);
        let shown = shown_entries(listed);
        assert forall|i: int|
            0 <= i < listed.len() && !looks_like_marker((#[trigger] listed[i]).key@) implies shown.contains(
            listed[i],
        ) by {
            if i < earlier.len() {
                let k = choose|k: int|
                    0 <= k < shown_entries(earlier).len() && shown_entries(earlier)[k]
                        == earlier[i];
                assert(shown[k] == listed[i]);
            } else {
                assert(shown[shown.len() - 1] == listed[i]);
            }
        }
    }
}

/// What a listing of a bucket shows, given a backend listing in which
/// every key begins with the prefix that was asked for:
///
/// - every key shown begins with the caller's prefix;
/// - no key shown is the reserved key `.bucket`;
/// - every entry shown is a listed entry under its logical key;
/// - every listed entry is shown, except those whose key ends in
///   `/.bucket`.
pub proof fn listing_shows_the_prefixed_objects(
    bucket: Seq<char>,
    prefix: Option<Seq<char>>,
    listed: Seq<ObjectMetadata>,
    shown: Seq<ObjectMetadata>,
)
    requires
        forall|i: int|
            0 <= i < listed.len() ==> has_prefix(
                (#[trigger] listed[i]).key@,
                list_prefix_text(bucket, prefix),
            ),
        shows_listing(bucket, listed, shown),
    ensures
        forall|j: int|
            0 <= j < shown.len() ==> has_prefix(
                (#[trigger] shown[j]).key@,
                match prefix {
                    Some(p) => p,
                    None => Seq::empty(),
                },
            ) && !crate::naming::key_is_reserved(shown[j].key@),
        forall|j: int|
            0 <= j < shown.len() ==> exists|i: int|
                0 <= i < listed.len() && !looks_like_marker(listed[i].key@) && shown_as(
                    bucket,
                    listed[i],
                    #[trigger] shown[j],
                ),
        forall|i: int|
            0 <= i < listed.len() && !looks_like_marker((#[trigger] listed[i]).key@) ==> exists|
                j: int,
            |
                0 <= j < shown.len() && shown_as(bucket, listed[i], shown[j]),
{
    let wanted = match prefix {
        Some(p) => p,
        None => Seq::empty(),
    };
    let lead = bucket + "/"@;
    shown_entries_are_the_unmarked(listed);
    let sources = shown_entries(listed);
    assert forall|j: int| 0 <= j < shown.len() implies has_prefix(
        (#[trigger] shown[j]).key@,
        wanted,
    ) && !crate::naming::key_is_reserved(shown[j].key@) && (exists|i: int|
        0 <= i < listed.len() && !looks_like_marker(listed[i].key@) && shown_as(
            bucket,
            listed[i],
            shown[j],
        )) by {
        let source = sources[j];
        let key = source.key@;
        crate::text::prefix_of_joined(key, lead, wanted);
        crate::naming::marker_is_the_reserved_key(bucket, key);
        reveal_strlit("/");
    }
    assert forall|i: int|
        0 <= i < listed.len() && !looks_like_marker((#[trigger] listed[i]).key@) implies exists|
        j: int,
    |
        0 <= j < shown.len() && shown_as(bucket, listed[i], shown[j]) by {
        let j = choose|j: int| 0 <= j < sources.len() && sources[j] == listed[i];
        assert(shown_as(bucket, sources[j], shown[j]));
    }
}

/// Access to an object of a bucket that exists and is cached is decided
/// by the key alone: a valid key yields the backend key `<bucket>/<key>`
/// at once, an invalid one is refused.
pub proof fn access_to_a_cached_bucket(
    bucket: Seq<char>,
    key: Seq<char>,
    cache: BucketCache,
    step: Step<ObjectAccess, String>,
)
    requires
        cache@.contains_key(bucket),
        ObjectAccess::begins(bucket, key, cache, step),
    ensures
        ObjectAccess::admits(bucket, key, step),
{
}

/// A bucket that holds an object is not deleted: when the listing of the
/// bucket ends with at least one entry, the deletion ends with an error
/// that names the bucket, and nothing is asked of the backend.
pub proof fn bucket_with_objects_is_kept(
    name: String,
    objects: Vec<ObjectMetadata>,
    step: Step<DeleteBucket, ()>,
)
    requires
        objects@.len() > 0,
        DeleteBucket::follows_listing(name, Step::Done(Ok(objects)), step),
    ensures
        step matches Step::Done(Err(ServiceError::Internal(m))) && m@ == not_empty_text(name@),
{
}

/// No more entries are shown than were listed.
pub proof fn shown_entries_are_no_more(listed: Seq<ObjectMetadata>)
    ensures
        shown_entries(listed).len() <= listed.len(),
    decreases listed.len(),
{
    if listed.len() > 0 {
        shown_entries_are_no_more(listed.drop_last());
    }
}

/// A marker is never shown, whatever the backend lists: no key shown ends
/// in `/.bucket`, and the reserved key `.bucket` is shown only if the
/// backend listed an object at the key `.bucket` itself, outside every
/// bucket.
pub proof fn markers_are_never_shown(
    bucket: Seq<char>,
    listed: Seq<ObjectMetadata>,
    shown: Seq<ObjectMetadata>,
)
    requires
        shows_listing(bucket, listed, shown),
    ensures
        shown.len() <= listed.len(),
        forall|j: int| 0 <= j < shown.len() ==> !looks_like_marker((#[trigger] shown[j]).key@),
        forall|j: int|
            0 <= j < shown.len() && crate::naming::key_is_reserved((#[trigger] shown[j]).key@)
                ==> exists|i: int|
                0 <= i < listed.len() && (#[trigger] listed[i]).key@ == ".bucket"@,
{
    shown_entries_are_no_more(listed);
    shown_entries_are_the_unmarked(listed);
    let sources = shown_entries(listed);
    let lead = bucket + "/"@;
    let tail = "/.bucket"@;
    reveal_strlit("/");
    assert forall|j: int| 0 <= j < shown.len() implies !looks_like_marker(
        (#[trigger] shown[j]).key@,
    ) && (crate::naming::key_is_reserved(shown[j].key@) ==> exists|i: int|
        0 <= i < listed.len() && (#[trigger] listed[i]).key@ == ".bucket"@) by {
        let source = sources[j];
        assert(shown_as(bucket, source, shown[j]));
        assert(listed.contains(source));
        let key = source.key@;
        let logical = shown[j].key@;
        if has_prefix(key, lead) {
            assert(logical == key.skip(lead.len() as int));
            if looks_like_marker(logical) {
                assert(key.subrange(key.len() - tail.len(), key.len() as int) =~= logical.subrange(
                    logical.len() - tail.len(),
                    logical.len() as int,
                ));
            }
            crate::naming::marker_is_the_reserved_key(bucket, key);
        } else {
            assert(logical == key);
        }
    }
}

} // verus!
