// Drives the resumable operations against a small in-memory backend.

use object_store::backend::{
    broken_chunk, ObjectMetadata, ReadFailure, ReadMode, RecordKind, Reply, Request, Step,
    WriteFailure,
};
use object_store::catalog;
use object_store::catalog::{CatalogRefresh, GetBucket, GetBucketById, ListBuckets};
use object_store::error::{BackendError, ServiceError};
use object_store::instant::Timestamp;
use object_store::local::PutProgress;
use object_store::locks::{CleanupExpiredLocks, ReleaseLock, TryAcquireLock};
use object_store::metadata::{generate_bucket_id, Bucket, BucketCache, Lock};
use object_store::provider::exists_from_head;
use object_store::service;
use object_store::service::{ListObjects, ObjectAccess};
use std::collections::BTreeMap;

#[derive(Clone)]
enum Stored {
    Bucket(Bucket),
    Lock(Lock),
    Garbage,
    Object { body: Vec<u8>, metadata: ObjectMetadata },
}

struct MemoryBackend {
    objects: BTreeMap<String, Stored>,
    requests: Vec<Request>,
    fail_lists: bool,
    fail_writes: bool,
}

fn at(secs: i64) -> Timestamp {
    Timestamp::new(secs, 0)
}

fn plain_metadata(key: &str) -> ObjectMetadata {
    PutProgress::new().finish(key, None, Vec::new(), at(0))
}

impl MemoryBackend {
    fn new() -> Self {
        MemoryBackend {
            objects: BTreeMap::new(),
            requests: Vec::new(),
            fail_lists: false,
            fail_writes: false,
        }
    }

    fn missing(key: &str) -> BackendError {
        BackendError::NotFound(key.to_string())
    }

    fn answer(&mut self, request: Request) -> Reply {
        self.requests.push(request.clone());
        match request {
            Request::ReadRecord { key, kind, mode: _ } => match kind {
                RecordKind::Bucket => Reply::Bucket(match self.objects.get(&key) {
                    Some(Stored::Bucket(b)) => Ok(b.clone()),
                    Some(_) => Err(ReadFailure::Decode("expected value at line 1".to_string())),
                    None => Err(ReadFailure::Backend(Self::missing(&key))),
                }),
                RecordKind::Lock => Reply::Lock(match self.objects.get(&key) {
                    Some(Stored::Lock(l)) => Ok(l.clone()),
                    Some(_) => Err(ReadFailure::Decode("expected value at line 1".to_string())),
                    None => Err(ReadFailure::Backend(Self::missing(&key))),
                }),
            },
            Request::WriteBucket { key, bucket } => {
                if self.fail_writes {
                    return Reply::Written(Err(WriteFailure::Backend(BackendError::Provider(
                        "disk full".to_string(),
                    ))));
                }
                self.objects.insert(key.clone(), Stored::Bucket(bucket));
                Reply::Written(Ok(plain_metadata(&key)))
            }
            Request::WriteLock { key, lock } => {
                if self.fail_writes {
                    return Reply::Written(Err(WriteFailure::Backend(BackendError::Provider(
                        "disk full".to_string(),
                    ))));
                }
                self.objects.insert(key.clone(), Stored::Lock(lock));
                Reply::Written(Ok(plain_metadata(&key)))
            }
            Request::WriteEmpty { key } => {
                if self.fail_writes {
                    return Reply::Written(Err(WriteFailure::Backend(BackendError::Provider(
                        "disk full".to_string(),
                    ))));
                }
                let metadata = plain_metadata(&key);
                self.objects.insert(
                    key,
                    Stored::Object { body: Vec::new(), metadata: metadata.clone() },
                );
                Reply::Written(Ok(metadata))
            }
            Request::Delete { key } => Reply::Deleted(match self.objects.remove(&key) {
                Some(_) => Ok(()),
                None => Err(Self::missing(&key)),
            }),
            Request::List { prefix, max_keys } => {
                if self.fail_lists {
                    return Reply::Listed(Err(BackendError::Provider("unreachable".to_string())));
                }
                let mut listed = Vec::new();
                for (key, stored) in self.objects.iter() {
                    if let Some(max) = max_keys {
                        if listed.len() >= max {
                            break;
                        }
                    }
                    if key.starts_with(&prefix) {
                        listed.push(match stored {
                            Stored::Object { metadata, .. } => metadata.clone(),
                            _ => plain_metadata(key),
                        });
                    }
                }
                Reply::Listed(Ok(listed))
            }
        }
    }

    fn put_object(
        &mut self,
        key: &str,
        chunks: &[&[u8]],
        content_type: Option<String>,
        custom: Vec<(String, String)>,
        now: Timestamp,
    ) -> Result<ObjectMetadata, BackendError> {
        let mut progress = PutProgress::new();
        let mut body = Vec::new();
        for chunk in chunks {
            assert!(progress.has_room_for(chunk.len()));
            progress.absorb(chunk);
            body.extend_from_slice(chunk);
        }
        let metadata = progress.finish(key, content_type, custom, now);
        self.objects.insert(
            key.to_string(),
            Stored::Object { body, metadata: metadata.clone() },
        );
        Ok(metadata)
    }

    fn head_object(&self, key: &str) -> Result<ObjectMetadata, BackendError> {
        match self.objects.get(key) {
            Some(Stored::Object { metadata, .. }) => Ok(metadata.clone()),
            _ => Err(Self::missing(key)),
        }
    }

    fn get_object(&self, key: &str) -> Result<(ObjectMetadata, Vec<u8>), BackendError> {
        match self.objects.get(key) {
            Some(Stored::Object { metadata, body }) => Ok((metadata.clone(), body.clone())),
            _ => Err(Self::missing(key)),
        }
    }

    fn delete_object(&mut self, key: &str) -> Result<(), BackendError> {
        match self.objects.remove(key) {
            Some(_) => Ok(()),
            None => Err(Self::missing(key)),
        }
    }
}

struct Gateway {
    backend: MemoryBackend,
    cache: BucketCache,
    now: Timestamp,
}

impl Gateway {
    fn new() -> Self {
        let now = at(1_700_000_000);
        let mut gateway = Gateway { backend: MemoryBackend::new(), cache: BucketCache::new(now), now };
        gateway.refresh().unwrap();
        gateway
    }

    fn refresh(&mut self) -> Result<(), ServiceError> {
        let mut step = CatalogRefresh::begin();
        loop {
            match step {
                Step::Done(outcome) => return outcome,
                Step::Ask(state, request) => {
                    let reply = self.backend.answer(request);
                    step = state.resume(reply, &mut self.cache, self.now);
                }
            }
        }
    }

    fn create_bucket(&mut self, name: &str) -> Result<Bucket, ServiceError> {
        let mut step = service::CreateBucket::begin(name, self.now, &self.cache);
        loop {
            match step {
                Step::Done(outcome) => return outcome,
                Step::Ask(state, request) => {
                    let reply = self.backend.answer(request);
                    step = state.resume(reply, &mut self.cache);
                }
            }
        }
    }

    fn upsert_bucket(&mut self, name: &str) -> Result<Bucket, ServiceError> {
        let mut step = service::UpsertBucket::begin(name, self.now, &self.cache);
        loop {
            match step {
                Step::Done(outcome) => return outcome,
                Step::Ask(state, request) => {
                    let reply = self.backend.answer(request);
                    step = state.resume(reply, &mut self.cache, self.now);
                }
            }
        }
    }

    fn delete_bucket(&mut self, name: &str) -> Result<(), ServiceError> {
        let mut step = service::DeleteBucket::begin(name, &self.cache);
        loop {
            match step {
                Step::Done(outcome) => return outcome,
                Step::Ask(state, request) => {
                    let reply = self.backend.answer(request);
                    step = state.resume(reply, &mut self.cache, self.now);
                }
            }
        }
    }

    fn get_bucket(&mut self, name: &str) -> Result<Bucket, ServiceError> {
        let mut step = GetBucket::begin(name, &self.cache);
        loop {
            match step {
                Step::Done(outcome) => return outcome,
                Step::Ask(state, request) => {
                    let reply = self.backend.answer(request);
                    step = state.resume(reply, &mut self.cache, self.now);
                }
            }
        }
    }

    fn get_bucket_by_id(&mut self, id: &str) -> Result<Bucket, ServiceError> {
        let mut step = GetBucketById::begin(id, &self.cache, self.now);
        loop {
            match step {
                Step::Done(outcome) => return outcome,
                Step::Ask(state, request) => {
                    let reply = self.backend.answer(request);
                    step = state.resume(reply, &mut self.cache, self.now);
                }
            }
        }
    }

    fn list_buckets(&mut self) -> Result<Vec<Bucket>, ServiceError> {
        let mut step = ListBuckets::begin(&self.cache, self.now);
        loop {
            match step {
                Step::Done(outcome) => return outcome,
                Step::Ask(state, request) => {
                    let reply = self.backend.answer(request);
                    step = state.resume(reply, &mut self.cache, self.now);
                }
            }
        }
    }

    fn locate(&mut self, bucket: &str, key: &str) -> Result<String, ServiceError> {
        let mut step = ObjectAccess::begin(bucket, key, &self.cache);
        loop {
            match step {
                Step::Done(outcome) => return outcome,
                Step::Ask(state, request) => {
                    let reply = self.backend.answer(request);
                    step = state.resume(reply, &mut self.cache, self.now);
                }
            }
        }
    }

    fn put_object(
        &mut self,
        bucket: &str,
        key: &str,
        body: &[u8],
        content_type: Option<&str>,
    ) -> Result<ObjectMetadata, ServiceError> {
        let full = self.locate(bucket, key)?;
        self.backend
            .put_object(&full, &[body], content_type.map(|t| t.to_string()), Vec::new(), self.now)
            .map_err(ServiceError::Backend)
    }

    fn get_object(
        &mut self,
        bucket: &str,
        key: &str,
    ) -> Result<(ObjectMetadata, Vec<u8>), ServiceError> {
        let full = self.locate(bucket, key)?;
        self.backend.get_object(&full).map_err(ServiceError::Backend)
    }

    fn head_object(&mut self, bucket: &str, key: &str) -> Result<ObjectMetadata, ServiceError> {
        let full = self.locate(bucket, key)?;
        self.backend.head_object(&full).map_err(ServiceError::Backend)
    }

    fn delete_object(&mut self, bucket: &str, key: &str) -> Result<(), ServiceError> {
        let full = self.locate(bucket, key)?;
        self.backend.delete_object(&full).map_err(ServiceError::Backend)
    }

    fn object_exists(&mut self, bucket: &str, key: &str) -> Result<bool, ServiceError> {
        let full = self.locate(bucket, key)?;
        exists_from_head(self.backend.head_object(&full)).map_err(ServiceError::Backend)
    }

    fn list_objects(
        &mut self,
        bucket: &str,
        prefix: Option<&str>,
        max_keys: Option<usize>,
    ) -> Result<Vec<ObjectMetadata>, ServiceError> {
        let mut step = ListObjects::begin(bucket, prefix, max_keys, &self.cache);
        loop {
            match step {
                Step::Done(outcome) => return outcome,
                Step::Ask(state, request) => {
                    let reply = self.backend.answer(request);
                    step = state.resume(reply, &mut self.cache, self.now);
                }
            }
        }
    }

    fn try_acquire_lock(
        &mut self,
        resource: &str,
        owner: &str,
        ttl_seconds: i64,
    ) -> Result<bool, ServiceError> {
        let mut step = TryAcquireLock::begin(resource, owner, ttl_seconds, self.now);
        loop {
            match step {
                Step::Done(outcome) => return outcome,
                Step::Ask(state, request) => {
                    let reply = self.backend.answer(request);
                    step = state.resume(reply);
                }
            }
        }
    }

    fn release_lock(&mut self, resource: &str, owner: &str) -> Result<(), ServiceError> {
        let mut step = ReleaseLock::begin(resource, owner);
        loop {
            match step {
                Step::Done(outcome) => return outcome,
                Step::Ask(state, request) => {
                    let reply = self.backend.answer(request);
                    step = state.resume(reply);
                }
            }
        }
    }

    fn cleanup_expired_locks(&mut self) -> Result<u64, ServiceError> {
        let mut step = CleanupExpiredLocks::begin(self.now);
        loop {
            match step {
                Step::Done(outcome) => return outcome,
                Step::Ask(state, request) => {
                    let reply = self.backend.answer(request);
                    step = state.resume(reply);
                }
            }
        }
    }
}

fn keys_of(objects: &[ObjectMetadata]) -> Vec<String> {
    objects.iter().map(|o| o.key.clone()).collect()
}

#[test]
fn test_create_and_list_buckets() {
    let mut gateway = Gateway::new();
    let bucket = gateway.create_bucket("test-bucket").unwrap();
    assert_eq!(bucket.name, "test-bucket");
    assert_eq!(bucket.id, generate_bucket_id("test-bucket"));
    assert_eq!(bucket.created_at, "2023-11-14T22:13:20+00:00");
    let buckets = gateway.list_buckets().unwrap();
    assert_eq!(buckets.len(), 1);
    assert_eq!(buckets[0].name, "test-bucket");
    assert!(matches!(
        gateway.backend.objects.get(".metadata/buckets/test-bucket.json"),
        Some(Stored::Bucket(b)) if *b == bucket
    ));
    assert!(matches!(
        gateway.backend.objects.get("test-bucket/.bucket"),
        Some(Stored::Object { body, .. }) if body.is_empty()
    ));
}

#[test]
fn test_put_and_get_object() {
    let mut gateway = Gateway::new();
    gateway.create_bucket("test-bucket").unwrap();
    let data = b"Hello, World!".to_vec();
    let metadata = gateway
        .put_object("test-bucket", "test.txt", &data, Some("text/plain"))
        .unwrap();
    assert_eq!(metadata.size, 13);
    assert_eq!(metadata.content_type.as_deref(), Some("text/plain"));
    let (found, body) = gateway.get_object("test-bucket", "test.txt").unwrap();
    assert_eq!(body, data);
    assert_eq!(found.size, 13);
    assert_eq!(found.content_type.as_deref(), Some("text/plain"));
    assert!(gateway.backend.objects.contains_key("test-bucket/test.txt"));
}

#[test]
fn put_then_get_round_trip() {
    let mut gateway = Gateway::new();
    gateway.create_bucket("round-trip").unwrap();
    for body in [&b""[..], &b"a"[..], &b"Hello, World!"[..], &[0u8, 255, 7, 7, 7][..]] {
        let put = gateway.put_object("round-trip", "k", body, None).unwrap();
        let (first, got) = gateway.get_object("round-trip", "k").unwrap();
        let (second, again) = gateway.get_object("round-trip", "k").unwrap();
        assert_eq!(got, body);
        assert_eq!(again, body);
        assert_eq!(first.size, body.len() as u64);
        assert_eq!(put.size, body.len() as u64);
        assert!(!first.etag.is_empty());
        assert_eq!(first.etag, second.etag);
        assert_eq!(first.etag, put.etag);
    }
}

#[test]
fn integration_test_test_delete_object() {
    let mut gateway = Gateway::new();
    gateway.create_bucket("test-bucket").unwrap();
    gateway.put_object("test-bucket", "test.txt", b"Hello", Some("text/plain")).unwrap();
    assert_eq!(gateway.delete_object("test-bucket", "test.txt"), Ok(()));
    let result = gateway.get_object("test-bucket", "test.txt");
    assert!(result.is_err());
    let error = result.unwrap_err();
    assert_eq!(error.status_code(), 404);
    assert_eq!(gateway.object_exists("test-bucket", "test.txt"), Ok(false));
}

#[test]
fn integration_test_test_list_objects() {
    let mut gateway = Gateway::new();
    gateway.create_bucket("test-bucket").unwrap();
    gateway.put_object("test-bucket", "file1.txt", b"Data1", None).unwrap();
    gateway.put_object("test-bucket", "file2.txt", b"Data2", None).unwrap();
    gateway.put_object("test-bucket", "subdir/file3.txt", b"Data3", None).unwrap();
    let all = gateway.list_objects("test-bucket", None, None).unwrap();
    assert_eq!(all.len(), 3);
    assert_eq!(keys_of(&all), vec!["file1.txt", "file2.txt", "subdir/file3.txt"]);
    let some = gateway.list_objects("test-bucket", Some("subdir/"), None).unwrap();
    assert_eq!(some.len(), 1);
    assert_eq!(some[0].key, "subdir/file3.txt");
    assert_eq!(some[0].size, 5);
}

#[test]
fn integration_test_test_head_object() {
    let mut gateway = Gateway::new();
    gateway.create_bucket("test-bucket").unwrap();
    gateway
        .put_object("test-bucket", "test.txt", b"Hello, World!", Some("text/plain"))
        .unwrap();
    let metadata = gateway.head_object("test-bucket", "test.txt").unwrap();
    let headers = object_store::api::object_headers(&metadata);
    assert_eq!(headers.content_length, "13");
    assert_eq!(headers.content_type.as_deref(), Some("text/plain"));
    assert_eq!(
        headers.etag,
        "dffd6021bb2bd5b0af676290809ec3a53191dd81c7f70a4b28688a362182986f"
    );
    assert_eq!(headers.last_modified.as_deref(), Some("Tue, 14 Nov 2023 22:13:20 +0000"));
}

#[test]
fn test_invalid_bucket_name() {
    let mut gateway = Gateway::new();
    let result = gateway.create_bucket("Invalid-Name");
    assert!(result.is_err());
    assert_eq!(
        result,
        Err(ServiceError::InvalidBucketName("Invalid bucket name: Invalid-Name".to_string()))
    );
    assert_eq!(result.unwrap_err().status_code(), 400);
    let result = gateway.create_bucket("-invalid");
    assert!(result.is_err());
    assert!(gateway.backend.requests.iter().all(|r| matches!(r, Request::List { .. })));
}

#[test]
fn test_bucket_already_exists() {
    let mut gateway = Gateway::new();
    gateway.create_bucket("test-bucket").unwrap();
    let result = gateway.create_bucket("test-bucket");
    assert!(result.is_err());
    assert_eq!(result, Err(ServiceError::BucketAlreadyExists("test-bucket".to_string())));
    assert_eq!(result.unwrap_err().status_code(), 409);
    let records = gateway
        .backend
        .objects
        .keys()
        .filter(|k| k.starts_with(".metadata/buckets/"))
        .count();
    assert_eq!(records, 1);
}

#[test]
fn test_object_not_found() {
    let mut gateway = Gateway::new();
    gateway.create_bucket("test-bucket").unwrap();
    let result = gateway.get_object("test-bucket", "nonexistent.txt");
    assert_eq!(
        result.unwrap_err(),
        ServiceError::Backend(BackendError::NotFound("test-bucket/nonexistent.txt".to_string()))
    );
    assert_eq!(gateway.head_object("test-bucket", "nonexistent.txt").unwrap_err().status_code(), 404);
}

#[test]
fn test_path_traversal_protection() {
    let mut gateway = Gateway::new();
    gateway.create_bucket("test-bucket").unwrap();
    let before = gateway.backend.objects.len();
    let result = gateway.put_object("test-bucket", "../etc/passwd", b"malicious", None);
    assert!(result.is_err());
    assert_eq!(
        result,
        Err(ServiceError::InvalidObjectKey("Invalid key: ../etc/passwd".to_string()))
    );
    assert_eq!(result.unwrap_err().status_code(), 400);
    assert_eq!(gateway.backend.objects.len(), before);
}

#[test]
fn test_concurrent_bucket_creation() {
    let mut gateway = Gateway::new();
    let mut success_count = 0;
    for i in 0..10 {
        if gateway.create_bucket(&format!("concurrent-{}", i)).is_ok() {
            success_count += 1;
        }
    }
    assert_eq!(success_count, 10, "All 10 bucket creations should succeed");
    let buckets = gateway.list_buckets().unwrap();
    assert_eq!(buckets.len(), 10, "Should have 10 buckets");
    let dup_result = gateway.create_bucket("concurrent-0");
    assert!(dup_result.is_err(), "Duplicate bucket creation should fail");
}

#[test]
fn test_concurrent_writes() {
    let mut gateway = Gateway::new();
    gateway.create_bucket("load-test-bucket").unwrap();
    let mut success_count = 0;
    for i in 0..100 {
        let key = format!("file-{}.txt", i);
        let data = format!("Data for file {}", i);
        if gateway
            .put_object("load-test-bucket", &key, data.as_bytes(), Some("text/plain"))
            .is_ok()
        {
            success_count += 1;
        }
    }
    assert_eq!(success_count, 100);
    assert_eq!(gateway.list_objects("load-test-bucket", None, None).unwrap().len(), 100);
    assert_eq!(gateway.list_objects("load-test-bucket", None, Some(7)).unwrap().len(), 6);
}

#[test]
fn test_distributed_locking() {
    let mut gateway = Gateway::new();
    let mut successful = 0;
    for i in 0..50 {
        if gateway.try_acquire_lock("test-resource", &format!("worker-{}", i), 5).unwrap() {
            successful += 1;
        }
    }
    assert!(successful >= 1);
    assert_eq!(successful, 1);
}

#[test]
fn test_stress_bucket_operations() {
    let mut gateway = Gateway::new();
    for i in 0..20 {
        gateway.create_bucket(&format!("stress-bucket-{}", i)).unwrap();
    }
    for _ in 0..50 {
        assert_eq!(gateway.list_buckets().unwrap().len(), 20);
    }
    assert_eq!(gateway.list_buckets().unwrap().len(), 20);
}

#[test]
fn bucket_conflict_on_second_create() {
    let mut gateway = Gateway::new();
    assert!(gateway.create_bucket("dup").is_ok());
    assert_eq!(
        gateway.create_bucket("dup"),
        Err(ServiceError::BucketAlreadyExists("dup".to_string()))
    );
}

#[test]
fn create_finds_a_record_the_cache_does_not_know() {
    let mut gateway = Gateway::new();
    let foreign = Bucket {
        id: generate_bucket_id("shared"),
        name: "shared".to_string(),
        created_at: "2020-01-01T00:00:00+00:00".to_string(),
    };
    gateway
        .backend
        .objects
        .insert(".metadata/buckets/shared.json".to_string(), Stored::Bucket(foreign.clone()));
    assert!(gateway.cache.get("shared").is_none());
    assert_eq!(
        gateway.create_bucket("shared"),
        Err(ServiceError::BucketAlreadyExists("shared".to_string()))
    );
    assert_eq!(gateway.cache.get("shared"), Some(&foreign));
    assert!(matches!(
        gateway.backend.objects.get(".metadata/buckets/shared.json"),
        Some(Stored::Bucket(b)) if *b == foreign
    ));
    assert!(!gateway.backend.requests.iter().any(|r| matches!(r, Request::WriteBucket { .. })));
}

#[test]
fn create_reports_a_failed_write_and_leaves_the_cache() {
    let mut gateway = Gateway::new();
    gateway.backend.fail_writes = true;
    assert_eq!(
        gateway.create_bucket("photos"),
        Err(ServiceError::Backend(BackendError::Provider("disk full".to_string())))
    );
    assert!(gateway.cache.get("photos").is_none());
}

#[test]
fn create_reports_a_record_that_cannot_be_decoded() {
    let mut gateway = Gateway::new();
    gateway.backend.objects.insert(".metadata/buckets/photos.json".to_string(), Stored::Garbage);
    assert_eq!(
        gateway.create_bucket("photos"),
        Err(ServiceError::Internal("JSON error: expected value at line 1".to_string()))
    );
}

#[test]
fn get_bucket_goes_through_three_tiers() {
    let mut gateway = Gateway::new();
    let bucket = gateway.create_bucket("tiers").unwrap();
    // first tier: the cache
    gateway.backend.requests.clear();
    assert_eq!(gateway.get_bucket("tiers"), Ok(bucket.clone()));
    assert!(gateway.backend.requests.is_empty());
    // second tier: the bucket's own record
    gateway.cache.remove("tiers");
    assert_eq!(gateway.get_bucket("tiers"), Ok(bucket.clone()));
    assert_eq!(
        gateway.backend.requests,
        vec![Request::ReadRecord {
            key: ".metadata/buckets/tiers.json".to_string(),
            kind: RecordKind::Bucket,
            mode: ReadMode::Strict,
        }]
    );
    assert_eq!(gateway.cache.get("tiers"), Some(&bucket));
    // third tier: a reload, then not found
    gateway.backend.requests.clear();
    assert_eq!(
        gateway.get_bucket("absent"),
        Err(ServiceError::BucketNotFound("absent".to_string()))
    );
    assert_eq!(gateway.backend.requests.len(), 3);
    assert!(matches!(&gateway.backend.requests[1], Request::List { prefix, max_keys: None }
        if prefix == ".metadata/buckets"));
    assert_eq!(
        gateway.backend.requests[2],
        Request::ReadRecord {
            key: ".metadata/buckets/tiers.json".to_string(),
            kind: RecordKind::Bucket,
            mode: ReadMode::SkipBrokenChunks,
        }
    );
}

#[test]
fn third_tier_finds_a_record_filed_under_another_key() {
    let mut gateway = Gateway::new();
    let odd = Bucket {
        id: generate_bucket_id("odd"),
        name: "odd".to_string(),
        created_at: "2020-01-01T00:00:00+00:00".to_string(),
    };
    gateway
        .backend
        .objects
        .insert(".metadata/buckets/elsewhere.json".to_string(), Stored::Bucket(odd.clone()));
    assert_eq!(gateway.get_bucket("odd"), Ok(odd));
}

#[test]
fn get_bucket_by_id_searches_then_reloads() {
    let mut gateway = Gateway::new();
    let a = gateway.create_bucket("alpha").unwrap();
    let b = gateway.create_bucket("bravo").unwrap();
    assert_eq!(gateway.get_bucket_by_id(&b.id), Ok(b));
    assert_eq!(gateway.get_bucket_by_id(&a.id), Ok(a.clone()));
    assert_eq!(
        gateway.get_bucket_by_id("not-an-identifier"),
        Err(ServiceError::BucketNotFound("id: not-an-identifier".to_string()))
    );
    // a bucket that only the backend knows is found by the reload
    let c = Bucket {
        id: generate_bucket_id("charlie"),
        name: "charlie".to_string(),
        created_at: "2020-01-01T00:00:00+00:00".to_string(),
    };
    gateway
        .backend
        .objects
        .insert(".metadata/buckets/charlie.json".to_string(), Stored::Bucket(c.clone()));
    assert_eq!(gateway.get_bucket_by_id(&c.id), Ok(c));
    // an expired cache is reloaded before the first search
    gateway.cache.remove("alpha");
    gateway.now = at(1_700_000_000 + 61);
    gateway.backend.requests.clear();
    assert_eq!(gateway.get_bucket_by_id(&a.id), Ok(a));
    assert!(matches!(gateway.backend.requests[0], Request::List { .. }));
}

#[test]
fn list_buckets_is_newest_first_and_reloads_when_stale() {
    let mut gateway = Gateway::new();
    gateway.now = at(1_700_000_010);
    gateway.create_bucket("first").unwrap();
    gateway.now = at(1_700_000_030);
    gateway.create_bucket("third").unwrap();
    gateway.now = at(1_700_000_020);
    gateway.create_bucket("second").unwrap();
    let names: Vec<String> =
        gateway.list_buckets().unwrap().into_iter().map(|b| b.name).collect();
    assert_eq!(names, vec!["third", "second", "first"]);
    // within the TTL the cache is trusted
    gateway.backend.objects.remove(".metadata/buckets/second.json");
    gateway.now = at(1_700_000_000 + 60);
    assert_eq!(gateway.list_buckets().unwrap().len(), 3);
    // past the TTL it is reloaded
    gateway.now = at(1_700_000_000 + 61);
    let names: Vec<String> =
        gateway.list_buckets().unwrap().into_iter().map(|b| b.name).collect();
    assert_eq!(names, vec!["third", "first"]);
}

#[test]
fn reload_tolerates_bad_records_unless_nothing_loads() {
    let mut gateway = Gateway::new();
    gateway.create_bucket("good").unwrap();
    gateway.backend.objects.insert(".metadata/buckets/bad.json".to_string(), Stored::Garbage);
    assert_eq!(gateway.refresh(), Ok(()));
    assert_eq!(gateway.cache.len(), 1);
    gateway.backend.objects.remove(".metadata/buckets/good.json");
    gateway.backend.objects.insert(".metadata/buckets/worse.json".to_string(), Stored::Garbage);
    assert_eq!(
        gateway.refresh(),
        Err(ServiceError::Internal("Failed to load any buckets (2 errors)".to_string()))
    );
    assert_eq!(gateway.cache.len(), 1);
    gateway.backend.fail_lists = true;
    assert_eq!(
        gateway.refresh(),
        Err(ServiceError::Backend(BackendError::Provider("unreachable".to_string())))
    );
}

#[test]
fn reload_of_a_missing_catalog_is_empty() {
    let mut cache = BucketCache::new(at(100));
    let step = CatalogRefresh::begin();
    let state = match step {
        Step::Ask(state, request) => {
            assert_eq!(
                request,
                Request::List { prefix: ".metadata/buckets".to_string(), max_keys: None }
            );
            state
        }
        Step::Done(_) => panic!("a reload starts by listing"),
    };
    let reply = Reply::Listed(Err(BackendError::NotFound("bucket:data".to_string())));
    match state.resume(reply, &mut cache, at(200)) {
        Step::Done(Ok(())) => {}
        _ => panic!("a missing catalog is an empty one"),
    }
    assert_eq!(cache.len(), 0);
    assert!(!cache.is_expired(at(260)));
    assert!(cache.is_expired(at(261)));
}

#[test]
fn upsert_returns_the_existing_bucket_or_creates_it() {
    let mut gateway = Gateway::new();
    let created = gateway.upsert_bucket("photos").unwrap();
    assert_eq!(created.name, "photos");
    gateway.now = at(1_800_000_000);
    let again = gateway.upsert_bucket("photos").unwrap();
    assert_eq!(again, created);
    assert_eq!(
        gateway.upsert_bucket("No"),
        Err(ServiceError::InvalidBucketName("Invalid bucket name: No".to_string()))
    );
}

#[test]
fn delete_bucket_refuses_while_objects_remain() {
    let mut gateway = Gateway::new();
    gateway.create_bucket("photos").unwrap();
    gateway.put_object("photos", "cat.jpg", b"meow", None).unwrap();
    let refused = gateway.delete_bucket("photos");
    assert_eq!(
        refused,
        Err(ServiceError::Internal("Bucket photos is not empty".to_string()))
    );
    assert_eq!(refused.unwrap_err().status_code(), 500);
    assert!(gateway.backend.objects.contains_key(".metadata/buckets/photos.json"));
    gateway.delete_object("photos", "cat.jpg").unwrap();
    assert_eq!(gateway.delete_bucket("photos"), Ok(()));
    assert!(!gateway.backend.objects.contains_key(".metadata/buckets/photos.json"));
    assert!(!gateway.backend.objects.contains_key("photos/.bucket"));
    assert!(gateway.cache.get("photos").is_none());
    assert_eq!(
        gateway.delete_bucket("photos"),
        Err(ServiceError::BucketNotFound("photos".to_string()))
    );
    assert_eq!(gateway.create_bucket("photos").map(|b| b.name), Ok("photos".to_string()));
}

#[test]
fn delete_bucket_does_not_mind_a_missing_marker() {
    let mut gateway = Gateway::new();
    gateway.create_bucket("photos").unwrap();
    gateway.backend.objects.remove("photos/.bucket");
    assert_eq!(gateway.delete_bucket("photos"), Ok(()));
}

#[test]
fn object_operations_need_the_bucket_first() {
    let mut gateway = Gateway::new();
    assert_eq!(
        gateway.put_object("nowhere", "../x", b"", None),
        Err(ServiceError::BucketNotFound("nowhere".to_string()))
    );
    assert_eq!(
        gateway.list_objects("nowhere", None, None),
        Err(ServiceError::BucketNotFound("nowhere".to_string()))
    );
    gateway.create_bucket("here").unwrap();
    assert_eq!(gateway.locate("here", "a/b.txt"), Ok("here/a/b.txt".to_string()));
    assert_eq!(
        gateway.locate("here", ""),
        Err(ServiceError::InvalidObjectKey("Key cannot be empty".to_string()))
    );
    assert_eq!(
        gateway.locate("here", ".bucket"),
        Err(ServiceError::InvalidObjectKey(".bucket is a reserved name".to_string()))
    );
    assert_eq!(
        gateway.locate("here", "/etc/passwd"),
        Err(ServiceError::InvalidObjectKey("Invalid key: /etc/passwd".to_string()))
    );
}

#[test]
fn listing_hides_markers_and_strips_the_bucket() {
    let mut gateway = Gateway::new();
    gateway.create_bucket("aaa").unwrap();
    gateway.create_bucket("aab").unwrap();
    gateway.put_object("aaa", "x", b"1", None).unwrap();
    gateway.put_object("aaa", "dir/y", b"22", None).unwrap();
    gateway.put_object("aaa", "dir/.bucket", b"333", None).unwrap();
    gateway.put_object("aab", "x", b"4444", None).unwrap();
    let all = gateway.list_objects("aaa", None, None).unwrap();
    assert_eq!(keys_of(&all), vec!["dir/y", "x"]);
    assert!(all.iter().all(|o| o.key != ".bucket"));
    assert_eq!(keys_of(&gateway.list_objects("aaa", Some("d"), None).unwrap()), vec!["dir/y"]);
    assert_eq!(keys_of(&gateway.list_objects("aaa", Some("z"), None).unwrap()), Vec::<String>::new());
    assert_eq!(keys_of(&gateway.list_objects("aab", None, None).unwrap()), vec!["x"]);
    assert_eq!(gateway.list_objects("aab", None, None).unwrap()[0].size, 4);
    assert_eq!(gateway.list_objects("aaa", None, Some(0)).unwrap().len(), 0);
    gateway.backend.fail_lists = true;
    assert_eq!(
        gateway.list_objects("aaa", None, None),
        Err(ServiceError::Backend(BackendError::Provider("unreachable".to_string())))
    );
}

#[test]
fn lock_is_held_until_it_expires() {
    let mut gateway = Gateway::new();
    assert_eq!(gateway.try_acquire_lock("compaction", "alice", 30), Ok(true));
    match gateway.backend.objects.get(".metadata/locks/compaction") {
        Some(Stored::Lock(lock)) => {
            assert_eq!(lock.resource, "compaction");
            assert_eq!(lock.owner, "alice");
            assert_eq!(lock.acquired_at, at(1_700_000_000));
            assert_eq!(lock.expires_at, at(1_700_000_030));
        }
        _ => panic!("the lock record is missing"),
    }
    gateway.now = at(1_700_000_029);
    assert_eq!(gateway.try_acquire_lock("compaction", "bob", 30), Ok(false));
    assert_eq!(gateway.try_acquire_lock("compaction", "alice", 30), Ok(false));
    assert_eq!(gateway.cleanup_expired_locks(), Ok(0));
    // at the instant of expiry the lock is neither held nor swept
    gateway.now = at(1_700_000_030);
    assert_eq!(gateway.cleanup_expired_locks(), Ok(0));
    gateway.now = at(1_700_000_031);
    assert_eq!(gateway.cleanup_expired_locks(), Ok(1));
    assert!(!gateway.backend.objects.contains_key(".metadata/locks/compaction"));
    assert_eq!(gateway.try_acquire_lock("compaction", "bob", 30), Ok(true));
}

#[test]
fn lapsed_lock_is_taken_over_without_a_sweep() {
    let mut gateway = Gateway::new();
    assert_eq!(gateway.try_acquire_lock("r", "alice", 5), Ok(true));
    gateway.now = Timestamp::new(1_700_000_004, 999_999_999);
    assert_eq!(gateway.try_acquire_lock("r", "bob", 5), Ok(false));
    gateway.now = at(1_700_000_005);
    assert_eq!(gateway.try_acquire_lock("r", "bob", 5), Ok(true));
    match gateway.backend.objects.get(".metadata/locks/r") {
        Some(Stored::Lock(lock)) => assert_eq!(lock.owner, "bob"),
        _ => panic!("the lock record is missing"),
    }
}

#[test]
fn release_checks_the_owner() {
    let mut gateway = Gateway::new();
    assert_eq!(gateway.release_lock("r", "anyone"), Ok(()));
    assert_eq!(gateway.try_acquire_lock("r", "alice", 60), Ok(true));
    assert_eq!(
        gateway.release_lock("r", "bob"),
        Err(ServiceError::LockAcquisition("Cannot release lock owned by alice".to_string()))
    );
    assert!(gateway.backend.objects.contains_key(".metadata/locks/r"));
    assert_eq!(gateway.release_lock("r", "alice"), Ok(()));
    assert!(!gateway.backend.objects.contains_key(".metadata/locks/r"));
    assert_eq!(gateway.try_acquire_lock("r", "bob", 60), Ok(true));
}

#[test]
fn lock_operations_pass_failures_on() {
    let mut gateway = Gateway::new();
    gateway.backend.objects.insert(".metadata/locks/r".to_string(), Stored::Garbage);
    assert_eq!(
        gateway.try_acquire_lock("r", "alice", 60),
        Err(ServiceError::Internal("JSON error: expected value at line 1".to_string()))
    );
    assert_eq!(
        gateway.release_lock("r", "alice"),
        Err(ServiceError::Internal("JSON error: expected value at line 1".to_string()))
    );
    assert_eq!(gateway.cleanup_expired_locks(), Ok(0));
    gateway.backend.objects.clear();
    gateway.backend.fail_writes = true;
    assert_eq!(
        gateway.try_acquire_lock("r", "alice", 60),
        Err(ServiceError::Backend(BackendError::Provider("disk full".to_string())))
    );
    gateway.backend.fail_lists = true;
    assert_eq!(
        gateway.cleanup_expired_locks(),
        Err(ServiceError::Backend(BackendError::Provider("unreachable".to_string())))
    );
}

#[test]
fn sweep_counts_only_what_it_deleted() {
    let mut gateway = Gateway::new();
    for (name, ttl) in [("a", 10), ("b", 20), ("c", 30), ("d", 40)] {
        assert_eq!(gateway.try_acquire_lock(name, "owner", ttl), Ok(true));
    }
    gateway.backend.objects.insert(".metadata/locks/junk".to_string(), Stored::Garbage);
    gateway.now = at(1_700_000_025);
    assert_eq!(gateway.cleanup_expired_locks(), Ok(2));
    let left: Vec<&String> =
        gateway.backend.objects.keys().filter(|k| k.starts_with(".metadata/locks/")).collect();
    assert_eq!(left, vec![".metadata/locks/c", ".metadata/locks/d", ".metadata/locks/junk"]);
}

#[test]
fn a_reply_of_the_wrong_kind_ends_the_operation() {
    let mut cache = BucketCache::new(at(100));
    let state = match GetBucket::begin("photos", &cache) {
        Step::Ask(state, _) => state,
        Step::Done(_) => panic!("an unknown bucket is looked up in the backend"),
    };
    match state.resume(Reply::Deleted(Ok(())), &mut cache, at(100)) {
        Step::Done(Err(e)) => {
            assert_eq!(e, ServiceError::Internal("Unexpected reply from the backend".to_string()));
            assert_eq!(e, catalog::protocol_error());
        }
        _ => panic!("a reply of the wrong kind is an error"),
    }
    let state = match TryAcquireLock::begin("r", "o", 1, at(0)) {
        Step::Ask(state, _) => state,
        Step::Done(_) => panic!("acquiring starts by reading"),
    };
    assert!(matches!(
        state.resume(Reply::Listed(Ok(Vec::new()))),
        Step::Done(Err(ServiceError::Internal(_)))
    ));
}

#[test]
fn creation_time_must_have_a_date() {
    let mut cache = BucketCache::new(at(0));
    let dateless = Timestamp::new(i64::MAX, 0);
    let missing =
        || Reply::Bucket(Err(ReadFailure::Backend(BackendError::NotFound("k".to_string()))));
    let state = match catalog::CreateBucket::begin("photos", dateless, &cache) {
        Step::Ask(state, _) => state,
        Step::Done(_) => panic!("an unknown bucket is looked up first"),
    };
    match state.resume(missing(), &mut cache) {
        Step::Done(Err(e)) => {
            assert_eq!(e, ServiceError::Internal("Creation time is out of range".to_string()))
        }
        _ => panic!("a time without a date cannot be recorded"),
    }
    match catalog::CreateBucket::begin("P", dateless, &cache) {
        Step::Done(Err(e)) => {
            assert_eq!(e, ServiceError::InvalidBucketName("Invalid bucket name: P".to_string()))
        }
        _ => panic!("the name is checked first"),
    }
    // an existing bucket is refused whatever the time
    let state = match catalog::CreateBucket::begin("photos", dateless, &cache) {
        Step::Ask(state, _) => state,
        Step::Done(_) => panic!("an unknown bucket is looked up first"),
    };
    let existing = Bucket {
        id: generate_bucket_id("photos"),
        name: "photos".to_string(),
        created_at: "2020-01-01T00:00:00+00:00".to_string(),
    };
    let state = match state.resume(Reply::Bucket(Ok(existing.clone())), &mut cache) {
        Step::Ask(state, request) => {
            assert!(matches!(request, Request::ReadRecord { .. }));
            state
        }
        Step::Done(_) => panic!("the record is read once more"),
    };
    match state.resume(Reply::Bucket(Ok(existing)), &mut cache) {
        Step::Done(Err(e)) => {
            assert_eq!(e, ServiceError::BucketAlreadyExists("photos".to_string()))
        }
        _ => panic!("an existing bucket is not created again"),
    }
    match catalog::CreateBucket::begin("photos", dateless, &cache) {
        Step::Done(Err(e)) => {
            assert_eq!(e, ServiceError::BucketAlreadyExists("photos".to_string()))
        }
        _ => panic!("the cache has learnt of the bucket"),
    }
    // a creation at an ordinary time goes on to write
    let mut fresh = BucketCache::new(at(0));
    for secs in [-62_167_219_200i64, 0, 1_700_000_000, 253_402_300_799] {
        let state = match catalog::CreateBucket::begin("photos", at(secs), &fresh) {
            Step::Ask(state, _) => state,
            Step::Done(_) => panic!("an unknown bucket is looked up first"),
        };
        assert!(matches!(
            state.resume(missing(), &mut fresh),
            Step::Ask(_, Request::WriteBucket { .. })
        ));
    }
}

#[test]
fn test_concurrent_reads() {
    let mut gateway = Gateway::new();
    gateway.create_bucket("load-test-bucket").unwrap();
    let num_files = 50;
    for i in 0..num_files {
        let key = format!("file-{}.txt", i);
        let data = format!("Data for file {}", i).into_bytes();
        gateway.put_object("load-test-bucket", &key, &data, Some("text/plain")).unwrap();
    }
    let num_reads = 200;
    let mut success_count = 0;
    for i in 0..num_reads {
        let key = format!("file-{}.txt", i % num_files);
        if let Ok((_, body)) = gateway.get_object("load-test-bucket", &key) {
            assert_eq!(body, format!("Data for file {}", i % num_files).into_bytes());
            success_count += 1;
        }
    }
    assert_eq!(success_count, num_reads);
}

#[test]
fn test_mixed_operations() {
    let mut gateway = Gateway::new();
    gateway.create_bucket("load-test-bucket").unwrap();
    let num_operations = 150;
    let mut success_count = 0;
    for i in 0..num_operations {
        let outcome = match i % 3 {
            0 => {
                let key = format!("file-{}.txt", i);
                let data = format!("Data {}", i).into_bytes();
                gateway
                    .put_object("load-test-bucket", &key, &data, Some("text/plain"))
                    .map(|_| ())
            }
            1 => {
                let key = format!("file-{}.txt", i - 1);
                match gateway.get_object("load-test-bucket", &key) {
                    Ok(_) => Ok(()),
                    Err(ServiceError::ObjectNotFound(_)) => Ok(()),
                    Err(ServiceError::Backend(BackendError::NotFound(_))) => Ok(()),
                    Err(e) => Err(e),
                }
            }
            _ => gateway.list_objects("load-test-bucket", None, Some(10)).map(|_| ()),
        };
        if outcome.is_ok() {
            success_count += 1;
        }
    }
    assert!(success_count > num_operations * 9 / 10);
    assert_eq!(success_count, num_operations);
}

#[test]
fn test_large_file_handling() {
    let mut gateway = Gateway::new();
    gateway.create_bucket("load-test-bucket").unwrap();
    let sizes = [1024, 1024 * 1024, 5 * 1024 * 1024];
    for (i, size) in sizes.iter().enumerate() {
        let data = vec![0u8; *size];
        let key = format!("large-file-{}.bin", i);
        let stored = gateway
            .put_object("load-test-bucket", &key, &data, Some("application/octet-stream"))
            .unwrap();
        assert_eq!(stored.size, *size as u64);
        let (_, body) = gateway.get_object("load-test-bucket", &key).unwrap();
        assert_eq!(body.len(), *size);
    }
}

#[test]
fn a_failed_write_is_reported_by_its_kind() {
    let mut cache = BucketCache::new(at(0));
    let missing =
        || Reply::Bucket(Err(ReadFailure::Backend(BackendError::NotFound("k".to_string()))));
    let saving = |cache: &mut BucketCache| {
        let state = match catalog::CreateBucket::begin("photos", at(0), cache) {
            Step::Ask(state, _) => state,
            Step::Done(_) => panic!("an unknown bucket is looked up first"),
        };
        match state.resume(missing(), cache) {
            Step::Ask(state, _) => state,
            Step::Done(_) => panic!("a missing record is written"),
        }
    };
    let encode = Reply::Written(Err(WriteFailure::Encode("key must be a string".to_string())));
    match saving(&mut cache).resume(encode, &mut cache) {
        Step::Done(Err(e)) => {
            assert_eq!(e, ServiceError::Internal("JSON error: key must be a string".to_string()))
        }
        _ => panic!("a record that cannot be encoded is not stored"),
    }
    let refused = Reply::Written(Err(WriteFailure::Backend(BackendError::Io("full".to_string()))));
    match saving(&mut cache).resume(refused, &mut cache) {
        Step::Done(Err(e)) => {
            assert_eq!(e, ServiceError::Backend(BackendError::Io("full".to_string())))
        }
        _ => panic!("a refused write fails the creation"),
    }
    assert!(cache.get("photos").is_none());
}

#[test]
fn a_broken_chunk_fails_a_strict_read_only() {
    assert_eq!(
        broken_chunk(ReadMode::Strict, "connection reset".to_string()),
        Some(ReadFailure::Stream("connection reset".to_string()))
    );
    assert_eq!(broken_chunk(ReadMode::SkipBrokenChunks, "connection reset".to_string()), None);
}
