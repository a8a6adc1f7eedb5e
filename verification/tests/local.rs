use object_store::backend::{ObjectMetadata, PublicUrlPurpose};
use object_store::error::BackendError;
use object_store::instant::Timestamp;
use object_store::local::{missing_object, ListWalk, LocalBackend, PutProgress};
use std::collections::BTreeMap;

fn backend() -> LocalBackend {
    LocalBackend::new("/var/data".to_string(), "test-bucket".to_string())
}

/// The files of a disk, by path, and a backend over them that follows the
/// library's rules for paths, uploads and listings.
struct Disk {
    files: BTreeMap<String, Vec<u8>>,
    rules: LocalBackend,
}

impl Disk {
    fn new() -> Self {
        Disk { files: BTreeMap::new(), rules: backend() }
    }

    fn put_object(
        &mut self,
        key: &str,
        chunks: &[&[u8]],
        content_type: Option<String>,
    ) -> Result<ObjectMetadata, BackendError> {
        let object_path = self.rules.get_full_path(key)?;
        let meta_path = self.rules.get_metadata_path(key)?;
        let mut progress = PutProgress::new();
        let mut body = Vec::new();
        for chunk in chunks {
            assert!(progress.has_room_for(chunk.len()));
            progress.absorb(chunk);
            body.extend_from_slice(chunk);
        }
        let metadata =
            progress.finish(key, content_type, Vec::new(), Timestamp::new(1_700_000_000, 0));
        self.files.insert(object_path, body);
        self.files.insert(meta_path, metadata.etag.clone().into_bytes());
        Ok(metadata)
    }

    fn get_object(&self, key: &str) -> Result<Vec<u8>, BackendError> {
        let object_path = self.rules.get_full_path(key)?;
        match self.files.get(&object_path) {
            Some(body) => Ok(body.clone()),
            None => Err(missing_object(key)),
        }
    }

    fn delete_object(&mut self, key: &str) -> Result<(), BackendError> {
        let object_path = self.rules.get_full_path(key)?;
        let meta_path = self.rules.get_metadata_path(key)?;
        if self.files.remove(&object_path).is_none() {
            return Err(missing_object(key));
        }
        self.files.remove(&meta_path);
        Ok(())
    }

    fn list_objects(&self, prefix: &str, max_keys: Option<usize>) -> Vec<String> {
        let lead = format!("{}/", self.rules.bucket_path());
        let mut walk = ListWalk::new(prefix, max_keys);
        for (path, body) in self.files.iter() {
            if !walk.wants_more() {
                break;
            }
            if let Some(key) = path.strip_prefix(&lead) {
                if walk.admits_entry(key) {
                    let mut progress = PutProgress::new();
                    progress.absorb(body);
                    walk.push(progress.finish(key, None, Vec::new(), Timestamp::new(0, 0)));
                }
            }
        }
        walk.finish().into_iter().map(|m| m.key).collect()
    }
}

#[test]
fn test_local_backend_put_get() {
    let mut disk = Disk::new();
    let data = b"Hello, World!".to_vec();
    let data_clone = data.clone();
    let metadata = disk.put_object("test.txt", &[&data], Some("text/plain".to_string())).unwrap();
    assert_eq!(metadata.key, "test.txt");
    assert_eq!(metadata.size, 13);
    assert_eq!(
        metadata.etag,
        "dffd6021bb2bd5b0af676290809ec3a53191dd81c7f70a4b28688a362182986f"
    );
    assert_eq!(metadata.content_type.as_deref(), Some("text/plain"));
    assert_eq!(metadata.last_modified, Timestamp::new(1_700_000_000, 0));
    let collected = disk.get_object("test.txt").unwrap();
    assert_eq!(collected, data_clone);
    assert!(disk.files.contains_key("/var/data/test-bucket/test.txt"));
    assert!(disk.files.contains_key("/var/data/test-bucket/test.txt.meta.json"));
}

#[test]
fn test_local_backend_delete() {
    let mut disk = Disk::new();
    let data = b"Hello, World!".to_vec();
    disk.put_object("test.txt", &[&data], Some("text/plain".to_string())).unwrap();
    disk.delete_object("test.txt").unwrap();
    let result = disk.get_object("test.txt");
    assert!(matches!(result, Err(BackendError::NotFound(_))));
    assert_eq!(result, Err(BackendError::NotFound("test.txt".to_string())));
    assert!(disk.files.is_empty());
    assert_eq!(
        disk.delete_object("test.txt"),
        Err(BackendError::NotFound("test.txt".to_string()))
    );
}

#[test]
fn test_path_traversal_prevention() {
    let mut disk = Disk::new();
    let result = disk.put_object("../etc/passwd", &[&[1, 2, 3]], None);
    assert!(matches!(result, Err(BackendError::InvalidPath(_))));
    assert_eq!(
        result,
        Err(BackendError::InvalidPath("Invalid key: ../etc/passwd".to_string()))
    );
    assert!(disk.files.is_empty());
    assert_eq!(
        backend().get_metadata_path("../etc/passwd"),
        Err(BackendError::InvalidPath("Invalid key: ../etc/passwd".to_string()))
    );
    assert_eq!(
        backend().get_full_path("/etc/passwd"),
        Err(BackendError::InvalidPath("Invalid key: /etc/passwd".to_string()))
    );
    assert_eq!(
        backend().get_full_path("a/b/../../../c"),
        Err(BackendError::InvalidPath("Invalid key: a/b/../../../c".to_string()))
    );
}

#[test]
fn listing_goes_by_the_prefix_of_the_key() {
    let mut disk = Disk::new();
    for key in ["file1.txt", "file2.txt", "subdir/file3.txt", "data.json", "other"] {
        disk.put_object(key, &[b"x"], None).unwrap();
    }
    assert_eq!(disk.list_objects("fi", None), vec!["file1.txt", "file2.txt"]);
    assert_eq!(disk.list_objects("file1.txt", None), vec!["file1.txt"]);
    assert_eq!(disk.list_objects("subdir/", None), vec!["subdir/file3.txt"]);
    assert_eq!(disk.list_objects("sub", None), vec!["subdir/file3.txt"]);
    assert_eq!(
        disk.list_objects("", None),
        vec!["data.json", "file1.txt", "file2.txt", "other", "subdir/file3.txt"]
    );
    assert_eq!(disk.list_objects("", Some(2)), vec!["data.json", "file1.txt"]);
    assert_eq!(disk.list_objects("fi", Some(1)), vec!["file1.txt"]);
    assert_eq!(disk.list_objects("", Some(0)), Vec::<String>::new());
    assert_eq!(disk.list_objects("zzz", None), Vec::<String>::new());
}

#[test]
fn paths_lie_under_the_bucket() {
    let b = backend();
    assert_eq!(b.root_path, "/var/data");
    assert_eq!(b.bucket_name, "test-bucket");
    assert_eq!(b.bucket_path(), "/var/data/test-bucket");
    assert_eq!(b.get_full_path("a/b.txt").unwrap(), "/var/data/test-bucket/a/b.txt");
    assert_eq!(
        b.get_metadata_path("a/b.txt").unwrap(),
        "/var/data/test-bucket/a/b.txt.meta.json"
    );
    assert_eq!(b.get_metadata_path("plain").unwrap(), "/var/data/test-bucket/plain.meta.json");
    assert_eq!(b.get_full_path("").unwrap(), "/var/data/test-bucket/");
    assert_eq!(b.get_full_path("a.b").unwrap(), "/var/data/test-bucket/a.b");
}

#[test]
fn local_backend_signs_no_urls() {
    for purpose in [PublicUrlPurpose::Retrieve, PublicUrlPurpose::Upload] {
        assert_eq!(
            backend().get_public_url("k", 3600, purpose),
            Err(BackendError::Provider(
                "Public URL generation is not supported for local backend".to_string()
            ))
        );
    }
}

#[test]
fn upload_progress_counts_and_hashes() {
    let mut progress = PutProgress::new();
    assert_eq!(progress.size(), 0);
    assert!(progress.has_room_for(usize::MAX));
    progress.absorb(b"Hello");
    progress.absorb(b"");
    progress.absorb(b", World!");
    assert_eq!(progress.size(), 13);
    assert!(progress.has_room_for(10));
    let custom = vec![("author".to_string(), "me".to_string())];
    let metadata = progress.finish("k", None, custom.clone(), Timestamp::new(5, 6));
    assert_eq!(metadata.size, 13);
    assert_eq!(
        metadata.etag,
        "dffd6021bb2bd5b0af676290809ec3a53191dd81c7f70a4b28688a362182986f"
    );
    assert_eq!(metadata.content_type, None);
    assert_eq!(metadata.custom_metadata, custom);
    let empty = PutProgress::new().finish("e", None, Vec::new(), Timestamp::new(0, 0));
    assert_eq!(empty.size, 0);
    assert_eq!(
        empty.etag,
        "e3b0c44298fc1c149afbf4c8996fb92427ae41e4649b934ca495991b7852b855"
    );
}

#[test]
fn listing_walk_shows_payloads_under_the_prefix() {
    let walk = ListWalk::new("logs/", None);
    assert!(walk.wants_more());
    assert!(walk.admits_entry("logs/a.txt"));
    assert!(walk.admits_entry("logs/data.json"));
    assert!(!walk.admits_entry("logs/a.txt.meta.json"));
    assert!(!walk.admits_entry("other/a.txt"));
    assert!(!walk.admits_entry("log"));
    assert!(walk.admits_start_file("logs/a.txt"));
    assert!(!walk.admits_start_file("logs/data.json"));
    assert!(!walk.admits_start_file("logs/a.meta.json"));
    assert!(walk.admits_start_file("logs/.json"));
    assert!(walk.admits_start_file("logs/json"));
    assert!(walk.admits_start_file("logs/x.json/file"));
    assert!(!walk.admits_start_file("logs/..json"));
    assert!(!walk.admits_start_file("other/a.txt"));
    let all = ListWalk::new("", None);
    assert!(all.admits_entry("anything"));
    assert!(!all.admits_entry(".meta.json"));
    assert!(!all.admits_start_file("x.json"));
    assert!(all.admits_start_file(".json"));
}

#[test]
fn listing_walk_stops_at_the_cap() {
    let entry = |key: &str| PutProgress::new().finish(key, None, Vec::new(), Timestamp::new(0, 0));
    let mut walk = ListWalk::new("", Some(2));
    assert!(walk.wants_more());
    assert!(walk.push(entry("a")));
    assert!(walk.wants_more());
    assert!(walk.push(entry("b")));
    assert!(!walk.wants_more());
    assert!(!walk.push(entry("c")));
    assert!(!walk.push(entry("d")));
    let results = walk.finish();
    assert_eq!(results.len(), 2);
    assert_eq!(results[0].key, "a");
    assert_eq!(results[1].key, "b");
    let mut none = ListWalk::new("", Some(0));
    assert!(!none.wants_more());
    assert!(!none.push(entry("a")));
    assert!(none.finish().is_empty());
    let mut uncapped = ListWalk::new("", None);
    for i in 0..100 {
        assert!(uncapped.push(entry(&i.to_string())));
    }
    assert!(uncapped.wants_more());
    assert_eq!(uncapped.finish().len(), 100);
}
