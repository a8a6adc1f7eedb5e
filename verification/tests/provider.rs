use object_store::backend::PublicUrlPurpose;
use object_store::error::BackendError;
use object_store::etag::{compute_etag, key_etag};
use object_store::instant::Timestamp;
use object_store::provider::{
    azure_blob_url, azure_listing, azure_metadata_to_object_metadata, azure_page_size,
    classify_failure, exists_from_head, fallback_metadata, gcs_listing,
    gcs_metadata_to_object_metadata, metadata_with_body, page_size_i32, parse_connection_string,
    s3_listing, s3_metadata_to_object_metadata, sas_permissions, signed_url_expiry,
    signing_failure, stream_failure, uploaded_metadata, AzureBlob, AzureItem, GcsEntry, Operation,
    Provider, S3Entry, SasPermissions, SigningStep,
};

fn now() -> Timestamp {
    Timestamp::new(1_700_000_000, 0)
}

const MARKERS: [&str; 7] = [
    "NoSuchKey",
    "NoSuchBucket",
    "NotFound",
    "BlobNotFound",
    "ContainerNotFound",
    "status: 404",
    "ServiceError { code: \"NoSuchKey\", status: 404 }",
];

const OTHERS: [&str; 6] = ["", "AccessDenied", "Forbidden", "code: 403", "40 4", "Not Found"];

#[test]
fn a_marker_of_absence_gives_not_found() {
    for provider in [Provider::S3, Provider::Gcs, Provider::Azure] {
        for operation in [Operation::Put, Operation::Get, Operation::Head, Operation::Delete] {
            for marker in MARKERS {
                assert_eq!(
                    classify_failure(provider, operation, "the-key", marker, "boom"),
                    BackendError::NotFound("the-key".to_string())
                );
            }
            for other in OTHERS {
                assert!(matches!(
                    classify_failure(provider, operation, "the-key", other, "boom"),
                    BackendError::Provider(_)
                ));
            }
        }
        for marker in MARKERS {
            let named = if provider == Provider::Azure { "container:data" } else { "bucket:data" };
            assert_eq!(
                classify_failure(provider, Operation::List, "data", marker, "boom"),
                BackendError::NotFound(named.to_string())
            );
            assert!(matches!(
                classify_failure(provider, Operation::Init, "data", marker, "boom"),
                BackendError::Configuration(_)
            ));
        }
    }
}

#[test]
fn s3_failures() {
    let classify = |op, debug: &str| classify_failure(Provider::S3, op, "the-key", debug, "boom");
    assert_eq!(
        classify(Operation::Get, "ServiceError(NoSuchKey)"),
        BackendError::NotFound("the-key".to_string())
    );
    assert_eq!(
        classify(Operation::Get, "unhandled error, status: 404"),
        BackendError::NotFound("the-key".to_string())
    );
    assert_eq!(
        classify(Operation::Get, "AccessDenied"),
        BackendError::Provider("Failed to get object 'the-key': boom".to_string())
    );
    assert_eq!(
        classify(Operation::Head, "HeadObjectError::NotFound"),
        BackendError::NotFound("the-key".to_string())
    );
    assert_eq!(
        classify(Operation::Head, "Throttled"),
        BackendError::Provider("Failed to get metadata for 'the-key': boom".to_string())
    );
    assert_eq!(
        classify(Operation::Put, "Throttled"),
        BackendError::Provider("Failed to upload object 'the-key': boom".to_string())
    );
    assert_eq!(
        classify(Operation::Delete, "Throttled"),
        BackendError::Provider("Failed to delete object 'the-key': boom".to_string())
    );
    assert_eq!(
        classify_failure(Provider::S3, Operation::List, "data", "NoSuchBucket", "boom"),
        BackendError::NotFound("bucket:data".to_string())
    );
    assert_eq!(
        classify_failure(Provider::S3, Operation::List, "data", "Throttled", "boom"),
        BackendError::Provider("Failed to list objects: boom".to_string())
    );
    assert_eq!(
        classify_failure(Provider::S3, Operation::Init, "data", "NotFound", "no route"),
        BackendError::Configuration("Cannot access S3 bucket 'data': no route".to_string())
    );
}

#[test]
fn gcs_failures() {
    let classify = |op, debug: &str| classify_failure(Provider::Gcs, op, "the-key", debug, "boom");
    assert_eq!(
        classify(Operation::Get, "Response(code: 404)"),
        BackendError::NotFound("the-key".to_string())
    );
    assert_eq!(
        classify(Operation::Head, "NotFound"),
        BackendError::NotFound("the-key".to_string())
    );
    assert_eq!(
        classify(Operation::Get, "code: 403"),
        BackendError::Provider("Failed to get object 'the-key': boom".to_string())
    );
    assert_eq!(
        classify(Operation::Head, "code: 500"),
        BackendError::Provider("Failed to get metadata for 'the-key': boom".to_string())
    );
    assert_eq!(
        classify(Operation::Put, "code: 500"),
        BackendError::Provider("Failed to upload object 'the-key': boom".to_string())
    );
    assert_eq!(
        classify(Operation::Delete, "code: 500"),
        BackendError::Provider("Failed to delete object 'the-key': boom".to_string())
    );
    assert_eq!(
        classify_failure(Provider::Gcs, Operation::List, "data", "404", "boom"),
        BackendError::NotFound("bucket:data".to_string())
    );
    assert_eq!(
        classify_failure(Provider::Gcs, Operation::List, "data", "code: 500", "boom"),
        BackendError::Provider("Failed to list objects: boom".to_string())
    );
    assert_eq!(
        classify_failure(Provider::Gcs, Operation::Init, "data", "404", "denied"),
        BackendError::Configuration("Cannot access GCS bucket 'data': denied".to_string())
    );
}

#[test]
fn azure_failures() {
    let classify =
        |op, debug: &str| classify_failure(Provider::Azure, op, "the-key", debug, "boom");
    for marker in ["status: 404", "NotFound", "BlobNotFound"] {
        assert_eq!(
            classify(Operation::Get, marker),
            BackendError::NotFound("the-key".to_string())
        );
        assert_eq!(
            classify(Operation::Head, marker),
            BackendError::NotFound("the-key".to_string())
        );
    }
    assert_eq!(
        classify(Operation::Get, "Forbidden"),
        BackendError::Provider("Failed to get blob 'the-key': boom".to_string())
    );
    assert_eq!(
        classify(Operation::Head, "Forbidden"),
        BackendError::Provider("Failed to get metadata for 'the-key': boom".to_string())
    );
    assert_eq!(
        classify(Operation::Put, "Forbidden"),
        BackendError::Provider("Failed to upload blob 'the-key': boom".to_string())
    );
    assert_eq!(
        classify(Operation::Delete, "Forbidden"),
        BackendError::Provider("Failed to delete blob 'the-key': boom".to_string())
    );
    assert_eq!(
        classify_failure(Provider::Azure, Operation::List, "box", "ContainerNotFound", "boom"),
        BackendError::NotFound("container:box".to_string())
    );
    assert_eq!(
        classify_failure(Provider::Azure, Operation::List, "box", "code 404", "boom"),
        BackendError::NotFound("container:box".to_string())
    );
    assert_eq!(
        classify_failure(Provider::Azure, Operation::List, "box", "Throttled", "boom"),
        BackendError::Provider("Failed to list blobs: boom".to_string())
    );
    assert_eq!(
        classify_failure(Provider::Azure, Operation::Init, "box", "404", "denied"),
        BackendError::Configuration("Cannot access Azure container 'box': denied".to_string())
    );
}

#[test]
fn other_failures() {
    assert_eq!(
        stream_failure("connection reset"),
        BackendError::Provider("Failed to read stream: connection reset".to_string())
    );
    assert_eq!(
        signing_failure(SigningStep::PresignConfig, "k", "too long"),
        BackendError::Provider("Failed to create presigning config: too long".to_string())
    );
    assert_eq!(
        signing_failure(SigningStep::Presign, "k", "e"),
        BackendError::Provider("Failed to generate presigned URL for 'k': e".to_string())
    );
    assert_eq!(
        signing_failure(SigningStep::SasSignature, "k", "e"),
        BackendError::Provider("Failed to generate SAS token: e".to_string())
    );
    assert_eq!(
        signing_failure(SigningStep::SasToken, "k", "e"),
        BackendError::Provider("Failed to extract SAS token: e".to_string())
    );
}

#[test]
fn existence_from_inspection() {
    let metadata = fallback_metadata("k", b"", now());
    assert_eq!(exists_from_head(Ok(metadata)), Ok(true));
    assert_eq!(exists_from_head(Err(BackendError::NotFound("k".to_string()))), Ok(false));
    assert_eq!(
        exists_from_head(Err(BackendError::Provider("p".to_string()))),
        Err(BackendError::Provider("p".to_string()))
    );
}

#[test]
fn s3_metadata() {
    let pairs = vec![("a".to_string(), "b".to_string())];
    let full = s3_metadata_to_object_metadata(
        "k".to_string(),
        42,
        Some(Timestamp::new(7, 8)),
        Some("\"tag\"".to_string()),
        Some("text/plain".to_string()),
        pairs.clone(),
        now(),
    );
    assert_eq!(full.key, "k");
    assert_eq!(full.size, 42);
    assert_eq!(full.etag, "\"tag\"");
    assert_eq!(full.last_modified, Timestamp::new(7, 8));
    assert_eq!(full.content_type.as_deref(), Some("text/plain"));
    assert_eq!(full.custom_metadata, pairs);
    let bare = s3_metadata_to_object_metadata("k".to_string(), -1, None, None, None, vec![], now());
    assert_eq!(bare.size, u64::MAX);
    assert_eq!(bare.etag, key_etag("k"));
    assert_eq!(bare.etag, compute_etag(b"k"));
    assert_eq!(bare.last_modified, now());
    assert_eq!(bare.content_type, None);
}

#[test]
fn gcs_and_azure_metadata() {
    let gcs = gcs_metadata_to_object_metadata(
        "n".to_string(),
        5,
        Some(Timestamp::new(i64::MAX, 0)),
        Some("md5==".to_string()),
        None,
        vec![],
        now(),
    );
    assert_eq!(gcs.etag, "md5==");
    assert_eq!(gcs.last_modified, now());
    let gcs = gcs_metadata_to_object_metadata(
        "n".to_string(),
        5,
        Some(Timestamp::new(9, 1)),
        None,
        None,
        vec![],
        now(),
    );
    assert_eq!(gcs.etag, key_etag("n"));
    assert_eq!(gcs.last_modified, Timestamp::new(9, 1));
    let azure = azure_metadata_to_object_metadata(
        "blob".to_string(),
        u64::MAX,
        Timestamp::new(3, 0),
        Some("Etag(\"0x1\")".to_string()),
        Some("application/json".to_string()),
        vec![],
        now(),
    );
    assert_eq!(azure.key, "blob");
    assert_eq!(azure.size, u64::MAX);
    assert_eq!(azure.etag, "Etag(\"0x1\")");
    assert_eq!(azure.last_modified, Timestamp::new(3, 0));
    let azure = azure_metadata_to_object_metadata(
        "blob".to_string(),
        0,
        Timestamp::new(0, 3_000_000_000),
        None,
        None,
        vec![],
        now(),
    );
    assert_eq!(azure.etag, key_etag("blob"));
    assert_eq!(azure.last_modified, now());
}

#[test]
fn upload_and_fallback_metadata() {
    let up = uploaded_metadata("k", b"Hello, World!", None, None, vec![], now());
    assert_eq!(up.key, "k");
    assert_eq!(up.size, 13);
    assert_eq!(up.etag, "dffd6021bb2bd5b0af676290809ec3a53191dd81c7f70a4b28688a362182986f");
    assert_eq!(up.last_modified, now());
    let up = uploaded_metadata("k", b"x", Some("\"s3\"".to_string()), None, vec![], now());
    assert_eq!(up.etag, "\"s3\"");
    let fb = fallback_metadata("k", b"abc", now());
    assert_eq!(fb.size, 3);
    assert_eq!(fb.etag, compute_etag(b"abc"));
    assert_eq!(fb.content_type, None);
    assert!(fb.custom_metadata.is_empty());
    assert_eq!(metadata_with_body(Ok(up.clone()), "k", b"abc", now()), up);
    assert_eq!(
        metadata_with_body(Err(BackendError::Provider("p".to_string())), "k", b"abc", now()),
        fb
    );
}

#[test]
fn page_sizes() {
    assert_eq!(page_size_i32(0), 0);
    assert_eq!(page_size_i32(1000), 1000);
    assert_eq!(page_size_i32(i32::MAX as usize), i32::MAX);
    assert_eq!(page_size_i32(i32::MAX as usize + 1), i32::MIN);
    assert_eq!(page_size_i32(usize::MAX), -1);
    assert_eq!(azure_page_size(0), None);
    assert_eq!(azure_page_size(10), Some(10));
    assert_eq!(azure_page_size(u32::MAX as usize), Some(u32::MAX));
    assert_eq!(azure_page_size(u32::MAX as usize + 1), None);
    assert_eq!(azure_page_size(u32::MAX as usize + 2), Some(1));
}

#[test]
fn listings() {
    let s3 = s3_listing(
        vec![
            S3Entry { key: Some("a".to_string()), size: Some(1), etag: None, last_modified: None },
            S3Entry { key: None, size: Some(2), etag: None, last_modified: None },
            S3Entry {
                key: Some("b".to_string()),
                size: None,
                etag: Some("t".to_string()),
                last_modified: Some(Timestamp::new(1, 1)),
            },
        ],
        now(),
    );
    assert_eq!(s3.len(), 2);
    assert_eq!((s3[0].key.as_str(), s3[0].size, s3[0].last_modified), ("a", 1, now()));
    assert_eq!(s3[0].etag, key_etag("a"));
    assert_eq!((s3[1].key.as_str(), s3[1].size), ("b", 0));
    assert_eq!(s3[1].etag, "t");
    assert_eq!(s3[1].last_modified, Timestamp::new(1, 1));
    assert!(s3.iter().all(|o| o.content_type.is_none() && o.custom_metadata.is_empty()));

    assert!(gcs_listing(None, now()).is_empty());
    let gcs = gcs_listing(
        Some(vec![GcsEntry {
            name: "g".to_string(),
            size: 9,
            updated: None,
            md5_hash: None,
            content_type: Some("text/csv".to_string()),
            metadata: Some(vec![("k".to_string(), "v".to_string())]),
        }]),
        now(),
    );
    assert_eq!(gcs.len(), 1);
    assert_eq!(gcs[0].key, "g");
    assert_eq!(gcs[0].size, 9);
    assert_eq!(gcs[0].etag, key_etag("g"));
    assert_eq!(gcs[0].last_modified, now());
    assert_eq!(gcs[0].content_type.as_deref(), Some("text/csv"));
    assert_eq!(gcs[0].custom_metadata, vec![("k".to_string(), "v".to_string())]);

    let azure = azure_listing(
        vec![
            AzureItem::Prefix("dir/".to_string()),
            AzureItem::Blob(AzureBlob {
                name: "dir/z".to_string(),
                content_length: 4,
                last_modified: Timestamp::new(2, 0),
                etag: "Etag(\"0x8\")".to_string(),
                content_type: "application/octet-stream".to_string(),
                metadata: None,
            }),
        ],
        now(),
    );
    assert_eq!(azure.len(), 1);
    assert_eq!(azure[0].key, "dir/z");
    assert_eq!(azure[0].size, 4);
    assert_eq!(azure[0].etag, "Etag(\"0x8\")");
    assert_eq!(azure[0].content_type.as_deref(), Some("application/octet-stream"));
    assert_eq!(azure[0].last_modified, Timestamp::new(2, 0));
    assert!(azure[0].custom_metadata.is_empty());
}

#[test]
fn signed_urls() {
    assert_eq!(
        sas_permissions(PublicUrlPurpose::Retrieve),
        SasPermissions { read: true, write: false, create: false }
    );
    assert_eq!(
        sas_permissions(PublicUrlPurpose::Upload),
        SasPermissions { read: false, write: true, create: true }
    );
    assert_eq!(signed_url_expiry(now(), 3600), Some(Timestamp::new(1_700_003_600, 0)));
    assert_eq!(signed_url_expiry(now(), i64::MAX as u64), None);
    assert_eq!(signed_url_expiry(now(), u64::MAX), Some(Timestamp::new(1_699_999_999, 0)));
    assert_eq!(
        azure_blob_url("acct", "box", "dir/blob.txt", "sv=2022&sig=abc"),
        "https://acct.blob.core.windows.net/box/dir/blob.txt?sv=2022&sig=abc"
    );
}

#[test]
fn connection_strings() {
    assert_eq!(
        parse_connection_string(
            "DefaultEndpointsProtocol=https;AccountName=acct;AccountKey=abc==;EndpointSuffix=core.windows.net"
        ),
        Ok(("acct".to_string(), "abc==".to_string()))
    );
    assert_eq!(
        parse_connection_string("AccountKey=k;AccountName=n"),
        Ok(("n".to_string(), "k".to_string()))
    );
    assert_eq!(
        parse_connection_string("AccountName=a;AccountName=b;AccountKey=k;;"),
        Ok(("b".to_string(), "k".to_string()))
    );
    let missing = Err(BackendError::Configuration(
        "AccountName or AccountKey not found in connection string".to_string(),
    ));
    assert_eq!(parse_connection_string(""), missing);
    assert_eq!(parse_connection_string("AccountName=a"), missing);
    assert_eq!(parse_connection_string("AccountKey=k"), missing);
    assert_eq!(parse_connection_string("AccountName=;AccountKey=k"), missing);
    assert_eq!(parse_connection_string("AccountName=a;AccountName=;AccountKey=k"), missing);
    assert_eq!(parse_connection_string("accountname=a;AccountKey=k"), missing);
    assert_eq!(parse_connection_string(" AccountName=a;AccountKey=k"), missing);
    assert_eq!(
        parse_connection_string("AccountName=ä;AccountKey=k=;x"),
        Ok(("ä".to_string(), "k=".to_string()))
    );
}
