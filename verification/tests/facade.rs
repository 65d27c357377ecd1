//! The top-level facade: the storage bootstrap, the compute-only fallback,
//! and bucket resolution.
use qarnot::client::{Error, QarnotClient};
use qarnot::compute::ComputeError;
use qarnot::compute::client::ComputeClient;
use qarnot::compute::task::{InstancesOrRange, ProfileOrPool};
use qarnot::storage::bucket::{Error as BucketError, SdkFailureKind};
use qarnot::storage::{StorageClient, StorageObject};

fn compute_client() -> ComputeClient {
    ComputeClient::new(
        "https://api.example.test".to_string(),
        "v1".to_string(),
        "SECRET-REDACTED",
    )
    .expect("a plain credential is accepted")
}

fn storage_facade() -> QarnotClient {
    QarnotClient::assemble(
        compute_client(),
        "SECRET-REDACTED",
        Some("https://storage.example.test".to_string()),
        Some("admin@mail.com".to_string()),
    )
}

#[test]
fn bootstrap_derives_the_storage_identity_from_the_email() {
    let facade = storage_facade();
    let storage = facade.storage.expect("endpoint and email make storage");
    assert_eq!(storage.access_key, "admin@mail.com");
    assert_eq!(storage.secret_key, "SECRET-REDACTED");
    assert_eq!(storage.storage_url, "https://storage.example.test");
}

#[test]
fn failed_user_lookup_leaves_the_facade_compute_only() {
    // The storage endpoint is configured, but the user-info call failed (or
    // the account has no email): no storage client is constructed, the
    // compute side keeps working, and every storage operation fails with
    // the no-storage-client condition.
    let facade = QarnotClient::assemble(
        compute_client(),
        "SECRET-REDACTED",
        Some("https://storage.example.test".to_string()),
        None,
    );
    assert!(facade.storage.is_none());
    assert_eq!(facade.compute_client.version, "v1");
    assert_eq!(
        facade.compute_client.get_user_info_request().route,
        "info"
    );
    assert!(matches!(
        facade.require_storage(),
        Err(Error::NoStorageClient)
    ));
    assert!(matches!(
        facade.buckets_from_names(&vec![Some("b".to_string())]),
        Err(Error::NoStorageClient)
    ));
    assert!(matches!(
        facade.resolve_bucket(&vec![Some("b".to_string())], "b"),
        Err(Error::NoStorageClient)
    ));
    // A task wrapper can still be created and driven.
    let task = facade.create_task(
        "still works",
        ProfileOrPool::profile("docker-batch"),
        None,
        InstancesOrRange::count(1),
        0,
    );
    assert!(task.uuid.is_none());
}

#[test]
fn no_configured_endpoint_means_no_storage() {
    let facade = QarnotClient::assemble(
        compute_client(),
        "SECRET-REDACTED",
        None,
        Some("admin@mail.com".to_string()),
    );
    assert!(facade.storage.is_none());
}

#[test]
fn get_bucket_on_an_empty_account_is_not_found_and_creates_nothing() {
    let facade = storage_facade();
    let names: Vec<Option<String>> = vec![];
    assert!(matches!(
        facade.resolve_bucket(&names, "missing-bucket"),
        Err(Error::NoSuchBucket)
    ));
}

#[test]
fn get_bucket_finds_an_existing_name() {
    let facade = storage_facade();
    let names = vec![
        None,
        Some("alpha".to_string()),
        Some("beta".to_string()),
    ];
    let bucket = facade
        .resolve_bucket(&names, "beta")
        .expect("a listed bucket resolves");
    assert_eq!(bucket.name, "beta");
    assert!(matches!(
        facade.resolve_bucket(&names, "gamma"),
        Err(Error::NoSuchBucket)
    ));
}

#[test]
fn bucket_listing_keeps_named_buckets_in_order() {
    let facade = storage_facade();
    let names = vec![
        Some("alpha".to_string()),
        None,
        Some("beta".to_string()),
    ];
    let buckets = facade.buckets_from_names(&names).expect("storage is up");
    let listed: Vec<&str> = buckets.iter().map(|b| b.name.as_str()).collect();
    assert_eq!(listed, vec!["alpha", "beta"]);
}

#[test]
fn compute_errors_wrap_into_the_facade_taxonomy() {
    let e = Error::from(ComputeError::NotFound);
    assert_eq!(e, Error::Compute(ComputeError::NotFound));
}

#[test]
fn storage_identity_and_transfers_hold_their_values() {
    let sc = StorageClient::new("admin@mail.com", "SECRET-REDACTED", "https://storage.example.test");
    assert_eq!(sc.access_key, "admin@mail.com");
    let obj = StorageObject::new("/tmp/in.blend", "scenes/in.blend");
    assert_eq!(obj.local_path, "/tmp/in.blend");
    assert_eq!(obj.key, "scenes/in.blend");
}

#[test]
fn wire_failures_map_to_bucket_errors() {
    assert_eq!(
        BucketError::from_sdk_failure(SdkFailureKind::ConstructionFailure),
        BucketError::RequestConstructionFailed
    );
    assert_eq!(
        BucketError::from_sdk_failure(SdkFailureKind::DispatchFailure),
        BucketError::NoResponse
    );
    assert_eq!(
        BucketError::from_sdk_failure(SdkFailureKind::TimeoutError),
        BucketError::Timeout
    );
    assert_eq!(
        BucketError::from_sdk_failure(SdkFailureKind::ResponseError),
        BucketError::InvalidResponse
    );
    assert_eq!(
        BucketError::from_sdk_failure(SdkFailureKind::ServiceError),
        BucketError::ServiceError
    );
    assert_eq!(
        BucketError::from_sdk_failure(SdkFailureKind::Other),
        BucketError::Unknown
    );
}
