//! The object-storage side: the storage identity derived from the compute
//! account, transfer descriptions, and the bucket facade.
//!
//! The storage wire protocol itself is a capability the surrounding program
//! provides; this core carries the identity, names the operations' inputs
//! and classifies their failures.
pub mod bucket;

use vstd::prelude::*;

verus! {

/// Errors of the storage layer.
#[derive(Debug, Clone, Copy, PartialEq, Eq, Structural)]
pub enum StorageError {
    /// The local file to upload does not exist.
    LocalFileDoesNotExist,
    /// No bucket of that name exists.
    NoSuchBucket,
    /// The upload failed.
    UploadError,
    /// Any other failure.
    Generic,
}

/// One object transfer: a local path and the remote key it is paired with.
#[derive(Debug, Clone)]
pub struct StorageObject {
    /// The local file path.
    pub local_path: String,
    /// The object's key in the bucket.
    pub key: String,
}

impl StorageObject {
    /// Describes a transfer between a local path and a remote key.
    pub fn new(local_path: &str, key: &str) -> (r: Self)
        ensures
            r.local_path@ == local_path@,
            r.key@ == key@,
    {
        StorageObject { local_path: local_path.to_owned(), key: key.to_owned() }
    }
}

/// The identity the storage service is addressed with: the compute
/// account's email as access key, the shared API key as secret, and the
/// storage endpoint. The wire client the surrounding program builds from it
/// is out of scope here.
#[derive(Debug, Clone)]
pub struct StorageClient {
    /// The access principal: the compute account's email.
    pub access_key: String,
    /// The secret: the compute API key. Never log it.
    pub secret_key: String,
    /// The storage endpoint URL.
    pub storage_url: String,
}

impl StorageClient {
    /// A storage identity for the given endpoint.
    pub fn new(access_key: &str, secret_key: &str, storage_url: &str) -> (r: Self)
        ensures
            r.access_key@ == access_key@,
            r.secret_key@ == secret_key@,
            r.storage_url@ == storage_url@,
    {
        StorageClient {
            access_key: access_key.to_owned(),
            secret_key: secret_key.to_owned(),
            storage_url: storage_url.to_owned(),
        }
    }
}

} // verus!
