//! A bucket handle and the storage layer's error taxonomy.
use vstd::prelude::*;

verus! {

/// A handle on one named bucket.
#[derive(Debug, Clone)]
pub struct Bucket {
    /// Name of the bucket.
    pub name: String,
}

impl Bucket {
    /// A handle on the bucket of that name.
    pub fn new(name: &str) -> (r: Self)
        ensures
            r.name@ == name@,
    {
        Bucket { name: name.to_owned() }
    }
}

/// Errors of bucket and object operations.
#[derive(Debug, Clone, Copy, PartialEq, Eq, Structural)]
pub enum Error {
    /// Collecting the remote object's bytes failed.
    CollectObjectBytes,
    /// The request could not even be constructed.
    RequestConstructionFailed,
    /// The service's response could not be read.
    InvalidResponse,
    /// No response arrived.
    NoResponse,
    /// No bucket of that name exists.
    NoSuchBucket,
    /// No object of that key exists.
    NoSuchObject,
    /// The service answered with an error.
    ServiceError,
    /// The request timed out.
    Timeout,
    /// Writing the local file failed.
    WriteFile,
    /// Any other failure.
    Unknown,
}

/// How a storage request failed, as the wire client reports it.
#[derive(Debug, Clone, Copy, PartialEq, Eq, Structural)]
pub enum SdkFailureKind {
    /// The request could not be constructed.
    ConstructionFailure,
    /// The request never reached the service.
    DispatchFailure,
    /// The request timed out.
    TimeoutError,
    /// The response could not be read.
    ResponseError,
    /// The service answered with an error.
    ServiceError,
    /// Any other failure.
    Other,
}

impl Error {
    /// The bucket-layer error each wire failure kind maps to.
    pub fn from_sdk_failure(kind: SdkFailureKind) -> (r: Error)
        ensures
            r == match kind {
                SdkFailureKind::ConstructionFailure => Error::RequestConstructionFailed,
                SdkFailureKind::DispatchFailure => Error::NoResponse,
                SdkFailureKind::TimeoutError => Error::Timeout,
                SdkFailureKind::ResponseError => Error::InvalidResponse,
                SdkFailureKind::ServiceError => Error::ServiceError,
                SdkFailureKind::Other => Error::Unknown,
            },
    {
        match kind {
            SdkFailureKind::ConstructionFailure => Error::RequestConstructionFailed,
            SdkFailureKind::DispatchFailure => Error::NoResponse,
            SdkFailureKind::TimeoutError => Error::Timeout,
            SdkFailureKind::ResponseError => Error::InvalidResponse,
            SdkFailureKind::ServiceError => Error::ServiceError,
            SdkFailureKind::Other => Error::Unknown,
        }
    }
}

} // verus!
