//! The top-level facade: the compute client and, when the storage bootstrap
//! succeeded, the storage identity, behind one handle.
//!
//! The storage identity is derived, not configured: the access principal is
//! the compute account's email, which takes one user-info round trip to
//! learn. The surrounding program performs that round trip and hands the
//! outcome to `assemble`; when no email could be learned the facade stays
//! compute-only and every storage operation fails with `NoStorageClient`.
use vstd::prelude::*;
use crate::compute::ComputeError;
use crate::compute::client::ComputeClient;
use crate::compute::task::{InstancesOrRange, ProfileOrPool, Task, is_fresh_task};
use crate::storage::{StorageClient, StorageError};
use crate::storage::bucket::Bucket;
use crate::text::str_eq;

verus! {

/// Errors of the facade.
#[derive(Debug, Clone, Copy, PartialEq, Eq, Structural)]
pub enum Error {
    /// A compute-layer failure.
    Compute(ComputeError),
    /// A storage-layer failure.
    Storage(StorageError),
    /// The storage credentials were rejected.
    StorageApiAuth,
    /// Reaching the storage service failed.
    StorageApiConnect,
    /// Collecting a downloaded object's bytes failed.
    StorageObjectDownload,
    /// No storage client was constructed; storage operations cannot run.
    NoStorageClient,
    /// No bucket of that name exists.
    NoSuchBucket,
}

impl From<ComputeError> for Error {
    fn from(compute_error: ComputeError) -> (r: Self) {
        Error::Compute(compute_error)
    }
}

impl vstd::std_specs::convert::FromSpecImpl<ComputeError> for Error {
    open spec fn obeys_from_spec() -> bool {
        true
    }

    open spec fn from_spec(compute_error: ComputeError) -> Self {
        Error::Compute(compute_error)
    }
}

/// The given optional name is present and spells the target.
pub open spec fn name_matches(n: Option<String>, target: Seq<char>) -> bool {
    n matches Some(s) && s@ == target
}

/// The views of the names that are present, in order.
pub open spec fn some_name_views(names: Seq<Option<String>>) -> Seq<Seq<char>>
    decreases names.len(),
{
    if names.len() == 0 {
        Seq::empty()
    } else {
        let rest = some_name_views(names.drop_last());
        match names.last() {
            Option::Some(n) => rest.push(n@),
            Option::None => rest,
        }
    }
}

/// The facade over the compute API and, when bootstrapped, the storage
/// service.
#[derive(Debug, Clone)]
pub struct QarnotClient {
    /// The compute client.
    pub compute_client: ComputeClient,
    /// The storage identity, when the bootstrap succeeded.
    pub storage: Option<StorageClient>,
}

impl QarnotClient {
    /// Assembles the facade once the user-info lookup, if one was needed,
    /// has completed. The storage identity exists exactly when a storage
    /// endpoint is configured and an account email was learned; it is keyed
    /// by that email, the shared API key and the endpoint. With no email
    /// (lookup failed, or the account has none) the facade is compute-only.
    pub fn assemble(
        compute_client: ComputeClient,
        api_key: &str,
        storage_url: Option<String>,
        email: Option<String>,
    ) -> (r: Self)
        ensures
            r.compute_client == compute_client,
            match (storage_url, email) {
                (Option::Some(url), Option::Some(em)) => r.storage matches Some(s)
                    && s.access_key == em && s.secret_key@ == api_key@ && s.storage_url == url,
                _ => r.storage is None,
            },
    {
        let storage = match (storage_url, email) {
            (Some(url), Some(em)) => Some(
                StorageClient { access_key: em, secret_key: api_key.to_owned(), storage_url: url },
            ),
            _ => None,
        };
        QarnotClient { compute_client, storage }
    }

    /// Whether storage operations can run at all: they demand the storage
    /// identity, and without one they all fail with `NoStorageClient`.
    pub fn require_storage(&self) -> (r: Result<(), Error>)
        ensures
            self.storage is Some ==> r == Result::<(), Error>::Ok(()),
            self.storage is None ==> r == Result::<(), Error>::Err(Error::NoStorageClient),
    {
        match &self.storage {
            Some(_) => Ok(()),
            None => Err(Error::NoStorageClient),
        }
    }

    /// Turns a fetched bucket listing into handles: one per listed bucket
    /// that has a name, in order. Without a storage client the listing
    /// could not have been made and the operation fails.
    pub fn buckets_from_names(&self, names: &Vec<Option<String>>) -> (r: Result<Vec<Bucket>, Error>)
        ensures
            self.storage is None ==> r == Result::<Vec<Bucket>, Error>::Err(Error::NoStorageClient),
            self.storage is Some ==> (r matches Ok(bs) && bs@.map_values(|b: Bucket| b.name@)
                == some_name_views(names@)),
    {
        if self.storage.is_none() {
            return Err(Error::NoStorageClient);
        }
        let mut out: Vec<Bucket> = Vec::new();
        let n = names.len();
        let mut i: usize = 0;
        while i < n
            invariant
                i <= n,
                n == names@.len(),
                out@.map_values(|b: Bucket| b.name@) =~= some_name_views(names@.take(i as int)),
            decreases n - i,
        {
            proof {
                assert(names@.take(i as int + 1).drop_last() =~= names@.take(i as int));
                assert(names@.take(i as int + 1).last() == names@[i as int]);
            }
            match &names[i] {
                Some(name) => {
                    out.push(Bucket { name: name.clone() });
                },
                None => {},
            }
            proof {
                assert(out@.map_values(|b: Bucket| b.name@) =~= some_name_views(
                    names@.take(i as int + 1),
                ));
            }
            i += 1;
        }
        proof {
            assert(names@.take(n as int) =~= names@);
        }
        Ok(out)
    }

    /// Resolves an existing bucket in a fetched listing by linear search.
    /// Finding the name yields a handle bound to it; a name absent from the
    /// listing is `NoSuchBucket` — resolving never creates a bucket. Without
    /// a storage client the operation fails outright.
    pub fn resolve_bucket(&self, names: &Vec<Option<String>>, bucket_name: &str) -> (r: Result<
        Bucket,
        Error,
    >)
        ensures
            self.storage is None ==> r == Result::<Bucket, Error>::Err(Error::NoStorageClient),
            self.storage is Some ==> match r {
                Result::Ok(b) => b.name@ == bucket_name@ && exists|i: int|
                    0 <= i < names@.len() && name_matches(#[trigger] names@[i], bucket_name@),
                Result::Err(e) => e == Error::NoSuchBucket && forall|i: int|
                    0 <= i < names@.len() ==> !name_matches(#[trigger] names@[i], bucket_name@),
            },
    {
        if self.storage.is_none() {
            return Err(Error::NoStorageClient);
        }
        let n = names.len();
        let mut i: usize = 0;
        while i < n
            invariant
                i <= n,
                n == names@.len(),
                self.storage is Some,
                forall|j: int| 0 <= j < i ==> !name_matches(#[trigger] names@[j], bucket_name@),
            decreases n - i,
        {
            match &names[i] {
                Some(name) => {
                    if str_eq(name.as_str(), bucket_name) {
                        return Ok(Bucket::new(bucket_name));
                    }
                },
                None => {},
            }
            i += 1;
        }
        Err(Error::NoSuchBucket)
    }

    /// A fresh task wrapper bound to nothing yet: it must still be run.
    /// `now_ms` is the creation instant, the starting point of poll
    /// throttling.
    pub fn create_task(
        &self,
        name: &str,
        profile_or_pool: ProfileOrPool,
        shortname: Option<String>,
        instance_or_range: InstancesOrRange,
        now_ms: i64,
    ) -> (r: Task)
        requires
            0 <= now_ms,
        ensures
            is_fresh_task(r, name@, profile_or_pool, shortname, instance_or_range, now_ms),
            r.time_wf(),
    {
        Task::new(name, profile_or_pool, shortname, instance_or_range, now_ms)
    }
}

} // verus!
