//! Plain data models of the compute API: profiles, users, versions,
//! snapshots, retry settings, privileges, secret access rights, resource
//! buckets, scheduling classes, forced constants, errors and ids.
//!
//! Identifiers (task, pool and job ids) are held in their canonical string
//! form. Fractional wire quantities are held as integer thousandths of the
//! wire unit, under field names ending in `_milli`.
use vstd::prelude::*;

verus! {

/// Details of an execution-environment template.
#[derive(Debug, Clone, Default)]
pub struct Profile {
    /// Name of the profile.
    pub name: Option<String>,
    /// The profile's predefined constants, overridable to configure a job.
    pub constants: Option<Vec<Constant>>,
    /// Software licenses available for the profile.
    pub licenses: Option<Vec<License>>,
}

impl Profile {
    /// An empty profile description.
    pub fn new() -> (r: Self)
        ensures
            r.name is None,
            r.constants is None,
            r.licenses is None,
    {
        Profile { name: None, constants: None, licenses: None }
    }
}

/// One predefined constant in a profile description.
#[derive(Debug, Clone, Default)]
pub struct Constant {
    /// Name of the constant.
    pub name: Option<String>,
    /// Value of the constant.
    pub value: Option<String>,
    /// What the constant does.
    pub description: Option<String>,
}

/// A software license available for a profile.
#[derive(Debug, Clone, Default)]
pub struct License {
    /// Name of the software.
    pub name: Option<String>,
    /// Maximum number of concurrent instances of the license.
    pub max_instances: Option<u64>,
    /// Maximum number of cores available for the license.
    pub max_cores: Option<u64>,
}

/// Account information and quotas of the authenticated user.
#[derive(Debug, Clone, Default)]
pub struct UserInfo {
    pub email: Option<String>,
    pub max_bucket: u32,
    pub max_task: u32,
    pub task_count: u32,
    pub max_job: u32,
    pub job_count: u32,
    pub max_pool: u32,
    pub pool_count: u32,
    pub max_running_task: u32,
    pub max_running_pool: u32,
    pub running_task_count: u32,
    pub running_core_count: u32,
    pub running_instance_count: u32,
    pub max_flex_instances: u32,
    pub max_flex_cores: u32,
    pub max_on_demand_instances: u32,
    pub max_on_demand_cores: u32,
    pub reserved_quotas: Option<Vec<ReservedQuotas>>,
    pub quota_bytes: u64,
    pub quota_bytes_bucket: u64,
    pub used_quota_bytes_bucket: u64,
    pub used_quota_bytes: u64,
    pub default_scheduling: Option<String>,
    pub default_reserved_specification_key: Option<String>,
}

/// Quota granted on one reserved machine kind.
#[derive(Debug, Clone, Default)]
pub struct ReservedQuotas {
    pub machine_key: String,
    pub max_instances: u32,
    pub max_cores: u32,
}

/// One version of the remote API.
#[derive(Debug, Clone, Default)]
pub struct Version {
    /// Version name.
    pub version: String,
    /// End of life of the version, if announced.
    pub end_of_life: Option<String>,
}

/// Configuration of recurring snapshots.
#[derive(Debug, Clone, Default)]
pub struct PeriodicSnapshot {
    /// Time interval in seconds between snapshots.
    pub interval: Option<i32>,
    /// Whitelist filter.
    pub whitelist: Option<String>,
    /// Blacklist filter.
    pub blacklist: Option<String>,
    /// Bucket name.
    pub bucket: Option<String>,
    /// Bucket prefix.
    pub bucket_prefix: Option<String>,
}

impl PeriodicSnapshot {
    /// An empty periodic-snapshot configuration.
    pub fn new() -> (r: Self)
        ensures
            r.interval is None,
            r.whitelist is None,
            r.blacklist is None,
            r.bucket is None,
            r.bucket_prefix is None,
    {
        PeriodicSnapshot {
            interval: None,
            whitelist: None,
            blacklist: None,
            bucket: None,
            bucket_prefix: None,
        }
    }
}

/// Configuration of a one-off snapshot.
#[derive(Debug, Clone, Default)]
pub struct UniqueSnapshot {
    /// Whitelist filter.
    pub whitelist: Option<String>,
    /// Blacklist filter.
    pub blacklist: Option<String>,
    /// Bucket name.
    pub bucket: Option<String>,
    /// Bucket prefix.
    pub bucket_prefix: Option<String>,
}

impl UniqueSnapshot {
    /// An empty one-off snapshot configuration.
    pub fn new() -> (r: Self)
        ensures
            r.whitelist is None,
            r.blacklist is None,
            r.bucket is None,
            r.bucket_prefix is None,
    {
        UniqueSnapshot { whitelist: None, blacklist: None, bucket: None, bucket_prefix: None }
    }
}

/// Retry policy of a task: total retries across the task versus retries per
/// instance.
#[derive(Debug, Clone, Copy, Default, PartialEq, Eq, Structural)]
pub struct RetrySettings {
    /// Maximum number of retries for the whole task.
    pub max_total_retries: Option<i32>,
    /// Maximum number of retries for each instance.
    pub max_per_instance_retries: Option<i32>,
}

impl RetrySettings {
    /// A retry policy with no limits set.
    pub fn new() -> (r: Self)
        ensures
            r.max_total_retries is None,
            r.max_per_instance_retries is None,
    {
        RetrySettings { max_total_retries: None, max_per_instance_retries: None }
    }
}

/// Privileges that can be granted for task execution.
#[derive(Debug, Clone, Copy, Default, PartialEq, Eq, Structural)]
pub struct Privileges {
    /// Whether the API and storage credentials are exported into the job's
    /// environment through constants.
    pub export_api_and_storage_credentials_in_environment: Option<bool>,
}

/// Secrets a task will have access to when running.
#[derive(Debug, Clone, Default)]
pub struct SecretsAccessRights {
    /// Secrets named by their exact path.
    pub by_secret: Option<Vec<ExactSecretAccessRight>>,
    /// Secrets named by prefix: every secret starting with one of the
    /// prefixes is available.
    pub by_prefix: Option<Vec<PrefixSecretAccessRight>>,
}

/// Access to a single secret, by its full path.
#[derive(Debug, Clone, Default)]
pub struct ExactSecretAccessRight {
    /// The secret to give access to.
    pub key: Option<String>,
}

/// Access to every secret under a prefix.
#[derive(Debug, Clone, Default)]
pub struct PrefixSecretAccessRight {
    /// The prefix used for filtering.
    pub prefix: Option<String>,
}

/// A resource bucket with per-bucket filtering, prefix stripping and cache
/// lifetime.
#[derive(Debug, Default)]
pub struct ResourcesBucket {
    /// Name of the bucket.
    pub bucket_name: Option<String>,
    /// Which objects of the bucket are visible.
    pub filtering: ResourcesFiltering,
    /// How object keys are rewritten.
    pub resources_transformation: ResourcesTransformation,
    /// Cache lifetime of the resources, in seconds.
    pub cache_ttl_sec: Option<u32>,
}

impl Clone for ResourcesBucket {
    /// A clone carries the same fields.
    fn clone(&self) -> (r: Self)
        ensures
            r == *self,
    {
        ResourcesBucket {
            bucket_name: crate::text::clone_opt_string(&self.bucket_name),
            filtering: self.filtering.clone(),
            resources_transformation: self.resources_transformation.clone(),
            cache_ttl_sec: self.cache_ttl_sec,
        }
    }
}

/// Filtering of a resource bucket's objects.
#[derive(Debug, Default)]
pub struct ResourcesFiltering {
    /// Filtering by key prefix.
    pub prefix_filtering: PrefixFiltering,
}

impl Clone for ResourcesFiltering {
    /// A clone carries the same fields.
    fn clone(&self) -> (r: Self)
        ensures
            r == *self,
    {
        ResourcesFiltering { prefix_filtering: self.prefix_filtering.clone() }
    }
}

/// Keeps only the objects whose key starts with the prefix.
#[derive(Debug, Default)]
pub struct PrefixFiltering {
    /// The prefix kept.
    pub prefix: Option<String>,
}

impl Clone for PrefixFiltering {
    /// A clone carries the same fields.
    fn clone(&self) -> (r: Self)
        ensures
            r == *self,
    {
        PrefixFiltering { prefix: crate::text::clone_opt_string(&self.prefix) }
    }
}

/// Rewriting of a resource bucket's object keys.
#[derive(Debug, Default)]
pub struct ResourcesTransformation {
    /// Stripping of a key prefix.
    pub strip_prefix: StripPrefix,
}

impl Clone for ResourcesTransformation {
    /// A clone carries the same fields.
    fn clone(&self) -> (r: Self)
        ensures
            r == *self,
    {
        ResourcesTransformation { strip_prefix: self.strip_prefix.clone() }
    }
}

/// Strips a prefix from object keys.
#[derive(Debug, Default)]
pub struct StripPrefix {
    /// The prefix stripped.
    pub prefix: Option<String>,
}

impl Clone for StripPrefix {
    /// A clone carries the same fields.
    fn clone(&self) -> (r: Self)
        ensures
            r == *self,
    {
        StripPrefix { prefix: crate::text::clone_opt_string(&self.prefix) }
    }
}

/// How tasks are scheduled when dispatched.
#[derive(Debug, Clone, Copy, PartialEq, Eq, Structural)]
pub enum SchedulingClass {
    Flex,
    OnDemand,
    Reserved,
}

impl SchedulingClass {
    /// The class's name on the wire.
    pub fn wire_name(&self) -> (r: String)
        ensures
            r@ == self.spec_wire_name(),
    {
        match self {
            SchedulingClass::Flex => "flex".to_owned(),
            SchedulingClass::OnDemand => "onDemand".to_owned(),
            SchedulingClass::Reserved => "reserved".to_owned(),
        }
    }

    /// The wire spelling of each class.
    pub open spec fn spec_wire_name(&self) -> Seq<char> {
        match self {
            SchedulingClass::Flex => "flex"@,
            SchedulingClass::OnDemand => "onDemand"@,
            SchedulingClass::Reserved => "reserved"@,
        }
    }
}

impl Default for SchedulingClass {
    /// The default scheduling class is flex.
    fn default() -> (r: Self)
        ensures
            r == SchedulingClass::Flex,
    {
        SchedulingClass::Flex
    }
}

/// A constant overridden when running the task; development use only.
#[derive(Debug, Clone, Default)]
pub struct ForcedConstant {
    /// The name of the constant to override.
    pub constant_name: Option<String>,
    /// The new value; the value is unchanged when absent.
    pub forced_value: Option<String>,
    /// Whether the constant is exported into the environment; unchanged when
    /// absent.
    pub force_export_in_environment: Option<bool>,
    /// The constant's access mode.
    pub access: Option<ForcedConstantAccess>,
}

impl ForcedConstant {
    /// A forced constant with nothing overridden.
    pub fn new() -> (r: Self)
        ensures
            r.constant_name is None,
            r.forced_value is None,
            r.force_export_in_environment is None,
            r.access is None,
    {
        ForcedConstant {
            constant_name: None,
            forced_value: None,
            force_export_in_environment: None,
            access: None,
        }
    }
}

/// Access mode of a forced constant.
#[derive(Debug, Clone, Copy, PartialEq, Eq, Structural)]
pub enum ForcedConstantAccess {
    ReadOnly,
    ReadWrite,
}

impl ForcedConstantAccess {
    /// The access mode's name on the wire.
    pub fn wire_name(&self) -> (r: String)
        ensures
            r@ == self.spec_wire_name(),
    {
        match self {
            ForcedConstantAccess::ReadOnly => "readOnly".to_owned(),
            ForcedConstantAccess::ReadWrite => "readWrite".to_owned(),
        }
    }

    /// The wire spelling of each access mode.
    pub open spec fn spec_wire_name(&self) -> Seq<char> {
        match self {
            ForcedConstantAccess::ReadOnly => "readOnly"@,
            ForcedConstantAccess::ReadWrite => "readWrite"@,
        }
    }
}

impl Default for ForcedConstantAccess {
    /// The default access mode is read-only.
    fn default() -> (r: Self)
        ensures
            r == ForcedConstantAccess::ReadOnly,
    {
        ForcedConstantAccess::ReadOnly
    }
}

/// An error the service reports about a task.
#[derive(Debug, Default)]
pub struct QError {
    /// Error code.
    pub code: Option<String>,
    /// Error message.
    pub message: Option<String>,
    /// Error debug hints.
    pub debug: Option<String>,
}

impl Clone for QError {
    /// A clone carries the same fields.
    fn clone(&self) -> (r: Self)
        ensures
            r == *self,
    {
        QError {
            code: crate::text::clone_opt_string(&self.code),
            message: crate::text::clone_opt_string(&self.message),
            debug: crate::text::clone_opt_string(&self.debug),
        }
    }
}

/// The id of a pool, task or job, in canonical string form.
#[derive(Debug, Clone, Default)]
pub struct Id {
    /// The id, if the service assigned one.
    pub uuid: Option<String>,
}

/// Initial task dependencies: the tasks gating this one's start.
#[derive(Debug, Clone, Default)]
pub struct DependencyInput {
    /// Ids of the tasks this one depends on; it starts only once they have
    /// completed.
    pub depends_on: Option<Vec<String>>,
}

impl DependencyInput {
    /// No dependencies.
    pub fn new() -> (r: Self)
        ensures
            r.depends_on is None,
    {
        DependencyInput { depends_on: None }
    }
}

/// Information about one completed instance. Fractional quantities are in
/// thousandths of the wire unit.
#[derive(Debug, Clone, Default)]
pub struct CompletedFrameOutput {
    /// The instance's results.
    pub results: Option<Vec<String>>,
    /// Id of the completed instance.
    pub instance_id: Option<i32>,
    /// Actual lifetime of the instance, in thousandths of a second.
    pub wall_time_sec_milli: Option<u64>,
    /// Execution time of the instance, in thousandths of a second.
    pub exec_time_sec_milli: Option<u64>,
    /// Relative execution time, in thousandths of a second GHz.
    pub exec_time_sec_ghz_milli: Option<u64>,
    /// Maximum memory used, in MB.
    pub peak_memory_mb: Option<i32>,
    /// State of the completed instance.
    pub state: Option<String>,
    /// Error reported for the instance, if any.
    pub error: Option<QError>,
    /// Specification key of the hardware that computed the instance.
    pub specification_key: Option<String>,
    /// Name of the CPU model that computed the instance.
    pub cpu_model: Option<String>,
    /// Core count of the CPU model.
    pub core_count: Option<i32>,
    /// Clock ratio, in thousandths.
    pub clock_ratio_milli: Option<u64>,
    /// Average frequency during execution, in thousandths of a GHz.
    pub average_ghz_milli: Option<u64>,
    /// Number of execution attempts before completion.
    pub execution_attempt_count: Option<i32>,
}

} // verus!
