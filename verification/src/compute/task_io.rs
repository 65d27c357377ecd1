//! Request and response payloads for task operations: creation, redo,
//! clone, update, and the task detail and summary the service returns.
//!
//! Identifiers are held in canonical string form; task labels as a list of
//! key/value pairs; fractional wire quantities as integer thousandths of
//! the wire unit.
use vstd::prelude::*;
use crate::compute::constant::Constants;
use crate::compute::hardware_constraint::HardwareConstraintVariant;
use crate::compute::models::{
    CompletedFrameOutput, DependencyInput, ForcedConstant, Privileges, QError, ResourcesBucket,
    RetrySettings, SchedulingClass, SecretsAccessRights,
};
use crate::compute::status::QTaskStatusOutput;

verus! {

/// Input of a task creation request.
#[derive(Debug, Clone, Default)]
pub struct TaskCreationInput {
    /// Name of the task.
    pub name: String,
    /// Shortname of the task; its id by default.
    pub shortname: Option<String>,
    /// Profile used by the task; unset when the task runs in a pool.
    pub profile: Option<String>,
    /// Id of the task's pool, if any.
    pub pool_uuid: Option<String>,
    /// Id of the task's job, if any.
    pub job_uuid: Option<String>,
    /// Number of task instances; exclusive with `advanced_ranges`.
    pub instance_count: Option<i32>,
    /// Explicit instance id ranges; exclusive with `instance_count`.
    pub advanced_ranges: Option<String>,
    /// Names of the buckets holding the task's resources.
    pub resource_buckets: Option<Vec<String>>,
    /// Resource buckets with per-bucket filtering and prefix handling.
    pub advanced_resource_buckets: Option<Vec<ResourcesBucket>>,
    /// Name of the bucket receiving the task's results.
    pub result_bucket: Option<String>,
    /// The task's constants.
    pub constants: Option<Constants>,
    /// Constants overridden for the task; development use only.
    pub forced_constants: Option<Vec<ForcedConstant>>,
    /// The task's constraints; admin use only.
    pub constraints: Option<Constants>,
    /// Hardware constraints for executing the task.
    pub hardware_constraints: Option<Vec<HardwareConstraintVariant>>,
    /// Secrets the task will have access to.
    pub secrets_access_rights: Option<SecretsAccessRights>,
    /// The task's tags.
    pub tags: Option<Vec<String>>,
    /// Whitelist regex for snapshots.
    pub snapshot_whitelist: Option<String>,
    /// Blacklist regex for snapshots.
    pub snapshot_blacklist: Option<String>,
    /// Name of the snapshot bucket.
    pub snapshot_bucket: Option<String>,
    /// Prefix for the snapshot bucket.
    pub snapshot_bucket_prefix: Option<String>,
    /// Whitelist regex for results.
    pub results_whitelist: Option<String>,
    /// Blacklist regex for results.
    pub results_blacklist: Option<String>,
    /// Name of the bucket used for results.
    pub results_bucket: Option<String>,
    /// Prefix added to the results bucket.
    pub results_bucket_prefix: Option<String>,
    /// Priority of the task; admin use only.
    pub priority: Option<i32>,
    /// Tasks gating this one's start.
    pub dependencies: Option<DependencyInput>,
    /// Whether the task is deleted once completed and the quota is reached.
    pub auto_delete_on_completion: Option<bool>,
    /// The task's lifetime limit.
    pub completion_time_to_live: Option<String>,
    /// Whether pool resource synchronization gates execution.
    pub wait_for_pool_resources_synchronization: Option<bool>,
    /// Whether results are uploaded when the task is cancelled.
    pub upload_results_on_cancellation: Option<bool>,
    /// Arbitrary key/value labels attached to the task.
    pub labels: Option<Vec<(String, String)>>,
    /// How the task is scheduled.
    pub scheduling_type: Option<SchedulingClass>,
    /// Key of the reserved machine to dispatch on.
    pub targeted_reserved_machine_key: Option<String>,
    /// Default cache lifetime of the task's resources, in seconds.
    pub default_resources_cache_ttl_sec: Option<i32>,
    /// Privileges granted to the task.
    pub privileges: Option<Privileges>,
    /// The task's retry policy.
    pub retry_settings: Option<RetrySettings>,
}

impl TaskCreationInput {
    /// A creation request with only the name set.
    pub fn new(name: String) -> (r: Self)
        ensures
            r.name == name,
            r.shortname is None,
            r.profile is None,
            r.pool_uuid is None,
            r.job_uuid is None,
            r.instance_count is None,
            r.advanced_ranges is None,
            r.resource_buckets is None,
            r.advanced_resource_buckets is None,
            r.result_bucket is None,
            r.constants is None,
            r.forced_constants is None,
            r.constraints is None,
            r.hardware_constraints is None,
            r.secrets_access_rights is None,
            r.tags is None,
            r.snapshot_whitelist is None,
            r.snapshot_blacklist is None,
            r.snapshot_bucket is None,
            r.snapshot_bucket_prefix is None,
            r.results_whitelist is None,
            r.results_blacklist is None,
            r.results_bucket is None,
            r.results_bucket_prefix is None,
            r.priority is None,
            r.dependencies is None,
            r.auto_delete_on_completion is None,
            r.completion_time_to_live is None,
            r.wait_for_pool_resources_synchronization is None,
            r.upload_results_on_cancellation is None,
            r.labels is None,
            r.scheduling_type is None,
            r.targeted_reserved_machine_key is None,
            r.default_resources_cache_ttl_sec is None,
            r.privileges is None,
            r.retry_settings is None,
    {
        TaskCreationInput {
            name,
            shortname: None,
            profile: None,
            pool_uuid: None,
            job_uuid: None,
            instance_count: None,
            advanced_ranges: None,
            resource_buckets: None,
            advanced_resource_buckets: None,
            result_bucket: None,
            constants: None,
            forced_constants: None,
            constraints: None,
            hardware_constraints: None,
            secrets_access_rights: None,
            tags: None,
            snapshot_whitelist: None,
            snapshot_blacklist: None,
            snapshot_bucket: None,
            snapshot_bucket_prefix: None,
            results_whitelist: None,
            results_blacklist: None,
            results_bucket: None,
            results_bucket_prefix: None,
            priority: None,
            dependencies: None,
            auto_delete_on_completion: None,
            completion_time_to_live: None,
            wait_for_pool_resources_synchronization: None,
            upload_results_on_cancellation: None,
            labels: None,
            scheduling_type: None,
            targeted_reserved_machine_key: None,
            default_resources_cache_ttl_sec: None,
            privileges: None,
            retry_settings: None,
        }
    }
}

/// The task detail the service returns.
#[derive(Debug, Clone, Default)]
pub struct TaskOutput {
    /// Errors reported for the task.
    pub errors: Option<Vec<QError>>,
    /// Names of the buckets holding the task's resources.
    pub resource_buckets: Option<Vec<String>>,
    /// Resource buckets with per-bucket filtering and prefix handling.
    pub advanced_resource_buckets: Option<Vec<ResourcesBucket>>,
    /// Name of the bucket receiving the task's results.
    pub result_bucket: Option<String>,
    /// Information about completed instances.
    pub completed_instances: Option<Vec<CompletedFrameOutput>>,
    /// Detail of the execution status.
    pub status: Option<QTaskStatusOutput>,
    /// Interval between snapshots, in seconds.
    pub snapshot_interval: Option<u32>,
    /// Number of results.
    pub results_count: Option<u32>,
    /// The task's constants.
    pub constants: Option<Constants>,
    /// Secrets the task has access to.
    pub secrets_access_rights: Option<SecretsAccessRights>,
    /// The task's tags.
    pub tags: Option<Vec<String>>,
    /// Whitelist regex for snapshots.
    pub snapshot_whitelist: Option<String>,
    /// Blacklist regex for snapshots.
    pub snapshot_blacklist: Option<String>,
    /// Name of the snapshot bucket.
    pub snapshot_bucket: Option<String>,
    /// Prefix for the snapshot bucket.
    pub snapshot_bucket_prefix: Option<String>,
    /// Whitelist regex for results.
    pub results_whitelist: Option<String>,
    /// Blacklist regex for results.
    pub results_blacklist: Option<String>,
    /// Name of the bucket used for results.
    pub results_bucket: Option<String>,
    /// Prefix added to the results bucket.
    pub results_bucket_prefix: Option<String>,
    /// Whether results are uploaded when the task is cancelled.
    pub upload_results_on_cancellation: Option<bool>,
    /// Tasks gating this one's start.
    pub dependencies: Option<DependencyOutput>,
    /// Whether the task is deleted once completed and the quota is reached.
    pub auto_delete_on_completion: Option<bool>,
    /// The task's lifetime limit.
    pub completion_time_to_live: Option<String>,
    /// Hardware constraints for executing the task.
    pub hardware_constraints: Option<Vec<HardwareConstraintVariant>>,
    /// Arbitrary key/value labels attached to the task.
    pub labels: Option<Vec<(String, String)>>,
    /// How the task is scheduled.
    pub scheduling_type: Option<SchedulingClass>,
    /// Key of the reserved machine the task was to dispatch on.
    pub targeted_reserved_machine_key: Option<String>,
    /// Privileges granted to the task.
    pub privileges: Option<Privileges>,
    /// The task's retry policy.
    pub retry_settings: Option<RetrySettings>,
    /// Id of the task.
    pub uuid: Option<String>,
    /// Name of the task.
    pub name: Option<String>,
    /// Shortname of the task.
    pub shortname: Option<String>,
    /// Profile used by the task.
    pub profile: Option<String>,
    /// Id of the task's pool.
    pub pool_uuid: Option<String>,
    /// Id of the task's job.
    pub job_uuid: Option<String>,
    /// Progress of the execution, in thousandths of a percent.
    pub progress_milli: Option<u64>,
    /// Number of instances currently running.
    pub running_instance_count: Option<i32>,
    /// Number of cores currently used.
    pub running_core_count: Option<i32>,
    /// Current execution time, as reported.
    pub execution_time: Option<String>,
    /// The task's execution time limit, as reported.
    pub wall_time: Option<String>,
    /// Current state of the task, as a wire string.
    pub state: Option<String>,
    /// Previous state of the task, as a wire string.
    pub previous_state: Option<String>,
    /// Number of task instances.
    pub instance_count: Option<i32>,
    /// Explicit instance id ranges, if used.
    pub advanced_ranges: Option<String>,
    /// Date of the last state transition.
    pub state_transition_time: Option<String>,
    /// Date of the previous state transition.
    pub previous_state_transition_time: Option<String>,
    /// Date of the last modification.
    pub last_modified: Option<String>,
    /// Date of the task creation.
    pub creation_date: Option<String>,
    /// Date of the task end.
    pub end_date: Option<String>,
    /// Whether pool resource synchronization gates execution.
    pub wait_for_pool_resources_synchronization: Option<bool>,
}

/// The task summary the service returns.
#[derive(Debug, Clone, Default)]
pub struct TaskSummaryOutput {
    /// Id of the task.
    pub uuid: Option<String>,
    /// Name of the task.
    pub name: Option<String>,
    /// Shortname of the task.
    pub shortname: Option<String>,
    /// Profile used by the task.
    pub profile: Option<String>,
    /// Id of the task's pool.
    pub pool_uuid: Option<String>,
    /// Id of the task's job.
    pub job_uuid: Option<String>,
    /// Progress of the execution, in thousandths of a percent.
    pub progress_milli: Option<u64>,
    /// Number of instances currently running.
    pub running_instance_count: Option<i32>,
    /// Number of cores currently used.
    pub running_core_count: Option<i32>,
    /// Current execution time, as reported.
    pub execution_time: Option<String>,
    /// The task's execution time limit, as reported.
    pub wall_time: Option<String>,
    /// Current state of the task, as a wire string.
    pub state: Option<String>,
    /// Previous state of the task, as a wire string.
    pub previous_state: Option<String>,
    /// Number of task instances.
    pub instance_count: Option<i32>,
    /// Explicit instance id ranges, if used.
    pub advanced_ranges: Option<String>,
    /// Date of the last state transition.
    pub state_transition_time: Option<String>,
    /// Date of the previous state transition.
    pub previous_state_transition_time: Option<String>,
    /// Date of the last modification.
    pub last_modified: Option<String>,
    /// Date of the task creation.
    pub creation_date: Option<String>,
    /// Date of the task end.
    pub end_date: Option<String>,
    /// Whether pool resource synchronization gates execution.
    pub wait_for_pool_resources_synchronization: Option<bool>,
}

impl TaskSummaryOutput {
    /// An empty task summary.
    pub fn new() -> (r: Self)
        ensures
            r.uuid is None,
            r.name is None,
            r.shortname is None,
            r.profile is None,
            r.pool_uuid is None,
            r.job_uuid is None,
            r.progress_milli is None,
            r.running_instance_count is None,
            r.running_core_count is None,
            r.execution_time is None,
            r.wall_time is None,
            r.state is None,
            r.previous_state is None,
            r.instance_count is None,
            r.advanced_ranges is None,
            r.state_transition_time is None,
            r.previous_state_transition_time is None,
            r.last_modified is None,
            r.creation_date is None,
            r.end_date is None,
            r.wait_for_pool_resources_synchronization is None,
    {
        TaskSummaryOutput {
            uuid: None,
            name: None,
            shortname: None,
            profile: None,
            pool_uuid: None,
            job_uuid: None,
            progress_milli: None,
            running_instance_count: None,
            running_core_count: None,
            execution_time: None,
            wall_time: None,
            state: None,
            previous_state: None,
            instance_count: None,
            advanced_ranges: None,
            state_transition_time: None,
            previous_state_transition_time: None,
            last_modified: None,
            creation_date: None,
            end_date: None,
            wait_for_pool_resources_synchronization: None,
        }
    }
}

/// Initial dependencies of a task, as returned by the service.
#[derive(Debug, Clone, Default)]
pub struct DependencyOutput {
    /// Ids of the tasks this one depends on.
    pub depends_on: Option<Vec<String>>,
}

/// Fields to change when retrying, recovering or resuming a task.
#[derive(Debug, Clone, Default)]
pub struct TaskRedoInput {
    /// Name of the new task; same as the original by default.
    pub name: Option<String>,
    /// Names of the buckets holding the task's resources.
    pub resource_buckets: Option<Vec<String>>,
    /// Resource buckets with per-bucket filtering and prefix handling.
    pub advanced_resource_buckets: Option<Vec<ResourcesBucket>>,
    /// Shortname of the task.
    pub shortname: Option<String>,
    /// Profile used by the task.
    pub profile: Option<String>,
    /// Id of the task's job.
    pub job_uuid: Option<String>,
    /// Name of the bucket receiving the task's results.
    pub result_bucket: Option<String>,
    /// The task's constants.
    pub constants: Option<Constants>,
    /// Constants overridden for the task; development use only.
    pub forced_constants: Option<Vec<ForcedConstant>>,
    /// The task's constraints; admin use only.
    pub constraints: Option<Constants>,
    /// Hardware constraints for executing the task.
    pub hardware_constraints: Option<Vec<HardwareConstraintVariant>>,
    /// Secrets the task will have access to.
    pub secrets_access_rights: Option<SecretsAccessRights>,
    /// The task's tags.
    pub tags: Option<Vec<String>>,
    /// Whitelist regex for snapshots.
    pub snapshot_whitelist: Option<String>,
    /// Blacklist regex for snapshots.
    pub snapshot_blacklist: Option<String>,
    /// Name of the snapshot bucket.
    pub snapshot_bucket: Option<String>,
    /// Prefix for the snapshot bucket.
    pub snapshot_bucket_prefix: Option<String>,
    /// Whitelist regex for results.
    pub results_whitelist: Option<String>,
    /// Blacklist regex for results.
    pub results_blacklist: Option<String>,
    /// Name of the bucket used for results.
    pub results_bucket: Option<String>,
    /// Prefix added to the results bucket.
    pub results_bucket_prefix: Option<String>,
    /// Priority of the task; admin use only.
    pub priority: Option<i32>,
    /// Tasks gating this one's start.
    pub dependencies: Option<DependencyInput>,
    /// Whether the task is deleted once completed and the quota is reached.
    pub auto_delete_on_completion: Option<bool>,
    /// The task's lifetime limit.
    pub completion_time_to_live: Option<String>,
    /// Whether pool resource synchronization gates execution.
    pub wait_for_pool_resources_synchronization: Option<bool>,
    /// Whether results are uploaded when the task is cancelled.
    pub upload_results_on_cancellation: Option<bool>,
    /// Arbitrary key/value labels attached to the task.
    pub labels: Option<Vec<(String, String)>>,
    /// How the task is scheduled.
    pub scheduling_type: Option<SchedulingClass>,
    /// Key of the reserved machine to dispatch on.
    pub targeted_reserved_machine_key: Option<String>,
    /// Default cache lifetime of the task's resources, in seconds.
    pub default_resources_cache_ttl_sec: Option<i32>,
    /// Privileges granted to the task.
    pub privileges: Option<Privileges>,
    /// The task's retry policy.
    pub retry_settings: Option<RetrySettings>,
}

impl TaskRedoInput {
    /// A redo request changing nothing.
    pub fn new() -> (r: Self)
        ensures
            r.name is None,
            r.resource_buckets is None,
            r.advanced_resource_buckets is None,
            r.shortname is None,
            r.profile is None,
            r.job_uuid is None,
            r.result_bucket is None,
            r.constants is None,
            r.forced_constants is None,
            r.constraints is None,
            r.hardware_constraints is None,
            r.secrets_access_rights is None,
            r.tags is None,
            r.snapshot_whitelist is None,
            r.snapshot_blacklist is None,
            r.snapshot_bucket is None,
            r.snapshot_bucket_prefix is None,
            r.results_whitelist is None,
            r.results_blacklist is None,
            r.results_bucket is None,
            r.results_bucket_prefix is None,
            r.priority is None,
            r.dependencies is None,
            r.auto_delete_on_completion is None,
            r.completion_time_to_live is None,
            r.wait_for_pool_resources_synchronization is None,
            r.upload_results_on_cancellation is None,
            r.labels is None,
            r.scheduling_type is None,
            r.targeted_reserved_machine_key is None,
            r.default_resources_cache_ttl_sec is None,
            r.privileges is None,
            r.retry_settings is None,
    {
        TaskRedoInput {
            name: None,
            resource_buckets: None,
            advanced_resource_buckets: None,
            shortname: None,
            profile: None,
            job_uuid: None,
            result_bucket: None,
            constants: None,
            forced_constants: None,
            constraints: None,
            hardware_constraints: None,
            secrets_access_rights: None,
            tags: None,
            snapshot_whitelist: None,
            snapshot_blacklist: None,
            snapshot_bucket: None,
            snapshot_bucket_prefix: None,
            results_whitelist: None,
            results_blacklist: None,
            results_bucket: None,
            results_bucket_prefix: None,
            priority: None,
            dependencies: None,
            auto_delete_on_completion: None,
            completion_time_to_live: None,
            wait_for_pool_resources_synchronization: None,
            upload_results_on_cancellation: None,
            labels: None,
            scheduling_type: None,
            targeted_reserved_machine_key: None,
            default_resources_cache_ttl_sec: None,
            privileges: None,
            retry_settings: None,
        }
    }
}

/// Fields to change in a cloned task.
#[derive(Debug, Clone, Default)]
pub struct TaskCloneInput {
    /// Name of the cloned task; same as the original by default.
    pub name: Option<String>,
    /// Number of task instances; overridden by `advanced_ranges`.
    pub instance_count: Option<i32>,
    /// Explicit instance id ranges; overrides `instance_count`.
    pub advanced_ranges: Option<String>,
    /// Names of the buckets holding the task's resources.
    pub resource_buckets: Option<Vec<String>>,
    /// Resource buckets with per-bucket filtering and prefix handling.
    pub advanced_resource_buckets: Option<Vec<ResourcesBucket>>,
    /// Shortname of the task.
    pub shortname: Option<String>,
    /// Profile used by the task.
    pub profile: Option<String>,
    /// Id of the task's job.
    pub job_uuid: Option<String>,
    /// Name of the bucket receiving the task's results.
    pub result_bucket: Option<String>,
    /// The task's constants.
    pub constants: Option<Constants>,
    /// Constants overridden for the task; development use only.
    pub forced_constants: Option<Vec<ForcedConstant>>,
    /// The task's constraints; admin use only.
    pub constraints: Option<Constants>,
    /// Hardware constraints for executing the task.
    pub hardware_constraints: Option<Vec<HardwareConstraintVariant>>,
    /// Secrets the task will have access to.
    pub secrets_access_rights: Option<Box<SecretsAccessRights>>,
    /// The task's tags.
    pub tags: Option<Vec<String>>,
    /// Whitelist regex for snapshots.
    pub snapshot_whitelist: Option<String>,
    /// Blacklist regex for snapshots.
    pub snapshot_blacklist: Option<String>,
    /// Name of the snapshot bucket.
    pub snapshot_bucket: Option<String>,
    /// Prefix for the snapshot bucket.
    pub snapshot_bucket_prefix: Option<String>,
    /// Whitelist regex for results.
    pub results_whitelist: Option<String>,
    /// Blacklist regex for results.
    pub results_blacklist: Option<String>,
    /// Name of the bucket used for results.
    pub results_bucket: Option<String>,
    /// Prefix added to the results bucket.
    pub results_bucket_prefix: Option<String>,
    /// Priority of the task; admin use only.
    pub priority: Option<i32>,
    /// Tasks gating this one's start.
    pub dependencies: Option<Box<DependencyInput>>,
    /// Whether the task is deleted once completed and the quota is reached.
    pub auto_delete_on_completion: Option<bool>,
    /// The task's lifetime limit.
    pub completion_time_to_live: Option<String>,
    /// Whether pool resource synchronization gates execution.
    pub wait_for_pool_resources_synchronization: Option<bool>,
    /// Whether results are uploaded when the task is cancelled.
    pub upload_results_on_cancellation: Option<bool>,
    /// Arbitrary key/value labels attached to the task.
    pub labels: Option<Vec<(String, String)>>,
    /// How the task is scheduled.
    pub scheduling_type: Option<SchedulingClass>,
    /// Key of the reserved machine to dispatch on.
    pub targeted_reserved_machine_key: Option<String>,
    /// Default cache lifetime of the task's resources, in seconds.
    pub default_resources_cache_ttl_sec: Option<i32>,
    /// Privileges granted to the task.
    pub privileges: Option<Box<Privileges>>,
    /// The task's retry policy.
    pub retry_settings: Option<Box<RetrySettings>>,
}

impl TaskCloneInput {
    /// A clone request changing nothing.
    pub fn new() -> (r: Self)
        ensures
            r.name is None,
            r.instance_count is None,
            r.advanced_ranges is None,
            r.resource_buckets is None,
            r.advanced_resource_buckets is None,
            r.shortname is None,
            r.profile is None,
            r.job_uuid is None,
            r.result_bucket is None,
            r.constants is None,
            r.forced_constants is None,
            r.constraints is None,
            r.hardware_constraints is None,
            r.secrets_access_rights is None,
            r.tags is None,
            r.snapshot_whitelist is None,
            r.snapshot_blacklist is None,
            r.snapshot_bucket is None,
            r.snapshot_bucket_prefix is None,
            r.results_whitelist is None,
            r.results_blacklist is None,
            r.results_bucket is None,
            r.results_bucket_prefix is None,
            r.priority is None,
            r.dependencies is None,
            r.auto_delete_on_completion is None,
            r.completion_time_to_live is None,
            r.wait_for_pool_resources_synchronization is None,
            r.upload_results_on_cancellation is None,
            r.labels is None,
            r.scheduling_type is None,
            r.targeted_reserved_machine_key is None,
            r.default_resources_cache_ttl_sec is None,
            r.privileges is None,
            r.retry_settings is None,
    {
        TaskCloneInput {
            name: None,
            instance_count: None,
            advanced_ranges: None,
            resource_buckets: None,
            advanced_resource_buckets: None,
            shortname: None,
            profile: None,
            job_uuid: None,
            result_bucket: None,
            constants: None,
            forced_constants: None,
            constraints: None,
            hardware_constraints: None,
            secrets_access_rights: None,
            tags: None,
            snapshot_whitelist: None,
            snapshot_blacklist: None,
            snapshot_bucket: None,
            snapshot_bucket_prefix: None,
            results_whitelist: None,
            results_blacklist: None,
            results_bucket: None,
            results_bucket_prefix: None,
            priority: None,
            dependencies: None,
            auto_delete_on_completion: None,
            completion_time_to_live: None,
            wait_for_pool_resources_synchronization: None,
            upload_results_on_cancellation: None,
            labels: None,
            scheduling_type: None,
            targeted_reserved_machine_key: None,
            default_resources_cache_ttl_sec: None,
            privileges: None,
            retry_settings: None,
        }
    }
}

/// The fields a task update can change: constants, constraints and tags.
#[derive(Debug, Clone, Default)]
pub struct TaskUpdateInput {
    /// The new constants.
    pub constants: Option<Constants>,
    /// The new constraints; admin use only.
    pub constraints: Option<Constants>,
    /// The new tags.
    pub tags: Option<Vec<String>>,
}

} // verus!
