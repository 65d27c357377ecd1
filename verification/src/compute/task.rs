//! The task lifecycle wrapper: execution states, the submission payload,
//! and the polling state machine.
//!
//! The wrapper is a local projection of one remote task. Its input fields
//! are caller-set and sent verbatim on submission; its observed fields are
//! overwritten only by applying a successful poll. All remote work (the
//! HTTP exchange itself) happens outside: the wrapper decides what to do
//! (`should_fetch`, `wait_status`, `log_source`), builds the payloads
//! (`creation_input`, `commit_input`), and folds results back in
//! (`apply_submission`, `apply_update`). Times are carried as milliseconds
//! since the Unix epoch, handed in by the caller.
use vstd::prelude::*;
use std::str::FromStr;
use chrono::Timelike;
use crate::compute::ComputeError;
use crate::compute::constant::Constants;
use crate::compute::hardware_constraint::HardwareConstraintVariant;
use crate::compute::models::{CompletedFrameOutput, Id, Privileges, QError, ResourcesBucket,
    RetrySettings};
use crate::compute::status::QTaskStatusOutput;
use crate::compute::task_io::{TaskCreationInput, TaskOutput, TaskUpdateInput};
use crate::text::{clone_opt_string, clone_opt_vec_string, str_eq};

verus! {

/// Execution state of a remote task, as reported by the service.
#[derive(Debug, Clone, Copy, PartialEq, Eq, Structural)]
pub enum State {
    Submitted,
    PartiallyDispatched,
    FullyDispatched,
    PartiallyExecuting,
    FullyExecuting,
    DownloadingResults,
    UploadingResults,
    Cancelled,
    Success,
    Failure,
    PendingDelete,
    PendingCancel,
}

/// The state a given wire string denotes. Anything unrecognized maps to
/// `Failure`: an unknown state must never be treated as still running.
pub open spec fn state_of_wire(s: Seq<char>) -> State {
    if s == "Submitted"@ {
        State::Submitted
    } else if s == "PartiallyDispatched"@ {
        State::PartiallyDispatched
    } else if s == "FullyDispatched"@ {
        State::FullyDispatched
    } else if s == "PartiallyExecuting"@ {
        State::PartiallyExecuting
    } else if s == "FullyExecuting"@ {
        State::FullyExecuting
    } else if s == "DownloadingResults"@ {
        State::DownloadingResults
    } else if s == "UploadingResults"@ {
        State::UploadingResults
    } else if s == "Cancelled"@ {
        State::Cancelled
    } else if s == "Success"@ {
        State::Success
    } else if s == "Failure"@ {
        State::Failure
    } else if s == "PendingDelete"@ {
        State::PendingDelete
    } else if s == "PendingCancel"@ {
        State::PendingCancel
    } else {
        State::Failure
    }
}

impl From<&str> for State {
    fn from(state: &str) -> (r: Self) {
        if str_eq(state, "Submitted") {
            Self::Submitted
        } else if str_eq(state, "PartiallyDispatched") {
            Self::PartiallyDispatched
        } else if str_eq(state, "FullyDispatched") {
            Self::FullyDispatched
        } else if str_eq(state, "PartiallyExecuting") {
            Self::PartiallyExecuting
        } else if str_eq(state, "FullyExecuting") {
            Self::FullyExecuting
        } else if str_eq(state, "DownloadingResults") {
            Self::DownloadingResults
        } else if str_eq(state, "UploadingResults") {
            Self::UploadingResults
        } else if str_eq(state, "Cancelled") {
            Self::Cancelled
        } else if str_eq(state, "Success") {
            Self::Success
        } else if str_eq(state, "Failure") {
            Self::Failure
        } else if str_eq(state, "PendingDelete") {
            Self::PendingDelete
        } else if str_eq(state, "PendingCancel") {
            Self::PendingCancel
        } else {
            Self::Failure
        }
    }
}

impl vstd::std_specs::convert::FromSpecImpl<&str> for State {
    open spec fn obeys_from_spec() -> bool {
        true
    }

    open spec fn from_spec(state: &str) -> Self {
        state_of_wire(state@)
    }
}

impl State {
    /// Whether the state is non-terminal: a waiting caller must keep polling.
    pub fn is_running_or_downloading(&self) -> (r: bool)
        ensures
            r == self.spec_is_running_or_downloading(),
    {
        matches!(
            self,
            Self::Submitted
                | Self::PartiallyDispatched
                | Self::FullyDispatched
                | Self::PartiallyExecuting
                | Self::FullyExecuting
                | Self::DownloadingResults
                | Self::UploadingResults
        )
    }

    /// The non-terminal states: everything up to and including result upload.
    pub open spec fn spec_is_running_or_downloading(&self) -> bool {
        match self {
            Self::Submitted
            | Self::PartiallyDispatched
            | Self::FullyDispatched
            | Self::PartiallyExecuting
            | Self::FullyExecuting
            | Self::DownloadingResults
            | Self::UploadingResults => true,
            _ => false,
        }
    }
}

/// The identity a task runs under: a named profile or a pool, never both
/// and never neither.
#[derive(Debug, Clone)]
pub enum ProfileOrPool {
    /// A named execution-environment template.
    Profile(String),
    /// The id of a pre-provisioned pool.
    Pool(String),
}

impl ProfileOrPool {
    /// Runs under the named profile.
    pub fn profile(name: &str) -> (r: Self)
        ensures
            r matches ProfileOrPool::Profile(p) && p@ == name@,
    {
        ProfileOrPool::Profile(name.to_owned())
    }

    /// Runs inside the pool with the given id.
    pub fn pool(pool_id: &str) -> (r: Self)
        ensures
            r matches ProfileOrPool::Pool(p) && p@ == pool_id@,
    {
        ProfileOrPool::Pool(pool_id.to_owned())
    }
}

/// The instance cardinality of a task: a flat count or an explicit range
/// expression, never both and never neither.
#[derive(Debug, Clone)]
pub enum InstancesOrRange {
    /// A flat instance count.
    InstanceCount(i32),
    /// An explicit range expression over instance ids.
    Range(String),
}

impl InstancesOrRange {
    /// A flat instance count.
    pub fn count(n: i32) -> (r: Self)
        ensures
            r == InstancesOrRange::InstanceCount(n),
    {
        InstancesOrRange::InstanceCount(n)
    }

    /// An explicit range expression.
    pub fn range(expr: &str) -> (r: Self)
        ensures
            r matches InstancesOrRange::Range(e) && e@ == expr@,
    {
        InstancesOrRange::Range(expr.to_owned())
    }
}

/// The milliseconds since the Unix epoch that an RFC 3339 timestamp text
/// denotes, or nothing when the text does not parse. Depends on the text
/// alone.
pub uninterp spec fn rfc3339_millis(s: Seq<char>) -> Option<i64>;

/// The seconds since midnight that an `HHMMSS` time-of-day text denotes, or
/// nothing when the text does not parse. Depends on the text alone.
pub uninterp spec fn hms_seconds(s: Seq<char>) -> Option<u32>;

/// Relies on chrono's `FromStr` for `DateTime<Utc>` (RFC 3339 parsing) and
/// `timestamp_millis`: the result is a function of the input text alone.
#[verifier::external_body]
fn parse_datetime_millis(s: &str) -> (r: Option<i64>)
    ensures
        r == rfc3339_millis(s@),
{
    match chrono::DateTime::<chrono::Utc>::from_str(s) {
        Ok(d) => Some(d.timestamp_millis()),
        Err(_) => None,
    }
}

/// Relies on chrono's `NaiveTime::parse_from_str` with the `%H%M%S` format
/// and `num_seconds_from_midnight`: the result is a function of the input
/// text alone.
#[verifier::external_body]
fn parse_hms_seconds(s: &str) -> (r: Option<u32>)
    ensures
        r == hms_seconds(s@),
{
    match chrono::NaiveTime::parse_from_str(s, "%H%M%S") {
        Ok(t) => Some(t.num_seconds_from_midnight()),
        Err(_) => None,
    }
}

/// The milliseconds an RFC 3339 text denotes, with the Unix epoch standing
/// in for text that does not parse: a degraded overlay is preferred over
/// failing a whole refresh.
pub open spec fn millis_or_epoch(s: Seq<char>) -> i64 {
    match rfc3339_millis(s) {
        Some(ms) => ms,
        None => 0,
    }
}

/// The seconds since midnight an `HHMMSS` text denotes, with midnight
/// standing in for text that does not parse.
pub open spec fn hms_or_midnight(s: Seq<char>) -> u32 {
    match hms_seconds(s) {
        Some(v) => v,
        None => 0,
    }
}

/// Both sides are absent, or both are present with equal element views.
pub open spec fn opt_vec_eq<T>(a: Option<Vec<T>>, b: Option<Vec<T>>) -> bool {
    match (a, b) {
        (Option::None, Option::None) => true,
        (Option::Some(x), Option::Some(y)) => x@ == y@,
        _ => false,
    }
}

/// The map each optional constants value denotes.
pub open spec fn opt_constants_view(c: Option<Constants>) -> Option<
    Map<Seq<char>, Seq<char>>,
> {
    match c {
        Option::None => Option::None,
        Option::Some(m) => Option::Some(m@),
    }
}

/// Where a log read comes from: an unsubmitted task's log is a ready local
/// value, a submitted task's log must be fetched for its id.
#[derive(Debug, Clone)]
pub enum LogSource {
    /// The log is already known; no remote call is to be made.
    Ready(String),
    /// The log must be fetched for the task with this id.
    Remote(String),
}

/// A local projection of one remote task: the caller-set input fields sent
/// on submission, and the observed fields a poll overlays.
#[derive(Debug)]
pub struct Task {
    /// Name of the task.
    pub name: String,
    /// Shortname of the task; defaults to its id after submission.
    pub shortname: Option<String>,
    /// Profile used by the task; exclusive with `pool_uuid`.
    pub profile: Option<String>,
    /// Id of the task's pool; exclusive with `profile`.
    pub pool_uuid: Option<String>,
    /// Id of the task's job, if any.
    pub job_uuid: Option<String>,
    /// Number of task instances; exclusive with `advanced_range`.
    pub instance_count: Option<i32>,
    /// Explicit instance id ranges; exclusive with `instance_count`.
    pub advanced_range: Option<String>,
    /// Observed number of cores currently used.
    pub running_core_count: u32,
    /// Observed number of instances currently running.
    pub running_instance_count: u32,
    /// Names of the buckets holding the task's resources.
    pub resouce_buckets: Option<Vec<String>>,
    /// Resource buckets with per-bucket filtering and prefix handling.
    pub advanced_resource_buckets: Option<Vec<ResourcesBucket>>,
    /// Name of the bucket receiving the task's results.
    pub result_bucket: Option<String>,
    /// The task's constants.
    pub constants: Option<Constants>,
    /// Ids of the tasks gating this one's start.
    pub dependent_on: Option<Vec<String>>,
    /// Whether updates are pulled automatically.
    pub auto_update: bool,
    /// The previous automatic-update setting.
    pub last_auto_update_state: bool,
    /// Width of the poll-throttle window, in milliseconds.
    pub update_cache_time_ms: i64,
    /// When the observed fields were last refreshed, in milliseconds since
    /// the Unix epoch.
    pub last_cache_ms: i64,
    /// The task's constraints; admin use only.
    pub constraints: Option<Constants>,
    /// Arbitrary key/value labels attached to the task.
    pub labels: Option<Vec<(String, String)>>,
    /// Observed execution state.
    pub state: Option<State>,
    /// Id the service assigned on submission; absent before.
    pub uuid: Option<String>,
    /// Whether local changes have not been pushed yet.
    pub dirty: bool,
    /// Observed resource count.
    pub rescount: i32,
    /// Whitelist regex for snapshots.
    pub snapshot_whitelist: Option<String>,
    /// Blacklist regex for snapshots.
    pub snapshot_blacklist: Option<String>,
    /// Whitelist regex for results.
    pub result_whitelist: Option<String>,
    /// Blacklist regex for results.
    pub result_blacklist: Option<String>,
    /// Observed detail of the execution status.
    pub status: Option<QTaskStatusOutput>,
    /// Observed information about completed instances.
    pub completed_instances: Option<Vec<CompletedFrameOutput>>,
    /// The task's tags.
    pub tags: Option<Vec<String>>,
    /// Observed errors.
    pub errors: Option<Vec<QError>>,
    /// Whether this projection was filled from a summary.
    pub is_summary: bool,
    /// The task's lifetime limit, in milliseconds since the Unix epoch.
    pub completion_time_to_live_ms: Option<i64>,
    /// Whether the task is deleted once completed and the quota is reached.
    pub auto_delete: bool,
    /// Whether pool resource synchronization gates execution.
    pub wait_for_pool_resources_synchronization: Option<bool>,
    /// Observed previous state, as a wire string.
    pub previous_state: Option<String>,
    /// Observed date of last modification, in milliseconds since the epoch.
    pub last_modified_ms: Option<i64>,
    /// Interval between snapshots, in seconds.
    pub snapshot_interval: Option<u32>,
    /// Observed progress, in thousandths of a percent.
    pub progress_milli: Option<u64>,
    /// Observed execution time, in seconds since midnight of its clock.
    pub execution_time_sec: Option<u32>,
    /// Observed wall-time limit, in seconds since midnight of its clock.
    pub wall_time_sec: Option<u32>,
    /// Observed end date, in milliseconds since the epoch.
    pub end_date_ms: Option<i64>,
    /// Whether results are uploaded when the task is cancelled.
    pub upload_results_on_cancellation: bool,
    /// Hardware constraints for executing the task.
    pub hardware_constraints: Option<Vec<HardwareConstraintVariant>>,
    /// Default cache lifetime of the task's resources, in seconds.
    pub default_resources_cache_ttl_sec: Option<u32>,
    /// Privileges granted to the task.
    pub privileges: Option<Privileges>,
    /// The task's retry policy.
    pub retry_settings: Option<RetrySettings>,
}

/// Whether an unforced poll at `now_ms` performs a remote fetch: only a
/// submitted task is polled, and only once the throttle window has elapsed
/// since the last refresh (or the poll is forced).
pub open spec fn spec_should_fetch(t: Task, force: bool, now_ms: i64) -> bool {
    t.uuid is Some && (force || now_ms - t.last_cache_ms >= t.update_cache_time_ms)
}

/// What a freshly constructed wrapper looks like: only the identity choice,
/// the instance cardinality, the name and the optional shortname are set;
/// everything else is unset or default, the throttle window is five seconds
/// wide, and the creation instant `now_ms` is the starting point of poll
/// throttling.
pub open spec fn is_fresh_task(
    r: Task,
    name: Seq<char>,
    profile_pool: ProfileOrPool,
    shortname: Option<String>,
    instance_range: InstancesOrRange,
    now_ms: i64,
) -> bool {
    &&& r.name@ == name
    &&& r.shortname == shortname
    &&& match profile_pool {
        ProfileOrPool::Profile(p) => r.profile == Some(p) && r.pool_uuid is None,
        ProfileOrPool::Pool(p) => r.pool_uuid == Some(p) && r.profile is None,
    }
    &&& match instance_range {
        InstancesOrRange::InstanceCount(n) => r.instance_count == Some(n)
            && r.advanced_range is None,
        InstancesOrRange::Range(e) => r.advanced_range == Some(e) && r.instance_count is None,
    }
    &&& r.job_uuid is None
    &&& r.running_core_count == 0
    &&& r.running_instance_count == 0
    &&& r.resouce_buckets is None
    &&& r.advanced_resource_buckets is None
    &&& r.result_bucket is None
    &&& r.constants is None
    &&& r.dependent_on is None
    &&& !r.auto_update
    &&& !r.last_auto_update_state
    &&& r.update_cache_time_ms == 5000
    &&& r.last_cache_ms == now_ms
    &&& r.constraints is None
    &&& r.labels is None
    &&& r.state is None
    &&& r.uuid is None
    &&& !r.dirty
    &&& r.rescount == 0
    &&& r.snapshot_whitelist is None
    &&& r.snapshot_blacklist is None
    &&& r.result_whitelist is None
    &&& r.result_blacklist is None
    &&& r.status is None
    &&& r.completed_instances is None
    &&& r.tags is None
    &&& r.errors is None
    &&& !r.is_summary
    &&& r.completion_time_to_live_ms is None
    &&& !r.auto_delete
    &&& r.wait_for_pool_resources_synchronization is None
    &&& r.previous_state is None
    &&& r.last_modified_ms is None
    &&& r.snapshot_interval is None
    &&& r.progress_milli is None
    &&& r.execution_time_sec is None
    &&& r.wall_time_sec is None
    &&& r.end_date_ms is None
    &&& !r.upload_results_on_cancellation
    &&& r.hardware_constraints is None
    &&& r.default_resources_cache_ttl_sec is None
    &&& r.privileges is None
    &&& r.retry_settings is None
}

impl Task {
    /// The time bookkeeping is sane: the throttle window and the last
    /// refresh instant are non-negative.
    pub open spec fn time_wf(&self) -> bool {
        0 <= self.update_cache_time_ms && 0 <= self.last_cache_ms
    }

    /// A fresh, unsubmitted wrapper. `now_ms` is the creation instant.
    pub fn new(
        name: &str,
        profile_pool: ProfileOrPool,
        shortname: Option<String>,
        instance_range: InstancesOrRange,
        now_ms: i64,
    ) -> (r: Self)
        requires
            0 <= now_ms,
        ensures
            is_fresh_task(r, name@, profile_pool, shortname, instance_range, now_ms),
            r.time_wf(),
    {
        let mut instance_count: Option<i32> = None;
        let mut advanced_range: Option<String> = None;
        let mut profile: Option<String> = None;
        let mut pool_uuid: Option<String> = None;
        match instance_range {
            InstancesOrRange::InstanceCount(n) => instance_count = Some(n),
            InstancesOrRange::Range(s) => advanced_range = Some(s),
        }
        match profile_pool {
            ProfileOrPool::Pool(p) => pool_uuid = Some(p),
            ProfileOrPool::Profile(p) => profile = Some(p),
        }
        Task {
            name: name.to_owned(),
            shortname,
            profile,
            pool_uuid,
            job_uuid: None,
            instance_count,
            advanced_range,
            running_core_count: 0,
            running_instance_count: 0,
            resouce_buckets: None,
            advanced_resource_buckets: None,
            result_bucket: None,
            constants: None,
            dependent_on: None,
            auto_update: false,
            last_auto_update_state: false,
            update_cache_time_ms: 5000,
            last_cache_ms: now_ms,
            constraints: None,
            labels: None,
            state: None,
            uuid: None,
            dirty: false,
            rescount: 0,
            snapshot_whitelist: None,
            snapshot_blacklist: None,
            result_whitelist: None,
            result_blacklist: None,
            status: None,
            completed_instances: None,
            tags: None,
            errors: None,
            is_summary: false,
            completion_time_to_live_ms: None,
            auto_delete: false,
            wait_for_pool_resources_synchronization: None,
            previous_state: None,
            last_modified_ms: None,
            snapshot_interval: None,
            progress_milli: None,
            execution_time_sec: None,
            wall_time_sec: None,
            end_date_ms: None,
            upload_results_on_cancellation: false,
            hardware_constraints: None,
            default_resources_cache_ttl_sec: None,
            privileges: None,
            retry_settings: None,
        }
    }

    /// The submission payload built from the current input fields, exactly
    /// what a run sends: the caller-set fields verbatim, auto-delete and
    /// upload-on-cancellation always stated, everything else unset.
    pub fn creation_input(&self) -> (r: TaskCreationInput)
        ensures
            r.name == self.name,
            r.shortname == self.shortname,
            r.profile == self.profile,
            r.pool_uuid == self.pool_uuid,
            r.job_uuid == self.job_uuid,
            r.instance_count == self.instance_count,
            r.advanced_ranges == self.advanced_range,
            opt_vec_eq(r.resource_buckets, self.resouce_buckets),
            opt_vec_eq(r.advanced_resource_buckets, self.advanced_resource_buckets),
            r.result_bucket == self.result_bucket,
            opt_constants_view(r.constants) == opt_constants_view(self.constants),
            r.forced_constants is None,
            opt_constants_view(r.constraints) == opt_constants_view(self.constraints),
            opt_vec_eq(r.hardware_constraints, self.hardware_constraints),
            r.secrets_access_rights is None,
            opt_vec_eq(r.tags, self.tags),
            r.snapshot_whitelist == self.snapshot_whitelist,
            r.snapshot_blacklist == self.snapshot_blacklist,
            r.snapshot_bucket is None,
            r.snapshot_bucket_prefix is None,
            r.results_whitelist == self.result_whitelist,
            r.results_blacklist == self.result_blacklist,
            r.results_bucket is None,
            r.results_bucket_prefix is None,
            r.priority is None,
            r.dependencies is None,
            r.auto_delete_on_completion == Some(self.auto_delete),
            r.completion_time_to_live is None,
            r.wait_for_pool_resources_synchronization is None,
            r.upload_results_on_cancellation == Some(self.upload_results_on_cancellation),
            opt_vec_eq(r.labels, self.labels),
            r.scheduling_type is None,
            r.targeted_reserved_machine_key is None,
            r.default_resources_cache_ttl_sec is None,
            r.privileges == self.privileges,
            r.retry_settings == self.retry_settings,
    {
        TaskCreationInput {
            name: self.name.clone(),
            shortname: clone_opt_string(&self.shortname),
            profile: clone_opt_string(&self.profile),
            pool_uuid: clone_opt_string(&self.pool_uuid),
            job_uuid: clone_opt_string(&self.job_uuid),
            instance_count: self.instance_count,
            advanced_ranges: clone_opt_string(&self.advanced_range),
            resource_buckets: clone_opt_vec_string(&self.resouce_buckets),
            advanced_resource_buckets: clone_opt_vec_resources_bucket(
                &self.advanced_resource_buckets,
            ),
            result_bucket: clone_opt_string(&self.result_bucket),
            constants: clone_opt_constants(&self.constants),
            forced_constants: None,
            constraints: clone_opt_constants(&self.constraints),
            hardware_constraints: clone_opt_vec_hardware(&self.hardware_constraints),
            secrets_access_rights: None,
            tags: clone_opt_vec_string(&self.tags),
            snapshot_whitelist: clone_opt_string(&self.snapshot_whitelist),
            snapshot_blacklist: clone_opt_string(&self.snapshot_blacklist),
            snapshot_bucket: None,
            snapshot_bucket_prefix: None,
            results_whitelist: clone_opt_string(&self.result_whitelist),
            results_blacklist: clone_opt_string(&self.result_blacklist),
            results_bucket: None,
            results_bucket_prefix: None,
            priority: None,
            dependencies: None,
            auto_delete_on_completion: Some(self.auto_delete),
            completion_time_to_live: None,
            wait_for_pool_resources_synchronization: None,
            upload_results_on_cancellation: Some(self.upload_results_on_cancellation),
            labels: clone_opt_vec_pairs(&self.labels),
            scheduling_type: None,
            targeted_reserved_machine_key: None,
            default_resources_cache_ttl_sec: None,
            privileges: self.privileges,
            retry_settings: self.retry_settings,
        }
    }

    /// Folds a submission answer in: the returned id becomes the task's id,
    /// and an unset shortname defaults to that id. Nothing else changes.
    /// A missing id in the answer leaves the wrapper unsubmitted.
    pub fn apply_submission(&mut self, res: Id)
        ensures
            (*final(self) == Task {
                uuid: res.uuid,
                shortname: if old(self).shortname is None {
                    res.uuid
                } else {
                    old(self).shortname
                },
                ..*old(self)
            }),
    {
        let Id { uuid } = res;
        if self.shortname.is_none() {
            self.shortname = clone_opt_string(&uuid);
        }
        self.uuid = uuid;
    }

    /// Whether an update at `now_ms` performs a remote fetch: never for an
    /// unsubmitted task, and for a submitted one only when forced or once
    /// the throttle window has elapsed since the last refresh.
    pub fn should_fetch(&self, force_update: bool, now_ms: i64) -> (r: bool)
        requires
            self.time_wf(),
            0 <= now_ms,
        ensures
            r == spec_should_fetch(*self, force_update, now_ms),
    {
        match &self.uuid {
            None => false,
            Some(_) => force_update || now_ms - self.last_cache_ms >= self.update_cache_time_ms,
        }
    }

    /// Overlays the observed fields with a fetched task detail and records
    /// the refresh instant. Timestamps that do not parse degrade to the
    /// epoch, times of day to midnight: a partial overlay is preferred over
    /// failing the refresh. Fields the detail does not carry keep their
    /// local values.
    pub fn apply_update(&mut self, updated: TaskOutput, now_ms: i64)
        requires
            0 <= now_ms,
        ensures
            (*final(self) == Task {
                name: match updated.name {
                    Option::Some(n) => n,
                    Option::None => old(self).name,
                },
                shortname: updated.shortname,
                profile: updated.profile,
                pool_uuid: updated.pool_uuid,
                job_uuid: updated.job_uuid,
                instance_count: updated.instance_count,
                advanced_range: updated.advanced_ranges,
                wait_for_pool_resources_synchronization:
                    updated.wait_for_pool_resources_synchronization,
                uuid: updated.uuid,
                state: match updated.state {
                    Option::Some(s) => Option::Some(state_of_wire(s@)),
                    Option::None => Option::None,
                },
                tags: updated.tags,
                upload_results_on_cancellation: match updated.upload_results_on_cancellation {
                    Option::Some(u) => u,
                    Option::None => old(self).upload_results_on_cancellation,
                },
                previous_state: updated.previous_state,
                last_modified_ms: match updated.last_modified {
                    Option::Some(s) => Option::Some(millis_or_epoch(s@)),
                    Option::None => Option::None,
                },
                progress_milli: updated.progress_milli,
                execution_time_sec: match updated.execution_time {
                    Option::Some(s) => Option::Some(hms_or_midnight(s@)),
                    Option::None => Option::None,
                },
                wall_time_sec: match updated.wall_time {
                    Option::Some(s) => Option::Some(hms_or_midnight(s@)),
                    Option::None => Option::None,
                },
                end_date_ms: match updated.end_date {
                    Option::Some(s) => Option::Some(millis_or_epoch(s@)),
                    Option::None => Option::None,
                },
                labels: updated.labels,
                hardware_constraints: updated.hardware_constraints,
                last_cache_ms: now_ms,
                ..*old(self)
            }),
            final(self).time_wf() == (0 <= old(self).update_cache_time_ms),
    {
        match updated.name {
            Some(n) => {
                self.name = n;
            },
            None => {},
        }
        self.shortname = updated.shortname;
        self.profile = updated.profile;
        self.pool_uuid = updated.pool_uuid;
        self.job_uuid = updated.job_uuid;
        self.instance_count = updated.instance_count;
        self.advanced_range = updated.advanced_ranges;
        self.wait_for_pool_resources_synchronization =
            updated.wait_for_pool_resources_synchronization;
        self.uuid = updated.uuid;
        self.state = match updated.state {
            Some(s) => Some(State::from(s.as_str())),
            None => None,
        };
        self.tags = updated.tags;
        match updated.upload_results_on_cancellation {
            Some(u) => {
                self.upload_results_on_cancellation = u;
            },
            None => {},
        }
        self.previous_state = updated.previous_state;
        self.last_modified_ms = match updated.last_modified {
            Some(s) => Some(
                match parse_datetime_millis(s.as_str()) {
                    Some(ms) => ms,
                    None => 0,
                },
            ),
            None => None,
        };
        self.progress_milli = updated.progress_milli;
        self.execution_time_sec = match updated.execution_time {
            Some(s) => Some(
                match parse_hms_seconds(s.as_str()) {
                    Some(v) => v,
                    None => 0,
                },
            ),
            None => None,
        };
        self.wall_time_sec = match updated.wall_time {
            Some(s) => Some(
                match parse_hms_seconds(s.as_str()) {
                    Some(v) => v,
                    None => 0,
                },
            ),
            None => None,
        };
        self.end_date_ms = match updated.end_date {
            Some(s) => Some(
                match parse_datetime_millis(s.as_str()) {
                    Some(ms) => ms,
                    None => 0,
                },
            ),
            None => None,
        };
        self.labels = updated.labels;
        self.hardware_constraints = updated.hardware_constraints;
        self.last_cache_ms = now_ms;
    }

    /// One step of waiting for completion. An unsubmitted task cannot be
    /// waited on: that is a usage error, reported at once with no remote
    /// call. A submitted task is done exactly when a state was observed and
    /// it is terminal; otherwise the caller must poll again.
    pub fn wait_status(&self) -> (r: Result<bool, ComputeError>)
        ensures
            self.uuid is None ==> r == Result::<bool, ComputeError>::Err(ComputeError::Generic),
            self.uuid is Some ==> r == Result::<bool, ComputeError>::Ok(
                self.state matches Some(s) && !s.spec_is_running_or_downloading(),
            ),
    {
        match &self.uuid {
            None => Err(ComputeError::Generic),
            Some(_) => match &self.state {
                None => Ok(false),
                Some(s) => Ok(!s.is_running_or_downloading()),
            },
        }
    }

    /// The payload a commit pushes: the mutable trio (constants,
    /// constraints, tags), for a submitted task. An unsubmitted task has
    /// nothing to commit and no payload is produced.
    pub fn commit_input(&self) -> (r: Option<TaskUpdateInput>)
        ensures
            self.uuid is None ==> r is None,
            self.uuid is Some ==> (r matches Some(u) && {
                &&& opt_constants_view(u.constants) == opt_constants_view(self.constants)
                &&& opt_constants_view(u.constraints) == opt_constants_view(self.constraints)
                &&& opt_vec_eq(u.tags, self.tags)
            }),
    {
        match &self.uuid {
            None => None,
            Some(_) => Some(
                TaskUpdateInput {
                    constants: clone_opt_constants(&self.constants),
                    constraints: clone_opt_constants(&self.constraints),
                    tags: clone_opt_vec_string(&self.tags),
                },
            ),
        }
    }

    /// Where a log read (stdout or stderr) comes from: an unsubmitted
    /// task's log is the empty string, ready locally with no remote call; a
    /// submitted task's log is fetched for its id.
    pub fn log_source(&self) -> (r: LogSource)
        ensures
            self.uuid is None ==> (r matches LogSource::Ready(s) && s@ == Seq::<char>::empty()),
            self.uuid matches Some(u) ==> (r matches LogSource::Remote(id) && id == u),
    {
        match &self.uuid {
            None => LogSource::Ready(String::new()),
            Some(u) => LogSource::Remote(u.clone()),
        }
    }
}

/// Poll throttling: right after a refresh at `now1`, an unforced update at
/// `now2` fetches again exactly when the throttle window has elapsed. Two
/// unforced updates within one window thus perform one remote fetch; two
/// updates more than a window apart perform two.
pub proof fn lemma_poll_throttle(after: Task, now1: i64, now2: i64)
    requires
        after.uuid is Some,
        after.last_cache_ms == now1,
    ensures
        now2 - now1 < after.update_cache_time_ms ==> !spec_should_fetch(after, false, now2),
        now2 - now1 >= after.update_cache_time_ms ==> spec_should_fetch(after, false, now2),
{
}

/// Clones an optional vector of resource buckets; the clone's view equals
/// the original's.
fn clone_opt_vec_resources_bucket(o: &Option<Vec<ResourcesBucket>>) -> (r: Option<
    Vec<ResourcesBucket>,
>)
    ensures
        opt_vec_eq(r, *o),
{
    match o {
        None => None,
        Some(v) => {
            let mut out: Vec<ResourcesBucket> = Vec::new();
            let n = v.len();
            let mut i: usize = 0;
            while i < n
                invariant
                    i <= n,
                    n == v@.len(),
                    out@.len() == i,
                    forall|j: int| 0 <= j < i ==> out@[j] == v@[j],
                decreases n - i,
            {
                out.push(v[i].clone());
                i += 1;
            }
            proof {
                assert(out@ =~= v@);
            }
            Some(out)
        },
    }
}

/// Clones an optional vector of hardware constraints; the clone's view
/// equals the original's.
fn clone_opt_vec_hardware(o: &Option<Vec<HardwareConstraintVariant>>) -> (r: Option<
    Vec<HardwareConstraintVariant>,
>)
    ensures
        opt_vec_eq(r, *o),
{
    match o {
        None => None,
        Some(v) => {
            let mut out: Vec<HardwareConstraintVariant> = Vec::new();
            let n = v.len();
            let mut i: usize = 0;
            while i < n
                invariant
                    i <= n,
                    n == v@.len(),
                    out@.len() == i,
                    forall|j: int| 0 <= j < i ==> out@[j] == v@[j],
                decreases n - i,
            {
                out.push(v[i].clone());
                i += 1;
            }
            proof {
                assert(out@ =~= v@);
            }
            Some(out)
        },
    }
}

/// Clones an optional vector of key/value label pairs; the clone's view
/// equals the original's.
fn clone_opt_vec_pairs(o: &Option<Vec<(String, String)>>) -> (r: Option<Vec<(String, String)>>)
    ensures
        opt_vec_eq(r, *o),
{
    match o {
        None => None,
        Some(v) => {
            let mut out: Vec<(String, String)> = Vec::new();
            let n = v.len();
            let mut i: usize = 0;
            while i < n
                invariant
                    i <= n,
                    n == v@.len(),
                    out@.len() == i,
                    forall|j: int| 0 <= j < i ==> out@[j] == v@[j],
                decreases n - i,
            {
                out.push((v[i].0.clone(), v[i].1.clone()));
                i += 1;
            }
            proof {
                assert(out@ =~= v@);
            }
            Some(out)
        },
    }
}

/// Clones optional constants; the clone denotes the same map.
fn clone_opt_constants(o: &Option<Constants>) -> (r: Option<Constants>)
    ensures
        opt_constants_view(r) == opt_constants_view(*o),
{
    match o {
        None => None,
        Some(c) => Some(c.clone()),
    }
}

} // verus!
