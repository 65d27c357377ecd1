//! Detail of a task's execution status as the service reports it.
//!
//! Fractional wire quantities (progress percentages, times in seconds,
//! frequencies in GHz, usage ratios, network rates in Kbps) are held as
//! integer thousandths of the wire unit, under field names ending in
//! `_milli`.
use vstd::prelude::*;

verus! {

/// Detail of the task execution status.
#[derive(Debug, Clone, Default)]
pub struct QTaskStatusOutput {
    /// Date of the status update.
    pub timestamp: Option<String>,
    /// Date of the last status update.
    pub last_update_timestamp: Option<String>,
    /// Resource download progress, in thousandths of a percent.
    pub download_progress_milli: Option<u64>,
    /// Execution progress, in thousandths of a percent.
    pub execution_progress_milli: Option<u64>,
    /// Upload progress, in thousandths of a percent.
    pub upload_progress_milli: Option<u64>,
    /// Number of running instances.
    pub instance_count: Option<i32>,
    /// Time of the resources download, as reported.
    pub download_time: Option<String>,
    /// Time of the resources download, in thousandths of a second.
    pub download_time_sec_milli: Option<u64>,
    /// Environment set-up time, as reported.
    pub environment_time: Option<String>,
    /// Environment set-up time, in thousandths of a second.
    pub environment_time_sec_milli: Option<u64>,
    /// Execution time, as reported.
    pub execution_time: Option<String>,
    /// Execution time, in thousandths of a second.
    pub execution_time_sec_milli: Option<u64>,
    /// Execution time per CPU model.
    pub execution_time_by_cpu_model: Option<Vec<CpuModelExecutionTimeOutput>>,
    /// Execution time per machine specification.
    pub execution_time_by_machine_specification: Option<Vec<TimeByMachineSpecificationOutput>>,
    /// Execution time per instance.
    pub execution_time_by_instance_id: Option<Vec<TimeByInstanceOutput>>,
    /// Relative execution time per CPU model.
    pub execution_time_ghz_by_cpu_model: Option<Vec<CpuModelExecutionTimeGhzOutput>>,
    /// Time of the results upload, as reported.
    pub upload_time: Option<String>,
    /// Time of the results upload, in thousandths of a second.
    pub upload_time_sec_milli: Option<u64>,
    /// The task's wall time, as reported.
    pub wall_time: Option<String>,
    /// The task's wall time, in thousandths of a second.
    pub wall_time_sec_milli: Option<u64>,
    /// Succeeded instances range.
    pub succeeded_range: Option<String>,
    /// Executed instances range: succeeded plus failed.
    pub executed_range: Option<String>,
    /// Failed instances range, if any.
    pub failed_range: Option<String>,
    /// Cancelled instances range, if any.
    pub cancelled_range: Option<String>,
    /// Failed instances range without the cancelled ones, if any.
    pub failed_only_range: Option<String>,
    /// Instances that started at least once.
    pub started_once_range: Option<String>,
    /// What the task's instances are currently running on.
    pub running_instances_info: Option<Box<QRunningInstancesInfoOutput>>,
}

impl QTaskStatusOutput {
    /// An empty status report.
    pub fn new() -> (r: Self)
        ensures
            r.timestamp is None,
            r.last_update_timestamp is None,
            r.download_progress_milli is None,
            r.execution_progress_milli is None,
            r.upload_progress_milli is None,
            r.instance_count is None,
            r.download_time is None,
            r.download_time_sec_milli is None,
            r.environment_time is None,
            r.environment_time_sec_milli is None,
            r.execution_time is None,
            r.execution_time_sec_milli is None,
            r.execution_time_by_cpu_model is None,
            r.execution_time_by_machine_specification is None,
            r.execution_time_by_instance_id is None,
            r.execution_time_ghz_by_cpu_model is None,
            r.upload_time is None,
            r.upload_time_sec_milli is None,
            r.wall_time is None,
            r.wall_time_sec_milli is None,
            r.succeeded_range is None,
            r.executed_range is None,
            r.failed_range is None,
            r.cancelled_range is None,
            r.failed_only_range is None,
            r.started_once_range is None,
            r.running_instances_info is None,
    {
        QTaskStatusOutput {
            timestamp: None,
            last_update_timestamp: None,
            download_progress_milli: None,
            execution_progress_milli: None,
            upload_progress_milli: None,
            instance_count: None,
            download_time: None,
            download_time_sec_milli: None,
            environment_time: None,
            environment_time_sec_milli: None,
            execution_time: None,
            execution_time_sec_milli: None,
            execution_time_by_cpu_model: None,
            execution_time_by_machine_specification: None,
            execution_time_by_instance_id: None,
            execution_time_ghz_by_cpu_model: None,
            upload_time: None,
            upload_time_sec_milli: None,
            wall_time: None,
            wall_time_sec_milli: None,
            succeeded_range: None,
            executed_range: None,
            failed_range: None,
            cancelled_range: None,
            failed_only_range: None,
            started_once_range: None,
            running_instances_info: None,
        }
    }
}

/// Relative execution time with one CPU model.
#[derive(Debug, Clone, Default)]
pub struct CpuModelExecutionTimeGhzOutput {
    /// CPU model name.
    pub model: Option<String>,
    /// Relative execution time, in thousandths of a second GHz.
    pub time_ghz_milli: Option<u64>,
    /// Clock ratio, in thousandths.
    pub clock_ratio_milli: Option<u64>,
    /// Number of cores.
    pub core: Option<u32>,
}

/// Execution time with one CPU model.
#[derive(Debug, Clone, Default)]
pub struct CpuModelExecutionTimeOutput {
    /// CPU model name.
    pub model: Option<String>,
    /// Execution time, in thousandths of a second.
    pub time_milli: Option<u64>,
    /// Number of cores.
    pub core: Option<u32>,
}

/// Execution time with one machine specification.
#[derive(Debug, Clone, Default)]
pub struct TimeByMachineSpecificationOutput {
    pub specification_key: Option<String>,
    /// Execution time, in thousandths of a second.
    pub time_milli: Option<u64>,
}

/// Execution time of one instance.
#[derive(Debug, Clone, Default)]
pub struct TimeByInstanceOutput {
    pub instance_id: Option<u32>,
    pub specification_key: Option<String>,
    pub site_uuid: Option<String>,
    /// Execution time, in thousandths of a second.
    pub time_milli: Option<u64>,
    /// Relative execution time, in thousandths of a second GHz.
    pub time_ghz_milli: Option<u64>,
    /// Clock ratio, in thousandths.
    pub clock_ration_milli: Option<u64>,
}

/// The resources a task is currently executing on.
#[derive(Debug, Clone, Default)]
pub struct QRunningInstancesInfoOutput {
    /// Detail for each running instance.
    pub per_running_instance_info: Option<Vec<QRunningInstanceInfoOutput>>,
    /// When this information was last reported.
    pub timestamp: Option<String>,
    /// Average CPU frequency, in thousandths of a GHz.
    pub average_frequency_ghz_milli: Option<u64>,
    /// Maximum CPU frequency, in thousandths of a GHz.
    pub max_frequency_ghz_milli: Option<u64>,
    /// Minimum CPU frequency, in thousandths of a GHz.
    pub min_frequency_ghz_milli: Option<u64>,
    /// Average maximum CPU frequency, in thousandths of a GHz.
    pub average_max_frequency_ghz_milli: Option<u64>,
    /// Average CPU usage, in thousandths.
    pub average_cpu_usage_milli: Option<u64>,
    /// Average ratio of maximum to actual frequency, in thousandths.
    pub cluster_power_indicator_milli: Option<u64>,
    /// Average memory usage ratio, in thousandths.
    pub average_memory_usage_milli: Option<u64>,
    /// Average inbound network rate, in thousandths of a Kbps.
    pub average_network_in_kbps_milli: Option<u64>,
    /// Average outbound network rate, in thousandths of a Kbps.
    pub average_network_out_kbps_milli: Option<u64>,
    /// Total inbound network rate, in thousandths of a Kbps.
    pub total_network_in_kbps_milli: Option<u64>,
    /// Total outbound network rate, in thousandths of a Kbps.
    pub total_network_out_kbps_milli: Option<u64>,
    /// Core information per CPU model.
    pub running_core_count_by_cpu_model: Option<Vec<CpuModelRunningCore>>,
}

/// Detailed information about one running instance.
#[derive(Debug, Clone, Default)]
pub struct QRunningInstanceInfoOutput {
    /// All active forwardings.
    pub active_forwards: Option<Vec<QTaskActiveForwardOutput>>,
    /// VPN connections.
    pub vpn_connections: Option<Vec<TaskVpnConnectionOutput>>,
    /// The instance's execution phase.
    pub phase: Option<QTaskExecutionPhaseOutput>,
    /// Id of the instance.
    pub instance_id: Option<u32>,
    /// Maximum CPU frequency, in thousandths of a GHz.
    pub max_frequency_ghz_milli: Option<u64>,
    /// Current CPU frequency, in thousandths of a GHz.
    pub current_frequency_ghz_milli: Option<u64>,
    /// CPU usage, in thousandths.
    pub cpu_usage_milli: Option<u64>,
    /// Memory available, in MB.
    pub max_memory_mb: Option<u32>,
    /// Memory currently used, in MB.
    pub current_memory_mb: Option<u32>,
    /// Ratio of used memory, in thousandths.
    pub memory_usage_milli: Option<u64>,
    /// Current inbound network rate, in thousandths of a Kbps.
    pub network_in_kbps_milli: Option<u64>,
    /// Current outbound network rate, in thousandths of a Kbps.
    pub network_out_kbps_milli: Option<u64>,
    /// The instance's progress, in thousandths of a percent.
    pub progress_milli: Option<u64>,
    /// The instance's execution time, in thousandths of a second.
    pub execution_time_sec_milli: Option<u64>,
    /// The instance's computing operations, in thousandths of a second GHz.
    pub execution_time_ghz_milli: Option<u64>,
    /// The instance's hardware specification key.
    pub specification_key: Option<String>,
    /// The instance's CPU model.
    pub cpu_model: Option<String>,
    /// The core count.
    pub core_count: Option<u32>,
    /// The number of execution attempts.
    pub execution_attempt_count: Option<u32>,
    /// Clock ratio, in thousandths.
    pub clock_ratio_milli: Option<u64>,
}

/// Core information of one CPU model.
#[derive(Debug, Clone, Default)]
pub struct CpuModelRunningCore {
    /// Name of the CPU model.
    pub model: Option<String>,
    /// Total cores of the CPU.
    pub core: Option<u32>,
    /// Number of running cores.
    pub running_corecount: Option<u32>,
}

/// One port forwarding of a running task.
#[derive(Debug, Clone, Default)]
pub struct QTaskActiveForwardOutput {
    /// Port listening inside the payload.
    pub application_port: Option<i32>,
    /// Port listening on the forwarder.
    pub forwarder_port: Option<i32>,
    /// Forwarder host.
    pub forwarder_host: Option<String>,
    /// Address the redirection is bound to on the forwarder.
    pub bind_address: Option<String>,
}

/// Execution phase of a task instance.
#[derive(Debug, Clone, Copy, PartialEq, Eq, Structural)]
pub enum QTaskExecutionPhaseOutput {
    Download,
    Dispatch,
    Environment,
    Execution,
    Shutdown,
    Upload,
}

impl QTaskExecutionPhaseOutput {
    /// The phase's name on the wire.
    pub fn wire_name(&self) -> (r: String)
        ensures
            r@ == self.spec_wire_name(),
    {
        match self {
            QTaskExecutionPhaseOutput::Download => "download".to_owned(),
            QTaskExecutionPhaseOutput::Dispatch => "dispatch".to_owned(),
            QTaskExecutionPhaseOutput::Environment => "environment".to_owned(),
            QTaskExecutionPhaseOutput::Execution => "execution".to_owned(),
            QTaskExecutionPhaseOutput::Shutdown => "shutdown".to_owned(),
            QTaskExecutionPhaseOutput::Upload => "upload".to_owned(),
        }
    }

    /// The wire spelling of each phase.
    pub open spec fn spec_wire_name(&self) -> Seq<char> {
        match self {
            QTaskExecutionPhaseOutput::Download => "download"@,
            QTaskExecutionPhaseOutput::Dispatch => "dispatch"@,
            QTaskExecutionPhaseOutput::Environment => "environment"@,
            QTaskExecutionPhaseOutput::Execution => "execution"@,
            QTaskExecutionPhaseOutput::Shutdown => "shutdown"@,
            QTaskExecutionPhaseOutput::Upload => "upload"@,
        }
    }
}

impl Default for QTaskExecutionPhaseOutput {
    /// The default phase is the resources download.
    fn default() -> (r: Self)
        ensures
            r == QTaskExecutionPhaseOutput::Download,
    {
        QTaskExecutionPhaseOutput::Download
    }
}

/// One VPN connection of a task.
#[derive(Debug, Clone, Default)]
pub struct TaskVpnConnectionOutput {
    /// Name of the VPN.
    pub vpn_name: Option<String>,
    /// Address of the VPN connection, in CIDR form.
    pub node_ip_address_cidr: Option<String>,
}

} // verus!
