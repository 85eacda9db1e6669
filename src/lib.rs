//! Per-process resource introspection: the decisions, decoders and usage
//! samplers behind a process record, over plain values read from the OS.
pub mod cmdline;
pub mod cpu;
pub mod handle;
pub mod layout;
pub mod process;
pub mod query;
pub mod time;
pub mod wide;

pub use cpu::{CPUsageCalculationValues, CpuTimes, CpuUsage};
pub use handle::{get_executable_path, Pid};
pub use process::{
    compute_cpu_usage, update_disk_usage, update_memory, DiskUsage, IoTotals, MemoryCounters,
    OpenedProcess, Process, ProcessParams, ProcessStatus,
};
pub use time::{check_sub, filetime_to_u64, get_start_and_run_time};
