//! CPU usage from successive readings of process and machine tick counters.
use vstd::prelude::*;
use crate::time::{check_sub, clamped_sub};

verus! {

/// Tick counters read at one instant: the process's kernel and user time, and
/// the machine's kernel (idle included) and user time.
#[derive(Clone, Copy, Debug, PartialEq, Eq, Structural)]
pub struct CpuTimes {
    pub process_kernel: u64,
    pub process_user: u64,
    pub machine_kernel: u64,
    pub machine_user: u64,
}

/// The readings of the previous sample.
#[derive(Clone, Copy, Debug, PartialEq, Eq, Structural)]
pub struct CPUsageCalculationValues {
    pub old_process_sys_cpu: u64,
    pub old_process_user_cpu: u64,
    pub old_system_sys_cpu: u64,
    pub old_system_user_cpu: u64,
}

/// A CPU usage, kept exact: `100 * busy_ticks / window_ticks * processors`
/// percent. `window_ticks` is never zero.
#[derive(Clone, Copy, Debug, PartialEq, Eq, Structural)]
pub struct CpuUsage {
    pub busy_ticks: u128,
    pub window_ticks: u128,
    pub processors: u64,
}

impl CpuUsage {
    pub open spec fn wf(self) -> bool {
        self.window_ticks > 0
    }

    /// Usage 0%.
    pub fn idle(processors: u64) -> (r: CpuUsage)
        ensures
            r.wf(),
            r.busy_ticks == 0,
            r.window_ticks == 1,
            r.processors == processors,
    {
        CpuUsage { busy_ticks: 0, window_ticks: 1, processors }
    }
}

impl CPUsageCalculationValues {
    /// No previous sample: every counter at zero.
    pub fn new() -> (r: Self)
        ensures
            r.old_process_sys_cpu == 0,
            r.old_process_user_cpu == 0,
            r.old_system_sys_cpu == 0,
            r.old_system_user_cpu == 0,
    {
        CPUsageCalculationValues {
            old_process_sys_cpu: 0,
            old_process_user_cpu: 0,
            old_system_sys_cpu: 0,
            old_system_user_cpu: 0,
        }
    }
}

/// The state after a sample: the readings just taken.
pub open spec fn advanced(now: CpuTimes) -> CPUsageCalculationValues {
    CPUsageCalculationValues {
        old_process_sys_cpu: now.process_kernel,
        old_process_user_cpu: now.process_user,
        old_system_sys_cpu: now.machine_kernel,
        old_system_user_cpu: now.machine_user,
    }
}

/// The usage between the previous readings and `now`: each delta clamped,
/// the window being the machine's user and kernel deltas; 0% for an empty
/// window.
pub open spec fn usage_between(old: CPUsageCalculationValues, now: CpuTimes, processors: u64) -> CpuUsage {
    let window = clamped_sub(now.machine_user, old.old_system_user_cpu) as int
        + clamped_sub(now.machine_kernel, old.old_system_sys_cpu) as int;
    let busy = clamped_sub(now.process_user, old.old_process_user_cpu) as int
        + clamped_sub(now.process_kernel, old.old_process_sys_cpu) as int;
    if window == 0 {
        CpuUsage { busy_ticks: 0, window_ticks: 1, processors }
    } else {
        CpuUsage { busy_ticks: busy as u128, window_ticks: window as u128, processors }
    }
}

impl CPUsageCalculationValues {
    /// Takes a sample: returns the usage since the previous one and keeps
    /// `now` as the previous readings, also when the window is empty.
    pub fn sample(&mut self, now: CpuTimes, processors: u64) -> (r: CpuUsage)
        ensures
            r == usage_between(*old(self), now, processors),
            r.wf(),
            *final(self) == advanced(now),
    {
        let delta_global_kernel_time = check_sub(now.machine_kernel, self.old_system_sys_cpu);
        let delta_global_user_time = check_sub(now.machine_user, self.old_system_user_cpu);
        let delta_user_time = check_sub(now.process_user, self.old_process_user_cpu);
        let delta_sys_time = check_sub(now.process_kernel, self.old_process_sys_cpu);
        let window: u128 = delta_global_user_time as u128 + delta_global_kernel_time as u128;
        self.old_process_user_cpu = now.process_user;
        self.old_process_sys_cpu = now.process_kernel;
        self.old_system_user_cpu = now.machine_user;
        self.old_system_sys_cpu = now.machine_kernel;
        if window == 0 {
            CpuUsage::idle(processors)
        } else {
            CpuUsage {
                busy_ticks: delta_user_time as u128 + delta_sys_time as u128,
                window_ticks: window,
                processors,
            }
        }
    }
}

/// Two samples in a row on the same readings: whatever the state before the
/// first, the first leaves `advanced(now)` behind, and from there the second
/// shows 0%.
pub proof fn lemma_repeated_readings_idle(now: CpuTimes, processors: u64)
    ensures
        usage_between(advanced(now), now, processors).busy_ticks == 0,
{
}

/// Every usage is well formed, its parts never below zero, and it is the
/// clamped deltas whenever the window is not empty.
pub proof fn lemma_cpu_usage_never_negative(old: CPUsageCalculationValues, now: CpuTimes, processors: u64)
    ensures
        usage_between(old, now, processors).wf(),
        usage_between(old, now, processors).busy_ticks >= 0,
        usage_between(old, now, processors).busy_ticks <= now.process_user as int + now.process_kernel as int,
{
}

} // verus!
