//! The record of one observed process: identity read once, usage refreshed
//! from readings that the caller takes from the OS.
use vstd::prelude::*;
use crate::cpu::{advanced, usage_between, CPUsageCalculationValues, CpuTimes, CpuUsage};
use crate::handle::{get_executable_path, Pid};
use crate::time::{check_sub, clamped_sub, get_start_and_run_time, start_time_of};

verus! {

/// The state of a process; this backend only ever observes running ones.
#[derive(Clone, Copy, Debug, PartialEq, Eq, Structural)]
pub enum ProcessStatus {
    Run,
    Unknown,
}

impl ProcessStatus {
    /// The display name of the status.
    pub fn to_string(&self) -> (r: String)
        ensures
            *self == ProcessStatus::Run ==> r@ == "Runnable"@,
            *self != ProcessStatus::Run ==> r@ == "Unknown"@,
    {
        match self {
            ProcessStatus::Run => String::from_str("Runnable"),
            _ => String::from_str("Unknown"),
        }
    }
}

/// Bytes read and written: totals, and the change since the previous reading.
#[derive(Clone, Copy, Debug, PartialEq, Eq, Structural)]
pub struct DiskUsage {
    pub written_bytes: u64,
    pub total_written_bytes: u64,
    pub read_bytes: u64,
    pub total_read_bytes: u64,
}

/// Cumulative I/O totals read from the OS.
#[derive(Clone, Copy, Debug, PartialEq, Eq, Structural)]
pub struct IoTotals {
    pub read_bytes: u64,
    pub written_bytes: u64,
}

/// Memory figures read from the OS, in bytes.
#[derive(Clone, Copy, Debug, PartialEq, Eq, Structural)]
pub struct MemoryCounters {
    pub working_set: u64,
    pub private_usage: u64,
}

/// What the parameter structure gave; each part empty where it could not be
/// read.
#[derive(Debug)]
pub struct ProcessParams {
    pub cmd: Vec<String>,
    pub environ: Vec<String>,
    pub cwd: String,
}

/// What was read through an open handle at creation.
#[derive(Debug)]
pub struct OpenedProcess {
    /// Full path of the main executable; empty if module enumeration failed.
    pub exe: String,
    /// `None` if the parameter structure could not be located.
    pub params: Option<ProcessParams>,
    /// Creation time, in 100 ns ticks since the OS epoch.
    pub start_ticks: u64,
}

/// What the containing directory of a path is.
pub uninterp spec fn parent_dir_of(path: Seq<char>) -> Seq<char>;

/// Relies on `PathBuf::pop`: the path cut back to its parent; the result
/// depends on the path alone.
#[verifier::external_body]
fn containing_dir(path: &String) -> (r: String)
    ensures
        r@ == parent_dir_of(path@),
{
    let mut p = std::path::PathBuf::from(path.as_str());
    p.pop();
    p.to_string_lossy().into_owned()
}

/// The record of one observed process.
#[derive(Debug)]
pub struct Process {
    pub name: String,
    pub cmd: Vec<String>,
    pub exe: String,
    pub pid: Pid,
    pub environ: Vec<String>,
    pub cwd: String,
    pub root: String,
    pub memory: u64,
    pub virtual_memory: u64,
    pub parent: Option<Pid>,
    pub status: ProcessStatus,
    pub cpu_calc_values: CPUsageCalculationValues,
    pub start_time: u64,
    pub run_time: u64,
    pub cpu_usage: CpuUsage,
    pub updated: bool,
    pub old_read_bytes: u64,
    pub old_written_bytes: u64,
    pub read_bytes: u64,
    pub written_bytes: u64,
}

/// The usage figures of a record that has not been sampled yet.
pub open spec fn fresh_usage(p: Process) -> bool {
    &&& p.status == ProcessStatus::Run
    &&& p.cpu_usage.busy_ticks == 0
    &&& p.cpu_usage.wf()
    &&& p.cpu_calc_values == CPUsageCalculationValues::new_spec()
    &&& p.updated
    &&& p.old_read_bytes == 0 && p.old_written_bytes == 0
    &&& p.read_bytes == 0 && p.written_bytes == 0
}

impl CPUsageCalculationValues {
    pub open spec fn new_spec() -> CPUsageCalculationValues {
        CPUsageCalculationValues {
            old_process_sys_cpu: 0,
            old_process_user_cpu: 0,
            old_system_sys_cpu: 0,
            old_system_user_cpu: 0,
        }
    }
}

impl Process {
    /// A record is well formed when its CPU usage has a window.
    pub open spec fn wf(&self) -> bool {
        self.cpu_usage.wf()
    }

    /// The identity fields of `self` are those of `o`.
    pub open spec fn same_identity(&self, o: &Process) -> bool {
        &&& self.name == o.name
        &&& self.cmd == o.cmd
        &&& self.exe == o.exe
        &&& self.pid == o.pid
        &&& self.environ == o.environ
        &&& self.cwd == o.cwd
        &&& self.root == o.root
        &&& self.parent == o.parent
        &&& self.status == o.status
        &&& self.start_time == o.start_time
    }

    fn fresh(
        pid: Pid,
        parent: Option<Pid>,
        name: String,
        memory: u64,
        virtual_memory: u64,
        exe: String,
        root: String,
        params: ProcessParams,
        start_time: u64,
        run_time: u64,
    ) -> (r: Process)
        ensures
            r.wf(),
            fresh_usage(r),
            r.pid == pid,
            r.parent == parent,
            r.name == name,
            r.memory == memory,
            r.virtual_memory == virtual_memory,
            r.exe == exe,
            r.root == root,
            r.cmd == params.cmd,
            r.environ == params.environ,
            r.cwd == params.cwd,
            r.start_time == start_time,
            r.run_time == run_time,
    {
        Process {
            name,
            cmd: params.cmd,
            exe,
            pid,
            environ: params.environ,
            cwd: params.cwd,
            root,
            memory,
            virtual_memory,
            parent,
            status: ProcessStatus::Run,
            cpu_calc_values: CPUsageCalculationValues::new(),
            start_time,
            run_time,
            cpu_usage: CpuUsage { busy_ticks: 0, window_ticks: 1, processors: 0 },
            updated: true,
            old_read_bytes: 0,
            old_written_bytes: 0,
            read_bytes: 0,
            written_bytes: 0,
        }
    }

    /// A record built from what an open handle gave, with the given name and
    /// memory figures: the root is the executable's directory, the times come
    /// from the creation ticks, and missing parameters leave their fields
    /// empty.
    pub fn new_with_handle(
        pid: Pid,
        parent: Option<Pid>,
        name: String,
        memory: u64,
        virtual_memory: u64,
        opened: OpenedProcess,
        now: u64,
    ) -> (r: Process)
        ensures
            r.wf(),
            fresh_usage(r),
            r.pid == pid,
            r.parent == parent,
            r.name == name,
            r.memory == memory,
            r.virtual_memory == virtual_memory,
            r.exe == opened.exe,
            r.root@ == parent_dir_of(opened.exe@),
            opened.params is Some ==> {
                &&& r.cmd == opened.params.unwrap().cmd
                &&& r.environ == opened.params.unwrap().environ
                &&& r.cwd == opened.params.unwrap().cwd
            },
            opened.params is None ==> r.cmd@.len() == 0 && r.environ@.len() == 0 && r.cwd@.len() == 0,
            r.start_time == start_time_of(opened.start_ticks),
            r.run_time == clamped_sub(now, r.start_time),
    {
        let root = containing_dir(&opened.exe);
        let params = match opened.params {
            Some(p) => p,
            None => ProcessParams { cmd: Vec::new(), environ: Vec::new(), cwd: String::new() },
        };
        let (start_time, run_time) = get_start_and_run_time(opened.start_ticks, now);
        Process::fresh(pid, parent, name, memory, virtual_memory, opened.exe, root, params, start_time, run_time)
    }

    /// A record for a process already known to the caller, which supplies its
    /// parent, memory figures and name. With `opened` (a handle could be
    /// opened) the rest is as in `new_with_handle`; without it the record is
    /// degraded: no executable, directories, arguments or environment, and
    /// zero times.
    pub fn new_full(
        pid: Pid,
        parent: Option<Pid>,
        memory: u64,
        virtual_memory: u64,
        name: String,
        now: u64,
        opened: Option<OpenedProcess>,
    ) -> (r: Process)
        ensures
            r.wf(),
            fresh_usage(r),
            r.pid == pid,
            r.parent == parent,
            r.name == name,
            r.memory == memory,
            r.virtual_memory == virtual_memory,
            opened is Some ==> {
                let o = opened.unwrap();
                &&& r.exe == o.exe
                &&& r.root@ == parent_dir_of(o.exe@)
                &&& o.params is Some ==> r.cmd == o.params.unwrap().cmd && r.environ
                    == o.params.unwrap().environ && r.cwd == o.params.unwrap().cwd
                &&& o.params is None ==> r.cmd@.len() == 0 && r.environ@.len() == 0 && r.cwd@.len() == 0
                &&& r.start_time == start_time_of(o.start_ticks)
                &&& r.run_time == clamped_sub(now, r.start_time)
            },
            opened is None ==> {
                &&& r.exe@.len() == 0 && r.root@.len() == 0 && r.cwd@.len() == 0
                &&& r.cmd@.len() == 0 && r.environ@.len() == 0
                &&& r.start_time == 0 && r.run_time == 0
            },
    {
        match opened {
            Some(o) => Process::new_with_handle(pid, parent, name, memory, virtual_memory, o, now),
            None => Process::fresh(
                pid,
                parent,
                name,
                memory,
                virtual_memory,
                get_executable_path(pid),
                String::new(),
                ProcessParams { cmd: Vec::new(), environ: Vec::new(), cwd: String::new() },
                0,
                0,
            ),
        }
    }

    /// A record for a process looked up by pid alone. There is none for the
    /// sentinel pid 0. `inherited` is the id that the basic information query
    /// gave, `None` if that query failed, in which case there is no record; `module_name` is the main module's
    /// name, `None` if module enumeration failed. Memory figures start at 0.
    pub fn new_from_pid(
        pid: Pid,
        inherited: Option<usize>,
        module_name: Option<String>,
        opened: OpenedProcess,
        now: u64,
    ) -> (r: Option<Process>)
        ensures
            pid.0 == 0 ==> r is None,
            (inherited is None || pid.0 == 0) <==> r is None,
            r is Some ==> {
                let p = r.unwrap();
                &&& p.wf()
                &&& fresh_usage(p)
                &&& p.pid == pid
                &&& p.parent == (if inherited.unwrap() == 0 { None } else { Some(Pid(inherited.unwrap())) })
                &&& module_name is Some ==> p.name == module_name.unwrap()
                &&& module_name is None ==> p.name@.len() == 0
                &&& p.memory == 0 && p.virtual_memory == 0
                &&& p.exe == opened.exe
                &&& p.root@ == parent_dir_of(opened.exe@)
                &&& opened.params is Some ==> p.cmd == opened.params.unwrap().cmd && p.environ
                    == opened.params.unwrap().environ && p.cwd == opened.params.unwrap().cwd
                &&& opened.params is None ==> p.cmd@.len() == 0 && p.environ@.len() == 0 && p.cwd@.len() == 0
                &&& p.start_time == start_time_of(opened.start_ticks)
                &&& p.run_time == clamped_sub(now, p.start_time)
            },
    {
        if pid.0 == 0 {
            return None;
        }
        match inherited {
            None => None,
            Some(id) => {
                let parent = crate::handle::parent_from_inherited(id);
                let name = match module_name {
                    Some(n) => n,
                    None => String::new(),
                };
                Some(Process::new_with_handle(pid, parent, name, 0, 0, opened, now))
            },
        }
    }
}

/// The disk usage of a record: totals, and clamped changes since the
/// previous reading.
pub open spec fn disk_usage_of(p: Process) -> DiskUsage {
    DiskUsage {
        written_bytes: clamped_sub(p.written_bytes, p.old_written_bytes),
        total_written_bytes: p.written_bytes,
        read_bytes: clamped_sub(p.read_bytes, p.old_read_bytes),
        total_read_bytes: p.read_bytes,
    }
}

/// The fields that a refresh leaves alone are unchanged from `o` to `n`.
pub open spec fn keeps_others(o: Process, n: Process) -> bool {
    &&& n.same_identity(&o)
    &&& n.memory == o.memory
    &&& n.virtual_memory == o.virtual_memory
}

/// Takes a CPU sample for the record: the usage since the previous one, with
/// the previous readings advanced to `times`.
pub fn compute_cpu_usage(p: &mut Process, times: CpuTimes, nb_processors: u64)
    ensures
        final(p).cpu_usage == usage_between(old(p).cpu_calc_values, times, nb_processors),
        final(p).cpu_calc_values == advanced(times),
        final(p).wf(),
        keeps_others(*old(p), *final(p)),
        final(p).run_time == old(p).run_time,
        final(p).updated == old(p).updated,
        final(p).read_bytes == old(p).read_bytes && final(p).written_bytes == old(p).written_bytes,
        final(p).old_read_bytes == old(p).old_read_bytes && final(p).old_written_bytes
            == old(p).old_written_bytes,
{
    let usage = p.cpu_calc_values.sample(times, nb_processors);
    p.cpu_usage = usage;
}

/// Records new I/O totals, keeping the previous ones for the deltas; a
/// failed reading (`None`) changes nothing.
pub fn update_disk_usage(p: &mut Process, totals: Option<IoTotals>)
    ensures
        totals is None ==> *final(p) == *old(p),
        totals is Some ==> {
            &&& final(p).old_read_bytes == old(p).read_bytes
            &&& final(p).old_written_bytes == old(p).written_bytes
            &&& final(p).read_bytes == totals.unwrap().read_bytes
            &&& final(p).written_bytes == totals.unwrap().written_bytes
            &&& keeps_others(*old(p), *final(p))
            &&& final(p).cpu_usage == old(p).cpu_usage
            &&& final(p).cpu_calc_values == old(p).cpu_calc_values
            &&& final(p).run_time == old(p).run_time
            &&& final(p).updated == old(p).updated
        },
{
    if let Some(t) = totals {
        p.old_read_bytes = p.read_bytes;
        p.old_written_bytes = p.written_bytes;
        p.read_bytes = t.read_bytes;
        p.written_bytes = t.written_bytes;
    }
}

/// Records the memory figures in decimal kilobytes; a failed reading
/// (`None`) changes nothing.
pub fn update_memory(p: &mut Process, counters: Option<MemoryCounters>)
    ensures
        counters is None ==> *final(p) == *old(p),
        counters is Some ==> *final(p) == (Process {
            memory: counters.unwrap().working_set / 1000,
            virtual_memory: counters.unwrap().private_usage / 1000,
            ..*old(p)
        }),
{
    if let Some(c) = counters {
        p.memory = c.working_set / 1000;
        p.virtual_memory = c.private_usage / 1000;
    }
}

impl Process {
    /// Refreshes the record at time `now`: a CPU sample when `cpu` holds
    /// readings, new I/O totals when `disk` holds them, then the run time,
    /// and marks the record as updated.
    pub fn update(&mut self, cpu: Option<CpuTimes>, disk: Option<IoTotals>, nb_processors: u64, now: u64)
        requires
            old(self).wf(),
        ensures
            keeps_others(*old(self), *final(self)),
            final(self).wf(),
            cpu is Some ==> final(self).cpu_usage == usage_between(
                old(self).cpu_calc_values,
                cpu.unwrap(),
                nb_processors,
            ) && final(self).cpu_calc_values == advanced(cpu.unwrap()),
            cpu is None ==> final(self).cpu_usage == old(self).cpu_usage
                && final(self).cpu_calc_values == old(self).cpu_calc_values,
            disk is Some ==> {
                &&& final(self).old_read_bytes == old(self).read_bytes
                &&& final(self).old_written_bytes == old(self).written_bytes
                &&& final(self).read_bytes == disk.unwrap().read_bytes
                &&& final(self).written_bytes == disk.unwrap().written_bytes
            },
            disk is None ==> disk_usage_of(*final(self)) == disk_usage_of(*old(self))
                && final(self).read_bytes == old(self).read_bytes
                && final(self).written_bytes == old(self).written_bytes
                && final(self).old_read_bytes == old(self).old_read_bytes
                && final(self).old_written_bytes == old(self).old_written_bytes,
            final(self).run_time == clamped_sub(now, old(self).start_time),
            final(self).updated,
    {
        if let Some(times) = cpu {
            compute_cpu_usage(self, times, nb_processors);
        }
        update_disk_usage(self, disk);
        self.run_time = check_sub(now, self.start_time);
        self.updated = true;
    }

    /// The disk usage: totals, and the change since the previous reading.
    pub fn disk_usage(&self) -> (r: DiskUsage)
        ensures
            r == disk_usage_of(*self),
    {
        DiskUsage {
            written_bytes: check_sub(self.written_bytes, self.old_written_bytes),
            total_written_bytes: self.written_bytes,
            read_bytes: check_sub(self.read_bytes, self.old_read_bytes),
            total_read_bytes: self.read_bytes,
        }
    }
}

/// Whatever the record and the time of a refresh, the run time is the clamped
/// difference, never below zero nor above `now`, and every usage delta lies
/// between zero and its total.
pub proof fn lemma_usage_never_negative(p: Process, now: u64)
    ensures
        0 <= clamped_sub(now, p.start_time) <= now,
        0 <= disk_usage_of(p).read_bytes <= p.read_bytes,
        0 <= disk_usage_of(p).written_bytes <= p.written_bytes,
        p.start_time <= now ==> clamped_sub(now, p.start_time) == now - p.start_time,
        p.old_read_bytes <= p.read_bytes ==> disk_usage_of(p).read_bytes == p.read_bytes - p.old_read_bytes,
        p.old_written_bytes <= p.written_bytes ==> disk_usage_of(p).written_bytes == p.written_bytes
            - p.old_written_bytes,
{
}

impl Process {
    pub fn name(&self) -> (r: &str)
        ensures
            r@ == self.name@,
    {
        self.name.as_str()
    }

    pub fn cmd(&self) -> (r: &[String])
        ensures
            r@ == self.cmd@,
    {
        self.cmd.as_slice()
    }

    pub fn exe(&self) -> (r: &str)
        ensures
            r@ == self.exe@,
    {
        self.exe.as_str()
    }

    pub fn pid(&self) -> (r: Pid)
        ensures
            r == self.pid,
    {
        self.pid
    }

    pub fn environ(&self) -> (r: &[String])
        ensures
            r@ == self.environ@,
    {
        self.environ.as_slice()
    }

    pub fn cwd(&self) -> (r: &str)
        ensures
            r@ == self.cwd@,
    {
        self.cwd.as_str()
    }

    pub fn root(&self) -> (r: &str)
        ensures
            r@ == self.root@,
    {
        self.root.as_str()
    }

    /// Resident memory, in kilobytes.
    pub fn memory(&self) -> (r: u64)
        ensures
            r == self.memory,
    {
        self.memory
    }

    /// Private committed memory, in kilobytes.
    pub fn virtual_memory(&self) -> (r: u64)
        ensures
            r == self.virtual_memory,
    {
        self.virtual_memory
    }

    pub fn parent(&self) -> (r: Option<Pid>)
        ensures
            r == self.parent,
    {
        self.parent
    }

    pub fn status(&self) -> (r: ProcessStatus)
        ensures
            r == self.status,
    {
        self.status
    }

    /// Start time, in seconds since the Unix epoch.
    pub fn start_time(&self) -> (r: u64)
        ensures
            r == self.start_time,
    {
        self.start_time
    }

    /// Seconds elapsed since the start, as of the last refresh.
    pub fn run_time(&self) -> (r: u64)
        ensures
            r == self.run_time,
    {
        self.run_time
    }

    /// The CPU usage found by the last sample.
    pub fn cpu_usage(&self) -> (r: CpuUsage)
        ensures
            r == self.cpu_usage,
    {
        self.cpu_usage
    }
}

} // verus!
