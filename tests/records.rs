use procinfo::cpu::{CPUsageCalculationValues, CpuTimes};
use procinfo::handle::{get_process_handler, parent_from_inherited, PROCESS_QUERY_INFORMATION, PROCESS_VM_READ};
use procinfo::time::{check_sub, filetime_to_u64, get_start_and_run_time};
use procinfo::{
    compute_cpu_usage, get_executable_path, update_disk_usage, update_memory, IoTotals,
    MemoryCounters, OpenedProcess, Pid, Process, ProcessParams, ProcessStatus,
};

fn opened(exe: &str, ticks: u64) -> OpenedProcess {
    OpenedProcess {
        exe: exe.to_string(),
        params: Some(ProcessParams {
            cmd: vec!["app".to_string(), "-v".to_string()],
            environ: vec!["A=1".to_string()],
            cwd: "/home".to_string(),
        }),
        start_ticks: ticks,
    }
}

fn times(pk: u64, pu: u64, mk: u64, mu: u64) -> CpuTimes {
    CpuTimes { process_kernel: pk, process_user: pu, machine_kernel: mk, machine_user: mu }
}

fn percent(p: &Process) -> f64 {
    let u = p.cpu_usage();
    100.0 * (u.busy_ticks as f64 / u.window_ticks as f64) * u.processors as f64
}

#[test]
fn check_sub_clamps_to_minuend() {
    assert_eq!(check_sub(10, 3), 7);
    assert_eq!(check_sub(3, 10), 3);
    assert_eq!(check_sub(5, 5), 0);
}

#[test]
fn filetime_halves_join() {
    assert_eq!(filetime_to_u64(0x89ab_cdef, 0x0123_4567), 0x0123_4567_89ab_cdef);
    assert_eq!(filetime_to_u64(7, 0), 7);
}

#[test]
fn start_time_example() {
    let (start, run) = get_start_and_run_time(132_670_000_000_000_000, 1_622_526_500);
    assert_eq!(start, 1_622_526_400);
    assert_eq!(run, 100);
}

#[test]
fn run_time_clamp_when_now_precedes_start() {
    let (start, run) = get_start_and_run_time(132_670_000_000_000_000, 1_000);
    assert_eq!(start, 1_622_526_400);
    assert_eq!(run, 1_000);
}

#[test]
fn start_before_unix_epoch_counts_as_zero() {
    let (start, run) = get_start_and_run_time(0, 42);
    assert_eq!(start, 0);
    assert_eq!(run, 42);
    // 13,267,000 seconds after the OS epoch is still before the Unix epoch
    assert_eq!(get_start_and_run_time(132_670_000_000_000, 5), (0, 5));
}

#[test]
fn pid_zero_gets_no_handle() {
    assert_eq!(get_process_handler(Pid(0), true), None);
    assert_eq!(get_process_handler(Pid(0), false), None);
}

#[test]
fn rights_requested_per_path() {
    assert_eq!(get_process_handler(Pid(4), true), Some(PROCESS_QUERY_INFORMATION | PROCESS_VM_READ));
    assert_eq!(get_process_handler(Pid(4), true), Some(0x410));
    assert_eq!(get_process_handler(Pid(4), false), Some(0x400));
}

#[test]
fn parent_zero_means_none() {
    assert_eq!(parent_from_inherited(0), None);
    assert_eq!(parent_from_inherited(12), Some(Pid(12)));
}

#[test]
fn executable_path_unknown_without_handle() {
    assert_eq!(get_executable_path(Pid(9)), "");
}

#[test]
fn cpu_values_start_at_zero() {
    let v = CPUsageCalculationValues::new();
    assert_eq!(v.old_process_sys_cpu, 0);
    assert_eq!(v.old_process_user_cpu, 0);
    assert_eq!(v.old_system_sys_cpu, 0);
    assert_eq!(v.old_system_user_cpu, 0);
}

#[test]
fn cpu_usage_example() {
    let mut p = Process::new_full(Pid(3), None, 0, 0, "p".to_string(), 0, None);
    compute_cpu_usage(&mut p, times(100, 100, 1000, 1000), 4);
    compute_cpu_usage(&mut p, times(150, 300, 2000, 2000), 4);
    let u = p.cpu_usage();
    assert_eq!(u.busy_ticks, 250);
    assert_eq!(u.window_ticks, 2000);
    assert_eq!(u.processors, 4);
    assert_eq!(percent(&p), 50.0);
}

#[test]
fn identical_readings_give_zero_usage() {
    let mut p = Process::new_full(Pid(3), None, 0, 0, "p".to_string(), 0, None);
    compute_cpu_usage(&mut p, times(100, 300, 5000, 7000), 2);
    assert!(percent(&p) > 0.0);
    compute_cpu_usage(&mut p, times(100, 300, 5000, 7000), 2);
    assert_eq!(p.cpu_usage().busy_ticks, 0);
    assert_eq!(percent(&p), 0.0);
}

#[test]
fn regressed_counters_are_clamped() {
    let mut p = Process::new_full(Pid(3), None, 0, 0, "p".to_string(), 0, None);
    compute_cpu_usage(&mut p, times(100, 100, 1000, 1000), 1);
    compute_cpu_usage(&mut p, times(50, 150, 1500, 900), 1);
    let u = p.cpu_usage();
    // kernel regressed: its delta is the new value itself (50)
    assert_eq!(u.busy_ticks, 50 + 50);
    // machine user regressed: its delta is 900
    assert_eq!(u.window_ticks, 500 + 900);
}

#[test]
fn empty_window_still_advances_state() {
    let mut p = Process::new_full(Pid(3), None, 0, 0, "p".to_string(), 0, None);
    compute_cpu_usage(&mut p, times(10, 10, 0, 0), 1);
    assert_eq!(p.cpu_usage().busy_ticks, 0);
    assert_eq!(p.cpu_calc_values.old_process_sys_cpu, 10);
    assert_eq!(p.cpu_calc_values.old_process_user_cpu, 10);
    compute_cpu_usage(&mut p, times(20, 10, 100, 0), 1);
    assert_eq!(p.cpu_usage().busy_ticks, 10);
    assert_eq!(p.cpu_usage().window_ticks, 100);
}

#[test]
fn disk_usage_deltas() {
    let mut p = Process::new_full(Pid(3), None, 0, 0, "p".to_string(), 0, None);
    update_disk_usage(&mut p, Some(IoTotals { read_bytes: 100, written_bytes: 40 }));
    update_disk_usage(&mut p, Some(IoTotals { read_bytes: 130, written_bytes: 50 }));
    let d = p.disk_usage();
    assert_eq!(d.read_bytes, 30);
    assert_eq!(d.total_read_bytes, 130);
    assert_eq!(d.written_bytes, 10);
    assert_eq!(d.total_written_bytes, 50);
    update_disk_usage(&mut p, None);
    assert_eq!(p.disk_usage(), d);
}

#[test]
fn disk_usage_regression_is_clamped() {
    let mut p = Process::new_full(Pid(3), None, 0, 0, "p".to_string(), 0, None);
    update_disk_usage(&mut p, Some(IoTotals { read_bytes: 100, written_bytes: 40 }));
    update_disk_usage(&mut p, Some(IoTotals { read_bytes: 60, written_bytes: 10 }));
    let d = p.disk_usage();
    assert_eq!(d.read_bytes, 60);
    assert_eq!(d.written_bytes, 10);
}

#[test]
fn memory_in_decimal_kilobytes() {
    let mut p = Process::new_full(Pid(3), None, 7, 8, "p".to_string(), 0, None);
    update_memory(&mut p, Some(MemoryCounters { working_set: 2_048_999, private_usage: 1_024 }));
    assert_eq!(p.memory(), 2_048);
    assert_eq!(p.virtual_memory(), 1);
    update_memory(&mut p, None);
    assert_eq!(p.memory(), 2_048);
}

#[test]
fn degraded_record_without_handle() {
    let p = Process::new_full(Pid(5), Some(Pid(1)), 10, 20, "svc".to_string(), 99, None);
    assert_eq!(p.name(), "svc");
    assert_eq!(p.pid(), Pid(5));
    assert_eq!(p.parent(), Some(Pid(1)));
    assert_eq!(p.exe(), "");
    assert_eq!(p.root(), "");
    assert_eq!(p.cwd(), "");
    assert!(p.cmd().is_empty());
    assert!(p.environ().is_empty());
    assert_eq!(p.start_time(), 0);
    assert_eq!(p.run_time(), 0);
    assert_eq!(p.memory(), 10);
    assert_eq!(p.virtual_memory(), 20);
    assert_eq!(p.status(), ProcessStatus::Run);
    assert!(p.updated);
}

#[test]
fn full_record_with_handle() {
    let p = Process::new_full(
        Pid(5),
        None,
        1,
        2,
        "app".to_string(),
        1_622_526_410,
        Some(opened("/opt/tools/app", 132_670_000_000_000_000)),
    );
    assert_eq!(p.exe(), "/opt/tools/app");
    assert_eq!(p.root(), "/opt/tools");
    assert_eq!(p.cmd(), &["app".to_string(), "-v".to_string()][..]);
    assert_eq!(p.environ(), &["A=1".to_string()][..]);
    assert_eq!(p.cwd(), "/home");
    assert_eq!(p.start_time(), 1_622_526_400);
    assert_eq!(p.run_time(), 10);
}

#[test]
fn missing_params_leave_fields_empty() {
    let o = OpenedProcess { exe: "/bin/x".to_string(), params: None, start_ticks: 132_670_000_000_000_000 };
    let p = Process::new_with_handle(Pid(2), None, "x".to_string(), 0, 0, o, 1_622_526_400);
    assert!(p.cmd().is_empty());
    assert!(p.environ().is_empty());
    assert_eq!(p.cwd(), "");
    assert_eq!(p.root(), "/bin");
    assert_eq!(p.run_time(), 0);
}

#[test]
fn record_from_pid() {
    let p = Process::new_from_pid(Pid(8), Some(4), Some("x.exe".to_string()), opened("/a/x.exe", 0), 5)
        .unwrap();
    assert_eq!(p.parent(), Some(Pid(4)));
    assert_eq!(p.name(), "x.exe");
    assert_eq!(p.memory(), 0);
    let q = Process::new_from_pid(Pid(8), Some(0), None, opened("/a/x.exe", 0), 5).unwrap();
    assert_eq!(q.parent(), None);
    assert_eq!(q.name(), "");
    assert!(Process::new_from_pid(Pid(8), None, None, opened("/a/x.exe", 0), 5).is_none());
    assert!(Process::new_from_pid(Pid(0), Some(4), None, opened("/a/x.exe", 0), 5).is_none());
}

#[test]
fn refresh_selects_samplers() {
    let mut p = Process::new_full(
        Pid(5),
        None,
        0,
        0,
        "app".to_string(),
        0,
        Some(opened("/x/app", 132_670_000_000_000_000)),
    );
    p.updated = false;
    p.update(Some(times(0, 0, 10, 10)), None, 1, 1_622_526_460);
    assert_eq!(p.run_time(), 60);
    assert!(p.updated);
    assert_eq!(p.cpu_calc_values.old_system_user_cpu, 10);
    assert_eq!(p.disk_usage().total_read_bytes, 0);
    p.update(None, Some(IoTotals { read_bytes: 5, written_bytes: 6 }), 1, 1_622_526_470);
    assert_eq!(p.disk_usage().read_bytes, 5);
    assert_eq!(p.cpu_calc_values.old_system_user_cpu, 10);
    assert_eq!(p.run_time(), 70);
    p.update(None, None, 1, 100);
    assert_eq!(p.run_time(), 100);
}

#[test]
fn status_names() {
    assert_eq!(ProcessStatus::Run.to_string(), "Runnable");
    assert_eq!(ProcessStatus::Unknown.to_string(), "Unknown");
}
