//! Clamped subtraction and the conversion of OS creation times to Unix seconds.
use vstd::prelude::*;

verus! {

/// Ticks (100 ns units) in one second.
pub const TICKS_PER_SECOND: u64 = 10_000_000;

/// Seconds between the OS epoch (1601-01-01) and the Unix epoch (1970-01-01).
pub const EPOCH_OFFSET_SECONDS: u64 = 11_644_473_600;

/// The clamp used for every difference of counters: `a - b`, or `a` itself
/// when `b` is larger.
pub open spec fn clamped_sub(a: u64, b: u64) -> u64 {
    if a < b {
        a
    } else {
        (a - b) as u64
    }
}

/// Subtracts `b` from `a`; when `a < b` the result is `a` unchanged.
pub fn check_sub(a: u64, b: u64) -> (r: u64)
    ensures
        r == clamped_sub(a, b),
{
    if a < b {
        a
    } else {
        a - b
    }
}

/// A clamped difference never exceeds its minuend, and is the plain
/// difference whenever that difference is not negative.
pub proof fn lemma_clamped_sub_bounds(a: u64, b: u64)
    ensures
        0 <= clamped_sub(a, b) <= a,
        a >= b ==> clamped_sub(a, b) == a - b,
        a < b ==> clamped_sub(a, b) == a,
{
}

/// The 64-bit tick count held in the two halves of an OS time value.
pub open spec fn ticks_of(low: u32, high: u32) -> u64 {
    ((high as u64) << 32u64) | (low as u64)
}

/// Joins the low and high halves of an OS time value.
pub fn filetime_to_u64(low: u32, high: u32) -> (r: u64)
    ensures
        r == ticks_of(low, high),
        r == high as int * 0x1_0000_0000 + low as int,
{
    let r = ((high as u64) << 32u64) | (low as u64);
    assert(((high as u64) << 32u64) | (low as u64) == (high as u64) * 0x1_0000_0000u64 + (low as u64))
        by (bit_vector);
    r
}

/// Unix start time of a process created `ticks` after the OS epoch; a
/// creation time before the Unix epoch counts as zero.
pub open spec fn start_time_of(ticks: u64) -> u64 {
    let seconds = ticks / TICKS_PER_SECOND;
    if seconds >= EPOCH_OFFSET_SECONDS {
        (seconds - EPOCH_OFFSET_SECONDS) as u64
    } else {
        0
    }
}

/// Start time (Unix seconds) and run time (seconds up to `now`) of a process
/// whose creation time is `ticks` 100 ns units after the OS epoch.
pub fn get_start_and_run_time(ticks: u64, now: u64) -> (r: (u64, u64))
    ensures
        r.0 == start_time_of(ticks),
        r.1 == clamped_sub(now, r.0),
{
    let seconds = ticks / TICKS_PER_SECOND;
    let start = if seconds >= EPOCH_OFFSET_SECONDS {
        seconds - EPOCH_OFFSET_SECONDS
    } else {
        0
    };
    (start, check_sub(now, start))
}

} // verus!
