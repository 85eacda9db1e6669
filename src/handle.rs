//! Which rights to ask for when opening a process, and when not to open one.
use vstd::prelude::*;

verus! {

/// A process identifier.
#[derive(Clone, Copy, Debug, PartialEq, Eq, Structural, Hash)]
pub struct Pid(pub usize);

/// Right to query a process's information.
pub const PROCESS_QUERY_INFORMATION: u32 = 0x0400;
/// Right to read a process's memory.
pub const PROCESS_VM_READ: u32 = 0x0010;

/// The rights to request for `pid`; `None` for the sentinel pid 0, for which
/// no open is attempted. `read_memory` adds the right to read its memory.
pub open spec fn rights_for(pid: Pid, read_memory: bool) -> Option<u32> {
    if pid.0 == 0 {
        None
    } else if read_memory {
        Some((PROCESS_QUERY_INFORMATION | PROCESS_VM_READ) as u32)
    } else {
        Some(PROCESS_QUERY_INFORMATION)
    }
}

/// The access rights with which to open `pid`, or `None` when it must not be
/// opened at all.
pub fn get_process_handler(pid: Pid, read_memory: bool) -> (r: Option<u32>)
    ensures
        r == rights_for(pid, read_memory),
        pid.0 == 0 <==> r is None,
{
    if pid.0 == 0 {
        None
    } else if read_memory {
        Some(PROCESS_QUERY_INFORMATION | PROCESS_VM_READ)
    } else {
        Some(PROCESS_QUERY_INFORMATION)
    }
}

/// The parent named by the id that a process was inherited from; 0 names none.
pub fn parent_from_inherited(inherited: usize) -> (r: Option<Pid>)
    ensures
        inherited == 0 ==> r is None,
        inherited != 0 ==> r == Some(Pid(inherited)),
{
    if inherited != 0 {
        Some(Pid(inherited))
    } else {
        None
    }
}

/// The path of the executable when no handle could be opened: not known.
pub fn get_executable_path(pid: Pid) -> (r: String)
    ensures
        r@.len() == 0,
{
    String::new()
}

} // verus!
