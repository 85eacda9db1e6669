//! Choosing how the command line is obtained, and decoding what comes back.
use vstd::prelude::*;
use crate::wide::{decode_utf16_lossy, utf16_lossy};

verus! {

/// Whether an OS version supports the dedicated command-line query
/// (6.3 or later); a failed version query counts as supporting it.
pub open spec fn supports_dedicated_query(version: Option<(u32, u32)>) -> bool {
    match version {
        None => true,
        Some((major, minor)) => major > 6 || (major == 6 && minor >= 3),
    }
}

/// The feature probe: decides from the OS version, if it could be read.
pub fn is_windows_8_1_or_newer(version: Option<(u32, u32)>) -> (r: bool)
    ensures
        r == supports_dedicated_query(version),
{
    match version {
        None => true,
        Some((major, minor)) => major > 6 || (major == 6 && minor >= 3),
    }
}

/// Where the raw command line comes from.
#[derive(Clone, Copy, Debug, PartialEq, Eq, Structural)]
pub enum CmdLineSource {
    /// The dedicated variable-size query.
    DedicatedQuery,
    /// The command-line range of the parameter structure.
    ParameterBlock,
}

/// Picks the source of the command line from the cached feature probe.
pub fn get_cmd_line(dedicated_supported: bool) -> (r: CmdLineSource)
    ensures
        dedicated_supported ==> r == CmdLineSource::DedicatedQuery,
        !dedicated_supported ==> r == CmdLineSource::ParameterBlock,
{
    if dedicated_supported {
        CmdLineSource::DedicatedQuery
    } else {
        CmdLineSource::ParameterBlock
    }
}

/// The 64-bit value held in the four units from `i` on, little end first.
pub open spec fn units_u64(s: Seq<u16>, i: int) -> u64 {
    (s[i] as u64) | ((s[i + 1] as u64) << 16u64) | ((s[i + 2] as u64) << 32u64) | ((s[i + 3]
        as u64) << 48u64)
}

/// Units of the string descriptor that opens the dedicated query's buffer.
pub const DESCRIPTOR_UNITS: usize = 8;

/// The payload of the dedicated query's buffer, located at `base`: the
/// descriptor gives the payload's byte length (unit 0) and address (units 4
/// to 7); the payload must lie in the buffer at an even offset. It comes back
/// with a terminator after it.
pub open spec fn payload_of(buffer: Seq<u16>, base: u64) -> Option<Seq<u16>> {
    if buffer.len() < DESCRIPTOR_UNITS {
        None
    } else {
        let len = buffer[0] / 2;
        let addr = units_u64(buffer, 4);
        if addr < base || (addr - base) % 2 != 0 {
            None
        } else {
            let start = (addr - base) / 2;
            if start + len > buffer.len() {
                None
            } else {
                Some(buffer.subrange(start, start + len).push(0))
            }
        }
    }
}

/// Extracts the command line from the buffer of the dedicated query, which
/// lies at address `base`; `None` when the descriptor points outside it.
pub fn get_cmd_line_new(buffer: &[u16], base: u64) -> (r: Option<Vec<u16>>)
    ensures
        payload_of(buffer@, base) == match r { Some(v) => Some(v@), None => None::<Seq<u16>> },
{
    if buffer.len() < DESCRIPTOR_UNITS {
        return None;
    }
    let len: usize = (buffer[0] / 2) as usize;
    let addr: u64 = (buffer[4] as u64) | ((buffer[5] as u64) << 16u64) | ((buffer[6] as u64)
        << 32u64) | ((buffer[7] as u64) << 48u64);
    if addr < base || (addr - base) % 2 != 0 {
        return None;
    }
    let offset: u64 = (addr - base) / 2;
    if offset > buffer.len() as u64 || len > buffer.len() - offset as usize {
        return None;
    }
    let start: usize = offset as usize;
    let mut payload: Vec<u16> = Vec::new();
    let end: usize = start + len;
    let mut i: usize = start;
    while i < end
        invariant
            end == start + len,
            end <= buffer@.len(),
            start <= i <= end,
            payload@ == buffer@.subrange(start as int, i as int),
        decreases end - i,
    {
        payload.push(buffer[i]);
        i = i + 1;
    }
    payload.push(0);
    Some(payload)
}

/// Decodes each argument that the platform's splitter found.
pub fn get_cmdline_from_buffer(args: &Vec<Vec<u16>>) -> (r: Vec<String>)
    ensures
        r@.len() == args@.len(),
        forall|i: int| 0 <= i < args@.len() ==> r@[i]@ == utf16_lossy(args@[i]@),
{
    let mut r: Vec<String> = Vec::new();
    let mut i: usize = 0;
    while i < args.len()
        invariant
            0 <= i <= args@.len(),
            r@.len() == i,
            forall|k: int| 0 <= k < i ==> r@[k]@ == utf16_lossy(args@[k]@),
        decreases args@.len() - i,
    {
        r.push(decode_utf16_lossy(args[i].as_slice()));
        i = i + 1;
    }
    r
}

} // verus!
