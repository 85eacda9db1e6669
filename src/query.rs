//! Two-phase negotiation of the buffer for an information query whose result
//! size is not known up front.
use vstd::prelude::*;

verus! {

/// Status: the buffer was too small and the data was truncated.
pub const STATUS_BUFFER_OVERFLOW: u32 = 0x8000_0005;
/// Status: the buffer is too small to hold the data.
pub const STATUS_BUFFER_TOO_SMALL: u32 = 0xC000_0023;
/// Status: the buffer length does not match what the class needs.
pub const STATUS_INFO_LENGTH_MISMATCH: u32 = 0xC000_0004;

/// A status denotes success when its severity bit is clear.
pub open spec fn nt_success(status: u32) -> bool {
    status < 0x8000_0000
}

/// A status of the first phase that reports the size needed.
pub open spec fn reports_size(status: u32) -> bool {
    status == STATUS_BUFFER_OVERFLOW || status == STATUS_BUFFER_TOO_SMALL
        || status == STATUS_INFO_LENGTH_MISMATCH
}

/// Tells whether a query status denotes success.
pub fn is_success(status: u32) -> (r: bool)
    ensures
        r == nt_success(status),
{
    status < 0x8000_0000
}

/// The buffer of the second phase: how many wide units it holds and how many
/// bytes the query is told it has.
#[derive(Clone, Copy, Debug, PartialEq, Eq, Structural)]
pub struct QueryBuffer {
    pub units: usize,
    pub byte_len: u32,
}

/// The second-phase buffer owed after a first phase that ended with
/// `status`, having reported `reported_bytes`: the query is told the reported
/// length, in a buffer of enough units to hold every byte of it; `None` when
/// the status is no size report, so that the class counts as unsupported.
pub open spec fn sizing_of(status: u32, reported_bytes: u32) -> Option<QueryBuffer> {
    if reports_size(status) {
        Some(QueryBuffer { units: ((reported_bytes as int + 1) / 2) as usize, byte_len: reported_bytes })
    } else {
        None
    }
}

/// First phase: from the answer to a query with an empty buffer, the buffer
/// to allocate for the second one.
pub fn query_buffer_len(status: u32, reported_bytes: u32) -> (r: Option<QueryBuffer>)
    ensures
        r == sizing_of(status, reported_bytes),
{
    if status == STATUS_BUFFER_OVERFLOW || status == STATUS_BUFFER_TOO_SMALL
        || status == STATUS_INFO_LENGTH_MISMATCH {
        let units: u32 = reported_bytes / 2 + reported_bytes % 2;
        Some(QueryBuffer { units: units as usize, byte_len: reported_bytes })
    } else {
        None
    }
}

/// Allocates the second-phase buffer: `size.units` zeroed units, with room
/// reserved for the terminator.
pub fn query_buffer(size: QueryBuffer) -> (r: Vec<u16>)
    ensures
        r@.len() == size.units,
        forall|i: int| 0 <= i < r@.len() ==> r@[i] == 0,
{
    let mut r: Vec<u16> = Vec::with_capacity(size.units);
    let mut i: usize = 0;
    while i < size.units
        invariant
            0 <= i <= size.units,
            r@.len() == i,
            forall|k: int| 0 <= k < i ==> r@[k] == 0,
        decreases size.units - i,
    {
        r.push(0);
        i = i + 1;
    }
    r
}

/// What the second phase yields: the filled buffer of the negotiated size
/// with one terminator unit after it on success, nothing otherwise.
pub open spec fn fill_of(size: QueryBuffer, status: u32, filled: Seq<u16>) -> Option<Seq<u16>> {
    if nt_success(status) && filled.len() == size.units {
        Some(filled.push(0))
    } else {
        None
    }
}

/// Second phase: the buffer of `size` that the query filled, ended by a
/// terminator; `None` when the query failed or the buffer is not the one
/// negotiated.
pub fn ph_query_process_variable_size(size: QueryBuffer, status: u32, filled: Vec<u16>) -> (r: Option<Vec<u16>>)
    ensures
        fill_of(size, status, filled@) == match r { Some(v) => Some(v@), None => None::<Seq<u16>> },
{
    if is_success(status) && filled.len() == size.units {
        let mut buffer = filled;
        buffer.push(0);
        Some(buffer)
    } else {
        None
    }
}

/// After a first phase that reported `reported_bytes`, the second phase is
/// told exactly that length, in a buffer that holds every byte of it (half
/// as many units when the length is even); when it succeeds it yields that
/// buffer, unchanged, plus one terminator, and when it fails it yields
/// nothing at all.
pub proof fn lemma_negotiated_buffer(first: u32, reported_bytes: u32, second: u32, filled: Seq<u16>)
    requires
        reports_size(first),
    ensures
        sizing_of(first, reported_bytes) is Some,
        sizing_of(first, reported_bytes).unwrap().byte_len == reported_bytes,
        2 * sizing_of(first, reported_bytes).unwrap().units >= reported_bytes,
        2 * sizing_of(first, reported_bytes).unwrap().units <= reported_bytes + 1,
        reported_bytes % 2 == 0 ==> sizing_of(first, reported_bytes).unwrap().units == reported_bytes / 2,
        ({
            let size = sizing_of(first, reported_bytes).unwrap();
            &&& filled.len() == size.units && nt_success(second) ==> fill_of(size, second, filled) is Some
                && fill_of(size, second, filled).unwrap().len() == size.units + 1
                && fill_of(size, second, filled).unwrap().subrange(0, size.units as int) == filled
                && fill_of(size, second, filled).unwrap().last() == 0
            &&& !nt_success(second) ==> fill_of(size, second, filled) is None
        }),
{
    assert(filled.push(0).subrange(0, filled.len() as int) == filled);
}

} // verus!
