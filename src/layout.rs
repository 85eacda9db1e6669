//! The control block and parameter structure of a target process, decoded
//! from bytes read out of its memory, and the order in which they are read.
use vstd::prelude::*;
use crate::wide::{le_u16, le_u32, le_u64, read_u16, read_u32, read_u64};

verus! {

/// Which layout the target's structures have: the host's own pointer width,
/// or the narrower one of the bitness-compatibility subsystem.
#[derive(Clone, Copy, Debug, PartialEq, Eq, Structural)]
pub enum Bitness {
    Native,
    Emulated,
}

/// A span of the target's memory.
#[derive(Clone, Copy, Debug, PartialEq, Eq, Structural)]
pub struct MemRange {
    pub address: u64,
    pub byte_len: u64,
}

/// Where the command line, working directory and environment block lie in
/// the target's memory.
#[derive(Clone, Copy, Debug, PartialEq, Eq, Structural)]
pub struct ParamRanges {
    pub command_line: MemRange,
    pub current_directory: MemRange,
    pub environment: u64,
}

/// Why the parameter structure could not be located.
#[derive(Clone, Copy, Debug, PartialEq, Eq, Structural)]
pub enum ParamError {
    /// Only 64-bit hosts are supported.
    UnsupportedHost,
    /// The compatibility-subsystem query failed.
    Wow64Unavailable,
    /// The basic information query failed.
    BasicInfoUnavailable,
    /// The control block could not be read.
    ControlBlockUnreadable,
    /// The parameter structure could not be read.
    ParamsUnreadable,
    /// Fewer bytes came back than the layout needs.
    Malformed,
    /// An event that the current stage does not expect.
    OutOfOrder,
}

/// Bytes of the native control block up to its parameter pointer.
pub const NATIVE_CONTROL_LEN: u64 = 0x28;
/// Offset of the parameter pointer in the native control block.
pub const NATIVE_PARAMS_PTR_AT: u64 = 0x20;
/// Bytes of the native parameter structure up to its environment pointer.
pub const NATIVE_PARAMS_LEN: u64 = 0x88;
/// Offsets in the native parameter structure.
pub const NATIVE_CWD_AT: u64 = 0x38;
pub const NATIVE_CMDLINE_AT: u64 = 0x70;
pub const NATIVE_ENV_AT: u64 = 0x80;

/// Bytes of the emulated control block up to its parameter pointer.
pub const EMULATED_CONTROL_LEN: u64 = 0x14;
/// Offset of the parameter pointer in the emulated control block.
pub const EMULATED_PARAMS_PTR_AT: u64 = 0x10;
/// Bytes of the emulated parameter structure up to its environment pointer.
pub const EMULATED_PARAMS_LEN: u64 = 0x4c;
/// Offsets in the emulated parameter structure.
pub const EMULATED_CWD_AT: u64 = 0x24;
pub const EMULATED_CMDLINE_AT: u64 = 0x40;
pub const EMULATED_ENV_AT: u64 = 0x48;

impl Bitness {
    pub open spec fn spec_control_block_len(self) -> u64 {
        match self {
            Bitness::Native => NATIVE_CONTROL_LEN,
            Bitness::Emulated => EMULATED_CONTROL_LEN,
        }
    }

    /// How many bytes of the control block are read.
    #[verifier::when_used_as_spec(spec_control_block_len)]
    pub fn control_block_len(self) -> (r: u64)
        ensures
            r == self.spec_control_block_len(),
    {
        match self {
            Bitness::Native => NATIVE_CONTROL_LEN,
            Bitness::Emulated => EMULATED_CONTROL_LEN,
        }
    }

    pub open spec fn spec_params_len(self) -> u64 {
        match self {
            Bitness::Native => NATIVE_PARAMS_LEN,
            Bitness::Emulated => EMULATED_PARAMS_LEN,
        }
    }

    /// How many bytes of the parameter structure are read.
    #[verifier::when_used_as_spec(spec_params_len)]
    pub fn params_len(self) -> (r: u64)
        ensures
            r == self.spec_params_len(),
    {
        match self {
            Bitness::Native => NATIVE_PARAMS_LEN,
            Bitness::Emulated => EMULATED_PARAMS_LEN,
        }
    }
}

/// The layout to use, from the compatibility-subsystem query: a null
/// secondary control pointer means the target is native.
pub open spec fn bitness_of(wow64_control: u64) -> Bitness {
    if wow64_control == 0 {
        Bitness::Native
    } else {
        Bitness::Emulated
    }
}

/// The address of the parameter structure held in a control block.
pub open spec fn params_address(b: Bitness, block: Seq<u8>) -> u64 {
    match b {
        Bitness::Native => le_u64(block, NATIVE_PARAMS_PTR_AT as int),
        Bitness::Emulated => le_u32(block, EMULATED_PARAMS_PTR_AT as int) as u64,
    }
}

/// The (pointer, byte length) string descriptor at byte `at` of a parameter
/// structure.
pub open spec fn string_range(b: Bitness, block: Seq<u8>, at: int) -> MemRange {
    match b {
        Bitness::Native => MemRange {
            address: le_u64(block, at + 8),
            byte_len: le_u16(block, at) as u64,
        },
        Bitness::Emulated => MemRange {
            address: le_u32(block, at + 4) as u64,
            byte_len: le_u16(block, at) as u64,
        },
    }
}

/// The three ranges described by a parameter structure.
pub open spec fn param_ranges(b: Bitness, block: Seq<u8>) -> ParamRanges {
    match b {
        Bitness::Native => ParamRanges {
            command_line: string_range(b, block, NATIVE_CMDLINE_AT as int),
            current_directory: string_range(b, block, NATIVE_CWD_AT as int),
            environment: le_u64(block, NATIVE_ENV_AT as int),
        },
        Bitness::Emulated => ParamRanges {
            command_line: string_range(b, block, EMULATED_CMDLINE_AT as int),
            current_directory: string_range(b, block, EMULATED_CWD_AT as int),
            environment: le_u32(block, EMULATED_ENV_AT as int) as u64,
        },
    }
}

/// Reads the parameter pointer out of a control block.
pub fn decode_control_block(b: Bitness, block: &[u8]) -> (r: Result<u64, ParamError>)
    ensures
        block@.len() < b.control_block_len() ==> r == Err::<u64, ParamError>(ParamError::Malformed),
        block@.len() >= b.control_block_len() ==> r == Ok::<u64, ParamError>(params_address(b, block@)),
{
    if (block.len() as u64) < b.control_block_len() {
        return Err(ParamError::Malformed);
    }
    match b {
        Bitness::Native => Ok(read_u64(block, NATIVE_PARAMS_PTR_AT as usize)),
        Bitness::Emulated => Ok(read_u32(block, EMULATED_PARAMS_PTR_AT as usize) as u64),
    }
}

fn decode_string_range(b: Bitness, block: &[u8], at: usize) -> (r: MemRange)
    requires
        at + (if b == Bitness::Native { 16int } else { 8int }) <= block.len(),
    ensures
        r == string_range(b, block@, at as int),
{
    match b {
        Bitness::Native => MemRange {
            address: read_u64(block, at + 8),
            byte_len: read_u16(block, at) as u64,
        },
        Bitness::Emulated => MemRange {
            address: read_u32(block, at + 4) as u64,
            byte_len: read_u16(block, at) as u64,
        },
    }
}

/// Reads the three ranges out of a parameter structure.
pub fn decode_params_block(b: Bitness, block: &[u8]) -> (r: Result<ParamRanges, ParamError>)
    ensures
        block@.len() < b.params_len() ==> r == Err::<ParamRanges, ParamError>(ParamError::Malformed),
        block@.len() >= b.params_len() ==> r == Ok::<ParamRanges, ParamError>(param_ranges(b, block@)),
{
    if (block.len() as u64) < b.params_len() {
        return Err(ParamError::Malformed);
    }
    match b {
        Bitness::Native => Ok(ParamRanges {
            command_line: decode_string_range(b, block, NATIVE_CMDLINE_AT as usize),
            current_directory: decode_string_range(b, block, NATIVE_CWD_AT as usize),
            environment: read_u64(block, NATIVE_ENV_AT as usize),
        }),
        Bitness::Emulated => Ok(ParamRanges {
            command_line: decode_string_range(b, block, EMULATED_CMDLINE_AT as usize),
            current_directory: decode_string_range(b, block, EMULATED_CWD_AT as usize),
            environment: read_u32(block, EMULATED_ENV_AT as usize) as u64,
        }),
    }
}

/// The span of the environment block: from its address to the end of the
/// memory region that holds it; `None` when the region does not hold it.
pub open spec fn environment_range_of(address: u64, region_base: u64, region_size: u64) -> Option<MemRange> {
    if region_base <= address && address - region_base <= region_size {
        Some(MemRange { address, byte_len: (region_size - (address - region_base)) as u64 })
    } else {
        None
    }
}

/// Locates the environment block inside the memory region reported for its
/// address.
pub fn get_region_size(address: u64, region_base: u64, region_size: u64) -> (r: Option<MemRange>)
    ensures
        r == environment_range_of(address, region_base, region_size),
{
    if region_base <= address && address - region_base <= region_size {
        Some(MemRange { address, byte_len: region_size - (address - region_base) })
    } else {
        None
    }
}

/// Where the reading of the parameter structure stands.
#[derive(Clone, Copy, Debug, PartialEq, Eq, Structural)]
pub enum ParamStage {
    Idle,
    AwaitWow64,
    AwaitBasicInfo,
    AwaitControlBlock(Bitness),
    AwaitParams(Bitness),
    Done,
}

/// What the OS answered to the last request.
#[derive(Debug)]
pub enum ParamEvent {
    /// Reading begins on a host with this pointer width in bits.
    Start(u32),
    /// The secondary control pointer, or `None` when the query failed.
    Wow64(Option<u64>),
    /// The control block address, or `None` when the query failed.
    BasicInfo(Option<u64>),
    /// The bytes read, or `None` when the read failed.
    Memory(Option<Vec<u8>>),
}

/// What to ask the OS next, or how the reading ended.
#[derive(Clone, Copy, Debug, PartialEq, Eq, Structural)]
pub enum ParamRequest {
    QueryWow64,
    QueryBasicInfo,
    ReadMemory(MemRange),
    Finished(ParamRanges),
    Failed(ParamError),
}

/// The control block to read, of the given layout, at `address`.
pub open spec fn read_control(b: Bitness, address: u64) -> (ParamStage, ParamRequest) {
    (
        ParamStage::AwaitControlBlock(b),
        ParamRequest::ReadMemory(MemRange { address, byte_len: b.control_block_len() }),
    )
}

/// The end of the reading, with an error.
pub open spec fn failed(e: ParamError) -> (ParamStage, ParamRequest) {
    (ParamStage::Done, ParamRequest::Failed(e))
}

/// One step of locating the parameter structure: the bitness probe decides
/// the layout, the native layout's control block is found through the basic
/// information query, the emulated one at the secondary control pointer;
/// the control block gives the parameter structure's address.
pub open spec fn param_step(stage: ParamStage, event: ParamEvent) -> (ParamStage, ParamRequest) {
    match (stage, event) {
        (ParamStage::Idle, ParamEvent::Start(bits)) => if bits == 64 {
            (ParamStage::AwaitWow64, ParamRequest::QueryWow64)
        } else {
            failed(ParamError::UnsupportedHost)
        },
        (ParamStage::AwaitWow64, ParamEvent::Wow64(answer)) => match answer {
            None => failed(ParamError::Wow64Unavailable),
            Some(p) => if bitness_of(p) == Bitness::Native {
                (ParamStage::AwaitBasicInfo, ParamRequest::QueryBasicInfo)
            } else {
                read_control(Bitness::Emulated, p)
            },
        },
        (ParamStage::AwaitBasicInfo, ParamEvent::BasicInfo(answer)) => match answer {
            None => failed(ParamError::BasicInfoUnavailable),
            Some(a) => read_control(Bitness::Native, a),
        },
        (ParamStage::AwaitControlBlock(b), ParamEvent::Memory(answer)) => match answer {
            None => failed(ParamError::ControlBlockUnreadable),
            Some(bytes) => if bytes@.len() < b.control_block_len() {
                failed(ParamError::Malformed)
            } else {
                (
                    ParamStage::AwaitParams(b),
                    ParamRequest::ReadMemory(
                        MemRange { address: params_address(b, bytes@), byte_len: b.params_len() },
                    ),
                )
            },
        },
        (ParamStage::AwaitParams(b), ParamEvent::Memory(answer)) => match answer {
            None => failed(ParamError::ParamsUnreadable),
            Some(bytes) => if bytes@.len() < b.params_len() {
                failed(ParamError::Malformed)
            } else {
                (ParamStage::Done, ParamRequest::Finished(param_ranges(b, bytes@)))
            },
        },
        _ => failed(ParamError::OutOfOrder),
    }
}

/// Advances the reading of the parameter structure by one answer of the OS.
pub fn get_process_params(stage: ParamStage, event: ParamEvent) -> (r: (ParamStage, ParamRequest))
    ensures
        r == param_step(stage, event),
{
    match (stage, event) {
        (ParamStage::Idle, ParamEvent::Start(bits)) => if bits == 64 {
            (ParamStage::AwaitWow64, ParamRequest::QueryWow64)
        } else {
            (ParamStage::Done, ParamRequest::Failed(ParamError::UnsupportedHost))
        },
        (ParamStage::AwaitWow64, ParamEvent::Wow64(answer)) => match answer {
            None => (ParamStage::Done, ParamRequest::Failed(ParamError::Wow64Unavailable)),
            Some(p) => if p == 0 {
                (ParamStage::AwaitBasicInfo, ParamRequest::QueryBasicInfo)
            } else {
                let b = Bitness::Emulated;
                (
                    ParamStage::AwaitControlBlock(b),
                    ParamRequest::ReadMemory(MemRange { address: p, byte_len: b.control_block_len() }),
                )
            },
        },
        (ParamStage::AwaitBasicInfo, ParamEvent::BasicInfo(answer)) => match answer {
            None => (ParamStage::Done, ParamRequest::Failed(ParamError::BasicInfoUnavailable)),
            Some(a) => {
                let b = Bitness::Native;
                (
                    ParamStage::AwaitControlBlock(b),
                    ParamRequest::ReadMemory(MemRange { address: a, byte_len: b.control_block_len() }),
                )
            },
        },
        (ParamStage::AwaitControlBlock(b), ParamEvent::Memory(answer)) => match answer {
            None => (ParamStage::Done, ParamRequest::Failed(ParamError::ControlBlockUnreadable)),
            Some(bytes) => match decode_control_block(b, bytes.as_slice()) {
                Ok(address) => (
                    ParamStage::AwaitParams(b),
                    ParamRequest::ReadMemory(MemRange { address, byte_len: b.params_len() }),
                ),
                Err(e) => (ParamStage::Done, ParamRequest::Failed(e)),
            },
        },
        (ParamStage::AwaitParams(b), ParamEvent::Memory(answer)) => match answer {
            None => (ParamStage::Done, ParamRequest::Failed(ParamError::ParamsUnreadable)),
            Some(bytes) => match decode_params_block(b, bytes.as_slice()) {
                Ok(ranges) => (ParamStage::Done, ParamRequest::Finished(ranges)),
                Err(e) => (ParamStage::Done, ParamRequest::Failed(e)),
            },
        },
        _ => (ParamStage::Done, ParamRequest::Failed(ParamError::OutOfOrder)),
    }
}

} // verus!
