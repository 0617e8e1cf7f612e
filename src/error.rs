//! Error kinds reported by the library.
use vstd::prelude::*;

verus! {

/// A descriptor could not be built.
#[derive(Debug, Clone, Copy, PartialEq, Eq, Structural)]
pub enum BuilderError {
    Unset,
    BitImpossible,
    BreakpointWrongConfig,
    BuildError,
    LibPfmInit,
    LibPfmProbe,
}

/// A PMU query failed.
#[derive(Debug, Clone, Copy, PartialEq, Eq, Structural)]
pub enum LibPfmError {
    Invalid,
    NoPmu,
    NotSupported,
    PfmGetPMUError,
    Unknown,
}

/// Opening, controlling or mapping an event failed.
#[derive(Debug, Clone, Copy, PartialEq, Eq, Structural)]
pub enum EventOpenError {
    SyscallError,
    MmapFailed,
    MmapInvalidSize,
    SampleBufSize,
}

/// Coarse error of the sampling program.
#[derive(Debug, Clone, Copy, PartialEq, Eq, Structural)]
pub enum PerfError {
    EventOpen,
    Mmap,
    Poll,
}

/// The sample ring holds something no well-behaved producer writes.
#[derive(Debug, Clone, Copy, PartialEq, Eq, Structural)]
pub enum RingError {
    /// A record header gives a size smaller than the header itself (zero
    /// among them).
    UndersizedRecord,
    /// A record header gives a size larger than the bytes published.
    OversizedRecord,
    /// The producer's head is behind the consumer's tail.
    HeadBehindTail,
}

/// The page-move call failed as a whole; it carries the call's return value.
#[derive(Debug, Clone, Copy, PartialEq, Eq, Structural)]
pub enum MigrationError {
    MovePagesFailed(i64),
}

/// The policy worker's flag holds a byte that names no state.
#[derive(Debug, Clone, Copy, PartialEq, Eq, Structural)]
pub enum PolicyError {
    InvalidFlag(u8),
}

} // verus!
