//! A fluent builder of event descriptors, with the closed enumerations of
//! the kernel's event classes, cache events, sample fields and flags.
use vstd::prelude::*;
use crate::abi;
use crate::attr;
use crate::error::BuilderError;

verus! {

/// Event class, set in the descriptor's type field.
#[derive(Debug, Clone, Copy, PartialEq, Eq, Structural)]
pub enum TypeId {
    Hardware,
    Software,
    Tracepoint,
    HardwareCache,
    Raw,
    Breakpoint,
}

impl TypeId {
    pub open spec fn spec_value(&self) -> u32 {
        match self {
            TypeId::Hardware => abi::PERF_TYPE_HARDWARE,
            TypeId::Software => abi::PERF_TYPE_SOFTWARE,
            TypeId::Tracepoint => abi::PERF_TYPE_TRACEPOINT,
            TypeId::HardwareCache => abi::PERF_TYPE_HW_CACHE,
            TypeId::Raw => abi::PERF_TYPE_RAW,
            TypeId::Breakpoint => abi::PERF_TYPE_BREAKPOINT,
        }
    }

    pub fn to_perf_sys(&self) -> (r: u32)
        ensures
            r == self.spec_value(),
    {
        match self {
            TypeId::Hardware => abi::PERF_TYPE_HARDWARE,
            TypeId::Software => abi::PERF_TYPE_SOFTWARE,
            TypeId::Tracepoint => abi::PERF_TYPE_TRACEPOINT,
            TypeId::HardwareCache => abi::PERF_TYPE_HW_CACHE,
            TypeId::Raw => abi::PERF_TYPE_RAW,
            TypeId::Breakpoint => abi::PERF_TYPE_BREAKPOINT,
        }
    }
}

/// Cache of a hardware-cache event; `Unset` until chosen.
#[derive(Debug, Clone, Copy, PartialEq, Eq, Structural)]
pub enum PerfHwCacheId {
    L1D,
    L1I,
    LL,
    Dtlb,
    Itlb,
    Bpu,
    Node,
    Unset,
}

impl PerfHwCacheId {
    pub open spec fn spec_value(&self) -> Result<u32, BuilderError> {
        match self {
            PerfHwCacheId::L1D => Ok(abi::PERF_COUNT_HW_CACHE_L1D),
            PerfHwCacheId::L1I => Ok(abi::PERF_COUNT_HW_CACHE_L1I),
            PerfHwCacheId::LL => Ok(abi::PERF_COUNT_HW_CACHE_LL),
            PerfHwCacheId::Dtlb => Ok(abi::PERF_COUNT_HW_CACHE_DTLB),
            PerfHwCacheId::Itlb => Ok(abi::PERF_COUNT_HW_CACHE_ITLB),
            PerfHwCacheId::Bpu => Ok(abi::PERF_COUNT_HW_CACHE_BPU),
            PerfHwCacheId::Node => Ok(abi::PERF_COUNT_HW_CACHE_NODE),
            PerfHwCacheId::Unset => Err(BuilderError::Unset),
        }
    }

    pub fn to_perf_sys(&self) -> (r: Result<u32, BuilderError>)
        ensures
            r == self.spec_value(),
    {
        match self {
            PerfHwCacheId::L1D => Ok(abi::PERF_COUNT_HW_CACHE_L1D),
            PerfHwCacheId::L1I => Ok(abi::PERF_COUNT_HW_CACHE_L1I),
            PerfHwCacheId::LL => Ok(abi::PERF_COUNT_HW_CACHE_LL),
            PerfHwCacheId::Dtlb => Ok(abi::PERF_COUNT_HW_CACHE_DTLB),
            PerfHwCacheId::Itlb => Ok(abi::PERF_COUNT_HW_CACHE_ITLB),
            PerfHwCacheId::Bpu => Ok(abi::PERF_COUNT_HW_CACHE_BPU),
            PerfHwCacheId::Node => Ok(abi::PERF_COUNT_HW_CACHE_NODE),
            PerfHwCacheId::Unset => Err(BuilderError::Unset),
        }
    }
}

/// Operation of a hardware-cache event; `Unset` until chosen.
#[derive(Debug, Clone, Copy, PartialEq, Eq, Structural)]
pub enum PerfHwCacheOpId {
    Read,
    Write,
    Prefetch,
    Unset,
}

impl PerfHwCacheOpId {
    pub open spec fn spec_value(&self) -> Result<u32, BuilderError> {
        match self {
            PerfHwCacheOpId::Read => Ok(abi::PERF_COUNT_HW_CACHE_OP_READ),
            PerfHwCacheOpId::Write => Ok(abi::PERF_COUNT_HW_CACHE_OP_WRITE),
            PerfHwCacheOpId::Prefetch => Ok(abi::PERF_COUNT_HW_CACHE_OP_PREFETCH),
            PerfHwCacheOpId::Unset => Err(BuilderError::Unset),
        }
    }

    pub fn to_perf_sys(&self) -> (r: Result<u32, BuilderError>)
        ensures
            r == self.spec_value(),
    {
        match self {
            PerfHwCacheOpId::Read => Ok(abi::PERF_COUNT_HW_CACHE_OP_READ),
            PerfHwCacheOpId::Write => Ok(abi::PERF_COUNT_HW_CACHE_OP_WRITE),
            PerfHwCacheOpId::Prefetch => Ok(abi::PERF_COUNT_HW_CACHE_OP_PREFETCH),
            PerfHwCacheOpId::Unset => Err(BuilderError::Unset),
        }
    }
}

/// Result of a hardware-cache event; `Unset` until chosen.
#[derive(Debug, Clone, Copy, PartialEq, Eq, Structural)]
pub enum PerfHwCacheOpResultId {
    Access,
    Miss,
    Unset,
}

impl PerfHwCacheOpResultId {
    pub open spec fn spec_value(&self) -> Result<u32, BuilderError> {
        match self {
            PerfHwCacheOpResultId::Access => Ok(abi::PERF_COUNT_HW_CACHE_RESULT_ACCESS),
            PerfHwCacheOpResultId::Miss => Ok(abi::PERF_COUNT_HW_CACHE_RESULT_MISS),
            PerfHwCacheOpResultId::Unset => Err(BuilderError::Unset),
        }
    }

    pub fn to_perf_sys(&self) -> (r: Result<u32, BuilderError>)
        ensures
            r == self.spec_value(),
    {
        match self {
            PerfHwCacheOpResultId::Access => Ok(abi::PERF_COUNT_HW_CACHE_RESULT_ACCESS),
            PerfHwCacheOpResultId::Miss => Ok(abi::PERF_COUNT_HW_CACHE_RESULT_MISS),
            PerfHwCacheOpResultId::Unset => Err(BuilderError::Unset),
        }
    }
}

/// A value that can stand in a descriptor's config field.
pub trait EventConfig: Sized {
    spec fn spec_config(&self) -> Result<u64, BuilderError>;

    fn to_config(self) -> (r: Result<u64, BuilderError>)
        ensures
            r == self.spec_config(),
    ;
}

/// A raw config is used as it is.
impl EventConfig for u64 {
    open spec fn spec_config(&self) -> Result<u64, BuilderError> {
        Ok(*self)
    }

    fn to_config(self) -> (r: Result<u64, BuilderError>) {
        Ok(self)
    }
}

/// A generalized hardware event: the config of an event of the hardware class.
#[derive(Debug, Clone, Copy, PartialEq, Eq, Structural)]
pub enum HardwareEvent {
    CpuCycles,
    Instructions,
    CacheReferences,
    CacheMisses,
    BranchInstructions,
    BranchMisses,
    BusCycles,
    StalledCyclesFrontend,
    StalledCyclesBackend,
    RefCpuCycles,
}

impl EventConfig for HardwareEvent {
    open spec fn spec_config(&self) -> Result<u64, BuilderError> {
        match self {
            HardwareEvent::CpuCycles => Ok(abi::PERF_COUNT_HW_CPU_CYCLES),
            HardwareEvent::Instructions => Ok(abi::PERF_COUNT_HW_INSTRUCTIONS),
            HardwareEvent::CacheReferences => Ok(abi::PERF_COUNT_HW_CACHE_REFERENCES),
            HardwareEvent::CacheMisses => Ok(abi::PERF_COUNT_HW_CACHE_MISSES),
            HardwareEvent::BranchInstructions => Ok(abi::PERF_COUNT_HW_BRANCH_INSTRUCTIONS),
            HardwareEvent::BranchMisses => Ok(abi::PERF_COUNT_HW_BRANCH_MISSES),
            HardwareEvent::BusCycles => Ok(abi::PERF_COUNT_HW_BUS_CYCLES),
            HardwareEvent::StalledCyclesFrontend => Ok(abi::PERF_COUNT_HW_STALLED_CYCLES_FRONTEND),
            HardwareEvent::StalledCyclesBackend => Ok(abi::PERF_COUNT_HW_STALLED_CYCLES_BACKEND),
            HardwareEvent::RefCpuCycles => Ok(abi::PERF_COUNT_HW_REF_CPU_CYCLES),
        }
    }

    fn to_config(self) -> (r: Result<u64, BuilderError>) {
        match self {
            HardwareEvent::CpuCycles => Ok(abi::PERF_COUNT_HW_CPU_CYCLES),
            HardwareEvent::Instructions => Ok(abi::PERF_COUNT_HW_INSTRUCTIONS),
            HardwareEvent::CacheReferences => Ok(abi::PERF_COUNT_HW_CACHE_REFERENCES),
            HardwareEvent::CacheMisses => Ok(abi::PERF_COUNT_HW_CACHE_MISSES),
            HardwareEvent::BranchInstructions => Ok(abi::PERF_COUNT_HW_BRANCH_INSTRUCTIONS),
            HardwareEvent::BranchMisses => Ok(abi::PERF_COUNT_HW_BRANCH_MISSES),
            HardwareEvent::BusCycles => Ok(abi::PERF_COUNT_HW_BUS_CYCLES),
            HardwareEvent::StalledCyclesFrontend => Ok(abi::PERF_COUNT_HW_STALLED_CYCLES_FRONTEND),
            HardwareEvent::StalledCyclesBackend => Ok(abi::PERF_COUNT_HW_STALLED_CYCLES_BACKEND),
            HardwareEvent::RefCpuCycles => Ok(abi::PERF_COUNT_HW_REF_CPU_CYCLES),
        }
    }
}

/// Composes the config of a hardware-cache event from its three parts.
#[derive(Debug, Clone, Copy, PartialEq, Eq, Structural)]
pub struct PerfHwCacheConfigBuilder {
    pub hw_cache_id: PerfHwCacheId,
    pub op_id: PerfHwCacheOpId,
    pub result_id: PerfHwCacheOpResultId,
}

/// `cache | (op << 8) | (result << 16)`, or the error of the first part
/// left unset.
pub open spec fn hw_cache_config(
    c: PerfHwCacheId,
    o: PerfHwCacheOpId,
    r: PerfHwCacheOpResultId,
) -> Result<u64, BuilderError> {
    match (c.spec_value(), o.spec_value(), r.spec_value()) {
        (Ok(cv), Ok(ov), Ok(rv)) => Ok((cv | (ov << 8u32) | (rv << 16u32)) as u64),
        _ => Err(BuilderError::Unset),
    }
}

impl PerfHwCacheConfigBuilder {
    pub fn new() -> (r: PerfHwCacheConfigBuilder)
        ensures
            r.hw_cache_id == PerfHwCacheId::Unset,
            r.op_id == PerfHwCacheOpId::Unset,
            r.result_id == PerfHwCacheOpResultId::Unset,
    {
        PerfHwCacheConfigBuilder {
            hw_cache_id: PerfHwCacheId::Unset,
            op_id: PerfHwCacheOpId::Unset,
            result_id: PerfHwCacheOpResultId::Unset,
        }
    }

    /// Fails with `Unset` while any of the three parts is unset.
    pub fn validate_build(&self) -> (r: Result<(), BuilderError>)
        ensures
            r is Ok <==> (self.hw_cache_id != PerfHwCacheId::Unset && self.op_id
                != PerfHwCacheOpId::Unset && self.result_id != PerfHwCacheOpResultId::Unset),
            r is Err ==> r == Err::<(), BuilderError>(BuilderError::Unset),
    {
        if let PerfHwCacheId::Unset = self.hw_cache_id {
            return Err(BuilderError::Unset);
        }
        if let PerfHwCacheOpId::Unset = self.op_id {
            return Err(BuilderError::Unset);
        }
        if let PerfHwCacheOpResultId::Unset = self.result_id {
            return Err(BuilderError::Unset);
        }
        Ok(())
    }

    pub fn cache_id(self, hw_cache_id: PerfHwCacheId) -> (r: Self)
        ensures
            r == (PerfHwCacheConfigBuilder { hw_cache_id, ..self }),
    {
        PerfHwCacheConfigBuilder { hw_cache_id, ..self }
    }

    pub fn op_id(self, op_id: PerfHwCacheOpId) -> (r: Self)
        ensures
            r == (PerfHwCacheConfigBuilder { op_id, ..self }),
    {
        PerfHwCacheConfigBuilder { op_id, ..self }
    }

    pub fn result_id(self, result_id: PerfHwCacheOpResultId) -> (r: Self)
        ensures
            r == (PerfHwCacheConfigBuilder { result_id, ..self }),
    {
        PerfHwCacheConfigBuilder { result_id, ..self }
    }

    /// The config value of the event.
    pub fn build(self) -> (r: Result<u64, BuilderError>)
        ensures
            r == hw_cache_config(self.hw_cache_id, self.op_id, self.result_id),
    {
        let c = match self.hw_cache_id.to_perf_sys() {
            Ok(v) => v,
            Err(e) => return Err(e),
        };
        let o = match self.op_id.to_perf_sys() {
            Ok(v) => v,
            Err(e) => return Err(e),
        };
        let r = match self.result_id.to_perf_sys() {
            Ok(v) => v,
            Err(e) => return Err(e),
        };
        Ok((c | (o << 8u32) | (r << 16u32)) as u64)
    }
}

impl EventConfig for PerfHwCacheConfigBuilder {
    open spec fn spec_config(&self) -> Result<u64, BuilderError> {
        hw_cache_config(self.hw_cache_id, self.op_id, self.result_id)
    }

    fn to_config(self) -> (r: Result<u64, BuilderError>) {
        self.build()
    }
}

/// A field that sample records carry; `Unset` names none.
#[derive(Debug, Clone, Copy, PartialEq, Eq, Structural)]
pub enum SampleFormat {
    Ip,
    Tid,
    Time,
    Addr,
    Read,
    Callchain,
    ID,
    Cpu,
    Period,
    StreamID,
    Raw,
    BranchStack,
    RegsUser,
    StackUser,
    Weight,
    DataSrc,
    Identifier,
    Transaction,
    RegsIntr,
    PhysAddr,
    Aux,
    CGroup,
    DataPageSize,
    CodePageSize,
    WeightStruct,
    Unset,
}

impl SampleFormat {
    pub open spec fn spec_value(&self) -> Result<u64, BuilderError> {
        match self {
            SampleFormat::Ip => Ok(abi::PERF_SAMPLE_IP),
            SampleFormat::Tid => Ok(abi::PERF_SAMPLE_TID),
            SampleFormat::Time => Ok(abi::PERF_SAMPLE_TIME),
            SampleFormat::Addr => Ok(abi::PERF_SAMPLE_ADDR),
            SampleFormat::Read => Ok(abi::PERF_SAMPLE_READ),
            SampleFormat::Callchain => Ok(abi::PERF_SAMPLE_CALLCHAIN),
            SampleFormat::ID => Ok(abi::PERF_SAMPLE_ID),
            SampleFormat::Cpu => Ok(abi::PERF_SAMPLE_CPU),
            SampleFormat::Period => Ok(abi::PERF_SAMPLE_PERIOD),
            SampleFormat::StreamID => Ok(abi::PERF_SAMPLE_STREAM_ID),
            SampleFormat::Raw => Ok(abi::PERF_SAMPLE_RAW),
            SampleFormat::BranchStack => Ok(abi::PERF_SAMPLE_BRANCH_STACK),
            SampleFormat::RegsUser => Ok(abi::PERF_SAMPLE_REGS_USER),
            SampleFormat::StackUser => Ok(abi::PERF_SAMPLE_STACK_USER),
            SampleFormat::Weight => Ok(abi::PERF_SAMPLE_WEIGHT),
            SampleFormat::DataSrc => Ok(abi::PERF_SAMPLE_DATA_SRC),
            SampleFormat::Identifier => Ok(abi::PERF_SAMPLE_IDENTIFIER),
            SampleFormat::Transaction => Ok(abi::PERF_SAMPLE_TRANSACTION),
            SampleFormat::RegsIntr => Ok(abi::PERF_SAMPLE_REGS_INTR),
            SampleFormat::PhysAddr => Ok(abi::PERF_SAMPLE_PHYS_ADDR),
            SampleFormat::Aux => Ok(abi::PERF_SAMPLE_AUX),
            SampleFormat::CGroup => Ok(abi::PERF_SAMPLE_CGROUP),
            SampleFormat::DataPageSize => Ok(abi::PERF_SAMPLE_DATA_PAGE_SIZE),
            SampleFormat::CodePageSize => Ok(abi::PERF_SAMPLE_CODE_PAGE_SIZE),
            SampleFormat::WeightStruct => Ok(abi::PERF_SAMPLE_WEIGHT_STRUCT),
            SampleFormat::Unset => Err(BuilderError::Unset),
        }
    }

    pub fn to_perf_sys(&self) -> (r: Result<u64, BuilderError>)
        ensures
            r == self.spec_value(),
    {
        match self {
            SampleFormat::Ip => Ok(abi::PERF_SAMPLE_IP),
            SampleFormat::Tid => Ok(abi::PERF_SAMPLE_TID),
            SampleFormat::Time => Ok(abi::PERF_SAMPLE_TIME),
            SampleFormat::Addr => Ok(abi::PERF_SAMPLE_ADDR),
            SampleFormat::Read => Ok(abi::PERF_SAMPLE_READ),
            SampleFormat::Callchain => Ok(abi::PERF_SAMPLE_CALLCHAIN),
            SampleFormat::ID => Ok(abi::PERF_SAMPLE_ID),
            SampleFormat::Cpu => Ok(abi::PERF_SAMPLE_CPU),
            SampleFormat::Period => Ok(abi::PERF_SAMPLE_PERIOD),
            SampleFormat::StreamID => Ok(abi::PERF_SAMPLE_STREAM_ID),
            SampleFormat::Raw => Ok(abi::PERF_SAMPLE_RAW),
            SampleFormat::BranchStack => Ok(abi::PERF_SAMPLE_BRANCH_STACK),
            SampleFormat::RegsUser => Ok(abi::PERF_SAMPLE_REGS_USER),
            SampleFormat::StackUser => Ok(abi::PERF_SAMPLE_STACK_USER),
            SampleFormat::Weight => Ok(abi::PERF_SAMPLE_WEIGHT),
            SampleFormat::DataSrc => Ok(abi::PERF_SAMPLE_DATA_SRC),
            SampleFormat::Identifier => Ok(abi::PERF_SAMPLE_IDENTIFIER),
            SampleFormat::Transaction => Ok(abi::PERF_SAMPLE_TRANSACTION),
            SampleFormat::RegsIntr => Ok(abi::PERF_SAMPLE_REGS_INTR),
            SampleFormat::PhysAddr => Ok(abi::PERF_SAMPLE_PHYS_ADDR),
            SampleFormat::Aux => Ok(abi::PERF_SAMPLE_AUX),
            SampleFormat::CGroup => Ok(abi::PERF_SAMPLE_CGROUP),
            SampleFormat::DataPageSize => Ok(abi::PERF_SAMPLE_DATA_PAGE_SIZE),
            SampleFormat::CodePageSize => Ok(abi::PERF_SAMPLE_CODE_PAGE_SIZE),
            SampleFormat::WeightStruct => Ok(abi::PERF_SAMPLE_WEIGHT_STRUCT),
            SampleFormat::Unset => Err(BuilderError::Unset),
        }
    }
}

/// The union of the bits of `s`, or `None` when one of them is unset.
pub open spec fn sample_union(s: Seq<SampleFormat>) -> Option<u64>
    decreases s.len(),
{
    if s.len() == 0 {
        Some(0)
    } else {
        match (sample_union(s.drop_last()), s.last().spec_value()) {
            (Some(u), Ok(m)) => Some(u | m),
            _ => None,
        }
    }
}

proof fn lemma_sample_union_unset(s: Seq<SampleFormat>, i: int)
    requires
        0 <= i <= s.len(),
        sample_union(s.subrange(0, i)) is None,
    ensures
        sample_union(s) is None,
    decreases s.len() - i,
{
    if i < s.len() {
        assert(s.subrange(0, i + 1).drop_last() =~= s.subrange(0, i));
        lemma_sample_union_unset(s, i + 1);
    } else {
        assert(s.subrange(0, i) =~= s);
    }
}

/// A part of the counter read layout; `Unset` names none.
#[derive(Debug, Clone, Copy, PartialEq, Eq, Structural)]
pub enum ReadFormat {
    TotalTimeEnabled,
    TotalTimeRunning,
    ID,
    Group,
    Lost,
    Unset,
}

impl ReadFormat {
    pub open spec fn spec_value(&self) -> Result<u64, BuilderError> {
        match self {
            ReadFormat::TotalTimeEnabled => Ok(abi::PERF_FORMAT_TOTAL_TIME_ENABLED),
            ReadFormat::TotalTimeRunning => Ok(abi::PERF_FORMAT_TOTAL_TIME_RUNNING),
            ReadFormat::ID => Ok(abi::PERF_FORMAT_ID),
            ReadFormat::Group => Ok(abi::PERF_FORMAT_GROUP),
            ReadFormat::Lost => Ok(abi::PERF_FORMAT_LOST),
            ReadFormat::Unset => Err(BuilderError::Unset),
        }
    }

    pub fn to_perf_sys(&self) -> (r: Result<u64, BuilderError>)
        ensures
            r == self.spec_value(),
    {
        match self {
            ReadFormat::TotalTimeEnabled => Ok(abi::PERF_FORMAT_TOTAL_TIME_ENABLED),
            ReadFormat::TotalTimeRunning => Ok(abi::PERF_FORMAT_TOTAL_TIME_RUNNING),
            ReadFormat::ID => Ok(abi::PERF_FORMAT_ID),
            ReadFormat::Group => Ok(abi::PERF_FORMAT_GROUP),
            ReadFormat::Lost => Ok(abi::PERF_FORMAT_LOST),
            ReadFormat::Unset => Err(BuilderError::Unset),
        }
    }
}

/// The union of the bits of `s`, or `None` when one of them is unset.
pub open spec fn read_union(s: Seq<ReadFormat>) -> Option<u64>
    decreases s.len(),
{
    if s.len() == 0 {
        Some(0)
    } else {
        match (read_union(s.drop_last()), s.last().spec_value()) {
            (Some(u), Ok(m)) => Some(u | m),
            _ => None,
        }
    }
}

proof fn lemma_read_union_unset(s: Seq<ReadFormat>, i: int)
    requires
        0 <= i <= s.len(),
        read_union(s.subrange(0, i)) is None,
    ensures
        read_union(s) is None,
    decreases s.len() - i,
{
    if i < s.len() {
        assert(s.subrange(0, i + 1).drop_last() =~= s.subrange(0, i));
        lemma_read_union_unset(s, i + 1);
    } else {
        assert(s.subrange(0, i) =~= s);
    }
}

/// A flag of the descriptor's flag word. The four skid levels write the
/// two-bit precise-ip field; every other flag sets its own bit.
#[derive(Debug, Clone, Copy, PartialEq, Eq, Structural)]
pub enum EventAttrFlags {
    Disabled,
    Inherit,
    Pinned,
    Exclusive,
    ExcludeUser,
    ExcludeKernel,
    ExcludeHV,
    ExcludeIdle,
    MMap,
    Comm,
    Freq,
    InheritStat,
    EnableOnExec,
    Task,
    Watermark,
    PreciseIpAnySkid,
    PreciseIpConstantSkid,
    PreciseIpPleaseNoSkid,
    PreciseIpNoSkid,
    MMapData,
    SampleIDAll,
    ExcludeHost,
    ExcludeGuest,
    ExcludeCallchainKernel,
    ExcludeCallchainUser,
    MMap2,
    CommExec,
    UseClockID,
    ContextSwitch,
    WriteBackward,
    Namespaces,
    KSymbol,
    BPFEvent,
    AuxOutput,
    CGroup,
    TextPoke,
    BuildID,
    InheritThread,
    RemoveOnExec,
    SigTrap,
}

impl EventAttrFlags {
    pub open spec fn is_skid_level(&self) -> bool {
        self is PreciseIpAnySkid || self is PreciseIpConstantSkid || self is PreciseIpPleaseNoSkid
            || self is PreciseIpNoSkid
    }

    /// The bit the flag sets, or the skid level in place in the precise-ip field.
    pub open spec fn spec_mask(&self) -> u64 {
        match self {
            EventAttrFlags::Disabled => attr::ATTR_DISABLED,
            EventAttrFlags::Inherit => attr::ATTR_INHERIT,
            EventAttrFlags::Pinned => attr::ATTR_PINNED,
            EventAttrFlags::Exclusive => attr::ATTR_EXCLUSIVE,
            EventAttrFlags::ExcludeUser => attr::ATTR_EXCLUDE_USER,
            EventAttrFlags::ExcludeKernel => attr::ATTR_EXCLUDE_KERNEL,
            EventAttrFlags::ExcludeHV => attr::ATTR_EXCLUDE_HV,
            EventAttrFlags::ExcludeIdle => attr::ATTR_EXCLUDE_IDLE,
            EventAttrFlags::MMap => attr::ATTR_MMAP,
            EventAttrFlags::Comm => attr::ATTR_COMM,
            EventAttrFlags::Freq => attr::ATTR_FREQ,
            EventAttrFlags::InheritStat => attr::ATTR_INHERIT_STAT,
            EventAttrFlags::EnableOnExec => attr::ATTR_ENABLE_ON_EXEC,
            EventAttrFlags::Task => attr::ATTR_TASK,
            EventAttrFlags::Watermark => attr::ATTR_WATERMARK,
            EventAttrFlags::PreciseIpAnySkid => attr::ATTR_PRECISE_IP_ANY_SKID,
            EventAttrFlags::PreciseIpConstantSkid => attr::ATTR_PRECISE_IP_CONSTANT_SKID,
            EventAttrFlags::PreciseIpPleaseNoSkid => attr::ATTR_PRECISE_IP_REQUEST_NO_SKID,
            EventAttrFlags::PreciseIpNoSkid => attr::ATTR_PRECISE_IP_NO_SKID,
            EventAttrFlags::MMapData => attr::ATTR_MMAP_DATA,
            EventAttrFlags::SampleIDAll => attr::ATTR_SAMPLE_ID_ALL,
            EventAttrFlags::ExcludeHost => attr::ATTR_EXCLUDE_HOST,
            EventAttrFlags::ExcludeGuest => attr::ATTR_EXCLUDE_GUEST,
            EventAttrFlags::ExcludeCallchainKernel => attr::ATTR_EXCLUDE_CALLCHAIN_KERNEL,
            EventAttrFlags::ExcludeCallchainUser => attr::ATTR_EXCLUDE_CALLCHAIN_USER,
            EventAttrFlags::MMap2 => attr::ATTR_MMAP2,
            EventAttrFlags::CommExec => attr::ATTR_COMM_EXEC,
            EventAttrFlags::UseClockID => attr::ATTR_USE_CLOCKID,
            EventAttrFlags::ContextSwitch => attr::ATTR_CONTEXT_SWITCH,
            EventAttrFlags::WriteBackward => attr::ATTR_WRITE_BACKWARD,
            EventAttrFlags::Namespaces => attr::ATTR_NAMESPACES,
            EventAttrFlags::KSymbol => attr::ATTR_KSYMBOL,
            EventAttrFlags::BPFEvent => attr::ATTR_BPF_EVENT,
            EventAttrFlags::AuxOutput => attr::ATTR_AUX_OUTPUT,
            EventAttrFlags::CGroup => attr::ATTR_CGROUP,
            EventAttrFlags::TextPoke => attr::ATTR_TEXT_POKE,
            EventAttrFlags::BuildID => attr::ATTR_BUILD_ID,
            EventAttrFlags::InheritThread => attr::ATTR_INHERIT_THREAD,
            EventAttrFlags::RemoveOnExec => attr::ATTR_REMOVE_ON_EXEC,
            EventAttrFlags::SigTrap => attr::ATTR_SIGTRAP,
        }
    }

    pub fn mask(&self) -> (r: u64)
        ensures
            r == self.spec_mask(),
    {
        match self {
            EventAttrFlags::Disabled => attr::ATTR_DISABLED,
            EventAttrFlags::Inherit => attr::ATTR_INHERIT,
            EventAttrFlags::Pinned => attr::ATTR_PINNED,
            EventAttrFlags::Exclusive => attr::ATTR_EXCLUSIVE,
            EventAttrFlags::ExcludeUser => attr::ATTR_EXCLUDE_USER,
            EventAttrFlags::ExcludeKernel => attr::ATTR_EXCLUDE_KERNEL,
            EventAttrFlags::ExcludeHV => attr::ATTR_EXCLUDE_HV,
            EventAttrFlags::ExcludeIdle => attr::ATTR_EXCLUDE_IDLE,
            EventAttrFlags::MMap => attr::ATTR_MMAP,
            EventAttrFlags::Comm => attr::ATTR_COMM,
            EventAttrFlags::Freq => attr::ATTR_FREQ,
            EventAttrFlags::InheritStat => attr::ATTR_INHERIT_STAT,
            EventAttrFlags::EnableOnExec => attr::ATTR_ENABLE_ON_EXEC,
            EventAttrFlags::Task => attr::ATTR_TASK,
            EventAttrFlags::Watermark => attr::ATTR_WATERMARK,
            EventAttrFlags::PreciseIpAnySkid => attr::ATTR_PRECISE_IP_ANY_SKID,
            EventAttrFlags::PreciseIpConstantSkid => attr::ATTR_PRECISE_IP_CONSTANT_SKID,
            EventAttrFlags::PreciseIpPleaseNoSkid => attr::ATTR_PRECISE_IP_REQUEST_NO_SKID,
            EventAttrFlags::PreciseIpNoSkid => attr::ATTR_PRECISE_IP_NO_SKID,
            EventAttrFlags::MMapData => attr::ATTR_MMAP_DATA,
            EventAttrFlags::SampleIDAll => attr::ATTR_SAMPLE_ID_ALL,
            EventAttrFlags::ExcludeHost => attr::ATTR_EXCLUDE_HOST,
            EventAttrFlags::ExcludeGuest => attr::ATTR_EXCLUDE_GUEST,
            EventAttrFlags::ExcludeCallchainKernel => attr::ATTR_EXCLUDE_CALLCHAIN_KERNEL,
            EventAttrFlags::ExcludeCallchainUser => attr::ATTR_EXCLUDE_CALLCHAIN_USER,
            EventAttrFlags::MMap2 => attr::ATTR_MMAP2,
            EventAttrFlags::CommExec => attr::ATTR_COMM_EXEC,
            EventAttrFlags::UseClockID => attr::ATTR_USE_CLOCKID,
            EventAttrFlags::ContextSwitch => attr::ATTR_CONTEXT_SWITCH,
            EventAttrFlags::WriteBackward => attr::ATTR_WRITE_BACKWARD,
            EventAttrFlags::Namespaces => attr::ATTR_NAMESPACES,
            EventAttrFlags::KSymbol => attr::ATTR_KSYMBOL,
            EventAttrFlags::BPFEvent => attr::ATTR_BPF_EVENT,
            EventAttrFlags::AuxOutput => attr::ATTR_AUX_OUTPUT,
            EventAttrFlags::CGroup => attr::ATTR_CGROUP,
            EventAttrFlags::TextPoke => attr::ATTR_TEXT_POKE,
            EventAttrFlags::BuildID => attr::ATTR_BUILD_ID,
            EventAttrFlags::InheritThread => attr::ATTR_INHERIT_THREAD,
            EventAttrFlags::RemoveOnExec => attr::ATTR_REMOVE_ON_EXEC,
            EventAttrFlags::SigTrap => attr::ATTR_SIGTRAP,
        }
    }

    /// The flag word with this flag applied.
    pub open spec fn applied(&self, flags: u64) -> u64 {
        if self.is_skid_level() {
            (flags & !attr::ATTR_PRECISE_IP) | self.spec_mask()
        } else {
            flags | self.spec_mask()
        }
    }

    /// Applies the flag to a descriptor's flag word.
    pub fn set_attr_bitfield(&self, a: &mut attr::perf_event_attr)
        ensures
            *final(a) == (attr::perf_event_attr { flags: self.applied(old(a).flags), ..*old(a) }),
    {
        let m = self.mask();
        match self {
            EventAttrFlags::PreciseIpAnySkid | EventAttrFlags::PreciseIpConstantSkid
            | EventAttrFlags::PreciseIpPleaseNoSkid | EventAttrFlags::PreciseIpNoSkid => {
                a.flags = (a.flags & !attr::ATTR_PRECISE_IP) | m;
            },
            _ => {
                a.flags = a.flags | m;
            },
        }
    }
}

/// The flag word after applying `s` in order.
pub open spec fn flags_applied(flags: u64, s: Seq<EventAttrFlags>) -> u64
    decreases s.len(),
{
    if s.len() == 0 {
        flags
    } else {
        s.last().applied(flags_applied(flags, s.drop_last()))
    }
}

proof fn lemma_or_assoc(a: u64, b: u64, c: u64)
    by (bit_vector)
    ensures
        (a | b) | c == a | (b | c),
        a | 0u64 == a,
{
}

/// Builds an event descriptor by monotonic setter calls.
pub struct PerfEventBuilder {
    pub attr: attr::perf_event_attr,
    /// Whether an event class has been chosen.
    pub type_set: bool,
}

/// What the event-open call takes: the descriptor's byte image, the target
/// process and cpu, the group leader's descriptor (-1 for none) and the open
/// flags.
#[derive(Debug, PartialEq, Eq)]
pub struct EventOpenRequest {
    pub attr: Vec<u8>,
    pub pid: i32,
    pub cpu: i32,
    pub group_fd: i32,
    pub flags: u64,
}

impl PerfEventBuilder {
    /// Whether an event class has been chosen.
    pub open spec fn type_selected(&self) -> bool {
        self.type_set
    }

    /// A zeroed descriptor with no event class chosen.
    pub fn new() -> (r: PerfEventBuilder)
        ensures
            r.attr == attr::zeroed_attr(),
            !r.type_selected(),
    {
        PerfEventBuilder { attr: attr::perf_event_attr::new(), type_set: false }
    }

    /// Sets the event class.
    pub fn type_id(self, type_id: TypeId) -> (r: Self)
        ensures
            r.attr == (attr::perf_event_attr { type_: type_id.spec_value(), ..self.attr }),
            r.type_selected(),
    {
        let mut b = self;
        b.attr.type_ = type_id.to_perf_sys();
        b.type_set = true;
        b
    }

    /// Sets the config from a raw value or a composed one; fails with
    /// `Unset` when the config cannot be composed.
    pub fn type_config<T: EventConfig>(self, config: T) -> (r: Result<Self, BuilderError>)
        ensures
            match config.spec_config() {
                Ok(c) => r matches Ok(b) && b.attr == (attr::perf_event_attr { config: c, ..self.attr })
                    && b.type_selected() == self.type_selected(),
                Err(_) => r == Err::<Self, BuilderError>(BuilderError::Unset),
            },
    {
        match config.to_config() {
            Ok(c) => {
                let mut b = self;
                b.attr.config = c;
                Ok(b)
            },
            Err(_) => Err(BuilderError::Unset),
        }
    }

    /// Sets the sample period; frequency mode is left.
    pub fn sample_period(self, sample_period: u64) -> (r: Result<Self, BuilderError>)
        ensures
            r matches Ok(b) && b.attr == attr::with_period(self.attr, sample_period)
                && b.type_selected() == self.type_selected(),
    {
        let mut b = self;
        b.attr.set_sample_period(sample_period);
        Ok(b)
    }

    /// Sets the sample frequency; frequency mode is entered.
    pub fn sample_freq(self, sample_freq: u64) -> (r: Result<Self, BuilderError>)
        ensures
            r matches Ok(b) && b.attr == attr::with_freq(self.attr, sample_freq)
                && b.type_selected() == self.type_selected(),
    {
        let mut b = self;
        b.attr.set_sample_freq(sample_freq);
        Ok(b)
    }

    /// Adds fields to the sample selector; fails with `Unset`, changing
    /// nothing, when one of them is `Unset`.
    pub fn sample_format(self, sample_type: &[SampleFormat]) -> (r: Result<Self, BuilderError>)
        ensures
            match sample_union(sample_type@) {
                Some(m) => r matches Ok(b) && b.attr == (attr::perf_event_attr {
                    sample_type: self.attr.sample_type | m,
                    ..self.attr
                }) && b.type_selected() == self.type_selected(),
                None => r == Err::<Self, BuilderError>(BuilderError::Unset),
            },
    {
        let mut acc = self.attr.sample_type;
        let mut i: usize = 0;
        proof {
            assert(sample_type@.subrange(0, 0) =~= Seq::<SampleFormat>::empty());
            lemma_or_assoc(acc, 0, 0);
        }
        while i < sample_type.len()
            invariant
                i <= sample_type@.len(),
                sample_union(sample_type@.subrange(0, i as int)) matches Some(u) && acc
                    == self.attr.sample_type | u,
            decreases sample_type@.len() - i,
        {
            let ghost u = sample_union(sample_type@.subrange(0, i as int))->Some_0;
            assert(sample_type@.subrange(0, i + 1).drop_last() =~= sample_type@.subrange(0, i as int));
            match sample_type[i].to_perf_sys() {
                Ok(m) => {
                    proof {
                        lemma_or_assoc(self.attr.sample_type, u, m);
                    }
                    acc = acc | m;
                },
                Err(e) => {
                    proof {
                        lemma_sample_union_unset(sample_type@, i + 1);
                    }
                    return Err(e);
                },
            }
            i = i + 1;
        }
        assert(sample_type@.subrange(0, i as int) =~= sample_type@);
        let mut b = self;
        b.attr.sample_type = acc;
        Ok(b)
    }

    /// Adds parts to the counter read layout; fails with `Unset`, changing
    /// nothing, when one of them is `Unset`.
    pub fn read_format(self, read_format: &[ReadFormat]) -> (r: Result<Self, BuilderError>)
        ensures
            match read_union(read_format@) {
                Some(m) => r matches Ok(b) && b.attr == (attr::perf_event_attr {
                    read_format: self.attr.read_format | m,
                    ..self.attr
                }) && b.type_selected() == self.type_selected(),
                None => r == Err::<Self, BuilderError>(BuilderError::Unset),
            },
    {
        let mut acc = self.attr.read_format;
        let mut i: usize = 0;
        proof {
            assert(read_format@.subrange(0, 0) =~= Seq::<ReadFormat>::empty());
            lemma_or_assoc(acc, 0, 0);
        }
        while i < read_format.len()
            invariant
                i <= read_format@.len(),
                read_union(read_format@.subrange(0, i as int)) matches Some(u) && acc
                    == self.attr.read_format | u,
            decreases read_format@.len() - i,
        {
            let ghost u = read_union(read_format@.subrange(0, i as int))->Some_0;
            assert(read_format@.subrange(0, i + 1).drop_last() =~= read_format@.subrange(0, i as int));
            match read_format[i].to_perf_sys() {
                Ok(m) => {
                    proof {
                        lemma_or_assoc(self.attr.read_format, u, m);
                    }
                    acc = acc | m;
                },
                Err(e) => {
                    proof {
                        lemma_read_union_unset(read_format@, i + 1);
                    }
                    return Err(e);
                },
            }
            i = i + 1;
        }
        assert(read_format@.subrange(0, i as int) =~= read_format@);
        let mut b = self;
        b.attr.read_format = acc;
        Ok(b)
    }

    /// Applies the flags in order.
    pub fn flags(self, flags: &[EventAttrFlags]) -> (r: Self)
        ensures
            r.attr == (attr::perf_event_attr {
                flags: flags_applied(self.attr.flags, flags@),
                ..self.attr
            }),
            r.type_selected() == self.type_selected(),
    {
        let mut b = self;
        let mut i: usize = 0;
        assert(flags@.subrange(0, 0) =~= Seq::<EventAttrFlags>::empty());
        while i < flags.len()
            invariant
                i <= flags@.len(),
                b.type_set == self.type_set,
                b.attr == (attr::perf_event_attr {
                    flags: flags_applied(self.attr.flags, flags@.subrange(0, i as int)),
                    ..self.attr
                }),
            decreases flags@.len() - i,
        {
            assert(flags@.subrange(0, i + 1).drop_last() =~= flags@.subrange(0, i as int));
            flags[i].set_attr_bitfield(&mut b.attr);
            i = i + 1;
        }
        assert(flags@.subrange(0, i as int) =~= flags@);
        b
    }

    /// Wakes the reader every `n_events` samples; watermark mode is left.
    pub fn wakeup_n_events(self, n_events: u32) -> (r: Result<Self, BuilderError>)
        ensures
            r matches Ok(b) && b.attr == attr::with_wakeup_events(self.attr, n_events)
                && b.type_selected() == self.type_selected(),
    {
        let mut b = self;
        b.attr.set_wakeup_events(n_events);
        Ok(b)
    }

    /// Wakes the reader every `n_bytes` bytes; watermark mode is entered.
    pub fn wakeup_n_bytes(self, n_bytes: u32) -> (r: Result<Self, BuilderError>)
        ensures
            r matches Ok(b) && b.attr == attr::with_wakeup_bytes(self.attr, n_bytes)
                && b.type_selected() == self.type_selected(),
    {
        let mut b = self;
        b.attr.set_wakeup_watermark(n_bytes);
        Ok(b)
    }

    /// Checks the descriptor before it is opened: an event class must be
    /// chosen, and a breakpoint event must have a zero config.
    pub fn validate_build(&self) -> (r: Result<(), BuilderError>)
        ensures
            !self.type_selected() ==> r == Err::<(), BuilderError>(BuilderError::Unset),
            self.type_selected() && self.attr.type_ == abi::PERF_TYPE_BREAKPOINT && self.attr.config
                != 0 ==> r == Err::<(), BuilderError>(BuilderError::BreakpointWrongConfig),
            r is Ok <==> self.type_selected() && !(self.attr.type_ == abi::PERF_TYPE_BREAKPOINT
                && self.attr.config != 0),
    {
        if !self.type_set {
            return Err(BuilderError::Unset);
        }
        if self.attr.type_ == TypeId::Breakpoint.to_perf_sys() && self.attr.config != 0 {
            return Err(BuilderError::BreakpointWrongConfig);
        }
        Ok(())
    }

    /// Validates the descriptor and states the event-open call for it, with
    /// no group leader.
    pub fn build(self, pid: i32, cpu: i32, flags: Option<&[PerfEventOpenFlags]>) -> (r: Result<
        EventOpenRequest,
        BuilderError,
    >)
        ensures
            !self.type_selected() ==> r == Err::<EventOpenRequest, BuilderError>(BuilderError::Unset),
            self.type_selected() && self.attr.type_ == abi::PERF_TYPE_BREAKPOINT && self.attr.config
                != 0 ==> r == Err::<EventOpenRequest, BuilderError>(
                BuilderError::BreakpointWrongConfig,
            ),
            r is Ok <==> self.type_selected() && !(self.attr.type_ == abi::PERF_TYPE_BREAKPOINT
                && self.attr.config != 0),
            r matches Ok(q) ==> q.attr@ == attr::attr_bytes(self.attr) && q.pid == pid && q.cpu == cpu
                && q.group_fd == -1 && q.flags == (match flags {
                Some(f) => open_flags_union(f@),
                None => 0,
            }),
    {
        match self.validate_build() {
            Ok(()) => {},
            Err(e) => return Err(e),
        }
        let open_flags = match flags {
            Some(f) => PerfEventOpenFlags::union(f),
            None => 0,
        };
        Ok(EventOpenRequest { attr: self.attr.to_bytes(), pid, cpu, group_fd: -1, flags: open_flags })
    }
}

/// A builder whose descriptor starts disabled, to be enabled once set up.
impl Default for PerfEventBuilder {
    fn default() -> (r: PerfEventBuilder)
        ensures
            r.attr == (attr::perf_event_attr { flags: attr::ATTR_DISABLED, ..attr::zeroed_attr() }),
            !r.type_selected(),
    {
        let mut b = PerfEventBuilder::new();
        b.attr.flags = attr::ATTR_DISABLED;
        b
    }
}

/// A flag of the event-open call.
#[derive(Debug, Clone, Copy, PartialEq, Eq, Structural)]
pub enum PerfEventOpenFlags {
    CloseOnExec,
    NoGroup,
    Output,
    CGroup,
}

/// The union of the open flags of `s`.
pub open spec fn open_flags_union(s: Seq<PerfEventOpenFlags>) -> u64
    decreases s.len(),
{
    if s.len() == 0 {
        0
    } else {
        open_flags_union(s.drop_last()) | (s.last().spec_value() as u64)
    }
}

impl PerfEventOpenFlags {
    pub open spec fn spec_value(&self) -> u32 {
        match self {
            PerfEventOpenFlags::CloseOnExec => abi::PERF_FLAG_FD_CLOEXEC,
            PerfEventOpenFlags::NoGroup => abi::PERF_FLAG_FD_NO_GROUP,
            PerfEventOpenFlags::Output => abi::PERF_FLAG_FD_OUTPUT,
            PerfEventOpenFlags::CGroup => abi::PERF_FLAG_PID_CGROUP,
        }
    }

    pub fn to_open_flags(&self) -> (r: u32)
        ensures
            r == self.spec_value(),
    {
        match self {
            PerfEventOpenFlags::CloseOnExec => abi::PERF_FLAG_FD_CLOEXEC,
            PerfEventOpenFlags::NoGroup => abi::PERF_FLAG_FD_NO_GROUP,
            PerfEventOpenFlags::Output => abi::PERF_FLAG_FD_OUTPUT,
            PerfEventOpenFlags::CGroup => abi::PERF_FLAG_PID_CGROUP,
        }
    }

    /// The union of the flags of `flags`.
    pub fn union(flags: &[PerfEventOpenFlags]) -> (r: u64)
        ensures
            r == open_flags_union(flags@),
    {
        let mut acc: u64 = 0;
        let mut i: usize = 0;
        assert(flags@.subrange(0, 0) =~= Seq::<PerfEventOpenFlags>::empty());
        while i < flags.len()
            invariant
                i <= flags@.len(),
                acc == open_flags_union(flags@.subrange(0, i as int)),
            decreases flags@.len() - i,
        {
            assert(flags@.subrange(0, i + 1).drop_last() =~= flags@.subrange(0, i as int));
            acc = acc | (flags[i].to_open_flags() as u64);
            i = i + 1;
        }
        assert(flags@.subrange(0, i as int) =~= flags@);
        acc
    }
}

} // verus!
