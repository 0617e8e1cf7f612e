//! The kernel event descriptor (`perf_event_attr`), held as plain fields and
//! written out in the kernel's byte layout.
use vstd::prelude::*;
use crate::abi::PERF_ATTR_SIZE;
use crate::bytes::{le_bytes, push_le};

verus! {

// Masks of the descriptor's flag word.
pub const ATTR_DISABLED: u64 = 0x1;
pub const ATTR_INHERIT: u64 = 0x2;
pub const ATTR_PINNED: u64 = 0x4;
pub const ATTR_EXCLUSIVE: u64 = 0x8;
pub const ATTR_EXCLUDE_USER: u64 = 0x10;
pub const ATTR_EXCLUDE_KERNEL: u64 = 0x20;
pub const ATTR_EXCLUDE_HV: u64 = 0x40;
pub const ATTR_EXCLUDE_IDLE: u64 = 0x80;
pub const ATTR_MMAP: u64 = 0x100;
pub const ATTR_COMM: u64 = 0x200;
pub const ATTR_FREQ: u64 = 0x400;
pub const ATTR_INHERIT_STAT: u64 = 0x800;
pub const ATTR_ENABLE_ON_EXEC: u64 = 0x1000;
pub const ATTR_TASK: u64 = 0x2000;
pub const ATTR_WATERMARK: u64 = 0x4000;
/// The two-bit skid level field.
pub const ATTR_PRECISE_IP: u64 = 0x18000;
/// The skid level field holding 0: any skid.
pub const ATTR_PRECISE_IP_ANY_SKID: u64 = 0x0;
/// The skid level field holding 1: constant skid.
pub const ATTR_PRECISE_IP_CONSTANT_SKID: u64 = 0x8000;
/// The skid level field holding 2: zero skid requested.
pub const ATTR_PRECISE_IP_REQUEST_NO_SKID: u64 = 0x10000;
/// The skid level field holding 3: zero skid required.
pub const ATTR_PRECISE_IP_NO_SKID: u64 = 0x18000;
pub const ATTR_MMAP_DATA: u64 = 0x20000;
pub const ATTR_SAMPLE_ID_ALL: u64 = 0x40000;
pub const ATTR_EXCLUDE_HOST: u64 = 0x80000;
pub const ATTR_EXCLUDE_GUEST: u64 = 0x100000;
pub const ATTR_EXCLUDE_CALLCHAIN_KERNEL: u64 = 0x200000;
pub const ATTR_EXCLUDE_CALLCHAIN_USER: u64 = 0x400000;
pub const ATTR_MMAP2: u64 = 0x800000;
pub const ATTR_COMM_EXEC: u64 = 0x1000000;
pub const ATTR_USE_CLOCKID: u64 = 0x2000000;
pub const ATTR_CONTEXT_SWITCH: u64 = 0x4000000;
pub const ATTR_WRITE_BACKWARD: u64 = 0x8000000;
pub const ATTR_NAMESPACES: u64 = 0x10000000;
pub const ATTR_KSYMBOL: u64 = 0x20000000;
pub const ATTR_BPF_EVENT: u64 = 0x40000000;
pub const ATTR_AUX_OUTPUT: u64 = 0x80000000;
pub const ATTR_CGROUP: u64 = 0x100000000;
pub const ATTR_TEXT_POKE: u64 = 0x200000000;
pub const ATTR_BUILD_ID: u64 = 0x400000000;
pub const ATTR_INHERIT_THREAD: u64 = 0x800000000;
pub const ATTR_REMOVE_ON_EXEC: u64 = 0x1000000000;
pub const ATTR_SIGTRAP: u64 = 0x2000000000;

/// Bit `shift` of `flags`, as 0 or 1.
pub open spec fn flag_bit(flags: u64, shift: u64) -> u64 {
    (flags >> shift) & 1
}

/// An event descriptor. `sample` holds the sample period, or the sample
/// frequency when the freq flag is set; `wakeup` holds a count of events, or
/// of bytes when the watermark flag is set.
#[allow(non_camel_case_types)]
#[derive(Debug, Clone, Copy, PartialEq, Eq)]
pub struct perf_event_attr {
    pub type_: u32,
    pub size: u32,
    pub config: u64,
    pub sample: u64,
    pub sample_type: u64,
    pub read_format: u64,
    pub flags: u64,
    pub wakeup: u32,
    pub bp_type: u32,
    pub bp_addr: u64,
    pub bp_len: u64,
}

/// The descriptor with the sample period in force.
pub open spec fn with_period(a: perf_event_attr, v: u64) -> perf_event_attr {
    perf_event_attr { flags: a.flags & !ATTR_FREQ, sample: v, ..a }
}

/// The descriptor with the sample frequency in force.
pub open spec fn with_freq(a: perf_event_attr, v: u64) -> perf_event_attr {
    perf_event_attr { flags: a.flags | ATTR_FREQ, sample: v, ..a }
}

/// The descriptor waking the reader every `n` events.
pub open spec fn with_wakeup_events(a: perf_event_attr, n: u32) -> perf_event_attr {
    perf_event_attr { flags: a.flags & !ATTR_WATERMARK, wakeup: n, ..a }
}

/// The descriptor waking the reader every `n` bytes.
pub open spec fn with_wakeup_bytes(a: perf_event_attr, n: u32) -> perf_event_attr {
    perf_event_attr { flags: a.flags | ATTR_WATERMARK, wakeup: n, ..a }
}

/// The kernel's byte image of a descriptor: the fields in declaration order,
/// little-endian, followed by zeroed fields this library never sets.
pub open spec fn attr_bytes(a: perf_event_attr) -> Seq<u8> {
    le_bytes(a.type_ as u64, 4) + le_bytes(a.size as u64, 4) + le_bytes(a.config, 8) + le_bytes(
        a.sample,
        8,
    ) + le_bytes(a.sample_type, 8) + le_bytes(a.read_format, 8) + le_bytes(a.flags, 8) + le_bytes(
        a.wakeup as u64,
        4,
    ) + le_bytes(a.bp_type as u64, 4) + le_bytes(a.bp_addr, 8) + le_bytes(a.bp_len, 8)
        + Seq::new(56, |i: int| 0u8)
}

/// The zeroed descriptor that states its own size.
pub open spec fn zeroed_attr() -> perf_event_attr {
    perf_event_attr {
        type_: 0,
        size: PERF_ATTR_SIZE,
        config: 0,
        sample: 0,
        sample_type: 0,
        read_format: 0,
        flags: 0,
        wakeup: 0,
        bp_type: 0,
        bp_addr: 0,
        bp_len: 0,
    }
}

impl perf_event_attr {
    /// A zeroed descriptor that states its own size.
    pub fn new() -> (r: perf_event_attr)
        ensures
            r == zeroed_attr(),
    {
        perf_event_attr {
            type_: 0,
            size: PERF_ATTR_SIZE,
            config: 0,
            sample: 0,
            sample_type: 0,
            read_format: 0,
            flags: 0,
            wakeup: 0,
            bp_type: 0,
            bp_addr: 0,
            bp_len: 0,
        }
    }

    /// Sets the sample period and leaves frequency mode.
    pub fn set_sample_period(&mut self, period: u64)
        ensures
            *final(self) == with_period(*old(self), period),
    {
        self.flags = self.flags & !ATTR_FREQ;
        self.sample = period;
    }

    /// Sets the sample frequency and enters frequency mode.
    pub fn set_sample_freq(&mut self, freq: u64)
        ensures
            *final(self) == with_freq(*old(self), freq),
    {
        self.flags = self.flags | ATTR_FREQ;
        self.sample = freq;
    }

    /// Wakes the reader every `n` events and leaves watermark mode.
    pub fn set_wakeup_events(&mut self, n: u32)
        ensures
            *final(self) == with_wakeup_events(*old(self), n),
    {
        self.flags = self.flags & !ATTR_WATERMARK;
        self.wakeup = n;
    }

    /// Wakes the reader every `n` bytes and enters watermark mode.
    pub fn set_wakeup_watermark(&mut self, n: u32)
        ensures
            *final(self) == with_wakeup_bytes(*old(self), n),
    {
        self.flags = self.flags | ATTR_WATERMARK;
        self.wakeup = n;
    }

    /// The stored sample period (the frequency in frequency mode).
    pub fn get_sample_period(&self) -> (r: u64)
        ensures
            r == self.sample,
    {
        self.sample
    }

    /// The stored sample frequency (the period outside frequency mode).
    pub fn get_sample_freq(&self) -> (r: u64)
        ensures
            r == self.sample,
    {
        self.sample
    }

    pub fn disabled(&self) -> (r: u64)
        ensures
            r == flag_bit(self.flags, 0),
    {
        (self.flags >> 0u64) & 1
    }

    pub fn exclude_kernel(&self) -> (r: u64)
        ensures
            r == flag_bit(self.flags, 5),
    {
        (self.flags >> 5u64) & 1
    }

    pub fn freq(&self) -> (r: u64)
        ensures
            r == flag_bit(self.flags, 10),
    {
        (self.flags >> 10u64) & 1
    }

    pub fn watermark(&self) -> (r: u64)
        ensures
            r == flag_bit(self.flags, 14),
    {
        (self.flags >> 14u64) & 1
    }

    /// The skid level, 0 to 3.
    pub fn precise_ip(&self) -> (r: u64)
        ensures
            r == (self.flags >> 15u64) & 3,
    {
        (self.flags >> 15u64) & 3
    }

    /// The descriptor in the kernel's byte layout.
    pub fn to_bytes(&self) -> (r: Vec<u8>)
        ensures
            r@ == attr_bytes(*self),
            r@.len() == PERF_ATTR_SIZE,
    {
        let mut out: Vec<u8> = Vec::with_capacity(PERF_ATTR_SIZE as usize);
        push_le(&mut out, self.type_ as u64, 4);
        push_le(&mut out, self.size as u64, 4);
        push_le(&mut out, self.config, 8);
        push_le(&mut out, self.sample, 8);
        push_le(&mut out, self.sample_type, 8);
        push_le(&mut out, self.read_format, 8);
        push_le(&mut out, self.flags, 8);
        push_le(&mut out, self.wakeup as u64, 4);
        push_le(&mut out, self.bp_type as u64, 4);
        push_le(&mut out, self.bp_addr, 8);
        push_le(&mut out, self.bp_len, 8);
        let ghost fields = out@;
        let mut i: usize = 0;
        while i < 56
            invariant
                i <= 56,
                out@ =~= fields + Seq::new(i as nat, |k: int| 0u8),
            decreases 56 - i,
        {
            out.push(0u8);
            i = i + 1;
        }
        out
    }
}

/// One call of a setter of the two shared-storage pairs.
pub enum PairSetting {
    Period(u64),
    Freq(u64),
    WakeupEvents(u32),
    WakeupBytes(u32),
}

pub open spec fn apply_setting(a: perf_event_attr, s: PairSetting) -> perf_event_attr {
    match s {
        PairSetting::Period(v) => with_period(a, v),
        PairSetting::Freq(v) => with_freq(a, v),
        PairSetting::WakeupEvents(n) => with_wakeup_events(a, n),
        PairSetting::WakeupBytes(n) => with_wakeup_bytes(a, n),
    }
}

pub open spec fn apply_settings(a: perf_event_attr, ops: Seq<PairSetting>) -> perf_event_attr
    decreases ops.len(),
{
    if ops.len() == 0 {
        a
    } else {
        apply_setting(apply_settings(a, ops.drop_last()), ops.last())
    }
}

/// The last period or frequency setting among `ops`.
pub open spec fn last_rate(ops: Seq<PairSetting>) -> Option<PairSetting>
    decreases ops.len(),
{
    if ops.len() == 0 {
        None
    } else if ops.last() is Period || ops.last() is Freq {
        Some(ops.last())
    } else {
        last_rate(ops.drop_last())
    }
}

/// The last wakeup setting among `ops`.
pub open spec fn last_wakeup(ops: Seq<PairSetting>) -> Option<PairSetting>
    decreases ops.len(),
{
    if ops.len() == 0 {
        None
    } else if ops.last() is WakeupEvents || ops.last() is WakeupBytes {
        Some(ops.last())
    } else {
        last_wakeup(ops.drop_last())
    }
}

proof fn lemma_mode_bits(f: u64)
    by (bit_vector)
    ensures
        flag_bit(f & !0x400u64, 10) == 0,
        flag_bit(f | 0x400u64, 10) == 1,
        flag_bit(f & !0x4000u64, 14) == 0,
        flag_bit(f | 0x4000u64, 14) == 1,
        flag_bit(f & !0x400u64, 14) == flag_bit(f, 14),
        flag_bit(f | 0x400u64, 14) == flag_bit(f, 14),
        flag_bit(f & !0x4000u64, 10) == flag_bit(f, 10),
        flag_bit(f | 0x4000u64, 10) == flag_bit(f, 10),
{
}

/// Of each shared-storage pair exactly one member is in force, and it is the
/// one set last: after any sequence of setters, the freq flag and the stored
/// value are those of the last period or frequency setter, the watermark flag
/// and the stored count those of the last wakeup setter, and a pair that no
/// setter touched is as it was.
pub proof fn law_last_setter_of_pair_wins(a: perf_event_attr, ops: Seq<PairSetting>)
    ensures
        ({
            let r = apply_settings(a, ops);
            match last_rate(ops) {
                Some(PairSetting::Period(v)) => flag_bit(r.flags, 10) == 0 && r.sample == v,
                Some(PairSetting::Freq(v)) => flag_bit(r.flags, 10) == 1 && r.sample == v,
                _ => flag_bit(r.flags, 10) == flag_bit(a.flags, 10) && r.sample == a.sample,
            }
        }),
        ({
            let r = apply_settings(a, ops);
            match last_wakeup(ops) {
                Some(PairSetting::WakeupEvents(n)) => flag_bit(r.flags, 14) == 0 && r.wakeup == n,
                Some(PairSetting::WakeupBytes(n)) => flag_bit(r.flags, 14) == 1 && r.wakeup == n,
                _ => flag_bit(r.flags, 14) == flag_bit(a.flags, 14) && r.wakeup == a.wakeup,
            }
        }),
    decreases ops.len(),
{
    if ops.len() > 0 {
        law_last_setter_of_pair_wins(a, ops.drop_last());
        lemma_mode_bits(apply_settings(a, ops.drop_last()).flags);
    }
}

} // verus!
