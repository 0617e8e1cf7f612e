//! Decoding of sample records, whose layout follows the sample selector that
//! the event was built with.
use vstd::prelude::*;
use crate::abi::{
    PERF_HEADER_SIZE, PERF_SAMPLE_ADDR, PERF_SAMPLE_CPU, PERF_SAMPLE_ID, PERF_SAMPLE_IDENTIFIER,
    PERF_SAMPLE_IP, PERF_SAMPLE_PERIOD, PERF_SAMPLE_STREAM_ID, PERF_SAMPLE_TID, PERF_SAMPLE_TIME,
};
use crate::bytes::{le_u32_at, le_u64_at, read_u32, read_u64};

verus! {

/// Number of fixed-size fields that lead a sample record, in the order the
/// kernel writes them: identifier, ip, pid/tid, time, addr, id, stream id,
/// cpu, period. Each takes eight bytes when selected.
pub const SAMPLE_FIXED_FIELDS: u64 = 9;

/// The selector bit of leading field `k`.
pub open spec fn field_bit(k: int) -> u64 {
    if k == 0 {
        PERF_SAMPLE_IDENTIFIER
    } else if k == 1 {
        PERF_SAMPLE_IP
    } else if k == 2 {
        PERF_SAMPLE_TID
    } else if k == 3 {
        PERF_SAMPLE_TIME
    } else if k == 4 {
        PERF_SAMPLE_ADDR
    } else if k == 5 {
        PERF_SAMPLE_ID
    } else if k == 6 {
        PERF_SAMPLE_STREAM_ID
    } else if k == 7 {
        PERF_SAMPLE_CPU
    } else {
        PERF_SAMPLE_PERIOD
    }
}

pub open spec fn selects(mask: u64, k: int) -> bool {
    mask & field_bit(k) != 0
}

pub open spec fn field_len(mask: u64, k: int) -> int {
    if selects(mask, k) {
        8
    } else {
        0
    }
}

/// Where leading field `k` starts in a sample record: after the header and
/// the selected fields before it.
pub open spec fn field_offset(mask: u64, k: int) -> int
    decreases k,
{
    if k <= 0 {
        PERF_HEADER_SIZE as int
    } else {
        field_offset(mask, k - 1) + field_len(mask, k - 1)
    }
}

/// Length of the header and the selected leading fields.
pub open spec fn sample_prefix_len(mask: u64) -> int {
    field_offset(mask, SAMPLE_FIXED_FIELDS as int)
}

pub open spec fn field_u64(rec: Seq<u8>, mask: u64, k: int) -> Option<u64> {
    if selects(mask, k) {
        Some(le_u64_at(rec, field_offset(mask, k)))
    } else {
        None
    }
}

pub open spec fn field_pair(rec: Seq<u8>, mask: u64, k: int) -> Option<(u32, u32)> {
    if selects(mask, k) {
        Some((le_u32_at(rec, field_offset(mask, k)), le_u32_at(rec, field_offset(mask, k) + 4)))
    } else {
        None
    }
}

/// The leading fields of a sample; a field the selector leaves out is `None`.
#[derive(Debug, Clone, Copy, PartialEq, Eq)]
pub struct Sample {
    pub identifier: Option<u64>,
    pub ip: Option<u64>,
    /// Process and thread id.
    pub tid: Option<(u32, u32)>,
    pub time: Option<u64>,
    pub addr: Option<u64>,
    pub id: Option<u64>,
    pub stream_id: Option<u64>,
    /// Cpu number and a reserved word.
    pub cpu: Option<(u32, u32)>,
    pub period: Option<u64>,
}

pub open spec fn decoded(rec: Seq<u8>, mask: u64) -> Sample {
    Sample {
        identifier: field_u64(rec, mask, 0),
        ip: field_u64(rec, mask, 1),
        tid: field_pair(rec, mask, 2),
        time: field_u64(rec, mask, 3),
        addr: field_u64(rec, mask, 4),
        id: field_u64(rec, mask, 5),
        stream_id: field_u64(rec, mask, 6),
        cpu: field_pair(rec, mask, 7),
        period: field_u64(rec, mask, 8),
    }
}

proof fn lemma_bit_cleared(m: u64, b: u64, c: u64)
    by (bit_vector)
    requires
        b & c == 0,
        b != 0,
    ensures
        ((m & !b) & c != 0) == (m & c != 0),
        (m & !b) & b == 0,
{
}

proof fn lemma_field_bits_disjoint(j: int, k: int)
    requires
        0 <= j < 9,
        0 <= k < 9,
        j != k,
    ensures
        field_bit(j) & field_bit(k) == 0,
        field_bit(k) != 0,
{
    let b = field_bit(j);
    let c = field_bit(k);
    assert(b & c == 0 && c != 0) by (bit_vector)
        requires
            b == 0x1 || b == 0x2 || b == 0x4 || b == 0x8 || b == 0x40 || b == 0x80 || b == 0x100
                || b == 0x200 || b == 0x10000,
            c == 0x1 || c == 0x2 || c == 0x4 || c == 0x8 || c == 0x40 || c == 0x80 || c == 0x100
                || c == 0x200 || c == 0x10000,
            b != c,
    ;
}

/// Turning off one selected leading field shortens a sample by eight bytes:
/// the fields before it stay where they were, every later field moves eight
/// bytes forward, and the other fields stay selected or not as they were.
pub proof fn law_unselecting_field_shortens_sample(mask: u64, k: int)
    requires
        0 <= k < SAMPLE_FIXED_FIELDS,
        selects(mask, k),
    ensures
        !selects(mask & !field_bit(k), k),
        forall|j: int|
            0 <= j < SAMPLE_FIXED_FIELDS && j != k ==> selects(mask & !field_bit(k), j) == selects(
                mask,
                j,
            ),
        forall|j: int|
            0 <= j <= SAMPLE_FIXED_FIELDS ==> #[trigger] field_offset(mask, j) == field_offset(
                mask & !field_bit(k),
                j,
            ) + (if j > k {
                8int
            } else {
                0
            }),
        sample_prefix_len(mask) == sample_prefix_len(mask & !field_bit(k)) + 8,
{
    let off = mask & !field_bit(k);
    assert forall|j: int| 0 <= j < SAMPLE_FIXED_FIELDS && j != k implies selects(off, j) == selects(
        mask,
        j,
    ) by {
        lemma_field_bits_disjoint(k, j);
        lemma_bit_cleared(mask, field_bit(k), field_bit(j));
    }
    let other = if k == 0 { 1int } else { 0int };
    lemma_field_bits_disjoint(k, other);
    lemma_bit_cleared(mask, field_bit(k), field_bit(other));
    assert forall|j: int| 0 <= j <= SAMPLE_FIXED_FIELDS implies #[trigger] field_offset(mask, j)
        == field_offset(off, j) + (if j > k { 8int } else { 0 }) by {
        lemma_offset_shift(mask, off, k, j);
    }
}

proof fn lemma_offset_shift(mask: u64, off: u64, k: int, j: int)
    requires
        0 <= k < SAMPLE_FIXED_FIELDS,
        0 <= j <= SAMPLE_FIXED_FIELDS,
        selects(mask, k),
        !selects(off, k),
        forall|i: int| 0 <= i < SAMPLE_FIXED_FIELDS && i != k ==> selects(off, i) == selects(mask, i),
    ensures
        field_offset(mask, j) == field_offset(off, j) + (if j > k { 8int } else { 0 }),
    decreases j,
{
    if j > 0 {
        lemma_offset_shift(mask, off, k, j - 1);
    }
}

/// Length of the header and the leading fields that `mask` selects.
pub fn sample_prefix_length(mask: u64) -> (r: usize)
    ensures
        r == sample_prefix_len(mask),
{
    proof {
        reveal_with_fuel(field_offset, 10);
    }
    let mut n: usize = 8;
    if mask & PERF_SAMPLE_IDENTIFIER != 0 { n = n + 8; }
    if mask & PERF_SAMPLE_IP != 0 { n = n + 8; }
    if mask & PERF_SAMPLE_TID != 0 { n = n + 8; }
    if mask & PERF_SAMPLE_TIME != 0 { n = n + 8; }
    if mask & PERF_SAMPLE_ADDR != 0 { n = n + 8; }
    if mask & PERF_SAMPLE_ID != 0 { n = n + 8; }
    if mask & PERF_SAMPLE_STREAM_ID != 0 { n = n + 8; }
    if mask & PERF_SAMPLE_CPU != 0 { n = n + 8; }
    if mask & PERF_SAMPLE_PERIOD != 0 { n = n + 8; }
    n
}

fn take_u64(rec: &[u8], selected: bool, off: &mut usize) -> (r: Option<u64>)
    requires
        selected ==> *old(off) + 8 <= rec@.len(),
    ensures
        r == (if selected { Some(le_u64_at(rec@, *old(off) as int)) } else { None }),
        *final(off) == *old(off) + (if selected { 8int } else { 0 }),
{
    let len = rec.len();
    if selected {
        let v = read_u64(rec, *off);
        *off = *off + 8;
        Some(v)
    } else {
        None
    }
}

fn take_pair(rec: &[u8], selected: bool, off: &mut usize) -> (r: Option<(u32, u32)>)
    requires
        selected ==> *old(off) + 8 <= rec@.len(),
    ensures
        r == (if selected {
            Some((le_u32_at(rec@, *old(off) as int), le_u32_at(rec@, *old(off) + 4)))
        } else {
            None
        }),
        *final(off) == *old(off) + (if selected { 8int } else { 0 }),
{
    let len = rec.len();
    if selected {
        let a = read_u32(rec, *off);
        let b = read_u32(rec, *off + 4);
        *off = *off + 8;
        Some((a, b))
    } else {
        None
    }
}

/// Decodes the leading fields of a sample record in the kernel's order,
/// skipping those that `mask` does not select. `None` when the record is too
/// short to hold them.
pub fn decode_sample(rec: &[u8], mask: u64) -> (r: Option<Sample>)
    ensures
        r is Some <==> rec@.len() >= sample_prefix_len(mask),
        r matches Some(s) ==> s == decoded(rec@, mask),
{
    if rec.len() < sample_prefix_length(mask) {
        return None;
    }
    proof {
        reveal_with_fuel(field_offset, 10);
    }
    let mut off: usize = 8;
    let identifier = take_u64(rec, mask & PERF_SAMPLE_IDENTIFIER != 0, &mut off);
    let ip = take_u64(rec, mask & PERF_SAMPLE_IP != 0, &mut off);
    let tid = take_pair(rec, mask & PERF_SAMPLE_TID != 0, &mut off);
    let time = take_u64(rec, mask & PERF_SAMPLE_TIME != 0, &mut off);
    let addr = take_u64(rec, mask & PERF_SAMPLE_ADDR != 0, &mut off);
    let id = take_u64(rec, mask & PERF_SAMPLE_ID != 0, &mut off);
    let stream_id = take_u64(rec, mask & PERF_SAMPLE_STREAM_ID != 0, &mut off);
    let cpu = take_pair(rec, mask & PERF_SAMPLE_CPU != 0, &mut off);
    let period = take_u64(rec, mask & PERF_SAMPLE_PERIOD != 0, &mut off);
    Some(Sample { identifier, ip, tid, time, addr, id, stream_id, cpu, period })
}

} // verus!
