//! Little-endian integers in byte sequences, as the kernel lays them out.
use vstd::prelude::*;

verus! {

pub open spec fn le_u16_at(s: Seq<u8>, off: int) -> u16 {
    ((s[off] as u16) | ((s[off + 1] as u16) << 8u16)) as u16
}

pub open spec fn le_u32_at(s: Seq<u8>, off: int) -> u32 {
    ((s[off] as u32) | ((s[off + 1] as u32) << 8u32) | ((s[off + 2] as u32) << 16u32) | ((s[off
        + 3] as u32) << 24u32)) as u32
}

pub open spec fn le_u64_at(s: Seq<u8>, off: int) -> u64 {
    ((le_u32_at(s, off) as u64) | ((le_u32_at(s, off + 4) as u64) << 32u64)) as u64
}

/// The little-endian `u16` that starts at `off`.
pub fn read_u16(s: &[u8], off: usize) -> (r: u16)
    requires
        off + 2 <= s@.len(),
    ensures
        r == le_u16_at(s@, off as int),
{
    (s[off] as u16) | ((s[off + 1] as u16) << 8u16)
}

/// The little-endian `u32` that starts at `off`.
pub fn read_u32(s: &[u8], off: usize) -> (r: u32)
    requires
        off + 4 <= s@.len(),
    ensures
        r == le_u32_at(s@, off as int),
{
    (s[off] as u32) | ((s[off + 1] as u32) << 8u32) | ((s[off + 2] as u32) << 16u32) | ((s[off
        + 3] as u32) << 24u32)
}

/// The little-endian `u64` that starts at `off`.
pub fn read_u64(s: &[u8], off: usize) -> (r: u64)
    requires
        off + 8 <= s@.len(),
    ensures
        r == le_u64_at(s@, off as int),
{
    let len = s.len();
    let lo = read_u32(s, off);
    let hi = read_u32(s, off + 4);
    (lo as u64) | ((hi as u64) << 32u64)
}

/// Byte `i` of the little-endian encoding of `v`.
pub open spec fn le_byte(v: u64, i: int) -> u8 {
    ((v >> (8 * i) as u64) & 0xff) as u8
}

/// The `n` low bytes of `v`, least significant first.
pub open spec fn le_bytes(v: u64, n: nat) -> Seq<u8> {
    Seq::new(n, |i: int| le_byte(v, i))
}

/// Appends the `n` low bytes of `v` to `out`, least significant first.
pub fn push_le(out: &mut Vec<u8>, v: u64, n: usize)
    requires
        n <= 8,
    ensures
        final(out)@ == old(out)@ + le_bytes(v, n as nat),
{
    let ghost start = out@;
    let mut i: usize = 0;
    while i < n
        invariant
            i <= n <= 8,
            out@ == start + le_bytes(v, i as nat),
        decreases n - i,
    {
        let b = ((v >> (8 * i) as u64) & 0xff) as u8;
        out.push(b);
        i = i + 1;
        assert(out@ =~= start + le_bytes(v, i as nat));
    }
}

} // verus!
