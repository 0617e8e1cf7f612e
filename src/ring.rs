//! The consumer side of the perf sample ring: a power-of-two byte ring that
//! the kernel fills with variable-length records and this process retires.
use vstd::prelude::*;
use crate::abi::{PERF_HEADER_SIZE, PERF_RECORD_SAMPLE};
use crate::bytes::{le_u16_at, le_u32_at, read_u16, read_u32};
use crate::error::{EventOpenError, RingError};

verus! {

/// Byte `k` of the logical stream that starts at `off` in `ring`, where the
/// stream runs to the ring's end and continues at its start.
pub open spec fn ring_byte(ring: Seq<u8>, off: int, k: int) -> u8 {
    if off + k < ring.len() {
        ring[off + k]
    } else {
        ring[off + k - ring.len()]
    }
}

/// The `len` bytes of the logical stream that starts at `off`.
pub open spec fn ring_window(ring: Seq<u8>, off: int, len: int) -> Seq<u8> {
    Seq::new(len as nat, |k: int| ring_byte(ring, off, k))
}

/// Copies `len` bytes that start at `off` out of the ring into a linear
/// buffer, joining the part before the wrap point to the part after it.
pub fn copy_from_ring(ring: &[u8], off: usize, len: usize) -> (r: Vec<u8>)
    requires
        off < ring@.len(),
        len <= ring@.len(),
    ensures
        r@ == ring_window(ring@, off as int, len as int),
{
    let n = ring.len();
    let mut out: Vec<u8> = Vec::with_capacity(len);
    let first = if len < n - off {
        len
    } else {
        n - off
    };
    let mut i: usize = 0;
    while i < first
        invariant
            n == ring@.len(),
            off < n,
            first <= len <= n,
            first <= n - off,
            i <= first,
            out@ =~= ring_window(ring@, off as int, i as int),
        decreases first - i,
    {
        out.push(ring[off + i]);
        i = i + 1;
        assert(out@ =~= ring_window(ring@, off as int, i as int));
    }
    while i < len
        invariant
            n == ring@.len(),
            off < n,
            first <= len <= n,
            first == len || first == n - off,
            first <= i <= len,
            out@ =~= ring_window(ring@, off as int, i as int),
        decreases len - i,
    {
        out.push(ring[i - (n - off)]);
        i = i + 1;
        assert(out@ =~= ring_window(ring@, off as int, i as int));
    }
    out
}

/// A record read across the wrap point holds the same bytes as the same read
/// from the ring laid out twice in a row, where nothing wraps.
pub proof fn law_wrapped_read_is_linear(ring: Seq<u8>, off: int, len: int)
    requires
        0 <= off < ring.len(),
        0 <= len <= ring.len(),
    ensures
        ring_window(ring, off, len) == (ring + ring).subrange(off, off + len),
{
    assert(ring_window(ring, off, len) =~= (ring + ring).subrange(off, off + len));
}

/// The type field of a record's header.
pub open spec fn record_type(rec: Seq<u8>) -> u32 {
    le_u32_at(rec, 0)
}

/// The size field of a record's header.
pub open spec fn record_size(rec: Seq<u8>) -> u16 {
    le_u16_at(rec, 6)
}

/// One step of the record walk from `tail`, with `head` published by the
/// producer: nothing when less than a header is published, otherwise the
/// record at `tail` and the tail just past it, or the corruption found.
pub open spec fn ring_step(ring: Seq<u8>, head: int, tail: int) -> Result<
    Option<(Seq<u8>, int)>,
    RingError,
> {
    let n = ring.len() as int;
    if head < tail {
        Err(RingError::HeadBehindTail)
    } else if head - tail < PERF_HEADER_SIZE {
        Ok(None)
    } else {
        let off = tail % n;
        let size = record_size(ring_window(ring, off, PERF_HEADER_SIZE as int)) as int;
        if size < PERF_HEADER_SIZE {
            Err(RingError::UndersizedRecord)
        } else if size > head - tail || size > n {
            Err(RingError::OversizedRecord)
        } else {
            Ok(Some((ring_window(ring, off, size), tail + size)))
        }
    }
}

/// The whole walk from `tail` to `head`: the records in order and the tail
/// after the last of them, or the first corruption met.
pub open spec fn ring_walk(ring: Seq<u8>, head: int, tail: int) -> Result<
    (Seq<Seq<u8>>, int),
    RingError,
>
    decreases head - tail,
{
    match ring_step(ring, head, tail) {
        Err(e) => Err(e),
        Ok(None) => Ok((Seq::empty(), tail)),
        Ok(Some((rec, next))) => {
            // A step moves at least a header forward; this arm only makes
            // the walk's termination plain.
            if next <= tail {
                Ok((Seq::empty(), tail))
            } else {
                match ring_walk(ring, head, next) {
                    Err(e) => Err(e),
                    Ok((rest, t)) => Ok((seq![rec] + rest, t)),
                }
            }
        },
    }
}

/// The consumer's tail only moves forward and never passes the producer's
/// head: a walk that succeeds ends at a tail between the two.
pub proof fn law_tail_stays_between(ring: Seq<u8>, head: int, tail: int)
    ensures
        ring_walk(ring, head, tail) matches Ok((_, t)) ==> tail <= t <= head,
    decreases head - tail,
{
    match ring_step(ring, head, tail) {
        Ok(Some((rec, next))) => {
            if next > tail {
                law_tail_stays_between(ring, head, next);
            }
        },
        _ => {},
    }
}

pub open spec fn byte_views(v: Seq<Vec<u8>>) -> Seq<Seq<u8>> {
    v.map_values(|b: Vec<u8>| b@)
}

/// The consumer's view of a mapped sample ring: the geometry read from the
/// control page and the consumer's own tail.
pub struct PerfMmapBuf {
    version: u32,
    data_offset: u64,
    data_size: u64,
    data_tail: u64,
}

impl PerfMmapBuf {
    pub closed spec fn wf(&self) -> bool {
        &&& self.data_size >= PERF_HEADER_SIZE
        &&& self.data_size <= usize::MAX
        &&& self.data_offset > 0
    }

    pub closed spec fn spec_version(&self) -> u32 {
        self.version
    }

    pub closed spec fn spec_data_offset(&self) -> u64 {
        self.data_offset
    }

    pub closed spec fn spec_data_size(&self) -> u64 {
        self.data_size
    }

    pub closed spec fn spec_data_tail(&self) -> u64 {
        self.data_tail
    }

    /// Takes the geometry that the control page of a mapping of `mmap_len`
    /// bytes reports. The data region must lie after the control page's start
    /// and inside the mapping, and must hold at least one record header.
    pub fn new(version: u32, data_offset: u64, data_size: u64, data_tail: u64, mmap_len: u64) -> (r:
        Result<PerfMmapBuf, EventOpenError>)
        ensures
            match r {
                Ok(b) => {
                    &&& b.wf()
                    &&& b.spec_version() == version
                    &&& b.spec_data_offset() == data_offset
                    &&& b.spec_data_size() == data_size
                    &&& b.spec_data_tail() == data_tail
                },
                Err(e) => e == EventOpenError::MmapInvalidSize,
            },
            r is Ok <==> (data_offset > 0 && data_size >= PERF_HEADER_SIZE && data_size
                <= usize::MAX && data_offset + data_size <= mmap_len),
    {
        if data_offset == 0 || data_size < PERF_HEADER_SIZE || data_size > usize::MAX as u64
            || data_size > mmap_len || data_offset > mmap_len - data_size {
            return Err(EventOpenError::MmapInvalidSize);
        }
        Ok(PerfMmapBuf { version, data_offset, data_size, data_tail })
    }

    pub fn version(&self) -> (r: u32)
        ensures
            r == self.spec_version(),
    {
        self.version
    }

    pub fn data_offset(&self) -> (r: u64)
        ensures
            r == self.spec_data_offset(),
    {
        self.data_offset
    }

    pub fn data_size(&self) -> (r: u64)
        ensures
            r == self.spec_data_size(),
    {
        self.data_size
    }

    /// The tail to publish to the producer.
    pub fn data_tail(&self) -> (r: u64)
        ensures
            r == self.spec_data_tail(),
    {
        self.data_tail
    }

    /// Where in the data region the next record starts.
    pub fn wrapped_data_tail(&self) -> (r: u64)
        requires
            self.wf(),
        ensures
            r == self.spec_data_tail() % self.spec_data_size(),
    {
        self.data_tail % self.data_size
    }

    /// Retires the record at the tail: `Ok(None)` when less than a record
    /// header has been published, the record's bytes otherwise, joined across
    /// the wrap point. The tail advances by the record's own size.
    pub fn read_sample(&mut self, ring: &[u8], head: u64) -> (r: Result<Option<Vec<u8>>, RingError>)
        requires
            old(self).wf(),
            ring@.len() == old(self).spec_data_size(),
        ensures
            final(self).wf(),
            final(self).spec_version() == old(self).spec_version(),
            final(self).spec_data_offset() == old(self).spec_data_offset(),
            final(self).spec_data_size() == old(self).spec_data_size(),
            match ring_step(ring@, head as int, old(self).spec_data_tail() as int) {
                Err(e) => r == Err::<Option<Vec<u8>>, RingError>(e) && final(self).spec_data_tail()
                    == old(self).spec_data_tail(),
                Ok(None) => r is Ok && r->Ok_0 is None && final(self).spec_data_tail() == old(self).spec_data_tail(),
                Ok(Some((rec, next))) => r is Ok && r->Ok_0 is Some && r->Ok_0->Some_0@ == rec
                    && final(self).spec_data_tail() == next,
            },
    {
        let tail = self.data_tail;
        if head < tail {
            return Err(RingError::HeadBehindTail);
        }
        if head - tail < PERF_HEADER_SIZE {
            return Ok(None);
        }
        let off = (tail % self.data_size) as usize;
        let hdr = copy_from_ring(ring, off, PERF_HEADER_SIZE as usize);
        let size = read_u16(hdr.as_slice(), 6) as u64;
        if size < PERF_HEADER_SIZE {
            return Err(RingError::UndersizedRecord);
        }
        if size > head - tail || size > self.data_size {
            return Err(RingError::OversizedRecord);
        }
        let rec = copy_from_ring(ring, off, size as usize);
        self.data_tail = tail + size;
        Ok(Some(rec))
    }

    /// Retires every record published up to `head`, in order. On corruption
    /// the drain stops with the error and the tail is left where it was.
    pub fn drain(&mut self, ring: &[u8], head: u64) -> (r: Result<Vec<Vec<u8>>, RingError>)
        requires
            old(self).wf(),
            ring@.len() == old(self).spec_data_size(),
        ensures
            final(self).wf(),
            final(self).spec_version() == old(self).spec_version(),
            final(self).spec_data_offset() == old(self).spec_data_offset(),
            final(self).spec_data_size() == old(self).spec_data_size(),
            match ring_walk(ring@, head as int, old(self).spec_data_tail() as int) {
                Err(e) => r == Err::<Vec<Vec<u8>>, RingError>(e) && final(self).spec_data_tail()
                    == old(self).spec_data_tail(),
                Ok((recs, t)) => r is Ok && byte_views(r->Ok_0@) == recs && final(self).spec_data_tail() == t,
            },
            r is Ok ==> old(self).spec_data_tail() <= final(self).spec_data_tail() <= head,
    {
        proof {
            law_tail_stays_between(ring@, head as int, self.data_tail as int);
        }
        let start = self.data_tail;
        let mut out: Vec<Vec<u8>> = Vec::new();
        loop
            invariant
                self.wf(),
                self.version == old(self).version,
                self.data_offset == old(self).data_offset,
                self.data_size == old(self).data_size,
                ring@.len() == self.data_size,
                start == old(self).data_tail,
                ring_walk(ring@, head as int, start as int) == match ring_walk(
                    ring@,
                    head as int,
                    self.data_tail as int,
                ) {
                    Err(e) => Err(e),
                    Ok((rest, t)) => Ok((byte_views(out@) + rest, t)),
                },
            ensures
                self.wf(),
                self.version == old(self).version,
                self.data_offset == old(self).data_offset,
                self.data_size == old(self).data_size,
                ring_walk(ring@, head as int, start as int) == Ok::<(Seq<Seq<u8>>, int), RingError>(
                    (byte_views(out@), self.data_tail as int),
                ),
            decreases head - self.data_tail,
        {
            let ghost before = self.data_tail as int;
            match self.read_sample(ring, head) {
                Err(e) => {
                    assert(ring_walk(ring@, head as int, before) == Err::<(Seq<Seq<u8>>, int), RingError>(e));
                    self.data_tail = start;
                    return Err(e);
                },
                Ok(None) => {
                    assert(ring_walk(ring@, head as int, before) == Ok::<(Seq<Seq<u8>>, int), RingError>((Seq::empty(), before)));
                    assert(byte_views(out@) + Seq::<Seq<u8>>::empty() =~= byte_views(out@));
                    break;
                },
                Ok(Some(rec)) => {
                    let ghost prev = out@;
                    let ghost next = self.data_tail as int;
                    assert(ring_walk(ring@, head as int, before) == match ring_walk(ring@, head as int, next) {
                        Err(e) => Err(e),
                        Ok((rest, t)) => Ok((seq![rec@] + rest, t)),
                    });
                    out.push(rec);
                    assert(byte_views(out@) =~= byte_views(prev) + seq![rec@]);
                    assert forall|rest: Seq<Seq<u8>>| #![auto] byte_views(prev) + (seq![rec@] + rest)
                        =~= byte_views(out@) + rest by {}
                },
            }
        }
        Ok(out)
    }
}

/// Whether a retired record is a sample.
pub fn is_sample_record(rec: &[u8]) -> (r: bool)
    requires
        rec@.len() >= PERF_HEADER_SIZE,
    ensures
        r == (record_type(rec@) == PERF_RECORD_SAMPLE),
{
    read_u32(rec, 0) == PERF_RECORD_SAMPLE
}

} // verus!
