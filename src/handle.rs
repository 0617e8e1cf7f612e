//! An opened event: checks of what the kernel calls returned, the geometry
//! of the sample ring, and the memory-access events this program samples.
use vstd::prelude::*;
use vstd::arithmetic::power2::{is_pow2, is_pow2_exists, is_pow2_equiv};
use crate::abi;
use crate::attr;
use crate::error::EventOpenError;

verus! {

/// The descriptor of an opened event.
#[derive(Debug, Clone, Copy, PartialEq, Eq, Structural)]
pub struct PerfEventHandle(pub i32);

impl PerfEventHandle {
    /// The handle for what the event-open call returned: a negative value is
    /// the call's failure, and a descriptor must fit in an `i32`.
    pub fn from_open_result(ret: i64) -> (r: Result<PerfEventHandle, EventOpenError>)
        ensures
            0 <= ret <= i32::MAX ==> r == Ok::<PerfEventHandle, EventOpenError>(
                PerfEventHandle(ret as i32),
            ),
            !(0 <= ret <= i32::MAX) ==> r == Err::<PerfEventHandle, EventOpenError>(
                EventOpenError::SyscallError,
            ),
    {
        if ret < 0 || ret > i32::MAX as i64 {
            Err(EventOpenError::SyscallError)
        } else {
            Ok(PerfEventHandle(ret as i32))
        }
    }

    pub fn fd(&self) -> (r: i32)
        ensures
            r == self.0,
    {
        self.0
    }
}

/// What an operator can do about a failed event-open call.
#[derive(Debug, Clone, Copy, PartialEq, Eq, Structural)]
pub enum OpenFailure {
    /// Lower `perf_event_paranoid` or grant CAP_PERFMON / CAP_SYS_PTRACE.
    Permission,
    /// The group leader's descriptor is not an open event.
    BadDescriptor,
    /// The event, its config or one of its flags is not known here.
    UnknownEvent,
    /// Another user holds the PMU.
    Busy,
    /// The PMU lacks a requested feature, such as precise sampling.
    Unsupported,
    /// Any other error number.
    Other,
}

/// The hint for the error number of a failed event-open call.
pub fn open_failure(errno: i32) -> (r: OpenFailure)
    ensures
        r == (if errno == abi::EPERM || errno == abi::EACCES {
            OpenFailure::Permission
        } else if errno == abi::EBADF {
            OpenFailure::BadDescriptor
        } else if errno == abi::ENOENT || errno == abi::EINVAL {
            OpenFailure::UnknownEvent
        } else if errno == abi::EBUSY {
            OpenFailure::Busy
        } else if errno == abi::EOPNOTSUPP || errno == abi::ENODEV {
            OpenFailure::Unsupported
        } else {
            OpenFailure::Other
        }),
{
    if errno == abi::EPERM || errno == abi::EACCES {
        OpenFailure::Permission
    } else if errno == abi::EBADF {
        OpenFailure::BadDescriptor
    } else if errno == abi::ENOENT || errno == abi::EINVAL {
        OpenFailure::UnknownEvent
    } else if errno == abi::EBUSY {
        OpenFailure::Busy
    } else if errno == abi::EOPNOTSUPP || errno == abi::ENODEV {
        OpenFailure::Unsupported
    } else {
        OpenFailure::Other
    }
}

/// The outcome of a control request (enable, disable, reset, set-output)
/// that returned `ret`: zero is success.
pub fn check_ioctl(ret: i32) -> (r: Result<(), EventOpenError>)
    ensures
        ret == 0 ==> r is Ok,
        ret != 0 ==> r == Err::<(), EventOpenError>(EventOpenError::SyscallError),
{
    if ret == 0 {
        Ok(())
    } else {
        Err(EventOpenError::SyscallError)
    }
}

/// A page count the kernel accepts for a sample ring: one control page and
/// a power of two of data pages.
pub open spec fn is_ring_page_count(pages: int) -> bool {
    exists|k: nat| #[trigger] vstd::arithmetic::power::pow(2, k) == pages - 1
}

/// Accepts exactly the page counts of the form `1 + 2^k`.
pub fn check_ring_pages(pages: u64) -> (r: Result<(), EventOpenError>)
    ensures
        r is Ok <==> is_ring_page_count(pages as int),
        r is Err ==> r == Err::<(), EventOpenError>(EventOpenError::MmapInvalidSize),
{
    if pages == 0 {
        proof {
            law_ring_page_counts(0, pages as int);
        }
        return Err(EventOpenError::MmapInvalidSize);
    }
    let ghost data = (pages - 1) as int;
    let mut n: u64 = pages - 1;
    proof {
        reveal(is_pow2);
    }
    while n > 1 && n % 2 == 0
        invariant
            n <= data,
            is_pow2(data) == is_pow2(n as int),
        decreases n,
    {
        proof {
            reveal(is_pow2);
        }
        n = n / 2;
    }
    proof {
        reveal(is_pow2);
        is_pow2_equiv(data);
        assert(is_pow2_exists(data) == is_ring_page_count(pages as int));
    }
    if n == 1 {
        Ok(())
    } else {
        Err(EventOpenError::MmapInvalidSize)
    }
}

/// Bytes to map for a ring of `pages` pages of `page_size` bytes. Fails with
/// `MmapInvalidSize` when the count is not `1 + 2^k` or the size does not fit
/// in a `u64`.
pub fn ring_mmap_len(pages: u64, page_size: u64) -> (r: Result<u64, EventOpenError>)
    ensures
        is_ring_page_count(pages as int) && pages * page_size <= u64::MAX ==> r == Ok::<
            u64,
            EventOpenError,
        >((pages * page_size) as u64),
        !(is_ring_page_count(pages as int) && pages * page_size <= u64::MAX) ==> r == Err::<
            u64,
            EventOpenError,
        >(EventOpenError::MmapInvalidSize),
{
    match check_ring_pages(pages) {
        Ok(()) => {},
        Err(e) => return Err(e),
    }
    match pages.checked_mul(page_size) {
        Some(len) => Ok(len),
        None => Err(EventOpenError::MmapInvalidSize),
    }
}

/// Every ring of one control page and `2^k` data pages is accepted, for
/// every `k`; no ring of fewer than two pages is.
pub proof fn law_ring_page_counts(k: nat, pages: int)
    ensures
        is_ring_page_count(1 + vstd::arithmetic::power::pow(2, k)),
        pages < 2 ==> !is_ring_page_count(pages),
{
    assert(vstd::arithmetic::power::pow(2, k) == (1 + vstd::arithmetic::power::pow(2, k)) - 1);
    if pages < 2 {
        assert forall|j: nat| #[trigger] vstd::arithmetic::power::pow(2, j) != pages - 1 by {
            vstd::arithmetic::power::lemma_pow_positive(2, j);
        }
    }
}

/// Whether an event maps a ring of its own: it samples, and it has no group
/// leader whose ring it writes to.
pub fn owns_ring(a: &attr::perf_event_attr, grouped: bool) -> (r: bool)
    ensures
        r == (a.sample != 0 && !grouped),
{
    a.sample != 0 && !grouped
}

/// Sample fields of the memory-access events: identifier, ip, pid/tid,
/// time and data address.
pub const MEM_SAMPLE_TYPE: u64 = 0x1000f;

/// The descriptor of a raw memory-access event `event` sampled every
/// `sample_period` events: it wakes the reader every quarter period, leaves
/// out kernel and hypervisor samples and their call chains, asks for zero
/// skid, and starts disabled when `disabled` is set.
pub fn mem_event_attr(event: u64, sample_period: u64, disabled: bool) -> (r: attr::perf_event_attr)
    ensures
        r == (attr::perf_event_attr {
            type_: abi::PERF_TYPE_RAW,
            config: event,
            sample: sample_period,
            sample_type: MEM_SAMPLE_TYPE,
            wakeup: (sample_period / 4) as u32,
            flags: (if disabled {
                attr::ATTR_DISABLED
            } else {
                0
            }) | attr::ATTR_EXCLUDE_KERNEL | attr::ATTR_EXCLUDE_HV
                | attr::ATTR_EXCLUDE_CALLCHAIN_USER | attr::ATTR_EXCLUDE_CALLCHAIN_KERNEL | attr::ATTR_PRECISE_IP_REQUEST_NO_SKID,
            ..attr::zeroed_attr()
        }),
{
    let mut a = attr::perf_event_attr::new();
    a.type_ = abi::PERF_TYPE_RAW;
    a.config = event;
    a.set_sample_period(sample_period);
    a.sample_type = abi::PERF_SAMPLE_IDENTIFIER | abi::PERF_SAMPLE_IP | abi::PERF_SAMPLE_TID
        | abi::PERF_SAMPLE_TIME | abi::PERF_SAMPLE_ADDR;
    a.wakeup = (sample_period / 4) as u32;
    let base: u64 = if disabled {
        attr::ATTR_DISABLED
    } else {
        0
    };
    a.flags = base | attr::ATTR_EXCLUDE_KERNEL | attr::ATTR_EXCLUDE_HV
        | attr::ATTR_EXCLUDE_CALLCHAIN_USER | attr::ATTR_EXCLUDE_CALLCHAIN_KERNEL | attr::ATTR_PRECISE_IP_REQUEST_NO_SKID;
    assert(abi::PERF_SAMPLE_IDENTIFIER | abi::PERF_SAMPLE_IP | abi::PERF_SAMPLE_TID
        | abi::PERF_SAMPLE_TIME | abi::PERF_SAMPLE_ADDR == 0x1000fu64) by (bit_vector);
    a
}

} // verus!
