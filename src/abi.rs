//! Values of the Linux perf_event and NUMA kernel interface that the library
//! encodes and decodes.
use vstd::prelude::*;

verus! {

// Event classes (`perf_type_id`).
pub const PERF_TYPE_HARDWARE: u32 = 0;
pub const PERF_TYPE_SOFTWARE: u32 = 1;
pub const PERF_TYPE_TRACEPOINT: u32 = 2;
pub const PERF_TYPE_HW_CACHE: u32 = 3;
pub const PERF_TYPE_RAW: u32 = 4;
pub const PERF_TYPE_BREAKPOINT: u32 = 5;

// Generalized hardware events (`perf_hw_id`).
pub const PERF_COUNT_HW_CPU_CYCLES: u64 = 0;
pub const PERF_COUNT_HW_INSTRUCTIONS: u64 = 1;
pub const PERF_COUNT_HW_CACHE_REFERENCES: u64 = 2;
pub const PERF_COUNT_HW_CACHE_MISSES: u64 = 3;
pub const PERF_COUNT_HW_BRANCH_INSTRUCTIONS: u64 = 4;
pub const PERF_COUNT_HW_BRANCH_MISSES: u64 = 5;
pub const PERF_COUNT_HW_BUS_CYCLES: u64 = 6;
pub const PERF_COUNT_HW_STALLED_CYCLES_FRONTEND: u64 = 7;
pub const PERF_COUNT_HW_STALLED_CYCLES_BACKEND: u64 = 8;
pub const PERF_COUNT_HW_REF_CPU_CYCLES: u64 = 9;

// Hardware cache identifiers (`perf_hw_cache_id`).
pub const PERF_COUNT_HW_CACHE_L1D: u32 = 0;
pub const PERF_COUNT_HW_CACHE_L1I: u32 = 1;
pub const PERF_COUNT_HW_CACHE_LL: u32 = 2;
pub const PERF_COUNT_HW_CACHE_DTLB: u32 = 3;
pub const PERF_COUNT_HW_CACHE_ITLB: u32 = 4;
pub const PERF_COUNT_HW_CACHE_BPU: u32 = 5;
pub const PERF_COUNT_HW_CACHE_NODE: u32 = 6;

// Hardware cache operations (`perf_hw_cache_op_id`).
pub const PERF_COUNT_HW_CACHE_OP_READ: u32 = 0;
pub const PERF_COUNT_HW_CACHE_OP_WRITE: u32 = 1;
pub const PERF_COUNT_HW_CACHE_OP_PREFETCH: u32 = 2;

// Hardware cache operation results (`perf_hw_cache_op_result_id`).
pub const PERF_COUNT_HW_CACHE_RESULT_ACCESS: u32 = 0;
pub const PERF_COUNT_HW_CACHE_RESULT_MISS: u32 = 1;

// Sample selector bits (`perf_event_sample_format`).
pub const PERF_SAMPLE_IP: u64 = 0x1;
pub const PERF_SAMPLE_TID: u64 = 0x2;
pub const PERF_SAMPLE_TIME: u64 = 0x4;
pub const PERF_SAMPLE_ADDR: u64 = 0x8;
pub const PERF_SAMPLE_READ: u64 = 0x10;
pub const PERF_SAMPLE_CALLCHAIN: u64 = 0x20;
pub const PERF_SAMPLE_ID: u64 = 0x40;
pub const PERF_SAMPLE_CPU: u64 = 0x80;
pub const PERF_SAMPLE_PERIOD: u64 = 0x100;
pub const PERF_SAMPLE_STREAM_ID: u64 = 0x200;
pub const PERF_SAMPLE_RAW: u64 = 0x400;
pub const PERF_SAMPLE_BRANCH_STACK: u64 = 0x800;
pub const PERF_SAMPLE_REGS_USER: u64 = 0x1000;
pub const PERF_SAMPLE_STACK_USER: u64 = 0x2000;
pub const PERF_SAMPLE_WEIGHT: u64 = 0x4000;
pub const PERF_SAMPLE_DATA_SRC: u64 = 0x8000;
pub const PERF_SAMPLE_IDENTIFIER: u64 = 0x10000;
pub const PERF_SAMPLE_TRANSACTION: u64 = 0x20000;
pub const PERF_SAMPLE_REGS_INTR: u64 = 0x40000;
pub const PERF_SAMPLE_PHYS_ADDR: u64 = 0x80000;
pub const PERF_SAMPLE_AUX: u64 = 0x100000;
pub const PERF_SAMPLE_CGROUP: u64 = 0x200000;
pub const PERF_SAMPLE_DATA_PAGE_SIZE: u64 = 0x400000;
pub const PERF_SAMPLE_CODE_PAGE_SIZE: u64 = 0x800000;
pub const PERF_SAMPLE_WEIGHT_STRUCT: u64 = 0x1000000;

// Counter read layout bits (`perf_event_read_format`).
pub const PERF_FORMAT_TOTAL_TIME_ENABLED: u64 = 0x1;
pub const PERF_FORMAT_TOTAL_TIME_RUNNING: u64 = 0x2;
pub const PERF_FORMAT_ID: u64 = 0x4;
pub const PERF_FORMAT_GROUP: u64 = 0x8;
pub const PERF_FORMAT_LOST: u64 = 0x10;

// Flags of the event-open call.
pub const PERF_FLAG_FD_NO_GROUP: u32 = 0x1;
pub const PERF_FLAG_FD_OUTPUT: u32 = 0x2;
pub const PERF_FLAG_PID_CGROUP: u32 = 0x4;
pub const PERF_FLAG_FD_CLOEXEC: u32 = 0x8;

// Record types found in the sample ring (`perf_event_type`).
pub const PERF_RECORD_MMAP: u32 = 1;
pub const PERF_RECORD_LOST: u32 = 2;
pub const PERF_RECORD_COMM: u32 = 3;
pub const PERF_RECORD_EXIT: u32 = 4;
pub const PERF_RECORD_THROTTLE: u32 = 5;
pub const PERF_RECORD_UNTHROTTLE: u32 = 6;
pub const PERF_RECORD_FORK: u32 = 7;
pub const PERF_RECORD_READ: u32 = 8;
pub const PERF_RECORD_SAMPLE: u32 = 9;

// Control requests on an event descriptor.
pub const PERF_EVENT_IOC_ENABLE: u64 = 0x2400;
pub const PERF_EVENT_IOC_DISABLE: u64 = 0x2401;
pub const PERF_EVENT_IOC_RESET: u64 = 0x2403;
pub const PERF_EVENT_IOC_SET_OUTPUT: u64 = 0x2405;

// Error numbers the event-open call reports.
pub const EPERM: i32 = 1;
pub const ENOENT: i32 = 2;
pub const EBADF: i32 = 9;
pub const EACCES: i32 = 13;
pub const EBUSY: i32 = 16;
pub const ENODEV: i32 = 19;
pub const EINVAL: i32 = 22;
pub const EOPNOTSUPP: i32 = 95;

/// Size in bytes of the event attribute record handed to the kernel.
pub const PERF_ATTR_SIZE: u32 = 128;

/// Size in bytes of the header that starts every ring record.
pub const PERF_HEADER_SIZE: u64 = 8;

// Byte offsets of the consumer fields in the ring's control page.
pub const MMAP_PAGE_VERSION: usize = 0;
pub const MMAP_PAGE_DATA_HEAD: usize = 1024;
pub const MMAP_PAGE_DATA_TAIL: usize = 1032;
pub const MMAP_PAGE_DATA_OFFSET: usize = 1040;
pub const MMAP_PAGE_DATA_SIZE: usize = 1048;

/// Pages of the sample ring: one control page and a power-of-two ring.
pub const MMAP_PAGES: usize = 65537;

/// Granularity at which accesses are attributed to pages.
pub const PAGE_SIZE: u64 = 4096;

/// Raw event: retired loads that missed the last-level cache.
pub const L3_MISS: u64 = 0x20d1;

/// Raw event: all retired stores.
pub const ALL_STORES: u64 = 0x82d0;

} // verus!
