use memtier::abi::{
    PERF_COUNT_HW_CACHE_LL, PERF_COUNT_HW_CACHE_OP_READ, PERF_COUNT_HW_CACHE_RESULT_MISS,
    PERF_SAMPLE_ADDR, PERF_SAMPLE_IP, PERF_SAMPLE_TID, PERF_SAMPLE_TIME, PERF_TYPE_BREAKPOINT,
    PERF_TYPE_HW_CACHE, PERF_TYPE_RAW, PERF_FLAG_FD_CLOEXEC, PERF_FLAG_FD_OUTPUT, L3_MISS,
};
use memtier::attr::perf_event_attr;
use memtier::builder::{
    EventAttrFlags, PerfEventBuilder, PerfEventOpenFlags, PerfHwCacheConfigBuilder, PerfHwCacheId,
    PerfHwCacheOpId, PerfHwCacheOpResultId, ReadFormat, SampleFormat, TypeId,
};
use memtier::error::BuilderError;
use memtier::handle::mem_event_attr;

#[test]
fn test_event_type_id_hw_cache() {
    assert_eq!(TypeId::HardwareCache.to_perf_sys(), PERF_TYPE_HW_CACHE);
    let b = PerfEventBuilder::new().type_id(TypeId::HardwareCache);
    assert_eq!(b.attr.type_, TypeId::HardwareCache.to_perf_sys());
}

#[test]
fn test_event_config_hw_cache() {
    let c = PERF_COUNT_HW_CACHE_LL
        | (PERF_COUNT_HW_CACHE_OP_READ << 8)
        | (PERF_COUNT_HW_CACHE_RESULT_MISS << 16);
    let ll = PerfHwCacheId::LL;
    assert_eq!(ll.to_perf_sys().unwrap(), PERF_COUNT_HW_CACHE_LL);
    let b = PerfEventBuilder::new()
        .type_config(
            PerfHwCacheConfigBuilder::new()
                .cache_id(PerfHwCacheId::LL)
                .op_id(PerfHwCacheOpId::Read)
                .result_id(PerfHwCacheOpResultId::Miss),
        )
        .unwrap();
    assert_eq!(b.attr.config, c as u64);
}

#[test]
fn test_event_sample_period() {
    let period = 10000;
    let b = PerfEventBuilder::new().sample_period(period).unwrap();
    assert_eq!(b.attr.get_sample_period(), period);
    assert_eq!(b.attr.freq(), 0);
}

#[test]
fn test_event_sample_format() {
    let format = &[
        SampleFormat::Tid,
        SampleFormat::Time,
        SampleFormat::Ip,
        SampleFormat::Addr,
    ];
    assert_eq!(SampleFormat::Tid.to_perf_sys().unwrap(), PERF_SAMPLE_TID);
    assert_eq!(SampleFormat::Time.to_perf_sys().unwrap(), PERF_SAMPLE_TIME);
    assert_eq!(SampleFormat::Ip.to_perf_sys().unwrap(), PERF_SAMPLE_IP);
    assert_eq!(SampleFormat::Addr.to_perf_sys().unwrap(), PERF_SAMPLE_ADDR);
    let fb = SampleFormat::Tid.to_perf_sys().unwrap()
        | SampleFormat::Time.to_perf_sys().unwrap()
        | SampleFormat::Ip.to_perf_sys().unwrap()
        | SampleFormat::Addr.to_perf_sys().unwrap();
    let b = PerfEventBuilder::new().sample_format(format).unwrap();
    assert_eq!(b.attr.sample_type, fb);
}

#[test]
fn test_event_flags() {
    let f = &[
        EventAttrFlags::ExcludeKernel,
        EventAttrFlags::PreciseIpConstantSkid,
    ];
    let b = PerfEventBuilder::new().flags(f);
    // ExcludeKernel is bit 5
    // PreciseIP is bits 15-16; ConstantSkid is 1
    assert_eq!(b.attr.precise_ip(), 1);
    assert_eq!(b.attr.exclude_kernel(), 1);
}

#[test]
fn period_then_freq_leaves_freq_mode() {
    let b = PerfEventBuilder::new()
        .sample_period(1000)
        .unwrap()
        .sample_freq(4000)
        .unwrap();
    assert_eq!(b.attr.freq(), 1);
    assert_eq!(b.attr.get_sample_freq(), 4000);
}

#[test]
fn freq_then_period_leaves_period_mode() {
    let b = PerfEventBuilder::new()
        .sample_freq(4000)
        .unwrap()
        .sample_period(1000)
        .unwrap();
    assert_eq!(b.attr.freq(), 0);
    assert_eq!(b.attr.get_sample_period(), 1000);
}

#[test]
fn wakeup_bytes_then_events_leaves_event_mode() {
    let b = PerfEventBuilder::new()
        .wakeup_n_bytes(4096)
        .unwrap()
        .wakeup_n_events(16)
        .unwrap();
    assert_eq!(b.attr.watermark(), 0);
    assert_eq!(b.attr.wakeup, 16);
    let b = b.wakeup_n_bytes(8192).unwrap();
    assert_eq!(b.attr.watermark(), 1);
    assert_eq!(b.attr.wakeup, 8192);
}

#[test]
fn hw_cache_config_encoding() {
    let c = PerfHwCacheConfigBuilder::new()
        .cache_id(PerfHwCacheId::LL)
        .op_id(PerfHwCacheOpId::Read)
        .result_id(PerfHwCacheOpResultId::Miss)
        .build()
        .unwrap();
    assert_eq!(c, 0x10002);
    let c = PerfHwCacheConfigBuilder::new()
        .cache_id(PerfHwCacheId::Dtlb)
        .op_id(PerfHwCacheOpId::Prefetch)
        .result_id(PerfHwCacheOpResultId::Access)
        .build()
        .unwrap();
    assert_eq!(c, 3 | (2 << 8));
}

#[test]
fn hw_cache_config_with_unset_part_fails() {
    let partial = PerfHwCacheConfigBuilder::new().cache_id(PerfHwCacheId::L1D);
    assert_eq!(partial.validate_build(), Err(BuilderError::Unset));
    assert_eq!(partial.build(), Err(BuilderError::Unset));
    let r = PerfEventBuilder::new().type_config(partial);
    assert!(matches!(r, Err(BuilderError::Unset)));
    let full = partial
        .op_id(PerfHwCacheOpId::Write)
        .result_id(PerfHwCacheOpResultId::Miss);
    assert_eq!(full.validate_build(), Ok(()));
}

#[test]
fn raw_config_is_used_as_is() {
    let b = PerfEventBuilder::new().type_config(L3_MISS).unwrap();
    assert_eq!(b.attr.config, 0x20d1);
}

#[test]
fn unset_sample_field_fails() {
    let r = PerfEventBuilder::new().sample_format(&[SampleFormat::Ip, SampleFormat::Unset]);
    assert!(matches!(r, Err(BuilderError::Unset)));
    let r = PerfEventBuilder::new().read_format(&[ReadFormat::Unset]);
    assert!(matches!(r, Err(BuilderError::Unset)));
}

#[test]
fn read_format_accumulates() {
    let b = PerfEventBuilder::new()
        .read_format(&[ReadFormat::TotalTimeEnabled])
        .unwrap()
        .read_format(&[ReadFormat::ID, ReadFormat::Group])
        .unwrap();
    assert_eq!(b.attr.read_format, 0x1 | 0x4 | 0x8);
}

#[test]
fn skid_levels_overwrite() {
    let b = PerfEventBuilder::new().flags(&[
        EventAttrFlags::PreciseIpNoSkid,
        EventAttrFlags::PreciseIpConstantSkid,
        EventAttrFlags::Disabled,
    ]);
    assert_eq!(b.attr.precise_ip(), 1);
    assert_eq!(b.attr.disabled(), 1);
    let b = b.flags(&[EventAttrFlags::PreciseIpAnySkid]);
    assert_eq!(b.attr.precise_ip(), 0);
}

#[test]
fn build_needs_an_event_class() {
    let r = PerfEventBuilder::new().build(0, -1, None);
    assert!(matches!(r, Err(BuilderError::Unset)));
}

#[test]
fn breakpoint_with_config_is_refused() {
    let b = PerfEventBuilder::new()
        .type_id(TypeId::Breakpoint)
        .type_config(5u64)
        .unwrap();
    assert_eq!(b.attr.type_, PERF_TYPE_BREAKPOINT);
    assert_eq!(b.validate_build(), Err(BuilderError::BreakpointWrongConfig));
    let b = PerfEventBuilder::new().type_id(TypeId::Breakpoint);
    assert_eq!(b.validate_build(), Ok(()));
}

#[test]
fn build_states_the_open_call() {
    let q = PerfEventBuilder::new()
        .type_id(TypeId::Raw)
        .type_config(0x1234u64)
        .unwrap()
        .build(
            42,
            3,
            Some(&[PerfEventOpenFlags::CloseOnExec, PerfEventOpenFlags::Output]),
        )
        .unwrap();
    assert_eq!(q.pid, 42);
    assert_eq!(q.cpu, 3);
    assert_eq!(q.group_fd, -1);
    assert_eq!(q.flags, (PERF_FLAG_FD_CLOEXEC | PERF_FLAG_FD_OUTPUT) as u64);
    assert_eq!(q.attr.len(), 128);
    assert_eq!(&q.attr[0..4], &[4, 0, 0, 0]);
    assert_eq!(&q.attr[4..8], &[128, 0, 0, 0]);
    assert_eq!(&q.attr[8..16], &[0x34, 0x12, 0, 0, 0, 0, 0, 0]);
    assert!(q.attr[72..].iter().all(|b| *b == 0));
}

#[test]
fn descriptor_bytes_follow_kernel_layout() {
    let mut a = perf_event_attr::new();
    a.type_ = PERF_TYPE_RAW;
    a.set_sample_freq(0x0102);
    a.sample_type = 0x0f;
    a.read_format = 0x10;
    a.set_wakeup_watermark(0x0a0b);
    a.bp_type = 7;
    a.bp_addr = 0x1122;
    a.bp_len = 8;
    let b = a.to_bytes();
    assert_eq!(b.len(), 128);
    assert_eq!(&b[16..24], &[0x02, 0x01, 0, 0, 0, 0, 0, 0]);
    assert_eq!(b[24], 0x0f);
    assert_eq!(b[32], 0x10);
    assert_eq!(&b[40..48], &[0x00, 0x44, 0, 0, 0, 0, 0, 0]);
    assert_eq!(&b[48..52], &[0x0b, 0x0a, 0, 0]);
    assert_eq!(&b[52..56], &[7, 0, 0, 0]);
    assert_eq!(&b[56..64], &[0x22, 0x11, 0, 0, 0, 0, 0, 0]);
    assert_eq!(&b[64..72], &[8, 0, 0, 0, 0, 0, 0, 0]);
}

#[test]
fn default_builder_starts_disabled() {
    let b = PerfEventBuilder::default();
    assert_eq!(b.attr.disabled(), 1);
    assert_eq!(PerfEventBuilder::new().attr.disabled(), 0);
}

#[test]
fn memory_event_descriptor() {
    let a = mem_event_attr(L3_MISS, 1000, true);
    assert_eq!(a.type_, PERF_TYPE_RAW);
    assert_eq!(a.config, 0x20d1);
    assert_eq!(a.get_sample_period(), 1000);
    assert_eq!(a.freq(), 0);
    assert_eq!(a.sample_type, 0x1000f);
    assert_eq!(a.wakeup, 250);
    assert_eq!(a.precise_ip(), 2);
    assert_eq!(a.exclude_kernel(), 1);
    assert_eq!(a.disabled(), 1);
    assert_eq!(a.flags, 0x1 | 0x20 | 0x40 | 0x200000 | 0x400000 | 0x10000);
    assert_eq!(mem_event_attr(L3_MISS, 1000, false).disabled(), 0);
}
