use memtier::attr::perf_event_attr;
use memtier::error::EventOpenError;
use memtier::handle::{check_ioctl, open_failure, owns_ring, OpenFailure, PerfEventHandle};

#[test]
fn open_result_becomes_handle() {
    assert_eq!(PerfEventHandle::from_open_result(5), Ok(PerfEventHandle(5)));
    assert_eq!(PerfEventHandle::from_open_result(5).unwrap().fd(), 5);
    assert_eq!(
        PerfEventHandle::from_open_result(-1),
        Err(EventOpenError::SyscallError)
    );
    assert_eq!(
        PerfEventHandle::from_open_result(1 << 40),
        Err(EventOpenError::SyscallError)
    );
}

#[test]
fn control_request_result() {
    assert_eq!(check_ioctl(0), Ok(()));
    assert_eq!(check_ioctl(-1), Err(EventOpenError::SyscallError));
}

#[test]
fn only_sampling_leaders_own_a_ring() {
    let mut a = perf_event_attr::new();
    assert!(!owns_ring(&a, false));
    a.set_sample_period(1000);
    assert!(owns_ring(&a, false));
    assert!(!owns_ring(&a, true));
}

#[test]
fn open_failures_get_hints() {
    assert_eq!(open_failure(1), OpenFailure::Permission);
    assert_eq!(open_failure(13), OpenFailure::Permission);
    assert_eq!(open_failure(9), OpenFailure::BadDescriptor);
    assert_eq!(open_failure(2), OpenFailure::UnknownEvent);
    assert_eq!(open_failure(16), OpenFailure::Busy);
    assert_eq!(open_failure(95), OpenFailure::Unsupported);
    assert_eq!(open_failure(12), OpenFailure::Other);
}
