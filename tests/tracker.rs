use memtier::error::MigrationError;
use memtier::tracker::{AccessTracker, PageRecord};

#[test]
fn update_creates_page_entry() {
    let mut t = AccessTracker::new();
    t.update(0x7fff_1234);
    let e = t.get(0x7fff_1000).unwrap();
    assert_eq!(e, PageRecord { page: 0x7fff_1000, cost: 1, tier: 0 });
    assert!(t.get(0x7fff_1234).is_none());
}

#[test]
fn costs_add_up_to_updates() {
    let mut t = AccessTracker::new();
    let addrs = [0x1000u64, 0x1fff, 0x2000, 0x1008, 0x3abc, 0x2fff, 0x1000];
    for a in addrs {
        t.update(a);
    }
    assert_eq!(t.total_cost(), addrs.len() as u64);
    assert_eq!(t.records().iter().map(|r| r.cost).sum::<u64>(), 7);
    assert_eq!(t.len(), 3);
    assert_eq!(t.get(0x1000).unwrap().cost, 4);
    assert_eq!(t.get(0x2000).unwrap().cost, 2);
    assert_eq!(t.get(0x3000).unwrap().cost, 1);
    let pages: Vec<u64> = t.records().iter().map(|r| r.page).collect();
    assert_eq!(pages, vec![0x1000, 0x2000, 0x3000]);
}

#[test]
fn empty_tracker_has_no_cost() {
    let t = AccessTracker::new();
    assert_eq!(t.total_cost(), 0);
    assert_eq!(t.len(), 0);
}

#[test]
fn migration_statuses_commit_per_page() {
    let mut t = AccessTracker::new();
    for a in [0x1000u64, 0x2000, 0x3000] {
        t.update(a);
    }
    t.apply_migration_result(&[0x1000, 0x2000, 0x3000], &[0, 0, 1]);
    let ebusy = -16;
    t.apply_migration_result(&[0x1000, 0x2000, 0x3000], &[1, ebusy, 0]);
    assert_eq!(t.get(0x1000).unwrap().tier, 1);
    assert_eq!(t.get(0x2000).unwrap().tier, 0);
    assert_eq!(t.get(0x3000).unwrap().tier, 0);
    assert_eq!(t.total_cost(), 3);
}

#[test]
fn failed_move_call_changes_nothing() {
    let mut t = AccessTracker::new();
    t.update(0x1000);
    assert_eq!(
        t.apply_move_result(-1, &[0x1000], &[1]),
        Err(MigrationError::MovePagesFailed(-1))
    );
    assert_eq!(t.get(0x1000).unwrap().tier, 0);
    assert_eq!(t.apply_move_result(1, &[0x1000], &[1]), Ok(()));
    assert_eq!(t.get(0x1000).unwrap().tier, 1);
}

#[test]
fn unknown_page_result_is_ignored() {
    let mut t = AccessTracker::new();
    t.update(0x1000);
    t.apply_migration_result(&[0x9000], &[1]);
    assert!(t.get(0x9000).is_none());
    assert_eq!(t.get(0x1000).unwrap().tier, 0);
}

fn sample_record(addr: u64) -> Vec<u8> {
    let mut rec = 9u32.to_le_bytes().to_vec();
    rec.extend_from_slice(&[0, 0]);
    rec.extend_from_slice(&48u16.to_le_bytes());
    for v in [1u64, 2, 3, 4, addr] {
        rec.extend_from_slice(&v.to_le_bytes());
    }
    rec
}

#[test]
fn samples_are_attributed_to_pages() {
    let mut t = AccessTracker::new();
    assert!(t.handle_sample(&sample_record(0x5555_5abc), 0x1000f));
    assert!(t.handle_sample(&sample_record(0x5555_5000), 0x1000f));
    assert_eq!(t.get(0x5555_5000).unwrap().cost, 2);
    let mut lost = sample_record(0x6000);
    lost[0] = 2;
    assert!(!t.handle_sample(&lost, 0x1000f));
    assert!(!t.handle_sample(&sample_record(0x6000), 0x7));
    assert_eq!(t.total_cost(), 2);
}
