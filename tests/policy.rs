use memtier::error::PolicyError;
use memtier::policy::{
    plan_direction, plan_migration, select_candidates, tier_counts, PolicyFlag, WorkerAction,
};
use memtier::tracker::{AccessTracker, PageRecord};

#[test]
fn demote_when_fast_tier_is_too_large() {
    assert_eq!(plan_direction(50, 5), Some((1, 2)));
}

#[test]
fn promote_when_slow_tier_is_too_large() {
    assert_eq!(plan_direction(10, 6), Some((0, 1)));
}

#[test]
fn balanced_tiers_need_no_pass() {
    assert_eq!(plan_direction(8, 2), None);
    assert_eq!(plan_direction(0, 0), None);
}

#[test]
fn empty_fast_tier_promotes_the_slow_tier() {
    assert_eq!(plan_direction(0, 3), Some((0, 3)));
    assert_eq!(plan_direction(u64::MAX, 0), Some((1, u64::MAX / 4)));
}

fn record(page: u64, tier: u32) -> PageRecord {
    PageRecord { page, cost: 1, tier }
}

#[test]
fn tiers_are_counted() {
    let rs = vec![record(0x1000, 0), record(0x2000, 1), record(0x3000, 0)];
    assert_eq!(tier_counts(&rs), (2, 1));
}

#[test]
fn candidates_come_from_the_source_tier_in_order() {
    let rs = vec![
        record(0x1000, 0),
        record(0x2000, 1),
        record(0x3000, 0),
        record(0x4000, 0),
    ];
    assert_eq!(select_candidates(&rs, 0, 2), vec![0x1000, 0x3000]);
    assert_eq!(select_candidates(&rs, 1, 5), vec![0x2000]);
    assert_eq!(select_candidates(&rs, 0, 0), Vec::<u64>::new());
}

#[test]
fn pass_over_new_pages_demotes() {
    let mut t = AccessTracker::new();
    for i in 0..10u64 {
        t.update(i * 0x1000);
    }
    let plan = plan_migration(&t).unwrap();
    assert_eq!(plan.target, 1);
    assert_eq!(plan.pages, vec![0x0, 0x1000]);
    t.apply_migration_result(&plan.pages, &[1, 1]);
    assert_eq!(tier_counts(t.records()), (8, 2));
    assert!(plan_migration(&t).is_none());
}

#[test]
fn flag_transitions() {
    assert_eq!(PolicyFlag::Wait.run(), PolicyFlag::Run);
    assert_eq!(PolicyFlag::Run.run(), PolicyFlag::Run);
    assert_eq!(PolicyFlag::Run.done(), PolicyFlag::Wait);
    assert_eq!(PolicyFlag::Wait.action(), WorkerAction::Park);
    assert_eq!(PolicyFlag::Run.action(), WorkerAction::Migrate);
}

#[test]
fn stop_is_terminal() {
    for f in [PolicyFlag::Wait, PolicyFlag::Run, PolicyFlag::Stop] {
        let s = f.stop();
        assert_eq!(s, PolicyFlag::Stop);
        assert_eq!(s.run(), PolicyFlag::Stop);
        assert_eq!(s.done(), PolicyFlag::Stop);
        assert_eq!(s.action(), WorkerAction::Exit);
    }
}

#[test]
fn flag_bytes_round_trip() {
    for f in [PolicyFlag::Wait, PolicyFlag::Run, PolicyFlag::Stop] {
        assert_eq!(PolicyFlag::from_u8(f.to_u8()), Ok(f));
    }
    assert_eq!(PolicyFlag::from_u8(7), Err(PolicyError::InvalidFlag(7)));
}
