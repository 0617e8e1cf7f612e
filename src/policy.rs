//! The migration policy: which way pages move and how many, chosen from the
//! tracker's tier counts, and the worker's WAIT / RUN / STOP flag.
use vstd::prelude::*;
use crate::error::PolicyError;
use crate::tracker::{AccessTracker, PageRecord, FAST_TIER, SLOW_TIER, distinct_pages};

verus! {

/// Number of records on `tier`.
pub open spec fn tier_count(s: Seq<PageRecord>, tier: u32) -> nat
    decreases s.len(),
{
    if s.len() == 0 {
        0
    } else {
        tier_count(s.drop_last(), tier) + (if s.last().tier == tier {
            1nat
        } else {
            0
        })
    }
}

/// The direction and batch size that keep the fast tier at four times the
/// slow one: demote `fast / (4 (1 + slow))` pages when the fast tier holds
/// more than four times the slow one; else promote `slow / ((1 + fast) / 2)`
/// pages when the slow tier holds more than half the fast one; else nothing.
/// With an empty fast tier that divisor is zero and is taken as one.
pub open spec fn migration_direction(fast: int, slow: int) -> Option<(u32, int)> {
    if fast > 4 * slow {
        Some((SLOW_TIER, fast / (4 * (1 + slow))))
    } else if slow > fast / 2 {
        let d = (1 + fast) / 2;
        Some((FAST_TIER, slow / (if d == 0 {
            1
        } else {
            d
        })))
    } else {
        None
    }
}

/// The first `limit` pages of `s`, in order, whose tier is `tier`.
pub open spec fn candidates(s: Seq<PageRecord>, tier: u32, limit: int) -> Seq<u64>
    decreases s.len(),
{
    if s.len() == 0 || limit <= 0 {
        Seq::empty()
    } else if s[0].tier == tier {
        seq![s[0].page] + candidates(s.drop_first(), tier, limit - 1)
    } else {
        candidates(s.drop_first(), tier, limit)
    }
}

/// Whether `s` records `page` on `tier`.
pub open spec fn on_tier(s: Seq<PageRecord>, page: u64, tier: u32) -> bool {
    exists|i: int| 0 <= i < s.len() && s[i].page == page && s[i].tier == tier
}

/// The candidates are pages of `s` on `tier`, each named once when the pages
/// of `s` are distinct.
proof fn lemma_candidates_distinct(s: Seq<PageRecord>, tier: u32, limit: int)
    requires
        distinct_pages(s),
    ensures
        forall|a: int|
            0 <= a < candidates(s, tier, limit).len() ==> on_tier(
                s,
                #[trigger] candidates(s, tier, limit)[a],
                tier,
            ),
        forall|a: int, b: int|
            0 <= a < b < candidates(s, tier, limit).len() ==> candidates(s, tier, limit)[a]
                != candidates(s, tier, limit)[b],
    decreases s.len(),
{
    if s.len() > 0 && limit > 0 {
        let rest = s.drop_first();
        assert(distinct_pages(rest)) by {
            assert forall|i: int, j: int| 0 <= i < j < rest.len() implies rest[i].page
                != rest[j].page by {
                assert(rest[i] == s[i + 1] && rest[j] == s[j + 1]);
            }
        }
        let lim = if s[0].tier == tier { limit - 1 } else { limit };
        lemma_candidates_distinct(rest, tier, lim);
        let c = candidates(s, tier, limit);
        let cr = candidates(rest, tier, lim);
        assert forall|a: int| 0 <= a < cr.len() implies cr[a] != s[0].page by {
            assert(on_tier(rest, cr[a], tier));
            let i = choose|i: int| 0 <= i < rest.len() && rest[i].page == cr[a] && rest[i].tier == tier;
            assert(rest[i] == s[i + 1]);
        }
        assert forall|a: int| 0 <= a < c.len() implies on_tier(s, #[trigger] c[a], tier) by {
            if s[0].tier == tier && a == 0 {
                assert(s[0].page == c[a] && s[0].tier == tier);
            } else {
                let k = if s[0].tier == tier { a - 1 } else { a };
                assert(c[a] == cr[k]);
                assert(on_tier(rest, cr[k], tier));
                let i = choose|i: int| 0 <= i < rest.len() && rest[i].page == cr[k] && rest[i].tier == tier;
                assert(s[i + 1] == rest[i]);
                assert(s[i + 1].page == c[a] && s[i + 1].tier == tier);
            }
        }
        if s[0].tier == tier {
            assert forall|a: int, b: int| 0 <= a < b < c.len() implies c[a] != c[b] by {
                assert(c[b] == cr[b - 1]);
                if a > 0 {
                    assert(c[a] == cr[a - 1]);
                }
            }
        }
    }
}

/// One pass of page moves: every page of `pages` goes to node `target`.
#[derive(Debug, PartialEq, Eq)]
pub struct MigrationPlan {
    pub target: u32,
    pub pages: Vec<u64>,
}

/// Direction and batch size for `fast` pages on the fast tier and `slow`
/// on the slow one; see `migration_direction`.
pub fn plan_direction(fast: u64, slow: u64) -> (r: Option<(u32, u64)>)
    ensures
        match migration_direction(fast as int, slow as int) {
            None => r is None,
            Some((t, b)) => r == Some((t, b as u64)) && b <= u64::MAX,
        },
{
    let f = fast as u128;
    let s = slow as u128;
    if f > 4 * s {
        let dv = 4 * (1 + s);
        let b = f / dv;
        assert(b <= f) by (nonlinear_arith)
            requires
                b == f / dv,
                dv >= 1,
                f >= 0,
                s >= 0,
        ;
        Some((SLOW_TIER, b as u64))
    } else if s > f / 2 {
        let d = (1 + f) / 2;
        let d = if d == 0 {
            1
        } else {
            d
        };
        let b = s / d;
        assert(b <= s) by (nonlinear_arith)
            requires
                b == s / d,
                d >= 1,
                s >= 0,
        ;
        Some((FAST_TIER, b as u64))
    } else {
        None
    }
}

/// Counts of the records on the fast and on the slow tier.
pub fn tier_counts(records: &Vec<PageRecord>) -> (r: (u64, u64))
    ensures
        r.0 == tier_count(records@, FAST_TIER),
        r.1 == tier_count(records@, SLOW_TIER),
{
    let mut fast: u64 = 0;
    let mut slow: u64 = 0;
    let mut i: usize = 0;
    while i < records.len()
        invariant
            i <= records@.len(),
            fast == tier_count(records@.subrange(0, i as int), FAST_TIER),
            slow == tier_count(records@.subrange(0, i as int), SLOW_TIER),
            fast <= i,
            slow <= i,
        decreases records@.len() - i,
    {
        let ghost pre = records@.subrange(0, i as int);
        let t = records[i].tier;
        assert(records@.subrange(0, i + 1).drop_last() =~= pre);
        if t == FAST_TIER {
            fast = fast + 1;
        } else if t == SLOW_TIER {
            slow = slow + 1;
        }
        i = i + 1;
    }
    assert(records@.subrange(0, records@.len() as int) =~= records@);
    (fast, slow)
}

/// The first `limit` pages of `records`, in order, on `tier`.
pub fn select_candidates(records: &Vec<PageRecord>, tier: u32, limit: u64) -> (r: Vec<u64>)
    ensures
        r@ == candidates(records@, tier, limit as int),
{
    let mut out: Vec<u64> = Vec::new();
    let mut i: usize = 0;
    assert(records@.subrange(0, records@.len() as int) =~= records@);
    assert(out@ + candidates(records@, tier, limit as int) =~= candidates(records@, tier, limit as int));
    while i < records.len() && (out.len() as u64) < limit
        invariant
            i <= records@.len(),
            out@.len() <= limit,
            candidates(records@, tier, limit as int) == out@ + candidates(
                records@.subrange(i as int, records@.len() as int),
                tier,
                limit - out@.len(),
            ),
        decreases records@.len() - i,
    {
        let ghost rest = records@.subrange(i as int, records@.len() as int);
        assert(rest.drop_first() =~= records@.subrange(i + 1, records@.len() as int));
        let e = records[i];
        if e.tier == tier {
            let ghost prev = out@;
            out.push(e.page);
            assert(prev + (seq![e.page] + candidates(rest.drop_first(), tier, limit - prev.len() - 1))
                =~= out@ + candidates(rest.drop_first(), tier, limit - out@.len()));
        }
        i = i + 1;
    }
    let ghost rest = records@.subrange(i as int, records@.len() as int);
    assert(out@ + candidates(rest, tier, limit - out@.len()) =~= out@);
    out
}

/// The pages of one migration pass over the tracker's table, or `None`
/// when the tiers are in ratio. Pages are taken from the source tier in the
/// order they were first seen.
pub fn plan_migration(tracker: &AccessTracker) -> (r: Option<MigrationPlan>)
    requires
        tracker.wf(),
    ensures
        r matches Some(p) ==> forall|a: int, b: int|
            0 <= a < b < p.pages@.len() ==> p.pages@[a] != p.pages@[b],
        match migration_direction(
            tier_count(tracker@, FAST_TIER) as int,
            tier_count(tracker@, SLOW_TIER) as int,
        ) {
            None => r is None,
            Some((t, b)) => r matches Some(p) && p.target == t && p.pages@ == candidates(
                tracker@,
                (if t == SLOW_TIER {
                    FAST_TIER
                } else {
                    SLOW_TIER
                }),
                b,
            ),
        },
{
    let records = tracker.records();
    proof {
        tracker.lemma_distinct();
    }
    let (fast, slow) = tier_counts(records);
    match plan_direction(fast, slow) {
        None => None,
        Some((target, batch)) => {
            let source = if target == SLOW_TIER {
                FAST_TIER
            } else {
                SLOW_TIER
            };
            let pages = select_candidates(records, source, batch);
            proof {
                lemma_candidates_distinct(tracker@, source, batch as int);
            }
            Some(MigrationPlan { target, pages })
        },
    }
}

/// State of the policy worker, held in one byte shared with the sampler.
#[derive(Debug, Clone, Copy, PartialEq, Eq, Structural)]
pub enum PolicyFlag {
    Wait,
    Run,
    Stop,
}

/// What the worker does on seeing a flag.
#[derive(Debug, Clone, Copy, PartialEq, Eq, Structural)]
pub enum WorkerAction {
    /// Park until notified.
    Park,
    /// Run one migration pass, then go back to waiting.
    Migrate,
    /// Leave the worker loop.
    Exit,
}

impl PolicyFlag {
    pub open spec fn spec_to_u8(self) -> u8 {
        match self {
            PolicyFlag::Wait => 0,
            PolicyFlag::Run => 1,
            PolicyFlag::Stop => 2,
        }
    }

    /// The byte that stands for the flag.
    pub fn to_u8(self) -> (r: u8)
        ensures
            r == self.spec_to_u8(),
    {
        match self {
            PolicyFlag::Wait => 0,
            PolicyFlag::Run => 1,
            PolicyFlag::Stop => 2,
        }
    }

    /// The flag a byte stands for; any byte but 0, 1 and 2 is invalid.
    pub fn from_u8(b: u8) -> (r: Result<PolicyFlag, PolicyError>)
        ensures
            match r {
                Ok(f) => f.spec_to_u8() == b,
                Err(e) => e == PolicyError::InvalidFlag(b) && b > 2,
            },
    {
        match b {
            0 => Ok(PolicyFlag::Wait),
            1 => Ok(PolicyFlag::Run),
            2 => Ok(PolicyFlag::Stop),
            _ => Err(PolicyError::InvalidFlag(b)),
        }
    }

    /// The sampler asks for a pass; a stopped worker stays stopped.
    pub fn run(self) -> (r: PolicyFlag)
        ensures
            r == (if self == PolicyFlag::Stop {
                PolicyFlag::Stop
            } else {
                PolicyFlag::Run
            }),
    {
        match self {
            PolicyFlag::Stop => PolicyFlag::Stop,
            _ => PolicyFlag::Run,
        }
    }

    /// The worker finished a pass; a stopped worker stays stopped.
    pub fn done(self) -> (r: PolicyFlag)
        ensures
            r == (if self == PolicyFlag::Stop {
                PolicyFlag::Stop
            } else {
                PolicyFlag::Wait
            }),
    {
        match self {
            PolicyFlag::Stop => PolicyFlag::Stop,
            _ => PolicyFlag::Wait,
        }
    }

    /// Shutdown: every state goes to the terminal one.
    pub fn stop(self) -> (r: PolicyFlag)
        ensures
            r == PolicyFlag::Stop,
    {
        PolicyFlag::Stop
    }

    /// What the worker does on seeing this flag.
    pub fn action(self) -> (r: WorkerAction)
        ensures
            r == match self {
                PolicyFlag::Wait => WorkerAction::Park,
                PolicyFlag::Run => WorkerAction::Migrate,
                PolicyFlag::Stop => WorkerAction::Exit,
            },
    {
        match self {
            PolicyFlag::Wait => WorkerAction::Park,
            PolicyFlag::Run => WorkerAction::Migrate,
            PolicyFlag::Stop => WorkerAction::Exit,
        }
    }
}

} // verus!
