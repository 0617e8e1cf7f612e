//! Per-page access costs and tier assignments.
use vstd::prelude::*;
use std::collections::HashMap;
use crate::abi::{PERF_HEADER_SIZE, PERF_RECORD_SAMPLE};
use crate::error::MigrationError;
use crate::ring::{is_sample_record, record_type};
use crate::sample::{decode_sample, decoded, sample_prefix_len};

verus! {

broadcast use vstd::std_specs::hash::group_hash_axioms;

/// The page that holds `addr`: the address with its low twelve bits cleared.
pub open spec fn page_of(addr: u64) -> u64 {
    addr & !0xfffu64
}

/// The tier of a page that has not been moved yet.
pub const FAST_TIER: u32 = 0;

/// The tier that pages are demoted to.
pub const SLOW_TIER: u32 = 1;

/// The data address a ring record contributes: that of a sample record long
/// enough for the fields `mask` selects, when `mask` selects the address.
pub open spec fn sample_addr(rec: Seq<u8>, mask: u64) -> Option<u64> {
    if rec.len() >= PERF_HEADER_SIZE && record_type(rec) == PERF_RECORD_SAMPLE && rec.len()
        >= sample_prefix_len(mask) {
        decoded(rec, mask).addr
    } else {
        None
    }
}

/// What the tracker knows of one page.
#[derive(Debug, Clone, Copy, PartialEq, Eq)]
pub struct PageRecord {
    pub page: u64,
    /// Samples attributed to the page.
    pub cost: u64,
    /// NUMA node the page was last reported on.
    pub tier: u32,
}

/// Sum of the costs of the records.
pub open spec fn total_cost(s: Seq<PageRecord>) -> int
    decreases s.len(),
{
    if s.len() == 0 {
        0
    } else {
        total_cost(s.drop_last()) + s.last().cost
    }
}

/// Where `page` stands in the table, or -1.
pub open spec fn position(s: Seq<PageRecord>, page: u64) -> int {
    if exists|i: int| 0 <= i < s.len() && s[i].page == page {
        choose|i: int| 0 <= i < s.len() && s[i].page == page
    } else {
        -1
    }
}

pub open spec fn distinct_pages(s: Seq<PageRecord>) -> bool {
    forall|i: int, j: int| 0 <= i < j < s.len() ==> s[i].page != s[j].page
}

/// The table after one sample at `addr`: the cost of its page goes up by one,
/// and a page seen for the first time is added at the end, in the fast tier.
pub open spec fn table_after_update(s: Seq<PageRecord>, addr: u64) -> Seq<PageRecord> {
    let p = page_of(addr);
    let i = position(s, p);
    if i >= 0 {
        s.update(i, PageRecord { cost: (s[i].cost + 1) as u64, ..s[i] })
    } else {
        s.push(PageRecord { page: p, cost: 1, tier: FAST_TIER })
    }
}

/// The table after a sample at each address of `addrs`, in order, from `s`.
pub open spec fn table_after_updates(s: Seq<PageRecord>, addrs: Seq<u64>) -> Seq<PageRecord>
    decreases addrs.len(),
{
    if addrs.len() == 0 {
        s
    } else {
        table_after_update(table_after_updates(s, addrs.drop_last()), addrs.last())
    }
}

/// The tier that a page on `tier` has after the first `n` results of a
/// page-move call: that of the last success reported for it, else `tier`.
pub open spec fn committed_tier(tier: u32, page: u64, pages: Seq<u64>, status: Seq<i32>, n: int) -> u32
    decreases n,
{
    if n <= 0 {
        tier
    } else if pages[n - 1] == page && status[n - 1] >= 0 {
        status[n - 1] as u32
    } else {
        committed_tier(tier, page, pages, status, n - 1)
    }
}

/// The table after the results of a page-move call are recorded.
pub open spec fn table_after_moves(s: Seq<PageRecord>, pages: Seq<u64>, status: Seq<i32>) -> Seq<
    PageRecord,
> {
    Seq::new(
        s.len(),
        |i: int|
            PageRecord {
                tier: committed_tier(s[i].tier, s[i].page, pages, status, pages.len() as int),
                ..s[i]
            },
    )
}

proof fn lemma_cost_le_total(s: Seq<PageRecord>, i: int)
    requires
        0 <= i < s.len(),
    ensures
        s[i].cost <= total_cost(s),
        total_cost(s) >= 0,
    decreases s.len(),
{
    lemma_total_nonneg(s.drop_last());
    if i < s.len() - 1 {
        lemma_cost_le_total(s.drop_last(), i);
    }
}

proof fn lemma_total_nonneg(s: Seq<PageRecord>)
    ensures
        total_cost(s) >= 0,
    decreases s.len(),
{
    if s.len() > 0 {
        lemma_total_nonneg(s.drop_last());
    }
}

proof fn lemma_total_after_bump(s: Seq<PageRecord>, i: int, r: PageRecord)
    requires
        0 <= i < s.len(),
        r.cost == s[i].cost + 1,
    ensures
        total_cost(s.update(i, r)) == total_cost(s) + 1,
    decreases s.len(),
{
    let t = s.update(i, r);
    if i == s.len() - 1 {
        assert(t.drop_last() =~= s.drop_last());
    } else {
        assert(t.drop_last() =~= s.drop_last().update(i, r));
        lemma_total_after_bump(s.drop_last(), i, r);
    }
}

proof fn lemma_total_after_update(s: Seq<PageRecord>, addr: u64)
    requires
        distinct_pages(s),
        total_cost(s) < u64::MAX,
    ensures
        total_cost(table_after_update(s, addr)) == total_cost(s) + 1,
        distinct_pages(table_after_update(s, addr)),
        table_after_update(s, addr)[position(table_after_update(s, addr), page_of(addr))].cost >= 1,
        position(table_after_update(s, addr), page_of(addr)) >= 0,
{
    let p = page_of(addr);
    let i = position(s, p);
    let t = table_after_update(s, addr);
    if i >= 0 {
        lemma_cost_le_total(s, i);
        lemma_total_after_bump(s, i, PageRecord { cost: (s[i].cost + 1) as u64, ..s[i] });
        assert(t[i].page == p);
    } else {
        assert(t.drop_last() =~= s);
        assert(t[s.len() as int].page == p);
    }
    let j = position(t, p);
    assert(t[j].page == p);
}

/// Counting samples never loses one: after any sequence of updates on an
/// empty table, the costs add up to the number of updates, and every address
/// sampled has a record of its page with a cost of at least one.
pub proof fn law_total_cost_counts_updates(addrs: Seq<u64>)
    requires
        addrs.len() < u64::MAX,
    ensures
        total_cost(table_after_updates(Seq::empty(), addrs)) == addrs.len(),
        distinct_pages(table_after_updates(Seq::empty(), addrs)),
        forall|k: int|
            0 <= k < addrs.len() ==> position(
                table_after_updates(Seq::empty(), addrs),
                page_of(#[trigger] addrs[k]),
            ) >= 0,
    decreases addrs.len(),
{
    if addrs.len() > 0 {
        let prev = addrs.drop_last();
        law_total_cost_counts_updates(prev);
        let s = table_after_updates(Seq::empty(), prev);
        let a = addrs.last();
        lemma_total_after_update(s, a);
        let t = table_after_update(s, a);
        assert forall|k: int| 0 <= k < addrs.len() implies position(
            t,
            page_of(#[trigger] addrs[k]),
        ) >= 0 by {
            if k < addrs.len() - 1 {
                assert(addrs[k] == prev[k]);
                lemma_position_kept(s, a, page_of(addrs[k]));
            }
        }
    }
}

proof fn lemma_position_kept(s: Seq<PageRecord>, addr: u64, p: u64)
    requires
        position(s, p) >= 0,
    ensures
        position(table_after_update(s, addr), p) >= 0,
{
    let i = position(s, p);
    let t = table_after_update(s, addr);
    assert(s[i].page == p);
    assert(t[i].page == p);
}

/// Accumulated sampling cost and last known tier of every page seen, in the
/// order the pages were first seen.
pub struct AccessTracker {
    entries: Vec<PageRecord>,
    index: HashMap<u64, usize>,
    total: u64,
}

impl View for AccessTracker {
    type V = Seq<PageRecord>;

    closed spec fn view(&self) -> Seq<PageRecord> {
        self.entries@
    }
}

impl AccessTracker {
    pub closed spec fn wf(&self) -> bool {
        &&& forall|i: int|
            0 <= i < self.entries@.len() ==> #[trigger] self.index@.contains_key(
                self.entries@[i].page,
            ) && self.index@[self.entries@[i].page] == i
        &&& forall|p: u64| #[trigger]
            self.index@.contains_key(p) ==> self.index@[p] < self.entries@.len()
                && self.entries@[self.index@[p] as int].page == p
        &&& self.total == total_cost(self.entries@)
        &&& distinct_pages(self.entries@)
    }

    /// No page has two records.
    pub proof fn lemma_distinct(&self)
        requires
            self.wf(),
        ensures
            distinct_pages(self@),
    {
    }

    /// Sum of all costs.
    pub closed spec fn spec_total(&self) -> u64 {
        self.total
    }

    pub fn new() -> (r: AccessTracker)
        ensures
            r.wf(),
            r@ == Seq::<PageRecord>::empty(),
            r.spec_total() == 0,
    {
        AccessTracker { entries: Vec::new(), index: HashMap::new(), total: 0 }
    }

    /// Sum of all costs: the number of samples recorded.
    pub fn total_cost(&self) -> (r: u64)
        requires
            self.wf(),
        ensures
            r == self.spec_total(),
            r == total_cost(self@),
    {
        self.total
    }

    /// Number of pages seen.
    pub fn len(&self) -> (r: usize)
        ensures
            r == self@.len(),
    {
        self.entries.len()
    }

    /// The records in the order the pages were first seen.
    pub fn records(&self) -> (r: &Vec<PageRecord>)
        ensures
            r@ == self@,
    {
        &self.entries
    }

    /// The record of `page`, if it has been seen.
    pub fn get(&self, page: u64) -> (r: Option<PageRecord>)
        requires
            self.wf(),
        ensures
            match r {
                Some(e) => position(self@, page) >= 0 && e == self@[position(self@, page)],
                None => position(self@, page) == -1,
            },
    {
        match self.index.get(&page) {
            Some(i) => {
                let i = *i;
                proof {
                    self.lemma_position_is_index(page);
                }
                Some(self.entries[i])
            },
            None => {
                proof {
                    self.lemma_position_is_index(page);
                }
                None
            },
        }
    }

    proof fn lemma_position_is_index(&self, page: u64)
        requires
            self.wf(),
        ensures
            self.index@.contains_key(page) ==> position(self@, page) == self.index@[page] as int,
            !self.index@.contains_key(page) ==> position(self@, page) == -1,
    {
        if self.index@.contains_key(page) {
            let i = self.index@[page] as int;
            assert(self.entries@[i].page == page);
            let j = position(self@, page);
            assert(self.entries@[j].page == page);
        } else {
            assert forall|i: int| 0 <= i < self@.len() implies self@[i].page != page by {
                assert(self.index@.contains_key(self.entries@[i].page));
            }
        }
    }

    /// Attributes one sample at `addr` to its page: the page's cost goes up
    /// by one, and a page not seen before enters the fast tier.
    pub fn update(&mut self, addr: u64)
        requires
            old(self).wf(),
            old(self).spec_total() < u64::MAX,
        ensures
            final(self).wf(),
            final(self)@ == table_after_update(old(self)@, addr),
            final(self).spec_total() == old(self).spec_total() + 1,
            position(final(self)@, page_of(addr)) >= 0,
            final(self)@[position(final(self)@, page_of(addr))].cost >= 1,
    {
        let page = addr & !0xfffu64;
        proof {
            self.lemma_position_is_index(page);
            lemma_total_after_update(self@, addr);
        }
        match self.index.get(&page) {
            Some(i) => {
                let i = *i;
                proof {
                    lemma_cost_le_total(self.entries@, i as int);
                }
                let e = self.entries[i];
                self.entries[i] = PageRecord { cost: e.cost + 1, ..e };
            },
            None => {
                let i = self.entries.len();
                self.entries.push(PageRecord { page, cost: 1, tier: FAST_TIER });
                self.index.insert(page, i);
            },
        }
        self.total = self.total + 1;
        assert(self.entries@ == table_after_update(old(self)@, addr));
    }

    /// Attributes a retired ring record to its page when it is a sample that
    /// carries a data address under the selector `mask`; tells whether it did.
    pub fn handle_sample(&mut self, rec: &[u8], mask: u64) -> (r: bool)
        requires
            old(self).wf(),
            old(self).spec_total() < u64::MAX,
        ensures
            final(self).wf(),
            r == (sample_addr(rec@, mask) is Some),
            match sample_addr(rec@, mask) {
                Some(a) => final(self)@ == table_after_update(old(self)@, a)
                    && final(self).spec_total() == old(self).spec_total() + 1,
                None => final(self)@ == old(self)@ && final(self).spec_total()
                    == old(self).spec_total(),
            },
    {
        if rec.len() < PERF_HEADER_SIZE as usize || !is_sample_record(rec) {
            return false;
        }
        match decode_sample(rec, mask) {
            Some(s) => match s.addr {
                Some(a) => {
                    self.update(a);
                    true
                },
                None => false,
            },
            None => false,
        }
    }

    /// Records the per-page results of a page-move call: a page reported on a
    /// node (a status of zero or more) moves to that tier; a page reported
    /// with an error keeps its tier.
    pub fn apply_migration_result(&mut self, pages: &[u64], status: &[i32])
        requires
            old(self).wf(),
            pages@.len() == status@.len(),
        ensures
            final(self).wf(),
            final(self).spec_total() == old(self).spec_total(),
            final(self)@ == table_after_moves(old(self)@, pages@, status@),
    {
        let n = pages.len();
        let mut k: usize = 0;
        while k < n
            invariant
                n == pages@.len(),
                pages@.len() == status@.len(),
                k <= n,
                self.wf(),
                self.total == old(self).total,
                self.index@ == old(self).index@,
                self@ =~= Seq::new(
                    old(self)@.len(),
                    |i: int|
                        PageRecord {
                            tier: committed_tier(
                                old(self)@[i].tier,
                                old(self)@[i].page,
                                pages@,
                                status@,
                                k as int,
                            ),
                            ..old(self)@[i]
                        },
                ),
            decreases n - k,
        {
            let s = status[k];
            if s >= 0 {
                match self.index.get(&pages[k]) {
                    Some(i) => {
                        let i = *i;
                        let e = self.entries[i];
                        proof {
                            lemma_total_same_costs(self.entries@, i as int, PageRecord { tier: s as u32, ..e });
                        }
                        let ghost before = self.entries@;
                        self.entries[i] = PageRecord { tier: s as u32, ..e };
                        assert forall|j: int| 0 <= j < self.entries@.len() implies #[trigger] self.index@.contains_key(
                            self.entries@[j].page,
                        ) && self.index@[self.entries@[j].page] == j by {
                            assert(before[j].page == self.entries@[j].page);
                            assert(self.index@.contains_key(before[j].page));
                        }
                    },
                    None => {
                        assert forall|j: int| 0 <= j < self@.len() implies self@[j].page != pages@[k as int] by {
                            assert(self.index@.contains_key(self.entries@[j].page));
                        }
                    },
                }
            }
            k = k + 1;
        }
        assert(pages@.len() == n);
    }

    /// Records the outcome of a page-move call that returned `ret`. A
    /// negative return means the call failed as a whole: nothing changes.
    pub fn apply_move_result(&mut self, ret: i64, pages: &[u64], status: &[i32]) -> (r: Result<
        (),
        MigrationError,
    >)
        requires
            old(self).wf(),
            pages@.len() == status@.len(),
        ensures
            final(self).wf(),
            final(self).spec_total() == old(self).spec_total(),
            ret < 0 ==> r == Err::<(), MigrationError>(MigrationError::MovePagesFailed(ret))
                && final(self)@ == old(self)@,
            ret >= 0 ==> r is Ok && final(self)@ == table_after_moves(old(self)@, pages@, status@),
    {
        if ret < 0 {
            return Err(MigrationError::MovePagesFailed(ret));
        }
        self.apply_migration_result(pages, status);
        Ok(())
    }
}

proof fn lemma_total_same_costs(s: Seq<PageRecord>, i: int, r: PageRecord)
    requires
        0 <= i < s.len(),
        r.cost == s[i].cost,
    ensures
        total_cost(s.update(i, r)) == total_cost(s),
    decreases s.len(),
{
    let t = s.update(i, r);
    if i == s.len() - 1 {
        assert(t.drop_last() =~= s.drop_last());
    } else {
        assert(t.drop_last() =~= s.drop_last().update(i, r));
        lemma_total_same_costs(s.drop_last(), i, r);
    }
}

/// Once a page-move call reports page `pages[k]` on node `status[k] >= 0`,
/// the table records that node as the page's tier, when the call named each
/// page once, as a migration pass does.
pub proof fn law_reported_node_is_recorded(
    s: Seq<PageRecord>,
    pages: Seq<u64>,
    status: Seq<i32>,
    k: int,
)
    requires
        pages.len() == status.len(),
        0 <= k < pages.len(),
        status[k] >= 0,
        forall|a: int, b: int| 0 <= a < b < pages.len() ==> pages[a] != pages[b],
        position(s, pages[k]) >= 0,
    ensures
        table_after_moves(s, pages, status)[position(s, pages[k])].tier == status[k] as u32,
        table_after_moves(s, pages, status)[position(s, pages[k])].page == pages[k],
{
    let i = position(s, pages[k]);
    assert(s[i].page == pages[k]);
    lemma_committed_last(s[i].tier, pages, status, k, pages.len() as int);
}

proof fn lemma_committed_last(tier: u32, pages: Seq<u64>, status: Seq<i32>, k: int, n: int)
    requires
        pages.len() == status.len(),
        0 <= k < n <= pages.len(),
        status[k] >= 0,
        forall|a: int, b: int| 0 <= a < b < pages.len() ==> pages[a] != pages[b],
    ensures
        committed_tier(tier, pages[k], pages, status, n) == status[k] as u32,
    decreases n,
{
    if n - 1 > k {
        lemma_committed_last(tier, pages, status, k, n - 1);
    }
}

} // verus!
