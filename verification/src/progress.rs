//! Per-category progress counters and their aggregation.
//!
//! A remote operation reports progress through four independent
//! sub-operation categories. Each update replaces that category's latest
//! (current, total) pair; the widget shows the sum over all four. Because
//! an update touches exactly one category and the aggregate is a plain sum,
//! the final aggregate depends only on the latest value stored per
//! category, never on how updates from different categories interleave.

use vstd::prelude::*;

verus! {

/// The four sub-operation categories of one remote operation.
#[derive(Clone, Copy, PartialEq, Eq, Structural, Debug)]
pub enum Category {
    /// Objects counted on the remote side.
    Count,
    /// Objects compressed on the remote side.
    Compress,
    /// Objects written into the pack being built.
    Pack,
    /// Objects transferred by a push.
    Push,
}

/// The latest reported (current, total) pair of one category. A total of
/// zero means the category has not reported a meaningful bound yet.
#[derive(Clone, Copy, PartialEq, Eq, Structural, Debug)]
pub struct ProgressPair {
    pub current: u64,
    pub total: u64,
}

/// One progress notification: the latest pair of one category.
#[derive(Clone, Copy, PartialEq, Eq, Structural, Debug)]
pub struct ProgressEvent {
    pub category: Category,
    pub current: u64,
    pub total: u64,
}

/// The per-category counters of one remote operation.
#[derive(Clone, Copy, PartialEq, Eq, Structural, Debug)]
pub struct ProgressState {
    pub count: ProgressPair,
    pub compress: ProgressPair,
    pub pack: ProgressPair,
    pub push: ProgressPair,
}

/// The pair a state holds for a category.
pub open spec fn pair_of(s: ProgressState, c: Category) -> ProgressPair {
    match c {
        Category::Count => s.count,
        Category::Compress => s.compress,
        Category::Pack => s.pack,
        Category::Push => s.push,
    }
}

/// The state after one event: the event's category holds the event's pair,
/// every other category is untouched.
pub open spec fn spec_store(s: ProgressState, e: ProgressEvent) -> ProgressState {
    let pair = ProgressPair { current: e.current, total: e.total };
    match e.category {
        Category::Count => ProgressState { count: pair, ..s },
        Category::Compress => ProgressState { compress: pair, ..s },
        Category::Pack => ProgressState { pack: pair, ..s },
        Category::Push => ProgressState { push: pair, ..s },
    }
}

/// The aggregate position: the sum of the four current counters.
pub open spec fn aggregate_current(s: ProgressState) -> int {
    s.count.current + s.compress.current + s.pack.current + s.push.current
}

/// The aggregate length: the sum of the four total counters.
pub open spec fn aggregate_total(s: ProgressState) -> int {
    s.count.total + s.compress.total + s.pack.total + s.push.total
}

impl ProgressState {
    /// All counters start at zero when an operation begins.
    pub fn new() -> (s: ProgressState)
        ensures
            s == (ProgressState {
                count: ProgressPair { current: 0u64, total: 0u64 },
                compress: ProgressPair { current: 0u64, total: 0u64 },
                pack: ProgressPair { current: 0u64, total: 0u64 },
                push: ProgressPair { current: 0u64, total: 0u64 },
            }),
    {
        let zero = ProgressPair { current: 0, total: 0 };
        ProgressState { count: zero, compress: zero, pack: zero, push: zero }
    }

    /// Stores an event: replace-with-latest into its category alone.
    pub fn store(&mut self, e: ProgressEvent)
        ensures
            *final(self) == spec_store(*old(self), e),
    {
        let pair = ProgressPair { current: e.current, total: e.total };
        match e.category {
            Category::Count => {
                self.count = pair;
            },
            Category::Compress => {
                self.compress = pair;
            },
            Category::Pack => {
                self.pack = pair;
            },
            Category::Push => {
                self.push = pair;
            },
        }
    }

    /// The aggregate (position, length) pair, saturated at the widget's
    /// 64-bit range.
    pub fn aggregate(&self) -> (r: (u64, u64))
        ensures
            r.0 == if aggregate_current(*self) <= u64::MAX {
                aggregate_current(*self)
            } else {
                u64::MAX as int
            },
            r.1 == if aggregate_total(*self) <= u64::MAX {
                aggregate_total(*self)
            } else {
                u64::MAX as int
            },
    {
        let current: u128 = self.count.current as u128 + self.compress.current as u128
            + self.pack.current as u128 + self.push.current as u128;
        let total: u128 = self.count.total as u128 + self.compress.total as u128
            + self.pack.total as u128 + self.push.total as u128;
        let cur64: u64 = if current <= u64::MAX as u128 {
            current as u64
        } else {
            u64::MAX
        };
        let tot64: u64 = if total <= u64::MAX as u128 {
            total as u64
        } else {
            u64::MAX
        };
        (cur64, tot64)
    }
}

/// The state after a whole sequence of events, applied in order.
pub open spec fn apply_events(s: ProgressState, evs: Seq<ProgressEvent>) -> ProgressState
    decreases evs.len(),
{
    if evs.len() == 0 {
        s
    } else {
        spec_store(apply_events(s, evs.drop_last()), evs.last())
    }
}

/// The pair of the last event of category `c` in `evs`, or `init` when the
/// category never reported.
pub open spec fn latest_pair(evs: Seq<ProgressEvent>, c: Category, init: ProgressPair) -> ProgressPair
    decreases evs.len(),
{
    if evs.len() == 0 {
        init
    } else if evs.last().category == c {
        ProgressPair { current: evs.last().current, total: evs.last().total }
    } else {
        latest_pair(evs.drop_last(), c, init)
    }
}

/// After any sequence of updates, each category holds exactly the latest
/// value stored into it: updates of other categories never disturb it.
pub proof fn lemma_apply_events_latest(s: ProgressState, evs: Seq<ProgressEvent>)
    ensures
        forall|c: Category|
            pair_of(apply_events(s, evs), c) == latest_pair(evs, c, pair_of(s, c)),
    decreases evs.len(),
{
    if evs.len() > 0 {
        lemma_apply_events_latest(s, evs.drop_last());
    }
    assert forall|c: Category|
        pair_of(apply_events(s, evs), c) == latest_pair(evs, c, pair_of(s, c)) by {
        if evs.len() > 0 {
            assert(pair_of(apply_events(s, evs.drop_last()), c) == latest_pair(
                evs.drop_last(),
                c,
                pair_of(s, c),
            ));
        }
    }
}

/// The aggregate after any interleaving of updates is the sum of the
/// latest stored value per category, regardless of the interleaving order:
/// the aggregate is a plain sum of independent cells.
pub proof fn lemma_aggregate_latest(s: ProgressState, evs: Seq<ProgressEvent>)
    ensures
        aggregate_current(apply_events(s, evs)) == latest_pair(evs, Category::Count, s.count).current
            + latest_pair(evs, Category::Compress, s.compress).current
            + latest_pair(evs, Category::Pack, s.pack).current
            + latest_pair(evs, Category::Push, s.push).current,
        aggregate_total(apply_events(s, evs)) == latest_pair(evs, Category::Count, s.count).total
            + latest_pair(evs, Category::Compress, s.compress).total
            + latest_pair(evs, Category::Pack, s.pack).total
            + latest_pair(evs, Category::Push, s.push).total,
{
    lemma_apply_events_latest(s, evs);
    assert(pair_of(apply_events(s, evs), Category::Count) == apply_events(s, evs).count);
    assert(pair_of(apply_events(s, evs), Category::Compress) == apply_events(s, evs).compress);
    assert(pair_of(apply_events(s, evs), Category::Pack) == apply_events(s, evs).pack);
    assert(pair_of(apply_events(s, evs), Category::Push) == apply_events(s, evs).push);
}

/// Updates of two different categories commute: storing them in either
/// order leaves the same state, which is why no ordering across categories
/// is needed.
pub proof fn lemma_store_commutes(s: ProgressState, e1: ProgressEvent, e2: ProgressEvent)
    requires
        e1.category != e2.category,
    ensures
        spec_store(spec_store(s, e1), e2) == spec_store(spec_store(s, e2), e1),
{
}

} // verus!
