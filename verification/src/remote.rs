//! Per-operation progress tracking and sideband capture.
//!
//! A [`RemoteOpts`] value lives for exactly one remote operation. The
//! transport's callbacks feed it sideband lines and structured progress
//! pairs; recognized progress updates one category and redraws the widget
//! with the aggregate, anything else is captured verbatim for the caller.
//! Completion always clears the widget — on failure too, before the error
//! travels on — and hands the captured bytes back as a [`Reply`].

use vstd::prelude::*;

use crate::progress::Category;
use crate::progress::ProgressEvent;
use crate::progress::ProgressPair;
use crate::progress::ProgressState;
use crate::progress::aggregate_current;
use crate::progress::aggregate_total;
use crate::progress::spec_store;
use crate::widget::Widget;
use crate::sideband::parse_sideband_progress;
use crate::sideband::sideband_parse;

verus! {

/// What a finished remote operation hands back: the sideband bytes that
/// were not progress reports, verbatim and in order.
pub struct Reply {
    pub stdout: Vec<u8>,
}

/// An integer clamped to the widget's 64-bit range.
pub open spec fn sat64(v: int) -> int {
    if v <= u64::MAX {
        v
    } else {
        u64::MAX as int
    }
}

/// The per-operation tracker: counters, captured diagnostic bytes and the
/// widget they drive.
pub struct RemoteOpts {
    pub state: ProgressState,
    pub stdout: Vec<u8>,
    pub widget: Widget,
}

impl RemoteOpts {
    /// A fresh tracker for one operation: zeroed counters, no captured
    /// bytes, a widget showing nothing.
    pub fn new() -> (r: RemoteOpts)
        ensures
            r.state == (ProgressState {
                count: ProgressPair { current: 0u64, total: 0u64 },
                compress: ProgressPair { current: 0u64, total: 0u64 },
                pack: ProgressPair { current: 0u64, total: 0u64 },
                push: ProgressPair { current: 0u64, total: 0u64 },
            }),
            r.stdout@ == Seq::<u8>::empty(),
            !r.widget.cleared,
            r.widget.label is None,
    {
        RemoteOpts { state: ProgressState::new(), stdout: Vec::new(), widget: Widget::new() }
    }

    /// Stores one event and redraws the widget with the new aggregate and
    /// the event's category as label.
    fn apply_event(&mut self, e: ProgressEvent)
        ensures
            final(self).state == spec_store(old(self).state, e),
            final(self).stdout@ == old(self).stdout@,
            final(self).widget.pos == sat64(aggregate_current(final(self).state)),
            final(self).widget.len == sat64(aggregate_total(final(self).state)),
            final(self).widget.label == Some(e.category),
            final(self).widget.cleared == old(self).widget.cleared,
    {
        self.state.store(e);
        let agg = self.state.aggregate();
        self.widget.update(agg.0, agg.1, e.category);
    }

    /// Feeds one sideband line. A recognized progress report updates only
    /// its category and redraws the widget; any other line is appended
    /// verbatim to the captured bytes and touches neither a counter nor
    /// the widget.
    pub fn handle_sideband(&mut self, line: &Vec<u8>)
        ensures
            match sideband_parse(line@) {
                Option::Some(ev) => {
                    let e = ProgressEvent { category: ev.0, current: ev.1, total: ev.2 };
                    &&& final(self).state == spec_store(old(self).state, e)
                    &&& final(self).stdout@ == old(self).stdout@
                    &&& final(self).widget.pos == sat64(aggregate_current(final(self).state))
                    &&& final(self).widget.len == sat64(aggregate_total(final(self).state))
                    &&& final(self).widget.label == Some(ev.0)
                    &&& final(self).widget.cleared == old(self).widget.cleared
                },
                Option::None => {
                    &&& final(self).state == old(self).state
                    &&& final(self).stdout@ == old(self).stdout@ + line@
                    &&& final(self).widget == old(self).widget
                },
            },
    {
        match parse_sideband_progress(line) {
            Option::Some((category, current, total)) => {
                self.apply_event(ProgressEvent { category, current, total });
            },
            Option::None => {
                let mut k: usize = 0;
                while k < line.len()
                    invariant
                        0 <= k <= line@.len(),
                        self.stdout@ == old(self).stdout@ + line@.subrange(0, k as int),
                        self.state == old(self).state,
                        self.widget == old(self).widget,
                    decreases line@.len() - k,
                {
                    self.stdout.push(line[k]);
                    proof {
                        assert(self.stdout@ =~= old(self).stdout@ + line@.subrange(0, k + 1));
                    }
                    k = k + 1;
                }
                proof {
                    assert(line@.subrange(0, line@.len() as int) =~= line@);
                }
            },
        }
    }

    /// Feeds a structured pack-building progress pair.
    pub fn handle_pack(&mut self, current: u64, total: u64)
        ensures
            final(self).state == spec_store(
                old(self).state,
                ProgressEvent { category: Category::Pack, current, total },
            ),
            final(self).stdout@ == old(self).stdout@,
            final(self).widget.pos == sat64(aggregate_current(final(self).state)),
            final(self).widget.len == sat64(aggregate_total(final(self).state)),
            final(self).widget.label == Some(Category::Pack),
            final(self).widget.cleared == old(self).widget.cleared,
    {
        self.apply_event(ProgressEvent { category: Category::Pack, current, total });
    }

    /// Feeds a structured push-transfer progress pair.
    pub fn handle_push(&mut self, current: u64, total: u64)
        ensures
            final(self).state == spec_store(
                old(self).state,
                ProgressEvent { category: Category::Push, current, total },
            ),
            final(self).stdout@ == old(self).stdout@,
            final(self).widget.pos == sat64(aggregate_current(final(self).state)),
            final(self).widget.len == sat64(aggregate_total(final(self).state)),
            final(self).widget.label == Some(Category::Push),
            final(self).widget.cleared == old(self).widget.cleared,
    {
        self.apply_event(ProgressEvent { category: Category::Push, current, total });
    }

    /// Concludes the operation with the transport's outcome: the widget is
    /// cleared on the success path and the failure path alike, a success
    /// yields the captured bytes as a [`Reply`], and a failure travels on
    /// unchanged.
    pub fn conclude<E>(&mut self, outcome: Result<(), E>) -> (r: Result<Reply, E>)
        ensures
            final(self).widget.cleared,
            final(self).stdout@ == Seq::<u8>::empty(),
            outcome is Ok ==> (r matches Result::Ok(rep) && rep.stdout@ == old(self).stdout@),
            outcome matches Result::Err(e) ==> r == Result::<Reply, E>::Err(e),
    {
        self.widget.clear();
        let mut taken: Vec<u8> = Vec::new();
        core::mem::swap(&mut taken, &mut self.stdout);
        match outcome {
            Result::Ok(()) => Result::Ok(Reply { stdout: taken }),
            Result::Err(e) => Result::Err(e),
        }
    }

    /// Concludes a successful operation: clears the widget and hands back
    /// the captured bytes.
    pub fn into_reply(self) -> (r: Reply)
        ensures
            r.stdout@ == self.stdout@,
    {
        let mut this = self;
        this.widget.clear();
        Reply { stdout: this.stdout }
    }
}

} // verus!
