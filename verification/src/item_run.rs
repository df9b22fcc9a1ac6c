//! The walk of an export or import run through its objects: which object
//! comes next, how a cancel request stops the run, and what an export
//! counts as its objects end.
use vstd::prelude::*;
use crate::text::{to_owned, views};

verus! {

/// What the run does next.
pub enum RunStep {
    /// The cancel request was seen before the next object: the run stops.
    Cancelled,
    /// Work on object `index` (from 0), named `name`.
    Item { index: usize, name: String },
    /// Every object has been offered.
    Finished,
}

pub enum RunStepView {
    Cancelled,
    Item { index: nat, name: Seq<char> },
    Finished,
}

impl View for RunStep {
    type V = RunStepView;

    open spec fn view(&self) -> RunStepView {
        match self {
            RunStep::Cancelled => RunStepView::Cancelled,
            RunStep::Item { index, name } => RunStepView::Item { index: *index as nat, name: name@ },
            RunStep::Finished => RunStepView::Finished,
        }
    }
}

/// The objects of a run and how many of them have been offered.
pub struct ItemWalk {
    items: Vec<String>,
    next: usize,
}

pub struct WalkView {
    pub items: Seq<Seq<char>>,
    pub next: nat,
}

impl View for ItemWalk {
    type V = WalkView;

    closed spec fn view(&self) -> WalkView {
        WalkView { items: views(self.items@), next: self.next as nat }
    }
}

/// A walk is well formed when it has offered no more objects than it has.
pub open spec fn walk_wf(w: WalkView) -> bool {
    w.next <= w.items.len()
}

/// One step of the walk: the cancel request is looked at before each
/// object, not after the last.
pub open spec fn walk_step(w: WalkView, cancelled: bool) -> (RunStepView, WalkView) {
    if w.next < w.items.len() {
        if cancelled {
            (RunStepView::Cancelled, w)
        } else {
            (
                RunStepView::Item { index: w.next, name: w.items[w.next as int] },
                WalkView { next: w.next + 1, ..w },
            )
        }
    } else {
        (RunStepView::Finished, w)
    }
}

impl ItemWalk {
    /// A walk over `items`, in their order, none offered yet.
    pub fn new(items: Vec<String>) -> (r: ItemWalk)
        ensures
            r@ == (WalkView { items: views(items@), next: 0 }),
            walk_wf(r@),
    {
        ItemWalk { items, next: 0 }
    }

    /// The number of objects offered so far.
    pub fn offered(&self) -> (r: usize)
        ensures
            r as nat == self@.next,
    {
        self.next
    }

    /// The number of objects of the run.
    pub fn total(&self) -> (r: usize)
        ensures
            r as nat == self@.items.len(),
    {
        self.items.len()
    }

    /// The next step, given whether a cancel has been requested.
    pub fn step(&mut self, cancelled: bool) -> (r: RunStep)
        requires
            walk_wf(old(self)@),
        ensures
            (r@, final(self)@) == walk_step(old(self)@, cancelled),
            walk_wf(final(self)@),
    {
        if self.next < self.items.len() {
            if cancelled {
                RunStep::Cancelled
            } else {
                let i = self.next;
                let name = to_owned(self.items[i].as_str());
                assert(views(self.items@)[i as int] == self.items@[i as int]@);
                self.next = i + 1;
                RunStep::Item { index: i, name }
            }
        } else {
            RunStep::Finished
        }
    }
}

/// The objects a run offers when nothing cancels it: `k` steps from the
/// start offer the first `k` objects in order.
pub open spec fn offered_after(w: WalkView, k: nat) -> Seq<Seq<char>>
    decreases k,
{
    if k == 0 {
        Seq::empty()
    } else {
        let (s, w2) = walk_step(w, false);
        match s {
            RunStepView::Item { name, .. } => seq![name] + offered_after(w2, (k - 1) as nat),
            _ => Seq::empty(),
        }
    }
}

/// Without a cancel request, a run offers its objects one by one, in their
/// order, each once, and then reports that it has finished.
pub proof fn law_walk_offers_each_in_order(w: WalkView, k: nat)
    requires
        walk_wf(w),
        w.next + k <= w.items.len(),
    ensures
        offered_after(w, k) == w.items.subrange(w.next as int, (w.next + k) as int),
    decreases k,
{
    if k > 0 {
        let w2 = WalkView { next: w.next + 1, ..w };
        law_walk_offers_each_in_order(w2, (k - 1) as nat);
        assert(offered_after(w, k) =~= w.items.subrange(w.next as int, (w.next + k) as int));
    }
}

/// A cancel request stops the run where it is, and a finished run stays
/// finished.
pub proof fn law_walk_cancel_holds(w: WalkView, cancelled: bool)
    requires
        walk_wf(w),
    ensures
        w.next < w.items.len() && cancelled ==> walk_step(w, cancelled) == (
        RunStepView::Cancelled,
        w,
        ),
        w.next == w.items.len() ==> walk_step(w, cancelled) == (RunStepView::Finished, w),
        walk_step(w, cancelled).0 is Cancelled ==> walk_step(walk_step(w, cancelled).1, cancelled)
            == walk_step(w, cancelled),
{
}

// ---------------------------------------------------------------------
// What an export counts
// ---------------------------------------------------------------------

/// The counts an export keeps as its objects end: objects exported,
/// objects failed, rows written.
pub struct ExportTally {
    pub success: usize,
    pub failed: usize,
    pub rows: usize,
}

impl ExportTally {
    /// Nothing counted yet.
    pub fn new() -> (r: ExportTally)
        ensures
            r.success == 0,
            r.failed == 0,
            r.rows == 0,
    {
        ExportTally { success: 0, failed: 0, rows: 0 }
    }

    /// An object ended: with `Some(rows)` it was exported with that many
    /// rows, with `None` it failed.
    pub fn record(&mut self, result: Option<usize>)
        requires
            old(self).success < usize::MAX,
            old(self).failed < usize::MAX,
            result matches Some(n) ==> old(self).rows + n <= usize::MAX,
        ensures
            match result {
                Some(n) => {
                    &&& final(self).success == old(self).success + 1
                    &&& final(self).failed == old(self).failed
                    &&& final(self).rows == old(self).rows + n
                },
                None => {
                    &&& final(self).success == old(self).success
                    &&& final(self).failed == old(self).failed + 1
                    &&& final(self).rows == old(self).rows
                },
            },
    {
        match result {
            Some(n) => {
                self.success = self.success + 1;
                self.rows = self.rows + n;
            },
            None => {
                self.failed = self.failed + 1;
            },
        }
    }
}

} // verus!
