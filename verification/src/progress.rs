//! The progress a running export or import reports: a snapshot of counts and
//! names, updated by events that carry only the fields that changed.
use vstd::prelude::*;
use crate::text::to_owned;

verus! {

/// Where a run stands.
pub struct RunProgressSnapshot {
    pub total_items: usize,
    pub done_items: usize,
    pub current_item: String,
    pub current_item_rows_done: usize,
    pub current_item_rows_total: usize,
    pub status: String,
}

/// A change to the snapshot: each field that is given replaces the one held.
pub struct RunProgressEvent {
    pub total_items: Option<usize>,
    pub done_items: Option<usize>,
    pub current_item: Option<String>,
    pub current_item_rows_done: Option<usize>,
    pub current_item_rows_total: Option<usize>,
    pub status: Option<String>,
}

pub struct ProgressView {
    pub total_items: nat,
    pub done_items: nat,
    pub current_item: Seq<char>,
    pub current_item_rows_done: nat,
    pub current_item_rows_total: nat,
    pub status: Seq<char>,
}

pub struct EventView {
    pub total_items: Option<nat>,
    pub done_items: Option<nat>,
    pub current_item: Option<Seq<char>>,
    pub current_item_rows_done: Option<nat>,
    pub current_item_rows_total: Option<nat>,
    pub status: Option<Seq<char>>,
}

pub open spec fn count_view(o: Option<usize>) -> Option<nat> {
    match o {
        Some(n) => Some(n as nat),
        None => None,
    }
}

pub open spec fn text_view(o: Option<String>) -> Option<Seq<char>> {
    match o {
        Some(s) => Some(s@),
        None => None,
    }
}

impl View for RunProgressSnapshot {
    type V = ProgressView;

    open spec fn view(&self) -> ProgressView {
        ProgressView {
            total_items: self.total_items as nat,
            done_items: self.done_items as nat,
            current_item: self.current_item@,
            current_item_rows_done: self.current_item_rows_done as nat,
            current_item_rows_total: self.current_item_rows_total as nat,
            status: self.status@,
        }
    }
}

impl View for RunProgressEvent {
    type V = EventView;

    open spec fn view(&self) -> EventView {
        EventView {
            total_items: count_view(self.total_items),
            done_items: count_view(self.done_items),
            current_item: text_view(self.current_item),
            current_item_rows_done: count_view(self.current_item_rows_done),
            current_item_rows_total: count_view(self.current_item_rows_total),
            status: text_view(self.status),
        }
    }
}

pub open spec fn pick<T>(given: Option<T>, held: T) -> T {
    match given {
        Some(v) => v,
        None => held,
    }
}

/// The snapshot after an event.
pub open spec fn applied(s: ProgressView, e: EventView) -> ProgressView {
    ProgressView {
        total_items: pick(e.total_items, s.total_items),
        done_items: pick(e.done_items, s.done_items),
        current_item: pick(e.current_item, s.current_item),
        current_item_rows_done: pick(e.current_item_rows_done, s.current_item_rows_done),
        current_item_rows_total: pick(e.current_item_rows_total, s.current_item_rows_total),
        status: pick(e.status, s.status),
    }
}

/// The snapshot before anything ran: nothing counted, status `idle`.
pub open spec fn idle_view() -> ProgressView {
    ProgressView {
        total_items: 0,
        done_items: 0,
        current_item: Seq::empty(),
        current_item_rows_done: 0,
        current_item_rows_total: 0,
        status: "idle"@,
    }
}

/// The event that changes nothing.
pub open spec fn empty_event() -> EventView {
    EventView {
        total_items: None,
        done_items: None,
        current_item: None,
        current_item_rows_done: None,
        current_item_rows_total: None,
        status: None,
    }
}

fn take_count(given: Option<usize>, held: usize) -> (r: usize)
    ensures
        r as nat == pick(count_view(given), held as nat),
{
    match given {
        Some(v) => v,
        None => held,
    }
}

impl Default for RunProgressSnapshot {
    /// The snapshot before anything ran.
    fn default() -> (r: RunProgressSnapshot)
        ensures
            r@ == idle_view(),
    {
        RunProgressSnapshot {
            total_items: 0,
            done_items: 0,
            current_item: String::new(),
            current_item_rows_done: 0,
            current_item_rows_total: 0,
            status: to_owned("idle"),
        }
    }
}

impl RunProgressSnapshot {

    /// Takes every field the event gives.
    pub fn apply_event(&mut self, ev: RunProgressEvent)
        ensures
            final(self)@ == applied(old(self)@, ev@),
    {
        self.total_items = take_count(ev.total_items, self.total_items);
        self.done_items = take_count(ev.done_items, self.done_items);
        match ev.current_item {
            Some(v) => self.current_item = v,
            None => {},
        }
        self.current_item_rows_done = take_count(
            ev.current_item_rows_done,
            self.current_item_rows_done,
        );
        self.current_item_rows_total = take_count(
            ev.current_item_rows_total,
            self.current_item_rows_total,
        );
        match ev.status {
            Some(v) => self.status = v,
            None => {},
        }
    }

    /// A copy of the snapshot.
    pub fn copy(&self) -> (r: RunProgressSnapshot)
        ensures
            r@ == self@,
    {
        RunProgressSnapshot {
            total_items: self.total_items,
            done_items: self.done_items,
            current_item: to_owned(self.current_item.as_str()),
            current_item_rows_done: self.current_item_rows_done,
            current_item_rows_total: self.current_item_rows_total,
            status: to_owned(self.status.as_str()),
        }
    }

    /// The share of the items done, as a fraction `done / total` with the
    /// done count capped at the total; `(0, 0)` when there are no items.
    pub fn overall_fraction(&self) -> (r: (usize, usize))
        ensures
            r == if self.total_items == 0 {
                (0usize, 0usize)
            } else if self.done_items <= self.total_items {
                (self.done_items, self.total_items)
            } else {
                (self.total_items, self.total_items)
            },
    {
        if self.total_items == 0 {
            (0, 0)
        } else if self.done_items <= self.total_items {
            (self.done_items, self.total_items)
        } else {
            (self.total_items, self.total_items)
        }
    }
}

impl Default for RunProgressEvent {
    /// The event that changes nothing.
    fn default() -> (r: RunProgressEvent)
        ensures
            r@ == empty_event(),
    {
        RunProgressEvent {
            total_items: None,
            done_items: None,
            current_item: None,
            current_item_rows_done: None,
            current_item_rows_total: None,
            status: None,
        }
    }
}

/// An event that changes nothing leaves the snapshot as it was.
pub proof fn law_empty_event_changes_nothing(s: ProgressView)
    ensures
        applied(s, empty_event()) == s,
{
}

/// Applying the same event twice is applying it once.
pub proof fn law_event_idempotent(s: ProgressView, e: EventView)
    ensures
        applied(applied(s, e), e) == applied(s, e),
{
}

/// A later event overrides an earlier one on every field it gives, and the
/// earlier one shows through on the fields the later one leaves out.
pub proof fn law_events_compose(s: ProgressView, e1: EventView, e2: EventView)
    ensures
        applied(applied(s, e1), e2) == applied(
            s,
            EventView {
                total_items: if e2.total_items is Some {
                    e2.total_items
                } else {
                    e1.total_items
                },
                done_items: if e2.done_items is Some {
                    e2.done_items
                } else {
                    e1.done_items
                },
                current_item: if e2.current_item is Some {
                    e2.current_item
                } else {
                    e1.current_item
                },
                current_item_rows_done: if e2.current_item_rows_done is Some {
                    e2.current_item_rows_done
                } else {
                    e1.current_item_rows_done
                },
                current_item_rows_total: if e2.current_item_rows_total is Some {
                    e2.current_item_rows_total
                } else {
                    e1.current_item_rows_total
                },
                status: if e2.status is Some {
                    e2.status
                } else {
                    e1.status
                },
            },
        ),
{
}

} // verus!
