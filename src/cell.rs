use vstd::prelude::*;

verus! {

/// The kind of closure a callback cell holds.
#[derive(Clone, Copy, Debug, PartialEq, Eq, Structural)]
pub enum Body {
    /// Nothing left to run: a one-shot closure already taken.
    Empty,
    /// A closure that may run any number of times.
    Repeatable,
    /// A closure that runs at most once.
    OneShot,
}

/// What a dispatch thread does with the closure after entering the cell.
#[derive(Clone, Copy, Debug, PartialEq, Eq, Structural)]
pub enum Entry {
    /// Call the repeatable closure.
    Run,
    /// Take the one-shot closure out of the cell and call it.
    RunOnce,
    /// Call nothing: the cell is deleted or has nothing left to run.
    Skip,
}

/// The bookkeeping of a callback cell: the kind of closure it still holds,
/// whether it was marked deleted, and how many invocations are in flight.
///
/// A dispatch thread enters the cell before it may call the closure and
/// leaves it afterwards, on every path. Once `deleted` is set no entry runs
/// the closure; the cell may be freed once it is deleted and idle.
#[derive(Clone, Copy, Debug, PartialEq, Eq, Structural)]
pub struct CellState {
    pub body: Body,
    pub deleted: bool,
    pub in_flight: u32,
}

/// The events a cell goes through.
#[derive(Clone, Copy, Debug, PartialEq, Eq, Structural)]
pub enum CellEvent {
    /// A dispatch thread enters the cell.
    Enter,
    /// A dispatch thread leaves the cell.
    Leave,
    /// The owner marks the cell deleted.
    MarkDeleted,
}

/// What entering a cell in state `s` decides.
pub open spec fn entry_of(s: CellState) -> Entry {
    if s.deleted {
        Entry::Skip
    } else {
        match s.body {
            Body::Repeatable => Entry::Run,
            Body::OneShot => Entry::RunOnce,
            Body::Empty => Entry::Skip,
        }
    }
}

/// The state after entering: one more in flight, and a one-shot closure
/// that is about to run is taken out.
pub open spec fn entered(s: CellState) -> CellState {
    CellState {
        body: if entry_of(s) == Entry::RunOnce { Body::Empty } else { s.body },
        deleted: s.deleted,
        in_flight: (s.in_flight + 1) as u32,
    }
}

/// The state after leaving: one fewer in flight.
pub open spec fn left(s: CellState) -> CellState {
    CellState { in_flight: (s.in_flight - 1) as u32, ..s }
}

/// The state after the deletion mark.
pub open spec fn marked(s: CellState) -> CellState {
    CellState { deleted: true, ..s }
}

/// The state after the event `e`.
pub open spec fn step(s: CellState, e: CellEvent) -> CellState {
    match e {
        CellEvent::Enter => entered(s),
        CellEvent::Leave => left(s),
        CellEvent::MarkDeleted => marked(s),
    }
}

/// The state after the events of `events`, from `s`.
pub open spec fn run(s: CellState, events: Seq<CellEvent>) -> CellState
    decreases events.len(),
{
    if events.len() == 0 {
        s
    } else {
        run(step(s, events[0]), events.subrange(1, events.len() as int))
    }
}

/// How many entries among `events`, from `s`, call the closure.
pub open spec fn invocations(s: CellState, events: Seq<CellEvent>) -> nat
    decreases events.len(),
{
    if events.len() == 0 {
        0
    } else {
        let here: nat = if events[0] == CellEvent::Enter && entry_of(s) != Entry::Skip {
            1
        } else {
            0
        };
        here + invocations(step(s, events[0]), events.subrange(1, events.len() as int))
    }
}

impl CellState {
    /// A live cell holding a closure of kind `body`, with nothing in flight.
    pub fn new(body: Body) -> (r: CellState)
        ensures
            r == (CellState { body, deleted: false, in_flight: 0 }),
    {
        CellState { body, deleted: false, in_flight: 0 }
    }

    /// Enters the cell: counts one more invocation in flight and decides
    /// whether the closure runs; a one-shot closure is taken as it is chosen
    /// to run, so no later entry runs it again.
    pub fn enter(&mut self) -> (r: Entry)
        requires
            old(self).in_flight < u32::MAX,
        ensures
            r == entry_of(*old(self)),
            *final(self) == entered(*old(self)),
    {
        let r = if self.deleted {
            Entry::Skip
        } else {
            match self.body {
                Body::Repeatable => Entry::Run,
                Body::OneShot => Entry::RunOnce,
                Body::Empty => Entry::Skip,
            }
        };
        if r == Entry::RunOnce {
            self.body = Body::Empty;
        }
        self.in_flight = self.in_flight + 1;
        r
    }

    /// Leaves the cell after an entry, whatever the closure did.
    pub fn leave(&mut self)
        requires
            old(self).in_flight > 0,
        ensures
            *final(self) == left(*old(self)),
    {
        self.in_flight = self.in_flight - 1;
    }

    /// Enters the cell when its count of invocations in flight has room for
    /// one more, as `enter` does; otherwise leaves it unchanged and gives
    /// `None`, and the caller must neither run the closure nor leave.
    pub fn try_enter(&mut self) -> (r: Option<Entry>)
        ensures
            old(self).in_flight < u32::MAX ==> r == Some(entry_of(*old(self))) && *final(self)
                == entered(*old(self)),
            old(self).in_flight == u32::MAX ==> r is None && *final(self) == *old(self),
    {
        if self.in_flight < u32::MAX {
            Some(self.enter())
        } else {
            None
        }
    }

    /// Leaves the cell after a counted entry; a cell with nothing in flight
    /// stays as it is.
    pub fn exit(&mut self)
        ensures
            old(self).in_flight > 0 ==> *final(self) == left(*old(self)),
            old(self).in_flight == 0 ==> *final(self) == *old(self),
    {
        if self.in_flight > 0 {
            self.leave();
        }
    }

    /// Marks the cell deleted: no later entry runs the closure.
    pub fn mark_deleted(&mut self)
        ensures
            *final(self) == marked(*old(self)),
    {
        self.deleted = true;
    }

    /// Whether no invocation is in flight.
    pub fn is_idle(&self) -> (r: bool)
        ensures
            r == (self.in_flight == 0),
    {
        self.in_flight == 0
    }

    /// Whether the cell may be freed: deleted, and idle.
    pub fn may_free(&self) -> (r: bool)
        ensures
            r == (self.deleted && self.in_flight == 0),
    {
        self.deleted && self.in_flight == 0
    }
}

/// Once a cell is marked deleted it stays deleted, and no entry runs its
/// closure again, whatever events follow.
pub proof fn lemma_deleted_cell_never_runs(s: CellState, events: Seq<CellEvent>)
    requires
        s.deleted,
    ensures
        invocations(s, events) == 0,
        run(s, events).deleted,
    decreases events.len(),
{
    if events.len() > 0 {
        lemma_deleted_cell_never_runs(step(s, events[0]), events.subrange(1, events.len() as int));
    }
}

/// A cell holding a one-shot closure (or none) runs it at most once,
/// whatever events follow, however long the cell lives.
pub proof fn lemma_oneshot_runs_at_most_once(s: CellState, events: Seq<CellEvent>)
    requires
        s.body != Body::Repeatable,
    ensures
        invocations(s, events) <= (if s.body == Body::OneShot { 1nat } else { 0nat }),
        run(s, events).body != Body::Repeatable,
    decreases events.len(),
{
    if events.len() > 0 {
        let rest = events.subrange(1, events.len() as int);
        lemma_oneshot_runs_at_most_once(step(s, events[0]), rest);
    }
}

/// A cell marked deleted before any dispatch thread entered it (a timer
/// closed before it was due) never runs its closure.
pub proof fn lemma_closed_before_due_never_runs(body: Body, events: Seq<CellEvent>, close: int)
    requires
        0 <= close < events.len(),
        events[close] == CellEvent::MarkDeleted,
        forall|i: int| 0 <= i < close ==> events[i] != CellEvent::Enter,
    ensures
        invocations(CellState { body, deleted: false, in_flight: 0 }, events) == 0,
{
    lemma_no_entry_no_run(CellState { body, deleted: false, in_flight: 0 }, events, close);
}

/// Up to the deletion mark at `close`, with no entry before it, nothing
/// runs; from the mark on, the deleted cell runs nothing either.
proof fn lemma_no_entry_no_run(s: CellState, events: Seq<CellEvent>, close: int)
    requires
        0 <= close < events.len(),
        events[close] == CellEvent::MarkDeleted,
        forall|i: int| 0 <= i < close ==> events[i] != CellEvent::Enter,
    ensures
        invocations(s, events) == 0,
    decreases events.len(),
{
    let rest = events.subrange(1, events.len() as int);
    if close == 0 {
        lemma_deleted_cell_never_runs(step(s, events[0]), rest);
    } else {
        assert(events[0] != CellEvent::Enter);
        assert forall|i: int| 0 <= i < close - 1 implies rest[i] != CellEvent::Enter by {
            assert(rest[i] == events[i + 1]);
        }
        lemma_no_entry_no_run(step(s, events[0]), rest, close - 1);
    }
}

} // verus!
