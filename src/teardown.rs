use vstd::prelude::*;
use crate::cell::{CellState, CellEvent, invocations, lemma_deleted_cell_never_runs};
use crate::time::TimeSpan;
use crate::timer::{CallbackHint, TimerError, acceptable_execution_time, acceptable_execution_time_of, timer_error_of};
use crate::wait::{wait_until, mark_cell};
use sync_wait_object::{WaitEvent, WaitObjectError};

verus! {

/// The phases of a timer's teardown.
#[derive(Clone, Copy, Debug, PartialEq, Eq, Structural)]
pub enum Phase {
    /// The system timer is active and may fire at any time.
    Armed,
    /// The callback cell is being marked deleted.
    Marking,
    /// The system timer is being disarmed (best effort).
    Disarming,
    /// Waiting, within the acceptable execution time, for the cell to go idle.
    IdleWait,
    /// The system timer and the cell are released: no callback runs again.
    Released,
    /// The wait failed while an invocation may still be running: the process
    /// must stop rather than free what that invocation uses.
    Aborted,
    /// The cell's lock broke before the mark: no entry can take the lock to
    /// run the closure, the system timer is given up, and the broken
    /// synchronization is reported.
    Broken,
}

/// What the closing thread reports back after each step.
#[derive(Clone, Copy, Debug, PartialEq, Eq, Structural)]
pub enum Outcome {
    /// Close was requested.
    Close,
    /// The cell was marked deleted.
    Marked,
    /// The mark failed: the cell's lock is broken.
    MarkFailed,
    /// The disarm call returned; `true` when the system accepted it.
    Disarmed(bool),
    /// The idle wait ended, observing the cell in this state.
    Waited(CellState),
    /// The idle wait timed out, or the lock of the cell broke.
    WaitFailed,
}

/// The next thing the closing thread does.
#[derive(Clone, Copy, Debug, PartialEq, Eq, Structural)]
pub enum Step {
    /// Mark the callback cell deleted.
    MarkDeleted,
    /// Disarm the system timer.
    Disarm,
    /// Wait, for at most this span, until no invocation is in flight.
    WaitIdle(TimeSpan),
    /// Delete the system timer and free the cell.
    Release,
    /// Abort the process.
    Abort,
    /// Disarm and delete the system timer, and report a broken
    /// synchronization; the cell stays with whoever still holds it.
    Abandon,
    /// Nothing: the timer is already released.
    Finished,
}

/// The teardown of one timer: its phase and the bound of its idle wait.
#[derive(Clone, Copy, Debug, PartialEq, Eq, Structural)]
pub struct Teardown {
    pub phase: Phase,
    pub bound: TimeSpan,
}

/// One transition: the phase after `outcome` in `phase`, and the step to take.
/// A failed disarm still goes on to the idle wait; an outcome that does not
/// fit the phase means the internal state is corrupt, and aborts.
pub open spec fn next(phase: Phase, outcome: Outcome, bound: TimeSpan) -> (Phase, Step) {
    match (phase, outcome) {
        (Phase::Armed, Outcome::Close) => (Phase::Marking, Step::MarkDeleted),
        (Phase::Marking, Outcome::Marked) => (Phase::Disarming, Step::Disarm),
        (Phase::Marking, Outcome::MarkFailed) => (Phase::Broken, Step::Abandon),
        (Phase::Disarming, Outcome::Disarmed(_)) => (Phase::IdleWait, Step::WaitIdle(bound)),
        (Phase::IdleWait, Outcome::Waited(s)) => if s.deleted && s.in_flight == 0 {
            (Phase::Released, Step::Release)
        } else {
            (Phase::Aborted, Step::Abort)
        },
        (Phase::Released, _) => (Phase::Released, Step::Finished),
        (Phase::Broken, _) => (Phase::Broken, Step::Finished),
        _ => (Phase::Aborted, Step::Abort),
    }
}

/// The steps taken for the outcomes of `outcomes`, from `phase`.
pub open spec fn steps(phase: Phase, bound: TimeSpan, outcomes: Seq<Outcome>) -> Seq<Step>
    decreases outcomes.len(),
{
    if outcomes.len() == 0 {
        Seq::empty()
    } else {
        let (p, s) = next(phase, outcomes[0], bound);
        seq![s] + steps(p, bound, outcomes.subrange(1, outcomes.len() as int))
    }
}

impl Teardown {
    /// The teardown of an armed timer whose callback has this hint.
    pub fn new(hint: Option<CallbackHint>) -> (r: Teardown)
        ensures
            r.phase == Phase::Armed,
            r.bound == acceptable_execution_time_of(hint),
    {
        Teardown { phase: Phase::Armed, bound: acceptable_execution_time(hint) }
    }

    /// Takes the outcome of the last step and gives the next one.
    pub fn advance(&mut self, outcome: Outcome) -> (r: Step)
        ensures
            (final(self).phase, r) == next(old(self).phase, outcome, old(self).bound),
            final(self).bound == old(self).bound,
    {
        let (phase, step) = match (self.phase, outcome) {
            (Phase::Armed, Outcome::Close) => (Phase::Marking, Step::MarkDeleted),
            (Phase::Marking, Outcome::Marked) => (Phase::Disarming, Step::Disarm),
            (Phase::Marking, Outcome::MarkFailed) => (Phase::Broken, Step::Abandon),
            (Phase::Disarming, Outcome::Disarmed(_)) => (Phase::IdleWait, Step::WaitIdle(self.bound)),
            (Phase::IdleWait, Outcome::Waited(s)) => if s.may_free() {
                (Phase::Released, Step::Release)
            } else {
                (Phase::Aborted, Step::Abort)
            },
            (Phase::Released, _) => (Phase::Released, Step::Finished),
            (Phase::Broken, _) => (Phase::Broken, Step::Finished),
            _ => (Phase::Aborted, Step::Abort),
        };
        self.phase = phase;
        step
    }

    /// Whether the teardown is over: released, aborting, or given up.
    pub fn is_done(&self) -> (r: bool)
        ensures
            r == (self.phase == Phase::Released || self.phase == Phase::Aborted || self.phase
                == Phase::Broken),
    {
        self.phase == Phase::Released || self.phase == Phase::Aborted || self.phase == Phase::Broken
    }
}

/// The teardown outcome for what the idle wait returned: the state it saw,
/// or a failed wait.
pub open spec fn idle_outcome_of(w: Result<CellState, WaitObjectError>) -> Outcome {
    match w {
        Ok(s) => Outcome::Waited(s),
        Err(_) => Outcome::WaitFailed,
    }
}

/// See `idle_outcome_of`.
pub fn idle_outcome(w: Result<CellState, WaitObjectError>) -> (r: Outcome)
    ensures
        r == idle_outcome_of(w),
{
    match w {
        Ok(s) => Outcome::Waited(s),
        Err(_) => Outcome::WaitFailed,
    }
}

/// Waits at most `bound` until the shared cell has no invocation in flight.
/// A wait that ends reports the state it saw, idle; otherwise the wait failed.
pub fn wait_idle(cell: &WaitEvent<CellState>, bound: TimeSpan) -> (r: Outcome)
    ensures
        r is Waited ==> r->Waited_0.in_flight == 0,
        r is Waited || r is WaitFailed,
{
    let w = wait_until(cell, Some(bound));
    idle_outcome(w)
}

/// Marks the shared cell deleted, under its lock: every dispatch thread that
/// enters it afterwards sees the mark.
pub fn mark_deleted(cell: &mut WaitEvent<CellState>) -> (r: Result<(), TimerError>)
    ensures
        r == Ok::<(), TimerError>(()) || r == Err::<(), TimerError>(
            TimerError::SynchronizationBroken,
        ),
{
    let w = mark_cell(cell);
    match w {
        Ok(()) => Ok(()),
        Err(e) => Err(TimerError::from(e)),
    }
}

/// From a released, aborted or broken teardown, no step releases anything
/// again.
proof fn lemma_done_never_releases(phase: Phase, bound: TimeSpan, outcomes: Seq<Outcome>)
    requires
        phase == Phase::Released || phase == Phase::Aborted || phase == Phase::Broken,
    ensures
        forall|i: int| 0 <= i < outcomes.len() ==> steps(phase, bound, outcomes)[i] != Step::Release,
        steps(phase, bound, outcomes).len() == outcomes.len(),
    decreases outcomes.len(),
{
    if outcomes.len() > 0 {
        let rest = outcomes.subrange(1, outcomes.len() as int);
        let (p, s) = next(phase, outcomes[0], bound);
        lemma_done_never_releases(p, bound, rest);
        let all = steps(phase, bound, outcomes);
        assert(all == seq![s] + steps(p, bound, rest));
        assert forall|i: int| 0 <= i < outcomes.len() implies all[i] != Step::Release by {
            if i > 0 {
                assert(all[i] == steps(p, bound, rest)[i - 1]);
            }
        }
    }
}

/// Closing a timer releases it only as the fourth step, after marking its
/// cell deleted, disarming it and waiting for it within its bound, and only
/// once that wait saw the deleted cell with no invocation in flight: the
/// closing thread blocks until a running callback returns, and from then on
/// no entry runs the callback again, whatever the dispatch threads do.
pub proof fn lemma_release_waits_for_callbacks(
    bound: TimeSpan,
    outcomes: Seq<Outcome>,
    i: int,
    later: Seq<CellEvent>,
)
    requires
        0 <= i < outcomes.len(),
        steps(Phase::Armed, bound, outcomes)[i] == Step::Release,
    ensures
        i == 3,
        steps(Phase::Armed, bound, outcomes).subrange(0, 3) == seq![
            Step::MarkDeleted,
            Step::Disarm,
            Step::WaitIdle(bound),
        ],
        outcomes[3] is Waited,
        outcomes[3]->Waited_0.deleted,
        outcomes[3]->Waited_0.in_flight == 0,
        invocations(outcomes[3]->Waited_0, later) == 0,
{
    let o = outcomes;
    let all = steps(Phase::Armed, bound, o);
    let rest_a = o.subrange(1, o.len() as int);
    let (ph_a, st_a) = next(Phase::Armed, o[0], bound);
    assert(all == seq![st_a] + steps(ph_a, bound, rest_a));
    if ph_a != Phase::Marking {
        lemma_done_never_releases(ph_a, bound, rest_a);
        assert(all[i] != Step::Release);
    }
    if o.len() == 1 {
        assert(false);
    }
    let rest_b = rest_a.subrange(1, rest_a.len() as int);
    let (ph_b, st_b) = next(ph_a, rest_a[0], bound);
    assert(steps(ph_a, bound, rest_a) == seq![st_b] + steps(ph_b, bound, rest_b));
    if ph_b != Phase::Disarming {
        lemma_done_never_releases(ph_b, bound, rest_b);
        if i >= 2 {
            assert(all[i] == steps(ph_b, bound, rest_b)[i - 2]);
        }
        assert(false);
    }
    if o.len() == 2 {
        assert(false);
    }
    let rest_c = rest_b.subrange(1, rest_b.len() as int);
    let (ph_c, st_c) = next(ph_b, rest_b[0], bound);
    assert(steps(ph_b, bound, rest_b) == seq![st_c] + steps(ph_c, bound, rest_c));
    if ph_c != Phase::IdleWait {
        lemma_done_never_releases(ph_c, bound, rest_c);
        if i >= 3 {
            assert(all[i] == steps(ph_c, bound, rest_c)[i - 3]);
        }
        assert(false);
    }
    if o.len() == 3 {
        assert(false);
    }
    let rest_d = rest_c.subrange(1, rest_c.len() as int);
    let (ph_d, st_d) = next(ph_c, rest_c[0], bound);
    assert(steps(ph_c, bound, rest_c) == seq![st_d] + steps(ph_d, bound, rest_d));
    assert(ph_d == Phase::Released || ph_d == Phase::Aborted);
    lemma_done_never_releases(ph_d, bound, rest_d);
    if i > 3 {
        assert(all[i] == steps(ph_d, bound, rest_d)[i - 4]);
        assert(false);
    }
    assert(rest_c[0] == o[3]);
    assert(all.subrange(0, 3) =~= seq![st_a, st_b, st_c]);
    lemma_deleted_cell_never_runs(o[3]->Waited_0, later);
}

} // verus!
