use vstd::prelude::*;
use sync_wait_object::{WaitEvent, WaitObjectError};
use crate::time::TimeSpan;
use crate::timer::{TimerError, timer_error_of};
use crate::wait::wait_until;

verus! {

/// A signal that stays set until it is reset; clones share it.
#[derive(Clone)]
pub struct ManualResetEvent {
    state: WaitEvent<bool>,
}

/// What a wait on the signal reports for what the wait primitive returned:
/// `true` once the signal was seen set, `false` when the wait timed out, and
/// the library's error for any other failure.
pub open spec fn wait_report_of(r: Result<bool, WaitObjectError>) -> Result<bool, TimerError> {
    match r {
        Ok(v) => Ok(v),
        Err(WaitObjectError::Timeout) => Ok(false),
        Err(e) => Err(timer_error_of(e)),
    }
}

/// See `wait_report_of`.
pub fn wait_report(r: Result<bool, WaitObjectError>) -> (out: Result<bool, TimerError>)
    ensures
        out == wait_report_of(r),
{
    match r {
        Ok(v) => Ok(v),
        Err(WaitObjectError::Timeout) => Ok(false),
        Err(e) => Err(TimerError::from(e)),
    }
}

/// The library's result for what a change of state returned.
pub open spec fn set_report_of(r: Result<(), WaitObjectError>) -> Result<(), TimerError> {
    match r {
        Ok(()) => Ok(()),
        Err(e) => Err(timer_error_of(e)),
    }
}

fn set_report(r: Result<(), WaitObjectError>) -> (out: Result<(), TimerError>)
    ensures
        out == set_report_of(r),
{
    match r {
        Ok(()) => Ok(()),
        Err(e) => Err(TimerError::from(e)),
    }
}

impl ManualResetEvent {
    /// A signal, not set.
    pub fn new() -> (r: ManualResetEvent) {
        ManualResetEvent::new_init(false)
    }

    /// A signal, set or not.
    pub fn new_init(initial_state: bool) -> (r: ManualResetEvent) {
        ManualResetEvent { state: WaitEvent::new_init(initial_state) }
    }

    /// Waits, without a bound, until the signal is set; `Ok(true)` then.
    pub fn wait_until_set(&self) -> (r: Result<bool, TimerError>)
        ensures
            r == Ok::<bool, TimerError>(true) || r == Err::<bool, TimerError>(
                TimerError::SynchronizationBroken,
            ),
    {
        let w = wait_until(&self.state, None);
        wait_report(w)
    }

    /// Waits at most `timeout` for the signal: `Ok(true)` once it is seen
    /// set, `Ok(false)` when the time ran out first.
    pub fn wait_one(&self, timeout: TimeSpan) -> (r: Result<bool, TimerError>)
        ensures
            r == Ok::<bool, TimerError>(true) || r == Ok::<bool, TimerError>(false) || r == Err::<
                bool,
                TimerError,
            >(TimerError::SynchronizationBroken),
    {
        let w = wait_until(&self.state, Some(timeout));
        wait_report(w)
    }

    /// Clears the signal.
    pub fn reset(&mut self) -> (r: Result<(), TimerError>)
        ensures
            r == Ok::<(), TimerError>(()) || r == Err::<(), TimerError>(
                TimerError::SynchronizationBroken,
            ),
    {
        set_report(self.state.set_state(false))
    }

    /// Sets the signal and wakes its waiters.
    pub fn set(&mut self) -> (r: Result<(), TimerError>)
        ensures
            r == Ok::<(), TimerError>(()) || r == Err::<(), TimerError>(
                TimerError::SynchronizationBroken,
            ),
    {
        set_report(self.state.set_state(true))
    }
}

} // verus!
