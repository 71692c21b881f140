use vstd::prelude::*;
use sync_wait_object::{WaitEvent, WaitObjectError};
use crate::timer::{TimerError, timer_error_of};
use crate::wait::{take_filled, emptied};

verus! {

/// A single-write, single-read slot that hands a value published late (a
/// system timer's handle and its cell's token) to a callback that may
/// already be running; clones share the slot.
#[derive(Clone)]
pub struct HandoffSlot {
    state: WaitEvent<Option<(u64, u64)>>,
}

/// The library's result for what the wait on the slot returned: the value
/// found in it, or the library's error.
pub open spec fn take_report_of(r: Result<Option<(u64, u64)>, WaitObjectError>) -> Result<
    (u64, u64),
    TimerError,
> {
    match r {
        Ok(Some(v)) => Ok(v),
        Ok(None) => Err(TimerError::SynchronizationBroken),
        Err(e) => Err(timer_error_of(e)),
    }
}

/// See `take_report_of`.
pub fn take_report(r: Result<Option<(u64, u64)>, WaitObjectError>) -> (out: Result<
    (u64, u64),
    TimerError,
>)
    ensures
        out == take_report_of(r),
{
    match r {
        Ok(Some(v)) => Ok(v),
        Ok(None) => Err(TimerError::SynchronizationBroken),
        Err(e) => Err(TimerError::from(e)),
    }
}

/// The slot's value once published.
fn filled(handle: u64, token: u64) -> (r: Option<(u64, u64)>)
    ensures
        r == Some((handle, token)),
{
    Some((handle, token))
}

impl HandoffSlot {
    /// An empty slot.
    pub fn new() -> (r: HandoffSlot) {
        HandoffSlot { state: WaitEvent::new_init(emptied()) }
    }

    /// Publishes the system timer's `handle` and its cell's `token`.
    pub fn publish(&mut self, handle: u64, token: u64) -> (r: Result<(), TimerError>)
        ensures
            r == Ok::<(), TimerError>(()) || r == Err::<(), TimerError>(
                TimerError::SynchronizationBroken,
            ),
    {
        let w = self.state.set_state(filled(handle, token));
        match w {
            Ok(()) => Ok(()),
            Err(e) => Err(TimerError::from(e)),
        }
    }

    /// Publishes what the creation of the system timer gave: on success its
    /// handle with the cell's `token`; a failed creation is passed on as it
    /// is, and nothing is published.
    pub fn publish_created(&mut self, created: Result<u64, TimerError>, token: u64) -> (r: Result<
        (),
        TimerError,
    >)
        ensures
            created matches Err(e) ==> r == Err::<(), TimerError>(e),
            created is Ok ==> (r == Ok::<(), TimerError>(()) || r == Err::<(), TimerError>(
                TimerError::SynchronizationBroken,
            )),
    {
        match created {
            Ok(handle) => self.publish(handle, token),
            Err(e) => Err(e),
        }
    }

    /// Waits, without a bound, until a value is published, and takes it,
    /// leaving the slot empty.
    pub fn take(&self) -> (r: Result<(u64, u64), TimerError>)
        ensures
            r is Ok || r == Err::<(u64, u64), TimerError>(TimerError::SynchronizationBroken),
    {
        let w = take_filled(&self.state);
        take_report(w)
    }
}

} // verus!
