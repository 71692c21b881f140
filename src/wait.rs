use vstd::prelude::*;
use std::time::Duration;
use sync_wait_object::{WaitEvent, WaitObjectError};
use crate::cell::{CellState, marked};
use crate::time::TimeSpan;

verus! {

/// A state cell shared by its clones, with a predicate wait.
#[verifier::external_type_specification]
#[verifier::external_body]
#[verifier::reject_recursive_types(T)]
pub struct ExWaitEvent<T>(WaitEvent<T>);

/// Relies on `WaitEvent::new_init`: a new cell holding `initial_state`.
pub assume_specification<T>[ WaitEvent::<T>::new_init ](initial_state: T) -> WaitEvent<T>;

/// Relies on `WaitEvent`'s `Clone`: the clone shares its state with the event it was cloned from.
pub assume_specification<T: Clone>[ <WaitEvent<T> as Clone>::clone ](
    event: &WaitEvent<T>,
) -> WaitEvent<T>;

/// Relies on `WaitEvent::set_state`: it stores the state under the cell's
/// lock and wakes the waiters; it fails only when the lock is poisoned.
pub assume_specification<T>[ WaitEvent::<T>::set_state ](
    event: &mut WaitEvent<T>,
    new_state: T,
) -> (r: Result<(), WaitObjectError>)
    ensures
        r matches Err(e) ==> e == WaitObjectError::SynchronizationBroken,
;

/// A state that a wait can wait for.
pub(crate) trait Awaited {
    /// Whether the wait is over in this state.
    spec fn reached(&self) -> bool;

    fn is_reached(&self) -> (r: bool)
        ensures
            r == self.reached(),
    ;
}

/// A signal: the wait is over once it is set.
impl Awaited for bool {
    open spec fn reached(&self) -> bool {
        *self
    }

    fn is_reached(&self) -> (r: bool) {
        *self
    }
}

/// A callback cell: the wait is over once nothing is in flight.
impl Awaited for CellState {
    open spec fn reached(&self) -> bool {
        self.in_flight == 0
    }

    fn is_reached(&self) -> (r: bool) {
        self.is_idle()
    }
}

/// The deletion mark of a cell, for an update under the cell's lock.
pub(crate) fn with_deletion_mark(s: &CellState) -> (n: CellState)
    ensures
        n == marked(*s),
{
    let mut n = *s;
    n.mark_deleted();
    n
}

/// A slot's value once taken: nothing.
pub(crate) fn emptied() -> (r: Option<(u64, u64)>)
    ensures
        r is None,
{
    None
}

/// Whether a slot holds a value.
pub(crate) fn is_filled(v: &Option<(u64, u64)>) -> (r: bool)
    ensures
        r == v is Some,
{
    v.is_some()
}

/// Relies on `WaitEvent::wait`, checking the state with `is_reached`:
/// under the cell's lock it checks the state until the check passes, and
/// returns that state; it fails with `Timeout` once `timeout` has passed
/// (never without a timeout), and with `SynchronizationBroken` when the lock
/// is poisoned.
#[verifier::external_body]
pub(crate) fn wait_until<T: Awaited + Copy>(event: &WaitEvent<T>, timeout: Option<TimeSpan>) -> (r: Result<
    T,
    WaitObjectError,
>)
    ensures
        r matches Ok(v) ==> v.reached(),
        r matches Err(e) ==> (e == WaitObjectError::SynchronizationBroken || (timeout is Some && e
            == WaitObjectError::Timeout)),
{
    event.wait(timeout.map(|t| Duration::from_nanos(t.nanos)), |s: &T| s.is_reached()).map(|g| *g)
}

/// Relies on `WaitEvent::wait_reset`, with no timeout, checking with
/// `is_filled` and resetting with `emptied`: it waits until the slot holds
/// a value, empties it and returns the value; it fails only when the lock
/// is poisoned.
#[verifier::external_body]
pub(crate) fn take_filled(event: &WaitEvent<Option<(u64, u64)>>) -> (r: Result<
    Option<(u64, u64)>,
    WaitObjectError,
>)
    ensures
        r matches Ok(v) ==> v is Some,
        r matches Err(e) ==> e == WaitObjectError::SynchronizationBroken,
{
    event.wait_reset(None, emptied, is_filled)
}

/// Relies on `WaitEvent::set_state_func`, with `with_deletion_mark`: it
/// marks the cell deleted under its lock and wakes the waiters; it fails
/// only when the lock is poisoned.
#[verifier::external_body]
pub(crate) fn mark_cell(event: &mut WaitEvent<CellState>) -> (r: Result<(), WaitObjectError>)
    ensures
        r matches Err(e) ==> e == WaitObjectError::SynchronizationBroken,
{
    event.set_state_func(with_deletion_mark)
}

} // verus!
