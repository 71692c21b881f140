use vstd::prelude::*;
use std::sync::PoisonError;
use sync_wait_object::WaitObjectError;
use crate::time::TimeSpan;

verus! {

/// Errors of the wait primitive, with their variants visible to proofs.
#[verifier::external_type_specification]
pub struct ExWaitObjectError(WaitObjectError);

/// The error of a std lock that a panic poisoned.
#[verifier::external_type_specification]
#[verifier::external_body]
#[verifier::reject_recursive_types(T)]
pub struct ExPoisonError<T>(PoisonError<T>);

/// Scheduler hint about the callback function.
#[derive(Clone, Copy, Debug, PartialEq, Eq, Structural)]
pub enum CallbackHint {
    /// The callback returns quickly: it may share the common worker thread.
    QuickFunction,
    /// The callback takes time: it gets a thread of its own. The span is the
    /// longest execution expected, which also bounds the wait at teardown.
    SlowFunction(TimeSpan),
}

/// The errors of the library.
#[derive(Clone, Debug, PartialEq, Eq)]
pub enum TimerError {
    /// A system call failed: its error code and the code's meaning.
    OsError(isize, String),
    /// A lock, channel or handoff became unusable (e.g. poisoned by a panic).
    SynchronizationBroken,
}

/// The wait bound at teardown of a callback that gave no longer one: one second.
pub const DEFAULT_ACCEPTABLE_EXECUTION_NANOS: u64 = 1_000_000_000;

/// The longest a teardown waits for in-flight invocations of a callback with
/// this hint.
pub open spec fn acceptable_execution_time_of(hint: Option<CallbackHint>) -> TimeSpan {
    match hint {
        Some(CallbackHint::SlowFunction(d)) => d,
        _ => TimeSpan { nanos: DEFAULT_ACCEPTABLE_EXECUTION_NANOS },
    }
}

/// The longest a teardown waits for in-flight invocations: the duration of
/// a slow hint, else one second.
pub fn acceptable_execution_time(hint: Option<CallbackHint>) -> (r: TimeSpan)
    ensures
        r == acceptable_execution_time_of(hint),
{
    match hint {
        Some(CallbackHint::SlowFunction(d)) => d,
        _ => TimeSpan { nanos: DEFAULT_ACCEPTABLE_EXECUTION_NANOS },
    }
}

/// Where an expired timer's invocation runs.
#[derive(Clone, Copy, Debug, PartialEq, Eq, Structural)]
pub enum Dispatch {
    /// On the queue's shared worker, one invocation after another.
    QuickWorker,
    /// On a thread started for this invocation.
    DedicatedThread,
}

pub open spec fn dispatch_of(hint: Option<CallbackHint>) -> Dispatch {
    match hint {
        Some(CallbackHint::SlowFunction(_)) => Dispatch::DedicatedThread,
        _ => Dispatch::QuickWorker,
    }
}

/// The dispatch policy: a slow callback gets a dedicated thread, any other
/// one runs on the shared quick worker.
pub fn dispatch_for(hint: Option<CallbackHint>) -> (r: Dispatch)
    ensures
        r == dispatch_of(hint),
{
    match hint {
        Some(CallbackHint::SlowFunction(_)) => Dispatch::DedicatedThread,
        _ => Dispatch::QuickWorker,
    }
}

/// The library's error for an error of the wait primitive: a system error
/// keeps its code and message, a broken lock or an expired wait is a broken
/// synchronization.
pub open spec fn timer_error_of(e: WaitObjectError) -> TimerError {
    match e {
        WaitObjectError::OsError(code, message) => TimerError::OsError(code, message),
        _ => TimerError::SynchronizationBroken,
    }
}

impl From<WaitObjectError> for TimerError {
    fn from(value: WaitObjectError) -> (r: TimerError)
        ensures
            r == timer_error_of(value),
    {
        match value {
            WaitObjectError::OsError(code, message) => TimerError::OsError(code, message),
            WaitObjectError::SynchronizationBroken => TimerError::SynchronizationBroken,
            WaitObjectError::Timeout => TimerError::SynchronizationBroken,
        }
    }
}

impl vstd::std_specs::convert::FromSpecImpl<WaitObjectError> for TimerError {
    open spec fn obeys_from_spec() -> bool {
        true
    }

    open spec fn from_spec(v: WaitObjectError) -> TimerError {
        timer_error_of(v)
    }
}

/// A poisoned std lock is a broken synchronization.
impl<T> From<PoisonError<T>> for TimerError {
    fn from(_value: PoisonError<T>) -> (r: TimerError)
        ensures
            r == TimerError::SynchronizationBroken,
    {
        TimerError::SynchronizationBroken
    }
}

impl<T> vstd::std_specs::convert::FromSpecImpl<PoisonError<T>> for TimerError {
    open spec fn obeys_from_spec() -> bool {
        true
    }

    open spec fn from_spec(v: PoisonError<T>) -> TimerError {
        TimerError::SynchronizationBroken
    }
}

} // verus!
