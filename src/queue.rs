use vstd::prelude::*;
use std::sync::Arc;
use std::sync::mpsc::Sender;
use crate::time::{TimeSpan, TimerSpec, to_timespec_spec};
use crate::timer::TimerError;

verus! {

/// The sending half of a channel.
#[verifier::external_type_specification]
#[verifier::external_body]
#[verifier::reject_recursive_types(T)]
pub struct ExSender<T>(Sender<T>);

/// Relies on `Sender::send`: `true` when the value was queued, `false` when
/// the receiving half is gone.
#[verifier::external_body]
fn send_to<T>(sender: &Sender<T>, value: T) -> (r: bool) {
    sender.send(value).is_ok()
}

/// A request to the queue's creation thread: arm a system timer with `spec`
/// for the cell registered under `token`, and send back its handle.
pub struct CreationRequest {
    pub spec: TimerSpec,
    pub token: u64,
    pub reply: Sender<Result<u64, TimerError>>,
}

/// What a timer queue shares with every timer scheduled through it: the
/// channel of creation requests, served by one thread that makes the system
/// calls in turn, and the channel of quick invocations, served by the shared
/// quick worker.
pub struct TimerQueueCore {
    requests: Sender<CreationRequest>,
    quick: Sender<u64>,
}

/// A timer queue.
pub struct TimerQueue(Arc<TimerQueueCore>);

/// The request for a timer due after `due` with period `period`, for the
/// cell `token`.
pub open spec fn creation_request_of(request: CreationRequest, due: TimeSpan, period: TimeSpan, token: u64) -> bool {
    &&& request.spec.value == to_timespec_spec(due)
    &&& request.spec.interval == to_timespec_spec(period)
    &&& request.token == token
}

/// The handle that creation gives, for what came back from the creation
/// thread: its reply, or a broken synchronization when no reply came.
pub open spec fn creation_result_of(reply: Option<Result<u64, TimerError>>) -> Result<u64, TimerError> {
    match reply {
        Some(r) => r,
        None => Err(TimerError::SynchronizationBroken),
    }
}

/// See `creation_result_of`.
pub fn creation_result(reply: Option<Result<u64, TimerError>>) -> (r: Result<u64, TimerError>)
    ensures
        r == creation_result_of(reply),
{
    match reply {
        Some(r) => r,
        None => Err(TimerError::SynchronizationBroken),
    }
}

/// What the creation of a system timer gives, from whether its request
/// could be queued to the creation thread and what came back on the reply
/// channel: a request that could not be queued is a broken
/// synchronization; otherwise the creation thread's reply decides.
pub open spec fn creation_outcome_of(sent: bool, reply: Option<Result<u64, TimerError>>) -> Result<u64, TimerError> {
    if sent {
        creation_result_of(reply)
    } else {
        Err(TimerError::SynchronizationBroken)
    }
}

/// See `creation_outcome_of`.
pub fn creation_outcome(sent: bool, reply: Option<Result<u64, TimerError>>) -> (r: Result<u64, TimerError>)
    ensures
        !sent ==> r == Err::<u64, TimerError>(TimerError::SynchronizationBroken),
        sent ==> r == creation_result_of(reply),
        r == creation_outcome_of(sent, reply),
{
    if sent {
        creation_result(reply)
    } else {
        Err(TimerError::SynchronizationBroken)
    }
}

/// Builds the creation request for a timer due after `due` with period
/// `period` (zero: once), for the cell `token`, answered on `reply`.
pub fn creation_request(
    due: TimeSpan,
    period: TimeSpan,
    token: u64,
    reply: Sender<Result<u64, TimerError>>,
) -> (r: CreationRequest)
    ensures
        creation_request_of(r, due, period, token),
{
    CreationRequest { spec: TimerSpec::new(due, period), token, reply }
}

impl TimerQueueCore {
    /// The channel of creation requests.
    pub closed spec fn requests(&self) -> Sender<CreationRequest> {
        self.requests
    }

    /// The channel of quick invocations.
    pub closed spec fn quick(&self) -> Sender<u64> {
        self.quick
    }

    /// The core over the channel of creation requests and the channel of
    /// quick invocations.
    pub fn new(requests: Sender<CreationRequest>, quick: Sender<u64>) -> (r: TimerQueueCore)
        ensures
            r.requests() == requests,
            r.quick() == quick,
    {
        TimerQueueCore { requests, quick }
    }
}

impl TimerQueue {
    /// The shared core that the queue dispatches through.
    pub closed spec fn shared_core(&self) -> Arc<TimerQueueCore> {
        self.0
    }

    /// A queue handle over a shared core: the core itself, not a copy.
    pub fn new_with_context(context: Arc<TimerQueueCore>) -> (r: TimerQueue)
        ensures
            r.shared_core() == context,
    {
        TimerQueue(context)
    }

    /// The shared core, for timers to keep.
    pub fn context(&self) -> (r: &Arc<TimerQueueCore>)
        ensures
            *r == self.shared_core(),
    {
        &self.0
    }

    /// Hands the cell `token` to the shared quick worker; a broken
    /// synchronization when the worker is gone.
    pub fn dispatch_quick_call(&self, token: u64) -> (r: Result<(), TimerError>)
        ensures
            r == Ok::<(), TimerError>(()) || r == Err::<(), TimerError>(
                TimerError::SynchronizationBroken,
            ),
    {
        if send_to(&self.0.quick, token) {
            Ok(())
        } else {
            Err(TimerError::SynchronizationBroken)
        }
    }

    /// The channel of creation requests, which the creation thread serves.
    pub fn creation_channel(&self) -> (r: &Sender<CreationRequest>)
        ensures
            *r == self.shared_core().requests(),
    {
        &self.0.requests
    }
}

} // verus!
