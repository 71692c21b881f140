//! Native timers: one-shot and periodic callbacks, with a teardown protocol
//! that never frees a callback while an invocation of it is in flight.
//!
//! This crate holds the verified protocol of the library: time spans and the
//! timer specifications handed to the system, the callback cell, the
//! teardown sequence, the dispatch policy, the token registry, the handoff
//! slot of self-detaching timers, the queue's channels and the wait
//! primitives built on `sync_wait_object`.

mod time;
mod timer;
mod cell;
mod teardown;
mod registry;
mod wait;
mod event;
mod slot;
mod queue;

pub use time::{TimeSpan, TimeSpec, TimerSpec, to_timespec, expirations_within, NANOS_PER_SEC, NANOS_PER_MILLI};
pub use timer::{CallbackHint, TimerError, Dispatch, acceptable_execution_time, dispatch_for, DEFAULT_ACCEPTABLE_EXECUTION_NANOS};
pub use cell::{Body, Entry, CellState, CellEvent};
pub use teardown::{Phase, Outcome, Step, Teardown, idle_outcome, wait_idle, mark_deleted};
pub use registry::TokenRegistry;
pub use event::{ManualResetEvent, wait_report};
pub use slot::{HandoffSlot, take_report};
pub use queue::{CreationRequest, TimerQueue, TimerQueueCore, creation_request, creation_result, creation_outcome};
