use native_timer::{
    acceptable_execution_time, dispatch_for, idle_outcome, mark_deleted, wait_idle, Body, CallbackHint, CellState,
    Dispatch, Entry, Outcome, Phase, Step, Teardown, TimeSpan, TokenRegistry, HandoffSlot,
    DEFAULT_ACCEPTABLE_EXECUTION_NANOS,
};
use sync_wait_object::{WaitEvent, WaitObjectError};

#[test]
fn repeatable_cell_runs_on_every_entry() {
    let mut cell = CellState::new(Body::Repeatable);
    assert_eq!(cell.enter(), Entry::Run);
    cell.leave();
    assert_eq!(cell.enter(), Entry::Run);
    assert_eq!(cell.enter(), Entry::Run);
    assert_eq!(cell.in_flight, 2);
    cell.leave();
    cell.leave();
    assert!(cell.is_idle());
    assert_eq!(cell.body, Body::Repeatable);
}

#[test]
fn oneshot_cell_runs_once() {
    let mut cell = CellState::new(Body::OneShot);
    assert_eq!(cell.enter(), Entry::RunOnce);
    assert_eq!(cell.body, Body::Empty);
    assert_eq!(cell.enter(), Entry::Skip);
    cell.leave();
    cell.leave();
    for _ in 0..10 {
        assert_eq!(cell.enter(), Entry::Skip);
        cell.leave();
    }
    assert!(cell.is_idle());
}

#[test]
fn cell_closed_before_due_never_runs() {
    let mut cell = CellState::new(Body::Repeatable);
    cell.mark_deleted();
    assert_eq!(cell.enter(), Entry::Skip);
    cell.leave();
    let mut once = CellState::new(Body::OneShot);
    once.mark_deleted();
    assert_eq!(once.enter(), Entry::Skip);
    assert_eq!(once.body, Body::OneShot);
    assert!(!once.may_free());
    once.leave();
    assert!(once.may_free());
}

#[test]
fn deletion_during_invocation_waits_for_it() {
    let mut cell = CellState::new(Body::Repeatable);
    assert_eq!(cell.enter(), Entry::Run);
    cell.mark_deleted();
    assert!(!cell.is_idle());
    assert!(!cell.may_free());
    assert_eq!(cell.enter(), Entry::Skip);
    cell.leave();
    cell.leave();
    assert!(cell.may_free());
}

#[test]
fn hints_choose_wait_bound_and_dispatch() {
    assert_eq!(acceptable_execution_time(None).nanos, DEFAULT_ACCEPTABLE_EXECUTION_NANOS);
    assert_eq!(acceptable_execution_time(None).nanos, 1_000_000_000);
    assert_eq!(acceptable_execution_time(Some(CallbackHint::QuickFunction)).nanos, 1_000_000_000);
    let slow = CallbackHint::SlowFunction(TimeSpan::from_millis(5000));
    assert_eq!(acceptable_execution_time(Some(slow)), TimeSpan::from_millis(5000));
    assert_eq!(dispatch_for(Some(slow)), Dispatch::DedicatedThread);
    assert_eq!(dispatch_for(Some(CallbackHint::QuickFunction)), Dispatch::QuickWorker);
    assert_eq!(dispatch_for(None), Dispatch::QuickWorker);
}

#[test]
fn teardown_marks_disarms_waits_and_releases() {
    let bound = TimeSpan::from_millis(50);
    let mut t = Teardown::new(Some(CallbackHint::SlowFunction(bound)));
    assert_eq!(t.phase, Phase::Armed);
    assert_eq!(t.advance(Outcome::Close), Step::MarkDeleted);
    assert_eq!(t.advance(Outcome::Marked), Step::Disarm);
    assert_eq!(t.advance(Outcome::Disarmed(true)), Step::WaitIdle(bound));
    assert_eq!(t.phase, Phase::IdleWait);
    let seen = CellState { body: Body::Repeatable, deleted: true, in_flight: 0 };
    assert_eq!(t.advance(Outcome::Waited(seen)), Step::Release);
    assert_eq!(t.phase, Phase::Released);
    assert!(t.is_done());
    assert_eq!(t.advance(Outcome::Close), Step::Finished);
    assert_eq!(t.phase, Phase::Released);
}

#[test]
fn teardown_goes_on_after_failed_disarm() {
    let mut t = Teardown::new(None);
    t.advance(Outcome::Close);
    t.advance(Outcome::Marked);
    assert_eq!(t.advance(Outcome::Disarmed(false)), Step::WaitIdle(TimeSpan::from_secs(1)));
}

#[test]
fn teardown_aborts_when_wait_fails() {
    let mut t = Teardown::new(None);
    t.advance(Outcome::Close);
    t.advance(Outcome::Marked);
    t.advance(Outcome::Disarmed(true));
    assert_eq!(t.advance(Outcome::WaitFailed), Step::Abort);
    assert_eq!(t.phase, Phase::Aborted);
    assert_eq!(t.advance(Outcome::Close), Step::Abort);
}

#[test]
fn teardown_aborts_on_busy_or_unmarked_cell() {
    let mut t = Teardown::new(None);
    t.advance(Outcome::Close);
    t.advance(Outcome::Marked);
    t.advance(Outcome::Disarmed(true));
    let busy = CellState { body: Body::Repeatable, deleted: true, in_flight: 1 };
    assert_eq!(t.advance(Outcome::Waited(busy)), Step::Abort);
    let mut u = Teardown::new(None);
    u.advance(Outcome::Close);
    u.advance(Outcome::Marked);
    u.advance(Outcome::Disarmed(true));
    let unmarked = CellState { body: Body::Repeatable, deleted: false, in_flight: 0 };
    assert_eq!(u.advance(Outcome::Waited(unmarked)), Step::Abort);
}

#[test]
fn teardown_aborts_on_outcome_out_of_order() {
    let mut t = Teardown::new(None);
    assert_eq!(t.advance(Outcome::Marked), Step::Abort);
    let mut u = Teardown::new(None);
    u.advance(Outcome::Close);
    assert_eq!(u.advance(Outcome::Disarmed(true)), Step::Abort);
}

#[test]
fn idle_wait_sees_marked_idle_cell() {
    let mut shared = WaitEvent::new_init(CellState::new(Body::Repeatable));
    assert_eq!(mark_deleted(&mut shared), Ok(()));
    let seen = wait_idle(&shared, TimeSpan::from_millis(20));
    assert_eq!(seen, Outcome::Waited(CellState { body: Body::Repeatable, deleted: true, in_flight: 0 }));
}

#[test]
fn idle_wait_times_out_on_busy_cell() {
    let busy = CellState { body: Body::Repeatable, deleted: false, in_flight: 1 };
    let shared = WaitEvent::new_init(busy);
    assert_eq!(wait_idle(&shared, TimeSpan::from_millis(20)), Outcome::WaitFailed);
}

#[test]
fn idle_outcome_reports_wait_result() {
    let s = CellState { body: Body::Empty, deleted: true, in_flight: 0 };
    assert_eq!(idle_outcome(Ok(s)), Outcome::Waited(s));
    assert_eq!(idle_outcome(Err(WaitObjectError::Timeout)), Outcome::WaitFailed);
    assert_eq!(idle_outcome(Err(WaitObjectError::SynchronizationBroken)), Outcome::WaitFailed);
}

#[test]
fn registry_hands_out_fresh_tokens() {
    let mut reg: TokenRegistry<Dispatch> = TokenRegistry::new();
    assert_eq!(reg.len(), 0);
    let a = reg.register(Dispatch::QuickWorker).unwrap();
    let b = reg.register(Dispatch::DedicatedThread).unwrap();
    assert_eq!((a, b), (0, 1));
    assert_eq!(reg.lookup(b), Some(&Dispatch::DedicatedThread));
    assert!(reg.contains(a));
    assert_eq!(reg.remove(a), Some(Dispatch::QuickWorker));
    assert!(!reg.contains(a));
    assert_eq!(reg.lookup(a), None);
    assert_eq!(reg.remove(a), None);
    assert_eq!(reg.register(Dispatch::QuickWorker), Some(2));
    assert_eq!(reg.len(), 2);
    assert_eq!(reg.lookup(99), None);
}

#[test]
fn fire_oneshot_protocol_runs_once_and_leaves_nothing() {
    let mut reg: TokenRegistry<Dispatch> = TokenRegistry::new();
    let token = reg.register(dispatch_for(None)).unwrap();
    let mut shared = WaitEvent::new_init(CellState::new(Body::OneShot));
    let mut slot = HandoffSlot::new();
    let mut writer = slot.clone();
    assert_eq!(writer.publish_created(Ok(0xfeed), token), Ok(()));
    let mut flag = false;
    let mut entry = Entry::Skip;
    shared
        .set_state_func(|s| {
            let mut n = *s;
            entry = n.enter();
            n
        })
        .unwrap();
    if entry == Entry::RunOnce {
        flag = true;
    }
    shared
        .set_state_func(|s| {
            let mut n = *s;
            n.leave();
            n
        })
        .unwrap();
    assert!(flag);
    assert_eq!(slot.take(), Ok((0xfeed, token)));
    let mut t = Teardown::new(None);
    assert_eq!(t.advance(Outcome::Close), Step::MarkDeleted);
    assert_eq!(mark_deleted(&mut shared), Ok(()));
    assert_eq!(t.advance(Outcome::Marked), Step::Disarm);
    let bound = match t.advance(Outcome::Disarmed(true)) {
        Step::WaitIdle(b) => b,
        other => panic!("unexpected step {:?}", other),
    };
    assert_eq!(t.advance(wait_idle(&shared, bound)), Step::Release);
    assert_eq!(reg.remove(token), Some(Dispatch::QuickWorker));
    assert_eq!(reg.len(), 0);
    slot = HandoffSlot::new();
    assert_eq!(slot.publish_created(Err(native_timer::TimerError::SynchronizationBroken), token),
        Err(native_timer::TimerError::SynchronizationBroken));
}

#[test]
fn failed_creation_leaves_no_cell_registered() {
    let mut reg: TokenRegistry<Dispatch> = TokenRegistry::new();
    let kept = reg.register(Dispatch::QuickWorker).unwrap();
    let failed = reg.register(Dispatch::DedicatedThread).unwrap();
    let err = native_timer::TimerError::OsError(22, "Invalid argument".to_string());
    assert_eq!(reg.settle(failed, Err(err.clone())), Err(err));
    assert!(!reg.contains(failed));
    assert_eq!(reg.settle(kept, Ok(0x10)), Ok(0x10));
    assert!(reg.contains(kept));
    assert_eq!(reg.len(), 1);
}

#[test]
fn full_cell_refuses_entry_and_idle_cell_ignores_exit() {
    let mut full = CellState { body: Body::Repeatable, deleted: false, in_flight: u32::MAX };
    assert_eq!(full.try_enter(), None);
    assert_eq!(full.in_flight, u32::MAX);
    full.exit();
    assert_eq!(full.in_flight, u32::MAX - 1);
    assert_eq!(full.try_enter(), Some(Entry::Run));
    let mut idle = CellState::new(Body::OneShot);
    idle.exit();
    assert_eq!(idle, CellState::new(Body::OneShot));
    assert_eq!(idle.try_enter(), Some(Entry::RunOnce));
    idle.exit();
    assert_eq!(idle, CellState { body: Body::Empty, deleted: false, in_flight: 0 });
}

#[test]
fn teardown_gives_up_when_mark_fails() {
    let mut t = Teardown::new(None);
    assert_eq!(t.advance(Outcome::Close), Step::MarkDeleted);
    assert_eq!(t.advance(Outcome::MarkFailed), Step::Abandon);
    assert_eq!(t.phase, Phase::Broken);
    assert!(t.is_done());
    assert_eq!(t.advance(Outcome::Close), Step::Finished);
}
