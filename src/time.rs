use vstd::prelude::*;

verus! {

/// Nanoseconds in one second.
pub const NANOS_PER_SEC: u64 = 1_000_000_000;

/// Nanoseconds in one millisecond.
pub const NANOS_PER_MILLI: u64 = 1_000_000;

/// A span of time, counted in nanoseconds.
#[derive(Clone, Copy, Debug, PartialEq, Eq, Structural)]
pub struct TimeSpan {
    pub nanos: u64,
}

impl TimeSpan {
    /// The empty span.
    pub fn zero() -> (r: TimeSpan)
        ensures
            r.nanos == 0,
    {
        TimeSpan { nanos: 0 }
    }

    pub fn from_nanos(nanos: u64) -> (r: TimeSpan)
        ensures
            r.nanos == nanos,
    {
        TimeSpan { nanos }
    }

    pub fn from_millis(millis: u64) -> (r: TimeSpan)
        requires
            millis * NANOS_PER_MILLI <= u64::MAX,
        ensures
            r.nanos == millis * NANOS_PER_MILLI,
    {
        TimeSpan { nanos: millis * NANOS_PER_MILLI }
    }

    pub fn from_secs(secs: u64) -> (r: TimeSpan)
        requires
            secs * NANOS_PER_SEC <= u64::MAX,
        ensures
            r.nanos == secs * NANOS_PER_SEC,
    {
        TimeSpan { nanos: secs * NANOS_PER_SEC }
    }

    pub fn is_zero(&self) -> (r: bool)
        ensures
            r == (self.nanos == 0),
    {
        self.nanos == 0
    }
}

/// Whole seconds and the nanoseconds left over, as in a POSIX `timespec`.
#[derive(Clone, Copy, Debug, PartialEq, Eq, Structural)]
pub struct TimeSpec {
    pub secs: i64,
    pub nanos: i64,
}

/// The number of nanoseconds that a `TimeSpec` stands for.
pub open spec fn timespec_nanos(t: TimeSpec) -> int {
    t.secs * NANOS_PER_SEC + t.nanos
}

/// Splits a span into whole seconds and the nanoseconds below one second.
pub fn to_timespec(value: TimeSpan) -> (r: TimeSpec)
    ensures
        r.secs == value.nanos as int / NANOS_PER_SEC as int,
        r.nanos == value.nanos as int % NANOS_PER_SEC as int,
        0 <= r.nanos < NANOS_PER_SEC,
        timespec_nanos(r) == value.nanos,
{
    let secs = value.nanos / NANOS_PER_SEC;
    let pure_nanos = value.nanos - secs * NANOS_PER_SEC;
    assert(secs * NANOS_PER_SEC <= value.nanos) by (nonlinear_arith)
        requires secs == value.nanos as int / NANOS_PER_SEC as int;
    assert(pure_nanos == value.nanos as int % NANOS_PER_SEC as int) by (nonlinear_arith)
        requires secs == value.nanos as int / NANOS_PER_SEC as int, pure_nanos == value.nanos - secs * NANOS_PER_SEC;
    assert(secs <= u64::MAX / NANOS_PER_SEC);
    TimeSpec { secs: secs as i64, nanos: pure_nanos as i64 }
}

/// What arms a system timer: the first expiration after `value`, then one
/// every `interval`; a zero interval arms it once, a zero value disarms it.
#[derive(Clone, Copy, Debug, PartialEq, Eq, Structural)]
pub struct TimerSpec {
    pub value: TimeSpec,
    pub interval: TimeSpec,
}

impl TimerSpec {
    /// The specification of a timer due after `due` that repeats every
    /// `period` (a zero period: once).
    pub fn new(due: TimeSpan, period: TimeSpan) -> (r: TimerSpec)
        ensures
            timespec_nanos(r.value) == due.nanos,
            timespec_nanos(r.interval) == period.nanos,
            r.value == to_timespec_spec(due),
            r.interval == to_timespec_spec(period),
            r == timer_spec_of(due, period),
    {
        TimerSpec { value: to_timespec(due), interval: to_timespec(period) }
    }

    /// The specification that stops a timer: zero value and interval.
    pub fn disarmed() -> (r: TimerSpec)
        ensures
            r.value == (TimeSpec { secs: 0, nanos: 0 }),
            r.interval == (TimeSpec { secs: 0, nanos: 0 }),
    {
        TimerSpec { value: TimeSpec { secs: 0, nanos: 0 }, interval: TimeSpec { secs: 0, nanos: 0 } }
    }
}

/// `to_timespec` as a spec function.
pub open spec fn to_timespec_spec(value: TimeSpan) -> TimeSpec {
    TimeSpec {
        secs: (value.nanos as int / NANOS_PER_SEC as int) as i64,
        nanos: (value.nanos as int % NANOS_PER_SEC as int) as i64,
    }
}

/// How many times a timer due after `due` with period `period` has expired
/// once `elapsed` has passed since it was armed: none before `due`, one at
/// `due`, then one more at each further `period` (none for a zero period).
pub open spec fn expirations(due: nat, period: nat, elapsed: nat) -> nat {
    if elapsed < due {
        0
    } else if period == 0 {
        1
    } else {
        ((elapsed - due) as nat / period + 1) as nat
    }
}

/// The instant of the `k`-th expiration (counted from zero) of a timer due
/// after `due` with period `period`.
pub open spec fn expiration_instant(due: nat, period: nat, k: nat) -> nat {
    due + k * period
}

/// The number of expirations of a timer due after `due`, repeating every
/// `period`, within `elapsed` of arming it.
pub fn expirations_within(due: TimeSpan, period: TimeSpan, elapsed: TimeSpan) -> (r: u64)
    requires
        elapsed.nanos < u64::MAX,
    ensures
        r == expirations(due.nanos as nat, period.nanos as nat, elapsed.nanos as nat),
        r == armed_expirations(timer_spec_of(due, period), elapsed.nanos as nat),
{
    proof {
        lemma_timespec_round_trip(due);
        lemma_timespec_round_trip(period);
    }
    if elapsed.nanos < due.nanos {
        0
    } else if period.nanos == 0 {
        1
    } else {
        let since = elapsed.nanos - due.nanos;
        let whole = since / period.nanos;
        assert(whole <= since) by (nonlinear_arith)
            requires whole == since / period.nanos, period.nanos > 0;
        whole + 1
    }
}

/// A timer armed with a due time and a nonzero period first expires at the
/// due time and then once per period: nothing has expired before the due
/// time, consecutive expirations lie one period apart, and from the `k`-th
/// expiration until just before the next one exactly `k + 1` have happened.
pub proof fn lemma_periodic_expirations(due: nat, period: nat, k: nat, elapsed: nat)
    requires
        period > 0,
    ensures
        elapsed < due ==> expirations(due, period, elapsed) == 0,
        expiration_instant(due, period, 0) == due,
        expiration_instant(due, period, k + 1) == expiration_instant(due, period, k) + period,
        expiration_instant(due, period, k) <= elapsed < expiration_instant(due, period, k + 1)
            ==> expirations(due, period, elapsed) == k + 1,
{
    assert((k + 1) * period == k * period + period) by (nonlinear_arith);
    if expiration_instant(due, period, k) <= elapsed < expiration_instant(due, period, k + 1) {
        let since = (elapsed - due) as nat;
        assert(since / period == k) by (nonlinear_arith)
            requires k * period <= since, since < k * period + period, period > 0;
    }
}

/// A timer armed with a zero period expires once, at its due time, however
/// long it stays armed.
pub proof fn lemma_oneshot_expirations(due: nat, elapsed: nat)
    ensures
        expirations(due, 0, elapsed) == (if elapsed < due { 0nat } else { 1nat }),
{
}

/// What `TimerSpec::new` builds for a due time and a period.
pub open spec fn timer_spec_of(due: TimeSpan, period: TimeSpan) -> TimerSpec {
    TimerSpec { value: to_timespec_spec(due), interval: to_timespec_spec(period) }
}

/// How many times a system timer armed with `spec` has expired once
/// `elapsed` nanoseconds have passed since it was armed.
pub open spec fn armed_expirations(spec: TimerSpec, elapsed: nat) -> nat {
    expirations(timespec_nanos(spec.value) as nat, timespec_nanos(spec.interval) as nat, elapsed)
}

/// A span survives the split into seconds and nanoseconds.
proof fn lemma_timespec_round_trip(value: TimeSpan)
    ensures
        timespec_nanos(to_timespec_spec(value)) == value.nanos,
{
    let n = value.nanos as int;
    let q = n / NANOS_PER_SEC as int;
    let r = n % NANOS_PER_SEC as int;
    assert(q * NANOS_PER_SEC + r == n && 0 <= r < NANOS_PER_SEC && 0 <= q <= n) by (nonlinear_arith)
        requires q == n / NANOS_PER_SEC as int, r == n % NANOS_PER_SEC as int, n >= 0;
}

/// A timer armed with what the library hands the system for a due time and
/// a nonzero period first expires at the due time and then once per period:
/// nothing has expired before the due time, and from the `k`-th expiration
/// (at the due time plus `k` periods) until just before the next one,
/// exactly `k + 1` have happened.
pub proof fn lemma_armed_timer_schedule(due: TimeSpan, period: TimeSpan, k: nat, elapsed: nat)
    requires
        period.nanos > 0,
    ensures
        elapsed < due.nanos ==> armed_expirations(timer_spec_of(due, period), elapsed) == 0,
        due.nanos + k * period.nanos <= elapsed < due.nanos + (k + 1) * period.nanos
            ==> armed_expirations(timer_spec_of(due, period), elapsed) == k + 1,
{
    lemma_timespec_round_trip(due);
    lemma_timespec_round_trip(period);
    lemma_periodic_expirations(due.nanos as nat, period.nanos as nat, k, elapsed);
}

/// A timer armed with what the library hands the system for a due time and
/// a zero period expires once, at the due time, however long it stays armed.
pub proof fn lemma_armed_oneshot_schedule(due: TimeSpan, elapsed: nat)
    ensures
        armed_expirations(timer_spec_of(due, TimeSpan { nanos: 0 }), elapsed) == (if elapsed
            < due.nanos { 0nat } else { 1nat }),
{
    lemma_timespec_round_trip(due);
    lemma_timespec_round_trip(TimeSpan { nanos: 0 });
}

} // verus!
