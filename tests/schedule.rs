use native_timer::{expirations_within, to_timespec, TimeSpan, TimeSpec, TimerSpec, NANOS_PER_SEC};

fn ms(v: u64) -> TimeSpan {
    TimeSpan::from_millis(v)
}

#[test]
fn spans_count_nanoseconds() {
    assert_eq!(ms(400).nanos, 400_000_000);
    assert_eq!(TimeSpan::from_secs(2).nanos, 2 * NANOS_PER_SEC);
    assert_eq!(TimeSpan::from_nanos(17).nanos, 17);
    assert!(TimeSpan::zero().is_zero());
    assert!(!ms(1).is_zero());
}

#[test]
fn timespec_splits_seconds_and_nanoseconds() {
    assert_eq!(to_timespec(TimeSpan::from_nanos(1_500_000_000)), TimeSpec { secs: 1, nanos: 500_000_000 });
    assert_eq!(to_timespec(TimeSpan::zero()), TimeSpec { secs: 0, nanos: 0 });
    assert_eq!(to_timespec(TimeSpan::from_nanos(999_999_999)), TimeSpec { secs: 0, nanos: 999_999_999 });
    assert_eq!(to_timespec(TimeSpan::from_secs(3)), TimeSpec { secs: 3, nanos: 0 });
    assert_eq!(
        to_timespec(TimeSpan::from_nanos(u64::MAX)),
        TimeSpec { secs: 18_446_744_073, nanos: 709_551_615 }
    );
}

#[test]
fn timer_spec_carries_due_and_period() {
    let once = TimerSpec::new(ms(400), TimeSpan::zero());
    assert_eq!(once.value, TimeSpec { secs: 0, nanos: 400_000_000 });
    assert_eq!(once.interval, TimeSpec { secs: 0, nanos: 0 });
    let periodic = TimerSpec::new(ms(2300), ms(300));
    assert_eq!(periodic.value, TimeSpec { secs: 2, nanos: 300_000_000 });
    assert_eq!(periodic.interval, TimeSpec { secs: 0, nanos: 300_000_000 });
    let off = TimerSpec::disarmed();
    assert_eq!(off.value, TimeSpec { secs: 0, nanos: 0 });
    assert_eq!(off.interval, TimeSpec { secs: 0, nanos: 0 });
}

#[test]
fn periodic_expirations_land_one_period_apart() {
    let (due, period) = (ms(250), ms(100));
    assert_eq!(expirations_within(due, period, ms(249)), 0);
    assert_eq!(expirations_within(due, period, ms(250)), 1);
    assert_eq!(expirations_within(due, period, ms(349)), 1);
    assert_eq!(expirations_within(due, period, ms(350)), 2);
    assert_eq!(expirations_within(due, period, ms(450)), 3);
    assert_eq!(expirations_within(due, period, ms(549)), 3);
}

#[test]
fn interval_of_200ms_within_500ms_expires_twice() {
    assert_eq!(expirations_within(ms(200), ms(200), ms(500)), 2);
}

#[test]
fn oneshot_due_400ms_within_1s_expires_once() {
    assert_eq!(expirations_within(ms(400), TimeSpan::zero(), ms(1000)), 1);
    assert_eq!(expirations_within(ms(400), TimeSpan::zero(), ms(60_000)), 1);
    assert_eq!(expirations_within(ms(400), TimeSpan::zero(), ms(399)), 0);
}

#[test]
fn period_of_300ms_within_1s_expires_three_times() {
    assert_eq!(expirations_within(ms(300), ms(300), ms(1000)), 3);
}

#[test]
fn zero_due_expires_at_once() {
    assert_eq!(expirations_within(TimeSpan::zero(), ms(10), TimeSpan::zero()), 1);
    assert_eq!(expirations_within(TimeSpan::zero(), TimeSpan::from_nanos(1), TimeSpan::from_nanos(u64::MAX - 1)), u64::MAX);
}
