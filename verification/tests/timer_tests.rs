use reactor_trait::timer::{IntervalTimer, SleepTimer};

#[test]
fn sleep_never_elapses_early() {
    let t = SleepTimer::after(100, 50);
    assert!(!t.poll(100));
    assert!(!t.poll(149));
    assert!(t.poll(150));
    assert!(t.poll(10_000));
}

#[test]
fn sleep_of_zero_elapses_at_once() {
    let t = SleepTimer::after(7, 0);
    assert!(t.poll(7));
    assert!(!t.poll(6));
}

#[test]
fn interval_first_tick_comes_one_period_after_start() {
    let mut t = IntervalTimer::new(0, 10);
    assert_eq!(t.poll(0), None);
    assert_eq!(t.poll(9), None);
    assert_eq!(t.poll(10), Some(10));
    assert_eq!(t.poll(10), None);
}

#[test]
fn interval_nth_tick_never_fires_before_n_periods() {
    let mut t = IntervalTimer::new(100, 10);
    let mut delivered: u64 = 0;
    // Poll at a mix of clock values, some far apart (queuing missed
    // boundaries), some too early.
    for now in [105, 110, 111, 112, 150, 151, 152, 153, 154] {
        if let Some(tick) = t.poll(now) {
            delivered += 1;
            // The n-th tick carries the n-th boundary and never fires
            // before it.
            assert_eq!(tick, 100 + delivered * 10);
            assert!(now >= tick);
        }
    }
    assert_eq!(delivered, 5);
}

#[test]
fn interval_queues_missed_ticks_in_order() {
    let mut t = IntervalTimer::new(0, 5);
    assert_eq!(t.poll(23), Some(5));
    assert_eq!(t.poll(23), Some(10));
    assert_eq!(t.poll(23), Some(15));
    assert_eq!(t.poll(23), Some(20));
    assert_eq!(t.poll(23), None);
}

#[test]
fn interval_stops_at_the_end_of_the_clock_scale() {
    let mut t = IntervalTimer::new(u64::MAX - 7, 5);
    assert_eq!(t.poll(u64::MAX), Some(u64::MAX - 2));
    // The next boundary lies beyond the clock scale: no further tick.
    assert_eq!(t.poll(u64::MAX), None);
}
