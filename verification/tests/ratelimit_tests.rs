//! The debounced notifier's coalescing behaviour.

use homieflow::ratelimit::RateLimiter;

#[test]
fn burst_of_hundred_runs_exactly_twice() {
    let mut limiter = RateLimiter::new();
    let mut runs: u32 = 0;

    // The first signal of the burst: the idle task runs at once.
    limiter.execute();
    if limiter.wake() {
        runs += 1;
    }

    // The rest of the burst arrives while the action runs and its
    // period is slept out.
    for _ in 0..99 {
        limiter.execute();
        if limiter.wake() {
            runs += 1;
        }
    }

    // The period ends: the stored signal yields one more run, not 99.
    limiter.finish();
    if limiter.wake() {
        runs += 1;
    }

    // Nothing is left over after that run's period.
    limiter.finish();
    if limiter.wake() {
        runs += 1;
    }

    assert_eq!(runs, 2);
}

#[test]
fn single_signal_runs_once() {
    let mut limiter = RateLimiter::new();
    let mut runs: u32 = 0;
    limiter.execute();
    if limiter.wake() {
        runs += 1;
    }
    limiter.finish();
    if limiter.wake() {
        runs += 1;
    }
    assert_eq!(runs, 1);
}

#[test]
fn idle_wake_without_signal_does_nothing() {
    let mut limiter = RateLimiter::new();
    assert!(!limiter.wake());
    limiter.finish();
    assert!(!limiter.wake());
}

#[test]
fn disposal_stops_further_effects() {
    let mut limiter = RateLimiter::new();
    limiter.execute();
    assert!(limiter.wake());
    limiter.finish();
    limiter.dispose();
    limiter.execute();
    assert!(!limiter.wake());
    limiter.finish();
    assert!(!limiter.wake());
}
