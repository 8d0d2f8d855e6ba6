use onise::rate_limiter::{Admission, RateLimiter};

#[test]
fn burst_exhaustion_then_wait_one_refill_interval() {
    // rate 2/s, burst 3: capacity 5 tokens, full at construction.
    let mut rl = RateLimiter::new(2, 3);
    let t0: u64 = 1_000_000_000;
    for _ in 0..5 {
        assert_eq!(rl.try_acquire(t0), Admission::Granted);
    }
    // the bucket is empty: the next call at the same instant must wait
    // exactly one refill interval (half a second at 2 tokens per second)
    assert_eq!(rl.try_acquire(t0), Admission::Wait(500_000));
    // before the interval has elapsed, still refused
    assert!(matches!(rl.try_acquire(t0 + 499_999), Admission::Wait(_)));
    // once one token has accrued, granted
    assert_eq!(rl.try_acquire(t0 + 500_000), Admission::Granted);
}

#[test]
fn refill_is_capped_at_capacity() {
    let mut rl = RateLimiter::new(1, 1);
    let t0: u64 = 0;
    assert_eq!(rl.try_acquire(t0), Admission::Granted);
    assert_eq!(rl.try_acquire(t0), Admission::Granted);
    // a very long pause refills to the ceiling, not beyond: 2 grants, not more
    let later = 3_600_000_000;
    assert_eq!(rl.try_acquire(later), Admission::Granted);
    assert_eq!(rl.try_acquire(later), Admission::Granted);
    assert_eq!(rl.try_acquire(later), Admission::Wait(1_000_000));
}

#[test]
fn clock_going_backwards_adds_nothing() {
    let mut rl = RateLimiter::new(1, 0);
    let t0: u64 = 10_000_000;
    assert_eq!(rl.try_acquire(t0), Admission::Granted);
    // an earlier clock reading must not refill the bucket
    assert!(matches!(rl.try_acquire(t0 - 5_000_000), Admission::Wait(_)));
}

#[test]
fn steady_rate_spacing() {
    let mut rl = RateLimiter::new(10, 0);
    let t0: u64 = 0;
    for _ in 0..10 {
        assert_eq!(rl.try_acquire(t0), Admission::Granted);
    }
    assert_eq!(rl.try_acquire(t0), Admission::Wait(100_000));
    assert_eq!(rl.try_acquire(t0 + 100_000), Admission::Granted);
    assert_eq!(rl.try_acquire(t0 + 100_000), Admission::Wait(100_000));
}
