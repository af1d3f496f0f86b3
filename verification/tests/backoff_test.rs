use std::time::Duration;

use gdom::backoff::{backoff_delay, backoff_delay_secs, jitter_from_clock, JitterSource, SystemJitter, MAX_BACKOFF_SECS};

#[test]
fn backoff_follows_plan_formula_and_caps_at_64s() {
    assert_eq!(backoff_delay(0, 0), Duration::from_secs(1));
    assert_eq!(backoff_delay(1, 0), Duration::from_secs(2));
    assert_eq!(backoff_delay(2, 1), Duration::from_secs(5));
    assert_eq!(backoff_delay(6, 0), Duration::from_secs(64));
    assert_eq!(backoff_delay(7, 9), Duration::from_secs(64));
}

#[test]
fn backoff_never_exceeds_the_cap() {
    for attempt in 0..40 {
        assert!(backoff_delay_secs(attempt, 1_000) <= MAX_BACKOFF_SECS);
    }
    assert_eq!(backoff_delay_secs(u32::MAX, u64::MAX), MAX_BACKOFF_SECS);
}

#[test]
fn clock_jitter_is_the_parity_of_the_nanoseconds() {
    assert_eq!(jitter_from_clock(Some(7)), 1);
    assert_eq!(jitter_from_clock(Some(8)), 0);
    assert_eq!(jitter_from_clock(None), 0);
    assert!(SystemJitter.jitter_secs() <= 1);
}
