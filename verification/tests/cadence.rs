use railroad_runners::cadence::{
    effective_elapsed_millis, sleep_millis, BASE_ELAPSED_MILLIS, LOG_SCALE, MAX_SLEEP_MILLIS,
    SCALED_MULTIPLIER,
};

#[test]
fn clamp_pins_early_elapsed_times() {
    assert_eq!(effective_elapsed_millis(0), BASE_ELAPSED_MILLIS);
    assert_eq!(effective_elapsed_millis(1), BASE_ELAPSED_MILLIS);
    assert_eq!(effective_elapsed_millis(9_999), BASE_ELAPSED_MILLIS);
    assert_eq!(effective_elapsed_millis(10_000), BASE_ELAPSED_MILLIS);
}

#[test]
fn clamp_is_identity_after_base() {
    assert_eq!(effective_elapsed_millis(10_001), 10_001);
    assert_eq!(effective_elapsed_millis(3_600_000), 3_600_000);
    assert_eq!(effective_elapsed_millis(u64::MAX), u64::MAX);
}

#[test]
fn cadence_is_one_second_at_or_below_base() {
    // At any elapsed time up to the base, the clamp makes the log factor
    // exactly 1.0 (scaled: LOG_SCALE) and the sleep exactly one second.
    assert_eq!(sleep_millis(LOG_SCALE), MAX_SLEEP_MILLIS);
}

#[test]
fn cadence_at_one_hundred_seconds() {
    // elapsed = 100 s: log10(100) = 2.0, so sleep = min(1.0, 1.2 / 2) = 0.6 s.
    assert_eq!(sleep_millis(2_000), 600);
}

#[test]
fn cadence_at_ten_thousand_seconds() {
    // elapsed = 10000 s: log10 = 4.0, so sleep = min(1.0, 1.2 / 4) = 0.3 s.
    assert_eq!(sleep_millis(4_000), 300);
}

#[test]
fn sleep_is_clamped_to_one_second_for_small_log_factors() {
    // 1.2 / 1.0 = 1.2 would exceed the clamp.
    assert_eq!(sleep_millis(1_000), 1_000);
    assert_eq!(sleep_millis(1_100), 1_000);
    assert_eq!(sleep_millis(500), 1_000);
    assert_eq!(sleep_millis(0), 1_000);
}

#[test]
fn sleep_stays_positive_up_to_the_multiplier() {
    assert_eq!(sleep_millis(SCALED_MULTIPLIER), 1);
    assert!(sleep_millis(17_000) > 0);
}

#[test]
fn sleep_is_monotonically_nonincreasing() {
    let factors: [u64; 7] = [1_000, 1_200, 2_000, 3_000, 4_000, 10_000, 17_000];
    let mut previous = u64::MAX;
    for lf in factors {
        let s = sleep_millis(lf);
        assert!(s <= previous, "sleep went up at log factor {lf}");
        assert!(0 < s && s <= MAX_SLEEP_MILLIS);
        previous = s;
    }
}
