use slashmem::confidence::{
    confidence_base, elapsed_seconds, is_anti_pattern, last_validated_instant,
};

#[test]
fn zero_counts_give_zero_base() {
    assert_eq!(confidence_base(0, 0), 0);
}

#[test]
fn base_weights_failures_four_times() {
    assert_eq!(confidence_base(10, 1), 6);
    assert_eq!(confidence_base(1, 2), -7);
    assert_eq!(confidence_base(0, 1), -4);
    assert_eq!(confidence_base(5, 1), confidence_base(1, 0));
    assert_eq!(confidence_base(u32::MAX, 0), u32::MAX as i64);
    assert_eq!(confidence_base(0, u32::MAX), -4 * (u32::MAX as i64));
}

#[test]
fn future_last_validated_clamps_to_zero_elapsed() {
    // 2026-06-01 validated, "now" 2026-01-01
    assert_eq!(elapsed_seconds(1_780_272_000, 0, 1_767_225_600, 0), 0);
    assert_eq!(elapsed_seconds(100, 0, 100, 0), 0);
}

#[test]
fn elapsed_is_difference_when_in_past() {
    // 2026-01-01 to 2026-04-01 is 90 days
    assert_eq!(elapsed_seconds(1_767_225_600, 0, 1_775_001_600, 0), 90 * 86_400);
    assert_eq!(elapsed_seconds(i64::MIN, 0, i64::MAX, 0), u64::MAX);
}

#[test]
fn anti_pattern_threshold_is_three_failures() {
    assert!(!is_anti_pattern(0));
    assert!(!is_anti_pattern(2));
    assert!(is_anti_pattern(3));
    assert!(is_anti_pattern(4));
}

#[test]
fn last_validated_parses_both_forms() {
    let now = 1_800_000_000;
    assert_eq!(last_validated_instant(None, now, 0).0, now);
    assert_eq!(last_validated_instant(Some("2025-07-01 00:00:00"), now, 0).0, 1_751_328_000);
    assert_eq!(last_validated_instant(Some("2025-07-01T00:00:00Z"), now, 0).0, 1_751_328_000);
    assert_eq!(last_validated_instant(Some("2025-07-01T02:00:00+02:00"), now, 0).0, 1_751_328_000);
    assert_eq!(last_validated_instant(Some("not a date"), now, 0).0, now);
}

#[test]
fn elapsed_drops_fractions_of_a_second() {
    // half a second apart: no whole second has elapsed
    assert_eq!(elapsed_seconds(10, 500_000_000, 11, 0), 0);
    // one and a half seconds apart
    assert_eq!(elapsed_seconds(10, 0, 11, 500_000_000), 1);
    // 1.9 seconds: still one whole second
    assert_eq!(elapsed_seconds(10, 100_000_000, 12, 0), 1);
    // a validation a fraction of a second in the future
    assert_eq!(elapsed_seconds(10, 200_000_000, 10, 100_000_000), 0);
}

#[test]
fn last_validated_keeps_fractional_seconds() {
    assert_eq!(last_validated_instant(Some("2025-07-01T00:00:00.250Z"), 0, 0), (1_751_328_000, 250_000_000));
    assert_eq!(last_validated_instant(None, 7, 9), (7, 9));
}
