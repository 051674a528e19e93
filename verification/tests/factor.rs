use awedio::Factor;

#[test]
fn factor_scales_samples_with_truncation_toward_zero() {
    let half = Factor::new(1, 2);
    assert_eq!(half.apply_to_sample(1000), 500);
    assert_eq!(half.apply_to_sample(3), 1);
    assert_eq!(half.apply_to_sample(-3), -1);
    assert_eq!(half.apply_to_sample(0), 0);
    let third = Factor::new(1, 3);
    assert_eq!(third.apply_to_sample(100), 33);
    assert_eq!(third.apply_to_sample(-100), -33);
}

#[test]
fn factor_saturates_samples() {
    let big = Factor::new(i32::MAX, 1);
    assert_eq!(big.apply_to_sample(2), i16::MAX);
    assert_eq!(big.apply_to_sample(-2), i16::MIN);
    assert_eq!(big.apply_to_sample(0), 0);
}

#[test]
fn factor_scales_rates_with_rounding_and_clamping() {
    assert_eq!(Factor::new(1, 2).apply_to_rate(44100), 22050);
    // Rounds to the nearest whole rate.
    assert_eq!(Factor::new(1, 3).apply_to_rate(100), 33);
    assert_eq!(Factor::new(2, 3).apply_to_rate(100), 67);
    // Never reports a rate of zero.
    assert_eq!(Factor::new(1, 1_000_000).apply_to_rate(3), 1);
    assert_eq!(Factor::new(0, 1).apply_to_rate(44100), 1);
    assert_eq!(Factor::new(-5, 1).apply_to_rate(44100), 1);
    // Saturates at the largest representable rate.
    assert_eq!(Factor::new(i32::MAX, 1).apply_to_rate(u32::MAX), u32::MAX);
}
