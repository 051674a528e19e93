use awedio::sounds::wrappers::linear_interpolation;
use awedio::sounds::Silence;
use awedio::{NextSample, Sound};

#[test]
fn silence_reports_its_format_and_yields_zeros() {
    let mut silence = Silence::new(2, 44100);
    assert_eq!(silence.channel_count(), 2);
    assert_eq!(silence.sample_rate(), 44100);
    for _ in 0..5 {
        assert_eq!(silence.next_sample().unwrap(), NextSample::Sample(0));
    }
}

#[test]
fn linear_interpolation_moves_between_the_samples() {
    assert_eq!(linear_interpolation(0, 100, 0, 4), 0);
    assert_eq!(linear_interpolation(0, 100, 1, 4), 25);
    assert_eq!(linear_interpolation(0, 100, 3, 4), 75);
    assert_eq!(linear_interpolation(0, 100, 4, 4), 100);
    // Truncates toward zero in both directions.
    assert_eq!(linear_interpolation(0, 5, 1, 3), 1);
    assert_eq!(linear_interpolation(0, -5, 1, 3), -1);
    assert_eq!(linear_interpolation(-100, 100, 1, 2), 0);
}
