use awedio::sounds::wrappers::SetSpeed;
use awedio::sounds::ConstantValueSound;
use awedio::{Factor, NextSample, Sound, SoundExt};

#[test]
fn adjustable_speed_adjust_down() {
    let mut first = ConstantValueSound::new(1000).with_adjustable_speed_of(Factor::new(1, 2));
    assert_eq!(first.next_sample().unwrap(), NextSample::Sample(1000));
    assert_eq!(first.sample_rate(), 22050)
}

#[test]
fn adjustable_speed_adjust_up() {
    let mut first = ConstantValueSound::new(1000).with_adjustable_speed_of(Factor::new(5, 1));
    assert_eq!(first.next_sample().unwrap(), NextSample::Sample(1000));
    assert_eq!(first.sample_rate(), 44100 * 5)
}

#[test]
fn test_real_fast() {
    let mut first = ConstantValueSound::new(1000).with_adjustable_speed_of(Factor::new(1000, 1));
    assert_eq!(first.next_sample().unwrap(), NextSample::Sample(1000));
    assert_eq!(first.sample_rate(), 44100 * 1000)
}

#[test]
fn test_max_saturation() {
    let mut first =
        ConstantValueSound::new(1000).with_adjustable_speed_of(Factor::new(1_000_000, 1));
    assert_eq!(first.next_sample().unwrap(), NextSample::Sample(1000));
    assert_eq!(first.sample_rate(), u32::MAX)
}

#[test]
fn test_min_saturation() {
    let mut first = ConstantValueSound::new(1000).with_adjustable_speed();
    first.set_speed(Factor::new(1, 10_000_000_000));
    assert_eq!(first.sample_rate(), 1);
    assert_eq!(first.next_sample().unwrap(), NextSample::MetadataChanged);
    assert_eq!(first.next_sample().unwrap(), NextSample::Sample(1000));
}

#[test]
fn metadata_changed_notification() {
    let mut first = ConstantValueSound::new(1000).with_adjustable_speed();
    assert_eq!(first.sample_rate(), 44100);
    assert_eq!(first.next_sample().unwrap(), NextSample::Sample(1000));
    first.set_speed(Factor::new(1, 2));
    assert_eq!(first.sample_rate(), 22050);
    assert_eq!(first.next_sample().unwrap(), NextSample::MetadataChanged);
    assert_eq!(first.next_sample().unwrap(), NextSample::Sample(1000));
}
