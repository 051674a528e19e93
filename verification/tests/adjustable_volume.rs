use awedio::sounds::wrappers::SetVolume;
use awedio::sounds::ConstantValueSound;
use awedio::{Factor, NextSample, Sound, SoundExt};

#[test]
fn adjustable_volume_adjust_down() {
    let mut first = ConstantValueSound::new(1000).with_adjustable_volume();
    first.set_volume(Factor::new(1, 2));
    assert_eq!(first.next_sample().unwrap(), NextSample::Sample(500));
}

#[test]
fn adjustable_volume_adjust_up() {
    let mut first = ConstantValueSound::new(1000).with_adjustable_volume();
    first.set_volume(Factor::new(5, 1));
    assert_eq!(first.next_sample().unwrap(), NextSample::Sample(5000));
}

#[test]
fn test_saturation() {
    let mut first = ConstantValueSound::new(1000).with_adjustable_volume();
    first.set_volume(Factor::new(1000, 1));
    assert_eq!(first.next_sample().unwrap(), NextSample::Sample(i16::MAX));
}

#[test]
fn negative_volume_inverts_and_saturates() {
    let mut first = ConstantValueSound::new(1000).with_adjustable_volume();
    first.set_volume(Factor::new(-1, 2));
    assert_eq!(first.next_sample().unwrap(), NextSample::Sample(-500));
    first.set_volume(Factor::new(-1000, 1));
    assert_eq!(first.next_sample().unwrap(), NextSample::Sample(i16::MIN));
}
