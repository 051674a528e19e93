use awedio::sounds::{MemorySound, RepeatGenerator, SequenceGenerator, SoundsFromFn};
use awedio::{NextSample, Sound};
use std::sync::Arc;

#[test]
fn basic() {
    let template = MemorySound::from_samples(Arc::new(vec![1, 2]), 2, 1000);
    let generator = RepeatGenerator::new(template);
    let mut from_fn = SoundsFromFn::new(generator);
    assert_eq!(from_fn.channel_count(), 2);
    assert_eq!(from_fn.sample_rate(), 1000);
    assert_eq!(from_fn.next_sample().unwrap(), NextSample::Sample(1));
    assert_eq!(from_fn.next_sample().unwrap(), NextSample::Sample(2));
    assert_eq!(from_fn.next_sample().unwrap(), NextSample::Sample(1));
    assert_eq!(from_fn.next_sample().unwrap(), NextSample::Sample(2));
}

#[test]
fn changing_metadata_and_finishing() {
    let sounds = vec![
        MemorySound::from_samples(Arc::new(vec![1, 2]), 2, 1001),
        MemorySound::from_samples(Arc::new(vec![1, 2]), 2, 1002),
    ];
    let generator = SequenceGenerator::new(sounds);
    let mut from_fn = SoundsFromFn::new(generator);
    assert_eq!(from_fn.channel_count(), 2);
    assert_eq!(from_fn.sample_rate(), 1001);
    assert_eq!(from_fn.next_sample().unwrap(), NextSample::Sample(1));
    assert_eq!(from_fn.next_sample().unwrap(), NextSample::Sample(2));
    assert_eq!(from_fn.next_sample().unwrap(), NextSample::MetadataChanged);
    assert_eq!(from_fn.sample_rate(), 1002);
    assert_eq!(from_fn.next_sample().unwrap(), NextSample::Sample(1));
    assert_eq!(from_fn.next_sample().unwrap(), NextSample::Sample(2));
    assert_eq!(from_fn.next_sample().unwrap(), NextSample::Finished);
    assert_eq!(from_fn.next_sample().unwrap(), NextSample::Finished);
    assert!(
        from_fn.generator.calls() == 3,
        "should not have been called again"
    );
}
