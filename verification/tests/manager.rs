use awedio::manager::{BackendSource, Manager};
use awedio::sounds::{ConstantValueSound, MemorySound};
use awedio::{NextSample, Sound, SoundExt};
use std::sync::Arc;

#[test]
fn manager_plays_sounds_on_its_renderer() {
    let (mut manager, mut renderer) = Manager::<ConstantValueSound>::new();
    renderer.set_output_channel_count_and_sample_rate(2, 44100);
    renderer.on_start_of_batch();
    assert_eq!(renderer.next_sample().unwrap(), NextSample::MetadataChanged);
    assert_eq!(renderer.channel_count(), 2);
    assert_eq!(renderer.sample_rate(), 44100);
    // Nothing playing yet, but the manager may still add sounds.
    assert_eq!(renderer.next_sample().unwrap(), NextSample::Paused);
    manager.play(ConstantValueSound::new(123));
    renderer.on_start_of_batch();
    assert_eq!(renderer.next_sample().unwrap(), NextSample::Sample(123));
    assert_eq!(renderer.next_sample().unwrap(), NextSample::Sample(123));
    manager.clear();
    renderer.on_start_of_batch();
    assert_eq!(renderer.next_sample().unwrap(), NextSample::Paused);
}

#[test]
fn completion_notifier_fires_exactly_once_on_finish() {
    let sound = MemorySound::from_samples(Arc::new(vec![7]), 1, 1000);
    let (mut notifying, receiver) = sound.with_completion_notifier();
    assert_eq!(notifying.next_sample().unwrap(), NextSample::Sample(7));
    assert!(receiver.try_recv().is_err());
    assert_eq!(notifying.next_sample().unwrap(), NextSample::Finished);
    assert!(receiver.try_recv().is_ok());
    assert_eq!(notifying.next_sample().unwrap(), NextSample::Finished);
    // Only one signal is ever sent.
    assert!(receiver.try_recv().is_err());
}
