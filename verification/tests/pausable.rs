use awedio::sounds::wrappers::{Controllable, SetPaused};
use awedio::sounds::ConstantValueSound;
use awedio::{NextSample, Sound, SoundExt};

#[test]
fn set_paused_and_unpause() {
    let mut first = ConstantValueSound::new(1000).pausable();
    // starts unpaused
    assert_eq!(first.next_sample().unwrap(), NextSample::Sample(1000));
    first.set_paused(true);
    assert_eq!(first.next_sample().unwrap(), NextSample::Paused);
    first.set_paused(false);
    assert_eq!(first.next_sample().unwrap(), NextSample::Sample(1000));
}

#[test]
fn paused_starts_paused_and_exposes_the_inner_sound() {
    let mut first = ConstantValueSound::new(42).paused();
    assert!(first.paused);
    assert_eq!(first.next_sample().unwrap(), NextSample::Paused);
    first.set_paused(false);
    assert_eq!(first.next_sample().unwrap(), NextSample::Sample(42));
    assert_eq!(first.inner().value, 42);
    let inner = first.into_inner();
    assert_eq!(inner.value, 42);
}

#[test]
fn pausable_can_be_paused_remotely() {
    let (mut controllable, mut controller) =
        Controllable::new(ConstantValueSound::new(8).pausable());
    assert_eq!(controllable.next_sample().unwrap(), NextSample::Sample(8));
    controller.set_paused(true);
    controllable.on_start_of_batch();
    assert_eq!(controllable.next_sample().unwrap(), NextSample::Paused);
    controller.set_paused(false);
    controllable.on_start_of_batch();
    assert_eq!(controllable.next_sample().unwrap(), NextSample::Sample(8));
}
