use awedio::sounds::wrappers::{AddSound, Controllable};
use awedio::sounds::{ConstantValueSound, SoundMixer};
use awedio::{NextSample, Sound};

const DEFAULT_CHANNEL_COUNT: u16 = 2;
const DEFAULT_SAMPLE_RATE: u32 = 44100;

#[test]
fn additional_silent_sounds_do_not_affect_first() {
    let first = ConstantValueSound::new(5);
    let second = ConstantValueSound::new(0);
    let mut mixer = SoundMixer::new(DEFAULT_CHANNEL_COUNT, DEFAULT_SAMPLE_RATE);
    mixer.add(first);
    mixer.add(second);
    assert_eq!(mixer.next_sample().unwrap(), NextSample::Sample(5));
    assert_eq!(mixer.next_sample().unwrap(), NextSample::Sample(5));
    assert_eq!(mixer.next_sample().unwrap(), NextSample::Sample(5));
    let third = ConstantValueSound::new(0);
    mixer.add(third);
    assert_eq!(mixer.next_sample().unwrap(), NextSample::Sample(5));
    assert_eq!(mixer.next_sample().unwrap(), NextSample::Sample(5));
    assert_eq!(mixer.next_sample().unwrap(), NextSample::Sample(5));
}

#[test]
fn two_sounds_add_together() {
    let first = ConstantValueSound::new(5);
    let second = ConstantValueSound::new(7);
    let mut mixer = SoundMixer::new(DEFAULT_CHANNEL_COUNT, DEFAULT_SAMPLE_RATE);
    mixer.add(first);
    mixer.add(second);
    assert_eq!(mixer.next_sample().unwrap(), NextSample::Sample(12));
    assert_eq!(mixer.next_sample().unwrap(), NextSample::Sample(12));
    assert_eq!(mixer.next_sample().unwrap(), NextSample::Sample(12));
}

#[test]
fn mixing_order_does_not_matter() {
    let mut forward = SoundMixer::new(DEFAULT_CHANNEL_COUNT, DEFAULT_SAMPLE_RATE);
    forward.add(ConstantValueSound::new(30_000));
    forward.add(ConstantValueSound::new(10_000));
    let mut backward = SoundMixer::new(DEFAULT_CHANNEL_COUNT, DEFAULT_SAMPLE_RATE);
    backward.add(ConstantValueSound::new(10_000));
    backward.add(ConstantValueSound::new(30_000));
    // Both saturate to the same value regardless of insertion order.
    assert_eq!(forward.next_sample().unwrap(), NextSample::Sample(i16::MAX));
    assert_eq!(backward.next_sample().unwrap(), NextSample::Sample(i16::MAX));
}

#[test]
fn empty_mixer_finishes_forever() {
    let mut mixer: SoundMixer<ConstantValueSound> =
        SoundMixer::new(DEFAULT_CHANNEL_COUNT, DEFAULT_SAMPLE_RATE);
    for _ in 0..5 {
        assert_eq!(mixer.next_sample().unwrap(), NextSample::Finished);
    }
}

#[test]
fn controllable_empty_mixer_pauses_until_controllers_are_gone() {
    let mixer: SoundMixer<ConstantValueSound> =
        SoundMixer::new(DEFAULT_CHANNEL_COUNT, DEFAULT_SAMPLE_RATE);
    let (mut controllable, controller) = Controllable::new(mixer);
    for _ in 0..3 {
        assert_eq!(controllable.next_sample().unwrap(), NextSample::Paused);
    }
    drop(controller);
    controllable.on_start_of_batch();
    assert_eq!(controllable.next_sample().unwrap(), NextSample::Finished);
}

#[test]
fn added_sound_is_audible_within_the_same_batch() {
    let mixer: SoundMixer<ConstantValueSound> =
        SoundMixer::new(DEFAULT_CHANNEL_COUNT, DEFAULT_SAMPLE_RATE);
    let (mut controllable, mut controller) = Controllable::new(mixer);
    assert_eq!(controllable.next_sample().unwrap(), NextSample::Paused);
    controller.add(ConstantValueSound::new(9));
    // Not yet applied: commands only run at a batch start, never mid-frame.
    assert_eq!(controllable.next_sample().unwrap(), NextSample::Paused);
    controllable.on_start_of_batch();
    assert_eq!(controllable.next_sample().unwrap(), NextSample::Sample(9));
}
