use awedio::sounds::wrappers::{ChannelCountConverter, Wrapper};
use awedio::sounds::ConstantValueSound;
use awedio::{NextSample, Sound};

#[test]
fn mono_to_stereo_duplicates_each_sample() {
    let mut mono = ConstantValueSound::new(17);
    mono.set_channel_count(1);
    let mut converted = ChannelCountConverter::new(mono, 2);
    assert_eq!(converted.channel_count(), 2);
    assert_eq!(converted.next_sample().unwrap(), NextSample::MetadataChanged);
    assert_eq!(converted.next_sample().unwrap(), NextSample::Sample(17));
    assert_eq!(converted.next_sample().unwrap(), NextSample::Sample(17));
}

#[test]
fn mono_round_trip_reproduces_the_stream() {
    for value in [-32768, -3, 0, 5, 1000, 32767] {
        let mut mono = ConstantValueSound::new(value);
        mono.set_channel_count(1);
        let stereo = ChannelCountConverter::new(mono, 2);
        let mut back = ChannelCountConverter::new(stereo, 1);
        assert_eq!(back.channel_count(), 1);
        assert_eq!(back.next_sample().unwrap(), NextSample::MetadataChanged);
        for _ in 0..4 {
            assert_eq!(back.next_sample().unwrap(), NextSample::Sample(value));
        }
    }
}

#[test]
fn stereo_to_mono_averages_with_truncation() {
    let mut sound = ConstantValueSound::new(-3);
    let mut converted = ChannelCountConverter::new(sound, 1);
    assert_eq!(converted.channel_count(), 1);
    // (-3 + -3) / 2 == -3 exactly; truncation is toward zero.
    assert_eq!(converted.next_sample().unwrap(), NextSample::Sample(-3));
    sound = converted.into_inner();
    assert_eq!(sound.channel_count(), 2);
}

#[test]
fn unsupported_runtime_change_is_a_format_error() {
    let mut sound = ConstantValueSound::new(4);
    let mut converted = ChannelCountConverter::new(sound, 2);
    assert_eq!(converted.next_sample().unwrap(), NextSample::Sample(4));
    converted.inner_mut().set_channel_count(5);
    let result = converted.next_sample();
    match result {
        Err(e) => assert!(!e.is_io_error()),
        Ok(_) => panic!("a five-channel sound cannot be converted to stereo"),
    }
}
