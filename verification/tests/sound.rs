use awedio::sounds::Sawtooth;
use awedio::{NextSample, Sound, SoundExt};

#[test]
fn test_skip() {
    {
        let mut sound = Sawtooth::new(1, u16::MAX as u32);
        // 500 milliseconds
        sound.skip(500_000).unwrap();
        assert_eq!(sound.next_sample().unwrap(), NextSample::Sample(i16::MAX));
    }
    {
        let mut sound = Sawtooth::new(1, u16::MAX as u32);
        // 1000 milliseconds
        sound.skip(1_000_000).unwrap();
        assert_eq!(sound.next_sample().unwrap(), NextSample::Sample(-1));
    }
}

#[test]
fn next_frame_returns_one_sample_per_channel() {
    let mut sound = Sawtooth::new(3, 1000);
    assert_eq!(sound.next_frame().unwrap(), vec![0, 0, 0]);
    assert_eq!(sound.next_frame().unwrap(), vec![1, 1, 1]);
    let mut existing = vec![100];
    sound.append_next_frame_to(&mut existing).unwrap();
    assert_eq!(existing, vec![100, 2, 2, 2]);
}
