use awedio::sounds::{MemorySound, SoundList};
use awedio::{NextSample, Sound};
use std::sync::Arc;

#[test]
fn empty_gives_metadata_changed_on_next() {
    let mut list = SoundList::new();
    assert_eq!(list.next_sample().unwrap(), NextSample::Finished);

    let first = MemorySound::from_samples(Arc::new(vec![1, 2, 3, 4]), 4, 1000);
    list.add(first);
    let second = MemorySound::from_samples(Arc::new(vec![5, 6]), 2, 8000);
    list.add(second);
    assert_eq!(list.next_sample().unwrap(), NextSample::MetadataChanged);
    assert_eq!(list.channel_count(), 4);
    assert_eq!(list.sample_rate(), 1000);
    assert_eq!(list.next_sample().unwrap(), NextSample::Sample(1));
    assert_eq!(list.next_sample().unwrap(), NextSample::Sample(2));
    assert_eq!(list.next_sample().unwrap(), NextSample::Sample(3));
    assert_eq!(list.next_sample().unwrap(), NextSample::Sample(4));
    assert_eq!(list.next_sample().unwrap(), NextSample::MetadataChanged);
    assert_eq!(list.channel_count(), 2);
    assert_eq!(list.sample_rate(), 8000);
    assert_eq!(list.next_sample().unwrap(), NextSample::Sample(5));
    assert_eq!(list.next_sample().unwrap(), NextSample::Sample(6));
    assert_eq!(list.next_sample().unwrap(), NextSample::Finished);
}

#[test]
fn clear_stops_the_playing_sound() {
    let mut list = SoundList::new();
    list.add(MemorySound::from_samples(Arc::new(vec![1, 2]), 1, 1000));
    assert_eq!(list.next_sample().unwrap(), NextSample::MetadataChanged);
    assert_eq!(list.next_sample().unwrap(), NextSample::Sample(1));
    list.clear();
    assert_eq!(list.next_sample().unwrap(), NextSample::Finished);
}
