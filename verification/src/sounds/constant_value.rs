use vstd::prelude::*;

use crate::error::Error;
use crate::sound::NextSample;
use crate::sound::Sound;

verus! {

/// The default channel count of synthesized sounds.
pub const DEFAULT_CHANNEL_COUNT: u16 = 2;

/// The default sample rate of synthesized sounds.
pub const DEFAULT_SAMPLE_RATE: u32 = 44100;

/// A sound where every sample has the same value, forever.
///
/// A constant offset makes no audible sound; this source is chiefly useful
/// for exercising mixers and wrappers with a perfectly predictable stream.
/// Its channel count and sample rate can be changed while it plays, upon
/// which the next pull reports [`NextSample::MetadataChanged`] once.
pub struct ConstantValueSound {
    pub value: i16,
    pub channel_count: u16,
    pub sample_rate: u32,
    pub metadata_changed: bool,
}

impl ConstantValueSound {
    /// The value every produced sample has.
    pub open spec fn spec_value(&self) -> i16 {
        self.value
    }

    /// Whether the next pull reports a metadata change.
    pub open spec fn spec_metadata_changed(&self) -> bool {
        self.metadata_changed
    }

    /// A sound producing `value` forever, with the default channel count and
    /// sample rate.
    pub fn new(value: i16) -> (r: ConstantValueSound)
        ensures
            r.inv(),
            r.spec_value() == value,
            r.spec_channel_count() == DEFAULT_CHANNEL_COUNT,
            r.spec_sample_rate() == DEFAULT_SAMPLE_RATE,
            !r.spec_metadata_changed(),
    {
        ConstantValueSound {
            value,
            channel_count: DEFAULT_CHANNEL_COUNT,
            sample_rate: DEFAULT_SAMPLE_RATE,
            metadata_changed: false,
        }
    }

    /// Change the reported channel count; the next pull reports the change.
    pub fn set_channel_count(&mut self, new_count: u16)
        ensures
            final(self).spec_channel_count() == new_count,
            final(self).spec_sample_rate() == old(self).spec_sample_rate(),
            final(self).spec_value() == old(self).spec_value(),
            final(self).spec_metadata_changed(),
            final(self).inv(),
    {
        self.channel_count = new_count;
        self.metadata_changed = true;
    }

    /// Change the reported sample rate; the next pull reports the change.
    pub fn set_sample_rate(&mut self, new_rate: u32)
        ensures
            final(self).spec_channel_count() == old(self).spec_channel_count(),
            final(self).spec_sample_rate() == new_rate,
            final(self).spec_value() == old(self).spec_value(),
            final(self).spec_metadata_changed(),
            final(self).inv(),
    {
        self.sample_rate = new_rate;
        self.metadata_changed = true;
    }
}

impl Sound for ConstantValueSound {
    open spec fn inv(&self) -> bool {
        true
    }

    open spec fn spec_channel_count(&self) -> u16 {
        self.channel_count
    }

    open spec fn spec_sample_rate(&self) -> u32 {
        self.sample_rate
    }

    /// Reports a pending metadata change once, otherwise yields the constant
    /// value and stays unchanged.
    open spec fn next_sample_ens(&self, post: Self, r: Result<NextSample, Error>) -> bool {
        if self.spec_metadata_changed() {
            &&& r == Result::<NextSample, Error>::Ok(NextSample::MetadataChanged)
            &&& !post.spec_metadata_changed()
            &&& post.spec_value() == self.spec_value()
            &&& post.spec_channel_count() == self.spec_channel_count()
            &&& post.spec_sample_rate() == self.spec_sample_rate()
        } else {
            &&& r == Result::<NextSample, Error>::Ok(NextSample::Sample(self.spec_value()))
            &&& post == *self
        }
    }

    open spec fn batch_ens(&self, post: Self) -> bool {
        post == *self
    }

    fn channel_count(&self) -> u16 {
        self.channel_count
    }

    fn sample_rate(&self) -> u32 {
        self.sample_rate
    }

    fn next_sample(&mut self) -> Result<NextSample, Error> {
        let r: Result<NextSample, Error> = if self.metadata_changed {
            self.metadata_changed = false;
            Ok(NextSample::MetadataChanged)
        } else {
            Ok(NextSample::Sample(self.value))
        };
        proof {
            assert(old(self).next_sample_ens(*self, r));
        }
        r
    }

    fn on_start_of_batch(&mut self) {
        proof {
            assert(old(self).batch_ens(*self));
        }
    }
}

} // verus!
