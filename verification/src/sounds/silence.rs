use vstd::prelude::*;

use crate::error::Error;
use crate::sound::NextSample;
use crate::sound::Sound;

verus! {

/// A forever stream of samples of value 0 (producing no audible sound).
pub struct Silence {
    pub channel_count: u16,
    pub sample_rate: u32,
}

impl Silence {
    /// A sound that returns 0-valued samples forever and reports the given
    /// channel count and sample rate.
    pub fn new(channel_count: u16, sample_rate: u32) -> (r: Silence)
        ensures
            r.inv(),
            r.spec_channel_count() == channel_count,
            r.spec_sample_rate() == sample_rate,
    {
        Silence { channel_count, sample_rate }
    }
}

impl Sound for Silence {
    open spec fn inv(&self) -> bool {
        true
    }

    open spec fn spec_channel_count(&self) -> u16 {
        self.channel_count
    }

    open spec fn spec_sample_rate(&self) -> u32 {
        self.sample_rate
    }

    /// Always yields the sample 0 and never changes.
    open spec fn next_sample_ens(&self, post: Self, r: Result<NextSample, Error>) -> bool {
        &&& post == *self
        &&& r == Result::<NextSample, Error>::Ok(NextSample::Sample(0i16))
    }

    open spec fn batch_ens(&self, post: Self) -> bool {
        post == *self
    }

    fn channel_count(&self) -> u16 {
        self.channel_count
    }

    fn sample_rate(&self) -> u32 {
        proof {
            assert(self.spec_sample_rate() == self.sample_rate);
        }
        self.sample_rate
    }

    fn next_sample(&mut self) -> Result<NextSample, Error> {
        let r: Result<NextSample, Error> = Ok(NextSample::Sample(0));
        proof {
            assert(old(self).next_sample_ens(*self, r));
        }
        r
    }

    fn on_start_of_batch(&mut self) {
        proof {
            assert(old(self).batch_ens(*self));
        }
    }
}

} // verus!
