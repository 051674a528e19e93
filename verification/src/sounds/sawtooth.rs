use vstd::prelude::*;

use crate::error::Error;
use crate::sound::NextSample;
use crate::sound::Sound;

verus! {

/// A sawtooth test signal: every channel of a frame carries the frame's
/// index, starting at 0 and incrementing by 1 each full frame, wrapping from
/// `i16::MAX` to `i16::MIN`.
pub struct Sawtooth {
    pub value: i16,
    pub channel_count: u16,
    pub channel_idx: u16,
    pub sample_rate: u32,
}

/// `v + 1` wrapping from `i16::MAX` around to `i16::MIN`.
pub open spec fn wrapping_inc_i16(v: i16) -> i16 {
    if v == i16::MAX {
        i16::MIN
    } else {
        (v + 1) as i16
    }
}

impl Sawtooth {
    /// The value the next produced sample will have.
    pub open spec fn spec_value(&self) -> i16 {
        self.value
    }

    /// The channel the next produced sample belongs to.
    pub open spec fn spec_channel_idx(&self) -> u16 {
        self.channel_idx
    }

    /// A sawtooth signal with the given channel count and sample rate.
    pub fn new(channel_count: u16, sample_rate: u32) -> (r: Sawtooth)
        requires
            channel_count >= 1,
        ensures
            r.inv(),
            r.spec_value() == 0i16,
            r.spec_channel_idx() == 0u16,
            r.spec_channel_count() == channel_count,
            r.spec_sample_rate() == sample_rate,
    {
        Sawtooth { value: 0, channel_count, channel_idx: 0, sample_rate }
    }
}

impl Sound for Sawtooth {
    open spec fn inv(&self) -> bool {
        &&& self.spec_channel_count() >= 1
        &&& self.spec_channel_idx() < self.spec_channel_count()
    }

    open spec fn spec_channel_count(&self) -> u16 {
        self.channel_count
    }

    open spec fn spec_sample_rate(&self) -> u32 {
        self.sample_rate
    }

    /// Yields the current value; after the last channel of a frame the value
    /// increments (wrapping) and the channel index returns to 0.
    open spec fn next_sample_ens(&self, post: Self, r: Result<NextSample, Error>) -> bool {
        &&& r == Result::<NextSample, Error>::Ok(NextSample::Sample(self.spec_value()))
        &&& post.spec_channel_count() == self.spec_channel_count()
        &&& post.spec_sample_rate() == self.spec_sample_rate()
        &&& if self.spec_channel_idx() + 1 == self.spec_channel_count() {
            post.spec_channel_idx() == 0 && post.spec_value() == wrapping_inc_i16(self.spec_value())
        } else {
            post.spec_channel_idx() == self.spec_channel_idx() + 1 && post.spec_value()
                == self.spec_value()
        }
    }

    open spec fn batch_ens(&self, post: Self) -> bool {
        post == *self
    }

    fn channel_count(&self) -> u16 {
        self.channel_count
    }

    fn sample_rate(&self) -> u32 {
        self.sample_rate
    }

    fn next_sample(&mut self) -> Result<NextSample, Error> {
        let to_return = NextSample::Sample(self.value);
        self.channel_idx = self.channel_idx + 1;
        if self.channel_idx == self.channel_count {
            self.channel_idx = 0;
            self.value = if self.value == i16::MAX {
                i16::MIN
            } else {
                self.value + 1
            };
        }
        let r: Result<NextSample, Error> = Ok(to_return);
        proof {
            assert(old(self).next_sample_ens(*self, r));
        }
        r
    }

    fn on_start_of_batch(&mut self) {
        proof {
            assert(old(self).batch_ens(*self));
        }
    }
}

} // verus!
