use vstd::prelude::*;

use crate::error::Error;
use crate::factor::Factor;
use crate::sound::NextSample;
use crate::sound::Sound;
use crate::sounds::wrappers::adjustable_speed::SetSpeed;
use crate::sounds::wrappers::pausable::SetPaused;

verus! {

/// A sound whose loudness can be adjusted.
pub trait SetVolume: Sound {
    /// The exact relation between the states before and after a `set_volume`
    /// call.
    spec fn set_volume_ens(&self, post: Self, multiplier: Factor) -> bool;

    /// Change the loudness. Samples are multiplied by `multiplier`, so the
    /// factor 1 leaves the sound unchanged.
    fn set_volume(&mut self, multiplier: Factor)
        requires
            old(self).inv(),
            multiplier.wf(),
        ensures
            final(self).inv(),
            old(self).set_volume_ens(*final(self), multiplier),
    ;
}

/// How a volume adjustment maps one pull result of the inner sound to the
/// pull result of the wrapper: samples are scaled by the factor, everything
/// else passes through unchanged.
pub open spec fn volume_out(
    multiplier: Factor,
    inner_r: Result<NextSample, Error>,
    r: Result<NextSample, Error>,
) -> bool {
    match inner_r {
        Ok(NextSample::Sample(s)) => r == Result::<NextSample, Error>::Ok(
            NextSample::Sample(multiplier.spec_scaled_sample(s)),
        ),
        _ => r == inner_r,
    }
}

/// A wrapper that adjusts the volume of its inner sound.
///
/// Every sample is multiplied by the current volume factor, truncating toward
/// zero and saturating to the `i16` range; a changed volume is audible on the
/// very next sample.
pub struct AdjustableVolume<S: Sound> {
    /// The wrapped sound.
    pub inner: S,
    /// The factor every sample is multiplied by.
    pub volume_adjustment: Factor,
}

impl<S: Sound> AdjustableVolume<S> {
    /// Wrap `inner` so its volume can be adjusted; the initial factor is 1.
    pub fn new(inner: S) -> (r: AdjustableVolume<S>)
        requires
            inner.inv(),
        ensures
            r.inv(),
            r.inner == inner,
            r.volume_adjustment.spec_numer() == 1 && r.volume_adjustment.spec_denom() == 1,
    {
        AdjustableVolume { inner, volume_adjustment: Factor::one() }
    }

    /// Wrap `inner` so its volume can be adjusted, with an initial factor.
    pub fn new_with_volume(inner: S, volume_adjustment: Factor) -> (r: AdjustableVolume<S>)
        requires
            inner.inv(),
            volume_adjustment.wf(),
        ensures
            r.inv(),
            r.inner == inner,
            r.volume_adjustment == volume_adjustment,
    {
        AdjustableVolume { inner, volume_adjustment }
    }

    /// Get a reference to the wrapped inner sound.
    pub fn inner(&self) -> (r: &S)
        ensures
            *r == self.inner,
    {
        &self.inner
    }

    /// Get a mutable reference to the wrapped inner sound.
    pub fn inner_mut(&mut self) -> (r: &mut S)
        ensures
            *r == old(self).inner,
            *final(self) == (AdjustableVolume { inner: *final(r), ..*old(self) }),
    {
        &mut self.inner
    }

    /// Unwrap and return the previously wrapped sound.
    pub fn into_inner(self) -> (r: S)
        ensures
            r == self.inner,
    {
        self.inner
    }

    /// Return the current volume factor. The factor 1 is the default volume.
    pub fn volume(&self) -> (r: Factor)
        ensures
            r == self.volume_adjustment,
    {
        self.volume_adjustment
    }
}

impl<S: Sound> Sound for AdjustableVolume<S> {
    open spec fn inv(&self) -> bool {
        &&& self.inner.inv()
        &&& self.volume_adjustment.wf()
    }

    open spec fn spec_channel_count(&self) -> u16 {
        self.inner.spec_channel_count()
    }

    open spec fn spec_sample_rate(&self) -> u32 {
        self.inner.spec_sample_rate()
    }

    /// The pull is the inner sound's pull with any sample scaled by the
    /// volume factor.
    open spec fn next_sample_ens(&self, post: Self, r: Result<NextSample, Error>) -> bool {
        &&& post.volume_adjustment == self.volume_adjustment
        &&& exists|ir: Result<NextSample, Error>|
            self.inner.next_sample_ens(post.inner, ir) && volume_out(self.volume_adjustment, ir, r)
    }

    open spec fn batch_ens(&self, post: Self) -> bool {
        &&& post.volume_adjustment == self.volume_adjustment
        &&& self.inner.batch_ens(post.inner)
    }

    fn channel_count(&self) -> u16 {
        let r = self.inner.channel_count();
        proof {
            assert(r == self.spec_channel_count());
        }
        r
    }

    fn sample_rate(&self) -> u32 {
        let r = self.inner.sample_rate();
        proof {
            assert(r == self.spec_sample_rate());
        }
        r
    }

    fn next_sample(&mut self) -> Result<NextSample, Error> {
        let next = self.inner.next_sample();
        let r: Result<NextSample, Error> = match next {
            Ok(NextSample::Sample(s)) => Ok(
                NextSample::Sample(self.volume_adjustment.apply_to_sample(s)),
            ),
            other => other,
        };
        proof {
            assert(old(self).inner.next_sample_ens(self.inner, next) && volume_out(
                old(self).volume_adjustment,
                next,
                r,
            ));
            assert(old(self).next_sample_ens(*self, r));
        }
        r
    }

    fn on_start_of_batch(&mut self) {
        self.inner.on_start_of_batch();
        proof {
            assert(old(self).batch_ens(*self));
        }
    }
}

impl<S: Sound> SetVolume for AdjustableVolume<S> {
    /// Only the volume factor changes.
    open spec fn set_volume_ens(&self, post: Self, multiplier: Factor) -> bool {
        &&& post.volume_adjustment == multiplier
        &&& post.inner == self.inner
    }

    fn set_volume(&mut self, multiplier: Factor) {
        self.volume_adjustment = multiplier;
        proof {
            assert(old(self).set_volume_ens(*self, multiplier));
        }
    }
}

impl<S: Sound + SetPaused> SetPaused for AdjustableVolume<S> {
    /// Pausing is forwarded to the inner sound.
    open spec fn set_paused_ens(&self, post: Self, paused: bool) -> bool {
        &&& post.volume_adjustment == self.volume_adjustment
        &&& self.inner.set_paused_ens(post.inner, paused)
    }

    fn set_paused(&mut self, paused: bool) {
        self.inner.set_paused(paused);
        proof {
            assert(old(self).set_paused_ens(*self, paused));
        }
    }
}

impl<S: Sound + SetSpeed> SetSpeed for AdjustableVolume<S> {
    /// Speed changes are forwarded to the inner sound.
    open spec fn set_speed_ens(&self, post: Self, multiplier: Factor) -> bool {
        &&& post.volume_adjustment == self.volume_adjustment
        &&& self.inner.set_speed_ens(post.inner, multiplier)
    }

    fn set_speed(&mut self, multiplier: Factor) {
        self.inner.set_speed(multiplier);
        proof {
            assert(old(self).set_speed_ens(*self, multiplier));
        }
    }
}

} // verus!
