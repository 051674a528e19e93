use vstd::prelude::*;

use crate::error::Error;
use crate::factor::Factor;
use crate::sound::NextSample;
use crate::sound::Sound;
use crate::sounds::wrappers::adjustable_volume::SetVolume;
use crate::sounds::wrappers::pausable::SetPaused;

verus! {

/// A sound whose playback speed can be adjusted.
///
/// This is pitch control, affecting both pitch and speed, not time
/// stretching.
pub trait SetSpeed: Sound {
    /// The exact relation between the states before and after a `set_speed`
    /// call.
    spec fn set_speed_ens(&self, post: Self, multiplier: Factor) -> bool;

    /// Change the playback speed. The factor 1 is the normal playback speed,
    /// 2 twice as fast, 1/2 half as fast.
    fn set_speed(&mut self, multiplier: Factor)
        requires
            old(self).inv(),
            multiplier.wf(),
        ensures
            final(self).inv(),
            old(self).set_speed_ens(*final(self), multiplier),
    ;
}

/// A wrapper that adjusts the speed of its inner sound by scaling the sample
/// rate it reports.
///
/// The virtual sample rate is the inner rate multiplied by the speed factor,
/// rounded to the nearest whole rate and clamped into `1..=u32::MAX`. After
/// a speed change, the next pull returns a one-shot
/// [`NextSample::MetadataChanged`] so that downstream converters
/// re-synchronize to the new rate.
pub struct AdjustableSpeed<S: Sound> {
    /// The wrapped sound.
    pub inner: S,
    /// The factor the inner sample rate is multiplied by.
    pub speed_adjustment: Factor,
    /// Whether a speed change is still to be announced.
    pub speed_changed: bool,
}

impl<S: Sound> AdjustableSpeed<S> {
    /// Wrap `inner` so its speed can be adjusted; the initial factor is 1.
    pub fn new(inner: S) -> (r: AdjustableSpeed<S>)
        requires
            inner.inv(),
        ensures
            r.inv(),
            r.inner == inner,
            r.speed_adjustment.spec_numer() == 1 && r.speed_adjustment.spec_denom() == 1,
            !r.speed_changed,
    {
        AdjustableSpeed { inner, speed_adjustment: Factor::one(), speed_changed: false }
    }

    /// Wrap `inner` so its speed can be adjusted, with an initial factor.
    pub fn new_with_speed(inner: S, speed_adjustment: Factor) -> (r: AdjustableSpeed<S>)
        requires
            inner.inv(),
            speed_adjustment.wf(),
        ensures
            r.inv(),
            r.inner == inner,
            r.speed_adjustment == speed_adjustment,
            !r.speed_changed,
    {
        AdjustableSpeed { inner, speed_adjustment, speed_changed: false }
    }

    /// Get a reference to the wrapped inner sound.
    pub fn inner(&self) -> (r: &S)
        ensures
            *r == self.inner,
    {
        &self.inner
    }

    /// Get a mutable reference to the wrapped inner sound.
    pub fn inner_mut(&mut self) -> (r: &mut S)
        ensures
            *r == old(self).inner,
            *final(self) == (AdjustableSpeed { inner: *final(r), ..*old(self) }),
    {
        &mut self.inner
    }

    /// Unwrap and return the previously wrapped sound.
    pub fn into_inner(self) -> (r: S)
        ensures
            r == self.inner,
    {
        self.inner
    }

    /// Return the current speed factor. The factor 1 is the default speed.
    pub fn speed(&self) -> (r: Factor)
        ensures
            r == self.speed_adjustment,
    {
        self.speed_adjustment
    }
}

impl<S: Sound> Sound for AdjustableSpeed<S> {
    open spec fn inv(&self) -> bool {
        &&& self.inner.inv()
        &&& self.speed_adjustment.wf()
    }

    open spec fn spec_channel_count(&self) -> u16 {
        self.inner.spec_channel_count()
    }

    /// The inner rate scaled by the speed factor: rounded to the nearest
    /// whole rate and clamped into `1..=u32::MAX`.
    open spec fn spec_sample_rate(&self) -> u32 {
        self.speed_adjustment.spec_scaled_rate(self.inner.spec_sample_rate())
    }

    /// A pending speed change is announced once with `MetadataChanged`
    /// without touching the inner sound; otherwise the pull is the inner
    /// sound's pull.
    open spec fn next_sample_ens(&self, post: Self, r: Result<NextSample, Error>) -> bool {
        if self.speed_changed {
            &&& r == Result::<NextSample, Error>::Ok(NextSample::MetadataChanged)
            &&& post == (AdjustableSpeed { speed_changed: false, ..*self })
        } else {
            &&& post.speed_adjustment == self.speed_adjustment
            &&& post.speed_changed == self.speed_changed
            &&& self.inner.next_sample_ens(post.inner, r)
        }
    }

    open spec fn batch_ens(&self, post: Self) -> bool {
        &&& post.speed_adjustment == self.speed_adjustment
        &&& post.speed_changed == self.speed_changed
        &&& self.inner.batch_ens(post.inner)
    }

    fn channel_count(&self) -> u16 {
        self.inner.channel_count()
    }

    fn sample_rate(&self) -> u32 {
        let r = self.speed_adjustment.apply_to_rate(self.inner.sample_rate());
        proof {
            assert(r == self.spec_sample_rate());
        }
        r
    }

    fn next_sample(&mut self) -> Result<NextSample, Error> {
        let r: Result<NextSample, Error> = if self.speed_changed {
            self.speed_changed = false;
            Ok(NextSample::MetadataChanged)
        } else {
            self.inner.next_sample()
        };
        proof {
            assert(old(self).next_sample_ens(*self, r));
        }
        r
    }

    fn on_start_of_batch(&mut self) {
        self.inner.on_start_of_batch();
        proof {
            assert(old(self).batch_ens(*self));
        }
    }
}

impl<S: Sound> SetSpeed for AdjustableSpeed<S> {
    /// The speed factor changes and the change is pending announcement.
    open spec fn set_speed_ens(&self, post: Self, multiplier: Factor) -> bool {
        &&& post.speed_adjustment == multiplier
        &&& post.speed_changed
        &&& post.inner == self.inner
    }

    fn set_speed(&mut self, multiplier: Factor) {
        self.speed_changed = true;
        self.speed_adjustment = multiplier;
        proof {
            assert(old(self).set_speed_ens(*self, multiplier));
        }
    }
}

impl<S: Sound + SetPaused> SetPaused for AdjustableSpeed<S> {
    /// Pausing is forwarded to the inner sound.
    open spec fn set_paused_ens(&self, post: Self, paused: bool) -> bool {
        &&& post.speed_adjustment == self.speed_adjustment
        &&& post.speed_changed == self.speed_changed
        &&& self.inner.set_paused_ens(post.inner, paused)
    }

    fn set_paused(&mut self, paused: bool) {
        self.inner.set_paused(paused);
        proof {
            assert(old(self).set_paused_ens(*self, paused));
        }
    }
}

impl<S: Sound + SetVolume> SetVolume for AdjustableSpeed<S> {
    /// Volume changes are forwarded to the inner sound.
    open spec fn set_volume_ens(&self, post: Self, multiplier: Factor) -> bool {
        &&& post.speed_adjustment == self.speed_adjustment
        &&& post.speed_changed == self.speed_changed
        &&& self.inner.set_volume_ens(post.inner, multiplier)
    }

    fn set_volume(&mut self, multiplier: Factor) {
        self.inner.set_volume(multiplier);
        proof {
            assert(old(self).set_volume_ens(*self, multiplier));
        }
    }
}

} // verus!
