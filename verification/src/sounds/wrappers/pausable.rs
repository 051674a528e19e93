use vstd::prelude::*;

use crate::error::Error;
use crate::factor::Factor;
use crate::sound::NextSample;
use crate::sound::Sound;
use crate::sounds::wrappers::adjustable_speed::SetSpeed;
use crate::sounds::wrappers::adjustable_volume::SetVolume;

verus! {

/// A sound that can be paused.
pub trait SetPaused: Sound {
    /// The exact relation between the states before and after a `set_paused`
    /// call.
    spec fn set_paused_ens(&self, post: Self, paused: bool) -> bool;

    /// Pause or unpause the sound.
    fn set_paused(&mut self, paused: bool)
        requires
            old(self).inv(),
        ensures
            final(self).inv(),
            old(self).set_paused_ens(*final(self), paused),
    ;
}

/// A wrapper that makes its inner sound pausable.
///
/// While paused, every pull returns [`NextSample::Paused`] immediately and
/// the inner sound is not touched.
pub struct Pausable<S: Sound> {
    /// The wrapped sound.
    pub inner: S,
    /// Whether pulls currently report `Paused`.
    pub paused: bool,
}

impl<S: Sound> Pausable<S> {
    /// Wrap `inner` and allow it to be paused via
    /// [`set_paused`](SetPaused::set_paused). Starts unpaused.
    pub fn new(inner: S) -> (r: Pausable<S>)
        requires
            inner.inv(),
        ensures
            r.inv(),
            r.inner == inner,
            !r.paused,
    {
        Pausable { inner, paused: false }
    }

    /// Get a reference to the wrapped inner sound.
    pub fn inner(&self) -> (r: &S)
        ensures
            *r == self.inner,
    {
        &self.inner
    }

    /// Get a mutable reference to the wrapped inner sound.
    pub fn inner_mut(&mut self) -> (r: &mut S)
        ensures
            *r == old(self).inner,
            *final(self) == (Pausable { inner: *final(r), ..*old(self) }),
    {
        &mut self.inner
    }

    /// Unwrap and return the previously wrapped sound.
    pub fn into_inner(self) -> (r: S)
        ensures
            r == self.inner,
    {
        self.inner
    }

    /// Return whether the sound is currently paused.
    pub fn paused(&self) -> (r: bool)
        ensures
            r == self.paused,
    {
        self.paused
    }
}

impl<S: Sound> Sound for Pausable<S> {
    open spec fn inv(&self) -> bool {
        self.inner.inv()
    }

    open spec fn spec_channel_count(&self) -> u16 {
        self.inner.spec_channel_count()
    }

    open spec fn spec_sample_rate(&self) -> u32 {
        self.inner.spec_sample_rate()
    }

    /// While paused, yields `Paused` without touching the inner sound;
    /// otherwise the pull is the inner sound's pull.
    open spec fn next_sample_ens(&self, post: Self, r: Result<NextSample, Error>) -> bool {
        if self.paused {
            &&& r == Result::<NextSample, Error>::Ok(NextSample::Paused)
            &&& post == *self
        } else {
            &&& post.paused == self.paused
            &&& self.inner.next_sample_ens(post.inner, r)
        }
    }

    open spec fn batch_ens(&self, post: Self) -> bool {
        &&& post.paused == self.paused
        &&& self.inner.batch_ens(post.inner)
    }

    fn channel_count(&self) -> u16 {
        let r = self.inner.channel_count();
        proof {
            assert(r == self.spec_channel_count());
        }
        r
    }

    fn sample_rate(&self) -> u32 {
        let r = self.inner.sample_rate();
        proof {
            assert(r == self.spec_sample_rate());
        }
        r
    }

    fn next_sample(&mut self) -> Result<NextSample, Error> {
        let r: Result<NextSample, Error> = if self.paused {
            Ok(NextSample::Paused)
        } else {
            self.inner.next_sample()
        };
        proof {
            assert(old(self).next_sample_ens(*self, r));
        }
        r
    }

    fn on_start_of_batch(&mut self) {
        self.inner.on_start_of_batch();
        proof {
            assert(old(self).batch_ens(*self));
        }
    }
}

impl<S: Sound> SetPaused for Pausable<S> {
    /// Only the pause flag changes.
    open spec fn set_paused_ens(&self, post: Self, paused: bool) -> bool {
        &&& post.paused == paused
        &&& post.inner == self.inner
    }

    fn set_paused(&mut self, paused: bool) {
        self.paused = paused;
        proof {
            assert(old(self).set_paused_ens(*self, paused));
        }
    }
}

impl<S: Sound + SetVolume> SetVolume for Pausable<S> {
    /// Volume changes are forwarded to the inner sound.
    open spec fn set_volume_ens(&self, post: Self, multiplier: Factor) -> bool {
        &&& post.paused == self.paused
        &&& self.inner.set_volume_ens(post.inner, multiplier)
    }

    fn set_volume(&mut self, multiplier: Factor) {
        self.inner.set_volume(multiplier);
        proof {
            assert(old(self).set_volume_ens(*self, multiplier));
        }
    }
}

impl<S: Sound + SetSpeed> SetSpeed for Pausable<S> {
    /// Speed changes are forwarded to the inner sound.
    open spec fn set_speed_ens(&self, post: Self, multiplier: Factor) -> bool {
        &&& post.paused == self.paused
        &&& self.inner.set_speed_ens(post.inner, multiplier)
    }

    fn set_speed(&mut self, multiplier: Factor) {
        self.inner.set_speed(multiplier);
        proof {
            assert(old(self).set_speed_ens(*self, multiplier));
        }
    }
}

} // verus!
