use vstd::prelude::*;

use crate::sounds::wrappers::adjustable_speed::SetSpeed;
use crate::sounds::wrappers::adjustable_volume::SetVolume;
use crate::sounds::wrappers::AddSound;
use crate::sounds::wrappers::ClearSounds;
use crate::factor::Factor;

use crate::error::Error;
use crate::sound::NextSample;
use crate::sound::Sound;
use crate::sounds::wrappers::pausable::SetPaused;
use crate::sounds::wrappers::wrapper::Wrapper;

verus! {

/// The number of samples within `duration_micros` microseconds at the given
/// channel count and sample rate, truncated, saturating at `u64::MAX`.
pub open spec fn spec_num_samples(duration_micros: u64, num_channels: u16, sample_rate: u32) -> u64 {
    let n = duration_micros * num_channels * sample_rate / 1_000_000;
    if n > u64::MAX {
        u64::MAX
    } else {
        n as u64
    }
}

/// Return the number of samples that play within `duration_micros`
/// microseconds at the given channel count and sample rate (truncating any
/// fractional sample, saturating at `u64::MAX`).
pub fn num_samples(duration_micros: u64, num_channels: u16, sample_rate: u32) -> (r: u64)
    ensures
        r == spec_num_samples(duration_micros, num_channels, sample_rate),
{
    proof {
        assert(duration_micros * num_channels < u128::MAX && duration_micros * num_channels
            * sample_rate < u128::MAX) by (nonlinear_arith)
            requires
                duration_micros <= u64::MAX,
                num_channels <= u16::MAX,
                sample_rate <= u32::MAX,
        ;
    }
    let n: u128 = duration_micros as u128 * num_channels as u128 * sample_rate as u128 / 1_000_000;
    if n > u64::MAX as u128 {
        u64::MAX
    } else {
        n as u64
    }
}

/// The remaining sample budget after the metadata changed: the samples played
/// so far are converted into new-metadata sample units and subtracted from
/// the whole budget re-expressed in new-metadata sample units (never going
/// below zero).
pub open spec fn spec_rebudget(
    total_micros: u64,
    remaining: u64,
    old_cc: u16,
    old_sr: u32,
    new_cc: u16,
    new_sr: u32,
) -> u64 {
    let played = spec_num_samples(total_micros, old_cc, old_sr) - remaining;
    let played_new = played * new_cc * new_sr / (old_cc * old_sr);
    let total_new = spec_num_samples(total_micros, new_cc, new_sr);
    if played_new >= total_new {
        0u64
    } else {
        (total_new - played_new) as u64
    }
}

fn rebudget(
    total_micros: u64,
    remaining: u64,
    old_cc: u16,
    old_sr: u32,
    new_cc: u16,
    new_sr: u32,
) -> (r: u64)
    requires
        old_cc >= 1,
        old_sr >= 1,
        remaining <= spec_num_samples(total_micros, old_cc, old_sr),
    ensures
        r == spec_rebudget(total_micros, remaining, old_cc, old_sr, new_cc, new_sr),
        r <= spec_num_samples(total_micros, new_cc, new_sr),
{
    let total_old: u64 = num_samples(total_micros, old_cc, old_sr);
    let played: u64 = total_old - remaining;
    proof {
        assert(played * new_cc < u128::MAX && played * new_cc * new_sr < u128::MAX)
            by (nonlinear_arith)
            requires
                played <= u64::MAX,
                new_cc <= u16::MAX,
                new_sr <= u32::MAX,
        ;
        assert(old_cc * old_sr >= 1 && old_cc * old_sr < u128::MAX) by (nonlinear_arith)
            requires
                1 <= old_cc <= u16::MAX,
                1 <= old_sr <= u32::MAX,
        ;
    }
    let played_new: u128 = played as u128 * new_cc as u128 * new_sr as u128 / (old_cc as u128
        * old_sr as u128);
    let total_new: u64 = num_samples(total_micros, new_cc, new_sr);
    if played_new >= total_new as u128 {
        0
    } else {
        total_new - (played_new as u64)
    }
}

/// Play the first part of an inner sound, measured in time, then finish even
/// if the inner sound has samples remaining.
///
/// Finishes early if the inner sound finishes before the duration is over.
/// Time the inner sound spends paused does not count against the duration:
/// the remaining budget only shrinks when a sample is produced.
pub struct FinishAfter<S: Sound> {
    /// The wrapped sound.
    pub inner: S,
    /// How many samples may still be produced before finishing.
    pub samples_remaining: u64,
    /// The play duration, in microseconds.
    pub total_duration_micros: u64,
    /// The channel count the budget is currently expressed in.
    pub current_channel_count: u16,
    /// The sample rate the budget is currently expressed in.
    pub current_sample_rate: u32,
}

/// How one pull updates the bookkeeping of a [`FinishAfter`], given that the
/// inner sound was pulled with result `r`: a sample costs one budget unit, a
/// metadata change re-derives the budget in new-metadata sample units, and
/// everything else leaves the budget alone. The result is always the inner
/// sound's result.
pub open spec fn finish_after_update<S: Sound>(
    pre: FinishAfter<S>,
    post: FinishAfter<S>,
    r: Result<NextSample, Error>,
) -> bool {
    match r {
        Ok(NextSample::Sample(_)) => {
            &&& post.samples_remaining == pre.samples_remaining - 1
            &&& post.current_channel_count == pre.current_channel_count
            &&& post.current_sample_rate == pre.current_sample_rate
        },
        Ok(NextSample::MetadataChanged) => {
            &&& post.current_channel_count == post.inner.spec_channel_count()
            &&& post.current_sample_rate == post.inner.spec_sample_rate()
            &&& post.samples_remaining == spec_rebudget(
                pre.total_duration_micros,
                pre.samples_remaining,
                pre.current_channel_count,
                pre.current_sample_rate,
                post.inner.spec_channel_count(),
                post.inner.spec_sample_rate(),
            )
        },
        _ => {
            &&& post.samples_remaining == pre.samples_remaining
            &&& post.current_channel_count == pre.current_channel_count
            &&& post.current_sample_rate == pre.current_sample_rate
        },
    }
}

impl<S: Sound> FinishAfter<S> {
    /// Only play the first `duration_micros` microseconds of `inner` before
    /// finishing.
    pub fn new(inner: S, duration_micros: u64) -> (r: FinishAfter<S>)
        requires
            inner.inv(),
        ensures
            r.inv(),
            r.inner == inner,
            r.total_duration_micros == duration_micros,
            r.current_channel_count == inner.spec_channel_count(),
            r.current_sample_rate == inner.spec_sample_rate(),
            r.samples_remaining == spec_num_samples(
                duration_micros,
                inner.spec_channel_count(),
                inner.spec_sample_rate(),
            ),
    {
        let current_channel_count = inner.channel_count();
        let current_sample_rate = inner.sample_rate();
        let samples_remaining = num_samples(
            duration_micros,
            current_channel_count,
            current_sample_rate,
        );
        FinishAfter {
            inner,
            samples_remaining,
            total_duration_micros: duration_micros,
            current_channel_count,
            current_sample_rate,
        }
    }

    /// Get a reference to the wrapped inner sound.
    pub fn inner(&self) -> (r: &S)
        ensures
            *r == self.inner,
    {
        &self.inner
    }

    /// Get a mutable reference to the wrapped inner sound.
    pub fn inner_mut(&mut self) -> (r: &mut S)
        ensures
            *r == old(self).inner,
            *final(self) == (FinishAfter { inner: *final(r), ..*old(self) }),
    {
        &mut self.inner
    }

    /// Unwrap and return the previously wrapped sound.
    pub fn into_inner(self) -> (r: S)
        ensures
            r == self.inner,
    {
        self.inner
    }
}

impl<S: Sound> Sound for FinishAfter<S> {
    open spec fn inv(&self) -> bool {
        &&& self.inner.inv()
        &&& self.samples_remaining <= spec_num_samples(
            self.total_duration_micros,
            self.current_channel_count,
            self.current_sample_rate,
        )
    }

    open spec fn spec_channel_count(&self) -> u16 {
        self.inner.spec_channel_count()
    }

    open spec fn spec_sample_rate(&self) -> u32 {
        self.inner.spec_sample_rate()
    }

    /// Once the budget is zero, yields `Finished` forever without touching
    /// the inner sound; otherwise forwards the inner sound's pull and updates
    /// the budget as [`finish_after_update`] describes.
    open spec fn next_sample_ens(&self, post: Self, r: Result<NextSample, Error>) -> bool {
        if self.samples_remaining == 0 {
            &&& r == Result::<NextSample, Error>::Ok(NextSample::Finished)
            &&& post == *self
        } else {
            &&& post.total_duration_micros == self.total_duration_micros
            &&& self.inner.next_sample_ens(post.inner, r)
            &&& finish_after_update(*self, post, r)
        }
    }

    open spec fn batch_ens(&self, post: Self) -> bool {
        &&& post.samples_remaining == self.samples_remaining
        &&& post.total_duration_micros == self.total_duration_micros
        &&& post.current_channel_count == self.current_channel_count
        &&& post.current_sample_rate == self.current_sample_rate
        &&& self.inner.batch_ens(post.inner)
    }

    fn channel_count(&self) -> u16 {
        let r = self.inner.channel_count();
        proof {
            assert(r == self.spec_channel_count());
        }
        r
    }

    fn sample_rate(&self) -> u32 {
        let r = self.inner.sample_rate();
        proof {
            assert(r == self.spec_sample_rate());
        }
        r
    }

    fn next_sample(&mut self) -> Result<NextSample, Error> {
        if self.samples_remaining == 0 {
            let r: Result<NextSample, Error> = Ok(NextSample::Finished);
            proof {
                assert(old(self).next_sample_ens(*self, r));
            }
            return r;
        }
        let next = self.inner.next_sample();
        match &next {
            Ok(NextSample::Sample(_)) => {
                self.samples_remaining = self.samples_remaining - 1;
            },
            Ok(NextSample::MetadataChanged) => {
                proof {
                    let d = self.total_duration_micros;
                    let cc = self.current_channel_count;
                    let sr = self.current_sample_rate;
                    assert(cc == 0 || sr == 0 ==> d * cc * sr == 0) by (nonlinear_arith);
                }
                let new_channel_count = self.inner.channel_count();
                let new_sample_rate = self.inner.sample_rate();
                let new_remaining = rebudget(
                    self.total_duration_micros,
                    self.samples_remaining,
                    self.current_channel_count,
                    self.current_sample_rate,
                    new_channel_count,
                    new_sample_rate,
                );
                self.current_channel_count = new_channel_count;
                self.current_sample_rate = new_sample_rate;
                self.samples_remaining = new_remaining;
            },
            _ => {},
        }
        proof {
            assert(old(self).next_sample_ens(*self, next));
        }
        next
    }

    fn on_start_of_batch(&mut self) {
        self.inner.on_start_of_batch();
        proof {
            assert(old(self).batch_ens(*self));
        }
    }
}

impl<S: Sound> Wrapper for FinishAfter<S> {
    type Inner = S;

    open spec fn spec_inner(&self) -> S {
        self.inner
    }

    open spec fn with_inner(&self, inner: S) -> Self {
        FinishAfter { inner, ..*self }
    }

    fn inner(&self) -> &S {
        &self.inner
    }

    fn inner_mut(&mut self) -> &mut S {
        &mut self.inner
    }

    fn into_inner(self) -> S {
        self.inner
    }
}

impl<S: Sound + SetPaused> SetPaused for FinishAfter<S> {
    /// Pausing is forwarded to the inner sound; the budget is untouched.
    open spec fn set_paused_ens(&self, post: Self, paused: bool) -> bool {
        &&& post.samples_remaining == self.samples_remaining
        &&& post.total_duration_micros == self.total_duration_micros
        &&& post.current_channel_count == self.current_channel_count
        &&& post.current_sample_rate == self.current_sample_rate
        &&& self.inner.set_paused_ens(post.inner, paused)
    }

    fn set_paused(&mut self, paused: bool) {
        self.inner.set_paused(paused);
        proof {
            assert(old(self).set_paused_ens(*self, paused));
        }
    }
}

impl<S: Sound + SetSpeed> SetSpeed for FinishAfter<S> {
    /// Speed changes are forwarded to the inner sound.
    open spec fn set_speed_ens(&self, post: Self, multiplier: Factor) -> bool {
        &&& self.inner.set_speed_ens(post.inner, multiplier)
        &&& post == (FinishAfter { inner: post.inner, ..*self })
    }

    fn set_speed(&mut self, multiplier: Factor) {
        self.inner.set_speed(multiplier);
        proof {
            assert(old(self).set_speed_ens(*self, multiplier));
        }
    }
}

impl<S: Sound + SetVolume> SetVolume for FinishAfter<S> {
    /// Volume changes are forwarded to the inner sound.
    open spec fn set_volume_ens(&self, post: Self, multiplier: Factor) -> bool {
        &&& self.inner.set_volume_ens(post.inner, multiplier)
        &&& post == (FinishAfter { inner: post.inner, ..*self })
    }

    fn set_volume(&mut self, multiplier: Factor) {
        self.inner.set_volume(multiplier);
        proof {
            assert(old(self).set_volume_ens(*self, multiplier));
        }
    }
}

impl<S: Sound + AddSound> AddSound for FinishAfter<S> {
    type AddedSound = <S as AddSound>::AddedSound;

    /// Added sounds are forwarded to the inner sound.
    open spec fn add_ens(&self, post: Self, sound: <S as AddSound>::AddedSound) -> bool {
        &&& self.inner.add_ens(post.inner, sound)
        &&& post == (FinishAfter { inner: post.inner, ..*self })
    }

    fn add(&mut self, sound: <S as AddSound>::AddedSound) {
        let ghost g = sound;
        self.inner.add(sound);
        proof {
            assert(old(self).add_ens(*self, g));
        }
    }
}

impl<S: Sound + ClearSounds> ClearSounds for FinishAfter<S> {
    /// Clearing is forwarded to the inner sound.
    open spec fn clear_ens(&self, post: Self) -> bool {
        &&& self.inner.clear_ens(post.inner)
        &&& post == (FinishAfter { inner: post.inner, ..*self })
    }

    fn clear(&mut self) {
        self.inner.clear();
        proof {
            assert(old(self).clear_ens(*self));
        }
    }
}

} // verus!
