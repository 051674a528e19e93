use vstd::prelude::*;

use crate::error::Error;
use crate::factor::Factor;
use crate::sounds::wrappers::AdjustableSpeed;
use crate::sounds::wrappers::Controllable;
use crate::sounds::wrappers::Controlled;
use crate::sounds::wrappers::Controller;
use crate::sounds::wrappers::AdjustableVolume;
use crate::sounds::wrappers::AsyncCompletionNotifier;
use crate::sounds::wrappers::CompletionNotifier;
use crate::sounds::wrappers::FinishAfter;
use crate::sounds::wrappers::Pausable;
use crate::sounds::MemorySound;
use std::sync::mpsc;

verus! {

/// The result of one [`Sound::next_sample`] pull.
#[derive(Debug, Copy, Clone, PartialEq, Eq, Structural)]
pub enum NextSample {
    /// A sample for one channel. Channels are interleaved: the first sample
    /// of a frame is for the first channel and so forth, then the channels
    /// wrap around (e.g. L-R-L-R).
    Sample(i16),
    /// The number of channels or the sample rate has changed. Samples keep
    /// coming afterwards, and the next `Sample` is for the first channel.
    MetadataChanged,
    /// No more samples for now, more may come later. The sound is expected
    /// not to be pulled again before the start of the next batch.
    Paused,
    /// All samples have been produced and no more will come.
    Finished,
}

/// A pull-based producer of interleaved PCM audio samples.
///
/// This is the foundational trait of the crate. Sounds can be wrapped to
/// modify the inner sound, often by using the helper methods of this trait
/// (e.g. [`pausable`](Sound::pausable)).
///
/// Every implementation describes itself with a handful of specification
/// functions: `inv` is its internal invariant, `spec_channel_count` and
/// `spec_sample_rate` are its current metadata, and `next_sample_ens` /
/// `batch_ens` are the exact transition relations of its two mutating
/// operations. After any non-`Sample` pull result, the following `Sample`
/// belongs to the first channel; when `MetadataChanged` is returned the new
/// metadata is already visible through `channel_count` / `sample_rate`.
pub trait Sound: Send + Sized {
    /// The internal well-formedness invariant of this sound.
    spec fn inv(&self) -> bool;

    /// The current number of interleaved channels.
    spec fn spec_channel_count(&self) -> u16;

    /// The current number of samples per second per channel.
    spec fn spec_sample_rate(&self) -> u32;

    /// The exact relation between the state before a `next_sample` call, the
    /// state after it, and the returned value.
    spec fn next_sample_ens(&self, post: Self, r: Result<NextSample, Error>) -> bool;

    /// The exact relation between the states before and after an
    /// `on_start_of_batch` call.
    spec fn batch_ens(&self, post: Self) -> bool;

    /// Returns the number of channels.
    fn channel_count(&self) -> (r: u16)
        requires
            self.inv(),
        ensures
            r == self.spec_channel_count(),
    ;

    /// Returns the number of samples per second for each channel (e.g.
    /// 44,100).
    fn sample_rate(&self) -> (r: u32)
        requires
            self.inv(),
        ensures
            r == self.spec_sample_rate(),
    ;

    /// Retrieve the next sample, or a notification that something changed.
    ///
    /// After a sound has returned `Paused` it is expected to be pulled again
    /// in a later batch. After it has returned `Finished` it is not expected
    /// to be pulled again, but pulling it again returns `Finished` again
    /// rather than failing.
    fn next_sample(&mut self) -> (r: Result<NextSample, Error>)
        requires
            old(self).inv(),
        ensures
            final(self).inv(),
            old(self).next_sample_ens(*final(self), r),
    ;

    /// Called once whenever a new batch of samples is requested by the
    /// backend, before any sample of that batch is pulled.
    fn on_start_of_batch(&mut self)
        requires
            old(self).inv(),
        ensures
            final(self).inv(),
            old(self).batch_ens(*final(self)),
    ;

}

/// `post` is reachable from `pre` by exactly `n` pulls.
pub open spec fn pulls_to<S: Sound>(pre: S, post: S, n: nat) -> bool
    decreases n,
{
    if n == 0 {
        post == pre
    } else {
        exists|m: S, ir: Result<NextSample, Error>|
            pre.next_sample_ens(m, ir) && m.inv() && pulls_to(m, post, (n - 1) as nat)
    }
}

/// `post` is reachable from `pre` by zero or more pulls: nothing but its own
/// `next_sample` protocol was used to advance the sound.
pub open spec fn reachable_by_pulls<S: Sound>(pre: S, post: S) -> bool {
    exists|n: nat| pulls_to(pre, post, n)
}

/// Every sound can reach itself by zero pulls.
pub proof fn lemma_pulls_refl<S: Sound>(a: S)
    ensures
        reachable_by_pulls(a, a),
{
    assert(pulls_to(a, a, 0nat));
}

/// One pull is a reachability step.
pub proof fn lemma_pulls_step<S: Sound>(a: S, b: S, ir: Result<NextSample, Error>)
    requires
        a.next_sample_ens(b, ir),
        b.inv(),
    ensures
        reachable_by_pulls(a, b),
{
    assert(pulls_to(b, b, 0nat));
    assert(pulls_to(a, b, 1nat));
}

proof fn lemma_pulls_to_trans<S: Sound>(a: S, b: S, c: S, m: nat, n: nat)
    requires
        pulls_to(a, b, m),
        pulls_to(b, c, n),
    ensures
        pulls_to(a, c, m + n),
    decreases m,
{
    if m == 0 {
        assert(b == a);
    } else {
        let (mid, ir) = choose|mid: S, ir: Result<NextSample, Error>|
            a.next_sample_ens(mid, ir) && mid.inv() && pulls_to(mid, b, (m - 1) as nat);
        lemma_pulls_to_trans(mid, b, c, (m - 1) as nat, n);
        assert(a.next_sample_ens(mid, ir) && mid.inv() && pulls_to(mid, c, (m + n - 1) as nat));
    }
}

/// Reachability by pulls composes.
pub proof fn lemma_pulls_trans<S: Sound>(a: S, b: S, c: S)
    requires
        reachable_by_pulls(a, b),
        reachable_by_pulls(b, c),
    ensures
        reachable_by_pulls(a, c),
{
    let m = choose|m: nat| pulls_to(a, b, m);
    let n = choose|n: nat| pulls_to(b, c, n);
    lemma_pulls_to_trans(a, b, c, m, n);
}

/// `post` results from `pre` by one pull per entry of `vals`, each
/// returning exactly that sample.
pub open spec fn sample_run<S: Sound>(pre: S, post: S, vals: Seq<i16>) -> bool
    decreases vals.len(),
{
    if vals.len() == 0 {
        post == pre
    } else {
        exists|m: S|
            sample_run(pre, m, vals.drop_last()) && m.inv() && m.next_sample_ens(
                post,
                Result::<NextSample, Error>::Ok(NextSample::Sample(vals.last())),
            )
    }
}

/// One step of a skip: a pull and its effect on the remaining whole-sample
/// budget and on the channel count and sample rate it is expressed in. A
/// sample consumes one budget unit; a metadata change re-derives the budget
/// by exact rational conversion into new-metadata sample units (the
/// astronomically large products that exceed the intermediate integer type
/// saturate and are left unconstrained here, matching the arithmetic
/// actually performed).
pub open spec fn skip_step<S: Sound>(
    pre: S,
    b0: int,
    cc0: u16,
    sr0: u32,
    post: S,
    b1: int,
    cc1: u16,
    sr1: u32,
    ir: Result<NextSample, Error>,
) -> bool {
    &&& b0 > 0
    &&& pre.next_sample_ens(post, ir)
    &&& match ir {
        Ok(NextSample::Sample(_)) => b1 == b0 - 1 && cc1 == cc0 && sr1 == sr0,
        Ok(NextSample::MetadataChanged) => {
            &&& cc1 == post.spec_channel_count()
            &&& sr1 == post.spec_sample_rate()
            &&& if cc1 == cc0 && sr1 == sr0 {
                b1 == b0
            } else {
                &&& b1 >= 0
                &&& (cc1 == 0 || sr1 == 0 ==> b1 == 0)
                &&& (b0 * cc1 * sr1 <= u128::MAX ==> b1 == b0 * cc1 * sr1 / (cc0 * sr0))
            }
        },
        _ => false,
    }
}

/// The progress a skip has made: `n` pulls led from `pre` with budget `b0`
/// (expressed in `cc0`/`sr0` sample units) to `post` with budget `b1`, each
/// pull consuming or re-deriving the budget as [`skip_step`] describes.
pub open spec fn skip_chain<S: Sound>(
    pre: S,
    b0: int,
    cc0: u16,
    sr0: u32,
    post: S,
    b1: int,
    cc1: u16,
    sr1: u32,
    n: nat,
) -> bool
    decreases n,
{
    if n == 0 {
        post == pre && b1 == b0 && cc1 == cc0 && sr1 == sr0
    } else {
        exists|m: S, bm: int, ccm: u16, srm: u32, ir: Result<NextSample, Error>|
            #![trigger skip_step(m, bm, ccm, srm, post, b1, cc1, sr1, ir)]
            skip_chain(pre, b0, cc0, sr0, m, bm, ccm, srm, (n - 1) as nat) && m.inv()
                && skip_step(m, bm, ccm, srm, post, b1, cc1, sr1, ir)
    }
}

/// Frame helpers and convenience constructors, available on every sound.
///
/// These are separate from [`Sound`] itself only so that the trait's own
/// contract does not depend on the wrapper types or on the pull-reachability
/// relation; a blanket implementation provides them for every sound.
pub trait SoundExt: Sound {
    /// Returns the samples of the next frame, one per channel.
    ///
    /// It is the caller's responsibility to only call this at the start of a
    /// frame (i.e. the first channel is the next to be returned from
    /// `next_sample`).
    ///
    /// If anything besides a `Sample` is encountered while collecting the
    /// frame, that result is returned through `Err` and the partially
    /// collected frame is discarded. `Err(Ok(NextSample::Sample(..)))` is
    /// never returned.
    fn next_frame(&mut self) -> (r: Result<Vec<i16>, Result<NextSample, Error>>)
        requires
            old(self).inv(),
        ensures
            final(self).inv(),
            reachable_by_pulls(*old(self), *final(self)),
            (r matches Ok(v) ==> v@.len() == old(self).spec_channel_count() && sample_run(
                *old(self),
                *final(self),
                v@,
            )),
            (r matches Err(e) ==> !(e matches Ok(NextSample::Sample(_))) && exists|
                m: Self,
                vals: Seq<i16>,
            |
                sample_run(*old(self), m, vals) && m.inv() && vals.len() < old(
                    self,
                ).spec_channel_count() && m.next_sample_ens(*final(self), e)),
    {
        let mut samples: Vec<i16> = Vec::new();
        match self.append_next_frame_to(&mut samples) {
            Ok(()) => {
                proof {
                    assert(samples@.subrange(0, samples@.len() as int) =~= samples@);
                }
                Ok(samples)
            },
            Err(e) => Err(e),
        }
    }

    /// Same as [`next_frame`](SoundExt::next_frame) but the samples are
    /// appended to an existing `Vec`. On failure the partially collected
    /// samples are discarded, so the `Vec` is exactly as it was.
    fn append_next_frame_to(&mut self, samples: &mut Vec<i16>) -> (r: Result<
        (),
        Result<NextSample, Error>,
    >)
        requires
            old(self).inv(),
        ensures
            final(self).inv(),
            reachable_by_pulls(*old(self), *final(self)),
            (r matches Ok(()) ==> {
                &&& final(samples)@.len() == old(samples)@.len() + old(self).spec_channel_count()
                &&& final(samples)@.subrange(0, old(samples)@.len() as int) =~= old(samples)@
                &&& sample_run(
                    *old(self),
                    *final(self),
                    final(samples)@.subrange(
                        old(samples)@.len() as int,
                        final(samples)@.len() as int,
                    ),
                )
            }),
            (r matches Err(e) ==> {
                &&& final(samples)@ =~= old(samples)@
                &&& !(e matches Ok(NextSample::Sample(_)))
                &&& exists|m: Self, vals: Seq<i16>|
                    sample_run(*old(self), m, vals) && m.inv() && vals.len() < old(
                        self,
                    ).spec_channel_count() && m.next_sample_ens(*final(self), e)
            }),
    {
        proof {
            lemma_pulls_refl(*self);
        }
        let orig_len = samples.len();
        let cc = self.channel_count();
        let mut i: u16 = 0;
        while i < cc
            invariant
                i <= cc,
                cc == old(self).spec_channel_count(),
                self.inv(),
                reachable_by_pulls(*old(self), *self),
                orig_len == old(samples)@.len(),
                samples@.len() == orig_len + i,
                samples@.subrange(0, orig_len as int) =~= old(samples)@,
                sample_run(
                    *old(self),
                    *self,
                    samples@.subrange(orig_len as int, samples@.len() as int),
                ),
            decreases cc - i,
        {
            let ghost before = *self;
            let ghost run_pre = samples@.subrange(orig_len as int, samples@.len() as int);
            let next = self.next_sample();
            let ghost g = next;
            proof {
                lemma_pulls_step(before, *self, g);
                lemma_pulls_trans(*old(self), before, *self);
            }
            match next {
                Ok(NextSample::Sample(s)) => {
                    samples.push(s);
                    proof {
                        let run_post = samples@.subrange(orig_len as int, samples@.len() as int);
                        assert(run_post.drop_last() =~= run_pre);
                        assert(run_post.last() == s);
                        assert(samples@.subrange(0, orig_len as int) =~= old(samples)@);
                        assert(sample_run(*old(self), before, run_pre) && before.inv()
                            && before.next_sample_ens(
                            *self,
                            Result::<NextSample, Error>::Ok(NextSample::Sample(s)),
                        ));
                        assert(sample_run(*old(self), *self, run_post));
                    }
                },
                other => {
                    samples.truncate(orig_len);
                    proof {
                        assert(samples@ =~= old(samples)@);
                        assert(g == other);
                        assert(sample_run(*old(self), before, run_pre) && before.inv()
                            && run_pre.len() < cc && before.next_sample_ens(*self, other));
                    }
                    return Err(other);
                },
            }
            i += 1;
        }
        Ok(())
    }

    /// Skip the next `duration_micros` microseconds worth of samples by
    /// pulling them and throwing them away.
    ///
    /// The whole-sample budget is `duration_micros * channel_count *
    /// sample_rate / 1_000_000` and is re-derived across `MetadataChanged`
    /// with an exact rational conversion. `Ok(true)` means a pull chain
    /// consumed exactly that budget of `Sample` results; `Ok(false)` means a
    /// `Paused` or `Finished` ended the chain early (or, after an
    /// astronomically large number of consecutive announcements, a
    /// `MetadataChanged` from a sound treated as stuck); an error of the
    /// sound is returned as `Err`.
    fn skip(&mut self, duration_micros: u64) -> (r: Result<bool, Error>)
        requires
            old(self).inv(),
        ensures
            final(self).inv(),
            reachable_by_pulls(*old(self), *final(self)),
            ({
                let b0 = spec_skip_budget(
                    duration_micros,
                    old(self).spec_channel_count(),
                    old(self).spec_sample_rate(),
                );
                let cc0 = old(self).spec_channel_count();
                let sr0 = old(self).spec_sample_rate();
                &&& (b0 == 0 ==> r == Result::<bool, Error>::Ok(true) && *final(self) == *old(
                    self,
                ))
                &&& (r == Result::<bool, Error>::Ok(true) ==> exists|cc1: u16, sr1: u32, n: nat|
                    skip_chain(*old(self), b0, cc0, sr0, *final(self), 0, cc1, sr1, n))
                &&& (r == Result::<bool, Error>::Ok(false) ==> exists|
                    m: Self,
                    bm: int,
                    cc1: u16,
                    sr1: u32,
                    n: nat,
                    last: Result<NextSample, Error>,
                |
                    {
                        &&& skip_chain(*old(self), b0, cc0, sr0, m, bm, cc1, sr1, n)
                        &&& m.inv()
                        &&& bm > 0
                        &&& m.next_sample_ens(*final(self), last)
                        &&& (last == Result::<NextSample, Error>::Ok(NextSample::Paused) || last
                            == Result::<NextSample, Error>::Ok(NextSample::Finished) || last
                            == Result::<NextSample, Error>::Ok(NextSample::MetadataChanged))
                    })
                &&& (r matches Err(e) ==> exists|m: Self, bm: int, cc1: u16, sr1: u32, n: nat|
                    {
                        &&& skip_chain(*old(self), b0, cc0, sr0, m, bm, cc1, sr1, n)
                        &&& m.inv()
                        &&& bm > 0
                        &&& m.next_sample_ens(*final(self), Err(e))
                    })
            }),
    {
        proof {
            lemma_pulls_refl(*self);
        }
        let mut current_channel_count = self.channel_count();
        let mut current_sample_rate = self.sample_rate();
        let mut num_samples_remaining: u128 = initial_skip_budget(
            duration_micros,
            current_channel_count,
            current_sample_rate,
        );
        let ghost b0 = num_samples_remaining as int;
        let ghost cc0 = current_channel_count;
        let ghost sr0 = current_sample_rate;
        let ghost mut n: nat = 0nat;
        let mut metadata_fuel: u64 = u64::MAX;

        while num_samples_remaining > 0
            invariant
                self.inv(),
                reachable_by_pulls(*old(self), *self),
                cc0 == old(self).spec_channel_count(),
                sr0 == old(self).spec_sample_rate(),
                b0 == spec_skip_budget(duration_micros, cc0, sr0),
                skip_chain(
                    *old(self),
                    b0,
                    cc0,
                    sr0,
                    *self,
                    num_samples_remaining as int,
                    current_channel_count,
                    current_sample_rate,
                    n,
                ),
                num_samples_remaining > 0 ==> current_channel_count >= 1 && current_sample_rate
                    >= 1,
                n > 0 ==> b0 > 0,
            decreases metadata_fuel, num_samples_remaining,
        {
            proof {
                assert(b0 > 0);
            }
            let ghost before = *self;
            let ghost b_before = num_samples_remaining as int;
            let ghost cc_before = current_channel_count;
            let ghost sr_before = current_sample_rate;
            let pulled = self.next_sample();
            let ghost g = pulled;
            proof {
                lemma_pulls_step(before, *self, g);
                lemma_pulls_trans(*old(self), before, *self);
            }
            let next = match pulled {
                Ok(sample) => sample,
                Err(e) => {
                    proof {
                        assert(g == Err::<NextSample, Error>(e));
                        assert(skip_chain(
                            *old(self),
                            b0,
                            cc0,
                            sr0,
                            before,
                            b_before,
                            cc_before,
                            sr_before,
                            n,
                        ) && before.inv() && b_before > 0 && before.next_sample_ens(*self, g));
                    }
                    return Err(e);
                },
            };
            match next {
                NextSample::Sample(_) => {
                    num_samples_remaining = num_samples_remaining - 1;
                    proof {
                        assert(skip_step(
                            before,
                            b_before,
                            cc_before,
                            sr_before,
                            *self,
                            num_samples_remaining as int,
                            current_channel_count,
                            current_sample_rate,
                            g,
                        ));
                        n = n + 1;
                    }
                },
                NextSample::MetadataChanged => {
                    if metadata_fuel == 0 {
                        // The sound announced changes an unfillable number of
                        // times without a sample in between; treat it as
                        // stuck.
                        proof {
                            assert(g == Result::<NextSample, Error>::Ok(
                                NextSample::MetadataChanged,
                            ));
                            assert(skip_chain(
                                *old(self),
                                b0,
                                cc0,
                                sr0,
                                before,
                                b_before,
                                cc_before,
                                sr_before,
                                n,
                            ) && before.inv() && b_before > 0 && before.next_sample_ens(*self, g));
                        }
                        return Ok(false);
                    }
                    metadata_fuel = metadata_fuel - 1;
                    let new_channel_count = self.channel_count();
                    let new_sample_rate = self.sample_rate();
                    if new_channel_count != current_channel_count || new_sample_rate
                        != current_sample_rate {
                        num_samples_remaining = convert_skip_budget(
                            num_samples_remaining,
                            current_channel_count,
                            current_sample_rate,
                            new_channel_count,
                            new_sample_rate,
                        );
                        current_channel_count = new_channel_count;
                        current_sample_rate = new_sample_rate;
                    }
                    proof {
                        assert(skip_step(
                            before,
                            b_before,
                            cc_before,
                            sr_before,
                            *self,
                            num_samples_remaining as int,
                            current_channel_count,
                            current_sample_rate,
                            g,
                        ));
                        n = n + 1;
                    }
                },
                NextSample::Paused => {
                    proof {
                        assert(g == Result::<NextSample, Error>::Ok(NextSample::Paused));
                        assert(skip_chain(
                            *old(self),
                            b0,
                            cc0,
                            sr0,
                            before,
                            b_before,
                            cc_before,
                            sr_before,
                            n,
                        ) && before.inv() && b_before > 0 && before.next_sample_ens(*self, g));
                    }
                    return Ok(false);
                },
                NextSample::Finished => {
                    proof {
                        assert(g == Result::<NextSample, Error>::Ok(NextSample::Finished));
                        assert(skip_chain(
                            *old(self),
                            b0,
                            cc0,
                            sr0,
                            before,
                            b_before,
                            cc_before,
                            sr_before,
                            n,
                        ) && before.inv() && b_before > 0 && before.next_sample_ens(*self, g));
                    }
                    return Ok(false);
                },
            }
        }
        proof {
            assert(skip_chain(
                *old(self),
                b0,
                cc0,
                sr0,
                *self,
                0,
                current_channel_count,
                current_sample_rate,
                n,
            ));
        }
        Ok(true)
    }

    /// Read the entire sound into memory. The result can be cloned cheaply
    /// for efficient reuse.
    fn into_memory_sound(self) -> (r: Result<MemorySound, Error>)
        requires
            self.inv(),
        ensures
            (r matches Ok(m) ==> m.inv() && m.spec_channel_count() == self.spec_channel_count()
                && m.spec_sample_rate() == self.spec_sample_rate() && m.spec_cursor() == 0
                && !m.spec_should_loop()),
    {
        MemorySound::from_sound(self)
    }

    /// Read the entire sound into memory and loop it indefinitely.
    fn loop_from_memory(self) -> (r: Result<MemorySound, Error>)
        requires
            self.inv(),
        ensures
            (r matches Ok(m) ==> m.inv() && m.spec_channel_count() == self.spec_channel_count()
                && m.spec_sample_rate() == self.spec_sample_rate() && m.spec_cursor() == 0
                && m.spec_should_loop()),
    {
        let mut to_return = match MemorySound::from_sound(self) {
            Ok(m) => m,
            Err(e) => {
                return Err(e);
            },
        };
        to_return.set_looping(true);
        Ok(to_return)
    }

    /// Get notified via a [`std::sync::mpsc::Receiver`] when this sound has
    /// finished.
    fn with_completion_notifier(self) -> (r: (CompletionNotifier<Self>, mpsc::Receiver<()>))
        requires
            self.inv(),
        ensures
            r.0.inv(),
            r.0.inner == self,
            r.0.sender is Some,
    {
        CompletionNotifier::new(self)
    }

    /// Get notified via a [`tokio::sync::oneshot::Receiver`] when this sound
    /// has finished.
    fn with_async_completion_notifier(self) -> (r: (
        AsyncCompletionNotifier<Self>,
        tokio::sync::oneshot::Receiver<()>,
    ))
        requires
            self.inv(),
        ensures
            r.0.inv(),
            r.0.inner == self,
            r.0.sender is Some,
    {
        AsyncCompletionNotifier::new(self)
    }

    /// Allow the volume of the sound to be adjusted with `set_volume`.
    fn with_adjustable_volume(self) -> (r: AdjustableVolume<Self>)
        requires
            self.inv(),
        ensures
            r.inv(),
            r.inner == self,
            r.volume_adjustment.spec_numer() == 1 && r.volume_adjustment.spec_denom() == 1,
    {
        AdjustableVolume::new(self)
    }

    /// Allow the volume of the sound to be adjusted with `set_volume`, with
    /// an initial adjustment.
    fn with_adjustable_volume_of(self, volume_adjustment: Factor) -> (r: AdjustableVolume<Self>)
        requires
            self.inv(),
            volume_adjustment.wf(),
        ensures
            r.inv(),
            r.inner == self,
            r.volume_adjustment == volume_adjustment,
    {
        AdjustableVolume::new_with_volume(self, volume_adjustment)
    }

    /// Allow the speed of the sound to be adjusted with `set_speed`. This
    /// adjusts both speed and pitch.
    fn with_adjustable_speed(self) -> (r: AdjustableSpeed<Self>)
        requires
            self.inv(),
        ensures
            r.inv(),
            r.inner == self,
            r.speed_adjustment.spec_numer() == 1 && r.speed_adjustment.spec_denom() == 1,
            !r.speed_changed,
    {
        AdjustableSpeed::new(self)
    }

    /// Allow the speed of the sound to be adjusted with `set_speed`, with an
    /// initial adjustment. This adjusts both speed and pitch.
    fn with_adjustable_speed_of(self, speed_adjustment: Factor) -> (r: AdjustableSpeed<Self>)
        requires
            self.inv(),
            speed_adjustment.wf(),
        ensures
            r.inv(),
            r.inner == self,
            r.speed_adjustment == speed_adjustment,
            !r.speed_changed,
    {
        AdjustableSpeed::new_with_speed(self, speed_adjustment)
    }

    /// Allow the sound to be paused with `set_paused`. Starts unpaused.
    fn pausable(self) -> (r: Pausable<Self>)
        requires
            self.inv(),
        ensures
            r.inv(),
            r.inner == self,
            !r.paused,
    {
        Pausable::new(self)
    }

    /// Allow the sound to be paused with `set_paused`. Starts paused.
    fn paused(self) -> (r: Pausable<Self>)
        requires
            self.inv(),
        ensures
            r.inv(),
            r.inner == self,
            r.paused,
    {
        Pausable { inner: self, paused: true }
    }

    /// Play the first `duration_micros` microseconds of the sound, then
    /// finish even if samples remain.
    fn finish_after(self, duration_micros: u64) -> (r: FinishAfter<Self>)
        requires
            self.inv(),
        ensures
            r.inv(),
            r.inner == self,
            r.total_duration_micros == duration_micros,
            r.samples_remaining == crate::sounds::wrappers::spec_num_samples(
                duration_micros,
                self.spec_channel_count(),
                self.spec_sample_rate(),
            ),
    {
        FinishAfter::new(self, duration_micros)
    }
}

impl<S: Sound> SoundExt for S {

}

/// The whole-sample budget covered by `duration_micros` microseconds at the
/// given channel count and sample rate.
pub open spec fn spec_skip_budget(duration_micros: u64, channel_count: u16, sample_rate: u32) -> int {
    duration_micros * channel_count * sample_rate / 1_000_000
}

fn initial_skip_budget(duration_micros: u64, channel_count: u16, sample_rate: u32) -> (r: u128)
    ensures
        r == spec_skip_budget(duration_micros, channel_count, sample_rate),
        channel_count == 0 || sample_rate == 0 ==> r == 0,
{
    proof {
        assert(duration_micros * channel_count < u128::MAX && duration_micros * channel_count
            * sample_rate < u128::MAX) by (nonlinear_arith)
            requires
                duration_micros <= u64::MAX,
                channel_count <= u16::MAX,
                sample_rate <= u32::MAX,
        ;
        assert(channel_count == 0 || sample_rate == 0 ==> duration_micros * channel_count
            * sample_rate == 0) by (nonlinear_arith);
    }
    let n: u128 = duration_micros as u128 * channel_count as u128 * sample_rate as u128;
    n / 1_000_000
}

/// Re-derive a remaining sample budget after the metadata changed, keeping
/// the same time offset: `remaining * new_channel_count * new_sample_rate /
/// (old_channel_count * old_sample_rate)`, truncated. The (astronomically
/// large) products that do not fit the intermediate integer type saturate
/// instead of failing.
fn convert_skip_budget(
    remaining: u128,
    old_channel_count: u16,
    old_sample_rate: u32,
    new_channel_count: u16,
    new_sample_rate: u32,
) -> (r: u128)
    requires
        old_channel_count >= 1,
        old_sample_rate >= 1,
    ensures
        new_channel_count == 0 || new_sample_rate == 0 ==> r == 0,
        remaining * new_channel_count * new_sample_rate <= u128::MAX ==> r == remaining
            * new_channel_count * new_sample_rate / (old_channel_count * old_sample_rate),
{
    proof {
        assert(old_channel_count * old_sample_rate >= 1 && old_channel_count * old_sample_rate
            < u128::MAX) by (nonlinear_arith)
            requires
                old_channel_count >= 1,
                old_sample_rate >= 1,
                old_channel_count <= u16::MAX,
                old_sample_rate <= u32::MAX,
        ;
    }
    if new_channel_count == 0 || new_sample_rate == 0 {
        proof {
            assert(remaining * new_channel_count * new_sample_rate == 0) by (nonlinear_arith)
                requires
                    new_channel_count == 0 || new_sample_rate == 0,
            ;
        }
        return 0;
    }
    let numerator: u128 = match remaining.checked_mul(new_channel_count as u128) {
        Some(a) => match a.checked_mul(new_sample_rate as u128) {
            Some(b) => b,
            None => u128::MAX,
        },
        None => u128::MAX,
    };
    let denominator: u128 = old_channel_count as u128 * old_sample_rate as u128;
    proof {
        if remaining * new_channel_count * new_sample_rate <= u128::MAX {
            assert(remaining * new_channel_count <= remaining * new_channel_count
                * new_sample_rate) by (nonlinear_arith)
                requires
                    new_sample_rate >= 1,
                    remaining >= 0,
                    new_channel_count >= 0,
            ;
        }
    }
    numerator / denominator
}

} // verus!
