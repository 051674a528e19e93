use vstd::prelude::*;

use crate::error::Error;
use crate::sound::NextSample;
use crate::sound::Sound;
use std::sync::Arc;

verus! {

/// A Sound that stores all of its samples on the heap.
///
/// The heap samples can be shared between multiple `MemorySound`s that can be
/// played simultaneously: cloning is cheap and never copies the sample
/// buffer. Optionally the sound can repeat forever.
pub struct MemorySound {
    pub samples: Arc<Vec<i16>>,
    pub channel_count: u16,
    pub sample_rate: u32,
    pub next_sample: usize,
    pub should_loop: bool,
}

/// A [`NextSample::MetadataChanged`] was returned while reading a sound into
/// a [`MemorySound`], which is not supported.
pub struct UnsupportedMetadataChangeError {}

impl UnsupportedMetadataChangeError {
    /// A description of this failure.
    pub fn message(&self) -> (r: String)
        ensures
            r@ =~= "unsupported MetadataChanged encountered when consuming Sound"@,
    {
        "unsupported MetadataChanged encountered when consuming Sound".to_owned()
    }
}

/// Relies on `std::sync::Arc::clone`: the clone is a new handle to the same
/// allocation, so it carries the same value.
#[verifier::external_body]
fn arc_clone<T>(a: &Arc<T>) -> (r: Arc<T>)
    ensures
        r == *a,
{
    Arc::clone(a)
}

/// `buf` extended with zero samples up to the next frame boundary of
/// `channel_count` interleaved channels.
pub open spec fn zero_pad_to_frame(buf: Seq<i16>, channel_count: u16) -> Seq<i16> {
    if channel_count >= 1 && buf.len() % (channel_count as nat) != 0 {
        buf + Seq::new(
            ((channel_count as nat) - buf.len() % (channel_count as nat)) as nat,
            |i: int| 0i16,
        )
    } else {
        buf
    }
}

/// One collecting pull: a sample appends to the buffer; an announcement
/// that keeps the channel count `cc` and sample rate `sr` realigns the
/// buffer to a frame boundary with zero samples; nothing else continues a
/// collection.
pub open spec fn collect_step<S: Sound>(
    pre: S,
    cc: u16,
    sr: u32,
    post: S,
    buf0: Seq<i16>,
    buf1: Seq<i16>,
    ir: Result<NextSample, Error>,
) -> bool {
    &&& pre.next_sample_ens(post, ir)
    &&& match ir {
        Ok(NextSample::Sample(s)) => buf1 =~= buf0.push(s),
        Ok(NextSample::MetadataChanged) => post.spec_channel_count() == cc
            && post.spec_sample_rate() == sr && buf1 =~= zero_pad_to_frame(buf0, cc),
        _ => false,
    }
}

/// `post` and the collected buffer `buf` result from pulling `pre` `n`
/// times, each pull collecting as [`collect_step`] describes.
pub open spec fn collect_chain<S: Sound>(
    pre: S,
    cc: u16,
    sr: u32,
    post: S,
    buf: Seq<i16>,
    n: nat,
) -> bool
    decreases n,
{
    if n == 0 {
        post == pre && buf =~= Seq::<i16>::empty()
    } else {
        exists|m: S, bufm: Seq<i16>, ir: Result<NextSample, Error>|
            #![trigger collect_step(m, cc, sr, post, bufm, buf, ir)]
            collect_chain(pre, cc, sr, m, bufm, (n - 1) as nat) && m.inv() && collect_step(
                m,
                cc,
                sr,
                post,
                bufm,
                buf,
                ir,
            )
    }
}

/// `endm` is about to pause or finish: its next pull yields `Paused` or
/// `Finished`.
pub open spec fn collect_terminated<S: Sound>(endm: S) -> bool {
    exists|s2: S, last: Result<NextSample, Error>|
        #![trigger endm.next_sample_ens(s2, last)]
        endm.next_sample_ens(s2, last) && (last == Result::<NextSample, Error>::Ok(
            NextSample::Paused,
        ) || last == Result::<NextSample, Error>::Ok(NextSample::Finished))
}

/// `endm`'s next pull fails with exactly the error `e`.
pub open spec fn collect_failed<S: Sound>(endm: S, e: Error) -> bool {
    exists|s2: S|
        #![trigger endm.next_sample_ens(s2, Err(e))]
        endm.next_sample_ens(s2, Err(e))
}

/// `endm`'s next pull announces a change away from the channel count `cc`
/// or the sample rate `sr`.
pub open spec fn collect_changed_metadata<S: Sound>(endm: S, cc: u16, sr: u32) -> bool {
    exists|s2: S|
        #![trigger endm.next_sample_ens(s2, Result::<NextSample, Error>::Ok(NextSample::MetadataChanged))]
        endm.next_sample_ens(s2, Result::<NextSample, Error>::Ok(NextSample::MetadataChanged)) && (
        s2.spec_channel_count() != cc || s2.spec_sample_rate() != sr)
}

impl MemorySound {
    /// The shared sample buffer, interleaved by channel.
    pub open spec fn spec_samples(&self) -> Seq<i16> {
        self.samples@
    }

    /// The index of the next sample to return.
    pub open spec fn spec_cursor(&self) -> int {
        self.next_sample as int
    }

    /// Whether the sound starts over instead of finishing.
    pub open spec fn spec_should_loop(&self) -> bool {
        self.should_loop
    }

    /// Create a `MemorySound` by consuming another sound and storing its
    /// samples until it returns `Finished` or `Paused` (a sound producing an
    /// unfillable number of results is cut off as if it had paused).
    ///
    /// The stored buffer is exactly the consumed sound's samples in order;
    /// after an in-sync metadata announcement the buffer is realigned to a
    /// frame boundary with zero samples, so the following sample lands on
    /// the first channel. If an error is encountered it is returned and any
    /// already obtained samples are lost. It is not supported for the
    /// consumed sound to change its channel count or sample rate: that fails
    /// with an `IoError` describing an [`UnsupportedMetadataChangeError`].
    #[verifier::loop_isolation(false)]
    #[verifier::rlimit(50)]
    pub fn from_sound<S: Sound>(orig: S) -> (r: Result<MemorySound, Error>)
        requires
            orig.inv(),
        ensures
            (r matches Ok(m) ==> {
                &&& m.inv()
                &&& m.spec_channel_count() == orig.spec_channel_count()
                &&& m.spec_sample_rate() == orig.spec_sample_rate()
                &&& m.spec_cursor() == 0
                &&& !m.spec_should_loop()
                &&& exists|endm: S, n: nat|
                    {
                        &&& collect_chain(
                            orig,
                            orig.spec_channel_count(),
                            orig.spec_sample_rate(),
                            endm,
                            m.spec_samples(),
                            n,
                        )
                        &&& endm.inv()
                        &&& (collect_terminated(endm) || n >= u64::MAX)
                    }
            }),
            (r matches Err(e) ==> exists|endm: S, buf: Seq<i16>, n: nat|
                {
                    &&& collect_chain(
                        orig,
                        orig.spec_channel_count(),
                        orig.spec_sample_rate(),
                        endm,
                        buf,
                        n,
                    )
                    &&& endm.inv()
                    &&& (collect_failed(endm, e) || (collect_changed_metadata(
                        endm,
                        orig.spec_channel_count(),
                        orig.spec_sample_rate(),
                    ) && e is IoError))
                }),
    {
        let mut orig = orig;
        let ghost orig0 = orig;
        let channel_count = orig.channel_count();
        let sample_rate = orig.sample_rate();

        let mut samples: Vec<i16> = Vec::new();
        let ghost mut n: nat = 0nat;
        let mut fuel: u64 = u64::MAX;

        loop
            invariant
                orig.inv(),
                channel_count == orig0.spec_channel_count(),
                sample_rate == orig0.spec_sample_rate(),
                orig0.inv(),
                collect_chain(orig0, channel_count, sample_rate, orig, samples@, n),
                n + fuel == u64::MAX,
            decreases fuel,
        {
            if fuel == 0 {
                // An unfillable amount of samples was produced without the
                // sound pausing or finishing; stop collecting as if it had
                // paused.
                let ghost done = samples@;
                let m = MemorySound {
                    samples: Arc::new(samples),
                    channel_count,
                    sample_rate,
                    next_sample: 0,
                    should_loop: false,
                };
                proof {
                    assert(m.spec_samples() =~= done);
                    assert(collect_chain(
                        orig0,
                        channel_count,
                        sample_rate,
                        orig,
                        m.spec_samples(),
                        n,
                    ) && orig.inv() && n >= u64::MAX as nat);
                }
                return Ok(m);
            }
            fuel = fuel - 1;
            let ghost before = orig;
            let ghost buf_before = samples@;
            let pulled = orig.next_sample();
            let ghost g = pulled;
            let sample = match pulled {
                Ok(s) => s,
                Err(e) => {
                    proof {
                        assert(g == Err::<NextSample, Error>(e));
                        assert(before.next_sample_ens(orig, Err(e)));
                        assert(collect_failed(before, e));
                        assert(collect_chain(
                            orig0,
                            channel_count,
                            sample_rate,
                            before,
                            buf_before,
                            n,
                        ) && before.inv());
                    }
                    return Err(e);
                },
            };
            match sample {
                NextSample::Sample(s) => {
                    samples.push(s);
                    proof {
                        assert(g == Result::<NextSample, Error>::Ok(NextSample::Sample(s)));
                        assert(samples@ =~= buf_before.push(s));
                        assert(collect_step(
                            before,
                            channel_count,
                            sample_rate,
                            orig,
                            buf_before,
                            samples@,
                            g,
                        ));
                        n = n + 1;
                        assert(collect_chain(orig0, channel_count, sample_rate, orig, samples@, n));
                    }
                },
                NextSample::MetadataChanged => {
                    if orig.channel_count() != channel_count || orig.sample_rate() != sample_rate {
                        proof {
                            assert(before.next_sample_ens(
                                orig,
                                Result::<NextSample, Error>::Ok(NextSample::MetadataChanged),
                            ));
                            assert(collect_changed_metadata(before, channel_count, sample_rate));
                            assert(collect_chain(
                                orig0,
                                channel_count,
                                sample_rate,
                                before,
                                buf_before,
                                n,
                            ) && before.inv());
                        }
                        return Err(Error::IoError(UnsupportedMetadataChangeError {}.message()));
                    }
                    // Some sounds emit MetadataChanged just to signal that the
                    // channels re-synchronize. Pad the collected samples with
                    // zeros up to a frame boundary so that the sample after
                    // the change lands on the first channel.
                    if channel_count >= 1 {
                        let channel_idx: usize = samples.len() % channel_count as usize;
                        if channel_idx != 0 {
                            let outputs_to_stay_in_sync: usize = channel_count as usize
                                - channel_idx;
                            let mut j: usize = 0;
                            while j < outputs_to_stay_in_sync
                                invariant
                                    j <= outputs_to_stay_in_sync,
                                    samples@ =~= buf_before + Seq::new(j as nat, |i: int| 0i16),
                                decreases outputs_to_stay_in_sync - j,
                            {
                                let ghost before_pad = samples@;
                                samples.push(0);
                                proof {
                                    assert(samples@ =~= buf_before + Seq::new(
                                        (j + 1) as nat,
                                        |i: int| 0i16,
                                    ));
                                }
                                j = j + 1;
                            }
                        }
                    }
                    proof {
                        assert(g == Result::<NextSample, Error>::Ok(NextSample::MetadataChanged));
                        assert(samples@ =~= zero_pad_to_frame(buf_before, channel_count));
                        assert(collect_step(
                            before,
                            channel_count,
                            sample_rate,
                            orig,
                            buf_before,
                            samples@,
                            g,
                        ));
                        n = n + 1;
                        assert(collect_chain(orig0, channel_count, sample_rate, orig, samples@, n));
                    }
                },
                NextSample::Paused => {
                    let ghost done = samples@;
                    let ghost terminal = orig;
                    let m = MemorySound {
                        samples: Arc::new(samples),
                        channel_count,
                        sample_rate,
                        next_sample: 0,
                        should_loop: false,
                    };
                    proof {
                        assert(m.spec_samples() =~= done);
                        assert(g == Result::<NextSample, Error>::Ok(NextSample::Paused));
                        assert(before.next_sample_ens(
                            terminal,
                            Result::<NextSample, Error>::Ok(NextSample::Paused),
                        ));
                        assert(collect_terminated(before));
                        assert(collect_chain(
                            orig0,
                            channel_count,
                            sample_rate,
                            before,
                            m.spec_samples(),
                            n,
                        ) && before.inv() && before.next_sample_ens(terminal, g));
                    }
                    return Ok(m);
                },
                NextSample::Finished => {
                    let ghost done = samples@;
                    let ghost terminal = orig;
                    let m = MemorySound {
                        samples: Arc::new(samples),
                        channel_count,
                        sample_rate,
                        next_sample: 0,
                        should_loop: false,
                    };
                    proof {
                        assert(m.spec_samples() =~= done);
                        assert(g == Result::<NextSample, Error>::Ok(NextSample::Finished));
                        assert(before.next_sample_ens(
                            terminal,
                            Result::<NextSample, Error>::Ok(NextSample::Finished),
                        ));
                        assert(collect_terminated(before));
                        assert(collect_chain(
                            orig0,
                            channel_count,
                            sample_rate,
                            before,
                            m.spec_samples(),
                            n,
                        ) && before.inv() && before.next_sample_ens(terminal, g));
                    }
                    return Ok(m);
                },
            }
        }
    }

    /// Create a `MemorySound` from raw sample data, interleaved by channel.
    pub fn from_samples(samples: Arc<Vec<i16>>, channel_count: u16, sample_rate: u32) -> (r:
        MemorySound)
        ensures
            r.inv(),
            r.spec_samples() == samples@,
            r.spec_channel_count() == channel_count,
            r.spec_sample_rate() == sample_rate,
            r.spec_cursor() == 0,
            !r.spec_should_loop(),
    {
        MemorySound { samples, channel_count, sample_rate, next_sample: 0, should_loop: false }
    }

    /// Instead of finishing after playing all samples, start back at the
    /// beginning and continue forever.
    pub fn set_looping(&mut self, should_loop: bool)
        requires
            old(self).inv(),
        ensures
            final(self).inv(),
            final(self).spec_should_loop() == should_loop,
            final(self).spec_samples() == old(self).spec_samples(),
            final(self).spec_cursor() == old(self).spec_cursor(),
            final(self).spec_channel_count() == old(self).spec_channel_count(),
            final(self).spec_sample_rate() == old(self).spec_sample_rate(),
    {
        self.should_loop = should_loop;
    }
}

impl Clone for MemorySound {
    /// The clone plays the same shared samples from the same position.
    fn clone(&self) -> (r: Self)
        ensures
            r == *self,
    {
        MemorySound {
            samples: arc_clone(&self.samples),
            channel_count: self.channel_count,
            sample_rate: self.sample_rate,
            next_sample: self.next_sample,
            should_loop: self.should_loop,
        }
    }
}

impl Sound for MemorySound {
    open spec fn inv(&self) -> bool {
        0 <= self.spec_cursor() <= self.spec_samples().len()
    }

    open spec fn spec_channel_count(&self) -> u16 {
        self.channel_count
    }

    open spec fn spec_sample_rate(&self) -> u32 {
        self.sample_rate
    }

    /// Yields the stored samples in order and then finishes, or starts over
    /// if looping is on and the buffer is not empty.
    open spec fn next_sample_ens(&self, post: Self, r: Result<NextSample, Error>) -> bool {
        &&& post.spec_samples() == self.spec_samples()
        &&& post.spec_channel_count() == self.spec_channel_count()
        &&& post.spec_sample_rate() == self.spec_sample_rate()
        &&& post.spec_should_loop() == self.spec_should_loop()
        &&& if self.spec_cursor() < self.spec_samples().len() {
            &&& r == Result::<NextSample, Error>::Ok(
                NextSample::Sample(self.spec_samples()[self.spec_cursor()]),
            )
            &&& post.spec_cursor() == self.spec_cursor() + 1
        } else if self.spec_should_loop() && self.spec_samples().len() > 0 {
            &&& r == Result::<NextSample, Error>::Ok(NextSample::Sample(self.spec_samples()[0]))
            &&& post.spec_cursor() == 1
        } else {
            &&& r == Result::<NextSample, Error>::Ok(NextSample::Finished)
            &&& post.spec_cursor() == self.spec_cursor()
        }
    }

    open spec fn batch_ens(&self, post: Self) -> bool {
        post == *self
    }

    fn channel_count(&self) -> u16 {
        self.channel_count
    }

    fn sample_rate(&self) -> u32 {
        self.sample_rate
    }

    fn next_sample(&mut self) -> Result<NextSample, Error> {
        let r: Result<NextSample, Error> = if self.next_sample < self.samples.len() {
            let s = self.samples[self.next_sample];
            self.next_sample = self.next_sample + 1;
            Ok(NextSample::Sample(s))
        } else if self.should_loop && self.samples.len() > 0 {
            let s = self.samples[0];
            self.next_sample = 1;
            Ok(NextSample::Sample(s))
        } else {
            Ok(NextSample::Finished)
        };
        proof {
            assert(old(self).next_sample_ens(*self, r));
        }
        r
    }

    fn on_start_of_batch(&mut self) {
        proof {
            assert(old(self).batch_ens(*self));
        }
    }
}

} // verus!
