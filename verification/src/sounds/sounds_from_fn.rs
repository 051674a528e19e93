use vstd::prelude::*;

use crate::error::Error;
use crate::sound::NextSample;
use crate::sound::Sound;
use crate::sounds::memory_sound::MemorySound;

verus! {

/// A producer of sounds, called for the next sound whenever the previous one
/// has finished.
pub trait SoundGenerator: Send + Sized {
    /// The type of the produced sounds.
    type Produced: Sound;

    /// The internal well-formedness invariant of this generator.
    spec fn gen_inv(&self) -> bool;

    /// The exact relation between the states before and after a
    /// `next_sound` call and the produced sound.
    spec fn gen_ens(&self, post: Self, r: Option<Self::Produced>) -> bool;

    /// Produce the next sound to play, or `None` if no more sounds come.
    fn next_sound(&mut self) -> (r: Option<Self::Produced>)
        requires
            old(self).gen_inv(),
        ensures
            final(self).gen_inv(),
            old(self).gen_ens(*final(self), r),
            (r matches Some(s) ==> s.inv()),
    ;
}

/// A generator that produces the same in-memory sound over and over,
/// forever. Since [`MemorySound`]s share one buffer, each repetition is
/// cheap.
pub struct RepeatGenerator {
    /// The sound every call reproduces.
    pub template: MemorySound,
}

impl RepeatGenerator {
    /// Repeat `template` forever.
    pub fn new(template: MemorySound) -> (r: RepeatGenerator)
        requires
            template.inv(),
        ensures
            r.gen_inv(),
            r.template == template,
    {
        RepeatGenerator { template }
    }
}

impl SoundGenerator for RepeatGenerator {
    type Produced = MemorySound;

    open spec fn gen_inv(&self) -> bool {
        self.template.inv()
    }

    /// Every call produces the template sound, unchanged.
    open spec fn gen_ens(&self, post: Self, r: Option<MemorySound>) -> bool {
        &&& post == *self
        &&& r == Some(self.template)
    }

    fn next_sound(&mut self) -> Option<MemorySound> {
        let r = Some(self.template.clone());
        proof {
            assert(old(self).gen_ens(*self, r));
        }
        r
    }
}

/// A generator that produces a fixed sequence of sounds, in order, and then
/// no more.
pub struct SequenceGenerator<S: Sound> {
    /// The sounds still to be produced, in order.
    pub sounds: Vec<S>,
    /// How many times `next_sound` has been called (saturating).
    pub times_called: u64,
}

impl<S: Sound> SequenceGenerator<S> {
    /// Produce the given sounds in order, then `None` forever.
    pub fn new(sounds: Vec<S>) -> (r: SequenceGenerator<S>)
        requires
            forall|i: int| 0 <= i < sounds@.len() ==> #[trigger] sounds@[i].inv(),
        ensures
            r.gen_inv(),
            r.sounds == sounds,
            r.times_called == 0,
    {
        SequenceGenerator { sounds, times_called: 0 }
    }

    /// How many times a sound was asked for.
    pub fn calls(&self) -> (r: u64)
        ensures
            r == self.times_called,
    {
        self.times_called
    }
}

impl<S: Sound> SoundGenerator for SequenceGenerator<S> {
    type Produced = S;

    open spec fn gen_inv(&self) -> bool {
        forall|i: int| 0 <= i < self.sounds@.len() ==> #[trigger] self.sounds@[i].inv()
    }

    /// Produces the first remaining sound, or `None` when none remain.
    open spec fn gen_ens(&self, post: Self, r: Option<S>) -> bool {
        &&& post.times_called == if self.times_called < u64::MAX {
            self.times_called + 1
        } else {
            self.times_called as int
        }
        &&& if self.sounds@.len() == 0 {
            &&& r is None
            &&& post.sounds@ =~= self.sounds@
        } else {
            &&& r == Some(self.sounds@[0])
            &&& post.sounds@ =~= self.sounds@.drop_first()
        }
    }

    fn next_sound(&mut self) -> Option<S> {
        if self.times_called < u64::MAX {
            self.times_called = self.times_called + 1;
        }
        let r: Option<S> = if self.sounds.len() == 0 {
            None
        } else {
            Some(self.sounds.remove(0))
        };
        proof {
            assert(old(self).gen_ens(*self, r));
        }
        r
    }
}

/// `cur`'s next pull reports that it has finished.
pub open spec fn sound_finished<C: Sound>(cur: C) -> bool {
    exists|dead: C|
        #![trigger cur.next_sample_ens(dead, Result::<NextSample, Error>::Ok(NextSample::Finished))]
        cur.next_sample_ens(dead, Result::<NextSample, Error>::Ok(NextSample::Finished))
            && dead.inv()
}

/// `cur`'s next pull fails with exactly the result `r`.
pub open spec fn sound_failed<C: Sound>(cur: C, r: Result<NextSample, Error>) -> bool {
    exists|dead: C|
        #![trigger cur.next_sample_ens(dead, r)]
        cur.next_sample_ens(dead, r) && dead.inv()
}

/// One seamless hand-over: the current sound finished, the generator
/// produced a successor with identical metadata, and the bookkeeping was
/// updated, so play continues with no announcement.
pub open spec fn handover_step<G: SoundGenerator>(
    a: SoundsFromFn<G>,
    b: SoundsFromFn<G>,
) -> bool {
    &&& (a.current matches Some(cur) && sound_finished(cur))
    &&& a.generator.gen_ens(b.generator, b.current)
    &&& b.current is Some
    &&& b.spec_channel_count() == a.current_channel_count
    &&& b.spec_sample_rate() == a.current_sample_rate
    &&& b.current_channel_count == b.spec_channel_count()
    &&& b.current_sample_rate == b.spec_sample_rate()
}

/// `b` results from `a` by `n` seamless hand-overs.
pub open spec fn handover_chain<G: SoundGenerator>(
    a: SoundsFromFn<G>,
    b: SoundsFromFn<G>,
    n: nat,
) -> bool
    decreases n,
{
    if n == 0 {
        b == a
    } else {
        exists|m: SoundsFromFn<G>|
            #![trigger handover_step(m, b)]
            handover_chain(a, m, (n - 1) as nat) && m.inv() && handover_step(m, b)
    }
}

/// How a run of hand-overs ends, from the state `h`: the generator runs out
/// and the whole sound finishes; a successor with other metadata takes over,
/// announced; or the playing sound yields an ordinary result.
pub open spec fn handover_end<G: SoundGenerator>(
    h: SoundsFromFn<G>,
    post: SoundsFromFn<G>,
    r: Result<NextSample, Error>,
) -> bool {
    ||| {
        &&& (h.current matches Some(cur) && sound_finished(cur))
        &&& h.generator.gen_ens(post.generator, post.current)
        &&& post.current is None
        &&& r == Result::<NextSample, Error>::Ok(NextSample::Finished)
        &&& post.current_channel_count == post.spec_channel_count()
        &&& post.current_sample_rate == post.spec_sample_rate()
    }
    ||| {
        &&& (h.current matches Some(cur) && sound_finished(cur))
        &&& h.generator.gen_ens(post.generator, post.current)
        &&& post.current is Some
        &&& r == Result::<NextSample, Error>::Ok(NextSample::MetadataChanged)
        &&& (post.spec_channel_count() != h.current_channel_count || post.spec_sample_rate()
            != h.current_sample_rate)
        &&& post.current_channel_count == post.spec_channel_count()
        &&& post.current_sample_rate == post.spec_sample_rate()
    }
    ||| (h.current matches Some(cur) && (match r {
        Ok(NextSample::Sample(_)) | Ok(NextSample::Paused) => (post.current matches Some(c2)
            && cur.next_sample_ens(c2, r) && c2.inv()) && post == (SoundsFromFn {
            current: post.current,
            ..h
        }),
        Ok(NextSample::MetadataChanged) => {
            &&& (post.current matches Some(c2) && cur.next_sample_ens(c2, r) && c2.inv())
            &&& post.generator == h.generator
            &&& post.current_channel_count == post.spec_channel_count()
            &&& post.current_sample_rate == post.spec_sample_rate()
        },
        Ok(NextSample::Finished) => false,
        _ => {
            &&& sound_failed(cur, r)
            &&& h.generator.gen_ens(post.generator, post.current)
            &&& post.current_channel_count == post.spec_channel_count()
            &&& post.current_sample_rate == post.spec_sample_rate()
        },
    }))
}

/// Play sounds produced by a generator, one after the other.
///
/// The generator is asked for a sound whenever the previous one has
/// finished; once it produces `None` this sound finishes and the generator
/// is not asked again. If a produced sound fails, that sound is dropped, the
/// error is surfaced once, and the generator is asked again on the next
/// pull. This allows sounds that repeat forever without holding all samples
/// in memory.
pub struct SoundsFromFn<G: SoundGenerator> {
    /// The producer of sounds.
    pub generator: G,
    /// The currently playing sound, if any.
    pub current: Option<G::Produced>,
    /// The channel count last announced downstream.
    pub current_channel_count: u16,
    /// The sample rate last announced downstream.
    pub current_sample_rate: u32,
}

impl<G: SoundGenerator> SoundsFromFn<G> {
    /// Call `generator` for sounds that are played to completion, one after
    /// the other.
    pub fn new(generator: G) -> (r: SoundsFromFn<G>)
        requires
            generator.gen_inv(),
        ensures
            r.inv(),
            exists|g2: G, s: Option<G::Produced>|
                generator.gen_ens(g2, s) && r.generator == g2 && r.current == s,
    {
        let mut generator = generator;
        let ghost gen_pre = generator;
        let current = generator.next_sound();
        let ghost s = current;
        let mut to_return = SoundsFromFn {
            generator,
            current,
            current_channel_count: 0,
            current_sample_rate: 0,
        };
        to_return.update_metadata();
        proof {
            assert(gen_pre.gen_ens(to_return.generator, s));
        }
        to_return
    }

    /// Record the current sound's metadata for later comparison.
    fn update_metadata(&mut self)
        requires
            old(self).inv(),
        ensures
            final(self).inv(),
            final(self).generator == old(self).generator,
            final(self).current == old(self).current,
            final(self).current_channel_count == final(self).spec_channel_count(),
            final(self).current_sample_rate == final(self).spec_sample_rate(),
    {
        self.current_channel_count = match &self.current {
            Some(s) => s.channel_count(),
            None => 1,
        };
        self.current_sample_rate = match &self.current {
            Some(s) => s.sample_rate(),
            None => 1000,
        };
    }
}

impl<G: SoundGenerator> Sound for SoundsFromFn<G> {
    open spec fn inv(&self) -> bool {
        &&& self.generator.gen_inv()
        &&& (self.current matches Some(s) ==> s.inv())
    }

    open spec fn spec_channel_count(&self) -> u16 {
        match self.current {
            Some(s) => s.spec_channel_count(),
            None => 1u16,
        }
    }

    open spec fn spec_sample_rate(&self) -> u32 {
        match self.current {
            Some(s) => s.spec_sample_rate(),
            None => 1000u32,
        }
    }

    /// With no current sound the pull is `Finished`. Otherwise the current
    /// sound's pull is forwarded exactly for samples, pauses, metadata
    /// changes and errors (an error regenerates the current sound). When the
    /// current sound finishes, the generator provides followers until one
    /// produces samples; that many-step hand-over is not pinned further by
    /// this relation.
    open spec fn next_sample_ens(&self, post: Self, r: Result<NextSample, Error>) -> bool {
        match self.current {
            None => {
                &&& r == Result::<NextSample, Error>::Ok(NextSample::Finished)
                &&& post == *self
            },
            Some(cur) => exists|mid: G::Produced, ir: Result<NextSample, Error>|
                cur.next_sample_ens(mid, ir) && mid.inv() && (match ir {
                    Ok(NextSample::Sample(_)) | Ok(NextSample::Paused) => {
                        &&& r == ir
                        &&& post == (SoundsFromFn { current: Some(mid), ..*self })
                    },
                    Ok(NextSample::MetadataChanged) => {
                        &&& r == ir
                        &&& post.current == Some(mid)
                        &&& post.generator == self.generator
                        &&& post.current_channel_count == post.spec_channel_count()
                        &&& post.current_sample_rate == post.spec_sample_rate()
                    },
                    Err(_) => {
                        &&& r == ir
                        &&& post.current_channel_count == post.spec_channel_count()
                        &&& post.current_sample_rate == post.spec_sample_rate()
                        &&& exists|g2: G, s2: Option<G::Produced>|
                            self.generator.gen_ens(g2, s2) && post.generator == g2 && post.current
                                == s2
                    },
                    // When the current sound finishes, the generator provides
                    // successors: each with identical metadata continues
                    // seamlessly (a hand-over), until one differs and is
                    // announced, one yields an ordinary result, or the
                    // generator runs out and the whole sound finishes.
                    // An unfillable run of hand-overs is cut off with a
                    // pause.
                    Ok(NextSample::Finished) => exists|h: SoundsFromFn<G>, n: nat|
                        #![trigger handover_chain(*self, h, n)]
                        handover_chain(*self, h, n) && h.inv() && (handover_end(h, post, r) || (n
                            >= u64::MAX && r == Result::<NextSample, Error>::Ok(
                            NextSample::Paused,
                        ) && post == h)),
                }),
        }
    }

    open spec fn batch_ens(&self, post: Self) -> bool {
        &&& post.generator == self.generator
        &&& post.current_channel_count == self.current_channel_count
        &&& post.current_sample_rate == self.current_sample_rate
        &&& match self.current {
            None => post.current == self.current,
            Some(cur) => post.current matches Some(c2) && cur.batch_ens(c2),
        }
    }

    fn channel_count(&self) -> u16 {
        let r = match &self.current {
            Some(s) => s.channel_count(),
            None => 1,
        };
        proof {
            assert(r == self.spec_channel_count());
        }
        r
    }

    fn sample_rate(&self) -> u32 {
        let r = match &self.current {
            Some(s) => s.sample_rate(),
            None => 1000,
        };
        proof {
            assert(r == self.spec_sample_rate());
        }
        r
    }

    #[verifier::loop_isolation(false)]
    fn next_sample(&mut self) -> Result<NextSample, Error> {
        let mut fuel: u64 = u64::MAX;
        let ghost pre = *self;
        let ghost mut handovers: nat = 0nat;
        let mut first_iteration = true;
        loop
            invariant
                self.inv(),
                first_iteration ==> *self == pre && fuel >= 1 && handovers == 0,
                handovers + fuel == u64::MAX,
                !first_iteration ==> handover_chain(pre, *self, handovers) && (
                pre.current matches Some(c) && sound_finished(c)) && self.current is Some,
            decreases fuel,
        {
            let ghost htop = *self;
            if fuel == 0 {
                // The generator kept producing sounds that finish without a
                // single sample; stop trying and report a pause.
                let r: Result<NextSample, Error> = Ok(NextSample::Paused);
                proof {
                    assert(handover_chain(pre, htop, handovers));
                    assert(htop.inv());
                    assert(handovers >= u64::MAX);
                    assert(pre.next_sample_ens(*self, r));
                }
                return r;
            }
            fuel = fuel - 1;

            if self.current.is_none() {
                let r: Result<NextSample, Error> = Ok(NextSample::Finished);
                proof {
                    assert(pre.next_sample_ens(*self, r));
                }
                return r;
            }
            let ghost cur_pre = self.current->Some_0;
            let sample = match &mut self.current {
                Some(c) => c.next_sample(),
                None => Ok(NextSample::Finished),
            };
            let ghost mid = self.current->Some_0;
            let ghost g = sample;
            match sample {
                Err(e) => {
                    let next = self.generator.next_sound();
                    self.current = next;
                    self.update_metadata();
                    proof {
                        if first_iteration {
                            assert(cur_pre.next_sample_ens(mid, g) && mid.inv());
                        } else {
                            assert(sound_failed(cur_pre, Err(e)));
                            assert(handover_chain(pre, htop, handovers));
                            assert(htop.inv());
                            assert(handover_end(htop, *self, Err(e)));
                        }
                        assert(pre.next_sample_ens(*self, Err(e)));
                    }
                    return Err(e);
                },
                Ok(NextSample::MetadataChanged) => {
                    self.update_metadata();
                    let r: Result<NextSample, Error> = Ok(NextSample::MetadataChanged);
                    proof {
                        assert(cur_pre.next_sample_ens(mid, g) && mid.inv());
                        if !first_iteration {
                            assert(handover_chain(pre, htop, handovers));
                            assert(htop.inv());
                            assert(handover_end(htop, *self, r));
                        }
                        assert(pre.next_sample_ens(*self, r));
                    }
                    return r;
                },
                Ok(NextSample::Sample(s)) => {
                    let r: Result<NextSample, Error> = Ok(NextSample::Sample(s));
                    proof {
                        assert(cur_pre.next_sample_ens(mid, g) && mid.inv());
                        if !first_iteration {
                            assert(handover_chain(pre, htop, handovers));
                            assert(htop.inv());
                            assert(handover_end(htop, *self, r));
                        }
                        assert(pre.next_sample_ens(*self, r));
                    }
                    return r;
                },
                Ok(NextSample::Paused) => {
                    let r: Result<NextSample, Error> = Ok(NextSample::Paused);
                    proof {
                        assert(cur_pre.next_sample_ens(mid, g) && mid.inv());
                        if !first_iteration {
                            assert(handover_chain(pre, htop, handovers));
                            assert(htop.inv());
                            assert(handover_end(htop, *self, r));
                        }
                        assert(pre.next_sample_ens(*self, r));
                    }
                    return r;
                },
                Ok(NextSample::Finished) => {
                    proof {
                        assert(cur_pre.next_sample_ens(mid, g) && mid.inv());
                        assert(sound_finished(cur_pre));
                    }
                    let old_channel_count = self.current_channel_count;
                    let old_sample_rate = self.current_sample_rate;
                    let next = self.generator.next_sound();
                    self.current = next;
                    self.update_metadata();
                    first_iteration = false;
                    if self.current.is_none() {
                        let r: Result<NextSample, Error> = Ok(NextSample::Finished);
                        proof {
                            assert(handover_chain(pre, htop, handovers));
                            assert(htop.inv());
                            assert(handover_end(htop, *self, r));
                            assert(pre.next_sample_ens(*self, r));
                        }
                        return r;
                    }
                    if old_sample_rate != self.current_sample_rate || old_channel_count
                        != self.current_channel_count {
                        let r: Result<NextSample, Error> = Ok(NextSample::MetadataChanged);
                        proof {
                            assert(handover_chain(pre, htop, handovers));
                            assert(htop.inv());
                            assert(handover_end(htop, *self, r));
                            assert(pre.next_sample_ens(*self, r));
                        }
                        return r;
                    }
                    // Same metadata: a seamless hand-over; keep pulling from
                    // the fresh sound.
                    proof {
                        assert(handover_chain(pre, htop, handovers));
                        assert(htop.inv());
                        assert(handover_step(htop, *self));
                        handovers = handovers + 1;
                        assert(handover_chain(pre, *self, handovers));
                    }
                },
            }
        }
    }

    fn on_start_of_batch(&mut self) {
        match &mut self.current {
            Some(cur) => {
                cur.on_start_of_batch();
            },
            None => {},
        }
        proof {
            assert(old(self).batch_ens(*self));
        }
    }
}

} // verus!
