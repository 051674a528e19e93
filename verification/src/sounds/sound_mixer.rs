use vstd::prelude::*;

use crate::channels::QueueMessage;
use crate::error::Error;
use crate::factor::clamp_to_i16;
use crate::sounds::ConstantValueSound;
use crate::sound::NextSample;
use crate::sound::Sound;
use crate::sounds::wrappers::spec_get_type;
use crate::sounds::wrappers::AddSound;
use crate::sounds::wrappers::ChannelCountConverter;
use crate::sounds::wrappers::ClearSounds;
use crate::sounds::wrappers::ConverterType;
use crate::sounds::wrappers::Controlled;
use crate::sounds::wrappers::SampleRateConverter;
use crate::sounds::wrappers::Wrapper;

verus! {

/// A sound added to a mixer, normalized to the mixer's channel count and
/// sample rate.
pub type MixedSound<S> = SampleRateConverter<ChannelCountConverter<S>>;

/// `a + b` saturated into the `i16` range.
pub open spec fn spec_sat_add(a: i16, b: i16) -> i16 {
    clamp_to_i16(a + b)
}

fn sat_add_i16(a: i16, b: i16) -> (r: i16)
    ensures
        r == spec_sat_add(a, b),
{
    let t: i32 = a as i32 + b as i32;
    if t > 32767 {
        32767
    } else if t < -32768 {
        -32768
    } else {
        t as i16
    }
}

/// `cur` is reachable from `pre` by `n` pulls that all returned
/// `MetadataChanged`.
pub open spec fn meta_chain<C: Sound>(pre: C, cur: C, n: nat) -> bool
    decreases n,
{
    if n == 0 {
        cur == pre
    } else {
        exists|m: C|
            pre.next_sample_ens(m, Result::<NextSample, Error>::Ok(NextSample::MetadataChanged))
                && m.inv() && meta_chain(m, cur, (n - 1) as nat)
    }
}

/// `post` is reachable from `pre` by `n` pulls returning `MetadataChanged`
/// followed by one pull returning `last`.
pub open spec fn child_pull_chain<C: Sound>(
    pre: C,
    post: C,
    last: Result<NextSample, Error>,
    n: nat,
) -> bool
    decreases n,
{
    if n == 0 {
        pre.next_sample_ens(post, last)
    } else {
        exists|m: C|
            pre.next_sample_ens(m, Result::<NextSample, Error>::Ok(NextSample::MetadataChanged))
                && m.inv() && child_pull_chain(m, post, last, (n - 1) as nat)
    }
}

/// `post` is reachable from `pre` by zero or more `MetadataChanged` pulls
/// followed by one pull returning `last`.
pub open spec fn child_pulled<C: Sound>(pre: C, post: C, last: Result<NextSample, Error>) -> bool {
    exists|n: nat| child_pull_chain(pre, post, last, n)
}

proof fn lemma_meta_chain_extend<C: Sound>(a: C, b: C, c: C, n: nat)
    requires
        meta_chain(a, b, n),
        b.next_sample_ens(c, Result::<NextSample, Error>::Ok(NextSample::MetadataChanged)),
        c.inv(),
    ensures
        meta_chain(a, c, n + 1),
    decreases n,
{
    if n == 0 {
        assert(b == a);
        assert(meta_chain(c, c, 0nat));
    } else {
        let m = choose|m: C|
            a.next_sample_ens(m, Result::<NextSample, Error>::Ok(NextSample::MetadataChanged))
                && m.inv() && meta_chain(m, b, (n - 1) as nat);
        lemma_meta_chain_extend(m, b, c, (n - 1) as nat);
    }
}

proof fn lemma_chain_finish<C: Sound>(a: C, b: C, c: C, last: Result<NextSample, Error>, n: nat)
    requires
        meta_chain(a, b, n),
        b.next_sample_ens(c, last),
    ensures
        child_pull_chain(a, c, last, n),
    decreases n,
{
    if n == 0 {
        assert(b == a);
    } else {
        let m = choose|m: C|
            a.next_sample_ens(m, Result::<NextSample, Error>::Ok(NextSample::MetadataChanged))
                && m.inv() && meta_chain(m, b, (n - 1) as nat);
        lemma_chain_finish(m, b, c, last, (n - 1) as nat);
    }
}

/// What became of one active child during one mixer pull; each outcome
/// records the pull result that decided it.
pub enum MixOutcome<C> {
    /// The child contributed a sample and stays active.
    Gave(i16, C),
    /// The child paused (or announced a change that could desynchronize the
    /// channels) and waits in the paused pool until the next batch.
    Parked(Result<NextSample, Error>, C),
    /// The child finished or failed with the recorded result and was
    /// discarded in this recorded final state.
    Dropped(Result<NextSample, Error>, C),
}

/// `post` was pulled from `pre` with retries on `MetadataChanged` only if
/// `at_channel0`: away from the first output channel the chain is a single
/// pull.
pub open spec fn child_pulled_bounded<C: Sound>(
    pre: C,
    post: C,
    last: Result<NextSample, Error>,
    at_channel0: bool,
) -> bool {
    exists|n: nat|
        #![trigger child_pull_chain(pre, post, last, n)]
        child_pull_chain(pre, post, last, n) && (n == 0 || at_channel0)
}

/// `pre` announced metadata changes an unfillable number of times in a row
/// before reaching `post`.
pub open spec fn announced_past_bound<C: Sound>(
    pre: C,
    post: C,
    last: Result<NextSample, Error>,
) -> bool {
    exists|n: nat|
        #![trigger child_pull_chain(pre, post, last, n)]
        child_pull_chain(pre, post, last, n) && n >= u32::MAX
}

/// Whether `oc` is a possible outcome of pulling the child `pre` once. Only
/// at the first output channel (`at_channel0`) is the child re-pulled while
/// it announces metadata changes; away from it a single announcement parks
/// the child at once, and even at the first channel an unfillable run of
/// announcements eventually parks it.
pub open spec fn outcome_ok<C: Sound>(pre: C, oc: MixOutcome<C>, at_channel0: bool) -> bool {
    match oc {
        MixOutcome::Gave(s, c2) => c2.inv() && child_pulled_bounded(
            pre,
            c2,
            Result::<NextSample, Error>::Ok(NextSample::Sample(s)),
            at_channel0,
        ),
        MixOutcome::Parked(last, c2) => c2.inv() && child_pulled_bounded(
            pre,
            c2,
            last,
            at_channel0,
        ) && (last == Result::<NextSample, Error>::Ok(NextSample::Paused) || (last == Result::<
            NextSample,
            Error,
        >::Ok(NextSample::MetadataChanged) && (!at_channel0 || announced_past_bound(
            pre,
            c2,
            last,
        )))),
        MixOutcome::Dropped(last, c2) => child_pulled_bounded(pre, c2, last, at_channel0) && (last
            == Result::<NextSample, Error>::Ok(NextSample::Finished) || last is Err),
    }
}

/// The children that stay active after the outcomes `outs`, in order.
pub open spec fn gave_children<C>(outs: Seq<MixOutcome<C>>) -> Seq<C>
    decreases outs.len(),
{
    if outs.len() == 0 {
        Seq::empty()
    } else {
        let rest = gave_children(outs.drop_last());
        match outs.last() {
            MixOutcome::Gave(_, c) => rest.push(c),
            _ => rest,
        }
    }
}

/// The children parked into the paused pool by the outcomes `outs`, in
/// order.
pub open spec fn parked_children<C>(outs: Seq<MixOutcome<C>>) -> Seq<C>
    decreases outs.len(),
{
    if outs.len() == 0 {
        Seq::empty()
    } else {
        let rest = parked_children(outs.drop_last());
        match outs.last() {
            MixOutcome::Parked(_, c) => rest.push(c),
            _ => rest,
        }
    }
}

/// The contributed samples of `outs` accumulated with saturating addition,
/// in insertion order, starting from silence.
pub open spec fn mix_fold<C>(outs: Seq<MixOutcome<C>>) -> i16
    decreases outs.len(),
{
    if outs.len() == 0 {
        0i16
    } else {
        match outs.last() {
            MixOutcome::Gave(s, _) => spec_sat_add(mix_fold(outs.drop_last()), s),
            _ => mix_fold(outs.drop_last()),
        }
    }
}

/// A sound as the mixer wraps it upon `add`: converted to the mixer's
/// channel count and sample rate, with fresh conversion state.
pub open spec fn freshly_wrapped<S: Sound>(occ: u16, osr: u32, sound: S, w: MixedSound<S>) -> bool {
    &&& w.inner.inner == sound
    &&& w.inner.to_count == occ
    &&& Some(w.inner.converter_type) == spec_get_type(sound.spec_channel_count(), occ)
    &&& w.to_rate == osr
    &&& !w.channel_count_changed
    &&& !w.inner_paused
    &&& w.output_frame@.len() == 0
    &&& w.current_frame@.len() == 0
    &&& w.next_output_frame_pos_in_chunk == 0
    &&& (sound.spec_sample_rate() == osr ==> w.from_rate_scaled == 1 && w.to_rate_scaled == 1)
    &&& w.inv()
}

/// Every held sound of `olds`, unwrapped from its converters, was wrapped
/// again for the output format `occ`/`osr`, in order; a sound whose channel
/// count cannot be converted to `occ` is discarded.
pub open spec fn rewrapped_all<S: Sound>(
    occ: u16,
    osr: u32,
    olds: Seq<MixedSound<S>>,
    news: Seq<MixedSound<S>>,
) -> bool
    decreases olds.len(),
{
    if olds.len() == 0 {
        news.len() == 0
    } else {
        let sound = olds[0].inner.inner;
        match spec_get_type(sound.spec_channel_count(), occ) {
            Some(_) => news.len() >= 1 && freshly_wrapped(occ, osr, sound, news[0])
                && rewrapped_all(occ, osr, olds.drop_first(), news.drop_first()),
            None => rewrapped_all(occ, osr, olds.drop_first(), news),
        }
    }
}

proof fn lemma_rewrapped_push<S: Sound>(
    occ: u16,
    osr: u32,
    olds: Seq<MixedSound<S>>,
    news: Seq<MixedSound<S>>,
    x: MixedSound<S>,
    w_opt: Option<MixedSound<S>>,
)
    requires
        rewrapped_all(occ, osr, olds, news),
        (match spec_get_type(x.inner.inner.spec_channel_count(), occ) {
            Some(_) => w_opt matches Some(w) && freshly_wrapped(occ, osr, x.inner.inner, w),
            None => w_opt is None,
        }),
    ensures
        rewrapped_all(
            occ,
            osr,
            olds.push(x),
            match w_opt {
                Some(w) => news.push(w),
                None => news,
            },
        ),
    decreases olds.len(),
{
    if olds.len() == 0 {
        assert(olds.push(x)[0] == x);
        assert(olds.push(x).drop_first() =~= Seq::<MixedSound<S>>::empty());
        assert(rewrapped_all(
            occ,
            osr,
            Seq::<MixedSound<S>>::empty(),
            Seq::<MixedSound<S>>::empty(),
        ));
        match w_opt {
            Some(w) => {
                assert(news.push(w)[0] == w);
                assert(news.push(w).drop_first() =~= Seq::<MixedSound<S>>::empty());
                assert(rewrapped_all(occ, osr, olds.push(x), news.push(w)));
            },
            None => {
                assert(rewrapped_all(occ, osr, Seq::<MixedSound<S>>::empty(), news));
                assert(rewrapped_all(occ, osr, olds.push(x), news));
            },
        }
    } else {
        assert(olds.push(x).drop_first() =~= olds.drop_first().push(x));
        assert(olds.push(x)[0] == olds[0]);
        let sound = olds[0].inner.inner;
        match spec_get_type(sound.spec_channel_count(), occ) {
            Some(_) => {
                lemma_rewrapped_push(occ, osr, olds.drop_first(), news.drop_first(), x, w_opt);
                match w_opt {
                    Some(w) => {
                        assert(news.push(w)[0] == news[0]);
                        assert(news.push(w).drop_first() =~= news.drop_first().push(w));
                        assert(rewrapped_all(occ, osr, olds.push(x), news.push(w)));
                    },
                    None => {
                        assert(rewrapped_all(occ, osr, olds.push(x), news));
                    },
                }
            },
            None => {
                lemma_rewrapped_push(occ, osr, olds.drop_first(), news, x, w_opt);
            },
        }
    }
}

/// Mix multiple sounds together to be played simultaneously.
///
/// Added sounds are wrapped in converters so that they conform to the
/// mixer's fixed output channel count and sample rate. Per output sample,
/// every active child contributes one sample and the contributions are
/// accumulated with saturating addition. A child that pauses moves to the
/// paused pool until the start of the next batch; a child that finishes or
/// fails is discarded while its siblings keep playing. The mixer reports
/// `Finished` only when both pools are empty.
pub struct SoundMixer<S: Sound> {
    /// The actively playing children.
    pub sounds: Vec<MixedSound<S>>,
    /// Children paused until the start of the next batch.
    pub paused_sounds: Vec<MixedSound<S>>,
    /// The channel count of the mixed output.
    pub output_channel_count: u16,
    /// The sample rate of the mixed output.
    pub output_sample_rate: u32,
    /// Whether an output format change still has to be announced.
    pub metadata_changed: bool,
    /// The channel of the next output sample.
    pub next_output_channel_idx: u16,
}

impl<S: Sound> SoundMixer<S> {
    /// Create an empty mixer with the output channel count and sample rate
    /// every added sound is converted to.
    pub fn new(output_channel_count: u16, output_sample_rate: u32) -> (r: SoundMixer<S>)
        requires
            output_channel_count >= 1,
            output_sample_rate >= 1,
        ensures
            r.inv(),
            r.sounds@.len() == 0,
            r.paused_sounds@.len() == 0,
            r.output_channel_count == output_channel_count,
            r.output_sample_rate == output_sample_rate,
            !r.metadata_changed,
            r.next_output_channel_idx == 0,
    {
        SoundMixer {
            sounds: Vec::new(),
            paused_sounds: Vec::new(),
            output_channel_count,
            output_sample_rate,
            metadata_changed: false,
            next_output_channel_idx: 0,
        }
    }

    /// Wrap `sound` for this mixer's output format, or `None` if its channel
    /// count cannot be converted.
    fn wrap(&self, sound: S) -> (r: Option<MixedSound<S>>)
        requires
            self.inv(),
            sound.inv(),
        ensures
            (match spec_get_type(sound.spec_channel_count(), self.output_channel_count) {
                Some(_) => r matches Some(w) && freshly_wrapped(
                    self.output_channel_count,
                    self.output_sample_rate,
                    sound,
                    w,
                ),
                None => r is None,
            }),
    {
        let occ = self.output_channel_count;
        let cc = sound.channel_count();
        if occ == cc || (cc == 1 && occ == 2) || (cc == 2 && occ == 1) {
            let converted = ChannelCountConverter::new(sound, occ);
            let wrapped = SampleRateConverter::new(converted, self.output_sample_rate);
            Some(wrapped)
        } else {
            None
        }
    }

    /// Set the output channel count and sample rate; every held sound is
    /// re-wrapped for the new format. Must only be called when the next
    /// sample is for the first channel of a frame.
    pub fn set_output_channel_count_and_sample_rate(
        &mut self,
        output_channel_count: u16,
        output_sample_rate: u32,
    )
        requires
            old(self).inv(),
            output_channel_count >= 1,
            output_sample_rate >= 1,
            old(self).next_output_channel_idx == 0,
        ensures
            final(self).inv(),
            final(self).output_channel_count == output_channel_count,
            final(self).output_sample_rate == output_sample_rate,
            final(self).metadata_changed,
            final(self).next_output_channel_idx == 0,
            final(self).paused_sounds@.len() == 0,
            rewrapped_all(
                output_channel_count,
                output_sample_rate,
                old(self).sounds@ + old(self).paused_sounds@,
                final(self).sounds@,
            ),
    {
        self.metadata_changed = true;
        self.output_channel_count = output_channel_count;
        self.output_sample_rate = output_sample_rate;

        // Gather every held sound, active then paused, unwrap it, and wrap
        // it again with the new output format.
        let mut olds: Vec<MixedSound<S>> = Vec::new();
        core::mem::swap(&mut self.sounds, &mut olds);
        let ghost combined = old(self).sounds@ + old(self).paused_sounds@;
        while self.paused_sounds.len() > 0
            invariant
                self.inv_pools(),
                forall|i: int| 0 <= i < olds@.len() ==> #[trigger] olds@[i].inv(),
                combined =~= old(self).sounds@ + old(self).paused_sounds@,
                olds@ + self.paused_sounds@ =~= combined,
                self.sounds@.len() == 0,
                self.output_channel_count == output_channel_count,
                self.output_sample_rate == output_sample_rate,
                self.metadata_changed,
                self.next_output_channel_idx == 0,
            decreases self.paused_sounds@.len(),
        {
            let s = self.paused_sounds.remove(0);
            olds.push(s);
        }
        let ghost mut taken: int = 0;
        proof {
            assert(olds@ =~= combined);
            assert(combined.subrange(0, 0) =~= Seq::<MixedSound<S>>::empty());
        }
        while olds.len() > 0
            invariant
                self.inv_pools(),
                forall|i: int| 0 <= i < olds@.len() ==> #[trigger] olds@[i].inv(),
                0 <= taken <= combined.len(),
                taken + olds@.len() == combined.len(),
                olds@ =~= combined.subrange(taken, combined.len() as int),
                rewrapped_all(
                    output_channel_count,
                    output_sample_rate,
                    combined.subrange(0, taken),
                    self.sounds@,
                ),
                self.paused_sounds@.len() == 0,
                self.output_channel_count == output_channel_count,
                self.output_sample_rate == output_sample_rate,
                self.metadata_changed,
                self.next_output_channel_idx == 0,
            decreases olds@.len(),
        {
            let w = olds.remove(0);
            let ghost wg = w;
            proof {
                assert(wg == combined[taken]);
            }
            let converted = w.into_inner();
            proof {
                assert(wg.inv());
                assert(wg.inner.inv());
                assert(converted == wg.inner);
            }
            let ghost cg = converted;
            let sound = converted.into_inner();
            proof {
                assert(cg.inner.inv());
                assert(sound == cg.inner);
                assert(sound.inv());
            }
            let ghost sounds_before = self.sounds@;
            let wrapped_opt = self.wrap(sound);
            let ghost w_opt_g = wrapped_opt;
            match wrapped_opt {
                Some(wrapped) => {
                    self.sounds.push(wrapped);
                },
                None => {
                    // The sound's channel count cannot be converted to the
                    // new output count; it is discarded.
                },
            }
            proof {
                lemma_rewrapped_push(
                    output_channel_count,
                    output_sample_rate,
                    combined.subrange(0, taken),
                    sounds_before,
                    wg,
                    w_opt_g,
                );
                assert(combined.subrange(0, taken).push(wg) =~= combined.subrange(0, taken + 1));
                taken = taken + 1;
            }
        }
        proof {
            assert(combined.subrange(0, combined.len() as int) =~= combined);
        }
    }

    /// The parts of the invariant about the held sounds alone.
    pub open spec fn inv_pools(&self) -> bool {
        &&& forall|i: int| 0 <= i < self.sounds@.len() ==> #[trigger] self.sounds@[i].inv()
        &&& forall|i: int|
            0 <= i < self.paused_sounds@.len() ==> #[trigger] self.paused_sounds@[i].inv()
        &&& self.output_channel_count >= 1
        &&& self.output_sample_rate >= 1
        &&& self.next_output_channel_idx < self.output_channel_count
        &&& (self.metadata_changed ==> self.next_output_channel_idx == 0)
    }
}

impl<S: Sound> Sound for SoundMixer<S> {
    open spec fn inv(&self) -> bool {
        self.inv_pools()
    }

    open spec fn spec_channel_count(&self) -> u16 {
        self.output_channel_count
    }

    open spec fn spec_sample_rate(&self) -> u32 {
        self.output_sample_rate
    }

    /// A pending output format change is announced first. Otherwise every
    /// active child is pulled once (with retries while it announces
    /// changes): the sample contributions accumulate with saturating
    /// addition in insertion order, paused children move to the paused pool,
    /// finished and failing children are discarded. The mixed sample is
    /// produced while any child stays active; with only paused children the
    /// mixer reports `Paused`, with none at all `Finished` — and an empty
    /// mixer stays empty forever. Errors of children are never surfaced.
    open spec fn next_sample_ens(&self, post: Self, r: Result<NextSample, Error>) -> bool {
        if self.metadata_changed {
            &&& r == Result::<NextSample, Error>::Ok(NextSample::MetadataChanged)
            &&& post == (SoundMixer { metadata_changed: false, ..*self })
        } else {
            exists|outs: Seq<MixOutcome<MixedSound<S>>>|
                {
                    &&& outs.len() == self.sounds@.len()
                    &&& (forall|i: int|
                        0 <= i < outs.len() ==> outcome_ok(
                            self.sounds@[i],
                            #[trigger] outs[i],
                            self.next_output_channel_idx == 0,
                        ))
                    &&& post.sounds@ =~= gave_children(outs)
                    &&& post.paused_sounds@ =~= self.paused_sounds@ + parked_children(outs)
                    &&& post.output_channel_count == self.output_channel_count
                    &&& post.output_sample_rate == self.output_sample_rate
                    &&& !post.metadata_changed
                    &&& if post.sounds@.len() > 0 {
                        &&& r == Result::<NextSample, Error>::Ok(
                            NextSample::Sample(mix_fold(outs)),
                        )
                        &&& post.next_output_channel_idx as int == (
                        if self.next_output_channel_idx + 1 == self.output_channel_count {
                            0
                        } else {
                            self.next_output_channel_idx + 1
                        })
                    } else if post.paused_sounds@.len() > 0 {
                        &&& r == Result::<NextSample, Error>::Ok(NextSample::Paused)
                        &&& post.next_output_channel_idx == 0
                    } else {
                        &&& r == Result::<NextSample, Error>::Ok(NextSample::Finished)
                        &&& post.next_output_channel_idx == 0
                    }
                }
        }
    }

    /// Paused children return to the active pool, then every child is told
    /// the batch starts.
    open spec fn batch_ens(&self, post: Self) -> bool {
        &&& post.sounds@.len() == self.sounds@.len() + self.paused_sounds@.len()
        &&& (forall|i: int|
            0 <= i < post.sounds@.len() ==> (self.sounds@ + self.paused_sounds@)[i].batch_ens(
                #[trigger] post.sounds@[i],
            ))
        &&& post.paused_sounds@.len() == 0
        &&& post.output_channel_count == self.output_channel_count
        &&& post.output_sample_rate == self.output_sample_rate
        &&& post.metadata_changed == self.metadata_changed
        &&& post.next_output_channel_idx == self.next_output_channel_idx
    }

    fn channel_count(&self) -> u16 {
        proof {
            assert(self.output_channel_count == self.spec_channel_count());
        }
        self.output_channel_count
    }

    fn sample_rate(&self) -> u32 {
        proof {
            assert(self.output_sample_rate == self.spec_sample_rate());
        }
        self.output_sample_rate
    }

    #[verifier::rlimit(50)]
    fn next_sample(&mut self) -> Result<NextSample, Error> {
        if self.metadata_changed {
            self.metadata_changed = false;
            let r: Result<NextSample, Error> = Ok(NextSample::MetadataChanged);
            proof {
                assert(old(self).next_sample_ens(*self, r));
            }
            return r;
        }
        let at_channel0 = self.next_output_channel_idx == 0;
        let mut output: i16 = 0;
        let mut olds: Vec<MixedSound<S>> = Vec::new();
        core::mem::swap(&mut self.sounds, &mut olds);
        let ghost mut outs: Seq<MixOutcome<MixedSound<S>>> = Seq::empty();

        while olds.len() > 0
            invariant
                outs.len() + olds@.len() == old(self).sounds@.len(),
                olds@ =~= old(self).sounds@.subrange(
                    outs.len() as int,
                    old(self).sounds@.len() as int,
                ),
                forall|i: int|
                    0 <= i < outs.len() ==> outcome_ok(
                        old(self).sounds@[i],
                        #[trigger] outs[i],
                        at_channel0,
                    ),
                self.sounds@ =~= gave_children(outs),
                self.paused_sounds@ =~= old(self).paused_sounds@ + parked_children(outs),
                output == mix_fold(outs),
                forall|i: int| 0 <= i < self.sounds@.len() ==> #[trigger] self.sounds@[i].inv(),
                forall|i: int|
                    0 <= i < self.paused_sounds@.len() ==> #[trigger] self.paused_sounds@[i].inv(),
                forall|i: int| 0 <= i < olds@.len() ==> #[trigger] olds@[i].inv(),
                self.output_channel_count == old(self).output_channel_count,
                self.output_sample_rate == old(self).output_sample_rate,
                self.next_output_channel_idx == old(self).next_output_channel_idx,
                !self.metadata_changed,
            decreases olds@.len(),
        {
            let mut child = olds.remove(0);
            let ghost orig_child = child;
            let ghost outs0 = outs;
            let ghost sounds0 = self.sounds@;
            let ghost paused0 = self.paused_sounds@;
            let ghost output0 = output;
            let ghost mut n: nat = 0nat;
            let mut fuel: u32 = u32::MAX;
            loop
                invariant_except_break
                    child.inv(),
                    meta_chain(orig_child, child, n),
                    n + fuel == u32::MAX,
                    !at_channel0 ==> n == 0,
                    self.output_channel_count == old(self).output_channel_count,
                    self.output_sample_rate == old(self).output_sample_rate,
                    self.next_output_channel_idx == old(self).next_output_channel_idx,
                    !self.metadata_changed,
                    outs == outs0,
                    self.sounds@ == sounds0,
                    self.paused_sounds@ == paused0,
                    output == output0,
                    sounds0 =~= gave_children(outs0),
                    paused0 =~= old(self).paused_sounds@ + parked_children(outs0),
                    output0 == mix_fold(outs0),
                    forall|i: int| 0 <= i < self.sounds@.len() ==> #[trigger] self.sounds@[i].inv(),
                    forall|i: int|
                        0 <= i < self.paused_sounds@.len() ==> #[trigger] self.paused_sounds@[i].inv(),
                ensures
                    outs.len() == outs0.len() + 1,
                    outs =~= outs0.push(outs.last()),
                    outcome_ok(orig_child, outs.last(), at_channel0),
                    self.output_channel_count == old(self).output_channel_count,
                    self.output_sample_rate == old(self).output_sample_rate,
                    self.next_output_channel_idx == old(self).next_output_channel_idx,
                    !self.metadata_changed,
                    self.sounds@ =~= gave_children(outs),
                    self.paused_sounds@ =~= old(self).paused_sounds@ + parked_children(outs),
                    output == mix_fold(outs),
                    forall|i: int| 0 <= i < self.sounds@.len() ==> #[trigger] self.sounds@[i].inv(),
                    forall|i: int|
                        0 <= i < self.paused_sounds@.len() ==> #[trigger] self.paused_sounds@[i].inv(),
                decreases fuel,
            {
                let ghost child_before = child;
                let res = child.next_sample();
                let ghost gres = res;
                match &res {
                    Ok(NextSample::Sample(s)) => {
                        let s = *s;
                        proof {
                            lemma_chain_finish(orig_child, child_before, child, gres, n);
                            assert(child_pull_chain(
                                orig_child,
                                child,
                                Result::<NextSample, Error>::Ok(NextSample::Sample(s)),
                                n,
                            ) && (n == 0 || at_channel0));
                            assert(child_pulled_bounded(
                                orig_child,
                                child,
                                Result::<NextSample, Error>::Ok(NextSample::Sample(s)),
                                at_channel0,
                            ));
                            assert(outcome_ok(orig_child, MixOutcome::Gave(s, child), at_channel0));
                            outs = outs.push(MixOutcome::Gave(s, child));
                            assert(outs.drop_last() =~= outs0);
                        }
                        output = sat_add_i16(output, s);
                        self.sounds.push(child);
                        break ;
                    },
                    Ok(NextSample::MetadataChanged) => {
                        if at_channel0 && fuel > 0 {
                            // The metadata cannot really have changed (the
                            // child is wrapped in converters): pull again
                            // right away.
                            proof {
                                lemma_meta_chain_extend(orig_child, child_before, child, n);
                                n = n + 1;
                            }
                            fuel = fuel - 1;
                        } else {
                            // A change announced away from the first channel
                            // could desynchronize the channels: park the
                            // child until the next batch.
                            proof {
                                lemma_chain_finish(orig_child, child_before, child, gres, n);
                                assert(child_pull_chain(orig_child, child, gres, n) && (n == 0
                                    || at_channel0));
                                assert(child_pulled_bounded(orig_child, child, gres, at_channel0));
                                assert(!at_channel0 || n >= u32::MAX);
                                assert(!at_channel0 || announced_past_bound(
                                    orig_child,
                                    child,
                                    gres,
                                ));
                                assert(outcome_ok(
                                    orig_child,
                                    MixOutcome::Parked(gres, child),
                                    at_channel0,
                                ));
                                outs = outs.push(MixOutcome::Parked(gres, child));
                                assert(outs.drop_last() =~= outs0);
                            }
                            self.paused_sounds.push(child);
                            break ;
                        }
                    },
                    Ok(NextSample::Paused) => {
                        proof {
                            lemma_chain_finish(orig_child, child_before, child, gres, n);
                            assert(child_pull_chain(orig_child, child, gres, n) && (n == 0
                                || at_channel0));
                            assert(child_pulled_bounded(orig_child, child, gres, at_channel0));
                            assert(outcome_ok(
                                orig_child,
                                MixOutcome::Parked(gres, child),
                                at_channel0,
                            ));
                            outs = outs.push(MixOutcome::Parked(gres, child));
                            assert(outs.drop_last() =~= outs0);
                        }
                        self.paused_sounds.push(child);
                        break ;
                    },
                    Ok(NextSample::Finished) => {
                        proof {
                            lemma_chain_finish(orig_child, child_before, child, gres, n);
                            assert(child_pull_chain(orig_child, child, gres, n) && (n == 0
                                || at_channel0));
                            assert(child_pulled_bounded(orig_child, child, gres, at_channel0));
                            assert(outcome_ok(
                                orig_child,
                                MixOutcome::Dropped(gres, child),
                                at_channel0,
                            ));
                            outs = outs.push(MixOutcome::Dropped(gres, child));
                            assert(outs.drop_last() =~= outs0);
                        }
                        break ;
                    },
                    Err(_) => {
                        // A failing child is discarded; its siblings keep
                        // playing.
                        proof {
                            lemma_chain_finish(orig_child, child_before, child, gres, n);
                            assert(child_pull_chain(orig_child, child, gres, n) && (n == 0
                                || at_channel0));
                            assert(child_pulled_bounded(orig_child, child, gres, at_channel0));
                            assert(outcome_ok(
                                orig_child,
                                MixOutcome::Dropped(gres, child),
                                at_channel0,
                            ));
                            outs = outs.push(MixOutcome::Dropped(gres, child));
                            assert(outs.drop_last() =~= outs0);
                        }
                        break ;
                    },
                }
            }
        }

        let r: Result<NextSample, Error> = if self.sounds.len() > 0 {
            self.next_output_channel_idx = if self.next_output_channel_idx + 1
                == self.output_channel_count {
                0
            } else {
                self.next_output_channel_idx + 1
            };
            Ok(NextSample::Sample(output))
        } else {
            self.next_output_channel_idx = 0;
            if self.paused_sounds.len() > 0 {
                Ok(NextSample::Paused)
            } else {
                Ok(NextSample::Finished)
            }
        };
        proof {
            assert(old(self).next_sample_ens(*self, r));
        }
        r
    }

    #[verifier::loop_isolation(false)]
    fn on_start_of_batch(&mut self) {
        // Paused children get another chance in the new batch.
        while self.paused_sounds.len() > 0
            invariant
                self.sounds@ + self.paused_sounds@ =~= old(self).sounds@ + old(
                    self,
                ).paused_sounds@,
                forall|i: int| 0 <= i < self.sounds@.len() ==> #[trigger] self.sounds@[i].inv(),
                forall|i: int|
                    0 <= i < self.paused_sounds@.len() ==> #[trigger] self.paused_sounds@[i].inv(),
                self.output_channel_count == old(self).output_channel_count,
                self.output_sample_rate == old(self).output_sample_rate,
                self.next_output_channel_idx == old(self).next_output_channel_idx,
                self.metadata_changed == old(self).metadata_changed,
            decreases self.paused_sounds@.len(),
        {
            let s = self.paused_sounds.remove(0);
            self.sounds.push(s);
        }
        let ghost combined = old(self).sounds@ + old(self).paused_sounds@;
        proof {
            assert(self.sounds@ =~= combined);
        }
        let mut done: Vec<MixedSound<S>> = Vec::new();
        while self.sounds.len() > 0
            invariant
                done@.len() + self.sounds@.len() == combined.len(),
                self.sounds@ =~= combined.subrange(done@.len() as int, combined.len() as int),
                forall|i: int| 0 <= i < done@.len() ==> combined[i].batch_ens(#[trigger] done@[i]),
                forall|i: int| 0 <= i < done@.len() ==> #[trigger] done@[i].inv(),
                forall|i: int| 0 <= i < self.sounds@.len() ==> #[trigger] self.sounds@[i].inv(),
                self.paused_sounds@.len() == 0,
                self.output_channel_count == old(self).output_channel_count,
                self.output_sample_rate == old(self).output_sample_rate,
                self.next_output_channel_idx == old(self).next_output_channel_idx,
                self.metadata_changed == old(self).metadata_changed,
            decreases self.sounds@.len(),
        {
            let mut s = self.sounds.remove(0);
            s.on_start_of_batch();
            done.push(s);
        }
        let ghost finished = done@;
        core::mem::swap(&mut self.sounds, &mut done);
        proof {
            assert(self.sounds@ =~= finished);
            assert forall|i: int| 0 <= i < self.sounds@.len() implies #[trigger] self.sounds@[i].inv() by {
                assert(finished[i].inv());
            }
            assert(old(self).batch_ens(*self));
        }
    }
}

impl<S: Sound> AddSound for SoundMixer<S> {
    type AddedSound = S;

    /// If the sound's channel count can be converted to the output count, it
    /// joins the active pool wrapped in converters for the output format;
    /// otherwise it is discarded.
    open spec fn add_ens(&self, post: Self, sound: S) -> bool {
        match spec_get_type(sound.spec_channel_count(), self.output_channel_count) {
            Some(_) => exists|w: MixedSound<S>|
                freshly_wrapped(self.output_channel_count, self.output_sample_rate, sound, w)
                    && post == (SoundMixer { sounds: post.sounds, ..*self }) && post.sounds@
                    =~= self.sounds@.push(w),
            None => post == *self,
        }
    }

    fn add(&mut self, sound: S) {
        match self.wrap(sound) {
            Some(wrapped) => {
                self.sounds.push(wrapped);
            },
            None => {
                // The sound's channel count cannot be converted to the
                // output count; it is discarded.
            },
        }
        proof {
            assert(old(self).add_ens(*self, sound));
        }
    }
}

impl<S: Sound> ClearSounds for SoundMixer<S> {
    /// Both pools are emptied; the output format stays.
    open spec fn clear_ens(&self, post: Self) -> bool {
        post == (SoundMixer {
            sounds: post.sounds,
            paused_sounds: post.paused_sounds,
            ..*self
        }) && post.sounds@.len() == 0 && post.paused_sounds@.len() == 0
    }

    fn clear(&mut self) {
        self.sounds.clear();
        self.paused_sounds.clear();
        proof {
            assert(old(self).clear_ens(*self));
        }
    }
}

/// A freshly added constant-value sound as it sits in a mixer whose output
/// format matches the sound's own: the converters pass samples through
/// unchanged and no announcement is pending.
pub open spec fn is_passthrough_constant(
    w: MixedSound<ConstantValueSound>,
    v: i16,
) -> bool {
    &&& !w.channel_count_changed
    &&& w.from_rate_scaled == w.to_rate_scaled
    &&& w.inner.converter_type is PassThrough
    &&& w.inner.inner.value == v
    &&& !w.inner.inner.metadata_changed
}

/// A pass-through-wrapped constant sound can only ever produce its constant
/// value.
proof fn lemma_constant_child_pull(
    w: MixedSound<ConstantValueSound>,
    w2: MixedSound<ConstantValueSound>,
    res: Result<NextSample, Error>,
    v: i16,
)
    requires
        is_passthrough_constant(w, v),
        w.next_sample_ens(w2, res),
    ensures
        res == Result::<NextSample, Error>::Ok(NextSample::Sample(v)),
{
    let ir = choose|ir: Result<NextSample, Error>|
        w.inner.next_sample_ens(w2.inner, ir) && (match ir {
            Ok(NextSample::MetadataChanged) => res == Result::<NextSample, Error>::Ok(
                NextSample::MetadataChanged,
            ) && (if w2.inner.spec_sample_rate() != w.to_rate {
                crate::sounds::wrappers::reinit_fields(w, w2)
            } else {
                w2 == (SampleRateConverter { inner: w2.inner, ..w })
            }),
            _ => res == ir && w2 == (SampleRateConverter { inner: w2.inner, ..w }),
        });
    let ir2 = choose|ir2: Result<NextSample, Error>|
        w.inner.inner.next_sample_ens(w2.inner.inner, ir2) && crate::sounds::wrappers::mode_update_out(
            w.inner.to_count,
            w2.inner.inner.spec_channel_count(),
            ir2,
            ConverterType::PassThrough,
            w2.inner.converter_type,
            ir,
        );
    assert(ir2 == Result::<NextSample, Error>::Ok(NextSample::Sample(v)));
    assert(ir == ir2);
}

/// Mixing two constant-value sounds yields their saturating sum: whenever a
/// mixer holds exactly two pass-through constant sounds with values `a` and
/// `b` and produces a sample, that sample is `saturating_add(a, b)` — and
/// by [`lemma_sat_add_commutes`], the same sample results regardless of the
/// order in which the two sounds were added.
pub proof fn lemma_mix_two_constants(
    m: SoundMixer<ConstantValueSound>,
    post: SoundMixer<ConstantValueSound>,
    r: Result<NextSample, Error>,
    a: i16,
    b: i16,
)
    requires
        m.inv(),
        !m.metadata_changed,
        m.sounds@.len() == 2,
        is_passthrough_constant(m.sounds@[0], a),
        is_passthrough_constant(m.sounds@[1], b),
        m.next_sample_ens(post, r),
    ensures
        r == Result::<NextSample, Error>::Ok(NextSample::Sample(spec_sat_add(a, b))),
{
    let outs = choose|outs: Seq<MixOutcome<MixedSound<ConstantValueSound>>>|
        {
            &&& outs.len() == m.sounds@.len()
            &&& (forall|i: int|
                0 <= i < outs.len() ==> outcome_ok(
                    m.sounds@[i],
                    #[trigger] outs[i],
                    m.next_output_channel_idx == 0,
                ))
            &&& post.sounds@ =~= gave_children(outs)
            &&& post.paused_sounds@ =~= m.paused_sounds@ + parked_children(outs)
            &&& post.output_channel_count == m.output_channel_count
            &&& post.output_sample_rate == m.output_sample_rate
            &&& !post.metadata_changed
            &&& if post.sounds@.len() > 0 {
                &&& r == Result::<NextSample, Error>::Ok(NextSample::Sample(mix_fold(outs)))
                &&& post.next_output_channel_idx as int == (if m.next_output_channel_idx + 1
                    == m.output_channel_count {
                    0
                } else {
                    m.next_output_channel_idx + 1
                })
            } else if post.paused_sounds@.len() > 0 {
                &&& r == Result::<NextSample, Error>::Ok(NextSample::Paused)
                &&& post.next_output_channel_idx == 0
            } else {
                &&& r == Result::<NextSample, Error>::Ok(NextSample::Finished)
                &&& post.next_output_channel_idx == 0
            }
        };
    lemma_constant_outcome(m.sounds@[0], outs[0], a, m.next_output_channel_idx == 0);
    lemma_constant_outcome(m.sounds@[1], outs[1], b, m.next_output_channel_idx == 0);
    let c0 = choose|c: MixedSound<ConstantValueSound>| outs[0] == MixOutcome::Gave(
        a,
        c,
    );
    assert(outs[0] == MixOutcome::Gave(a, c0));
    let c1 = choose|c: MixedSound<ConstantValueSound>| outs[1] == MixOutcome::Gave(
        b,
        c,
    );
    assert(outs[1] == MixOutcome::Gave(b, c1));
    assert(outs =~= seq![outs[0], outs[1]]);
    assert(outs.drop_last() =~= seq![outs[0]]);
    assert(seq![outs[0]].drop_last() =~= Seq::<
        MixOutcome<MixedSound<ConstantValueSound>>,
    >::empty());
    assert(seq![outs[0]].last() == outs[0]);
    assert(mix_fold(
        Seq::<MixOutcome<MixedSound<ConstantValueSound>>>::empty(),
    ) == 0i16);
    assert(mix_fold(seq![outs[0]]) == spec_sat_add(0i16, a));
    assert(spec_sat_add(0i16, a) == a);
    assert(mix_fold(outs) == spec_sat_add(a, b));
    assert(gave_children(outs).len() > 0);
}

/// A valid outcome for a pass-through constant child is always a
/// contribution of its constant value.
proof fn lemma_constant_outcome(
    w: MixedSound<ConstantValueSound>,
    oc: MixOutcome<MixedSound<ConstantValueSound>>,
    v: i16,
    at_channel0: bool,
)
    requires
        is_passthrough_constant(w, v),
        outcome_ok(w, oc, at_channel0),
    ensures
        exists|c: MixedSound<ConstantValueSound>| oc == MixOutcome::Gave(v, c),
{
    match oc {
        MixOutcome::Gave(s, c2) => {
            let n = choose|n: nat|
                child_pull_chain(
                    w,
                    c2,
                    Result::<NextSample, Error>::Ok(NextSample::Sample(s)),
                    n,
                ) && (n == 0 || at_channel0);
            assert(child_pulled(w, c2, Result::<NextSample, Error>::Ok(NextSample::Sample(s))));
            lemma_constant_chain(w, c2, Result::<NextSample, Error>::Ok(NextSample::Sample(s)), v);
            assert(oc == MixOutcome::Gave(v, c2));
        },
        MixOutcome::Parked(last, c2) => {
            let n = choose|n: nat|
                child_pull_chain(w, c2, last, n) && (n == 0 || at_channel0);
            assert(child_pulled(w, c2, last));
            lemma_constant_chain(w, c2, last, v);
            assert(false);
        },
        MixOutcome::Dropped(last, c2) => {
            let n = choose|n: nat|
                child_pull_chain(w, c2, last, n) && (n == 0 || at_channel0);
            assert(child_pulled(w, c2, last));
            lemma_constant_chain(w, c2, last, v);
            assert(false);
        },
    }
}

/// Any pull chain from a pass-through constant child ends in its constant
/// value (a `MetadataChanged` step is impossible, so the chain is a single
/// pull).
proof fn lemma_constant_chain(
    w: MixedSound<ConstantValueSound>,
    c2: MixedSound<ConstantValueSound>,
    last: Result<NextSample, Error>,
    v: i16,
)
    requires
        is_passthrough_constant(w, v),
        child_pulled(w, c2, last),
    ensures
        last == Result::<NextSample, Error>::Ok(NextSample::Sample(v)),
{
    let n = choose|n: nat| child_pull_chain(w, c2, last, n);
    if n == 0 {
        lemma_constant_child_pull(w, c2, last, v);
    } else {
        let m = choose|m: MixedSound<ConstantValueSound>|
            w.next_sample_ens(
                m,
                Result::<NextSample, Error>::Ok(NextSample::MetadataChanged),
            ) && m.inv() && child_pull_chain(m, c2, last, (n - 1) as nat);
        lemma_constant_child_pull(
            w,
            m,
            Result::<NextSample, Error>::Ok(NextSample::MetadataChanged),
            v,
        );
        assert(false);
    }
}

/// Saturating mixing is commutative: two sounds mix to the same sample in
/// either insertion order.
pub proof fn lemma_sat_add_commutes(a: i16, b: i16)
    ensures
        spec_sat_add(a, b) == spec_sat_add(b, a),
{
}

/// An empty mixer is finished and stays empty forever: a pull of a mixer
/// with no active and no paused sounds and no pending announcement yields
/// `Finished` and leaves the mixer in the same empty state.
pub proof fn lemma_empty_mixer_finished<S: Sound>(
    m: SoundMixer<S>,
    post: SoundMixer<S>,
    r: Result<NextSample, Error>,
)
    requires
        m.inv(),
        m.sounds@.len() == 0,
        m.paused_sounds@.len() == 0,
        !m.metadata_changed,
        m.next_sample_ens(post, r),
    ensures
        r == Result::<NextSample, Error>::Ok(NextSample::Finished),
        post.sounds@.len() == 0,
        post.paused_sounds@.len() == 0,
        !post.metadata_changed,
{
    let outs = choose|outs: Seq<MixOutcome<MixedSound<S>>>|
        {
            &&& outs.len() == m.sounds@.len()
            &&& (forall|i: int|
                0 <= i < outs.len() ==> outcome_ok(
                    m.sounds@[i],
                    #[trigger] outs[i],
                    m.next_output_channel_idx == 0,
                ))
            &&& post.sounds@ =~= gave_children(outs)
            &&& post.paused_sounds@ =~= m.paused_sounds@ + parked_children(outs)
            &&& post.output_channel_count == m.output_channel_count
            &&& post.output_sample_rate == m.output_sample_rate
            &&& !post.metadata_changed
            &&& if post.sounds@.len() > 0 {
                &&& r == Result::<NextSample, Error>::Ok(NextSample::Sample(mix_fold(outs)))
                &&& post.next_output_channel_idx as int == (if m.next_output_channel_idx + 1
                    == m.output_channel_count {
                    0
                } else {
                    m.next_output_channel_idx + 1
                })
            } else if post.paused_sounds@.len() > 0 {
                &&& r == Result::<NextSample, Error>::Ok(NextSample::Paused)
                &&& post.next_output_channel_idx == 0
            } else {
                &&& r == Result::<NextSample, Error>::Ok(NextSample::Finished)
                &&& post.next_output_channel_idx == 0
            }
        };
    assert(outs.len() == 0);
    assert(post.sounds@.len() == 0);
    assert(post.paused_sounds@.len() == 0);
}

/// A command a [`Controller`](crate::sounds::wrappers::Controller) can send
/// to a remotely controlled mixer.
pub enum MixerCommand<S: Sound> {
    /// Add a sound to be mixed in.
    Add(S),
    /// Stop and remove all sounds.
    Clear,
}

impl<S: Sound> QueueMessage for MixerCommand<S> {
    /// An added sound satisfies its invariant.
    open spec fn wf(&self) -> bool {
        match self {
            MixerCommand::Add(s) => s.inv(),
            MixerCommand::Clear => true,
        }
    }
}

impl<S: Sound> Controlled for SoundMixer<S> {
    type Command = MixerCommand<S>;

    /// Commands add a sound or clear both pools.
    open spec fn command_ens(&self, post: Self, command: MixerCommand<S>) -> bool {
        match command {
            MixerCommand::Add(s) => self.add_ens(post, s),
            MixerCommand::Clear => self.clear_ens(post),
        }
    }

    fn apply_command(&mut self, command: MixerCommand<S>) {
        let ghost cmd = command;
        match command {
            MixerCommand::Add(s) => {
                proof {
                    assert(cmd.wf());
                    assert(cmd == MixerCommand::Add(s));
                    assert(s.inv());
                }
                self.add(s);
            },
            MixerCommand::Clear => {
                self.clear();
            },
        }
        proof {
            assert(old(self).command_ens(*self, cmd));
        }
    }
}

} // verus!
