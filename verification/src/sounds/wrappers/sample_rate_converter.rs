use vstd::prelude::*;

use crate::sounds::wrappers::pausable::SetPaused;
use crate::sounds::wrappers::adjustable_speed::SetSpeed;
use crate::sounds::wrappers::adjustable_volume::SetVolume;
use crate::sounds::wrappers::AddSound;
use crate::sounds::wrappers::ClearSounds;
use crate::factor::Factor;

use crate::error::Error;
use crate::sound::lemma_pulls_refl;
use crate::sound::sample_run;
use crate::sound::lemma_pulls_step;
use crate::sound::lemma_pulls_trans;
use crate::sound::reachable_by_pulls;
use crate::sound::NextSample;
use crate::sound::Sound;
use crate::sound::SoundExt;
use crate::sounds::wrappers::wrapper::Wrapper;
use crate::utils::trunc_div;

verus! {

/// The greatest common divisor, by Euclid's algorithm.
pub open spec fn spec_gcd(a: nat, b: nat) -> nat
    decreases b,
{
    if b == 0 {
        a
    } else {
        spec_gcd(b, a % b)
    }
}

proof fn lemma_gcd_bounds(a: nat, b: nat)
    requires
        a >= 1,
    ensures
        1 <= spec_gcd(a, b),
        spec_gcd(a, b) <= a,
        b >= 1 ==> spec_gcd(a, b) <= b,
    decreases b,
{
    if b == 0 {
    } else {
        assert(a % b < b) by (nonlinear_arith)
            requires
                b >= 1,
        ;
        if a % b == 0 {
            assert(spec_gcd(a, b) == spec_gcd(b, 0) == b);
            if b > a {
                assert(a % b == a) by (nonlinear_arith)
                    requires
                        0 <= a < b,
                ;
            }
        } else {
            lemma_gcd_bounds(b, a % b);
            if b > a {
                assert(a % b == a) by (nonlinear_arith)
                    requires
                        0 <= a < b,
                ;
            }
        }
    }
}

proof fn lemma_gcd_divides(a: nat, b: nat)
    requires
        a >= 1,
    ensures
        a % spec_gcd(a, b) == 0,
        b % spec_gcd(a, b) == 0,
    decreases b,
{
    lemma_gcd_bounds(a, b);
    let g = spec_gcd(a, b);
    if b == 0 {
        assert(a % a == 0 && 0nat % a == 0) by (nonlinear_arith)
            requires
                a >= 1,
        ;
    } else {
        assert(a % b < b) by (nonlinear_arith)
            requires
                b >= 1,
        ;
        lemma_gcd_divides(b, a % b);
        assert(g == spec_gcd(b, a % b));
        vstd::arithmetic::div_mod::lemma_fundamental_div_mod(a as int, b as int);
        vstd::arithmetic::div_mod::lemma_fundamental_div_mod(b as int, g as int);
        vstd::arithmetic::div_mod::lemma_fundamental_div_mod((a % b) as int, g as int);
        let q1 = b as int / g as int;
        let q2 = (a % b) as int / g as int;
        let k = q1 * (a as int / b as int) + q2;
        assert(a as int == k * g) by (nonlinear_arith)
            requires
                b as int == g as int * q1 + 0,
                (a % b) as int == g as int * q2 + 0,
                a as int == b as int * (a as int / b as int) + (a % b) as int,
                k == q1 * (a as int / b as int) + q2,
        ;
        vstd::arithmetic::div_mod::lemma_mod_multiples_basic(k, g as int);
    }
}

fn gcd(a: u32, b: u32) -> (r: u32)
    requires
        a >= 1,
    ensures
        r == spec_gcd(a as nat, b as nat),
        1 <= r <= a,
        b >= 1 ==> r <= b,
{
    let mut x: u32 = a;
    let mut y: u32 = b;
    while y != 0
        invariant
            spec_gcd(x as nat, y as nat) == spec_gcd(a as nat, b as nat),
            x >= 1 || y >= 1,
        decreases y,
    {
        proof {
            assert(x % y < y) by (nonlinear_arith)
                requires
                    y >= 1,
            ;
        }
        let t: u32 = x % y;
        x = y;
        y = t;
    }
    proof {
        lemma_gcd_bounds(a as nat, b as nat);
    }
    x
}

/// A sample linearly interpolated between `first` (at `numerator == 0`) and
/// `second` (at `numerator == denominator`), truncating toward zero.
pub open spec fn spec_linear_interpolation(
    first: i16,
    second: i16,
    numerator: u32,
    denominator: u32,
) -> int {
    first + trunc_div((second - first) * numerator, denominator as int)
}

/// Linear interpolation between two samples: `first + (second - first) *
/// numerator / denominator`, computed in a wider integer type, truncated
/// toward zero.
pub fn linear_interpolation(first: i16, second: i16, numerator: u32, denominator: u32) -> (r: i16)
    requires
        denominator >= 1,
        numerator <= denominator,
    ensures
        r as int == spec_linear_interpolation(first, second, numerator, denominator),
{
    if second >= first {
        let d: i32 = second as i32 - first as i32;
        let diff: u64 = d as u64;
        proof {
            assert(diff * numerator <= diff * denominator) by (nonlinear_arith)
                requires
                    0 <= diff,
                    numerator <= denominator,
            ;
            assert(diff * denominator <= 65535u64 * u32::MAX) by (nonlinear_arith)
                requires
                    0 <= diff <= 65535,
                    0 <= denominator <= u32::MAX,
            ;
            assert((diff * numerator) as int / denominator as int <= diff) by (nonlinear_arith)
                requires
                    denominator >= 1,
                    diff * numerator <= diff * denominator,
                    diff >= 0,
            ;
        }
        let q: u64 = diff * numerator as u64 / denominator as u64;
        proof {
            assert((second - first) * numerator == diff * numerator) by (nonlinear_arith)
                requires
                    diff == second - first,
            ;
        }
        (first as i32 + q as i32) as i16
    } else {
        let d: i32 = first as i32 - second as i32;
        let diff: u64 = d as u64;
        proof {
            assert(diff * numerator <= diff * denominator) by (nonlinear_arith)
                requires
                    0 <= diff,
                    numerator <= denominator,
            ;
            assert(diff * denominator <= 65535u64 * u32::MAX) by (nonlinear_arith)
                requires
                    0 <= diff <= 65535,
                    0 <= denominator <= u32::MAX,
            ;
            assert((diff * numerator) as int / denominator as int <= diff) by (nonlinear_arith)
                requires
                    denominator >= 1,
                    diff * numerator <= diff * denominator,
                    diff >= 0,
            ;
        }
        let q: u64 = diff * numerator as u64 / denominator as u64;
        proof {
            assert((second - first) * numerator == -(diff * numerator as int)) by (nonlinear_arith)
                requires
                    diff == first - second,
            ;
        }
        (first as i32 - q as i32) as i16
    }
}

/// Some samples were pulled from `pre` (and discarded) and then one more
/// pull returned `last`, leaving the sound at `post`.
pub open spec fn frame_cut_short<S: SoundExt>(
    pre: S,
    post: S,
    last: Result<NextSample, Error>,
) -> bool {
    exists|m: S, vals: Seq<i16>|
        #![trigger sample_run(pre, m, vals)]
        sample_run(pre, m, vals) && m.inv() && m.next_sample_ens(post, last)
}

/// One input frame was collected from `pre`: either a full frame of
/// samples was pulled, or the stream reported a pause or finish (recorded
/// in the flag) and the frame is empty.
pub open spec fn frame_collected<S: SoundExt>(
    pre: S,
    post: S,
    frame: Seq<i16>,
    flag0: bool,
    flag1: bool,
) -> bool {
    ||| (frame.len() == pre.spec_channel_count() && sample_run(pre, post, frame) && flag1 == flag0)
    ||| (frame.len() == 0 && ((flag1 && frame_cut_short(
        pre,
        post,
        Result::<NextSample, Error>::Ok(NextSample::Paused),
    )) || (!flag1 && frame_cut_short(
        pre,
        post,
        Result::<NextSample, Error>::Ok(NextSample::Finished),
    ))))
}

/// Two consecutive input frames were collected from `pre`.
pub open spec fn two_frames_collected<S: SoundExt>(
    pre: S,
    post: S,
    first: Seq<i16>,
    second: Seq<i16>,
    flag0: bool,
    flag1: bool,
) -> bool {
    exists|mid: S, flagm: bool|
        #![trigger frame_collected(pre, mid, first, flag0, flagm)]
        frame_collected(pre, mid, first, flag0, flagm) && mid.inv() && frame_collected(
            mid,
            post,
            second,
            flagm,
            flag1,
        )
}

/// Collecting was cut short by the pull result `last`, possibly after one
/// whole frame had already been collected.
pub open spec fn collection_cut_short<S: SoundExt>(
    pre: S,
    post: S,
    flag0: bool,
    flag1: bool,
    last: Result<NextSample, Error>,
) -> bool {
    ||| (frame_cut_short(pre, post, last) && flag1 == flag0)
    ||| exists|mid: S, flagm: bool, vals: Seq<i16>|
        #![trigger frame_collected(pre, mid, vals, flag0, flagm)]
        frame_collected(pre, mid, vals, flag0, flagm) && mid.inv() && frame_cut_short(
            mid,
            post,
            last,
        ) && flag1 == flagm
}

/// The sample `s` and the stacked samples `stack` together are one whole
/// frame being flushed: `s` is the frame's first channel and the stack
/// holds the remaining channels in reverse order, ready to be popped.
pub open spec fn flushed_frame(s: i16, stack: Seq<i16>) -> bool {
    exists|frame: Seq<i16>|
        #![trigger frame.drop_first()]
        frame.len() >= 1 && s == frame[0] && stack =~= frame.drop_first().reverse()
}

proof fn lemma_frames_pulled_step<S: SoundExt>(
    pre: S,
    m: S,
    post: S,
    flag0: bool,
    flagm: bool,
    flag1: bool,
    vals: Seq<i16>,
)
    requires
        frames_pulled(pre, m, flag0, flagm),
        m.inv(),
        frame_collected(m, post, vals, flagm, flag1),
    ensures
        frames_pulled(pre, post, flag0, flag1),
{
    let k = choose|k: nat| frames_run(pre, m, flag0, flagm, k);
    assert(frames_run(pre, post, flag0, flag1, k + 1));
}

proof fn lemma_frames_pulled_cut<S: SoundExt>(
    pre: S,
    m: S,
    post: S,
    flag0: bool,
    flag1: bool,
    last: Result<NextSample, Error>,
)
    requires
        frames_pulled(pre, m, flag0, flag1),
        m.inv(),
        frame_cut_short(m, post, last),
    ensures
        frames_then_cut(pre, post, flag0, flag1, last),
{
    let k = choose|k: nat| frames_run(pre, m, flag0, flag1, k);
    assert(frames_run(pre, m, flag0, flag1, k));
}

/// Convert a sound from one sample rate (number of samples per second) to
/// another.
///
/// The rate pair is reduced by its greatest common divisor to a minimal
/// rational step pair. Between two consecutive input frames, output frames
/// are linearly interpolated at the positions the output rate asks for; the
/// trailing channels of a computed output frame wait on a stack for the
/// following pulls.
///
/// Sample-rate changes of the inner sound do not propagate
/// `MetadataChanged` (the output rate is fixed at construction) but force a
/// re-initialization of the rational state; channel-count changes do
/// propagate. `Paused`/`Finished` propagate once the output stack is
/// drained; resuming from a pause may lose a fraction of a frame of
/// interpolation precision, which is accepted, documented lossy behavior.
pub struct SampleRateConverter<S: SoundExt> {
    /// The sound samples are pulled from.
    pub inner: S,
    /// The output sample rate in samples per second.
    pub to_rate: u32,
    /// The output rate divided by the gcd of both rates.
    pub to_rate_scaled: u32,
    /// The input rate divided by the gcd of both rates.
    pub from_rate_scaled: u32,
    /// One input sample per channel, extracted from `inner`.
    pub current_frame: Vec<i16>,
    /// The input samples right after `current_frame`, one per channel.
    pub next_frame: Vec<i16>,
    /// Position of `current_frame`, modulo `from_rate_scaled`.
    pub current_frame_pos_in_chunk: u32,
    /// The position of the next output frame, modulo `to_rate_scaled`.
    pub next_output_frame_pos_in_chunk: u32,
    /// Already-computed samples waiting to be output, highest channel first.
    pub output_frame: Vec<i16>,
    /// The channel count of the inner sound as of the last initialization.
    pub channel_count: u16,
    /// Whether a channel count change still has to be announced.
    pub channel_count_changed: bool,
    /// Whether the inner sound last reported `Paused` rather than `Finished`.
    pub inner_paused: bool,
}

/// `frame` is a whole frame that some well-formed sound of this type
/// actually produced: a run of pulls each returning one of its samples.
pub open spec fn frame_was_produced<S: SoundExt>(frame: Seq<i16>) -> bool {
    exists|a: S, b: S|
        #![trigger sample_run(a, b, frame)]
        a.inv() && sample_run(a, b, frame) && frame.len() == a.spec_channel_count() && frame.len()
            >= 1
}

/// Exactly `k` whole input frames were collected from `pre`, ending at
/// `post`, the pause flag threaded through each collection.
pub open spec fn frames_run<S: SoundExt>(pre: S, post: S, flag0: bool, flag1: bool, k: nat) -> bool
    decreases k,
{
    if k == 0 {
        post == pre && flag1 == flag0
    } else {
        exists|m: S, flagm: bool, vals: Seq<i16>|
            #![trigger frame_collected(m, post, vals, flagm, flag1)]
            frames_run(pre, m, flag0, flagm, (k - 1) as nat) && m.inv() && frame_collected(
                m,
                post,
                vals,
                flagm,
                flag1,
            )
    }
}

/// Zero or more whole input frames were collected from `pre`, ending at
/// `post`.
pub open spec fn frames_pulled<S: SoundExt>(pre: S, post: S, flag0: bool, flag1: bool) -> bool {
    exists|k: nat|
        #![trigger frames_run(pre, post, flag0, flag1, k)]
        frames_run(pre, post, flag0, flag1, k)
}

/// Zero or more whole input frames were collected from `pre` and then one
/// more collection was cut short by the pull result `last`.
pub open spec fn frames_then_cut<S: SoundExt>(
    pre: S,
    post: S,
    flag0: bool,
    flag1: bool,
    last: Result<NextSample, Error>,
) -> bool {
    exists|m: S, k: nat|
        #![trigger frames_run(pre, m, flag0, flag1, k)]
        frames_run(pre, m, flag0, flag1, k) && m.inv() && frame_cut_short(m, post, last)
}

proof fn lemma_two_frames_to_run<S: SoundExt>(
    pre: S,
    post: S,
    first: Seq<i16>,
    second: Seq<i16>,
    flag0: bool,
    flag1: bool,
)
    requires
        two_frames_collected(pre, post, first, second, flag0, flag1),
        pre.inv(),
    ensures
        frames_pulled(pre, post, flag0, flag1),
{
    let (mid, flagm) = choose|mid: S, flagm: bool|
        frame_collected(pre, mid, first, flag0, flagm) && mid.inv() && frame_collected(
            mid,
            post,
            second,
            flagm,
            flag1,
        );
    assert(frames_run(pre, pre, flag0, flag0, 0nat));
    assert(frames_run(pre, mid, flag0, flagm, 1nat));
    assert(frames_run(pre, post, flag0, flag1, 2nat));
}

proof fn lemma_collection_cut_to_frames_then_cut<S: SoundExt>(
    pre: S,
    post: S,
    flag0: bool,
    flag1: bool,
    last: Result<NextSample, Error>,
)
    requires
        collection_cut_short(pre, post, flag0, flag1, last),
        pre.inv(),
    ensures
        frames_then_cut(pre, post, flag0, flag1, last),
{
    if frame_cut_short(pre, post, last) && flag1 == flag0 {
        assert(frames_run(pre, pre, flag0, flag1, 0nat));
        assert(frames_then_cut(pre, post, flag0, flag1, last));
    } else {
        let (mid, flagm, vals) = choose|mid: S, flagm: bool, vals: Seq<i16>|
            frame_collected(pre, mid, vals, flag0, flagm) && mid.inv() && frame_cut_short(
                mid,
                post,
                last,
            ) && flag1 == flagm;
        assert(frames_run(pre, pre, flag0, flag0, 0nat));
        assert(frames_run(pre, mid, flag0, flag1, 1nat));
        assert(frames_then_cut(pre, post, flag0, flag1, last));
    }
}

/// One pull in pass-through state: the inner result is forwarded, with a
/// metadata announcement re-initializing the rational state if the inner
/// rate no longer matches the output rate.
pub open spec fn passthrough_out<S: SoundExt>(
    pre: SampleRateConverter<S>,
    post: SampleRateConverter<S>,
    r: Result<NextSample, Error>,
) -> bool {
    exists|ir: Result<NextSample, Error>|
        pre.inner.next_sample_ens(post.inner, ir) && (match ir {
            Ok(NextSample::MetadataChanged) => r == Result::<NextSample, Error>::Ok(
                NextSample::MetadataChanged,
            ) && (if post.inner.spec_sample_rate() != pre.to_rate {
                reinit_fields(pre, post)
            } else {
                post == (SampleRateConverter { inner: post.inner, ..pre })
            }),
            _ => r == ir && post == (SampleRateConverter { inner: post.inner, ..pre }),
        })
}

/// How re-initialization leaves the converter's own fields: the rational
/// state is recomputed from the inner sound's current sample rate (a reported
/// rate of 0 is treated as 1) and the fixed output rate, the buffered frames
/// are dropped, and a change of the inner channel count is left pending
/// announcement. The inner sound itself is not touched.
pub open spec fn reinit_fields<S: SoundExt>(
    pre: SampleRateConverter<S>,
    post: SampleRateConverter<S>,
) -> bool {
    let from1 = if post.inner.spec_sample_rate() == 0 {
        1u32
    } else {
        post.inner.spec_sample_rate()
    };
    let g = spec_gcd(from1 as nat, pre.to_rate as nat);
    &&& post.to_rate == pre.to_rate
    &&& post.channel_count == post.inner.spec_channel_count()
    &&& post.channel_count_changed == (pre.channel_count_changed || pre.channel_count
        != post.inner.spec_channel_count())
    &&& post.current_frame@ =~= Seq::<i16>::empty()
    &&& post.next_frame@ =~= Seq::<i16>::empty()
    &&& post.output_frame@ =~= Seq::<i16>::empty()
    &&& post.current_frame_pos_in_chunk == 0
    &&& post.next_output_frame_pos_in_chunk == 0
    &&& post.from_rate_scaled == from1 as nat / g
    &&& post.to_rate_scaled == pre.to_rate as nat / g
    &&& post.inner_paused == pre.inner_paused
}

/// One restart of the interpolating loop: the inner sound advanced only by
/// whole-frame collections, usually cut short by a metadata announcement
/// (the defensive frame-position guard restarts without a cut), and the
/// rational state was re-initialized from the inner sound's current
/// metadata — announcing downstream exactly when the channel count changed.
pub open spec fn resample_restart<S: SoundExt>(
    a: SampleRateConverter<S>,
    b: SampleRateConverter<S>,
) -> bool {
    &&& !a.channel_count_changed
    &&& (frames_then_cut(
        a.inner,
        b.inner,
        a.inner_paused,
        b.inner_paused,
        Result::<NextSample, Error>::Ok(NextSample::MetadataChanged),
    ) || frames_pulled(a.inner, b.inner, a.inner_paused, b.inner_paused))
    &&& b.to_rate == a.to_rate
    &&& b.channel_count == b.inner.spec_channel_count()
    &&& b.channel_count_changed == (a.channel_count != b.inner.spec_channel_count())
    &&& b.current_frame@.len() == 0
    &&& b.next_frame@.len() == 0
    &&& b.output_frame@.len() == 0
    &&& b.current_frame_pos_in_chunk == 0
    &&& b.next_output_frame_pos_in_chunk == 0
    &&& ({
        let from1 = if b.inner.spec_sample_rate() == 0 {
            1u32
        } else {
            b.inner.spec_sample_rate()
        };
        let g = spec_gcd(from1 as nat, a.to_rate as nat);
        &&& b.from_rate_scaled == from1 as nat / g
        &&& b.to_rate_scaled == a.to_rate as nat / g
    })
}

/// `b` results from `a` by `k` restarts of the interpolating loop.
pub open spec fn restart_chain<S: SoundExt>(
    a: SampleRateConverter<S>,
    b: SampleRateConverter<S>,
    k: nat,
) -> bool
    decreases k,
{
    if k == 0 {
        b == a
    } else {
        exists|m: SampleRateConverter<S>|
            #![trigger resample_restart(m, b)]
            restart_chain(a, m, (k - 1) as nat) && m.inv() && resample_restart(m, b)
    }
}

/// The interpolating loop drained: no input frames remain buffered and the
/// frame positions were reset, the inner sound having advanced only by
/// whole-frame collections.
pub open spec fn drained<S: SoundExt>(w: SampleRateConverter<S>, post: SampleRateConverter<S>) -> bool {
    &&& post.current_frame@.len() == 0
    &&& post.current_frame_pos_in_chunk == 0
    &&& post.next_output_frame_pos_in_chunk == 0
    &&& frames_pulled(w.inner, post.inner, w.inner_paused, post.inner_paused)
}

/// The outcome of the final (non-restarting) iteration of the interpolating
/// loop, from the loop-top state `w`: a sample interpolated between the
/// buffered frames (or flushed from the last one), a pause or finish exactly
/// as the inner sound last signalled (threaded through the collections into
/// `inner_paused`; an unfillable run of announcements also reports a pause),
/// an inner error — and never a `MetadataChanged`.
pub open spec fn interp_outcome<S: SoundExt>(
    w: SampleRateConverter<S>,
    post: SampleRateConverter<S>,
    r: Result<NextSample, Error>,
) -> bool {
    &&& post.to_rate == w.to_rate
    &&& post.from_rate_scaled == w.from_rate_scaled
    &&& post.to_rate_scaled == w.to_rate_scaled
    &&& post.channel_count == w.channel_count
    &&& !post.channel_count_changed
    &&& match r {
        Ok(NextSample::Sample(s)) => {
            &&& frames_pulled(w.inner, post.inner, w.inner_paused, post.inner_paused)
            &&& ({
                ||| (post.current_frame@.len() >= 1 && post.next_frame@.len() >= 1 && 1
                    <= post.next_output_frame_pos_in_chunk && s as int == spec_linear_interpolation(
                    post.current_frame@[0],
                    post.next_frame@[0],
                    (((post.from_rate_scaled as int) * (post.next_output_frame_pos_in_chunk
                        - 1)) % (post.to_rate_scaled as int)) as u32,
                    post.to_rate_scaled,
                ))
                ||| (post.current_frame@.len() == 0 && flushed_frame(s, post.output_frame@))
            })
        },
        Ok(NextSample::Paused) => {
            &&& post.output_frame@.len() == 0
            &&& post.inner_paused
            &&& drained(w, post)
        },
        Ok(NextSample::Finished) => {
            &&& post.output_frame@.len() == 0
            &&& !post.inner_paused
            &&& drained(w, post)
        },
        Ok(NextSample::MetadataChanged) => false,
        _ => post.output_frame@.len() == 0 && frames_then_cut(
            w.inner,
            post.inner,
            w.inner_paused,
            post.inner_paused,
            r,
        ),
    }
}

/// The outcome of the final iteration of the converter's loop from the
/// loop-top state `w`: a pending channel-count announcement, a pass-through
/// pull if a restart made the rates match, or an interpolating outcome.
pub open spec fn resample_outcome<S: SoundExt>(
    w: SampleRateConverter<S>,
    post: SampleRateConverter<S>,
    r: Result<NextSample, Error>,
) -> bool {
    ||| (w.channel_count_changed && r == Result::<NextSample, Error>::Ok(
        NextSample::MetadataChanged,
    ) && post == (SampleRateConverter { channel_count_changed: false, ..w }))
    ||| (!w.channel_count_changed && w.from_rate_scaled == w.to_rate_scaled && passthrough_out(
        w,
        post,
        r,
    ))
    ||| (!w.channel_count_changed && w.from_rate_scaled != w.to_rate_scaled && interp_outcome(
        w,
        post,
        r,
    ))
}

impl<S: SoundExt> SampleRateConverter<S> {
    /// Create a converter with the output sample rate `to_rate`.
    pub fn new(inner: S, to_rate: u32) -> (r: SampleRateConverter<S>)
        requires
            inner.inv(),
            to_rate >= 1,
        ensures
            r.inv(),
            r.inner == inner,
            r.to_rate == to_rate,
            !r.channel_count_changed,
            !r.inner_paused,
            r.channel_count == inner.spec_channel_count(),
            r.output_frame@ =~= Seq::<i16>::empty(),
            r.current_frame@ =~= Seq::<i16>::empty(),
            r.next_output_frame_pos_in_chunk == 0,
            r.from_rate_scaled == (if inner.spec_sample_rate() == 0 {
                1u32
            } else {
                inner.spec_sample_rate()
            }) as nat / spec_gcd(
                (if inner.spec_sample_rate() == 0 {
                    1u32
                } else {
                    inner.spec_sample_rate()
                }) as nat,
                to_rate as nat,
            ),
            r.to_rate_scaled == to_rate as nat / spec_gcd(
                (if inner.spec_sample_rate() == 0 {
                    1u32
                } else {
                    inner.spec_sample_rate()
                }) as nat,
                to_rate as nat,
            ),
            inner.spec_sample_rate() == to_rate ==> r.from_rate_scaled == 1 && r.to_rate_scaled
                == 1,
            inner.spec_sample_rate() != to_rate && inner.spec_sample_rate() != 0
                ==> r.from_rate_scaled != r.to_rate_scaled,
    {
        let channel_count = inner.channel_count();
        let mut new = SampleRateConverter {
            inner,
            to_rate,
            to_rate_scaled: 1,
            from_rate_scaled: 1,
            current_frame_pos_in_chunk: 0,
            next_output_frame_pos_in_chunk: 0,
            current_frame: Vec::new(),
            next_frame: Vec::new(),
            output_frame: Vec::new(),
            channel_count,
            channel_count_changed: false,
            inner_paused: false,
        };
        new.init();
        proof {
            let from1 = if inner.spec_sample_rate() == 0 {
                1u32
            } else {
                inner.spec_sample_rate()
            };
            let g = spec_gcd(from1 as nat, to_rate as nat);
            lemma_gcd_bounds(from1 as nat, to_rate as nat);
            if inner.spec_sample_rate() == to_rate {
                assert(to_rate as nat % (to_rate as nat) == 0) by (nonlinear_arith)
                    requires
                        to_rate >= 1,
                ;
                assert(spec_gcd(to_rate as nat, 0nat) == to_rate);
                assert(g == spec_gcd(to_rate as nat, to_rate as nat % (to_rate as nat)));
                assert(g == to_rate);
                assert(to_rate as nat / to_rate as nat == 1) by (nonlinear_arith)
                    requires
                        to_rate >= 1,
                ;
            }
            if inner.spec_sample_rate() != to_rate && inner.spec_sample_rate() != 0 {
                if new.from_rate_scaled == new.to_rate_scaled {
                    // Both scaled rates equal means both raw rates were the
                    // same multiple of the gcd, contradicting that they
                    // differ.
                    lemma_gcd_divides(from1 as nat, to_rate as nat);
                    lemma_div_exact(from1 as nat, g);
                    lemma_div_exact(to_rate as nat, g);
                    assert(from1 == to_rate) by (nonlinear_arith)
                        requires
                            (from1 as nat / g) * g == from1 as nat,
                            (to_rate as nat / g) * g == to_rate as nat,
                            from1 as nat / g == to_rate as nat / g,
                    ;
                    assert(false);
                }
            }
        }
        new
    }

    /// Recompute the rational state from the current metadata, as
    /// [`reinit_fields`] describes.
    fn init(&mut self)
        requires
            old(self).inner.inv(),
            old(self).to_rate >= 1,
        ensures
            final(self).inner == old(self).inner,
            final(self).inner.inv(),
            reinit_fields(*old(self), *final(self)),
            reachable_by_pulls(old(self).inner, final(self).inner),
            final(self).to_rate >= 1,
            final(self).from_rate_scaled >= 1,
            final(self).to_rate_scaled >= 1,
            final(self).next_output_frame_pos_in_chunk <= final(self).to_rate_scaled,
    {
        proof {
            lemma_pulls_refl(self.inner);
        }
        let channel_count = self.inner.channel_count();
        if self.channel_count != channel_count {
            self.channel_count_changed = true;
            self.channel_count = channel_count;
        }
        let from_rate_raw = self.inner.sample_rate();
        // A sound reporting a rate of 0 is degenerate; treat it as 1 so the
        // rational state stays well defined.
        let from_rate: u32 = if from_rate_raw == 0 {
            1
        } else {
            from_rate_raw
        };
        let g = gcd(from_rate, self.to_rate);
        self.current_frame = Vec::new();
        self.next_frame = Vec::new();
        self.to_rate_scaled = self.to_rate / g;
        self.from_rate_scaled = from_rate / g;
        self.current_frame_pos_in_chunk = 0;
        self.next_output_frame_pos_in_chunk = 0;
        self.output_frame = Vec::new();
        proof {
            let ts = self.to_rate_scaled;
            let fs = self.from_rate_scaled;
            let tr = self.to_rate;
            assert(ts >= 1 && fs >= 1) by (nonlinear_arith)
                requires
                    ts == tr as int / g as int,
                    fs == from_rate as int / g as int,
                    1 <= g <= from_rate,
                    g <= tr,
            ;
        }
    }

    /// One pull in pass-through mode (the scaled rates are equal): the inner
    /// result is forwarded; a metadata change re-initializes the rational
    /// state if the inner rate no longer matches the output rate.
    fn passthrough_pull(&mut self) -> (r: Result<NextSample, Error>)
        requires
            old(self).inv(),
        ensures
            final(self).inv(),
            final(self).to_rate == old(self).to_rate,
            reachable_by_pulls(old(self).inner, final(self).inner),
            exists|ir: Result<NextSample, Error>|
                old(self).inner.next_sample_ens(final(self).inner, ir) && (match ir {
                    Ok(NextSample::MetadataChanged) => r == Result::<NextSample, Error>::Ok(
                        NextSample::MetadataChanged,
                    ) && (if final(self).inner.spec_sample_rate() != old(self).to_rate {
                        reinit_fields(*old(self), *final(self))
                    } else {
                        *final(self) == (SampleRateConverter { inner: final(self).inner, ..*old(self) })
                    }),
                    _ => r == ir && *final(self) == (SampleRateConverter {
                        inner: final(self).inner,
                        ..*old(self)
                    }),
                }),
    {
        let next = self.inner.next_sample();
        let ghost g = next;
        let r: Result<NextSample, Error> = match &next {
            Ok(NextSample::MetadataChanged) => {
                if self.inner.sample_rate() != self.to_rate {
                    self.init();
                }
                Ok(NextSample::MetadataChanged)
            },
            _ => next,
        };
        proof {
            assert(old(self).inner.next_sample_ens(self.inner, g));
            lemma_pulls_step(old(self).inner, self.inner, g);
        }
        r
    }
}

/// `b` divides `a` exactly: multiplying the quotient back recovers `a` when
/// the remainder is zero.
proof fn lemma_div_exact(a: nat, b: nat)
    requires
        b >= 1,
        a % b == 0,
    ensures
        (a / b) * b == a,
{
    assert((a / b) * b == a) by (nonlinear_arith)
        requires
            b >= 1,
            a % b == 0,
    ;
}

impl<S: SoundExt> Sound for SampleRateConverter<S> {
    open spec fn inv(&self) -> bool {
        &&& self.inner.inv()
        &&& self.to_rate >= 1
        &&& self.from_rate_scaled >= 1
        &&& self.to_rate_scaled >= 1
        &&& self.next_output_frame_pos_in_chunk <= self.to_rate_scaled
        &&& (self.current_frame@.len() > 0 ==> frame_was_produced::<S>(self.current_frame@))
        &&& (self.next_frame@.len() > 0 ==> frame_was_produced::<S>(self.next_frame@))
    }

    open spec fn spec_channel_count(&self) -> u16 {
        self.inner.spec_channel_count()
    }

    /// Always the output rate fixed at construction.
    open spec fn spec_sample_rate(&self) -> u32 {
        self.to_rate
    }

    /// A pending channel count change is announced first. With equal scaled
    /// rates the pull passes through one-for-one. Otherwise a sample waiting
    /// on the output stack is served without touching the inner sound, and
    /// past those exact cases the converter pulls input frames (only through
    /// their own pull protocol) and interpolates: a produced sample is the
    /// linear interpolation of the two buffered frames at the current phase
    /// (or the first channel of the frame flushed out when the stream ends),
    /// and `Paused`/`Finished` surface only with the stack drained, exactly
    /// as the inner sound last signalled.
    open spec fn next_sample_ens(&self, post: Self, r: Result<NextSample, Error>) -> bool {
        &&& post.to_rate == self.to_rate
        &&& reachable_by_pulls(self.inner, post.inner)
        &&& if self.channel_count_changed {
            &&& r == Result::<NextSample, Error>::Ok(NextSample::MetadataChanged)
            &&& post == (SampleRateConverter { channel_count_changed: false, ..*self })
        } else if self.from_rate_scaled == self.to_rate_scaled {
            passthrough_out(*self, post, r)
        } else if self.output_frame@.len() > 0 {
            &&& r == Result::<NextSample, Error>::Ok(
                NextSample::Sample(self.output_frame@.last()),
            )
            &&& post.output_frame@ =~= self.output_frame@.drop_last()
            &&& post.inner == self.inner
            &&& post == (SampleRateConverter {
                inner: post.inner,
                output_frame: post.output_frame,
                ..*self
            })
        } else {
            // The interpolating path: input frames are collected from the
            // inner sound and an output frame is interpolated at the
            // position the output rate asks for, restarting whenever an
            // announcement interrupts the collection.
            exists|w: SampleRateConverter<S>, k: nat|
                #![trigger restart_chain(*self, w, k)]
                restart_chain(*self, w, k) && w.inv() && (resample_outcome(w, post, r) || (k
                    >= u64::MAX && r == Result::<NextSample, Error>::Ok(NextSample::Paused) && post
                    == (SampleRateConverter { inner_paused: true, ..w })))
        }
    }

    open spec fn batch_ens(&self, post: Self) -> bool {
        &&& self.inner.batch_ens(post.inner)
        &&& post == (SampleRateConverter { inner: post.inner, ..*self })
    }

    fn channel_count(&self) -> u16 {
        let r = self.inner.channel_count();
        proof {
            assert(r == self.spec_channel_count());
        }
        r
    }

    fn sample_rate(&self) -> u32 {
        proof {
            assert(self.to_rate == self.spec_sample_rate());
        }
        self.to_rate
    }

    #[verifier::loop_isolation(false)]
    #[verifier::rlimit(100)]
    fn next_sample(&mut self) -> Result<NextSample, Error> {
        if self.channel_count_changed {
            self.channel_count_changed = false;
            let r: Result<NextSample, Error> = Ok(NextSample::MetadataChanged);
            proof {
                lemma_pulls_refl(self.inner);
                assert(old(self).next_sample_ens(*self, r));
            }
            return r;
        }
        if self.from_rate_scaled == self.to_rate_scaled {
            let r = self.passthrough_pull();
            proof {
                assert(old(self).next_sample_ens(*self, r));
            }
            return r;
        }
        // Serve a sample already computed for the in-progress output frame.
        if self.output_frame.len() > 0 {
            match self.output_frame.pop() {
                Some(sample) => {
                    let r: Result<NextSample, Error> = Ok(NextSample::Sample(sample));
                    proof {
                        lemma_pulls_refl(self.inner);
                        assert(old(self).next_sample_ens(*self, r));
                    }
                    return r;
                },
                None => {},
            }
        }

        proof {
            lemma_pulls_refl(self.inner);
            assert(restart_chain(*old(self), *self, 0nat));
        }
        let ghost mut restarts: nat = 0nat;
        let mut fuel: u64 = u64::MAX;
        loop
            invariant
                self.inv(),
                self.to_rate == old(self).to_rate,
                reachable_by_pulls(old(self).inner, self.inner),
                restart_chain(*old(self), *self, restarts),
                restarts + fuel == u64::MAX,
                !old(self).channel_count_changed,
                old(self).from_rate_scaled != old(self).to_rate_scaled,
                old(self).output_frame@.len() == 0,
                self.output_frame@.len() == 0,
            decreases fuel,
        {
            let ghost w = *self;
            proof {
                assert(frames_run(w.inner, self.inner, w.inner_paused, self.inner_paused, 0nat));
                assert(frames_pulled(w.inner, self.inner, w.inner_paused, self.inner_paused));
            }
            if self.channel_count_changed {
                self.channel_count_changed = false;
                let r: Result<NextSample, Error> = Ok(NextSample::MetadataChanged);
                proof {
                    assert(resample_outcome(w, *self, r));
                    assert(old(self).next_sample_ens(*self, r));
                }
                return r;
            }
            if self.from_rate_scaled == self.to_rate_scaled {
                let ghost inner_before = self.inner;
                let r = self.passthrough_pull();
                proof {
                    lemma_pulls_trans(old(self).inner, inner_before, self.inner);
                    assert(passthrough_out(w, *self, r));
                    assert(resample_outcome(w, *self, r));
                    assert(old(self).next_sample_ens(*self, r));
                }
                return r;
            }
            if self.output_frame.len() > 0 {
                match self.output_frame.pop() {
                    Some(sample) => {
                        let r: Result<NextSample, Error> = Ok(NextSample::Sample(sample));
                        proof {
                            assert(old(self).next_sample_ens(*self, r));
                        }
                        return r;
                    },
                    None => {},
                }
            }

            if fuel == 0 {
                // The inner sound announced new metadata an unfillable number
                // of times in a row; treat it as paused rather than keep
                // pulling.
                self.inner_paused = true;
                let r: Result<NextSample, Error> = Ok(NextSample::Paused);
                proof {
                    assert(restarts >= u64::MAX);
                    assert(*self == (SampleRateConverter { inner_paused: true, ..w }));
                    assert(old(self).next_sample_ens(*self, r));
                }
                return r;
            }
            fuel = fuel - 1;

            // Coming back from a pause, or the first pull: fill both frames.
            if self.current_frame.len() == 0 {
                let ghost inner_before = self.inner;
                let filled = self.fill_frames();
                proof {
                    lemma_pulls_trans(old(self).inner, inner_before, self.inner);
                }
                match filled {
                    Ok(true) => {
                        proof {
                            if two_frames_collected(
                                w.inner,
                                self.inner,
                                self.current_frame@,
                                self.next_frame@,
                                w.inner_paused,
                                self.inner_paused,
                            ) {
                                lemma_two_frames_to_run(
                                    w.inner,
                                    self.inner,
                                    self.current_frame@,
                                    self.next_frame@,
                                    w.inner_paused,
                                    self.inner_paused,
                                );
                            } else {
                                assert(self.inner == w.inner && self.inner_paused
                                    == w.inner_paused);
                                assert(frames_run(
                                    w.inner,
                                    self.inner,
                                    w.inner_paused,
                                    self.inner_paused,
                                    0nat,
                                ));
                            }
                            assert(frames_pulled(
                                w.inner,
                                self.inner,
                                w.inner_paused,
                                self.inner_paused,
                            ));
                        }
                    },
                    Ok(false) => {
                        proof {
                            lemma_collection_cut_to_frames_then_cut(
                                w.inner,
                                self.inner,
                                w.inner_paused,
                                self.inner_paused,
                                Result::<NextSample, Error>::Ok(NextSample::MetadataChanged),
                            );
                        }
                        self.init();
                        proof {
                            assert(resample_restart(w, *self));
                            restarts = restarts + 1;
                            assert(restart_chain(*old(self), *self, restarts));
                        }
                        continue ;
                    },
                    Err(e) => {
                        proof {
                            lemma_collection_cut_to_frames_then_cut(
                                w.inner,
                                self.inner,
                                w.inner_paused,
                                self.inner_paused,
                                Err(e),
                            );
                            assert(interp_outcome(w, *self, Err(e)));
                            assert(resample_outcome(w, *self, Err(e)));
                            assert(old(self).next_sample_ens(*self, Err(e)));
                        }
                        return Err(e);
                    },
                }
            }

            if self.next_output_frame_pos_in_chunk == self.to_rate_scaled {
                // Jump to the start of the next chunk, discarding input
                // frames up to the chunk boundary.
                self.next_output_frame_pos_in_chunk = 0;
                if self.current_frame_pos_in_chunk == u32::MAX {
                    self.init();
                    proof {
                        assert(resample_restart(w, *self));
                        restarts = restarts + 1;
                        assert(restart_chain(*old(self), *self, restarts));
                    }
                    continue ;
                }
                let ghost m0 = self.inner;
                let ghost flag0m = self.inner_paused;
                proof {
                    assert(frames_pulled(w.inner, m0, w.inner_paused, flag0m));
                }
                let advanced = self.next_input_frame();
                proof {
                    lemma_pulls_trans(old(self).inner, m0, self.inner);
                }
                match advanced {
                    Ok(true) => {
                        proof {
                            lemma_frames_pulled_step(
                                w.inner,
                                m0,
                                self.inner,
                                w.inner_paused,
                                flag0m,
                                self.inner_paused,
                                self.next_frame@,
                            );
                        }
                    },
                    Ok(false) => {
                        proof {
                            lemma_frames_pulled_cut(
                                w.inner,
                                m0,
                                self.inner,
                                w.inner_paused,
                                flag0m,
                                Result::<NextSample, Error>::Ok(NextSample::MetadataChanged),
                            );
                        }
                        self.init();
                        proof {
                            assert(resample_restart(w, *self));
                            restarts = restarts + 1;
                            assert(restart_chain(*old(self), *self, restarts));
                        }
                        continue ;
                    },
                    Err(e) => {
                        proof {
                            lemma_frames_pulled_cut(
                                w.inner,
                                m0,
                                self.inner,
                                w.inner_paused,
                                flag0m,
                                Err(e),
                            );
                            assert(interp_outcome(w, *self, Err(e)));
                            assert(resample_outcome(w, *self, Err(e)));
                            assert(old(self).next_sample_ens(*self, Err(e)));
                        }
                        return Err(e);
                    },
                }
                let ghost jump0 = *self;
                let mut aborted = false;
                while !aborted && self.current_frame_pos_in_chunk < self.from_rate_scaled
                    invariant
                        self.inv(),
                        reachable_by_pulls(old(self).inner, self.inner),
                        *self == (SampleRateConverter {
                            inner: self.inner,
                            inner_paused: self.inner_paused,
                            current_frame: self.current_frame,
                            next_frame: self.next_frame,
                            current_frame_pos_in_chunk: self.current_frame_pos_in_chunk,
                            ..jump0
                        }),
                        !aborted ==> frames_pulled(
                            w.inner,
                            self.inner,
                            w.inner_paused,
                            self.inner_paused,
                        ),
                        aborted ==> frames_then_cut(
                            w.inner,
                            self.inner,
                            w.inner_paused,
                            self.inner_paused,
                            Result::<NextSample, Error>::Ok(NextSample::MetadataChanged),
                        ),
                    decreases (if aborted {
                        0int
                    } else {
                        1int
                    }), self.from_rate_scaled - self.current_frame_pos_in_chunk,
                {
                    let ghost m0 = self.inner;
                    let ghost flag0m = self.inner_paused;
                    let advanced = self.next_input_frame();
                    proof {
                        lemma_pulls_trans(old(self).inner, m0, self.inner);
                    }
                    match advanced {
                        Ok(true) => {
                            proof {
                                lemma_frames_pulled_step(
                                    w.inner,
                                    m0,
                                    self.inner,
                                    w.inner_paused,
                                    flag0m,
                                    self.inner_paused,
                                    self.next_frame@,
                                );
                            }
                        },
                        Ok(false) => {
                            proof {
                                lemma_frames_pulled_cut(
                                    w.inner,
                                    m0,
                                    self.inner,
                                    w.inner_paused,
                                    flag0m,
                                    Result::<NextSample, Error>::Ok(NextSample::MetadataChanged),
                                );
                            }
                            aborted = true;
                        },
                        Err(e) => {
                            proof {
                                lemma_frames_pulled_cut(
                                    w.inner,
                                    m0,
                                    self.inner,
                                    w.inner_paused,
                                    flag0m,
                                    Err(e),
                                );
                                assert(interp_outcome(w, *self, Err(e)));
                                assert(resample_outcome(w, *self, Err(e)));
                                assert(old(self).next_sample_ens(*self, Err(e)));
                            }
                            return Err(e);
                        },
                    }
                }
                if aborted {
                    self.init();
                    proof {
                        assert(resample_restart(w, *self));
                        restarts = restarts + 1;
                        assert(restart_chain(*old(self), *self, restarts));
                    }
                    continue ;
                }
                self.current_frame_pos_in_chunk = 0;
            } else {
                // The input frame position the next output frame interpolates
                // from.
                proof {
                    let a = self.from_rate_scaled;
                    let b = self.next_output_frame_pos_in_chunk;
                    assert(a * b <= u64::MAX) by (nonlinear_arith)
                        requires
                            a <= u32::MAX,
                            b <= u32::MAX,
                    ;
                }
                let req_left_sample: u32 = ((self.from_rate_scaled as u64
                    * self.next_output_frame_pos_in_chunk as u64 / self.to_rate_scaled as u64)
                    % self.from_rate_scaled as u64) as u32;
                proof {
                    let x = self.from_rate_scaled as int * self.next_output_frame_pos_in_chunk as int
                        / self.to_rate_scaled as int;
                    assert(x % (self.from_rate_scaled as int) < self.from_rate_scaled as int)
                        by (nonlinear_arith)
                        requires
                            self.from_rate_scaled >= 1,
                            x >= 0,
                    ;
                }
                let ghost req0 = *self;
                let mut aborted = false;
                while !aborted && self.current_frame_pos_in_chunk < req_left_sample
                    invariant
                        self.inv(),
                        reachable_by_pulls(old(self).inner, self.inner),
                        req_left_sample < self.from_rate_scaled,
                        *self == (SampleRateConverter {
                            inner: self.inner,
                            inner_paused: self.inner_paused,
                            current_frame: self.current_frame,
                            next_frame: self.next_frame,
                            current_frame_pos_in_chunk: self.current_frame_pos_in_chunk,
                            ..req0
                        }),
                        !aborted ==> frames_pulled(
                            w.inner,
                            self.inner,
                            w.inner_paused,
                            self.inner_paused,
                        ),
                        aborted ==> frames_then_cut(
                            w.inner,
                            self.inner,
                            w.inner_paused,
                            self.inner_paused,
                            Result::<NextSample, Error>::Ok(NextSample::MetadataChanged),
                        ),
                    decreases (if aborted {
                        0int
                    } else {
                        1int
                    }), req_left_sample - self.current_frame_pos_in_chunk,
                {
                    let ghost m0 = self.inner;
                    let ghost flag0m = self.inner_paused;
                    let advanced = self.next_input_frame();
                    proof {
                        lemma_pulls_trans(old(self).inner, m0, self.inner);
                    }
                    match advanced {
                        Ok(true) => {
                            proof {
                                lemma_frames_pulled_step(
                                    w.inner,
                                    m0,
                                    self.inner,
                                    w.inner_paused,
                                    flag0m,
                                    self.inner_paused,
                                    self.next_frame@,
                                );
                            }
                        },
                        Ok(false) => {
                            proof {
                                lemma_frames_pulled_cut(
                                    w.inner,
                                    m0,
                                    self.inner,
                                    w.inner_paused,
                                    flag0m,
                                    Result::<NextSample, Error>::Ok(NextSample::MetadataChanged),
                                );
                            }
                            aborted = true;
                        },
                        Err(e) => {
                            proof {
                                lemma_frames_pulled_cut(
                                    w.inner,
                                    m0,
                                    self.inner,
                                    w.inner_paused,
                                    flag0m,
                                    Err(e),
                                );
                                assert(interp_outcome(w, *self, Err(e)));
                                assert(resample_outcome(w, *self, Err(e)));
                                assert(old(self).next_sample_ens(*self, Err(e)));
                            }
                            return Err(e);
                        },
                    }
                }
                if aborted {
                    self.init();
                    proof {
                        assert(resample_restart(w, *self));
                        restarts = restarts + 1;
                        assert(restart_chain(*old(self), *self, restarts));
                    }
                    continue ;
                }
            }

            proof {
                let a = self.from_rate_scaled;
                let b = self.next_output_frame_pos_in_chunk;
                assert(a * b <= u64::MAX) by (nonlinear_arith)
                    requires
                        a <= u32::MAX,
                        b <= u32::MAX,
                ;
            }
            let ghost pos_pre = self.next_output_frame_pos_in_chunk;
            let numerator: u32 = ((self.from_rate_scaled as u64
                * self.next_output_frame_pos_in_chunk as u64) % self.to_rate_scaled as u64) as u32;
            proof {
                let y = self.from_rate_scaled as int * self.next_output_frame_pos_in_chunk as int;
                assert(y % (self.to_rate_scaled as int) < self.to_rate_scaled as int)
                    by (nonlinear_arith)
                    requires
                        self.to_rate_scaled >= 1,
                        y >= 0,
                ;
            }

            // If we came back from a pause with only the lookahead frame
            // filled, advance so interpolation has a current frame.
            if self.current_frame.len() == 0 && self.next_frame.len() > 0 {
                if self.current_frame_pos_in_chunk == u32::MAX {
                    self.init();
                    proof {
                        assert(resample_restart(w, *self));
                        restarts = restarts + 1;
                        assert(restart_chain(*old(self), *self, restarts));
                    }
                    continue ;
                }
                let ghost m0 = self.inner;
                let ghost flag0m = self.inner_paused;
                proof {
                    assert(frames_pulled(w.inner, m0, w.inner_paused, flag0m));
                }
                let advanced = self.next_input_frame();
                proof {
                    lemma_pulls_trans(old(self).inner, m0, self.inner);
                }
                match advanced {
                    Ok(true) => {
                        proof {
                            lemma_frames_pulled_step(
                                w.inner,
                                m0,
                                self.inner,
                                w.inner_paused,
                                flag0m,
                                self.inner_paused,
                                self.next_frame@,
                            );
                        }
                    },
                    Ok(false) => {
                        proof {
                            lemma_frames_pulled_cut(
                                w.inner,
                                m0,
                                self.inner,
                                w.inner_paused,
                                flag0m,
                                Result::<NextSample, Error>::Ok(NextSample::MetadataChanged),
                            );
                        }
                        self.init();
                        proof {
                            assert(resample_restart(w, *self));
                            restarts = restarts + 1;
                            assert(restart_chain(*old(self), *self, restarts));
                        }
                        continue ;
                    },
                    Err(e) => {
                        proof {
                            lemma_frames_pulled_cut(
                                w.inner,
                                m0,
                                self.inner,
                                w.inner_paused,
                                flag0m,
                                Err(e),
                            );
                            assert(interp_outcome(w, *self, Err(e)));
                            assert(resample_outcome(w, *self, Err(e)));
                            assert(old(self).next_sample_ens(*self, Err(e)));
                        }
                        return Err(e);
                    },
                }
            }

            // Interpolate every channel both frames have; the lowest channel
            // is returned now, the rest wait on the stack in reverse order.
            let frames_len: usize = if self.current_frame.len() <= self.next_frame.len() {
                self.current_frame.len()
            } else {
                self.next_frame.len()
            };
            let ghost state0 = *self;
            let mut result: Option<i16> = None;
            let mut i: usize = frames_len;
            while i > 0
                invariant
                    self.inv(),
                    reachable_by_pulls(old(self).inner, self.inner),
                    *self == (SampleRateConverter { output_frame: self.output_frame, ..state0 }),
                    i <= frames_len,
                    frames_len <= self.current_frame@.len(),
                    frames_len <= self.next_frame@.len(),
                    numerator < self.to_rate_scaled,
                    (result matches Some(sv) ==> sv as int == spec_linear_interpolation(
                        self.current_frame@[0],
                        self.next_frame@[0],
                        numerator,
                        self.to_rate_scaled,
                    )),
                    (result is Some <==> (frames_len > 0 && i == 0)),
                    (result is None && i == frames_len ==> self.output_frame@
                        == state0.output_frame@),
                decreases i,
            {
                i = i - 1;
                let sample = linear_interpolation(
                    self.current_frame[i],
                    self.next_frame[i],
                    numerator,
                    self.to_rate_scaled,
                );
                if i == 0 {
                    result = Some(sample);
                } else {
                    self.output_frame.push(sample);
                }
            }

            if self.next_output_frame_pos_in_chunk < self.to_rate_scaled {
                self.next_output_frame_pos_in_chunk = self.next_output_frame_pos_in_chunk + 1;
            }

            match result {
                Some(sample) => {
                    let r: Result<NextSample, Error> = Ok(NextSample::Sample(sample));
                    proof {
                        assert(self.next_output_frame_pos_in_chunk == pos_pre + 1);
                        assert(numerator as int == ((self.from_rate_scaled as int) * (
                        self.next_output_frame_pos_in_chunk - 1)) % (self.to_rate_scaled as int));
                        assert(self.current_frame@.len() >= 1 && self.next_frame@.len() >= 1);
                        assert(sample as int == spec_linear_interpolation(
                            self.current_frame@[0],
                            self.next_frame@[0],
                            numerator,
                            self.to_rate_scaled,
                        ));
                        assert(interp_outcome(w, *self, r));
                        assert(resample_outcome(w, *self, r));
                        assert(old(self).next_sample_ens(*self, r));
                    }
                    return r;
                },
                None => {
                    proof {
                        assert(frames_len == 0);
                        assert(self.output_frame@ =~= state0.output_frame@);
                        assert(self.output_frame@.len() == 0);
                    }
                    if self.current_frame.len() > 0 {
                        // No lookahead frame remains: flush the current frame
                        // to the output as-is.
                        let ghost flushed = self.current_frame@;
                        let ghost flush0 = *self;
                        proof {
                            assert(self.output_frame@ =~= flushed.subrange(
                                flushed.len() as int,
                                flushed.len() as int,
                            ).reverse());
                        }
                        let first = self.current_frame[0];
                        let mut j: usize = self.current_frame.len();
                        while j > 1
                            invariant
                                self.inv(),
                                reachable_by_pulls(old(self).inner, self.inner),
                                1 <= j <= flushed.len(),
                                flushed == self.current_frame@,
                                *self == (SampleRateConverter {
                                    output_frame: self.output_frame,
                                    ..flush0
                                }),
                                self.output_frame@ =~= flushed.subrange(
                                    j as int,
                                    flushed.len() as int,
                                ).reverse(),
                            decreases j,
                        {
                            j = j - 1;
                            let s = self.current_frame[j];
                            self.output_frame.push(s);
                            proof {
                                assert(self.output_frame@ =~= flushed.subrange(
                                    j as int,
                                    flushed.len() as int,
                                ).reverse());
                            }
                        }
                        self.current_frame.clear();
                        let r: Result<NextSample, Error> = Ok(NextSample::Sample(first));
                        proof {
                            assert(flushed.drop_first() =~= flushed.subrange(
                                1,
                                flushed.len() as int,
                            ));
                            assert(self.output_frame@ =~= flushed.drop_first().reverse());
                            assert(flushed.len() >= 1 && first == flushed[0]);
                            assert(flushed_frame(first, self.output_frame@));
                            assert(self.current_frame@.len() == 0);
                            assert(interp_outcome(w, *self, r));
                            assert(resample_outcome(w, *self, r));
                            assert(old(self).next_sample_ens(*self, r));
                        }
                        return r;
                    } else {
                        self.current_frame_pos_in_chunk = 0;
                        self.next_output_frame_pos_in_chunk = 0;
                        let r: Result<NextSample, Error> = if self.inner_paused {
                            Ok(NextSample::Paused)
                        } else {
                            Ok(NextSample::Finished)
                        };
                        proof {
                            assert(self.output_frame@.len() == 0);
                            assert(self.from_rate_scaled != self.to_rate_scaled);
                            assert(drained(w, *self));
                            assert(interp_outcome(w, *self, r));
                            assert(resample_outcome(w, *self, r));
                            assert(old(self).next_sample_ens(*self, r));
                        }
                        return r;
                    }
                },
            }
        }
    }

    fn on_start_of_batch(&mut self) {
        self.inner.on_start_of_batch();
        proof {
            assert(old(self).batch_ens(*self));
        }
    }
}

impl<S: SoundExt> SampleRateConverter<S> {
    /// Pull one frame from the inner sound, or record why none came:
    /// `Ok(None)` reports a metadata change, an empty frame a pause or
    /// finish (recorded in `inner_paused`).
    fn collect_one_frame(&mut self) -> (r: Result<Option<Vec<i16>>, Error>)
        requires
            old(self).inv(),
        ensures
            final(self).inv(),
            reachable_by_pulls(old(self).inner, final(self).inner),
            *final(self) == (SampleRateConverter {
                inner: final(self).inner,
                inner_paused: final(self).inner_paused,
                ..*old(self)
            }),
            (r matches Ok(f_opt) ==> match f_opt {
                Some(f) => frame_collected(
                    old(self).inner,
                    final(self).inner,
                    f@,
                    old(self).inner_paused,
                    final(self).inner_paused,
                ),
                None => frame_cut_short(
                    old(self).inner,
                    final(self).inner,
                    Result::<NextSample, Error>::Ok(NextSample::MetadataChanged),
                ) && final(self).inner_paused == old(self).inner_paused,
            }),
            (r matches Err(e) ==> frame_cut_short(old(self).inner, final(self).inner, Err(e))
                && final(self).inner_paused == old(self).inner_paused),
    {
        let ghost pre_inner = self.inner;
        let res = self.inner.next_frame();
        match res {
            Ok(f) => {
                proof {
                    assert(frame_collected(
                        pre_inner,
                        self.inner,
                        f@,
                        old(self).inner_paused,
                        self.inner_paused,
                    ));
                }
                Ok(Some(f))
            },
            Err(Ok(NextSample::Sample(_))) => {
                proof {
                    assert(false);
                }
                Ok(None)
            },
            Err(Ok(NextSample::MetadataChanged)) => {
                proof {
                    let (m, vals) = choose|m: S, vals: Seq<i16>|
                        sample_run(pre_inner, m, vals) && m.inv() && vals.len()
                            < pre_inner.spec_channel_count() && m.next_sample_ens(
                            self.inner,
                            Result::<NextSample, Error>::Ok(NextSample::MetadataChanged),
                        );
                    assert(frame_cut_short(
                        pre_inner,
                        self.inner,
                        Result::<NextSample, Error>::Ok(NextSample::MetadataChanged),
                    ));
                }
                Ok(None)
            },
            Err(Ok(NextSample::Paused)) => {
                self.inner_paused = true;
                proof {
                    let (m, vals) = choose|m: S, vals: Seq<i16>|
                        sample_run(pre_inner, m, vals) && m.inv() && vals.len()
                            < pre_inner.spec_channel_count() && m.next_sample_ens(
                            self.inner,
                            Result::<NextSample, Error>::Ok(NextSample::Paused),
                        );
                    assert(frame_cut_short(
                        pre_inner,
                        self.inner,
                        Result::<NextSample, Error>::Ok(NextSample::Paused),
                    ));
                    assert(frame_collected(
                        pre_inner,
                        self.inner,
                        Seq::<i16>::empty(),
                        old(self).inner_paused,
                        true,
                    ));
                }
                let empty: Vec<i16> = Vec::new();
                proof {
                    assert(empty@ =~= Seq::<i16>::empty());
                }
                Ok(Some(empty))
            },
            Err(Ok(NextSample::Finished)) => {
                self.inner_paused = false;
                proof {
                    let (m, vals) = choose|m: S, vals: Seq<i16>|
                        sample_run(pre_inner, m, vals) && m.inv() && vals.len()
                            < pre_inner.spec_channel_count() && m.next_sample_ens(
                            self.inner,
                            Result::<NextSample, Error>::Ok(NextSample::Finished),
                        );
                    assert(frame_cut_short(
                        pre_inner,
                        self.inner,
                        Result::<NextSample, Error>::Ok(NextSample::Finished),
                    ));
                    assert(frame_collected(
                        pre_inner,
                        self.inner,
                        Seq::<i16>::empty(),
                        old(self).inner_paused,
                        false,
                    ));
                }
                let empty: Vec<i16> = Vec::new();
                proof {
                    assert(empty@ =~= Seq::<i16>::empty());
                }
                Ok(Some(empty))
            },
            Err(Err(e)) => {
                proof {
                    let (m, vals) = choose|m: S, vals: Seq<i16>|
                        sample_run(pre_inner, m, vals) && m.inv() && vals.len()
                            < pre_inner.spec_channel_count() && m.next_sample_ens(
                            self.inner,
                            Err(e),
                        );
                    assert(frame_cut_short(pre_inner, self.inner, Err(e)));
                }
                Err(e)
            },
        }
    }

    /// Fill `current_frame` and `next_frame` with the next two consecutive
    /// input frames (empty when the inner rate already matches or the
    /// stream paused or finished). Returns `Ok(false)` if a metadata change
    /// interrupted the filling, leaving both frame fields untouched.
    fn fill_frames(&mut self) -> (r: Result<bool, Error>)
        requires
            old(self).inv(),
        ensures
            final(self).inv(),
            final(self).to_rate == old(self).to_rate,
            reachable_by_pulls(old(self).inner, final(self).inner),
            *final(self) == (SampleRateConverter {
                inner: final(self).inner,
                inner_paused: final(self).inner_paused,
                current_frame: final(self).current_frame,
                next_frame: final(self).next_frame,
                ..*old(self)
            }),
            (r == Result::<bool, Error>::Ok(true) ==> (old(self).inner.spec_sample_rate() == old(
                self,
            ).to_rate && *final(self) == (SampleRateConverter {
                current_frame: final(self).current_frame,
                next_frame: final(self).next_frame,
                ..*old(self)
            }) && final(self).current_frame@.len() == 0 && final(self).next_frame@.len() == 0)
                || two_frames_collected(
                old(self).inner,
                final(self).inner,
                final(self).current_frame@,
                final(self).next_frame@,
                old(self).inner_paused,
                final(self).inner_paused,
            )),
            (r == Result::<bool, Error>::Ok(false) ==> final(self).current_frame == old(
                self,
            ).current_frame && final(self).next_frame == old(self).next_frame
                && collection_cut_short(
                old(self).inner,
                final(self).inner,
                old(self).inner_paused,
                final(self).inner_paused,
                Result::<NextSample, Error>::Ok(NextSample::MetadataChanged),
            )),
            (r matches Err(e) ==> final(self).current_frame == old(self).current_frame
                && final(self).next_frame == old(self).next_frame && collection_cut_short(
                old(self).inner,
                final(self).inner,
                old(self).inner_paused,
                final(self).inner_paused,
                Err(e),
            )),
    {
        proof {
            lemma_pulls_refl(self.inner);
        }
        let from_rate = self.inner.sample_rate();
        if from_rate == self.to_rate {
            self.current_frame = Vec::new();
            self.next_frame = Vec::new();
            return Ok(true);
        }
        let first = match self.collect_one_frame() {
            Ok(Some(f)) => f,
            Ok(None) => {
                return Ok(false);
            },
            Err(e) => {
                return Err(e);
            },
        };
        let ghost mid_inner = self.inner;
        let ghost mid_flag = self.inner_paused;
        let ghost first_view = first@;
        let next = match self.collect_one_frame() {
            Ok(Some(f)) => f,
            Ok(None) => {
                proof {
                    lemma_pulls_trans(old(self).inner, mid_inner, self.inner);
                    assert(frame_collected(
                        old(self).inner,
                        mid_inner,
                        first_view,
                        old(self).inner_paused,
                        mid_flag,
                    ) && mid_inner.inv() && frame_cut_short(
                        mid_inner,
                        self.inner,
                        Result::<NextSample, Error>::Ok(NextSample::MetadataChanged),
                    ));
                }
                return Ok(false);
            },
            Err(e) => {
                proof {
                    lemma_pulls_trans(old(self).inner, mid_inner, self.inner);
                    assert(frame_collected(
                        old(self).inner,
                        mid_inner,
                        first_view,
                        old(self).inner_paused,
                        mid_flag,
                    ) && mid_inner.inv() && frame_cut_short(mid_inner, self.inner, Err(e)));
                }
                return Err(e);
            },
        };
        proof {
            lemma_pulls_trans(old(self).inner, mid_inner, self.inner);
            assert(frame_collected(
                old(self).inner,
                mid_inner,
                first_view,
                old(self).inner_paused,
                mid_flag,
            ) && mid_inner.inv() && frame_collected(
                mid_inner,
                self.inner,
                next@,
                mid_flag,
                self.inner_paused,
            ));
        }
        self.current_frame = first;
        self.next_frame = next;
        proof {
            assert(two_frames_collected(
                old(self).inner,
                self.inner,
                self.current_frame@,
                self.next_frame@,
                old(self).inner_paused,
                self.inner_paused,
            ));
        }
        Ok(true)
    }

    /// Advance by one input frame: the lookahead frame becomes current and a
    /// new lookahead frame is pulled. Returns `Ok(false)` if a metadata
    /// change interrupted the pull.
    fn next_input_frame(&mut self) -> (r: Result<bool, Error>)
        requires
            old(self).inv(),
            old(self).current_frame_pos_in_chunk < u32::MAX,
        ensures
            final(self).inv(),
            final(self).current_frame_pos_in_chunk == old(self).current_frame_pos_in_chunk + 1,
            reachable_by_pulls(old(self).inner, final(self).inner),
            final(self).current_frame == old(self).next_frame,
            (r == Result::<bool, Error>::Ok(true) ==> frame_collected(
                old(self).inner,
                final(self).inner,
                final(self).next_frame@,
                old(self).inner_paused,
                final(self).inner_paused,
            )),
            (r == Result::<bool, Error>::Ok(false) ==> frame_cut_short(
                old(self).inner,
                final(self).inner,
                Result::<NextSample, Error>::Ok(NextSample::MetadataChanged),
            ) && final(self).inner_paused == old(self).inner_paused),
            (r matches Err(e) ==> frame_cut_short(old(self).inner, final(self).inner, Err(e))
                && final(self).inner_paused == old(self).inner_paused),
            *final(self) == (SampleRateConverter {
                inner: final(self).inner,
                inner_paused: final(self).inner_paused,
                current_frame: final(self).current_frame,
                next_frame: final(self).next_frame,
                current_frame_pos_in_chunk: final(self).current_frame_pos_in_chunk,
                ..*old(self)
            }),
    {
        self.current_frame_pos_in_chunk = self.current_frame_pos_in_chunk + 1;
        core::mem::swap(&mut self.current_frame, &mut self.next_frame);
        self.next_frame.clear();
        let ghost pre_inner = self.inner;
        let specials = self.inner.append_next_frame_to(&mut self.next_frame);
        match specials {
            Ok(()) => {
                proof {
                    assert(self.next_frame@.subrange(0, self.next_frame@.len() as int)
                        =~= self.next_frame@);
                    assert(frame_collected(
                        pre_inner,
                        self.inner,
                        self.next_frame@,
                        old(self).inner_paused,
                        self.inner_paused,
                    ));
                }
                Ok(true)
            },
            Err(Ok(NextSample::Sample(_))) => {
                proof {
                    assert(false);
                }
                Ok(true)
            },
            Err(Ok(NextSample::MetadataChanged)) => {
                proof {
                    let (m, vals) = choose|m: S, vals: Seq<i16>|
                        sample_run(pre_inner, m, vals) && m.inv() && vals.len()
                            < pre_inner.spec_channel_count() && m.next_sample_ens(
                            self.inner,
                            Result::<NextSample, Error>::Ok(NextSample::MetadataChanged),
                        );
                    assert(frame_cut_short(
                        pre_inner,
                        self.inner,
                        Result::<NextSample, Error>::Ok(NextSample::MetadataChanged),
                    ));
                }
                Ok(false)
            },
            // Running out of samples is handled by the caller.
            Err(Ok(NextSample::Paused)) => {
                self.inner_paused = true;
                proof {
                    let (m, vals) = choose|m: S, vals: Seq<i16>|
                        sample_run(pre_inner, m, vals) && m.inv() && vals.len()
                            < pre_inner.spec_channel_count() && m.next_sample_ens(
                            self.inner,
                            Result::<NextSample, Error>::Ok(NextSample::Paused),
                        );
                    assert(frame_cut_short(
                        pre_inner,
                        self.inner,
                        Result::<NextSample, Error>::Ok(NextSample::Paused),
                    ));
                    assert(self.next_frame@.len() == 0);
                    assert(frame_collected(
                        pre_inner,
                        self.inner,
                        self.next_frame@,
                        old(self).inner_paused,
                        true,
                    ));
                }
                Ok(true)
            },
            Err(Ok(NextSample::Finished)) => {
                self.inner_paused = false;
                proof {
                    let (m, vals) = choose|m: S, vals: Seq<i16>|
                        sample_run(pre_inner, m, vals) && m.inv() && vals.len()
                            < pre_inner.spec_channel_count() && m.next_sample_ens(
                            self.inner,
                            Result::<NextSample, Error>::Ok(NextSample::Finished),
                        );
                    assert(frame_cut_short(
                        pre_inner,
                        self.inner,
                        Result::<NextSample, Error>::Ok(NextSample::Finished),
                    ));
                    assert(self.next_frame@.len() == 0);
                    assert(frame_collected(
                        pre_inner,
                        self.inner,
                        self.next_frame@,
                        old(self).inner_paused,
                        false,
                    ));
                }
                Ok(true)
            },
            Err(Err(e)) => {
                proof {
                    let (m, vals) = choose|m: S, vals: Seq<i16>|
                        sample_run(pre_inner, m, vals) && m.inv() && vals.len()
                            < pre_inner.spec_channel_count() && m.next_sample_ens(
                            self.inner,
                            Err(e),
                        );
                    assert(frame_cut_short(pre_inner, self.inner, Err(e)));
                }
                Err(e)
            },
        }
    }
}

impl<S: SoundExt> Wrapper for SampleRateConverter<S> {
    type Inner = S;

    open spec fn spec_inner(&self) -> S {
        self.inner
    }

    open spec fn with_inner(&self, inner: S) -> Self {
        SampleRateConverter { inner, ..*self }
    }

    fn inner(&self) -> &S {
        &self.inner
    }

    fn inner_mut(&mut self) -> &mut S {
        &mut self.inner
    }

    /// Unwrap the inner sound.
    fn into_inner(self) -> S {
        self.inner
    }
}

impl<S: SoundExt + SetPaused> SetPaused for SampleRateConverter<S> {
    /// Pausing is forwarded to the inner sound.
    open spec fn set_paused_ens(&self, post: Self, paused: bool) -> bool {
        &&& self.inner.set_paused_ens(post.inner, paused)
        &&& post == (SampleRateConverter { inner: post.inner, ..*self })
    }

    fn set_paused(&mut self, paused: bool) {
        self.inner.set_paused(paused);
        proof {
            assert(old(self).set_paused_ens(*self, paused));
        }
    }
}

impl<S: SoundExt + SetSpeed> SetSpeed for SampleRateConverter<S> {
    /// Speed changes are forwarded to the inner sound.
    open spec fn set_speed_ens(&self, post: Self, multiplier: Factor) -> bool {
        &&& self.inner.set_speed_ens(post.inner, multiplier)
        &&& post == (SampleRateConverter { inner: post.inner, ..*self })
    }

    fn set_speed(&mut self, multiplier: Factor) {
        self.inner.set_speed(multiplier);
        proof {
            assert(old(self).set_speed_ens(*self, multiplier));
        }
    }
}

impl<S: SoundExt + SetVolume> SetVolume for SampleRateConverter<S> {
    /// Volume changes are forwarded to the inner sound.
    open spec fn set_volume_ens(&self, post: Self, multiplier: Factor) -> bool {
        &&& self.inner.set_volume_ens(post.inner, multiplier)
        &&& post == (SampleRateConverter { inner: post.inner, ..*self })
    }

    fn set_volume(&mut self, multiplier: Factor) {
        self.inner.set_volume(multiplier);
        proof {
            assert(old(self).set_volume_ens(*self, multiplier));
        }
    }
}

impl<S: SoundExt + AddSound> AddSound for SampleRateConverter<S> {
    type AddedSound = <S as AddSound>::AddedSound;

    /// Added sounds are forwarded to the inner sound.
    open spec fn add_ens(&self, post: Self, sound: <S as AddSound>::AddedSound) -> bool {
        &&& self.inner.add_ens(post.inner, sound)
        &&& post == (SampleRateConverter { inner: post.inner, ..*self })
    }

    fn add(&mut self, sound: <S as AddSound>::AddedSound) {
        let ghost g = sound;
        self.inner.add(sound);
        proof {
            assert(old(self).add_ens(*self, g));
        }
    }
}

impl<S: SoundExt + ClearSounds> ClearSounds for SampleRateConverter<S> {
    /// Clearing is forwarded to the inner sound.
    open spec fn clear_ens(&self, post: Self) -> bool {
        &&& self.inner.clear_ens(post.inner)
        &&& post == (SampleRateConverter { inner: post.inner, ..*self })
    }

    fn clear(&mut self) {
        self.inner.clear();
        proof {
            assert(old(self).clear_ens(*self));
        }
    }
}

} // verus!
