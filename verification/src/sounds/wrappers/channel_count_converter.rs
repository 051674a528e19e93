use vstd::prelude::*;

use crate::sounds::wrappers::pausable::SetPaused;
use crate::sounds::wrappers::adjustable_speed::SetSpeed;
use crate::sounds::wrappers::adjustable_volume::SetVolume;
use crate::sounds::wrappers::AddSound;
use crate::sounds::wrappers::ClearSounds;
use crate::factor::Factor;

use crate::error::Error;
use crate::sound::NextSample;
use crate::sound::Sound;
use crate::sounds::wrappers::wrapper::Wrapper;
use crate::sounds::ConstantValueSound;

verus! {

/// The conversion a [`ChannelCountConverter`] currently performs.
#[derive(Clone, Copy)]
pub enum ConverterType {
    /// The inner channel count equals the output count: samples pass through.
    PassThrough,
    /// One inner channel becomes two: each sample is emitted twice, with the
    /// pending repeat held here between pulls.
    MonoToStereo {
        /// A sample already emitted once and still owed to the second channel.
        last_sample: Option<i16>,
    },
    /// Two inner channels become one: each frame is averaged.
    StereoToMono,
}

/// The conversion for a `from_count`-channel sound output on `to_count`
/// channels, or `None` for an unsupported pair.
pub open spec fn spec_get_type(from_count: u16, to_count: u16) -> Option<ConverterType> {
    if from_count == to_count {
        Some(ConverterType::PassThrough)
    } else if from_count == 1 && to_count == 2 {
        Some(ConverterType::MonoToStereo { last_sample: None })
    } else if from_count == 2 && to_count == 1 {
        Some(ConverterType::StereoToMono)
    } else {
        None
    }
}

fn get_type(from_count: u16, to_count: u16) -> (r: Option<ConverterType>)
    ensures
        r == spec_get_type(from_count, to_count),
{
    if from_count == to_count {
        Some(ConverterType::PassThrough)
    } else if from_count == 1 && to_count == 2 {
        Some(ConverterType::MonoToStereo { last_sample: None })
    } else if from_count == 2 && to_count == 1 {
        Some(ConverterType::StereoToMono)
    } else {
        None
    }
}

/// The average of one two-channel frame, truncated toward zero.
pub open spec fn stereo_avg(s1: i16, s2: i16) -> i16 {
    let t = s1 + s2;
    if t >= 0 {
        (t / 2) as i16
    } else {
        (-((-t) / 2)) as i16
    }
}

/// How a non-`Sample` pull result of the inner sound leaves the converter:
/// on `MetadataChanged` the conversion is recomputed from the inner sound's
/// new channel count (an unsupported pair fails with a `FormatError` and the
/// old conversion is kept); everything else passes through unchanged.
pub open spec fn mode_update_out(
    to_count: u16,
    inner_post_cc: u16,
    ir: Result<NextSample, Error>,
    pre_mode: ConverterType,
    post_mode: ConverterType,
    r: Result<NextSample, Error>,
) -> bool {
    if ir == Result::<NextSample, Error>::Ok(NextSample::MetadataChanged) {
        match spec_get_type(inner_post_cc, to_count) {
            Some(m) => post_mode == m && r == ir,
            None => (r matches Err(e) && e is FormatError) && post_mode == pre_mode,
        }
    } else {
        &&& post_mode == pre_mode
        &&& r == ir
    }
}

/// Convert a sound to have a specified number of output channels, for example
/// a mono sound to stereo or vice versa.
///
/// Identity, mono-to-stereo and stereo-to-mono conversions are supported; any
/// other pair is rejected at construction. If the inner sound later changes
/// to an unsupported channel count, pulls fail with a `FormatError`.
pub struct ChannelCountConverter<S: Sound> {
    /// The wrapped sound.
    pub inner: S,
    /// The channel count this converter outputs.
    pub to_count: u16,
    /// The conversion currently performed.
    pub converter_type: ConverterType,
}

impl<S: Sound> ChannelCountConverter<S> {
    /// Wrap `inner` such that it outputs `to_count` channels.
    pub fn new(inner: S, to_count: u16) -> (r: ChannelCountConverter<S>)
        requires
            inner.inv(),
            spec_get_type(inner.spec_channel_count(), to_count) is Some,
        ensures
            r.inv(),
            r.inner == inner,
            r.to_count == to_count,
            Some(r.converter_type) == spec_get_type(inner.spec_channel_count(), to_count),
    {
        let from_count = inner.channel_count();
        let converter_type = match get_type(from_count, to_count) {
            Some(t) => t,
            None => {
                proof {
                    assert(false);
                }
                ConverterType::PassThrough
            },
        };
        ChannelCountConverter { inner, to_count, converter_type }
    }

    /// Recompute the conversion after the inner sound announced a metadata
    /// change. Fails if the new channel count pair is unsupported.
    fn update_type(&mut self) -> (r: Result<(), Error>)
        requires
            old(self).inner.inv(),
        ensures
            final(self).inner == old(self).inner,
            final(self).to_count == old(self).to_count,
            (match spec_get_type(old(self).inner.spec_channel_count(), old(self).to_count) {
                Some(m) => final(self).converter_type == m && r is Ok,
                None => (r matches Err(e) && e is FormatError) && final(self).converter_type == old(
                    self,
                ).converter_type,
            }),
    {
        let from_count = self.inner.channel_count();
        match get_type(from_count, self.to_count) {
            Some(t) => {
                self.converter_type = t;
                Ok(())
            },
            None => Err(
                Error::FormatError("unsupported channel count conversion requested".to_owned()),
            ),
        }
    }
}

impl<S: Sound> Sound for ChannelCountConverter<S> {
    open spec fn inv(&self) -> bool {
        self.inner.inv()
    }

    open spec fn spec_channel_count(&self) -> u16 {
        self.to_count
    }

    open spec fn spec_sample_rate(&self) -> u32 {
        self.inner.spec_sample_rate()
    }

    /// Pass-through forwards one inner pull; mono-to-stereo emits each inner
    /// sample twice; stereo-to-mono pulls two inner samples and yields their
    /// truncated average. Non-`Sample` results pass through, recomputing the
    /// conversion on `MetadataChanged`.
    open spec fn next_sample_ens(&self, post: Self, r: Result<NextSample, Error>) -> bool {
        &&& post.to_count == self.to_count
        &&& match self.converter_type {
            ConverterType::PassThrough => exists|ir: Result<NextSample, Error>|
                self.inner.next_sample_ens(post.inner, ir) && mode_update_out(
                    self.to_count,
                    post.inner.spec_channel_count(),
                    ir,
                    ConverterType::PassThrough,
                    post.converter_type,
                    r,
                ),
            ConverterType::MonoToStereo { last_sample } => {
                match last_sample {
                    Some(s) => {
                        &&& post.inner == self.inner
                        &&& post.converter_type == (ConverterType::MonoToStereo {
                            last_sample: None,
                        })
                        &&& r == Result::<NextSample, Error>::Ok(NextSample::Sample(s))
                    },
                    None => exists|ir: Result<NextSample, Error>|
                        self.inner.next_sample_ens(post.inner, ir) && (match ir {
                            Ok(NextSample::Sample(s)) => {
                                &&& r == ir
                                &&& post.converter_type == (ConverterType::MonoToStereo {
                                    last_sample: Some(s),
                                })
                            },
                            _ => mode_update_out(
                                self.to_count,
                                post.inner.spec_channel_count(),
                                ir,
                                ConverterType::MonoToStereo { last_sample: None },
                                post.converter_type,
                                r,
                            ),
                        }),
                }
            },
            ConverterType::StereoToMono => exists|mid: S, ir1: Result<NextSample, Error>|
                {
                    &&& self.inner.next_sample_ens(mid, ir1)
                    &&& mid.inv()
                    &&& match ir1 {
                        Ok(NextSample::Sample(s1)) => exists|ir2: Result<NextSample, Error>|
                            mid.next_sample_ens(post.inner, ir2) && (match ir2 {
                                Ok(NextSample::Sample(s2)) => {
                                    &&& r == Result::<NextSample, Error>::Ok(
                                        NextSample::Sample(stereo_avg(s1, s2)),
                                    )
                                    &&& post.converter_type == ConverterType::StereoToMono
                                },
                                _ => mode_update_out(
                                    self.to_count,
                                    post.inner.spec_channel_count(),
                                    ir2,
                                    ConverterType::StereoToMono,
                                    post.converter_type,
                                    r,
                                ),
                            }),
                        _ => post.inner == mid && mode_update_out(
                            self.to_count,
                            post.inner.spec_channel_count(),
                            ir1,
                            ConverterType::StereoToMono,
                            post.converter_type,
                            r,
                        ),
                    }
                },
        }
    }

    open spec fn batch_ens(&self, post: Self) -> bool {
        &&& post.to_count == self.to_count
        &&& post.converter_type == self.converter_type
        &&& self.inner.batch_ens(post.inner)
    }

    fn channel_count(&self) -> u16 {
        self.to_count
    }

    fn sample_rate(&self) -> u32 {
        let r = self.inner.sample_rate();
        proof {
            assert(r == self.spec_sample_rate());
        }
        r
    }

    fn next_sample(&mut self) -> Result<NextSample, Error> {
        let mode = self.converter_type;
        match mode {
            ConverterType::PassThrough => {
                let next = self.inner.next_sample();
                let r: Result<NextSample, Error> = if let Ok(NextSample::MetadataChanged) = &next {
                    match self.update_type() {
                        Ok(()) => next,
                        Err(e) => Err(e),
                    }
                } else {
                    next
                };
                proof {
                    assert(old(self).next_sample_ens(*self, r));
                }
                r
            },
            ConverterType::MonoToStereo { last_sample } => {
                if let Some(s) = last_sample {
                    self.converter_type = ConverterType::MonoToStereo { last_sample: None };
                    let r: Result<NextSample, Error> = Ok(NextSample::Sample(s));
                    proof {
                        assert(old(self).next_sample_ens(*self, r));
                    }
                    r
                } else {
                    let next = self.inner.next_sample();
                    let ghost g = next;
                    let r: Result<NextSample, Error> = match next {
                        Ok(NextSample::Sample(s)) => {
                            self.converter_type = ConverterType::MonoToStereo {
                                last_sample: Some(s),
                            };
                            Ok(NextSample::Sample(s))
                        },
                        Ok(NextSample::MetadataChanged) => {
                            match self.update_type() {
                                Ok(()) => Ok(NextSample::MetadataChanged),
                                Err(e) => Err(e),
                            }
                        },
                        other => other,
                    };
                    proof {
                        assert(old(self).inner.next_sample_ens(self.inner, g));
                        if !(g matches Ok(NextSample::Sample(_))) {
                            assert(mode_update_out(
                                old(self).to_count,
                                self.inner.spec_channel_count(),
                                g,
                                (ConverterType::MonoToStereo { last_sample: None }),
                                self.converter_type,
                                r,
                            ));
                        }
                        assert(old(self).next_sample_ens(*self, r));
                    }
                    r
                }
            },
            ConverterType::StereoToMono => {
                let next1 = self.inner.next_sample();
                let ghost mid = self.inner;
                let ghost g1 = next1;
                let sample1: i16 = match next1 {
                    Ok(NextSample::Sample(s)) => s,
                    Ok(NextSample::MetadataChanged) => {
                        let r: Result<NextSample, Error> = match self.update_type() {
                            Ok(()) => Ok(NextSample::MetadataChanged),
                            Err(e) => Err(e),
                        };
                        proof {
                            assert(old(self).inner.next_sample_ens(mid, g1) && self.inner == mid
                                && mode_update_out(
                                old(self).to_count,
                                self.inner.spec_channel_count(),
                                g1,
                                ConverterType::StereoToMono,
                                self.converter_type,
                                r,
                            ));
                            assert(old(self).next_sample_ens(*self, r));
                        }
                        return r;
                    },
                    other => {
                        proof {
                            assert(old(self).inner.next_sample_ens(mid, g1) && self.inner == mid
                                && mode_update_out(
                                old(self).to_count,
                                self.inner.spec_channel_count(),
                                g1,
                                ConverterType::StereoToMono,
                                self.converter_type,
                                other,
                            ));
                            assert(old(self).next_sample_ens(*self, other));
                        }
                        return other;
                    },
                };
                let next2 = self.inner.next_sample();
                let ghost g2 = next2;
                let sample2: i16 = match next2 {
                    Ok(NextSample::Sample(s)) => s,
                    Ok(NextSample::MetadataChanged) => {
                        let r: Result<NextSample, Error> = match self.update_type() {
                            Ok(()) => Ok(NextSample::MetadataChanged),
                            Err(e) => Err(e),
                        };
                        proof {
                            assert(old(self).inner.next_sample_ens(mid, g1) && mid.inv()
                                && mid.next_sample_ens(self.inner, g2) && mode_update_out(
                                old(self).to_count,
                                self.inner.spec_channel_count(),
                                g2,
                                ConverterType::StereoToMono,
                                self.converter_type,
                                r,
                            ));
                            assert(old(self).next_sample_ens(*self, r));
                        }
                        return r;
                    },
                    other => {
                        proof {
                            assert(old(self).inner.next_sample_ens(mid, g1) && mid.inv()
                                && mid.next_sample_ens(self.inner, g2) && mode_update_out(
                                old(self).to_count,
                                self.inner.spec_channel_count(),
                                g2,
                                ConverterType::StereoToMono,
                                self.converter_type,
                                other,
                            ));
                            assert(old(self).next_sample_ens(*self, other));
                        }
                        return other;
                    },
                };
                let t: i32 = sample1 as i32 + sample2 as i32;
                let avg: i16 = if t >= 0 {
                    (t / 2) as i16
                } else {
                    (-((-t) / 2)) as i16
                };
                let r: Result<NextSample, Error> = Ok(NextSample::Sample(avg));
                proof {
                    assert(old(self).inner.next_sample_ens(mid, g1) && mid.inv()
                        && mid.next_sample_ens(self.inner, g2));
                    assert(avg == stereo_avg(sample1, sample2));
                    assert(old(self).next_sample_ens(*self, r));
                }
                r
            },
        }
    }

    fn on_start_of_batch(&mut self) {
        self.inner.on_start_of_batch();
        proof {
            assert(old(self).batch_ens(*self));
        }
    }
}

impl<S: Sound> Wrapper for ChannelCountConverter<S> {
    type Inner = S;

    open spec fn spec_inner(&self) -> S {
        self.inner
    }

    open spec fn with_inner(&self, inner: S) -> Self {
        ChannelCountConverter { inner, ..*self }
    }

    fn inner(&self) -> &S {
        &self.inner
    }

    fn inner_mut(&mut self) -> &mut S {
        &mut self.inner
    }

    /// Unwrap the inner sound.
    fn into_inner(self) -> S {
        self.inner
    }
}

/// Doubling a mono frame and then averaging it back is the identity: for
/// every sample value, a mono sound converted to stereo duplicates the
/// sample into both channels, and converting that stereo frame back to mono
/// averages the two equal samples into the original one, exactly, for the
/// whole `i16` range.
pub proof fn lemma_mono_round_trip(s: i16)
    ensures
        stereo_avg(s, s) == s,
{
    let t = s + s;
    if t >= 0 {
        assert((s + s) / 2 == s as int) by (nonlinear_arith);
    } else {
        assert((-(s + s)) / 2 == -(s as int)) by (nonlinear_arith);
    }
}

/// Round trip: a mono constant-value sound converted to stereo and then
/// back to mono reproduces the original constant stream unchanged — every
/// pull of the composed converters yields exactly the constant value.
pub proof fn lemma_mono_stereo_mono_round_trip(
    outer: ChannelCountConverter<ChannelCountConverter<ConstantValueSound>>,
    post: ChannelCountConverter<ChannelCountConverter<ConstantValueSound>>,
    r: Result<NextSample, Error>,
    v: i16,
)
    requires
        outer.converter_type is StereoToMono,
        outer.inner.converter_type == (ConverterType::MonoToStereo { last_sample: None }),
        outer.inner.inner.value == v,
        !outer.inner.inner.metadata_changed,
        outer.next_sample_ens(post, r),
    ensures
        r == Result::<NextSample, Error>::Ok(NextSample::Sample(v)),
{
    let to1 = outer.to_count;
    let (mid, ir1) = choose|
        mid: ChannelCountConverter<ConstantValueSound>,
        ir1: Result<NextSample, Error>,
    |
        {
            &&& outer.inner.next_sample_ens(mid, ir1)
            &&& mid.inv()
            &&& match ir1 {
                Ok(NextSample::Sample(s1)) => exists|ir2: Result<NextSample, Error>|
                    mid.next_sample_ens(post.inner, ir2) && (match ir2 {
                        Ok(NextSample::Sample(s2)) => {
                            &&& r == Result::<NextSample, Error>::Ok(
                                NextSample::Sample(stereo_avg(s1, s2)),
                            )
                            &&& post.converter_type == ConverterType::StereoToMono
                        },
                        _ => mode_update_out(
                            to1,
                            post.inner.spec_channel_count(),
                            ir2,
                            ConverterType::StereoToMono,
                            post.converter_type,
                            r,
                        ),
                    }),
                _ => post.inner == mid && mode_update_out(
                    to1,
                    post.inner.spec_channel_count(),
                    ir1,
                    ConverterType::StereoToMono,
                    post.converter_type,
                    r,
                ),
            }
        };
    // The first pull duplicates the constant: the mono sound gives v and the
    // converter holds the second copy back for the next channel.
    let iri = choose|iri: Result<NextSample, Error>|
        outer.inner.inner.next_sample_ens(mid.inner, iri) && (match iri {
            Ok(NextSample::Sample(s)) => {
                &&& ir1 == iri
                &&& mid.converter_type == (ConverterType::MonoToStereo { last_sample: Some(s) })
            },
            _ => mode_update_out(
                outer.inner.to_count,
                mid.inner.spec_channel_count(),
                iri,
                (ConverterType::MonoToStereo { last_sample: None }),
                mid.converter_type,
                ir1,
            ),
        });
    assert(iri == Result::<NextSample, Error>::Ok(NextSample::Sample(v)));
    assert(ir1 == Result::<NextSample, Error>::Ok(NextSample::Sample(v)));
    assert(mid.converter_type == (ConverterType::MonoToStereo { last_sample: Some(v) }));
    // The second pull serves the held-back copy, and averaging the two equal
    // samples is the identity.
    let ir2 = choose|ir2: Result<NextSample, Error>|
        mid.next_sample_ens(post.inner, ir2) && (match ir2 {
            Ok(NextSample::Sample(s2)) => {
                &&& r == Result::<NextSample, Error>::Ok(NextSample::Sample(stereo_avg(v, s2)))
                &&& post.converter_type == ConverterType::StereoToMono
            },
            _ => mode_update_out(
                to1,
                post.inner.spec_channel_count(),
                ir2,
                ConverterType::StereoToMono,
                post.converter_type,
                r,
            ),
        });
    assert(ir2 == Result::<NextSample, Error>::Ok(NextSample::Sample(v)));
    lemma_mono_round_trip(v);
}

impl<S: Sound + SetPaused> SetPaused for ChannelCountConverter<S> {
    /// Pausing is forwarded to the inner sound.
    open spec fn set_paused_ens(&self, post: Self, paused: bool) -> bool {
        &&& self.inner.set_paused_ens(post.inner, paused)
        &&& post == (ChannelCountConverter { inner: post.inner, ..*self })
    }

    fn set_paused(&mut self, paused: bool) {
        self.inner.set_paused(paused);
        proof {
            assert(old(self).set_paused_ens(*self, paused));
        }
    }
}

impl<S: Sound + SetSpeed> SetSpeed for ChannelCountConverter<S> {
    /// Speed changes are forwarded to the inner sound.
    open spec fn set_speed_ens(&self, post: Self, multiplier: Factor) -> bool {
        &&& self.inner.set_speed_ens(post.inner, multiplier)
        &&& post == (ChannelCountConverter { inner: post.inner, ..*self })
    }

    fn set_speed(&mut self, multiplier: Factor) {
        self.inner.set_speed(multiplier);
        proof {
            assert(old(self).set_speed_ens(*self, multiplier));
        }
    }
}

impl<S: Sound + SetVolume> SetVolume for ChannelCountConverter<S> {
    /// Volume changes are forwarded to the inner sound.
    open spec fn set_volume_ens(&self, post: Self, multiplier: Factor) -> bool {
        &&& self.inner.set_volume_ens(post.inner, multiplier)
        &&& post == (ChannelCountConverter { inner: post.inner, ..*self })
    }

    fn set_volume(&mut self, multiplier: Factor) {
        self.inner.set_volume(multiplier);
        proof {
            assert(old(self).set_volume_ens(*self, multiplier));
        }
    }
}

impl<S: Sound + AddSound> AddSound for ChannelCountConverter<S> {
    type AddedSound = <S as AddSound>::AddedSound;

    /// Added sounds are forwarded to the inner sound.
    open spec fn add_ens(&self, post: Self, sound: <S as AddSound>::AddedSound) -> bool {
        &&& self.inner.add_ens(post.inner, sound)
        &&& post == (ChannelCountConverter { inner: post.inner, ..*self })
    }

    fn add(&mut self, sound: <S as AddSound>::AddedSound) {
        let ghost g = sound;
        self.inner.add(sound);
        proof {
            assert(old(self).add_ens(*self, g));
        }
    }
}

impl<S: Sound + ClearSounds> ClearSounds for ChannelCountConverter<S> {
    /// Clearing is forwarded to the inner sound.
    open spec fn clear_ens(&self, post: Self) -> bool {
        &&& self.inner.clear_ens(post.inner)
        &&& post == (ChannelCountConverter { inner: post.inner, ..*self })
    }

    fn clear(&mut self) {
        self.inner.clear();
        proof {
            assert(old(self).clear_ens(*self));
        }
    }
}

} // verus!
