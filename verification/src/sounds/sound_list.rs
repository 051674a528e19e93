use vstd::prelude::*;

use crate::error::Error;
use crate::sound::NextSample;
use crate::sound::Sound;
use crate::sounds::wrappers::AddSound;
use crate::sounds::wrappers::ClearSounds;

verus! {

/// The channel count reported while no sound is queued.
pub const EMPTY_LIST_CHANNEL_COUNT: u16 = 2;

/// The sample rate reported while no sound is queued.
pub const EMPTY_LIST_SAMPLE_RATE: u32 = 44100;

/// Play sounds sequentially, one after the other.
///
/// Only after a sound has returned [`NextSample::Finished`] does the next
/// sound start playing; the hand-over is announced with a
/// [`NextSample::MetadataChanged`] when more sounds remain, as is the first
/// pull after sounds were added to a drained list.
pub struct SoundList<S: Sound> {
    /// The queued sounds; the first entry is playing.
    pub sounds: Vec<S>,
    /// Whether the list was empty when the playing sound was added, so that
    /// the next pull announces its metadata.
    pub was_empty: bool,
}

impl<S: Sound> SoundList<S> {
    /// Create a new empty list.
    pub fn new() -> (r: SoundList<S>)
        ensures
            r.inv(),
            r.sounds@.len() == 0,
            !r.was_empty,
    {
        SoundList { sounds: Vec::new(), was_empty: false }
    }

    /// Add a sound to be played after the already queued sounds finish.
    pub fn add(&mut self, sound: S)
        requires
            old(self).inv(),
            sound.inv(),
        ensures
            final(self).inv(),
            final(self).sounds@ =~= old(self).sounds@.push(sound),
            final(self).was_empty == (old(self).was_empty || old(self).sounds@.len() == 0),
    {
        if self.sounds.len() == 0 {
            self.was_empty = true;
        }
        self.sounds.push(sound);
    }

    /// Stop all sounds, including the currently playing one.
    pub fn clear(&mut self)
        requires
            old(self).inv(),
        ensures
            final(self).inv(),
            final(self).sounds@.len() == 0,
            final(self).was_empty == old(self).was_empty,
    {
        self.sounds.clear();
    }
}

impl<S: Sound> Sound for SoundList<S> {
    open spec fn inv(&self) -> bool {
        forall|i: int| 0 <= i < self.sounds@.len() ==> #[trigger] self.sounds@[i].inv()
    }

    open spec fn spec_channel_count(&self) -> u16 {
        if self.sounds@.len() == 0 {
            EMPTY_LIST_CHANNEL_COUNT
        } else {
            self.sounds@[0].spec_channel_count()
        }
    }

    open spec fn spec_sample_rate(&self) -> u32 {
        if self.sounds@.len() == 0 {
            EMPTY_LIST_SAMPLE_RATE
        } else {
            self.sounds@[0].spec_sample_rate()
        }
    }

    /// An empty list is finished. A refilled list announces the first
    /// sound's metadata once. Otherwise the first sound's pull is forwarded;
    /// when it finishes it is dropped, and the hand-over to a following
    /// sound is announced with `MetadataChanged`.
    open spec fn next_sample_ens(&self, post: Self, r: Result<NextSample, Error>) -> bool {
        if self.sounds@.len() == 0 {
            &&& r == Result::<NextSample, Error>::Ok(NextSample::Finished)
            &&& post == *self
        } else if self.was_empty {
            &&& r == Result::<NextSample, Error>::Ok(NextSample::MetadataChanged)
            &&& post == (SoundList { was_empty: false, ..*self })
        } else {
            &&& !post.was_empty
            &&& exists|ir: Result<NextSample, Error>, mid: S|
                {
                    &&& self.sounds@[0].next_sample_ens(mid, ir)
                    &&& mid.inv()
                    &&& match ir {
                        Ok(NextSample::Finished) => {
                            &&& post.sounds@ =~= self.sounds@.drop_first()
                            &&& if post.sounds@.len() == 0 {
                                r == Result::<NextSample, Error>::Ok(NextSample::Finished)
                            } else {
                                r == Result::<NextSample, Error>::Ok(NextSample::MetadataChanged)
                            }
                        },
                        _ => {
                            &&& r == ir
                            &&& post.sounds@ =~= self.sounds@.update(0, mid)
                        },
                    }
                }
        }
    }

    open spec fn batch_ens(&self, post: Self) -> bool {
        &&& post.was_empty == self.was_empty
        &&& post.sounds@.len() == self.sounds@.len()
        &&& forall|i: int|
            0 <= i < self.sounds@.len() ==> #[trigger] self.sounds@[i].batch_ens(post.sounds@[i])
    }

    fn channel_count(&self) -> u16 {
        let r = if self.sounds.len() == 0 {
            EMPTY_LIST_CHANNEL_COUNT
        } else {
            self.sounds[0].channel_count()
        };
        proof {
            assert(r == self.spec_channel_count());
        }
        r
    }

    fn sample_rate(&self) -> u32 {
        let r = if self.sounds.len() == 0 {
            EMPTY_LIST_SAMPLE_RATE
        } else {
            self.sounds[0].sample_rate()
        };
        proof {
            assert(r == self.spec_sample_rate());
        }
        r
    }

    fn next_sample(&mut self) -> Result<NextSample, Error> {
        if self.sounds.len() == 0 {
            let r: Result<NextSample, Error> = Ok(NextSample::Finished);
            proof {
                assert(old(self).next_sample_ens(*self, r));
            }
            return r;
        }
        if self.was_empty {
            self.was_empty = false;
            let r: Result<NextSample, Error> = Ok(NextSample::MetadataChanged);
            proof {
                assert(old(self).next_sample_ens(*self, r));
            }
            return r;
        }
        let mut first = self.sounds.remove(0);
        let next = first.next_sample();
        let ghost g = next;
        let r: Result<NextSample, Error> = match next {
            Ok(NextSample::Finished) => {
                if self.sounds.len() == 0 {
                    Ok(NextSample::Finished)
                } else {
                    // The next sound may have different metadata; let
                    // downstream converters normalize after the hand-over.
                    Ok(NextSample::MetadataChanged)
                }
            },
            other => {
                self.sounds.insert(0, first);
                other
            },
        };
        proof {
            assert(old(self).sounds@[0].next_sample_ens(first, g) && first.inv());
            assert(old(self).next_sample_ens(*self, r));
        }
        r
    }

    fn on_start_of_batch(&mut self) {
        let mut done: Vec<S> = Vec::new();
        proof {
            assert(self.sounds@ =~= old(self).sounds@);
        }
        while self.sounds.len() > 0
            invariant
                done@.len() + self.sounds@.len() == old(self).sounds@.len(),
                self.sounds@ =~= old(self).sounds@.subrange(
                    done@.len() as int,
                    old(self).sounds@.len() as int,
                ),
                forall|i: int|
                    0 <= i < done@.len() ==> #[trigger] old(self).sounds@[i].batch_ens(done@[i]),
                forall|i: int| 0 <= i < done@.len() ==> #[trigger] done@[i].inv(),
                forall|i: int|
                    0 <= i < self.sounds@.len() ==> #[trigger] self.sounds@[i].inv(),
                self.was_empty == old(self).was_empty,
            decreases self.sounds@.len(),
        {
            let mut s = self.sounds.remove(0);
            s.on_start_of_batch();
            done.push(s);
        }
        let ghost finished = done@;
        core::mem::swap(&mut self.sounds, &mut done);
        proof {
            assert(self.sounds@ =~= finished);
            assert forall|i: int| 0 <= i < self.sounds@.len() implies #[trigger] self.sounds@[i].inv() by {
                assert(finished[i].inv());
            }
            assert(old(self).batch_ens(*self));
        }
    }
}

impl<S: Sound> AddSound for SoundList<S> {
    type AddedSound = S;

    /// The sound is appended to the queue.
    open spec fn add_ens(&self, post: Self, sound: S) -> bool {
        &&& post.sounds@ =~= self.sounds@.push(sound)
        &&& post.was_empty == (self.was_empty || self.sounds@.len() == 0)
    }

    fn add(&mut self, sound: S) {
        self.add(sound);
        proof {
            assert(old(self).add_ens(*self, sound));
        }
    }
}

impl<S: Sound> ClearSounds for SoundList<S> {
    /// All queued sounds are removed.
    open spec fn clear_ens(&self, post: Self) -> bool {
        &&& post.sounds@.len() == 0
        &&& post.was_empty == self.was_empty
    }

    fn clear(&mut self) {
        self.clear();
        proof {
            assert(old(self).clear_ens(*self));
        }
    }
}

impl<S: Sound> Default for SoundList<S> {
    /// The default list is empty.
    fn default() -> (r: Self)
        ensures
            r.inv(),
            r.sounds@.len() == 0,
            !r.was_empty,
    {
        SoundList::new()
    }
}

} // verus!
