use vstd::prelude::*;

use crate::error::Error;
use crate::manager::backend_source::BackendSource;
use crate::sound::NextSample;
use crate::sound::Sound;
use crate::sounds::wrappers::Controllable;
use crate::sounds::SoundMixer;

verus! {

/// The render-side half of a [`Manager`](crate::manager::Manager): a
/// [`BackendSource`] pulling from the shared mixer.
pub struct Renderer<S: Sound> {
    /// The remotely controlled mixer being rendered.
    pub mixer: Controllable<SoundMixer<S>>,
}

impl<S: Sound> Renderer<S> {
    pub(crate) fn new(mixer: Controllable<SoundMixer<S>>) -> (r: Renderer<S>)
        requires
            mixer.inv(),
        ensures
            r.inv(),
            r.mixer == mixer,
    {
        Renderer { mixer }
    }
}

impl<S: Sound> Sound for Renderer<S> {
    open spec fn inv(&self) -> bool {
        self.mixer.inv()
    }

    open spec fn spec_channel_count(&self) -> u16 {
        self.mixer.spec_channel_count()
    }

    open spec fn spec_sample_rate(&self) -> u32 {
        self.mixer.spec_sample_rate()
    }

    /// The mixer's pull. `MetadataChanged` is only returned after the
    /// backend reconfigured the output format; `Finished` only once no
    /// sounds play and every manager handle is gone. Never an error.
    open spec fn next_sample_ens(&self, post: Self, r: Result<NextSample, Error>) -> bool {
        self.mixer.next_sample_ens(post.mixer, r)
    }

    /// Queued manager commands are applied, then the new batch is announced
    /// to every playing sound.
    open spec fn batch_ens(&self, post: Self) -> bool {
        self.mixer.batch_ens(post.mixer)
    }

    fn channel_count(&self) -> u16 {
        let r = self.mixer.channel_count();
        proof {
            assert(r == self.spec_channel_count());
        }
        r
    }

    fn sample_rate(&self) -> u32 {
        let r = self.mixer.sample_rate();
        proof {
            assert(r == self.spec_sample_rate());
        }
        r
    }

    fn next_sample(&mut self) -> Result<NextSample, Error> {
        let r = self.mixer.next_sample();
        proof {
            assert(old(self).next_sample_ens(*self, r));
        }
        r
    }

    fn on_start_of_batch(&mut self) {
        self.mixer.on_start_of_batch();
        proof {
            assert(old(self).batch_ens(*self));
        }
    }
}

impl<S: Sound> BackendSource for Renderer<S> {
    /// The format must be sensible and the next sample must be the first
    /// channel of a frame.
    open spec fn set_output_req(&self, channel_count: u16, sample_rate: u32) -> bool {
        &&& channel_count >= 1
        &&& sample_rate >= 1
        &&& self.mixer.inner.next_output_channel_idx == 0
    }

    /// The mixer is reconfigured: it reports the new format, announces the
    /// change on the next pull, and every held sound is re-wrapped to
    /// convert to the new format.
    open spec fn set_output_ens(&self, post: Self, channel_count: u16, sample_rate: u32) -> bool {
        &&& post.mixer.inner.output_channel_count == channel_count
        &&& post.mixer.inner.output_sample_rate == sample_rate
        &&& post.mixer.inner.metadata_changed
        &&& post.mixer.finished == self.mixer.finished
    }

    fn set_output_channel_count_and_sample_rate(
        &mut self,
        output_channel_count: u16,
        output_sample_rate: u32,
    ) {
        let inner = self.mixer.inner_mut();
        inner.set_output_channel_count_and_sample_rate(output_channel_count, output_sample_rate);
        proof {
            assert(old(self).set_output_ens(*self, output_channel_count, output_sample_rate));
        }
    }
}

} // verus!
