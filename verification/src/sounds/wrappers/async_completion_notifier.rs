use vstd::prelude::*;

use crate::sounds::wrappers::pausable::SetPaused;
use crate::sounds::wrappers::adjustable_speed::SetSpeed;
use crate::sounds::wrappers::adjustable_volume::SetVolume;
use crate::sounds::wrappers::AddSound;
use crate::sounds::wrappers::ClearSounds;
use crate::factor::Factor;

use crate::channels::oneshot_channel;
use crate::channels::oneshot_send;
use crate::error::Error;
use crate::sound::NextSample;
use crate::sound::Sound;
use crate::sounds::wrappers::wrapper::Wrapper;
use tokio::sync::oneshot;

verus! {

/// Notify a [`tokio::sync::oneshot::Receiver`] when the wrapped sound has
/// finished.
///
/// A single message is sent, exactly once, the first time the inner sound
/// reports `Finished`; pausing or failing does not count as completion. If
/// the wrapper is dropped before finishing, the channel closes and the
/// receiver observes the cancellation as an error.
pub struct AsyncCompletionNotifier<S: Sound> {
    /// The wrapped sound.
    pub inner: S,
    /// The notification channel, consumed by the one notification.
    pub sender: Option<oneshot::Sender<()>>,
}

impl<S: Sound> AsyncCompletionNotifier<S> {
    /// Wrap `inner` so the returned receiver is notified when `inner` has
    /// finished.
    pub fn new(inner: S) -> (r: (AsyncCompletionNotifier<S>, oneshot::Receiver<()>))
        requires
            inner.inv(),
        ensures
            r.0.inv(),
            r.0.inner == inner,
            r.0.sender is Some,
    {
        let (sender, receiver) = oneshot_channel();
        let notifier = AsyncCompletionNotifier { inner, sender: Some(sender) };
        (notifier, receiver)
    }
}

impl<S: Sound> Sound for AsyncCompletionNotifier<S> {
    open spec fn inv(&self) -> bool {
        self.inner.inv()
    }

    open spec fn spec_channel_count(&self) -> u16 {
        self.inner.spec_channel_count()
    }

    open spec fn spec_sample_rate(&self) -> u32 {
        self.inner.spec_sample_rate()
    }

    /// The inner sound's pull, unchanged; the first `Finished` consumes the
    /// notification channel, so the signal fires at most once.
    open spec fn next_sample_ens(&self, post: Self, r: Result<NextSample, Error>) -> bool {
        &&& self.inner.next_sample_ens(post.inner, r)
        &&& if r == Result::<NextSample, Error>::Ok(NextSample::Finished) {
            post.sender is None
        } else {
            post.sender == self.sender
        }
    }

    open spec fn batch_ens(&self, post: Self) -> bool {
        &&& post.sender == self.sender
        &&& self.inner.batch_ens(post.inner)
    }

    fn channel_count(&self) -> u16 {
        let r = self.inner.channel_count();
        proof {
            assert(r == self.spec_channel_count());
        }
        r
    }

    fn sample_rate(&self) -> u32 {
        let r = self.inner.sample_rate();
        proof {
            assert(r == self.spec_sample_rate());
        }
        r
    }

    fn next_sample(&mut self) -> Result<NextSample, Error> {
        let next = self.inner.next_sample();
        if let Ok(NextSample::Finished) = &next {
            match self.sender.take() {
                Some(sender) => {
                    // A receiver that was dropped because nobody waits for
                    // the signal is not an error.
                    let _ = oneshot_send(sender);
                },
                None => {},
            }
        }
        proof {
            assert(old(self).next_sample_ens(*self, next));
        }
        next
    }

    fn on_start_of_batch(&mut self) {
        self.inner.on_start_of_batch();
        proof {
            assert(old(self).batch_ens(*self));
        }
    }
}

impl<S: Sound> Wrapper for AsyncCompletionNotifier<S> {
    type Inner = S;

    open spec fn spec_inner(&self) -> S {
        self.inner
    }

    open spec fn with_inner(&self, inner: S) -> Self {
        AsyncCompletionNotifier { inner, ..*self }
    }

    fn inner(&self) -> &S {
        &self.inner
    }

    fn inner_mut(&mut self) -> &mut S {
        &mut self.inner
    }

    fn into_inner(self) -> S {
        self.inner
    }
}

impl<S: Sound + SetPaused> SetPaused for AsyncCompletionNotifier<S> {
    /// Pausing is forwarded to the inner sound.
    open spec fn set_paused_ens(&self, post: Self, paused: bool) -> bool {
        &&& self.inner.set_paused_ens(post.inner, paused)
        &&& post == (AsyncCompletionNotifier { inner: post.inner, ..*self })
    }

    fn set_paused(&mut self, paused: bool) {
        self.inner.set_paused(paused);
        proof {
            assert(old(self).set_paused_ens(*self, paused));
        }
    }
}

impl<S: Sound + SetSpeed> SetSpeed for AsyncCompletionNotifier<S> {
    /// Speed changes are forwarded to the inner sound.
    open spec fn set_speed_ens(&self, post: Self, multiplier: Factor) -> bool {
        &&& self.inner.set_speed_ens(post.inner, multiplier)
        &&& post == (AsyncCompletionNotifier { inner: post.inner, ..*self })
    }

    fn set_speed(&mut self, multiplier: Factor) {
        self.inner.set_speed(multiplier);
        proof {
            assert(old(self).set_speed_ens(*self, multiplier));
        }
    }
}

impl<S: Sound + SetVolume> SetVolume for AsyncCompletionNotifier<S> {
    /// Volume changes are forwarded to the inner sound.
    open spec fn set_volume_ens(&self, post: Self, multiplier: Factor) -> bool {
        &&& self.inner.set_volume_ens(post.inner, multiplier)
        &&& post == (AsyncCompletionNotifier { inner: post.inner, ..*self })
    }

    fn set_volume(&mut self, multiplier: Factor) {
        self.inner.set_volume(multiplier);
        proof {
            assert(old(self).set_volume_ens(*self, multiplier));
        }
    }
}

impl<S: Sound + AddSound> AddSound for AsyncCompletionNotifier<S> {
    type AddedSound = <S as AddSound>::AddedSound;

    /// Added sounds are forwarded to the inner sound.
    open spec fn add_ens(&self, post: Self, sound: <S as AddSound>::AddedSound) -> bool {
        &&& self.inner.add_ens(post.inner, sound)
        &&& post == (AsyncCompletionNotifier { inner: post.inner, ..*self })
    }

    fn add(&mut self, sound: <S as AddSound>::AddedSound) {
        let ghost g = sound;
        self.inner.add(sound);
        proof {
            assert(old(self).add_ens(*self, g));
        }
    }
}

impl<S: Sound + ClearSounds> ClearSounds for AsyncCompletionNotifier<S> {
    /// Clearing is forwarded to the inner sound.
    open spec fn clear_ens(&self, post: Self) -> bool {
        &&& self.inner.clear_ens(post.inner)
        &&& post == (AsyncCompletionNotifier { inner: post.inner, ..*self })
    }

    fn clear(&mut self) {
        self.inner.clear();
        proof {
            assert(old(self).clear_ens(*self));
        }
    }
}

} // verus!
