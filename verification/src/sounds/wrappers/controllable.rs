use vstd::prelude::*;

use crate::channels::clone_sender;
use crate::channels::message_channel;
use crate::channels::send_message;
use crate::channels::try_recv_message;
use crate::channels::QueueMessage;
use crate::channels::RecvAttempt;
use crate::error::Error;
use crate::factor::Factor;
use crate::sound::NextSample;
use crate::sound::Sound;
use crate::sounds::wrappers::AddSound;
use crate::sounds::wrappers::AdjustableSpeed;
use crate::sounds::wrappers::AdjustableVolume;
use crate::sounds::wrappers::ClearSounds;
use crate::sounds::wrappers::Pausable;
use crate::sounds::wrappers::SetPaused;
use crate::sounds::wrappers::SetSpeed;
use crate::sounds::wrappers::SetVolume;
use crate::sounds::lemma_empty_mixer_finished;
use crate::sounds::MixerCommand;
use crate::sounds::SoundMixer;
use std::sync::mpsc;

verus! {

/// A sound that can be driven by commands arriving from a [`Controller`].
pub trait Controlled: Sound {
    /// The commands this sound accepts.
    type Command: QueueMessage;

    /// The exact relation between the states before and after applying one
    /// command.
    spec fn command_ens(&self, post: Self, command: Self::Command) -> bool;

    /// Apply one command.
    fn apply_command(&mut self, command: Self::Command)
        requires
            old(self).inv(),
            command.wf(),
        ensures
            final(self).inv(),
            old(self).command_ens(*final(self), command),
    ;
}

/// `post` results from `pre` by applying the commands `cmds` in order.
pub open spec fn commands_applied<S: Controlled>(pre: S, post: S, cmds: Seq<S::Command>) -> bool
    decreases cmds.len(),
{
    if cmds.len() == 0 {
        post == pre
    } else {
        exists|m: S|
            #![trigger m.command_ens(post, cmds.last())]
            commands_applied(pre, m, cmds.drop_last()) && m.inv() && m.command_ens(
                post,
                cmds.last(),
            )
    }
}

/// The receiving end of a command queue. The raw channel stays private so
/// that every command reaches the queue through [`Controller`], which
/// demands the command's well-formedness.
pub struct CommandReceiver<S: Controlled> {
    receiver: mpsc::Receiver<S::Command>,
}

/// Wrap a sound so it can be controlled through a [`Controller`] even after
/// it started playing.
///
/// Since new sounds may be added later, the inner sound's `Finished` is
/// reported as `Paused` for as long as a controller exists; only once every
/// controller is dropped does `Finished` propagate for real.
pub struct Controllable<S: Controlled> {
    /// The wrapped sound.
    pub inner: S,
    /// The receiving end of the command queue.
    pub command_receiver: CommandReceiver<S>,
    /// Whether every controller is gone, so `Finished` passes through.
    pub finished: bool,
}

/// The remote control for a sound wrapped in a [`Controllable`].
///
/// Controllers can be cloned; every clone feeds the same command queue.
/// Commands are applied exactly once, in order, at the start of the next
/// batch. Once the `Controllable` side is gone, commands are silently
/// dropped.
pub struct Controller<S: Controlled> {
    command_sender: mpsc::Sender<S::Command>,
}

impl<S: Controlled> Controllable<S> {
    /// Wrap `inner` so it can be controlled.
    pub fn new(inner: S) -> (r: (Controllable<S>, Controller<S>))
        requires
            inner.inv(),
        ensures
            r.0.inv(),
            r.0.inner == inner,
            !r.0.finished,
    {
        let (command_sender, receiver) = message_channel::<S::Command>();
        let controllable = Controllable {
            inner,
            command_receiver: CommandReceiver { receiver },
            finished: false,
        };
        let controller = Controller { command_sender };
        (controllable, controller)
    }

    /// Get a reference to the wrapped inner sound.
    pub fn inner(&self) -> (r: &S)
        ensures
            *r == self.inner,
    {
        &self.inner
    }

    /// Get a mutable reference to the wrapped inner sound.
    pub fn inner_mut(&mut self) -> (r: &mut S)
        ensures
            *r == old(self).inner,
            final(self).inner == *final(r),
            final(self).finished == old(self).finished,
    {
        &mut self.inner
    }

    /// Unwrap and return the previously wrapped sound.
    pub fn into_inner(self) -> (r: S)
        ensures
            r == self.inner,
    {
        self.inner
    }
}

impl<S: Controlled> Sound for Controllable<S> {
    open spec fn inv(&self) -> bool {
        self.inner.inv()
    }

    open spec fn spec_channel_count(&self) -> u16 {
        self.inner.spec_channel_count()
    }

    open spec fn spec_sample_rate(&self) -> u32 {
        self.inner.spec_sample_rate()
    }

    /// The inner sound's pull, with `Finished` softened to `Paused` while
    /// controllers may still add sounds.
    open spec fn next_sample_ens(&self, post: Self, r: Result<NextSample, Error>) -> bool {
        &&& post.finished == self.finished
        &&& exists|ir: Result<NextSample, Error>|
            #![trigger self.inner.next_sample_ens(post.inner, ir)]
            self.inner.next_sample_ens(post.inner, ir) && (if ir == Result::<
                NextSample,
                Error,
            >::Ok(NextSample::Finished) && !self.finished {
                r == Result::<NextSample, Error>::Ok(NextSample::Paused)
            } else {
                r == ir
            })
    }

    /// Queued commands are drained and applied, each exactly once, in
    /// order — never in the middle of a frame. If every controller is gone
    /// the wrapper starts passing `Finished` through. Afterwards the inner
    /// sound is told the batch starts.
    open spec fn batch_ens(&self, post: Self) -> bool {
        exists|cmds: Seq<S::Command>, mid: S|
            #![trigger commands_applied(self.inner, mid, cmds)]
            {
                &&& commands_applied(self.inner, mid, cmds)
                &&& mid.inv()
                &&& mid.batch_ens(post.inner)
                &&& (self.finished ==> post.finished)
            }
    }

    fn channel_count(&self) -> u16 {
        let r = self.inner.channel_count();
        proof {
            assert(r == self.spec_channel_count());
        }
        r
    }

    fn sample_rate(&self) -> u32 {
        let r = self.inner.sample_rate();
        proof {
            assert(r == self.spec_sample_rate());
        }
        r
    }

    fn next_sample(&mut self) -> Result<NextSample, Error> {
        let next = self.inner.next_sample();
        let ghost g = next;
        let r: Result<NextSample, Error> = match next {
            Ok(NextSample::Finished) => {
                if self.finished {
                    Ok(NextSample::Finished)
                } else {
                    // A controller might still add another sound later.
                    Ok(NextSample::Paused)
                }
            },
            other => other,
        };
        proof {
            assert(old(self).inner.next_sample_ens(self.inner, g));
            assert(old(self).next_sample_ens(*self, r));
        }
        r
    }

    #[verifier::loop_isolation(false)]
    fn on_start_of_batch(&mut self) {
        let ghost pre_inner = self.inner;
        let ghost mut cmds: Seq<S::Command> = Seq::empty();
        let mut fuel: u64 = u64::MAX;
        loop
            invariant
                self.inner.inv(),
                commands_applied(pre_inner, self.inner, cmds),
                self.command_receiver == old(self).command_receiver,
                old(self).finished ==> self.finished,
            decreases fuel,
        {
            if fuel == 0 {
                // An unfillable number of commands arrived in one batch;
                // leave the rest for the next batch.
                break ;
            }
            fuel = fuel - 1;
            match try_recv_message(&self.command_receiver.receiver) {
                RecvAttempt::Got(command) => {
                    let ghost mid = self.inner;
                    let ghost cmd_g = command;
                    self.inner.apply_command(command);
                    proof {
                        let cmds0 = cmds;
                        assert(mid.command_ens(self.inner, cmd_g));
                        cmds = cmds.push(cmd_g);
                        assert(cmds.drop_last() =~= cmds0);
                        assert(cmds.last() == cmd_g);
                        assert(commands_applied(pre_inner, mid, cmds0) && mid.inv()
                            && mid.command_ens(self.inner, cmds.last()));
                        assert(commands_applied(pre_inner, self.inner, cmds));
                    }
                },
                RecvAttempt::Empty => {
                    break ;
                },
                RecvAttempt::Disconnected => {
                    self.finished = true;
                    break ;
                },
            }
        }
        let ghost mid_inner = self.inner;
        self.inner.on_start_of_batch();
        proof {
            assert(commands_applied(pre_inner, mid_inner, cmds) && mid_inner.inv()
                && mid_inner.batch_ens(self.inner));
            assert(old(self).batch_ens(*self));
        }
    }
}

impl<S: Controlled> Clone for Controller<S> {
    /// The clone feeds the same command queue.
    fn clone(&self) -> Self {
        Controller { command_sender: clone_sender(&self.command_sender) }
    }
}

impl<S: Controlled> Controller<S> {
    /// Send one command to the controlled sound. It is applied at the start
    /// of the next batch; if the controlled sound is gone the command is
    /// silently dropped.
    pub fn send(&mut self, command: S::Command)
        requires
            command.wf(),
    {
        let _ = send_message(&self.command_sender, command);
    }
}

impl<S: Sound> Controller<SoundMixer<S>> {
    /// Add `sound` to the mixer, audible within the next batch.
    pub fn add(&mut self, sound: S)
        requires
            sound.inv(),
    {
        self.send(MixerCommand::Add(sound));
    }

    /// Stop and remove all of the mixer's sounds.
    pub fn clear(&mut self) {
        self.send(MixerCommand::Clear);
    }
}

/// An empty mixer inside a `Controllable` reports `Paused` while a
/// controller could still add sounds, and `Finished` once every controller
/// is gone; either way it stays empty.
pub proof fn lemma_empty_controllable_mixer<S: Sound>(
    c: Controllable<SoundMixer<S>>,
    post: Controllable<SoundMixer<S>>,
    r: Result<NextSample, Error>,
)
    requires
        c.inv(),
        c.inner.sounds@.len() == 0,
        c.inner.paused_sounds@.len() == 0,
        !c.inner.metadata_changed,
        c.next_sample_ens(post, r),
    ensures
        !c.finished ==> r == Result::<NextSample, Error>::Ok(NextSample::Paused),
        c.finished ==> r == Result::<NextSample, Error>::Ok(NextSample::Finished),
        post.finished == c.finished,
        post.inner.sounds@.len() == 0,
        post.inner.paused_sounds@.len() == 0,
        !post.inner.metadata_changed,
{
    let ir = choose|ir: Result<NextSample, Error>|
        c.inner.next_sample_ens(post.inner, ir) && (if ir == Result::<NextSample, Error>::Ok(
            NextSample::Finished,
        ) && !c.finished {
            r == Result::<NextSample, Error>::Ok(NextSample::Paused)
        } else {
            r == ir
        });
    lemma_empty_mixer_finished(c.inner, post.inner, ir);
}

impl QueueMessage for bool {
    /// Any flag may travel.
    open spec fn wf(&self) -> bool {
        true
    }
}

impl QueueMessage for Factor {
    /// A factor in a command is well formed.
    open spec fn wf(&self) -> bool {
        Factor::wf(self)
    }
}

impl<S: Sound> Controlled for Pausable<S> {
    type Command = bool;

    /// A command pauses or unpauses the sound.
    open spec fn command_ens(&self, post: Self, command: bool) -> bool {
        self.set_paused_ens(post, command)
    }

    fn apply_command(&mut self, command: bool) {
        self.set_paused(command);
        proof {
            assert(old(self).command_ens(*self, command));
        }
    }
}

impl<S: Sound> Controlled for AdjustableVolume<S> {
    type Command = Factor;

    /// A command sets the volume factor.
    open spec fn command_ens(&self, post: Self, command: Factor) -> bool {
        self.set_volume_ens(post, command)
    }

    fn apply_command(&mut self, command: Factor) {
        self.set_volume(command);
        proof {
            assert(old(self).command_ens(*self, command));
        }
    }
}

impl<S: Sound> Controlled for AdjustableSpeed<S> {
    type Command = Factor;

    /// A command sets the speed factor.
    open spec fn command_ens(&self, post: Self, command: Factor) -> bool {
        self.set_speed_ens(post, command)
    }

    fn apply_command(&mut self, command: Factor) {
        self.set_speed(command);
        proof {
            assert(old(self).command_ens(*self, command));
        }
    }
}

impl<S: Sound> Controller<Pausable<S>> {
    /// Pause or unpause the controlled sound at the start of its next batch.
    pub fn set_paused(&mut self, paused: bool) {
        self.send(paused);
    }
}

impl<S: Sound> Controller<AdjustableVolume<S>> {
    /// Set the volume of the controlled sound at the start of its next
    /// batch.
    pub fn set_volume(&mut self, volume: Factor)
        requires
            volume.wf(),
    {
        self.send(volume);
    }
}

impl<S: Sound> Controller<AdjustableSpeed<S>> {
    /// Set the playback speed of the controlled sound at the start of its
    /// next batch.
    pub fn set_speed(&mut self, speed: Factor)
        requires
            speed.wf(),
    {
        self.send(speed);
    }
}

impl<S: Controlled + SetPaused> SetPaused for Controllable<S> {
    /// Pausing is forwarded to the inner sound.
    open spec fn set_paused_ens(&self, post: Self, paused: bool) -> bool {
        &&& self.inner.set_paused_ens(post.inner, paused)
        &&& post == (Controllable { inner: post.inner, ..*self })
    }

    fn set_paused(&mut self, paused: bool) {
        self.inner.set_paused(paused);
        proof {
            assert(old(self).set_paused_ens(*self, paused));
        }
    }
}

impl<S: Controlled + SetSpeed> SetSpeed for Controllable<S> {
    /// Speed changes are forwarded to the inner sound.
    open spec fn set_speed_ens(&self, post: Self, multiplier: Factor) -> bool {
        &&& self.inner.set_speed_ens(post.inner, multiplier)
        &&& post == (Controllable { inner: post.inner, ..*self })
    }

    fn set_speed(&mut self, multiplier: Factor) {
        self.inner.set_speed(multiplier);
        proof {
            assert(old(self).set_speed_ens(*self, multiplier));
        }
    }
}

impl<S: Controlled + SetVolume> SetVolume for Controllable<S> {
    /// Volume changes are forwarded to the inner sound.
    open spec fn set_volume_ens(&self, post: Self, multiplier: Factor) -> bool {
        &&& self.inner.set_volume_ens(post.inner, multiplier)
        &&& post == (Controllable { inner: post.inner, ..*self })
    }

    fn set_volume(&mut self, multiplier: Factor) {
        self.inner.set_volume(multiplier);
        proof {
            assert(old(self).set_volume_ens(*self, multiplier));
        }
    }
}

impl<S: Controlled + AddSound> AddSound for Controllable<S> {
    type AddedSound = <S as AddSound>::AddedSound;

    /// Added sounds are forwarded to the inner sound.
    open spec fn add_ens(&self, post: Self, sound: <S as AddSound>::AddedSound) -> bool {
        &&& self.inner.add_ens(post.inner, sound)
        &&& post == (Controllable { inner: post.inner, ..*self })
    }

    fn add(&mut self, sound: <S as AddSound>::AddedSound) {
        let ghost g = sound;
        self.inner.add(sound);
        proof {
            assert(old(self).add_ens(*self, g));
        }
    }
}

impl<S: Controlled + ClearSounds> ClearSounds for Controllable<S> {
    /// Clearing is forwarded to the inner sound.
    open spec fn clear_ens(&self, post: Self) -> bool {
        &&& self.inner.clear_ens(post.inner)
        &&& post == (Controllable { inner: post.inner, ..*self })
    }

    fn clear(&mut self) {
        self.inner.clear();
        proof {
            assert(old(self).clear_ens(*self));
        }
    }
}

} // verus!
