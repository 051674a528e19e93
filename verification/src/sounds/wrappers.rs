//! Wrappers add functionality to or modify an existing [`Sound`](crate::Sound).
//!
//! A wrapper owns one inner sound and forwards pulls to it, adding one
//! capability each: an adjustable volume or speed, pausing, a play duration,
//! a completion signal, a channel count or sample rate conversion, or remote
//! control through a command queue.

use vstd::prelude::*;

use crate::sound::Sound;

mod adjustable_speed;
mod adjustable_volume;
mod async_completion_notifier;
mod channel_count_converter;
mod completion_notifier;
mod controllable;
mod finish_after;
mod pausable;
mod sample_rate_converter;
mod wrapper;

pub use adjustable_speed::AdjustableSpeed;
pub use adjustable_speed::SetSpeed;
pub use adjustable_volume::AdjustableVolume;
pub use adjustable_volume::SetVolume;
pub use channel_count_converter::lemma_mono_round_trip;
pub use channel_count_converter::lemma_mono_stereo_mono_round_trip;
pub use channel_count_converter::ConverterType;
pub use channel_count_converter::mode_update_out;
pub use channel_count_converter::spec_get_type;
pub use channel_count_converter::stereo_avg;
pub use finish_after::finish_after_update;
pub use finish_after::spec_rebudget;
pub use sample_rate_converter::drained;
pub use sample_rate_converter::collection_cut_short;
pub use sample_rate_converter::flushed_frame;
pub use sample_rate_converter::frame_collected;
pub use sample_rate_converter::frame_cut_short;
pub use sample_rate_converter::frame_was_produced;
pub use sample_rate_converter::frames_pulled;
pub use sample_rate_converter::frames_run;
pub use sample_rate_converter::frames_then_cut;
pub use sample_rate_converter::interp_outcome;
pub use sample_rate_converter::passthrough_out;
pub use sample_rate_converter::reinit_fields;
pub use sample_rate_converter::resample_outcome;
pub use sample_rate_converter::resample_restart;
pub use sample_rate_converter::restart_chain;
pub use sample_rate_converter::spec_gcd;
pub use sample_rate_converter::spec_linear_interpolation;
pub use sample_rate_converter::two_frames_collected;
pub use async_completion_notifier::AsyncCompletionNotifier;
pub use channel_count_converter::ChannelCountConverter;
pub use completion_notifier::CompletionNotifier;
pub use controllable::commands_applied;
pub use controllable::lemma_empty_controllable_mixer;
pub use controllable::Controllable;
pub use controllable::Controlled;
pub use controllable::Controller;
pub use finish_after::num_samples;
pub use finish_after::spec_num_samples;
pub use finish_after::FinishAfter;
pub use pausable::Pausable;
pub use pausable::SetPaused;
pub use sample_rate_converter::linear_interpolation;
pub use sample_rate_converter::SampleRateConverter;
pub use wrapper::Wrapper;

verus! {

/// A sound which contains other sounds that can be added to it.
pub trait AddSound: Sound {
    /// The type of the sounds this container accepts.
    type AddedSound: Sound;

    /// The exact relation between the states before and after an `add` call.
    spec fn add_ens(&self, post: Self, sound: Self::AddedSound) -> bool;

    /// Add a sound to be played. When and how the sound is played is
    /// specific to the container.
    fn add(&mut self, sound: Self::AddedSound)
        requires
            old(self).inv(),
            sound.inv(),
        ensures
            final(self).inv(),
            old(self).add_ens(*final(self), sound),
    ;
}

/// A sound which contains other sounds, all of which can be removed.
pub trait ClearSounds: Sound {
    /// The exact relation between the states before and after a `clear`
    /// call.
    spec fn clear_ens(&self, post: Self) -> bool;

    /// Clear all sounds currently playing or scheduled to play.
    fn clear(&mut self)
        requires
            old(self).inv(),
        ensures
            final(self).inv(),
            old(self).clear_ens(*final(self)),
    ;
}

} // verus!
