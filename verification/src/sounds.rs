//! Sounds, and items that return them.

pub mod wrappers;

mod constant_value;
mod memory_sound;
mod sawtooth;
mod silence;
mod sound_list;
mod sound_mixer;
mod sounds_from_fn;

pub use constant_value::ConstantValueSound;
pub use memory_sound::collect_chain;
pub use memory_sound::collect_changed_metadata;
pub use memory_sound::collect_failed;
pub use memory_sound::collect_step;
pub use memory_sound::collect_terminated;
pub use memory_sound::zero_pad_to_frame;
pub use memory_sound::MemorySound;
pub use memory_sound::UnsupportedMetadataChangeError;
pub use sawtooth::Sawtooth;
pub use silence::Silence;
pub use sound_list::SoundList;
pub use sound_mixer::child_pull_chain;
pub use sound_mixer::child_pulled;
pub use sound_mixer::freshly_wrapped;
pub use sound_mixer::gave_children;
pub use sound_mixer::is_passthrough_constant;
pub use sound_mixer::lemma_empty_mixer_finished;
pub use sound_mixer::lemma_mix_two_constants;
pub use sound_mixer::lemma_sat_add_commutes;
pub use sound_mixer::meta_chain;
pub use sound_mixer::mix_fold;
pub use sound_mixer::outcome_ok;
pub use sound_mixer::parked_children;
pub use sound_mixer::spec_sat_add;
pub use sound_mixer::MixOutcome;
pub use sound_mixer::MixedSound;
pub use sound_mixer::MixerCommand;
pub use sound_mixer::SoundMixer;
pub use sounds_from_fn::handover_chain;
pub use sounds_from_fn::handover_end;
pub use sounds_from_fn::handover_step;
pub use sounds_from_fn::sound_failed;
pub use sounds_from_fn::sound_finished;
pub use sounds_from_fn::RepeatGenerator;
pub use sounds_from_fn::SequenceGenerator;
pub use sounds_from_fn::SoundGenerator;
pub use sounds_from_fn::SoundsFromFn;
