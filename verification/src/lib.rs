//! A low-level library for mixing and playing back interleaved PCM audio.
//!
//! Audio is produced by pull-based [`Sound`] sources. Sounds can be wrapped
//! to add capabilities (volume, speed, pausing, a play duration), converted
//! between channel counts and sample rates, played one after another with a
//! `SoundList` or simultaneously with a `SoundMixer`, and controlled from
//! other threads through a `Controller`.

pub mod manager;
pub mod sounds;
pub mod utils;

mod channels;
mod error;
mod factor;
mod sound;

pub use error::Error;
pub use factor::Factor;
pub use sound::lemma_pulls_refl;
pub use sound::lemma_pulls_step;
pub use sound::lemma_pulls_trans;
pub use sound::pulls_to;
pub use sound::reachable_by_pulls;
pub use sound::sample_run;
pub use sound::skip_chain;
pub use sound::skip_step;
pub use sound::spec_skip_budget;
pub use sound::NextSample;
pub use sound::Sound;
pub use sound::SoundExt;
