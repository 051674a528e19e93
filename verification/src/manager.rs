//! The [`Manager`] plays sounds by rendering them on a [`Renderer`] for a
//! backend.

use vstd::prelude::*;

mod backend_source;
mod renderer;

pub use backend_source::BackendSource;
pub use renderer::Renderer;

use crate::sound::Sound;
use crate::sounds::wrappers::Controllable;
use crate::sounds::wrappers::Controller;
use crate::sounds::SoundMixer;

verus! {

/// The channel count a renderer reports before a backend configures it.
pub const INITIAL_CHANNEL_COUNT: u16 = 1;

/// The sample rate a renderer reports before a backend configures it. The
/// value is purposely low to discourage relying on it.
pub const INITIAL_SAMPLE_RATE: u32 = 1000;

/// A control-side handle that plays sounds by sending them to the mixer a
/// [`Renderer`] renders.
pub struct Manager<S: Sound> {
    /// The control handle of the renderer's mixer.
    pub mixer_controller: Controller<SoundMixer<S>>,
}

impl<S: Sound> Manager<S> {
    /// Create a new manager and the renderer its sounds render to.
    ///
    /// Normally a backend calls this and hands out the manager.
    pub fn new() -> (r: (Manager<S>, Renderer<S>))
        ensures
            r.1.inv(),
    {
        let (mixer, mixer_controller) = Controllable::new(
            SoundMixer::new(INITIAL_CHANNEL_COUNT, INITIAL_SAMPLE_RATE),
        );
        let renderer = Renderer::new(mixer);
        let manager = Manager { mixer_controller };
        (manager, renderer)
    }

    /// Add a new sound to be played in parallel to any existing sounds,
    /// within the renderer's next batch.
    pub fn play(&mut self, sound: S)
        requires
            sound.inv(),
    {
        self.mixer_controller.add(sound);
    }

    /// Stop playing and remove all sounds. New sounds can still be added.
    pub fn clear(&mut self) {
        self.mixer_controller.clear();
    }
}

impl<S: Sound> Clone for Manager<S> {
    /// The clone controls the same renderer.
    fn clone(&self) -> Self {
        Manager { mixer_controller: self.mixer_controller.clone() }
    }
}

} // verus!
