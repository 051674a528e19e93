use vstd::prelude::*;

use crate::sound::Sound;

verus! {

/// The contract a platform audio backend consumes.
///
/// A `BackendSource` is a [`Sound`] whose output format the backend dictates:
/// the backend must call `set_output_channel_count_and_sample_rate` once
/// before pulling any sample and may call it again later, only at a frame
/// boundary. The source then reports exactly that channel count and sample
/// rate and converts every played sound to it. The backend calls
/// `on_start_of_batch` once per output buffer fill, only when the next
/// sample to be pulled is for the first channel.
pub trait BackendSource: Sound {
    /// When a backend may reconfigure the output format.
    spec fn set_output_req(&self, channel_count: u16, sample_rate: u32) -> bool;

    /// The exact relation between the states before and after
    /// reconfiguring the output format.
    spec fn set_output_ens(&self, post: Self, channel_count: u16, sample_rate: u32) -> bool;

    /// Set the output channel count and sample rate this source must
    /// produce from now on.
    fn set_output_channel_count_and_sample_rate(
        &mut self,
        output_channel_count: u16,
        output_sample_rate: u32,
    )
        requires
            old(self).inv(),
            old(self).set_output_req(output_channel_count, output_sample_rate),
        ensures
            final(self).inv(),
            old(self).set_output_ens(*final(self), output_channel_count, output_sample_rate),
    ;
}

} // verus!
