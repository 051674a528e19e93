//! Conversions between sample counts, durations, channel counts and sample
//! rates.

use vstd::prelude::*;

verus! {

/// The number of microseconds in one second.
pub const MICROS_PER_SEC: u64 = 1_000_000;

/// Integer division truncated toward zero (the rounding of Rust's `/`),
/// for a positive divisor.
pub open spec fn trunc_div(a: int, b: int) -> int {
    if a >= 0 {
        a / b
    } else {
        -((-a) / b)
    }
}

/// Convert a number of samples at an old sample rate and channel count to the
/// number of samples at a new sample rate and channel count such that the new
/// number of samples covers the same amount of time as the old number of
/// samples.
///
/// Any fractional sample is truncated.
pub fn convert_num_samples(
    old_num_samples: u64,
    old_channel_count: u16,
    old_sample_rate: u32,
    new_channel_count: u16,
    new_sample_rate: u32,
) -> (r: u64)
    requires
        old_channel_count >= 1,
        old_sample_rate >= 1,
        old_num_samples * new_channel_count * new_sample_rate <= u64::MAX,
    ensures
        r == old_num_samples * new_channel_count * new_sample_rate / (old_channel_count
            * old_sample_rate),
{
    proof {
        assert(old_num_samples * new_channel_count < u128::MAX && old_num_samples
            * new_channel_count * new_sample_rate < u128::MAX && old_channel_count
            * old_sample_rate < u128::MAX) by (nonlinear_arith)
            requires
                old_num_samples <= u64::MAX,
                new_channel_count <= u16::MAX,
                new_sample_rate <= u32::MAX,
                old_channel_count <= u16::MAX,
                old_sample_rate <= u32::MAX,
        ;
        assert(old_channel_count * old_sample_rate >= 1) by (nonlinear_arith)
            requires
                old_channel_count >= 1,
                old_sample_rate >= 1,
        ;
    }
    let numerator: u128 = old_num_samples as u128 * new_channel_count as u128
        * new_sample_rate as u128;
    let denominator: u128 = old_channel_count as u128 * old_sample_rate as u128;
    let q: u128 = numerator / denominator;
    proof {
        assert(q <= numerator) by (nonlinear_arith)
            requires
                denominator >= 1,
                q == numerator / denominator,
                numerator >= 0,
        ;
    }
    q as u64
}

/// Return the number of samples that happen within a span of `duration_micros`
/// microseconds (truncating any fractional sample).
pub fn duration_to_num_samples(duration_micros: u64, channel_count: u16, sample_rate: u32) -> (r:
    u64)
    requires
        duration_micros * channel_count * sample_rate <= u64::MAX,
    ensures
        r == duration_micros * channel_count * sample_rate / (MICROS_PER_SEC as int),
{
    convert_num_samples(duration_micros, 1, 1_000_000, channel_count, sample_rate)
}

} // verus!
