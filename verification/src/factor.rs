//! An exact rational multiplier used for volume and speed adjustments.

use vstd::prelude::*;

verus! {

/// A rational multiplier `numer / denom`.
///
/// Volume and playback-speed adjustments scale samples and sample rates by a
/// factor. The factor is kept as an exact ratio of integers so that what a
/// scaled sample or rate is can be stated and checked exactly.
#[derive(Debug, Clone, Copy, PartialEq, Eq, Structural)]
pub struct Factor {
    numer: i32,
    denom: u64,
}

/// `v` clamped into the representable `i16` range.
pub open spec fn clamp_to_i16(v: int) -> i16 {
    if v > i16::MAX {
        i16::MAX
    } else if v < i16::MIN {
        i16::MIN
    } else {
        v as i16
    }
}

impl Factor {
    /// The numerator of the ratio.
    pub closed spec fn spec_numer(&self) -> i32 {
        self.numer
    }

    /// The denominator of the ratio.
    pub closed spec fn spec_denom(&self) -> u64 {
        self.denom
    }

    /// Well-formedness: the denominator is nonzero.
    pub open spec fn wf(&self) -> bool {
        self.spec_denom() >= 1
    }

    /// The factor `numer / denom`.
    pub fn new(numer: i32, denom: u64) -> (r: Factor)
        requires
            denom >= 1,
        ensures
            r.wf(),
            r.spec_numer() == numer,
            r.spec_denom() == denom,
    {
        Factor { numer, denom }
    }

    /// The identity factor `1 / 1`.
    pub fn one() -> (r: Factor)
        ensures
            r.wf(),
            r.spec_numer() == 1,
            r.spec_denom() == 1,
    {
        Factor { numer: 1, denom: 1 }
    }

    /// The numerator of the ratio.
    pub fn numer(&self) -> (r: i32)
        ensures
            r == self.spec_numer(),
    {
        self.numer
    }

    /// The denominator of the ratio.
    pub fn denom(&self) -> (r: u64)
        ensures
            r == self.spec_denom(),
    {
        self.denom
    }

    /// A sample multiplied by this factor: the product is truncated toward
    /// zero and saturated into the `i16` range.
    pub open spec fn spec_scaled_sample(&self, s: i16) -> i16 {
        let mag = (vstd::math::abs(s as int) * vstd::math::abs(self.spec_numer() as int)) as int
            / self.spec_denom() as int;
        if (s < 0) != (self.spec_numer() < 0) {
            clamp_to_i16(-mag)
        } else {
            clamp_to_i16(mag)
        }
    }

    /// Multiply `s` by this factor, truncating toward zero and saturating to
    /// the `i16` range.
    pub fn apply_to_sample(&self, s: i16) -> (r: i16)
        requires
            self.wf(),
        ensures
            r == self.spec_scaled_sample(s),
    {
        let neg: bool = (s < 0) != (self.numer < 0);
        let mag_s: u64 = if s >= 0 {
            s as u64
        } else {
            (-(s as i64)) as u64
        };
        let mag_n: u64 = if self.numer >= 0 {
            self.numer as u64
        } else {
            (-(self.numer as i64)) as u64
        };
        proof {
            assert(mag_s * mag_n <= 32768 * 0x8000_0000u64) by (nonlinear_arith)
                requires
                    mag_s <= 32768,
                    mag_n <= 0x8000_0000u64,
            ;
            assert(mag_s * mag_n == vstd::math::abs(s as int) * vstd::math::abs(
                self.spec_numer() as int,
            )) by (nonlinear_arith)
                requires
                    mag_s == vstd::math::abs(s as int),
                    mag_n == vstd::math::abs(self.spec_numer() as int),
            ;
        }
        let mag: u64 = mag_s * mag_n;
        let q: u64 = mag / self.denom;
        proof {
            assert(q <= mag) by (nonlinear_arith)
                requires
                    self.spec_denom() >= 1,
                    q == mag / self.spec_denom(),
                    mag >= 0,
            ;
        }
        if neg {
            if q > 32768 {
                i16::MIN
            } else {
                (-(q as i64)) as i16
            }
        } else {
            if q > 32767 {
                i16::MAX
            } else {
                q as i16
            }
        }
    }

    /// A sample rate multiplied by this factor: the product is rounded to the
    /// nearest whole rate and clamped into `1..=u32::MAX`. A factor that is
    /// zero or negative yields the minimum rate of 1.
    pub open spec fn spec_scaled_rate(&self, rate: u32) -> u32 {
        if self.spec_numer() <= 0 {
            1u32
        } else {
            let rounded = (rate * self.spec_numer() + self.spec_denom() / 2)
                / self.spec_denom() as int;
            if rounded == 0 {
                1u32
            } else if rounded > u32::MAX {
                u32::MAX
            } else {
                rounded as u32
            }
        }
    }

    /// Multiply `rate` by this factor, rounding to the nearest whole rate and
    /// clamping into `1..=u32::MAX`.
    pub fn apply_to_rate(&self, rate: u32) -> (r: u32)
        requires
            self.wf(),
        ensures
            r == self.spec_scaled_rate(rate),
    {
        if self.numer <= 0 {
            return 1;
        }
        proof {
            assert(rate * self.spec_numer() <= 0x1_0000_0000u64 * 0x8000_0000u64)
                by (nonlinear_arith)
                requires
                    rate <= u32::MAX,
                    0 <= self.spec_numer() <= 0x8000_0000u64,
            ;
        }
        let prod: u128 = rate as u128 * self.numer as u128;
        let half: u128 = self.denom as u128 / 2;
        let rounded: u128 = (prod + half) / self.denom as u128;
        if rounded == 0 {
            1
        } else if rounded > u32::MAX as u128 {
            u32::MAX
        } else {
            rounded as u32
        }
    }
}

} // verus!
