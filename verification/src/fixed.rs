//! Exact fractional values used where the toolkit speaks in normalized
//! screen fractions: clip rectangles, scroll deltas and projection entries.
//!
//! `Fx` is a binary fixed-point fraction with `FX_ONE` standing for 1.0;
//! `Frac` is an exact numerator/denominator pair.

use vstd::prelude::*;
use vstd::arithmetic::div_mod::lemma_div_is_ordered;
use vstd::arithmetic::div_mod::lemma_div_multiples_vanish;
use vstd::arithmetic::mul::lemma_mul_inequality;
use vstd::arithmetic::mul::lemma_mul_upper_bound;

verus! {

/// The fixed-point representation of 1.0.
pub const FX_ONE: i32 = 65536;

/// A fixed-point fraction: the value is `raw / FX_ONE`.
#[derive(Clone, Copy, Debug, PartialEq, Eq, Structural)]
pub struct Fx {
    pub raw: i32,
}

/// An exact fraction: the value is `num / den`.
#[derive(Clone, Copy, Debug, PartialEq, Eq, Structural)]
pub struct Frac {
    pub num: i32,
    pub den: u32,
}

/// A fraction's denominator must be positive for it to denote a value.
pub open spec fn frac_wf(f: Frac) -> bool {
    f.den >= 1
}

/// A negative fraction clamped to zero, otherwise kept.
pub open spec fn clamped_nonneg(raw: int) -> int {
    if raw < 0 {
        0
    } else {
        raw
    }
}

/// The pixel count that a normalized fraction of `dim` pixels covers:
/// the fraction is clamped to be nonnegative, then multiplied out.
pub open spec fn scaled_to_dim(raw: int, dim: int) -> int {
    clamped_nonneg(raw) * dim / (FX_ONE as int)
}

/// Converts a normalized screen fraction to pixels: negative fractions are
/// clamped to zero, then the fraction of `dim` is taken exactly.
///
/// The fraction must not exceed 1.0, so the result never exceeds `dim`.
pub fn fx_scale_to_dim(f: Fx, dim: u32) -> (r: u32)
    requires
        f.raw <= FX_ONE,
    ensures
        r == scaled_to_dim(f.raw as int, dim as int),
        r <= dim,
{
    if f.raw <= 0 {
        assert(clamped_nonneg(f.raw as int) * (dim as int) == 0);
        0u32
    } else {
        proof {
            lemma_mul_upper_bound(f.raw as int, FX_ONE as int, dim as int, u32::MAX as int);
        }
        let prod: u64 = (f.raw as u64) * (dim as u64);
        let q: u64 = prod / 65536u64;
        proof {
            lemma_mul_inequality(f.raw as int, FX_ONE as int, dim as int);
            lemma_div_is_ordered((f.raw as int) * (dim as int), (FX_ONE as int) * (dim as int), FX_ONE as int);
            lemma_div_multiples_vanish(dim as int, FX_ONE as int);
            assert((FX_ONE as int) * (dim as int) / (FX_ONE as int) == dim as int);
        }
        q as u32
    }
}

} // verus!
