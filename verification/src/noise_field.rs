//! A seeded two-dimensional coherent-noise field.
//!
//! The field assigns a pseudo-random fixed-point value in `[-FP_ONE, FP_ONE]`
//! to every lattice point and interpolates smoothly between the four corners
//! of the cell a coordinate falls in. Evaluation is a pure function of the
//! seed and the coordinate, so a field is deterministic: re-evaluating at the
//! same point always yields the same value, and two fields with different
//! seeds are uncorrelated.

use vstd::arithmetic::div_mod::lemma_div_is_ordered;
use vstd::arithmetic::div_mod::lemma_div_multiples_vanish;
use vstd::arithmetic::mul::lemma_mul_inequality;
use vstd::arithmetic::mul::lemma_mul_nonnegative;
use vstd::arithmetic::mul::lemma_mul_upper_bound;
use vstd::prelude::*;

use crate::fixed::FP_CAP;
use crate::fixed::FP_ONE;

verus! {

/// Number of distinct fixed-point values a lattice corner can take:
/// `2 * FP_ONE + 1`, covering `[-FP_ONE, FP_ONE]`.
pub const CORNER_RANGE: u64 = 131073;

/// 64-bit product truncated to the low 64 bits.
pub open spec fn spec_mul_lo64(a: u64, b: u64) -> u64 {
    ((a as u128) * (b as u128)) as u64
}

fn mul_lo64(a: u64, b: u64) -> (r: u64)
    ensures
        r == spec_mul_lo64(a, b),
{
    proof {
        lemma_mul_upper_bound(a as int, u64::MAX as int, b as int, u64::MAX as int);
        lemma_mul_nonnegative(a as int, b as int);
    }
    #[verifier::truncate] (((a as u128) * (b as u128)) as u64)
}

/// Finalizing mixer: scrambles all 64 bits of `h`.
pub open spec fn spec_mix64(h: u64) -> u64 {
    let a = spec_mul_lo64(h ^ (h >> 33), 0xff51afd7ed558ccd);
    let b = spec_mul_lo64(a ^ (a >> 33), 0xc4ceb9fe1a85ec53);
    b ^ (b >> 33)
}

fn mix64(h: u64) -> (r: u64)
    ensures
        r == spec_mix64(h),
{
    let a = mul_lo64(h ^ (h >> 33), 0xff51afd7ed558ccd);
    let b = mul_lo64(a ^ (a >> 33), 0xc4ceb9fe1a85ec53);
    b ^ (b >> 33)
}

/// Hash of a lattice corner: combines the seed with both indices, each spread
/// by a large odd constant, then mixes.
pub open spec fn spec_corner_hash(seed: u32, xi: u64, yi: u64) -> u64 {
    spec_mix64((seed as u64) ^ spec_mul_lo64(xi, 0x9e3779b97f4a7c15) ^ spec_mul_lo64(
        yi,
        0xc2b2ae3d27d4eb4f,
    ))
}

/// Pseudo-random corner value in `[-FP_ONE, FP_ONE]`.
pub open spec fn spec_corner(seed: u32, xi: u64, yi: u64) -> int {
    (spec_corner_hash(seed, xi, yi) % CORNER_RANGE) - FP_ONE
}

fn corner(seed: u32, xi: u64, yi: u64) -> (v: i64)
    ensures
        v == spec_corner(seed, xi, yi),
        -FP_ONE <= v <= FP_ONE,
{
    let h = mix64((seed as u64) ^ mul_lo64(xi, 0x9e3779b97f4a7c15) ^ mul_lo64(
        yi,
        0xc2b2ae3d27d4eb4f,
    ));
    (h % CORNER_RANGE) as i64 - FP_ONE
}

/// Smoothstep `3t^2 - 2t^3` on fixed-point fractions: maps `[0, FP_ONE]`
/// onto `[0, FP_ONE]` with zero slope at both ends.
pub open spec fn spec_smooth(t: int) -> int {
    (t * t * (3 * 65536 - 2 * t)) / (65536int * 65536)
}

fn smooth(t: u64) -> (s: u64)
    requires
        t <= 65536,
    ensures
        s == spec_smooth(t as int),
        s <= 65536,
{
    proof {
        let ti = t as int;
        assert(ti * ti * (3 * 65536 - 2 * ti) == 65536 * 65536 * 65536 - (65536 - ti) * (65536
            - ti) * (65536 + 2 * ti)) by (nonlinear_arith);
        assert((65536 - ti) * (65536 - ti) * (65536 + 2 * ti) >= 0) by (nonlinear_arith)
            requires
                0 <= ti <= 65536,
        ;
        assert(ti * ti * (3 * 65536 - 2 * ti) >= 0) by (nonlinear_arith)
            requires
                0 <= ti <= 65536,
        ;
        lemma_div_is_ordered(
            ti * ti * (3 * 65536 - 2 * ti),
            65536int * 65536 * 65536,
            65536int * 65536,
        );
        lemma_div_multiples_vanish(65536int, 65536int * 65536);
        assert(ti * ti <= 65536 * 65536) by (nonlinear_arith)
            requires
                0 <= ti <= 65536,
        ;
        assert(ti * ti * (3 * 65536 - 2 * ti) <= 65536 * 65536 * (3 * 65536)) by (nonlinear_arith)
            requires
                0 <= ti <= 65536,
                ti * ti <= 65536 * 65536,
        ;
    }
    (t * t * (3 * 65536 - 2 * t)) / (65536 * 65536)
}

/// Linear interpolation from `a` to `b` by the fraction `s / FP_ONE`.
/// The result always lies between `a` and `b`.
pub open spec fn spec_lerp(a: int, b: int, s: int) -> int {
    if b >= a {
        a + (b - a) * s / 65536
    } else {
        a - (a - b) * s / 65536
    }
}

fn lerp(a: i64, b: i64, s: u64) -> (r: i64)
    requires
        -FP_ONE <= a <= FP_ONE,
        -FP_ONE <= b <= FP_ONE,
        s <= 65536,
    ensures
        r == spec_lerp(a as int, b as int, s as int),
        -FP_ONE <= r <= FP_ONE,
{
    if b >= a {
        let d = (b - a) as u64;
        proof {
            lemma_mul_inequality(s as int, 65536, d as int);
            lemma_mul_nonnegative(d as int, s as int);
            lemma_div_is_ordered(d as int * s as int, d as int * 65536, 65536);
            lemma_div_multiples_vanish(d as int, 65536);
            vstd::arithmetic::div_mod::lemma_div_pos_is_pos(d as int * s as int, 65536);
        }
        let q = d * s / 65536;
        a + q as i64
    } else {
        let d = (a - b) as u64;
        proof {
            lemma_mul_inequality(s as int, 65536, d as int);
            lemma_mul_nonnegative(d as int, s as int);
            lemma_div_is_ordered(d as int * s as int, d as int * 65536, 65536);
            lemma_div_multiples_vanish(d as int, 65536);
            vstd::arithmetic::div_mod::lemma_div_pos_is_pos(d as int * s as int, 65536);
        }
        let q = d * s / 65536;
        a - q as i64
    }
}

/// Smoothly interpolated value of the noise field with the given seed at the
/// fixed-point coordinate `(x, y)`. Coordinates are shifted by `FP_CAP` so
/// that lattice indices are non-negative for the whole accepted range.
pub open spec fn spec_evaluate(seed: u32, x: int, y: int) -> int {
    let ux = (x + FP_CAP) as u64;
    let uy = (y + FP_CAP) as u64;
    let xi = ux / 65536;
    let fx = ux % 65536;
    let yi = uy / 65536;
    let fy = uy % 65536;
    let sx = spec_smooth(fx as int);
    let sy = spec_smooth(fy as int);
    let v00 = spec_corner(seed, xi, yi);
    let v10 = spec_corner(seed, (xi + 1) as u64, yi);
    let v01 = spec_corner(seed, xi, (yi + 1) as u64);
    let v11 = spec_corner(seed, (xi + 1) as u64, (yi + 1) as u64);
    spec_lerp(spec_lerp(v00, v10, sx), spec_lerp(v01, v11, sx), sy)
}

/// A seeded two-dimensional coherent-noise field. Immutable once built;
/// evaluation is pure, so the field is deterministic for its seed.
#[derive(Clone, Copy)]
pub struct NoiseField {
    seed: u32,
}

impl NoiseField {
    /// The seed this field was built from.
    pub closed spec fn spec_seed(self) -> u32 {
        self.seed
    }

    pub fn new(seed: u32) -> (r: NoiseField)
        ensures
            r.spec_seed() == seed,
    {
        NoiseField { seed }
    }

    pub fn seed(&self) -> (s: u32)
        ensures
            s == self.spec_seed(),
    {
        self.seed
    }

    /// Evaluate the field at the fixed-point coordinate `(x, y)`.
    /// Total on the accepted range and always within `[-FP_ONE, FP_ONE]`.
    pub fn evaluate(&self, x: i64, y: i64) -> (v: i64)
        requires
            -FP_CAP <= x <= FP_CAP,
            -FP_CAP <= y <= FP_CAP,
        ensures
            v == spec_evaluate(self.spec_seed(), x as int, y as int),
            -FP_ONE <= v <= FP_ONE,
    {
        let ux = (x + FP_CAP) as u64;
        let uy = (y + FP_CAP) as u64;
        let xi = ux / 65536;
        let fx = ux % 65536;
        let yi = uy / 65536;
        let fy = uy % 65536;
        let sx = smooth(fx);
        let sy = smooth(fy);
        let v00 = corner(self.seed, xi, yi);
        let v10 = corner(self.seed, xi + 1, yi);
        let v01 = corner(self.seed, xi, yi + 1);
        let v11 = corner(self.seed, xi + 1, yi + 1);
        lerp(lerp(v00, v10, sx), lerp(v01, v11, sx), sy)
    }
}

} // verus!
