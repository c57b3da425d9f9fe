//! Fixed-point arithmetic for the texture generator.
//!
//! Real quantities (noise values, frequencies, amplitudes, coordinates) are
//! held as `i64` values scaled by `FP_ONE`: the stored integer `v` stands for
//! the real number `v / 65536`. All operations are exact integer arithmetic,
//! so every result is reproducible bit for bit.

use vstd::prelude::*;

verus! {

/// The fixed-point representation of the real number one.
pub const FP_ONE: i64 = 65536;

/// Upper cap for frequencies and amplitudes: the real number 65536.
/// Products of capped quantities stay well inside `i64`.
pub const FP_CAP: i64 = 4294967296;

/// Fixed-point product `a * b / FP_ONE`, saturating at `FP_CAP`.
pub open spec fn spec_fp_mul_cap(a: int, b: int) -> int {
    let p = (a * b) / (FP_ONE as int);
    if p > FP_CAP as int {
        FP_CAP as int
    } else {
        p
    }
}

/// Fixed-point multiplication of two non-negative capped quantities,
/// saturating at `FP_CAP`.
pub fn fp_mul_cap(a: i64, b: i64) -> (r: i64)
    requires
        0 <= a <= FP_CAP,
        0 <= b <= FP_CAP,
    ensures
        r == spec_fp_mul_cap(a as int, b as int),
        0 <= r <= FP_CAP,
{
    proof {
        vstd::arithmetic::mul::lemma_mul_upper_bound(a as int, FP_CAP as int, b as int, FP_CAP as int);
        vstd::arithmetic::mul::lemma_mul_nonnegative(a as int, b as int);
        vstd::arithmetic::div_mod::lemma_div_pos_is_pos(a as int * b as int, FP_ONE as int);
    }
    let p: u128 = (a as u128) * (b as u128) / (FP_ONE as u128);
    if p > FP_CAP as u128 {
        FP_CAP
    } else {
        p as i64
    }
}

} // verus!
