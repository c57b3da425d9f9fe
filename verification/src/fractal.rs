//! Fractal (multi-octave) summation over a noise field.
//!
//! Each octave samples the field at a frequency-scaled coordinate, weighs the
//! sample by the current amplitude, then multiplies the frequency by the
//! lacunarity and the amplitude by the persistence. The weighted sum is
//! normalized by the total amplitude, so the result stays in
//! `[-FP_ONE, FP_ONE]` no matter how many octaves contribute.

use vstd::arithmetic::div_mod::lemma_div_is_ordered;
use vstd::arithmetic::div_mod::lemma_div_multiples_vanish;
use vstd::arithmetic::mul::lemma_mul_inequality;
use vstd::arithmetic::mul::lemma_mul_is_distributive_add_other_way;
use vstd::prelude::*;

use crate::error::GenError;
use crate::fixed::fp_mul_cap;
use crate::fixed::spec_fp_mul_cap;
use crate::fixed::FP_CAP;
use crate::fixed::FP_ONE;
use crate::noise_field::spec_evaluate;
use crate::noise_field::NoiseField;

verus! {

/// Most octaves a single summation accepts; keeps the accumulators well
/// inside `i64`.
pub const MAX_OCTAVES: u32 = 64;

/// Frequency in force at octave `k`: the base frequency multiplied `k` times
/// by the lacunarity.
pub open spec fn freq_at(freq0: int, lac: int, k: nat) -> int
    decreases k,
{
    if k == 0 {
        freq0
    } else {
        spec_fp_mul_cap(freq_at(freq0, lac, (k - 1) as nat), lac)
    }
}

/// Amplitude in force at octave `k`: the base amplitude multiplied `k` times
/// by the persistence.
pub open spec fn amp_at(amp0: int, pers: int, k: nat) -> int
    decreases k,
{
    if k == 0 {
        amp0
    } else {
        spec_fp_mul_cap(amp_at(amp0, pers, (k - 1) as nat), pers)
    }
}

/// Sum of the amplitudes of the first `k` octaves: the normalization divisor.
pub open spec fn max_amplitude_at(amp0: int, pers: int, k: nat) -> int
    decreases k,
{
    if k == 0 {
        0
    } else {
        max_amplitude_at(amp0, pers, (k - 1) as nat) + amp_at(amp0, pers, (k - 1) as nat)
    }
}

/// Unnormalized sum of the first `k` octaves: each octave contributes the
/// field's value at the frequency-scaled coordinate times the amplitude.
pub open spec fn total_at(
    seed: u32,
    x: int,
    y: int,
    lac: int,
    pers: int,
    freq0: int,
    amp0: int,
    k: nat,
) -> int
    decreases k,
{
    if k == 0 {
        0
    } else {
        let j = (k - 1) as nat;
        let f = freq_at(freq0, lac, j);
        total_at(seed, x, y, lac, pers, freq0, amp0, j) + spec_evaluate(
            seed,
            spec_fp_mul_cap(x, f),
            spec_fp_mul_cap(y, f),
        ) * amp_at(amp0, pers, j)
    }
}

/// The normalized fractal value: the octave sum divided by the summed
/// amplitude, computed as a non-negative quotient shifted by `FP_ONE`.
pub open spec fn spec_fractal(
    seed: u32,
    x: int,
    y: int,
    octaves: u32,
    lac: int,
    pers: int,
    freq0: int,
    amp0: int,
) -> int {
    let total = total_at(seed, x, y, lac, pers, freq0, amp0, octaves as nat);
    let maxv = max_amplitude_at(amp0, pers, octaves as nat);
    (total + 65536 * maxv) / maxv - 65536
}

/// Multi-octave noise at the normalized coordinate `(x, y)`, both in
/// `[0, FP_ONE]`. Rejects `octaves == 0`, which would divide by zero; with
/// at least one octave it returns exactly `spec_fractal`, always within
/// `[-FP_ONE, FP_ONE]`.
pub fn fractal_noise(
    source: &NoiseField,
    x: i64,
    y: i64,
    octaves: u32,
    lacunarity: i64,
    persistence: i64,
    base_frequency: i64,
    base_amplitude: i64,
) -> (r: Result<i64, GenError>)
    requires
        0 <= x <= FP_ONE,
        0 <= y <= FP_ONE,
        octaves <= MAX_OCTAVES,
        0 <= lacunarity <= FP_CAP,
        0 <= persistence <= FP_CAP,
        0 <= base_frequency <= FP_CAP,
        1 <= base_amplitude <= FP_CAP,
    ensures
        r is Ok <==> octaves >= 1,
        octaves == 0 ==> r == Err::<i64, GenError>(GenError::InvalidParameter),
        r matches Ok(v) ==> v == spec_fractal(
            source.spec_seed(),
            x as int,
            y as int,
            octaves,
            lacunarity as int,
            persistence as int,
            base_frequency as int,
            base_amplitude as int,
        ),
        r matches Ok(v) ==> -FP_ONE <= v <= FP_ONE,
{
    if octaves == 0 {
        return Err(GenError::InvalidParameter);
    }
    let ghost seed = source.spec_seed();
    let ghost lac = lacunarity as int;
    let ghost pers = persistence as int;
    let ghost f0 = base_frequency as int;
    let ghost a0 = base_amplitude as int;
    let mut total: i64 = 0;
    let mut maxv: i64 = 0;
    let mut freq: i64 = base_frequency;
    let mut amp: i64 = base_amplitude;
    let mut k: u32 = 0;
    while k < octaves
        invariant
            0 <= k <= octaves,
            1 <= octaves <= MAX_OCTAVES,
            0 <= x <= FP_ONE,
            0 <= y <= FP_ONE,
            0 <= lacunarity <= FP_CAP,
            0 <= persistence <= FP_CAP,
            0 <= base_frequency <= FP_CAP,
            1 <= base_amplitude <= FP_CAP,
            seed == source.spec_seed(),
            lac == lacunarity as int,
            pers == persistence as int,
            f0 == base_frequency as int,
            a0 == base_amplitude as int,
            freq == freq_at(f0, lac, k as nat),
            amp == amp_at(a0, pers, k as nat),
            maxv == max_amplitude_at(a0, pers, k as nat),
            total == total_at(seed, x as int, y as int, lac, pers, f0, a0, k as nat),
            0 <= freq <= FP_CAP,
            0 <= amp <= FP_CAP,
            0 <= maxv <= k * FP_CAP,
            -65536 * maxv <= total <= 65536 * maxv,
            k >= 1 ==> maxv >= base_amplitude,
        decreases octaves - k,
    {
        let sx = fp_mul_cap(x, freq);
        let sy = fp_mul_cap(y, freq);
        let s = source.evaluate(sx, sy);
        proof {
            lemma_mul_inequality(s as int, 65536, amp as int);
            lemma_mul_inequality(-65536, s as int, amp as int);
        }
        let term = s * amp;
        total = total + term;
        maxv = maxv + amp;
        amp = fp_mul_cap(amp, persistence);
        freq = fp_mul_cap(freq, lacunarity);
        k = k + 1;
    }
    proof {
        assert(maxv <= 64 * FP_CAP);
        assert(total + 65536 * maxv <= 131072 * (maxv as int)) by {
            assert(total <= 65536 * maxv);
        }
        lemma_div_is_ordered(total + 65536 * maxv, 131072 * (maxv as int), maxv as int);
        lemma_div_multiples_vanish(131072, maxv as int);
        vstd::arithmetic::div_mod::lemma_div_pos_is_pos(total + 65536 * maxv, maxv as int);
    }
    let shifted = total + 65536 * maxv;
    let q = (shifted as u64) / (maxv as u64);
    Ok(q as i64 - FP_ONE)
}

/// With a single octave the normalization cancels the amplitude exactly, so
/// the fractal value is precisely the field's value at the coordinate scaled
/// by the base frequency: the single-octave identity.
pub proof fn lemma_single_octave(
    seed: u32,
    x: int,
    y: int,
    lac: int,
    pers: int,
    freq0: int,
    amp0: int,
)
    requires
        1 <= amp0,
    ensures
        spec_fractal(seed, x, y, 1, lac, pers, freq0, amp0) == spec_evaluate(
            seed,
            spec_fp_mul_cap(x, freq0),
            spec_fp_mul_cap(y, freq0),
        ),
{
    let s = spec_evaluate(seed, spec_fp_mul_cap(x, freq0), spec_fp_mul_cap(y, freq0));
    reveal_with_fuel(total_at, 2);
    reveal_with_fuel(max_amplitude_at, 2);
    reveal_with_fuel(amp_at, 2);
    reveal_with_fuel(freq_at, 2);
    assert(total_at(seed, x, y, lac, pers, freq0, amp0, 1) == s * amp0);
    assert(max_amplitude_at(amp0, pers, 1) == amp0);
    lemma_mul_is_distributive_add_other_way(amp0, s, 65536);
    lemma_div_multiples_vanish(s + 65536, amp0);
    assert((s * amp0 + 65536 * amp0) / amp0 == s + 65536);
}

proof fn lemma_zero_persistence_amp(a0: int, k: nat)
    requires
        k >= 1,
    ensures
        amp_at(a0, 0, k) == 0,
    decreases k,
{
    if k > 1 {
        lemma_zero_persistence_amp(a0, (k - 1) as nat);
    }
}

proof fn lemma_zero_persistence_sums(
    seed: u32,
    x: int,
    y: int,
    lac: int,
    f0: int,
    a0: int,
    k: nat,
)
    requires
        k >= 1,
    ensures
        max_amplitude_at(a0, 0, k) == a0,
        total_at(seed, x, y, lac, 0, f0, a0, k) == total_at(seed, x, y, lac, 0, f0, a0, 1),
    decreases k,
{
    reveal_with_fuel(max_amplitude_at, 2);
    reveal_with_fuel(amp_at, 2);
    if k > 1 {
        lemma_zero_persistence_sums(seed, x, y, lac, f0, a0, (k - 1) as nat);
        lemma_zero_persistence_amp(a0, (k - 1) as nat);
        let f = freq_at(f0, lac, (k - 1) as nat);
        let s = spec_evaluate(seed, spec_fp_mul_cap(x, f), spec_fp_mul_cap(y, f));
        assert(s * amp_at(a0, 0, (k - 1) as nat) == 0);
    }
}

/// With zero persistence every octave after the first has zero amplitude, so
/// however many octaves are summed, the fractal value collapses exactly to
/// the single-octave value.
pub proof fn lemma_zero_persistence(
    seed: u32,
    x: int,
    y: int,
    octaves: u32,
    lac: int,
    f0: int,
    a0: int,
)
    requires
        1 <= a0,
        octaves >= 1,
    ensures
        spec_fractal(seed, x, y, octaves, lac, 0, f0, a0) == spec_evaluate(
            seed,
            spec_fp_mul_cap(x, f0),
            spec_fp_mul_cap(y, f0),
        ),
{
    lemma_zero_persistence_sums(seed, x, y, lac, f0, a0, octaves as nat);
    reveal_with_fuel(max_amplitude_at, 2);
    reveal_with_fuel(amp_at, 2);
    assert(max_amplitude_at(a0, 0, 1) == a0);
    lemma_single_octave(seed, x, y, lac, 0, f0, a0);
}

} // verus!
