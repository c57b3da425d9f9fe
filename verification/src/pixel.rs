//! Pixel buffer assembly: walks the output grid row-major, evaluates the
//! fractal noise at each normalized coordinate, maps the value to an opaque
//! grayscale RGBA quad, and fills one flat byte buffer.

use vstd::arithmetic::div_mod::lemma_div_is_ordered;
use vstd::arithmetic::div_mod::lemma_fundamental_div_mod_converse;
use vstd::arithmetic::div_mod::lemma_mod_division_less_than_divisor;
use vstd::arithmetic::div_mod::lemma_multiply_divide_lt;
use vstd::arithmetic::mul::lemma_mul_inequality;
use vstd::arithmetic::mul::lemma_mul_strict_inequality;
use vstd::prelude::*;

use crate::error::GenError;
use crate::fixed::FP_CAP;
use crate::fractal::fractal_noise;
use crate::fractal::spec_fractal;
use crate::fractal::MAX_OCTAVES;
use crate::noise_field::NoiseField;
use crate::params::GenerationParameters;
use crate::params::MAX_PIXELS;

verus! {

/// The two colour-mapping policies, as explicit named strategies.
#[derive(Clone, Copy, Debug, PartialEq, Eq, Structural)]
pub enum ColorMap {
    /// `intensity = clamp(value * 255.999)`: assumes the value already lies
    /// in `[0, 1)`; negative values clamp to black instead of wrapping.
    /// Kept as the historical mapping; it darkens half of the range.
    DirectScale,
    /// `intensity = clamp(((value + 1) / 2) * 255.999)`: maps the full
    /// `[-1, 1]` range onto `[0, 255]`. The corrected, preferred mapping.
    SignedNormalize,
}

/// Direct-scale mapping on fixed-point values, clamped into `[0, 255]`.
pub open spec fn spec_direct_scale(v: int) -> int {
    let c = if v < 0 {
        0
    } else if v > 65536 {
        65536
    } else {
        v
    };
    c * 255999 / 65536000
}

/// Signed-normalize mapping on fixed-point values: `[-FP_ONE, FP_ONE]`
/// onto `[0, 255]`, clamping anything outside.
pub open spec fn spec_signed_normalize(v: int) -> int {
    let c = if v < -65536 {
        -65536
    } else if v > 65536 {
        65536
    } else {
        v
    };
    (c + 65536) * 255999 / 131072000
}

/// The intensity the chosen strategy assigns to a fixed-point noise value.
pub open spec fn spec_map_intensity(map: ColorMap, v: int) -> int {
    match map {
        ColorMap::DirectScale => spec_direct_scale(v),
        ColorMap::SignedNormalize => spec_signed_normalize(v),
    }
}

/// Apply the direct-scale strategy to a noise value.
pub fn direct_scale(v: i64) -> (r: u8)
    ensures
        r as int == spec_direct_scale(v as int),
{
    let c: i64 = if v < 0 {
        0
    } else if v > 65536 {
        65536
    } else {
        v
    };
    let u = c as u64;
    proof {
        lemma_mul_inequality(u as int, 65536, 255999);
        lemma_div_is_ordered(u as int * 255999, 65536int * 255999, 65536000);
        lemma_fundamental_div_mod_converse(65536int * 255999, 65536000, 255, 65470464);
        vstd::arithmetic::div_mod::lemma_div_pos_is_pos(u as int * 255999, 65536000);
    }
    (u * 255999 / 65536000) as u8
}

/// Apply the signed-normalize strategy to a noise value.
pub fn signed_normalize(v: i64) -> (r: u8)
    ensures
        r as int == spec_signed_normalize(v as int),
{
    let c: i64 = if v < -65536 {
        -65536
    } else if v > 65536 {
        65536
    } else {
        v
    };
    let u = (c + 65536) as u64;
    proof {
        lemma_mul_inequality(u as int, 131072, 255999);
        lemma_div_is_ordered(u as int * 255999, 131072int * 255999, 131072000);
        lemma_fundamental_div_mod_converse(131072int * 255999, 131072000, 255, 130940928);
        vstd::arithmetic::div_mod::lemma_div_pos_is_pos(u as int * 255999, 131072000);
    }
    (u * 255999 / 131072000) as u8
}

/// Apply the chosen strategy to a noise value.
pub fn map_intensity(map: ColorMap, v: i64) -> (r: u8)
    ensures
        r as int == spec_map_intensity(map, v as int),
{
    match map {
        ColorMap::DirectScale => direct_scale(v),
        ColorMap::SignedNormalize => signed_normalize(v),
    }
}

/// The signed-normalize anchors: the lowest noise value maps to black, zero
/// to the middle gray, and the highest value to white.
pub proof fn lemma_signed_normalize_anchors()
    ensures
        spec_signed_normalize(-65536) == 0,
        spec_signed_normalize(0) == 127,
        spec_signed_normalize(65536) == 255,
{
    lemma_fundamental_div_mod_converse(0int, 131072000, 0, 0);
    lemma_fundamental_div_mod_converse(65536int * 255999, 131072000, 127, 131006464);
    lemma_fundamental_div_mod_converse(131072int * 255999, 131072000, 255, 130940928);
}

/// A rectangular RGBA8 image: `width * height` pixels of 4 bytes each,
/// row-major. Produced fresh by every generation run.
pub struct PixelBuffer {
    pub width: u32,
    pub height: u32,
    pub pixels: Vec<u8>,
}

/// Intensity of the pixel in column `i` of row `j`: the fractal noise at the
/// normalized coordinate `(i / width, j / height)`, pushed through the
/// colour map.
pub open spec fn spec_pixel_intensity(
    params: GenerationParameters,
    seed: u32,
    map: ColorMap,
    i: int,
    j: int,
) -> int {
    let x = i * 65536 / (params.width as int);
    let y = j * 65536 / (params.height as int);
    spec_map_intensity(
        map,
        spec_fractal(
            seed,
            x,
            y,
            params.octaves,
            params.lacunarity as int,
            params.persistence as int,
            params.base_frequency as int,
            params.base_amplitude as int,
        ),
    )
}

/// Byte `k` of the generated buffer: pixels come as row-major RGBA quads
/// with R = G = B = intensity and A = 255.
pub open spec fn spec_pixel_byte(
    params: GenerationParameters,
    seed: u32,
    map: ColorMap,
    k: int,
) -> int {
    if k % 4 == 3 {
        255
    } else {
        let p = k / 4;
        spec_pixel_intensity(params, seed, map, p % (params.width as int), p / (
        params.width as int))
    }
}

/// Generate a fresh grayscale RGBA texture from one parameter snapshot and
/// one seed. Validation happens first, before any allocation; on success the
/// buffer holds exactly `width * height * 4` bytes and every byte is a pure
/// function of the parameters, the seed and the strategy.
pub fn generate(params: &GenerationParameters, seed: u32, map: ColorMap) -> (r: Result<
    PixelBuffer,
    GenError,
>)
    ensures
        r is Ok <==> params.valid(),
        !params.params_in_range() ==> r == Err::<PixelBuffer, GenError>(
            GenError::InvalidParameter,
        ),
        params.params_in_range() && !params.fits_allocation() ==> r == Err::<
            PixelBuffer,
            GenError,
        >(GenError::AllocationTooLarge),
        r matches Ok(buf) ==> {
            &&& buf.width == params.width
            &&& buf.height == params.height
            &&& buf.pixels@.len() == params.width * params.height * 4
            &&& (forall|k: int|
                0 <= k < buf.pixels@.len() ==> buf.pixels@[k] as int == spec_pixel_byte(
                    *params,
                    seed,
                    map,
                    k,
                ))
            &&& (forall|k: int|
                0 <= k < buf.pixels@.len() && k % 4 == 3 ==> buf.pixels@[k] == 255u8)
        },
{
    if params.octaves < 1 || params.octaves > MAX_OCTAVES || params.lacunarity < 0
        || params.lacunarity > FP_CAP || params.persistence < 0 || params.persistence > FP_CAP
        || params.base_frequency < 0 || params.base_frequency > FP_CAP || params.base_amplitude < 1
        || params.base_amplitude > FP_CAP || params.width < 1 || params.height < 1 {
        return Err(GenError::InvalidParameter);
    }
    let w = params.width as u64;
    let h = params.height as u64;
    proof {
        vstd::arithmetic::mul::lemma_mul_upper_bound(
            w as int,
            u32::MAX as int,
            h as int,
            u32::MAX as int,
        );
    }
    let n = w * h;
    if n > MAX_PIXELS {
        return Err(GenError::AllocationTooLarge);
    }
    let field = NoiseField::new(seed);
    let mut pixels: Vec<u8> = Vec::with_capacity((n * 4) as usize);
    let mut p: u64 = 0;
    while p < n
        invariant
            params.valid(),
            field.spec_seed() == seed,
            w == params.width,
            h == params.height,
            n == w * h,
            n <= MAX_PIXELS,
            0 <= p <= n,
            pixels@.len() == 4 * p,
            forall|k: int|
                0 <= k < pixels@.len() ==> pixels@[k] as int == spec_pixel_byte(
                    *params,
                    seed,
                    map,
                    k,
                ),
        decreases n - p,
    {
        proof {
            lemma_mod_division_less_than_divisor(p as int, w as int);
            lemma_multiply_divide_lt(p as int, w as int, h as int);
        }
        let i = p % w;
        let j = p / w;
        proof {
            lemma_mul_strict_inequality(i as int, w as int, 65536);
            lemma_multiply_divide_lt(i as int * 65536, w as int, 65536);
            lemma_mul_strict_inequality(j as int, h as int, 65536);
            lemma_multiply_divide_lt(j as int * 65536, h as int, 65536);
            vstd::arithmetic::div_mod::lemma_div_pos_is_pos(i as int * 65536, w as int);
            vstd::arithmetic::div_mod::lemma_div_pos_is_pos(j as int * 65536, h as int);
        }
        let x = i * 65536 / w;
        let y = j * 65536 / h;
        let v = match fractal_noise(
            &field,
            x as i64,
            y as i64,
            params.octaves,
            params.lacunarity,
            params.persistence,
            params.base_frequency,
            params.base_amplitude,
        ) {
            Ok(v) => v,
            // validation guaranteed at least one octave, so the engine
            // cannot refuse the call
            Err(e) => {
                proof {
                    assert(false);
                }
                return Err(e);
            },
        };
        let intensity = map_intensity(map, v);
        let ghost old_pixels = pixels@;
        pixels.push(intensity);
        pixels.push(intensity);
        pixels.push(intensity);
        pixels.push(255);
        proof {
            lemma_fundamental_div_mod_converse(4 * p as int, 4, p as int, 0);
            lemma_fundamental_div_mod_converse(4 * p as int + 1, 4, p as int, 1);
            lemma_fundamental_div_mod_converse(4 * p as int + 2, 4, p as int, 2);
            lemma_fundamental_div_mod_converse(4 * p as int + 3, 4, p as int, 3);
            assert forall|k: int| 0 <= k < pixels@.len() implies pixels@[k] as int
                == spec_pixel_byte(*params, seed, map, k) by {
                if k < old_pixels.len() {
                    assert(pixels@[k] == old_pixels[k]);
                } else {
                    assert(k / 4 == p as int && (k % 4 == 3 <==> k == 4 * p as int + 3));
                }
            }
        }
        p = p + 1;
    }
    Ok(PixelBuffer { width: params.width, height: params.height, pixels })
}

/// Determinism: every byte of a generated buffer is a pure function of the
/// parameter snapshot, the seed and the strategy, so two buffers that both
/// satisfy `generate`'s contract for the same inputs are byte-identical.
pub proof fn lemma_generate_deterministic(
    params: GenerationParameters,
    seed: u32,
    map: ColorMap,
    a: Seq<u8>,
    b: Seq<u8>,
)
    requires
        a.len() == params.width * params.height * 4,
        b.len() == a.len(),
        forall|k: int| 0 <= k < a.len() ==> a[k] as int == spec_pixel_byte(params, seed, map, k),
        forall|k: int| 0 <= k < b.len() ==> b[k] as int == spec_pixel_byte(params, seed, map, k),
    ensures
        a == b,
{
    assert(a =~= b);
}

} // verus!
