//! End-to-end tests of the generation pipeline: buffer shape, determinism,
//! seed sensitivity, validation, and the colour-mapping strategies.

use fractal_texture::error::GenError;
use fractal_texture::fixed::fp_mul_cap;
use fractal_texture::fixed::FP_ONE;
use fractal_texture::fractal::fractal_noise;
use fractal_texture::noise_field::NoiseField;
use fractal_texture::params::GenerationParameters;
use fractal_texture::pixel::direct_scale;
use fractal_texture::pixel::generate;
use fractal_texture::pixel::map_intensity;
use fractal_texture::pixel::signed_normalize;
use fractal_texture::pixel::ColorMap;

fn small_params() -> GenerationParameters {
    GenerationParameters {
        octaves: 3,
        lacunarity: 2 * FP_ONE,
        persistence: FP_ONE / 2,
        base_frequency: FP_ONE,
        base_amplitude: FP_ONE,
        width: 8,
        height: 5,
    }
}

#[test]
fn buffer_length_and_alpha() {
    let buf = generate(&small_params(), 7, ColorMap::SignedNormalize).unwrap();
    assert_eq!(buf.width, 8);
    assert_eq!(buf.height, 5);
    assert_eq!(buf.pixels.len(), 8 * 5 * 4);
    for p in 0..(8 * 5) {
        assert_eq!(buf.pixels[4 * p + 3], 255);
    }
}

#[test]
fn grayscale_quads() {
    let buf = generate(&small_params(), 7, ColorMap::SignedNormalize).unwrap();
    for p in 0..(8 * 5) {
        assert_eq!(buf.pixels[4 * p], buf.pixels[4 * p + 1]);
        assert_eq!(buf.pixels[4 * p], buf.pixels[4 * p + 2]);
    }
}

#[test]
fn determinism_same_seed() {
    let a = generate(&small_params(), 123, ColorMap::SignedNormalize).unwrap();
    let b = generate(&small_params(), 123, ColorMap::SignedNormalize).unwrap();
    assert_eq!(a.pixels, b.pixels);
}

#[test]
fn different_seeds_differ() {
    let params = GenerationParameters { width: 16, height: 16, ..small_params() };
    let a = generate(&params, 1, ColorMap::SignedNormalize).unwrap();
    let b = generate(&params, 2, ColorMap::SignedNormalize).unwrap();
    assert_ne!(a.pixels, b.pixels);
}

#[test]
fn zero_octaves_invalid() {
    let params = GenerationParameters { octaves: 0, ..small_params() };
    assert!(matches!(
        generate(&params, 7, ColorMap::SignedNormalize),
        Err(GenError::InvalidParameter)
    ));
}

#[test]
fn zero_dimensions_invalid() {
    let no_width = GenerationParameters { width: 0, ..small_params() };
    let no_height = GenerationParameters { height: 0, ..small_params() };
    assert!(matches!(
        generate(&no_width, 7, ColorMap::SignedNormalize),
        Err(GenError::InvalidParameter)
    ));
    assert!(matches!(
        generate(&no_height, 7, ColorMap::SignedNormalize),
        Err(GenError::InvalidParameter)
    ));
}

#[test]
fn zero_amplitude_invalid() {
    let params = GenerationParameters { base_amplitude: 0, ..small_params() };
    assert!(matches!(
        generate(&params, 7, ColorMap::SignedNormalize),
        Err(GenError::InvalidParameter)
    ));
}

#[test]
fn negative_multiplier_invalid() {
    let params = GenerationParameters { lacunarity: -1, ..small_params() };
    assert!(matches!(
        generate(&params, 7, ColorMap::SignedNormalize),
        Err(GenError::InvalidParameter)
    ));
}

#[test]
fn allocation_too_large() {
    let params = GenerationParameters { width: 4100, height: 4100, ..small_params() };
    assert!(matches!(
        generate(&params, 7, ColorMap::SignedNormalize),
        Err(GenError::AllocationTooLarge)
    ));
}

#[test]
fn scenario_seed_42() {
    let params = GenerationParameters {
        octaves: 1,
        lacunarity: 2 * FP_ONE,
        persistence: FP_ONE / 2,
        base_frequency: FP_ONE,
        base_amplitude: FP_ONE,
        width: 4,
        height: 4,
    };
    let a = generate(&params, 42, ColorMap::SignedNormalize).unwrap();
    assert_eq!(a.pixels.len(), 64);
    let b = generate(&params, 42, ColorMap::SignedNormalize).unwrap();
    assert_eq!(a.pixels, b.pixels);
}

#[test]
fn single_octave_identity() {
    let field = NoiseField::new(9);
    let x = 12345;
    let y = 54321;
    let base_frequency = 3 * FP_ONE;
    let direct = field.evaluate(fp_mul_cap(x, base_frequency), fp_mul_cap(y, base_frequency));
    let through_fractal =
        fractal_noise(&field, x, y, 1, 7 * FP_ONE, FP_ONE / 4, base_frequency, 5 * FP_ONE)
            .unwrap();
    assert_eq!(through_fractal, direct);
}

#[test]
fn fractal_zero_octaves_invalid() {
    let field = NoiseField::new(9);
    assert_eq!(
        fractal_noise(&field, 0, 0, 0, FP_ONE, FP_ONE, FP_ONE, FP_ONE),
        Err(GenError::InvalidParameter)
    );
}

#[test]
fn fractal_stays_normalized() {
    let field = NoiseField::new(31);
    for octaves in 1..=8 {
        let v = fractal_noise(
            &field,
            FP_ONE / 3,
            FP_ONE / 7,
            octaves,
            4 * FP_ONE,
            (4 * FP_ONE) / 5,
            FP_ONE,
            FP_ONE,
        )
        .unwrap();
        assert!(-FP_ONE <= v && v <= FP_ONE);
    }
}

#[test]
fn signed_normalize_anchors() {
    assert_eq!(signed_normalize(-FP_ONE), 0);
    assert_eq!(signed_normalize(0), 127);
    assert_eq!(signed_normalize(FP_ONE), 255);
}

#[test]
fn signed_normalize_clamps() {
    assert_eq!(signed_normalize(-10 * FP_ONE), 0);
    assert_eq!(signed_normalize(10 * FP_ONE), 255);
}

#[test]
fn direct_scale_clamps_negative_to_black() {
    assert_eq!(direct_scale(-1), 0);
    assert_eq!(direct_scale(-10 * FP_ONE), 0);
}

#[test]
fn direct_scale_values() {
    assert_eq!(direct_scale(0), 0);
    assert_eq!(direct_scale(FP_ONE / 2), 127);
    assert_eq!(direct_scale(FP_ONE), 255);
    assert_eq!(direct_scale(10 * FP_ONE), 255);
}

#[test]
fn map_intensity_picks_strategy() {
    assert_eq!(map_intensity(ColorMap::DirectScale, -FP_ONE), 0);
    assert_eq!(map_intensity(ColorMap::SignedNormalize, -FP_ONE), 0);
    assert_eq!(map_intensity(ColorMap::DirectScale, FP_ONE / 2), 127);
    assert_eq!(map_intensity(ColorMap::SignedNormalize, FP_ONE / 2), 191);
}

#[test]
fn strategies_differ_on_same_field() {
    let params = small_params();
    let a = generate(&params, 5, ColorMap::DirectScale).unwrap();
    let b = generate(&params, 5, ColorMap::SignedNormalize).unwrap();
    assert_ne!(a.pixels, b.pixels);
}

#[test]
fn noise_field_bounds_and_determinism() {
    let field = NoiseField::new(77);
    let again = NoiseField::new(77);
    for k in 0..50i64 {
        let x = k * 1234 - 30000;
        let y = 60000 - k * 991;
        let v = field.evaluate(x, y);
        assert!(-FP_ONE <= v && v <= FP_ONE);
        assert_eq!(v, again.evaluate(x, y));
    }
    assert_eq!(field.seed(), 77);
}

#[test]
fn error_describe() {
    assert_eq!(GenError::InvalidParameter.describe(), "invalid parameter");
    assert_eq!(GenError::AllocationTooLarge.describe(), "allocation too large");
}

#[test]
fn model_snapshot_generates() {
    let mut model = fractal_texture::params::ParameterModel::default();
    model.img_width.set(50);
    model.img_height.set(50);
    let params = model.snapshot();
    let buf = generate(&params, 11, ColorMap::SignedNormalize).unwrap();
    assert_eq!(buf.pixels.len(), 50 * 50 * 4);
}

#[test]
fn zero_persistence_collapses_to_single_octave() {
    let field = NoiseField::new(23);
    let many = fractal_noise(&field, 40000, 9000, 5, 3 * FP_ONE, 0, 2 * FP_ONE, FP_ONE).unwrap();
    let one = fractal_noise(&field, 40000, 9000, 1, 3 * FP_ONE, 0, 2 * FP_ONE, FP_ONE).unwrap();
    assert_eq!(many, one);
}
