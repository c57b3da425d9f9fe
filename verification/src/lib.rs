//! A verified procedural texture generator: a seeded coherent-noise field,
//! a multi-octave (fractal) summation engine, a model of bounded and scaled
//! integer controls, and a pixel-buffer assembler that turns one parameter
//! snapshot and one seed into an opaque grayscale RGBA image.
//!
//! All real-valued quantities are fixed-point integers scaled by
//! `fixed::FP_ONE`, so every result is exact, reproducible, and free of
//! overflow; the contracts pin each output down to the byte.

pub mod argb;
pub mod error;
pub mod fixed;
pub mod fractal;
pub mod noise_field;
pub mod params;
pub mod pixel;
