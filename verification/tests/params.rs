//! Tests of the parameter model: bounds, clamping, scaling, defaults, and
//! the snapshot the generator reads.

use fractal_texture::fixed::FP_ONE;
use fractal_texture::params::BoundedParam;
use fractal_texture::params::ControlEvent;
use fractal_texture::params::Derived;
use fractal_texture::params::ParameterModel;
use fractal_texture::params::ScaledBoundedParam;

#[test]
fn scaled_param_round_trip() {
    let p = ScaledBoundedParam::new(50, 1, 100, 1, 100);
    assert_eq!(p.derived_value(), FP_ONE / 2);
}

#[test]
fn scaled_param_max_is_exact() {
    let mut p = ScaledBoundedParam::new(50, 1, 100, 1, 100);
    p.set(p.max_value());
    assert_eq!(p.current_value(), 100);
    assert_eq!(p.derived_value(), (100 * FP_ONE) / 100);
    assert_eq!(p.derived_value(), FP_ONE);
}

#[test]
fn set_clamps_above_and_below() {
    let mut p = BoundedParam::new(8, 1, 20, 1);
    p.set(500);
    assert_eq!(p.current_value(), 20);
    p.set(0);
    assert_eq!(p.current_value(), 1);
    p.set(13);
    assert_eq!(p.current_value(), 13);
}

#[test]
fn scaled_set_clamps() {
    let mut p = ScaledBoundedParam::new(20, 1, 40, 1, 10);
    p.set(1000);
    assert_eq!(p.current_value(), 40);
    p.set(0);
    assert_eq!(p.current_value(), 1);
}

#[test]
fn new_clamps_initial_value() {
    let p = BoundedParam::new(5000, 50, 2000, 100);
    assert_eq!(p.current_value(), 2000);
    let q = ScaledBoundedParam::new(0, 1, 100, 1, 100);
    assert_eq!(q.current_value(), 1);
}

#[test]
fn bounded_param_accessors() {
    let p = BoundedParam::new(8, 1, 20, 2);
    assert_eq!(p.current_value(), 8);
    assert_eq!(p.min_value(), 1);
    assert_eq!(p.max_value(), 20);
    assert_eq!(p.step_value(), 2);
}

#[test]
fn scaled_param_accessors() {
    let p = ScaledBoundedParam::new(20, 1, 40, 1, 10);
    assert_eq!(p.current_value(), 20);
    assert_eq!(p.min_value(), 1);
    assert_eq!(p.max_value(), 40);
    assert_eq!(p.step_value(), 1);
    assert_eq!(p.scale_value(), 10);
}

#[test]
fn unscaled_param_derives_whole_number() {
    let p = BoundedParam::new(8, 1, 20, 1);
    assert_eq!(p.derived_value(), 8 * FP_ONE);
}

#[test]
fn derived_value_truncates() {
    let p = ScaledBoundedParam::new(1, 1, 10, 1, 3);
    assert_eq!(p.derived_value(), FP_ONE as i64 / 3);
}

#[test]
fn default_model_controls() {
    let m = ParameterModel::default();
    assert_eq!(m.octaves.current_value(), 8);
    assert_eq!(m.lacunarity.current_value(), 20);
    assert_eq!(m.lacunarity.scale_value(), 10);
    assert_eq!(m.persistence.current_value(), 50);
    assert_eq!(m.frequency.current_value(), 50);
    assert_eq!(m.amplitude.current_value(), 50);
    assert_eq!(m.img_width.current_value(), 1000);
    assert_eq!(m.img_height.current_value(), 600);
}

#[test]
fn default_model_bounds() {
    let m = ParameterModel::default();
    assert_eq!(
        (m.octaves.min_value(), m.octaves.max_value(), m.octaves.step_value()),
        (1, 20, 1)
    );
    assert_eq!(
        (m.lacunarity.min_value(), m.lacunarity.max_value(), m.lacunarity.step_value()),
        (1, 40, 1)
    );
    assert_eq!(
        (m.persistence.min_value(), m.persistence.max_value(), m.persistence.step_value()),
        (1, 100, 1)
    );
    assert_eq!(m.persistence.scale_value(), 100);
    assert_eq!(
        (m.frequency.min_value(), m.frequency.max_value(), m.frequency.step_value()),
        (1, 10000, 1)
    );
    assert_eq!(m.frequency.scale_value(), 100);
    assert_eq!(
        (m.amplitude.min_value(), m.amplitude.max_value(), m.amplitude.step_value()),
        (1, 1000, 1)
    );
    assert_eq!(m.amplitude.scale_value(), 100);
    assert_eq!(
        (m.img_width.min_value(), m.img_width.max_value(), m.img_width.step_value()),
        (50, 2000, 100)
    );
    assert_eq!(
        (m.img_height.min_value(), m.img_height.max_value(), m.img_height.step_value()),
        (50, 2000, 100)
    );
}

#[test]
fn snapshot_reads_current_values() {
    let mut m = ParameterModel::default();
    m.octaves.set(4);
    m.img_width.set(320);
    m.img_height.set(200);
    let params = m.snapshot();
    assert_eq!(params.octaves, 4);
    assert_eq!(params.lacunarity, 2 * FP_ONE);
    assert_eq!(params.persistence, FP_ONE / 2);
    assert_eq!(params.base_frequency, FP_ONE / 2);
    assert_eq!(params.base_amplitude, FP_ONE / 2);
    assert_eq!(params.width, 320);
    assert_eq!(params.height, 200);
}

#[test]
fn apply_routes_events_and_clamps() {
    let mut m = ParameterModel::default();
    m.apply(ControlEvent::OctavesChanged(12));
    assert_eq!(m.octaves.current_value(), 12);
    m.apply(ControlEvent::OctavesChanged(999));
    assert_eq!(m.octaves.current_value(), 20);
    m.apply(ControlEvent::LacunarityChanged(30));
    assert_eq!(m.lacunarity.current_value(), 30);
    m.apply(ControlEvent::PersistenceChanged(0));
    assert_eq!(m.persistence.current_value(), 1);
    m.apply(ControlEvent::FrequencyChanged(200));
    assert_eq!(m.frequency.current_value(), 200);
    m.apply(ControlEvent::AmplitudeChanged(75));
    assert_eq!(m.amplitude.current_value(), 75);
    m.apply(ControlEvent::ImgWidthChanged(800));
    m.apply(ControlEvent::ImgHeightChanged(9999));
    assert_eq!(m.img_width.current_value(), 800);
    assert_eq!(m.img_height.current_value(), 2000);
    assert_eq!(m.octaves.current_value(), 20);
}
