//! The parameter model: bounded integer controls, optionally with a scale
//! divisor that derives the real-valued quantity the engine consumes.
//!
//! Each control keeps the invariant `min <= val <= max` with `step >= 1`
//! (and `scale >= 1` for scaled controls); writes from any source are
//! clamped into the bounds rather than rejected.

use vstd::prelude::*;

use crate::fixed::FP_CAP;
use crate::fractal::MAX_OCTAVES;

verus! {

/// `v` forced into the inclusive range `[lo, hi]`.
pub open spec fn spec_clamp(v: u32, lo: u32, hi: u32) -> u32 {
    if v < lo {
        lo
    } else if v > hi {
        hi
    } else {
        v
    }
}

/// A control exposing the real-valued parameter it stands for, in fixed
/// point. Unscaled controls return their raw value as a whole number;
/// scaled controls divide by their scale.
pub trait Derived {
    /// The control's own invariant; constructors establish it and every
    /// method preserves it.
    spec fn inv(&self) -> bool;

    /// The fixed-point quantity this control derives.
    spec fn spec_derived(&self) -> int;

    /// The fixed-point quantity the engine consumes.
    fn derived_value(&self) -> (r: i64)
        requires
            self.inv(),
        ensures
            r == self.spec_derived(),
    ;
}

/// An integer control value with inclusive bounds and an adjustment step,
/// used where the parameter is already in its natural unit.
#[derive(Clone, Copy, Debug, PartialEq, Eq, Structural)]
pub struct BoundedParam {
    val: u32,
    min_val: u32,
    max_val: u32,
    step: u32,
}

impl BoundedParam {
    pub closed spec fn spec_val(self) -> u32 {
        self.val
    }

    pub closed spec fn spec_min(self) -> u32 {
        self.min_val
    }

    pub closed spec fn spec_max(self) -> u32 {
        self.max_val
    }

    pub closed spec fn spec_step(self) -> u32 {
        self.step
    }

    /// The control's invariant: the value sits inside its bounds and the
    /// step is a usable increment.
    pub open spec fn wf(self) -> bool {
        &&& self.spec_min() <= self.spec_val() <= self.spec_max()
        &&& self.spec_step() >= 1
    }

    /// `other` has the same bounds and step as this control.
    pub open spec fn same_bounds(self, other: BoundedParam) -> bool {
        &&& self.spec_min() == other.spec_min()
        &&& self.spec_max() == other.spec_max()
        &&& self.spec_step() == other.spec_step()
    }

    /// A new control; the initial value is clamped into the bounds.
    pub fn new(val: u32, min_val: u32, max_val: u32, step: u32) -> (r: BoundedParam)
        requires
            min_val <= max_val,
            step >= 1,
        ensures
            r.wf(),
            r.spec_val() == spec_clamp(val, min_val, max_val),
            r.spec_min() == min_val,
            r.spec_max() == max_val,
            r.spec_step() == step,
    {
        let v = if val < min_val {
            min_val
        } else if val > max_val {
            max_val
        } else {
            val
        };
        BoundedParam { val: v, min_val, max_val, step }
    }

    /// The raw control value.
    pub fn current_value(&self) -> (v: u32)
        ensures
            v == self.spec_val(),
    {
        self.val
    }

    pub fn min_value(&self) -> (v: u32)
        ensures
            v == self.spec_min(),
    {
        self.min_val
    }

    pub fn max_value(&self) -> (v: u32)
        ensures
            v == self.spec_max(),
    {
        self.max_val
    }

    pub fn step_value(&self) -> (v: u32)
        ensures
            v == self.spec_step(),
    {
        self.step
    }

    /// Write a new value, clamped defensively into the bounds so the
    /// invariant holds whatever the source of the write.
    pub fn set(&mut self, new_val: u32)
        requires
            old(self).wf(),
        ensures
            final(self).wf(),
            final(self).spec_val() == spec_clamp(new_val, old(self).spec_min(), old(self).spec_max()),
            final(self).spec_min() == old(self).spec_min(),
            final(self).spec_max() == old(self).spec_max(),
            final(self).spec_step() == old(self).spec_step(),
    {
        self.val = if new_val < self.min_val {
            self.min_val
        } else if new_val > self.max_val {
            self.max_val
        } else {
            new_val
        };
    }
}

impl Derived for BoundedParam {
    open spec fn inv(&self) -> bool {
        self.wf()
    }

    open spec fn spec_derived(&self) -> int {
        self.spec_val() * 65536
    }

    fn derived_value(&self) -> (r: i64) {
        (self.val as i64) * 65536
    }
}

/// A bounded control plus a scale divisor: the derived real value is
/// `val / scale`, so an integer slider can drive a fractional quantity.
#[derive(Clone, Copy, Debug, PartialEq, Eq, Structural)]
pub struct ScaledBoundedParam {
    val: u32,
    min_val: u32,
    max_val: u32,
    step: u32,
    scale: u32,
}

impl ScaledBoundedParam {
    pub closed spec fn spec_val(self) -> u32 {
        self.val
    }

    pub closed spec fn spec_min(self) -> u32 {
        self.min_val
    }

    pub closed spec fn spec_max(self) -> u32 {
        self.max_val
    }

    pub closed spec fn spec_step(self) -> u32 {
        self.step
    }

    pub closed spec fn spec_scale(self) -> u32 {
        self.scale
    }

    pub open spec fn wf(self) -> bool {
        &&& self.spec_min() <= self.spec_val() <= self.spec_max()
        &&& self.spec_step() >= 1
        &&& self.spec_scale() >= 1
    }

    /// `other` has the same bounds, step and scale as this control.
    pub open spec fn same_bounds(self, other: ScaledBoundedParam) -> bool {
        &&& self.spec_min() == other.spec_min()
        &&& self.spec_max() == other.spec_max()
        &&& self.spec_step() == other.spec_step()
        &&& self.spec_scale() == other.spec_scale()
    }

    /// A new scaled control; the initial value is clamped into the bounds.
    pub fn new(val: u32, min_val: u32, max_val: u32, step: u32, scale: u32) -> (r:
        ScaledBoundedParam)
        requires
            min_val <= max_val,
            step >= 1,
            scale >= 1,
        ensures
            r.wf(),
            r.spec_val() == spec_clamp(val, min_val, max_val),
            r.spec_min() == min_val,
            r.spec_max() == max_val,
            r.spec_step() == step,
            r.spec_scale() == scale,
    {
        let v = if val < min_val {
            min_val
        } else if val > max_val {
            max_val
        } else {
            val
        };
        ScaledBoundedParam { val: v, min_val, max_val, step, scale }
    }

    /// The raw control value.
    pub fn current_value(&self) -> (v: u32)
        ensures
            v == self.spec_val(),
    {
        self.val
    }

    pub fn min_value(&self) -> (v: u32)
        ensures
            v == self.spec_min(),
    {
        self.min_val
    }

    pub fn max_value(&self) -> (v: u32)
        ensures
            v == self.spec_max(),
    {
        self.max_val
    }

    pub fn step_value(&self) -> (v: u32)
        ensures
            v == self.spec_step(),
    {
        self.step
    }

    pub fn scale_value(&self) -> (v: u32)
        ensures
            v == self.spec_scale(),
    {
        self.scale
    }

    /// Write a new value, clamped defensively into the bounds.
    pub fn set(&mut self, new_val: u32)
        requires
            old(self).wf(),
        ensures
            final(self).wf(),
            final(self).spec_val() == spec_clamp(new_val, old(self).spec_min(), old(self).spec_max()),
            final(self).spec_min() == old(self).spec_min(),
            final(self).spec_max() == old(self).spec_max(),
            final(self).spec_step() == old(self).spec_step(),
            final(self).spec_scale() == old(self).spec_scale(),
    {
        self.val = if new_val < self.min_val {
            self.min_val
        } else if new_val > self.max_val {
            self.max_val
        } else {
            new_val
        };
    }
}

impl Derived for ScaledBoundedParam {
    open spec fn inv(&self) -> bool {
        self.wf()
    }

    open spec fn spec_derived(&self) -> int {
        (self.spec_val() * 65536) as int / (self.spec_scale() as int)
    }

    fn derived_value(&self) -> (r: i64) {
        ((self.val as u64 * 65536) / (self.scale as u64)) as i64
    }
}

/// The aggregate a generation run reads once at call time: octave count,
/// per-octave multipliers, base frequency and amplitude (all fixed point),
/// and the output dimensions in pixels.
#[derive(Clone, Copy, Debug, PartialEq, Eq, Structural)]
pub struct GenerationParameters {
    pub octaves: u32,
    pub lacunarity: i64,
    pub persistence: i64,
    pub base_frequency: i64,
    pub base_amplitude: i64,
    pub width: u32,
    pub height: u32,
}

/// Most pixels one buffer may hold; `MAX_PIXELS * 4` bytes is the
/// allocation limit.
pub const MAX_PIXELS: u64 = 16777216;

impl GenerationParameters {
    /// Every knob within the range the engine accepts: at least one octave,
    /// non-negative capped multipliers, a positive amplitude, and positive
    /// dimensions. Zero lacunarity, persistence or frequency is degenerate
    /// but accepted; it flattens the texture rather than failing.
    pub open spec fn params_in_range(self) -> bool {
        &&& 1 <= self.octaves <= MAX_OCTAVES
        &&& 0 <= self.lacunarity <= FP_CAP
        &&& 0 <= self.persistence <= FP_CAP
        &&& 0 <= self.base_frequency <= FP_CAP
        &&& 1 <= self.base_amplitude <= FP_CAP
        &&& 1 <= self.width
        &&& 1 <= self.height
    }

    /// The output buffer stays under the allocation limit.
    pub open spec fn fits_allocation(self) -> bool {
        self.width * self.height <= MAX_PIXELS
    }

    /// A generation run succeeds exactly on valid parameters.
    pub open spec fn valid(self) -> bool {
        self.params_in_range() && self.fits_allocation()
    }
}

/// The full set of texture controls an interactive front end exposes, each
/// one a bounded (and where fractional, scaled) integer knob.
pub struct ParameterModel {
    pub octaves: BoundedParam,
    pub lacunarity: ScaledBoundedParam,
    pub persistence: ScaledBoundedParam,
    pub frequency: ScaledBoundedParam,
    pub amplitude: ScaledBoundedParam,
    pub img_width: BoundedParam,
    pub img_height: BoundedParam,
}

impl ParameterModel {
    /// Every control keeps its own invariant.
    pub open spec fn wf(self) -> bool {
        &&& self.octaves.wf()
        &&& self.lacunarity.wf()
        &&& self.persistence.wf()
        &&& self.frequency.wf()
        &&& self.amplitude.wf()
        &&& self.img_width.wf()
        &&& self.img_height.wf()
    }

    /// One snapshot of the derived generation parameters, read from the
    /// current control values at call time; nothing is cached across
    /// control changes.
    pub fn snapshot(&self) -> (r: GenerationParameters)
        requires
            self.wf(),
        ensures
            r.octaves == self.octaves.spec_val(),
            r.lacunarity == self.lacunarity.spec_derived(),
            r.persistence == self.persistence.spec_derived(),
            r.base_frequency == self.frequency.spec_derived(),
            r.base_amplitude == self.amplitude.spec_derived(),
            r.width == self.img_width.spec_val(),
            r.height == self.img_height.spec_val(),
    {
        GenerationParameters {
            octaves: self.octaves.current_value(),
            lacunarity: self.lacunarity.derived_value(),
            persistence: self.persistence.derived_value(),
            base_frequency: self.frequency.derived_value(),
            base_amplitude: self.amplitude.derived_value(),
            width: self.img_width.current_value(),
            height: self.img_height.current_value(),
        }
    }
}

/// A discrete control-change event, as a front end dispatches them: each
/// event carries the new raw value for exactly one control.
#[derive(Clone, Copy, Debug, PartialEq, Eq, Structural)]
pub enum ControlEvent {
    OctavesChanged(u32),
    LacunarityChanged(u32),
    PersistenceChanged(u32),
    FrequencyChanged(u32),
    AmplitudeChanged(u32),
    ImgWidthChanged(u32),
    ImgHeightChanged(u32),
}

impl ParameterModel {
    /// Route one control-change event to the control it addresses. The write
    /// is clamped by that control's bounds; every other control and all
    /// bounds are left untouched.
    pub fn apply(&mut self, event: ControlEvent)
        requires
            old(self).wf(),
        ensures
            final(self).wf(),
            final(self).octaves.same_bounds(old(self).octaves),
            final(self).lacunarity.same_bounds(old(self).lacunarity),
            final(self).persistence.same_bounds(old(self).persistence),
            final(self).frequency.same_bounds(old(self).frequency),
            final(self).amplitude.same_bounds(old(self).amplitude),
            final(self).img_width.same_bounds(old(self).img_width),
            final(self).img_height.same_bounds(old(self).img_height),
            final(self).octaves.spec_val() == match event {
                ControlEvent::OctavesChanged(v) => spec_clamp(
                    v,
                    old(self).octaves.spec_min(),
                    old(self).octaves.spec_max(),
                ),
                _ => old(self).octaves.spec_val(),
            },
            final(self).lacunarity.spec_val() == match event {
                ControlEvent::LacunarityChanged(v) => spec_clamp(
                    v,
                    old(self).lacunarity.spec_min(),
                    old(self).lacunarity.spec_max(),
                ),
                _ => old(self).lacunarity.spec_val(),
            },
            final(self).persistence.spec_val() == match event {
                ControlEvent::PersistenceChanged(v) => spec_clamp(
                    v,
                    old(self).persistence.spec_min(),
                    old(self).persistence.spec_max(),
                ),
                _ => old(self).persistence.spec_val(),
            },
            final(self).frequency.spec_val() == match event {
                ControlEvent::FrequencyChanged(v) => spec_clamp(
                    v,
                    old(self).frequency.spec_min(),
                    old(self).frequency.spec_max(),
                ),
                _ => old(self).frequency.spec_val(),
            },
            final(self).amplitude.spec_val() == match event {
                ControlEvent::AmplitudeChanged(v) => spec_clamp(
                    v,
                    old(self).amplitude.spec_min(),
                    old(self).amplitude.spec_max(),
                ),
                _ => old(self).amplitude.spec_val(),
            },
            final(self).img_width.spec_val() == match event {
                ControlEvent::ImgWidthChanged(v) => spec_clamp(
                    v,
                    old(self).img_width.spec_min(),
                    old(self).img_width.spec_max(),
                ),
                _ => old(self).img_width.spec_val(),
            },
            final(self).img_height.spec_val() == match event {
                ControlEvent::ImgHeightChanged(v) => spec_clamp(
                    v,
                    old(self).img_height.spec_min(),
                    old(self).img_height.spec_max(),
                ),
                _ => old(self).img_height.spec_val(),
            },
    {
        match event {
            ControlEvent::OctavesChanged(v) => self.octaves.set(v),
            ControlEvent::LacunarityChanged(v) => self.lacunarity.set(v),
            ControlEvent::PersistenceChanged(v) => self.persistence.set(v),
            ControlEvent::FrequencyChanged(v) => self.frequency.set(v),
            ControlEvent::AmplitudeChanged(v) => self.amplitude.set(v),
            ControlEvent::ImgWidthChanged(v) => self.img_width.set(v),
            ControlEvent::ImgHeightChanged(v) => self.img_height.set(v),
        }
    }
}

impl Default for ParameterModel {
    /// The controls the interactive prototypes start from: 8 octaves,
    /// lacunarity 2.0, persistence 0.5, frequency 0.5, amplitude 0.5, and a
    /// 1000 by 600 pixel image.
    fn default() -> (r: ParameterModel)
        ensures
            r.wf(),
            r.octaves.spec_val() == 8 && r.octaves.spec_min() == 1 && r.octaves.spec_max() == 20
                && r.octaves.spec_step() == 1,
            r.lacunarity.spec_val() == 20 && r.lacunarity.spec_min() == 1
                && r.lacunarity.spec_max() == 40 && r.lacunarity.spec_step() == 1
                && r.lacunarity.spec_scale() == 10,
            r.persistence.spec_val() == 50 && r.persistence.spec_min() == 1
                && r.persistence.spec_max() == 100 && r.persistence.spec_step() == 1
                && r.persistence.spec_scale() == 100,
            r.frequency.spec_val() == 50 && r.frequency.spec_min() == 1
                && r.frequency.spec_max() == 10000 && r.frequency.spec_step() == 1
                && r.frequency.spec_scale() == 100,
            r.amplitude.spec_val() == 50 && r.amplitude.spec_min() == 1
                && r.amplitude.spec_max() == 1000 && r.amplitude.spec_step() == 1
                && r.amplitude.spec_scale() == 100,
            r.img_width.spec_val() == 1000 && r.img_width.spec_min() == 50
                && r.img_width.spec_max() == 2000 && r.img_width.spec_step() == 100,
            r.img_height.spec_val() == 600 && r.img_height.spec_min() == 50
                && r.img_height.spec_max() == 2000 && r.img_height.spec_step() == 100,
    {
        ParameterModel {
            octaves: BoundedParam::new(8, 1, 20, 1),
            lacunarity: ScaledBoundedParam::new(20, 1, 40, 1, 10),
            persistence: ScaledBoundedParam::new(50, 1, 100, 1, 100),
            frequency: ScaledBoundedParam::new(50, 1, 10000, 1, 100),
            amplitude: ScaledBoundedParam::new(50, 1, 1000, 1, 100),
            img_width: BoundedParam::new(1000, 50, 2000, 100),
            img_height: BoundedParam::new(600, 50, 2000, 100),
        }
    }
}

} // verus!
