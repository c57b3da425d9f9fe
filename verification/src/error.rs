//! Errors reported by the texture generator.

use vstd::prelude::*;

verus! {

/// Why a generation request was refused. Validation happens once, at the
/// entry of a generation run, before any allocation.
#[derive(Clone, Copy, Debug, PartialEq, Eq, Structural)]
pub enum GenError {
    /// A parameter is outside its accepted range: zero octaves, a zero
    /// dimension, a non-positive amplitude, or a quantity beyond the
    /// fixed-point cap.
    InvalidParameter,
    /// The requested buffer of `width * height * 4` bytes would exceed the
    /// configured allocation limit.
    AllocationTooLarge,
}

impl GenError {
    /// A short diagnostic label for the error.
    pub fn describe(&self) -> (r: &'static str)
        ensures
            self is InvalidParameter ==> r@ == "invalid parameter"@,
            self is AllocationTooLarge ==> r@ == "allocation too large"@,
    {
        match self {
            GenError::InvalidParameter => "invalid parameter",
            GenError::AllocationTooLarge => "allocation too large",
        }
    }
}

} // verus!
