//! The numeric type used for channel values: a signed decimal fixed-point
//! number with seven fractional digits.

use vstd::prelude::*;

verus! {

/// Number of fractional decimal digits a [`Fixed`] carries.
pub const FRAC_DIGITS: u32 = 7;

/// The denominator of a [`Fixed`]: `10` to the power [`FRAC_DIGITS`].
/// A `Fixed` with scaled representation `n` has the value `n / SCALE`.
pub const SCALE: i64 = 10_000_000;

/// A decimal number with exactly [`FRAC_DIGITS`] fractional digits,
/// stored as the integer `value * SCALE`. Its view is that integer.
#[derive(Clone, Copy, Debug, PartialEq, Eq, Structural)]
pub struct Fixed {
    units: i64,
}

impl View for Fixed {
    type V = int;

    closed spec fn view(&self) -> int {
        self.units as int
    }
}

impl Fixed {
    /// Builds the number `units / SCALE` from its scaled representation,
    /// e.g. one half from `SCALE / 2`.
    pub fn from_scaled(units: i64) -> (r: Fixed)
        ensures
            r@ == units,
    {
        Fixed { units }
    }

    /// The scaled representation: the value multiplied by [`SCALE`].
    pub fn scaled(&self) -> (r: i64)
        ensures
            r == self@,
    {
        self.units
    }
}

} // verus!
