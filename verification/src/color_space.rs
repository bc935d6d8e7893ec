//! Color-space value objects: an sRGB triplet and an OKLab point, each with
//! an optional alpha channel. Every channel is optional — an absent channel
//! is kept as such for future color blending — and every present channel is
//! normalized at construction time by clamping (and, for the OKLab
//! lightness, precision rounding). Out-of-range input is never rejected.

use vstd::prelude::*;

use vstd::arithmetic::div_mod::lemma_div_is_ordered;
use vstd::arithmetic::div_mod::lemma_div_pos_is_pos;
use vstd::arithmetic::div_mod::lemma_mod_multiples_basic;

use crate::fixed::Fixed;
use crate::fixed::SCALE;
use crate::helpers::clamp;
use crate::helpers::pow10;
use crate::helpers::round_to;
use crate::helpers::spec_clamp;
use crate::helpers::spec_round_to;

verus! {

/// Upper bound of the OKLab lightness channel: `L_LIMIT / SCALE` is `4`.
/// Values above `1` (100%) are permitted for headroom on HDR devices.
pub const L_LIMIT: i64 = 40_000_000;

/// Decimal places the OKLab lightness is rounded to: `3` places of the
/// percentage (`0` – `400`) scale, i.e. `5` places of the `0` – `4` scale.
pub const L_PRECISION: u32 = 5;

/// Bound of the OKLab chroma axes: `AXIS_LIMIT / SCALE` is one half.
/// In practice the axes do not exceed that magnitude.
pub const AXIS_LIMIT: i64 = 5_000_000;

/// The scaled representation of an optional channel value.
pub open spec fn units_opt(c: Option<Fixed>) -> Option<int> {
    match c {
        Option::None => Option::None,
        Option::Some(v) => Option::Some(v@),
    }
}

/// What construction does to one optional channel: a present value is
/// clamped to `[lo, hi]`, an absent one stays absent.
pub open spec fn clamped_opt(c: Option<Fixed>, lo: int, hi: int) -> Option<int> {
    match c {
        Option::None => Option::None,
        Option::Some(v) => Option::Some(spec_clamp(v@, lo, hi)),
    }
}

/// What construction does to the lightness channel: clamp to
/// `[0, L_LIMIT]`, then round to `L_PRECISION` decimal places.
pub open spec fn normalized_l(l: Option<Fixed>) -> Option<int> {
    match l {
        Option::None => Option::None,
        Option::Some(v) => Option::Some(
            spec_round_to(spec_clamp(v@, 0, L_LIMIT as int), L_PRECISION as nat),
        ),
    }
}

/// A point in the sRGB color space: a triplet of percentage values (red,
/// green, blue), plus an optional alpha channel percentage. An omitted
/// alpha channel is assumed to be 100%.
///
/// All color channel values are optional to account for color blending:
/// when blended with another color, the omitted channel values are to be
/// taken from the corresponding channels of the other color.
pub struct SRgbSpace {
    /// The red channel, a percentage between `0` and `1` when present.
    /// A present value outside that range is clamped at construction.
    pub red: Option<Fixed>,
    /// The green channel, a percentage between `0` and `1` when present.
    /// A present value outside that range is clamped at construction.
    pub green: Option<Fixed>,
    /// The blue channel, a percentage between `0` and `1` when present.
    /// A present value outside that range is clamped at construction.
    pub blue: Option<Fixed>,
    /// The alpha channel, a percentage between `0` and `1` when present.
    /// A present value outside that range is clamped at construction.
    pub alpha: Option<Fixed>,
}

fn clamp_unit(c: Option<Fixed>) -> (r: Option<Fixed>)
    ensures
        units_opt(r) == clamped_opt(c, 0, SCALE as int),
{
    match c {
        Option::Some(v) => Option::Some(clamp(v, Fixed::from_scaled(0), Fixed::from_scaled(SCALE))),
        Option::None => Option::None,
    }
}

impl SRgbSpace {
    /// The construction invariant: every present channel lies in `[0, 1]`,
    /// i.e. its scaled representation lies in `[0, SCALE]`.
    pub open spec fn wf(&self) -> bool {
        &&& (self.red matches Option::Some(v) ==> 0 <= v@ <= SCALE)
        &&& (self.green matches Option::Some(v) ==> 0 <= v@ <= SCALE)
        &&& (self.blue matches Option::Some(v) ==> 0 <= v@ <= SCALE)
        &&& (self.alpha matches Option::Some(v) ==> 0 <= v@ <= SCALE)
    }

    /// Builds an sRGB color. Each present channel is clamped to `[0, 1]`;
    /// absent channels are preserved as absent.
    pub fn new(
        red: Option<Fixed>,
        green: Option<Fixed>,
        blue: Option<Fixed>,
        alpha: Option<Fixed>,
    ) -> (r: SRgbSpace)
        ensures
            units_opt(r.red) == clamped_opt(red, 0, SCALE as int),
            units_opt(r.green) == clamped_opt(green, 0, SCALE as int),
            units_opt(r.blue) == clamped_opt(blue, 0, SCALE as int),
            units_opt(r.alpha) == clamped_opt(alpha, 0, SCALE as int),
            r.wf(),
    {
        let red = clamp_unit(red);
        let green = clamp_unit(green);
        let blue = clamp_unit(blue);
        let alpha = clamp_unit(alpha);
        SRgbSpace { red, green, blue, alpha }
    }
}

/// A point in the OKLab color space: a device-independent, perceptually
/// uniform rectangular coordinate system with a central lightness axis and
/// two chroma axes (`a`, red/green; `b`, yellow/blue).
///
/// The lightness and chroma values are optional to allow for color
/// blending: an omitted value is to be taken from the other color of the
/// blend. An omitted alpha channel is treated as 100%.
pub struct LabSpace {
    /// The lightness axis. Clamped to `[0, 4]` at construction and rounded
    /// to `L_PRECISION` decimal places; values above `1` (100%) are
    /// permitted for forwards compatibility with HDR devices.
    pub l: Option<Fixed>,
    /// The red/green chroma axis: positive toward purplish red, negative
    /// toward green. Clamped to one half in magnitude at construction.
    pub a: Option<Fixed>,
    /// The yellow/blue chroma axis: positive toward yellow, negative
    /// toward blue. Clamped to one half in magnitude at construction.
    pub b: Option<Fixed>,
    /// The alpha channel, a percentage between `0` and `1` when present.
    /// A present value outside that range is clamped at construction.
    pub alpha: Option<Fixed>,
}

fn clamp_axis(c: Option<Fixed>) -> (r: Option<Fixed>)
    ensures
        units_opt(r) == clamped_opt(c, -AXIS_LIMIT as int, AXIS_LIMIT as int),
{
    match c {
        Option::Some(v) => Option::Some(
            clamp(v, Fixed::from_scaled(-AXIS_LIMIT), Fixed::from_scaled(AXIS_LIMIT)),
        ),
        Option::None => Option::None,
    }
}

/// The lightness value after construction lies in `[0, L_LIMIT]` and is a
/// multiple of the rounding grain `10^(FRAC_DIGITS - L_PRECISION)`.
proof fn lemma_normalized_l_bounds(n: int)
    requires
        0 <= n <= L_LIMIT,
    ensures
        0 <= spec_round_to(n, L_PRECISION as nat) <= L_LIMIT,
        spec_round_to(n, L_PRECISION as nat) % 100 == 0,
{
    reveal_with_fuel(pow10, 3);
    let q = (n + 50) / 100;
    lemma_div_pos_is_pos(n + 50, 100);
    lemma_mod_multiples_basic(q, 100);
    lemma_div_is_ordered(n + 50, L_LIMIT + 50, 100);
}

impl LabSpace {
    /// The construction invariant: a present lightness lies in `[0, 4]`
    /// on the rounding grid, present chroma axes lie within one half in
    /// magnitude, and a present alpha lies in `[0, 1]`.
    pub open spec fn wf(&self) -> bool {
        &&& (self.l matches Option::Some(v) ==> 0 <= v@ <= L_LIMIT && v@ % 100 == 0)
        &&& (self.a matches Option::Some(v) ==> -AXIS_LIMIT <= v@ <= AXIS_LIMIT)
        &&& (self.b matches Option::Some(v) ==> -AXIS_LIMIT <= v@ <= AXIS_LIMIT)
        &&& (self.alpha matches Option::Some(v) ==> 0 <= v@ <= SCALE)
    }

    /// Builds an OKLab color. A present lightness is clamped to `[0, 4]`
    /// and rounded to `L_PRECISION` decimal places; present chroma axes are
    /// clamped to one half in magnitude; a present alpha is clamped to
    /// `[0, 1]`. Absent channels are preserved as absent.
    pub fn new(
        l: Option<Fixed>,
        a: Option<Fixed>,
        b: Option<Fixed>,
        alpha: Option<Fixed>,
    ) -> (r: LabSpace)
        ensures
            units_opt(r.l) == normalized_l(l),
            units_opt(r.a) == clamped_opt(a, -AXIS_LIMIT as int, AXIS_LIMIT as int),
            units_opt(r.b) == clamped_opt(b, -AXIS_LIMIT as int, AXIS_LIMIT as int),
            units_opt(r.alpha) == clamped_opt(alpha, 0, SCALE as int),
            r.wf(),
    {
        let l = match l {
            Option::Some(v) => {
                let c = clamp(v, Fixed::from_scaled(0), Fixed::from_scaled(L_LIMIT));
                proof {
                    lemma_normalized_l_bounds(c@);
                }
                Option::Some(round_to(c, L_PRECISION))
            },
            Option::None => Option::None,
        };
        let a = clamp_axis(a);
        let b = clamp_axis(b);
        let alpha = clamp_unit(alpha);
        LabSpace { l, a, b, alpha }
    }
}

} // verus!
