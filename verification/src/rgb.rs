//! The sRGB percentage formatter: wraps one sRGB color and renders it in
//! the CSS `rgb()` functional notation with percentage values.

use vstd::prelude::*;

use crate::color_space::clamped_opt;
use crate::color_space::units_opt;
use crate::color_space::SRgbSpace;
use crate::fixed::Fixed;
use crate::fixed::SCALE;
use crate::helpers::as_percentage;
use crate::helpers::spec_percent;

verus! {

/// The token rendered for one color channel: the literal `none` when the
/// channel is absent, its percentage otherwise.
pub open spec fn channel_token(c: Option<Fixed>) -> Seq<char> {
    match c {
        Option::None => "none"@,
        Option::Some(v) => spec_percent(v@),
    }
}

/// The CSS `rgb()` functional notation of a color: `rgb(` followed by the
/// three color channel tokens separated by single spaces, then — only when
/// alpha is present — one space and the alpha percentage, then `)`.
pub open spec fn css_of(s: SRgbSpace) -> Seq<char> {
    "rgb("@ + channel_token(s.red) + " "@ + channel_token(s.green) + " "@ + channel_token(s.blue)
        + (match s.alpha {
        Option::None => Seq::<char>::empty(),
        Option::Some(v) => " "@ + spec_percent(v@),
    }) + ")"@
}

/// An sRGB color together with its CSS rendering.
pub struct Rgb {
    color_space: SRgbSpace,
}

fn push_channel(out: &mut String, c: &Option<Fixed>)
    requires
        c matches Option::Some(v) ==> 0 <= v@,
    ensures
        final(out)@ == old(out)@ + channel_token(*c),
{
    match c {
        Option::None => {
            proof {
                reveal_strlit("none");
            }
            out.append("none");
        },
        Option::Some(v) => {
            let p = as_percentage(*v);
            out.append(p.as_str());
        },
    }
}

impl Rgb {
    /// The wrapped color.
    pub closed spec fn view(&self) -> SRgbSpace {
        self.color_space
    }

    /// Builds the formatter around a new sRGB color, with the same
    /// normalization as the color's own constructor: each present channel
    /// is clamped to `[0, 1]`, absent channels stay absent.
    pub fn new(r: Option<Fixed>, g: Option<Fixed>, b: Option<Fixed>, a: Option<Fixed>) -> (rgb:
        Rgb)
        ensures
            units_opt(rgb@.red) == clamped_opt(r, 0, SCALE as int),
            units_opt(rgb@.green) == clamped_opt(g, 0, SCALE as int),
            units_opt(rgb@.blue) == clamped_opt(b, 0, SCALE as int),
            units_opt(rgb@.alpha) == clamped_opt(a, 0, SCALE as int),
            rgb@.wf(),
    {
        Rgb { color_space: SRgbSpace::new(r, g, b, a) }
    }

    /// Renders the wrapped color in the CSS `rgb()` percentage notation:
    /// each color channel as a percentage or the literal `none`, the alpha
    /// segment (a space and a percentage) present exactly when alpha is.
    pub fn css_as_percentage(&self) -> (r: String)
        requires
            self@.wf(),
        ensures
            r@ == css_of(self@),
    {
        let mut out = "rgb(".to_owned();
        push_channel(&mut out, &self.color_space.red);
        proof {
            reveal_strlit(" ");
        }
        out.append(" ");
        push_channel(&mut out, &self.color_space.green);
        out.append(" ");
        push_channel(&mut out, &self.color_space.blue);
        match &self.color_space.alpha {
            Option::None => {},
            Option::Some(v) => {
                out.append(" ");
                let p = as_percentage(*v);
                out.append(p.as_str());
            },
        }
        proof {
            reveal_strlit("rgb(");
            reveal_strlit(")");
        }
        out.append(")");
        proof {
            assert(out@ =~= css_of(self@));
        }
        out
    }
}

} // verus!
