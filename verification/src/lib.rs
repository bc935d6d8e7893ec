//! A small color-representation library.
//!
//! Colors are points in one of two color spaces: sRGB (red, green, blue
//! channels, each a percentage) or OKLab (a lightness axis and two chroma
//! axes). Every channel is optional: an absent channel is a distinct state,
//! kept for future color blending. Construction normalizes all provided
//! values — out-of-range input is clamped, never rejected — and an sRGB
//! color can be rendered as a CSS `rgb(...)` percentage string.
//!
//! Channel values are decimal fixed-point numbers ([`fixed::Fixed`]) with
//! seven fractional digits, which makes clamping, precision rounding and
//! percentage formatting exact.

pub mod color_space;
pub mod fixed;
pub mod helpers;
pub mod rgb;
