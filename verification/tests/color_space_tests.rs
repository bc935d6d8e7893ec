use rusty_colors::color_space::LabSpace;
use rusty_colors::color_space::SRgbSpace;
use rusty_colors::fixed::Fixed;

fn fx(units: i64) -> Fixed {
    Fixed::from_scaled(units)
}

#[test]
fn srgb_clamps_channel_below_zero_to_zero() {
    let c = SRgbSpace::new(Some(fx(-10_000_000)), None, None, None);
    assert_eq!(c.red, Some(fx(0)));
}

#[test]
fn srgb_clamps_channel_above_one_to_one() {
    let c = SRgbSpace::new(Some(fx(20_000_000)), None, None, None);
    assert_eq!(c.red, Some(fx(10_000_000)));
}

#[test]
fn srgb_keeps_channel_already_in_range() {
    let c = SRgbSpace::new(Some(fx(5_000_000)), None, None, None);
    assert_eq!(c.red, Some(fx(5_000_000)));
}

#[test]
fn srgb_keeps_absent_channel_absent() {
    let c = SRgbSpace::new(None, Some(fx(5_000_000)), None, None);
    assert_eq!(c.red, None);
    assert_eq!(c.blue, None);
    assert_eq!(c.alpha, None);
}

#[test]
fn srgb_normalizes_every_channel() {
    let c = SRgbSpace::new(
        Some(fx(-1)),
        Some(fx(10_000_001)),
        Some(fx(7_500_000)),
        Some(fx(15_000_000)),
    );
    assert_eq!(c.red, Some(fx(0)));
    assert_eq!(c.green, Some(fx(10_000_000)));
    assert_eq!(c.blue, Some(fx(7_500_000)));
    assert_eq!(c.alpha, Some(fx(10_000_000)));
}

#[test]
fn lab_clamps_lightness_above_four_to_four() {
    let c = LabSpace::new(Some(fx(50_000_000)), None, None, None);
    assert_eq!(c.l, Some(fx(40_000_000)));
}

#[test]
fn lab_clamps_lightness_below_zero_to_zero() {
    let c = LabSpace::new(Some(fx(-10_000_000)), None, None, None);
    assert_eq!(c.l, Some(fx(0)));
}

#[test]
fn lab_rounds_lightness_to_its_precision() {
    let c = LabSpace::new(Some(fx(12_345_678)), None, None, None);
    assert_eq!(c.l, Some(fx(12_345_700)));
    let c = LabSpace::new(Some(fx(12_345_649)), None, None, None);
    assert_eq!(c.l, Some(fx(12_345_600)));
}

#[test]
fn lab_clamps_chroma_axes_to_one_half() {
    let c = LabSpace::new(None, Some(fx(7_500_000)), Some(fx(-7_500_000)), None);
    assert_eq!(c.a, Some(fx(5_000_000)));
    assert_eq!(c.b, Some(fx(-5_000_000)));
}

#[test]
fn lab_keeps_chroma_axes_already_in_range() {
    let c = LabSpace::new(None, Some(fx(1_234_500)), Some(fx(-1_234_500)), None);
    assert_eq!(c.a, Some(fx(1_234_500)));
    assert_eq!(c.b, Some(fx(-1_234_500)));
}

#[test]
fn lab_clamps_alpha_to_one() {
    let c = LabSpace::new(None, None, None, Some(fx(15_000_000)));
    assert_eq!(c.alpha, Some(fx(10_000_000)));
}

#[test]
fn lab_keeps_absent_channels_absent() {
    let c = LabSpace::new(None, None, None, None);
    assert_eq!(c.l, None);
    assert_eq!(c.a, None);
    assert_eq!(c.b, None);
    assert_eq!(c.alpha, None);
}
