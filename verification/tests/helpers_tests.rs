use rusty_colors::fixed::Fixed;
use rusty_colors::helpers::as_percentage;
use rusty_colors::helpers::clamp;
use rusty_colors::helpers::round_to;

fn fx(units: i64) -> Fixed {
    Fixed::from_scaled(units)
}

#[test]
fn clamp_returns_min_when_value_less_than_min() {
    let val = clamp(fx(-10_000_000), fx(0), fx(10_000_000));
    assert_eq!(val, fx(0));
}

#[test]
fn clamp_returns_max_when_value_greater_than_max() {
    let val = clamp(fx(20_000_000), fx(0), fx(10_000_000));
    assert_eq!(val, fx(10_000_000));
}

#[test]
fn clamp_returns_value_when_value_between_min_and_max() {
    let val = clamp(fx(10_000_000), fx(0), fx(20_000_000));
    assert_eq!(val, fx(10_000_000));
}

#[test]
fn clamp_returns_bound_when_bounds_are_equal() {
    let val = clamp(fx(3_000_000), fx(10_000_000), fx(10_000_000));
    assert_eq!(val, fx(10_000_000));
}

#[test]
fn round_to_rounds_up_last_digit_when_expected() {
    let val = round_to(fx(12_345_000), 3);
    assert_eq!(val, fx(12_350_000));
}

#[test]
fn round_to_rounds_leaves_last_digit_unchanged_when_expected() {
    let val = round_to(fx(12_344_000), 3);
    assert_eq!(val, fx(12_340_000));
}

#[test]
fn round_to_returns_values_unmodified_when_expected() {
    let val = round_to(fx(12_340_000), 3);
    assert_eq!(val, fx(12_340_000));
}

#[test]
fn round_to_does_not_return_insignificant_digits() {
    let val = round_to(fx(12_300_000), 10);
    assert_eq!(val, fx(12_300_000));
}

#[test]
fn round_to_rounds_halves_away_from_zero() {
    assert_eq!(round_to(fx(15_000_000), 0), fx(20_000_000));
    assert_eq!(round_to(fx(-15_000_000), 0), fx(-20_000_000));
}

#[test]
fn round_to_rounds_negative_values_by_magnitude() {
    let val = round_to(fx(-12_345_000), 3);
    assert_eq!(val, fx(-12_350_000));
}

#[test]
fn as_percentage_formats_whole_percentages_without_fraction() {
    assert_eq!(as_percentage(fx(5_000_000)), "50%");
    assert_eq!(as_percentage(fx(10_000_000)), "100%");
    assert_eq!(as_percentage(fx(0)), "0%");
}

#[test]
fn as_percentage_trims_trailing_fraction_zeros() {
    assert_eq!(as_percentage(fx(2_550_000)), "25.5%");
}

#[test]
fn as_percentage_keeps_all_significant_fraction_digits() {
    assert_eq!(as_percentage(fx(12_345)), "0.12345%");
}

#[test]
fn fixed_keeps_its_scaled_representation() {
    assert_eq!(fx(42).scaled(), 42);
    assert_eq!(fx(-42).scaled(), -42);
}
