//! Numeric helpers shared by the color-space value objects: clamping to a
//! closed interval, rounding to a decimal precision, and rendering a value
//! as a percentage string.

use vstd::prelude::*;

use vstd::arithmetic::div_mod::lemma_div_pos_is_pos;
use vstd::arithmetic::div_mod::lemma_mod_multiples_basic;
use vstd::arithmetic::div_mod::lemma_remainder;
use vstd::math::abs;

use crate::fixed::Fixed;
use crate::fixed::FRAC_DIGITS;
use crate::fixed::SCALE;

verus! {

/// What clamping means: `min` below the interval, `max` above it, the
/// value itself inside.
pub open spec fn spec_clamp(x: int, min: int, max: int) -> int {
    if x < min {
        min
    } else if x > max {
        max
    } else {
        x
    }
}

/// Clamps a value between `min` and `max`: returns `min` if `value < min`,
/// `max` if `value > max`, and `value` otherwise.
pub fn clamp(value: Fixed, min: Fixed, max: Fixed) -> (r: Fixed)
    ensures
        r@ == spec_clamp(value@, min@, max@),
{
    if value.scaled() < min.scaled() {
        return min;
    }
    if value.scaled() > max.scaled() {
        return max;
    }
    value
}

/// Law: clamping is total. Whenever `min <= max`, the clamped value lies in
/// `[min, max]`, and a value already in range is returned unchanged.
pub proof fn lemma_clamp_total(x: int, min: int, max: int)
    requires
        min <= max,
    ensures
        min <= spec_clamp(x, min, max) <= max,
        min <= x <= max ==> spec_clamp(x, min, max) == x,
{
}

/// Law: clamping is idempotent. Whenever `min <= max`, clamping a value a
/// second time with the same bounds changes nothing.
pub proof fn lemma_clamp_idempotent(x: int, min: int, max: int)
    requires
        min <= max,
    ensures
        spec_clamp(spec_clamp(x, min, max), min, max) == spec_clamp(x, min, max),
{
}

/// `10` to the power `e`.
pub open spec fn pow10(e: nat) -> nat
    decreases e,
{
    if e == 0 {
        1
    } else {
        10 * pow10((e - 1) as nat)
    }
}

/// `n` rounded to the nearest multiple of `m` (for positive, even `m`),
/// halves rounded away from zero.
pub open spec fn round_half_away(n: int, m: int) -> int {
    if n >= 0 {
        ((n + m / 2) / m) * m
    } else {
        -(((-n + m / 2) / m) * m)
    }
}

/// What rounding a scaled value to `precision` decimal places means: the
/// nearest multiple of `10^(FRAC_DIGITS - precision)`, halves rounded away
/// from zero. A precision of [`FRAC_DIGITS`] or more keeps every digit the
/// representation carries, so the value is unchanged.
pub open spec fn spec_round_to(n: int, precision: nat) -> int {
    if precision >= FRAC_DIGITS {
        n
    } else {
        round_half_away(n, pow10((FRAC_DIGITS - precision) as nat) as int)
    }
}

proof fn lemma_pow10_pos(e: nat)
    ensures
        pow10(e) >= 1,
    decreases e,
{
    if e > 0 {
        lemma_pow10_pos((e - 1) as nat);
    }
}

proof fn lemma_pow10_even(e: nat)
    requires
        e >= 1,
    ensures
        pow10(e) >= 10,
        pow10(e) % 2 == 0,
{
    lemma_pow10_pos((e - 1) as nat);
    let prev = pow10((e - 1) as nat) as int;
    assert(pow10(e) == 10 * prev);
    lemma_mod_multiples_basic(5 * prev, 2);
    assert(10 * prev == (5 * prev) * 2);
}

proof fn lemma_round_half_away_close(n: int, m: int)
    requires
        m >= 2,
        m % 2 == 0,
    ensures
        2 * abs(round_half_away(n, m) - n) <= m,
{
    lemma_mod_multiples_basic(m / 2, 2);
    assert(m == (m / 2) * 2);
    if n >= 0 {
        lemma_remainder(n + m / 2, m);
    } else {
        lemma_remainder(-n + m / 2, m);
    }
}

fn pow10_u64(e: u32) -> (r: u64)
    requires
        e <= FRAC_DIGITS,
    ensures
        r == pow10(e as nat),
        1 <= r <= SCALE,
{
    proof {
        reveal_with_fuel(pow10, 8);
    }
    match e {
        0 => 1,
        1 => 10,
        2 => 100,
        3 => 1_000,
        4 => 10_000,
        5 => 100_000,
        6 => 1_000_000,
        _ => 10_000_000,
    }
}

/// Rounds a number to the provided precision: the result is `value` rounded
/// to `precision` decimal places, halves rounded away from zero. Precisions
/// of [`FRAC_DIGITS`] and above leave the value unchanged, since the
/// representation carries no finer digits.
pub fn round_to(value: Fixed, precision: u32) -> (r: Fixed)
    requires
        value@ + SCALE / 2 <= i64::MAX,
        -(i64::MAX as int) + SCALE / 2 <= value@,
    ensures
        r@ == spec_round_to(value@, precision as nat),
{
    if precision >= FRAC_DIGITS {
        return value;
    }
    let m: u64 = pow10_u64(FRAC_DIGITS - precision);
    let half: u64 = m / 2;
    let n: i64 = value.scaled();
    if n >= 0 {
        let x: u64 = n as u64 + half;
        let q: u64 = x / m;
        proof {
            lemma_remainder(x as int, m as int);
            lemma_div_pos_is_pos(x as int, m as int);
        }
        Fixed::from_scaled((q * m) as i64)
    } else {
        let p: u64 = (-n) as u64;
        let x: u64 = p + half;
        let q: u64 = x / m;
        proof {
            lemma_remainder(x as int, m as int);
            lemma_div_pos_is_pos(x as int, m as int);
        }
        Fixed::from_scaled(-((q * m) as i64))
    }
}

/// Law: rounding stays close. For every scaled value and precision below
/// [`FRAC_DIGITS`], the rounded value differs from the unrounded one by at most
/// half a unit in the last kept decimal place; from [`FRAC_DIGITS`] on the
/// value is returned unchanged.
pub proof fn lemma_round_to_close(n: int, precision: nat)
    ensures
        precision < FRAC_DIGITS ==> 2 * abs(spec_round_to(n, precision) - n) <= pow10(
            (FRAC_DIGITS - precision) as nat,
        ),
        precision >= FRAC_DIGITS ==> spec_round_to(n, precision) == n,
{
    if precision < FRAC_DIGITS {
        let e = (FRAC_DIGITS - precision) as nat;
        lemma_pow10_even(e);
        lemma_round_half_away_close(n, pow10(e) as int);
    }
}

/// Number of scaled units per percent point: a value of `PCT_UNIT / SCALE`
/// is one hundredth, i.e. one percent.
pub const PCT_UNIT: u64 = 100_000;

/// Number of fractional decimal digits a percentage token can carry.
pub const PCT_FRAC_DIGITS: u32 = 5;

/// The decimal digit character for `d` in `0..=9`.
pub open spec fn digit_char(d: int) -> char {
    if d == 0 {
        '0'
    } else if d == 1 {
        '1'
    } else if d == 2 {
        '2'
    } else if d == 3 {
        '3'
    } else if d == 4 {
        '4'
    } else if d == 5 {
        '5'
    } else if d == 6 {
        '6'
    } else if d == 7 {
        '7'
    } else if d == 8 {
        '8'
    } else {
        '9'
    }
}

/// The decimal digits of `n`, most significant first, without leading
/// zeros (a single `0` for zero itself).
pub open spec fn spec_digits(n: nat) -> Seq<char>
    decreases n,
{
    if n < 10 {
        seq![digit_char(n as int)]
    } else {
        spec_digits(n / 10) + seq![digit_char((n % 10) as int)]
    }
}

/// The last `d` decimal digits of `f`, zero-padded to exactly `d` characters.
pub open spec fn pad_digits(f: nat, d: nat) -> Seq<char>
    decreases d,
{
    if d == 0 {
        Seq::<char>::empty()
    } else {
        pad_digits(f / 10, (d - 1) as nat).push(digit_char((f % 10) as int))
    }
}

/// The last `d` decimal digits of `f`, zero-padded to `d` characters and
/// then stripped of trailing zeros.
pub open spec fn trimmed_digits(f: nat, d: nat) -> Seq<char>
    decreases d,
{
    if d == 0 {
        Seq::<char>::empty()
    } else if f % 10 == 0 {
        trimmed_digits(f / 10, (d - 1) as nat)
    } else {
        pad_digits(f, d)
    }
}

/// The percentage token for a nonnegative scaled value `n`: the decimal
/// digits of `n / PCT_UNIT`, a fractional part only when `n % PCT_UNIT` is
/// not zero (a point followed by the fraction's digits with trailing zeros
/// trimmed), and a `%` sign.
pub open spec fn spec_percent(n: int) -> Seq<char> {
    spec_digits((n / (PCT_UNIT as int)) as nat) + (if n % (PCT_UNIT as int) == 0 {
        Seq::<char>::empty()
    } else {
        seq!['.'] + trimmed_digits((n % (PCT_UNIT as int)) as nat, PCT_FRAC_DIGITS as nat)
    }) + seq!['%']
}

fn digit_str(d: u64) -> (r: &'static str)
    requires
        d < 10,
    ensures
        r@ == seq![digit_char(d as int)],
{
    let r: &'static str = match d {
        0 => "0",
        1 => "1",
        2 => "2",
        3 => "3",
        4 => "4",
        5 => "5",
        6 => "6",
        7 => "7",
        8 => "8",
        _ => "9",
    };
    proof {
        reveal_strlit("0");
        reveal_strlit("1");
        reveal_strlit("2");
        reveal_strlit("3");
        reveal_strlit("4");
        reveal_strlit("5");
        reveal_strlit("6");
        reveal_strlit("7");
        reveal_strlit("8");
        reveal_strlit("9");
        assert(r@ =~= seq![digit_char(d as int)]);
    }
    r
}

fn push_digits(out: &mut String, n: u64)
    ensures
        final(out)@ == old(out)@ + spec_digits(n as nat),
    decreases n,
{
    if n >= 10 {
        push_digits(out, n / 10);
    }
    out.append(digit_str(n % 10));
    proof {
        assert(out@ =~= old(out)@ + spec_digits(n as nat));
    }
}

fn push_pad_digits(out: &mut String, f: u64, d: u32)
    ensures
        final(out)@ == old(out)@ + pad_digits(f as nat, d as nat),
    decreases d,
{
    if d == 0 {
        proof {
            assert(out@ =~= old(out)@ + pad_digits(f as nat, 0));
        }
        return;
    }
    push_pad_digits(out, f / 10, d - 1);
    out.append(digit_str(f % 10));
    proof {
        assert(out@ =~= old(out)@ + pad_digits(f as nat, d as nat));
    }
}

/// Renders a nonnegative value as a CSS percentage token: the value times
/// `100`, written in decimal with trailing fractional zeros trimmed (and no
/// decimal point at all when the fraction is zero), followed by `%`.
pub fn as_percentage(value: Fixed) -> (r: String)
    requires
        0 <= value@,
    ensures
        r@ == spec_percent(value@),
{
    let u: u64 = value.scaled() as u64;
    let whole: u64 = u / PCT_UNIT;
    let mut out = String::new();
    push_digits(&mut out, whole);
    let mut frac: u64 = u % PCT_UNIT;
    let ghost frac0 = frac as nat;
    if frac != 0 {
        proof {
            reveal_strlit(".");
        }
        out.append(".");
        let mut d: u32 = PCT_FRAC_DIGITS;
        proof {
            reveal_with_fuel(pow10, 6);
        }
        while frac % 10 == 0
            invariant
                1 <= d <= PCT_FRAC_DIGITS,
                0 < frac < pow10(d as nat),
                trimmed_digits(frac0, PCT_FRAC_DIGITS as nat) == trimmed_digits(
                    frac as nat,
                    d as nat,
                ),
            decreases d,
        {
            frac = frac / 10;
            d = d - 1;
            proof {
                lemma_pow10_pos(d as nat);
            }
        }
        push_pad_digits(&mut out, frac, d);
        proof {
            assert(trimmed_digits(frac as nat, d as nat) == pad_digits(frac as nat, d as nat));
        }
    }
    proof {
        reveal_strlit("%");
    }
    out.append("%");
    proof {
        assert(out@ =~= spec_percent(value@));
    }
    out
}

} // verus!
