//! Units and rounding. Measurements are held as whole tenths of their unit
//! (5.4 °C is `54`); a forecast gives them to one decimal.
use vstd::prelude::*;

use crate::cli::TempFormat;
use crate::text::{decimal, digit_char, digits, push_char, push_digits, push_int, push_str};

verus! {

/// `n / d` rounded to the nearest integer, halves away from zero.
pub open spec fn round_half_away(n: int, d: int) -> int
    recommends
        d > 0,
{
    if n >= 0 {
        (2 * n + d) / (2 * d)
    } else {
        -((-2 * n + d) / (2 * d))
    }
}

/// `n / d` rounded to the nearest integer, halves to the even neighbour.
pub open spec fn round_half_even(n: int, d: int) -> int
    recommends
        d > 0,
{
    let q = n / d;
    let r = n % d;
    if 2 * r < d {
        q
    } else if 2 * r > d {
        q + 1
    } else if q % 2 == 0 {
        q
    } else {
        q + 1
    }
}

/// A temperature in tenths of a degree Celsius, in hundredths of a degree
/// Fahrenheit: `c * 9/5 + 32`, exactly.
pub open spec fn fahrenheit_hundredths(tenths_c: int) -> int {
    18 * tenths_c + 3200
}

/// The whole degrees shown for a temperature of `tenths_c` tenths of a
/// degree Celsius: converted first, rounded last.
pub open spec fn shown_degrees(tenths_c: int, format: TempFormat) -> int {
    match format {
        TempFormat::Celsius => round_half_away(tenths_c, 10),
        TempFormat::Fahrenheit => round_half_away(fahrenheit_hundredths(tenths_c), 100),
    }
}

/// The unit suffix of a temperature.
pub open spec fn degree_suffix(format: TempFormat) -> Seq<char> {
    match format {
        TempFormat::Celsius => "°C"@,
        TempFormat::Fahrenheit => "°F"@,
    }
}

/// A temperature with its unit, as in "5°C".
pub open spec fn temp_text(tenths_c: int, format: TempFormat) -> Seq<char> {
    decimal(shown_degrees(tenths_c, format)) + degree_suffix(format)
}

/// A value in tenths shown with no decimals, as `{:.0}` shows a float: the
/// sign of the value, then its magnitude rounded halves to even.
pub open spec fn whole_text(tenths: int) -> Seq<char> {
    if tenths < 0 {
        seq!['-'] + digits(round_half_even(-tenths, 10) as nat)
    } else {
        digits(round_half_even(tenths, 10) as nat)
    }
}

/// A value in tenths shown with one decimal, as in "0.3" or "-1.5".
pub open spec fn tenths_text(tenths: int) -> Seq<char> {
    let m = if tenths < 0 { -tenths } else { tenths };
    let body = digits((m / 10) as nat) + seq!['.', digit_char((m % 10) as nat)];
    if tenths < 0 {
        seq!['-'] + body
    } else {
        body
    }
}

/// Celsius in tenths of a degree to Fahrenheit in hundredths of a degree.
pub fn celsius_to_fahrenheit(tenths_c: i32) -> (r: i64)
    ensures
        r == fahrenheit_hundredths(tenths_c as int),
{
    18 * (tenths_c as i64) + 3200
}

/// `n / d` rounded halves away from zero.
fn rounded_div(n: i64, d: i64) -> (r: i64)
    requires
        0 < d <= 100,
        -1_000_000_000_000 <= n <= 1_000_000_000_000,
    ensures
        r == round_half_away(n as int, d as int),
{
    if n >= 0 {
        (2 * n + d) / (2 * d)
    } else {
        let m: i64 = 0 - n;
        0 - (2 * m + d) / (2 * d)
    }
}

/// The whole degrees shown for a temperature in tenths of a degree Celsius.
pub fn format_temp_short(tenths_c: i32, format: TempFormat) -> (r: i64)
    ensures
        r == shown_degrees(tenths_c as int, format),
{
    match format {
        TempFormat::Celsius => rounded_div(tenths_c as i64, 10),
        TempFormat::Fahrenheit => rounded_div(celsius_to_fahrenheit(tenths_c), 100),
    }
}

/// A temperature with its unit, as in "5°C" or "41°F".
pub fn format_temp(tenths_c: i32, format: TempFormat) -> (r: String)
    ensures
        r@ == temp_text(tenths_c as int, format),
{
    let mut r = String::new();
    push_int(&mut r, format_temp_short(tenths_c, format));
    match format {
        TempFormat::Celsius => push_str(&mut r, "°C"),
        TempFormat::Fahrenheit => push_str(&mut r, "°F"),
    }
    r
}

/// `m / 10` rounded halves to even, for `m >= 0`.
fn half_even_tenths(m: u64) -> (r: u64)
    requires
        m <= 10_000_000_000,
    ensures
        r == round_half_even(m as int, 10),
{
    let q = m / 10;
    let rem = m % 10;
    if rem < 5 {
        q
    } else if rem > 5 {
        q + 1
    } else if q % 2 == 0 {
        q
    } else {
        q + 1
    }
}

/// Appends a value in tenths with no decimals.
pub fn push_whole(out: &mut String, tenths: i32)
    ensures
        final(out)@ == old(out)@ + whole_text(tenths as int),
{
    if tenths < 0 {
        push_char(out, '-');
        let m: u64 = (0i64 - tenths as i64) as u64;
        push_digits(out, half_even_tenths(m));
        assert(final(out)@ =~= old(out)@ + whole_text(tenths as int));
    } else {
        push_digits(out, half_even_tenths(tenths as u64));
    }
}

/// Appends a value in tenths with one decimal.
pub fn push_tenths(out: &mut String, tenths: i32)
    ensures
        final(out)@ == old(out)@ + tenths_text(tenths as int),
{
    let m: u64 = if tenths < 0 {
        push_char(out, '-');
        (0i64 - tenths as i64) as u64
    } else {
        tenths as u64
    };
    push_digits(out, m / 10);
    push_char(out, '.');
    let d: u8 = (m % 10) as u8;
    push_char(out, (d + 48) as char);
    assert(final(out)@ =~= old(out)@ + tenths_text(tenths as int));
}

/// The rounded Fahrenheit temperature is the integer nearest to `c * 9/5 + 32`,
/// a half going away from zero.
pub proof fn lemma_fahrenheit_nearest(tenths_c: int)
    ensures
        ({
            let exact = fahrenheit_hundredths(tenths_c);
            let r = shown_degrees(tenths_c, TempFormat::Fahrenheit);
            &&& -50 <= 100 * r - exact <= 50
            &&& 100 * r - exact == 50 ==> exact > 0
            &&& 100 * r - exact == -50 ==> exact < 0
        }),
{
    let exact = fahrenheit_hundredths(tenths_c);
    let a = if exact >= 0 { 2 * exact + 100 } else { -2 * exact + 100 };
    let q = a / 200;
    assert(0 <= a - 200 * q < 200) by (nonlinear_arith)
        requires
            q == a / 200,
            a >= 0,
    ;
}

} // verus!
