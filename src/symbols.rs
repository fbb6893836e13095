//! Symbol codes: the suffix that marks the time of day, the icon of a code
//! and its CSS class.
use vstd::prelude::*;

use crate::text::{chars_of, contains, contains_str, ends_with, has_suffix, matches_at};

verus! {

/// The icon shown for a code with no entry in the icon table.
pub open spec fn fallback_icon() -> Seq<char> {
    "\u{1f321}\u{fe0f}"@
}

/// The code without one trailing `_day`, `_night` or `_polartwilight`,
/// checked in that order; at most one suffix is removed.
pub open spec fn base_code(s: Seq<char>) -> Seq<char> {
    if has_suffix(s, "_day"@) {
        s.subrange(0, s.len() - "_day"@.len())
    } else if has_suffix(s, "_night"@) {
        s.subrange(0, s.len() - "_night"@.len())
    } else if has_suffix(s, "_polartwilight"@) {
        s.subrange(0, s.len() - "_polartwilight"@.len())
    } else {
        s
    }
}

/// The icon table: base codes and their glyphs, searched in order.
pub open spec fn icon_table() -> Seq<(Seq<char>, Seq<char>)> {
    seq![
        ("clearsky"@, "☀️"@),
        ("fair"@, "🌤️"@),
        ("partlycloudy"@, "⛅"@),
        ("cloudy"@, "☁️"@),
        ("fog"@, "🌫️"@),
        ("lightrainshowers"@, "🌦️"@),
        ("rainshowers"@, "🌦️"@),
        ("heavyrainshowers"@, "🌧️"@),
        ("lightrain"@, "🌧️"@),
        ("rain"@, "🌧️"@),
        ("heavyrain"@, "🌧️"@),
        ("lightsleetshowers"@, "🌨️"@),
        ("sleetshowers"@, "🌨️"@),
        ("heavysleetshowers"@, "🌨️"@),
        ("lightsleet"@, "🌨️"@),
        ("sleet"@, "🌨️"@),
        ("heavysleet"@, "🌨️"@),
        ("lightsnowshowers"@, "🌨️"@),
        ("snowshowers"@, "🌨️"@),
        ("heavysnowshowers"@, "❄️"@),
        ("lightsnow"@, "🌨️"@),
        ("snow"@, "❄️"@),
        ("heavysnow"@, "❄️"@),
        ("lightrainshowersandthunder"@, "⛈️"@),
        ("rainshowersandthunder"@, "⛈️"@),
        ("heavyrainshowersandthunder"@, "⛈️"@),
        ("lightrainandthunder"@, "⛈️"@),
        ("rainandthunder"@, "⛈️"@),
        ("heavyrainandthunder"@, "⛈️"@),
        ("lightsleetshowersandthunder"@, "⛈️"@),
        ("sleetshowersandthunder"@, "⛈️"@),
        ("heavysleetshowersandthunder"@, "⛈️"@),
        ("lightsleetandthunder"@, "⛈️"@),
        ("sleetandthunder"@, "⛈️"@),
        ("heavysleetandthunder"@, "⛈️"@),
        ("lightssnowshowersandthunder"@, "⛈️"@),
        ("snowshowersandthunder"@, "⛈️"@),
        ("heavysnowshowersandthunder"@, "⛈️"@),
        ("lightsnowandthunder"@, "⛈️"@),
        ("snowandthunder"@, "⛈️"@),
        ("heavysnowandthunder"@, "⛈️"@),
    ]
}

/// The glyph of the first table row at or after `i` whose code is `code`.
pub open spec fn icon_from(t: Seq<(Seq<char>, Seq<char>)>, code: Seq<char>, i: int) -> Seq<char>
    decreases t.len() - i,
{
    if i < 0 || i >= t.len() {
        fallback_icon()
    } else if t[i].0 == code {
        t[i].1
    } else {
        icon_from(t, code, i + 1)
    }
}

/// The icon of a symbol code: an exact match of its base code in the table.
pub open spec fn icon_of(code: Seq<char>) -> Seq<char> {
    icon_from(icon_table(), base_code(code), 0)
}

/// The CSS class of a symbol code: the first category, in a fixed order,
/// whose keyword occurs in the base code.
pub open spec fn class_of(code: Seq<char>) -> Seq<char> {
    let b = base_code(code);
    if contains(b, "clearsky"@) {
        "clear"@
    } else if contains(b, "fair"@) {
        "fair"@
    } else if contains(b, "cloudy"@) {
        "cloudy"@
    } else if contains(b, "rain"@) || contains(b, "sleet"@) {
        "rain"@
    } else if contains(b, "snow"@) {
        "snow"@
    } else if contains(b, "thunder"@) {
        "thunder"@
    } else if contains(b, "fog"@) {
        "fog"@
    } else {
        "weather"@
    }
}

/// The rows of the icon table.
fn icon_entries() -> (r: Vec<(&'static str, &'static str)>)
    ensures
        r@.len() == icon_table().len(),
        forall|i: int|
            0 <= i < r@.len() ==> (#[trigger] r@[i]).0@ == icon_table()[i].0 && r@[i].1@
                == icon_table()[i].1,
{
    let r = vec![
        ("clearsky", "☀️"),
        ("fair", "🌤️"),
        ("partlycloudy", "⛅"),
        ("cloudy", "☁️"),
        ("fog", "🌫️"),
        ("lightrainshowers", "🌦️"),
        ("rainshowers", "🌦️"),
        ("heavyrainshowers", "🌧️"),
        ("lightrain", "🌧️"),
        ("rain", "🌧️"),
        ("heavyrain", "🌧️"),
        ("lightsleetshowers", "🌨️"),
        ("sleetshowers", "🌨️"),
        ("heavysleetshowers", "🌨️"),
        ("lightsleet", "🌨️"),
        ("sleet", "🌨️"),
        ("heavysleet", "🌨️"),
        ("lightsnowshowers", "🌨️"),
        ("snowshowers", "🌨️"),
        ("heavysnowshowers", "❄️"),
        ("lightsnow", "🌨️"),
        ("snow", "❄️"),
        ("heavysnow", "❄️"),
        ("lightrainshowersandthunder", "⛈️"),
        ("rainshowersandthunder", "⛈️"),
        ("heavyrainshowersandthunder", "⛈️"),
        ("lightrainandthunder", "⛈️"),
        ("rainandthunder", "⛈️"),
        ("heavyrainandthunder", "⛈️"),
        ("lightsleetshowersandthunder", "⛈️"),
        ("sleetshowersandthunder", "⛈️"),
        ("heavysleetshowersandthunder", "⛈️"),
        ("lightsleetandthunder", "⛈️"),
        ("sleetandthunder", "⛈️"),
        ("heavysleetandthunder", "⛈️"),
        ("lightssnowshowersandthunder", "⛈️"),
        ("snowshowersandthunder", "⛈️"),
        ("heavysnowshowersandthunder", "⛈️"),
        ("lightsnowandthunder", "⛈️"),
        ("snowandthunder", "⛈️"),
        ("heavysnowandthunder", "⛈️"),
    ];
    assert(r@.len() == icon_table().len());
    r
}

/// The first `n` characters of `s`.
pub fn prefix_chars(s: &Vec<char>, n: usize) -> (r: Vec<char>)
    requires
        n <= s.len(),
    ensures
        r@ == s@.subrange(0, n as int),
{
    let mut r: Vec<char> = Vec::new();
    let mut i: usize = 0;
    while i < n
        invariant
            i <= n,
            n <= s.len(),
            r@ == s@.subrange(0, i as int),
        decreases n - i,
    {
        r.push(s[i]);
        assert(s@.subrange(0, i + 1) =~= s@.subrange(0, i as int).push(s@[i as int]));
        i = i + 1;
    }
    r
}

/// The characters of a code without its time-of-day suffix.
pub fn base_code_of(code: &str) -> (r: Vec<char>)
    ensures
        r@ == base_code(code@),
{
    let c = chars_of(code);
    if ends_with(&c, "_day") {
        let n = chars_of("_day").len();
        prefix_chars(&c, c.len() - n)
    } else if ends_with(&c, "_night") {
        let n = chars_of("_night").len();
        prefix_chars(&c, c.len() - n)
    } else if ends_with(&c, "_polartwilight") {
        let n = chars_of("_polartwilight").len();
        prefix_chars(&c, c.len() - n)
    } else {
        c
    }
}

/// Whether two character sequences are equal.
fn same_chars(a: &Vec<char>, b: &Vec<char>) -> (r: bool)
    ensures
        r == (a@ == b@),
{
    if a.len() != b.len() {
        return false;
    }
    assert(a@.subrange(0, b@.len() as int) =~= a@);
    matches_at(a, b, 0)
}

/// The icon glyph of a weather symbol code; codes without an entry in the
/// table get a thermometer.
pub fn get_weather_icon(symbol_code: &str) -> (r: &str)
    ensures
        r@ == icon_of(symbol_code@),
{
    let base = base_code_of(symbol_code);
    let table = icon_entries();
    let mut i: usize = 0;
    while i < table.len()
        invariant
            base@ == base_code(symbol_code@),
            i <= table@.len(),
            table@.len() == icon_table().len(),
            forall|j: int|
                0 <= j < table@.len() ==> (#[trigger] table@[j]).0@ == icon_table()[j].0
                    && table@[j].1@ == icon_table()[j].1,
            icon_of(symbol_code@) == icon_from(icon_table(), base@, i as int),
        decreases table.len() - i,
    {
        let (key, glyph) = table[i];
        if same_chars(&chars_of(key), &base) {
            return glyph;
        }
        i = i + 1;
    }
    "\u{1f321}\u{fe0f}"
}

/// The CSS class of a weather symbol code.
pub fn get_weather_class(symbol_code: &str) -> (r: &str)
    ensures
        r@ == class_of(symbol_code@),
{
    let base = base_code_of(symbol_code);
    if contains_str(&base, "clearsky") {
        "clear"
    } else if contains_str(&base, "fair") {
        "fair"
    } else if contains_str(&base, "cloudy") {
        "cloudy"
    } else if contains_str(&base, "rain") || contains_str(&base, "sleet") {
        "rain"
    } else if contains_str(&base, "snow") {
        "snow"
    } else if contains_str(&base, "thunder") {
        "thunder"
    } else if contains_str(&base, "fog") {
        "fog"
    } else {
        "weather"
    }
}

/// The time-of-day suffix does not change a code's icon or class: a base
/// code alone and with `_day`, `_night` or `_polartwilight` all resolve alike.
pub proof fn lemma_suffix_insensitive(b: Seq<char>)
    requires
        !has_suffix(b, "_day"@),
        !has_suffix(b, "_night"@),
        !has_suffix(b, "_polartwilight"@),
    ensures
        base_code(b) == b,
        base_code(b + "_day"@) == b,
        base_code(b + "_night"@) == b,
        base_code(b + "_polartwilight"@) == b,
        icon_of(b + "_day"@) == icon_of(b),
        icon_of(b + "_night"@) == icon_of(b),
        icon_of(b + "_polartwilight"@) == icon_of(b),
        class_of(b + "_day"@) == class_of(b),
        class_of(b + "_night"@) == class_of(b),
        class_of(b + "_polartwilight"@) == class_of(b),
{
    reveal_strlit("_day");
    reveal_strlit("_night");
    reveal_strlit("_polartwilight");
    let d = b + "_day"@;
    let n = b + "_night"@;
    let p = b + "_polartwilight"@;
    assert(d.subrange(d.len() - 4, d.len() as int) =~= "_day"@);
    assert(d.subrange(0, d.len() - 4) =~= b);
    assert(n.subrange(n.len() - 4, n.len() as int)[0] == 'i');
    assert(n.subrange(n.len() - 6, n.len() as int) =~= "_night"@);
    assert(n.subrange(0, n.len() - 6) =~= b);
    assert(p.subrange(p.len() - 4, p.len() as int)[0] == 'i');
    assert(p.subrange(p.len() - 6, p.len() as int)[0] == 'i');
    assert(p.subrange(p.len() - 14, p.len() as int) =~= "_polartwilight"@);
    assert(p.subrange(0, p.len() - 14) =~= b);
}

/// Categories are tried in a fixed order, so a code that names both rain and
/// thunder (and none of clear sky, fair or cloudy) is classed as rain.
pub proof fn lemma_rain_precedes_thunder(code: Seq<char>)
    requires
        contains(base_code(code), "rain"@),
        contains(base_code(code), "thunder"@),
        !contains(base_code(code), "clearsky"@),
        !contains(base_code(code), "fair"@),
        !contains(base_code(code), "cloudy"@),
    ensures
        class_of(code) == "rain"@,
{
}

} // verus!
