//! The digest: the indicator line, the tooltip and the output line that
//! carries them with the CSS class.
use vstd::prelude::*;

use crate::bucketing::{build_extended_forecast, build_hourly_forecast, dense_labels, sparse_labels};
use crate::cli::{IndicatorStyle, TempFormat, TooltipStyle};
use crate::forecast::{
    current_from, extract_current_weather, first_entry, symbol_of, value_or_zero, CurrentWeather,
    Entry, Snapshot,
};
use crate::lang::{
    condition_of, humidity_label, phrase, precipitation_label, temperature_label, wind_label, Lang,
};
use crate::layout::layout;
use crate::symbols::{class_of, get_weather_class, get_weather_icon, icon_of};
use crate::text::{chars_of, push_char, push_str};
use crate::units::{format_temp, push_tenths, push_whole, temp_text, tenths_text, whole_text};

verus! {

/// The indicator line for the current conditions.
pub open spec fn indicator_text(
    c: CurrentWeather,
    style: IndicatorStyle,
    format: TempFormat,
) -> Seq<char> {
    let head = icon_of(c.symbol_code@) + " "@ + temp_text(c.temperature as int, format);
    let wind = " 💨"@ + whole_text(c.wind_speed as int) + "m/s"@;
    let precipitation = " 💧"@ + tenths_text(c.precipitation as int) + "mm"@;
    let humidity = " 💦"@ + whole_text(c.humidity as int) + "%"@;
    match style {
        IndicatorStyle::Concise => head + wind,
        IndicatorStyle::Detailed => head + precipitation + wind,
        IndicatorStyle::Full => head + precipitation + wind + humidity,
    }
}

/// The tooltip's first lines: the description of the conditions in bold,
/// then temperature, wind, humidity and precipitation, each on a labelled
/// line.
pub open spec fn tooltip_header(e: Entry, lang: Lang, format: TempFormat) -> Seq<char> {
    "<b>"@ + phrase(lang, condition_of(symbol_of(e))) + "</b>\n"@
        + temperature_label(lang) + ": "@ + temp_text(value_or_zero(e.air_temperature), format)
        + "\n"@
        + wind_label(lang) + ": "@ + tenths_text(value_or_zero(e.wind_speed)) + " m/s\n"@
        + humidity_label(lang) + ": "@ + whole_text(value_or_zero(e.relative_humidity)) + "%\n"@
        + precipitation_label(lang) + ": "@ + tenths_text(value_or_zero(e.precipitation_amount))
        + " mm\n"@
}

/// The tooltip's forecast: a heading, then the cells of the chosen horizon.
pub open spec fn forecast_section(es: Seq<Entry>, style: TooltipStyle, format: TempFormat) -> Seq<
    char,
> {
    match style {
        TooltipStyle::CurrentDay => "\n<b>Next hours:</b>\n"@
            + layout(dense_labels(es, 12, format), 3, 15),
        TooltipStyle::ThreeDays => "\n<b>Next 3 days:</b>\n"@
            + layout(sparse_labels(es, 24, 3, format), 2, 18),
        TooltipStyle::Week => "\n<b>Next week:</b>\n"@
            + layout(sparse_labels(es, 28, 6, format), 2, 18),
    }
}

/// The whole tooltip of a snapshot.
pub open spec fn tooltip_text(
    es: Seq<Entry>,
    lang: Lang,
    style: TooltipStyle,
    format: TempFormat,
) -> Seq<char> {
    tooltip_header(first_entry(es), lang, format) + forecast_section(es, style, format)
}

/// A character as it stands inside a quoted string of the output line: a
/// newline becomes `\n` and a double quote `\"`.
pub open spec fn escape_char(c: char) -> Seq<char> {
    if c == '\n' {
        seq!['\\', 'n']
    } else if c == '"' {
        seq!['\\', '"']
    } else {
        seq![c]
    }
}

/// A text with each character escaped.
pub open spec fn escaped(s: Seq<char>) -> Seq<char>
    decreases s.len(),
{
    if s.len() == 0 {
        Seq::empty()
    } else {
        escaped(s.drop_last()) + escape_char(s.last())
    }
}

/// The output line: a JSON object with the text, the escaped tooltip and the
/// class.
pub open spec fn output_line(text: Seq<char>, tooltip: Seq<char>, class: Seq<char>) -> Seq<char> {
    "{\"text\":\""@ + text + "\",\"tooltip\":\""@ + escaped(tooltip) + "\",\"class\":\""@
        + class + "\"}"@
}

/// The description of a symbol code in a language.
pub fn symbol_to_description<'a>(symbol: &str, lang: &'a Lang) -> (r: &'a str)
    ensures
        r@ == phrase(*lang, condition_of(symbol@)),
{
    lang.weather_desc(symbol)
}

/// The indicator line: icon and temperature, then wind; the detailed style
/// adds precipitation and the full style humidity too.
pub fn format_indicator(
    current: &CurrentWeather,
    style: &IndicatorStyle,
    temp_format: &TempFormat,
) -> (r: String)
    ensures
        r@ == indicator_text(*current, *style, *temp_format),
{
    let mut r = String::new();
    push_str(&mut r, get_weather_icon(current.symbol_code.as_str()));
    push_str(&mut r, " ");
    let t = format_temp(current.temperature, *temp_format);
    push_str(&mut r, t.as_str());
    match style {
        IndicatorStyle::Concise => {},
        _ => {
            push_str(&mut r, " 💧");
            push_tenths(&mut r, current.precipitation);
            push_str(&mut r, "mm");
        },
    }
    push_str(&mut r, " 💨");
    push_whole(&mut r, current.wind_speed);
    push_str(&mut r, "m/s");
    match style {
        IndicatorStyle::Full => {
            push_str(&mut r, " 💦");
            push_whole(&mut r, current.humidity);
            push_str(&mut r, "%");
        },
        _ => {},
    }
    assert(r@ =~= indicator_text(*current, *style, *temp_format));
    r
}

/// The tooltip: the current conditions from the first entry, then the
/// forecast of the chosen horizon.
pub fn build_tooltip(
    data: &Snapshot,
    lang: &Lang,
    style: &TooltipStyle,
    temp_format: &TempFormat,
) -> (r: String)
    ensures
        r@ == tooltip_text(data.entries@, *lang, *style, *temp_format),
{
    let current = extract_current_weather(data);
    let mut r = String::new();
    push_str(&mut r, "<b>");
    push_str(&mut r, symbol_to_description(current.symbol_code.as_str(), lang));
    push_str(&mut r, "</b>\n");
    push_str(&mut r, lang.temperature());
    push_str(&mut r, ": ");
    let t = format_temp(current.temperature, *temp_format);
    push_str(&mut r, t.as_str());
    push_str(&mut r, "\n");
    push_str(&mut r, lang.wind());
    push_str(&mut r, ": ");
    push_tenths(&mut r, current.wind_speed);
    push_str(&mut r, " m/s\n");
    push_str(&mut r, lang.humidity());
    push_str(&mut r, ": ");
    push_whole(&mut r, current.humidity);
    push_str(&mut r, "%\n");
    push_str(&mut r, lang.precipitation());
    push_str(&mut r, ": ");
    push_tenths(&mut r, current.precipitation);
    push_str(&mut r, " mm\n");
    let ghost header = r@;
    assert(header =~= tooltip_header(first_entry(data.entries@), *lang, *temp_format));
    match style {
        TooltipStyle::CurrentDay => {
            push_str(&mut r, "\n<b>Next hours:</b>\n");
            build_hourly_forecast(&mut r, data, 12, *temp_format);
        },
        TooltipStyle::ThreeDays => {
            push_str(&mut r, "\n<b>Next 3 days:</b>\n");
            build_extended_forecast(&mut r, data, 24, 3, *temp_format);
        },
        TooltipStyle::Week => {
            push_str(&mut r, "\n<b>Next week:</b>\n");
            build_extended_forecast(&mut r, data, 28, 6, *temp_format);
        },
    }
    assert(r@ =~= tooltip_text(data.entries@, *lang, *style, *temp_format));
    r
}

/// Appends `s` with newlines and double quotes escaped.
pub fn push_escaped(out: &mut String, s: &str)
    ensures
        final(out)@ == old(out)@ + escaped(s@),
{
    let c = chars_of(s);
    let mut i: usize = 0;
    while i < c.len()
        invariant
            i <= c@.len(),
            c@ == s@,
            out@ == old(out)@ + escaped(c@.subrange(0, i as int)),
        decreases c.len() - i,
    {
        let ch = c[i];
        if ch == '\n' {
            push_char(out, '\\');
            push_char(out, 'n');
        } else if ch == '"' {
            push_char(out, '\\');
            push_char(out, '"');
        } else {
            push_char(out, ch);
        }
        let ghost next = c@.subrange(0, i + 1);
        assert(next.drop_last() =~= c@.subrange(0, i as int));
        assert(out@ =~= old(out)@ + escaped(next));
        i = i + 1;
    }
    assert(c@.subrange(0, c@.len() as int) =~= s@);
}

/// The output line of a snapshot: the indicator, the tooltip and the class
/// of the current conditions.
pub fn render_output(
    data: &Snapshot,
    lang: &Lang,
    indicator_style: &IndicatorStyle,
    tooltip_style: &TooltipStyle,
    temp_format: &TempFormat,
) -> (r: String)
    ensures
        exists|c: CurrentWeather|
            current_from(c, first_entry(data.entries@)) && r@ == output_line(
                indicator_text(c, *indicator_style, *temp_format),
                tooltip_text(data.entries@, *lang, *tooltip_style, *temp_format),
                class_of(symbol_of(first_entry(data.entries@))),
            ),
{
    let current = extract_current_weather(data);
    let text = format_indicator(&current, indicator_style, temp_format);
    let tooltip = build_tooltip(data, lang, tooltip_style, temp_format);
    let mut r = String::new();
    push_str(&mut r, "{\"text\":\"");
    push_str(&mut r, text.as_str());
    push_str(&mut r, "\",\"tooltip\":\"");
    push_escaped(&mut r, tooltip.as_str());
    push_str(&mut r, "\",\"class\":\"");
    push_str(&mut r, get_weather_class(current.symbol_code.as_str()));
    push_str(&mut r, "\"}");
    assert(r@ =~= output_line(
        indicator_text(current, *indicator_style, *temp_format),
        tooltip_text(data.entries@, *lang, *tooltip_style, *temp_format),
        class_of(symbol_of(first_entry(data.entries@))),
    ));
    r
}

/// Rendering is a function of the snapshot and the selections alone: two
/// passes over equal snapshots with equal selections give the same indicator,
/// tooltip and output line, byte for byte.
pub proof fn lemma_render_deterministic(
    a: Seq<Entry>,
    b: Seq<Entry>,
    ca: CurrentWeather,
    cb: CurrentWeather,
    lang: Lang,
    indicator_style: IndicatorStyle,
    tooltip_style: TooltipStyle,
    format: TempFormat,
)
    requires
        a == b,
        current_from(ca, first_entry(a)),
        current_from(cb, first_entry(b)),
    ensures
        indicator_text(ca, indicator_style, format) == indicator_text(cb, indicator_style, format),
        tooltip_text(a, lang, tooltip_style, format) == tooltip_text(
            b,
            lang,
            tooltip_style,
            format,
        ),
        output_line(
            indicator_text(ca, indicator_style, format),
            tooltip_text(a, lang, tooltip_style, format),
            class_of(symbol_of(first_entry(a))),
        ) == output_line(
            indicator_text(cb, indicator_style, format),
            tooltip_text(b, lang, tooltip_style, format),
            class_of(symbol_of(first_entry(b))),
        ),
{
}

} // verus!
