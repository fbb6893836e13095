use waybar_weather_info::bucketing::{extended_entries, hourly_entries, sample_extended};
use waybar_weather_info::cli::{IndicatorStyle, TempFormat, TooltipStyle};
use waybar_weather_info::forecast::{extract_current_weather, get_symbol_from_data, CurrentWeather, Entry, Snapshot};
use waybar_weather_info::format::{build_tooltip, format_indicator, render_output, symbol_to_description};
use waybar_weather_info::lang::Lang;
use waybar_weather_info::layout::display_in_columns;
use waybar_weather_info::symbols::{get_weather_class, get_weather_icon};
use waybar_weather_info::timestamp::{hours_between, Instant};
use waybar_weather_info::units::{celsius_to_fahrenheit, format_temp, format_temp_short};

fn entry(time: &str, temp: i32, symbol: &str) -> Entry {
    Entry {
        time: Some(time.to_string()),
        air_temperature: Some(temp),
        wind_speed: Some(32),
        relative_humidity: Some(815),
        next_1_hours_symbol: Some(symbol.to_string()),
        precipitation_amount: Some(3),
        next_6_hours_symbol: None,
    }
}

fn hourly_snapshot(hours: &[u32]) -> Snapshot {
    let entries = hours
        .iter()
        .map(|h| {
            let day = 1 + h / 24;
            let hour = h % 24;
            entry(&format!("2024-01-{:02}T{:02}:00:00Z", day, hour), 10 * (*h as i32), "cloudy")
        })
        .collect();
    Snapshot { entries }
}

#[test]
fn fahrenheit_rounds_after_converting() {
    assert_eq!(format_temp_short(0, TempFormat::Fahrenheit), 32);
    assert_eq!(format_temp_short(1000, TempFormat::Fahrenheit), 212);
    assert_eq!(format_temp_short(-178, TempFormat::Fahrenheit), 0);
    assert_eq!(format_temp_short(-172, TempFormat::Fahrenheit), 1);
    assert_eq!(celsius_to_fahrenheit(54), 4172);
    assert_eq!(format_temp(54, TempFormat::Fahrenheit), "42°F");
}

#[test]
fn halves_round_away_from_zero() {
    assert_eq!(format_temp_short(25, TempFormat::Celsius), 3);
    assert_eq!(format_temp_short(-25, TempFormat::Celsius), -3);
    assert_eq!(format_temp_short(-4, TempFormat::Celsius), 0);
    assert_eq!(format_temp_short(25, TempFormat::Fahrenheit), 37);
    assert_eq!(format_temp(54, TempFormat::Celsius), "5°C");
    assert_eq!(format_temp(-4, TempFormat::Celsius), "0°C");
}

#[test]
fn icon_ignores_time_of_day_suffix() {
    let plain = get_weather_icon("clearsky");
    assert_eq!(plain, "☀️");
    assert_eq!(get_weather_icon("clearsky_day"), plain);
    assert_eq!(get_weather_icon("clearsky_night"), plain);
    assert_eq!(get_weather_icon("clearsky_polartwilight"), plain);
    assert_eq!(get_weather_icon("partlycloudy_day"), "⛅");
}

#[test]
fn icon_is_exact_match_with_fallback() {
    assert_eq!(get_weather_icon("unknowncode"), "\u{1f321}\u{fe0f}");
    assert_eq!(get_weather_icon("partly"), "\u{1f321}\u{fe0f}");
    assert_eq!(get_weather_icon("clearsky_night_day"), "\u{1f321}\u{fe0f}");
    assert_eq!(get_weather_icon(""), "\u{1f321}\u{fe0f}");
}

#[test]
fn class_follows_fixed_category_order() {
    assert_eq!(get_weather_class("rainandthunder"), "rain");
    assert_eq!(get_weather_class("rainandthundershowers"), "rain");
    assert_eq!(get_weather_class("heavysleetshowersandthunder_night"), "rain");
    assert_eq!(get_weather_class("snowandthunder"), "snow");
    assert_eq!(get_weather_class("partlycloudy_night"), "cloudy");
    assert_eq!(get_weather_class("clearsky_day"), "clear");
    assert_eq!(get_weather_class("fair_polartwilight"), "fair");
    assert_eq!(get_weather_class("fog"), "fog");
    assert_eq!(get_weather_class("thunder"), "thunder");
    assert_eq!(get_weather_class("hail"), "weather");
}

#[test]
fn descriptions_by_longest_prefix() {
    assert_eq!(Lang::EN.weather_desc("heavyrainshowers_day"), "Heavy rain showers");
    assert_eq!(Lang::EN.weather_desc("lightrain"), "Light rain");
    assert_eq!(Lang::NB.weather_desc("clearsky_night"), "Klar himmel");
    assert_eq!(Lang::DE.weather_desc("heavysnow"), "Starker Schnee");
    assert_eq!(Lang::FR.weather_desc("hail"), "Inconnu");
    assert_eq!(symbol_to_description("partlycloudy_day", &Lang::ES), "Parcialmente nublado");
}

#[test]
fn field_labels() {
    assert_eq!(Lang::EN.temperature(), "Temperature");
    assert_eq!(Lang::SME.wind(), "Biegga");
    assert_eq!(Lang::NN.humidity(), "Luftfuktigheit");
    assert_eq!(Lang::NB.precipitation(), "Nedbør");
}

#[test]
fn symbol_fallback_chain() {
    let mut e = entry("2024-01-01T00:00:00Z", 0, "rain");
    assert_eq!(get_symbol_from_data(&e), "rain");
    e.next_1_hours_symbol = None;
    e.next_6_hours_symbol = Some("snow".to_string());
    assert_eq!(get_symbol_from_data(&e), "snow");
    e.next_6_hours_symbol = None;
    assert_eq!(get_symbol_from_data(&e), "cloudy");
}

#[test]
fn dense_mode_twelve_hours() {
    let hours: Vec<u32> = (0..15).collect();
    let snapshot = hourly_snapshot(&hours);
    let cells = hourly_entries(&snapshot, 12, TempFormat::Celsius);
    assert_eq!(cells.len(), 12);
    assert_eq!(cells[0], "01:00 ☁️ 1°");
    assert_eq!(cells[11], "12:00 ☁️ 12°");
    let mut at_14 = hourly_snapshot(&[13, 14]);
    at_14.entries[1].time = Some("2024-01-01T14:00:00Z".to_string());
    assert_eq!(hourly_entries(&at_14, 12, TempFormat::Celsius)[0], "14:00 ☁️ 14°");
}

#[test]
fn dense_mode_short_series_and_bad_time() {
    let mut snapshot = hourly_snapshot(&[0, 1, 2]);
    snapshot.entries[2].time = Some("2024-01".to_string());
    let cells = hourly_entries(&snapshot, 12, TempFormat::Celsius);
    assert_eq!(cells, vec!["01:00 ☁️ 1°".to_string(), "?:00 ☁️ 2°".to_string()]);
    let empty = Snapshot { entries: Vec::new() };
    assert!(hourly_entries(&empty, 12, TempFormat::Celsius).is_empty());
}

#[test]
fn dense_mode_malformed_times_degrade() {
    let mut snapshot = hourly_snapshot(&[0, 1, 2, 3]);
    snapshot.entries[1].time = Some("2024-01-01T1é:00Z".to_string());
    snapshot.entries[2].time = Some("2024-01-01Tab:00Z".to_string());
    let cells = hourly_entries(&snapshot, 12, TempFormat::Celsius);
    assert_eq!(
        cells,
        vec!["?:00 ☁️ 1°".to_string(), "?:00 ☁️ 2°".to_string(), "03:00 ☁️ 3°".to_string()]
    );
    snapshot.entries.truncate(2);
    let tooltip = build_tooltip(&snapshot, &Lang::EN, &TooltipStyle::CurrentDay, &TempFormat::Celsius);
    assert!(tooltip.ends_with("<b>Next hours:</b>\n?:00 ☁️ 1°     \n"));
}

#[test]
fn sparse_mode_every_three_hours() {
    let hours: Vec<u32> = (0..13).collect();
    let snapshot = hourly_snapshot(&hours);
    let cells = extended_entries(&snapshot, 3, 3, TempFormat::Celsius);
    assert_eq!(
        cells,
        vec!["01-01 03 ☁️ 3°".to_string(), "01-01 06 ☁️ 6°".to_string(), "01-01 09 ☁️ 9°".to_string()]
    );
}

#[test]
fn sparse_mode_targets_advance_by_fixed_steps() {
    let snapshot = hourly_snapshot(&[0, 1, 2, 4, 5, 7, 8, 13, 14]);
    let cells = extended_entries(&snapshot, 3, 3, TempFormat::Celsius);
    assert_eq!(
        cells,
        vec!["01-01 04 ☁️ 4°".to_string(), "01-01 07 ☁️ 7°".to_string(), "01-01 13 ☁️ 13°".to_string()]
    );
}

#[test]
fn sparse_mode_skips_unparseable_times() {
    let mut snapshot = hourly_snapshot(&[0, 3, 4, 6, 9]);
    snapshot.entries[1].time = Some("not a time at all".to_string());
    let cells = extended_entries(&snapshot, 24, 3, TempFormat::Celsius);
    assert_eq!(
        cells,
        vec!["01-01 04 ☁️ 4°".to_string(), "01-01 06 ☁️ 6°".to_string(), "01-01 09 ☁️ 9°".to_string()]
    );
    snapshot.entries[0].time = Some("garbage".to_string());
    assert!(extended_entries(&snapshot, 24, 3, TempFormat::Celsius).is_empty());
}

#[test]
fn sparse_sampler_on_instants() {
    let at = |h: i64| Some(Instant { secs: 1_700_000_000 + h * 3600, nanos: 0 });
    let times = vec![at(0), at(1), None, at(3), at(5), at(6), at(10), at(12)];
    assert_eq!(sample_extended(&times, 3, 3), vec![3, 5, 6]);
    assert_eq!(sample_extended(&times, 2, 3), vec![3, 5]);
    assert_eq!(sample_extended(&times, 0, 3), Vec::<usize>::new());
    let no_start = vec![None, at(3)];
    assert_eq!(sample_extended(&no_start, 3, 3), Vec::<usize>::new());
}

#[test]
fn whole_hours_truncate_toward_zero() {
    let a = Instant { secs: 1000, nanos: 0 };
    let b = Instant { secs: 1000 + 3 * 3600 - 1, nanos: 999_999_999 };
    assert_eq!(hours_between(a, b), 2);
    assert_eq!(hours_between(b, a), -2);
    let c = Instant { secs: 1000 + 3 * 3600, nanos: 0 };
    assert_eq!(hours_between(a, c), 3);
}

#[test]
fn whole_hours_count_a_leap_second() {
    let leap = Instant { secs: 1000, nanos: 1_000_000_000 };
    let later = Instant { secs: 1000 + 3600, nanos: 0 };
    assert_eq!(hours_between(leap, later), 1);
    assert_eq!(hours_between(later, leap), -1);
    let plain = Instant { secs: 1000, nanos: 999_999_999 };
    assert_eq!(hours_between(plain, later), 0);
}

#[test]
fn columns_fill_down_then_across() {
    let entries: Vec<String> = ["a", "b", "c", "d", "e", "f", "g"].iter().map(|s| s.to_string()).collect();
    let mut out = String::new();
    display_in_columns(&mut out, &entries, 3, 2);
    assert_eq!(out, "a d g \nb e \nc f \n");
}

#[test]
fn columns_keep_long_entries_whole() {
    let entries = vec!["abcdef".to_string(), "x".to_string(), "y".to_string()];
    let mut out = String::from("head\n");
    display_in_columns(&mut out, &entries, 2, 3);
    assert_eq!(out, "head\nabcdefy  \nx  \n");
    let mut none = String::new();
    display_in_columns(&mut none, &Vec::new(), 3, 15);
    assert_eq!(none, "");
}

#[test]
fn indicator_concise_celsius() {
    let snapshot = Snapshot { entries: vec![entry("2024-01-01T00:00:00Z", 54, "partlycloudy_day")] };
    let current = extract_current_weather(&snapshot);
    let text = format_indicator(&current, &IndicatorStyle::Concise, &TempFormat::Celsius);
    assert_eq!(text, "⛅ 5°C 💨3m/s");
}

#[test]
fn indicator_detailed_and_full() {
    let current = CurrentWeather {
        temperature: -12,
        symbol_code: "rain".to_string(),
        wind_speed: 25,
        humidity: 815,
        precipitation: 3,
    };
    assert_eq!(
        format_indicator(&current, &IndicatorStyle::Detailed, &TempFormat::Celsius),
        "🌧️ -1°C 💧0.3mm 💨2m/s"
    );
    assert_eq!(
        format_indicator(&current, &IndicatorStyle::Full, &TempFormat::Fahrenheit),
        "🌧️ 30°F 💧0.3mm 💨2m/s 💦82%"
    );
}

#[test]
fn current_weather_defaults() {
    let empty = Snapshot { entries: Vec::new() };
    let c = extract_current_weather(&empty);
    assert_eq!(c.temperature, 0);
    assert_eq!(c.symbol_code, "cloudy");
    assert_eq!(c.wind_speed, 0);
    let bare = Entry {
        time: None,
        air_temperature: None,
        wind_speed: None,
        relative_humidity: None,
        next_1_hours_symbol: None,
        precipitation_amount: None,
        next_6_hours_symbol: Some("fog".to_string()),
    };
    let c = extract_current_weather(&Snapshot { entries: vec![bare] });
    assert_eq!(c.symbol_code, "fog");
    assert_eq!(c.humidity, 0);
    assert_eq!(c.precipitation, 0);
}

#[test]
fn tooltip_current_day() {
    let snapshot = hourly_snapshot(&[0, 1, 2, 3]);
    let tooltip = build_tooltip(&snapshot, &Lang::EN, &TooltipStyle::CurrentDay, &TempFormat::Celsius);
    let expected = "<b>Cloudy</b>\nTemperature: 0°C\nWind: 3.2 m/s\nHumidity: 82%\nPrecipitation: 0.3 mm\n\n<b>Next hours:</b>\n01:00 ☁️ 1°    02:00 ☁️ 2°    03:00 ☁️ 3°    \n";
    assert_eq!(tooltip, expected);
}

#[test]
fn tooltip_three_days() {
    let hours: Vec<u32> = (0..10).collect();
    let snapshot = hourly_snapshot(&hours);
    let tooltip = build_tooltip(&snapshot, &Lang::NB, &TooltipStyle::ThreeDays, &TempFormat::Celsius);
    let expected = "<b>Skyet</b>\nTemperatur: 0°C\nVind: 3.2 m/s\nLuftfuktighet: 82%\nNedbør: 0.3 mm\n\n<b>Next 3 days:</b>\n01-01 03 ☁️ 3°    01-01 09 ☁️ 9°    \n01-01 06 ☁️ 6°    \n";
    assert_eq!(tooltip, expected);
}

#[test]
fn tooltip_week_on_empty_snapshot() {
    let empty = Snapshot { entries: Vec::new() };
    let tooltip = build_tooltip(&empty, &Lang::EN, &TooltipStyle::Week, &TempFormat::Fahrenheit);
    assert_eq!(
        tooltip,
        "<b>Cloudy</b>\nTemperature: 32°F\nWind: 0.0 m/s\nHumidity: 0%\nPrecipitation: 0.0 mm\n\n<b>Next week:</b>\n"
    );
}

#[test]
fn rendering_is_idempotent() {
    let hours: Vec<u32> = (0..30).collect();
    let snapshot = hourly_snapshot(&hours);
    let first = render_output(&snapshot, &Lang::DE, &IndicatorStyle::Full, &TooltipStyle::Week, &TempFormat::Celsius);
    let second = render_output(&snapshot, &Lang::DE, &IndicatorStyle::Full, &TooltipStyle::Week, &TempFormat::Celsius);
    assert_eq!(first, second);
}

#[test]
fn output_line_escapes_tooltip() {
    let snapshot = Snapshot { entries: vec![entry("2024-01-01T00:00:00Z", 54, "partlycloudy_day")] };
    let line = render_output(&snapshot, &Lang::EN, &IndicatorStyle::Concise, &TooltipStyle::CurrentDay, &TempFormat::Celsius);
    let expected = "{\"text\":\"⛅ 5°C 💨3m/s\",\"tooltip\":\"<b>Partly cloudy</b>\\nTemperature: 5°C\\nWind: 3.2 m/s\\nHumidity: 82%\\nPrecipitation: 0.3 mm\\n\\n<b>Next hours:</b>\\n\",\"class\":\"cloudy\"}";
    assert_eq!(line, expected);
}
