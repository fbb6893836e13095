//! The forecast snapshot the digest is rendered from, with the defaults that
//! stand in for absent fields, and the current conditions taken from it.
use vstd::prelude::*;

verus! {

/// One time point of a forecast. Absent fields are `None`; measurements are
/// in tenths of their unit (°C, m/s, %, mm).
#[derive(Debug, Clone)]
pub struct Entry {
    /// ISO-8601 timestamp, UTC.
    pub time: Option<String>,
    pub air_temperature: Option<i32>,
    pub wind_speed: Option<i32>,
    pub relative_humidity: Option<i32>,
    /// Summary symbol code for the next hour.
    pub next_1_hours_symbol: Option<String>,
    /// Precipitation over the next hour.
    pub precipitation_amount: Option<i32>,
    /// Summary symbol code for the next six hours.
    pub next_6_hours_symbol: Option<String>,
}

/// One fetched forecast: entries by ascending time; the first is "now".
#[derive(Debug, Clone)]
pub struct Snapshot {
    pub entries: Vec<Entry>,
}

/// The conditions now, taken from the first entry. Measurements are in
/// tenths of their unit.
#[derive(Debug, Clone)]
pub struct CurrentWeather {
    pub temperature: i32,
    pub symbol_code: String,
    pub wind_speed: i32,
    pub humidity: i32,
    pub precipitation: i32,
}

/// A measurement, or zero where it is absent.
pub open spec fn value_or_zero(v: Option<i32>) -> int {
    match v {
        Some(x) => x as int,
        None => 0,
    }
}

/// An entry's timestamp, or the empty text where it is absent.
pub open spec fn time_of(e: Entry) -> Seq<char> {
    match e.time {
        Some(t) => t@,
        None => Seq::empty(),
    }
}

/// An entry's symbol code: the next hour's, else the next six hours', else
/// "cloudy".
pub open spec fn symbol_of(e: Entry) -> Seq<char> {
    match e.next_1_hours_symbol {
        Some(s) => s@,
        None => match e.next_6_hours_symbol {
            Some(s) => s@,
            None => "cloudy"@,
        },
    }
}

/// An entry with every field absent.
pub open spec fn empty_entry() -> Entry {
    Entry {
        time: None,
        air_temperature: None,
        wind_speed: None,
        relative_humidity: None,
        next_1_hours_symbol: None,
        precipitation_amount: None,
        next_6_hours_symbol: None,
    }
}

/// The entry that describes "now": the first, or an empty one.
pub open spec fn first_entry(es: Seq<Entry>) -> Entry {
    if es.len() > 0 {
        es[0]
    } else {
        empty_entry()
    }
}

/// The current conditions `c` are those of entry `e`, with defaults.
pub open spec fn current_from(c: CurrentWeather, e: Entry) -> bool {
    &&& c.temperature == value_or_zero(e.air_temperature)
    &&& c.symbol_code@ == symbol_of(e)
    &&& c.wind_speed == value_or_zero(e.wind_speed)
    &&& c.humidity == value_or_zero(e.relative_humidity)
    &&& c.precipitation == value_or_zero(e.precipitation_amount)
}

/// A measurement, or zero where it is absent.
pub fn or_zero(v: Option<i32>) -> (r: i32)
    ensures
        r == value_or_zero(v),
{
    match v {
        Some(x) => x,
        None => 0,
    }
}

/// An entry's timestamp, or "" where it is absent.
pub fn entry_time(e: &Entry) -> (r: &str)
    ensures
        r@ == time_of(*e),
{
    match &e.time {
        Some(t) => t.as_str(),
        None => {
            proof {
                reveal_strlit("");
            }
            ""
        },
    }
}

/// An entry's symbol code, with the fallbacks of `symbol_of`.
pub fn get_symbol_from_data(e: &Entry) -> (r: &str)
    ensures
        r@ == symbol_of(*e),
{
    match &e.next_1_hours_symbol {
        Some(s) => s.as_str(),
        None => match &e.next_6_hours_symbol {
            Some(s) => s.as_str(),
            None => "cloudy",
        },
    }
}

/// The current conditions of a snapshot, from its first entry; every
/// absent value takes its default, and an empty snapshot gives all defaults.
pub fn extract_current_weather(data: &Snapshot) -> (r: CurrentWeather)
    ensures
        current_from(r, first_entry(data.entries@)),
{
    if data.entries.len() == 0 {
        let r = CurrentWeather {
            temperature: 0,
            symbol_code: String::from_str("cloudy"),
            wind_speed: 0,
            humidity: 0,
            precipitation: 0,
        };
        return r;
    }
    let e = &data.entries[0];
    CurrentWeather {
        temperature: or_zero(e.air_temperature),
        symbol_code: String::from_str(get_symbol_from_data(e)),
        wind_speed: or_zero(e.wind_speed),
        humidity: or_zero(e.relative_humidity),
        precipitation: or_zero(e.precipitation_amount),
    }
}

} // verus!
