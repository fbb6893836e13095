//! Localised labels and weather descriptions.
use vstd::prelude::*;

use crate::text::{chars_of, has_prefix, starts_with};

verus! {

/// The languages labels and descriptions are given in.
#[derive(Debug, Clone, Copy, PartialEq, Eq, Structural)]
pub enum Lang {
    EN,
    NB,
    NN,
    SME,
    FR,
    DE,
    ES,
}

/// The weather conditions that have a description of their own.
#[derive(Debug, Clone, Copy, PartialEq, Eq, Structural)]
pub enum Condition {
    ClearSky,
    Fair,
    PartlyCloudy,
    Cloudy,
    LightRainShowers,
    RainShowers,
    HeavyRainShowers,
    LightRain,
    Rain,
    HeavyRain,
    LightSleetShowers,
    SleetShowers,
    HeavySleetShowers,
    LightSleet,
    Sleet,
    HeavySleet,
    LightSnowShowers,
    SnowShowers,
    HeavySnowShowers,
    LightSnow,
    Snow,
    HeavySnow,
    Fog,
    Unknown,
}

/// The condition a symbol code describes: the first prefix, in a fixed order
/// that puts each qualified code before the codes it extends, that the code
/// starts with.
pub open spec fn condition_of(s: Seq<char>) -> Condition {
    if has_prefix(s, "clearsky"@) {
        Condition::ClearSky
    } else if has_prefix(s, "fair"@) {
        Condition::Fair
    } else if has_prefix(s, "partlycloudy"@) {
        Condition::PartlyCloudy
    } else if has_prefix(s, "cloudy"@) {
        Condition::Cloudy
    } else if has_prefix(s, "lightrainshowers"@) {
        Condition::LightRainShowers
    } else if has_prefix(s, "rainshowers"@) {
        Condition::RainShowers
    } else if has_prefix(s, "heavyrainshowers"@) {
        Condition::HeavyRainShowers
    } else if has_prefix(s, "lightrain"@) {
        Condition::LightRain
    } else if has_prefix(s, "rain"@) {
        Condition::Rain
    } else if has_prefix(s, "heavyrain"@) {
        Condition::HeavyRain
    } else if has_prefix(s, "lightsleetshowers"@) {
        Condition::LightSleetShowers
    } else if has_prefix(s, "sleetshowers"@) {
        Condition::SleetShowers
    } else if has_prefix(s, "heavysleetshowers"@) {
        Condition::HeavySleetShowers
    } else if has_prefix(s, "lightsleet"@) {
        Condition::LightSleet
    } else if has_prefix(s, "sleet"@) {
        Condition::Sleet
    } else if has_prefix(s, "heavysleet"@) {
        Condition::HeavySleet
    } else if has_prefix(s, "lightsnowshowers"@) {
        Condition::LightSnowShowers
    } else if has_prefix(s, "snowshowers"@) {
        Condition::SnowShowers
    } else if has_prefix(s, "heavysnowshowers"@) {
        Condition::HeavySnowShowers
    } else if has_prefix(s, "lightsnow"@) {
        Condition::LightSnow
    } else if has_prefix(s, "snow"@) {
        Condition::Snow
    } else if has_prefix(s, "heavysnow"@) {
        Condition::HeavySnow
    } else if has_prefix(s, "fog"@) {
        Condition::Fog
    } else {
        Condition::Unknown
    }
}

/// The label of the temperature line.
pub open spec fn temperature_label(l: Lang) -> Seq<char> {
    match l {
        Lang::EN => "Temperature"@,
        Lang::NB => "Temperatur"@,
        Lang::NN => "Temperatur"@,
        Lang::SME => "Temperatuvra"@,
        Lang::FR => "Température"@,
        Lang::DE => "Temperatur"@,
        Lang::ES => "Temperatura"@,
    }
}

/// The label of the wind line.
pub open spec fn wind_label(l: Lang) -> Seq<char> {
    match l {
        Lang::EN => "Wind"@,
        Lang::NB => "Vind"@,
        Lang::NN => "Vind"@,
        Lang::SME => "Biegga"@,
        Lang::FR => "Vent"@,
        Lang::DE => "Wind"@,
        Lang::ES => "Viento"@,
    }
}

/// The label of the humidity line.
pub open spec fn humidity_label(l: Lang) -> Seq<char> {
    match l {
        Lang::EN => "Humidity"@,
        Lang::NB => "Luftfuktighet"@,
        Lang::NN => "Luftfuktigheit"@,
        Lang::SME => "Vuoigatvuohta"@,
        Lang::FR => "Humidité"@,
        Lang::DE => "Luftfeuchtigkeit"@,
        Lang::ES => "Humedad"@,
    }
}

/// The label of the precipitation line.
pub open spec fn precipitation_label(l: Lang) -> Seq<char> {
    match l {
        Lang::EN => "Precipitation"@,
        Lang::NB => "Nedbør"@,
        Lang::NN => "Nedbør"@,
        Lang::SME => "Šaddadeapmi"@,
        Lang::FR => "Précipitations"@,
        Lang::DE => "Niederschlag"@,
        Lang::ES => "Precipitación"@,
    }
}

/// The description of a condition in a language.
pub open spec fn phrase(l: Lang, c: Condition) -> Seq<char> {
    match l {
        Lang::EN => match c {
            Condition::ClearSky => "Clear sky"@,
            Condition::Fair => "Fair"@,
            Condition::PartlyCloudy => "Partly cloudy"@,
            Condition::Cloudy => "Cloudy"@,
            Condition::LightRainShowers => "Light rain showers"@,
            Condition::RainShowers => "Rain showers"@,
            Condition::HeavyRainShowers => "Heavy rain showers"@,
            Condition::LightRain => "Light rain"@,
            Condition::Rain => "Rain"@,
            Condition::HeavyRain => "Heavy rain"@,
            Condition::LightSleetShowers => "Light sleet showers"@,
            Condition::SleetShowers => "Sleet showers"@,
            Condition::HeavySleetShowers => "Heavy sleet showers"@,
            Condition::LightSleet => "Light sleet"@,
            Condition::Sleet => "Sleet"@,
            Condition::HeavySleet => "Heavy sleet"@,
            Condition::LightSnowShowers => "Light snow showers"@,
            Condition::SnowShowers => "Snow showers"@,
            Condition::HeavySnowShowers => "Heavy snow showers"@,
            Condition::LightSnow => "Light snow"@,
            Condition::Snow => "Snow"@,
            Condition::HeavySnow => "Heavy snow"@,
            Condition::Fog => "Fog"@,
            Condition::Unknown => "Unknown"@,
        },
        Lang::NB => match c {
            Condition::ClearSky => "Klar himmel"@,
            Condition::Fair => "Lettskyet"@,
            Condition::PartlyCloudy => "Delvis skyet"@,
            Condition::Cloudy => "Skyet"@,
            Condition::LightRainShowers => "Lette regnbyger"@,
            Condition::RainShowers => "Regnbyger"@,
            Condition::HeavyRainShowers => "Kraftige regnbyger"@,
            Condition::LightRain => "Lett regn"@,
            Condition::Rain => "Regn"@,
            Condition::HeavyRain => "Kraftig regn"@,
            Condition::LightSleetShowers => "Lette sluddbyger"@,
            Condition::SleetShowers => "Sluddbyger"@,
            Condition::HeavySleetShowers => "Kraftige sluddbyger"@,
            Condition::LightSleet => "Lett sludd"@,
            Condition::Sleet => "Sludd"@,
            Condition::HeavySleet => "Kraftig sludd"@,
            Condition::LightSnowShowers => "Lette snøbyger"@,
            Condition::SnowShowers => "Snøbyger"@,
            Condition::HeavySnowShowers => "Kraftige snøbyger"@,
            Condition::LightSnow => "Lett snø"@,
            Condition::Snow => "Snø"@,
            Condition::HeavySnow => "Kraftig snø"@,
            Condition::Fog => "Tåke"@,
            Condition::Unknown => "Ukjent"@,
        },
        Lang::NN => match c {
            Condition::ClearSky => "Klar himmel"@,
            Condition::Fair => "Lettskya"@,
            Condition::PartlyCloudy => "Delvis skya"@,
            Condition::Cloudy => "Skya"@,
            Condition::LightRainShowers => "Lette regnbyer"@,
            Condition::RainShowers => "Regnbyer"@,
            Condition::HeavyRainShowers => "Kraftige regnbyer"@,
            Condition::LightRain => "Lett regn"@,
            Condition::Rain => "Regn"@,
            Condition::HeavyRain => "Kraftig regn"@,
            Condition::LightSleetShowers => "Lette sluddbyer"@,
            Condition::SleetShowers => "Sluddbyer"@,
            Condition::HeavySleetShowers => "Kraftige sluddbyer"@,
            Condition::LightSleet => "Lett sludd"@,
            Condition::Sleet => "Sludd"@,
            Condition::HeavySleet => "Kraftig sludd"@,
            Condition::LightSnowShowers => "Lette snøbyer"@,
            Condition::SnowShowers => "Snøbyer"@,
            Condition::HeavySnowShowers => "Kraftige snøbyer"@,
            Condition::LightSnow => "Lett snø"@,
            Condition::Snow => "Snø"@,
            Condition::HeavySnow => "Kraftig snø"@,
            Condition::Fog => "Tåke"@,
            Condition::Unknown => "Ukjend"@,
        },
        Lang::SME => match c {
            Condition::ClearSky => "Čeaskat allahas"@,
            Condition::Fair => "Geaidnolaš"@,
            Condition::PartlyCloudy => "Muhtun ládje pilvehagas"@,
            Condition::Cloudy => "Pilvehagas"@,
            Condition::LightRainShowers => "Geahpes arvebuolus"@,
            Condition::RainShowers => "Arvebuolus"@,
            Condition::HeavyRainShowers => "Garrasat arvebuolus"@,
            Condition::LightRain => "Geahpes arvi"@,
            Condition::Rain => "Arvi"@,
            Condition::HeavyRain => "Garrasat arvi"@,
            Condition::LightSleetShowers => "Geahpes čievžabuolus"@,
            Condition::SleetShowers => "Čievžabuolus"@,
            Condition::HeavySleetShowers => "Garrasat čievžabuolus"@,
            Condition::LightSleet => "Geahpes čievža"@,
            Condition::Sleet => "Čievža"@,
            Condition::HeavySleet => "Garrasat čievža"@,
            Condition::LightSnowShowers => "Geahpes muohttabuolus"@,
            Condition::SnowShowers => "Muohttabuolus"@,
            Condition::HeavySnowShowers => "Garrasat muohttabuolus"@,
            Condition::LightSnow => "Geahpes muohta"@,
            Condition::Snow => "Muohta"@,
            Condition::HeavySnow => "Garrasat muohta"@,
            Condition::Fog => "Heahka"@,
            Condition::Unknown => "Amas"@,
        },
        Lang::FR => match c {
            Condition::ClearSky => "Ciel dégagé"@,
            Condition::Fair => "Beau"@,
            Condition::PartlyCloudy => "Partiellement nuageux"@,
            Condition::Cloudy => "Nuageux"@,
            Condition::LightRainShowers => "Averses légères"@,
            Condition::RainShowers => "Averses"@,
            Condition::HeavyRainShowers => "Fortes averses"@,
            Condition::LightRain => "Pluie légère"@,
            Condition::Rain => "Pluie"@,
            Condition::HeavyRain => "Forte pluie"@,
            Condition::LightSleetShowers => "Averses légères de neige fondue"@,
            Condition::SleetShowers => "Averses de neige fondue"@,
            Condition::HeavySleetShowers => "Fortes averses de neige fondue"@,
            Condition::LightSleet => "Neige fondue légère"@,
            Condition::Sleet => "Neige fondue"@,
            Condition::HeavySleet => "Forte neige fondue"@,
            Condition::LightSnowShowers => "Averses de neige légères"@,
            Condition::SnowShowers => "Averses de neige"@,
            Condition::HeavySnowShowers => "Fortes averses de neige"@,
            Condition::LightSnow => "Neige légère"@,
            Condition::Snow => "Neige"@,
            Condition::HeavySnow => "Forte neige"@,
            Condition::Fog => "Brouillard"@,
            Condition::Unknown => "Inconnu"@,
        },
        Lang::DE => match c {
            Condition::ClearSky => "Klarer Himmel"@,
            Condition::Fair => "Heiter"@,
            Condition::PartlyCloudy => "Teilweise bewölkt"@,
            Condition::Cloudy => "Bewölkt"@,
            Condition::LightRainShowers => "Leichte Regenschauer"@,
            Condition::RainShowers => "Regenschauer"@,
            Condition::HeavyRainShowers => "Starke Regenschauer"@,
            Condition::LightRain => "Leichter Regen"@,
            Condition::Rain => "Regen"@,
            Condition::HeavyRain => "Starker Regen"@,
            Condition::LightSleetShowers => "Leichte Schneeregenschauer"@,
            Condition::SleetShowers => "Schneeregenschauer"@,
            Condition::HeavySleetShowers => "Starke Schneeregenschauer"@,
            Condition::LightSleet => "Leichter Schneeregen"@,
            Condition::Sleet => "Schneeregen"@,
            Condition::HeavySleet => "Starker Schneeregen"@,
            Condition::LightSnowShowers => "Leichte Schneeschauer"@,
            Condition::SnowShowers => "Schneeschauer"@,
            Condition::HeavySnowShowers => "Starke Schneeschauer"@,
            Condition::LightSnow => "Leichter Schnee"@,
            Condition::Snow => "Schnee"@,
            Condition::HeavySnow => "Starker Schnee"@,
            Condition::Fog => "Nebel"@,
            Condition::Unknown => "Unbekannt"@,
        },
        Lang::ES => match c {
            Condition::ClearSky => "Cielo despejado"@,
            Condition::Fair => "Despejado"@,
            Condition::PartlyCloudy => "Parcialmente nublado"@,
            Condition::Cloudy => "Nublado"@,
            Condition::LightRainShowers => "Chubascos ligeros"@,
            Condition::RainShowers => "Chubascos"@,
            Condition::HeavyRainShowers => "Chubascos fuertes"@,
            Condition::LightRain => "Lluvia ligera"@,
            Condition::Rain => "Lluvia"@,
            Condition::HeavyRain => "Lluvia fuerte"@,
            Condition::LightSleetShowers => "Chubascos ligeros de aguanieve"@,
            Condition::SleetShowers => "Chubascos de aguanieve"@,
            Condition::HeavySleetShowers => "Chubascos fuertes de aguanieve"@,
            Condition::LightSleet => "Aguanieve ligera"@,
            Condition::Sleet => "Aguanieve"@,
            Condition::HeavySleet => "Aguanieve fuerte"@,
            Condition::LightSnowShowers => "Chubascos de nieve ligeros"@,
            Condition::SnowShowers => "Chubascos de nieve"@,
            Condition::HeavySnowShowers => "Chubascos de nieve fuertes"@,
            Condition::LightSnow => "Nieve ligera"@,
            Condition::Snow => "Nieve"@,
            Condition::HeavySnow => "Nieve fuerte"@,
            Condition::Fog => "Niebla"@,
            Condition::Unknown => "Desconocido"@,
        },
    }
}

/// The condition a symbol code describes.
pub fn condition_of_code(symbol: &str) -> (r: Condition)
    ensures
        r == condition_of(symbol@),
{
    let s = chars_of(symbol);
    if starts_with(&s, "clearsky") {
        Condition::ClearSky
    } else if starts_with(&s, "fair") {
        Condition::Fair
    } else if starts_with(&s, "partlycloudy") {
        Condition::PartlyCloudy
    } else if starts_with(&s, "cloudy") {
        Condition::Cloudy
    } else if starts_with(&s, "lightrainshowers") {
        Condition::LightRainShowers
    } else if starts_with(&s, "rainshowers") {
        Condition::RainShowers
    } else if starts_with(&s, "heavyrainshowers") {
        Condition::HeavyRainShowers
    } else if starts_with(&s, "lightrain") {
        Condition::LightRain
    } else if starts_with(&s, "rain") {
        Condition::Rain
    } else if starts_with(&s, "heavyrain") {
        Condition::HeavyRain
    } else if starts_with(&s, "lightsleetshowers") {
        Condition::LightSleetShowers
    } else if starts_with(&s, "sleetshowers") {
        Condition::SleetShowers
    } else if starts_with(&s, "heavysleetshowers") {
        Condition::HeavySleetShowers
    } else if starts_with(&s, "lightsleet") {
        Condition::LightSleet
    } else if starts_with(&s, "sleet") {
        Condition::Sleet
    } else if starts_with(&s, "heavysleet") {
        Condition::HeavySleet
    } else if starts_with(&s, "lightsnowshowers") {
        Condition::LightSnowShowers
    } else if starts_with(&s, "snowshowers") {
        Condition::SnowShowers
    } else if starts_with(&s, "heavysnowshowers") {
        Condition::HeavySnowShowers
    } else if starts_with(&s, "lightsnow") {
        Condition::LightSnow
    } else if starts_with(&s, "snow") {
        Condition::Snow
    } else if starts_with(&s, "heavysnow") {
        Condition::HeavySnow
    } else if starts_with(&s, "fog") {
        Condition::Fog
    } else {
        Condition::Unknown
    }
}

impl Lang {
    /// The label of the temperature line.
    pub fn temperature(&self) -> (r: &str)
        ensures
            r@ == temperature_label(*self),
    {
        match self {
            Self::EN => "Temperature",
            Self::NB => "Temperatur",
            Self::NN => "Temperatur",
            Self::SME => "Temperatuvra",
            Self::FR => "Température",
            Self::DE => "Temperatur",
            Self::ES => "Temperatura",
        }
    }

    /// The label of the wind line.
    pub fn wind(&self) -> (r: &str)
        ensures
            r@ == wind_label(*self),
    {
        match self {
            Self::EN => "Wind",
            Self::NB => "Vind",
            Self::NN => "Vind",
            Self::SME => "Biegga",
            Self::FR => "Vent",
            Self::DE => "Wind",
            Self::ES => "Viento",
        }
    }

    /// The label of the humidity line.
    pub fn humidity(&self) -> (r: &str)
        ensures
            r@ == humidity_label(*self),
    {
        match self {
            Self::EN => "Humidity",
            Self::NB => "Luftfuktighet",
            Self::NN => "Luftfuktigheit",
            Self::SME => "Vuoigatvuohta",
            Self::FR => "Humidité",
            Self::DE => "Luftfeuchtigkeit",
            Self::ES => "Humedad",
        }
    }

    /// The label of the precipitation line.
    pub fn precipitation(&self) -> (r: &str)
        ensures
            r@ == precipitation_label(*self),
    {
        match self {
            Self::EN => "Precipitation",
            Self::NB => "Nedbør",
            Self::NN => "Nedbør",
            Self::SME => "Šaddadeapmi",
            Self::FR => "Précipitations",
            Self::DE => "Niederschlag",
            Self::ES => "Precipitación",
        }
    }

    /// The description of a condition in this language.
    pub fn phrase(&self, c: Condition) -> (r: &'static str)
        ensures
            r@ == phrase(*self, c),
    {
        match self {
            Self::EN => match c {
                Condition::ClearSky => "Clear sky",
                Condition::Fair => "Fair",
                Condition::PartlyCloudy => "Partly cloudy",
                Condition::Cloudy => "Cloudy",
                Condition::LightRainShowers => "Light rain showers",
                Condition::RainShowers => "Rain showers",
                Condition::HeavyRainShowers => "Heavy rain showers",
                Condition::LightRain => "Light rain",
                Condition::Rain => "Rain",
                Condition::HeavyRain => "Heavy rain",
                Condition::LightSleetShowers => "Light sleet showers",
                Condition::SleetShowers => "Sleet showers",
                Condition::HeavySleetShowers => "Heavy sleet showers",
                Condition::LightSleet => "Light sleet",
                Condition::Sleet => "Sleet",
                Condition::HeavySleet => "Heavy sleet",
                Condition::LightSnowShowers => "Light snow showers",
                Condition::SnowShowers => "Snow showers",
                Condition::HeavySnowShowers => "Heavy snow showers",
                Condition::LightSnow => "Light snow",
                Condition::Snow => "Snow",
                Condition::HeavySnow => "Heavy snow",
                Condition::Fog => "Fog",
                Condition::Unknown => "Unknown",
            },
            Self::NB => match c {
                Condition::ClearSky => "Klar himmel",
                Condition::Fair => "Lettskyet",
                Condition::PartlyCloudy => "Delvis skyet",
                Condition::Cloudy => "Skyet",
                Condition::LightRainShowers => "Lette regnbyger",
                Condition::RainShowers => "Regnbyger",
                Condition::HeavyRainShowers => "Kraftige regnbyger",
                Condition::LightRain => "Lett regn",
                Condition::Rain => "Regn",
                Condition::HeavyRain => "Kraftig regn",
                Condition::LightSleetShowers => "Lette sluddbyger",
                Condition::SleetShowers => "Sluddbyger",
                Condition::HeavySleetShowers => "Kraftige sluddbyger",
                Condition::LightSleet => "Lett sludd",
                Condition::Sleet => "Sludd",
                Condition::HeavySleet => "Kraftig sludd",
                Condition::LightSnowShowers => "Lette snøbyger",
                Condition::SnowShowers => "Snøbyger",
                Condition::HeavySnowShowers => "Kraftige snøbyger",
                Condition::LightSnow => "Lett snø",
                Condition::Snow => "Snø",
                Condition::HeavySnow => "Kraftig snø",
                Condition::Fog => "Tåke",
                Condition::Unknown => "Ukjent",
            },
            Self::NN => match c {
                Condition::ClearSky => "Klar himmel",
                Condition::Fair => "Lettskya",
                Condition::PartlyCloudy => "Delvis skya",
                Condition::Cloudy => "Skya",
                Condition::LightRainShowers => "Lette regnbyer",
                Condition::RainShowers => "Regnbyer",
                Condition::HeavyRainShowers => "Kraftige regnbyer",
                Condition::LightRain => "Lett regn",
                Condition::Rain => "Regn",
                Condition::HeavyRain => "Kraftig regn",
                Condition::LightSleetShowers => "Lette sluddbyer",
                Condition::SleetShowers => "Sluddbyer",
                Condition::HeavySleetShowers => "Kraftige sluddbyer",
                Condition::LightSleet => "Lett sludd",
                Condition::Sleet => "Sludd",
                Condition::HeavySleet => "Kraftig sludd",
                Condition::LightSnowShowers => "Lette snøbyer",
                Condition::SnowShowers => "Snøbyer",
                Condition::HeavySnowShowers => "Kraftige snøbyer",
                Condition::LightSnow => "Lett snø",
                Condition::Snow => "Snø",
                Condition::HeavySnow => "Kraftig snø",
                Condition::Fog => "Tåke",
                Condition::Unknown => "Ukjend",
            },
            Self::SME => match c {
                Condition::ClearSky => "Čeaskat allahas",
                Condition::Fair => "Geaidnolaš",
                Condition::PartlyCloudy => "Muhtun ládje pilvehagas",
                Condition::Cloudy => "Pilvehagas",
                Condition::LightRainShowers => "Geahpes arvebuolus",
                Condition::RainShowers => "Arvebuolus",
                Condition::HeavyRainShowers => "Garrasat arvebuolus",
                Condition::LightRain => "Geahpes arvi",
                Condition::Rain => "Arvi",
                Condition::HeavyRain => "Garrasat arvi",
                Condition::LightSleetShowers => "Geahpes čievžabuolus",
                Condition::SleetShowers => "Čievžabuolus",
                Condition::HeavySleetShowers => "Garrasat čievžabuolus",
                Condition::LightSleet => "Geahpes čievža",
                Condition::Sleet => "Čievža",
                Condition::HeavySleet => "Garrasat čievža",
                Condition::LightSnowShowers => "Geahpes muohttabuolus",
                Condition::SnowShowers => "Muohttabuolus",
                Condition::HeavySnowShowers => "Garrasat muohttabuolus",
                Condition::LightSnow => "Geahpes muohta",
                Condition::Snow => "Muohta",
                Condition::HeavySnow => "Garrasat muohta",
                Condition::Fog => "Heahka",
                Condition::Unknown => "Amas",
            },
            Self::FR => match c {
                Condition::ClearSky => "Ciel dégagé",
                Condition::Fair => "Beau",
                Condition::PartlyCloudy => "Partiellement nuageux",
                Condition::Cloudy => "Nuageux",
                Condition::LightRainShowers => "Averses légères",
                Condition::RainShowers => "Averses",
                Condition::HeavyRainShowers => "Fortes averses",
                Condition::LightRain => "Pluie légère",
                Condition::Rain => "Pluie",
                Condition::HeavyRain => "Forte pluie",
                Condition::LightSleetShowers => "Averses légères de neige fondue",
                Condition::SleetShowers => "Averses de neige fondue",
                Condition::HeavySleetShowers => "Fortes averses de neige fondue",
                Condition::LightSleet => "Neige fondue légère",
                Condition::Sleet => "Neige fondue",
                Condition::HeavySleet => "Forte neige fondue",
                Condition::LightSnowShowers => "Averses de neige légères",
                Condition::SnowShowers => "Averses de neige",
                Condition::HeavySnowShowers => "Fortes averses de neige",
                Condition::LightSnow => "Neige légère",
                Condition::Snow => "Neige",
                Condition::HeavySnow => "Forte neige",
                Condition::Fog => "Brouillard",
                Condition::Unknown => "Inconnu",
            },
            Self::DE => match c {
                Condition::ClearSky => "Klarer Himmel",
                Condition::Fair => "Heiter",
                Condition::PartlyCloudy => "Teilweise bewölkt",
                Condition::Cloudy => "Bewölkt",
                Condition::LightRainShowers => "Leichte Regenschauer",
                Condition::RainShowers => "Regenschauer",
                Condition::HeavyRainShowers => "Starke Regenschauer",
                Condition::LightRain => "Leichter Regen",
                Condition::Rain => "Regen",
                Condition::HeavyRain => "Starker Regen",
                Condition::LightSleetShowers => "Leichte Schneeregenschauer",
                Condition::SleetShowers => "Schneeregenschauer",
                Condition::HeavySleetShowers => "Starke Schneeregenschauer",
                Condition::LightSleet => "Leichter Schneeregen",
                Condition::Sleet => "Schneeregen",
                Condition::HeavySleet => "Starker Schneeregen",
                Condition::LightSnowShowers => "Leichte Schneeschauer",
                Condition::SnowShowers => "Schneeschauer",
                Condition::HeavySnowShowers => "Starke Schneeschauer",
                Condition::LightSnow => "Leichter Schnee",
                Condition::Snow => "Schnee",
                Condition::HeavySnow => "Starker Schnee",
                Condition::Fog => "Nebel",
                Condition::Unknown => "Unbekannt",
            },
            Self::ES => match c {
                Condition::ClearSky => "Cielo despejado",
                Condition::Fair => "Despejado",
                Condition::PartlyCloudy => "Parcialmente nublado",
                Condition::Cloudy => "Nublado",
                Condition::LightRainShowers => "Chubascos ligeros",
                Condition::RainShowers => "Chubascos",
                Condition::HeavyRainShowers => "Chubascos fuertes",
                Condition::LightRain => "Lluvia ligera",
                Condition::Rain => "Lluvia",
                Condition::HeavyRain => "Lluvia fuerte",
                Condition::LightSleetShowers => "Chubascos ligeros de aguanieve",
                Condition::SleetShowers => "Chubascos de aguanieve",
                Condition::HeavySleetShowers => "Chubascos fuertes de aguanieve",
                Condition::LightSleet => "Aguanieve ligera",
                Condition::Sleet => "Aguanieve",
                Condition::HeavySleet => "Aguanieve fuerte",
                Condition::LightSnowShowers => "Chubascos de nieve ligeros",
                Condition::SnowShowers => "Chubascos de nieve",
                Condition::HeavySnowShowers => "Chubascos de nieve fuertes",
                Condition::LightSnow => "Nieve ligera",
                Condition::Snow => "Nieve",
                Condition::HeavySnow => "Nieve fuerte",
                Condition::Fog => "Niebla",
                Condition::Unknown => "Desconocido",
            },
        }
    }

    /// The description of a weather symbol code in this language; codes that
    /// match no known prefix are "Unknown".
    pub fn weather_desc(&self, symbol: &str) -> (r: &str)
        ensures
            r@ == phrase(*self, condition_of(symbol@)),
    {
        self.phrase(condition_of_code(symbol))
    }
}

} // verus!
