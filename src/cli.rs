//! The style selections of one rendering pass, and the program's arguments.
use vstd::prelude::*;

use crate::lang::Lang;

verus! {

/// How much the indicator line shows besides icon and temperature.
#[derive(Debug, Clone, Copy, PartialEq, Eq, Structural)]
pub enum IndicatorStyle {
    /// Icon, temperature and wind.
    Concise,
    /// Adds precipitation.
    Detailed,
    /// Adds precipitation and humidity.
    Full,
}

/// How far ahead the tooltip's forecast looks.
#[derive(Debug, Clone, Copy, PartialEq, Eq, Structural)]
pub enum TooltipStyle {
    /// The next twelve hours, one per line cell.
    CurrentDay,
    /// Three days at three-hour steps.
    ThreeDays,
    /// A week at six-hour steps.
    Week,
}

/// The unit temperatures are shown in.
#[derive(Debug, Clone, Copy, PartialEq, Eq, Structural)]
pub enum TempFormat {
    Celsius,
    Fahrenheit,
}

/// What the program is asked to show and where.
#[derive(Debug, Clone)]
pub struct Args {
    /// A location id or `lat,lon`; none means the location is looked up by IP.
    pub location: Option<String>,
    pub indicator_style: IndicatorStyle,
    pub lang: Lang,
    pub tooltip_style: TooltipStyle,
    pub temp_format: TempFormat,
}

} // verus!
