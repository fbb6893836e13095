//! A compact weather digest for a status bar: an indicator line, a
//! multi-line tooltip and a CSS class, rendered from one forecast snapshot.
pub mod bucketing;
pub mod cli;
pub mod forecast;
pub mod format;
pub mod lang;
pub mod layout;
pub mod symbols;
pub mod text;
pub mod timestamp;
pub mod units;

pub use cli::{Args, IndicatorStyle, TempFormat, TooltipStyle};
pub use forecast::{CurrentWeather, Entry, Snapshot};
pub use format::{build_tooltip, format_indicator, render_output};
pub use lang::Lang;
pub use symbols::{get_weather_class, get_weather_icon};
