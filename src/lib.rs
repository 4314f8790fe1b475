//! Formats an elapsed time span as a short phrase such as "2 hours ago", in
//! one of several natural languages and with a configurable precision.
pub mod compact;
pub mod dates;
pub mod duration;
pub mod formatter;
pub mod language;
pub mod languages;
pub mod split;
pub mod text;
pub mod time_unit;

pub use compact::{format_5chars, Style};
pub use duration::Duration;
pub use formatter::{Formatter, TooLow};
pub use language::Language;
pub use languages::any::{boxup, from_isolang, from_name, AnyLanguage, IntoAnyLanguage};
pub use languages::english::English;
pub use split::split_up;
pub use time_unit::{dominant_time_unit, TimeUnit};
