//! Text-shaping support: the script identifiers the shaping engine accepts.

pub mod script;
