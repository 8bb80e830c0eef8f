//! A small leveled logger.
//!
//! A [`Logger`] compares the severity of each message with its threshold,
//! formats what passes as `[DD.MM.YYYY HH:MM] [LEVEL] message`, and answers
//! with an [`Emission`]: the plain line for the log file, when one is
//! attached, and the same line wrapped in the level's ANSI style for the
//! console. The logger itself never reads a clock and never touches a file
//! or the terminal: the caller hands in the [`Minute`] of each call,
//! carries the emission out, and reports back when a write failed.

pub mod clock;
pub mod emission;
pub mod history;
pub mod level;
pub mod logger;
pub mod style;

pub use crate::clock::Minute;
pub use crate::emission::Emission;
pub use crate::level::Level;
pub use crate::logger::Logger;
pub use crate::style::{Color, Style};
