//! Severity levels, their order, their labels and their console styles.

use vstd::prelude::*;
use crate::style::{Color, Style};

verus! {

/// The severity of a message, from the most verbose to the most urgent.
#[allow(non_camel_case_types)]
#[derive(Clone, Copy, Debug, PartialEq, Eq, Structural)]
pub enum Level {
    TRACE,
    DEBUG,
    INFO,
    WARN,
    ERROR,
    FATAL,
}

impl Level {
    /// The position of the level in the order of severities.
    pub open spec fn rank(self) -> int {
        match self {
            Level::TRACE => 0,
            Level::DEBUG => 1,
            Level::INFO => 2,
            Level::WARN => 3,
            Level::ERROR => 4,
            Level::FATAL => 5,
        }
    }

    /// The label that stands for the level in a log line.
    pub open spec fn label(self) -> Seq<char> {
        match self {
            Level::TRACE => "TRACE"@,
            Level::DEBUG => "DEBUG"@,
            Level::INFO => "INFO"@,
            Level::WARN => "WARN"@,
            Level::ERROR => "ERROR"@,
            Level::FATAL => "FATAL"@,
        }
    }

    /// The console style of the level.
    pub open spec fn style(self) -> Style {
        match self {
            Level::TRACE => Style { foreground: Some(Color::Blue), bold: false },
            Level::DEBUG => Style { foreground: Some(Color::Green), bold: false },
            Level::INFO => Style { foreground: None, bold: true },
            Level::WARN => Style { foreground: Some(Color::Yellow), bold: false },
            Level::ERROR => Style { foreground: Some(Color::Red), bold: false },
            Level::FATAL => Style { foreground: Some(Color::Red), bold: true },
        }
    }

    /// The rank of the level: 0 for `TRACE` up to 5 for `FATAL`.
    pub fn idx(&self) -> (r: i32)
        ensures
            r == self.rank(),
    {
        match self {
            Level::TRACE => 0,
            Level::DEBUG => 1,
            Level::INFO => 2,
            Level::WARN => 3,
            Level::ERROR => 4,
            Level::FATAL => 5,
        }
    }

    /// The upper-case label of the level.
    pub fn name(&self) -> (r: &str)
        ensures
            r@ == self.label(),
    {
        match self {
            Level::TRACE => "TRACE",
            Level::DEBUG => "DEBUG",
            Level::INFO => "INFO",
            Level::WARN => "WARN",
            Level::ERROR => "ERROR",
            Level::FATAL => "FATAL",
        }
    }

    /// The style in which the level's lines are shown on the console.
    pub fn color_code(&self) -> (r: Style)
        ensures
            r == self.style(),
    {
        match self {
            Level::TRACE => Style { foreground: Some(Color::Blue), bold: false },
            Level::DEBUG => Style { foreground: Some(Color::Green), bold: false },
            Level::INFO => Style { foreground: None, bold: true },
            Level::WARN => Style { foreground: Some(Color::Yellow), bold: false },
            Level::ERROR => Style { foreground: Some(Color::Red), bold: false },
            Level::FATAL => Style { foreground: Some(Color::Red), bold: true },
        }
    }
}

/// The ranks run from 0 to 5, and no two levels share one: the order of
/// the levels is total.
pub proof fn lemma_ranks_are_distinct(a: Level, b: Level)
    ensures
        0 <= a.rank() <= 5,
        a.rank() == b.rank() <==> a == b,
{
}

/// No two levels share a label.
pub proof fn lemma_labels_are_distinct(a: Level, b: Level)
    ensures
        a.label() == b.label() <==> a == b,
{
    reveal_strlit("TRACE");
    reveal_strlit("DEBUG");
    reveal_strlit("INFO");
    reveal_strlit("WARN");
    reveal_strlit("ERROR");
    reveal_strlit("FATAL");
    if a != b {
        assert(a.label().len() != b.label().len() || a.label()[0] != b.label()[0]);
    }
}

/// No two levels share a style, and no level is shown plain.
pub proof fn lemma_styles_are_distinct(a: Level, b: Level)
    ensures
        !a.style().is_plain(),
        a.style() == b.style() <==> a == b,
{
}

} // verus!
