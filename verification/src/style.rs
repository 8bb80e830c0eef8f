//! Console styles: a foreground colour and a weight, and the ANSI escape
//! sequences that switch them on and off.

use vstd::prelude::*;

verus! {

/// The character that starts every ANSI escape sequence.
pub const ESCAPE: char = '\x1b';

/// A foreground colour of the terminal's basic palette.
#[derive(Clone, Copy, Debug, PartialEq, Eq, Structural)]
pub enum Color {
    Red,
    Green,
    Yellow,
    Blue,
}

impl Color {
    /// The number that selects this colour as foreground in an escape sequence.
    pub open spec fn code(self) -> Seq<char> {
        match self {
            Color::Red => "31"@,
            Color::Green => "32"@,
            Color::Yellow => "33"@,
            Color::Blue => "34"@,
        }
    }
}

/// How a line is rendered on the console.
#[derive(Clone, Copy, Debug, PartialEq, Eq, Structural)]
pub struct Style {
    /// The foreground colour; `None` keeps the terminal's own.
    pub foreground: Option<Color>,
    /// Whether the text is bold.
    pub bold: bool,
}

impl Style {
    /// A style that changes nothing is written without any escape sequence.
    pub open spec fn is_plain(self) -> bool {
        !self.bold && self.foreground is None
    }

    /// The numbers between `ESC [` and `m`: `1` for bold, then the colour.
    pub open spec fn codes(self) -> Seq<char> {
        match (self.bold, self.foreground) {
            (true, Some(color)) => "1;"@ + color.code(),
            (true, None) => "1"@,
            (false, Some(color)) => color.code(),
            (false, None) => Seq::empty(),
        }
    }

    /// What is written before the text to switch the style on.
    pub open spec fn prefix(self) -> Seq<char> {
        if self.is_plain() {
            Seq::empty()
        } else {
            "\x1b["@ + self.codes() + "m"@
        }
    }

    /// What is written after the text to reset the terminal.
    pub open spec fn suffix(self) -> Seq<char> {
        if self.is_plain() {
            Seq::empty()
        } else {
            "\x1b[0m"@
        }
    }

    /// The text as it goes to the console in this style.
    pub open spec fn rendered(self, text: Seq<char>) -> Seq<char> {
        self.prefix() + text + self.suffix()
    }

    /// Wraps `text` in the escape sequences of this style.
    pub fn render(&self, text: &str) -> (styled: String)
        ensures
            styled@ == self.rendered(text@),
    {
        ansi_paint(*self, text)
    }
}

/// Calls `ansi_term::Style::paint` and turns what it gives into a `String`
/// with `to_string`. The style is handed over field by field, as an
/// `ansi_term::Style` with no background and no attribute but the weight.
/// For such a style ansi_term writes its prefix, the text unchanged, and
/// its suffix. The prefix is `ESC [`, then `1` when bold and the colour's
/// foreground code, separated by `;`, then `m`; the suffix is the reset
/// sequence `ESC [ 0 m`; a plain style has neither.
#[verifier::external_body]
fn ansi_paint(style: Style, text: &str) -> (styled: String)
    ensures
        styled@ == style.rendered(text@),
{
    let foreground = match style.foreground {
        None => None,
        Some(Color::Red) => Some(ansi_term::Colour::Red),
        Some(Color::Green) => Some(ansi_term::Colour::Green),
        Some(Color::Yellow) => Some(ansi_term::Colour::Yellow),
        Some(Color::Blue) => Some(ansi_term::Colour::Blue),
    };
    let outside = ansi_term::Style { foreground, is_bold: style.bold, ..ansi_term::Style::default() };
    outside.paint(text).to_string()
}

} // verus!
