//! The log line and what one call sends to the two sinks.

use vstd::prelude::*;
use crate::clock::{
    is_timestamp, is_timestamp_char, lemma_stamp_is_timestamp, lemma_timestamp_chars, stamp_text,
    MinuteView,
};
use crate::level::Level;
use crate::style::ESCAPE;

verus! {

/// The line of one message: `[timestamp] [LEVEL] message`.
pub open spec fn line_text(timestamp: Seq<char>, level: Level, message: Seq<char>) -> Seq<char> {
    "["@ + timestamp + "] ["@ + level.label() + "] "@ + message
}

/// What the log file receives for a line: the line and a line break.
pub open spec fn file_text(line: Seq<char>) -> Seq<char> {
    line + "\n"@
}

/// One line and no more: the only line break is the last character.
pub open spec fn is_one_line(text: Seq<char>) -> bool {
    text.len() > 0 && text.last() == '\n' && !text.drop_last().contains('\n')
}

/// What one permitted call sends out.
#[derive(Debug)]
pub struct Emission {
    /// The text to append to the log file; `None` when no file is attached.
    pub file: Option<String>,
    /// The styled line to print on the console, without a line break.
    pub console: String,
}

/// An [`Emission`] as plain sequences of characters.
pub struct EmissionView {
    pub file: Option<Seq<char>>,
    pub console: Seq<char>,
}

impl View for Emission {
    type V = EmissionView;

    open spec fn view(&self) -> EmissionView {
        EmissionView {
            file: match self.file {
                Some(text) => Some(text@),
                None => None,
            },
            console: self.console@,
        }
    }
}

/// The emission of a message: the plain line and a line break for the
/// file, if there is one, and the line in the level's style for the console.
pub open spec fn emission(
    to_file: bool,
    timestamp: Seq<char>,
    level: Level,
    message: Seq<char>,
) -> EmissionView {
    let line = line_text(timestamp, level, message);
    EmissionView {
        file: if to_file {
            Some(file_text(line))
        } else {
            None
        },
        console: level.style().rendered(line),
    }
}

/// Formats one log line.
pub fn format_line(timestamp: &str, level: Level, message: &str) -> (line: String)
    ensures
        line@ == line_text(timestamp@, level, message@),
{
    let mut line = String::from_str("[");
    line.append(timestamp);
    line.append("] [");
    line.append(level.name());
    line.append("] ");
    line.append(message);
    line
}

/// Formats a message for both sinks.
pub(crate) fn compose(to_file: bool, timestamp: &str, level: Level, message: &str) -> (e: Emission)
    ensures
        e@ == emission(to_file, timestamp@, level, message@),
{
    let line = format_line(timestamp, level, message);
    let console = level.color_code().render(line.as_str());
    let file = if to_file {
        let mut text = line;
        text.append("\n");
        Some(text)
    } else {
        None
    };
    Emission { file, console }
}

/// Every line reads `[`, the timestamp, `] [`, the label of its level,
/// `] `, and the message as it was given.
pub proof fn lemma_line_carries_label(timestamp: Seq<char>, level: Level, message: Seq<char>)
    ensures
        ({
            let line = line_text(timestamp, level, message);
            let label = level.label();
            let t = timestamp.len() as int;
            let l = label.len() as int;
            &&& line.len() == t + l + 6 + message.len()
            &&& line[0] == '['
            &&& line.subrange(1, 1 + t) == timestamp
            &&& line[1 + t] == ']'
            &&& line[2 + t] == ' '
            &&& line[3 + t] == '['
            &&& line.subrange(4 + t, 4 + t + l) == label
            &&& line[4 + t + l] == ']'
            &&& line[5 + t + l] == ' '
            &&& line.skip(6 + t + l) == message
        }),
{
    reveal_strlit("[");
    reveal_strlit("] [");
    reveal_strlit("] ");
}

/// The label of a level is made of upper-case letters.
pub proof fn lemma_label_is_upper_case(level: Level)
    ensures
        4 <= level.label().len() <= 5,
        forall|i: int| 0 <= i < level.label().len() ==> 'A' <= #[trigger] level.label()[i] <= 'Z',
{
    reveal_strlit("TRACE");
    reveal_strlit("DEBUG");
    reveal_strlit("INFO");
    reveal_strlit("WARN");
    reveal_strlit("ERROR");
    reveal_strlit("FATAL");
}

/// A character that the line has from the message alone: the timestamp,
/// the labels and the brackets never hold it.
pub open spec fn is_foreign(c: char) -> bool {
    !is_timestamp_char(c) && !('A' <= c <= 'Z') && c != '[' && c != ']'
}

/// What neither of two texts holds, the two put together do not hold.
proof fn lemma_joined_keeps_out(c: char, head: Seq<char>, tail: Seq<char>)
    requires
        !head.contains(c),
        !tail.contains(c),
    ensures
        !(head + tail).contains(c),
{
    assert forall|i: int| 0 <= i < (head + tail).len() implies (head + tail)[i] != c by {
        if i < head.len() {
            assert(head.contains(head[i]));
        } else {
            assert(tail.contains(tail[i - head.len()]));
        }
    }
}

/// A character that neither timestamps nor labels nor brackets hold is in
/// a line only if the message brought it.
pub proof fn lemma_line_keeps_out(c: char, timestamp: Seq<char>, level: Level, message: Seq<char>)
    requires
        is_foreign(c),
        is_timestamp(timestamp),
        !message.contains(c),
    ensures
        !line_text(timestamp, level, message).contains(c),
{
    let label = level.label();
    assert(!"["@.contains(c)) by {
        reveal_strlit("[");
    }
    assert(!timestamp.contains(c)) by {
        lemma_timestamp_chars(timestamp);
    }
    assert(!"] ["@.contains(c)) by {
        reveal_strlit("] [");
    }
    assert(!label.contains(c)) by {
        lemma_label_is_upper_case(level);
    }
    assert(!"] "@.contains(c)) by {
        reveal_strlit("] ");
    }
    lemma_joined_keeps_out(c, "["@, timestamp);
    lemma_joined_keeps_out(c, "["@ + timestamp, "] ["@);
    lemma_joined_keeps_out(c, "["@ + timestamp + "] ["@, label);
    lemma_joined_keeps_out(c, "["@ + timestamp + "] ["@ + label, "] "@);
    lemma_joined_keeps_out(c, "["@ + timestamp + "] ["@ + label + "] "@, message);
}

/// The text for the file holds no escape character, so no ANSI styling,
/// unless the message itself brought one.
pub proof fn lemma_file_text_is_unstyled(at: MinuteView, level: Level, message: Seq<char>)
    requires
        at.is_valid(),
        !message.contains(ESCAPE),
    ensures
        !file_text(line_text(stamp_text(at), level, message)).contains(ESCAPE),
{
    lemma_stamp_is_timestamp(at);
    lemma_line_keeps_out(ESCAPE, stamp_text(at), level, message);
    assert(!"\n"@.contains(ESCAPE)) by {
        reveal_strlit("\n");
    }
    lemma_joined_keeps_out(ESCAPE, line_text(stamp_text(at), level, message), "\n"@);
}

/// The text for the file is one line, unless the message itself brought
/// a line break.
pub proof fn lemma_file_text_is_one_line(at: MinuteView, level: Level, message: Seq<char>)
    requires
        at.is_valid(),
        !message.contains('\n'),
    ensures
        is_one_line(file_text(line_text(stamp_text(at), level, message))),
{
    let line = line_text(stamp_text(at), level, message);
    lemma_stamp_is_timestamp(at);
    lemma_line_keeps_out('\n', stamp_text(at), level, message);
    reveal_strlit("\n");
    assert(file_text(line).drop_last() == line);
}

/// The text for the console is always styled: it begins with the escape
/// sequence of its level, holds the plain line, and ends with the reset
/// sequence.
pub proof fn lemma_console_text_is_styled(
    to_file: bool,
    timestamp: Seq<char>,
    level: Level,
    message: Seq<char>,
)
    ensures
        ({
            let line = line_text(timestamp, level, message);
            let console = emission(to_file, timestamp, level, message).console;
            let p = level.style().prefix().len() as int;
            &&& !level.style().is_plain()
            &&& 4 <= p <= 7
            &&& console.len() == p + line.len() + 4
            &&& console[0] == ESCAPE
            &&& console.contains(ESCAPE)
            &&& console.subrange(p, p + line.len()) == line
            &&& console.skip(p + line.len()) == "\x1b[0m"@
        }),
{
    reveal_strlit("\x1b[");
    reveal_strlit("\x1b[0m");
    reveal_strlit("m");
    reveal_strlit("1");
    reveal_strlit("1;");
    reveal_strlit("31");
    reveal_strlit("32");
    reveal_strlit("33");
    reveal_strlit("34");
    let console = emission(to_file, timestamp, level, message).console;
    assert(console[0] == ESCAPE);
}

} // verus!
