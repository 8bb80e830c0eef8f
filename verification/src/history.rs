//! What a sequence of calls sends to the two sinks.

use vstd::prelude::*;
use crate::clock::{stamp_text, MinuteView};
use crate::emission::{file_text, is_one_line, lemma_file_text_is_one_line, line_text};
use crate::level::Level;
use crate::logger::response;

verus! {

/// One call of `log`: its arguments as plain values.
pub struct Call {
    pub at: MinuteView,
    pub message: Seq<char>,
    pub level: Level,
}

impl Call {
    /// The line of the call.
    pub open spec fn line(self) -> Seq<char> {
        line_text(stamp_text(self.at), self.level, self.message)
    }
}

/// The texts handed out for the log file and for the console, each in the
/// order in which they were sent.
pub struct Sent {
    pub file: Seq<Seq<char>>,
    pub console: Seq<Seq<char>>,
}

/// What a logger with this threshold, with or without a file, sends out
/// over a sequence of calls.
pub open spec fn sent(threshold: Level, to_file: bool, calls: Seq<Call>) -> Sent
    decreases calls.len(),
{
    if calls.len() == 0 {
        Sent { file: Seq::empty(), console: Seq::empty() }
    } else {
        let earlier = sent(threshold, to_file, calls.drop_last());
        let call = calls.last();
        match response(threshold, to_file, stamp_text(call.at), call.message, call.level) {
            None => earlier,
            Some(e) => Sent {
                file: match e.file {
                    Some(text) => earlier.file.push(text),
                    None => earlier.file,
                },
                console: earlier.console.push(e.console),
            },
        }
    }
}

/// A call below the threshold leaves both sinks as they were.
pub proof fn lemma_suppressed_call_sends_nothing(
    threshold: Level,
    to_file: bool,
    calls: Seq<Call>,
    call: Call,
)
    requires
        call.level.rank() < threshold.rank(),
    ensures
        sent(threshold, to_file, calls.push(call)) == sent(threshold, to_file, calls),
{
    assert(calls.push(call).drop_last() == calls);
}

/// A call from the threshold upwards adds its styled line to the console
/// and, where a file is attached, its plain line and a line break to the file.
pub proof fn lemma_permitted_call_sends_its_line(
    threshold: Level,
    to_file: bool,
    calls: Seq<Call>,
    call: Call,
)
    requires
        call.level.rank() >= threshold.rank(),
    ensures
        sent(threshold, to_file, calls.push(call)).console == sent(
            threshold,
            to_file,
            calls,
        ).console.push(call.level.style().rendered(call.line())),
        sent(threshold, to_file, calls.push(call)).file == if to_file {
            sent(threshold, to_file, calls).file.push(file_text(call.line()))
        } else {
            sent(threshold, to_file, calls).file
        },
{
    assert(calls.push(call).drop_last() == calls);
}

/// As many permitted calls, as many writes to the file and as many lines
/// on the console, in the order of the calls. Each write is the line of its
/// call, followed by a line break: one line of the file wherever the
/// message holds no line break of its own.
pub proof fn lemma_permitted_calls_are_sent_in_order(threshold: Level, calls: Seq<Call>)
    requires
        forall|i: int| 0 <= i < calls.len() ==> (#[trigger] calls[i]).level.rank() >= threshold.rank(),
    ensures
        sent(threshold, true, calls).file.len() == calls.len(),
        sent(threshold, true, calls).console.len() == calls.len(),
        forall|i: int|
            0 <= i < calls.len() ==> #[trigger] sent(threshold, true, calls).file[i] == file_text(
                calls[i].line(),
            ),
        forall|i: int|
            0 <= i < calls.len() ==> #[trigger] sent(threshold, true, calls).console[i]
                == calls[i].level.style().rendered(calls[i].line()),
        forall|i: int|
            0 <= i < calls.len() && calls[i].at.is_valid() && !calls[i].message.contains('\n')
                ==> is_one_line(#[trigger] sent(threshold, true, calls).file[i]),
    decreases calls.len(),
{
    assert forall|i: int|
        0 <= i < calls.len() && calls[i].at.is_valid() && !calls[i].message.contains(
            '\n',
        ) implies is_one_line(file_text(calls[i].line())) by {
        lemma_file_text_is_one_line(calls[i].at, calls[i].level, calls[i].message);
    }
    if calls.len() > 0 {
        let earlier = calls.drop_last();
        assert forall|i: int| 0 <= i < earlier.len() implies (#[trigger] earlier[i]).level.rank()
            >= threshold.rank() by {
            assert(earlier[i] == calls[i]);
        }
        lemma_permitted_calls_are_sent_in_order(threshold, earlier);
        assert(calls.last() == calls[calls.len() - 1]);
    }
}

/// A logger without a file never hands out anything for a file.
pub proof fn lemma_nothing_for_a_missing_file(threshold: Level, calls: Seq<Call>)
    ensures
        sent(threshold, false, calls).file.len() == 0,
    decreases calls.len(),
{
    if calls.len() > 0 {
        lemma_nothing_for_a_missing_file(threshold, calls.drop_last());
    }
}

} // verus!
