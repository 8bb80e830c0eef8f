//! The logger: a threshold, the knowledge of whether a log file is
//! attached, and the decision of what each call sends where.

use vstd::prelude::*;
use crate::clock::{stamp_text, Minute};
use crate::emission::{compose, emission, line_text, Emission, EmissionView};
use crate::level::Level;

verus! {

/// The message that reports a log file that could not be created.
pub open spec fn open_failure_text(filename: Seq<char>, reason: Seq<char>) -> Seq<char> {
    "Could not create logfile: "@ + filename + " -> "@ + reason
}

/// The message that reports a failed write to the log file.
pub open spec fn write_failure_text() -> Seq<char> {
    "Could not write to logfile"@
}

/// An optional emission as plain sequences of characters.
pub open spec fn view_of(answer: Option<Emission>) -> Option<EmissionView> {
    match answer {
        Some(e) => Some(e@),
        None => None,
    }
}

/// What a logger answers to a call whose minute is written `timestamp`:
/// nothing below the threshold, the emission of the message from the
/// threshold upwards.
pub open spec fn response(
    threshold: Level,
    to_file: bool,
    timestamp: Seq<char>,
    message: Seq<char>,
    level: Level,
) -> Option<EmissionView> {
    if level.rank() < threshold.rank() {
        None
    } else {
        Some(emission(to_file, timestamp, level, message))
    }
}

/// A leveled logger.
#[derive(Debug)]
pub struct Logger {
    current_level: Level,
    log_file: bool,
}

impl Logger {
    /// The lowest level that the logger lets through.
    pub closed spec fn threshold(self) -> Level {
        self.current_level
    }

    /// Whether a log file is attached.
    pub closed spec fn has_file(self) -> bool {
        self.log_file
    }

    /// A logger for the console alone.
    pub fn create(level: Level) -> (logger: Logger)
        ensures
            logger.threshold() == level,
            !logger.has_file(),
    {
        Logger { current_level: level, log_file: false }
    }

    /// A logger that has taken note of the attempt, made at the minute
    /// `at`, to create its log file `filename`, and the report of the
    /// attempt, if it failed; see [`Logger::create_log_file`].
    pub fn create_with_logfile(
        at: Minute,
        level: Level,
        filename: &str,
        opened: Result<(), String>,
    ) -> (r: (Logger, Option<Emission>))
        ensures
            r.0.threshold() == level,
            r.0.has_file() == (opened is Ok),
            view_of(r.1) == match opened {
                Ok(_) => None,
                Err(reason) => response(
                    level,
                    false,
                    stamp_text(at@),
                    open_failure_text(filename@, reason@),
                    Level::ERROR,
                ),
            },
    {
        let mut logger = Logger::create(level);
        let report = logger.create_log_file(at, filename, opened);
        (logger, report)
    }

    /// Takes note of the attempt, made at the minute `at`, to create the
    /// log file `filename`.
    ///
    /// After `Ok` the logger writes to the file from the next call on. After
    /// `Err` with the reason of the failure it goes on without a file, and
    /// the answer is the report of the failure: a message of level `ERROR`,
    /// logged as the logger stood before the attempt.
    pub fn create_log_file(&mut self, at: Minute, filename: &str, opened: Result<(), String>) -> (report:
        Option<Emission>)
        ensures
            final(self).threshold() == old(self).threshold(),
            final(self).has_file() == (opened is Ok),
            view_of(report) == match opened {
                Ok(_) => None,
                Err(reason) => response(
                    old(self).threshold(),
                    old(self).has_file(),
                    stamp_text(at@),
                    open_failure_text(filename@, reason@),
                    Level::ERROR,
                ),
            },
    {
        match opened {
            Ok(_) => {
                self.log_file = true;
                None
            },
            Err(reason) => {
                let mut message = String::from_str("Could not create logfile: ");
                message.append(filename);
                message.append(" -> ");
                message.append(reason.as_str());
                let report = self.log(at, message.as_str(), Level::ERROR);
                self.log_file = false;
                report
            },
        }
    }

    /// Replaces the threshold.
    pub fn set_level(&mut self, level: Level)
        ensures
            final(self).threshold() == level,
            final(self).has_file() == old(self).has_file(),
    {
        self.current_level = level;
    }

    /// The threshold.
    pub fn level(&self) -> (level: Level)
        ensures
            level == self.threshold(),
    {
        self.current_level
    }

    /// Whether a log file is attached.
    pub fn has_log_file(&self) -> (attached: bool)
        ensures
            attached == self.has_file(),
    {
        self.log_file
    }

    /// Whether a call at `level` passes the threshold. Where it does not,
    /// there is no need to read the clock for it.
    pub fn permits(&self, level: Level) -> (passes: bool)
        ensures
            passes == (level.rank() >= self.threshold().rank()),
    {
        level.idx() >= self.current_level.idx()
    }

    /// Logs `message` at `level`, at the minute `at`.
    ///
    /// Below the threshold the answer is `None`: there is nothing to write
    /// and nothing to print. From the threshold upwards it is the emission
    /// to carry out: the text to append to the log file, if one is attached,
    /// and the line to print.
    pub fn log(&self, at: Minute, message: &str, level: Level) -> (answer: Option<Emission>)
        ensures
            view_of(answer) == response(
                self.threshold(),
                self.has_file(),
                stamp_text(at@),
                message@,
                level,
            ),
    {
        if self.permits(level) {
            let timestamp = at.timestamp();
            Some(compose(self.log_file, timestamp.as_str(), level, message))
        } else {
            None
        }
    }

    /// Logs `message` at level `TRACE`.
    pub fn trace(&self, at: Minute, message: &str) -> (answer: Option<Emission>)
        ensures
            view_of(answer) == response(
                self.threshold(),
                self.has_file(),
                stamp_text(at@),
                message@,
                Level::TRACE,
            ),
    {
        self.log(at, message, Level::TRACE)
    }

    /// Logs `message` at level `DEBUG`.
    pub fn debug(&self, at: Minute, message: &str) -> (answer: Option<Emission>)
        ensures
            view_of(answer) == response(
                self.threshold(),
                self.has_file(),
                stamp_text(at@),
                message@,
                Level::DEBUG,
            ),
    {
        self.log(at, message, Level::DEBUG)
    }

    /// Logs `message` at level `INFO`.
    pub fn info(&self, at: Minute, message: &str) -> (answer: Option<Emission>)
        ensures
            view_of(answer) == response(
                self.threshold(),
                self.has_file(),
                stamp_text(at@),
                message@,
                Level::INFO,
            ),
    {
        self.log(at, message, Level::INFO)
    }

    /// Logs `message` at level `WARN`.
    pub fn warn(&self, at: Minute, message: &str) -> (answer: Option<Emission>)
        ensures
            view_of(answer) == response(
                self.threshold(),
                self.has_file(),
                stamp_text(at@),
                message@,
                Level::WARN,
            ),
    {
        self.log(at, message, Level::WARN)
    }

    /// Logs `message` at level `ERROR`.
    pub fn error(&self, at: Minute, message: &str) -> (answer: Option<Emission>)
        ensures
            view_of(answer) == response(
                self.threshold(),
                self.has_file(),
                stamp_text(at@),
                message@,
                Level::ERROR,
            ),
    {
        self.log(at, message, Level::ERROR)
    }

    /// Logs `message` at level `FATAL`.
    pub fn fatal(&self, at: Minute, message: &str) -> (answer: Option<Emission>)
        ensures
            view_of(answer) == response(
                self.threshold(),
                self.has_file(),
                stamp_text(at@),
                message@,
                Level::FATAL,
            ),
    {
        self.log(at, message, Level::FATAL)
    }

    /// The report of a write to the log file that failed at the minute
    /// `at`: a message of level `ERROR` for the console alone. It is
    /// filtered like every message of its level, so a logger whose
    /// threshold is `FATAL` reports nothing.
    pub fn write_failed(&self, at: Minute) -> (report: Option<Emission>)
        ensures
            view_of(report) == response(
                self.threshold(),
                false,
                stamp_text(at@),
                write_failure_text(),
                Level::ERROR,
            ),
    {
        let console_only = Logger { current_level: self.current_level, log_file: false };
        console_only.log(at, "Could not write to logfile", Level::ERROR)
    }
}

/// A logger suppresses every call below its threshold: there is no
/// emission, so nothing is written and nothing is printed.
pub proof fn lemma_below_threshold_is_silent(
    logger: Logger,
    timestamp: Seq<char>,
    message: Seq<char>,
    level: Level,
)
    requires
        level.rank() < logger.threshold().rank(),
    ensures
        response(logger.threshold(), logger.has_file(), timestamp, message, level) is None,
{
}

/// A logger emits a call at its threshold: the boundary is inclusive.
pub proof fn lemma_threshold_is_inclusive(logger: Logger, timestamp: Seq<char>, message: Seq<char>)
    ensures
        response(logger.threshold(), logger.has_file(), timestamp, message, logger.threshold())
            == Some(emission(logger.has_file(), timestamp, logger.threshold(), message)),
{
}

/// A logger emits every call from its threshold upwards.
pub proof fn lemma_from_threshold_upwards(
    logger: Logger,
    timestamp: Seq<char>,
    message: Seq<char>,
    level: Level,
)
    requires
        level.rank() >= logger.threshold().rank(),
    ensures
        response(logger.threshold(), logger.has_file(), timestamp, message, level) == Some(
            emission(logger.has_file(), timestamp, level, message),
        ),
{
}

/// A logger without a file answers every permitted call with the styled
/// line for the console, and with nothing for a file.
pub proof fn lemma_console_alone(
    threshold: Level,
    timestamp: Seq<char>,
    message: Seq<char>,
    level: Level,
)
    requires
        level.rank() >= threshold.rank(),
    ensures
        response(threshold, false, timestamp, message, level) matches Some(e) && e.file is None
            && e.console == level.style().rendered(line_text(timestamp, level, message)),
{
}

/// A failed write is reported once, on the console alone, by every logger
/// whose threshold lets level `ERROR` through.
pub proof fn lemma_failed_write_is_reported(threshold: Level, timestamp: Seq<char>)
    ensures
        threshold != Level::FATAL ==> response(
            threshold,
            false,
            timestamp,
            write_failure_text(),
            Level::ERROR,
        ) == Some(emission(false, timestamp, Level::ERROR, write_failure_text())),
        threshold == Level::FATAL ==> response(
            threshold,
            false,
            timestamp,
            write_failure_text(),
            Level::ERROR,
        ) is None,
{
}

} // verus!
