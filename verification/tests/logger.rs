use leveled_logger::clock::Minute;
use leveled_logger::emission::Emission;
use leveled_logger::level::Level;
use leveled_logger::logger::Logger;

const LEVELS: [Level; 6] =
    [Level::TRACE, Level::DEBUG, Level::INFO, Level::WARN, Level::ERROR, Level::FATAL];

const STAMP: &str = "01.02.2024 13:37";

/// The minute that is written as `STAMP`.
fn at() -> Minute {
    Minute::new(2024, 2, 1, 13, 37).unwrap()
}

fn painted(level: Level, line: &str) -> String {
    let style = match level {
        Level::TRACE => ansi_term::Color::Blue.normal(),
        Level::DEBUG => ansi_term::Color::Green.normal(),
        Level::INFO => ansi_term::Style::new().bold(),
        Level::WARN => ansi_term::Color::Yellow.normal(),
        Level::ERROR => ansi_term::Color::Red.normal(),
        Level::FATAL => ansi_term::Color::Red.bold(),
    };
    style.paint(line).to_string()
}

/// Whether `emission` is that of `message` at `level`, written at `stamp`.
fn is_emission_at(emission: &Emission, stamp: &str, level: Level, message: &str, to_file: bool) -> bool {
    let line = format!("[{}] [{}] {}", stamp, level.name(), message);
    let file = if to_file { Some(format!("{}\n", line)) } else { None };
    emission.file == file && emission.console == painted(level, &line)
}

#[test]
fn test_logging() {
    let missing = "No such file or directory (os error 2)".to_string();
    for opened in [Ok(()), Err(missing)] {
        let attached = opened.is_ok();
        let mut logger = Logger::create(Level::TRACE);
        let report = logger.create_log_file(at(), "log/test.log", opened);
        assert_eq!(report.is_none(), attached);
        assert_eq!(logger.has_log_file(), attached);
        let message = format!("Hello {}", "world");
        let answers = [
            logger.trace(at(), &message),
            logger.debug(at(), &message),
            logger.info(at(), &message),
            logger.warn(at(), &message),
            logger.error(at(), &message),
            logger.fatal(at(), &message),
        ];
        for (answer, level) in answers.iter().zip(LEVELS) {
            let emission = answer.as_ref().unwrap();
            assert!(is_emission_at(emission, STAMP, level, "Hello world", attached));
        }
    }
}

#[test]
fn test_log_file() {
    let (logger, report) = Logger::create_with_logfile(at(), Level::TRACE, "test.log", Ok(()));
    assert!(logger.has_log_file());
    assert!(report.is_none());
    let emission = logger.info(at(), "Test").unwrap();
    assert_eq!(emission.file.as_deref(), Some("[01.02.2024 13:37] [INFO] Test\n"));
    assert_eq!(emission.console, "\x1b[1m[01.02.2024 13:37] [INFO] Test\x1b[0m");
}

#[test]
fn new_logger_has_its_level_and_no_file() {
    for level in LEVELS {
        let logger = Logger::create(level);
        assert_eq!(logger.level(), level);
        assert!(!logger.has_log_file());
    }
}

#[test]
fn calls_below_the_threshold_are_suppressed() {
    for threshold in LEVELS {
        for level in LEVELS {
            if level.idx() < threshold.idx() {
                let mut logger = Logger::create(threshold);
                assert!(!logger.permits(level));
                assert!(logger.log(at(), "quiet", level).is_none());
                logger.create_log_file(at(), "app.log", Ok(()));
                assert!(!logger.permits(level));
                assert!(logger.log(at(), "quiet", level).is_none());
            }
        }
    }
}

#[test]
fn calls_at_the_threshold_are_emitted() {
    for threshold in LEVELS {
        let logger = Logger::create(threshold);
        assert!(logger.permits(threshold));
        let emission = logger.log(at(), "edge", threshold).unwrap();
        assert!(is_emission_at(&emission, STAMP, threshold, "edge", false));
    }
}

#[test]
fn calls_pass_from_the_threshold_upwards() {
    for threshold in LEVELS {
        for level in LEVELS {
            let logger = Logger::create(threshold);
            let passes = level.idx() >= threshold.idx();
            assert_eq!(logger.permits(level), passes);
            assert_eq!(logger.log(at(), "m", level).is_some(), passes);
        }
    }
}

#[test]
fn warn_logger_drops_info_and_keeps_warn_and_error() {
    let logger = Logger::create(Level::WARN);
    assert!(logger.info(at(), "a").is_none());
    let b = logger.warn(at(), "b").unwrap();
    let c = logger.error(at(), "c").unwrap();
    assert_eq!(b.console, "\x1b[33m[01.02.2024 13:37] [WARN] b\x1b[0m");
    assert_eq!(c.console, "\x1b[31m[01.02.2024 13:37] [ERROR] c\x1b[0m");
    assert_eq!(b.file, None);
    assert_eq!(c.file, None);
}

#[test]
fn warn_logger_with_a_file_writes_the_plain_lines() {
    let (logger, _) = Logger::create_with_logfile(at(), Level::WARN, "app.log", Ok(()));
    assert!(logger.info(at(), "a").is_none());
    let b = logger.warn(at(), "b").unwrap();
    let c = logger.error(at(), "c").unwrap();
    assert_eq!(b.file.as_deref(), Some("[01.02.2024 13:37] [WARN] b\n"));
    assert_eq!(c.file.as_deref(), Some("[01.02.2024 13:37] [ERROR] c\n"));
    assert_eq!(b.console, "\x1b[33m[01.02.2024 13:37] [WARN] b\x1b[0m");
    assert_eq!(c.console, "\x1b[31m[01.02.2024 13:37] [ERROR] c\x1b[0m");
}

#[test]
fn trace_logger_with_a_file_writes_one_line() {
    let mut logger = Logger::create(Level::TRACE);
    assert!(logger.create_log_file(at(), "trace.log", Ok(())).is_none());
    assert!(logger.has_log_file());
    let emission = logger.trace(at(), "x").unwrap();
    assert_eq!(emission.file.as_deref(), Some("[01.02.2024 13:37] [TRACE] x\n"));
    assert_eq!(emission.console, "\x1b[34m[01.02.2024 13:37] [TRACE] x\x1b[0m");
    assert_eq!(emission.file.unwrap().matches('\n').count(), 1);
}

#[test]
fn line_holds_the_minute_of_the_call() {
    let logger = Logger::create(Level::TRACE);
    let early = Minute::new(1999, 12, 31, 23, 59).unwrap();
    let late = Minute::new(2026, 10, 28, 3, 5).unwrap();
    assert_eq!(
        logger.info(early, "m").unwrap().console,
        "\x1b[1m[31.12.1999 23:59] [INFO] m\x1b[0m"
    );
    assert_eq!(
        logger.info(late, "m").unwrap().console,
        "\x1b[1m[28.10.2026 03:05] [INFO] m\x1b[0m"
    );
    assert!(is_emission_at(&logger.debug(late, "m").unwrap(), &late.timestamp(), Level::DEBUG, "m", false));
}

#[test]
fn console_text_of_each_level() {
    let logger = Logger::create(Level::TRACE);
    let console = |level: Level| logger.log(at(), "m", level).unwrap().console;
    assert_eq!(console(Level::TRACE), "\x1b[34m[01.02.2024 13:37] [TRACE] m\x1b[0m");
    assert_eq!(console(Level::DEBUG), "\x1b[32m[01.02.2024 13:37] [DEBUG] m\x1b[0m");
    assert_eq!(console(Level::INFO), "\x1b[1m[01.02.2024 13:37] [INFO] m\x1b[0m");
    assert_eq!(console(Level::WARN), "\x1b[33m[01.02.2024 13:37] [WARN] m\x1b[0m");
    assert_eq!(console(Level::ERROR), "\x1b[31m[01.02.2024 13:37] [ERROR] m\x1b[0m");
    assert_eq!(console(Level::FATAL), "\x1b[1;31m[01.02.2024 13:37] [FATAL] m\x1b[0m");
}

#[test]
fn console_text_is_the_line_in_the_style_of_its_level() {
    let logger = Logger::create(Level::TRACE);
    for level in LEVELS {
        let line = format!("[{}] [{}] painted", STAMP, level.name());
        let emission = logger.log(at(), "painted", level).unwrap();
        assert_eq!(emission.console, painted(level, &line));
        assert_ne!(emission.console, line);
    }
}

#[test]
fn file_text_is_never_styled_and_console_text_always_is() {
    let (logger, _) = Logger::create_with_logfile(at(), Level::TRACE, "app.log", Ok(()));
    for level in LEVELS {
        let emission = logger.log(at(), "plain words", level).unwrap();
        assert!(!emission.file.unwrap().contains('\x1b'));
        assert!(emission.console.starts_with("\x1b["));
        assert!(emission.console.ends_with("\x1b[0m"));
    }
}

#[test]
fn styling_in_a_message_is_passed_on_as_it_is() {
    let (logger, _) = Logger::create_with_logfile(at(), Level::TRACE, "app.log", Ok(()));
    let emission = logger.info(at(), "\x1b[31mred").unwrap();
    assert_eq!(emission.file.as_deref(), Some("[01.02.2024 13:37] [INFO] \x1b[31mred\n"));
}

#[test]
fn permitted_calls_give_as_many_lines_in_their_order() {
    let (logger, _) = Logger::create_with_logfile(at(), Level::DEBUG, "app.log", Ok(()));
    let calls = [
        ("first", Level::DEBUG),
        ("second", Level::FATAL),
        ("third", Level::INFO),
        ("fourth", Level::DEBUG),
        ("fifth", Level::ERROR),
    ];
    let mut file = String::new();
    for (message, level) in calls {
        file.push_str(&logger.log(at(), message, level).unwrap().file.unwrap());
    }
    let lines: Vec<&str> = file.lines().collect();
    assert_eq!(
        lines,
        vec![
            "[01.02.2024 13:37] [DEBUG] first",
            "[01.02.2024 13:37] [FATAL] second",
            "[01.02.2024 13:37] [INFO] third",
            "[01.02.2024 13:37] [DEBUG] fourth",
            "[01.02.2024 13:37] [ERROR] fifth",
        ]
    );
    assert!(file.ends_with('\n'));
}

#[test]
fn suppressed_calls_leave_no_line_between_the_others() {
    let (logger, _) = Logger::create_with_logfile(at(), Level::WARN, "app.log", Ok(()));
    let mut file = String::new();
    let calls = [("a", Level::INFO), ("b", Level::WARN), ("c", Level::TRACE), ("d", Level::ERROR)];
    for (message, level) in calls {
        if let Some(emission) = logger.log(at(), message, level) {
            file.push_str(&emission.file.unwrap());
        }
    }
    assert_eq!(file, "[01.02.2024 13:37] [WARN] b\n[01.02.2024 13:37] [ERROR] d\n");
}

#[test]
fn line_break_in_a_message_is_written_as_it_is() {
    let (logger, _) = Logger::create_with_logfile(at(), Level::TRACE, "app.log", Ok(()));
    let emission = logger.info(at(), "one\ntwo").unwrap();
    assert_eq!(emission.file.as_deref(), Some("[01.02.2024 13:37] [INFO] one\ntwo\n"));
}

#[test]
fn failed_attachment_is_reported_and_the_console_goes_on() {
    let mut logger = Logger::create(Level::INFO);
    let reason = "No such file or directory (os error 2)".to_string();
    let report = logger.create_log_file(at(), "/nowhere/app.log", Err(reason)).unwrap();
    assert_eq!(report.file, None);
    assert_eq!(
        report.console,
        "\x1b[31m[01.02.2024 13:37] [ERROR] Could not create logfile: /nowhere/app.log -> \
         No such file or directory (os error 2)\x1b[0m"
    );
    assert!(!logger.has_log_file());
    assert_eq!(logger.level(), Level::INFO);
    let emission = logger.info(at(), "still here").unwrap();
    assert_eq!(emission.file, None);
    assert_eq!(emission.console, "\x1b[1m[01.02.2024 13:37] [INFO] still here\x1b[0m");
}

#[test]
fn failed_attachment_at_creation_is_reported() {
    let reason = "Permission denied (os error 13)".to_string();
    let (logger, report) = Logger::create_with_logfile(at(), Level::TRACE, "/root.log", Err(reason));
    assert!(!logger.has_log_file());
    assert_eq!(logger.level(), Level::TRACE);
    let message = "Could not create logfile: /root.log -> Permission denied (os error 13)";
    assert!(is_emission_at(&report.unwrap(), STAMP, Level::ERROR, message, false));
}

#[test]
fn failed_attachment_is_not_reported_above_error() {
    let mut logger = Logger::create(Level::FATAL);
    assert!(logger.create_log_file(at(), "/nowhere/app.log", Err("denied".to_string())).is_none());
    assert!(!logger.has_log_file());
    let (logger, report) =
        Logger::create_with_logfile(at(), Level::FATAL, "x.log", Err("denied".to_string()));
    assert!(report.is_none());
    assert!(!logger.has_log_file());
}

#[test]
fn failed_attachment_detaches_the_earlier_file_after_the_report() {
    let mut logger = Logger::create(Level::DEBUG);
    assert!(logger.create_log_file(at(), "first.log", Ok(())).is_none());
    assert!(logger.has_log_file());
    let report = logger.create_log_file(at(), "second.log", Err("disk full".to_string())).unwrap();
    let message = "Could not create logfile: second.log -> disk full";
    assert!(is_emission_at(&report, STAMP, Level::ERROR, message, true));
    assert!(!logger.has_log_file());
    assert_eq!(logger.debug(at(), "m").unwrap().file, None);
}

#[test]
fn attachment_can_be_repeated() {
    let mut logger = Logger::create(Level::DEBUG);
    assert!(logger.create_log_file(at(), "first.log", Err("busy".to_string())).is_some());
    assert!(!logger.has_log_file());
    assert!(logger.create_log_file(at(), "first.log", Ok(())).is_none());
    assert!(logger.has_log_file());
    assert!(logger.debug(at(), "m").unwrap().file.is_some());
}

#[test]
fn set_level_takes_effect_at_once() {
    let mut logger = Logger::create(Level::TRACE);
    assert!(logger.debug(at(), "m").is_some());
    logger.set_level(Level::ERROR);
    assert_eq!(logger.level(), Level::ERROR);
    assert!(logger.debug(at(), "m").is_none());
    assert!(logger.warn(at(), "m").is_none());
    assert!(logger.error(at(), "m").is_some());
    logger.set_level(Level::DEBUG);
    assert!(logger.debug(at(), "m").is_some());
    assert!(logger.trace(at(), "m").is_none());
}

#[test]
fn set_level_keeps_the_file() {
    let (mut logger, _) = Logger::create_with_logfile(at(), Level::TRACE, "app.log", Ok(()));
    logger.set_level(Level::WARN);
    assert!(logger.has_log_file());
    assert!(logger.warn(at(), "m").unwrap().file.is_some());
    let mut bare = Logger::create(Level::TRACE);
    bare.set_level(Level::WARN);
    assert!(!bare.has_log_file());
}

#[test]
fn level_methods_log_at_their_level() {
    let (logger, _) = Logger::create_with_logfile(at(), Level::TRACE, "app.log", Ok(()));
    let answers = [
        logger.trace(at(), "m"),
        logger.debug(at(), "m"),
        logger.info(at(), "m"),
        logger.warn(at(), "m"),
        logger.error(at(), "m"),
        logger.fatal(at(), "m"),
    ];
    for (answer, level) in answers.iter().zip(LEVELS) {
        assert!(is_emission_at(answer.as_ref().unwrap(), STAMP, level, "m", true));
    }
}

#[test]
fn level_methods_respect_the_threshold() {
    let logger = Logger::create(Level::WARN);
    assert!(logger.trace(at(), "m").is_none());
    assert!(logger.debug(at(), "m").is_none());
    assert!(logger.info(at(), "m").is_none());
    assert!(logger.warn(at(), "m").is_some());
    assert!(logger.error(at(), "m").is_some());
    assert!(logger.fatal(at(), "m").is_some());
}

#[test]
fn failed_write_is_reported_on_the_console_alone() {
    let (logger, _) = Logger::create_with_logfile(at(), Level::TRACE, "app.log", Ok(()));
    let report = logger.write_failed(at()).unwrap();
    assert_eq!(report.file, None);
    assert_eq!(
        report.console,
        "\x1b[31m[01.02.2024 13:37] [ERROR] Could not write to logfile\x1b[0m"
    );
    assert!(logger.has_log_file());
}

#[test]
fn failed_write_is_reported_up_to_error() {
    for threshold in LEVELS {
        let (logger, _) = Logger::create_with_logfile(at(), threshold, "app.log", Ok(()));
        assert_eq!(logger.write_failed(at()).is_some(), threshold != Level::FATAL);
    }
}
