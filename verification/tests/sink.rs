use journal_logger::rust_log_level_to_syslog_rpiority;
use journal_logger::Backend;
use journal_logger::InitError;
use journal_logger::Level;
use journal_logger::Logger;
use journal_logger::Output;
use journal_logger::Record;
use journal_logger::SinkSlot;

fn record(level: Level, module: &str, file: &str, line: u32, message: &str) -> Record {
    Record {
        level,
        module: Some(module.to_string()),
        file: Some(file.to_string()),
        line: Some(line),
        message: message.to_string(),
    }
}

fn console_line(logger: &Logger, rec: &Record) -> Option<String> {
    match logger.log(rec) {
        Some(Output::Console(line)) => Some(line),
        Some(Output::Journal(_)) => panic!("journal output from a console sink"),
        None => None,
    }
}

#[test]
fn test_logger() {
    let mut slot = SinkSlot::new();
    let logger = Logger::new(None, Backend::Journal);
    assert!(logger.init(&mut slot).is_ok());
    let messages = [
        (Level::Trace, "log_level=trace"),
        (Level::Debug, "log_level=debug"),
        (Level::Info, "log_level=info"),
        (Level::Warn, "log_level=warn"),
        (Level::Error, "log_level=error"),
    ];
    for (level, message) in messages {
        let rec = record(level, "journal_logger", "src/lib.rs", 1, message);
        let out = logger.log(&rec);
        assert!(out.is_some());
    }
    logger.flush();
}

#[test]
fn test_priority_mapping_values() {
    assert_eq!(rust_log_level_to_syslog_rpiority(Level::Error), 3);
    assert_eq!(rust_log_level_to_syslog_rpiority(Level::Warn), 4);
    assert_eq!(rust_log_level_to_syslog_rpiority(Level::Info), 6);
    assert_eq!(rust_log_level_to_syslog_rpiority(Level::Debug), 7);
    assert_eq!(rust_log_level_to_syslog_rpiority(Level::Trace), 7);
}

#[test]
fn test_below_threshold_no_output() {
    let console = Logger::new(Some(Level::Warn), Backend::Console);
    let journal = Logger::new(Some(Level::Warn), Backend::Journal);
    for level in [Level::Info, Level::Debug, Level::Trace] {
        let rec = record(level, "m", "f.rs", 1, "dropped");
        assert!(console.log(&rec).is_none());
        assert!(journal.log(&rec).is_none());
    }
}

#[test]
fn test_at_or_above_threshold_one_line() {
    let logger = Logger::new(Some(Level::Warn), Backend::Console);
    for (level, expected) in [
        (Level::Warn, "WARN [my_mod,src/main.rs:42] hi"),
        (Level::Error, "ERROR[my_mod,src/main.rs:42] hi"),
    ] {
        let rec = record(level, "my_mod", "src/main.rs", 42, "hi");
        let line = console_line(&logger, &rec).expect("an enabled event must produce a line");
        assert_eq!(line, expected);
    }
}

#[test]
fn test_no_threshold_lets_everything_through() {
    let logger = Logger::new(None, Backend::Console);
    for level in [Level::Error, Level::Warn, Level::Info, Level::Debug, Level::Trace] {
        let rec = record(level, "m", "f.rs", 7, "msg");
        assert!(logger.log(&rec).is_some());
    }
}

#[test]
fn test_enabled_matrix() {
    let logger = Logger::new(Some(Level::Info), Backend::Console);
    assert!(logger.enabled(Level::Error));
    assert!(logger.enabled(Level::Warn));
    assert!(logger.enabled(Level::Info));
    assert!(!logger.enabled(Level::Debug));
    assert!(!logger.enabled(Level::Trace));
}

#[test]
fn test_absent_location_fields_read_as_defaults() {
    let logger = Logger::new(None, Backend::Console);
    let rec = Record {
        level: Level::Info,
        module: None,
        file: None,
        line: None,
        message: "msg".to_string(),
    };
    let line = console_line(&logger, &rec).expect("an enabled event must produce a line");
    assert_eq!(line, "INFO [,:0] msg");
}

#[test]
fn test_second_init_fails() {
    let mut slot = SinkSlot::new();
    assert!(!slot.installed());
    let first = Logger::new(Some(Level::Info), Backend::Journal);
    assert_eq!(first.init(&mut slot), Ok(()));
    assert!(slot.installed());
    let second = Logger::new(None, Backend::Console);
    assert_eq!(second.init(&mut slot), Err(InitError::AlreadyInstalled));
    match slot.active() {
        Some(active) => {
            assert_eq!(active.threshold, Some(Level::Info));
            assert_eq!(active.backend, Backend::Journal);
        },
        None => panic!("the first installation must stay active"),
    }
}

#[test]
fn test_end_to_end_scenario() {
    let mut slot = SinkSlot::new();
    let logger = Logger::new(Some(Level::Info), Backend::Console);
    assert_eq!(logger.init(&mut slot), Ok(()));

    let debug_rec = record(Level::Debug, "app", "src/app.rs", 10, "invisible");
    assert!(logger.log(&debug_rec).is_none());

    let info_rec = record(Level::Info, "app", "src/app.rs", 11, "hello");
    let line = console_line(&logger, &info_rec).expect("an enabled event must produce a line");
    assert!(line.contains("INFO"));
    assert!(line.contains("hello"));

    let late = Logger::new(None, Backend::Console);
    assert_eq!(late.init(&mut slot), Err(InitError::AlreadyInstalled));
}
