use logbuf::level::LogLevel;
use logbuf::path::Platform;
use logbuf::time::Timestamp;
use logbuf::{FlushAction, LogEntry, Logger};

fn ts(year: i32, month: u8, day: u8, hour: u8, minute: u8, second: u8) -> Timestamp {
    Timestamp { year, month, day, hour, minute, second }
}

fn entry(level: LogLevel, message: &str, second: u8) -> LogEntry {
    LogEntry { timestamp: ts(2024, 1, 2, 3, 4, second), level, message: message.to_string() }
}

fn four_entries() -> Vec<LogEntry> {
    vec![
        entry(LogLevel::Info, "a", 1),
        entry(LogLevel::Error, "b", 2),
        entry(LogLevel::Debug, "c", 3),
        entry(LogLevel::Error, "d", 4),
    ]
}

fn buffer_with(entries: Vec<LogEntry>) -> Logger {
    Logger { entries, file_path: Some(String::from("/tmp/app.log")), flushed: false }
}

fn written_lines(action: FlushAction) -> Vec<String> {
    match action {
        FlushAction::NoIo => panic!("expected a write, got no I/O"),
        FlushAction::Write { path: _, lines } => lines,
    }
}

#[test]
fn error_filter_writes_exactly_the_error_lines() {
    let logger = buffer_with(four_entries());
    let lines = written_lines(logger.flush(LogLevel::Error, Platform::Unix));
    assert_eq!(
        lines,
        vec![
            "[2024-01-02 03-04-02] Error: b".to_string(),
            "[2024-01-02 03-04-04] Error: d".to_string(),
        ]
    );
}

#[test]
fn default_filter_keeps_every_entry_in_order() {
    let logger = buffer_with(four_entries());
    let lines = written_lines(logger.flush(LogLevel::Default, Platform::Unix));
    assert_eq!(
        lines,
        vec![
            "[2024-01-02 03-04-01] Info: a".to_string(),
            "[2024-01-02 03-04-02] Error: b".to_string(),
            "[2024-01-02 03-04-03] Debug: c".to_string(),
            "[2024-01-02 03-04-04] Error: d".to_string(),
        ]
    );
}

#[test]
fn debug_filter_keeps_every_entry_in_order() {
    let logger = buffer_with(four_entries());
    let lines = written_lines(logger.flush(LogLevel::Debug, Platform::Unix));
    assert_eq!(lines.len(), 4);
}

#[test]
fn info_filter_writes_exactly_the_info_line() {
    let logger = buffer_with(vec![
        entry(LogLevel::Error, "x", 7),
        entry(LogLevel::Info, "y", 8),
    ]);
    let lines = written_lines(logger.flush(LogLevel::Info, Platform::Unix));
    assert_eq!(lines, vec!["[2024-01-02 03-04-08] Info: y".to_string()]);
}

#[test]
fn empty_buffer_flushes_zero_lines() {
    let logger = Logger::new(String::from("/tmp/empty.log"));
    match logger.flush(LogLevel::Default, Platform::Unix) {
        FlushAction::NoIo => panic!("an unflushed buffer must ask for a write"),
        FlushAction::Write { path, lines } => {
            assert_eq!(path, "/tmp/empty.log");
            assert!(lines.is_empty());
        }
    }
}

#[test]
fn second_flush_asks_for_no_io() {
    let mut logger = Logger::new(String::from("/tmp/twice.log"));
    logger.error("once");
    match logger.flush(LogLevel::Default, Platform::Unix) {
        FlushAction::Write { path: _, lines } => assert_eq!(lines.len(), 1),
        FlushAction::NoIo => panic!("first flush must write"),
    }
    logger.mark_flushed();
    assert!(matches!(
        logger.flush(LogLevel::Default, Platform::Unix),
        FlushAction::NoIo
    ));
    assert!(matches!(
        logger.flush(LogLevel::Error, Platform::Windows),
        FlushAction::NoIo
    ));
}

#[test]
fn failed_flush_leaves_buffer_retryable() {
    // The buffer itself never changes on a flush; only mark_flushed, which a
    // host calls after all writes succeeded, flips the flag. A failed write
    // therefore leaves a buffer that flushes again in full.
    let logger = buffer_with(four_entries());
    let first = written_lines(logger.flush(LogLevel::Default, Platform::Unix));
    assert!(!logger.flushed);
    let second = written_lines(logger.flush(LogLevel::Default, Platform::Unix));
    assert_eq!(first, second);
}

#[test]
fn distinct_record_times_survive_to_the_output() {
    let logger = buffer_with(vec![
        entry(LogLevel::Info, "same text", 10),
        entry(LogLevel::Info, "same text", 11),
    ]);
    let lines = written_lines(logger.flush(LogLevel::Default, Platform::Unix));
    assert_eq!(lines[0], "[2024-01-02 03-04-10] Info: same text");
    assert_eq!(lines[1], "[2024-01-02 03-04-11] Info: same text");
    assert_ne!(lines[0], lines[1]);
}

#[test]
fn recording_stamps_entries_with_a_calendar_moment() {
    let mut logger = Logger::new(String::from("/tmp/now.log"));
    logger.debug("d");
    logger.info("i");
    logger.error("e");
    assert_eq!(logger.entries.len(), 3);
    assert!(matches!(logger.entries[0].level, LogLevel::Debug));
    assert!(matches!(logger.entries[1].level, LogLevel::Info));
    assert!(matches!(logger.entries[2].level, LogLevel::Error));
    assert_eq!(logger.entries[0].message, "d");
    assert_eq!(logger.entries[1].message, "i");
    assert_eq!(logger.entries[2].message, "e");
    for e in &logger.entries {
        let t = e.timestamp;
        assert!((1..=12).contains(&t.month));
        assert!((1..=31).contains(&t.day));
        assert!(t.hour < 24);
        assert!(t.minute < 60);
        assert!(t.second < 60);
        assert!(t.year >= 2024);
    }
}

#[test]
fn unbound_buffer_flushes_to_the_platform_default() {
    let logger = Logger::new_unbound();
    match logger.flush(LogLevel::Default, Platform::Unix) {
        FlushAction::Write { path, lines } => {
            assert_eq!(path, "/var/log/log.txt");
            assert!(lines.is_empty());
        }
        FlushAction::NoIo => panic!("an unflushed buffer must ask for a write"),
    }
}

#[test]
fn empty_message_is_recorded_and_written() {
    let logger = buffer_with(vec![entry(LogLevel::Info, "", 9)]);
    let lines = written_lines(logger.flush(LogLevel::Info, Platform::Unix));
    assert_eq!(lines, vec!["[2024-01-02 03-04-09] Info: ".to_string()]);
}
