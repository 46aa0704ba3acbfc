use time_tracker::logging::{format_file_line, LogEntry, LogLevel, Logger, MAX_IN_MEMORY_LOGS};

fn entry(message: String, level: LogLevel) -> LogEntry {
    LogEntry {
        timestamp: 0,
        level,
        target: "test".to_string(),
        message,
        module: None,
        file: None,
        line: None,
    }
}

#[test]
fn test_recent_logs() {
    let mut logger = Logger::new();

    for i in 0..MAX_IN_MEMORY_LOGS + 10 {
        logger.log(entry(format!("Test message {}", i), LogLevel::Info), LogLevel::Trace);
    }

    let recent_logs = logger.get_recent_logs();
    assert_eq!(recent_logs.len(), MAX_IN_MEMORY_LOGS);

    let last_log = recent_logs.last().unwrap();
    assert!(last_log.message.contains(&format!("Test message {}", MAX_IN_MEMORY_LOGS + 9)));
}

#[test]
fn test_log_levels() {
    let mut logger = Logger::new();

    logger.log(entry("Info message".to_string(), LogLevel::Info), LogLevel::Trace);
    logger.log(entry("Error message".to_string(), LogLevel::Error), LogLevel::Trace);

    let error_logs = logger.get_recent_logs_by_level(LogLevel::Error);
    assert_eq!(error_logs.len(), 1);
    assert!(error_logs[0].message.contains("Error message"));
}

#[test]
fn the_window_keeps_the_newest_entries_in_order() {
    let mut logger = Logger::new();
    for i in 0..MAX_IN_MEMORY_LOGS + 3 {
        logger.add_log_entry(entry(format!("{}", i), LogLevel::Debug));
    }
    let logs = logger.get_recent_logs();
    assert_eq!(logs.len(), MAX_IN_MEMORY_LOGS);
    assert_eq!(logs[0].message, "3");
    assert_eq!(logs[MAX_IN_MEMORY_LOGS - 1].message, format!("{}", MAX_IN_MEMORY_LOGS + 2));
}

#[test]
fn entries_above_the_maximum_level_are_dropped() {
    let mut logger = Logger::new();
    let line = logger.log(entry("verbose".to_string(), LogLevel::Debug), LogLevel::Info);
    assert!(line.is_none());
    assert_eq!(logger.get_recent_logs().len(), 0);
    let line = logger.log(entry("warned".to_string(), LogLevel::Warn), LogLevel::Info);
    let line = line.unwrap();
    assert!(line.contains(" WARN test unknown:0] warned\n"));
    assert!(line.starts_with('['));
    assert_eq!(logger.get_recent_logs().len(), 1);
}

#[test]
fn file_line_names_the_source() {
    let mut e = entry("hello".to_string(), LogLevel::Error);
    e.file = Some("src/main.rs".to_string());
    e.line = Some(42);
    let line = format_file_line(&e);
    assert!(line.ends_with(" ERROR test src/main.rs:42] hello\n"));
}

#[test]
fn severity_filter_keeps_the_more_severe_entries() {
    let mut logger = Logger::new();
    logger.add_log_entry(entry("e".to_string(), LogLevel::Error));
    logger.add_log_entry(entry("i".to_string(), LogLevel::Info));
    logger.add_log_entry(entry("w".to_string(), LogLevel::Warn));
    logger.add_log_entry(entry("d".to_string(), LogLevel::Debug));
    let kept: Vec<String> = logger.get_recent_logs_up_to_level(LogLevel::Warn).into_iter().map(|e| e.message).collect();
    assert_eq!(kept, vec!["e".to_string(), "w".to_string()]);
}

#[test]
fn short_lines_and_file_names() {
    let line = time_tracker::logging::format_record_line(&entry("hi".to_string(), LogLevel::Info));
    assert!(line.ends_with(" [INFO] test: hi\n"));
    assert_eq!(time_tracker::logging::log_file_name("2024-01-02"), "time_tracker_2024-01-02.log");
    assert!(time_tracker::logging::get_default_log_path().ends_with(".log"));
}
