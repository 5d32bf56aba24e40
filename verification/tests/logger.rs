use action_pull_request_merge::logger::{
    emit, escape_data, workflow_command, CaptureLogger, LogLevel, LogLine, Logger, StdoutSink,
    WriteLogger,
};

#[test]
fn escape_handles_special_chars() {
    assert_eq!(escape_data("a\nb"), "a%0Ab");
    assert_eq!(escape_data("a\rb"), "a%0Db");
    assert_eq!(escape_data("50%"), "50%25");
    assert_eq!(escape_data("plain"), "plain");
}

#[test]
fn capture_logger_records_messages() {
    let mut log = CaptureLogger::new();
    log.info("hi");
    log.warning("careful");
    log.error("bad");
    log.set_failed("dead");
    assert!(log.contains("hi"));
    assert!(log.contains("careful"));
    assert!(log.contains("bad"));
    assert!(log.contains("dead"));
}

fn writer_lines(buf: &[u8]) -> Vec<&str> {
    std::str::from_utf8(buf).unwrap().lines().collect::<Vec<_>>()
}

#[test]
fn write_logger_emits_workflow_command_prefixes() {
    let mut log = WriteLogger::new(Vec::<u8>::new());
    log.info("hello");
    log.warning("careful");
    log.error("bad");
    log.set_failed("dead");
    assert_eq!(
        writer_lines(&log.sink),
        vec!["hello", "::warning::careful", "::error::bad", "::error::dead",],
    );
}

#[test]
fn write_logger_escapes_data_in_warnings_and_errors() {
    let mut log = WriteLogger::new(Vec::<u8>::new());
    log.warning("line1\nline2");
    log.error("50% done\rback");
    assert_eq!(
        writer_lines(&log.sink),
        vec!["::warning::line1%0Aline2", "::error::50%25 done%0Dback"],
    );
}

#[test]
fn write_logger_does_not_escape_info_payload() {
    let mut log = WriteLogger::new(Vec::<u8>::new());
    log.info("50% done");
    assert_eq!(writer_lines(&log.sink), vec!["50% done"]);
}

#[test]
fn escaped_text_never_holds_a_line_break() {
    let e = escape_data("a\r\nb%\n");
    assert_eq!(e, "a%0D%0Ab%25%0A");
    assert!(!e.contains('\n') && !e.contains('\r'));
}

#[test]
fn workflow_command_formats_each_level() {
    assert_eq!(workflow_command(LogLevel::Info, "x\ny"), "x\ny");
    assert_eq!(workflow_command(LogLevel::Warning, "x\ny"), "::warning::x%0Ay");
    assert_eq!(workflow_command(LogLevel::Error, "100%"), "::error::100%25");
}

#[test]
fn capture_logger_prefixes_levels_and_finds_substrings() {
    let mut log = CaptureLogger::new();
    log.warning("careful now");
    log.set_failed("gone");
    assert_eq!(log.lines, vec!["warning: careful now", "failed: gone"]);
    assert!(log.contains("ful no"));
    assert!(log.contains(""));
    assert!(!log.contains("info"));
    assert!(!CaptureLogger::new().contains(""));
}

#[test]
fn write_logger_keeps_non_ascii_bytes() {
    let mut log = WriteLogger::new(Vec::<u8>::new());
    log.info("café 🚀");
    assert_eq!(log.sink, "café 🚀\n".as_bytes());
}

#[test]
fn emit_routes_each_level_to_its_method() {
    let mut log = WriteLogger::new(Vec::<u8>::new());
    for (level, text) in [
        (LogLevel::Info, "plain"),
        (LogLevel::Warning, "odd\nthing"),
        (LogLevel::Error, "100%"),
    ] {
        emit(&mut log, &LogLine { level, message: text.to_string() });
    }
    assert_eq!(
        writer_lines(&log.sink),
        vec!["plain", "::warning::odd%0Athing", "::error::100%25"],
    );
}

#[test]
fn emit_into_capture_logger_keeps_level_prefix() {
    let mut log = CaptureLogger::new();
    emit(&mut log, &LogLine { level: LogLevel::Warning, message: "w".to_string() });
    emit(&mut log, &LogLine { level: LogLevel::Error, message: "e".to_string() });
    assert_eq!(log.lines, vec!["warning: w".to_string(), "error: e".to_string()]);
}

#[test]
fn stdout_logger_accepts_every_level() {
    let mut log = WriteLogger::new(StdoutSink::new());
    log.info("stdout logger test line");
    log.warning("stdout logger test warning");
    log.error("stdout logger test error");
    log.set_failed("stdout logger test failure");
}

#[test]
fn stdout_logger_default_is_usable() {
    let mut log = action_pull_request_merge::StdoutLogger::default();
    log.info("default stdout logger test line");
}

#[test]
fn escaped_data_keeps_percent_sequences_apart() {
    // A literal "%0A" in a message must not read back as a line feed.
    assert_eq!(escape_data("%0A"), "%250A");
    assert_eq!(escape_data("a\r\n%"), "a%0D%0A%25");
}
