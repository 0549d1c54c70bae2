//! Scenario tests for the engine's documented behavior: the level filter,
//! the buffer capacity, the flush round trip, rotation, and the lifecycle.

use logkit::buffer::EventBuffer;
use logkit::buffer::BUFFER_CAPACITY;
use logkit::config::LogConfig;
use logkit::engine::LogOutcome;
use logkit::engine::Logger;
use logkit::engine::MAX_LOG_FILE_SIZE;
use logkit::format::format_log_line;
use logkit::format::with_log_suffix;
use logkit::level::passes_filter;
use logkit::level::LogLevel;
use logkit::registry::init;
use logkit::registry::shutdown;
use logkit::registry::LoggerError;
use logkit::registry::Registry;
use logkit::CONSOLE_BG_COLOR_RED;
use logkit::CONSOLE_COLOR_YELLOW;

fn config(level: LogLevel, file: Option<&str>, mode_async: bool, mode_mutex: bool) -> LogConfig {
    LogConfig {
        log_level: level,
        application_name: "engine-test".to_string(),
        log_filepath: file.map(|p| p.to_string()),
        console_flag: true,
        async_flag: mode_async,
        multi_threaded_flag: mode_mutex,
        time_format: "%H:%M:%S".to_string(),
    }
}

#[test]
fn filter_threshold_warn() {
    // Threshold Warn: Info is dropped, Error is delivered.
    assert!(!passes_filter(LogLevel::Info, LogLevel::Warn));
    assert!(passes_filter(LogLevel::Error, LogLevel::Warn));
    assert!(passes_filter(LogLevel::Crit, LogLevel::Warn));

    let mut logger = Logger::new(config(LogLevel::Warn, None, false, false));
    let out = logger.log(LogLevel::Info, "dropped", logkit::CONSOLE_COLOR_BLUE);
    assert!(matches!(out, LogOutcome::Filtered));
    let out = logger.log(LogLevel::Error, "delivered", logkit::CONSOLE_COLOR_RED);
    assert!(matches!(out, LogOutcome::Deliver(_)));
}

#[test]
fn buffer_capacity_boundary() {
    // Filling all but one slot succeeds; the next produce call is dropped,
    // not blocked.
    let mut buffer = EventBuffer::new();
    for i in 0..BUFFER_CAPACITY - 1 {
        assert!(buffer.produce(format!("event {}", i)));
    }
    assert!(!buffer.produce("one too many".to_string()));
    let drained = buffer.drain();
    assert_eq!(drained.len(), BUFFER_CAPACITY - 1);
    assert_eq!(drained[0], "event 0");
    assert_eq!(drained[BUFFER_CAPACITY - 2], format!("event {}", BUFFER_CAPACITY - 2));
    // After draining, the buffer accepts events again.
    assert!(buffer.produce("fresh".to_string()));
    assert_eq!(buffer.drain(), vec!["fresh".to_string()]);
}

#[test]
fn consume_in_fifo_order() {
    let mut buffer = EventBuffer::new();
    assert!(buffer.consume().is_none());
    assert!(buffer.produce("a".to_string()));
    assert!(buffer.produce("b".to_string()));
    assert_eq!(buffer.consume().as_deref(), Some("a"));
    assert_eq!(buffer.consume().as_deref(), Some("b"));
    assert!(buffer.consume().is_none());
}

#[test]
fn cursors_wrap_around() {
    // More events than the capacity pass through over several rounds, so
    // both cursors wrap; order and content survive the wrap.
    let mut buffer = EventBuffer::new();
    for round in 0..3 {
        for i in 0..10 {
            assert!(buffer.produce(format!("r{} e{}", round, i)));
        }
        let drained = buffer.drain();
        assert_eq!(drained.len(), 10);
        assert_eq!(drained[0], format!("r{} e0", round));
        assert_eq!(drained[9], format!("r{} e9", round));
    }
}

#[test]
fn async_overflow_boundary() {
    let mut logger = Logger::new(config(LogLevel::Info, None, true, false));
    for i in 0..BUFFER_CAPACITY - 1 {
        let out = logger.log_at(LogLevel::Info, &format!("m{}", i), "", "12:00:00");
        assert!(matches!(out, LogOutcome::Enqueued));
    }
    let out = logger.log_at(LogLevel::Info, "overflowing", "", "12:00:00");
    assert!(matches!(out, LogOutcome::Overflow));
}

#[test]
fn flush_round_trip_verbatim() {
    // Every line accepted into the buffer appears verbatim in the flush
    // output, in the order it was logged.
    let mut logger = Logger::new(config(LogLevel::Info, None, true, false));
    let out = logger.log_at(LogLevel::Info, "first", "", "12:00:00");
    assert!(matches!(out, LogOutcome::Enqueued));
    let out = logger.log_at(LogLevel::Warn, "second", "", "12:00:01");
    assert!(matches!(out, LogOutcome::Enqueued));
    let lines = logger.flush();
    assert_eq!(lines, vec![
        "[12:00:00] first \u{1b}[0m".to_string(),
        "[12:00:01] second \u{1b}[0m".to_string(),
    ]);
    // A second flush has nothing left to deliver.
    assert!(logger.flush().is_empty());
}

#[test]
fn formatted_line_is_exact() {
    let line = format_log_line("\u{1b}[94m", "2024-01-02 03:04:05", "hello");
    assert_eq!(line, "\u{1b}[94m[2024-01-02 03:04:05] hello \u{1b}[0m");
}

#[test]
fn panic_message_is_exact() {
    let message =
        logkit::format::format_panic_message("boom", "file 'main.rs' at line 3");
    assert_eq!(message, "Panic occurred! Message: 'boom' at file 'main.rs' at line 3");
}

#[test]
fn log_suffix_normalization() {
    assert_eq!(with_log_suffix("app"), "app.log");
    assert_eq!(with_log_suffix("app.log"), "app.log");
    assert_eq!(with_log_suffix(""), ".log");
    assert_eq!(with_log_suffix("dir/trace.txt"), "dir/trace.txt.log");
}

#[test]
fn rotation_decision_boundary() {
    let logger = Logger::new(config(LogLevel::Info, Some("app"), false, false));
    // At the threshold: no rotation.
    assert!(logger.plan_rotation(MAX_LOG_FILE_SIZE, "20240102030405", "stamp").is_none());
    // One byte over: rotation is due, with the stamped rename target and
    // the marker line.
    let plan = logger
        .plan_rotation(MAX_LOG_FILE_SIZE + 1, "20240102030405", "2024-01-02 03:04:05")
        .expect("a file over the threshold rotates");
    assert_eq!(plan.rotated_path, "app.log.20240102030405");
    assert_eq!(plan.marker, "\n\n--- Log rotated at 2024-01-02 03:04:05 ---");
    // Without a file sink there is nothing to rotate.
    let no_file = Logger::new(config(LogLevel::Info, None, false, false));
    assert!(no_file.plan_rotation(MAX_LOG_FILE_SIZE + 1, "s", "s").is_none());
}

#[test]
fn shutdown_writes_one_end_marker() {
    let mut logger = Logger::new(config(LogLevel::Info, Some("app"), false, false));
    let plan = logger.shutdown_at("2024-01-02 03:04:05");
    assert_eq!(
        plan.end_marker.as_deref(),
        Some("\n------ Session Ended at 2024-01-02 03:04:05 ------ \n")
    );
    assert!(plan.lines.is_empty());
    // A second shutdown is a no-op: no lines, and never a second marker.
    let again = logger.shutdown_at("2024-01-02 03:04:06");
    assert!(again.end_marker.is_none());
    assert!(again.lines.is_empty());
}

#[test]
fn shutdown_drains_buffered_events() {
    let mut logger = Logger::new(config(LogLevel::Info, Some("app"), true, false));
    let out = logger.log_at(LogLevel::Info, "pending", "", "12:00:00");
    assert!(matches!(out, LogOutcome::Enqueued));
    let plan = logger.shutdown_at("12:00:01");
    assert_eq!(plan.lines, vec!["[12:00:00] pending \u{1b}[0m".to_string()]);
    assert!(plan.end_marker.is_some());
}

#[test]
fn registry_lifecycle() {
    let mut registry = Registry::new();
    // Use before init fails loudly.
    assert!(matches!(
        registry.log(LogLevel::Info, "early", ""),
        Err(LoggerError::NotInitialized)
    ));
    assert!(matches!(registry.flush(), Err(LoggerError::NotInitialized)));
    assert!(matches!(shutdown(&mut registry), Err(LoggerError::NotInitialized)));

    let banner = init(&mut registry, config(LogLevel::Info, Some("app"), false, false))
        .expect("first initialization succeeds");
    let banner = banner.expect("a file sink gets a session-start banner");
    assert!(banner.contains("engine-test : Session Started at "));

    // A second initialization is refused, never silently replacing.
    let second = init(&mut registry, config(LogLevel::Info, None, false, false));
    assert!(matches!(second, Err(LoggerError::AlreadyInitialized)));

    // Shutdown hands back exactly one end marker and empties the slot.
    let plan = shutdown(&mut registry).expect("shutdown of a live engine succeeds");
    assert!(plan.end_marker.is_some());
    assert!(matches!(shutdown(&mut registry), Err(LoggerError::NotInitialized)));
}

#[test]
fn end_to_end_mutex_warn() {
    // Mutex mode with threshold Warn: "x" at Info is absent, "y" at Warn
    // and "z" at Crit come out in order, each under its level's color tag.
    let mut registry = Registry::new();
    init(&mut registry, config(LogLevel::Warn, Some("app"), false, true))
        .expect("initialization succeeds");

    let mut file_lines: Vec<String> = Vec::new();
    let calls = [
        (LogLevel::Info, "x", logkit::CONSOLE_COLOR_BLUE),
        (LogLevel::Warn, "y", CONSOLE_COLOR_YELLOW),
        (LogLevel::Crit, "z", CONSOLE_BG_COLOR_RED),
    ];
    for (level, msg, color) in calls {
        match registry.log(level, msg, color).expect("the engine is installed") {
            LogOutcome::Deliver(delivery) => {
                file_lines.push(delivery.file_line.expect("a file is configured"));
            },
            LogOutcome::Filtered => {},
            _ => panic!("synchronous modes deliver at once"),
        }
    }
    shutdown(&mut registry).expect("shutdown succeeds");

    assert_eq!(file_lines.len(), 2);
    assert!(file_lines[0].starts_with(CONSOLE_COLOR_YELLOW));
    assert!(file_lines[0].contains("y"));
    assert!(!file_lines[0].contains("x"));
    assert!(file_lines[1].starts_with(CONSOLE_BG_COLOR_RED));
    assert!(file_lines[1].contains("z"));
}

#[test]
fn session_banner_shape() {
    let logger = Logger::new(config(LogLevel::Info, Some("app"), false, false));
    let banner = logger.session_start_banner().expect("a file sink gets a banner");
    let body: Vec<&str> = banner.trim_matches('\n').split('\n').collect();
    assert_eq!(body.len(), 3);
    assert!(body[1].starts_with("///////// engine-test : Session Started at "));
    assert!(body[1].ends_with(" /////////"));
    // The frame lines are dashes of exactly the banner text's length.
    assert_eq!(body[0], "-".repeat(body[1].chars().count()));
    assert_eq!(body[0], body[2]);
}

#[test]
fn default_config_values() {
    let config = LogConfig::default();
    assert!(matches!(config.log_level, LogLevel::Info));
    assert_eq!(config.application_name, "default application");
    assert!(config.log_filepath.is_none());
    assert!(config.console_flag);
    assert!(!config.async_flag);
    assert!(!config.multi_threaded_flag);
    assert_eq!(config.time_format, "%Y-%m-%d %H:%M:%S");
}

#[test]
fn clock_stamped_lines_carry_the_message() {
    // The real clock stamps the line; whatever the timestamp was, the raw
    // message and the color frame are present verbatim.
    let mut logger = Logger::new(config(LogLevel::Info, None, false, false));
    match logger.log(LogLevel::Info, "payload", "\u{1b}[94m") {
        LogOutcome::Deliver(delivery) => {
            let line = delivery.console_line.expect("console is enabled");
            assert!(line.starts_with("\u{1b}[94m["));
            assert!(line.contains("] payload \u{1b}[0m"));
        },
        _ => panic!("an Info threshold delivers"),
    }
}
