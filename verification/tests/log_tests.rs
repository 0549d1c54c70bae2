//! End-to-end logging scenarios, driven through the engine's outcome
//! values.

use logkit::config::LogConfig;
use logkit::engine::LogOutcome;
use logkit::engine::Logger;
use logkit::level::LogLevel;

fn config_with(level: LogLevel, file: Option<&str>, time_format: &str) -> LogConfig {
    LogConfig {
        log_level: level,
        application_name: "test-app".to_string(),
        log_filepath: file.map(|p| p.to_string()),
        console_flag: true,
        async_flag: false,
        multi_threaded_flag: false,
        time_format: time_format.to_string(),
    }
}

#[test]
fn test_logging() {
    let config = config_with(LogLevel::Info, Some("test-app"), "%Y-%m-%d %H:%M:%S%.3f");
    let mut logger = Logger::new(config);
    assert_eq!(logger.config.log_filepath.as_deref(), Some("test-app.log"));

    let out = logger.info("This is an info message.");
    assert!(matches!(out, LogOutcome::Deliver(_)));
    let out = logger.warn("This is a warning message.");
    assert!(matches!(out, LogOutcome::Deliver(_)));
    let out = logger.error("This is an error message.");
    assert!(matches!(out, LogOutcome::Deliver(_)));
    let out = logger.critical("This is a critical message.");
    assert!(matches!(out, LogOutcome::Deliver(_)));
    let out = logger.success("This is a success message.");
    match out {
        LogOutcome::Deliver(delivery) => {
            let line = delivery.console_line.expect("console is enabled");
            assert!(line.contains("This is a success message."));
            let file_line = delivery.file_line.expect("a file is configured");
            assert_eq!(file_line, line);
        },
        _ => panic!("an Info threshold delivers every level"),
    }
}

#[test]
fn test_default() {
    let mut config = LogConfig::default();
    config.time_format = "%H:%M:%S".to_string();
    let mut logger = Logger::new(config);

    let out = logger.info("This is an info message.");
    assert!(matches!(out, LogOutcome::Deliver(_)));
    let out = logger.success("Operation successful :)");
    assert!(matches!(out, LogOutcome::Deliver(_)));
    let out = logger.warn("This is a warning.");
    assert!(matches!(out, LogOutcome::Deliver(_)));
    let out = logger.error("Error Code : ({})");
    assert!(matches!(out, LogOutcome::Deliver(_)));
    let out = logger.critical("This is a critical error :/");
    match out {
        LogOutcome::Deliver(delivery) => {
            // the default configuration has no file sink
            assert!(delivery.file_line.is_none());
            let line = delivery.console_line.expect("console is on by default");
            assert!(line.contains("This is a critical error :/"));
        },
        _ => panic!("the default threshold delivers everything"),
    }
}
