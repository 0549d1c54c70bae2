//! The immutable configuration record and the concurrency mode it selects.

use vstd::prelude::*;
use crate::level::LogLevel;

verus! {

/// Configuration of the engine, fixed once the engine is built.
pub struct LogConfig {
    /// Minimum severity: events whose mask exceeds this level's mask are dropped.
    pub log_level: LogLevel,
    /// Name of the application, shown in the session-start banner.
    pub application_name: String,
    /// Optional log file path; a `.log` suffix is appended if absent.
    pub log_filepath: Option<String>,
    /// Whether formatted lines are written to the console.
    pub console_flag: bool,
    /// Lock-free-async mode: `log` only fills the event buffer, a single
    /// consumer drains it.
    pub async_flag: bool,
    /// Mutex mode (when `async_flag` is off): writers are serialized by a
    /// shared lock.
    pub multi_threaded_flag: bool,
    /// strftime-style format for the timestamp of each line.
    pub time_format: String,
}

/// The concurrency discipline an engine runs under; exactly one of the three
/// governs delivery for the lifetime of an engine instance.
#[derive(Clone, Copy, Debug, PartialEq, Eq, Structural)]
pub enum Mode {
    /// Synchronous write on the calling thread, single logical writer.
    Direct,
    /// Synchronous write under a shared lock, many writers totally ordered.
    Mutex,
    /// Producers fill the circular buffer; one consumer performs all sink I/O.
    Async,
}

/// The mode a configuration selects: the async flag wins, then the
/// multi-threaded flag, else direct delivery.
pub open spec fn spec_mode_of(config: LogConfig) -> Mode {
    if config.async_flag {
        Mode::Async
    } else if config.multi_threaded_flag {
        Mode::Mutex
    } else {
        Mode::Direct
    }
}

impl LogConfig {
    /// The concurrency mode this configuration selects.
    pub fn mode(&self) -> (m: Mode)
        ensures
            m == spec_mode_of(*self),
    {
        if self.async_flag {
            Mode::Async
        } else if self.multi_threaded_flag {
            Mode::Mutex
        } else {
            Mode::Direct
        }
    }
}

impl Default for LogConfig {
    /// The default configuration: log everything to the console only, in
    /// direct mode, with a date-and-time timestamp.
    fn default() -> (config: Self)
        ensures
            config.log_level == LogLevel::Info,
            config.application_name@ == "default application"@,
            config.log_filepath is None,
            config.console_flag,
            !config.async_flag,
            !config.multi_threaded_flag,
            config.time_format@ == "%Y-%m-%d %H:%M:%S"@,
    {
        LogConfig {
            log_level: LogLevel::Info,
            application_name: "default application".to_owned(),
            log_filepath: None,
            console_flag: true,
            async_flag: false,
            multi_threaded_flag: false,
            time_format: "%Y-%m-%d %H:%M:%S".to_owned(),
        }
    }
}

} // verus!
