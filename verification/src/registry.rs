//! The singleton registry: the process-wide slot that holds at most one
//! live engine.
//!
//! `init` installs an engine into an empty slot and fails loudly on a
//! second attempt; `shutdown` takes the engine out, shuts it down, and
//! leaves the slot empty, so a repeated shutdown is an explicit error and
//! never repeats the session-end marker. Calls with no engine installed
//! are use-before-init errors, never silent no-ops.

use vstd::prelude::*;
use crate::config::LogConfig;
use crate::engine::flush_rel;
use crate::engine::logged;
use crate::engine::new_rel;
use crate::engine::shut_down;
use crate::engine::spec_line_view;
use crate::format::spec_session_banner;
use crate::engine::LogOutcome;
use crate::engine::Logger;
use crate::engine::ShutdownPlan;
use crate::level::LogLevel;

verus! {

/// A fatal misuse of the engine lifecycle.
#[derive(Clone, Copy, Debug, PartialEq, Eq, Structural)]
pub enum LoggerError {
    /// `init` was called while an engine was already installed.
    AlreadyInitialized,
    /// `log`, `flush`, or `shutdown` was called with no engine installed.
    NotInitialized,
}

/// The slot that holds at most one live engine.
pub struct Registry {
    /// The installed engine, if any.
    pub slot: Option<Logger>,
}

impl Registry {
    /// Whether an engine is installed.
    pub open spec fn initialized(&self) -> bool {
        self.slot is Some
    }

    /// The installed engine.
    pub open spec fn logger(&self) -> Logger {
        self.slot.unwrap()
    }

    /// Well-formed: an installed engine is well-formed and running.
    pub open spec fn wf(&self) -> bool {
        self.initialized() ==> self.logger().wf() && self.logger().running()
    }

    /// An empty registry: no engine installed.
    pub fn new() -> (registry: Registry)
        ensures
            registry.wf(),
            !registry.initialized(),
    {
        Registry { slot: None }
    }

    /// Forward one event to the installed engine; a use-before-init error
    /// when none is installed.
    pub fn log(&mut self, level: LogLevel, msg: &str, color: &str) -> (result: Result<
        LogOutcome,
        LoggerError,
    >)
        requires
            old(self).wf(),
        ensures
            final(self).wf(),
            final(self).initialized() == old(self).initialized(),
            !old(self).initialized() ==> result == Err::<LogOutcome, LoggerError>(
                LoggerError::NotInitialized,
            ) && *final(self) == *old(self),
            old(self).initialized() ==> result is Ok && logged(
                old(self).logger(),
                final(self).logger(),
                level,
                msg@,
                color@,
                result.unwrap(),
            ),
    {
        match self.slot.take() {
            None => Err(LoggerError::NotInitialized),
            Some(mut logger) => {
                let out = logger.log(level, msg, color);
                self.slot = Some(logger);
                Ok(out)
            },
        }
    }

    /// Force delivery of the installed engine's buffered events; a
    /// use-before-init error when none is installed.
    pub fn flush(&mut self) -> (result: Result<Vec<String>, LoggerError>)
        requires
            old(self).wf(),
        ensures
            final(self).wf(),
            final(self).initialized() == old(self).initialized(),
            !old(self).initialized() ==> result == Err::<Vec<String>, LoggerError>(
                LoggerError::NotInitialized,
            ) && *final(self) == *old(self),
            old(self).initialized() ==> result is Ok && flush_rel(
                old(self).logger(),
                final(self).logger(),
                result.unwrap().deep_view(),
            ),
    {
        match self.slot.take() {
            None => Err(LoggerError::NotInitialized),
            Some(mut logger) => {
                let lines = logger.flush();
                self.slot = Some(logger);
                Ok(lines)
            },
        }
    }
}

/// Build an engine from the configuration and install it: the first
/// initialization wins, a second is refused without replacing the engine.
/// On success the session-start banner due in the file sink comes back,
/// present exactly when a file is configured.
pub fn init(registry: &mut Registry, config: LogConfig) -> (result: Result<
    Option<String>,
    LoggerError,
>)
    requires
        old(registry).wf(),
    ensures
        final(registry).wf(),
        old(registry).initialized() ==> result == Err::<Option<String>, LoggerError>(
            LoggerError::AlreadyInitialized,
        ) && *final(registry) == *old(registry),
        !old(registry).initialized() ==> {
            &&& result is Ok
            &&& final(registry).initialized()
            &&& new_rel(config, final(registry).logger())
            &&& (result.unwrap() is Some <==> config.log_filepath is Some)
            &&& (result.unwrap() is Some ==> exists|ts: Seq<char>|
                result.unwrap().unwrap()@ == spec_session_banner(config.application_name@, ts))
        },
{
    if registry.slot.is_some() {
        return Err(LoggerError::AlreadyInitialized);
    }
    let logger = Logger::new(config);
    let banner = logger.session_start_banner();
    registry.slot = Some(logger);
    Ok(banner)
}

/// Take the engine out of the registry and shut it down: drain, stop, and
/// hand back the drained lines and the session-end marker. The slot is left
/// empty, so a second shutdown is an explicit error and delivers nothing.
pub fn shutdown(registry: &mut Registry) -> (result: Result<ShutdownPlan, LoggerError>)
    requires
        old(registry).wf(),
    ensures
        final(registry).wf(),
        !final(registry).initialized(),
        !old(registry).initialized() ==> result == Err::<ShutdownPlan, LoggerError>(
            LoggerError::NotInitialized,
        ),
        old(registry).initialized() ==> result is Ok && exists|stopped: Logger|
            shut_down(
                old(registry).logger(),
                stopped,
                result.unwrap().lines.deep_view(),
                spec_line_view(result.unwrap().end_marker),
            ),
{
    match registry.slot.take() {
        None => Err(LoggerError::NotInitialized),
        Some(mut logger) => {
            let plan = logger.shutdown();
            let ghost stopped = logger;
            proof {
                assert(shut_down(
                    old(registry).logger(),
                    stopped,
                    plan.lines.deep_view(),
                    spec_line_view(plan.end_marker),
                ));
            }
            Ok(plan)
        },
    }
}

} // verus!
