//! The logging engine: level filtering, per-mode dispatch, rotation
//! planning, and flush-on-shutdown.
//!
//! The engine owns the level mask, the circular event buffer, and the
//! configuration; every `log`, `flush`, or `shutdown` call returns the
//! lines that are due at the sinks, and the process around the engine
//! performs the console and file writes. Timestamps come from the one
//! trusted clock call; each clock-using entry point has a verified partner
//! that takes the rendered timestamp as an argument and carries the exact
//! contract.

use vstd::prelude::*;
use crate::buffer::BUFFER_CAPACITY;
use crate::buffer::EventBuffer;
use crate::clock::now_formatted;
use crate::config::LogConfig;
use crate::config::Mode;
use crate::config::spec_mode_of;
use crate::format::format_log_line;
use crate::format::format_rotation_marker;
use crate::format::format_rotated_path;
use crate::format::format_session_banner;
use crate::format::format_session_end;
use crate::format::spec_log_line;
use crate::format::spec_rotated_path;
use crate::format::spec_rotation_marker;
use crate::format::spec_session_banner;
use crate::format::spec_session_end;
use crate::format::spec_with_log_suffix;
use crate::format::with_log_suffix;
use crate::format::CONSOLE_BG_COLOR_GREEN;
use crate::format::CONSOLE_BG_COLOR_RED;
use crate::format::CONSOLE_COLOR_BLUE;
use crate::format::CONSOLE_COLOR_RED;
use crate::format::CONSOLE_COLOR_YELLOW;
use crate::level::passes_filter;
use crate::level::spec_mask;
use crate::level::spec_passes;
use crate::level::LogLevel;

verus! {

/// A log file larger than this many bytes is rotated at the next check.
pub const MAX_LOG_FILE_SIZE: u64 = 10 * 1024 * 1024;

/// How often, in seconds, the background consumer drains the buffer in
/// lock-free-async mode.
pub const FLUSH_INTERVAL_SECS: u64 = 5;

/// One formatted line as it is due at each enabled sink: the console copy
/// and the file copy, each present exactly when that sink is configured.
#[derive(Debug)]
pub struct Delivery {
    pub console_line: Option<String>,
    pub file_line: Option<String>,
}

/// What a `log` call did with the event.
#[derive(Debug)]
pub enum LogOutcome {
    /// The event's level was above the threshold; nothing happened.
    Filtered,
    /// Lock-free-async mode: the formatted line was stored in the buffer.
    Enqueued,
    /// Lock-free-async mode: the buffer was full, the event was dropped.
    Overflow,
    /// Direct or mutex mode: the line is due at the sinks now.
    Deliver(Delivery),
}

/// The rename and the marker that a due rotation consists of: the current
/// file is moved to `rotated_path`, and `marker` is written into the fresh
/// file at the original path.
#[derive(Debug)]
pub struct RotationPlan {
    pub rotated_path: String,
    pub marker: String,
}

/// What shutdown asks the sinks to do: deliver the still-buffered lines,
/// then write the session-end marker to the file sink if one is configured.
#[derive(Debug)]
pub struct ShutdownPlan {
    pub lines: Vec<String>,
    pub end_marker: Option<String>,
}

/// The logging engine.
pub struct Logger {
    /// The configuration the engine was built from, with the file path
    /// already carrying its `.log` suffix.
    pub config: LogConfig,
    /// The precomputed mask of the configured level.
    pub log_level_mask: u8,
    /// The circular event buffer; used only in lock-free-async mode.
    pub buffer: EventBuffer,
    /// Cleared by shutdown; a stopped engine accepts no further events.
    pub running: bool,
}

/// The view of an optional line.
pub open spec fn spec_line_view(line: Option<String>) -> Option<Seq<char>> {
    match line {
        Some(l) => Some(l@),
        None => None,
    }
}

/// A delivery carries the line verbatim to exactly the configured sinks.
pub open spec fn spec_delivery(config: LogConfig, line: Seq<char>, delivery: Delivery) -> bool {
    &&& (delivery.console_line is Some <==> config.console_flag)
    &&& (delivery.file_line is Some <==> config.log_filepath is Some)
    &&& (delivery.console_line is Some ==> delivery.console_line.unwrap()@ == line)
    &&& (delivery.file_line is Some ==> delivery.file_line.unwrap()@ == line)
}

/// How one `log` call at timestamp `ts` relates the engine's states and its
/// outcome: a filtered event changes nothing; in lock-free-async mode the
/// formatted line is appended to the buffer unless the buffer is full, in
/// which case the event is dropped; in the synchronous modes the line is
/// due at the sinks at once and the engine is unchanged.
pub open spec fn log_rel(
    pre: Logger,
    post: Logger,
    level: LogLevel,
    msg: Seq<char>,
    color: Seq<char>,
    ts: Seq<char>,
    out: LogOutcome,
) -> bool {
    let line = spec_log_line(color, ts, msg);
    if !spec_passes(level, pre.config.log_level) {
        out == LogOutcome::Filtered && post == pre
    } else {
        match spec_mode_of(pre.config) {
            Mode::Async => if pre.pending().len() == (BUFFER_CAPACITY - 1) as nat {
                out == LogOutcome::Overflow && post == pre
            } else {
                &&& out == LogOutcome::Enqueued
                &&& post.pending() == pre.pending().push(line)
                &&& post.config == pre.config
                &&& post.running() == pre.running()
            },
            _ => {
                &&& (out matches LogOutcome::Deliver(d) && spec_delivery(pre.config, line, d))
                &&& post == pre
            },
        }
    }
}

/// How one `flush` call relates the engine's states and the returned lines:
/// in lock-free-async mode every buffered line comes out, oldest first, and
/// the buffer is left empty; the synchronous modes buffer nothing, so
/// nothing comes out.
pub open spec fn flush_rel(pre: Logger, post: Logger, lines: Seq<Seq<char>>) -> bool {
    match spec_mode_of(pre.config) {
        Mode::Async => {
            &&& lines == pre.pending()
            &&& post.pending().len() == 0
            &&& post.config == pre.config
            &&& post.running() == pre.running()
        },
        _ => {
            &&& lines.len() == 0
            &&& post == pre
        },
    }
}

/// How one `shutdown` call at timestamp `ts` relates the engine's states,
/// the drained lines, and the session-end marker: a running engine drains
/// its buffer, stops, and owes the file sink one end marker exactly when a
/// file is configured; a stopped engine is left as it is and owes nothing.
pub open spec fn shutdown_rel(
    pre: Logger,
    post: Logger,
    lines: Seq<Seq<char>>,
    marker: Option<Seq<char>>,
    ts: Seq<char>,
) -> bool {
    if pre.running() {
        &&& post.config == pre.config
        &&& !post.running()
        &&& post.pending().len() == 0
        &&& lines == pre.pending()
        &&& (marker is Some <==> pre.config.log_filepath is Some)
        &&& (marker is Some ==> marker.unwrap() == spec_session_end(ts))
    } else {
        &&& post == pre
        &&& lines.len() == 0
        &&& marker is None
    }
}

/// How a clock-stamped `log` call relates the engine's states and its
/// outcome: as `log_rel`, for the timestamp the clock produced.
pub open spec fn logged(
    pre: Logger,
    post: Logger,
    level: LogLevel,
    msg: Seq<char>,
    color: Seq<char>,
    out: LogOutcome,
) -> bool {
    exists|ts: Seq<char>| log_rel(pre, post, level, msg, color, ts, out)
}

/// How a clock-stamped `shutdown` call relates the engine's states, the
/// drained lines, and the session-end marker: as `shutdown_rel`, for the
/// timestamp the clock produced.
pub open spec fn shut_down(
    pre: Logger,
    post: Logger,
    lines: Seq<Seq<char>>,
    marker: Option<Seq<char>>,
) -> bool {
    exists|ts: Seq<char>| shutdown_rel(pre, post, lines, marker, ts)
}

/// A fresh engine carries its configuration unchanged, except that the file
/// path has gained its `.log` suffix when it lacked one; it is running and
/// its buffer is empty.
pub open spec fn new_rel(config: LogConfig, logger: Logger) -> bool {
    &&& logger.running()
    &&& logger.pending().len() == 0
    &&& logger.config.log_level == config.log_level
    &&& logger.config.application_name == config.application_name
    &&& logger.config.console_flag == config.console_flag
    &&& logger.config.async_flag == config.async_flag
    &&& logger.config.multi_threaded_flag == config.multi_threaded_flag
    &&& logger.config.time_format == config.time_format
    &&& (logger.config.log_filepath is Some <==> config.log_filepath is Some)
    &&& (config.log_filepath is Some ==> logger.config.log_filepath.unwrap()@
        == spec_with_log_suffix(config.log_filepath.unwrap()@))
}

impl Logger {
    /// Well-formed: the buffer is well-formed, the mask matches the
    /// configured level, and only a running engine in lock-free-async mode
    /// ever holds buffered events.
    pub open spec fn wf(&self) -> bool {
        &&& self.buffer.wf()
        &&& self.log_level_mask == spec_mask(self.config.log_level)
        &&& (!self.running ==> self.buffer.queue().len() == 0)
        &&& (!(spec_mode_of(self.config) is Async) ==> self.buffer.queue().len() == 0)
    }

    /// Whether the engine is still running, i.e. has not been shut down.
    pub open spec fn running(&self) -> bool {
        self.running
    }

    /// The buffered lines awaiting delivery, oldest first.
    pub open spec fn pending(&self) -> Seq<Seq<char>> {
        self.buffer.queue().map_values(|line: String| line@)
    }

    /// Build an engine from a configuration: normalize the file path,
    /// precompute the level mask, and start with an empty buffer.
    pub fn new(config: LogConfig) -> (logger: Logger)
        ensures
            logger.wf(),
            new_rel(config, logger),
    {
        let log_filepath = match &config.log_filepath {
            Some(path) => Some(with_log_suffix(path.as_str())),
            None => None,
        };
        let log_level_mask = config.log_level.mask();
        let logger = Logger {
            config: LogConfig {
                log_level: config.log_level,
                application_name: config.application_name,
                log_filepath,
                console_flag: config.console_flag,
                async_flag: config.async_flag,
                multi_threaded_flag: config.multi_threaded_flag,
                time_format: config.time_format,
            },
            log_level_mask,
            buffer: EventBuffer::new(),
            running: true,
        };
        logger
    }

    /// The session-start banner that is due in the file sink right after
    /// construction: present exactly when a file is configured, stamped
    /// with the current time in the configured format.
    pub fn session_start_banner(&self) -> (banner: Option<String>)
        ensures
            banner is Some <==> self.config.log_filepath is Some,
            banner is Some ==> exists|ts: Seq<char>|
                banner.unwrap()@ == spec_session_banner(self.config.application_name@, ts),
    {
        if self.config.log_filepath.is_some() {
            let ts = match now_formatted(self.config.time_format.as_str()) {
                Some(t) => t,
                None => String::new(),
            };
            let banner = format_session_banner(self.config.application_name.as_str(), ts.as_str());
            proof {
                assert(banner@ == spec_session_banner(self.config.application_name@, ts@));
            }
            Some(banner)
        } else {
            None
        }
    }

    /// Address one line to the configured sinks: the console copy and the
    /// file copy, each present exactly when that sink is enabled.
    pub fn write_log(&self, log_msg: &str) -> (delivery: Delivery)
        ensures
            spec_delivery(self.config, log_msg@, delivery),
    {
        let console_line = if self.config.console_flag {
            Some(log_msg.to_owned())
        } else {
            None
        };
        let file_line = if self.config.log_filepath.is_some() {
            Some(log_msg.to_owned())
        } else {
            None
        };
        Delivery { console_line, file_line }
    }

    /// Accept one event, stamped with the given timestamp: filter it
    /// against the threshold, format it, and either buffer it
    /// (lock-free-async mode, dropping on overflow) or hand back the
    /// delivery due at the sinks (direct and mutex modes; the shared lock
    /// of mutex mode is the caller's concern).
    pub fn log_at(&mut self, level: LogLevel, msg: &str, color: &str, ts: &str) -> (out:
        LogOutcome)
        requires
            old(self).wf(),
            old(self).running(),
        ensures
            final(self).wf(),
            final(self).running(),
            log_rel(*old(self), *final(self), level, msg@, color@, ts@, out),
    {
        if !passes_filter(level, self.config.log_level) {
            return LogOutcome::Filtered;
        }
        let line = format_log_line(color, ts, msg);
        if self.config.async_flag {
            let accepted = self.buffer.produce(line);
            if accepted {
                proof {
                    assert(self.pending() =~= old(self).pending().push(
                        spec_log_line(color@, ts@, msg@),
                    ));
                }
                LogOutcome::Enqueued
            } else {
                LogOutcome::Overflow
            }
        } else {
            LogOutcome::Deliver(self.write_log(line.as_str()))
        }
    }

    /// Accept one event: stamp it with the current time in the configured
    /// format, then proceed as `log_at`.
    pub fn log(&mut self, level: LogLevel, msg: &str, color: &str) -> (out: LogOutcome)
        requires
            old(self).wf(),
            old(self).running(),
        ensures
            final(self).wf(),
            final(self).running(),
            logged(*old(self), *final(self), level, msg@, color@, out),
    {
        let ts = match now_formatted(self.config.time_format.as_str()) {
            Some(t) => t,
            None => String::new(),
        };
        let out = self.log_at(level, msg, color, ts.as_str());
        proof {
            assert(log_rel(*old(self), *self, level, msg@, color@, ts@, out));
        }
        out
    }

    /// Log an informational message.
    pub fn info(&mut self, message: &str) -> (out: LogOutcome)
        requires
            old(self).wf(),
            old(self).running(),
        ensures
            final(self).wf(),
            final(self).running(),
            logged(*old(self), *final(self), LogLevel::Info, message@, CONSOLE_COLOR_BLUE@, out),
    {
        self.log(LogLevel::Info, message, CONSOLE_COLOR_BLUE)
    }

    /// Log a warning.
    pub fn warn(&mut self, message: &str) -> (out: LogOutcome)
        requires
            old(self).wf(),
            old(self).running(),
        ensures
            final(self).wf(),
            final(self).running(),
            logged(*old(self), *final(self), LogLevel::Warn, message@, CONSOLE_COLOR_YELLOW@, out),
    {
        self.log(LogLevel::Warn, message, CONSOLE_COLOR_YELLOW)
    }

    /// Log an error.
    pub fn error(&mut self, message: &str) -> (out: LogOutcome)
        requires
            old(self).wf(),
            old(self).running(),
        ensures
            final(self).wf(),
            final(self).running(),
            logged(*old(self), *final(self), LogLevel::Error, message@, CONSOLE_COLOR_RED@, out),
    {
        self.log(LogLevel::Error, message, CONSOLE_COLOR_RED)
    }

    /// Log a critical event.
    pub fn critical(&mut self, message: &str) -> (out: LogOutcome)
        requires
            old(self).wf(),
            old(self).running(),
        ensures
            final(self).wf(),
            final(self).running(),
            logged(*old(self), *final(self), LogLevel::Crit, message@, CONSOLE_BG_COLOR_RED@, out),
    {
        self.log(LogLevel::Crit, message, CONSOLE_BG_COLOR_RED)
    }

    /// Log a success message.
    pub fn success(&mut self, message: &str) -> (out: LogOutcome)
        requires
            old(self).wf(),
            old(self).running(),
        ensures
            final(self).wf(),
            final(self).running(),
            logged(*old(self), *final(self), LogLevel::Success, message@, CONSOLE_BG_COLOR_GREEN@, out),
    {
        self.log(LogLevel::Success, message, CONSOLE_BG_COLOR_GREEN)
    }

    /// Force delivery of the buffered events: in lock-free-async mode every
    /// buffered line comes back, oldest first, for the caller to hand to
    /// the sinks; the synchronous modes buffer nothing. For a file sink the
    /// caller follows up with the rotation check (`rotate_logs`).
    pub fn flush(&mut self) -> (lines: Vec<String>)
        requires
            old(self).wf(),
        ensures
            final(self).wf(),
            final(self).running() == old(self).running(),
            flush_rel(*old(self), *final(self), lines.deep_view()),
    {
        if self.config.async_flag {
            let lines = self.buffer.drain();
            proof {
                assert(lines.deep_view() =~= old(self).pending());
            }
            lines
        } else {
            Vec::new()
        }
    }

    /// Decide a rotation for the given on-disk size with the given
    /// timestamps: due exactly when a file is configured and its size
    /// exceeds the threshold. The plan names a rotated path distinct from
    /// the active one and the marker line for the fresh file.
    pub fn plan_rotation(&self, file_size: u64, path_stamp: &str, marker_stamp: &str) -> (plan:
        Option<RotationPlan>)
        ensures
            plan is Some <==> (self.config.log_filepath is Some && file_size
                > MAX_LOG_FILE_SIZE),
            plan is Some ==> {
                &&& plan.unwrap().rotated_path@ == spec_rotated_path(
                    self.config.log_filepath.unwrap()@,
                    path_stamp@,
                )
                &&& plan.unwrap().marker@ == spec_rotation_marker(marker_stamp@)
                &&& plan.unwrap().rotated_path@ != self.config.log_filepath.unwrap()@
            },
    {
        match &self.config.log_filepath {
            Some(path) => {
                if file_size > MAX_LOG_FILE_SIZE {
                    let rotated_path = format_rotated_path(path.as_str(), path_stamp);
                    let marker = format_rotation_marker(marker_stamp);
                    proof {
                        reveal_strlit(".");
                        assert(rotated_path@.len() > path@.len());
                    }
                    Some(RotationPlan { rotated_path, marker })
                } else {
                    None
                }
            },
            None => None,
        }
    }

    /// Decide a rotation for the given on-disk size, stamping the rotated
    /// name and the marker with the current time.
    pub fn rotate_logs(&self, file_size: u64) -> (plan: Option<RotationPlan>)
        ensures
            plan is Some <==> (self.config.log_filepath is Some && file_size
                > MAX_LOG_FILE_SIZE),
            plan is Some ==> exists|path_stamp: Seq<char>, marker_stamp: Seq<char>| {
                &&& plan.unwrap().rotated_path@ == spec_rotated_path(
                    self.config.log_filepath.unwrap()@,
                    path_stamp,
                )
                &&& plan.unwrap().marker@ == spec_rotation_marker(marker_stamp)
                &&& plan.unwrap().rotated_path@ != self.config.log_filepath.unwrap()@
            },
    {
        let path_stamp = match now_formatted("%Y%m%d%H%M%S%.3f") {
            Some(t) => t,
            None => String::new(),
        };
        let marker_stamp = match now_formatted("%Y-%m-%d %H:%M:%S%.3f") {
            Some(t) => t,
            None => String::new(),
        };
        let plan = self.plan_rotation(file_size, path_stamp.as_str(), marker_stamp.as_str());
        proof {
            if plan is Some {
                assert(plan.unwrap().rotated_path@ == spec_rotated_path(
                    self.config.log_filepath.unwrap()@,
                    path_stamp@,
                ) && plan.unwrap().marker@ == spec_rotation_marker(marker_stamp@)
                    && plan.unwrap().rotated_path@ != self.config.log_filepath.unwrap()@);
            }
        }
        plan
    }

    /// Shut the engine down at the given timestamp: drain the buffer, stop,
    /// and hand back the drained lines together with the session-end marker
    /// owed to the file sink. Shutting a stopped engine down again changes
    /// nothing and owes nothing.
    pub fn shutdown_at(&mut self, ts: &str) -> (plan: ShutdownPlan)
        requires
            old(self).wf(),
        ensures
            final(self).wf(),
            !final(self).running(),
            shutdown_rel(
                *old(self),
                *final(self),
                plan.lines.deep_view(),
                spec_line_view(plan.end_marker),
                ts@,
            ),
    {
        if !self.running {
            return ShutdownPlan { lines: Vec::new(), end_marker: None };
        }
        let lines = self.buffer.drain();
        self.running = false;
        let end_marker = if self.config.log_filepath.is_some() {
            Some(format_session_end(ts))
        } else {
            None
        };
        proof {
            assert(lines.deep_view() =~= old(self).pending());
        }
        ShutdownPlan { lines, end_marker }
    }

    /// Shut the engine down, stamping the session-end marker with the
    /// current time.
    pub fn shutdown(&mut self) -> (plan: ShutdownPlan)
        requires
            old(self).wf(),
        ensures
            final(self).wf(),
            !final(self).running(),
            shut_down(
                *old(self),
                *final(self),
                plan.lines.deep_view(),
                spec_line_view(plan.end_marker),
            ),
    {
        let ts = match now_formatted("%Y-%m-%d %H:%M:%S") {
            Some(t) => t,
            None => String::new(),
        };
        let plan = self.shutdown_at(ts.as_str());
        proof {
            assert(shutdown_rel(
                *old(self),
                *self,
                plan.lines.deep_view(),
                spec_line_view(plan.end_marker),
                ts@,
            ));
        }
        plan
    }
}

/// An event is filtered exactly when its level's mask exceeds the
/// configured threshold's mask; every event at or below the threshold is
/// delivered or buffered, never silently ignored.
pub proof fn lemma_filter_decides(
    pre: Logger,
    post: Logger,
    level: LogLevel,
    msg: Seq<char>,
    color: Seq<char>,
    ts: Seq<char>,
    out: LogOutcome,
)
    requires
        log_rel(pre, post, level, msg, color, ts, out),
    ensures
        (out == LogOutcome::Filtered) <==> !spec_passes(level, pre.config.log_level),
{
}

/// In lock-free-async mode a full buffer drops the event and changes
/// nothing: bounded loss, never blocking.
pub proof fn lemma_overflow_drops(
    pre: Logger,
    post: Logger,
    level: LogLevel,
    msg: Seq<char>,
    color: Seq<char>,
    ts: Seq<char>,
    out: LogOutcome,
)
    requires
        log_rel(pre, post, level, msg, color, ts, out),
        spec_passes(level, pre.config.log_level),
        spec_mode_of(pre.config) is Async,
        pre.pending().len() == (BUFFER_CAPACITY - 1) as nat,
    ensures
        out == LogOutcome::Overflow,
        post == pre,
{
}

/// Round trip: a line accepted into the buffer comes out of the next flush
/// verbatim, after everything buffered before it and in the same order, and
/// the flush leaves nothing behind.
pub proof fn lemma_log_flush_round_trip(
    pre: Logger,
    mid: Logger,
    post: Logger,
    level: LogLevel,
    msg: Seq<char>,
    color: Seq<char>,
    ts: Seq<char>,
    out: LogOutcome,
    flushed: Seq<Seq<char>>,
)
    requires
        log_rel(pre, mid, level, msg, color, ts, out),
        out == LogOutcome::Enqueued,
        flush_rel(mid, post, flushed),
    ensures
        flushed == pre.pending().push(spec_log_line(color, ts, msg)),
        flushed.len() > 0,
        flushed.last() == spec_log_line(color, ts, msg),
        post.pending().len() == 0,
{
}

/// A second shutdown is a no-op: it emits no lines, never repeats the
/// session-end marker, and leaves the engine as the first shutdown left it.
pub proof fn lemma_shutdown_idempotent(
    first: Logger,
    second: Logger,
    third: Logger,
    lines1: Seq<Seq<char>>,
    marker1: Option<Seq<char>>,
    ts1: Seq<char>,
    lines2: Seq<Seq<char>>,
    marker2: Option<Seq<char>>,
    ts2: Seq<char>,
)
    requires
        shutdown_rel(first, second, lines1, marker1, ts1),
        shutdown_rel(second, third, lines2, marker2, ts2),
    ensures
        lines2.len() == 0,
        marker2 is None,
        third == second,
{
}

} // verus!
