//! Severity levels and the level filter.
//!
//! Each level carries a fixed bitmask; a level is *more permissive* when its
//! mask is larger. An event passes the filter exactly when its mask is at
//! most the configured threshold's mask, so comparison is a single integer
//! compare.

use vstd::prelude::*;

verus! {

/// Severity of a log event, from most permissive (`Info`, everything is
/// logged) to most restrictive (`Crit`, only critical events are logged).
#[derive(Clone, Copy, Debug, PartialEq, Eq, Structural)]
pub enum LogLevel {
    Info,
    Success,
    Warn,
    Error,
    Crit,
}

/// The numeric mask of a level: monotone in permissiveness, with the most
/// permissive level holding the largest mask.
pub open spec fn spec_mask(level: LogLevel) -> u8 {
    match level {
        LogLevel::Info => 0x1f,
        LogLevel::Success => 0x0f,
        LogLevel::Warn => 0x07,
        LogLevel::Error => 0x03,
        LogLevel::Crit => 0x01,
    }
}

/// An event at `event` is delivered under threshold `threshold` exactly when
/// its mask does not exceed the threshold's mask; otherwise it is silently
/// dropped.
pub open spec fn spec_passes(event: LogLevel, threshold: LogLevel) -> bool {
    spec_mask(event) <= spec_mask(threshold)
}

impl LogLevel {
    /// The numeric mask of this level.
    pub fn mask(&self) -> (m: u8)
        ensures
            m == spec_mask(*self),
    {
        match self {
            LogLevel::Info => 0x1f,
            LogLevel::Success => 0x0f,
            LogLevel::Warn => 0x07,
            LogLevel::Error => 0x03,
            LogLevel::Crit => 0x01,
        }
    }
}

/// Decide whether an event at level `event` is delivered when the configured
/// threshold is `threshold`.
pub fn passes_filter(event: LogLevel, threshold: LogLevel) -> (pass: bool)
    ensures
        pass == spec_passes(event, threshold),
{
    event.mask() <= threshold.mask()
}

/// Widening the threshold never filters an event it previously delivered:
/// whenever an event passes a threshold, it also passes every threshold at
/// least as permissive.
pub proof fn lemma_filter_monotone(event: LogLevel, narrow: LogLevel, wide: LogLevel)
    requires
        spec_mask(narrow) <= spec_mask(wide),
        spec_passes(event, narrow),
    ensures
        spec_passes(event, wide),
{
}

/// A critical event is delivered under every threshold, and an event is
/// filtered exactly when its mask exceeds the threshold's mask.
pub proof fn lemma_filter_exact(event: LogLevel, threshold: LogLevel)
    ensures
        spec_passes(LogLevel::Crit, threshold),
        !spec_passes(event, threshold) <==> spec_mask(event) > spec_mask(threshold),
{
}

} // verus!
