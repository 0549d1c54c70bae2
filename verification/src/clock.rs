//! The engine's single source of time, behind a trusted boundary.

use vstd::prelude::*;

verus! {

/// Render the current local time in the given strftime-style format.
///
/// Relies on chrono's `Local::now` for the current local time and on
/// `DateTime::format` together with `DelayedFormat::write_to` to render it;
/// the call returns `None` when the format string is not a format chrono
/// accepts. The result depends on the clock, so nothing is promised of it.
#[verifier::external_body]
pub(crate) fn now_formatted(fmt: &str) -> (ts: Option<String>) {
    let mut rendered = String::new();
    match chrono::Local::now().format(fmt).write_to(&mut rendered) {
        Ok(()) => Some(rendered),
        Err(_) => None,
    }
}

} // verus!
