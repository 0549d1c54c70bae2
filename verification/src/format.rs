//! Formatting of log lines, session banners, and rotation names.
//!
//! Every formatter is a pure function from plain strings to one output
//! string, specified character for character; the same formatted line goes
//! to the console and to the file sink.

use vstd::prelude::*;
use vstd::string::StrSliceExecFns;
use vstd::string::StringExecFns;

verus! {

pub const CONSOLE_COLOR_WHITE: &'static str = "\x1b[37m";

pub const CONSOLE_COLOR_BLUE: &'static str = "\x1b[94m";

pub const CONSOLE_COLOR_YELLOW: &'static str = "\x1b[01;33m";

pub const CONSOLE_COLOR_PINK: &'static str = "\x1b[38;5;212m";

pub const CONSOLE_COLOR_RED: &'static str = "\x1b[1;31m";

pub const CONSOLE_BG_COLOR_RED: &'static str = "\x1b[41m";

pub const CONSOLE_BG_COLOR_GREEN: &'static str = "\x1b[42m";

pub const CONSOLE_COLOR_RESET: &'static str = "\x1b[0m";

pub const CONSOLE_COLOR_GREEN: &'static str = "\x1b[1;32m";

pub const CONSOLE_COLOR_MAGENTA: &'static str = "\x1b[35m";

/// One formatted event line: the color code, the timestamp in brackets, the
/// raw message, and a color reset.
pub open spec fn spec_log_line(color: Seq<char>, ts: Seq<char>, msg: Seq<char>) -> Seq<char> {
    color + "["@ + ts + "] "@ + msg + " \x1b[0m"@
}

/// Format one event line from its color code, timestamp, and message.
pub fn format_log_line(color: &str, ts: &str, msg: &str) -> (line: String)
    ensures
        line@ == spec_log_line(color@, ts@, msg@),
{
    let mut line = String::new();
    line.append(color);
    line.append("[");
    line.append(ts);
    line.append("] ");
    line.append(msg);
    line.append(" \x1b[0m");
    proof {
        assert(line@ =~= spec_log_line(color@, ts@, msg@));
    }
    line
}

/// The text of the session-start banner line for an application name and a
/// timestamp.
pub open spec fn spec_session_text(app: Seq<char>, ts: Seq<char>) -> Seq<char> {
    "///////// "@ + app + " : Session Started at "@ + ts + " /////////"@
}

/// A run of `n` dashes, used to frame the session-start banner.
pub open spec fn spec_dashes(n: nat) -> Seq<char> {
    Seq::new(n, |i: int| '-')
}

/// The whole session-start banner: a blank gap, the banner text framed above
/// and below by a dash line of the text's own length.
pub open spec fn spec_session_banner(app: Seq<char>, ts: Seq<char>) -> Seq<char> {
    let text = spec_session_text(app, ts);
    let dashes = spec_dashes(text.len());
    "\n\n"@ + dashes + "\n"@ + text + "\n"@ + dashes + "\n"@
}

/// The marker line written into a fresh file right after a rotation.
pub open spec fn spec_rotation_marker(ts: Seq<char>) -> Seq<char> {
    "\n\n--- Log rotated at "@ + ts + " ---"@
}

/// The session-end marker written by shutdown.
pub open spec fn spec_session_end(ts: Seq<char>) -> Seq<char> {
    "\n------ Session Ended at "@ + ts + " ------ \n"@
}

/// The name a rotated file is moved to: the active path with a timestamp
/// appended after a dot.
pub open spec fn spec_rotated_path(path: Seq<char>, ts: Seq<char>) -> Seq<char> {
    path + "."@ + ts
}

/// Whether a path already ends in the `.log` suffix.
pub open spec fn spec_has_log_suffix(path: Seq<char>) -> bool {
    path.len() >= 4 && path.subrange(path.len() - 4, path.len() as int) == ".log"@
}

/// A path with the `.log` suffix appended when it is absent.
pub open spec fn spec_with_log_suffix(path: Seq<char>) -> Seq<char> {
    if spec_has_log_suffix(path) {
        path
    } else {
        path + ".log"@
    }
}

/// Build a run of `n` dashes.
fn dashes(n: usize) -> (line: String)
    ensures
        line@ == spec_dashes(n as nat),
{
    let mut line = String::new();
    let mut i: usize = 0;
    while i < n
        invariant
            i <= n,
            line@ == spec_dashes(i as nat),
        decreases n - i,
    {
        line.append("-");
        i = i + 1;
        proof {
            reveal_strlit("-");
            assert(line@ =~= spec_dashes(i as nat));
        }
    }
    line
}

/// Format the session-start banner for an application name and a timestamp.
pub fn format_session_banner(app: &str, ts: &str) -> (banner: String)
    ensures
        banner@ == spec_session_banner(app@, ts@),
{
    let mut text = String::new();
    text.append("///////// ");
    text.append(app);
    text.append(" : Session Started at ");
    text.append(ts);
    text.append(" /////////");
    proof {
        assert(text@ =~= spec_session_text(app@, ts@));
    }
    let width = text.as_str().unicode_len();
    let dash_line = dashes(width);
    let mut banner = String::new();
    banner.append("\n\n");
    banner.append(dash_line.as_str());
    banner.append("\n");
    banner.append(text.as_str());
    banner.append("\n");
    banner.append(dash_line.as_str());
    banner.append("\n");
    proof {
        assert(banner@ =~= spec_session_banner(app@, ts@));
    }
    banner
}

/// Format the marker line written after a rotation.
pub fn format_rotation_marker(ts: &str) -> (marker: String)
    ensures
        marker@ == spec_rotation_marker(ts@),
{
    let mut marker = String::new();
    marker.append("\n\n--- Log rotated at ");
    marker.append(ts);
    marker.append(" ---");
    proof {
        assert(marker@ =~= spec_rotation_marker(ts@));
    }
    marker
}

/// Format the session-end marker written by shutdown.
pub fn format_session_end(ts: &str) -> (marker: String)
    ensures
        marker@ == spec_session_end(ts@),
{
    let mut marker = String::new();
    marker.append("\n------ Session Ended at ");
    marker.append(ts);
    marker.append(" ------ \n");
    proof {
        assert(marker@ =~= spec_session_end(ts@));
    }
    marker
}

/// Build the name a rotated file is moved to.
pub fn format_rotated_path(path: &str, ts: &str) -> (rotated: String)
    ensures
        rotated@ == spec_rotated_path(path@, ts@),
{
    let mut rotated = String::new();
    rotated.append(path);
    rotated.append(".");
    rotated.append(ts);
    proof {
        assert(rotated@ =~= spec_rotated_path(path@, ts@));
    }
    rotated
}

/// The critical event the crash hook synthesizes: the fault's message and
/// its origin.
pub open spec fn spec_panic_message(payload: Seq<char>, location: Seq<char>) -> Seq<char> {
    "Panic occurred! Message: '"@ + payload + "' at "@ + location
}

/// Format the critical event the crash hook emits for a fault.
pub fn format_panic_message(payload: &str, location: &str) -> (message: String)
    ensures
        message@ == spec_panic_message(payload@, location@),
{
    let mut message = String::new();
    message.append("Panic occurred! Message: '");
    message.append(payload);
    message.append("' at ");
    message.append(location);
    proof {
        assert(message@ =~= spec_panic_message(payload@, location@));
    }
    message
}

/// Append the `.log` suffix to a path unless it already ends in it.
pub fn with_log_suffix(path: &str) -> (out: String)
    ensures
        out@ == spec_with_log_suffix(path@),
{
    let n = path.unicode_len();
    let has_suffix = n >= 4 && path.get_char(n - 4) == '.' && path.get_char(n - 3) == 'l'
        && path.get_char(n - 2) == 'o' && path.get_char(n - 1) == 'g';
    proof {
        reveal_strlit(".log");
        if n >= 4 {
            assert(spec_has_log_suffix(path@) <==> (path@[n - 4] == '.' && path@[n - 3] == 'l'
                && path@[n - 2] == 'o' && path@[n - 1] == 'g')) by {
                let tail = path@.subrange(path@.len() - 4, path@.len() as int);
                if path@[n - 4] == '.' && path@[n - 3] == 'l' && path@[n - 2] == 'o' && path@[n
                    - 1] == 'g' {
                    assert(tail =~= ".log"@);
                }
                if tail == ".log"@ {
                    assert(tail[0] == '.' && tail[1] == 'l' && tail[2] == 'o' && tail[3] == 'g');
                }
            }
        }
    }
    if has_suffix {
        let out = path.to_owned();
        out
    } else {
        let mut out = String::new();
        out.append(path);
        out.append(".log");
        proof {
            assert(out@ =~= spec_with_log_suffix(path@));
        }
        out
    }
}

} // verus!
