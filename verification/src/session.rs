//! Classification of the graphical session type.
//!
//! The helper reads one environment variable naming the session type; only a
//! small closed set of values is supported, and anything else is fatal for
//! the screen-off operation.

use vstd::prelude::*;
use crate::strutil::str_eq;

verus! {

/// The session types the screen-off operation knows how to drive.
#[derive(Clone, Copy, Debug, PartialEq, Eq, Structural)]
pub enum SessionKind {
    Wayland,
    X11,
}

/// The session kind a session-type string denotes, if any.
pub open spec fn session_kind_spec(s: Seq<char>) -> Option<SessionKind> {
    if s == "wayland"@ {
        Some(SessionKind::Wayland)
    } else if s == "x11"@ {
        Some(SessionKind::X11)
    } else {
        None
    }
}

/// Classify a session-type value. `None` means the value is outside the
/// supported set and the whole operation must be abandoned.
pub fn classify_session(s: &str) -> (r: Option<SessionKind>)
    ensures
        r == session_kind_spec(s@),
{
    if str_eq(s, "wayland") {
        Some(SessionKind::Wayland)
    } else if str_eq(s, "x11") {
        Some(SessionKind::X11)
    } else {
        None
    }
}

} // verus!
