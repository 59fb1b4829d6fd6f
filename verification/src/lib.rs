//! Display power negotiation and idle-event dispatch for a desktop helper.
//!
//! The library models the decision logic of the helper: classifying the
//! compositor's global advertisements into capability slots, arming an idle
//! watch, reacting to idle and resume events by issuing output power
//! commands, and the small pure computations of the surrounding tools.

pub mod audio;
pub mod dispatch;
pub mod inhibit;
pub mod power;
pub mod registry;
pub mod reminder;
pub mod session;
pub mod strutil;
pub mod usage;

use vstd::prelude::*;

verus! {

/// Timeout, in milliseconds, applied when the caller supplies none.
pub const DEFAULT_WAIT_MS: u32 = 500;

/// The idle timeout that an invocation actually uses: the caller's value if
/// one was given, otherwise the default.
pub fn effective_wait_ms(requested: Option<u32>) -> (r: u32)
    ensures
        r == match requested {
            Some(v) => v,
            None => DEFAULT_WAIT_MS,
        },
{
    match requested {
        Some(v) => v,
        None => DEFAULT_WAIT_MS,
    }
}

} // verus!
