//! The break reminder's fixed schedule and notification text.

use vstd::prelude::*;
use vstd::string::StringExecFns;
use crate::usage::{dec_rep, push_dec};

verus! {

/// Minutes of screen time between two reminders.
pub const BREAK_INTERVAL_MINUTES: u64 = 25;

/// The reminder body shown after the given number of minutes of screen
/// time.
pub fn break_reminder_message(minutes: u64) -> (r: String)
    ensures
        r@ == "\u{60a8}\u{5df2}\u{8fde}\u{7eed}\u{6ce8}\u{89c6}\u{5c4f}\u{5e55}"@ + dec_rep(
            minutes as nat,
        ) + "\u{5206}\u{949f}"@,
{
    let mut r = String::from_str("\u{60a8}\u{5df2}\u{8fde}\u{7eed}\u{6ce8}\u{89c6}\u{5c4f}\u{5e55}");
    push_dec(minutes, &mut r);
    r.append("\u{5206}\u{949f}");
    proof {
        assert(r@ =~= "\u{60a8}\u{5df2}\u{8fde}\u{7eed}\u{6ce8}\u{89c6}\u{5c4f}\u{5e55}"@
            + dec_rep(minutes as nat) + "\u{5206}\u{949f}"@);
    }
    r
}

} // verus!
