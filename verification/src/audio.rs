//! Audio-driven inhibition: deciding, from the sound server's sink-input
//! listing and the current inhibition state, whether to add or release a
//! power-management inhibition.

use vstd::prelude::*;
use crate::strutil::{contains_seq, contains_substr};

verus! {

/// Seconds between two looks at the sound server's sink inputs.
pub const AUDIO_POLL_SECONDS: u64 = 30;

/// Whether a sink-input listing shows at least one stream that is actually
/// playing (listed, and not corked).
pub fn audio_is_playing(sink_inputs: &str) -> (r: bool)
    ensures
        r == contains_seq(sink_inputs@, "Corked: no"@),
{
    contains_substr(sink_inputs, "Corked: no")
}

/// What one polling round should do to the inhibition.
#[derive(Clone, Copy, Debug, PartialEq, Eq, Structural)]
pub enum InhibitAction {
    /// Audio started playing while nothing was inhibited: inhibit.
    Add,
    /// Audio stopped while an inhibition was held: release it.
    Release,
    /// Nothing changed: leave the inhibition as it is.
    Keep,
}

/// The action a polling round takes, as a function of what it observed.
pub open spec fn inhibit_action_spec(playing: bool, inhibited: bool) -> InhibitAction {
    if playing && !inhibited {
        InhibitAction::Add
    } else if !playing && inhibited {
        InhibitAction::Release
    } else {
        InhibitAction::Keep
    }
}

/// Decide what to do with the inhibition after one polling round.
pub fn decide_inhibit(playing: bool, inhibited: bool) -> (r: InhibitAction)
    ensures
        r == inhibit_action_spec(playing, inhibited),
{
    if playing && !inhibited {
        InhibitAction::Add
    } else if !playing && inhibited {
        InhibitAction::Release
    } else {
        InhibitAction::Keep
    }
}

} // verus!
