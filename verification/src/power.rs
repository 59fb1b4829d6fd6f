//! Output power abstraction: turning the set of known outputs off or on.
//!
//! Both supported protocol families share the same shape: for each output a
//! short-lived per-output power-control object is created, told the mode,
//! and destroyed again.  The library plans that work as one `PowerCommand`
//! per output; the caller issues each command over the wire through
//! whichever power protocol was bound.

use vstd::prelude::*;
use crate::registry::Capabilities;

verus! {

/// The power state a command sets an output to.
#[derive(Clone, Copy, Debug, PartialEq, Eq, Structural)]
pub enum OutputMode {
    On,
    Off,
}

/// One fire-and-forget instruction: set one output to one mode.  The
/// per-output protocol object lives only for the duration of the command.
#[derive(Clone, Copy, Debug, PartialEq, Eq, Structural)]
pub struct PowerCommand {
    pub output: u32,
    pub mode: OutputMode,
}

/// One command per output, in output order, all with the same mode.
pub open spec fn power_commands_spec(outputs: Seq<u32>, mode: OutputMode) -> Seq<PowerCommand> {
    Seq::new(outputs.len(), |i: int| PowerCommand { output: outputs[i], mode })
}

impl Capabilities {
    /// Plan one mode-set command for every known output, in order.
    pub fn set_all_outputs(&self, mode: OutputMode) -> (r: Vec<PowerCommand>)
        ensures
            r@ == power_commands_spec(self.outputs@, mode),
    {
        let mut r: Vec<PowerCommand> = Vec::new();
        let mut k: usize = 0;
        while k < self.outputs.len()
            invariant
                k <= self.outputs@.len(),
                r@ == power_commands_spec(self.outputs@, mode).take(k as int),
            decreases self.outputs@.len() - k,
        {
            r.push(PowerCommand { output: self.outputs[k], mode });
            proof {
                assert(r@ =~= power_commands_spec(self.outputs@, mode).take(k + 1));
            }
            k += 1;
        }
        proof {
            assert(power_commands_spec(self.outputs@, mode).take(self.outputs@.len() as int)
                =~= power_commands_spec(self.outputs@, mode));
        }
        r
    }
}

/// Law: commanding all outputs off and then all outputs on issues exactly
/// two commands per output - for each output one `Off` and, later in the
/// combined sequence, one `On`.
pub proof fn lemma_off_then_on_round_trip(outputs: Seq<u32>)
    ensures
        (power_commands_spec(outputs, OutputMode::Off) + power_commands_spec(
            outputs,
            OutputMode::On,
        )).len() == 2 * outputs.len(),
        forall|i: int|
            0 <= i < outputs.len() ==> (power_commands_spec(outputs, OutputMode::Off)
                + power_commands_spec(outputs, OutputMode::On))[i] == (PowerCommand {
                output: outputs[i],
                mode: OutputMode::Off,
            }),
        forall|i: int|
            0 <= i < outputs.len() ==> (power_commands_spec(outputs, OutputMode::Off)
                + power_commands_spec(outputs, OutputMode::On))[outputs.len() + i]
                == (PowerCommand { output: outputs[i], mode: OutputMode::On }),
{
}

} // verus!
