//! Dispatch loop state machine.
//!
//! One invocation arms the bound idle notifier once, then repeatedly lets
//! the caller block for protocol events and hands each one to
//! `handle_event`: an idle event turns every output off and keeps waiting, a
//! resume event turns every output back on, schedules the one-and-only
//! disposal of the idle-notification handle, and ends the wait.  The caller
//! performs the wire work each returned action describes.

use vstd::prelude::*;
use crate::power::{power_commands_spec, OutputMode, PowerCommand};
use crate::registry::{Capabilities, IdleProtocol, PowerProtocol};

verus! {

/// The two logical events an armed idle watch can deliver.  Both protocol
/// families map onto these; any other wire event on the watch object is a
/// protocol violation the caller must treat as fatal.
#[derive(Clone, Copy, Debug, PartialEq, Eq, Structural)]
pub enum IdleEvent {
    /// No input activity for the configured duration.
    Idled,
    /// Input activity returned.
    Resumed,
}

/// Where one invocation stands.
#[derive(Clone, Copy, Debug, PartialEq, Eq, Structural)]
pub enum Phase {
    /// The idle watch is armed; the loop blocks for events.
    Armed,
    /// A resume event was seen; the handle is disposed and one final flush
    /// remains.
    Draining,
    /// The invocation is over.
    Done,
}

/// The one wire call that arms the idle watch: which protocol family, on
/// which notifier and seat, and the timeout.
#[derive(Clone, Copy, Debug, PartialEq, Eq, Structural)]
pub struct ArmCommand {
    pub protocol: IdleProtocol,
    pub notifier: u32,
    pub seat: u32,
    pub wait_ms: u32,
}

/// What one event obliges the caller to do on the wire: issue each power
/// command in order and, when `dispose` is set, tear the idle-notification
/// handle down.
pub struct EventActions {
    pub commands: Vec<PowerCommand>,
    pub dispose: bool,
}

/// The mathematical content of the dispatch loop's state.
#[verifier::ext_equal]
pub struct LoopView {
    pub idle: (IdleProtocol, u32),
    pub power: (PowerProtocol, u32),
    pub seat: u32,
    pub outputs: Seq<u32>,
    pub wait_ms: u32,
    pub phase: Phase,
    pub resumed: bool,
    pub arm_count: nat,
    pub dispose_count: nat,
}

/// States the machine actually passes through: armed exactly once, and the
/// handle disposed exactly when the resume event has been seen.
pub open spec fn loop_inv(v: LoopView) -> bool {
    &&& v.arm_count == 1
    &&& (v.phase is Armed ==> !v.resumed && v.dispose_count == 0)
    &&& (!(v.phase is Armed) ==> v.resumed && v.dispose_count == 1)
}

/// The state right after arming.
pub open spec fn freshly_armed(v: LoopView) -> bool {
    &&& v.phase is Armed
    &&& !v.resumed
    &&& v.arm_count == 1
    &&& v.dispose_count == 0
}

/// One receive-and-handle cycle: the state afterwards, the power commands
/// to issue, and whether to dispose the idle-notification handle.  Events
/// move the machine only while it is armed.
pub open spec fn step_spec(v: LoopView, ev: IdleEvent) -> (LoopView, Seq<PowerCommand>, bool) {
    if !(v.phase is Armed) {
        (v, Seq::empty(), false)
    } else {
        match ev {
            IdleEvent::Idled => (v, power_commands_spec(v.outputs, OutputMode::Off), false),
            IdleEvent::Resumed => (
                LoopView {
                    phase: Phase::Draining,
                    resumed: true,
                    dispose_count: v.dispose_count + 1,
                    ..v
                },
                power_commands_spec(v.outputs, OutputMode::On),
                true,
            ),
        }
    }
}

/// The state after a whole event sequence, in delivery order.
pub open spec fn run_spec(v: LoopView, evs: Seq<IdleEvent>) -> LoopView
    decreases evs.len(),
{
    if evs.len() == 0 {
        v
    } else {
        run_spec(step_spec(v, evs[0]).0, evs.drop_first())
    }
}

/// Whether an event sequence contains a resume event.
pub open spec fn has_resume(evs: Seq<IdleEvent>) -> bool {
    exists|i: int| 0 <= i < evs.len() && #[trigger] evs[i] is Resumed
}

proof fn lemma_has_resume_unfold(evs: Seq<IdleEvent>)
    requires
        evs.len() > 0,
    ensures
        has_resume(evs) == (evs[0] is Resumed || has_resume(evs.drop_first())),
{
    if evs[0] is Resumed {
        assert(has_resume(evs));
    }
    if has_resume(evs.drop_first()) {
        let i = choose|i: int| 0 <= i < evs.drop_first().len() && #[trigger] evs.drop_first()[i]
            is Resumed;
        assert(evs[i + 1] is Resumed);
    }
    if has_resume(evs) && !(evs[0] is Resumed) {
        let i = choose|i: int| 0 <= i < evs.len() && #[trigger] evs[i] is Resumed;
        assert(evs.drop_first()[i - 1] is Resumed);
    }
}

proof fn lemma_run_dispose(v: LoopView, evs: Seq<IdleEvent>)
    requires
        loop_inv(v),
    ensures
        loop_inv(run_spec(v, evs)),
        run_spec(v, evs).arm_count == v.arm_count,
        v.phase is Armed ==> run_spec(v, evs).dispose_count == v.dispose_count + if has_resume(
            evs,
        ) {
            1int
        } else {
            0int
        },
        v.phase is Armed && !has_resume(evs) ==> run_spec(v, evs) == v,
        !(v.phase is Armed) ==> run_spec(v, evs) == v,
    decreases evs.len(),
{
    if evs.len() > 0 {
        lemma_has_resume_unfold(evs);
        let (v1, _, _) = step_spec(v, evs[0]);
        lemma_run_dispose(v1, evs.drop_first());
    }
}

/// Law: over any run of an armed invocation, the idle-notification handle
/// is disposed exactly as many times as it was armed - once if a resume
/// event arrives (after which the machine has left the wait), and not at
/// all while no resume event has arrived (the wait goes on).
pub proof fn lemma_dispose_once_per_arm(v0: LoopView, evs: Seq<IdleEvent>)
    requires
        freshly_armed(v0),
    ensures
        run_spec(v0, evs).arm_count == 1,
        has_resume(evs) ==> run_spec(v0, evs).dispose_count == 1 && run_spec(v0, evs).resumed,
        !has_resume(evs) ==> run_spec(v0, evs).dispose_count == 0 && run_spec(v0, evs).phase
            is Armed,
{
    lemma_run_dispose(v0, evs);
}

/// The dispatch loop's state: the negotiated capabilities, the timeout the
/// watch was armed with, the phase, the resumed flag that alone ends the
/// wait, and how often the invocation has armed and disposed its idle watch.
pub struct DispatchLoop {
    pub caps: Capabilities,
    pub wait_ms: u32,
    pub phase: Phase,
    pub resumed: bool,
    pub arm_count: u32,
    pub dispose_count: u32,
}

impl View for DispatchLoop {
    type V = LoopView;

    open spec fn view(&self) -> LoopView {
        LoopView {
            idle: self.caps.idle,
            power: self.caps.power,
            seat: self.caps.seat,
            outputs: self.caps.outputs@,
            wait_ms: self.wait_ms,
            phase: self.phase,
            resumed: self.resumed,
            arm_count: self.arm_count as nat,
            dispose_count: self.dispose_count as nat,
        }
    }
}

impl DispatchLoop {
    /// Arm the idle watch once on the negotiated capabilities and enter the
    /// wait: returns the armed machine and the single arm call to make.
    pub fn arm(caps: Capabilities, wait_ms: u32) -> (r: (DispatchLoop, ArmCommand))
        ensures
            freshly_armed(r.0@),
            loop_inv(r.0@),
            r.0@.idle == caps.idle,
            r.0@.power == caps.power,
            r.0@.seat == caps.seat,
            r.0@.outputs == caps.outputs@,
            r.0@.wait_ms == wait_ms,
            r.1 == (ArmCommand {
                protocol: caps.idle.0,
                notifier: caps.idle.1,
                seat: caps.seat,
                wait_ms,
            }),
    {
        let cmd = ArmCommand {
            protocol: caps.idle.0,
            notifier: caps.idle.1,
            seat: caps.seat,
            wait_ms,
        };
        let d = DispatchLoop {
            caps,
            wait_ms,
            phase: Phase::Armed,
            resumed: false,
            arm_count: 1,
            dispose_count: 0,
        };
        (d, cmd)
    }

    /// Whether the wait must go on: only the resumed flag ends it.
    pub fn should_continue(&self) -> (r: bool)
        ensures
            r == !self@.resumed,
    {
        !self.resumed
    }

    /// Handle one delivered event, as `step_spec` says: turn the outputs
    /// off on idle and keep waiting, or turn them on, schedule the one
    /// disposal and leave the wait on resume.
    pub fn handle_event(&mut self, ev: IdleEvent) -> (acts: EventActions)
        requires
            old(self)@.phase is Armed,
            loop_inv(old(self)@),
        ensures
            loop_inv(final(self)@),
            (final(self)@, acts.commands@, acts.dispose) == step_spec(old(self)@, ev),
    {
        match ev {
            IdleEvent::Idled => {
                let commands = self.caps.set_all_outputs(OutputMode::Off);
                proof {
                    assert(self@ =~= step_spec(old(self)@, ev).0);
                }
                EventActions { commands, dispose: false }
            },
            IdleEvent::Resumed => {
                let commands = self.caps.set_all_outputs(OutputMode::On);
                self.phase = Phase::Draining;
                self.resumed = true;
                self.dispose_count = self.dispose_count + 1;
                proof {
                    assert(self@ =~= step_spec(old(self)@, ev).0);
                }
                EventActions { commands, dispose: true }
            },
        }
    }

    /// The final step: after the disposal message, one non-blocking flush
    /// lets it reach the compositor, and the invocation is over.
    pub fn finish_drain(&mut self)
        requires
            old(self)@.phase is Draining,
        ensures
            final(self)@ == (LoopView { phase: Phase::Done, ..old(self)@ }),
    {
        self.phase = Phase::Done;
        proof {
            assert(self@ =~= (LoopView { phase: Phase::Done, ..old(self)@ }));
        }
    }
}

} // verus!
