//! The sequenced broadcaster: a per-unit state machine.
//!
//! Units are processed strictly one after another.  A unit's life cycle is
//! pending, assembling, assembled, broadcasting, done — or failed.  Here the
//! resting states are `Assembling` (an assembly request is out),
//! `Broadcasting` (the assembled transaction's broadcast request is out —
//! entering it is the instant the unit counts as assembled) and `Pausing`
//! (the unit is done and the configured delay runs before the next unit);
//! done units are counted in `broadcast_count`.  The caller performs each
//! returned action — assemble, broadcast, wait — and reports the outcome as
//! the next event.  Any failure aborts the whole run at once; units already
//! broadcast stay on the network, and no later unit is ever attempted.

use vstd::prelude::*;

use crate::errors::DeployError;
use crate::resolve::DeploymentUnit;

verus! {

/// The resting state of a run.
#[derive(Clone, Copy, Debug, PartialEq, Eq, Structural)]
pub enum Phase {
    /// Unit `unit` is being assembled.
    Assembling { unit: usize },
    /// Unit `unit` is assembled and its broadcast is under way.
    Broadcasting { unit: usize },
    /// Unit `unit` is done; the inter-deployment delay is running.
    Pausing { unit: usize },
    /// Every unit is done.
    Finished,
    /// Unit `unit` failed with `error`; the run is over.
    Failed { unit: usize, error: DeployError },
}

/// What the caller reports back after performing an action.
#[derive(Clone, Copy, Debug, PartialEq, Eq, Structural)]
pub enum Event {
    /// The current unit's transaction was assembled.
    AssemblyDone,
    /// The current unit could not be assembled; `error` says at which stage.
    AssemblyFailed { error: DeployError },
    /// The current unit's transaction was delivered.
    BroadcastDone,
    /// The current unit's transaction could not be delivered.
    BroadcastFailed,
    /// The inter-deployment delay has elapsed.
    WaitElapsed,
}

/// What the caller must do next.
#[derive(Clone, Copy, Debug, PartialEq, Eq, Structural)]
pub enum Action {
    /// Assemble the transaction for the unit at `index`.
    Assemble { index: usize },
    /// Broadcast the assembled transaction of the unit at `index`.
    Broadcast { index: usize },
    /// Block for `seconds` before anything else.
    Wait { seconds: u64 },
    /// The run is complete.
    Finish,
    /// The run is aborted: unit at `index` failed with `error`.
    Abort { index: usize, error: DeployError },
    /// Nothing: the event did not belong to the current state.
    Stay,
}

/// The transition function of the machine over `n` units with delay `wait`:
/// from a phase, the broadcast count and an event to the next phase, the
/// next count and the action the caller must perform.
pub open spec fn next_of(n: int, wait: u64, phase: Phase, count: int, event: Event) -> (
    Phase,
    int,
    Action,
) {
    match (phase, event) {
        (Phase::Assembling { unit }, Event::AssemblyDone) => (
            Phase::Broadcasting { unit },
            count,
            Action::Broadcast { index: unit },
        ),
        (Phase::Assembling { unit }, Event::AssemblyFailed { error }) => (
            Phase::Failed { unit, error },
            count,
            Action::Abort { index: unit, error },
        ),
        (Phase::Broadcasting { unit }, Event::BroadcastDone) => if unit + 1 < n {
            (Phase::Pausing { unit }, count + 1, Action::Wait { seconds: wait })
        } else {
            (Phase::Finished, count + 1, Action::Finish)
        },
        (Phase::Broadcasting { unit }, Event::BroadcastFailed) => (
            Phase::Failed { unit, error: DeployError::Broadcast },
            count,
            Action::Abort { index: unit, error: DeployError::Broadcast },
        ),
        (Phase::Pausing { unit }, Event::WaitElapsed) => (
            Phase::Assembling { unit: (unit + 1) as usize },
            count,
            Action::Assemble { index: (unit + 1) as usize },
        ),
        _ => (phase, count, Action::Stay),
    }
}

/// The phase and the count fit a run over `n` units: the current unit
/// exists, and the count of done units matches the phase.
pub open spec fn phase_wf(n: int, phase: Phase, count: int) -> bool {
    match phase {
        Phase::Assembling { unit } => unit < n && count == unit,
        Phase::Broadcasting { unit } => unit < n && count == unit,
        Phase::Pausing { unit } => unit + 1 < n && count == unit + 1,
        Phase::Finished => count == n,
        Phase::Failed { unit, error } => unit < n && count == unit,
    }
}

/// One orchestration run over an ordered unit sequence.
pub struct Run {
    pub units: Vec<DeploymentUnit>,
    pub wait: u64,
    pub phase: Phase,
    pub broadcast_count: usize,
}

impl Run {
    pub open spec fn wf(self) -> bool {
        phase_wf(self.units@.len() as int, self.phase, self.broadcast_count as int)
    }

    /// Begin a run: the first unit goes straight to assembly; an empty
    /// sequence is already finished.
    pub fn start(units: Vec<DeploymentUnit>, wait: u64) -> (r: (Run, Action))
        ensures
            r.0.wf(),
            r.0.units@ == units@,
            r.0.wait == wait,
            r.0.broadcast_count == 0,
            units@.len() > 0 ==> r.0.phase == (Phase::Assembling { unit: 0 }) && r.1 == (
            Action::Assemble { index: 0 }),
            units@.len() == 0 ==> r.0.phase == Phase::Finished && r.1 == Action::Finish,
    {
        if units.len() > 0 {
            let run = Run { units, wait, phase: Phase::Assembling { unit: 0 }, broadcast_count: 0 };
            (run, Action::Assemble { index: 0 })
        } else {
            let run = Run { units, wait, phase: Phase::Finished, broadcast_count: 0 };
            (run, Action::Finish)
        }
    }

    /// Whether the run's phase and count are consistent; `start` establishes
    /// this and `step` preserves it.
    pub fn is_wf(&self) -> (b: bool)
        ensures
            b == self.wf(),
    {
        let n: usize = self.units.len();
        match self.phase {
            Phase::Assembling { unit } => unit < n && self.broadcast_count == unit,
            Phase::Broadcasting { unit } => unit < n && self.broadcast_count == unit,
            Phase::Pausing { unit } => n >= 1 && unit < n - 1 && self.broadcast_count == unit + 1,
            Phase::Finished => self.broadcast_count == n,
            Phase::Failed { unit, error: _ } => unit < n && self.broadcast_count == unit,
        }
    }

    /// Advance the machine by one event and return the action to perform.
    pub fn step(&mut self, event: Event) -> (action: Action)
        requires
            old(self).wf(),
        ensures
            final(self).units@ == old(self).units@,
            final(self).wait == old(self).wait,
            (final(self).phase, final(self).broadcast_count as int, action) == next_of(
                old(self).units@.len() as int,
                old(self).wait,
                old(self).phase,
                old(self).broadcast_count as int,
                event,
            ),
            final(self).wf(),
    {
        let n: usize = self.units.len();
        let phase = self.phase;
        match (phase, event) {
            (Phase::Assembling { unit }, Event::AssemblyDone) => {
                self.phase = Phase::Broadcasting { unit };
                Action::Broadcast { index: unit }
            },
            (Phase::Assembling { unit }, Event::AssemblyFailed { error }) => {
                self.phase = Phase::Failed { unit, error };
                Action::Abort { index: unit, error }
            },
            (Phase::Broadcasting { unit }, Event::BroadcastDone) => {
                self.broadcast_count = self.broadcast_count + 1;
                if unit + 1 < n {
                    self.phase = Phase::Pausing { unit };
                    Action::Wait { seconds: self.wait }
                } else {
                    self.phase = Phase::Finished;
                    Action::Finish
                }
            },
            (Phase::Broadcasting { unit }, Event::BroadcastFailed) => {
                self.phase = Phase::Failed { unit, error: DeployError::Broadcast };
                Action::Abort { index: unit, error: DeployError::Broadcast }
            },
            (Phase::Pausing { unit }, Event::WaitElapsed) => {
                self.phase = Phase::Assembling { unit: unit + 1 };
                Action::Assemble { index: unit + 1 }
            },
            _ => Action::Stay,
        }
    }
}

/// One transition preserves well-formedness.
pub proof fn lemma_step_preserves_wf(n: int, wait: u64, phase: Phase, count: int, event: Event)
    requires
        phase_wf(n, phase, count),
        n <= usize::MAX,
    ensures
        phase_wf(n, next_of(n, wait, phase, count, event).0, next_of(n, wait, phase, count, event).1),
{
}

/// Pacing: completing any unit but the last is followed by exactly the
/// configured delay and the last unit by none; every delay is the
/// configured one; and assembly of any unit after the first begins only
/// once the delay after its predecessor has fully elapsed.
pub proof fn lemma_pacing(n: int, wait: u64, phase: Phase, count: int, event: Event)
    requires
        phase_wf(n, phase, count),
        n <= usize::MAX,
    ensures
        (phase matches Phase::Broadcasting { unit } && event == Event::BroadcastDone && unit + 1
            < n) ==> next_of(n, wait, phase, count, event).2 == (Action::Wait { seconds: wait }),
        (phase matches Phase::Broadcasting { unit } && event == Event::BroadcastDone && unit + 1
            == n) ==> next_of(n, wait, phase, count, event).2 == Action::Finish,
        next_of(n, wait, phase, count, event).2 matches Action::Wait { seconds } ==> seconds == wait
            && event == Event::BroadcastDone,
        next_of(n, wait, phase, count, event).2 matches Action::Assemble { index } ==> index > 0
            && phase == (Phase::Pausing { unit: (index - 1) as usize }) && event
            == Event::WaitElapsed,
{
}

/// Fail-fast with partial success preserved: a failure at the current unit
/// aborts the run at once, the units before it stay broadcast (the count
/// does not change), and a failed run reacts to no further event.
pub proof fn lemma_fail_fast(n: int, wait: u64, phase: Phase, count: int, event: Event)
    requires
        phase_wf(n, phase, count),
    ensures
        (phase matches Phase::Assembling { unit } && event matches Event::AssemblyFailed { error })
            ==> next_of(n, wait, phase, count, event) == (
        (Phase::Failed { unit: phase->Assembling_unit, error: event->AssemblyFailed_error }),
        count,
        (Action::Abort { index: phase->Assembling_unit, error: event->AssemblyFailed_error }),
        ),
        (phase matches Phase::Broadcasting { unit } && event == Event::BroadcastFailed) ==> next_of(
            n,
            wait,
            phase,
            count,
            event,
        ) == (
        (Phase::Failed { unit: phase->Broadcasting_unit, error: DeployError::Broadcast }),
        count,
        (Action::Abort { index: phase->Broadcasting_unit, error: DeployError::Broadcast }),
        ),
        phase matches Phase::Failed { unit, error } ==> next_of(n, wait, phase, count, event) == (
            phase,
            count,
            Action::Stay,
        ),
{
}

/// The transition sequence of a run: from a starting state, the states and
/// actions that a sequence of events produces, step by step.
pub open spec fn run_trace(n: int, wait: u64, phase: Phase, count: int, events: Seq<Event>) -> Seq<
    (Phase, int, Action),
> decreases events.len(),
{
    if events.len() == 0 {
        Seq::empty()
    } else {
        let s = next_of(n, wait, phase, count, events[0]);
        seq![s] + run_trace(n, wait, s.0, s.1, events.drop_first())
    }
}

/// A run's trace has one entry per event.
pub proof fn lemma_run_trace_len(n: int, wait: u64, phase: Phase, count: int, events: Seq<Event>)
    ensures
        run_trace(n, wait, phase, count, events).len() == events.len(),
    decreases events.len(),
{
    if events.len() > 0 {
        let s = next_of(n, wait, phase, count, events[0]);
        lemma_run_trace_len(n, wait, s.0, s.1, events.drop_first());
    }
}

/// After a failure nothing further is ever attempted: whatever events still
/// arrive, every later step stays in the failed state and performs no
/// action.
pub proof fn lemma_no_work_after_failure(
    n: int,
    wait: u64,
    unit: usize,
    error: DeployError,
    count: int,
    events: Seq<Event>,
)
    ensures
        forall|t: int|
            0 <= t < events.len() ==> (#[trigger] run_trace(
                n,
                wait,
                Phase::Failed { unit, error },
                count,
                events,
            )[t]) == ((Phase::Failed { unit, error }), count, Action::Stay),
    decreases events.len(),
{
    let failed = Phase::Failed { unit, error };
    if events.len() > 0 {
        let s = next_of(n, wait, failed, count, events[0]);
        assert(s == (failed, count, Action::Stay));
        lemma_no_work_after_failure(n, wait, unit, error, count, events.drop_first());
        let trace = run_trace(n, wait, failed, count, events);
        let rest = run_trace(n, wait, failed, count, events.drop_first());
        lemma_run_trace_len(n, wait, failed, count, events.drop_first());
        assert(trace == seq![s] + rest);
        assert forall|t: int| 0 <= t < events.len() implies (#[trigger] trace[t]) == (
        failed,
        count,
        Action::Stay,
        ) by {
            if t == 0 {
                assert(trace[0] == s);
            } else {
                assert(events.drop_first().len() == events.len() - 1);
                assert((seq![s] + rest)[t] == rest[t - 1]);
                assert(rest[t - 1] == ((failed, count, Action::Stay)));
            }
        }
    }
}

} // verus!
