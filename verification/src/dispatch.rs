//! The loop that scans the input and sends the reports.
//!
//! The loop is a schedule of steps. It lets the startup delay pass; then,
//! cycle after cycle, it scans the input and sends to each of the four
//! sinks in turn. A step begins when the step before it has ended, however
//! that ended: a sink that fails costs its own report and nothing else.
//!
//! The loop performs no step itself. It names the step that is due, and is
//! told when that step has ended.

use vstd::prelude::*;
use crate::task::{StepOutcome, STARTUP_DELAY_SECS};

verus! {

/// Number of steps in a cycle: the scan and one send for each sink.
pub const STEPS_PER_CYCLE: u64 = 5;

/// The sinks that take reports, in the order in which a cycle sends to
/// them.
#[derive(Clone, Copy, Debug, PartialEq, Eq, Structural)]
pub enum ReportSink {
    Keyboard,
    Media,
    SystemControl,
    Mouse,
}

/// A step of the loop.
#[derive(Clone, Copy, Debug, PartialEq, Eq, Structural)]
pub enum DispatchAction {
    /// Let this many seconds pass.
    Wait(u64),
    /// Scan the state of the input.
    Scan,
    /// Send the report of a sink to it.
    Send(ReportSink),
}

/// The step that follows a step.
pub open spec fn successor(action: DispatchAction) -> DispatchAction {
    match action {
        DispatchAction::Wait(_) => DispatchAction::Scan,
        DispatchAction::Scan => DispatchAction::Send(ReportSink::Keyboard),
        DispatchAction::Send(ReportSink::Keyboard) => DispatchAction::Send(ReportSink::Media),
        DispatchAction::Send(ReportSink::Media) => DispatchAction::Send(ReportSink::SystemControl),
        DispatchAction::Send(ReportSink::SystemControl) => DispatchAction::Send(ReportSink::Mouse),
        DispatchAction::Send(ReportSink::Mouse) => DispatchAction::Scan,
    }
}

/// The step that is due once `n` steps have ended.
pub open spec fn action_at(n: nat) -> DispatchAction
    decreases n,
{
    if n == 0 {
        DispatchAction::Wait(STARTUP_DELAY_SECS)
    } else {
        successor(action_at((n - 1) as nat))
    }
}

/// The place in the schedule of step `k` of a cycle: the startup delay has
/// place 0, the steps of the first cycle have places 1 to 5.
pub open spec fn step_in_cycle(cycle: nat, k: nat) -> nat {
    STEPS_PER_CYCLE as nat * cycle + k
}

/// The seconds that a step lets pass, at the least.
pub open spec fn wait_secs(action: DispatchAction) -> nat {
    match action {
        DispatchAction::Wait(secs) => secs as nat,
        _ => 0,
    }
}

/// The seconds that have passed, at the least, when `n` steps have ended:
/// those that the steps waited for.
pub open spec fn elapsed_at(n: nat) -> nat
    decreases n,
{
    if n == 0 {
        0
    } else {
        elapsed_at((n - 1) as nat) + wait_secs(action_at((n - 1) as nat))
    }
}

/// The loop: the step that is due, and how many steps have ended.
pub struct ReportDispatchLoop {
    current: DispatchAction,
    steps: Ghost<nat>,
}

impl ReportDispatchLoop {
    /// The step that is due is the one that the schedule has in that
    /// place.
    #[verifier::type_invariant]
    spec fn well_formed(self) -> bool {
        self.current == action_at(self.steps@)
    }

    /// The number of steps that have ended.
    pub closed spec fn steps(&self) -> nat {
        self.steps@
    }

    /// A loop at its start: the startup delay is due.
    pub fn new() -> (dispatch: Self)
        ensures
            dispatch.steps() == 0,
    {
        ReportDispatchLoop { current: DispatchAction::Wait(STARTUP_DELAY_SECS), steps: Ghost(0) }
    }

    /// The step that is due.
    pub fn current(&self) -> (action: DispatchAction)
        ensures
            action == action_at(self.steps()),
    {
        proof {
            use_type_invariant(self);
        }
        self.current
    }

    /// Takes note that the step that was due has ended, and names the step
    /// that is due now. How the step ended makes no difference.
    pub fn complete(&mut self, outcome: StepOutcome) -> (action: DispatchAction)
        ensures
            final(self).steps() == old(self).steps() + 1,
            action == action_at(final(self).steps()),
    {
        proof {
            use_type_invariant(&*self);
        }
        let next = match self.current {
            DispatchAction::Wait(_) => DispatchAction::Scan,
            DispatchAction::Scan => DispatchAction::Send(ReportSink::Keyboard),
            DispatchAction::Send(ReportSink::Keyboard) => DispatchAction::Send(ReportSink::Media),
            DispatchAction::Send(ReportSink::Media) => DispatchAction::Send(
                ReportSink::SystemControl,
            ),
            DispatchAction::Send(ReportSink::SystemControl) => DispatchAction::Send(
                ReportSink::Mouse,
            ),
            DispatchAction::Send(ReportSink::Mouse) => DispatchAction::Scan,
        };
        *self = ReportDispatchLoop { current: next, steps: Ghost((self.steps@ + 1) as nat) };
        next
    }
}

/// After the startup delay the loop runs in cycles of five steps: the scan
/// first, then the sends to the keyboard, media, system control and mouse
/// sinks, in that order. No report of a cycle is sent before the scan of
/// the cycle has ended.
pub proof fn law_cycle_order(cycle: nat)
    ensures
        action_at(0) == DispatchAction::Wait(STARTUP_DELAY_SECS),
        action_at(step_in_cycle(cycle, 1)) == DispatchAction::Scan,
        action_at(step_in_cycle(cycle, 2)) == DispatchAction::Send(ReportSink::Keyboard),
        action_at(step_in_cycle(cycle, 3)) == DispatchAction::Send(ReportSink::Media),
        action_at(step_in_cycle(cycle, 4)) == DispatchAction::Send(ReportSink::SystemControl),
        action_at(step_in_cycle(cycle, 5)) == DispatchAction::Send(ReportSink::Mouse),
    decreases cycle,
{
    if cycle > 0 {
        law_cycle_order((cycle - 1) as nat);
    }
    reveal_with_fuel(action_at, 6);
}

/// The startup delay is the one wait of the loop, and it comes first: when
/// any other step is due, the delay has passed.
pub proof fn law_startup_barrier(n: nat)
    ensures
        action_at(n) is Wait <==> n == 0,
        n > 0 ==> elapsed_at(n) == STARTUP_DELAY_SECS,
        !(action_at(n) is Wait) ==> elapsed_at(n) >= STARTUP_DELAY_SECS,
    decreases n,
{
    if n > 0 {
        law_startup_barrier((n - 1) as nat);
    }
}

} // verus!
