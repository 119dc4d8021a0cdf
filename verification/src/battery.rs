//! The task that reports the battery level.
//!
//! The task lets the startup delay pass, pushes a level to the connected
//! peer, lets a period pass, pushes again, and so on for as long as it
//! runs: one push at the start of each period. The level is a stand-in
//! until the battery is measured.
//!
//! The task performs no step itself. It names the step that is due, and is
//! told when that step has ended.

use vstd::prelude::*;
use crate::task::{StepOutcome, STARTUP_DELAY_SECS};

verus! {

/// Time from one push of the battery level to the next, in seconds.
pub const BATTERY_REPORT_PERIOD_SECS: u64 = 10;

/// The level that is pushed, in percent.
pub const BATTERY_LEVEL: u8 = 50;

/// A step of the task.
#[derive(Clone, Copy, Debug, PartialEq, Eq, Structural)]
pub enum BatteryAction {
    /// Let this many seconds pass.
    Wait(u64),
    /// Push this battery level to the connected peer.
    Push(u8),
}

/// The step that follows a step.
pub open spec fn successor(action: BatteryAction) -> BatteryAction {
    match action {
        BatteryAction::Wait(_) => BatteryAction::Push(BATTERY_LEVEL),
        BatteryAction::Push(_) => BatteryAction::Wait(BATTERY_REPORT_PERIOD_SECS),
    }
}

/// The step that is due once `n` steps have ended.
pub open spec fn action_at(n: nat) -> BatteryAction
    decreases n,
{
    if n == 0 {
        BatteryAction::Wait(STARTUP_DELAY_SECS)
    } else {
        successor(action_at((n - 1) as nat))
    }
}

/// The seconds that a step lets pass, at the least.
pub open spec fn wait_secs(action: BatteryAction) -> nat {
    match action {
        BatteryAction::Wait(secs) => secs as nat,
        BatteryAction::Push(_) => 0,
    }
}

/// The seconds that have passed, at the least, when `n` steps have ended:
/// those that the steps waited for.
pub open spec fn elapsed_at(n: nat) -> nat
    decreases n,
{
    if n == 0 {
        0
    } else {
        elapsed_at((n - 1) as nat) + wait_secs(action_at((n - 1) as nat))
    }
}

/// The number of pushes among the first `n` steps.
pub open spec fn pushes_before(n: nat) -> nat
    decreases n,
{
    if n == 0 {
        0
    } else if action_at((n - 1) as nat) is Push {
        pushes_before((n - 1) as nat) + 1
    } else {
        pushes_before((n - 1) as nat)
    }
}

/// The place in the schedule of the push that opens period `k`, the first
/// period being period 0.
pub open spec fn push_place(k: nat) -> nat {
    2 * k + 1
}

/// The task: the step that is due, and how many steps have ended.
pub struct BatteryReportTask {
    current: BatteryAction,
    steps: Ghost<nat>,
}

impl BatteryReportTask {
    /// The step that is due is the one that the schedule has in that
    /// place.
    #[verifier::type_invariant]
    spec fn well_formed(self) -> bool {
        self.current == action_at(self.steps@)
    }

    /// The number of steps that have ended.
    pub closed spec fn steps(&self) -> nat {
        self.steps@
    }

    /// A task at its start: the startup delay is due.
    pub fn new() -> (task: Self)
        ensures
            task.steps() == 0,
    {
        BatteryReportTask { current: BatteryAction::Wait(STARTUP_DELAY_SECS), steps: Ghost(0) }
    }

    /// The step that is due.
    pub fn current(&self) -> (action: BatteryAction)
        ensures
            action == action_at(self.steps()),
    {
        proof {
            use_type_invariant(self);
        }
        self.current
    }

    /// Takes note that the step that was due has ended, and names the step
    /// that is due now. How the step ended makes no difference.
    pub fn complete(&mut self, outcome: StepOutcome) -> (action: BatteryAction)
        ensures
            final(self).steps() == old(self).steps() + 1,
            action == action_at(final(self).steps()),
    {
        proof {
            use_type_invariant(&*self);
        }
        let next = match self.current {
            BatteryAction::Wait(_) => BatteryAction::Push(BATTERY_LEVEL),
            BatteryAction::Push(_) => BatteryAction::Wait(BATTERY_REPORT_PERIOD_SECS),
        };
        *self = BatteryReportTask { current: next, steps: Ghost((self.steps@ + 1) as nat) };
        next
    }
}

/// The task waits and pushes in turn: the startup delay first, then a push
/// and a period, again and again. The steps in odd places are the pushes,
/// and no other step is one.
pub proof fn law_wait_and_push_alternate(n: nat)
    ensures
        action_at(0) == BatteryAction::Wait(STARTUP_DELAY_SECS),
        n % 2 == 1 ==> action_at(n) == BatteryAction::Push(BATTERY_LEVEL),
        n % 2 == 0 && n > 0 ==> action_at(n) == BatteryAction::Wait(BATTERY_REPORT_PERIOD_SECS),
    decreases n,
{
    if n > 0 {
        law_wait_and_push_alternate((n - 1) as nat);
    }
}

/// No push comes before the startup delay has passed.
pub proof fn law_startup_barrier(n: nat)
    ensures
        action_at(n) is Push ==> elapsed_at(n) >= STARTUP_DELAY_SECS,
{
    law_wait_and_push_alternate(n);
    law_push_cadence((n / 2) as nat);
}

/// The push that opens period `k` is due when the startup delay and `k`
/// periods have passed, and it is push number `k`, counted from 0: each
/// period has its push, and one only.
pub proof fn law_push_cadence(k: nat)
    ensures
        action_at(push_place(k)) == BatteryAction::Push(BATTERY_LEVEL),
        elapsed_at(push_place(k)) == STARTUP_DELAY_SECS + k * BATTERY_REPORT_PERIOD_SECS,
        pushes_before(push_place(k)) == k,
        pushes_before(push_place(k + 1)) == k + 1,
    decreases k,
{
    if k > 0 {
        law_push_cadence((k - 1) as nat);
    }
    reveal_with_fuel(action_at, 4);
    reveal_with_fuel(elapsed_at, 4);
    reveal_with_fuel(pushes_before, 4);
}

} // verus!
