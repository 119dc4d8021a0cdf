//! What the periodic tasks have in common.

use vstd::prelude::*;

verus! {

/// Time that a task lets pass after its start before it sends anything, in
/// seconds. The attribute server has no way to say that it is ready; by
/// then it is.
pub const STARTUP_DELAY_SECS: u64 = 2;

/// How a step that a task asked for ended.
#[derive(Clone, Copy, Debug, PartialEq, Eq, Structural)]
pub enum StepOutcome {
    /// The step was done.
    Done,
    /// The step failed: say, the peer had gone.
    Failed,
}

} // verus!
