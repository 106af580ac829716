//! The lifecycle of a submitted task.

use vstd::prelude::*;

verus! {

/// Where a submitted task stands in its lifecycle.
#[derive(Debug, Clone, Copy, PartialEq, Eq, Hash, Structural)]
pub enum TaskStatus {
    /// Accepted by the backend, not yet started.
    Queued,
    /// Being executed.
    Running,
    /// Finished with a result.
    Completed,
    /// Finished with an error.
    Failed,
    /// Stopped on request before it finished.
    Cancelled,
}

/// A terminal status is one that no transition leaves.
pub open spec fn terminal(s: TaskStatus) -> bool {
    s is Completed || s is Failed || s is Cancelled
}

/// The single-step transitions of the lifecycle: a queued task starts running or is
/// cancelled; a running task completes, fails or is cancelled; nothing leaves a
/// terminal status.
pub open spec fn step(from: TaskStatus, to: TaskStatus) -> bool {
    match from {
        TaskStatus::Queued => to is Running || to is Cancelled,
        TaskStatus::Running => to is Completed || to is Failed || to is Cancelled,
        _ => false,
    }
}

impl TaskStatus {
    /// Returns true for `Completed`, `Failed` and `Cancelled`.
    pub fn is_terminal(&self) -> (r: bool)
        ensures
            r == terminal(*self),
    {
        match self {
            TaskStatus::Queued | TaskStatus::Running => false,
            _ => true,
        }
    }

    /// Returns true when the lifecycle allows a direct move from `self` to `next`.
    pub fn can_move_to(&self, next: TaskStatus) -> (r: bool)
        ensures
            r == step(*self, next),
    {
        match self {
            TaskStatus::Queued => matches!(next, TaskStatus::Running | TaskStatus::Cancelled),
            TaskStatus::Running => matches!(
                next,
                TaskStatus::Completed | TaskStatus::Failed | TaskStatus::Cancelled
            ),
            _ => false,
        }
    }
}

/// The shape of the lifecycle: from `Queued` only `Running` and `Cancelled` are
/// reachable in one step, from `Running` only `Completed`, `Failed` and
/// `Cancelled`, and no step leaves a terminal status.
pub proof fn lemma_lifecycle(from: TaskStatus, to: TaskStatus)
    ensures
        from is Queued ==> (step(from, to) <==> (to is Running || to is Cancelled)),
        from is Running ==> (step(from, to) <==> (to is Completed || to is Failed
            || to is Cancelled)),
        terminal(from) ==> !step(from, to),
        step(from, to) ==> !terminal(from),
        to is Cancelled ==> (step(from, to) <==> !terminal(from)),
{
}

} // verus!
