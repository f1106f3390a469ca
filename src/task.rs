use vstd::prelude::*;

verus! {

/// Identity of a spawned task.
pub type TaskId = usize;

/// What one resumption step of a task reported.
#[derive(Clone, Copy, Debug, PartialEq, Eq, Structural)]
pub enum PollOutcome {
    /// The task suspended and waits to be woken.
    Pending,
    /// The task ran to completion.
    Ready,
}

} // verus!
