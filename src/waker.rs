use vstd::prelude::*;
use std::sync::mpsc::Sender;
use crate::task::TaskId;

verus! {

#[verifier::external_type_specification]
#[verifier::external_body]
#[verifier::reject_recursive_types(T)]
pub struct ExSender<T>(Sender<T>);

/// Relies on `std::sync::mpsc::Sender::send`: queues the value for the
/// receiving end, and fails only when that end has been dropped, handing the
/// unsent value back in its error.
#[verifier::external_body]
fn send_id(tx: &Sender<TaskId>, id: TaskId) -> (r: Result<(), TaskId>)
    ensures
        r matches Err(v) ==> v == id,
{
    tx.send(id).map_err(|e| e.0)
}

/// A notifier bound to one task: waking it queues the task's identity on the
/// scheduler's ready queue. Any number of them may exist for one task, and
/// each queues the same identity.
pub struct MpscWaker(TaskId, Sender<TaskId>);

impl MpscWaker {
    /// The identity that this notifier queues.
    pub closed spec fn bound_id(&self) -> TaskId {
        self.0
    }

    /// A notifier for task `task_id` that queues on `tx`.
    pub fn new(task_id: TaskId, tx: Sender<TaskId>) -> (w: Self)
        ensures
            w.bound_id() == task_id,
    {
        MpscWaker(task_id, tx)
    }

    /// The identity that this notifier queues.
    pub fn task_id(&self) -> (r: TaskId)
        ensures
            r == self.bound_id(),
    {
        self.0
    }

    /// Sends the bound identity to the ready queue; every call sends it once
    /// more, so duplicate wakes are not merged here. When the scheduler's end
    /// of the queue is gone, the identity comes back undelivered in the error.
    pub fn wake(&self) -> (r: Result<(), TaskId>)
        ensures
            r matches Err(v) ==> v == self.bound_id(),
    {
        send_id(&self.1, self.0)
    }
}

} // verus!
