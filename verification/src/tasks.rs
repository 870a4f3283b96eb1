//! The task collaborator's boundary: background work lives outside the core
//! and reports back by sending `(task id, state)` messages; the core only
//! decides how a task's observed state advances.
use vstd::prelude::*;
use crate::nodes::Scope;

verus! {

/// Observed lifecycle of one background task.
#[derive(Clone, Copy, Debug, PartialEq, Eq, Structural)]
pub enum TaskState {
    Initial,
    Pending,
    Cancelled,
    Finnished,
}

/// The status a task handle shows after a `(task id, state)` message: only a
/// message for this very task moves the status, all others leave it alone.
pub fn task_status_update(
    current: TaskState,
    my_id: Scope,
    msg_id: Scope,
    reported: TaskState,
) -> (r: TaskState)
    ensures
        msg_id == my_id ==> r == reported,
        msg_id != my_id ==> r == current,
{
    if msg_id == my_id {
        reported
    } else {
        current
    }
}

} // verus!
