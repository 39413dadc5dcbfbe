//! The typed failures that every operation can surface to its caller.

use vstd::prelude::*;

verus! {

/// Everything that can go wrong while mutating a task list or a
/// notification mailbox. No recovery is attempted inside the library:
/// each operation either applies all of its writes or reports one of
/// these and changes nothing.
#[derive(Clone, Copy, PartialEq, Eq, Structural, Debug)]
pub enum TodoError {
    /// The title or the description exceeds its length bound.
    InvalidTitle,
    /// The task list is full, or the id counter cannot grow further.
    MaxTasksLimitReached,
    /// The caller lacks the required relation to the task, or tried to
    /// assign a task to themselves, or (for reassignment) the lookup failed.
    UnauthorizedModification,
    /// No task with the requested id is in the owner's list.
    TaskNotFound,
    /// The task is in its terminal state and admits no transition.
    TaskAlreadyCompleted,
    /// The requested transition out of the cancelled state is not permitted.
    InvalidStatusTransition,
    /// The requested deadline is not strictly in the future.
    InvalidDeadline,
}

impl TodoError {
    /// A short stable name for each failure, for callers that log or print.
    pub fn describe(&self) -> (s: &'static str)
        ensures
            s@ == match *self {
                TodoError::InvalidTitle => "invalid title"@,
                TodoError::MaxTasksLimitReached => "max tasks limit reached"@,
                TodoError::UnauthorizedModification => "unauthorized modification"@,
                TodoError::TaskNotFound => "task not found"@,
                TodoError::TaskAlreadyCompleted => "task already completed"@,
                TodoError::InvalidStatusTransition => "invalid status transition"@,
                TodoError::InvalidDeadline => "invalid deadline"@,
            },
    {
        match *self {
            TodoError::InvalidTitle => "invalid title",
            TodoError::MaxTasksLimitReached => "max tasks limit reached",
            TodoError::UnauthorizedModification => "unauthorized modification",
            TodoError::TaskNotFound => "task not found",
            TodoError::TaskAlreadyCompleted => "task already completed",
            TodoError::InvalidStatusTransition => "invalid status transition",
            TodoError::InvalidDeadline => "invalid deadline",
        }
    }
}

} // verus!
