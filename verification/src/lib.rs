//! A per-user todo service: bounded task lists with assignment, a status
//! state machine with a completion streak, reminder formatting, and an
//! append-only notification mailbox per user.
//!
//! How a caller identity is authenticated, and how the two records of a
//! user are addressed and persisted, is left to the surrounding program:
//! the library takes a verified caller identity and the records themselves,
//! together with the current time, and performs the mutation logic.

use vstd::prelude::*;

pub mod errors;
pub mod instructions;
pub mod laws;
pub mod state;
pub mod text;
pub mod time;

use crate::errors::TodoError;
use crate::instructions::{
    assign_task_post, create_task_post, set_reminder_post, update_task_status_post, AssignTask,
    CreateTask, SetReminder, UpdateTaskStatus,
};
use crate::state::{TaskCategory, TaskPriority, TaskStatus, UserId};

verus! {

/// Creates a task in the caller's list; the service entry point for
/// `instructions::create_task`.
pub fn create_todo_task(
    ctx: &mut CreateTask,
    title: String,
    description: String,
    priority: TaskPriority,
    category: TaskCategory,
    assignee: Option<UserId>,
    now: i64,
) -> (r: Result<(), TodoError>)
    requires
        old(ctx).todo_list.wf(),
        assignee matches Some(a) ==> old(ctx).notification_account.owner == a,
    ensures
        create_task_post(
            *old(ctx),
            *final(ctx),
            r,
            title,
            description,
            priority,
            category,
            assignee,
            now,
        ),
{
    instructions::create_task(ctx, title, description, priority, category, assignee, now)
}

/// Moves a task to a new status; the service entry point for
/// `instructions::update_task_status`.
pub fn update_task_status(
    ctx: &mut UpdateTaskStatus,
    task_id: u64,
    new_status: TaskStatus,
    now: i64,
) -> (r: Result<(), TodoError>)
    requires
        old(ctx).todo_list.wf(),
    ensures
        update_task_status_post(*old(ctx), *final(ctx), r, task_id, new_status, now),
{
    instructions::update_task_status(ctx, task_id, new_status, now)
}

/// Hands a task to a new assignee; the service entry point for
/// `instructions::assign_task`.
pub fn reassign_task(
    ctx: &mut AssignTask,
    task_id: u64,
    new_assignee: UserId,
    now: i64,
) -> (r: Result<(), TodoError>)
    requires
        old(ctx).todo_list.wf(),
        old(ctx).notification_account.owner == new_assignee,
    ensures
        assign_task_post(*old(ctx), *final(ctx), r, task_id, new_assignee, now),
{
    instructions::assign_task(ctx, task_id, new_assignee, now)
}

/// Sets a reminder deadline on a task; the service entry point for
/// `instructions::set_reminder`.
pub fn set_task_reminder(
    ctx: &mut SetReminder,
    task_id: u64,
    deadline: i64,
    now: i64,
) -> (r: Result<(), TodoError>)
    requires
        old(ctx).todo_list.wf(),
        old(ctx).notification_account.owner == old(ctx).user,
    ensures
        set_reminder_post(*old(ctx), *final(ctx), r, task_id, deadline, now),
{
    instructions::set_reminder(ctx, task_id, deadline, now)
}

} // verus!
