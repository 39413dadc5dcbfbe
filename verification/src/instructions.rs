//! The four operations of the service: create a task, update its status,
//! reassign it, and set a reminder on it.
//!
//! Each operation receives the caller's verified identity and the records
//! it touches, bundled in a context struct, together with the current
//! time. Every failure leaves every record exactly as it was: an
//! operation's writes either all apply or none do.

use vstd::prelude::*;

use crate::errors::TodoError;
use crate::state::{
    has_task, task_index, NotificationAccount, Task, TaskCategory, TaskNotification, TaskPriority,
    TaskStatus, UserId, UserTodoList, MAX_DESCRIPTION_LENGTH, MAX_TASKS, MAX_TITLE_LENGTH,
};
use crate::state::lemma_task_index_is;
use crate::text::{
    assigned_message, format_assigned_message, format_reassigned_message, format_reminder_message,
    reassigned_message, reminder_message,
};
use crate::time::{epoch_day_of, next_streak};
use vstd::string::StrSliceExecFns;

verus! {

/// The task in `tasks` that carries `id`; meaningful only when
/// `has_task(tasks, id)` holds.
pub open spec fn found_task(tasks: Seq<Task>, id: u64) -> Task {
    tasks[task_index(tasks, id)]
}

/// Whether the status state machine permits moving from `from` to `to`:
/// `Completed` is terminal, `Cancelled` can only be reopened to
/// `InProgress`, and the two live states permit any move.
pub open spec fn transition_allowed(from: TaskStatus, to: TaskStatus) -> bool {
    match from {
        TaskStatus::Completed => false,
        TaskStatus::Cancelled => to == TaskStatus::InProgress,
        _ => true,
    }
}

/// `t` after a permitted transition to `to` at instant `now`.
pub open spec fn with_status(t: Task, to: TaskStatus, now: i64) -> Task {
    Task {
        status: to,
        updated_at: now,
        completed_at: if to == TaskStatus::Completed {
            Some(now)
        } else {
            t.completed_at
        },
        ..t
    }
}

/// `t` after being handed to `assignee` at instant `now`.
pub open spec fn with_assignee(t: Task, assignee: UserId, now: i64) -> Task {
    Task { assignee: Some(assignee), updated_at: now, ..t }
}

/// `t` after its deadline is set at instant `now`.
pub open spec fn with_deadline(t: Task, deadline: i64, now: i64) -> Task {
    Task { deadline: Some(deadline), updated_at: now, ..t }
}

/// `post` is `pre` with exactly one notification appended: an unread
/// entry about `task_id`, triggered by `from`, headlined `title`,
/// stamped `now`.
pub open spec fn appended_notification(
    pre: Seq<TaskNotification>,
    post: Seq<TaskNotification>,
    task_id: u64,
    from: UserId,
    title: Seq<char>,
    now: i64,
) -> bool {
    &&& post.len() == pre.len() + 1
    &&& post.subrange(0, pre.len() as int) =~= pre
    &&& post.last().task_id == task_id
    &&& post.last().from == from
    &&& post.last().title@ == title
    &&& post.last().timestamp == now
    &&& post.last().read == false
}

/// The records `create_task` reads and writes: the caller, the caller's
/// own task list, and the mailbox of the identity the task is assigned
/// to (unused when the task is created unassigned).
pub struct CreateTask {
    pub user: UserId,
    pub todo_list: UserTodoList,
    pub notification_account: NotificationAccount,
}

/// Everything `create_task` promises, relating the records before
/// (`pre`) and after (`post`) the call to its result `r`.
pub open spec fn create_task_post(
    pre: CreateTask,
    post: CreateTask,
    r: Result<(), TodoError>,
    title: String,
    description: String,
    priority: TaskPriority,
    category: TaskCategory,
    assignee: Option<UserId>,
    now: i64,
) -> bool {
    let list = pre.todo_list;
    let new_id = (list.task_count + 1) as u64;
    &&& post.user == pre.user
    &&& post.todo_list.wf()
    &&& post.todo_list.owner == list.owner
    &&& post.notification_account.owner == pre.notification_account.owner
    &&& r is Err ==> post.todo_list == list && post.notification_account
        == pre.notification_account
    // self-assignment is rejected first
    &&& r == Err::<(), TodoError>(TodoError::UnauthorizedModification) <==> assignee == Some(
        pre.user,
    )
    // then the two length bounds, both under the same error
    &&& r == Err::<(), TodoError>(TodoError::InvalidTitle) <==> (assignee != Some(pre.user) && (
    title@.len() > MAX_TITLE_LENGTH || description@.len() > MAX_DESCRIPTION_LENGTH))
    // then the capacity bound and the id counter
    &&& r == Err::<(), TodoError>(TodoError::MaxTasksLimitReached) <==> (assignee != Some(pre.user)
        && title@.len() <= MAX_TITLE_LENGTH && description@.len() <= MAX_DESCRIPTION_LENGTH && (
    list.tasks@.len() >= MAX_TASKS || list.task_count == u64::MAX))
    &&& r is Ok <==> (assignee != Some(pre.user) && title@.len() <= MAX_TITLE_LENGTH
        && description@.len() <= MAX_DESCRIPTION_LENGTH && list.tasks@.len() < MAX_TASKS
        && list.task_count < u64::MAX)
    &&& r is Ok ==> {
        &&& post.todo_list.task_count == list.task_count + 1
        &&& post.todo_list.tasks@ == list.tasks@.push(
            Task::initial(new_id, title, description, pre.user, assignee, priority, category, now),
        )
        &&& post.todo_list.completed_task_streak == list.completed_task_streak
        &&& post.todo_list.last_completed_date == list.last_completed_date
        &&& match assignee {
            Some(_) => appended_notification(
                pre.notification_account.notifications@,
                post.notification_account.notifications@,
                new_id,
                pre.user,
                assigned_message(title@),
                now,
            ),
            None => post.notification_account == pre.notification_account,
        }
    }
}

/// Validates the texts, the capacity and the id counter, rejects
/// self-assignment, then appends a fresh `Pending` task under the next
/// sequential id and, when the task is assigned, notifies the assignee.
pub fn create_task(
    ctx: &mut CreateTask,
    title: String,
    description: String,
    priority: TaskPriority,
    category: TaskCategory,
    assignee: Option<UserId>,
    now: i64,
) -> (r: Result<(), TodoError>)
    requires
        old(ctx).todo_list.wf(),
        assignee matches Some(a) ==> old(ctx).notification_account.owner == a,
    ensures
        create_task_post(
            *old(ctx),
            *final(ctx),
            r,
            title,
            description,
            priority,
            category,
            assignee,
            now,
        ),
{
    if let Some(a) = assignee {
        if a == ctx.user {
            return Err(TodoError::UnauthorizedModification);
        }
    }
    if title.as_str().unicode_len() > MAX_TITLE_LENGTH {
        return Err(TodoError::InvalidTitle);
    }
    if description.as_str().unicode_len() > MAX_DESCRIPTION_LENGTH {
        return Err(TodoError::InvalidTitle);
    }
    if ctx.todo_list.tasks.len() >= MAX_TASKS {
        return Err(TodoError::MaxTasksLimitReached);
    }
    let task_id: u64 = match ctx.todo_list.task_count.checked_add(1) {
        Some(id) => id,
        None => {
            return Err(TodoError::MaxTasksLimitReached);
        },
    };

    let task_title = title.clone();
    let new_task = Task::new(
        task_id,
        title,
        description,
        ctx.user,
        assignee,
        priority,
        category,
        now,
    );

    ctx.todo_list.tasks.push(new_task);
    ctx.todo_list.task_count = task_id;

    if assignee.is_some() {
        let notification = TaskNotification {
            task_id,
            from: ctx.user,
            title: format_assigned_message(task_title.as_str()),
            timestamp: now,
            read: false,
        };
        ctx.notification_account.notifications.push(notification);
    }
    Ok(())
}

/// The records `update_task_status` reads and writes: the caller and the
/// task list holding the task.
pub struct UpdateTaskStatus {
    pub user: UserId,
    pub todo_list: UserTodoList,
}

/// Everything `update_task_status` promises.
pub open spec fn update_task_status_post(
    pre: UpdateTaskStatus,
    post: UpdateTaskStatus,
    r: Result<(), TodoError>,
    task_id: u64,
    new_status: TaskStatus,
    now: i64,
) -> bool {
    let tasks = pre.todo_list.tasks@;
    let found = has_task(tasks, task_id);
    let t = found_task(tasks, task_id);
    let may = t.spec_authorizes(pre.user);
    &&& post.user == pre.user
    &&& post.todo_list.wf()
    &&& post.todo_list.owner == pre.todo_list.owner
    &&& post.todo_list.task_count == pre.todo_list.task_count
    &&& r is Err ==> post.todo_list == pre.todo_list
    &&& r == Err::<(), TodoError>(TodoError::TaskNotFound) <==> !found
    &&& r == Err::<(), TodoError>(TodoError::UnauthorizedModification) <==> (found && !may)
    &&& r == Err::<(), TodoError>(TodoError::TaskAlreadyCompleted) <==> (found && may && t.status
        == TaskStatus::Completed)
    &&& r == Err::<(), TodoError>(TodoError::InvalidStatusTransition) <==> (found && may
        && t.status == TaskStatus::Cancelled && new_status != TaskStatus::InProgress)
    &&& r is Ok <==> (found && may && transition_allowed(t.status, new_status))
    &&& r is Ok ==> post.todo_list.tasks@ == tasks.update(
        task_index(tasks, task_id),
        with_status(t, new_status, now),
    )
    &&& (r is Ok && new_status == TaskStatus::Completed) ==> {
        &&& post.todo_list.completed_task_streak as int == next_streak(
            pre.todo_list.completed_task_streak,
            pre.todo_list.last_completed_date,
            now,
        )
        &&& post.todo_list.last_completed_date == Some(now)
    }
    &&& (r is Ok && new_status != TaskStatus::Completed) ==> {
        &&& post.todo_list.completed_task_streak == pre.todo_list.completed_task_streak
        &&& post.todo_list.last_completed_date == pre.todo_list.last_completed_date
    }
}

/// Looks the task up, checks that the caller is its creator or current
/// assignee, enforces the transition rule, then applies the new status;
/// a transition into `Completed` also records the completion instant and
/// reruns the streak rule.
pub fn update_task_status(
    ctx: &mut UpdateTaskStatus,
    task_id: u64,
    new_status: TaskStatus,
    now: i64,
) -> (r: Result<(), TodoError>)
    requires
        old(ctx).todo_list.wf(),
    ensures
        update_task_status_post(*old(ctx), *final(ctx), r, task_id, new_status, now),
{
    let idx: usize = match ctx.todo_list.find_task(task_id) {
        Some(i) => i,
        None => {
            return Err(TodoError::TaskNotFound);
        },
    };
    proof {
        lemma_task_index_is(ctx.todo_list.tasks@, task_id, idx as int);
    }
    if !ctx.todo_list.tasks[idx].authorizes(ctx.user) {
        return Err(TodoError::UnauthorizedModification);
    }
    match ctx.todo_list.tasks[idx].status {
        TaskStatus::Completed => {
            return Err(TodoError::TaskAlreadyCompleted);
        },
        TaskStatus::Cancelled => {
            if new_status != TaskStatus::InProgress {
                return Err(TodoError::InvalidStatusTransition);
            }
        },
        _ => {},
    }

    let completing = new_status == TaskStatus::Completed;
    let t = &mut ctx.todo_list.tasks[idx];
    t.status = new_status;
    t.updated_at = now;
    if completing {
        t.completed_at = Some(now);
    }

    if completing {
        let today: i64 = epoch_day_of(now);
        match ctx.todo_list.last_completed_date {
            Some(last_completed) => {
                let last_day: i64 = epoch_day_of(last_completed);
                if last_day == today - 1 {
                    ctx.todo_list.completed_task_streak = ctx.todo_list.completed_task_streak + 1;
                } else {
                    ctx.todo_list.completed_task_streak = 1;
                }
            },
            None => {
                ctx.todo_list.completed_task_streak = 1;
            },
        }
        ctx.todo_list.last_completed_date = Some(now);
    }
    Ok(())
}

/// The records `assign_task` reads and writes: the caller (who must be
/// the task's creator), the task list holding the task, and the mailbox
/// of the identity the task is handed to.
pub struct AssignTask {
    pub creator: UserId,
    pub todo_list: UserTodoList,
    pub notification_account: NotificationAccount,
}

/// Everything `assign_task` promises. A failed lookup is reported as
/// `UnauthorizedModification`, not `TaskNotFound`: existing callers
/// depend on that asymmetry.
pub open spec fn assign_task_post(
    pre: AssignTask,
    post: AssignTask,
    r: Result<(), TodoError>,
    task_id: u64,
    new_assignee: UserId,
    now: i64,
) -> bool {
    let tasks = pre.todo_list.tasks@;
    let found = has_task(tasks, task_id);
    let t = found_task(tasks, task_id);
    &&& post.creator == pre.creator
    &&& post.todo_list.wf()
    &&& post.todo_list.owner == pre.todo_list.owner
    &&& post.todo_list.task_count == pre.todo_list.task_count
    &&& post.todo_list.completed_task_streak == pre.todo_list.completed_task_streak
    &&& post.todo_list.last_completed_date == pre.todo_list.last_completed_date
    &&& post.notification_account.owner == pre.notification_account.owner
    &&& r is Err ==> post.todo_list == pre.todo_list && post.notification_account
        == pre.notification_account
    &&& r == Err::<(), TodoError>(TodoError::UnauthorizedModification) <==> (!found || t.creator
        != pre.creator)
    &&& r is Ok <==> (found && t.creator == pre.creator)
    &&& r is Ok ==> {
        &&& post.todo_list.tasks@ == tasks.update(
            task_index(tasks, task_id),
            with_assignee(t, new_assignee, now),
        )
        &&& appended_notification(
            pre.notification_account.notifications@,
            post.notification_account.notifications@,
            task_id,
            pre.creator,
            reassigned_message(t.title@),
            now,
        )
    }
}

/// Looks the task up, requires the caller to be its creator, hands the
/// task to `new_assignee`, and notifies the new assignee's mailbox.
pub fn assign_task(
    ctx: &mut AssignTask,
    task_id: u64,
    new_assignee: UserId,
    now: i64,
) -> (r: Result<(), TodoError>)
    requires
        old(ctx).todo_list.wf(),
        old(ctx).notification_account.owner == new_assignee,
    ensures
        assign_task_post(*old(ctx), *final(ctx), r, task_id, new_assignee, now),
{
    let idx: usize = match ctx.todo_list.find_task(task_id) {
        Some(i) => i,
        None => {
            return Err(TodoError::UnauthorizedModification);
        },
    };
    proof {
        lemma_task_index_is(ctx.todo_list.tasks@, task_id, idx as int);
    }
    if ctx.todo_list.tasks[idx].creator != ctx.creator {
        return Err(TodoError::UnauthorizedModification);
    }

    let message = format_reassigned_message(ctx.todo_list.tasks[idx].title.as_str());

    let t = &mut ctx.todo_list.tasks[idx];
    t.assignee = Some(new_assignee);
    t.updated_at = now;

    let notification = TaskNotification {
        task_id,
        from: ctx.creator,
        title: message,
        timestamp: now,
        read: false,
    };
    ctx.notification_account.notifications.push(notification);
    Ok(())
}

/// The records `set_reminder` reads and writes: the caller, the task
/// list holding the task, and the caller's own mailbox, which receives
/// the reminder.
pub struct SetReminder {
    pub user: UserId,
    pub todo_list: UserTodoList,
    pub notification_account: NotificationAccount,
}

/// Everything `set_reminder` promises.
pub open spec fn set_reminder_post(
    pre: SetReminder,
    post: SetReminder,
    r: Result<(), TodoError>,
    task_id: u64,
    deadline: i64,
    now: i64,
) -> bool {
    let tasks = pre.todo_list.tasks@;
    let found = has_task(tasks, task_id);
    let t = found_task(tasks, task_id);
    let may = t.spec_authorizes(pre.user);
    &&& post.user == pre.user
    &&& post.todo_list.wf()
    &&& post.todo_list.owner == pre.todo_list.owner
    &&& post.todo_list.task_count == pre.todo_list.task_count
    &&& post.todo_list.completed_task_streak == pre.todo_list.completed_task_streak
    &&& post.todo_list.last_completed_date == pre.todo_list.last_completed_date
    &&& post.notification_account.owner == pre.notification_account.owner
    &&& r is Err ==> post.todo_list == pre.todo_list && post.notification_account
        == pre.notification_account
    &&& r == Err::<(), TodoError>(TodoError::TaskNotFound) <==> !found
    &&& r == Err::<(), TodoError>(TodoError::UnauthorizedModification) <==> (found && !may)
    &&& r == Err::<(), TodoError>(TodoError::InvalidDeadline) <==> (found && may && deadline
        <= now)
    &&& r is Ok <==> (found && may && deadline > now)
    &&& r is Ok ==> {
        &&& post.todo_list.tasks@ == tasks.update(
            task_index(tasks, task_id),
            with_deadline(t, deadline, now),
        )
        &&& appended_notification(
            pre.notification_account.notifications@,
            post.notification_account.notifications@,
            task_id,
            pre.user,
            reminder_message(t.title@, deadline as int, now as int),
            now,
        )
    }
}

/// Looks the task up, checks that the caller is its creator or current
/// assignee and that the deadline lies strictly in the future, then
/// stores the deadline on the task and appends an urgency reminder to
/// the caller's own mailbox.
pub fn set_reminder(
    ctx: &mut SetReminder,
    task_id: u64,
    deadline: i64,
    now: i64,
) -> (r: Result<(), TodoError>)
    requires
        old(ctx).todo_list.wf(),
        old(ctx).notification_account.owner == old(ctx).user,
    ensures
        set_reminder_post(*old(ctx), *final(ctx), r, task_id, deadline, now),
{
    let idx: usize = match ctx.todo_list.find_task(task_id) {
        Some(i) => i,
        None => {
            return Err(TodoError::TaskNotFound);
        },
    };
    proof {
        lemma_task_index_is(ctx.todo_list.tasks@, task_id, idx as int);
    }
    if !ctx.todo_list.tasks[idx].authorizes(ctx.user) {
        return Err(TodoError::UnauthorizedModification);
    }
    if deadline <= now {
        return Err(TodoError::InvalidDeadline);
    }

    let message = format_reminder_message(ctx.todo_list.tasks[idx].title.as_str(), deadline, now);

    let notification = TaskNotification {
        task_id,
        from: ctx.user,
        title: message,
        timestamp: now,
        read: false,
    };
    ctx.notification_account.notifications.push(notification);

    let t = &mut ctx.todo_list.tasks[idx];
    t.deadline = Some(deadline);
    t.updated_at = now;
    Ok(())
}

} // verus!
