//! End-to-end tests of the four operations through the service layer.

use lockd_in::errors::TodoError;
use lockd_in::instructions::{AssignTask, CreateTask, SetReminder, UpdateTaskStatus};
use lockd_in::state::{
    NotificationAccount, TaskCategory, TaskPriority, TaskStatus, UserId, UserTodoList, MAX_TASKS,
};
use lockd_in::{create_todo_task, reassign_task, set_task_reminder, update_task_status};

const DAY: i64 = 86400;

fn fresh_create_ctx(user: UserId, mailbox_owner: UserId) -> CreateTask {
    CreateTask {
        user,
        todo_list: UserTodoList::new(user),
        notification_account: NotificationAccount::new(mailbox_owner),
    }
}

fn create_simple(ctx: &mut CreateTask, title: &str, assignee: Option<UserId>, now: i64) -> Result<(), TodoError> {
    create_todo_task(
        ctx,
        title.to_string(),
        "a description".to_string(),
        TaskPriority::Medium,
        TaskCategory::Work,
        assignee,
        now,
    )
}

#[test]
fn creation_allocates_sequential_ids_and_counts() {
    let a = UserId(1);
    let mut ctx = fresh_create_ctx(a, UserId(2));
    assert_eq!(create_simple(&mut ctx, "first", None, 10), Ok(()));
    assert_eq!(ctx.todo_list.task_count, 1);
    assert_eq!(ctx.todo_list.tasks.len(), 1);
    assert_eq!(ctx.todo_list.tasks[0].id, 1);
    assert_eq!(ctx.todo_list.tasks[0].status, TaskStatus::Pending);
    assert_eq!(ctx.todo_list.tasks[0].creator, a);
    assert_eq!(ctx.todo_list.tasks[0].created_at, 10);
    assert_eq!(ctx.todo_list.tasks[0].updated_at, 10);
    assert_eq!(ctx.todo_list.tasks[0].completed_at, None);
    assert_eq!(create_simple(&mut ctx, "second", None, 11), Ok(()));
    assert_eq!(ctx.todo_list.task_count, 2);
    assert_eq!(ctx.todo_list.tasks[1].id, 2);
}

#[test]
fn self_assignment_is_rejected_and_changes_nothing() {
    let a = UserId(1);
    let mut ctx = fresh_create_ctx(a, a);
    let r = create_simple(&mut ctx, "mine alone", Some(a), 5);
    assert_eq!(r, Err(TodoError::UnauthorizedModification));
    assert_eq!(ctx.todo_list.task_count, 0);
    assert_eq!(ctx.todo_list.tasks.len(), 0);
    assert_eq!(ctx.notification_account.notifications.len(), 0);
}

#[test]
fn overlong_title_is_rejected() {
    let a = UserId(1);
    let mut ctx = fresh_create_ctx(a, UserId(2));
    let long_title: String = "x".repeat(101);
    let r = create_simple(&mut ctx, &long_title, None, 5);
    assert_eq!(r, Err(TodoError::InvalidTitle));
    assert_eq!(ctx.todo_list.tasks.len(), 0);
}

#[test]
fn overlong_description_is_rejected() {
    let a = UserId(1);
    let mut ctx = fresh_create_ctx(a, UserId(2));
    let r = create_todo_task(
        &mut ctx,
        "fine".to_string(),
        "y".repeat(501),
        TaskPriority::Low,
        TaskCategory::Personal,
        None,
        5,
    );
    assert_eq!(r, Err(TodoError::InvalidTitle));
    assert_eq!(ctx.todo_list.tasks.len(), 0);
}

#[test]
fn capacity_bound_is_enforced() {
    let a = UserId(1);
    let mut ctx = fresh_create_ctx(a, UserId(2));
    for i in 0..MAX_TASKS {
        assert_eq!(create_simple(&mut ctx, "routine", None, i as i64), Ok(()));
    }
    assert_eq!(ctx.todo_list.tasks.len(), MAX_TASKS);
    let r = create_simple(&mut ctx, "one too many", None, 99);
    assert_eq!(r, Err(TodoError::MaxTasksLimitReached));
    assert_eq!(ctx.todo_list.tasks.len(), MAX_TASKS);
    assert_eq!(ctx.todo_list.task_count, MAX_TASKS as u64);
}

#[test]
fn completed_is_terminal_for_every_target() {
    let a = UserId(1);
    let mut ctx = fresh_create_ctx(a, UserId(2));
    assert_eq!(create_simple(&mut ctx, "finish me", None, 0), Ok(()));
    let mut uctx = UpdateTaskStatus { user: a, todo_list: ctx.todo_list };
    assert_eq!(update_task_status(&mut uctx, 1, TaskStatus::Completed, DAY), Ok(()));
    assert_eq!(uctx.todo_list.tasks[0].status, TaskStatus::Completed);
    assert_eq!(uctx.todo_list.tasks[0].completed_at, Some(DAY));
    for target in [
        TaskStatus::Pending,
        TaskStatus::InProgress,
        TaskStatus::Completed,
        TaskStatus::Cancelled,
    ] {
        let r = update_task_status(&mut uctx, 1, target, 2 * DAY);
        assert_eq!(r, Err(TodoError::TaskAlreadyCompleted));
        assert_eq!(uctx.todo_list.tasks[0].status, TaskStatus::Completed);
    }
}

#[test]
fn cancelled_reopens_only_to_in_progress() {
    let a = UserId(1);
    let mut ctx = fresh_create_ctx(a, UserId(2));
    assert_eq!(create_simple(&mut ctx, "on hold", None, 0), Ok(()));
    let mut uctx = UpdateTaskStatus { user: a, todo_list: ctx.todo_list };
    assert_eq!(update_task_status(&mut uctx, 1, TaskStatus::Cancelled, 1), Ok(()));
    assert_eq!(
        update_task_status(&mut uctx, 1, TaskStatus::Pending, 2),
        Err(TodoError::InvalidStatusTransition)
    );
    assert_eq!(
        update_task_status(&mut uctx, 1, TaskStatus::Completed, 3),
        Err(TodoError::InvalidStatusTransition)
    );
    assert_eq!(uctx.todo_list.tasks[0].status, TaskStatus::Cancelled);
    assert_eq!(update_task_status(&mut uctx, 1, TaskStatus::InProgress, 4), Ok(()));
    assert_eq!(uctx.todo_list.tasks[0].status, TaskStatus::InProgress);
    assert_eq!(uctx.todo_list.tasks[0].updated_at, 4);
}

#[test]
fn unknown_task_id_reports_task_not_found() {
    let a = UserId(1);
    let mut uctx = UpdateTaskStatus { user: a, todo_list: UserTodoList::new(a) };
    assert_eq!(
        update_task_status(&mut uctx, 7, TaskStatus::InProgress, 0),
        Err(TodoError::TaskNotFound)
    );
}

#[test]
fn only_creator_or_assignee_may_update_status() {
    let a = UserId(1);
    let b = UserId(2);
    let mut ctx = fresh_create_ctx(a, b);
    assert_eq!(create_simple(&mut ctx, "shared", Some(b), 0), Ok(()));
    let mut stranger = UpdateTaskStatus { user: UserId(9), todo_list: ctx.todo_list };
    assert_eq!(
        update_task_status(&mut stranger, 1, TaskStatus::InProgress, 1),
        Err(TodoError::UnauthorizedModification)
    );
    // the assignee may
    let mut as_b = UpdateTaskStatus { user: b, todo_list: stranger.todo_list };
    assert_eq!(update_task_status(&mut as_b, 1, TaskStatus::InProgress, 2), Ok(()));
}

#[test]
fn consecutive_day_completions_build_a_streak() {
    let a = UserId(1);
    let mut ctx = fresh_create_ctx(a, UserId(2));
    assert_eq!(create_simple(&mut ctx, "monday", None, 0), Ok(()));
    assert_eq!(create_simple(&mut ctx, "tuesday", None, 0), Ok(()));
    let mut uctx = UpdateTaskStatus { user: a, todo_list: ctx.todo_list };
    let d: i64 = 10;
    assert_eq!(update_task_status(&mut uctx, 1, TaskStatus::Completed, d * DAY + 30), Ok(()));
    assert_eq!(uctx.todo_list.completed_task_streak, 1);
    assert_eq!(update_task_status(&mut uctx, 2, TaskStatus::Completed, (d + 1) * DAY + 7), Ok(()));
    assert_eq!(uctx.todo_list.completed_task_streak, 2);
    assert_eq!(uctx.todo_list.last_completed_date, Some((d + 1) * DAY + 7));
}

#[test]
fn same_day_second_completion_resets_the_streak() {
    let a = UserId(1);
    let mut ctx = fresh_create_ctx(a, UserId(2));
    assert_eq!(create_simple(&mut ctx, "early", None, 0), Ok(()));
    assert_eq!(create_simple(&mut ctx, "late", None, 0), Ok(()));
    let mut uctx = UpdateTaskStatus { user: a, todo_list: ctx.todo_list };
    let d: i64 = 10;
    assert_eq!(update_task_status(&mut uctx, 1, TaskStatus::Completed, d * DAY + 30), Ok(()));
    assert_eq!(uctx.todo_list.completed_task_streak, 1);
    assert_eq!(update_task_status(&mut uctx, 2, TaskStatus::Completed, d * DAY + 500), Ok(()));
    assert_eq!(uctx.todo_list.completed_task_streak, 1);
}

#[test]
fn a_gap_day_resets_the_streak() {
    let a = UserId(1);
    let mut ctx = fresh_create_ctx(a, UserId(2));
    assert_eq!(create_simple(&mut ctx, "monday", None, 0), Ok(()));
    assert_eq!(create_simple(&mut ctx, "thursday", None, 0), Ok(()));
    let mut uctx = UpdateTaskStatus { user: a, todo_list: ctx.todo_list };
    let d: i64 = 10;
    assert_eq!(update_task_status(&mut uctx, 1, TaskStatus::Completed, d * DAY), Ok(()));
    assert_eq!(update_task_status(&mut uctx, 2, TaskStatus::Completed, (d + 3) * DAY), Ok(()));
    assert_eq!(uctx.todo_list.completed_task_streak, 1);
}

#[test]
fn reassignment_by_non_creator_is_rejected() {
    let a = UserId(1);
    let b = UserId(2);
    let c = UserId(3);
    let mut ctx = fresh_create_ctx(a, b);
    assert_eq!(create_simple(&mut ctx, "delegated", Some(b), 0), Ok(()));
    // the current assignee tries to pass the task on
    let mut actx = AssignTask {
        creator: b,
        todo_list: ctx.todo_list,
        notification_account: NotificationAccount::new(c),
    };
    let r = reassign_task(&mut actx, 1, c, 5);
    assert_eq!(r, Err(TodoError::UnauthorizedModification));
    assert_eq!(actx.todo_list.tasks[0].assignee, Some(b));
    assert_eq!(actx.notification_account.notifications.len(), 0);
}

#[test]
fn reassignment_of_missing_task_reports_unauthorized() {
    let a = UserId(1);
    let mut actx = AssignTask {
        creator: a,
        todo_list: UserTodoList::new(a),
        notification_account: NotificationAccount::new(UserId(2)),
    };
    assert_eq!(reassign_task(&mut actx, 3, UserId(2), 0), Err(TodoError::UnauthorizedModification));
}

#[test]
fn creation_and_reassignment_notify_the_assignees() {
    // user A creates a task for B, then hands it to C
    let a = UserId(1);
    let b = UserId(2);
    let c = UserId(3);
    let mut ctx = fresh_create_ctx(a, b);
    assert_eq!(create_simple(&mut ctx, "Ship release", Some(b), 100), Ok(()));
    assert_eq!(ctx.notification_account.owner, b);
    assert_eq!(ctx.notification_account.notifications.len(), 1);
    let n = &ctx.notification_account.notifications[0];
    assert_eq!(n.title, "New Task Assigned: Ship release");
    assert_eq!(n.task_id, 1);
    assert_eq!(n.from, a);
    assert_eq!(n.timestamp, 100);
    assert!(!n.read);

    let mut actx = AssignTask {
        creator: a,
        todo_list: ctx.todo_list,
        notification_account: NotificationAccount::new(c),
    };
    assert_eq!(reassign_task(&mut actx, 1, c, 200), Ok(()));
    assert_eq!(actx.todo_list.tasks[0].assignee, Some(c));
    assert_eq!(actx.todo_list.tasks[0].updated_at, 200);
    assert_eq!(actx.notification_account.notifications.len(), 1);
    let m = &actx.notification_account.notifications[0];
    assert_eq!(m.title, "Task Reassigned: Ship release");
    assert_eq!(m.from, a);
    assert_eq!(m.task_id, 1);
}

#[test]
fn past_deadline_is_rejected_without_a_notification() {
    let a = UserId(1);
    let mut ctx = fresh_create_ctx(a, UserId(2));
    assert_eq!(create_simple(&mut ctx, "due", None, 0), Ok(()));
    let mut sctx = SetReminder {
        user: a,
        todo_list: ctx.todo_list,
        notification_account: NotificationAccount::new(a),
    };
    assert_eq!(set_task_reminder(&mut sctx, 1, 1000, 1000), Err(TodoError::InvalidDeadline));
    assert_eq!(set_task_reminder(&mut sctx, 1, 999, 1000), Err(TodoError::InvalidDeadline));
    assert_eq!(sctx.notification_account.notifications.len(), 0);
    assert_eq!(sctx.todo_list.tasks[0].deadline, None);
}

#[test]
fn reminder_messages_follow_the_urgency_ladder() {
    let a = UserId(1);
    let mut ctx = fresh_create_ctx(a, UserId(2));
    assert_eq!(create_simple(&mut ctx, "pack bags", None, 0), Ok(()));
    let mut sctx = SetReminder {
        user: a,
        todo_list: ctx.todo_list,
        notification_account: NotificationAccount::new(a),
    };
    let now: i64 = 1000;
    // same day
    assert_eq!(set_task_reminder(&mut sctx, 1, now + DAY - 1, now), Ok(()));
    // exactly one day ahead
    assert_eq!(set_task_reminder(&mut sctx, 1, now + DAY, now), Ok(()));
    // two and three days ahead
    assert_eq!(set_task_reminder(&mut sctx, 1, now + 2 * DAY, now), Ok(()));
    assert_eq!(set_task_reminder(&mut sctx, 1, now + 3 * DAY, now), Ok(()));
    let titles: Vec<&str> =
        sctx.notification_account.notifications.iter().map(|n| n.title.as_str()).collect();
    assert_eq!(
        titles,
        vec![
            "URGENT: Task 'pack bags' is due today!",
            "Task 'pack bags' is due tomorrow!",
            "Task 'pack bags' is due in 2 days",
            "Task 'pack bags' is due in 3 days",
        ]
    );
    assert_eq!(sctx.todo_list.tasks[0].deadline, Some(now + 3 * DAY));
    assert_eq!(sctx.notification_account.notifications[0].from, a);
    assert_eq!(sctx.notification_account.notifications[0].timestamp, now);
}

#[test]
fn far_deadline_uses_the_flat_calendar_date() {
    let a = UserId(1);
    let mut ctx = fresh_create_ctx(a, UserId(2));
    assert_eq!(create_simple(&mut ctx, "taxes", None, 0), Ok(()));
    let mut sctx = SetReminder {
        user: a,
        todo_list: ctx.todo_list,
        notification_account: NotificationAccount::new(a),
    };
    // 10000 flat days: year 1970 + 27, day-of-year 145, month 5, day 26
    assert_eq!(set_task_reminder(&mut sctx, 1, 10000 * DAY, 0), Ok(()));
    assert_eq!(
        sctx.notification_account.notifications[0].title,
        "Task 'taxes' is due on 26-05-1997"
    );
}

#[test]
fn reminders_respect_authorization() {
    let a = UserId(1);
    let b = UserId(2);
    let mut ctx = fresh_create_ctx(a, b);
    assert_eq!(create_simple(&mut ctx, "joint", Some(b), 0), Ok(()));
    let mut stranger = SetReminder {
        user: UserId(9),
        todo_list: ctx.todo_list,
        notification_account: NotificationAccount::new(UserId(9)),
    };
    assert_eq!(
        set_task_reminder(&mut stranger, 1, DAY, 0),
        Err(TodoError::UnauthorizedModification)
    );
    // the assignee may set one, into their own mailbox
    let mut as_b = SetReminder {
        user: b,
        todo_list: stranger.todo_list,
        notification_account: NotificationAccount::new(b),
    };
    assert_eq!(set_task_reminder(&mut as_b, 1, DAY, 0), Ok(()));
    assert_eq!(as_b.notification_account.notifications.len(), 1);
    assert_eq!(set_task_reminder(&mut as_b, 9, DAY, 0), Err(TodoError::TaskNotFound));
}

#[test]
fn timestamps_before_the_epoch_fall_on_floor_days() {
    let a = UserId(1);
    let mut ctx = fresh_create_ctx(a, UserId(2));
    assert_eq!(create_simple(&mut ctx, "old clock", None, -5 * DAY), Ok(()));
    assert_eq!(create_simple(&mut ctx, "older clock", None, -5 * DAY), Ok(()));
    let mut uctx = UpdateTaskStatus { user: a, todo_list: ctx.todo_list };
    // -100 falls late in the day before the epoch, +100 early in day zero:
    // consecutive calendar days, so the streak grows
    assert_eq!(update_task_status(&mut uctx, 1, TaskStatus::Completed, -100), Ok(()));
    assert_eq!(uctx.todo_list.completed_task_streak, 1);
    assert_eq!(update_task_status(&mut uctx, 2, TaskStatus::Completed, 100), Ok(()));
    assert_eq!(uctx.todo_list.completed_task_streak, 2);
}

#[test]
fn errors_describe_themselves() {
    assert_eq!(TodoError::InvalidTitle.describe(), "invalid title");
    assert_eq!(TodoError::MaxTasksLimitReached.describe(), "max tasks limit reached");
    assert_eq!(TodoError::UnauthorizedModification.describe(), "unauthorized modification");
    assert_eq!(TodoError::TaskNotFound.describe(), "task not found");
    assert_eq!(TodoError::TaskAlreadyCompleted.describe(), "task already completed");
    assert_eq!(TodoError::InvalidStatusTransition.describe(), "invalid status transition");
    assert_eq!(TodoError::InvalidDeadline.describe(), "invalid deadline");
}
