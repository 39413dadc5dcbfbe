//! The value types of the service: tasks, the per-owner task list with its
//! aggregate counters, and the per-owner notification mailbox.

use vstd::prelude::*;

use crate::time::{epoch_day, MIN_EPOCH_DAY};

verus! {

/// A verified caller or owner identity. The surrounding program maps
/// whatever authentication it uses onto this value before calling in.
#[derive(Clone, Copy, PartialEq, Eq, Structural, Debug, Hash)]
pub struct UserId(pub u64);

/// Upper bound on a task title, in characters.
pub const MAX_TITLE_LENGTH: usize = 100;

/// Upper bound on a task description, in characters.
pub const MAX_DESCRIPTION_LENGTH: usize = 500;

/// Upper bound on the number of tasks one list can hold.
pub const MAX_TASKS: usize = 50;

/// How urgent a task is.
#[derive(Clone, Copy, PartialEq, Eq, Structural, Debug)]
pub enum TaskPriority {
    Low,
    Medium,
    High,
}

/// What sphere of life a task belongs to.
#[derive(Clone, Copy, PartialEq, Eq, Structural, Debug)]
pub enum TaskCategory {
    Work,
    Personal,
    Shopping,
    Health,
    Other,
}

/// Where a task stands in its lifecycle. `Completed` is terminal;
/// `Cancelled` can be reopened exactly one way, to `InProgress`.
#[derive(Clone, Copy, PartialEq, Eq, Structural, Debug)]
pub enum TaskStatus {
    Pending,
    InProgress,
    Completed,
    Cancelled,
}

/// One task and its lifecycle fields. A plain value: all behavior lives
/// in the operations of `instructions`.
#[derive(Debug)]
pub struct Task {
    /// Unique within the owning list, assigned sequentially starting at 1.
    pub id: u64,
    pub title: String,
    pub description: String,
    /// The identity that created the task; never changes afterwards.
    pub creator: UserId,
    /// The identity the task is delegated to; `None` means unassigned.
    pub assignee: Option<UserId>,
    pub priority: TaskPriority,
    pub category: TaskCategory,
    pub status: TaskStatus,
    /// Optional reminder deadline, seconds since the epoch.
    pub deadline: Option<i64>,
    pub created_at: i64,
    pub updated_at: i64,
    /// Set exactly once, when the status transitions into `Completed`.
    pub completed_at: Option<i64>,
}

impl Task {
    /// Both text fields are within their bounds, and `completed_at` is
    /// set exactly when the task is completed.
    pub open spec fn wf(self) -> bool {
        &&& self.title@.len() <= MAX_TITLE_LENGTH
        &&& self.description@.len() <= MAX_DESCRIPTION_LENGTH
        &&& (self.completed_at is Some <==> self.status == TaskStatus::Completed)
    }

    /// The record a fresh task holds: the given fields, the initial
    /// status `Pending`, both timestamps at the creation instant, and no
    /// deadline or completion yet.
    pub open spec fn initial(
        id: u64,
        title: String,
        description: String,
        creator: UserId,
        assignee: Option<UserId>,
        priority: TaskPriority,
        category: TaskCategory,
        now: i64,
    ) -> Task {
        Task {
            id,
            title,
            description,
            creator,
            assignee,
            priority,
            category,
            status: TaskStatus::Pending,
            deadline: None,
            created_at: now,
            updated_at: now,
            completed_at: None,
        }
    }

    /// Creates a task in its initial state.
    pub fn new(
        id: u64,
        title: String,
        description: String,
        creator: UserId,
        assignee: Option<UserId>,
        priority: TaskPriority,
        category: TaskCategory,
        now: i64,
    ) -> (t: Task)
        ensures
            t == Task::initial(id, title, description, creator, assignee, priority, category, now),
    {
        Task {
            id,
            title,
            description,
            creator,
            assignee,
            priority,
            category,
            status: TaskStatus::Pending,
            deadline: None,
            created_at: now,
            updated_at: now,
            completed_at: None,
        }
    }

    /// Whether `caller` may mutate the task: the caller must be its
    /// creator or its current assignee, judged on the task's current state.
    pub open spec fn spec_authorizes(self, caller: UserId) -> bool {
        self.creator == caller || self.assignee == Some(caller)
    }

    /// The single authorization rule, evaluated fresh on every mutating call.
    pub fn authorizes(&self, caller: UserId) -> (ok: bool)
        ensures
            ok == self.spec_authorizes(caller),
    {
        self.creator == caller || match self.assignee {
            Some(a) => a == caller,
            None => false,
        }
    }
}

/// One notification entry. `task_id` is a weak reference: the task it
/// concerns may be mutated independently later.
#[derive(Debug)]
pub struct TaskNotification {
    pub task_id: u64,
    /// The actor whose action triggered the notification.
    pub from: UserId,
    /// The headline text of the notification.
    pub title: String,
    pub timestamp: i64,
    /// Defaults to false; nothing in this library ever sets it true,
    /// that is left to the delivery layer.
    pub read: bool,
}

/// The per-owner append-only notification mailbox.
#[derive(Debug)]
pub struct NotificationAccount {
    pub owner: UserId,
    pub notifications: Vec<TaskNotification>,
}

impl NotificationAccount {
    /// An empty mailbox for `owner`.
    pub fn new(owner: UserId) -> (a: NotificationAccount)
        ensures
            a.owner == owner,
            a.notifications@ =~= Seq::<TaskNotification>::empty(),
    {
        NotificationAccount { owner, notifications: Vec::new() }
    }
}

/// The per-owner task list with its aggregate counters.
#[derive(Debug)]
pub struct UserTodoList {
    pub owner: UserId,
    /// Insertion order, bounded by `MAX_TASKS`.
    pub tasks: Vec<Task>,
    /// Count of ids ever allocated; never decremented.
    pub task_count: u64,
    /// Count of consecutive calendar days with at least one completion.
    pub completed_task_streak: u64,
    /// The instant of the most recent completion event.
    pub last_completed_date: Option<i64>,
}

/// Whether some task in `tasks` carries `id`.
pub open spec fn has_task(tasks: Seq<Task>, id: u64) -> bool {
    exists|i: int| 0 <= i < tasks.len() && tasks[i].id == id
}

/// The position of the task carrying `id`; meaningful only when
/// `has_task` holds, and unique under `UserTodoList::wf`.
pub open spec fn task_index(tasks: Seq<Task>, id: u64) -> int {
    choose|i: int| 0 <= i < tasks.len() && tasks[i].id == id
}

impl UserTodoList {
    /// The list's internal invariant: the capacity bound, ids that are
    /// strictly increasing and never beyond `task_count`, well-formed
    /// tasks, and a streak consistent with the last completion date.
    /// The streak bound caps it by how many consecutive days can have
    /// passed up to that date, which keeps the counter far from overflow.
    pub open spec fn wf(self) -> bool {
        &&& self.tasks@.len() <= MAX_TASKS
        &&& forall|i: int| 0 <= i < self.tasks@.len() ==> (#[trigger] self.tasks@[i]).wf()
        &&& forall|i: int|
            0 <= i < self.tasks@.len() ==> 1 <= (#[trigger] self.tasks@[i]).id <= self.task_count
        &&& forall|i: int, j: int|
            #![trigger self.tasks@[i].id, self.tasks@[j].id]
            0 <= i < j < self.tasks@.len() ==> self.tasks@[i].id < self.tasks@[j].id
        &&& match self.last_completed_date {
            None => self.completed_task_streak == 0,
            Some(t) => 1 <= self.completed_task_streak
                && self.completed_task_streak as int <= epoch_day(t as int) - MIN_EPOCH_DAY + 1,
        }
    }

    /// An empty list for `owner`: no tasks yet, no id allocated, no
    /// completion recorded.
    pub fn new(owner: UserId) -> (l: UserTodoList)
        ensures
            l.wf(),
            l.owner == owner,
            l.tasks@ =~= Seq::<Task>::empty(),
            l.task_count == 0,
            l.completed_task_streak == 0,
            l.last_completed_date is None,
    {
        UserTodoList {
            owner,
            tasks: Vec::new(),
            task_count: 0,
            completed_task_streak: 0,
            last_completed_date: None,
        }
    }

    /// Linear lookup of a task position by id.
    pub fn find_task(&self, id: u64) -> (r: Option<usize>)
        ensures
            match r {
                Some(i) => i < self.tasks@.len() && self.tasks@[i as int].id == id,
                None => !has_task(self.tasks@, id),
            },
    {
        let n: usize = self.tasks.len();
        for i in 0..n
            invariant
                n == self.tasks@.len(),
                forall|j: int| 0 <= j < i ==> self.tasks@[j].id != id,
        {
            if self.tasks[i].id == id {
                return Some(i);
            }
        }
        None
    }
}

/// Under the list invariant ids are unique, so a position that carries
/// `id` is the position `task_index` denotes.
pub proof fn lemma_task_index_is(tasks: Seq<Task>, id: u64, i: int)
    requires
        forall|p: int, q: int|
            #![trigger tasks[p].id, tasks[q].id]
            0 <= p < q < tasks.len() ==> tasks[p].id < tasks[q].id,
        0 <= i < tasks.len(),
        tasks[i].id == id,
    ensures
        has_task(tasks, id),
        task_index(tasks, id) == i,
        forall|j: int| 0 <= j < tasks.len() && j != i ==> (#[trigger] tasks[j]).id != id,
{
    assert(has_task(tasks, id));
    assert forall|j: int| 0 <= j < tasks.len() && j != i implies (#[trigger] tasks[j]).id != id by {
        if j < i {
            assert(tasks[j].id < tasks[i].id);
        } else {
            assert(tasks[i].id < tasks[j].id);
        }
    }
    let k = task_index(tasks, id);
    assert(0 <= k < tasks.len() && tasks[k].id == id);
}

} // verus!
