//! The task entity and its guarded transitions.

use crate::errors::{DomainError, DomainResult};
use vstd::prelude::*;

verus! {

/// A task's identity: the 128-bit value of a UUID.
pub type TaskId = u128;

/// A point in time: microseconds since the Unix epoch, UTC.
pub type Timestamp = i64;

#[derive(Debug, Clone, Copy, PartialEq, Eq, Structural)]
pub enum TaskStatus {
    Todo,
    Done,
}

/// The mathematical value of a task.
pub struct TaskModel {
    pub id: TaskId,
    pub title: Seq<char>,
    pub status: TaskStatus,
    pub created_at: Timestamp,
    pub modified_at: Timestamp,
}

/// The Unicode `White_Space` property.
pub open spec fn is_white_space(c: char) -> bool {
    let n = c as u32;
    ||| 0x9 <= n <= 0xD
    ||| n == 0x20
    ||| n == 0x85
    ||| n == 0xA0
    ||| n == 0x1680
    ||| 0x2000 <= n <= 0x200A
    ||| n == 0x2028
    ||| n == 0x2029
    ||| n == 0x202F
    ||| n == 0x205F
    ||| n == 0x3000
}

/// A title is blank when it is empty once surrounding whitespace is trimmed,
/// that is, when every character of it is whitespace.
pub open spec fn is_blank(s: Seq<char>) -> bool {
    forall|i: int| 0 <= i < s.len() ==> is_white_space(#[trigger] s[i])
}

/// The task that results from moving `m` to status `to` at time `now`, if
/// that move is legal (a task never moves to the status it already has).
pub open spec fn moved_to(m: TaskModel, to: TaskStatus, now: Timestamp) -> Option<TaskModel> {
    if m.status == to {
        None
    } else {
        Some(TaskModel { status: to, modified_at: now, ..m })
    }
}

/// Whether `c` is whitespace, in the sense of `char::is_whitespace` and
/// `str::trim`.
fn is_space(c: char) -> (r: bool)
    ensures
        r == is_white_space(c),
{
    let n = c as u32;
    (0x9 <= n && n <= 0xD) || n == 0x20 || n == 0x85 || n == 0xA0 || n == 0x1680 || (0x2000 <= n
        && n <= 0x200A) || n == 0x2028 || n == 0x2029 || n == 0x202F || n == 0x205F || n == 0x3000
}

/// Relies on `uuid::Uuid::new_v4`: a fresh random identifier, as its 128-bit value.
#[verifier::external_body]
fn random_task_id() -> (r: TaskId) {
    uuid::Uuid::new_v4().as_u128()
}

/// Relies on `chrono::Utc::now`: the current time, in microseconds since the epoch.
#[verifier::external_body]
fn now_micros() -> (r: Timestamp) {
    chrono::Utc::now().timestamp_micros()
}

/// Whether `title` holds nothing but whitespace (what `str::trim` would leave empty).
pub fn is_blank_title(title: &str) -> (r: bool)
    ensures
        r == is_blank(title@),
{
    let mut blank: bool = true;
    for c in it: title.chars()
        invariant
            it.seq() == title@,
            blank == (forall|i: int| 0 <= i < it.index() ==> is_white_space(#[trigger] title@[i])),
    {
        if !is_space(c) {
            blank = false;
        }
    }
    blank
}

#[derive(Debug, PartialEq, Eq)]
pub struct Task {
    id: TaskId,
    title: String,
    status: TaskStatus,
    created_at: Timestamp,
    modified_at: Timestamp,
}

impl Clone for Task {
    fn clone(&self) -> (r: Task) {
        self.duplicate()
    }
}

impl View for Task {
    type V = TaskModel;

    closed spec fn view(&self) -> TaskModel {
        TaskModel {
            id: self.id,
            title: self.title@,
            status: self.status,
            created_at: self.created_at,
            modified_at: self.modified_at,
        }
    }
}

impl Task {
    /// The title of a task is never blank.
    #[verifier::type_invariant]
    spec fn title_present(&self) -> bool {
        !is_blank(self.title@)
    }

    /// Creates a new task with a fresh random id, status `Todo`, and both
    /// timestamps set to the current time.
    pub fn new(title: String) -> (r: DomainResult<Task>)
        ensures
            r is Err <==> is_blank(title@),
            r is Err ==> r == Err::<Task, DomainError>(DomainError::EmptyTitle),
            r matches Ok(t) ==> {
                &&& t@.title == title@
                &&& t@.status == TaskStatus::Todo
                &&& t@.created_at == t@.modified_at
            },
    {
        if is_blank_title(title.as_str()) {
            Err(DomainError::EmptyTitle)
        } else {
            let id = random_task_id();
            let now = now_micros();
            Task::new_at(id, title, now)
        }
    }

    /// Creates a task with the given id, status `Todo`, created and modified at `now`.
    pub fn new_at(id: TaskId, title: String, now: Timestamp) -> (r: DomainResult<Task>)
        ensures
            r is Err <==> is_blank(title@),
            r is Err ==> r == Err::<Task, DomainError>(DomainError::EmptyTitle),
            r matches Ok(t) ==> t@ == (TaskModel {
                id,
                title: title@,
                status: TaskStatus::Todo,
                created_at: now,
                modified_at: now,
            }),
    {
        Task::from_parts(id, title, TaskStatus::Todo, now, now)
    }

    /// Rebuilds a task from its stored fields; fails on a blank title.
    pub fn from_parts(
        id: TaskId,
        title: String,
        status: TaskStatus,
        created_at: Timestamp,
        modified_at: Timestamp,
    ) -> (r: DomainResult<Task>)
        ensures
            r is Err <==> is_blank(title@),
            r is Err ==> r == Err::<Task, DomainError>(DomainError::EmptyTitle),
            r matches Ok(t) ==> t@ == (TaskModel { id, title: title@, status, created_at, modified_at }),
    {
        if is_blank_title(title.as_str()) {
            Err(DomainError::EmptyTitle)
        } else {
            Ok(Task { id, title, status, created_at, modified_at })
        }
    }

    /// Moves the task to `Done`; fails if it is already `Done`.
    pub fn mark_done(self) -> (r: DomainResult<Task>)
        ensures
            r is Err <==> self@.status == TaskStatus::Done,
            r is Err ==> r == Err::<Task, DomainError>(
                DomainError::InvalidStatusTransition {
                    id: self@.id,
                    from: TaskStatus::Done,
                    to: TaskStatus::Done,
                },
            ),
            r matches Ok(t) ==> moved_to(self@, TaskStatus::Done, t@.modified_at) == Some(t@),
    {
        let now = now_micros();
        self.mark_as(TaskStatus::Done, now)
    }

    /// Moves the task to `Todo`; fails if it is already `Todo`.
    pub fn mark_todo(self) -> (r: DomainResult<Task>)
        ensures
            r is Err <==> self@.status == TaskStatus::Todo,
            r is Err ==> r == Err::<Task, DomainError>(
                DomainError::InvalidStatusTransition {
                    id: self@.id,
                    from: TaskStatus::Todo,
                    to: TaskStatus::Todo,
                },
            ),
            r matches Ok(t) ==> moved_to(self@, TaskStatus::Todo, t@.modified_at) == Some(t@),
    {
        let now = now_micros();
        self.mark_as(TaskStatus::Todo, now)
    }

    /// Moves the task to `status` at time `now`; a move to the current
    /// status is rejected before any field changes.
    pub fn mark_as(self, status: TaskStatus, now: Timestamp) -> (r: DomainResult<Task>)
        ensures
            r is Err <==> moved_to(self@, status, now) is None,
            r is Err ==> r == Err::<Task, DomainError>(
                DomainError::InvalidStatusTransition { id: self@.id, from: self@.status, to: status },
            ),
            r matches Ok(t) ==> moved_to(self@, status, now) == Some(t@),
    {
        if status == self.status {
            Err(DomainError::InvalidStatusTransition { id: self.id, from: self.status, to: status })
        } else {
            proof {
                use_type_invariant(&self);
            }
            Ok(Task { status, modified_at: now, ..self })
        }
    }

    /// Replaces the title and bumps the modification time; fails on a blank title.
    pub fn edit_title(self, title: String) -> (r: DomainResult<Task>)
        ensures
            r is Err <==> is_blank(title@),
            r is Err ==> r == Err::<Task, DomainError>(DomainError::EmptyTitle),
            r matches Ok(t) ==> t@ == (TaskModel { title: title@, modified_at: t@.modified_at, ..self@ }),
    {
        let now = now_micros();
        self.edit_title_at(title, now)
    }

    /// Replaces the title at time `now`; fails on a blank title.
    pub fn edit_title_at(self, title: String, now: Timestamp) -> (r: DomainResult<Task>)
        ensures
            r is Err <==> is_blank(title@),
            r is Err ==> r == Err::<Task, DomainError>(DomainError::EmptyTitle),
            r matches Ok(t) ==> t@ == (TaskModel { title: title@, modified_at: now, ..self@ }),
    {
        if is_blank_title(title.as_str()) {
            Err(DomainError::EmptyTitle)
        } else {
            Ok(Task { title, modified_at: now, ..self })
        }
    }

    /// A second task with the same field values.
    pub fn duplicate(&self) -> (r: Task)
        ensures
            r@ == self@,
    {
        proof {
            use_type_invariant(self);
        }
        Task {
            id: self.id,
            title: self.title.clone(),
            status: self.status,
            created_at: self.created_at,
            modified_at: self.modified_at,
        }
    }

    pub fn task_id(&self) -> (r: TaskId)
        ensures
            r == self@.id,
    {
        self.id
    }

    pub fn title(&self) -> (r: &str)
        ensures
            r@ == self@.title,
    {
        self.title.as_str()
    }

    pub fn status(&self) -> (r: TaskStatus)
        ensures
            r == self@.status,
    {
        self.status
    }

    pub fn created_at(&self) -> (r: Timestamp)
        ensures
            r == self@.created_at,
    {
        self.created_at
    }

    pub fn modified_at(&self) -> (r: Timestamp)
        ensures
            r == self@.modified_at,
    {
        self.modified_at
    }
}

} // verus!
