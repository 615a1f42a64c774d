//! The use cases: each takes a command value, works on one repository, and
//! returns a typed result or a typed error.

use crate::cli::{filter_of, status_command_to_filter_task, StatusArg};
use crate::errors::{ApplicationError, ApplicationResult, DomainError, RepoResult};
use crate::repository::{lists_exactly, models, TaskQuery, TaskRepository};
use crate::task::{is_blank, moved_to, Task, TaskId, TaskModel, TaskStatus};
use vstd::prelude::*;

verus! {

#[derive(Debug, Clone, Copy, PartialEq, Eq, Structural)]
pub enum FilterTask {
    All,
    Done,
    Todo,
}

/// The repository query that a list filter stands for.
pub open spec fn query_of(filter_task: FilterTask) -> TaskQuery {
    match filter_task {
        FilterTask::All => TaskQuery::All,
        FilterTask::Done => TaskQuery::ByStatus(TaskStatus::Done),
        FilterTask::Todo => TaskQuery::ByStatus(TaskStatus::Todo),
    }
}

pub fn filter_task_to_query(filter_task: FilterTask) -> (r: TaskQuery)
    ensures
        r == query_of(filter_task),
{
    match filter_task {
        FilterTask::All => TaskQuery::All,
        FilterTask::Done => TaskQuery::ByStatus(TaskStatus::Done),
        FilterTask::Todo => TaskQuery::ByStatus(TaskStatus::Todo),
    }
}

/// One command of the tool, as a value.
pub enum CommandTask {
    AddTask { title: String },
    ListTask { filter: Option<FilterTask> },
    MarkTaskDone { id: TaskId },
    DeleteTask { id: TaskId },
}

/// The outcome of moving the task with id `id` of `before` to status `to`:
/// either the store after the move and the moved task, or the domain error.
pub open spec fn marked_in(
    before: Map<TaskId, TaskModel>,
    after: Map<TaskId, TaskModel>,
    id: TaskId,
    to: TaskStatus,
    r: ApplicationResult<Task>,
) -> bool {
    match r {
        Ok(t) => {
            &&& before.contains_key(id)
            &&& t@.id == id
            &&& moved_to(before[id], to, t@.modified_at) == Some(t@)
            &&& after == before.insert(id, t@)
        },
        Err(ApplicationError::Domain(e)) => {
            &&& after == before
            &&& if before.contains_key(id) {
                &&& before[id].status == to
                &&& e == DomainError::InvalidStatusTransition { id, from: to, to }
            } else {
                e == DomainError::TaskNotFound { id }
            }
        },
        Err(ApplicationError::Repository(_)) => true,
    }
}

#[derive(Debug, Clone, PartialEq, Eq)]
pub struct AddTaskCommand {
    title: String,
}

impl View for AddTaskCommand {
    type V = Seq<char>;

    closed spec fn view(&self) -> Seq<char> {
        self.title@
    }
}

impl AddTaskCommand {
    pub fn new(title: String) -> (r: Self)
        ensures
            r@ == title@,
    {
        Self { title }
    }
}

pub struct AddTaskService<R: TaskRepository> {
    repo: R,
}

impl<R: TaskRepository> AddTaskService<R> {
    /// The repository the service works on.
    pub closed spec fn repository(&self) -> R {
        self.repo
    }

    pub fn new(repo: R) -> (r: Self)
        ensures
            r.repository() == repo,
    {
        Self { repo }
    }

    /// Hands the repository back once the work is done.
    pub fn into_repository(self) -> (r: R)
        ensures
            r == self.repository(),
    {
        self.repo
    }

    /// Creates a task from the command's title and saves it.
    pub fn execute(&mut self, command: AddTaskCommand) -> (r: ApplicationResult<Task>)
        requires
            old(self).repository().well_formed(),
        ensures
            final(self).repository().well_formed(),
            is_blank(command@) ==> r == Err::<Task, ApplicationError>(
                ApplicationError::Domain(DomainError::EmptyTitle),
            ) && final(self).repository() == old(self).repository(),
            !is_blank(command@) ==> match r {
                Ok(t) => {
                    &&& t@.title == command@
                    &&& t@.status == TaskStatus::Todo
                    &&& t@.created_at == t@.modified_at
                    &&& final(self).repository().stored() == old(self).repository().stored().insert(
                        t@.id,
                        t@,
                    )
                },
                Err(e) => e is Repository,
            },
    {
        let task = match Task::new(command.title) {
            Ok(t) => t,
            Err(e) => {
                return Err(ApplicationError::Domain(e));
            },
        };
        persisted(self.repo.save(task.duplicate()), task)
    }
}

#[derive(Debug, Clone, Copy, PartialEq, Eq, Structural)]
pub struct ListTasksCommand {
    filter_task: FilterTask,
}

impl View for ListTasksCommand {
    type V = FilterTask;

    closed spec fn view(&self) -> FilterTask {
        self.filter_task
    }
}

impl ListTasksCommand {
    pub fn new(filter_task: FilterTask) -> (r: Self)
        ensures
            r@ == filter_task,
    {
        Self { filter_task }
    }
}

impl From<StatusArg> for ListTasksCommand {
    fn from(value: StatusArg) -> (r: ListTasksCommand) {
        ListTasksCommand::new(status_command_to_filter_task(value))
    }
}

impl vstd::std_specs::convert::FromSpecImpl<StatusArg> for ListTasksCommand {
    open spec fn obeys_from_spec() -> bool {
        true
    }

    closed spec fn from_spec(v: StatusArg) -> ListTasksCommand {
        ListTasksCommand { filter_task: filter_of(v) }
    }
}

pub struct ListTasksService<R: TaskRepository> {
    repo: R,
}

impl<R: TaskRepository> ListTasksService<R> {
    /// The repository the service works on.
    pub closed spec fn repository(&self) -> R {
        self.repo
    }

    pub fn new(repo: R) -> (r: Self)
        ensures
            r.repository() == repo,
    {
        Self { repo }
    }

    /// Hands the repository back once the work is done.
    pub fn into_repository(self) -> (r: R)
        ensures
            r == self.repository(),
    {
        self.repo
    }

    /// The tasks that the command's filter selects, each once, in no
    /// guaranteed order.
    pub fn execute(&self, cmd: ListTasksCommand) -> (r: ApplicationResult<Vec<Task>>)
        requires
            self.repository().well_formed(),
        ensures
            match r {
                Ok(v) => lists_exactly(models(v@), self.repository().stored(), query_of(cmd@)),
                Err(e) => e is Repository,
            },
    {
        let task_query = filter_task_to_query(cmd.filter_task);
        to_app(self.repo.list(task_query))
    }
}

/// A repository outcome as a use-case outcome: the value on success, the
/// repository's own error otherwise.
pub fn to_app<T>(r: RepoResult<T>) -> (a: ApplicationResult<T>)
    ensures
        a == match r {
            Ok(v) => Ok::<T, ApplicationError>(v),
            Err(e) => Err::<T, ApplicationError>(ApplicationError::Repository(e)),
        },
{
    match r {
        Ok(v) => Ok(v),
        Err(e) => Err(ApplicationError::Repository(e)),
    }
}

/// The outcome of a use case that saved `task`: the task once the save
/// succeeded, the repository's error otherwise.
pub fn persisted(saved: RepoResult<()>, task: Task) -> (r: ApplicationResult<Task>)
    ensures
        match saved {
            Ok(_) => r == Ok::<Task, ApplicationError>(task),
            Err(e) => r == Err::<Task, ApplicationError>(ApplicationError::Repository(e)),
        },
{
    match saved {
        Ok(()) => Ok(task),
        Err(e) => Err(ApplicationError::Repository(e)),
    }
}

/// What a mark command makes of the lookup of task `id`: an absent task is
/// not found; a task already in status `to` cannot move; any other moves.
pub fn mark_found(found: Option<Task>, id: TaskId, to: TaskStatus) -> (r: ApplicationResult<Task>)
    ensures
        found is None ==> r == Err::<Task, ApplicationError>(
            ApplicationError::Domain(DomainError::TaskNotFound { id }),
        ),
        found matches Some(t) ==> if t@.status == to {
            r == Err::<Task, ApplicationError>(
                ApplicationError::Domain(
                    DomainError::InvalidStatusTransition { id: t@.id, from: to, to },
                ),
            )
        } else {
            r matches Ok(m) && moved_to(t@, to, m@.modified_at) == Some(m@)
        },
{
    let task = match found {
        None => {
            return Err(ApplicationError::Domain(DomainError::TaskNotFound { id }));
        },
        Some(task) => task,
    };
    let moved = match to {
        TaskStatus::Done => task.mark_done(),
        TaskStatus::Todo => task.mark_todo(),
    };
    match moved {
        Ok(t) => Ok(t),
        Err(e) => Err(ApplicationError::Domain(e)),
    }
}

/// Looks the task up, moves it to `to`, and saves the moved task.
fn mark_in<R: TaskRepository>(repo: &mut R, id: TaskId, to: TaskStatus) -> (r: ApplicationResult<
    Task,
>)
    requires
        old(repo).well_formed(),
    ensures
        final(repo).well_formed(),
        marked_in(old(repo).stored(), final(repo).stored(), id, to, r),
{
    let found = match to_app(repo.find_by_id(id)) {
        Ok(found) => found,
        Err(e) => {
            return Err(e);
        },
    };
    let moved = match mark_found(found, id, to) {
        Ok(t) => t,
        Err(e) => {
            return Err(e);
        },
    };
    persisted(repo.save(moved.duplicate()), moved)
}

#[derive(Debug, Clone, Copy, PartialEq, Eq, Structural)]
pub struct MarkTaskDoneCommand {
    task_id: TaskId,
}

impl View for MarkTaskDoneCommand {
    type V = TaskId;

    closed spec fn view(&self) -> TaskId {
        self.task_id
    }
}

impl MarkTaskDoneCommand {
    pub fn new(task_id: TaskId) -> (r: Self)
        ensures
            r@ == task_id,
    {
        Self { task_id }
    }
}

pub struct MarkTaskDoneService<R: TaskRepository> {
    repo: R,
}

impl<R: TaskRepository> MarkTaskDoneService<R> {
    /// The repository the service works on.
    pub closed spec fn repository(&self) -> R {
        self.repo
    }

    pub fn new(repo: R) -> (r: Self)
        ensures
            r.repository() == repo,
    {
        Self { repo }
    }

    /// Hands the repository back once the work is done.
    pub fn into_repository(self) -> (r: R)
        ensures
            r == self.repository(),
    {
        self.repo
    }

    /// Moves the task to `Done` and saves it; fails when it is absent or
    /// already `Done`.
    pub fn execute(&mut self, cmd: MarkTaskDoneCommand) -> (r: ApplicationResult<Task>)
        requires
            old(self).repository().well_formed(),
        ensures
            final(self).repository().well_formed(),
            marked_in(
                old(self).repository().stored(),
                final(self).repository().stored(),
                cmd@,
                TaskStatus::Done,
                r,
            ),
    {
        mark_in(&mut self.repo, cmd.task_id, TaskStatus::Done)
    }
}

#[derive(Debug, Clone, Copy, PartialEq, Eq, Structural)]
pub struct MarkTaskTodoCommand {
    task_id: TaskId,
}

impl View for MarkTaskTodoCommand {
    type V = TaskId;

    closed spec fn view(&self) -> TaskId {
        self.task_id
    }
}

impl MarkTaskTodoCommand {
    pub fn new(task_id: TaskId) -> (r: Self)
        ensures
            r@ == task_id,
    {
        Self { task_id }
    }
}

pub struct MarkTaskTodoService<R: TaskRepository> {
    repo: R,
}

impl<R: TaskRepository> MarkTaskTodoService<R> {
    /// The repository the service works on.
    pub closed spec fn repository(&self) -> R {
        self.repo
    }

    pub fn new(repo: R) -> (r: Self)
        ensures
            r.repository() == repo,
    {
        Self { repo }
    }

    /// Hands the repository back once the work is done.
    pub fn into_repository(self) -> (r: R)
        ensures
            r == self.repository(),
    {
        self.repo
    }

    /// Moves the task to `Todo` and saves it; fails when it is absent or
    /// already `Todo`.
    pub fn execute(&mut self, cmd: MarkTaskTodoCommand) -> (r: ApplicationResult<Task>)
        requires
            old(self).repository().well_formed(),
        ensures
            final(self).repository().well_formed(),
            marked_in(
                old(self).repository().stored(),
                final(self).repository().stored(),
                cmd@,
                TaskStatus::Todo,
                r,
            ),
    {
        mark_in(&mut self.repo, cmd.task_id, TaskStatus::Todo)
    }
}

#[derive(Debug, Clone, Copy, PartialEq, Eq, Structural)]
pub struct DeleteTaskCommand {
    task_id: TaskId,
}

impl View for DeleteTaskCommand {
    type V = TaskId;

    closed spec fn view(&self) -> TaskId {
        self.task_id
    }
}

impl DeleteTaskCommand {
    pub fn new(task_id: TaskId) -> (r: Self)
        ensures
            r@ == task_id,
    {
        Self { task_id }
    }
}

pub struct DeleteTaskService<R: TaskRepository> {
    repo: R,
}

impl<R: TaskRepository> DeleteTaskService<R> {
    /// The repository the service works on.
    pub closed spec fn repository(&self) -> R {
        self.repo
    }

    pub fn new(repo: R) -> (r: Self)
        ensures
            r.repository() == repo,
    {
        Self { repo }
    }

    /// Hands the repository back once the work is done.
    pub fn into_repository(self) -> (r: R)
        ensures
            r == self.repository(),
    {
        self.repo
    }

    /// Removes the task; reports whether it was there. Absence is no error.
    pub fn execute(&mut self, cmd: DeleteTaskCommand) -> (r: ApplicationResult<bool>)
        requires
            old(self).repository().well_formed(),
        ensures
            final(self).repository().well_formed(),
            match r {
                Ok(removed) => {
                    &&& removed == old(self).repository().stored().contains_key(cmd@)
                    &&& final(self).repository().stored() == old(
                        self,
                    ).repository().stored().remove(cmd@)
                },
                Err(e) => e is Repository,
            },
    {
        to_app(self.repo.delete(cmd.task_id))
    }
}

} // verus!
