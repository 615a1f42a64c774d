//! A task store held in process memory.

use crate::errors::RepoResult;
use crate::repository::{as_map, holds_id, lists_exactly, models, unique_ids, TaskQuery, TaskRepository};
use crate::task::{Task, TaskId, TaskModel, TaskStatus};
use crate::tasks_file::TasksFile;
use vstd::prelude::*;

verus! {

/// A store that lives as long as the process; nothing is persisted.
#[derive(Debug, Clone, PartialEq, Eq)]
pub struct InMemoryTaskRepository {
    cache: TasksFile,
}

impl InMemoryTaskRepository {
    /// The tasks held, in the order they were first saved.
    pub closed spec fn held(&self) -> Seq<TaskModel> {
        self.cache@
    }

    /// An empty store.
    pub fn new() -> (r: InMemoryTaskRepository)
        ensures
            r.well_formed(),
            r.held() == Seq::<TaskModel>::empty(),
            r.stored() == Map::<TaskId, TaskModel>::empty(),
    {
        let cache = TasksFile::new();
        assert(cache.stored() =~= Map::<TaskId, TaskModel>::empty());
        InMemoryTaskRepository { cache }
    }

    /// A store holding `tasks`; fails when two of them share an id.
    pub fn from_tasks(tasks: Vec<Task>) -> (r: RepoResult<InMemoryTaskRepository>)
        ensures
            r is Ok <==> unique_ids(models(tasks@)),
            r matches Ok(repo) ==> {
                &&& repo.well_formed()
                &&& repo.held() == models(tasks@)
                &&& repo.stored() == as_map(models(tasks@))
            },
    {
        match TasksFile::from_tasks(tasks) {
            Ok(cache) => Ok(InMemoryTaskRepository { cache }),
            Err(e) => Err(e),
        }
    }

    /// The tasks held, in the order they were first saved.
    pub fn into_tasks(self) -> (r: Vec<Task>)
        requires
            self.well_formed(),
        ensures
            models(r@) == self.held(),
            unique_ids(models(r@)),
            as_map(models(r@)) == self.stored(),
    {
        self.cache.into_tasks()
    }

    /// Upsert by id; never fails.
    pub fn add_task(&mut self, task: Task) -> (r: RepoResult<()>)
        requires
            old(self).well_formed(),
        ensures
            final(self).well_formed(),
            r is Ok,
            final(self).stored() == old(self).stored().insert(task@.id, task@),
            holds_id(old(self).held(), task@.id) ==> exists|k: int|
                0 <= k < old(self).held().len() && old(self).held()[k].id == task@.id
                    && final(self).held() == old(self).held().update(k, task@),
            !holds_id(old(self).held(), task@.id) ==> final(self).held() == old(
                self,
            ).held().push(task@),
    {
        self.cache.upsert(task);
        Ok(())
    }

    /// The task with id `task_id`, if held.
    pub fn get_task_by_id(&self, task_id: TaskId) -> (r: Option<&Task>)
        requires
            self.well_formed(),
        ensures
            r is None <==> !self.stored().contains_key(task_id),
            r matches Some(t) ==> t@ == self.stored()[task_id] && t@.id == task_id,
    {
        self.cache.find(task_id)
    }

    /// Copies of the tasks with status `task_status`.
    pub fn get_task_by_status(&self, task_status: TaskStatus) -> (r: Vec<Task>)
        requires
            self.well_formed(),
        ensures
            lists_exactly(models(r@), self.stored(), TaskQuery::ByStatus(task_status)),
    {
        self.cache.select(TaskQuery::ByStatus(task_status))
    }

    /// Removes the task with id `task_id`, handing it back if it was held.
    pub fn delete_task_by_id(&mut self, task_id: TaskId) -> (r: Option<Task>)
        requires
            old(self).well_formed(),
        ensures
            final(self).well_formed(),
            r is Some <==> old(self).stored().contains_key(task_id),
            r matches Some(t) ==> t@ == old(self).stored()[task_id],
            final(self).stored() == old(self).stored().remove(task_id),
            r is Some ==> exists|k: int|
                0 <= k < old(self).held().len() && old(self).held()[k].id == task_id
                    && final(self).held() == old(self).held().remove(k),
            r is None ==> final(self).held() == old(self).held(),
    {
        self.cache.remove(task_id)
    }
}

impl Default for InMemoryTaskRepository {
    fn default() -> (r: InMemoryTaskRepository)
        ensures
            r.well_formed(),
            r.stored() == Map::<TaskId, TaskModel>::empty(),
    {
        InMemoryTaskRepository::new()
    }
}

impl TaskRepository for InMemoryTaskRepository {
    open spec fn stored(&self) -> Map<TaskId, TaskModel> {
        as_map(self.held())
    }

    open spec fn well_formed(&self) -> bool {
        unique_ids(self.held())
    }

    fn save(&mut self, task: Task) -> (r: RepoResult<()>)
        ensures
            r is Ok,
    {
        self.add_task(task)
    }

    fn list(&self, query: TaskQuery) -> (r: RepoResult<Vec<Task>>)
        ensures
            r is Ok,
    {
        Ok(self.cache.select(query))
    }

    fn find_by_id(&self, task_id: TaskId) -> (r: RepoResult<Option<Task>>)
        ensures
            r is Ok,
    {
        match self.get_task_by_id(task_id) {
            Some(t) => Ok(Some(t.duplicate())),
            None => Ok(None),
        }
    }

    fn delete(&mut self, task_id: TaskId) -> (r: RepoResult<bool>)
        ensures
            r is Ok,
    {
        match self.delete_task_by_id(task_id) {
            Some(_) => Ok(true),
            None => Ok(false),
        }
    }
}

} // verus!
