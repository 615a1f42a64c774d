//! The repository abstraction: what any task store offers, stated over the
//! map from id to task that the store holds.

use crate::errors::RepoResult;
use crate::task::{Task, TaskId, TaskModel, TaskStatus};
use vstd::prelude::*;

verus! {

#[derive(Debug, Clone, Copy, PartialEq, Eq, Structural)]
pub enum TaskQuery {
    All,
    ByStatus(TaskStatus),
}

/// Whether task `m` is selected by query `q`.
pub open spec fn query_matches(q: TaskQuery, m: TaskModel) -> bool {
    match q {
        TaskQuery::All => true,
        TaskQuery::ByStatus(s) => m.status == s,
    }
}

/// The values of a sequence of tasks.
pub open spec fn models(v: Seq<Task>) -> Seq<TaskModel> {
    v.map_values(|t: Task| t@)
}

/// No two entries of `s` share an id.
pub open spec fn unique_ids(s: Seq<TaskModel>) -> bool {
    forall|i: int, j: int|
        0 <= i < s.len() && 0 <= j < s.len() && i != j ==> #[trigger] s[i].id != #[trigger] s[j].id
}

/// Some entry of `s` has id `id`.
pub open spec fn holds_id(s: Seq<TaskModel>, id: TaskId) -> bool {
    exists|i: int| 0 <= i < s.len() && #[trigger] s[i].id == id
}

/// The store that a sequence of tasks with unique ids stands for: each id
/// present maps to the entry that carries it.
pub open spec fn as_map(s: Seq<TaskModel>) -> Map<TaskId, TaskModel> {
    Map::new(
        |id: TaskId| holds_id(s, id),
        |id: TaskId| s[choose|i: int| 0 <= i < s.len() && #[trigger] s[i].id == id],
    )
}

/// `v` lists exactly the tasks of `store` that `q` selects, each once, in
/// some order.
pub open spec fn lists_exactly(v: Seq<TaskModel>, store: Map<TaskId, TaskModel>, q: TaskQuery) -> bool {
    &&& forall|i: int|
        0 <= i < v.len() ==> {
            &&& store.contains_key(#[trigger] v[i].id)
            &&& store[v[i].id] == v[i]
            &&& query_matches(q, v[i])
        }
    &&& forall|id: TaskId|
        #[trigger] store.contains_key(id) && query_matches(q, store[id]) ==> exists|i: int|
            0 <= i < v.len() && #[trigger] v[i].id == id
    &&& unique_ids(v)
}

/// In a sequence with unique ids, entry `i` is what its id maps to.
pub proof fn lemma_as_map_at(s: Seq<TaskModel>, i: int)
    requires
        unique_ids(s),
        0 <= i < s.len(),
    ensures
        as_map(s).contains_key(s[i].id),
        as_map(s)[s[i].id] == s[i],
{
    let id = s[i].id;
    assert(holds_id(s, id));
    let k = choose|k: int| 0 <= k < s.len() && #[trigger] s[k].id == id;
    assert(k == i);
}

/// A store of tasks.
///
/// Every store holds a map from id to task. Operations may fail with an
/// internal error (I/O, serialization); what they do when they succeed is
/// fixed here.
pub trait TaskRepository {
    /// The tasks held, by id.
    spec fn stored(&self) -> Map<TaskId, TaskModel>;

    /// The store's own consistency condition.
    spec fn well_formed(&self) -> bool;

    /// Upsert by id: a task with the same id is replaced, otherwise added.
    fn save(&mut self, task: Task) -> (r: RepoResult<()>)
        requires
            old(self).well_formed(),
        ensures
            final(self).well_formed(),
            r is Ok ==> final(self).stored() == old(self).stored().insert(task@.id, task@),
    ;

    /// The tasks that `query` selects, each once, in no guaranteed order.
    fn list(&self, query: TaskQuery) -> (r: RepoResult<Vec<Task>>)
        requires
            self.well_formed(),
        ensures
            r matches Ok(v) ==> lists_exactly(models(v@), self.stored(), query),
    ;

    /// The task with id `id`, if one is held; absence is no error.
    fn find_by_id(&self, id: TaskId) -> (r: RepoResult<Option<Task>>)
        requires
            self.well_formed(),
        ensures
            r matches Ok(found) ==> {
                &&& found is None <==> !self.stored().contains_key(id)
                &&& found matches Some(t) ==> t@ == self.stored()[id] && t@.id == id
            },
    ;

    /// Removes the task with id `id`; reports whether one was held.
    fn delete(&mut self, id: TaskId) -> (r: RepoResult<bool>)
        requires
            old(self).well_formed(),
        ensures
            final(self).well_formed(),
            r matches Ok(removed) ==> {
                &&& removed == old(self).stored().contains_key(id)
                &&& final(self).stored() == old(self).stored().remove(id)
            },
    ;
}

} // verus!
