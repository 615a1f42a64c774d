//! A whole store snapshot: the ordered list of tasks that a store holds,
//! ids unique, with the read-modify-write operations of the repositories.

use crate::errors::{RepoError, RepoResult};
use crate::repository::{
    as_map, holds_id, lemma_as_map_at, lists_exactly, models, query_matches, unique_ids,
    TaskQuery,
};
use crate::task::{Task, TaskId, TaskModel};
use vstd::prelude::*;

verus! {

/// Replacing the entry at `k` by a task with the same id replaces that id's task.
proof fn lemma_as_map_update(s: Seq<TaskModel>, k: int, t: TaskModel)
    requires
        unique_ids(s),
        0 <= k < s.len(),
        s[k].id == t.id,
    ensures
        unique_ids(s.update(k, t)),
        as_map(s.update(k, t)) == as_map(s).insert(t.id, t),
{
    let s2 = s.update(k, t);
    assert(unique_ids(s2)) by {
        assert forall|i: int, j: int|
            0 <= i < s2.len() && 0 <= j < s2.len() && i != j implies #[trigger] s2[i].id
            != #[trigger] s2[j].id by {
            assert(s2[i].id == s[i].id);
            assert(s2[j].id == s[j].id);
        }
    }
    assert forall|id: TaskId| holds_id(s2, id) <==> holds_id(s, id) || id == t.id by {
        if holds_id(s, id) {
            let i = choose|i: int| 0 <= i < s.len() && #[trigger] s[i].id == id;
            assert(s2[i].id == id);
        }
        if holds_id(s2, id) {
            let i = choose|i: int| 0 <= i < s2.len() && #[trigger] s2[i].id == id;
            assert(s[i].id == id);
        }
        if id == t.id {
            assert(s2[k].id == id);
        }
    }
    assert forall|id: TaskId| #[trigger] as_map(s2).contains_key(id) implies as_map(s2)[id] == as_map(
        s,
    ).insert(t.id, t)[id] by {
        let i = choose|i: int| 0 <= i < s2.len() && #[trigger] s2[i].id == id;
        lemma_as_map_at(s2, i);
        if i != k {
            lemma_as_map_at(s, i);
        } else {
            lemma_as_map_at(s2, k);
        }
    }
    assert(as_map(s2) =~= as_map(s).insert(t.id, t));
}

/// Appending a task with a new id adds that id's task.
proof fn lemma_as_map_push(s: Seq<TaskModel>, t: TaskModel)
    requires
        unique_ids(s),
        !holds_id(s, t.id),
    ensures
        unique_ids(s.push(t)),
        as_map(s.push(t)) == as_map(s).insert(t.id, t),
{
    let s2 = s.push(t);
    assert(unique_ids(s2)) by {
        assert forall|i: int, j: int|
            0 <= i < s2.len() && 0 <= j < s2.len() && i != j implies #[trigger] s2[i].id
            != #[trigger] s2[j].id by {
            if i < s.len() && j < s.len() {
                assert(s2[i].id == s[i].id);
                assert(s2[j].id == s[j].id);
            } else if i < s.len() {
                assert(s2[i].id == s[i].id);
            } else {
                assert(s2[j].id == s[j].id);
            }
        }
    }
    assert forall|id: TaskId| holds_id(s2, id) <==> holds_id(s, id) || id == t.id by {
        if holds_id(s, id) {
            let i = choose|i: int| 0 <= i < s.len() && #[trigger] s[i].id == id;
            assert(s2[i].id == id);
        }
        if holds_id(s2, id) {
            let i = choose|i: int| 0 <= i < s2.len() && #[trigger] s2[i].id == id;
            if i < s.len() {
                assert(s[i].id == id);
            }
        }
        if id == t.id {
            assert(s2[s.len() as int].id == id);
        }
    }
    assert forall|id: TaskId| #[trigger] as_map(s2).contains_key(id) implies as_map(s2)[id] == as_map(
        s,
    ).insert(t.id, t)[id] by {
        let i = choose|i: int| 0 <= i < s2.len() && #[trigger] s2[i].id == id;
        lemma_as_map_at(s2, i);
        if i < s.len() {
            lemma_as_map_at(s, i);
        }
    }
    assert(as_map(s2) =~= as_map(s).insert(t.id, t));
}

/// Removing the entry at `k` removes that id's task.
proof fn lemma_as_map_remove(s: Seq<TaskModel>, k: int)
    requires
        unique_ids(s),
        0 <= k < s.len(),
    ensures
        unique_ids(s.remove(k)),
        as_map(s.remove(k)) == as_map(s).remove(s[k].id),
{
    let s2 = s.remove(k);
    let x = s[k].id;
    assert forall|i: int| 0 <= i < s2.len() implies #[trigger] s2[i] == (if i < k {
        s[i]
    } else {
        s[i + 1]
    }) by {}
    assert(unique_ids(s2)) by {
        assert forall|i: int, j: int|
            0 <= i < s2.len() && 0 <= j < s2.len() && i != j implies #[trigger] s2[i].id
            != #[trigger] s2[j].id by {
            let a = if i < k { i } else { i + 1 };
            let b = if j < k { j } else { j + 1 };
            assert(s2[i] == s[a]);
            assert(s2[j] == s[b]);
        }
    }
    assert forall|id: TaskId| holds_id(s2, id) <==> holds_id(s, id) && id != x by {
        if holds_id(s, id) && id != x {
            let i = choose|i: int| 0 <= i < s.len() && #[trigger] s[i].id == id;
            if i < k {
                assert(s2[i].id == id);
            } else {
                assert(s2[i - 1].id == id);
            }
        }
        if holds_id(s2, id) {
            let i = choose|i: int| 0 <= i < s2.len() && #[trigger] s2[i].id == id;
            let a = if i < k { i } else { i + 1 };
            assert(s[a].id == id);
        }
    }
    assert forall|id: TaskId| #[trigger] as_map(s2).contains_key(id) implies as_map(s2)[id] == as_map(
        s,
    ).remove(x)[id] by {
        let i = choose|i: int| 0 <= i < s2.len() && #[trigger] s2[i].id == id;
        let a = if i < k { i } else { i + 1 };
        lemma_as_map_at(s2, i);
        lemma_as_map_at(s, a);
    }
    assert(as_map(s2) =~= as_map(s).remove(x));
}

/// The tasks of a store, in stored order, no two with the same id.
#[derive(Debug, Clone, PartialEq, Eq)]
pub struct TasksFile {
    tasks: Vec<Task>,
}

impl View for TasksFile {
    type V = Seq<TaskModel>;

    closed spec fn view(&self) -> Seq<TaskModel> {
        models(self.tasks@)
    }
}

impl TasksFile {
    /// No two tasks share an id.
    pub open spec fn well_formed(&self) -> bool {
        unique_ids(self@)
    }

    /// The tasks held, by id.
    pub open spec fn stored(&self) -> Map<TaskId, TaskModel> {
        as_map(self@)
    }

    /// The empty store.
    pub fn new() -> (r: TasksFile)
        ensures
            r@ == Seq::<TaskModel>::empty(),
            r.well_formed(),
    {
        let r = TasksFile { tasks: Vec::new() };
        assert(r@ =~= Seq::<TaskModel>::empty());
        r
    }

    /// Takes a list of tasks as a store; fails when two of them share an id.
    pub fn from_tasks(tasks: Vec<Task>) -> (r: RepoResult<TasksFile>)
        ensures
            r is Ok <==> unique_ids(models(tasks@)),
            r matches Ok(f) ==> f@ == models(tasks@) && f.well_formed(),
    {
        let n = tasks.len();
        let mut i: usize = 0;
        while i < n
            invariant
                n == tasks@.len(),
                i <= n,
                forall|a: int, b: int|
                    0 <= a < i && 0 <= b < i && a != b ==> #[trigger] tasks@[a]@.id
                        != #[trigger] tasks@[b]@.id,
            decreases n - i,
        {
            let id = tasks[i].task_id();
            let mut j: usize = 0;
            while j < i
                invariant
                    n == tasks@.len(),
                    i < n,
                    j <= i,
                    id == tasks@[i as int]@.id,
                    forall|b: int| 0 <= b < j ==> #[trigger] tasks@[b]@.id != id,
                decreases i - j,
            {
                if tasks[j].task_id() == id {
                    assert(models(tasks@)[i as int].id == models(tasks@)[j as int].id);
                    return Err(
                        RepoError::InternalError { error: "two stored tasks share an id".to_owned() },
                    );
                }
                j = j + 1;
            }
            i = i + 1;
        }
        let r = TasksFile { tasks };
        assert(unique_ids(models(r.tasks@))) by {
            assert forall|a: int, b: int|
                0 <= a < models(r.tasks@).len() && 0 <= b < models(r.tasks@).len() && a
                    != b implies #[trigger] models(r.tasks@)[a].id != #[trigger] models(
                r.tasks@,
            )[b].id by {
                assert(r.tasks@[a]@.id != r.tasks@[b]@.id);
            }
        }
        Ok(r)
    }

    /// The tasks held, in stored order.
    pub fn tasks(&self) -> (r: &Vec<Task>)
        ensures
            models(r@) == self@,
    {
        &self.tasks
    }

    /// The tasks held, in stored order, taken out of the store.
    pub fn into_tasks(self) -> (r: Vec<Task>)
        ensures
            models(r@) == self@,
    {
        self.tasks
    }

    /// Where the task with id `id` stands, if it is held.
    pub fn position(&self, id: TaskId) -> (r: Option<usize>)
        ensures
            r is None <==> !holds_id(self@, id),
            r matches Some(k) ==> k < self@.len() && self@[k as int].id == id,
    {
        let n = self.tasks.len();
        let mut i: usize = 0;
        while i < n
            invariant
                n == self.tasks@.len(),
                i <= n,
                forall|k: int| 0 <= k < i ==> #[trigger] self@[k].id != id,
            decreases n - i,
        {
            if self.tasks[i].task_id() == id {
                return Some(i);
            }
            i = i + 1;
        }
        assert(!holds_id(self@, id)) by {
            if holds_id(self@, id) {
                let k = choose|k: int| 0 <= k < self@.len() && #[trigger] self@[k].id == id;
                assert(self@[k].id != id);
            }
        }
        None
    }

    /// Upsert by id: replaces the task with the same id in place, or appends.
    pub fn upsert(&mut self, task: Task)
        requires
            old(self).well_formed(),
        ensures
            final(self).well_formed(),
            final(self).stored() == old(self).stored().insert(task@.id, task@),
            holds_id(old(self)@, task@.id) ==> exists|k: int|
                0 <= k < old(self)@.len() && old(self)@[k].id == task@.id && final(self)@ == old(
                    self,
                )@.update(k, task@),
            !holds_id(old(self)@, task@.id) ==> final(self)@ == old(self)@.push(task@),
    {
        let ghost t = task@;
        match self.position(task.task_id()) {
            Some(k) => {
                proof {
                    lemma_as_map_update(self@, k as int, t);
                }
                self.tasks[k] = task;
                assert(self@ =~= old(self)@.update(k as int, t));
            },
            None => {
                proof {
                    lemma_as_map_push(self@, t);
                }
                self.tasks.push(task);
                assert(self@ =~= old(self)@.push(t));
            },
        }
    }

    /// The task with id `id`, if it is held.
    pub fn find(&self, id: TaskId) -> (r: Option<&Task>)
        requires
            self.well_formed(),
        ensures
            r is None <==> !self.stored().contains_key(id),
            r matches Some(t) ==> t@ == self.stored()[id] && t@.id == id,
    {
        match self.position(id) {
            Some(k) => {
                proof {
                    lemma_as_map_at(self@, k as int);
                }
                Some(&self.tasks[k])
            },
            None => None,
        }
    }

    /// Copies of the tasks that `query` selects, in stored order.
    pub fn select(&self, query: TaskQuery) -> (r: Vec<Task>)
        requires
            self.well_formed(),
        ensures
            lists_exactly(models(r@), self.stored(), query),
    {
        let ghost s = self@;
        let ghost mut pos: Seq<int> = Seq::empty();
        let n = self.tasks.len();
        let mut out: Vec<Task> = Vec::new();
        let mut i: usize = 0;
        while i < n
            invariant
                s == self@,
                unique_ids(s),
                n == s.len(),
                i <= n,
                pos.len() == out@.len(),
                forall|j: int|
                    0 <= j < pos.len() ==> {
                        &&& 0 <= #[trigger] pos[j] < i
                        &&& out@[j]@ == s[pos[j]]
                        &&& query_matches(query, s[pos[j]])
                    },
                forall|a: int, b: int| 0 <= a < b < pos.len() ==> #[trigger] pos[a] < #[trigger] pos[b],
                forall|k: int|
                    0 <= k < i && query_matches(query, #[trigger] s[k]) ==> exists|j: int|
                        0 <= j < pos.len() && #[trigger] pos[j] == k,
            decreases n - i,
        {
            let t = &self.tasks[i];
            let keep = match query {
                TaskQuery::All => true,
                TaskQuery::ByStatus(status) => t.status() == status,
            };
            assert(keep == query_matches(query, s[i as int]));
            if keep {
                let ghost before = pos;
                out.push(t.duplicate());
                proof {
                    pos = pos.push(i as int);
                    assert forall|k: int|
                        0 <= k < i + 1 && query_matches(query, #[trigger] s[k]) implies exists|
                            j: int,
                        | 0 <= j < pos.len() && #[trigger] pos[j] == k by {
                        if k < i {
                            let j = choose|j: int| 0 <= j < before.len() && #[trigger] before[j] == k;
                            assert(pos[j] == k);
                        } else {
                            assert(pos[before.len() as int] == k);
                        }
                    }
                }
            }
            i = i + 1;
        }
        proof {
            let v = models(out@);
            assert forall|a: int, b: int|
                0 <= a < v.len() && 0 <= b < v.len() && a != b implies #[trigger] v[a].id
                != #[trigger] v[b].id by {
                assert(v[a] == s[pos[a]]);
                assert(v[b] == s[pos[b]]);
                if a < b {
                    assert(pos[a] < pos[b]);
                } else {
                    assert(pos[b] < pos[a]);
                }
            }
            assert forall|j: int| 0 <= j < v.len() implies {
                &&& as_map(s).contains_key(#[trigger] v[j].id)
                &&& as_map(s)[v[j].id] == v[j]
                &&& query_matches(query, v[j])
            } by {
                assert(v[j] == s[pos[j]]);
                lemma_as_map_at(s, pos[j]);
            }
            assert forall|id: TaskId|
                #[trigger] as_map(s).contains_key(id) && query_matches(
                    query,
                    as_map(s)[id],
                ) implies exists|j: int| 0 <= j < v.len() && #[trigger] v[j].id == id by {
                let k = choose|k: int| 0 <= k < s.len() && #[trigger] s[k].id == id;
                lemma_as_map_at(s, k);
                let j = choose|j: int| 0 <= j < pos.len() && #[trigger] pos[j] == k;
                assert(v[j] == s[pos[j]]);
            }
        }
        out
    }

    /// Removes the task with id `id`, handing it back if it was held.
    pub fn remove(&mut self, id: TaskId) -> (r: Option<Task>)
        requires
            old(self).well_formed(),
        ensures
            final(self).well_formed(),
            r is Some <==> old(self).stored().contains_key(id),
            r matches Some(t) ==> t@ == old(self).stored()[id],
            final(self).stored() == old(self).stored().remove(id),
            r is Some ==> exists|k: int|
                0 <= k < old(self)@.len() && old(self)@[k].id == id && final(self)@ == old(
                    self,
                )@.remove(k),
            r is None ==> final(self)@ == old(self)@,
    {
        match self.position(id) {
            Some(k) => {
                proof {
                    lemma_as_map_remove(self@, k as int);
                    lemma_as_map_at(self@, k as int);
                }
                let t = self.tasks.remove(k);
                assert(self@ =~= old(self)@.remove(k as int));
                Some(t)
            },
            None => {
                assert(as_map(self@).remove(id) =~= as_map(self@));
                None
            },
        }
    }
}

} // verus!
