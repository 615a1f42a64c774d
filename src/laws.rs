//! Properties that relate several operations, proved over the models that
//! the operations' contracts speak of.

use crate::repository::{lists_exactly, unique_ids, TaskQuery};
use crate::task::{moved_to, TaskId, TaskModel, TaskStatus, Timestamp};
use vstd::prelude::*;

verus! {

/// Marking a `Todo` task done succeeds; marking it done again is rejected;
/// marking it todo then brings it back to `Todo` with id, title and creation
/// time unchanged. When each step reads a later clock than the one before,
/// the modification time strictly increases at each step.
pub proof fn lemma_done_then_todo(m: TaskModel, first: Timestamp, second: Timestamp)
    requires
        m.status == TaskStatus::Todo,
    ensures
        moved_to(m, TaskStatus::Done, first) is Some,
        moved_to(moved_to(m, TaskStatus::Done, first)->0, TaskStatus::Done, second) is None,
        moved_to(moved_to(m, TaskStatus::Done, first)->0, TaskStatus::Todo, second) matches Some(
            back,
        ) ==> {
            &&& back.status == TaskStatus::Todo
            &&& back.id == m.id
            &&& back.title == m.title
            &&& back.created_at == m.created_at
        },
        moved_to(moved_to(m, TaskStatus::Done, first)->0, TaskStatus::Todo, second) is Some,
        m.modified_at < first < second ==> {
            let done = moved_to(m, TaskStatus::Done, first)->0;
            let back = moved_to(done, TaskStatus::Todo, second)->0;
            m.modified_at < done.modified_at < back.modified_at
        },
{
}

/// Saving two tasks that share an id leaves a single record for that id,
/// the one saved last.
pub proof fn lemma_upsert_keeps_latest(
    store: Map<TaskId, TaskModel>,
    first: TaskModel,
    second: TaskModel,
)
    requires
        first.id == second.id,
    ensures
        store.insert(first.id, first).insert(second.id, second) == store.insert(second.id, second),
        store.insert(first.id, first).insert(second.id, second)[second.id] == second,
        store.insert(first.id, first).insert(second.id, second).dom() == store.dom().insert(
            second.id,
        ),
{
    assert(store.insert(first.id, first).insert(second.id, second) =~= store.insert(
        second.id,
        second,
    ));
}

/// A store that holds a single task lists exactly that one task.
pub proof fn lemma_single_record_lists_once(id: TaskId, m: TaskModel, v: Seq<TaskModel>)
    requires
        m.id == id,
        lists_exactly(v, map![id => m], TaskQuery::All),
    ensures
        v.len() == 1,
        v[0] == m,
{
    let store = map![id => m];
    assert(store.contains_key(id));
    let i = choose|i: int| 0 <= i < v.len() && #[trigger] v[i].id == id;
    if v.len() > 1 {
        let j: int = if i == 0 { 1 } else { 0 };
        assert(store.contains_key(v[j].id));
        assert(v[j].id == id);
        assert(unique_ids(v));
    }
}

/// After a delete, the id is absent; deleting an absent id changes nothing.
pub proof fn lemma_delete_leaves_absent(store: Map<TaskId, TaskModel>, id: TaskId)
    ensures
        !store.remove(id).contains_key(id),
        !store.contains_key(id) ==> store.remove(id) == store,
{
    if !store.contains_key(id) {
        assert(store.remove(id) =~= store);
    }
}

} // verus!
