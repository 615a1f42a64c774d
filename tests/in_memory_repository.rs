use todo_cli::in_memory::InMemoryTaskRepository;
use todo_cli::repository::{TaskQuery, TaskRepository};
use todo_cli::task::{Task, TaskStatus};

fn new_task(title: &str) -> Task {
    Task::new(title.to_string()).expect("task should be created")
}

#[test]
fn save_and_find_by_id_returns_task() {
    let mut repo = InMemoryTaskRepository::new();
    let task = new_task("learn rust");
    let id = task.task_id();

    repo.save(task).expect("save should succeed");

    let found = repo.find_by_id(id).expect("find should succeed");
    assert!(found.is_some());
    let found = found.expect("task should exist");
    assert_eq!(found.task_id(), id);
    assert_eq!(found.title(), "learn rust");
}

#[test]
fn list_all_returns_all_tasks() {
    let mut repo = InMemoryTaskRepository::new();
    repo.save(new_task("task 1")).expect("save should succeed");
    repo.save(new_task("task 2")).expect("save should succeed");

    let all = repo.list(TaskQuery::All).expect("list should succeed");
    assert_eq!(all.len(), 2);
}

#[test]
fn in_memory_task_repository_list_by_status_filters_tasks() {
    let mut repo = InMemoryTaskRepository::new();
    let todo = new_task("todo task");
    let done = new_task("done task")
        .mark_done()
        .expect("status transition should succeed");

    repo.save(todo).expect("save should succeed");
    repo.save(done).expect("save should succeed");

    let done_tasks = repo
        .list(TaskQuery::ByStatus(TaskStatus::Done))
        .expect("list should succeed");
    assert_eq!(done_tasks.len(), 1);
    assert_eq!(done_tasks[0].status(), TaskStatus::Done);

    let todo_tasks = repo
        .list(TaskQuery::ByStatus(TaskStatus::Todo))
        .expect("list should succeed");
    assert_eq!(todo_tasks.len(), 1);
    assert_eq!(todo_tasks[0].status(), TaskStatus::Todo);
}

#[test]
fn delete_returns_true_for_existing_task() {
    let mut repo = InMemoryTaskRepository::new();
    let task = new_task("task to delete");
    let id = task.task_id();
    repo.save(task).expect("save should succeed");

    let deleted = repo.delete(id).expect("delete should succeed");
    assert!(deleted);

    let found = repo.find_by_id(id).expect("find should succeed");
    assert!(found.is_none());
}

#[test]
fn delete_returns_false_for_non_existing_task() {
    let mut repo = InMemoryTaskRepository::new();
    let id = new_task("temporary").task_id();

    let deleted = repo.delete(id).expect("delete should succeed");
    assert!(!deleted);
}

#[test]
fn save_is_upsert_when_same_id_is_saved_again() {
    let mut repo = InMemoryTaskRepository::new();
    let original = new_task("pay rent");
    let id = original.task_id();
    repo.save(original.clone()).expect("save should succeed");

    let updated = original
        .mark_done()
        .expect("status transition should succeed");
    repo.save(updated).expect("save should succeed");

    let all = repo.list(TaskQuery::All).expect("list should succeed");
    assert_eq!(all.len(), 1);

    let found = repo.find_by_id(id).expect("find should succeed");
    let found = found.expect("task should exist");
    assert_eq!(found.status(), TaskStatus::Done);
}

#[test]
fn inherent_methods_match_the_repository_operations() {
    let mut repo = InMemoryTaskRepository::default();
    let a = Task::new_at(1, "a".to_string(), 10).expect("task");
    let b = Task::new_at(2, "b".to_string(), 10)
        .expect("task")
        .mark_as(TaskStatus::Done, 11)
        .expect("move");
    repo.add_task(a).expect("add");
    repo.add_task(b).expect("add");
    assert_eq!(repo.get_task_by_id(1).map(|t| t.title().to_string()), Some("a".to_string()));
    assert!(repo.get_task_by_id(3).is_none());
    let done = repo.get_task_by_status(TaskStatus::Done);
    assert_eq!(done.len(), 1);
    assert_eq!(done[0].task_id(), 2);
    let removed = repo.delete_task_by_id(2).expect("held");
    assert_eq!(removed.task_id(), 2);
    assert!(repo.delete_task_by_id(2).is_none());
    assert_eq!(repo.list(TaskQuery::All).expect("list").len(), 1);
}

#[test]
fn done_filter_lists_exactly_the_done_subset() {
    let mut repo = InMemoryTaskRepository::new();
    let a = Task::new_at(10, "A".to_string(), 1).expect("task");
    let b = Task::new_at(11, "B".to_string(), 1)
        .expect("task")
        .mark_as(TaskStatus::Done, 2)
        .expect("move");
    let c = Task::new_at(12, "C".to_string(), 1)
        .expect("task")
        .mark_as(TaskStatus::Done, 3)
        .expect("move");
    repo.save(a).expect("save");
    repo.save(b).expect("save");
    repo.save(c).expect("save");
    let done = repo.list(TaskQuery::ByStatus(TaskStatus::Done)).expect("list");
    assert_eq!(done.len(), 2);
    let mut ids: Vec<u128> = done.iter().map(|t| t.task_id()).collect();
    ids.sort();
    assert_eq!(ids, vec![11, 12]);
}

#[test]
fn upsert_of_todo_then_done_keeps_one_done_record() {
    let mut repo = InMemoryTaskRepository::new();
    let todo = Task::new_at(42, "X".to_string(), 5).expect("task");
    let done = todo.clone().mark_as(TaskStatus::Done, 6).expect("move");
    repo.save(todo).expect("save");
    repo.save(done).expect("save");
    let all = repo.list(TaskQuery::All).expect("list");
    assert_eq!(all.len(), 1);
    let found = repo.find_by_id(42).expect("find").expect("present");
    assert_eq!(found.status(), TaskStatus::Done);
    assert_eq!(found.modified_at(), 6);
    assert_eq!(found.created_at(), 5);
}

#[test]
fn snapshot_round_trip_keeps_every_field() {
    let a = Task::from_parts(3, "persist me".to_string(), TaskStatus::Done, 100, 250).expect("task");
    let b = Task::new_at(4, "other".to_string(), 7).expect("task");
    let repo = InMemoryTaskRepository::from_tasks(vec![a.clone(), b.clone()]).expect("unique ids");
    let tasks = repo.into_tasks();
    let reloaded = InMemoryTaskRepository::from_tasks(tasks).expect("unique ids");
    let found = reloaded.find_by_id(3).expect("find").expect("present");
    assert_eq!(found, a);
    assert_eq!(found.title(), "persist me");
    assert_eq!(found.status(), TaskStatus::Done);
    assert_eq!(found.created_at(), 100);
    assert_eq!(found.modified_at(), 250);
    assert_eq!(reloaded.find_by_id(4).expect("find"), Some(b));
}

#[test]
fn loading_tasks_with_a_shared_id_fails() {
    let a = Task::new_at(1, "a".to_string(), 0).expect("task");
    let b = Task::new_at(1, "b".to_string(), 0).expect("task");
    assert!(InMemoryTaskRepository::from_tasks(vec![a, b]).is_err());
}

#[test]
fn held_order_is_kept_by_upsert_and_delete() {
    let mut repo = InMemoryTaskRepository::new();
    for (id, title) in [(1, "a"), (2, "b"), (3, "c")] {
        repo.save(Task::new_at(id, title.to_string(), 0).expect("task")).expect("save");
    }
    repo.save(Task::new_at(2, "b2".to_string(), 0).expect("task")).expect("save");
    assert!(repo.delete(1).expect("delete"));
    let titles: Vec<String> = repo.into_tasks().iter().map(|t| t.title().to_string()).collect();
    assert_eq!(titles, vec!["b2".to_string(), "c".to_string()]);
}
