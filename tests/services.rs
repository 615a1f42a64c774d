use todo_cli::cli::{status_command_to_filter_task, OutputFormat, StatusArg};
use todo_cli::errors::{ApplicationError, DomainError, RepoError};
use todo_cli::in_memory::InMemoryTaskRepository;
use todo_cli::repository::{TaskQuery, TaskRepository};
use todo_cli::services::{
    filter_task_to_query, mark_found, persisted, to_app, AddTaskCommand, AddTaskService, DeleteTaskCommand, DeleteTaskService,
    FilterTask, ListTasksCommand, ListTasksService, MarkTaskDoneCommand, MarkTaskDoneService,
    MarkTaskTodoCommand, MarkTaskTodoService,
};
use todo_cli::task::{Task, TaskStatus};

fn store_with(tasks: Vec<Task>) -> InMemoryTaskRepository {
    let mut repo = InMemoryTaskRepository::new();
    for t in tasks {
        repo.save(t).expect("save");
    }
    repo
}

#[test]
fn add_service_creates_and_saves_a_todo_task() {
    let mut service = AddTaskService::new(InMemoryTaskRepository::new());
    let task = service.execute(AddTaskCommand::new("write tests".to_string())).expect("added");
    assert_eq!(task.title(), "write tests");
    assert_eq!(task.status(), TaskStatus::Todo);
    assert_eq!(task.created_at(), task.modified_at());
}

#[test]
fn add_service_rejects_blank_title() {
    let mut service = AddTaskService::new(InMemoryTaskRepository::new());
    let r = service.execute(AddTaskCommand::new("   ".to_string()));
    assert_eq!(r, Err(ApplicationError::Domain(DomainError::EmptyTitle)));
}

#[test]
fn list_service_applies_the_filter() {
    let a = Task::new_at(1, "a".to_string(), 0).expect("task");
    let b = Task::new_at(2, "b".to_string(), 0)
        .expect("task")
        .mark_as(TaskStatus::Done, 1)
        .expect("move");
    let service = ListTasksService::new(store_with(vec![a, b]));
    let all = service.execute(ListTasksCommand::new(FilterTask::All)).expect("list");
    assert_eq!(all.len(), 2);
    let done = service.execute(ListTasksCommand::new(FilterTask::Done)).expect("list");
    assert_eq!(done.len(), 1);
    assert_eq!(done[0].task_id(), 2);
    let todo = service.execute(ListTasksCommand::from(StatusArg::Todo)).expect("list");
    assert_eq!(todo.len(), 1);
    assert_eq!(todo[0].task_id(), 1);
}

#[test]
fn mark_done_service_moves_and_persists() {
    let a = Task::new_at(1, "a".to_string(), 0).expect("task");
    let mut service = MarkTaskDoneService::new(store_with(vec![a]));
    let done = service.execute(MarkTaskDoneCommand::new(1)).expect("moved");
    assert_eq!(done.status(), TaskStatus::Done);
    assert_eq!(done.task_id(), 1);
    assert_eq!(
        service.execute(MarkTaskDoneCommand::new(1)),
        Err(ApplicationError::Domain(DomainError::InvalidStatusTransition {
            id: 1,
            from: TaskStatus::Done,
            to: TaskStatus::Done
        }))
    );
    assert_eq!(
        service.execute(MarkTaskDoneCommand::new(2)),
        Err(ApplicationError::Domain(DomainError::TaskNotFound { id: 2 }))
    );
}

#[test]
fn mark_todo_service_moves_back_and_reports_errors() {
    let a = Task::new_at(1, "a".to_string(), 0)
        .expect("task")
        .mark_as(TaskStatus::Done, 1)
        .expect("move");
    let mut service = MarkTaskTodoService::new(store_with(vec![a]));
    let back = service.execute(MarkTaskTodoCommand::new(1)).expect("moved");
    assert_eq!(back.status(), TaskStatus::Todo);
    assert_eq!(back.created_at(), 0);
    assert_eq!(
        service.execute(MarkTaskTodoCommand::new(1)),
        Err(ApplicationError::Domain(DomainError::InvalidStatusTransition {
            id: 1,
            from: TaskStatus::Todo,
            to: TaskStatus::Todo
        }))
    );
    assert_eq!(
        service.execute(MarkTaskTodoCommand::new(9)),
        Err(ApplicationError::Domain(DomainError::TaskNotFound { id: 9 }))
    );
}

#[test]
fn delete_service_reports_presence() {
    let a = Task::new_at(1, "a".to_string(), 0).expect("task");
    let mut service = DeleteTaskService::new(store_with(vec![a]));
    assert_eq!(service.execute(DeleteTaskCommand::new(1)), Ok(true));
    assert_eq!(service.execute(DeleteTaskCommand::new(1)), Ok(false));
    assert_eq!(service.execute(DeleteTaskCommand::new(5)), Ok(false));
}

#[test]
fn filters_map_to_queries() {
    assert_eq!(filter_task_to_query(FilterTask::All), TaskQuery::All);
    assert_eq!(filter_task_to_query(FilterTask::Done), TaskQuery::ByStatus(TaskStatus::Done));
    assert_eq!(filter_task_to_query(FilterTask::Todo), TaskQuery::ByStatus(TaskStatus::Todo));
    assert_eq!(status_command_to_filter_task(StatusArg::All), FilterTask::All);
    assert_eq!(status_command_to_filter_task(StatusArg::Todo), FilterTask::Todo);
    assert_eq!(status_command_to_filter_task(StatusArg::Done), FilterTask::Done);
    assert_ne!(OutputFormat::Table, OutputFormat::Json);
}

#[test]
fn service_hands_back_its_repository() {
    let mut service = AddTaskService::new(InMemoryTaskRepository::new());
    let task = service.execute(AddTaskCommand::new("kept".to_string())).expect("added");
    let repo = service.into_repository();
    let found = repo.find_by_id(task.task_id()).expect("find").expect("present");
    assert_eq!(found, task);
}

#[test]
fn repository_outcomes_map_to_use_case_outcomes() {
    let failure = RepoError::InternalError { error: "disk full".to_string() };
    assert_eq!(to_app(Ok::<bool, RepoError>(true)), Ok(true));
    assert_eq!(
        to_app(Err::<bool, RepoError>(failure.clone())),
        Err(ApplicationError::Repository(failure.clone()))
    );
    let task = Task::new_at(8, "saved".to_string(), 1).expect("task");
    assert_eq!(persisted(Ok(()), task.clone()), Ok(task.clone()));
    assert_eq!(
        persisted(Err(failure.clone()), task),
        Err(ApplicationError::Repository(failure))
    );
}

#[test]
fn lookup_outcomes_decide_the_mark_result() {
    assert_eq!(
        mark_found(None, 4, TaskStatus::Done),
        Err(ApplicationError::Domain(DomainError::TaskNotFound { id: 4 }))
    );
    let todo = Task::new_at(4, "t".to_string(), 1).expect("task");
    assert_eq!(
        mark_found(Some(todo.clone()), 4, TaskStatus::Todo),
        Err(ApplicationError::Domain(DomainError::InvalidStatusTransition {
            id: 4,
            from: TaskStatus::Todo,
            to: TaskStatus::Todo
        }))
    );
    let moved = mark_found(Some(todo), 4, TaskStatus::Done).expect("moved");
    assert_eq!(moved.status(), TaskStatus::Done);
    assert_eq!(moved.task_id(), 4);
    assert_eq!(moved.created_at(), 1);
}
