use rust_ca_use_case::{
    CreateTaskInteractor, CreateTaskUseCase, CreateTaskUseCaseCommand, Date, Duration,
    InMemoryTaskRepository, PostponeableUndoneTask, Task, TaskError, TaskId, TaskName,
    TaskRepository, UndoneTask, LAST_DAY,
};

fn name(text: &str) -> TaskName {
    TaskName::new(text.to_string()).unwrap()
}

fn day(n: i32) -> Date {
    Date::from_days_from_ce(n).unwrap()
}

fn command(id: u64, text: &str) -> CreateTaskUseCaseCommand {
    CreateTaskUseCaseCommand::new(TaskId(id), name(text))
}

fn postponeable(id: u64, text: &str, due: i32) -> Task {
    Task::Postponeable(PostponeableUndoneTask::new(TaskId(id), name(text), day(due)))
}

#[test]
fn scenario_create_in_empty_repository() {
    let mut interactor = CreateTaskInteractor::new(InMemoryTaskRepository::new());
    let today = day(739_000);
    let result = interactor.execute_on(command(1, "Buy milk"), today).unwrap();
    assert_eq!(result.id, TaskId(1));
    let stored = interactor.repository().resolve_by_id(TaskId(1)).unwrap();
    assert!(stored.can_postpone());
    assert_eq!(stored.name().as_str(), "Buy milk");
    assert_eq!(stored.due_date().unwrap().days_from_ce(), 739_001);
}

#[test]
fn scenario_create_with_local_clock_is_due_tomorrow() {
    let mut interactor = CreateTaskInteractor::new(InMemoryTaskRepository::new());
    let before = Date::today().days_from_ce();
    let result = interactor.execute(command(1, "Buy milk")).unwrap();
    let after = Date::today().days_from_ce();
    assert_eq!(result.id, TaskId(1));
    let stored = interactor.repository().resolve_by_id(TaskId(1)).unwrap();
    assert_eq!(stored.name().as_str(), "Buy milk");
    let due = stored.due_date().unwrap().days_from_ce();
    assert!(due == before + 1 || due == after + 1);
}

#[test]
fn scenario_postpones_the_reference_task() {
    let mut repository = InMemoryTaskRepository::new();
    repository.store(postponeable(1, "Existing", 739_500)).unwrap();
    let mut interactor = CreateTaskInteractor::new(repository);
    let result = interactor.execute_on(command(2, "X"), day(739_000)).unwrap();
    assert_eq!(result.id, TaskId(2));
    let reference = interactor.repository().resolve_by_id(TaskId(1)).unwrap();
    assert_eq!(reference.due_date().unwrap().days_from_ce(), 739_501);
    assert_eq!(reference.name().as_str(), "Existing");
    let created = interactor.repository().resolve_by_id(TaskId(2)).unwrap();
    assert_eq!(created.identify(), TaskId(2));
    assert_eq!(created.name().as_str(), "X");
    assert_eq!(created.due_date().unwrap().days_from_ce(), 739_001);
    assert_eq!(interactor.repository().len(), 2);
}

#[test]
fn scenario_leaves_a_task_without_postpone_unchanged() {
    let mut repository = InMemoryTaskRepository::new();
    repository.store(Task::Undone(UndoneTask::new(TaskId(1), name("Plain")))).unwrap();
    let mut interactor = CreateTaskInteractor::new(repository);
    let result = interactor.execute_on(command(2, "Y"), day(739_000));
    assert_eq!(result.unwrap().id, TaskId(2));
    let reference = interactor.repository().resolve_by_id(TaskId(1)).unwrap();
    assert!(!reference.can_postpone());
    assert!(reference.due_date().is_none());
    assert_eq!(reference.identify(), TaskId(1));
    assert_eq!(reference.name().as_str(), "Plain");
}

#[test]
fn execute_then_resolve_identifies_the_new_task() {
    for id in [0u64, 1, 2, 42, u64::MAX] {
        let mut interactor = CreateTaskInteractor::new(InMemoryTaskRepository::new());
        interactor.execute_on(command(id, "Task"), day(1)).unwrap();
        let stored = interactor.repository().resolve_by_id(TaskId(id)).unwrap();
        assert_eq!(stored.identify(), TaskId(id));
    }
}

#[test]
fn creating_under_the_reference_id_replaces_it() {
    let mut repository = InMemoryTaskRepository::new();
    repository.store(postponeable(1, "Old", 10)).unwrap();
    let mut interactor = CreateTaskInteractor::new(repository);
    interactor.execute_on(command(1, "New"), day(20)).unwrap();
    let stored = interactor.repository().resolve_by_id(TaskId(1)).unwrap();
    assert_eq!(stored.name().as_str(), "New");
    assert_eq!(stored.due_date().unwrap().days_from_ce(), 21);
    assert_eq!(interactor.repository().len(), 1);
}

#[test]
fn resolve_of_unstored_id_is_none() {
    let mut repository = InMemoryTaskRepository::new();
    assert!(repository.resolve_by_id(TaskId(7)).is_none());
    repository.store(postponeable(3, "Three", 5)).unwrap();
    assert!(repository.resolve_by_id(TaskId(7)).is_none());
    assert!(repository.resolve_by_id(TaskId(3)).is_some());
}

#[test]
fn postpone_adds_exactly_the_duration() {
    let mut task = PostponeableUndoneTask::new(TaskId(1), name("Due"), day(100));
    task.postpone(Duration::days(30));
    assert_eq!(task.due_date().days_from_ce(), 130);
    task.postpone(Duration::days(0));
    assert_eq!(task.due_date().days_from_ce(), 130);
    task.postpone(Duration::days(1));
    assert_eq!(task.due_date().days_from_ce(), 131);
}

#[test]
fn try_postpone_without_capability_changes_nothing() {
    let mut task = Task::Undone(UndoneTask::new(TaskId(4), name("Plain")));
    assert!(!task.try_postpone(Duration::days(3)));
    assert_eq!(task.identify(), TaskId(4));
    assert_eq!(task.name().as_str(), "Plain");
    assert!(task.due_date().is_none());

    let mut task = postponeable(5, "Due", 50);
    assert!(task.try_postpone(Duration::days(3)));
    assert_eq!(task.due_date().unwrap().days_from_ce(), 53);
}

#[test]
fn second_store_under_same_id_wins() {
    let mut repository = InMemoryTaskRepository::new();
    repository.store(postponeable(9, "First", 10)).unwrap();
    repository.store(Task::Undone(UndoneTask::new(TaskId(9), name("Second")))).unwrap();
    assert_eq!(repository.len(), 1);
    let stored = repository.resolve_by_id(TaskId(9)).unwrap();
    assert_eq!(stored.name().as_str(), "Second");
    assert!(!stored.can_postpone());
}

#[test]
fn empty_name_is_invalid() {
    assert_eq!(TaskName::new(String::new()).unwrap_err(), TaskError::InvalidName);
    assert_eq!(TaskName::new("a".to_string()).unwrap().as_str(), "a");
}

#[test]
fn creation_on_the_last_day_is_out_of_range() {
    let mut interactor = CreateTaskInteractor::new(InMemoryTaskRepository::new());
    let result = interactor.execute_on(command(2, "Late"), day(LAST_DAY));
    assert_eq!(result.unwrap_err(), TaskError::DateOutOfRange);
    assert!(interactor.repository().resolve_by_id(TaskId(2)).is_none());
}

#[test]
fn reference_due_on_the_last_day_is_out_of_range() {
    let mut repository = InMemoryTaskRepository::new();
    repository.store(postponeable(1, "Edge", LAST_DAY)).unwrap();
    let mut interactor = CreateTaskInteractor::new(repository);
    let result = interactor.execute_on(command(2, "Any"), day(100));
    assert_eq!(result.unwrap_err(), TaskError::DateOutOfRange);
    assert!(interactor.repository().resolve_by_id(TaskId(2)).is_none());
    let reference = interactor.repository().resolve_by_id(TaskId(1)).unwrap();
    assert_eq!(reference.due_date().unwrap().days_from_ce(), LAST_DAY);
}

#[test]
fn dates_outside_the_calendar_are_refused() {
    assert!(Date::from_days_from_ce(LAST_DAY + 1).is_none());
    assert!(Date::from_days_from_ce(rust_ca_use_case::FIRST_DAY - 1).is_none());
    assert!(Date::from_days_from_ce(rust_ca_use_case::FIRST_DAY).is_some());
    assert!(day(LAST_DAY - 2).checked_add(Duration::days(2)).is_some());
    assert!(day(LAST_DAY - 2).checked_add(Duration::days(3)).is_none());
}

#[test]
fn today_matches_the_local_clock_range() {
    let today = Date::today().days_from_ce();
    // 2020-01-01 is day 737425 counted from 0001-01-01.
    assert!(today > 737_425);
    assert!(today <= LAST_DAY);
}
