use vstd::prelude::*;

use crate::date::{is_calendar_day, Date, Duration, LAST_DAY};
use crate::error::TaskError;
use crate::repository::TaskRepository;
use crate::task::{postponed, PostponeableUndoneTask, Task, TaskView};
use crate::value::{TaskId, TaskName};

verus! {

/// The id of the task that every creation looks up and, where it can, postpones by a
/// day. It does not depend on the request; changing this line changes the target.
pub const REFERENCE_TASK_ID: u64 = 1;

/// A request to create a task under `id` named `name`.
#[derive(Debug)]
pub struct CreateTaskUseCaseCommand {
    id: TaskId,
    name: TaskName,
}

impl View for CreateTaskUseCaseCommand {
    /// The requested id and name.
    type V = (u64, Seq<char>);

    closed spec fn view(&self) -> (u64, Seq<char>) {
        (self.id.0, self.name@)
    }
}

impl CreateTaskUseCaseCommand {
    pub fn new(id: TaskId, name: TaskName) -> (r: CreateTaskUseCaseCommand)
        ensures
            r@ == (id.0, name@),
    {
        CreateTaskUseCaseCommand { id, name }
    }

    pub fn id(&self) -> (r: TaskId)
        ensures
            r.0 == self@.0,
    {
        self.id
    }

    pub fn name(&self) -> (r: &TaskName)
        ensures
            r@ == self@.1,
    {
        &self.name
    }
}

impl Clone for CreateTaskUseCaseCommand {
    fn clone(&self) -> (r: CreateTaskUseCaseCommand)
        ensures
            r@ == self@,
    {
        CreateTaskUseCaseCommand { id: self.id, name: self.name.clone() }
    }
}

/// What a successful creation hands back: the id of the new task.
#[derive(Debug, Clone, Copy, PartialEq, Eq, Structural)]
pub struct CreateTaskUseCaseResult {
    pub id: TaskId,
}

impl CreateTaskUseCaseResult {
    pub fn new(id: TaskId) -> (r: CreateTaskUseCaseResult)
        ensures
            r.id == id,
    {
        CreateTaskUseCaseResult { id }
    }
}

/// The task that a creation stores: postponeable, due the day after `today`.
pub open spec fn created_task(request: (u64, Seq<char>), today: int) -> TaskView {
    TaskView { id: request.0, name: request.1, due: Some(today + 1) }
}

/// Whether the reference task is held and postponeable.
pub open spec fn reference_is_postponeable(tasks: Map<u64, TaskView>) -> bool {
    tasks.contains_key(REFERENCE_TASK_ID) && tasks[REFERENCE_TASK_ID].due is Some
}

/// `tasks` with the reference task postponed by a day where it is postponeable.
pub open spec fn with_reference_postponed(tasks: Map<u64, TaskView>) -> Map<u64, TaskView> {
    if reference_is_postponeable(tasks) {
        tasks.insert(REFERENCE_TASK_ID, postponed(tasks[REFERENCE_TASK_ID], 1))
    } else {
        tasks
    }
}

/// Whether postponing the reference task by a day would pass the last calendar day.
pub open spec fn reference_postpone_overflows(tasks: Map<u64, TaskView>) -> bool {
    reference_is_postponeable(tasks) && tasks[REFERENCE_TASK_ID].due->Some_0 + 1 > LAST_DAY
}

/// Whether a creation on `today` would carry a date past the last calendar day: the new
/// task's due-date, or the postponed due-date of the reference task.
pub open spec fn dates_overflow(tasks: Map<u64, TaskView>, today: int) -> bool {
    today + 1 > LAST_DAY || reference_postpone_overflows(tasks)
}

/// What a creation of `request` on `today` returns, given the tasks held before and
/// whether the store can be reached.
pub open spec fn creation_result(
    tasks: Map<u64, TaskView>,
    available: bool,
    request: (u64, Seq<char>),
    today: int,
) -> Result<CreateTaskUseCaseResult, TaskError> {
    if dates_overflow(tasks, today) {
        Err(TaskError::DateOutOfRange)
    } else if !available {
        Err(TaskError::StorageFault)
    } else {
        Ok(CreateTaskUseCaseResult { id: TaskId(request.0) })
    }
}

/// The tasks held after a creation of `request` on `today` that succeeded.
pub open spec fn tasks_after_creation(
    tasks: Map<u64, TaskView>,
    request: (u64, Seq<char>),
    today: int,
) -> Map<u64, TaskView> {
    with_reference_postponed(tasks).insert(request.0, created_task(request, today))
}

/// A creation of `request` on `today` that took the tasks from `before` to `after` and
/// returned `r`: it returned what `creation_result` gives, and changed the tasks only
/// where it succeeded.
pub open spec fn is_creation(
    before: Map<u64, TaskView>,
    available: bool,
    request: (u64, Seq<char>),
    today: int,
    r: Result<CreateTaskUseCaseResult, TaskError>,
    after: Map<u64, TaskView>,
) -> bool {
    &&& r == creation_result(before, available, request, today)
    &&& r is Ok ==> after == tasks_after_creation(before, request, today)
    &&& r is Err ==> after == before
}

/// The one use case: create a task.
pub trait CreateTaskUseCase {
    fn execute(&mut self, request: CreateTaskUseCaseCommand) -> Result<
        CreateTaskUseCaseResult,
        TaskError,
    >;
}

/// Creates tasks in a repository of type `R`.
pub struct CreateTaskInteractor<R: TaskRepository> {
    task_repository: R,
}

impl<R: TaskRepository> CreateTaskInteractor<R> {
    /// The repository that the interactor works on.
    pub closed spec fn repo(&self) -> R {
        self.task_repository
    }

    pub fn new(task_repository: R) -> (r: CreateTaskInteractor<R>)
        ensures
            r.repo() == task_repository,
    {
        CreateTaskInteractor { task_repository }
    }

    pub fn repository(&self) -> (r: &R)
        ensures
            *r == self.repo(),
    {
        &self.task_repository
    }

    /// Looks up the reference task and postpones it by a day where it can be postponed.
    fn postpone_reference_task(&mut self) -> (r: Result<(), TaskError>)
        requires
            !reference_postpone_overflows(old(self).repo().tasks()),
        ensures
            final(self).repo().is_available() == old(self).repo().is_available(),
            r is Ok <==> old(self).repo().is_available() || !reference_is_postponeable(
                old(self).repo().tasks(),
            ),
            r is Ok ==> final(self).repo().tasks() == with_reference_postponed(
                old(self).repo().tasks(),
            ),
            r is Err ==> r == Err::<(), TaskError>(TaskError::StorageFault),
            r is Err ==> final(self).repo().tasks() == old(self).repo().tasks(),
    {
        match self.task_repository.resolve_by_id(TaskId(REFERENCE_TASK_ID)) {
            None => Ok(()),
            Some(mut task) => {
                if task.try_postpone(Duration::days(1)) {
                    self.task_repository.store(task)
                } else {
                    Ok(())
                }
            },
        }
    }

    /// Creates the task of `request`, due the day after `today`, after postponing the
    /// reference task by a day where it can be.
    pub fn execute_on(&mut self, request: CreateTaskUseCaseCommand, today: Date) -> (r: Result<
        CreateTaskUseCaseResult,
        TaskError,
    >)
        ensures
            is_creation(
                old(self).repo().tasks(),
                old(self).repo().is_available(),
                request@,
                today@,
                r,
                final(self).repo().tasks(),
            ),
    {
        let tomorrow = match today.checked_add(Duration::days(1)) {
            Some(d) => d,
            None => {
                return Err(TaskError::DateOutOfRange);
            },
        };
        // Both dates are checked before anything is changed.
        match self.task_repository.resolve_by_id(TaskId(REFERENCE_TASK_ID)) {
            Some(reference) => match reference.due_date() {
                Some(due) => {
                    if due.days_from_ce() >= LAST_DAY {
                        return Err(TaskError::DateOutOfRange);
                    }
                },
                None => {},
            },
            None => {},
        }
        let id = request.id();
        let task = PostponeableUndoneTask::new(id, request.name().clone(), tomorrow);
        match self.postpone_reference_task() {
            Ok(()) => {},
            Err(e) => {
                return Err(e);
            },
        }
        match self.task_repository.store(Task::Postponeable(task)) {
            Ok(()) => Ok(CreateTaskUseCaseResult::new(id)),
            Err(e) => Err(e),
        }
    }
}

impl<R: TaskRepository> CreateTaskUseCase for CreateTaskInteractor<R> {
    /// Creates the task of `request`, due tomorrow by the local clock.
    fn execute(&mut self, request: CreateTaskUseCaseCommand) -> (r: Result<
        CreateTaskUseCaseResult,
        TaskError,
    >)
        ensures
            exists|today: int|
                is_calendar_day(today) && #[trigger] is_creation(
                    old(self).repo().tasks(),
                    old(self).repo().is_available(),
                    request@,
                    today,
                    r,
                    final(self).repo().tasks(),
                ),
    {
        let today = Date::today();
        let r = self.execute_on(request, today);
        assert(is_calendar_day(today@));
        r
    }
}

} // verus!
