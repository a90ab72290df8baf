//! Tasks with and without the capability to be postponed, a repository that keeps them
//! by id, and the use case that creates a task.

pub mod create_task;
pub mod date;
pub mod error;
pub mod laws;
pub mod repository;
pub mod task;
pub mod value;

pub use create_task::{
    CreateTaskInteractor, CreateTaskUseCase, CreateTaskUseCaseCommand, CreateTaskUseCaseResult,
    REFERENCE_TASK_ID,
};
pub use date::{Date, Duration, FIRST_DAY, LAST_DAY};
pub use error::TaskError;
pub use repository::{InMemoryTaskRepository, TaskRepository};
pub use task::{PostponeableUndoneTask, Task, UndoneTask};
pub use value::{TaskId, TaskName};
