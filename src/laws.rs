use vstd::prelude::*;

use crate::create_task::{creation_result, tasks_after_creation};
use crate::task::TaskView;

verus! {

/// After a creation that succeeded, the repository holds a task under the requested id,
/// and that task identifies itself by that id.
pub proof fn lemma_created_task_is_resolvable(
    before: Map<u64, TaskView>,
    available: bool,
    request: (u64, Seq<char>),
    today: int,
)
    requires
        creation_result(before, available, request, today) is Ok,
    ensures
        tasks_after_creation(before, request, today).contains_key(request.0),
        tasks_after_creation(before, request, today)[request.0].id == request.0,
{
}

/// Storing two tasks with the same id, one after the other, leaves what storing the
/// second alone would: one entry for that id, holding the second task.
pub proof fn lemma_second_store_wins(tasks: Map<u64, TaskView>, first: TaskView, second: TaskView)
    requires
        first.id == second.id,
    ensures
        tasks.insert(first.id, first).insert(second.id, second) == tasks.insert(second.id, second),
        tasks.insert(first.id, first).insert(second.id, second)[second.id] == second,
{
    assert(tasks.insert(first.id, first).insert(second.id, second) =~= tasks.insert(
        second.id,
        second,
    ));
}

} // verus!
