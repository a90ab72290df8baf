use vstd::prelude::*;

use std::collections::HashMap;

use crate::error::TaskError;
use crate::task::{Task, TaskView};
use crate::value::TaskId;

verus! {

broadcast use vstd::std_specs::hash::group_hash_axioms;

/// Where tasks are kept: one entry per id, the last one stored for an id winning.
pub trait TaskRepository {
    /// The tasks held, by id.
    spec fn tasks(&self) -> Map<u64, TaskView>;

    /// Whether the backing store can be reached; a store fails exactly when it cannot.
    spec fn is_available(&self) -> bool;

    /// The task stored under `id`, or `None` where there is none; absence is no error.
    fn resolve_by_id(&self, id: TaskId) -> (r: Option<Task>)
        ensures
            r is Some <==> self.tasks().contains_key(id.0),
            r is Some ==> r->Some_0@ == self.tasks()[id.0],
            r is Some ==> r->Some_0@.id == id.0,
    ;

    /// Puts `task` under its own id, replacing what was there.
    fn store(&mut self, task: Task) -> (r: Result<(), TaskError>)
        ensures
            final(self).is_available() == old(self).is_available(),
            old(self).is_available() ==> r is Ok && final(self).tasks() == old(self).tasks().insert(
                task@.id,
                task@,
            ),
            !old(self).is_available() ==> r == Err::<(), TaskError>(TaskError::StorageFault)
                && final(self).tasks() == old(self).tasks(),
    ;
}

/// A repository that keeps its tasks in memory, in a map keyed by task id.
pub struct InMemoryTaskRepository {
    tasks: HashMap<u64, Task>,
}

impl InMemoryTaskRepository {
    /// Each task is held under its own id.
    #[verifier::type_invariant]
    spec fn keyed_by_id(&self) -> bool {
        forall|k: u64| #[trigger] self.tasks@.contains_key(k) ==> self.tasks@[k]@.id == k
    }

    pub fn new() -> (r: InMemoryTaskRepository)
        ensures
            r.tasks() == Map::<u64, TaskView>::empty(),
            r.is_available(),
    {
        let r = InMemoryTaskRepository { tasks: HashMap::new() };
        assert(r.tasks() =~= Map::<u64, TaskView>::empty());
        r
    }

    /// How many tasks are held.
    pub fn len(&self) -> (r: usize)
        ensures
            r == self.tasks().len(),
    {
        proof {
            assert(self.tasks().dom() =~= self.tasks@.dom());
        }
        self.tasks.len()
    }
}

impl TaskRepository for InMemoryTaskRepository {
    closed spec fn tasks(&self) -> Map<u64, TaskView> {
        self.tasks@.map_values(|t: Task| t@)
    }

    open spec fn is_available(&self) -> bool {
        true
    }

    fn resolve_by_id(&self, id: TaskId) -> (r: Option<Task>) {
        proof {
            use_type_invariant(self);
        }
        match self.tasks.get(&id.0) {
            Some(t) => Some(t.clone()),
            None => None,
        }
    }

    fn store(&mut self, task: Task) -> (r: Result<(), TaskError>) {
        let id = task.identify();
        proof {
            use_type_invariant(&*self);
            let before = old(self).tasks@;
            assert(before.insert(task@.id, task).map_values(|t: Task| t@) =~= before.map_values(
                |t: Task| t@,
            ).insert(task@.id, task@));
        }
        let mut tasks = HashMap::new();
        std::mem::swap(&mut tasks, &mut self.tasks);
        tasks.insert(id.0, task);
        self.tasks = tasks;
        Ok(())
    }
}

} // verus!
