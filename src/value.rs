use vstd::prelude::*;

use crate::error::TaskError;

verus! {

/// Identity of a task; two ids are equal when their numbers are.
#[derive(Debug, Clone, Copy, PartialEq, Eq, Structural, Hash)]
pub struct TaskId(pub u64);

impl TaskId {
    pub fn new(value: u64) -> (r: TaskId)
        ensures
            r.0 == value,
    {
        TaskId(value)
    }

    pub fn value(&self) -> (r: u64)
        ensures
            r == self.0,
    {
        self.0
    }
}

/// The name of a task: text that is never empty.
#[derive(Debug)]
pub struct TaskName {
    value: String,
}

impl View for TaskName {
    type V = Seq<char>;

    closed spec fn view(&self) -> Seq<char> {
        self.value@
    }
}

impl TaskName {
    #[verifier::type_invariant]
    spec fn non_empty(&self) -> bool {
        self.value@.len() > 0
    }

    /// Wraps `value`; empty text is refused.
    pub fn new(value: String) -> (r: Result<TaskName, TaskError>)
        ensures
            value@.len() == 0 ==> r == Err::<TaskName, TaskError>(TaskError::InvalidName),
            value@.len() > 0 ==> r is Ok && r->Ok_0@ == value@,
    {
        if value.as_str().is_empty() {
            Err(TaskError::InvalidName)
        } else {
            Ok(TaskName { value })
        }
    }

    pub fn as_str(&self) -> (r: &str)
        ensures
            r@ == self@,
    {
        self.value.as_str()
    }
}

impl Clone for TaskName {
    fn clone(&self) -> (r: TaskName)
        ensures
            r@ == self@,
    {
        proof {
            use_type_invariant(self);
        }
        TaskName { value: self.value.clone() }
    }
}

} // verus!
