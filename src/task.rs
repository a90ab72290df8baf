use vstd::prelude::*;

use crate::date::{Date, Duration};
use crate::value::{TaskId, TaskName};

verus! {

/// What a task is, whatever its variant: its id, its name, and its due-date
/// (a day number) where it can be postponed.
pub ghost struct TaskView {
    pub id: u64,
    pub name: Seq<char>,
    pub due: Option<int>,
}

/// `t` moved `by` days later where it has a due-date; otherwise `t` itself.
pub open spec fn postponed(t: TaskView, by: int) -> TaskView {
    match t.due {
        Some(d) => TaskView { due: Some(d + by), ..t },
        None => t,
    }
}

/// A task that can be identified and nothing more.
#[derive(Debug)]
pub struct UndoneTask {
    id: TaskId,
    name: TaskName,
}

impl View for UndoneTask {
    type V = TaskView;

    closed spec fn view(&self) -> TaskView {
        TaskView { id: self.id.0, name: self.name@, due: None }
    }
}

impl UndoneTask {
    pub fn new(id: TaskId, name: TaskName) -> (r: UndoneTask)
        ensures
            r@ == (TaskView { id: id.0, name: name@, due: None }),
    {
        UndoneTask { id, name }
    }

    pub fn identify(&self) -> (r: TaskId)
        ensures
            r.0 == self@.id,
    {
        self.id
    }

    pub fn name(&self) -> (r: &TaskName)
        ensures
            r@ == self@.name,
    {
        &self.name
    }
}

impl Clone for UndoneTask {
    fn clone(&self) -> (r: UndoneTask)
        ensures
            r@ == self@,
    {
        UndoneTask { id: self.id, name: self.name.clone() }
    }
}

/// A task with a due-date, which it can put off.
#[derive(Debug)]
pub struct PostponeableUndoneTask {
    id: TaskId,
    name: TaskName,
    due_date: Date,
}

impl View for PostponeableUndoneTask {
    type V = TaskView;

    closed spec fn view(&self) -> TaskView {
        TaskView { id: self.id.0, name: self.name@, due: Some(self.due_date@) }
    }
}

impl PostponeableUndoneTask {
    pub fn new(id: TaskId, name: TaskName, due_date: Date) -> (r: PostponeableUndoneTask)
        ensures
            r@ == (TaskView { id: id.0, name: name@, due: Some(due_date@) }),
    {
        PostponeableUndoneTask { id, name, due_date }
    }

    pub fn identify(&self) -> (r: TaskId)
        ensures
            r.0 == self@.id,
    {
        self.id
    }

    pub fn name(&self) -> (r: &TaskName)
        ensures
            r@ == self@.name,
    {
        &self.name
    }

    pub fn due_date(&self) -> (r: Date)
        ensures
            self@.due == Some(r@),
    {
        self.due_date
    }

    /// Moves the due-date `by` days later; by zero days it stays where it is.
    pub fn postpone(&mut self, by: Duration)
        requires
            old(self)@.due->Some_0 + by@ <= crate::date::LAST_DAY,
        ensures
            final(self)@ == postponed(old(self)@, by@ as int),
            final(self)@.due == Some(old(self)@.due->Some_0 + by@),
    {
        match self.due_date.checked_add(by) {
            Some(d) => {
                self.due_date = d;
            },
            None => {},
        }
    }
}

impl Clone for PostponeableUndoneTask {
    fn clone(&self) -> (r: PostponeableUndoneTask)
        ensures
            r@ == self@,
    {
        PostponeableUndoneTask { id: self.id, name: self.name.clone(), due_date: self.due_date }
    }
}

/// A task of either variant; which capabilities it has is decided per value.
#[derive(Debug)]
pub enum Task {
    Undone(UndoneTask),
    Postponeable(PostponeableUndoneTask),
}

impl View for Task {
    type V = TaskView;

    open spec fn view(&self) -> TaskView {
        match self {
            Task::Undone(t) => t@,
            Task::Postponeable(t) => t@,
        }
    }
}

impl Task {
    pub fn identify(&self) -> (r: TaskId)
        ensures
            r.0 == self@.id,
    {
        match self {
            Task::Undone(t) => t.identify(),
            Task::Postponeable(t) => t.identify(),
        }
    }

    pub fn name(&self) -> (r: &TaskName)
        ensures
            r@ == self@.name,
    {
        match self {
            Task::Undone(t) => t.name(),
            Task::Postponeable(t) => t.name(),
        }
    }

    /// The due-date, where the task can be postponed.
    pub fn due_date(&self) -> (r: Option<Date>)
        ensures
            r is Some <==> self@.due is Some,
            r is Some ==> self@.due == Some(r->Some_0@),
    {
        match self {
            Task::Undone(_) => None,
            Task::Postponeable(t) => Some(t.due_date()),
        }
    }

    pub fn can_postpone(&self) -> (r: bool)
        ensures
            r == self@.due is Some,
    {
        match self {
            Task::Undone(_) => false,
            Task::Postponeable(_) => true,
        }
    }

    /// Postpones the task by `by` where it has that capability, and says whether it had it.
    /// A task without it is left as it is; that is no error.
    pub fn try_postpone(&mut self, by: Duration) -> (r: bool)
        requires
            old(self)@.due is Some ==> old(self)@.due->Some_0 + by@ <= crate::date::LAST_DAY,
        ensures
            r == old(self)@.due is Some,
            final(self)@ == postponed(old(self)@, by@ as int),
            old(self)@.due is None ==> final(self)@ == old(self)@,
    {
        match self {
            Task::Undone(_) => false,
            Task::Postponeable(t) => {
                t.postpone(by);
                true
            },
        }
    }
}

impl Clone for Task {
    fn clone(&self) -> (r: Task)
        ensures
            r@ == self@,
    {
        match self {
            Task::Undone(t) => Task::Undone(t.clone()),
            Task::Postponeable(t) => Task::Postponeable(t.clone()),
        }
    }
}

} // verus!
