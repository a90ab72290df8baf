use vstd::prelude::*;

verus! {

/// The ways in which building a task, postponing it or persisting it can fail.
///
/// A lookup that finds nothing is no error: it is an absent `Option`.
#[derive(Debug, Clone, Copy, PartialEq, Eq, Structural)]
pub enum TaskError {
    /// A task name was built from empty text.
    InvalidName,
    /// The repository could not be reached (its lock was poisoned, for instance).
    StorageFault,
    /// A date would leave the range of representable calendar dates.
    DateOutOfRange,
}

} // verus!
