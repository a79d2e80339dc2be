use vstd::prelude::*;

use crate::task::Task;

verus! {

/// The four parallel composition policies, selected at construction time.
#[derive(Clone, Copy, Debug, PartialEq, Eq, Structural, Hash)]
pub enum Combine {
    /// Value is the pair of both branch values; stable only when both are.
    Both,
    /// Value is the left branch's unless it is `Empty`, else the right's.
    Either,
    /// Value comes from the left branch; the right still renders and sees
    /// every event, but its value is discarded.
    Left,
    /// Value comes from the right branch; the left still renders and sees
    /// every event, but its value is discarded.
    Right,
}

/// Two sub-tasks behind one merged element tree.
///
/// All four policies route every event to both branches and merge the
/// feedback streams by concatenation in left-to-right order; they differ
/// only in how the composite value and share are computed.
#[derive(Debug, PartialEq, Eq, Hash)]
pub struct Parallel {
    pub tasks: (Task, Task),
    pub combine: Combine,
}

/// Combinators composing two tasks into one.
pub trait TaskParallelExt: Sized {
    /// Both values, merged under the `Both` lattice rule.
    fn and(self, other: Self) -> Self;

    /// The first non-`Empty` value, left-biased.
    fn or(self, other: Self) -> Self;

    /// The left value; the right task still runs.
    fn left(self, other: Self) -> Self;

    /// The right value; the left task still runs.
    fn right(self, other: Self) -> Self;
}

impl TaskParallelExt for Task {
    fn and(self, other: Task) -> (r: Task)
        ensures
            r == Task::Parallel(
                Box::new(Parallel { tasks: (self, other), combine: Combine::Both }),
            ),
    {
        Task::Parallel(Box::new(Parallel { tasks: (self, other), combine: Combine::Both }))
    }

    fn or(self, other: Task) -> (r: Task)
        ensures
            r == Task::Parallel(
                Box::new(Parallel { tasks: (self, other), combine: Combine::Either }),
            ),
    {
        Task::Parallel(Box::new(Parallel { tasks: (self, other), combine: Combine::Either }))
    }

    fn left(self, other: Task) -> (r: Task)
        ensures
            r == Task::Parallel(
                Box::new(Parallel { tasks: (self, other), combine: Combine::Left }),
            ),
    {
        Task::Parallel(Box::new(Parallel { tasks: (self, other), combine: Combine::Left }))
    }

    fn right(self, other: Task) -> (r: Task)
        ensures
            r == Task::Parallel(
                Box::new(Parallel { tasks: (self, other), combine: Combine::Right }),
            ),
    {
        Task::Parallel(Box::new(Parallel { tasks: (self, other), combine: Combine::Right }))
    }
}

} // verus!
