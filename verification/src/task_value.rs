use vstd::prelude::*;

verus! {

/// The three-point result lattice of a running task.
///
/// `Empty` means no value is available yet, `Unstable` means a value exists
/// but may still change, and `Stable` means the value is final for the
/// current input. The ordering is `Empty < Unstable(_) < Stable(_)`; values
/// with the same tag are otherwise incomparable.
#[derive(Clone, Debug, PartialEq, Eq, Hash)]
pub enum TaskValue<T> {
    Stable(T),
    Unstable(T),
    Empty,
}

impl<T> TaskValue<T> {
    /// Position of the tag in the lattice order.
    pub open spec fn rank(self) -> int {
        match self {
            TaskValue::Empty => 0,
            TaskValue::Unstable(_) => 1,
            TaskValue::Stable(_) => 2,
        }
    }

    /// `Both`-style merge: the pair is `Stable` iff both operands are
    /// `Stable`, `Empty` if either operand is `Empty`, and `Unstable`
    /// otherwise.
    pub open spec fn spec_and<U>(self, other: TaskValue<U>) -> TaskValue<(T, U)> {
        match (self, other) {
            (TaskValue::Empty, _) => TaskValue::Empty,
            (_, TaskValue::Empty) => TaskValue::Empty,
            (TaskValue::Stable(a), TaskValue::Stable(b)) => TaskValue::Stable((a, b)),
            (TaskValue::Stable(a), TaskValue::Unstable(b)) => TaskValue::Unstable((a, b)),
            (TaskValue::Unstable(a), TaskValue::Stable(b)) => TaskValue::Unstable((a, b)),
            (TaskValue::Unstable(a), TaskValue::Unstable(b)) => TaskValue::Unstable((a, b)),
        }
    }

    /// `Either`-style merge: the left operand unless it is `Empty`, else the
    /// right one. Ties where both are non-`Empty` keep the left operand and
    /// its tag.
    pub open spec fn spec_or(self, other: TaskValue<T>) -> TaskValue<T> {
        match self {
            TaskValue::Empty => other,
            _ => self,
        }
    }

    /// Merges two sub-task values for a `Both` composition.
    pub fn and<U>(self, other: TaskValue<U>) -> (r: TaskValue<(T, U)>)
        ensures
            r == self.spec_and(other),
    {
        match (self, other) {
            (TaskValue::Empty, _) => TaskValue::Empty,
            (_, TaskValue::Empty) => TaskValue::Empty,
            (TaskValue::Stable(a), TaskValue::Stable(b)) => TaskValue::Stable((a, b)),
            (TaskValue::Stable(a), TaskValue::Unstable(b)) => TaskValue::Unstable((a, b)),
            (TaskValue::Unstable(a), TaskValue::Stable(b)) => TaskValue::Unstable((a, b)),
            (TaskValue::Unstable(a), TaskValue::Unstable(b)) => TaskValue::Unstable((a, b)),
        }
    }

    /// Merges two sub-task values for an `Either` composition, left-biased.
    pub fn or(self, other: TaskValue<T>) -> (r: TaskValue<T>)
        ensures
            r == self.spec_or(other),
    {
        match self {
            TaskValue::Empty => other,
            _ => self,
        }
    }
}

/// Laws of the `Both` merge: an `Empty` operand collapses the pair to
/// `Empty`, and two `Stable` operands give a `Stable` pair.
pub proof fn lemma_merge_both<A, B>(x: A, y: B, b: TaskValue<B>)
    ensures
        TaskValue::<A>::Empty.spec_and(b) == TaskValue::<(A, B)>::Empty,
        TaskValue::Stable(x).spec_and(TaskValue::Stable(y)) == TaskValue::<(A, B)>::Stable((x, y)),
{
}

/// Laws of the `Either` merge: an `Empty` left operand yields the right
/// operand unchanged, and two non-`Empty` operands keep the left one
/// (left bias).
pub proof fn lemma_merge_either<A>(x: A, y: A)
    ensures
        TaskValue::<A>::Empty.spec_or(TaskValue::Unstable(y)) == TaskValue::<A>::Unstable(y),
        TaskValue::Stable(x).spec_or(TaskValue::Stable(y)) == TaskValue::<A>::Stable(x),
{
}

} // verus!
