use vstd::prelude::*;

verus! {

/// A stable, totally ordered, equality-comparable token naming one
/// interaction element for its whole lifetime.
///
/// The all-zero identifier is reserved: it addresses the document root and
/// marks elements whose identifier has not been allocated yet. Every
/// identifier issued by a [`Generator`] is non-zero.
#[derive(Clone, Copy, Debug, PartialEq, Eq, Structural, Hash)]
pub struct Id(pub u64);

impl Id {
    /// The reserved root/unallocated sentinel.
    pub fn invalid() -> (r: Id)
        ensures
            r == Id(0u64),
    {
        Id(0)
    }

    /// True for every identifier a [`Generator`] can issue; false for the
    /// reserved sentinel.
    pub open spec fn is_valid(self) -> bool {
        self.0 != 0
    }
}

/// Issues fresh identifiers during a render pass.
///
/// Identifiers are allocated exactly once per logical element, at the moment
/// the element is first created; later render passes reuse the stored
/// identifiers, which is what lets events and refresh feedback keep finding
/// the element.
pub struct Generator {
    pub next: u64,
}

impl Generator {
    /// Counter discipline: the zero identifier is never issued.
    pub open spec fn wf(self) -> bool {
        1 <= self.next
    }

    /// There is headroom for `k` more allocations.
    pub open spec fn can_issue(self, k: int) -> bool {
        self.next + k <= u64::MAX
    }

    pub fn new() -> (r: Generator)
        ensures
            r.wf(),
            r.next == 1,
    {
        Generator { next: 1 }
    }

    /// Issues a fresh identifier, distinct from every identifier this
    /// generator issued before (all of which are below `old(self).next`).
    pub fn next(&mut self) -> (r: Id)
        requires
            old(self).wf(),
            old(self).can_issue(1),
        ensures
            final(self).wf(),
            final(self).next == old(self).next + 1,
            r == Id(old(self).next),
            r.is_valid(),
    {
        let id = Id(self.next);
        self.next = self.next + 1;
        id
    }
}

} // verus!
