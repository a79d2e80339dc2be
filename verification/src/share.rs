use vstd::prelude::*;

use crate::event::Feedback;
use crate::id::{Generator, Id};
use crate::task_value::TaskValue;
use crate::value::{clone_task_value, tv_view, Value, ValueV};
use crate::view::{render_view, view_html, Color};

verus! {

/// A live viewer binding: the viewer's element, the share identity it is
/// bound to, and how it renders.
#[derive(Clone, Copy, Debug, PartialEq, Eq, Structural, Hash)]
pub struct ViewerEntry {
    pub element: Id,
    pub share: Id,
    pub color: Color,
}

/// Index of the first cell holding `share`, scanning from `i`.
pub open spec fn find_cell(cells: Seq<(Id, TaskValue<Value>)>, share: Id, i: int) -> Option<int>
    decreases cells.len() - i,
{
    if i < 0 || i >= cells.len() {
        None
    } else if cells[i].0 == share {
        Some(i)
    } else {
        find_cell(cells, share, i + 1)
    }
}

/// The viewer entries bound to `share`, in registration order.
pub open spec fn matching(vs: Seq<ViewerEntry>, share: Id) -> Seq<ViewerEntry>
    decreases vs.len(),
{
    if vs.len() == 0 {
        Seq::empty()
    } else {
        let m = matching(vs.drop_last(), share);
        if vs.last().share == share {
            m.push(vs.last())
        } else {
            m
        }
    }
}

/// The viewer entries of `vs` whose element is not `e`, in order.
pub open spec fn without_element(vs: Seq<ViewerEntry>, e: Id) -> Seq<ViewerEntry>
    decreases vs.len(),
{
    if vs.len() == 0 {
        Seq::empty()
    } else {
        let m = without_element(vs.drop_last(), e);
        if vs.last().element == e {
            m
        } else {
            m.push(vs.last())
        }
    }
}

/// How many entries of `vs` carry element `e`.
pub open spec fn count_element(vs: Seq<ViewerEntry>, e: Id) -> int
    decreases vs.len(),
{
    if vs.len() == 0 {
        0
    } else {
        count_element(vs.drop_last(), e) + if vs.last().element == e {
            1int
        } else {
            0int
        }
    }
}

/// How many entries of `vs` bind element `e` to `share`.
pub open spec fn count_binding(vs: Seq<ViewerEntry>, share: Id, e: Id) -> int
    decreases vs.len(),
{
    if vs.len() == 0 {
        0
    } else {
        count_binding(vs.drop_last(), share, e) + if vs.last().share == share && vs.last().element
            == e {
            1int
        } else {
            0int
        }
    }
}

/// Fan-out law: after a write to `share`, the viewers selected for refresh
/// carry element `e` exactly as often as `e` is registered against
/// `share` — once per bound viewer, never for a viewer bound to another
/// identity.
pub proof fn lemma_share_fanout(vs: Seq<ViewerEntry>, share: Id, e: Id)
    ensures
        count_element(matching(vs, share), e) == count_binding(vs, share, e),
    decreases vs.len(),
{
    if vs.len() > 0 {
        lemma_share_fanout(vs.drop_last(), share, e);
        if vs.last().share == share {
            assert(matching(vs, share) == matching(vs.drop_last(), share).push(vs.last()));
            assert(matching(vs, share).drop_last() =~= matching(vs.drop_last(), share));
        }
    }
}

/// The registry of shared value cells and of the viewers observing them.
///
/// A share is a value cell with a stable identity; any number of viewers
/// may reference the identity without owning the cell. A write updates the
/// cell and yields one `Replace` instruction per bound viewer, decoupling
/// "a value changed" from "which elements must repaint". A writer holds
/// the registry exclusively, so every reader sees either the whole old
/// value or the whole new one, never a torn intermediate.
#[derive(Debug)]
pub struct ShareRegistry {
    /// The cells, keyed by share identity; keys are unique.
    pub cells: Vec<(Id, TaskValue<Value>)>,
    /// The live viewer bindings, in registration order.
    pub viewers: Vec<ViewerEntry>,
}

impl ShareRegistry {
    /// Key discipline: share identities are valid and unique.
    pub open spec fn wf(self) -> bool {
        &&& forall|i: int| 0 <= i < self.cells.len() ==> (#[trigger] self.cells@[i].0).0 != 0
        &&& forall|i: int, j: int|
            0 <= i < j < self.cells.len() ==> self.cells@[i].0 != self.cells@[j].0
    }

    /// Every share identity was allocated below `b`.
    pub open spec fn below(self, b: u64) -> bool {
        forall|i: int| 0 <= i < self.cells.len() ==> (#[trigger] self.cells@[i].0).0 < b
    }

    /// The abstract value a share currently holds; `Empty` for an unknown
    /// identity.
    pub open spec fn value_of(self, share: Id) -> TaskValue<ValueV> {
        match find_cell(self.cells@, share, 0) {
            Some(i) => tv_view(self.cells@[i].1),
            None => TaskValue::Empty,
        }
    }

    pub fn new() -> (r: ShareRegistry)
        ensures
            r.wf(),
            r.cells@ =~= Seq::<(Id, TaskValue<Value>)>::empty(),
            r.viewers@ =~= Seq::<ViewerEntry>::empty(),
    {
        ShareRegistry { cells: Vec::new(), viewers: Vec::new() }
    }

    /// Creates a cell with a fresh identity, holding `initial`.
    pub fn create(&mut self, initial: TaskValue<Value>, gen: &mut Generator) -> (r: Id)
        requires
            old(self).wf(),
            old(self).below(old(gen).next),
            old(gen).wf(),
            old(gen).can_issue(1),
        ensures
            final(self).wf(),
            final(self).below(final(gen).next),
            final(gen).wf(),
            final(gen).next == old(gen).next + 1,
            r == Id(old(gen).next),
            final(self).cells@ == old(self).cells@.push((r, initial)),
            final(self).viewers == old(self).viewers,
            final(self).value_of(r) == tv_view(initial),
    {
        let id = gen.next();
        self.cells.push((id, initial));
        proof {
            assert forall|i: int, j: int| 0 <= i < j < self.cells.len() implies self.cells@[i].0
                != self.cells@[j].0 by {
                if j < self.cells.len() - 1 {
                    assert(old(self).cells@[i].0 != old(self).cells@[j].0);
                } else {
                    assert((#[trigger] old(self).cells@[i].0).0 < old(gen).next);
                }
            }
            lemma_find_skips_other(self.cells@, id, 0, self.cells@.len() - 1);
        }
        id
    }

    /// Snapshot of a share's current value; `Empty` for an unknown
    /// identity. Never blocks and never fails.
    pub fn clone_value(&self, share: Id) -> (r: TaskValue<Value>)
        ensures
            tv_view(r) == self.value_of(share),
    {
        let n = self.cells.len();
        let mut i: usize = 0;
        while i < n
            invariant
                i <= n,
                n == self.cells.len(),
                find_cell(self.cells@, share, 0) == find_cell(self.cells@, share, i as int),
            decreases n - i,
        {
            if self.cells[i].0 == share {
                return clone_task_value(&self.cells[i].1);
            }
            i = i + 1;
        }
        TaskValue::Empty
    }

    /// Registers a viewer binding; the registry will refresh it on every
    /// write to its share.
    pub fn register_viewer(&mut self, element: Id, share: Id, color: Color)
        ensures
            *final(self) == (ShareRegistry {
                viewers: final(self).viewers,
                ..*old(self)
            }),
            final(self).viewers@ == old(self).viewers@.push(
                ViewerEntry { element, share, color },
            ),
    {
        self.viewers.push(ViewerEntry { element, share, color });
    }

    /// Removes every binding of the given element, so that a viewer taken
    /// down with its task no longer receives refresh instructions.
    pub fn deregister_viewer(&mut self, element: Id)
        ensures
            *final(self) == (ShareRegistry {
                viewers: final(self).viewers,
                ..*old(self)
            }),
            final(self).viewers@ == without_element(old(self).viewers@, element),
    {
        let mut kept: Vec<ViewerEntry> = Vec::new();
        let n = self.viewers.len();
        let mut i: usize = 0;
        while i < n
            invariant
                i <= n,
                n == self.viewers.len(),
                kept@ == without_element(self.viewers@.take(i as int), element),
            decreases n - i,
        {
            let entry = self.viewers[i];
            proof {
                let t = self.viewers@.take(i + 1);
                assert(t.drop_last() =~= self.viewers@.take(i as int));
                assert(t.last() == self.viewers@[i as int]);
            }
            if entry.element != element {
                kept.push(entry);
            }
            i = i + 1;
        }
        proof {
            assert(self.viewers@.take(n as int) =~= self.viewers@);
        }
        self.viewers = kept;
    }

    /// Index of the cell holding `share`, if the identity is known.
    pub fn find_index(&self, share: Id) -> (r: Option<usize>)
        ensures
            (match r {
                Some(i) => {
                    &&& find_cell(self.cells@, share, 0) == Some(i as int)
                    &&& i < self.cells.len()
                    &&& self.cells@[i as int].0 == share
                },
                None => find_cell(self.cells@, share, 0) is None,
            }),
    {
        let n = self.cells.len();
        let mut i: usize = 0;
        while i < n
            invariant
                i <= n,
                n == self.cells.len(),
                find_cell(self.cells@, share, 0) == find_cell(self.cells@, share, i as int),
            decreases n - i,
        {
            if self.cells[i].0 == share {
                return Some(i);
            }
            i = i + 1;
        }
        None
    }

    /// Writes through a share and produces the refresh feedback: exactly
    /// one `Replace`, carrying the freshly rendered view, per viewer bound
    /// to this identity, in registration order; nothing for any other
    /// viewer. Writing an unknown identity changes nothing and refreshes
    /// nobody.
    pub fn write(&mut self, share: Id, v: TaskValue<Value>) -> (r: Vec<Feedback>)
        requires
            old(self).wf(),
        ensures
            final(self).wf(),
            final(self).viewers == old(self).viewers,
            (match find_cell(old(self).cells@, share, 0) {
                Some(i) => final(self).cells@ == old(self).cells@.update(i, (share, v)),
                None => final(self).cells == old(self).cells,
            }),
            (find_cell(old(self).cells@, share, 0) is Some ==> final(self).value_of(share)
                == tv_view(v)),
            (find_cell(old(self).cells@, share, 0) is Some ==> {
                let m = matching(old(self).viewers@, share);
                &&& r@.len() == m.len()
                &&& forall|k: int|
                    0 <= k < m.len() ==> ((#[trigger] r@[k]) matches Feedback::Replace {
                        id,
                        html,
                    } && id == m[k].element && html@ == view_html(
                        m[k].element,
                        m[k].color,
                        tv_view(v),
                    ))
            }),
            (find_cell(old(self).cells@, share, 0) is None ==> r@.len() == 0),
            forall|b: u64| old(self).below(b) ==> final(self).below(b),
    {
        let found = self.find_index(share);
        match found {
            None => Vec::new(),
            Some(ci) => {
                let cell_value = clone_task_value(&v);
                self.cells[ci] = (share, v);
                proof {
                    assert forall|k: int, l: int|
                        0 <= k < l < self.cells.len() implies self.cells@[k].0
                        != self.cells@[l].0 by {
                        assert(old(self).cells@[k].0 != old(self).cells@[l].0);
                        assert((#[trigger] self.cells@[k]).0 == old(self).cells@[k].0);
                        assert((#[trigger] self.cells@[l]).0 == old(self).cells@[l].0);
                    }
                    lemma_find_same_keys(old(self).cells@, self.cells@, share, 0);
                }
                let mut out: Vec<Feedback> = Vec::new();
                let mut j: usize = 0;
                let vn = self.viewers.len();
                while j < vn
                    invariant
                        j <= vn,
                        vn == self.viewers.len(),
                        self.viewers == old(self).viewers,
                        tv_view(cell_value) == tv_view(v),
                        ({
                            let m = matching(self.viewers@.take(j as int), share);
                            &&& out@.len() == m.len()
                            &&& forall|k: int|
                                0 <= k < m.len() ==> ((#[trigger] out@[k])
                                    matches Feedback::Replace { id, html } && id == m[k].element
                                    && html@ == view_html(m[k].element, m[k].color, tv_view(v)))
                        }),
                    decreases vn - j,
                {
                    let entry = self.viewers[j];
                    proof {
                        let tm = self.viewers@.take(j + 1);
                        assert(tm.drop_last() =~= self.viewers@.take(j as int));
                        assert(tm.last() == self.viewers@[j as int]);
                    }
                    if entry.share == share {
                        let h = render_view(entry.element, entry.color, &cell_value);
                        out.push(Feedback::Replace { id: entry.element, html: h });
                    }
                    j = j + 1;
                }
                proof {
                    assert(self.viewers@.take(vn as int) =~= self.viewers@);
                }
                out
            },
        }
    }
}

/// Scanning past cells whose key differs leaves the search result alone.
pub proof fn lemma_find_skips_other(
    cells: Seq<(Id, TaskValue<Value>)>,
    share: Id,
    i: int,
    target: int,
)
    requires
        0 <= i <= target < cells.len(),
        cells[target].0 == share,
        forall|k: int| 0 <= k < cells.len() && k != target ==> (#[trigger] cells[k].0) != share,
    ensures
        find_cell(cells, share, i) == Some(target),
    decreases cells.len() - i,
{
    if i < target {
        lemma_find_skips_other(cells, share, i + 1, target);
    }
}

/// Two cell sequences with the same keys are searched alike.
pub proof fn lemma_find_same_keys(
    a: Seq<(Id, TaskValue<Value>)>,
    b: Seq<(Id, TaskValue<Value>)>,
    share: Id,
    i: int,
)
    requires
        a.len() == b.len(),
        forall|k: int| 0 <= k < a.len() ==> (#[trigger] a[k].0) == b[k].0,
    ensures
        find_cell(a, share, i) == find_cell(b, share, i),
    decreases a.len() - i,
{
    if 0 <= i < a.len() {
        lemma_find_same_keys(a, b, share, i + 1);
    }
}

} // verus!
