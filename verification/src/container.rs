use vstd::prelude::*;

use crate::convert::FromStrEditor;
use crate::editor::EditorError;
use crate::event::{Event, Feedback};
use crate::html::{div_id_html, div_id, icon_button_html, icon_button, div_html, div, Html, Icon};
use crate::id::{Generator, Id};

verus! {

/// Bookkeeping of one list row: the row's container element and the row's
/// own remove trigger.
#[derive(Clone, Copy, Debug, PartialEq, Eq, Structural, Hash)]
pub struct Row {
    pub id: Id,
    pub sub_id: Id,
}

/// Markup of a row: the child editor followed by its remove trigger, inside
/// the row's addressable container.
pub open spec fn row_html(row: Row, inner: Seq<char>) -> Seq<char> {
    div_id_html(row.id, inner + icon_button_html(row.sub_id, Icon::Minus))
}

impl Row {
    /// Allocates the row's two element identifiers.
    pub fn new(gen: &mut Generator) -> (r: Row)
        requires
            old(gen).wf(),
            old(gen).can_issue(2),
        ensures
            r.id == Id(old(gen).next),
            r.sub_id == Id((old(gen).next + 1) as u64),
            final(gen).next == old(gen).next + 2,
            final(gen).wf(),
    {
        Row { id: gen.next(), sub_id: gen.next() }
    }

    /// Renders the row around its child editor.
    pub fn as_html(&self, editor: &FromStrEditor) -> (h: Html)
        ensures
            h@ == row_html(*self, editor.html_spec()),
    {
        let mut inner = editor.as_html();
        let button = icon_button(self.sub_id, Icon::Minus);
        inner.0.append(button.0.as_str());
        div_id(self.id, &inner)
    }

    /// Renders the add trigger shown where a new row can be created.
    pub fn add_button(id: Id) -> (h: Html)
        ensures
            h@ == icon_button_html(id, Icon::Plus),
    {
        icon_button(id, Icon::Plus)
    }
}

/// Index of the first row whose remove trigger is `id`, scanning from `i`.
pub open spec fn first_row_from(rows: Seq<Row>, id: Id, i: int) -> Option<int>
    decreases rows.len() - i,
{
    if i < 0 || i >= rows.len() {
        None
    } else if rows[i].sub_id == id {
        Some(i)
    } else {
        first_row_from(rows, id, i + 1)
    }
}

/// Index of the first child editor that claims the event, scanning from `i`.
pub open spec fn first_claim_from(editors: Seq<FromStrEditor>, ev: Event, i: int) -> Option<int>
    decreases editors.len() - i,
{
    if i < 0 || i >= editors.len() {
        None
    } else if editors[i].claims(ev) {
        Some(i)
    } else {
        first_claim_from(editors, ev, i + 1)
    }
}

/// A scan finds no claiming child when no child claims the event.
pub proof fn lemma_no_claim(editors: Seq<FromStrEditor>, ev: Event, i: int)
    requires
        forall|j: int| i <= j < editors.len() ==> !(#[trigger] editors[j].claims(ev)),
    ensures
        first_claim_from(editors, ev, i) is None,
    decreases editors.len() - i,
{
    if 0 <= i < editors.len() {
        lemma_no_claim(editors, ev, i + 1);
    }
}

/// An editor over a growing and shrinking sequence of child editors.
///
/// It owns the group container listing the rows, one add trigger, and per
/// row a child editor plus the row bookkeeping. A press on the add trigger
/// appends a fresh row; a press on a row's remove trigger deletes exactly
/// that row; every other event is routed to the first child that claims it.
#[derive(Debug, PartialEq, Eq, Hash)]
pub struct VecEditor {
    /// The container listing all rows.
    pub group_id: Id,
    /// The add trigger.
    pub add_id: Id,
    /// Bookkeeping of each row, aligned with `editors`.
    pub choices: Vec<Row>,
    /// The child editors, in row order.
    pub editors: Vec<FromStrEditor>,
    /// The editor every new row starts from.
    pub template: FromStrEditor,
}

impl VecEditor {
    /// The row container identifier of row `i`.
    pub open spec fn rid(self, i: int) -> u64 {
        self.choices@[i].id.0
    }

    /// The remove trigger identifier of row `i`.
    pub open spec fn sid(self, i: int) -> u64 {
        self.choices@[i].sub_id.0
    }

    /// The child editor identifier of row `i`.
    pub open spec fn eid(self, i: int) -> u64 {
        self.editors@[i].id.0
    }

    /// The three identifiers of row `i` are valid, mutually distinct, and
    /// distinct from the group and add identifiers.
    pub open spec fn triple_ok(self, i: int) -> bool {
        &&& self.rid(i) != 0 && self.sid(i) != 0 && self.eid(i) != 0
        &&& self.rid(i) != self.sid(i) && self.rid(i) != self.eid(i) && self.sid(i) != self.eid(i)
        &&& self.rid(i) != self.group_id.0 && self.rid(i) != self.add_id.0
        &&& self.sid(i) != self.group_id.0 && self.sid(i) != self.add_id.0
        &&& self.eid(i) != self.group_id.0 && self.eid(i) != self.add_id.0
    }

    /// No identifier of row `i` collides with one of row `j`.
    pub open spec fn triples_disjoint(self, i: int, j: int) -> bool {
        &&& self.rid(i) != self.rid(j) && self.rid(i) != self.sid(j) && self.rid(i) != self.eid(j)
        &&& self.sid(i) != self.rid(j) && self.sid(i) != self.sid(j) && self.sid(i) != self.eid(j)
        &&& self.eid(i) != self.rid(j) && self.eid(i) != self.sid(j) && self.eid(i) != self.eid(j)
    }

    /// Structural invariant: rows and editors are aligned, and no two live
    /// elements share an identifier.
    pub open spec fn wf(self) -> bool {
        &&& self.choices.len() == self.editors.len()
        &&& self.group_id.0 != 0 && self.add_id.0 != 0 && self.group_id != self.add_id
        &&& forall|i: int| 0 <= i < self.choices.len() ==> #[trigger] self.triple_ok(i)
        &&& forall|i: int, j: int|
            0 <= i < self.choices.len() && 0 <= j < self.choices.len() && i != j
                ==> #[trigger] self.triples_disjoint(i, j)
    }

    /// Every owned identifier was allocated below `b`.
    pub open spec fn below(self, b: u64) -> bool {
        &&& self.group_id.0 < b && self.add_id.0 < b
        &&& forall|i: int|
            0 <= i < self.choices.len() ==> (#[trigger] self.rid(i)) < b && self.sid(i) < b
                && self.eid(i) < b
    }

    /// The event presses this editor's add trigger.
    pub open spec fn claims_add(self, ev: Event) -> bool {
        match ev {
            Event::Press { id } => id == self.add_id,
            _ => false,
        }
    }

    /// The first row whose remove trigger the event presses, if any.
    pub open spec fn removal_index(self, ev: Event) -> Option<int> {
        match ev {
            Event::Press { id } => first_row_from(self.choices@, id, 0),
            _ => None,
        }
    }

    /// Exact effect of one routed event. A press on the add trigger
    /// appends one fresh child and one fresh row (three new identifiers, in
    /// allocation order) and reports `Append` on the group container. A
    /// press on the remove trigger of row `i` deletes exactly row `i` and
    /// its bookkeeping and reports `Remove` on that row's container; the
    /// surviving rows keep their identifiers. Any other event reaches the
    /// first child that claims it and changes nothing else; an event
    /// nobody claims changes nothing and yields no feedback.
    pub open spec fn event_ens(
        pre: VecEditor,
        post: VecEditor,
        ev: Event,
        g0: Generator,
        g1: Generator,
        r: Option<Feedback>,
    ) -> bool {
        if pre.claims_add(ev) {
            let c = g0.next;
            &&& post.editors@ == pre.editors@.push(
                FromStrEditor { id: Id(c), value: pre.template.value },
            )
            &&& post.choices@ == pre.choices@.push(Row { id: Id((c + 1) as u64), sub_id: Id((c + 2) as u64) })
            &&& post.group_id == pre.group_id && post.add_id == pre.add_id && post.template
                == pre.template
            &&& g1.next == g0.next + 3
            &&& r matches Some(f) && f matches Feedback::Append { id, html } && id == pre.group_id
                && html@ == row_html(
                Row { id: Id((c + 1) as u64), sub_id: Id((c + 2) as u64) },
                (FromStrEditor { id: Id(c), value: pre.template.value }).html_spec(),
            )
        } else if pre.removal_index(ev) is Some {
            let i = pre.removal_index(ev)->Some_0;
            &&& post.choices@ == pre.choices@.remove(i)
            &&& post.editors@ == pre.editors@.remove(i)
            &&& post.group_id == pre.group_id && post.add_id == pre.add_id && post.template
                == pre.template
            &&& g1 == g0
            &&& r == Some(Feedback::Remove { id: pre.choices@[i].id })
        } else if first_claim_from(pre.editors@, ev, 0) is Some {
            let i = first_claim_from(pre.editors@, ev, 0)->Some_0;
            &&& post.editors@.len() == pre.editors@.len()
            &&& FromStrEditor::event_ens(pre.editors@[i], post.editors@[i], ev, r)
            &&& post.editors@ == pre.editors@.update(i, post.editors@[i])
            &&& post.choices == pre.choices && post.group_id == pre.group_id && post.add_id
                == pre.add_id && post.template == pre.template
            &&& g1 == g0
        } else {
            post == pre && g1 == g0 && r is None
        }
    }

    /// Markup of the whole list: the rows inside the group container,
    /// followed by the add trigger, inside an anonymous wrapper.
    pub open spec fn rows_html(self, k: int) -> Seq<char>
        decreases k,
    {
        if k <= 0 {
            Seq::empty()
        } else {
            self.rows_html(k - 1) + row_html(self.choices@[k - 1], self.editors@[k - 1].html_spec())
        }
    }

    pub open spec fn html_spec(self) -> Seq<char> {
        div_html(
            div_id_html(self.group_id, self.rows_html(self.choices@.len() as int)) + icon_button_html(
                self.add_id,
                Icon::Plus,
            ),
        )
    }

    pub fn new(editor: FromStrEditor) -> (r: VecEditor)
        ensures
            r.group_id == Id(0u64),
            r.add_id == Id(0u64),
            r.choices@ =~= Seq::<Row>::empty(),
            r.editors@ =~= Seq::<FromStrEditor>::empty(),
            r.template == editor,
    {
        VecEditor {
            group_id: Id(0),
            add_id: Id(0),
            choices: Vec::new(),
            editors: Vec::new(),
            template: editor,
        }
    }

    /// Allocates the group and add identifiers, then one child and one row
    /// per initial value, all in allocation order.
    pub fn start(&mut self, value: Option<Vec<i64>>, gen: &mut Generator)
        requires
            old(gen).wf(),
            old(gen).next + 2 + 3 * (match value {
                Some(v) => v@.len() as int,
                None => 0int,
            }) <= u64::MAX,
        ensures
            final(gen).wf(),
            final(self).wf(),
            final(self).below(final(gen).next),
            final(self).group_id == Id(old(gen).next),
            final(self).add_id == Id((old(gen).next + 1) as u64),
            final(self).template == old(self).template,
            final(self).editors@.len() == (match value {
                Some(v) => v@.len(),
                None => 0nat,
            }),
            final(self).choices@.len() == final(self).editors@.len(),
            (match value {
                Some(v) => forall|i: int|
                    0 <= i < v@.len() ==> (#[trigger] final(self).editors@[i]).value == Some(v@[i]),
                None => true,
            }),
            forall|i: int|
                0 <= i < final(self).editors@.len() ==> (#[trigger] final(self).editors@[i]).id
                    == Id((old(gen).next + 2 + i) as u64),
            forall|i: int|
                0 <= i < final(self).choices@.len() ==> (#[trigger] final(self).choices@[i]).id
                    == Id((old(gen).next + 2 + final(self).editors@.len() + 2 * i) as u64)
                    && final(self).choices@[i].sub_id == Id(
                    (old(gen).next + 3 + final(self).editors@.len() + 2 * i) as u64,
                ),
            final(gen).next == old(gen).next + 2 + 3 * final(self).editors@.len(),
    {
        self.group_id = gen.next();
        self.add_id = gen.next();
        let ghost g2 = gen.next;
        let mut editors: Vec<FromStrEditor> = Vec::new();
        match value {
            Some(vals) => {
                let mut i: usize = 0;
                while i < vals.len()
                    invariant
                        i <= vals.len(),
                        editors@.len() == i as int,
                        gen.wf(),
                        gen.next == g2 + i,
                        g2 + vals@.len() + 2 * vals@.len() <= u64::MAX,
                        forall|j: int|
                            0 <= j < i ==> (#[trigger] editors@[j]).id == Id((g2 + j) as u64)
                                && editors@[j].value == Some(vals@[j]),
                    decreases vals.len() - i,
                {
                    let mut e = self.template;
                    e.write(vals[i]);
                    e.start(gen);
                    editors.push(e);
                    i = i + 1;
                }
            },
            None => {},
        }
        let n = editors.len();
        let ghost g3 = gen.next;
        let mut choices: Vec<Row> = Vec::new();
        let mut i: usize = 0;
        while i < n
            invariant
                i <= n,
                choices@.len() == i as int,
                gen.wf(),
                gen.next == g3 + 2 * i,
                g3 + 2 * n <= u64::MAX,
                forall|j: int|
                    0 <= j < i ==> (#[trigger] choices@[j]).id == Id((g3 + 2 * j) as u64)
                        && choices@[j].sub_id == Id((g3 + 2 * j + 1) as u64),
            decreases n - i,
        {
            let row = Row::new(gen);
            choices.push(row);
            i = i + 1;
        }
        self.editors = editors;
        self.choices = choices;
        proof {
            assert forall|i: int| 0 <= i < self.choices.len() implies #[trigger] self.triple_ok(
                i,
            ) by {}
            assert forall|i: int, j: int|
                0 <= i < self.choices.len() && 0 <= j < self.choices.len() && i != j
                    implies #[trigger] self.triples_disjoint(i, j) by {}
        }
    }

    /// Routes one event, per [`VecEditor::event_ens`]. Bookkeeping and
    /// feedback change together: no later event can observe a half-updated
    /// row table.
    pub fn on_event(&mut self, event: &Event, gen: &mut Generator) -> (r: Option<Feedback>)
        requires
            old(self).wf(),
            old(self).below(old(gen).next),
            old(gen).wf(),
            old(gen).can_issue(3),
        ensures
            VecEditor::event_ens(*old(self), *final(self), *event, *old(gen), *final(gen), r),
            final(self).wf(),
            final(self).below(final(gen).next),
            final(gen).wf(),
            final(gen).next >= old(gen).next,
    {
        match event {
            Event::Press { id } => {
                if *id == self.add_id {
                    let mut editor = self.template;
                    editor.start(gen);
                    let row = Row::new(gen);
                    let html = row.as_html(&editor);
                    self.editors.push(editor);
                    self.choices.push(row);
                    proof {
                        assert forall|i: int| 0 <= i < self.choices.len()
                            implies #[trigger] self.triple_ok(i) by {
                            if i < self.choices.len() - 1 {
                                assert(old(self).triple_ok(i));
                            }
                        }
                        assert forall|i: int, j: int|
                            0 <= i < self.choices.len() && 0 <= j < self.choices.len() && i != j
                                implies #[trigger] self.triples_disjoint(i, j) by {
                            if i < self.choices.len() - 1 && j < self.choices.len() - 1 {
                                assert(old(self).triples_disjoint(i, j));
                            } else if i < self.choices.len() - 1 {
                                assert(old(self).triple_ok(i));
                            } else if j < self.choices.len() - 1 {
                                assert(old(self).triple_ok(j));
                            }
                        }
                        assert forall|k: int| 0 <= k < self.choices.len()
                            implies (#[trigger] self.rid(k)) < gen.next && self.sid(k) < gen.next
                            && self.eid(k) < gen.next by {
                            if k < self.choices.len() - 1 {
                                assert(old(self).rid(k) < old(gen).next);
                            }
                        }
                    }
                    Some(Feedback::Append { id: self.group_id, html })
                } else {
                    let ghost t = Event::Press { id: *id }.target();
                    let mut i: usize = 0;
                    let n = self.choices.len();
                    while i < n
                        invariant
                            i <= n,
                            n == self.choices.len(),
                            first_row_from(self.choices@, t, 0) == first_row_from(
                                self.choices@,
                                t,
                                i as int,
                            ),
                            *self == *old(self),
                            *event == (Event::Press { id: *id }),
                            t == *id,
                            *id != old(self).add_id,
                            old(self).wf(),
                            old(self).below(old(gen).next),
                            old(gen).wf(),
                            *gen == *old(gen),
                        decreases n - i,
                    {
                        if self.choices[i].sub_id == *id {
                            proof {
                                assert(first_row_from(self.choices@, t, i as int) == Some(i as int));
                                assert(old(self).choices.len() == old(self).editors.len());
                            }
                            let row = self.choices.remove(i);
                            self.editors.remove(i);
                            proof {
                                old(self).choices@.remove_ensures(i as int);
                                old(self).editors@.remove_ensures(i as int);
                                assert forall|k: int| 0 <= k < self.choices.len()
                                    implies #[trigger] self.triple_ok(k) by {
                                    if k < i {
                                        assert(old(self).triple_ok(k));
                                        assert(self.choices@[k] == old(self).choices@[k]);
                                        assert(self.editors@[k] == old(self).editors@[k]);
                                    } else {
                                        assert(old(self).triple_ok(k + 1));
                                        assert(self.choices@[k] == old(self).choices@[k + 1]);
                                        assert(self.editors@[k] == old(self).editors@[k + 1]);
                                    }
                                }
                                assert forall|k: int, l: int|
                                    0 <= k < self.choices.len() && 0 <= l < self.choices.len() && k
                                        != l implies #[trigger] self.triples_disjoint(k, l) by {
                                    let k0 = if k < i {
                                        k
                                    } else {
                                        k + 1
                                    };
                                    let l0 = if l < i {
                                        l
                                    } else {
                                        l + 1
                                    };
                                    assert(old(self).triples_disjoint(k0, l0));
                                    assert(self.choices@[k] == old(self).choices@[k0]);
                                    assert(self.editors@[k] == old(self).editors@[k0]);
                                    assert(self.choices@[l] == old(self).choices@[l0]);
                                    assert(self.editors@[l] == old(self).editors@[l0]);
                                }
                                assert forall|k: int| 0 <= k < self.choices.len()
                                    implies (#[trigger] self.rid(k)) < gen.next && self.sid(k)
                                    < gen.next && self.eid(k) < gen.next by {
                                    let k0 = if k < i {
                                        k
                                    } else {
                                        k + 1
                                    };
                                    assert(old(self).rid(k0) < old(gen).next);
                                    assert(self.choices@[k] == old(self).choices@[k0]);
                                    assert(self.editors@[k] == old(self).editors@[k0]);
                                }
                            }
                            return Some(Feedback::Remove { id: row.id });
                        }
                        proof {
                            assert(first_row_from(self.choices@, t, i as int) == first_row_from(
                                self.choices@,
                                t,
                                i + 1,
                            ));
                        }
                        i = i + 1;
                    }
                    proof {
                        assert(first_row_from(self.choices@, t, n as int) is None);
                        lemma_no_claim(self.editors@, *event, 0);
                    }
                    None
                }
            },
            Event::Update { .. } => {
                let mut i: usize = 0;
                let n = self.editors.len();
                while i < n
                    invariant
                        i <= n,
                        n == self.editors.len(),
                        first_claim_from(self.editors@, *event, 0) == first_claim_from(
                            self.editors@,
                            *event,
                            i as int,
                        ),
                        *self == *old(self),
                        *event matches Event::Update { .. },
                        old(self).wf(),
                        old(self).below(old(gen).next),
                        old(gen).wf(),
                        *gen == *old(gen),
                    decreases n - i,
                {
                    let mut e = self.editors[i];
                    let res = e.on_event(event, gen);
                    match res {
                        Some(f) => {
                            proof {
                                assert(old(self).editors@[i as int].claims(*event));
                                assert(first_claim_from(self.editors@, *event, i as int) == Some(
                                    i as int,
                                ));
                            }
                            self.editors[i] = e;
                            proof {
                                assert(self.editors@[i as int].id == old(
                                    self,
                                ).editors@[i as int].id);
                                assert forall|k: int| 0 <= k < self.choices.len()
                                    implies #[trigger] self.triple_ok(k) by {
                                    assert(old(self).triple_ok(k));
                                }
                                assert forall|k: int, l: int|
                                    0 <= k < self.choices.len() && 0 <= l < self.choices.len() && k
                                        != l implies #[trigger] self.triples_disjoint(k, l) by {
                                    assert(old(self).triples_disjoint(k, l));
                                }
                                assert forall|k: int| 0 <= k < self.choices.len()
                                    implies (#[trigger] self.rid(k)) < gen.next && self.sid(k)
                                    < gen.next && self.eid(k) < gen.next by {
                                    assert(old(self).rid(k) < old(gen).next);
                                }
                            }
                            return Some(f);
                        },
                        None => {
                            proof {
                                assert(!old(self).editors@[i as int].claims(*event));
                                assert(first_claim_from(self.editors@, *event, i as int)
                                    == first_claim_from(self.editors@, *event, i + 1));
                            }
                        },
                    }
                    i = i + 1;
                }
                proof {
                    assert(first_claim_from(self.editors@, *event, n as int) is None);
                }
                None
            },
        }
    }

    /// Collects every child's output, in row order; fails with the first
    /// child's error as soon as any child has no usable value.
    pub fn finish(&self) -> (r: Result<Vec<i64>, EditorError>)
        ensures
            (r matches Ok(v) ==> {
                &&& forall|i: int|
                    0 <= i < self.editors@.len() ==> (#[trigger] self.editors@[i].read_spec())
                        == Ok::<i64, EditorError>(v@[i])
                &&& v@.len() == self.editors@.len()
            }),
            (r is Err <==> exists|i: int|
                0 <= i < self.editors@.len() && (#[trigger] self.editors@[i].read_spec()) is Err),
            (r is Err ==> r == Err::<Vec<i64>, EditorError>(EditorError::Invalid)),
    {
        let mut out: Vec<i64> = Vec::new();
        let mut i: usize = 0;
        while i < self.editors.len()
            invariant
                i <= self.editors.len(),
                out@.len() == i as int,
                forall|j: int|
                    0 <= j < i ==> (#[trigger] self.editors@[j].read_spec()) == Ok::<
                        i64,
                        EditorError,
                    >(out@[j]),
            decreases self.editors.len() - i,
        {
            match self.editors[i].read() {
                Ok(v) => {
                    out.push(v);
                },
                Err(e) => {
                    return Err(e);
                },
            }
            i = i + 1;
        }
        Ok(out)
    }

    /// Renders the whole list; a pure function of its state.
    pub fn as_html(&self) -> (h: Html)
        requires
            self.choices.len() == self.editors.len(),
        ensures
            h@ == self.html_spec(),
    {
        let mut inner = String::new();
        let mut i: usize = 0;
        while i < self.choices.len()
            invariant
                i <= self.choices.len(),
                self.choices.len() == self.editors.len(),
                inner@ == self.rows_html(i as int),
            decreases self.choices.len() - i,
        {
            let row = self.choices[i].as_html(&self.editors[i]);
            inner.append(row.0.as_str());
            i = i + 1;
        }
        let group = div_id(self.group_id, &Html(inner));
        let button = Row::add_button(self.add_id);
        let mut both = group;
        both.0.append(button.0.as_str());
        div(&both)
    }
}

/// A found row index lies in range and names the pressed remove trigger.
pub proof fn lemma_first_row_found(rows: Seq<Row>, id: Id, i: int, j: int)
    requires
        first_row_from(rows, id, i) == Some(j),
        0 <= i,
    ensures
        i <= j < rows.len(),
        rows[j].sub_id == id,
    decreases rows.len() - i,
{
    if i < rows.len() && rows[i].sub_id != id {
        lemma_first_row_found(rows, id, i + 1, j);
    }
}

/// A found claiming child lies in range and claims the event.
pub proof fn lemma_first_claim_found(editors: Seq<FromStrEditor>, ev: Event, i: int, j: int)
    requires
        first_claim_from(editors, ev, i) == Some(j),
        0 <= i,
    ensures
        i <= j < editors.len(),
        editors[j].claims(ev),
    decreases editors.len() - i,
{
    if i < editors.len() && !editors[i].claims(ev) {
        lemma_first_claim_found(editors, ev, i + 1, j);
    }
}

/// List growth law: a press on the add trigger appends exactly one child
/// and one row, leaves every existing row and its identifiers untouched,
/// gives the new row identifiers distinct from all surviving ones, and
/// reports a single `Append` on the group container.
pub proof fn lemma_list_add(
    pre: VecEditor,
    post: VecEditor,
    ev: Event,
    g0: Generator,
    g1: Generator,
    r: Option<Feedback>,
)
    requires
        pre.wf(),
        pre.below(g0.next),
        VecEditor::event_ens(pre, post, ev, g0, g1, r),
        pre.claims_add(ev),
    ensures
        post.choices@.len() == pre.choices@.len() + 1,
        post.editors@.len() == pre.editors@.len() + 1,
        forall|i: int| 0 <= i < pre.choices@.len() ==> post.choices@[i] == pre.choices@[i],
        forall|i: int|
            0 <= i < post.choices@.len() - 1 ==> (#[trigger] post.rid(i)) != post.rid(
                post.choices@.len() - 1,
            ) && post.sid(i) != post.sid(post.choices@.len() - 1),
        r matches Some(f) && f matches Feedback::Append { id, .. } && id == pre.group_id,
{
    assert forall|i: int| 0 <= i < post.choices@.len() - 1 implies (#[trigger] post.rid(i))
        != post.rid(post.choices@.len() - 1) && post.sid(i) != post.sid(
        post.choices@.len() - 1,
    ) by {
        assert(pre.rid(i) < g0.next);
        assert(post.choices@[i] == pre.choices@[i]);
    }
}

/// One add-press, seen relationally: from a well-formed list whose
/// identifiers sit below the allocator, it appends exactly one child and
/// one row with three fresh identifiers, advances the allocator by three,
/// and preserves the structural invariant and the allocation bound.
pub proof fn lemma_add_step(
    pre: VecEditor,
    post: VecEditor,
    g0: Generator,
    g1: Generator,
    r: Option<Feedback>,
)
    requires
        pre.wf(),
        pre.below(g0.next),
        g0.wf(),
        g0.can_issue(3),
        VecEditor::event_ens(pre, post, Event::Press { id: pre.add_id }, g0, g1, r),
    ensures
        post.wf(),
        post.below(g1.next),
        g1.wf(),
        g1.next == g0.next + 3,
        post.choices@.len() == pre.choices@.len() + 1,
        post.editors@.len() == pre.editors@.len() + 1,
        forall|i: int| 0 <= i < pre.choices@.len() ==> post.choices@[i] == pre.choices@[i],
{
    let c = g0.next;
    assert(pre.claims_add(Event::Press { id: pre.add_id }));
    assert(post.editors@ == pre.editors@.push(
        FromStrEditor { id: Id(c), value: pre.template.value },
    ));
    assert(post.choices@ == pre.choices@.push(
        Row { id: Id((c + 1) as u64), sub_id: Id((c + 2) as u64) },
    ));
    assert forall|i: int| 0 <= i < post.choices.len() implies #[trigger] post.triple_ok(i) by {
        if i < post.choices.len() - 1 {
            assert(pre.triple_ok(i));
            assert(post.choices@[i] == pre.choices@[i]);
            assert(post.editors@[i] == pre.editors@[i]);
        }
    }
    assert forall|i: int, j: int|
        0 <= i < post.choices.len() && 0 <= j < post.choices.len() && i != j
            implies #[trigger] post.triples_disjoint(i, j) by {
        if i < post.choices.len() - 1 && j < post.choices.len() - 1 {
            assert(pre.triples_disjoint(i, j));
            assert(post.choices@[i] == pre.choices@[i]);
            assert(post.editors@[i] == pre.editors@[i]);
            assert(post.choices@[j] == pre.choices@[j]);
            assert(post.editors@[j] == pre.editors@[j]);
        } else if i < post.choices.len() - 1 {
            assert(pre.triple_ok(i));
            assert(pre.rid(i) < g0.next);
            assert(post.choices@[i] == pre.choices@[i]);
            assert(post.editors@[i] == pre.editors@[i]);
        } else if j < post.choices.len() - 1 {
            assert(pre.triple_ok(j));
            assert(pre.rid(j) < g0.next);
            assert(post.choices@[j] == pre.choices@[j]);
            assert(post.editors@[j] == pre.editors@[j]);
        }
    }
    assert forall|i: int| 0 <= i < post.choices.len() implies (#[trigger] post.rid(i)) < g1.next
        && post.sid(i) < g1.next && post.eid(i) < g1.next by {
        if i < post.choices.len() - 1 {
            assert(pre.rid(i) < g0.next);
            assert(post.choices@[i] == pre.choices@[i]);
            assert(post.editors@[i] == pre.editors@[i]);
        }
    }
}

/// Marks the intermediate state between two add-presses; used only to
/// guide instantiation.
pub open spec fn add_witness(em: VecEditor, gm: Generator, r: Option<Feedback>) -> bool {
    true
}

/// `e1` was reached from `e0` by exactly `k` presses of the add trigger,
/// the allocator moving from `g0` to `g1`.
pub open spec fn reached_by_adds(
    e0: VecEditor,
    g0: Generator,
    e1: VecEditor,
    g1: Generator,
    k: nat,
) -> bool
    decreases k,
{
    if k == 0 {
        e1 == e0 && g1 == g0
    } else {
        exists|em: VecEditor, gm: Generator, r: Option<Feedback>|
            {
                &&& #[trigger] add_witness(em, gm, r)
                &&& reached_by_adds(e0, g0, em, gm, (k - 1) as nat)
                &&& VecEditor::event_ens(em, e1, Event::Press { id: em.add_id }, gm, g1, r)
            }
    }
}

/// List growth law, k-fold: starting from a well-formed list with `n`
/// rows, `k` presses of the add trigger yield `n + k` children and
/// `n + k` rows, the first `n` rows untouched, and all row identifiers
/// (containers and remove triggers alike) pairwise distinct.
pub proof fn lemma_list_add_k(e0: VecEditor, g0: Generator, e1: VecEditor, g1: Generator, k: nat)
    requires
        e0.wf(),
        e0.below(g0.next),
        g0.wf(),
        g0.next + 3 * k <= u64::MAX,
        reached_by_adds(e0, g0, e1, g1, k),
    ensures
        e1.wf(),
        e1.below(g1.next),
        g1.wf(),
        g1.next == g0.next + 3 * k,
        e1.choices@.len() == e0.choices@.len() + k,
        e1.editors@.len() == e0.editors@.len() + k,
        forall|i: int| 0 <= i < e0.choices@.len() ==> e1.choices@[i] == e0.choices@[i],
        forall|i: int, j: int|
            0 <= i < j < e1.choices@.len() ==> e1.choices@[i].id != e1.choices@[j].id
                && e1.choices@[i].sub_id != e1.choices@[j].sub_id,
    decreases k,
{
    if k == 0 {
        assert forall|i: int, j: int|
            0 <= i < j < e1.choices@.len() implies e1.choices@[i].id != e1.choices@[j].id
            && e1.choices@[i].sub_id != e1.choices@[j].sub_id by {
            assert(e1.triples_disjoint(i, j));
        }
    } else {
        let (em, gm, r): (VecEditor, Generator, Option<Feedback>) = choose|
            em: VecEditor,
            gm: Generator,
            r: Option<Feedback>,
        |
            {
                &&& #[trigger] add_witness(em, gm, r)
                &&& reached_by_adds(e0, g0, em, gm, (k - 1) as nat)
                &&& VecEditor::event_ens(em, e1, Event::Press { id: em.add_id }, gm, g1, r)
            };
        lemma_list_add_k(e0, g0, em, gm, (k - 1) as nat);
        lemma_add_step(em, e1, gm, g1, r);
        assert forall|i: int| 0 <= i < e0.choices@.len() implies e1.choices@[i]
            == e0.choices@[i] by {
            assert(em.choices@[i] == e0.choices@[i]);
        }
        assert forall|i: int, j: int|
            0 <= i < j < e1.choices@.len() implies e1.choices@[i].id != e1.choices@[j].id
            && e1.choices@[i].sub_id != e1.choices@[j].sub_id by {
            assert(e1.triples_disjoint(i, j));
        }
    }
}

/// List removal law: a press on the remove trigger of row `i` removes
/// exactly that row and its bookkeeping, decreases the child count by one,
/// keeps every surviving row's identifiers unchanged (no renumbering), and
/// reports a single `Remove` on that row's container.
pub proof fn lemma_list_remove(
    pre: VecEditor,
    post: VecEditor,
    ev: Event,
    g0: Generator,
    g1: Generator,
    r: Option<Feedback>,
    i: int,
)
    requires
        pre.wf(),
        VecEditor::event_ens(pre, post, ev, g0, g1, r),
        !pre.claims_add(ev),
        pre.removal_index(ev) == Some(i),
    ensures
        0 <= i < pre.choices@.len(),
        post.choices@.len() == pre.choices@.len() - 1,
        post.editors@.len() == pre.editors@.len() - 1,
        forall|k: int| 0 <= k < i ==> post.choices@[k] == pre.choices@[k],
        forall|k: int|
            i <= k < post.choices@.len() ==> post.choices@[k] == pre.choices@[k + 1],
        r == Some(Feedback::Remove { id: pre.choices@[i].id }),
        g1 == g0,
{
    match ev {
        Event::Press { id } => {
            lemma_first_row_found(pre.choices@, id, 0, i);
        },
        _ => {
            assert(false);
        },
    }
    pre.choices@.remove_ensures(i);
    pre.editors@.remove_ensures(i);
}

/// Identifier stability law: an event that does not change the list's
/// structure leaves every owned identifier exactly as it was, so a
/// re-render addresses the same elements as the previous one.
pub proof fn lemma_list_ids_stable(
    pre: VecEditor,
    post: VecEditor,
    ev: Event,
    g0: Generator,
    g1: Generator,
    r: Option<Feedback>,
)
    requires
        VecEditor::event_ens(pre, post, ev, g0, g1, r),
        !pre.claims_add(ev),
        pre.removal_index(ev) is None,
    ensures
        post.choices == pre.choices,
        post.group_id == pre.group_id,
        post.add_id == pre.add_id,
        post.editors@.len() == pre.editors@.len(),
        forall|i: int|
            0 <= i < post.editors@.len() ==> (#[trigger] post.editors@[i]).id
                == pre.editors@[i].id,
{
    if first_claim_from(pre.editors@, ev, 0) is Some {
        let i = first_claim_from(pre.editors@, ev, 0)->Some_0;
        lemma_first_claim_found(pre.editors@, ev, 0, i);
        assert(post.editors@ == pre.editors@.update(i, post.editors@[i]));
        assert forall|k: int| 0 <= k < post.editors@.len() implies (#[trigger] post.editors@[k]).id
            == pre.editors@[k].id by {
            if k != i {
                assert(post.editors@[k] == pre.editors@[k]);
            }
        }
    }
}

/// An editor that toggles between absence and one child editor.
///
/// Disabled, it shows only an add trigger; enabling replaces the trigger
/// with a row holding the child editor and a remove trigger, and disabling
/// replaces the row with the trigger again. `finish` never fails on
/// absence: it yields `None` while disabled.
#[derive(Clone, Copy, Debug, PartialEq, Eq, Structural, Hash)]
pub struct OptionEditor {
    /// The row shown while a value is present.
    pub row: Row,
    /// The add trigger shown while no value is present.
    pub add_id: Id,
    /// The child editor behind the row.
    pub editor: FromStrEditor,
    /// True while this editor holds a value.
    pub enabled: bool,
}

impl OptionEditor {
    /// Structural invariant: the four owned identifiers are valid and
    /// mutually distinct.
    pub open spec fn wf(self) -> bool {
        &&& self.row.id.0 != 0 && self.row.sub_id.0 != 0 && self.add_id.0 != 0 && self.editor.id.0
            != 0
        &&& self.row.id != self.row.sub_id && self.row.id != self.add_id && self.row.id
            != self.editor.id
        &&& self.row.sub_id != self.add_id && self.row.sub_id != self.editor.id
        &&& self.add_id != self.editor.id
    }

    /// Every owned identifier was allocated below `b`.
    pub open spec fn below(self, b: u64) -> bool {
        self.row.id.0 < b && self.row.sub_id.0 < b && self.add_id.0 < b && self.editor.id.0 < b
    }

    /// What `finish` yields: the child's value while enabled, `None` while
    /// disabled, and the child's error only while enabled and unusable.
    pub open spec fn finish_spec(self) -> Result<Option<i64>, EditorError> {
        if self.enabled {
            match self.editor.read_spec() {
                Ok(v) => Ok(Some(v)),
                Err(e) => Err(e),
            }
        } else {
            Ok(None)
        }
    }

    /// Exact effect of one routed event. A press on the add trigger while
    /// disabled enables the editor and replaces the trigger with the row;
    /// a press on the remove trigger while enabled disables it and replaces
    /// the row with the trigger; while enabled, any other event reaches the
    /// child editor; everything else changes nothing.
    pub open spec fn event_ens(
        pre: OptionEditor,
        post: OptionEditor,
        ev: Event,
        r: Option<Feedback>,
    ) -> bool {
        if ev == (Event::Press { id: pre.add_id }) && !pre.enabled {
            &&& post == (OptionEditor { enabled: true, ..pre })
            &&& r matches Some(f) && f matches Feedback::Replace { id, html } && id == pre.add_id
                && html@ == row_html(pre.row, pre.editor.html_spec())
        } else if ev == (Event::Press { id: pre.row.sub_id }) && pre.enabled {
            &&& post == (OptionEditor { enabled: false, ..pre })
            &&& r matches Some(f) && f matches Feedback::Replace { id, html } && id == pre.row.id
                && html@ == icon_button_html(pre.add_id, Icon::Plus)
        } else if pre.enabled && pre.editor.claims(ev) {
            &&& FromStrEditor::event_ens(pre.editor, post.editor, ev, r)
            &&& post == (OptionEditor { editor: post.editor, ..pre })
        } else {
            post == pre && r is None
        }
    }

    /// The markup: the row while enabled, the add trigger otherwise.
    pub open spec fn html_spec(self) -> Seq<char> {
        if self.enabled {
            row_html(self.row, self.editor.html_spec())
        } else {
            icon_button_html(self.add_id, Icon::Plus)
        }
    }

    pub fn new(editor: FromStrEditor) -> (r: OptionEditor)
        ensures
            r == (OptionEditor {
                row: Row { id: Id(0u64), sub_id: Id(0u64) },
                add_id: Id(0u64),
                editor,
                enabled: false,
            }),
    {
        OptionEditor {
            row: Row { id: Id(0), sub_id: Id(0) },
            add_id: Id(0),
            editor,
            enabled: false,
        }
    }

    /// Allocates the row, the add trigger and the child's element, in that
    /// order, and primes the child from the initial value.
    pub fn start(&mut self, value: Option<Option<i64>>, gen: &mut Generator)
        requires
            old(gen).wf(),
            old(gen).can_issue(4),
        ensures
            final(gen).wf(),
            final(gen).next == old(gen).next + 4,
            final(self).wf(),
            final(self).below(final(gen).next),
            final(self).row.id == Id(old(gen).next),
            final(self).row.sub_id == Id((old(gen).next + 1) as u64),
            final(self).add_id == Id((old(gen).next + 2) as u64),
            final(self).editor.id == Id((old(gen).next + 3) as u64),
            final(self).enabled == (value is Some),
            final(self).editor.value == (match value {
                Some(inner) => inner,
                None => None,
            }),
    {
        self.row = Row::new(gen);
        self.add_id = gen.next();
        match value {
            Some(inner) => {
                self.enabled = true;
                self.editor.value = inner;
            },
            None => {
                self.enabled = false;
                self.editor.value = None;
            },
        }
        self.editor.start(gen);
    }

    /// Routes one event, per [`OptionEditor::event_ens`].
    pub fn on_event(&mut self, event: &Event, gen: &mut Generator) -> (r: Option<Feedback>)
        requires
            old(self).wf(),
        ensures
            OptionEditor::event_ens(*old(self), *final(self), *event, r),
            *final(gen) == *old(gen),
            final(self).wf(),
            forall|b: u64| old(self).below(b) ==> final(self).below(b),
    {
        match event {
            Event::Press { id } => {
                if *id == self.add_id && !self.enabled {
                    let html = self.row.as_html(&self.editor);
                    self.enabled = true;
                    Some(Feedback::Replace { id: self.add_id, html })
                } else if *id == self.row.sub_id && self.enabled {
                    let html = Row::add_button(self.add_id);
                    self.enabled = false;
                    Some(Feedback::Replace { id: self.row.id, html })
                } else {
                    None
                }
            },
            Event::Update { .. } => {
                if self.enabled {
                    let mut e = self.editor;
                    let res = e.on_event(event, gen);
                    self.editor = e;
                    res
                } else {
                    None
                }
            },
        }
    }

    /// Snapshot of the current output; never mutates state, never fails on
    /// absence.
    pub fn finish(&self) -> (r: Result<Option<i64>, EditorError>)
        ensures
            r == self.finish_spec(),
    {
        if self.enabled {
            match self.editor.read() {
                Ok(v) => Ok(Some(v)),
                Err(e) => Err(e),
            }
        } else {
            Ok(None)
        }
    }

    /// Renders the editor; a pure function of its state.
    pub fn as_html(&self) -> (h: Html)
        ensures
            h@ == self.html_spec(),
    {
        if self.enabled {
            self.row.as_html(&self.editor)
        } else {
            Row::add_button(self.add_id)
        }
    }
}

} // verus!
