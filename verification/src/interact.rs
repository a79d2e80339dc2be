use vstd::prelude::*;

use crate::convert::FromStrEditor;
use crate::editor::{AnyEditor, EditorError};
use crate::event::{Event, Feedback};
use crate::html::Html;
use crate::id::{Generator, Id};
use crate::share::{find_cell, matching, ShareRegistry};
use crate::task_value::TaskValue;
use crate::value::{Value, ValueV};
use crate::view::view_html;

verus! {

/// Basic interaction task: one editor, optionally bound to a share whose
/// cell it updates on every accepted input.
#[derive(Debug, PartialEq, Eq, Hash)]
pub struct Interact {
    pub editor: AnyEditor,
    pub share: Option<Id>,
}

/// Have the user enter a number, starting empty.
pub fn enter() -> (r: Interact)
    ensures
        r == (Interact {
            editor: AnyEditor::Value(FromStrEditor { id: Id(0u64), value: None }),
            share: None,
        }),
{
    Interact { editor: AnyEditor::Value(FromStrEditor::new()), share: None }
}

/// Have the user update a value.
pub fn edit(value: i64) -> (r: Interact)
    ensures
        r == (Interact {
            editor: AnyEditor::Value(FromStrEditor { id: Id(0u64), value: Some(value) }),
            share: None,
        }),
{
    let mut e = FromStrEditor::new();
    e.write(value);
    Interact { editor: AnyEditor::Value(e), share: None }
}

/// Have the user enter a value through a custom editor.
pub fn edit_with(editor: AnyEditor) -> (r: Interact)
    ensures
        r == (Interact { editor, share: None }),
{
    Interact { editor, share: None }
}

/// Have the user edit a value bound to an existing share: every accepted
/// input is written through the share, refreshing its viewers.
pub fn edit_shared(share: Id) -> (r: Interact)
    ensures
        r == (Interact {
            editor: AnyEditor::Value(FromStrEditor { id: Id(0u64), value: None }),
            share: Some(share),
        }),
{
    Interact { editor: AnyEditor::Value(FromStrEditor::new()), share: Some(share) }
}

/// The first instruction of a feedback stream, if any.
pub open spec fn head_feedback(out: Seq<Feedback>) -> Option<Feedback> {
    if out.len() == 0 {
        None
    } else {
        Some(out[0])
    }
}

/// What the task's value reads as: the editor's output, still unstable,
/// or `Empty` while the editor has no usable value.
pub open spec fn interact_value_of(t: Interact) -> TaskValue<ValueV> {
    match t.editor.finish_view() {
        Ok(v) => TaskValue::Unstable(v),
        Err(_) => TaskValue::Empty,
    }
}

/// Exact effect of routing one event into an interaction task: the editor
/// handles the event; when it accepts a new value and a share is bound and
/// known, the cell is updated to the unstable new value and every bound
/// viewer gets its refresh instruction after the editor's own feedback.
pub open spec fn interact_event_ens(
    pre: Interact,
    post: Interact,
    ev: Event,
    g0: Generator,
    g1: Generator,
    reg0: ShareRegistry,
    reg1: ShareRegistry,
    r: Result<Vec<Feedback>, crate::task::TaskError>,
) -> bool {
    &&& post.share == pre.share
    &&& r is Ok
    &&& {
        let out = r->Ok_0@;
        &&& AnyEditor::event_ens(pre.editor, post.editor, ev, g0, g1, head_feedback(out))
        &&& if out.len() == 0 {
            reg1 == reg0
        } else {
            let wrote = out[0] matches Feedback::Valid { .. } && pre.share is Some
                && post.editor.finish_view() is Ok && find_cell(
                reg0.cells@,
                pre.share->Some_0,
                0,
            ) is Some;
            if wrote {
                let s = pre.share->Some_0;
                let val = post.editor.finish_view()->Ok_0;
                let m = matching(reg0.viewers@, s);
                &&& reg1.viewers == reg0.viewers
                &&& reg1.value_of(s) == TaskValue::<ValueV>::Unstable(val)
                &&& out.len() == 1 + m.len()
                &&& forall|k: int|
                    0 <= k < m.len() ==> ((#[trigger] out[1 + k]) matches Feedback::Replace {
                        id,
                        html,
                    } && id == m[k].element && html@ == view_html(
                        m[k].element,
                        m[k].color,
                        TaskValue::Unstable(val),
                    ))
            } else {
                reg1 == reg0 && out.len() == 1
            }
        }
    }
}

impl Interact {
    /// Allocates the editor's elements; the share binding is untouched.
    pub fn start(&mut self, gen: &mut Generator, reg: &mut ShareRegistry)
        requires
            old(gen).wf(),
            old(gen).next + old(self).editor.start_needs() <= u64::MAX,
        ensures
            final(gen).wf(),
            final(gen).next == old(gen).next + old(self).editor.start_needs(),
            final(self).editor.wf(),
            final(self).editor.below(final(gen).next),
            final(self).share == old(self).share,
            AnyEditor::start_ens(old(self).editor, final(self).editor, *old(gen)),
            *final(reg) == *old(reg),
    {
        self.editor.start(gen);
    }

    /// Routes one event, per [`interact_event_ens`].
    pub fn on_event(&mut self, event: &Event, gen: &mut Generator, reg: &mut ShareRegistry) -> (r:
        Result<Vec<Feedback>, crate::task::TaskError>)
        requires
            old(self).editor.wf(),
            old(self).editor.below(old(gen).next),
            old(gen).wf(),
            old(gen).can_issue(3),
            old(reg).wf(),
        ensures
            interact_event_ens(
                *old(self),
                *final(self),
                *event,
                *old(gen),
                *final(gen),
                *old(reg),
                *final(reg),
                r,
            ),
            final(self).editor.wf(),
            final(self).editor.below(final(gen).next),
            final(gen).wf(),
            final(gen).next >= old(gen).next,
            final(gen).next <= old(gen).next + 3,
            final(reg).wf(),
            final(reg).viewers == old(reg).viewers,
            forall|b: u64| old(reg).below(b) ==> final(reg).below(b),
    {
        let fb = self.editor.on_event(event, gen);
        match fb {
            None => Ok(Vec::new()),
            Some(f) => {
                let is_valid = match &f {
                    Feedback::Valid { .. } => true,
                    _ => false,
                };
                let mut out: Vec<Feedback> = Vec::new();
                out.push(f);
                if is_valid {
                    match self.share {
                        Some(s) => {
                            match self.editor.finish() {
                                Ok(v) => {
                                    let mut extra = reg.write(s, TaskValue::Unstable(v));
                                    out.append(&mut extra);
                                },
                                Err(_) => {},
                            }
                        },
                        None => {},
                    }
                }
                Ok(out)
            },
        }
    }

    /// Snapshot of the task's current value; never blocks, never fails.
    pub fn value(&self) -> (r: TaskValue<Value>)
        ensures
            crate::value::tv_view(r) == interact_value_of(*self),
    {
        match self.editor.finish() {
            Ok(v) => TaskValue::Unstable(v),
            Err(_) => TaskValue::Empty,
        }
    }

    /// Renders the task's element tree; a pure function of editor state.
    pub fn to_repr(&self) -> (h: Html)
        requires
            self.editor.wf(),
        ensures
            h@ == self.editor.html_spec(),
    {
        self.editor.as_html()
    }
}

} // verus!
