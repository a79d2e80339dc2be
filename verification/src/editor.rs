use vstd::prelude::*;

use crate::choice::ChoiceEditor;
use crate::container::{OptionEditor, VecEditor};
use crate::convert::FromStrEditor;
use crate::event::{Event, Feedback};
use crate::html::Html;
use crate::id::{Generator, Id};
use crate::value::{Value, ValueV};

verus! {

/// Common error type of the editors.
///
/// `Invalid` reports that the editor's current state holds no usable value:
/// an unparsable or absent input, or a selection that does not resolve.
#[derive(Clone, Copy, Debug, PartialEq, Eq, Structural, Hash)]
pub enum EditorError {
    Invalid,
}

impl crate::html::ToRepr for Result<Value, EditorError> {
    open spec fn repr(&self) -> Seq<char> {
        match *self {
            Ok(v) => crate::html::value_repr(v@),
            Err(_) => Seq::empty(),
        }
    }

    fn to_repr(&self) -> (r: Html) {
        match self {
            Ok(v) => crate::html::value_to_repr(v),
            Err(_) => Html(String::new()),
        }
    }
}

/// The capability interface every editor offers: allocate identifiers on
/// start, route user events, and snapshot the current output.
pub trait Editor {
    /// The type of data this editor produces.
    type Output;

    /// How many identifiers `start` allocates.
    spec fn needs(&self) -> int;

    /// The editor is started and consistent with the allocator: every
    /// owned identifier is valid, distinct, and was issued before `gen`'s
    /// next one.
    spec fn ready(&self, gen: Generator) -> bool;

    /// Allocates identifiers for every element the editor owns; called
    /// once per editor instance.
    fn start(&mut self, gen: &mut Generator)
        requires
            old(gen).wf(),
            0 <= old(self).needs(),
            old(gen).next + old(self).needs() <= u64::MAX,
    ;

    /// Reacts to one user interaction event, yielding feedback only when
    /// the event addresses an element this editor owns.
    fn on_event(&mut self, event: &Event, gen: &mut Generator) -> Option<Feedback>
        requires
            old(self).ready(*old(gen)),
            old(gen).wf(),
            old(gen).can_issue(3),
    ;

    /// Snapshot of the editor's current output; never mutates state.
    fn finish(&self) -> Result<Self::Output, EditorError>;
}

/// The closed set of editors, behind one capability interface: start,
/// route an event, snapshot the output, render.
#[derive(Debug, PartialEq, Eq, Hash)]
pub enum AnyEditor {
    Value(FromStrEditor),
    Choice(ChoiceEditor),
    List(VecEditor),
    Optional(OptionEditor),
}

impl Editor for FromStrEditor {
    type Output = i64;

    open spec fn needs(&self) -> int {
        1
    }

    open spec fn ready(&self, gen: Generator) -> bool {
        self.id.0 != 0 && self.id.0 < gen.next
    }

    fn start(&mut self, gen: &mut Generator)
        ensures
            *final(self) == (FromStrEditor { id: Id(old(gen).next), ..*old(self) }),
            final(gen).next == old(gen).next + 1,
            final(gen).wf(),
    {
        FromStrEditor::start(self, gen)
    }

    fn on_event(&mut self, event: &Event, gen: &mut Generator) -> (r: Option<Feedback>)
        ensures
            FromStrEditor::event_ens(*old(self), *final(self), *event, r),
    {
        FromStrEditor::on_event(self, event, gen)
    }

    fn finish(&self) -> (r: Result<i64, EditorError>)
        ensures
            r == self.read_spec(),
    {
        FromStrEditor::finish(self)
    }
}

impl Editor for ChoiceEditor {
    type Output = String;

    open spec fn needs(&self) -> int {
        1
    }

    open spec fn ready(&self, gen: Generator) -> bool {
        self.id.0 != 0 && self.id.0 < gen.next
    }

    fn start(&mut self, gen: &mut Generator)
        ensures
            final(self).id == Id(old(gen).next),
            final(self).choices == old(self).choices,
            final(self).choice == old(self).choice,
            final(gen).next == old(gen).next + 1,
            final(gen).wf(),
    {
        let c = self.choice;
        ChoiceEditor::start(self, c, gen)
    }

    fn on_event(&mut self, event: &Event, gen: &mut Generator) -> (r: Option<Feedback>)
        ensures
            ChoiceEditor::event_ens(*old(self), *final(self), *event, r),
    {
        ChoiceEditor::on_event(self, event, gen)
    }

    fn finish(&self) -> (r: Result<String, EditorError>)
        ensures
            r == self.finish_spec(),
    {
        ChoiceEditor::finish(self)
    }
}

impl Editor for VecEditor {
    type Output = Vec<i64>;

    open spec fn needs(&self) -> int {
        2
    }

    open spec fn ready(&self, gen: Generator) -> bool {
        self.wf() && self.below(gen.next)
    }

    fn start(&mut self, gen: &mut Generator)
        ensures
            final(self).wf(),
            final(self).below(final(gen).next),
            final(self).group_id == Id(old(gen).next),
            final(self).add_id == Id((old(gen).next + 1) as u64),
            final(self).template == old(self).template,
            final(self).editors@.len() == 0,
            final(self).choices@.len() == 0,
            final(gen).next == old(gen).next + 2,
            final(gen).wf(),
    {
        VecEditor::start(self, None, gen)
    }

    fn on_event(&mut self, event: &Event, gen: &mut Generator) -> (r: Option<Feedback>)
        ensures
            VecEditor::event_ens(*old(self), *final(self), *event, *old(gen), *final(gen), r),
            final(self).wf(),
            final(self).below(final(gen).next),
            final(gen).wf(),
    {
        VecEditor::on_event(self, event, gen)
    }

    fn finish(&self) -> (r: Result<Vec<i64>, EditorError>)
        ensures
            (r matches Ok(v) ==> {
                &&& forall|i: int|
                    0 <= i < self.editors@.len() ==> (#[trigger] self.editors@[i].read_spec())
                        == Ok::<i64, EditorError>(v@[i])
                &&& v@.len() == self.editors@.len()
            }),
            (r is Err <==> exists|i: int|
                0 <= i < self.editors@.len() && (#[trigger] self.editors@[i].read_spec()) is Err),
            (r is Err ==> r == Err::<Vec<i64>, EditorError>(EditorError::Invalid)),
    {
        VecEditor::finish(self)
    }
}

impl Editor for OptionEditor {
    type Output = Option<i64>;

    open spec fn needs(&self) -> int {
        4
    }

    open spec fn ready(&self, gen: Generator) -> bool {
        self.wf() && self.below(gen.next)
    }

    fn start(&mut self, gen: &mut Generator)
        ensures
            final(self).wf(),
            final(self).below(final(gen).next),
            final(self).enabled == false,
            final(gen).next == old(gen).next + 4,
            final(gen).wf(),
    {
        OptionEditor::start(self, None, gen)
    }

    fn on_event(&mut self, event: &Event, gen: &mut Generator) -> (r: Option<Feedback>)
        ensures
            OptionEditor::event_ens(*old(self), *final(self), *event, r),
            final(self).wf(),
    {
        OptionEditor::on_event(self, event, gen)
    }

    fn finish(&self) -> (r: Result<Option<i64>, EditorError>)
        ensures
            r == self.finish_spec(),
    {
        OptionEditor::finish(self)
    }
}

/// What a list editor's collected output denotes: the children's values in
/// row order, or the first error while any child has no usable value.
pub open spec fn list_finish_view(l: VecEditor) -> Result<ValueV, EditorError> {
    if forall|i: int|
        0 <= i < l.editors@.len() ==> (#[trigger] l.editors@[i].read_spec()) is Ok {
        Ok(
            ValueV::List(
                Seq::new(l.editors@.len(), |i: int| l.editors@[i].read_spec()->Ok_0 as int),
            ),
        )
    } else {
        Err(EditorError::Invalid)
    }
}

impl AnyEditor {
    /// How many identifiers `start` allocates.
    pub open spec fn start_needs(self) -> int {
        match self {
            AnyEditor::Value(_) => 1,
            AnyEditor::Choice(_) => 1,
            AnyEditor::List(_) => 2,
            AnyEditor::Optional(_) => 4,
        }
    }

    /// Structural invariant of the started editor.
    pub open spec fn wf(self) -> bool {
        match self {
            AnyEditor::Value(e) => e.id.0 != 0,
            AnyEditor::Choice(e) => e.id.0 != 0,
            AnyEditor::List(e) => e.wf(),
            AnyEditor::Optional(e) => e.wf(),
        }
    }

    /// Every owned identifier was allocated below `b`.
    pub open spec fn below(self, b: u64) -> bool {
        match self {
            AnyEditor::Value(e) => e.id.0 < b,
            AnyEditor::Choice(e) => e.id.0 < b,
            AnyEditor::List(e) => e.below(b),
            AnyEditor::Optional(e) => e.below(b),
        }
    }

    /// Exact effect of one routed event: the wrapped editor's own effect,
    /// with the allocator untouched except by a list growing.
    pub open spec fn event_ens(
        pre: AnyEditor,
        post: AnyEditor,
        ev: Event,
        g0: Generator,
        g1: Generator,
        r: Option<Feedback>,
    ) -> bool {
        match (pre, post) {
            (AnyEditor::Value(a), AnyEditor::Value(b)) => FromStrEditor::event_ens(a, b, ev, r)
                && g1 == g0,
            (AnyEditor::Choice(a), AnyEditor::Choice(b)) => ChoiceEditor::event_ens(a, b, ev, r)
                && g1 == g0,
            (AnyEditor::List(a), AnyEditor::List(b)) => VecEditor::event_ens(a, b, ev, g0, g1, r),
            (AnyEditor::Optional(a), AnyEditor::Optional(b)) => OptionEditor::event_ens(
                a,
                b,
                ev,
                r,
            ) && g1 == g0,
            _ => false,
        }
    }

    /// What `finish` yields, as an abstract value.
    pub open spec fn finish_view(self) -> Result<ValueV, EditorError> {
        match self {
            AnyEditor::Value(e) => match e.read_spec() {
                Ok(v) => Ok(ValueV::Int(v as int)),
                Err(err) => Err(err),
            },
            AnyEditor::Choice(e) => match e.finish_spec() {
                Ok(s) => Ok(ValueV::Text(s@)),
                Err(err) => Err(err),
            },
            AnyEditor::List(e) => list_finish_view(e),
            AnyEditor::Optional(e) => match e.finish_spec() {
                Ok(Some(v)) => Ok(ValueV::Maybe(Some(v as int))),
                Ok(None) => Ok(ValueV::Maybe(None)),
                Err(err) => Err(err),
            },
        }
    }

    /// The markup the editor renders to.
    pub open spec fn html_spec(self) -> Seq<char> {
        match self {
            AnyEditor::Value(e) => e.html_spec(),
            AnyEditor::Choice(e) => e.html_spec(),
            AnyEditor::List(e) => e.html_spec(),
            AnyEditor::Optional(e) => e.html_spec(),
        }
    }

    /// Exact effect of starting: the editor's elements take the next
    /// identifiers in allocation order; the value and choice editors keep
    /// their primed state, while the list and optional editors start
    /// fresh.
    pub open spec fn start_ens(pre: AnyEditor, post: AnyEditor, g0: Generator) -> bool {
        match (pre, post) {
            (AnyEditor::Value(a), AnyEditor::Value(b)) => b == (FromStrEditor {
                id: Id(g0.next),
                value: a.value,
            }),
            (AnyEditor::Choice(a), AnyEditor::Choice(b)) => b == (ChoiceEditor {
                id: Id(g0.next),
                choices: a.choices,
                choice: a.choice,
            }),
            (AnyEditor::List(a), AnyEditor::List(b)) => {
                &&& b.group_id == Id(g0.next)
                &&& b.add_id == Id((g0.next + 1) as u64)
                &&& b.template == a.template
                &&& b.choices@.len() == 0
                &&& b.editors@.len() == 0
            },
            (AnyEditor::Optional(a), AnyEditor::Optional(b)) => b == (OptionEditor {
                row: crate::container::Row {
                    id: Id(g0.next),
                    sub_id: Id((g0.next + 1) as u64),
                },
                add_id: Id((g0.next + 2) as u64),
                editor: FromStrEditor { id: Id((g0.next + 3) as u64), value: None },
                enabled: false,
            }),
            _ => false,
        }
    }

    /// Allocates the editor's element identifiers.
    pub fn start(&mut self, gen: &mut Generator)
        requires
            old(gen).wf(),
            old(gen).next + old(self).start_needs() <= u64::MAX,
        ensures
            final(gen).wf(),
            final(gen).next == old(gen).next + old(self).start_needs(),
            final(self).wf(),
            final(self).below(final(gen).next),
            final(self).start_needs() == old(self).start_needs(),
            AnyEditor::start_ens(*old(self), *final(self), *old(gen)),
    {
        match self {
            AnyEditor::Value(e) => e.start(gen),
            AnyEditor::Choice(e) => {
                let c = e.choice;
                e.start(c, gen)
            },
            AnyEditor::List(e) => e.start(None, gen),
            AnyEditor::Optional(e) => e.start(None, gen),
        }
    }

    /// Routes one event, per [`AnyEditor::event_ens`].
    pub fn on_event(&mut self, event: &Event, gen: &mut Generator) -> (r: Option<Feedback>)
        requires
            old(self).wf(),
            old(self).below(old(gen).next),
            old(gen).wf(),
            old(gen).can_issue(3),
        ensures
            AnyEditor::event_ens(*old(self), *final(self), *event, *old(gen), *final(gen), r),
            final(self).wf(),
            final(self).below(final(gen).next),
            final(gen).wf(),
            final(gen).next >= old(gen).next,
            final(gen).next <= old(gen).next + 3,
    {
        match self {
            AnyEditor::Value(e) => e.on_event(event, gen),
            AnyEditor::Choice(e) => e.on_event(event, gen),
            AnyEditor::List(e) => e.on_event(event, gen),
            AnyEditor::Optional(e) => {
                let r = e.on_event(event, gen);
                proof {
                    assert(forall|b: u64| old(self)->Optional_0.below(b) ==> e.below(b));
                }
                r
            },
        }
    }

    /// Snapshot of the current output; never mutates state.
    pub fn finish(&self) -> (r: Result<Value, EditorError>)
        ensures
            r is Ok <==> self.finish_view() is Ok,
            (r matches Ok(v) ==> v@ == self.finish_view()->Ok_0),
            (r matches Err(e) ==> Err::<ValueV, EditorError>(e) == self.finish_view()),
    {
        match self {
            AnyEditor::Value(e) => match e.read() {
                Ok(v) => Ok(Value::Int(v)),
                Err(err) => Err(err),
            },
            AnyEditor::Choice(e) => match e.finish() {
                Ok(s) => Ok(Value::Text(s)),
                Err(err) => Err(err),
            },
            AnyEditor::List(e) => match e.finish() {
                Ok(vs) => {
                    proof {
                        let l = e.editors@;
                        assert(vs@.map_values(|n: i64| n as int) =~= Seq::new(
                            l.len(),
                            |i: int| l[i].read_spec()->Ok_0 as int,
                        ));
                    }
                    Ok(Value::List(vs))
                },
                Err(err) => {
                    proof {
                        assert(list_finish_view(*e) is Err);
                    }
                    Err(err)
                },
            },
            AnyEditor::Optional(e) => match e.finish() {
                Ok(Some(v)) => Ok(Value::Maybe(Some(v))),
                Ok(None) => Ok(Value::Maybe(None)),
                Err(err) => Err(err),
            },
        }
    }

    /// Renders the editor; a pure function of its state.
    pub fn as_html(&self) -> (h: Html)
        requires
            (self matches AnyEditor::List(e) ==> e.choices.len() == e.editors.len()),
        ensures
            h@ == self.html_spec(),
    {
        match self {
            AnyEditor::Value(e) => e.as_html(),
            AnyEditor::Choice(e) => e.as_html(),
            AnyEditor::List(e) => e.as_html(),
            AnyEditor::Optional(e) => e.as_html(),
        }
    }
}

} // verus!
