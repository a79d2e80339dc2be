use vstd::prelude::*;

use crate::event::{Event, Feedback};
use crate::html::{div_id_html, div_id, task_value_repr, task_value_to_repr, Html};
use crate::id::{Generator, Id};
use crate::share::ShareRegistry;
use crate::task_value::TaskValue;
use crate::value::{tv_view, Value, ValueV};

verus! {

/// Display colors a viewer can render its value in.
#[derive(Clone, Copy, Debug, PartialEq, Eq, Structural, Hash)]
pub enum Color {
    Black,
    White,
    Red,
    Orange,
    Yellow,
    Green,
    Blue,
    Purple,
    Pink,
    Brown,
}

impl Color {
    /// The color's name as it appears in the rendered markup.
    pub open spec fn name_spec(self) -> Seq<char> {
        match self {
            Color::Black => "black"@,
            Color::White => "white"@,
            Color::Red => "red"@,
            Color::Orange => "orange"@,
            Color::Yellow => "yellow"@,
            Color::Green => "green"@,
            Color::Blue => "blue"@,
            Color::Purple => "purple"@,
            Color::Pink => "pink"@,
            Color::Brown => "brown"@,
        }
    }

    pub fn to_html(&self) -> (h: Html)
        ensures
            h@ == self.name_spec(),
    {
        match self {
            Color::Black => Html("black".to_owned()),
            Color::White => Html("white".to_owned()),
            Color::Red => Html("red".to_owned()),
            Color::Orange => Html("orange".to_owned()),
            Color::Yellow => Html("yellow".to_owned()),
            Color::Green => Html("green".to_owned()),
            Color::Blue => Html("blue".to_owned()),
            Color::Purple => Html("purple".to_owned()),
            Color::Pink => Html("pink".to_owned()),
            Color::Brown => Html("brown".to_owned()),
        }
    }
}

impl Default for Color {
    fn default() -> (r: Self)
        ensures
            r == Color::Black,
    {
        Color::Black
    }
}

/// Markup of a viewer: its addressable container around the colored
/// rendering of the observed value.
pub open spec fn view_html(element: Id, color: Color, v: TaskValue<ValueV>) -> Seq<char> {
    div_id_html(
        element,
        "<span style=\"color: "@ + color.name_spec() + ";\">"@ + task_value_repr(v) + "</span>"@,
    )
}

/// Renders a viewer's observed value.
pub fn render_view(element: Id, color: Color, v: &TaskValue<Value>) -> (h: Html)
    ensures
        h@ == view_html(element, color, tv_view(*v)),
{
    let mut s = "<span style=\"color: ".to_owned();
    let c = color.to_html();
    s.append(c.0.as_str());
    s.append(";\">");
    let content = task_value_to_repr(v);
    s.append(content.0.as_str());
    s.append("</span>");
    div_id(element, &Html(s))
}

/// A read-only viewer editor bound to a share identity.
///
/// It owns one element, never claims events, and repaints when the share
/// it observes is written through; the binding is identity-only and never
/// transfers ownership of the cell.
#[derive(Clone, Copy, Debug, PartialEq, Eq, Structural, Hash)]
pub struct Viewer {
    /// The viewer's element; the reserved zero until `start` runs.
    pub id: Id,
    /// The share identity this viewer observes.
    pub share: Id,
    /// The color the value is rendered in.
    pub color: Color,
}

impl Viewer {
    /// Creates a fresh share holding the value stably, and a viewer bound
    /// to it.
    pub fn new(value: Value, gen: &mut Generator, reg: &mut ShareRegistry) -> (r: Viewer)
        requires
            old(reg).wf(),
            old(reg).below(old(gen).next),
            old(gen).wf(),
            old(gen).can_issue(1),
        ensures
            final(reg).wf(),
            final(reg).below(final(gen).next),
            final(gen).wf(),
            final(gen).next == old(gen).next + 1,
            r.share == Id(old(gen).next),
            r.id == Id(0u64),
            r.color == Color::Black,
            final(reg).viewers == old(reg).viewers,
            final(reg).value_of(r.share) == tv_view(TaskValue::Stable(value)),
    {
        let share = reg.create(TaskValue::Stable(value), gen);
        Viewer { id: Id(0), share, color: Color::Black }
    }

    /// Binds a viewer to an existing share identity.
    pub fn new_shared(share: Id) -> (r: Viewer)
        ensures
            r == (Viewer { id: Id(0u64), share, color: Color::Black }),
    {
        Viewer { id: Id(0), share, color: Color::Black }
    }

    /// Selects the rendering color.
    pub fn with_color(self, color: Color) -> (r: Viewer)
        ensures
            r == (Viewer { color, ..self }),
    {
        Viewer { color, ..self }
    }

    /// Allocates the viewer's element and registers the binding, so that
    /// writes through the observed share refresh this element.
    pub fn start(&mut self, gen: &mut Generator, reg: &mut ShareRegistry)
        requires
            old(gen).wf(),
            old(gen).can_issue(1),
        ensures
            final(gen).wf(),
            final(gen).next == old(gen).next + 1,
            final(self).id == Id(old(gen).next),
            final(self).share == old(self).share,
            final(self).color == old(self).color,
            *final(reg) == (ShareRegistry { viewers: final(reg).viewers, ..*old(reg) }),
            final(reg).viewers@ == old(reg).viewers@.push(
                crate::share::ViewerEntry {
                    element: Id(old(gen).next),
                    share: old(self).share,
                    color: old(self).color,
                },
            ),
    {
        self.id = gen.next();
        reg.register_viewer(self.id, self.share, self.color);
    }

    /// Snapshot of the observed share's value; never blocks, never fails.
    pub fn value(&self, reg: &ShareRegistry) -> (r: TaskValue<Value>)
        ensures
            tv_view(r) == reg.value_of(self.share),
    {
        reg.clone_value(self.share)
    }

    /// Viewers never claim events: whatever arrives, nothing changes and
    /// no feedback is produced.
    pub fn on_event(&mut self, event: &Event) -> (r: Option<Feedback>)
        ensures
            *final(self) == *old(self),
            r is None,
    {
        match event {
            Event::Update { .. } => None,
            Event::Press { .. } => None,
        }
    }

    /// Renders the viewer; a pure function of its state and the observed
    /// share's current value.
    pub fn to_html(&self, reg: &ShareRegistry) -> (h: Html)
        ensures
            h@ == view_html(self.id, self.color, reg.value_of(self.share)),
    {
        let v = reg.clone_value(self.share);
        render_view(self.id, self.color, &v)
    }

    /// Repaints exactly when the written share is the one this viewer is
    /// bound to; a refresh for any other identity is a no-op.
    pub fn refresh(&self, id: Id, reg: &ShareRegistry) -> (r: Option<Feedback>)
        ensures
            self.share == id ==> (r matches Some(f) && f matches Feedback::Replace {
                id: rid,
                html,
            } && rid == self.id && html@ == view_html(
                self.id,
                self.color,
                reg.value_of(self.share),
            )),
            self.share != id ==> r is None,
    {
        if self.share == id {
            let html = self.to_html(reg);
            Some(Feedback::Replace { id: self.id, html })
        } else {
            None
        }
    }
}

} // verus!
