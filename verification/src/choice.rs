use vstd::prelude::*;
use vstd::string::StrSliceExecFns;

use crate::convert::spec_parse_i64;
use crate::editor::EditorError;
use crate::event::{Event, Feedback};
use crate::html::{div_id_html, div_id, Html};
use crate::id::{Generator, Id};

verus! {

/// The selection index an update's text denotes, if any: an optional
/// plus sign, then decimal digits; a minus sign never denotes an index.
/// The index must sit in the signed 64-bit range, which exceeds any list
/// a machine can hold.
pub open spec fn spec_parse_index(s: Seq<char>) -> Option<usize> {
    if s.len() > 0 && s[0] == '-' {
        None
    } else {
        match spec_parse_i64(s) {
            Some(v) => if v >= 0 {
                Some(v as usize)
            } else {
                None
            },
            None => None,
        }
    }
}

/// Parses a selection index, exactly as [`spec_parse_index`] describes.
pub fn parse_index(s: &str) -> (r: Option<usize>)
    ensures
        r == spec_parse_index(s@),
{
    if s.unicode_len() > 0 && s.get_char(0) == '-' {
        return None;
    }
    match crate::convert::parse_i64(s) {
        Some(v) => if v >= 0 {
            Some(v as usize)
        } else {
            None
        },
        None => None,
    }
}

/// Markup of a fixed list of alternatives, in order.
pub open spec fn options_html(s: Seq<Seq<char>>) -> Seq<char>
    decreases s.len(),
{
    if s.len() == 0 {
        Seq::empty()
    } else {
        options_html(s.drop_last()) + "<label>"@ + s.last() + "</label>"@
    }
}

/// An editor over a fixed set of alternatives.
///
/// An update event carrying a parseable index selects that alternative;
/// `finish` fails while no selection exists or the stored index is out of
/// range, and otherwise yields the selected alternative.
#[derive(Debug, PartialEq, Eq, Hash)]
pub struct ChoiceEditor {
    /// The radio group's element; the reserved zero until `start` runs.
    pub id: Id,
    /// The fixed alternatives, rendered in order.
    pub choices: Vec<String>,
    /// The currently selected index, if any arrived.
    pub choice: Option<usize>,
}

impl ChoiceEditor {
    /// The event is addressed to this editor's element and carries text.
    pub open spec fn claims(self, ev: Event) -> bool {
        match ev {
            Event::Update { id, .. } => id == self.id,
            _ => false,
        }
    }

    /// What `finish` yields: the selected alternative, or `Invalid` while
    /// there is no selection or it does not resolve.
    pub open spec fn finish_spec(self) -> Result<String, EditorError> {
        match self.choice {
            None => Err(EditorError::Invalid),
            Some(i) => if i < self.choices.len() {
                Ok(self.choices[i as int])
            } else {
                Err(EditorError::Invalid)
            },
        }
    }

    /// Exact effect of one routed event: an irrelevant event changes
    /// nothing and yields no feedback; an owned update either stores the
    /// parsed index and reports `Valid`, or changes nothing and reports
    /// `Invalid`.
    pub open spec fn event_ens(
        pre: ChoiceEditor,
        post: ChoiceEditor,
        ev: Event,
        r: Option<Feedback>,
    ) -> bool {
        if pre.claims(ev) {
            match ev {
                Event::Update { id, value } => match spec_parse_index(value@) {
                    Some(i) => post == (ChoiceEditor { choice: Some(i), ..pre }) && r == Some(
                        Feedback::Valid { id },
                    ),
                    None => post == pre && r == Some(Feedback::Invalid { id }),
                },
                _ => false,
            }
        } else {
            post == pre && r is None
        }
    }

    /// The markup of the group: its identifier and its alternatives.
    pub open spec fn html_spec(self) -> Seq<char> {
        div_id_html(self.id, options_html(self.choices@.map_values(|s: String| s@)))
    }

    pub fn new(options: Vec<String>) -> (r: ChoiceEditor)
        ensures
            r.id == Id(0u64),
            r.choices == options,
            r.choice is None,
    {
        ChoiceEditor { id: Id(0), choices: options, choice: None }
    }

    /// Allocates the group's element identifier and primes the selection.
    pub fn start(&mut self, value: Option<usize>, gen: &mut Generator)
        requires
            old(gen).wf(),
            old(gen).can_issue(1),
        ensures
            final(self).id == Id(old(gen).next),
            final(self).choices == old(self).choices,
            final(self).choice == value,
            final(gen).next == old(gen).next + 1,
            final(gen).wf(),
    {
        self.choice = value;
        self.id = gen.next();
    }

    /// Routes one event, per [`ChoiceEditor::event_ens`].
    pub fn on_event(&mut self, event: &Event, gen: &mut Generator) -> (r: Option<Feedback>)
        ensures
            ChoiceEditor::event_ens(*old(self), *final(self), *event, r),
            *final(gen) == *old(gen),
    {
        match event {
            Event::Update { id, value } => {
                if *id == self.id {
                    match parse_index(value.as_str()) {
                        Some(i) => {
                            self.choice = Some(i);
                            Some(Feedback::Valid { id: *id })
                        },
                        None => Some(Feedback::Invalid { id: *id }),
                    }
                } else {
                    None
                }
            },
            _ => None,
        }
    }

    /// Snapshot of the current output; never mutates state. Fails exactly
    /// while no selection exists or the selection is out of range.
    pub fn finish(&self) -> (r: Result<String, EditorError>)
        ensures
            r == self.finish_spec(),
    {
        match self.choice {
            None => Err(EditorError::Invalid),
            Some(i) => if i < self.choices.len() {
                Ok(self.choices[i].clone())
            } else {
                Err(EditorError::Invalid)
            },
        }
    }

    /// Renders the editor; a pure function of its state.
    pub fn as_html(&self) -> (h: Html)
        ensures
            h@ == self.html_spec(),
    {
        let mut inner = String::new();
        let mut i: usize = 0;
        while i < self.choices.len()
            invariant
                i <= self.choices.len(),
                inner@ == options_html(self.choices@.map_values(|s: String| s@).take(i as int)),
            decreases self.choices.len() - i,
        {
            inner.append("<label>");
            inner.append(self.choices[i].as_str());
            inner.append("</label>");
            proof {
                let m = self.choices@.map_values(|s: String| s@);
                assert(m.take(i + 1).drop_last() =~= m.take(i as int));
                assert(m.take(i + 1).last() == self.choices@[i as int]@);
            }
            i = i + 1;
        }
        proof {
            let m = self.choices@.map_values(|s: String| s@);
            assert(m.take(self.choices@.len() as int) =~= m);
        }
        div_id(self.id, &Html(inner))
    }
}

/// Fresh-editor law: while no selection ever arrived, `finish` fails with
/// `Invalid`.
pub proof fn lemma_choice_fresh_fails(c: ChoiceEditor)
    requires
        c.choice is None,
    ensures
        c.finish_spec() == Err::<String, EditorError>(EditorError::Invalid),
{
}

/// Selection law: an update carrying a parseable index in range selects
/// that alternative, and `finish` then yields exactly it.
pub proof fn lemma_choice_selection(
    pre: ChoiceEditor,
    post: ChoiceEditor,
    ev: Event,
    r: Option<Feedback>,
    i: usize,
)
    requires
        ChoiceEditor::event_ens(pre, post, ev, r),
        pre.claims(ev),
        (match ev {
            Event::Update { value, .. } => spec_parse_index(value@) == Some(i),
            _ => false,
        }),
        i < pre.choices@.len(),
    ensures
        post.finish_spec() == Ok::<String, EditorError>(pre.choices@[i as int]),
        r == Some(Feedback::Valid { id: pre.id }),
{
}

} // verus!
