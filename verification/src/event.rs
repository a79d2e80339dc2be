use vstd::prelude::*;

use crate::html::Html;
use crate::id::Id;

verus! {

/// An interaction event from the user, addressed to exactly one element.
///
/// `Update` carries the new text of a value-bearing element; `Press` reports
/// the activation of a button-like element. The payload of an `Update` is
/// always a string; the owning editor parses it.
#[derive(Debug, PartialEq, Eq, Hash)]
pub enum Event {
    Update { id: Id, value: String },
    Press { id: Id },
}

impl Event {
    /// The element the event is addressed to.
    pub open spec fn target(self) -> Id {
        match self {
            Event::Update { id, .. } => id,
            Event::Press { id } => id,
        }
    }
}

impl Clone for Event {
    /// The copy is the same event; routing hands it to both branches of a
    /// composition.
    fn clone(&self) -> (r: Self)
        ensures
            r == *self,
    {
        match self {
            Event::Update { id, value } => Event::Update { id: *id, value: value.clone() },
            Event::Press { id } => Event::Press { id: *id },
        }
    }
}

/// One UI mutation instruction, applied by the client in declaration order.
///
/// `Insert` replaces an element's content, `Replace` the element itself,
/// `Append` adds content at its end, `Remove` deletes it, and
/// `Valid`/`Invalid` mark the state of its current value.
#[derive(Debug, PartialEq, Eq, Hash)]
pub enum Feedback {
    /// Replace this element's content with new markup.
    Insert { id: Id, html: Html },
    /// Replace this element with new markup.
    Replace { id: Id, html: Html },
    /// Add markup at the end of this element.
    Append { id: Id, html: Html },
    /// Remove this element.
    Remove { id: Id },
    /// The value of this element is valid.
    Valid { id: Id },
    /// The value of this element is invalid.
    Invalid { id: Id },
}

impl Feedback {
    /// The element the instruction is addressed to.
    pub open spec fn target(self) -> Id {
        match self {
            Feedback::Insert { id, .. } => id,
            Feedback::Replace { id, .. } => id,
            Feedback::Append { id, .. } => id,
            Feedback::Remove { id } => id,
            Feedback::Valid { id } => id,
            Feedback::Invalid { id } => id,
        }
    }

    /// True for instructions that replace a whole element.
    pub open spec fn is_replace(self) -> bool {
        self matches Feedback::Replace { .. }
    }
}

impl Clone for Feedback {
    /// The copy is the same instruction.
    fn clone(&self) -> (r: Self)
        ensures
            r == *self,
    {
        match self {
            Feedback::Insert { id, html } => Feedback::Insert { id: *id, html: html.clone() },
            Feedback::Replace { id, html } => Feedback::Replace { id: *id, html: html.clone() },
            Feedback::Append { id, html } => Feedback::Append { id: *id, html: html.clone() },
            Feedback::Remove { id } => Feedback::Remove { id: *id },
            Feedback::Valid { id } => Feedback::Valid { id: *id },
            Feedback::Invalid { id } => Feedback::Invalid { id: *id },
        }
    }
}

} // verus!
