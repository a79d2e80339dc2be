use vstd::prelude::*;
use vstd::string::StrSliceExecFns;

use crate::editor::EditorError;
use crate::event::{Event, Feedback};
use crate::html::{text_field_html, i64_string, int_digits, text_field, Html};
use crate::id::{Generator, Id};

verus! {

/// Magnitude of the smallest signed 64-bit integer.
pub const MIN_MAGNITUDE: u64 = 9223372036854775808;

/// True for the ten decimal digit characters.
pub open spec fn is_digit(c: char) -> bool {
    48 <= c as int && c as int <= 57
}

/// Numeric value of a decimal digit character.
pub open spec fn digit_val(c: char) -> int {
    c as int - 48
}

/// Every character of `s` is a decimal digit.
pub open spec fn all_digits(s: Seq<char>) -> bool {
    forall|i: int| 0 <= i < s.len() ==> is_digit(#[trigger] s[i])
}

/// The number a digit string denotes, most significant digit first.
pub open spec fn digits_val(s: Seq<char>) -> int
    decreases s.len(),
{
    if s.len() == 0 {
        0
    } else {
        digits_val(s.drop_last()) * 10 + digit_val(s.last())
    }
}

/// The number the text denotes, if any: an optional leading sign (minus
/// or plus), then one or more decimal digits, the whole within the signed
/// 64-bit range. Anything else does not parse.
pub open spec fn spec_parse_i64(s: Seq<char>) -> Option<i64> {
    if s.len() > 0 && s[0] == '-' {
        let d = s.subrange(1, s.len() as int);
        if d.len() > 0 && all_digits(d) && digits_val(d) <= MIN_MAGNITUDE {
            Some((-digits_val(d)) as i64)
        } else {
            None
        }
    } else if s.len() > 0 && s[0] == '+' {
        let d = s.subrange(1, s.len() as int);
        if d.len() > 0 && all_digits(d) && digits_val(d) <= i64::MAX {
            Some(digits_val(d) as i64)
        } else {
            None
        }
    } else {
        if s.len() > 0 && all_digits(s) && digits_val(s) <= i64::MAX {
            Some(digits_val(s) as i64)
        } else {
            None
        }
    }
}

/// A digit string denotes a non-negative number.
pub proof fn lemma_digits_nonneg(s: Seq<char>)
    requires
        all_digits(s),
    ensures
        digits_val(s) >= 0,
    decreases s.len(),
{
    if s.len() > 0 {
        assert(all_digits(s.drop_last()));
        lemma_digits_nonneg(s.drop_last());
        assert(is_digit(s[s.len() - 1]));
    }
}

/// Extending a digit string never shrinks the number it denotes.
pub proof fn lemma_digits_prefix_le(s: Seq<char>, k: int)
    requires
        all_digits(s),
        0 <= k <= s.len(),
    ensures
        digits_val(s.take(k)) <= digits_val(s),
    decreases s.len() - k,
{
    if k < s.len() {
        assert(s.take(k + 1).drop_last() =~= s.take(k));
        assert(all_digits(s.take(k))) by {
            assert(forall|i: int| 0 <= i < k ==> s.take(k)[i] == s[i]);
        }
        lemma_digits_nonneg(s.take(k));
        assert(is_digit(s[k]));
        assert(digits_val(s.take(k + 1)) == digits_val(s.take(k)) * 10 + digit_val(s[k]));
        assert(digits_val(s.take(k)) <= digits_val(s.take(k + 1)));
        lemma_digits_prefix_le(s, k + 1);
    } else {
        assert(s.take(k) =~= s);
    }
}

/// Parses the text of an `Update` event, exactly as [`spec_parse_i64`]
/// describes.
pub fn parse_i64(s: &str) -> (r: Option<i64>)
    ensures
        r == spec_parse_i64(s@),
{
    let n = s.unicode_len();
    let neg = n > 0 && s.get_char(0) == '-';
    let signed = n > 0 && (s.get_char(0) == '-' || s.get_char(0) == '+');
    let start: usize = if signed {
        1
    } else {
        0
    };
    if start >= n {
        return None;
    }
    let limit: u64 = if neg {
        MIN_MAGNITUDE
    } else {
        9223372036854775807
    };
    let ghost digits = s@.subrange(start as int, n as int);
    let mut mag: u64 = 0;
    let mut i: usize = start;
    while i < n
        invariant
            start <= i <= n,
            n == s@.len(),
            neg == (s@.len() > 0 && s@[0] == '-'),
            signed == (s@.len() > 0 && (s@[0] == '-' || s@[0] == '+')),
            start == if signed { 1int } else { 0int },
            start < n,
            digits == s@.subrange(start as int, n as int),
            limit == if neg { MIN_MAGNITUDE } else { (i64::MAX as u64) },
            all_digits(s@.subrange(start as int, i as int)),
            mag == digits_val(s@.subrange(start as int, i as int)),
            mag <= limit,
        decreases n - i,
    {
        let c = s.get_char(i);
        let u = c as u32;
        if u < 48 || u > 57 {
            proof {
                assert(!is_digit(s@[i as int]));
                assert(digits[i - start] == s@[i as int]);
                assert(!all_digits(digits));
            }
            return None;
        }
        let d = (u - 48) as u64;
        proof {
            assert(is_digit(s@[i as int]));
            assert(d as int == digit_val(s@[i as int]));
            assert(s@.subrange(start as int, i + 1).drop_last() =~= s@.subrange(
                start as int,
                i as int,
            ));
            assert(s@.subrange(start as int, i + 1).last() == s@[i as int]);
            assert(digits_val(s@.subrange(start as int, i + 1)) == mag * 10 + d);
        }
        if mag > (limit - d) / 10 {
            proof {
                if !signed {
                    assert(s@.subrange(0, n as int) =~= s@);
                }
                let l = limit as int;
                assert((l - d) / 10 * 10 + (l - d) % 10 == l - d);
                assert(mag * 10 + d > l);
                if all_digits(digits) {
                    assert(forall|j: int|
                        0 <= j < i + 1 - start ==> s@.subrange(start as int, i + 1)[j]
                            == digits[j]);
                    assert(all_digits(s@.subrange(start as int, i + 1)));
                    assert(digits.take(i + 1 - start) =~= s@.subrange(start as int, i + 1));
                    lemma_digits_prefix_le(digits, i + 1 - start);
                    assert(digits_val(digits) > l);
                }
            }
            return None;
        }
        proof {
            let l = limit as int;
            assert((l - d) / 10 * 10 + (l - d) % 10 == l - d);
            assert(mag * 10 + d <= l);
        }
        mag = mag * 10 + d;
        i = i + 1;
    }
    proof {
        assert(s@.subrange(start as int, n as int) =~= digits);
        assert(mag == digits_val(digits));
        assert(digits.len() > 0);
        if !signed {
            assert(s@.subrange(0, n as int) =~= s@);
        }
    }
    if neg {
        if mag == MIN_MAGNITUDE {
            Some(i64::MIN)
        } else {
            Some(-(mag as i64))
        }
    } else {
        Some(mag as i64)
    }
}

/// The primitive value editor: one text field whose content is parsed into
/// a number.
///
/// An unparsable update marks the field invalid and leaves the previously
/// accepted value untouched; the overall value therefore degrades gracefully
/// instead of aborting the task.
#[derive(Clone, Copy, Debug, PartialEq, Eq, Structural, Hash)]
pub struct FromStrEditor {
    /// The text field's element; the reserved zero until `start` runs.
    pub id: Id,
    /// The last accepted value, if any input was ever accepted.
    pub value: Option<i64>,
}

impl FromStrEditor {
    /// The event is addressed to this editor's element and carries text.
    pub open spec fn claims(self, ev: Event) -> bool {
        match ev {
            Event::Update { id, .. } => id == self.id,
            _ => false,
        }
    }

    /// What the editor's current value reads as.
    pub open spec fn read_spec(self) -> Result<i64, EditorError> {
        match self.value {
            Some(v) => Ok(v),
            None => Err(EditorError::Invalid),
        }
    }

    /// Exact effect of one routed event: an irrelevant event changes
    /// nothing and yields no feedback; an owned update either stores the
    /// parsed number and reports `Valid`, or changes nothing and reports
    /// `Invalid`.
    pub open spec fn event_ens(
        pre: FromStrEditor,
        post: FromStrEditor,
        ev: Event,
        r: Option<Feedback>,
    ) -> bool {
        if pre.claims(ev) {
            match ev {
                Event::Update { id, value } => match spec_parse_i64(value@) {
                    Some(v) => post == (FromStrEditor { value: Some(v), ..pre }) && r == Some(
                        Feedback::Valid { id },
                    ),
                    None => post == pre && r == Some(Feedback::Invalid { id }),
                },
                _ => false,
            }
        } else {
            post == pre && r is None
        }
    }

    /// The markup of the text field: its identifier and its current text.
    pub open spec fn html_spec(self) -> Seq<char> {
        text_field_html(
            self.id,
            match self.value {
                Some(v) => int_digits(v as int),
                None => Seq::empty(),
            },
        )
    }

    pub fn new() -> (r: FromStrEditor)
        ensures
            r == (FromStrEditor { id: Id(0u64), value: None }),
    {
        FromStrEditor { id: Id(0), value: None }
    }

    /// Allocates the editor's one element identifier.
    pub fn start(&mut self, gen: &mut Generator)
        requires
            old(gen).wf(),
            old(gen).can_issue(1),
        ensures
            final(self).id == Id(old(gen).next),
            final(self).value == old(self).value,
            final(gen).next == old(gen).next + 1,
            final(gen).wf(),
    {
        self.id = gen.next();
    }

    /// Routes one event, per [`FromStrEditor::event_ens`].
    pub fn on_event(&mut self, event: &Event, gen: &mut Generator) -> (r: Option<Feedback>)
        ensures
            FromStrEditor::event_ens(*old(self), *final(self), *event, r),
            *final(gen) == *old(gen),
    {
        match event {
            Event::Update { id, value } => {
                if *id == self.id {
                    match parse_i64(value.as_str()) {
                        Some(v) => {
                            self.value = Some(v);
                            Some(Feedback::Valid { id: *id })
                        },
                        None => Some(Feedback::Invalid { id: *id }),
                    }
                } else {
                    None
                }
            },
            _ => None,
        }
    }

    /// The current value, or `Invalid` when no input was ever accepted.
    pub fn read(&self) -> (r: Result<i64, EditorError>)
        ensures
            r == self.read_spec(),
    {
        match self.value {
            Some(v) => Ok(v),
            None => Err(EditorError::Invalid),
        }
    }

    /// Stores a value programmatically, as if a valid input had arrived.
    pub fn write(&mut self, value: i64)
        ensures
            *final(self) == (FromStrEditor { value: Some(value), ..*old(self) }),
    {
        self.value = Some(value);
    }

    /// Snapshot of the current output; never mutates state.
    pub fn finish(&self) -> (r: Result<i64, EditorError>)
        ensures
            r == self.read_spec(),
    {
        self.read()
    }

    /// Renders the editor; a pure function of its state.
    pub fn as_html(&self) -> (h: Html)
        ensures
            h@ == self.html_spec(),
    {
        match self.value {
            Some(v) => {
                let t = i64_string(v);
                text_field(self.id, t.as_str())
            },
            None => {
                proof {
                    reveal_strlit("");
                    assert(""@ =~= Seq::<char>::empty());
                }
                text_field(self.id, "")
            },
        }
    }
}

/// Round trip law: writing a value and reading it back yields that value.
pub proof fn lemma_write_read(e: FromStrEditor, v: i64)
    ensures
        (FromStrEditor { value: Some(v), ..e }).read_spec() == Ok::<i64, EditorError>(v),
{
}

/// Invalid-input law: an update whose text does not parse leaves the
/// previously read value unchanged and flags exactly the editor's element.
pub proof fn lemma_invalid_update_keeps_value(
    pre: FromStrEditor,
    post: FromStrEditor,
    ev: Event,
    r: Option<Feedback>,
)
    requires
        FromStrEditor::event_ens(pre, post, ev, r),
        pre.claims(ev),
        match ev {
            Event::Update { value, .. } => spec_parse_i64(value@) is None,
            _ => false,
        },
    ensures
        post == pre,
        post.read_spec() == pre.read_spec(),
        r == Some(Feedback::Invalid { id: pre.id }),
{
}

/// Identifier stability law: routing an event never changes the editor's
/// element identifier, so a re-render addresses the same element.
pub proof fn lemma_value_editor_id_stable(
    pre: FromStrEditor,
    post: FromStrEditor,
    ev: Event,
    r: Option<Feedback>,
)
    requires
        FromStrEditor::event_ens(pre, post, ev, r),
    ensures
        post.id == pre.id,
{
}

} // verus!
