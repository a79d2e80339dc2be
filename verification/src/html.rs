use vstd::prelude::*;
use vstd::string::StrSliceExecFns;
use vstd::string::StringExecFns;

use crate::id::Id;
use crate::task_value::TaskValue;
use crate::value::{Value, ValueV};

verus! {

/// Render output shipped to the client: a fragment of markup.
///
/// Rendering is deterministic: every producer in this crate states the exact
/// character sequence it builds, so re-rendering unchanged state yields an
/// identical fragment (and in particular the same element identifiers).
#[derive(Debug, PartialEq, Eq, Hash)]
pub struct Html(pub String);

impl View for Html {
    type V = Seq<char>;

    open spec fn view(&self) -> Seq<char> {
        self.0@
    }
}

impl Clone for Html {
    /// The copy holds the same markup.
    fn clone(&self) -> (r: Self)
        ensures
            r == *self,
    {
        Html(self.0.clone())
    }
}

impl Default for Html {
    /// The empty fragment.
    fn default() -> (r: Self)
        ensures
            r@ == Seq::<char>::empty(),
    {
        Html(String::new())
    }
}

/// The decimal digit for `d`.
pub open spec fn digit_char(d: int) -> char {
    if d == 0 {
        '0'
    } else if d == 1 {
        '1'
    } else if d == 2 {
        '2'
    } else if d == 3 {
        '3'
    } else if d == 4 {
        '4'
    } else if d == 5 {
        '5'
    } else if d == 6 {
        '6'
    } else if d == 7 {
        '7'
    } else if d == 8 {
        '8'
    } else {
        '9'
    }
}

/// The decimal rendering of `n`, most significant digit first.
pub open spec fn dec_digits(n: nat) -> Seq<char>
    decreases n,
{
    if n < 10 {
        seq![digit_char(n as int)]
    } else {
        dec_digits(n / 10).push(digit_char((n % 10) as int))
    }
}

/// The decimal rendering of a signed integer.
pub open spec fn int_digits(i: int) -> Seq<char> {
    if i < 0 {
        seq!['-'] + dec_digits((-i) as nat)
    } else {
        dec_digits(i as nat)
    }
}

fn digit_string(d: u64) -> (r: String)
    requires
        d < 10,
    ensures
        r@ == seq![digit_char(d as int)],
{
    let r: String = if d == 0 {
        proof {
            reveal_strlit("0");
        }
        "0".to_owned()
    } else if d == 1 {
        proof {
            reveal_strlit("1");
        }
        "1".to_owned()
    } else if d == 2 {
        proof {
            reveal_strlit("2");
        }
        "2".to_owned()
    } else if d == 3 {
        proof {
            reveal_strlit("3");
        }
        "3".to_owned()
    } else if d == 4 {
        proof {
            reveal_strlit("4");
        }
        "4".to_owned()
    } else if d == 5 {
        proof {
            reveal_strlit("5");
        }
        "5".to_owned()
    } else if d == 6 {
        proof {
            reveal_strlit("6");
        }
        "6".to_owned()
    } else if d == 7 {
        proof {
            reveal_strlit("7");
        }
        "7".to_owned()
    } else if d == 8 {
        proof {
            reveal_strlit("8");
        }
        "8".to_owned()
    } else {
        proof {
            reveal_strlit("9");
        }
        "9".to_owned()
    };
    proof {
        assert(r@ =~= seq![digit_char(d as int)]);
    }
    r
}

/// Renders an unsigned machine integer in decimal.
pub fn u64_string(n: u64) -> (r: String)
    ensures
        r@ == dec_digits(n as nat),
    decreases n,
{
    if n < 10 {
        digit_string(n)
    } else {
        let mut s = u64_string(n / 10);
        let d = digit_string(n % 10);
        s.append(d.as_str());
        proof {
            assert(s@ =~= dec_digits(n as nat));
        }
        s
    }
}

/// Renders a signed machine integer in decimal.
pub fn i64_string(n: i64) -> (r: String)
    ensures
        r@ == int_digits(n as int),
{
    if n >= 0 {
        u64_string(n as u64)
    } else {
        let m: u64 = ((-(n + 1)) as u64) + 1;
        proof {
            reveal_strlit("-");
            assert(m as int == -(n as int));
        }
        let mut s = "-".to_owned();
        let d = u64_string(m);
        s.append(d.as_str());
        proof {
            assert(s@ =~= int_digits(n as int));
        }
        s
    }
}

/// Renders an element identifier.
pub fn id_string(id: Id) -> (r: String)
    ensures
        r@ == dec_digits(id.0 as nat),
{
    u64_string(id.0)
}

/// Glyphs used by trigger buttons and boolean viewers.
#[derive(Clone, Copy, Debug, PartialEq, Eq, Structural, Hash)]
pub enum Icon {
    Plus,
    Minus,
    Check,
    XMark,
}

impl Icon {
    /// The text the icon renders as.
    pub open spec fn glyph(self) -> Seq<char> {
        match self {
            Icon::Plus => "+"@,
            Icon::Minus => "-"@,
            Icon::Check => "v"@,
            Icon::XMark => "x"@,
        }
    }

    pub fn to_html(&self) -> (r: Html)
        ensures
            r@ == self.glyph(),
    {
        match self {
            Icon::Plus => Html("+".to_owned()),
            Icon::Minus => Html("-".to_owned()),
            Icon::Check => Html("v".to_owned()),
            Icon::XMark => Html("x".to_owned()),
        }
    }
}

/// Markup of a text input field holding `text`.
pub open spec fn text_field_html(id: Id, text: Seq<char>) -> Seq<char> {
    "<input id=\""@ + dec_digits(id.0 as nat) + "\" value=\""@ + text + "\">"@
}

pub fn text_field(id: Id, text: &str) -> (h: Html)
    ensures
        h@ == text_field_html(id, text@),
{
    let mut s = "<input id=\"".to_owned();
    let n = id_string(id);
    s.append(n.as_str());
    s.append("\" value=\"");
    s.append(text);
    s.append("\">");
    Html(s)
}

/// Markup of a button carrying an icon.
pub open spec fn icon_button_html(id: Id, icon: Icon) -> Seq<char> {
    "<button id=\""@ + dec_digits(id.0 as nat) + "\">"@ + icon.glyph() + "</button>"@
}

pub fn icon_button(id: Id, icon: Icon) -> (h: Html)
    ensures
        h@ == icon_button_html(id, icon),
{
    let mut s = "<button id=\"".to_owned();
    let n = id_string(id);
    s.append(n.as_str());
    s.append("\">");
    let g = icon.to_html();
    s.append(g.0.as_str());
    s.append("</button>");
    Html(s)
}

/// Markup of an addressable container around `inner`.
pub open spec fn div_id_html(id: Id, inner: Seq<char>) -> Seq<char> {
    "<div id=\""@ + dec_digits(id.0 as nat) + "\">"@ + inner + "</div>"@
}

pub fn div_id(id: Id, inner: &Html) -> (h: Html)
    ensures
        h@ == div_id_html(id, inner@),
{
    let mut s = "<div id=\"".to_owned();
    let n = id_string(id);
    s.append(n.as_str());
    s.append("\">");
    s.append(inner.0.as_str());
    s.append("</div>");
    Html(s)
}

/// Markup of an anonymous container around `inner`.
pub open spec fn div_html(inner: Seq<char>) -> Seq<char> {
    "<div>"@ + inner + "</div>"@
}

pub fn div(inner: &Html) -> (h: Html)
    ensures
        h@ == div_html(inner@),
{
    let mut s = "<div>".to_owned();
    s.append(inner.0.as_str());
    s.append("</div>");
    Html(s)
}

/// Markup of the page wrapper: a document head for `title` and a body
/// holding only the root container, whose identifier is the reserved zero.
pub open spec fn wrapper_html(title: Seq<char>) -> Seq<char> {
    "<!DOCTYPE html><html><head><title>"@ + title + "</title></head><body><div id=\"0\"></div></body></html>"@
}

impl Html {
    /// The page every running task is mounted into.
    pub fn wrapper(title: &str) -> (h: Html)
        ensures
            h@ == wrapper_html(title@),
    {
        let mut s = "<!DOCTYPE html><html><head><title>".to_owned();
        s.append(title);
        s.append("</title></head><body><div id=\"0\"></div></body></html>");
        Html(s)
    }
}

/// Decimal renderings of a sequence of integers, concatenated in order.
pub open spec fn list_repr(s: Seq<int>) -> Seq<char>
    decreases s.len(),
{
    if s.len() == 0 {
        Seq::empty()
    } else {
        list_repr(s.drop_last()) + int_digits(s.last())
    }
}

/// The text a value renders as.
pub open spec fn value_repr(v: ValueV) -> Seq<char>
    decreases v,
{
    match v {
        ValueV::Int(n) => int_digits(n),
        ValueV::Text(s) => s,
        ValueV::List(l) => list_repr(l),
        ValueV::Maybe(o) => match o {
            Some(n) => int_digits(n),
            None => Seq::empty(),
        },
        ValueV::Pair(a, b) => value_repr(*a) + value_repr(*b),
    }
}

/// The text a task value renders as: its content if any, else nothing.
pub open spec fn task_value_repr(tv: TaskValue<ValueV>) -> Seq<char> {
    match tv {
        TaskValue::Stable(v) => value_repr(v),
        TaskValue::Unstable(v) => value_repr(v),
        TaskValue::Empty => Seq::empty(),
    }
}

/// Renders a value as text.
pub fn value_to_repr(v: &Value) -> (r: Html)
    ensures
        r@ == value_repr(v@),
    decreases *v,
{
    match v {
        Value::Int(n) => Html(i64_string(*n)),
        Value::Text(s) => Html(s.clone()),
        Value::List(l) => {
            let mut s = String::new();
            let mut i: usize = 0;
            while i < l.len()
                invariant
                    i <= l.len(),
                    s@ == list_repr(l@.map_values(|n: i64| n as int).take(i as int)),
                decreases l.len() - i,
            {
                let d = i64_string(l[i]);
                s.append(d.as_str());
                proof {
                    let m = l@.map_values(|n: i64| n as int);
                    assert(m.take(i + 1).drop_last() =~= m.take(i as int));
                    assert(m.take(i + 1).last() == l@[i as int] as int);
                }
                i = i + 1;
            }
            proof {
                let m = l@.map_values(|n: i64| n as int);
                assert(m.take(l@.len() as int) =~= m);
            }
            Html(s)
        },
        Value::Maybe(o) => match o {
            Some(n) => Html(i64_string(*n)),
            None => Html(String::new()),
        },
        Value::Pair(a, b) => {
            let mut left = value_to_repr(a);
            let right = value_to_repr(b);
            left.0.append(right.0.as_str());
            left
        },
    }
}

/// Renders a task value as text: its content if any, else nothing.
pub fn task_value_to_repr(tv: &TaskValue<Value>) -> (r: Html)
    ensures
        r@ == task_value_repr(crate::value::tv_view(*tv)),
{
    match tv {
        TaskValue::Stable(v) => value_to_repr(v),
        TaskValue::Unstable(v) => value_to_repr(v),
        TaskValue::Empty => Html(String::new()),
    }
}

/// Conversion of a piece of state into the markup the client shows for it.
pub trait ToRepr {
    /// The exact text the markup holds.
    spec fn repr(&self) -> Seq<char>;

    fn to_repr(&self) -> (r: Html)
        ensures
            r@ == self.repr(),
    ;
}

impl ToRepr for Html {
    open spec fn repr(&self) -> Seq<char> {
        self@
    }

    fn to_repr(&self) -> (r: Html) {
        self.clone()
    }
}

impl ToRepr for Value {
    open spec fn repr(&self) -> Seq<char> {
        value_repr(self@)
    }

    fn to_repr(&self) -> (r: Html) {
        value_to_repr(self)
    }
}

impl ToRepr for TaskValue<Value> {
    open spec fn repr(&self) -> Seq<char> {
        task_value_repr(crate::value::tv_view(*self))
    }

    fn to_repr(&self) -> (r: Html) {
        task_value_to_repr(self)
    }
}

impl ToRepr for i64 {
    open spec fn repr(&self) -> Seq<char> {
        int_digits(*self as int)
    }

    fn to_repr(&self) -> (r: Html) {
        Html(i64_string(*self))
    }
}

impl ToRepr for u64 {
    open spec fn repr(&self) -> Seq<char> {
        dec_digits(*self as nat)
    }

    fn to_repr(&self) -> (r: Html) {
        Html(u64_string(*self))
    }
}

impl ToRepr for bool {
    open spec fn repr(&self) -> Seq<char> {
        if *self {
            "true"@
        } else {
            "false"@
        }
    }

    fn to_repr(&self) -> (r: Html) {
        if *self {
            Html("true".to_owned())
        } else {
            Html("false".to_owned())
        }
    }
}

impl ToRepr for String {
    open spec fn repr(&self) -> Seq<char> {
        self@
    }

    fn to_repr(&self) -> (r: Html) {
        Html(self.clone())
    }
}

impl ToRepr for Vec<i64> {
    open spec fn repr(&self) -> Seq<char> {
        list_repr(self@.map_values(|n: i64| n as int))
    }

    fn to_repr(&self) -> (r: Html) {
        let v = crate::value::clone_i64_vec(self);
        value_to_repr(&Value::List(v))
    }
}

impl ToRepr for Option<Value> {
    open spec fn repr(&self) -> Seq<char> {
        match *self {
            Some(v) => value_repr(v@),
            None => Seq::empty(),
        }
    }

    fn to_repr(&self) -> (r: Html) {
        match self {
            Some(v) => value_to_repr(v),
            None => Html(String::new()),
        }
    }
}

} // verus!
