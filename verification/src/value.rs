use vstd::prelude::*;

use crate::task_value::TaskValue;

verus! {

/// Mathematical model of a [`Value`]: integers, character sequences, and
/// the shapes the composite editors and combinators build out of them.
pub enum ValueV {
    Int(int),
    Text(Seq<char>),
    List(Seq<int>),
    Maybe(Option<int>),
    Pair(Box<ValueV>, Box<ValueV>),
}

/// The closed universe of values a task can yield.
///
/// Primitive editors produce `Int` and `Text`, the list editor `List`, the
/// optional editor `Maybe`, and a `Both` composition pairs the two branch
/// values with `Pair`.
#[derive(Debug, PartialEq, Eq, Hash)]
pub enum Value {
    Int(i64),
    Text(String),
    List(Vec<i64>),
    Maybe(Option<i64>),
    Pair(Box<Value>, Box<Value>),
}

/// The abstract value a [`Value`] denotes.
pub open spec fn value_view(v: Value) -> ValueV
    decreases v,
{
    match v {
        Value::Int(n) => ValueV::Int(n as int),
        Value::Text(s) => ValueV::Text(s@),
        Value::List(l) => ValueV::List(l@.map_values(|n: i64| n as int)),
        Value::Maybe(o) => ValueV::Maybe(
            match o {
                Some(n) => Some(n as int),
                None => None,
            },
        ),
        Value::Pair(a, b) => ValueV::Pair(Box::new(value_view(*a)), Box::new(value_view(*b))),
    }
}

impl View for Value {
    type V = ValueV;

    open spec fn view(&self) -> ValueV {
        value_view(*self)
    }
}

/// Copies a vector of machine integers element by element.
pub fn clone_i64_vec(v: &Vec<i64>) -> (r: Vec<i64>)
    ensures
        r@ == v@,
{
    let mut out: Vec<i64> = Vec::new();
    let mut i: usize = 0;
    while i < v.len()
        invariant
            i <= v.len(),
            out@ =~= v@.subrange(0, i as int),
        decreases v.len() - i,
    {
        out.push(v[i]);
        i = i + 1;
    }
    proof {
        assert(out@ =~= v@);
    }
    out
}

/// The abstract value a `TaskValue` over [`Value`] denotes.
pub open spec fn tv_view(tv: TaskValue<Value>) -> TaskValue<
    ValueV,
> {
    match tv {
        TaskValue::Stable(v) => TaskValue::Stable(
            value_view(v),
        ),
        TaskValue::Unstable(v) => TaskValue::Unstable(
            value_view(v),
        ),
        TaskValue::Empty => TaskValue::Empty,
    }
}

/// Copies a task value over the closed value universe.
pub fn clone_task_value(tv: &TaskValue<Value>) -> (r: TaskValue<Value>)
    ensures
        tv_view(r) == tv_view(*tv),
{
    match tv {
        TaskValue::Stable(v) => TaskValue::Stable(v.clone()),
        TaskValue::Unstable(v) => TaskValue::Unstable(
            v.clone(),
        ),
        TaskValue::Empty => TaskValue::Empty,
    }
}

impl Clone for Value {
    /// The copy denotes the same abstract value as the source.
    fn clone(&self) -> (r: Self)
        ensures
            r@ == self@,
        decreases self,
    {
        match self {
            Value::Int(n) => Value::Int(*n),
            Value::Text(s) => Value::Text(s.clone()),
            Value::List(v) => Value::List(clone_i64_vec(v)),
            Value::Maybe(o) => Value::Maybe(
                match o {
                    Some(n) => Some(*n),
                    None => None,
                },
            ),
            Value::Pair(a, b) => Value::Pair(Box::new((**a).clone()), Box::new((**b).clone())),
        }
    }
}

} // verus!
