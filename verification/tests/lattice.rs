use top::task_value::TaskValue;

#[test]
fn merge_both_empty_collapses() {
    let a: TaskValue<i64> = TaskValue::Empty;
    let b: TaskValue<i64> = TaskValue::Stable(4);
    assert_eq!(a.and(b), TaskValue::Empty);
    let c: TaskValue<i64> = TaskValue::Unstable(3);
    let d: TaskValue<i64> = TaskValue::Empty;
    assert_eq!(c.and(d), TaskValue::Empty);
}

#[test]
fn merge_both_stable_pairs() {
    let a: TaskValue<i64> = TaskValue::Stable(1);
    let b: TaskValue<&str> = TaskValue::Stable("x");
    assert_eq!(a.and(b), TaskValue::Stable((1, "x")));
}

#[test]
fn merge_both_mixed_is_unstable() {
    let a: TaskValue<i64> = TaskValue::Stable(1);
    let b: TaskValue<i64> = TaskValue::Unstable(2);
    assert_eq!(a.and(b), TaskValue::Unstable((1, 2)));
    let c: TaskValue<i64> = TaskValue::Unstable(1);
    let d: TaskValue<i64> = TaskValue::Unstable(2);
    assert_eq!(c.and(d), TaskValue::Unstable((1, 2)));
}

#[test]
fn merge_either_takes_right_when_left_empty() {
    let a: TaskValue<i64> = TaskValue::Empty;
    assert_eq!(a.or(TaskValue::Unstable(9)), TaskValue::Unstable(9));
}

#[test]
fn merge_either_left_bias() {
    let a: TaskValue<i64> = TaskValue::Stable(1);
    assert_eq!(a.or(TaskValue::Stable(2)), TaskValue::Stable(1));
    let b: TaskValue<i64> = TaskValue::Unstable(1);
    assert_eq!(b.or(TaskValue::Stable(2)), TaskValue::Unstable(1));
}
