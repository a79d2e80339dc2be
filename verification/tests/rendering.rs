use top::html::{text_field, u64_string, i64_string, value_to_repr, Html, ToRepr};
use top::id::Id;
use top::task_value::TaskValue;
use top::value::Value;

#[test]
fn decimal_rendering_is_exact() {
    assert_eq!(u64_string(0), "0");
    assert_eq!(u64_string(12034), "12034");
    assert_eq!(u64_string(u64::MAX), "18446744073709551615");
    assert_eq!(i64_string(-5), "-5");
    assert_eq!(i64_string(i64::MIN), "-9223372036854775808");
    assert_eq!(i64_string(7), "7");
}

#[test]
fn text_field_markup_is_exact() {
    assert_eq!(text_field(Id(7), "ab"), Html("<input id=\"7\" value=\"ab\">".to_string()));
}

#[test]
fn page_wrapper_mounts_the_root_container() {
    assert_eq!(
        Html::wrapper("t"),
        Html(
            "<!DOCTYPE html><html><head><title>t</title></head><body><div id=\"0\"></div></body></html>"
                .to_string(),
        ),
    );
}

#[test]
fn values_render_to_their_text() {
    assert_eq!(value_to_repr(&Value::Int(-3)), Html("-3".to_string()));
    assert_eq!(value_to_repr(&Value::Text("hi".to_string())), Html("hi".to_string()));
    assert_eq!(value_to_repr(&Value::List(vec![1, 2, 30])), Html("1230".to_string()));
    assert_eq!(value_to_repr(&Value::Maybe(None)), Html(String::new()));
    assert_eq!(
        value_to_repr(&Value::Pair(
            Box::new(Value::Int(3)),
            Box::new(Value::Text("ab".to_string())),
        )),
        Html("3ab".to_string()),
    );
    let tv: TaskValue<Value> = TaskValue::Empty;
    assert_eq!(tv.to_repr(), Html(String::new()));
    let tv2: TaskValue<Value> = TaskValue::Unstable(Value::Int(5));
    assert_eq!(tv2.to_repr(), Html("5".to_string()));
}
