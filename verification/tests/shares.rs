use top::html::Html;
use top::event::Feedback;
use top::id::{Generator, Id};
use top::share::ShareRegistry;
use top::task_value::TaskValue;
use top::value::Value;
use top::view::{Color, Viewer};

#[test]
fn write_refreshes_each_bound_viewer_once() {
    let mut gen = Generator::new();
    let mut reg = ShareRegistry::new();
    let s1 = reg.create(TaskValue::Stable(Value::Int(1)), &mut gen);
    let s2 = reg.create(TaskValue::Stable(Value::Int(2)), &mut gen);

    let mut v1 = Viewer::new_shared(s1);
    v1.start(&mut gen, &mut reg);
    let mut v2 = Viewer::new_shared(s1);
    v2.start(&mut gen, &mut reg);
    let mut v3 = Viewer::new_shared(s2);
    v3.start(&mut gen, &mut reg);

    let fb = reg.write(s1, TaskValue::Unstable(Value::Int(7)));
    assert_eq!(fb.len(), 2);
    match &fb[0] {
        Feedback::Replace { id, .. } => assert_eq!(*id, v1.id),
        other => panic!("expected a replace, got {:?}", other),
    }
    match &fb[1] {
        Feedback::Replace { id, .. } => assert_eq!(*id, v2.id),
        other => panic!("expected a replace, got {:?}", other),
    }
    for f in &fb {
        match f {
            Feedback::Replace { id, .. } => assert_ne!(*id, v3.id),
            _ => {},
        }
    }
    assert_eq!(reg.clone_value(s1), TaskValue::Unstable(Value::Int(7)));
    assert_eq!(reg.clone_value(s2), TaskValue::Stable(Value::Int(2)));
}

#[test]
fn refresh_is_a_no_op_for_other_identities() {
    let mut gen = Generator::new();
    let mut reg = ShareRegistry::new();
    let s1 = reg.create(TaskValue::Stable(Value::Int(1)), &mut gen);
    let s2 = reg.create(TaskValue::Stable(Value::Int(2)), &mut gen);
    let mut v = Viewer::new_shared(s1);
    v.start(&mut gen, &mut reg);

    assert!(v.refresh(s2, &reg).is_none());
    match v.refresh(s1, &reg) {
        Some(Feedback::Replace { id, .. }) => assert_eq!(id, v.id),
        other => panic!("expected a replace, got {:?}", other),
    }
}

#[test]
fn writing_an_unknown_identity_changes_nothing() {
    let mut gen = Generator::new();
    let mut reg = ShareRegistry::new();
    let s1 = reg.create(TaskValue::Stable(Value::Int(1)), &mut gen);
    let fb = reg.write(Id(99), TaskValue::Unstable(Value::Int(5)));
    assert!(fb.is_empty());
    assert_eq!(reg.clone_value(s1), TaskValue::Stable(Value::Int(1)));
}

#[test]
fn deregistered_viewers_get_no_refresh() {
    let mut gen = Generator::new();
    let mut reg = ShareRegistry::new();
    let s1 = reg.create(TaskValue::Stable(Value::Int(1)), &mut gen);
    let mut v1 = Viewer::new_shared(s1);
    v1.start(&mut gen, &mut reg);
    let mut v2 = Viewer::new_shared(s1);
    v2.start(&mut gen, &mut reg);

    reg.deregister_viewer(v1.id);
    let fb = reg.write(s1, TaskValue::Unstable(Value::Int(9)));
    assert_eq!(fb.len(), 1);
    match &fb[0] {
        Feedback::Replace { id, .. } => assert_eq!(*id, v2.id),
        other => panic!("expected a replace, got {:?}", other),
    }
}

#[test]
fn viewer_renders_observed_value() {
    let mut gen = Generator::new();
    let mut reg = ShareRegistry::new();
    let s = reg.create(TaskValue::Stable(Value::Int(42)), &mut gen);
    let mut v = Viewer::new_shared(s).with_color(Color::Red);
    v.start(&mut gen, &mut reg);
    assert_eq!(
        v.to_html(&reg),
        Html("<div id=\"2\"><span style=\"color: red;\">42</span></div>".to_string()),
    );
}

#[test]
fn viewer_new_creates_a_stable_share() {
    let mut gen = Generator::new();
    let mut reg = ShareRegistry::new();
    let mut v = Viewer::new(Value::Int(3), &mut gen, &mut reg);
    v.start(&mut gen, &mut reg);
    assert_eq!(v.value(&reg), TaskValue::Stable(Value::Int(3)));
}
