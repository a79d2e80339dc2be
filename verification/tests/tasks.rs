use top::event::{Event, Feedback};
use top::html::Html;
use top::id::{Generator, Id};
use top::interact::{edit, edit_shared, enter};
use top::parallel::TaskParallelExt;
use top::share::ShareRegistry;
use top::task::{merged_with, Task, TaskError};
use top::task_value::TaskValue;
use top::value::Value;

fn update(id: u64, text: &str) -> Event {
    Event::Update { id: Id(id), value: text.to_string() }
}

#[test]
fn both_composition_end_to_end() {
    let mut gen = Generator::new();
    let mut reg = ShareRegistry::new();
    let mut t = Task::Interact(enter()).and(Task::Interact(enter()));
    t.start(&mut gen, &mut reg);
    // editor A owns element 1, editor B element 2
    assert_eq!(t.value(&reg), TaskValue::Empty);

    let fb = t.on_event(&update(1, "3"), &mut gen, &mut reg).unwrap();
    assert_eq!(fb, vec![Feedback::Valid { id: Id(1) }]);
    // B is still empty, so the composite stays empty
    assert_eq!(t.value(&reg), TaskValue::Empty);

    let fb = t.on_event(&update(2, "4"), &mut gen, &mut reg).unwrap();
    assert_eq!(fb, vec![Feedback::Valid { id: Id(2) }]);
    assert_eq!(
        t.value(&reg),
        TaskValue::Unstable(Value::Pair(Box::new(Value::Int(3)), Box::new(Value::Int(4)))),
    );
}

#[test]
fn either_composition_is_left_biased() {
    let mut gen = Generator::new();
    let mut reg = ShareRegistry::new();
    let mut t = Task::Interact(edit(1)).or(Task::Interact(edit(2)));
    t.start(&mut gen, &mut reg);
    assert_eq!(t.value(&reg), TaskValue::Unstable(Value::Int(1)));
}

#[test]
fn left_and_right_pick_one_branch() {
    let mut gen = Generator::new();
    let mut reg = ShareRegistry::new();
    let mut l = Task::Interact(edit(1)).left(Task::Interact(edit(2)));
    l.start(&mut gen, &mut reg);
    assert_eq!(l.value(&reg), TaskValue::Unstable(Value::Int(1)));

    let mut r = Task::Interact(edit(1)).right(Task::Interact(edit(2)));
    r.start(&mut gen, &mut reg);
    assert_eq!(r.value(&reg), TaskValue::Unstable(Value::Int(2)));
}

#[test]
fn both_branches_see_every_event() {
    let mut gen = Generator::new();
    let mut reg = ShareRegistry::new();
    // two editors, then an update addressed to the right one only
    let mut t = Task::Interact(enter()).and(Task::Interact(enter()));
    t.start(&mut gen, &mut reg);
    let fb = t.on_event(&update(2, "8"), &mut gen, &mut reg).unwrap();
    // only the owner produced feedback
    assert_eq!(fb, vec![Feedback::Valid { id: Id(2) }]);
}

#[test]
fn feedback_merge_conflict_is_fatal() {
    let a = vec![Feedback::Replace { id: Id(1), html: Html("x".to_string()) }];
    let b = vec![Feedback::Replace { id: Id(1), html: Html("y".to_string()) }];
    assert_eq!(merged_with(a, b), Err(TaskError::Feedback));
}

#[test]
fn feedback_merge_concatenates() {
    let a = vec![Feedback::Valid { id: Id(1) }];
    let b = vec![Feedback::Remove { id: Id(2) }];
    assert_eq!(
        merged_with(a, b),
        Ok(vec![Feedback::Valid { id: Id(1) }, Feedback::Remove { id: Id(2) }]),
    );
}

#[test]
fn shared_edit_writes_through_and_refreshes_viewers() {
    let mut gen = Generator::new();
    let mut reg = ShareRegistry::new();
    let share = reg.create(TaskValue::Stable(Value::Int(0)), &mut gen);
    let mut viewer = top::view::Viewer::new_shared(share);
    viewer.start(&mut gen, &mut reg);
    let viewer_element = viewer.id;

    let mut t = Task::Interact(edit_shared(share));
    t.start(&mut gen, &mut reg);
    // the editor owns element 3
    let fb = t.on_event(&update(3, "9"), &mut gen, &mut reg).unwrap();
    assert_eq!(fb.len(), 2);
    assert_eq!(fb[0], Feedback::Valid { id: Id(3) });
    match &fb[1] {
        Feedback::Replace { id, .. } => assert_eq!(*id, viewer_element),
        other => panic!("expected a replace, got {:?}", other),
    }
    assert_eq!(reg.clone_value(share), TaskValue::Unstable(Value::Int(9)));
    assert_eq!(t.value(&reg), TaskValue::Unstable(Value::Int(9)));
}

#[test]
fn rendering_is_deterministic() {
    let mut gen = Generator::new();
    let mut reg = ShareRegistry::new();
    let mut t = Task::Interact(edit(5)).and(Task::Interact(enter()));
    t.start(&mut gen, &mut reg);
    assert_eq!(t.to_repr(&reg), t.to_repr(&reg));
}
