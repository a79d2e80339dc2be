use top::choice::ChoiceEditor;
use top::container::{OptionEditor, VecEditor};
use top::convert::FromStrEditor;
use top::editor::EditorError;
use top::event::{Event, Feedback};
use top::id::{Generator, Id};

fn update(id: u64, text: &str) -> Event {
    Event::Update { id: Id(id), value: text.to_string() }
}

fn press(id: u64) -> Event {
    Event::Press { id: Id(id) }
}

#[test]
fn value_editor_round_trip() {
    let mut gen = Generator::new();
    let mut e = FromStrEditor::new();
    e.start(&mut gen);
    e.write(5);
    assert_eq!(e.read(), Ok(5));
    let fb = e.on_event(&update(1, "42"), &mut gen);
    assert_eq!(fb, Some(Feedback::Valid { id: Id(1) }));
    assert_eq!(e.read(), Ok(42));
}

#[test]
fn value_editor_invalid_keeps_prior_value() {
    let mut gen = Generator::new();
    let mut e = FromStrEditor::new();
    e.start(&mut gen);
    e.write(7);
    let fb = e.on_event(&update(1, "4x2"), &mut gen);
    assert_eq!(fb, Some(Feedback::Invalid { id: Id(1) }));
    assert_eq!(e.read(), Ok(7));
}

#[test]
fn value_editor_ignores_foreign_events() {
    let mut gen = Generator::new();
    let mut e = FromStrEditor::new();
    e.start(&mut gen);
    assert_eq!(e.on_event(&update(99, "1"), &mut gen), None);
    assert_eq!(e.on_event(&press(1), &mut gen), None);
    assert_eq!(e.read(), Err(EditorError::Invalid));
}

#[test]
fn value_editor_parses_signed_decimals() {
    let mut gen = Generator::new();
    let mut e = FromStrEditor::new();
    e.start(&mut gen);
    e.on_event(&update(1, "-7"), &mut gen);
    assert_eq!(e.read(), Ok(-7));
    e.on_event(&update(1, "007"), &mut gen);
    assert_eq!(e.read(), Ok(7));
    e.on_event(&update(1, "9223372036854775807"), &mut gen);
    assert_eq!(e.read(), Ok(i64::MAX));
    e.on_event(&update(1, "-9223372036854775808"), &mut gen);
    assert_eq!(e.read(), Ok(i64::MIN));
    e.on_event(&update(1, "+5"), &mut gen);
    assert_eq!(e.read(), Ok(5));
}

#[test]
fn value_editor_rejects_bad_numbers() {
    let mut gen = Generator::new();
    let mut e = FromStrEditor::new();
    e.start(&mut gen);
    for bad in ["", "-", "+", "+-5", "9223372036854775808", "-9223372036854775809", "1.5", " 1"] {
        let fb = e.on_event(&update(1, bad), &mut gen);
        assert_eq!(fb, Some(Feedback::Invalid { id: Id(1) }), "input {:?}", bad);
    }
    assert_eq!(e.read(), Err(EditorError::Invalid));
}

#[test]
fn choice_editor_without_selection_fails() {
    let mut gen = Generator::new();
    let mut c = ChoiceEditor::new(vec![
        "red".to_string(),
        "green".to_string(),
        "blue".to_string(),
    ]);
    c.start(None, &mut gen);
    assert_eq!(c.finish(), Err(EditorError::Invalid));
}

#[test]
fn choice_editor_selects_by_index() {
    let mut gen = Generator::new();
    let mut c = ChoiceEditor::new(vec![
        "red".to_string(),
        "green".to_string(),
        "blue".to_string(),
    ]);
    c.start(None, &mut gen);
    let fb = c.on_event(&update(1, "2"), &mut gen);
    assert_eq!(fb, Some(Feedback::Valid { id: Id(1) }));
    assert_eq!(c.finish(), Ok("blue".to_string()));
}

#[test]
fn choice_editor_rejects_signed_indexes() {
    let mut gen = Generator::new();
    let mut c = ChoiceEditor::new(vec!["a".to_string(), "b".to_string()]);
    c.start(None, &mut gen);
    assert_eq!(c.on_event(&update(1, "-0"), &mut gen), Some(Feedback::Invalid { id: Id(1) }));
    assert_eq!(c.on_event(&update(1, "-1"), &mut gen), Some(Feedback::Invalid { id: Id(1) }));
    assert_eq!(c.on_event(&update(1, "+1"), &mut gen), Some(Feedback::Valid { id: Id(1) }));
    assert_eq!(c.finish(), Ok("b".to_string()));
}

#[test]
fn choice_editor_out_of_range_selection_fails() {
    let mut gen = Generator::new();
    let mut c = ChoiceEditor::new(vec!["a".to_string(), "b".to_string()]);
    c.start(None, &mut gen);
    assert_eq!(c.on_event(&update(1, "9"), &mut gen), Some(Feedback::Valid { id: Id(1) }));
    assert_eq!(c.finish(), Err(EditorError::Invalid));
    assert_eq!(c.on_event(&update(1, "x"), &mut gen), Some(Feedback::Invalid { id: Id(1) }));
}

#[test]
fn list_editor_add_keeps_and_extends_rows() {
    let mut gen = Generator::new();
    let mut l = VecEditor::new(FromStrEditor::new());
    l.start(Some(vec![1, 2]), &mut gen);
    assert_eq!(l.finish(), Ok(vec![1, 2]));
    assert_eq!(l.choices.len(), 2);
    let before: Vec<Id> = l.choices.iter().map(|r| r.id).collect();

    let fb1 = l.on_event(&press(2), &mut gen);
    match fb1 {
        Some(Feedback::Append { id, .. }) => assert_eq!(id, Id(1)),
        other => panic!("expected an append, got {:?}", other),
    }
    let fb2 = l.on_event(&press(2), &mut gen);
    assert!(matches!(fb2, Some(Feedback::Append { .. })));

    assert_eq!(l.choices.len(), 4);
    assert_eq!(l.editors.len(), 4);
    // the old rows keep their identifiers
    assert_eq!(l.choices[0].id, before[0]);
    assert_eq!(l.choices[1].id, before[1]);
    // all row identifiers are distinct
    for i in 0..l.choices.len() {
        for j in 0..l.choices.len() {
            if i != j {
                assert_ne!(l.choices[i].id, l.choices[j].id);
                assert_ne!(l.choices[i].sub_id, l.choices[j].sub_id);
            }
        }
    }
    // the added children start without a value, so the aggregate fails
    assert_eq!(l.finish(), Err(EditorError::Invalid));
}

#[test]
fn list_editor_remove_deletes_exactly_one_row() {
    let mut gen = Generator::new();
    let mut l = VecEditor::new(FromStrEditor::new());
    l.start(Some(vec![10, 20, 30]), &mut gen);
    // layout: group 1, add 2, children 3..5, rows (6,7) (8,9) (10,11)
    let survivors = (l.choices[0].id, l.choices[2].id);
    let removed = l.choices[1].id;
    let fb = l.on_event(&Event::Press { id: l.choices[1].sub_id }, &mut gen);
    assert_eq!(fb, Some(Feedback::Remove { id: removed }));
    assert_eq!(l.choices.len(), 2);
    assert_eq!(l.editors.len(), 2);
    assert_eq!((l.choices[0].id, l.choices[1].id), survivors);
    assert_eq!(l.finish(), Ok(vec![10, 30]));
}

#[test]
fn list_editor_routes_updates_to_children() {
    let mut gen = Generator::new();
    let mut l = VecEditor::new(FromStrEditor::new());
    l.start(Some(vec![10, 20]), &mut gen);
    let child = l.editors[0].id;
    let fb = l.on_event(&Event::Update { id: child, value: "99".to_string() }, &mut gen);
    assert_eq!(fb, Some(Feedback::Valid { id: child }));
    assert_eq!(l.finish(), Ok(vec![99, 20]));
}

#[test]
fn option_editor_toggles() {
    let mut gen = Generator::new();
    let mut o = OptionEditor::new(FromStrEditor::new());
    o.start(None, &mut gen);
    // layout: row (1,2), add 3, child 4
    assert_eq!(o.finish(), Ok(None));

    let fb = o.on_event(&press(3), &mut gen);
    assert!(matches!(fb, Some(Feedback::Replace { id, .. }) if id == Id(3)));
    assert_eq!(o.finish(), Err(EditorError::Invalid));

    assert_eq!(o.on_event(&update(4, "5"), &mut gen), Some(Feedback::Valid { id: Id(4) }));
    assert_eq!(o.finish(), Ok(Some(5)));

    let fb = o.on_event(&press(2), &mut gen);
    assert!(matches!(fb, Some(Feedback::Replace { id, .. }) if id == Id(1)));
    assert_eq!(o.finish(), Ok(None));
}

#[test]
fn option_editor_primed_with_value() {
    let mut gen = Generator::new();
    let mut o = OptionEditor::new(FromStrEditor::new());
    o.start(Some(Some(7)), &mut gen);
    assert_eq!(o.finish(), Ok(Some(7)));
}

#[test]
fn identifiers_stay_stable_across_renders() {
    let mut gen = Generator::new();
    let mut l = VecEditor::new(FromStrEditor::new());
    l.start(Some(vec![1]), &mut gen);
    let first = l.as_html();
    // a routed value update does not change the structure
    let child = l.editors[0].id;
    l.on_event(&Event::Update { id: child, value: "1".to_string() }, &mut gen);
    let second = l.as_html();
    assert_eq!(first, second);
}
