use wdl_facade::model::{Diag, ItemKind, Severity, TopItem};
use wdl_facade::report::{collect_error_messages, join_with_newlines};
use wdl_facade::summary::find_first_name;

#[test]
fn warnings_and_notes_are_dropped() {
    let diags = vec![
        Diag { severity: Severity::Warning, message: "w1".to_string() },
        Diag { severity: Severity::Error, message: "e1".to_string() },
        Diag { severity: Severity::Note, message: "n1".to_string() },
        Diag { severity: Severity::Error, message: "e2".to_string() },
    ];
    let messages = collect_error_messages(&diags);
    assert_eq!(messages, vec!["e1".to_string(), "e2".to_string()]);
    assert_eq!(join_with_newlines(&messages), "e1\ne2");
}

#[test]
fn joining_preserves_order_and_separator() {
    let msgs = vec!["first".to_string(), "second".to_string(), "third".to_string()];
    assert_eq!(join_with_newlines(&msgs), "first\nsecond\nthird");
    assert_eq!(join_with_newlines(&vec!["only".to_string()]), "only");
    assert_eq!(join_with_newlines(&Vec::new()), "");
}

#[test]
fn find_first_name_scans_in_order() {
    let items = vec![
        TopItem { kind: ItemKind::Other, name: String::new() },
        TopItem { kind: ItemKind::Task, name: "t1".to_string() },
        TopItem { kind: ItemKind::Workflow, name: "w1".to_string() },
        TopItem { kind: ItemKind::Task, name: "t2".to_string() },
        TopItem { kind: ItemKind::Workflow, name: "w2".to_string() },
    ];
    assert_eq!(find_first_name(&items, ItemKind::Workflow), Some("w1".to_string()));
    assert_eq!(find_first_name(&items, ItemKind::Task), Some("t1".to_string()));
    assert_eq!(find_first_name(&Vec::new(), ItemKind::Workflow), None);
}
