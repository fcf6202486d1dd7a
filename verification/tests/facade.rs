use wdl_facade::facade::parse_document;

#[test]
fn workflow_summary() {
    let doc = parse_document("version 1.0\n\nworkflow hello {\n}\n").expect("should parse");
    assert_eq!(doc.describe(), "<WdlDocument workflow=hello>");
}

#[test]
fn workflow_wins_over_earlier_task() {
    let source = "version 1.0\n\ntask T {\n  command <<<>>>\n}\n\nworkflow W {\n}\n";
    let doc = parse_document(source).expect("should parse");
    assert_eq!(doc.describe(), "<WdlDocument workflow=W>");
}

#[test]
fn task_summary_without_workflow() {
    let source = "version 1.0\n\ntask T {\n  command <<<>>>\n}\n";
    let doc = parse_document(source).expect("should parse");
    assert_eq!(doc.describe(), "<WdlDocument task=T>");
}

#[test]
fn first_workflow_in_document_order() {
    let source = "version 1.0\n\nworkflow first {\n}\n\nworkflow second {\n}\n";
    let doc = parse_document(source).expect("should parse");
    assert_eq!(doc.describe(), "<WdlDocument workflow=first>");
}

#[test]
fn first_task_in_document_order() {
    let source =
        "version 1.0\n\ntask alpha {\n  command <<<>>>\n}\n\ntask beta {\n  command <<<>>>\n}\n";
    let doc = parse_document(source).expect("should parse");
    assert_eq!(doc.describe(), "<WdlDocument task=alpha>");
}

#[test]
fn nameless_document() {
    let doc = parse_document("version 1.0\n").expect("should parse");
    assert_eq!(doc.describe(), "<WdlDocument parsed successfully>");
}

#[test]
fn struct_only_document_is_nameless() {
    let source = "version 1.0\n\nstruct S {\n  Int x\n}\n";
    let doc = parse_document(source).expect("should parse");
    assert_eq!(doc.describe(), "<WdlDocument parsed successfully>");
}

#[test]
fn empty_input_is_rejected_with_message() {
    let err = parse_document("").expect_err("empty input should be rejected");
    assert_eq!(err.message, "missing version statement");
}

#[test]
fn unsupported_version_is_rejected() {
    let err = parse_document("version 5.0\n\nworkflow W {\n}\n")
        .expect_err("unsupported version should be rejected");
    assert_eq!(err.message, "unsupported WDL version `5.0`");
}

#[test]
fn repeated_parses_agree() {
    let bad = "version 1.0\n\nworkflow {\n}\n";
    let first = parse_document(bad).expect_err("missing name should be rejected");
    let second = parse_document(bad).expect_err("missing name should be rejected");
    assert_eq!(first.message, second.message);
    assert!(!first.message.is_empty());

    let good = "version 1.0\n\nworkflow W {\n}\n";
    assert!(parse_document(good).is_ok());
    assert!(parse_document(good).is_ok());
}

#[test]
fn multiple_errors_are_joined_with_newlines() {
    let source = "version 1.0\n\nworkflow {\n}\n\ntask {\n  command <<<>>>\n}\n";
    let err = parse_document(source).expect_err("two missing names should be rejected");
    assert_eq!(
        err.message,
        "expected workflow name, but found `{`\nexpected task name, but found `{`"
    );
    let again = parse_document(source).expect_err("two missing names should be rejected");
    assert_eq!(err.message, again.message);
}
