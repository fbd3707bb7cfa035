use typout::{Output, OutputIntent, Paint};

fn text(p: &Paint) -> Option<&str> {
    match p {
        Paint::Print(t) => Some(t.as_str()),
        _ => None,
    }
}

fn printed(paints: &[Paint]) -> Vec<String> {
    paints.iter().filter_map(|p| text(p)).map(|t| t.to_string()).collect()
}

#[test]
fn writes_then_flush_print_joined_text() {
    let mut out = Output::new();
    assert!(out.handle(OutputIntent::Write("Tick".to_string())).is_empty());
    assert!(out.handle(OutputIntent::Write(" 3s\n".to_string())).is_empty());
    let paints = out.handle(OutputIntent::Flush);
    assert_eq!(paints.len(), 5);
    assert!(matches!(paints[0], Paint::MoveToColumn(0)));
    assert!(matches!(paints[1], Paint::ClearUntilNewLine));
    assert!(matches!(paints[2], Paint::ClearFromCursorDown));
    assert_eq!(text(&paints[3]), Some("Tick 3s\n"));
    assert!(matches!(paints[4], Paint::RecordColumn));
}

#[test]
fn many_writes_keep_call_order() {
    let mut out = Output::new();
    for w in ["a", "bc", "", "d\n", "e"] {
        out.handle(OutputIntent::Write(w.to_string()));
    }
    let paints = out.handle(OutputIntent::Flush);
    assert_eq!(printed(&paints), vec!["abcd\ne".to_string()]);
    let again = out.handle(OutputIntent::Flush);
    assert_eq!(printed(&again), vec!["".to_string()]);
}

#[test]
fn drain_then_flush_prints_nothing() {
    let mut out = Output::new();
    out.handle(OutputIntent::Write("lost".to_string()));
    assert!(out.handle(OutputIntent::Drain).is_empty());
    let paints = out.handle(OutputIntent::Flush);
    assert_eq!(printed(&paints), vec!["".to_string()]);
}

#[test]
fn pin_flush_unpin_flush_clears_rows() {
    let mut out = Output::new();
    let paints = out.handle(OutputIntent::Pin("a".to_string(), "X\n".to_string()));
    assert_eq!(printed(&paints), vec!["X\n".to_string()]);
    let paints = out.handle(OutputIntent::Flush);
    assert!(matches!(paints[0], Paint::MoveUp(1)));
    assert_eq!(out.pinned_rows(), 1);
    let paints = out.handle(OutputIntent::Unpin("a".to_string()));
    assert_eq!(paints.len(), 4);
    assert!(matches!(paints[0], Paint::MoveUp(1)));
    assert!(matches!(paints[3], Paint::ClearFromCursorDown));
    assert_eq!(out.pinned_rows(), 0);
    let paints = out.handle(OutputIntent::Flush);
    assert!(matches!(paints[0], Paint::MoveToColumn(0)));
    assert_eq!(printed(&paints), vec!["".to_string()]);
    assert_eq!(out.pinned_rows(), 0);
}

#[test]
fn pin_twice_keeps_one_entry() {
    let mut out = Output::new();
    out.handle(OutputIntent::Pin("id".to_string(), "a\n".to_string()));
    let paints = out.handle(OutputIntent::Pin("id".to_string(), "b\n\n".to_string()));
    assert_eq!(printed(&paints), vec!["b\n\n".to_string()]);
    assert_eq!(out.pinned_rows(), 2);
}

#[test]
fn pins_repaint_in_insertion_order() {
    let mut out = Output::new();
    out.handle(OutputIntent::Pin("a".to_string(), "A\n".to_string()));
    out.handle(OutputIntent::Pin("b".to_string(), "B\n".to_string()));
    let paints = out.handle(OutputIntent::Pin("a".to_string(), "A2\n".to_string()));
    assert_eq!(printed(&paints), vec!["A2\n".to_string(), "B\n".to_string()]);
    assert_eq!(out.pinned_rows(), 2);
}

#[test]
fn unpin_of_unknown_id_changes_nothing() {
    let mut out = Output::new();
    out.handle(OutputIntent::Pin("a".to_string(), "A\n".to_string()));
    let paints = out.handle(OutputIntent::Unpin("zzz".to_string()));
    assert_eq!(printed(&paints), vec!["A\n".to_string()]);
    assert_eq!(out.pinned_rows(), 1);
}

#[test]
fn flush_uses_recorded_column() {
    let mut out = Output::new();
    out.handle(OutputIntent::Write("abc".to_string()));
    out.handle(OutputIntent::Flush);
    out.set_column(3);
    let paints = out.handle(OutputIntent::Flush);
    assert!(matches!(paints[0], Paint::MoveToColumn(3)));
}

#[test]
fn exit_paints_nothing() {
    let mut out = Output::default();
    assert!(out.handle(OutputIntent::Exit).is_empty());
}

#[test]
fn fits_checks_pinned_rows() {
    let out = Output::new();
    let big = "\n".repeat(70000);
    assert!(!out.fits(&OutputIntent::Pin("a".to_string(), big)));
    assert!(out.fits(&OutputIntent::Pin("a".to_string(), "\n".repeat(65535))));
    assert!(out.fits(&OutputIntent::Flush));
}
