// The annotation invariants: overlap rejection, order after inserts, and
// the builder's error cases.

use prologue_logger::annotation::SourceLine;
use prologue_logger::error::ErrorKind;
use prologue_logger::{Entry, EntryKind};

#[test]
fn overlap_is_rejected_and_line_unchanged() {
    let entry = Entry::new_error("some expression warning".to_string())
        .source(44, 25)
        .new_line(44, "    let result = 1 + 2 * 3;".to_string());
    let entry = entry.annotate_err(22, 5, String::new()).unwrap();

    // A span reaching into the existing one from the left: the builder
    // comes back untouched together with the error.
    let entry = match entry.annotate_err(18, 5, String::new()) {
        Err((builder, e)) => {
            assert!(matches!(e.kind, ErrorKind::OverlappingAnnotation));
            builder
        }
        Ok(_) => panic!("overlapping annotation was accepted"),
    };

    // A span inside the existing one.
    let entry = match entry.annotate_err(24, 1, String::new()) {
        Err((builder, _)) => builder,
        Ok(_) => panic!("overlapping annotation was accepted"),
    };

    // The annotation set still contains exactly the first annotation.
    let finished = entry.finish();
    let source = finished.source.expect("source block missing");
    assert_eq!(source.lines.len(), 1);
    let annotations = &source.lines[0].annotations;
    assert_eq!(annotations.len(), 1);
    assert_eq!(annotations[0].reference.position, 22);
    assert_eq!(annotations[0].reference.len, 5);
}

#[test]
fn touching_spans_do_not_conflict() {
    let mut line = SourceLine::new(1, "abcdefghij".to_string());
    line.annotate(EntryKind::Warning, 3, 2, String::new()).unwrap();
    // Ends exactly where the existing one starts.
    line.annotate(EntryKind::Warning, 1, 2, String::new()).unwrap();
    // Starts exactly where the existing one ends.
    line.annotate(EntryKind::Warning, 5, 2, String::new()).unwrap();
    assert_eq!(line.annotations.len(), 3);
}

#[test]
fn inserts_keep_annotations_sorted_by_position() {
    let mut line = SourceLine::new(1, "abcdefghijklmnop".to_string());
    line.annotate(EntryKind::Error, 9, 2, String::new()).unwrap();
    line.annotate(EntryKind::Error, 1, 2, String::new()).unwrap();
    line.annotate(EntryKind::Error, 13, 2, String::new()).unwrap();
    line.annotate(EntryKind::Error, 5, 2, String::new()).unwrap();
    let positions: Vec<usize> = line
        .annotations
        .iter()
        .map(|a| a.reference.position)
        .collect();
    assert_eq!(positions, vec![1, 5, 9, 13]);
}

#[test]
fn annotating_before_any_line_fails() {
    let builder = Entry::new_warning("w".to_string()).source(1, 1);
    let rejected = builder.annotate_warn(1, 1, String::new());
    match rejected {
        Err((_builder, e)) => assert!(matches!(e.kind, ErrorKind::AnnotationOnEmptyLine)),
        Ok(_) => panic!("annotation on an empty line was accepted"),
    }
}

#[test]
fn discard_returns_the_original_entry() {
    let entry = Entry::new_error("mismatched types".to_string());
    let builder = entry
        .source(44, 25)
        .new_line(44, "    let result = 1 + 2 * 3;".to_string());
    let entry = builder.discard();
    // The entry comes back exactly as it was before the builder was
    // opened: no source, and the emphasize flag still clear.
    assert!(entry.source.is_none());
    assert!(!entry.bright);
    assert_eq!(entry.text, "mismatched types");
    assert_eq!(entry.kind, EntryKind::Error);
}

#[test]
fn finish_emphasizes_the_message() {
    let entry = Entry::new_warning("w".to_string());
    assert!(!entry.bright);
    let entry = entry.source(1, 1).finish();
    assert!(entry.bright);
    assert!(entry.source.is_some());
}

#[test]
fn finish_flushes_the_open_line() {
    let entry = Entry::new_warning("w".to_string())
        .source(2, 1)
        .new_line(2, "first".to_string())
        .new_line(3, "second".to_string())
        .finish();
    let source = entry.source.expect("source block missing");
    assert_eq!(source.lines.len(), 2);
    assert_eq!(source.lines[0].line, 2);
    assert_eq!(source.lines[0].contents, "first");
    assert_eq!(source.lines[1].line, 3);
    assert_eq!(source.lines[1].contents, "second");
}

#[test]
fn error_messages_name_the_failure() {
    let entry = Entry::new_error("e".to_string())
        .source(1, 1)
        .new_line(1, "abc".to_string())
        .annotate_err(1, 2, String::new())
        .unwrap();
    let (_builder, err) = entry.annotate_err(2, 2, String::new()).unwrap_err();
    assert_eq!(
        err.message(),
        "annotation overlaps with previous annotation"
    );

    let (_builder, err) = Entry::new_error("e".to_string())
        .source(1, 1)
        .annotate_err(1, 2, String::new())
        .unwrap_err();
    assert_eq!(err.message(), "tried to annotate an empty line");
}
