// Rendering scenarios: single annotations, staggered call-outs, notes,
// groups with a shared column, and task lines.

use prologue_logger::annotation::SourceLine;
use prologue_logger::{Entry, MultiEntry, Task};

#[test]
fn single_annotation_no_label() {
    let mut line = SourceLine::new(5, "use std::io::Read;".to_string());
    line.annotate(
        prologue_logger::EntryKind::Warning,
        5,
        13,
        String::new(),
    )
    .unwrap();
    let rendered = line.render();
    assert_eq!(
        rendered,
        "5 | use std::io::Read;\n  |     ^^^^^^^^^^^^^ \n"
    );
}

#[test]
fn entry_with_two_annotations_and_note() {
    let entry = Entry::new_warning("variable does not need to be mutable".to_string())
        .named_source("src/main.rs".to_string(), 3, 9)
        .new_line(3, "    let mut x = 42;".to_string())
        .annotate_help(9, 4, "help: remove this `mut`".to_string())
        .unwrap()
        .annotate_warn(13, 1, String::new())
        .unwrap()
        .note("`#[warn(unused_mut)]` on by default".to_string())
        .finish();
    let rendered = entry.render();
    let expected = "warning: variable does not need to be mutable\n --> src/main.rs:3:9\n  |\n3 |     let mut x = 42;\n  |         ----^ \n  |         |   \n  |         help: remove this `mut`\n  |\n  = note: `#[warn(unused_mut)]` on by default\n\n";
    assert_eq!(rendered, expected);
}

#[test]
fn rendering_is_idempotent() {
    let entry = Entry::new_error("mismatched types".to_string())
        .source(44, 25)
        .new_line(44, "    file.read_to_string(&contents);".to_string())
        .annotate_err(25, 9, "types differ in mutability".to_string())
        .unwrap()
        .finish();
    let first = entry.render();
    let second = entry.render();
    assert_eq!(first.as_bytes(), second.as_bytes());
}

#[test]
fn entry_without_source_renders_header_only() {
    let entry = Entry::new_note("something happened".to_string());
    assert_eq!(entry.render(), "note: something happened\n");
    let entry = Entry::new_help("try this".to_string());
    assert_eq!(entry.render(), "help: try this\n");
}

#[test]
fn two_entry_group_shares_column_and_gapless() {
    let first = Entry::new_warning("missing documentation for a struct".to_string())
        .source(577, 1)
        .new_line(577, "pub struct EntrySourceBuilder {".to_string())
        .annotate_warn(1, 31, String::new())
        .unwrap()
        .finish();
    let second = Entry::new_note("the lint level is defined here".to_string())
        .source(1, 9)
        .new_line(1, "#![warn(missing_docs)]".to_string())
        .annotate_note(9, 12, String::new())
        .unwrap()
        .finish();
    let group = MultiEntry::new().entry(first).entry(second);
    assert_eq!(group.width(), 3);
    let rendered = group.render();
    let expected = "warning: missing documentation for a struct\n   --> <anonymous>:577:1\n    |\n577 | pub struct EntrySourceBuilder {\n    | ^^^^^^^^^^^^^^^^^^^^^^^^^^^^^^^ \nnote: the lint level is defined here\n   --> <anonymous>:1:9\n    |\n1   | #![warn(missing_docs)]\n    |         ^^^^^^^^^^^^ \n\n";
    assert_eq!(rendered, expected);
    // No blank line between the members; exactly one after the group.
    let body = &rendered[..rendered.len() - 1];
    assert!(!body.contains("\n\n"));
    assert!(rendered.ends_with("\n\n"));
}

#[test]
fn group_alignment_uses_widest_member() {
    let first = Entry::new_warning("first".to_string())
        .source(5, 1)
        .new_line(5, "let a = 1;".to_string())
        .annotate_warn(1, 3, String::new())
        .unwrap()
        .finish();
    let second = Entry::new_note("second".to_string())
        .source(1163, 5)
        .new_line(1163, "    pub fn log_to_target(self) {}".to_string())
        .annotate_note(5, 6, String::new())
        .unwrap()
        .finish();
    let group = MultiEntry::new().entry(first).entry(second);
    // The shared width is the digit count of 1163, not of 5.
    assert_eq!(group.width(), 4);
    let rendered = group.render();
    assert!(rendered.contains("5    | let a = 1;\n"));
    assert!(rendered.contains("1163 |     pub fn log_to_target(self) {}\n"));
}

#[test]
fn multiline_note_renders_continuation_rows() {
    let entry = Entry::new_error("mismatched types".to_string())
        .source(44, 25)
        .new_line(44, "    file.read_to_string(&contents);".to_string())
        .annotate_err(25, 9, "types differ in mutability".to_string())
        .unwrap()
        .note("expected `&mut String`\nfound `&String`".to_string())
        .finish();
    let rendered = entry.render();
    let expected = "error: mismatched types\n  --> <anonymous>:44:25\n   |\n44 |     file.read_to_string(&contents);\n   |                         ^^^^^^^^^ types differ in mutability\n   |\n   = note: expected `&mut String`\n           found `&String`\n\n";
    assert_eq!(rendered, expected);
}

#[test]
fn help_and_note_render_in_insertion_order() {
    let entry = Entry::new_error("expected `;`".to_string())
        .source(6, 1)
        .new_line(6, "{};".to_string())
        .annotate_help(1, 1, "unexpected token".to_string())
        .unwrap()
        .help("add a `;` before".to_string())
        .note("parsing continued anyway".to_string())
        .finish();
    let rendered = entry.render();
    let expected = "error: expected `;`\n --> <anonymous>:6:1\n  |\n6 | {};\n  | - unexpected token\n  |\n  = help: add a `;` before\n  = note: parsing continued anyway\n\n";
    assert_eq!(rendered, expected);
}

#[test]
fn source_without_annotations_closes_margin() {
    let entry = Entry::new_warning("just context".to_string())
        .source(12, 5)
        .new_line(12, "    let x = 1;".to_string())
        .finish();
    let rendered = entry.render();
    let expected = "warning: just context\n  --> <anonymous>:12:5\n   |\n12 |     let x = 1;\n   |\n\n";
    assert_eq!(rendered, expected);
}

#[test]
fn three_labelled_annotations_stagger_right_to_left() {
    let mut line = SourceLine::new(7, "let sum = a + b;".to_string());
    line.annotate(prologue_logger::EntryKind::Error, 11, 1, "first".to_string())
        .unwrap();
    line.annotate(prologue_logger::EntryKind::Error, 15, 1, "second".to_string())
        .unwrap();
    let rendered = line.render();
    let expected = "7 | let sum = a + b;\n  |           ^   ^ second\n  |           |\n  |           first\n";
    assert_eq!(rendered, expected);
}

#[test]
fn notes_render_even_without_source_lines() {
    // A source block carrying only trailing notes is legal: the header
    // and the notes render, with the margin rows between them.
    let entry = Entry::new_warning("deprecated configuration".to_string())
        .source(1, 1)
        .note("set `edition = \"2021\"`".to_string())
        .finish();
    let rendered = entry.render();
    let expected = "warning: deprecated configuration\n --> <anonymous>:1:1\n  |\n  |\n  |\n  = note: set `edition = \"2021\"`\n\n";
    assert_eq!(rendered, expected);
}

#[test]
fn column_width_covers_the_anchor_line() {
    // The anchor line (103) has more digits than any source line (7), so
    // the column is three characters wide.
    let entry = Entry::new_note("see the call site".to_string())
        .source(103, 5)
        .new_line(7, "fn helper() {}".to_string())
        .annotate_note(4, 6, String::new())
        .unwrap()
        .finish();
    let rendered = entry.render();
    let expected = "note: see the call site\n   --> <anonymous>:103:5\n    |\n7   | fn helper() {}\n    |    ^^^^^^ \n\n";
    assert_eq!(rendered, expected);
}

#[test]
fn task_renders_right_aligned_verb() {
    let task = Task::new("Running".to_string(), "example".to_string());
    assert_eq!(task.render(), "     Running example\n");
    let task = Task::new("Doing".to_string(), "task 1".to_string());
    assert_eq!(task.render(), "       Doing task 1\n");
}

#[test]
fn task_pads_by_characters_not_bytes() {
    // A verb with a two-byte character still sits in a twelve-character
    // column.
    let task = Task::new("Prüfen".to_string(), "beispiel".to_string());
    assert_eq!(task.render(), "      Prüfen beispiel\n");
}
