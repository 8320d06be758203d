// The low-level text blocks: decimal rendering, padding, repetition, and
// line splitting.

use prologue_logger::text::{dec_len, push_dec, push_dec_pad_left, push_repeat, split_lines};

#[test]
fn decimal_rendering_is_exact() {
    let mut s = String::new();
    push_dec(&mut s, 0);
    assert_eq!(s, "0");
    let mut s = String::new();
    push_dec(&mut s, 1163);
    assert_eq!(s, "1163");
    let mut s = String::new();
    push_dec(&mut s, 10);
    assert_eq!(s, "10");
    let mut s = String::new();
    push_dec(&mut s, usize::MAX);
    assert_eq!(s, usize::MAX.to_string());
}

#[test]
fn digit_counts() {
    assert_eq!(dec_len(0), 1);
    assert_eq!(dec_len(9), 1);
    assert_eq!(dec_len(10), 2);
    assert_eq!(dec_len(577), 3);
    assert_eq!(dec_len(1163), 4);
}

#[test]
fn padding_and_repetition() {
    let mut s = String::new();
    push_dec_pad_left(&mut s, 7, 4);
    assert_eq!(s, "   7");
    let mut s = String::new();
    push_dec_pad_left(&mut s, 12345, 3);
    assert_eq!(s, "12345");
    let mut s = String::new();
    push_repeat(&mut s, '^', 3);
    assert_eq!(s, "^^^");
}

#[test]
fn line_splitting_follows_line_endings() {
    let lines = split_lines("a\nb\r\nc");
    assert_eq!(lines, vec!["a", "b", "c"]);
    let lines = split_lines("a\n\nb\n");
    assert_eq!(lines, vec!["a", "", "b"]);
    let lines = split_lines("");
    assert!(lines.is_empty());
    let lines = split_lines("\n");
    assert_eq!(lines, vec![""]);
}
