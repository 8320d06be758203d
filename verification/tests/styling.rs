// The rich-text toolkit and the plain presentation backend.

use prologue_logger::internals::console::{style, StyledObject};
use prologue_logger::internals::{AnnotationUnderline, Arrow, Colon, LineStart, NoteDash};
use prologue_logger::style::{
    Highlight, RichLine, RichMargin, RichPiece, RichText, RightAligned, Style, StyledItem, Title,
    Width,
};
use prologue_logger::EntryKind;

#[test]
fn plain_backend_passes_text_through() {
    let styled = style("hello".to_string())
        .red()
        .green()
        .blue()
        .cyan()
        .magenta()
        .yellow()
        .white()
        .black()
        .bright();
    assert_eq!(styled.text(), "hello");
    assert_eq!(styled, StyledObject("hello".to_string()));
}

#[test]
fn hidden_text_keeps_its_width() {
    let hidden = style("hello".to_string()).hidden();
    assert_eq!(hidden.text(), "     ");
    // Width counts characters, not bytes.
    let hidden = style("höhe".to_string()).hidden();
    assert_eq!(hidden.text(), "    ");
}

#[test]
fn marker_glyphs() {
    assert_eq!(LineStart.text(), "|");
    assert_eq!(NoteDash.text(), "=");
    assert_eq!(Arrow.text(), "-->");
    assert_eq!(Colon.text(), ":");
}

#[test]
fn underline_runs_use_the_severity_glyph() {
    assert_eq!(AnnotationUnderline(EntryKind::Error, 4).render(), "^^^^");
    assert_eq!(AnnotationUnderline(EntryKind::Warning, 2).render(), "^^");
    assert_eq!(AnnotationUnderline(EntryKind::Note, 3).render(), "^^^");
    assert_eq!(AnnotationUnderline(EntryKind::Help, 5).render(), "-----");
    assert_eq!(AnnotationUnderline(EntryKind::Error, 0).render(), "");
}

#[test]
fn margins_render_number_and_bar() {
    assert_eq!(RichMargin::new().render(3), "    |");
    assert_eq!(RichMargin::with_line_number(42).render(4), "42   |");
    assert_eq!(RichMargin::diff_add().render(1), "  +");
    assert_eq!(RichMargin::diff_sub_with_line_number(7).render(2), "7  -");
    assert_eq!(RichMargin::new_dashed().render(0), " =");
    assert_eq!(RichMargin::new_empty().render(1), "   ");
    assert_eq!(RichMargin::diff_add_with_line_number(12).render(2), "12 +");
    assert_eq!(RichMargin::diff_sub().render(0), " -");
}

#[test]
fn highlight_renders_offset_and_run() {
    let h = Highlight::with_style(Style::Error).offset(3).len(4);
    assert_eq!(h.render(), "   ^^^^");
    let h = Highlight::with_style(Style::Help).offset(1).len(2).char('-');
    assert_eq!(h.render(), " --");
}

#[test]
fn rich_text_aligns_rows_on_the_number_column() {
    let mut text = RichText::new();
    text.add_new_line_with_margin(RichMargin::with_line_number(12));
    text.add_text(RichPiece::Item(StyledItem::new("let x = 1;".to_string())));
    text.add_new_line_with_default_margin();
    text.add_text(RichPiece::Highlight(
        Highlight::with_style(Style::Warning).offset(4).len(1),
    ));
    let rendered = text.render();
    assert_eq!(rendered, "12 | let x = 1;\n   |     ^\n");
}

#[test]
fn rich_text_without_lines_renders_nothing() {
    let text = RichText::new();
    assert_eq!(text.render(), "");
}

#[test]
fn add_text_opens_a_line_when_none_is_there() {
    let mut text = RichText::new();
    text.add_text(RichPiece::Title(Title("heading".to_string())));
    text.add_text(RichPiece::Item(StyledItem::with_style(
        "!".to_string(),
        Style::Title,
    )));
    // No margin number anywhere: the column is one character wide ("0"),
    // and the marginless row is padded up to it.
    assert_eq!(text.render(), "heading!\n");
}

#[test]
fn pieces_render_each_their_own_way() {
    assert_eq!(
        RichPiece::RightAligned(RightAligned("ab".to_string(), 5)).render(9),
        "   ab"
    );
    assert_eq!(RichPiece::Width(Width).render(4), "    ");
    assert_eq!(
        RichPiece::Item(StyledItem::new("plain".to_string())).render(2),
        "plain"
    );
    assert_eq!(
        RichPiece::Title(Title("head".to_string())).render(2),
        "head"
    );
}

#[test]
fn rich_line_renders_margin_then_pieces() {
    let mut line = RichLine::with_margin(RichMargin::with_line_number(3));
    line.push(RichPiece::Item(StyledItem::new("abc".to_string())));
    line.push(RichPiece::Highlight(Highlight::with_style(Style::Note)));
    assert_eq!(line.render(1), "3 | abc^");
    let line = RichLine::new();
    assert_eq!(line.render(1), "");
}
