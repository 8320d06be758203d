//! A small rich-text toolkit: semantic styles, margins, highlights, and
//! multi-line text built from typed pieces.  With the plain presentation
//! backend every style renders as the text itself.

use vstd::prelude::*;
use vstd::string::StringExecFns;

use crate::text::{
    push_char, push_dec_pad_right, push_repeat, push_spaces, push_str_pad_left, spec_dec,
    spec_pad_left, spec_pad_right, spec_repeat, spec_spaces,
};

verus! {

/// A semantic style category; the presentation backend decides what each
/// one looks like.
#[derive(Copy, Clone, PartialEq, Eq, Structural, Debug, Hash)]
#[non_exhaustive]
pub enum Style {
    /// Unstyled text.
    Normal,
    /// An emphasized title.
    Title,
    /// Warning-colored text.
    Warning,
    /// Error-colored text.
    Error,
    /// Help-colored text.
    Help,
    /// Note-colored text.
    Note,
    /// An added line in a diff.
    Add,
    /// A removed line in a diff.
    Sub,
}

impl Default for Style {
    /// The default style is unstyled text.
    fn default() -> (r: Self)
        ensures
            r == Style::Normal,
    {
        Style::Normal
    }
}

/// The margin of one rich-text row: an optional line number and the
/// margin character drawn after it.
#[derive(Clone, PartialEq, Eq, Debug, Hash)]
pub struct RichMargin {
    /// The line number shown in the margin, if any.
    pub number: Option<usize>,
    /// The style of the number.
    pub number_style: Style,
    /// The character closing the margin.
    pub margin_ch: char,
    /// The style of the margin character.
    pub margin_style: Style,
}

/// The rendering of a margin at column width `w`: the line number (or
/// blank padding) left-aligned in the column, a space, and the margin
/// character.
pub open spec fn spec_margin_render(m: RichMargin, w: int) -> Seq<char> {
    (match m.number {
        Some(n) => spec_pad_right(spec_dec(n as int), w),
        None => spec_spaces(w),
    }) + seq![' '] + seq![m.margin_ch]
}

impl Default for RichMargin {
    /// A margin with no number and the vertical bar.
    fn default() -> (r: Self)
        ensures
            r.number is None,
            r.number_style == Style::Help,
            r.margin_ch == '|',
            r.margin_style == Style::Help,
    {
        RichMargin {
            number: None,
            number_style: Style::Help,
            margin_ch: '|',
            margin_style: Style::Help,
        }
    }
}

impl RichMargin {
    /// A margin with no number and the vertical bar.
    pub fn new() -> (r: RichMargin)
        ensures
            r.number is None,
            r.number_style == Style::Help,
            r.margin_ch == '|',
            r.margin_style == Style::Help,
    {
        RichMargin {
            number: None,
            number_style: Style::Help,
            margin_ch: '|',
            margin_style: Style::Help,
        }
    }

    /// A margin showing the given line number.
    pub fn with_line_number(number: usize) -> (r: RichMargin)
        ensures
            r.number matches Some(n) && n == number,
            r.number_style == Style::Help,
            r.margin_ch == '|',
            r.margin_style == Style::Help,
    {
        RichMargin { number: Some(number), ..RichMargin::new() }
    }

    /// A margin for an added diff line.
    pub fn diff_add() -> (r: RichMargin)
        ensures
            r.number is None,
            r.number_style == Style::Help,
            r.margin_ch == '+',
            r.margin_style == Style::Add,
    {
        RichMargin { margin_ch: '+', margin_style: Style::Add, ..RichMargin::new() }
    }

    /// A margin for an added diff line, with a line number.
    pub fn diff_add_with_line_number(number: usize) -> (r: RichMargin)
        ensures
            r.number matches Some(n) && n == number,
            r.number_style == Style::Help,
            r.margin_ch == '+',
            r.margin_style == Style::Add,
    {
        RichMargin { number: Some(number), ..RichMargin::diff_add() }
    }

    /// A margin for a removed diff line.
    pub fn diff_sub() -> (r: RichMargin)
        ensures
            r.number is None,
            r.number_style == Style::Help,
            r.margin_ch == '-',
            r.margin_style == Style::Sub,
    {
        RichMargin { margin_ch: '-', margin_style: Style::Sub, ..RichMargin::new() }
    }

    /// A margin for a removed diff line, with a line number.
    pub fn diff_sub_with_line_number(number: usize) -> (r: RichMargin)
        ensures
            r.number matches Some(n) && n == number,
            r.number_style == Style::Help,
            r.margin_ch == '-',
            r.margin_style == Style::Sub,
    {
        RichMargin { number: Some(number), ..RichMargin::diff_sub() }
    }

    /// A margin closed by the note bullet.
    pub fn new_dashed() -> (r: RichMargin)
        ensures
            r.number is None,
            r.number_style == Style::Help,
            r.margin_ch == '=',
            r.margin_style == Style::Help,
    {
        RichMargin { margin_ch: '=', ..RichMargin::new() }
    }

    /// A margin closed by a blank, for rows aligned under a margin.
    pub fn new_empty() -> (r: RichMargin)
        ensures
            r.number is None,
            r.number_style == Style::Help,
            r.margin_ch == ' ',
            r.margin_style == Style::Help,
    {
        RichMargin { margin_ch: ' ', ..RichMargin::new() }
    }

    /// Renders the margin at column width `w`.
    pub fn render(&self, w: usize) -> (r: String)
        ensures
            r@ == spec_margin_render(*self, w as int),
    {
        let mut out = String::new();
        match self.number {
            Some(n) => push_dec_pad_right(&mut out, n, w),
            None => push_spaces(&mut out, w),
        }
        push_char(&mut out, ' ');
        push_char(&mut out, self.margin_ch);
        proof {
            assert(out@ =~= spec_margin_render(*self, w as int));
        }
        out
    }
}

/// A piece of text in one style.
#[derive(Clone, PartialEq, Eq, Debug, Hash)]
pub struct StyledItem {
    /// The style of the piece.
    pub style: Style,
    /// The text of the piece.
    pub text: String,
}

impl StyledItem {
    /// An unstyled piece of text.
    pub fn new(text: String) -> (r: StyledItem)
        ensures
            r.style == Style::Normal,
            r.text == text,
    {
        StyledItem { style: Style::Normal, text }
    }

    /// A piece of text in the given style.
    pub fn with_style(text: String, style: Style) -> (r: StyledItem)
        ensures
            r.style == style,
            r.text == text,
    {
        StyledItem { style, text }
    }

    /// Renders the piece: the text itself.
    pub fn render(&self) -> (r: String)
        ensures
            r@ == self.text@,
    {
        self.text.clone()
    }
}

/// A piece of text rendered as an emphasized title.
#[derive(Clone, PartialEq, Eq, Debug, Hash)]
pub struct Title(pub String);

impl Title {
    /// Renders the title: the text itself.
    pub fn render(&self) -> (r: String)
        ensures
            r@ == self.0@,
    {
        self.0.clone()
    }
}

/// A run of highlight characters at an offset, underlining a span.
#[derive(Copy, Clone, PartialEq, Eq, Structural, Debug, Hash)]
pub struct Highlight {
    /// The style of the run.
    pub style: Style,
    /// The character repeated over the span.
    pub h_ch: char,
    /// Blank columns before the run.
    pub offset: usize,
    /// Length of the run.
    pub len: usize,
}

/// The rendering of a highlight: its offset in blanks, then its character
/// repeated over its length.
pub open spec fn spec_highlight_render(h: Highlight) -> Seq<char> {
    spec_spaces(h.offset as int) + spec_repeat(h.h_ch, h.len as int)
}

impl Highlight {
    /// A one-column caret run in the given style.
    pub fn with_style(style: Style) -> (r: Highlight)
        ensures
            r.style == style,
            r.h_ch == '^',
            r.offset == 0,
            r.len == 1,
    {
        Highlight { style, h_ch: '^', offset: 0, len: 1 }
    }

    /// Sets the run's offset.
    pub fn offset(self, offset: usize) -> (r: Highlight)
        ensures
            r == (Highlight { offset, ..self }),
    {
        Highlight { offset, ..self }
    }

    /// Sets the run's length.
    pub fn len(self, len: usize) -> (r: Highlight)
        ensures
            r == (Highlight { len, ..self }),
    {
        Highlight { len, ..self }
    }

    /// Sets the run's character.
    pub fn char(self, ch: char) -> (r: Highlight)
        ensures
            r == (Highlight { h_ch: ch, ..self }),
    {
        Highlight { h_ch: ch, ..self }
    }

    /// Renders the run.
    pub fn render(&self) -> (r: String)
        ensures
            r@ == spec_highlight_render(*self),
    {
        let mut out = String::new();
        push_spaces(&mut out, self.offset);
        push_repeat(&mut out, self.h_ch, self.len);
        proof {
            assert(out@ =~= spec_highlight_render(*self));
        }
        out
    }
}

/// A piece of text right-aligned in a column of the given width.
#[derive(Clone, PartialEq, Eq, Debug, Hash)]
pub struct RightAligned(pub String, pub usize);

impl RightAligned {
    /// Renders the piece: the text padded on the left up to the width.
    pub fn render(&self) -> (r: String)
        ensures
            r@ == spec_pad_left(self.0@, self.1 as int),
    {
        let mut out = String::new();
        push_str_pad_left(&mut out, self.0.as_str(), self.1);
        out
    }
}

/// A blank run as wide as the enclosing text's number column.
#[derive(Copy, Clone, PartialEq, Eq, Structural, Debug, Hash)]
pub struct Width;

impl Width {
    /// Renders the blank run at column width `w`.
    pub fn render(&self, w: usize) -> (r: String)
        ensures
            r@ == spec_spaces(w as int),
    {
        let mut out = String::new();
        push_spaces(&mut out, w);
        out
    }
}

/// One typed piece of a rich-text row.
#[derive(Clone, Debug)]
pub enum RichPiece {
    /// A styled piece of text.
    Item(StyledItem),
    /// A highlight run.
    Highlight(Highlight),
    /// An emphasized title.
    Title(Title),
    /// A right-aligned piece of text.
    RightAligned(RightAligned),
    /// A blank run as wide as the number column.
    Width(Width),
}

/// The rendering of one piece at column width `w`.
pub open spec fn spec_piece_render(p: RichPiece, w: int) -> Seq<char> {
    match p {
        RichPiece::Item(it) => it.text@,
        RichPiece::Highlight(h) => spec_highlight_render(h),
        RichPiece::Title(t) => t.0@,
        RichPiece::RightAligned(ra) => spec_pad_left(ra.0@, ra.1 as int),
        RichPiece::Width(_) => spec_spaces(w),
    }
}

impl RichPiece {
    /// Renders the piece at column width `w`.
    pub fn render(&self, w: usize) -> (r: String)
        ensures
            r@ == spec_piece_render(*self, w as int),
    {
        match self {
            RichPiece::Item(it) => it.render(),
            RichPiece::Highlight(h) => h.render(),
            RichPiece::Title(t) => t.render(),
            RichPiece::RightAligned(ra) => ra.render(),
            RichPiece::Width(wd) => wd.render(w),
        }
    }
}

/// One row of rich text: an optional margin followed by pieces.
#[derive(Clone, Debug)]
pub struct RichLine {
    /// The margin of the row, if any.
    pub margin: Option<RichMargin>,
    /// The pieces of the row, drawn in order.
    pub text: Vec<RichPiece>,
}

/// The renderings of the first `i` pieces at column width `w`,
/// concatenated.
pub open spec fn spec_pieces_render(ps: Seq<RichPiece>, w: int, i: int) -> Seq<char>
    decreases i,
{
    if i <= 0 {
        Seq::empty()
    } else {
        spec_pieces_render(ps, w, i - 1) + spec_piece_render(ps[i - 1], w)
    }
}

/// The rendering of a row at column width `w`: the margin and a space,
/// when the row has one, then its pieces in order.
pub open spec fn spec_rich_line_render(l: RichLine, w: int) -> Seq<char> {
    (match l.margin {
        Some(m) => spec_margin_render(m, w) + seq![' '],
        None => Seq::empty(),
    }) + spec_pieces_render(l.text@, w, l.text@.len() as int)
}

impl Default for RichLine {
    /// A row with no margin and no pieces.
    fn default() -> (r: Self)
        ensures
            r.margin is None,
            r.text@.len() == 0,
    {
        RichLine { margin: None, text: Vec::new() }
    }
}

impl RichLine {
    /// A row with no margin and no pieces.
    pub fn new() -> (r: RichLine)
        ensures
            r.margin is None,
            r.text@.len() == 0,
    {
        RichLine { margin: None, text: Vec::new() }
    }

    /// A row with the default margin and no pieces.
    pub fn with_default_margin() -> (r: RichLine)
        ensures
            r.margin matches Some(m) && m.number is None && m.margin_ch == '|',
            r.text@.len() == 0,
    {
        RichLine { margin: Some(RichMargin::new()), text: Vec::new() }
    }

    /// A row with the given margin and no pieces.
    pub fn with_margin(margin: RichMargin) -> (r: RichLine)
        ensures
            r.margin matches Some(m) && m == margin,
            r.text@.len() == 0,
    {
        RichLine { margin: Some(margin), text: Vec::new() }
    }

    /// Appends a piece to the row.
    pub fn push(&mut self, item: RichPiece)
        ensures
            final(self).margin == old(self).margin,
            final(self).text@ == old(self).text@.push(item),
    {
        self.text.push(item);
    }

    /// Renders the row at column width `w`.
    pub fn render(&self, w: usize) -> (r: String)
        ensures
            r@ == spec_rich_line_render(*self, w as int),
    {
        let mut out = String::new();
        match &self.margin {
            Some(m) => {
                let rendered = m.render(w);
                out.append(rendered.as_str());
                push_char(&mut out, ' ');
            },
            None => {},
        }
        let ghost head = out@;
        let mut i: usize = 0;
        while i < self.text.len()
            invariant
                i <= self.text@.len(),
                out@ == head + spec_pieces_render(self.text@, w as int, i as int),
            decreases self.text@.len() - i,
        {
            let rendered = self.text[i].render(w);
            out.append(rendered.as_str());
            proof {
                assert(out@ =~= head + spec_pieces_render(self.text@, w as int, i + 1));
            }
            i = i + 1;
        }
        proof {
            assert(out@ =~= spec_rich_line_render(*self, w as int));
        }
        out
    }
}

/// Rich text: rows rendered under one shared number-column width.
#[derive(Clone, Debug)]
pub struct RichText {
    /// The rows, in order.
    pub lines: Vec<RichLine>,
}

/// The largest margin line number among the first `i` rows, `0` if none
/// carries one.
pub open spec fn spec_rich_text_basis(lines: Seq<RichLine>, i: int) -> int
    decreases i,
{
    if i <= 0 {
        0
    } else {
        let prev = spec_rich_text_basis(lines, i - 1);
        match lines[i - 1].margin {
            Some(m) => match m.number {
                Some(n) => if n as int > prev {
                    n as int
                } else {
                    prev
                },
                None => prev,
            },
            None => prev,
        }
    }
}

/// The renderings of the first `i` rows, each closed by a line break.
pub open spec fn spec_rich_text_rows(lines: Seq<RichLine>, w: int, i: int) -> Seq<char>
    decreases i,
{
    if i <= 0 {
        Seq::empty()
    } else {
        spec_rich_text_rows(lines, w, i - 1) + spec_rich_line_render(lines[i - 1], w) + seq!['\n']
    }
}

/// The full rendering of a rich text: every row at the shared width, the
/// digit count of the largest margin line number.
pub open spec fn spec_rich_text_render(t: RichText) -> Seq<char> {
    let w = spec_dec(spec_rich_text_basis(t.lines@, t.lines@.len() as int)).len() as int;
    spec_rich_text_rows(t.lines@, w, t.lines@.len() as int)
}

impl Default for RichText {
    /// A text with no rows.
    fn default() -> (r: Self)
        ensures
            r.lines@.len() == 0,
    {
        RichText { lines: Vec::new() }
    }
}

impl RichText {
    /// A text with no rows.
    pub fn new() -> (r: RichText)
        ensures
            r.lines@.len() == 0,
    {
        RichText { lines: Vec::new() }
    }

    /// Opens a new row with no margin.
    pub fn add_new_line(&mut self)
        ensures
            final(self).lines@.len() == old(self).lines@.len() + 1,
            forall|k: int|
                0 <= k < old(self).lines@.len() ==> final(self).lines@[k] == old(self).lines@[k],
            final(self).lines@.last().margin is None,
            final(self).lines@.last().text@.len() == 0,
    {
        self.lines.push(RichLine::new());
    }

    /// Opens a new row with the default margin.
    pub fn add_new_line_with_default_margin(&mut self)
        ensures
            final(self).lines@.len() == old(self).lines@.len() + 1,
            forall|k: int|
                0 <= k < old(self).lines@.len() ==> final(self).lines@[k] == old(self).lines@[k],
            final(self).lines@.last().margin matches Some(m) && m.number is None && m.margin_ch
                == '|',
            final(self).lines@.last().text@.len() == 0,
    {
        self.lines.push(RichLine::with_default_margin());
    }

    /// Opens a new row with the given margin.
    pub fn add_new_line_with_margin(&mut self, margin: RichMargin)
        ensures
            final(self).lines@.len() == old(self).lines@.len() + 1,
            forall|k: int|
                0 <= k < old(self).lines@.len() ==> final(self).lines@[k] == old(self).lines@[k],
            final(self).lines@.last().margin matches Some(m) && m == margin,
            final(self).lines@.last().text@.len() == 0,
    {
        self.lines.push(RichLine::with_margin(margin));
    }

    /// Appends a piece to the last row, opening a marginless row first
    /// when the text has none.
    pub fn add_text(&mut self, text: RichPiece)
        ensures
            final(self).lines@.len() == (if old(self).lines@.len() == 0 {
                1int
            } else {
                old(self).lines@.len() as int
            }),
            forall|k: int|
                0 <= k < final(self).lines@.len() - 1 ==> final(self).lines@[k] == old(
                    self,
                ).lines@[k],
            final(self).lines@.last().margin == (if old(self).lines@.len() == 0 {
                Option::<RichMargin>::None
            } else {
                old(self).lines@.last().margin
            }),
            final(self).lines@.last().text@ == (if old(self).lines@.len() == 0 {
                Seq::<RichPiece>::empty().push(text)
            } else {
                old(self).lines@.last().text@.push(text)
            }),
    {
        if self.lines.len() == 0 {
            self.lines.push(RichLine::new());
        }
        let n = self.lines.len();
        let line = &mut self.lines[n - 1];
        line.push(text);
    }

    /// The shared column width: the digit count of the largest margin line
    /// number.
    pub fn width(&self) -> (r: usize)
        ensures
            r as int == spec_dec(
                spec_rich_text_basis(self.lines@, self.lines@.len() as int),
            ).len(),
    {
        let mut basis: usize = 0;
        let mut i: usize = 0;
        while i < self.lines.len()
            invariant
                i <= self.lines@.len(),
                basis as int == spec_rich_text_basis(self.lines@, i as int),
            decreases self.lines@.len() - i,
        {
            match &self.lines[i].margin {
                Some(m) => match m.number {
                    Some(n) => {
                        if n > basis {
                            basis = n;
                        }
                    },
                    None => {},
                },
                None => {},
            }
            i = i + 1;
        }
        crate::text::dec_len(basis)
    }

    /// Renders the text: every row at the shared width, each closed by a
    /// line break.
    pub fn render(&self) -> (r: String)
        ensures
            r@ == spec_rich_text_render(*self),
    {
        let w = self.width();
        let mut out = String::new();
        let mut i: usize = 0;
        while i < self.lines.len()
            invariant
                i <= self.lines@.len(),
                w as int == spec_dec(
                    spec_rich_text_basis(self.lines@, self.lines@.len() as int),
                ).len(),
                out@ == spec_rich_text_rows(self.lines@, w as int, i as int),
            decreases self.lines@.len() - i,
        {
            let rendered = self.lines[i].render(w);
            out.append(rendered.as_str());
            push_char(&mut out, '\n');
            proof {
                assert(out@ =~= spec_rich_text_rows(self.lines@, w as int, i + 1));
            }
            i = i + 1;
        }
        proof {
            assert(out@ =~= spec_rich_text_render(*self));
        }
        out
    }
}

} // verus!
