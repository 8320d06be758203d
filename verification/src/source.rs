//! Source blocks: a location header, annotated source lines, and trailing
//! notes and helps, all sharing one line-number column width.

use vstd::prelude::*;
use vstd::string::StringExecFns;

use crate::annotation::{spec_line_render, spec_margin, push_margin, SourceLine};
use crate::text::{
    dec_len, lemma_repeat_add, push_char, push_dec, push_spaces, spec_dec, spec_lines, spec_spaces,
    split_lines,
};

verus! {

/// Kind of a trailing note: a help or a plain note.
#[derive(Copy, Clone, PartialEq, Eq, Structural, Debug, Hash)]
pub enum NoteKind {
    /// A help note.
    Help,
    /// A plain note.
    Note,
}

impl NoteKind {
    /// The label written before the colon of a note of this kind.
    pub fn as_str(&self) -> (r: &'static str)
        ensures
            r@ == self.spec_label(),
    {
        match self {
            NoteKind::Help => "help",
            NoteKind::Note => "note",
        }
    }

    /// The label of this kind as a sequence of characters.
    pub open spec fn spec_label(self) -> Seq<char> {
        match self {
            NoteKind::Help => "help"@,
            NoteKind::Note => "note"@,
        }
    }
}

/// A trailing note attached to a source block, rendered after all source
/// lines; its text may span several lines.
#[derive(Clone, Debug)]
pub struct Note {
    /// Whether the note is a help or a plain note.
    pub kind: NoteKind,
    /// The text of the note.
    pub text: String,
}

/// The first row of a note: a right-aligned `=`, the kind's label, a colon,
/// and the first line of the text.
pub open spec fn spec_note_first_row(kind: NoteKind, line: Seq<char>, w: int) -> Seq<char> {
    spec_spaces(w + 1) + seq!['='] + seq![' '] + kind.spec_label() + seq![':', ' '] + line + seq![
        '\n',
    ]
}

/// A continuation row of a note: blank margin padding and one further line
/// of the text.
pub open spec fn spec_note_cont_row(line: Seq<char>, w: int) -> Seq<char> {
    spec_spaces(w + 2) + spec_spaces(7) + line + seq!['\n']
}

/// The continuation rows for text lines `1 .. i`.
pub open spec fn spec_note_cont_rows(ls: Seq<Seq<char>>, w: int, i: int) -> Seq<char>
    decreases i,
{
    if i <= 1 {
        Seq::empty()
    } else {
        spec_note_cont_rows(ls, w, i - 1) + spec_note_cont_row(ls[i - 1], w)
    }
}

/// The full rendering of a note at column width `w`: nothing when the text
/// has no lines, otherwise the first row followed by one continuation row
/// per further text line.
pub open spec fn spec_note_render(n: Note, w: int) -> Seq<char> {
    let ls = spec_lines(n.text@);
    if ls.len() == 0 {
        Seq::empty()
    } else {
        spec_note_first_row(n.kind, ls[0], w) + spec_note_cont_rows(ls, w, ls.len() as int)
    }
}

impl Note {
    /// Renders the note at column width `w`.
    pub fn render_with_width(&self, w: usize) -> (r: String)
        ensures
            r@ == spec_note_render(*self, w as int),
    {
        let mut out = String::new();
        let ls = split_lines(self.text.as_str());
        let ghost lsv = spec_lines(self.text@);
        if ls.len() == 0 {
            assert(out@ =~= spec_note_render(*self, w as int));
            return out;
        }
        push_spaces(&mut out, w);
        push_char(&mut out, ' ');
        push_char(&mut out, '=');
        push_char(&mut out, ' ');
        out.append(self.kind.as_str());
        out.append(": ");
        out.append(ls[0].as_str());
        push_char(&mut out, '\n');
        proof {
            reveal_strlit(": ");
            lemma_repeat_add(' ', w as int, 1);
            assert(ls@[0]@ == lsv[0]);
            assert(out@ =~= spec_note_first_row(self.kind, lsv[0], w as int));
        }
        let ghost head = out@;
        let mut i: usize = 1;
        while i < ls.len()
            invariant
                1 <= i <= ls@.len(),
                ls.deep_view() == lsv,
                out@ == head + spec_note_cont_rows(lsv, w as int, i as int),
            decreases ls@.len() - i,
        {
            let ghost before = out@;
            push_spaces(&mut out, w);
            push_spaces(&mut out, 2);
            push_spaces(&mut out, 7);
            out.append(ls[i].as_str());
            push_char(&mut out, '\n');
            proof {
                lemma_repeat_add(' ', w as int, 2);
                assert(ls@[i as int]@ == lsv[i as int]);
                assert(out@ =~= before + spec_note_cont_row(lsv[i as int], w as int));
                assert(out@ =~= head + spec_note_cont_rows(lsv, w as int, i + 1));
            }
            i = i + 1;
        }
        proof {
            assert(lsv.len() == ls@.len());
            assert(out@ =~= spec_note_render(*self, w as int));
        }
        out
    }
}

/// The location header, annotated lines, and trailing notes of one
/// diagnostic entry.
#[derive(Clone, Debug)]
pub struct Source {
    /// The file the anchor points into, when one was named.
    pub filename: Option<String>,
    /// Line of the anchor location, shown in the header.
    pub line_number: usize,
    /// Column of the anchor location, shown in the header.
    pub position: usize,
    /// The annotated source lines, in the order added.
    pub lines: Vec<SourceLine>,
    /// The trailing notes and helps, in the order added.
    pub notes: Vec<Note>,
}

/// The largest line number among the first `i` lines, or `0` if `i <= 0`.
pub open spec fn spec_max_line(lines: Seq<SourceLine>, i: int) -> int
    decreases i,
{
    if i <= 0 {
        0
    } else if lines[i - 1].line > spec_max_line(lines, i - 1) {
        lines[i - 1].line as int
    } else {
        spec_max_line(lines, i - 1)
    }
}

/// The renderings of the first `i` lines, concatenated.
pub open spec fn spec_lines_render(lines: Seq<SourceLine>, w: int, i: int) -> Seq<char>
    decreases i,
{
    if i <= 0 {
        Seq::empty()
    } else {
        spec_lines_render(lines, w, i - 1) + spec_line_render(lines[i - 1], w)
    }
}

/// The renderings of the first `i` notes, concatenated.
pub open spec fn spec_notes_render(notes: Seq<Note>, w: int, i: int) -> Seq<char>
    decreases i,
{
    if i <= 0 {
        Seq::empty()
    } else {
        spec_notes_render(notes, w, i - 1) + spec_note_render(notes[i - 1], w)
    }
}

/// A blank margin row: the margin bar alone on its line.
pub open spec fn spec_blank_row(w: int) -> Seq<char> {
    spec_margin(w) + seq!['\n']
}

/// The header row: an arrow pointing at `filename:line:column`, with a
/// placeholder name when no filename was set.
pub open spec fn spec_header(s: Source, w: int) -> Seq<char> {
    spec_spaces(w) + "-->"@ + seq![' '] + (match s.filename {
        Some(f) => f@,
        None => "<anonymous>"@,
    }) + seq![':'] + spec_dec(s.line_number as int) + seq![':'] + spec_dec(s.position as int)
        + seq!['\n']
}

impl Source {
    /// Every line of the block is well formed and the anchor location is
    /// positive.
    pub open spec fn wf(self) -> bool {
        &&& forall|i: int| 0 <= i < self.lines@.len() ==> (#[trigger] self.lines@[i]).wf()
        &&& 1 <= self.line_number
        &&& 1 <= self.position
    }

    /// The number whose digit count gives the block's own column width:
    /// the largest of the anchor line and every source line's number.
    pub open spec fn spec_width_basis(self) -> int {
        if self.line_number as int > spec_max_line(self.lines@, self.lines@.len() as int) {
            self.line_number as int
        } else {
            spec_max_line(self.lines@, self.lines@.len() as int)
        }
    }

    /// The column width the block uses when none is imposed from outside.
    pub open spec fn spec_width(self) -> int {
        spec_dec(self.spec_width_basis()).len() as int
    }

    /// Creates a new, anonymous source block anchored at the given line and
    /// column.
    pub fn new(line_number: usize, position: usize) -> (r: Source)
        requires
            1 <= line_number,
            1 <= position,
        ensures
            r.filename is None,
            r.line_number == line_number,
            r.position == position,
            r.lines@.len() == 0,
            r.notes@.len() == 0,
            r.wf(),
    {
        let r = Source { filename: None, line_number, position, lines: Vec::new(), notes: Vec::new() };
        proof {
            assert(r.lines@.len() == 0);
        }
        r
    }

    /// Names the file the anchor points into.
    pub fn set_filename(&mut self, filename: String)
        ensures
            *final(self) == (Source { filename: Some(filename), ..*old(self) }),
    {
        self.filename = Some(filename);
    }

    /// Appends an annotated line to the block.
    pub fn add_line(&mut self, line: SourceLine)
        requires
            line.wf(),
        ensures
            final(self).lines@ == old(self).lines@.push(line),
            final(self).filename == old(self).filename,
            final(self).line_number == old(self).line_number,
            final(self).position == old(self).position,
            final(self).notes == old(self).notes,
            old(self).wf() ==> final(self).wf(),
    {
        self.lines.push(line);
    }

    /// Decides well-formedness: every line is well formed and the anchor
    /// location is positive.
    pub fn is_wf(&self) -> (r: bool)
        ensures
            r == self.wf(),
    {
        if self.line_number < 1 || self.position < 1 {
            return false;
        }
        let mut i: usize = 0;
        while i < self.lines.len()
            invariant
                i <= self.lines@.len(),
                forall|k: int| 0 <= k < i ==> (#[trigger] self.lines@[k]).wf(),
            decreases self.lines@.len() - i,
        {
            if !self.lines[i].is_wf() {
                return false;
            }
            i = i + 1;
        }
        true
    }

    /// The largest line number among the block's lines, `0` if it has none.
    pub fn max_line(&self) -> (r: usize)
        ensures
            r as int == spec_max_line(self.lines@, self.lines@.len() as int),
    {
        let mut m: usize = 0;
        let mut i: usize = 0;
        while i < self.lines.len()
            invariant
                i <= self.lines@.len(),
                m as int == spec_max_line(self.lines@, i as int),
            decreases self.lines@.len() - i,
        {
            if self.lines[i].line > m {
                m = self.lines[i].line;
            }
            i = i + 1;
        }
        m
    }

    /// The executable column width of the block.
    pub fn width(&self) -> (r: usize)
        ensures
            r as int == self.spec_width(),
    {
        let m = self.max_line();
        let basis = if self.line_number > m {
            self.line_number
        } else {
            m
        };
        dec_len(basis)
    }

    /// Renders the block with the given line-number column width.
    pub fn render_with_width(&self, w: usize) -> (r: String)
        requires
            self.wf(),
        ensures
            r@ == spec_source_render(*self, w as int),
    {
        let mut out = String::new();
        // Header row.
        push_spaces(&mut out, w);
        out.append("-->");
        push_char(&mut out, ' ');
        match &self.filename {
            Some(f) => out.append(f.as_str()),
            None => out.append("<anonymous>"),
        }
        push_char(&mut out, ':');
        push_dec(&mut out, self.line_number);
        push_char(&mut out, ':');
        push_dec(&mut out, self.position);
        push_char(&mut out, '\n');
        proof {
            reveal_strlit("-->");
            assert(out@ =~= spec_header(*self, w as int));
        }
        // Opening blank margin row.
        push_margin(&mut out, w);
        push_char(&mut out, '\n');
        let ghost head = out@;
        // The annotated lines.
        let mut i: usize = 0;
        while i < self.lines.len()
            invariant
                i <= self.lines@.len(),
                self.wf(),
                w <= usize::MAX,
                out@ == head + spec_lines_render(self.lines@, w as int, i as int),
            decreases self.lines@.len() - i,
        {
            let rendered = self.lines[i].render_with_width(w);
            out.append(rendered.as_str());
            proof {
                assert(out@ =~= head + spec_lines_render(self.lines@, w as int, i + 1));
            }
            i = i + 1;
        }
        // Closing blank margin row, unless the last line drew its own
        // decoration rows.
        let n = self.lines.len();
        if n == 0 {
            push_margin(&mut out, w);
            push_char(&mut out, '\n');
        } else if self.lines[n - 1].annotations.len() == 0 {
            proof {
                assert(self.lines@.last() == self.lines@[n - 1]);
            }
            push_margin(&mut out, w);
            push_char(&mut out, '\n');
        } else {
            proof {
                assert(self.lines@.last() == self.lines@[n - 1]);
            }
        }
        // Separator before the notes.
        if self.notes.len() > 0 {
            push_margin(&mut out, w);
            push_char(&mut out, '\n');
        }
        let ghost head2 = out@;
        // The trailing notes.
        let mut j: usize = 0;
        while j < self.notes.len()
            invariant
                j <= self.notes@.len(),
                w <= usize::MAX,
                out@ == head2 + spec_notes_render(self.notes@, w as int, j as int),
            decreases self.notes@.len() - j,
        {
            let rendered = self.notes[j].render_with_width(w);
            out.append(rendered.as_str());
            proof {
                assert(out@ =~= head2 + spec_notes_render(self.notes@, w as int, j + 1));
            }
            j = j + 1;
        }
        proof {
            assert(out@ =~= spec_source_render(*self, w as int));
        }
        out
    }

    /// Renders the block with its own column width.
    pub fn render(&self) -> (r: String)
        requires
            self.wf(),
        ensures
            r@ == spec_source_render(*self, self.spec_width()),
    {
        let w = self.width();
        self.render_with_width(w)
    }
}

/// The full rendering of a source block at column width `w`: the header,
/// a blank margin row, every annotated line, a closing margin row unless
/// the last line drew decoration rows, and the trailing notes after one
/// more margin row.
pub open spec fn spec_source_render(s: Source, w: int) -> Seq<char> {
    spec_header(s, w) + spec_blank_row(w) + spec_lines_render(s.lines@, w, s.lines@.len() as int)
        + (if s.lines@.len() == 0 || s.lines@.last().annotations@.len() == 0 {
        spec_blank_row(w)
    } else {
        Seq::empty()
    }) + (if s.notes@.len() > 0 {
        spec_blank_row(w)
    } else {
        Seq::empty()
    }) + spec_notes_render(s.notes@, w, s.notes@.len() as int)
}

} // verus!
