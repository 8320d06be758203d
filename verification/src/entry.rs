//! Diagnostic entries: one severity plus message, optionally anchored to a
//! source block built through [`EntrySourceBuilder`]; groups of entries
//! rendered with a shared column width; and plain task lines.

use vstd::prelude::*;
use vstd::string::StringExecFns;

use crate::EntryKind;
use crate::annotation::{spans_disjoint, Annotation, AnnotationReference, SourceLine};
use crate::error::{Error, ErrorKind};
use crate::source::{spec_max_line, spec_source_render, Note, NoteKind, Source};
use crate::target::{spec_err_delta, spec_warn_delta, PrologueLogger, Target};
use crate::text::{dec_len, push_char, push_str_pad_left, spec_dec, spec_pad_left};

verus! {

/// A log entry: a severity, a message, and an optional source block.
#[derive(Clone, Debug)]
pub struct Entry {
    /// Severity of the entry; selects the label and the counting rule.
    pub kind: EntryKind,
    /// Whether the message is emphasized; set when a finished source block
    /// is attached.
    pub bright: bool,
    /// The message shown after the severity label.
    pub text: String,
    /// The source block the entry points at, if one was attached.
    pub source: Option<Source>,
}

/// The full rendering of an entry: the `severity: message` header row, the
/// source block at the imposed width (or at its own width when none is
/// imposed), and a trailing blank line when the entry stands alone with a
/// source.
pub open spec fn spec_entry_render(e: Entry, w: Option<int>) -> Seq<char> {
    e.kind.spec_label() + seq![':', ' '] + e.text@ + seq!['\n'] + (match e.source {
        Some(s) => spec_source_render(
            s,
            match w {
                Some(x) => x,
                None => s.spec_width(),
            },
        ),
        None => Seq::empty(),
    }) + (if w is None && e.source is Some {
        seq!['\n']
    } else {
        Seq::empty()
    })
}

impl Entry {
    /// An entry is well formed when its source block, if any, is.
    pub open spec fn wf(self) -> bool {
        match self.source {
            Some(s) => s.wf(),
            None => true,
        }
    }

    /// Decides well-formedness: the source block, if any, is well formed.
    pub fn is_wf(&self) -> (r: bool)
        ensures
            r == self.wf(),
    {
        match &self.source {
            Some(s) => s.is_wf(),
            None => true,
        }
    }

    fn new(kind: EntryKind, text: String) -> (r: Entry)
        ensures
            r.kind == kind,
            r.bright == false,
            r.text == text,
            r.source is None,
            r.wf(),
    {
        Entry { kind, bright: false, text, source: None }
    }

    /// Creates a new error entry.
    pub fn new_error(text: String) -> (r: Entry)
        ensures
            r.kind == EntryKind::Error,
            r.bright == false,
            r.text == text,
            r.source is None,
            r.wf(),
    {
        Entry::new(EntryKind::Error, text)
    }

    /// Creates a new warning entry.
    pub fn new_warning(text: String) -> (r: Entry)
        ensures
            r.kind == EntryKind::Warning,
            r.bright == false,
            r.text == text,
            r.source is None,
            r.wf(),
    {
        Entry::new(EntryKind::Warning, text)
    }

    /// Creates a new note entry.
    pub fn new_note(text: String) -> (r: Entry)
        ensures
            r.kind == EntryKind::Note,
            r.bright == false,
            r.text == text,
            r.source is None,
            r.wf(),
    {
        Entry::new(EntryKind::Note, text)
    }

    /// Creates a new help entry.
    pub fn new_help(text: String) -> (r: Entry)
        ensures
            r.kind == EntryKind::Help,
            r.bright == false,
            r.text == text,
            r.source is None,
            r.wf(),
    {
        Entry::new(EntryKind::Help, text)
    }

    /// Attaches an anonymous source location and returns the builder that
    /// configures the source block.  The entry itself is kept as it is
    /// until [`EntrySourceBuilder::finish`] attaches the finished block.
    pub fn source(self, line_number: usize, position: usize) -> (r: EntrySourceBuilder)
        requires
            1 <= line_number,
            1 <= position,
        ensures
            r.entry == self,
            r.source.filename is None,
            r.source.line_number == line_number,
            r.source.position == position,
            r.source.lines@.len() == 0,
            r.source.notes@.len() == 0,
            r.source.wf(),
            r.source_line is None,
    {
        let source = Source::new(line_number, position);
        EntrySourceBuilder { entry: self, source, source_line: None }
    }

    /// Attaches a named source location and returns the builder that
    /// configures the source block.  The entry itself is kept as it is
    /// until [`EntrySourceBuilder::finish`] attaches the finished block.
    pub fn named_source(self, filename: String, line_number: usize, position: usize) -> (r:
        EntrySourceBuilder)
        requires
            1 <= line_number,
            1 <= position,
        ensures
            r.entry == self,
            r.source.filename matches Some(f) && f == filename,
            r.source.line_number == line_number,
            r.source.position == position,
            r.source.lines@.len() == 0,
            r.source.notes@.len() == 0,
            r.source.wf(),
            r.source_line is None,
    {
        let mut source = Source::new(line_number, position);
        source.set_filename(filename);
        EntrySourceBuilder { entry: self, source, source_line: None }
    }

    /// Renders the entry standalone, at its source block's own width.
    pub fn render(&self) -> (r: String)
        requires
            self.wf(),
        ensures
            r@ == spec_entry_render(*self, None),
    {
        let mut out = String::new();
        out.append(self.kind.as_str());
        out.append(": ");
        out.append(self.text.as_str());
        push_char(&mut out, '\n');
        proof {
            reveal_strlit(": ");
        }
        match &self.source {
            Some(s) => {
                let rendered = s.render();
                out.append(rendered.as_str());
                push_char(&mut out, '\n');
            },
            None => {},
        }
        proof {
            assert(out@ =~= spec_entry_render(*self, None));
        }
        out
    }

    /// Renders the entry as a member of a group, with the group's imposed
    /// column width and no trailing blank line.
    pub fn render_with_width(&self, w: usize) -> (r: String)
        requires
            self.wf(),
        ensures
            r@ == spec_entry_render(*self, Some(w as int)),
    {
        let mut out = String::new();
        out.append(self.kind.as_str());
        out.append(": ");
        out.append(self.text.as_str());
        push_char(&mut out, '\n');
        proof {
            reveal_strlit(": ");
        }
        match &self.source {
            Some(s) => {
                let rendered = s.render_with_width(w);
                out.append(rendered.as_str());
            },
            None => {},
        }
        proof {
            assert(out@ =~= spec_entry_render(*self, Some(w as int)));
        }
        out
    }
}

/// Source builder for a log [`Entry`].
///
/// Returned by [`Entry::source`] and [`Entry::named_source`]; accumulates
/// source lines, annotations, and trailing notes, and is converted back to
/// an [`Entry`] by [`finish`](EntrySourceBuilder::finish) or
/// [`discard`](EntrySourceBuilder::discard).
#[derive(Clone, Debug)]
pub struct EntrySourceBuilder {
    /// The entry the source block will be attached to.
    pub entry: Entry,
    /// The source block under construction.
    pub source: Source,
    /// The line currently open for annotations, not yet in the block.
    pub source_line: Option<SourceLine>,
}

impl EntrySourceBuilder {
    /// The builder is well formed when its block and its open line are.
    pub open spec fn wf(self) -> bool {
        &&& self.source.wf()
        &&& match self.source_line {
            Some(l) => l.wf(),
            None => true,
        }
    }

    /// The lines the finished block will hold: the accumulated ones plus
    /// the currently open one.
    pub open spec fn spec_final_lines(self) -> Seq<SourceLine> {
        match self.source_line {
            None => self.source.lines@,
            Some(l) => self.source.lines@.push(l),
        }
    }

    /// Opens a new line, given its line number and source text; the
    /// previously open line, if any, is flushed into the block.
    pub fn new_line(self, line_number: usize, source: String) -> (r: EntrySourceBuilder)
        requires
            self.wf(),
            1 <= line_number,
        ensures
            r.wf(),
            r.entry == self.entry,
            r.source.filename == self.source.filename,
            r.source.line_number == self.source.line_number,
            r.source.position == self.source.position,
            r.source.notes == self.source.notes,
            r.source.lines@ == self.spec_final_lines(),
            r.source_line matches Some(l) && l.line == line_number && l.contents == source
                && l.annotations@.len() == 0,
    {
        let mut b = self;
        let line = SourceLine::new(line_number, source);
        match b.source_line {
            Some(prev) => {
                b.source.add_line(prev);
            },
            None => {},
        }
        b.source_line = Some(line);
        b
    }

    fn annotate(self, style: EntryKind, pos: usize, len: usize, text: String) -> (r: Result<
        EntrySourceBuilder,
        (EntrySourceBuilder, Error),
    >)
        requires
            self.wf(),
            1 <= len,
            pos + len <= usize::MAX,
        ensures
            spec_annotate_result(self, style, pos, len, text, r),
    {
        let EntrySourceBuilder { entry, source, source_line } = self;
        match source_line {
            Some(mut l) => {
                match l.annotate(style, pos, len, text) {
                    Ok(_) => Ok(EntrySourceBuilder { entry, source, source_line: Some(l) }),
                    Err(e) => Err((EntrySourceBuilder { entry, source, source_line: Some(l) }, e)),
                }
            },
            None => Err(
                (
                    EntrySourceBuilder { entry, source, source_line: None },
                    Error { kind: ErrorKind::AnnotationOnEmptyLine },
                ),
            ),
        }
    }

    /// Underlines part of the open line with error glyphs and attaches the
    /// given label; rejects a span that overlaps an existing annotation.
    pub fn annotate_err(self, pos: usize, len: usize, text: String) -> (r: Result<
        EntrySourceBuilder,
        (EntrySourceBuilder, Error),
    >)
        requires
            self.wf(),
            1 <= len,
            pos + len <= usize::MAX,
        ensures
            spec_annotate_result(self, EntryKind::Error, pos, len, text, r),
    {
        self.annotate(EntryKind::Error, pos, len, text)
    }

    /// Underlines part of the open line with warning glyphs and attaches
    /// the given label; rejects a span that overlaps an existing
    /// annotation.
    pub fn annotate_warn(self, pos: usize, len: usize, text: String) -> (r: Result<
        EntrySourceBuilder,
        (EntrySourceBuilder, Error),
    >)
        requires
            self.wf(),
            1 <= len,
            pos + len <= usize::MAX,
        ensures
            spec_annotate_result(self, EntryKind::Warning, pos, len, text, r),
    {
        self.annotate(EntryKind::Warning, pos, len, text)
    }

    /// Underlines part of the open line with note glyphs and attaches the
    /// given label; rejects a span that overlaps an existing annotation.
    pub fn annotate_note(self, pos: usize, len: usize, text: String) -> (r: Result<
        EntrySourceBuilder,
        (EntrySourceBuilder, Error),
    >)
        requires
            self.wf(),
            1 <= len,
            pos + len <= usize::MAX,
        ensures
            spec_annotate_result(self, EntryKind::Note, pos, len, text, r),
    {
        self.annotate(EntryKind::Note, pos, len, text)
    }

    /// Underlines part of the open line with help dashes and attaches the
    /// given label; rejects a span that overlaps an existing annotation.
    pub fn annotate_help(self, pos: usize, len: usize, text: String) -> (r: Result<
        EntrySourceBuilder,
        (EntrySourceBuilder, Error),
    >)
        requires
            self.wf(),
            1 <= len,
            pos + len <= usize::MAX,
        ensures
            spec_annotate_result(self, EntryKind::Help, pos, len, text, r),
    {
        self.annotate(EntryKind::Help, pos, len, text)
    }

    /// Adds a trailing note to the source block.
    pub fn note(self, text: String) -> (r: EntrySourceBuilder)
        ensures
            r.entry == self.entry,
            r.source_line == self.source_line,
            r.source.filename == self.source.filename,
            r.source.line_number == self.source.line_number,
            r.source.position == self.source.position,
            r.source.lines == self.source.lines,
            r.source.notes@ == self.source.notes@.push(Note { kind: NoteKind::Note, text }),
            self.wf() ==> r.wf(),
    {
        let mut b = self;
        b.source.notes.push(Note { kind: NoteKind::Note, text });
        b
    }

    /// Adds a trailing help to the source block.
    pub fn help(self, text: String) -> (r: EntrySourceBuilder)
        ensures
            r.entry == self.entry,
            r.source_line == self.source_line,
            r.source.filename == self.source.filename,
            r.source.line_number == self.source.line_number,
            r.source.position == self.source.position,
            r.source.lines == self.source.lines,
            r.source.notes@ == self.source.notes@.push(Note { kind: NoteKind::Help, text }),
            self.wf() ==> r.wf(),
    {
        let mut b = self;
        b.source.notes.push(Note { kind: NoteKind::Help, text });
        b
    }

    /// Concludes the construction: flushes the open line and returns the
    /// entry with the finished source block attached and its message
    /// emphasized.
    pub fn finish(self) -> (r: Entry)
        requires
            self.wf(),
        ensures
            r.kind == self.entry.kind,
            r.bright == true,
            r.text == self.entry.text,
            r.source matches Some(s) && s.filename == self.source.filename && s.line_number
                == self.source.line_number && s.position == self.source.position && s.notes
                == self.source.notes && s.lines@ == self.spec_final_lines(),
            r.wf(),
    {
        let EntrySourceBuilder { entry, mut source, source_line } = self;
        match source_line {
            Some(l) => source.add_line(l),
            None => {},
        }
        Entry { bright: true, source: Some(source), ..entry }
    }

    /// Discards the construction and returns the original entry,
    /// unmodified: all partial source work is dropped, and since
    /// [`Entry::source`] and [`Entry::named_source`] leave the entry
    /// untouched, `entry.source(l, p).discard()` is `entry` itself.
    pub fn discard(self) -> (r: Entry)
        ensures
            r == self.entry,
    {
        self.entry
    }
}

/// The group-width contribution of one entry: the largest line number of
/// its source block's lines, or `1` when it has no source.
pub open spec fn spec_entry_basis(e: Entry) -> int {
    match e.source {
        Some(s) => spec_max_line(s.lines@, s.lines@.len() as int),
        None => 1,
    }
}

/// The number whose digit count gives a group's shared column width: the
/// largest line number appearing in any member's source lines, at least 1.
pub open spec fn spec_group_basis(entries: Seq<Entry>, i: int) -> int
    decreases i,
{
    if i <= 0 {
        1
    } else if spec_entry_basis(entries[i - 1]) > spec_group_basis(entries, i - 1) {
        spec_entry_basis(entries[i - 1])
    } else {
        spec_group_basis(entries, i - 1)
    }
}

/// The shared column width of a group.
pub open spec fn spec_group_width(entries: Seq<Entry>) -> int {
    spec_dec(spec_group_basis(entries, entries.len() as int)).len() as int
}

/// The renderings of the first `i` members at the shared width `w`,
/// concatenated.
pub open spec fn spec_entries_render(entries: Seq<Entry>, w: int, i: int) -> Seq<char>
    decreases i,
{
    if i <= 0 {
        Seq::empty()
    } else {
        spec_entries_render(entries, w, i - 1) + spec_entry_render(entries[i - 1], Some(w))
    }
}

/// The full rendering of a group: every member back to back at the shared
/// column width, with the per-member trailing blank line suppressed, and
/// exactly one blank line after the whole group.
pub open spec fn spec_multi_render(m: MultiEntry) -> Seq<char> {
    spec_entries_render(m.entries@, spec_group_width(m.entries@), m.entries@.len() as int)
        + seq!['\n']
}

/// The worst severity among the first `i` entries, `Help` when there are
/// none.
pub open spec fn spec_worst(entries: Seq<Entry>, i: int) -> EntryKind
    decreases i,
{
    if i <= 0 {
        EntryKind::Help
    } else if entries[i - 1].kind.rank() > spec_worst(entries, i - 1).rank() {
        entries[i - 1].kind
    } else {
        spec_worst(entries, i - 1)
    }
}

/// The worst severity of the first `i` entries is an upper bound on each
/// of their severities, and is itself one of them unless there are none,
/// in which case it is `Help`.
pub proof fn lemma_worst_severity_is_max(entries: Seq<Entry>, i: int)
    requires
        0 <= i <= entries.len(),
    ensures
        forall|j: int|
            0 <= j < i ==> (#[trigger] entries[j]).kind.rank() <= spec_worst(entries, i).rank(),
        i > 0 ==> exists|j: int| 0 <= j < i && (#[trigger] entries[j]).kind == spec_worst(
            entries,
            i,
        ),
        i == 0 ==> spec_worst(entries, i) == EntryKind::Help,
    decreases i,
{
    if i > 0 {
        lemma_worst_severity_is_max(entries, i - 1);
        if !(entries[i - 1].kind.rank() > spec_worst(entries, i - 1).rank()) && i == 1 {
            // With one entry whose rank does not exceed `Help`'s, that
            // entry is itself a help.
            assert(entries[0].kind == EntryKind::Help);
        }
    }
}

/// A log entry composed of multiple [`Entry`] values, rendered back to
/// back and aligned on one shared line-number column.
#[derive(Clone, Debug)]
pub struct MultiEntry {
    /// The member entries, in the order added.
    pub entries: Vec<Entry>,
}

impl Default for MultiEntry {
    /// An empty group.
    fn default() -> (r: Self)
        ensures
            r.entries@.len() == 0,
    {
        MultiEntry { entries: Vec::new() }
    }
}

impl MultiEntry {
    /// Every member entry is well formed.
    pub open spec fn wf(self) -> bool {
        forall|i: int| 0 <= i < self.entries@.len() ==> (#[trigger] self.entries@[i]).wf()
    }

    /// Decides well-formedness: every member entry is well formed.
    pub fn is_wf(&self) -> (r: bool)
        ensures
            r == self.wf(),
    {
        let mut i: usize = 0;
        while i < self.entries.len()
            invariant
                i <= self.entries@.len(),
                forall|k: int| 0 <= k < i ==> (#[trigger] self.entries@[k]).wf(),
            decreases self.entries@.len() - i,
        {
            if !self.entries[i].is_wf() {
                return false;
            }
            i = i + 1;
        }
        true
    }

    /// Creates a new, empty group.
    pub fn new() -> (r: MultiEntry)
        ensures
            r.entries@.len() == 0,
            r.wf(),
    {
        MultiEntry { entries: Vec::new() }
    }

    /// Adds an entry to the group.
    pub fn entry(self, entry: Entry) -> (r: MultiEntry)
        ensures
            r.entries@ == self.entries@.push(entry),
            self.wf() && entry.wf() ==> r.wf(),
    {
        let mut m = self;
        m.entries.push(entry);
        m
    }

    /// The worst severity among the members, `Help` for an empty group;
    /// this is the severity a target counts when the group is submitted.
    pub fn worst_severity(&self) -> (r: EntryKind)
        ensures
            r == spec_worst(self.entries@, self.entries@.len() as int),
    {
        let mut worst = EntryKind::Help;
        let mut i: usize = 0;
        while i < self.entries.len()
            invariant
                i <= self.entries@.len(),
                worst == spec_worst(self.entries@, i as int),
            decreases self.entries@.len() - i,
        {
            if self.entries[i].kind.rank_value() > worst.rank_value() {
                worst = self.entries[i].kind;
            }
            i = i + 1;
        }
        worst
    }

    /// The shared column width: the digit count of the largest line number
    /// appearing in any member's source lines.
    pub fn width(&self) -> (r: usize)
        ensures
            r as int == spec_group_width(self.entries@),
    {
        let mut basis: usize = 1;
        let mut i: usize = 0;
        while i < self.entries.len()
            invariant
                i <= self.entries@.len(),
                basis as int == spec_group_basis(self.entries@, i as int),
            decreases self.entries@.len() - i,
        {
            let b = match &self.entries[i].source {
                Some(s) => s.max_line(),
                None => 1,
            };
            if b > basis {
                basis = b;
            }
            i = i + 1;
        }
        dec_len(basis)
    }

    /// Renders the group: every member at the shared width, one blank line
    /// after the whole group.
    pub fn render(&self) -> (r: String)
        requires
            self.wf(),
        ensures
            r@ == spec_multi_render(*self),
    {
        let w = self.width();
        let mut out = String::new();
        let mut i: usize = 0;
        while i < self.entries.len()
            invariant
                i <= self.entries@.len(),
                self.wf(),
                w as int == spec_group_width(self.entries@),
                out@ == spec_entries_render(self.entries@, w as int, i as int),
            decreases self.entries@.len() - i,
        {
            let rendered = self.entries[i].render_with_width(w);
            out.append(rendered.as_str());
            proof {
                assert(out@ =~= spec_entries_render(self.entries@, w as int, i + 1));
            }
            i = i + 1;
        }
        push_char(&mut out, '\n');
        proof {
            assert(out@ =~= spec_multi_render(*self));
        }
        out
    }
}

/// Idempotent rendering: rendering the same finished entry twice produces
/// byte-identical output.  [`Entry::render`] pins its result to
/// [`spec_entry_render`], so any two renderings of one entry are equal.
pub proof fn lemma_render_idempotent(e: Entry, r1: Seq<char>, r2: Seq<char>)
    requires
        r1 == spec_entry_render(e, None),
        r2 == spec_entry_render(e, None),
    ensures
        r1 == r2,
{
}

/// The group-width basis covers every member seen so far: it is at least
/// the largest line number of each of the first `i` members.
pub proof fn lemma_group_basis_covers(entries: Seq<Entry>, i: int, j: int)
    requires
        0 <= j < i <= entries.len(),
    ensures
        spec_entry_basis(entries[j]) <= spec_group_basis(entries, i),
    decreases i,
{
    if j < i - 1 {
        lemma_group_basis_covers(entries, i - 1, j);
    }
}

/// Group alignment: a rendered group is its members rendered back to back,
/// each at the one shared column width, which is wide enough for the
/// largest line number appearing in any member's source lines.
pub proof fn lemma_group_alignment(m: MultiEntry)
    ensures
        spec_multi_render(m) == spec_entries_render(
            m.entries@,
            spec_group_width(m.entries@),
            m.entries@.len() as int,
        ) + seq!['\n'],
        forall|j: int|
            0 <= j < m.entries@.len() ==> spec_entry_basis(#[trigger] m.entries@[j])
                <= spec_group_basis(m.entries@, m.entries@.len() as int),
{
    assert forall|j: int| 0 <= j < m.entries@.len() implies spec_entry_basis(
        #[trigger] m.entries@[j],
    ) <= spec_group_basis(m.entries@, m.entries@.len() as int) by {
        lemma_group_basis_covers(m.entries@, m.entries@.len() as int, j);
    }
}

/// The rendering of a task line: the verb right-aligned in a column of
/// twelve characters, a space, and the description.
pub open spec fn spec_task_render(t: Task) -> Seq<char> {
    spec_pad_left(t.0@, 12) + seq![' '] + t.1@ + seq!['\n']
}

/// A log entry with no more than a "verb" and a description, used to log
/// what the application is doing.
#[derive(Clone, PartialEq, Eq, Debug, Hash)]
pub struct Task(pub String, pub String);

impl Task {
    /// Creates a new task entry given a verb and a description.
    pub fn new(task: String, description: String) -> (r: Task)
        ensures
            r.0 == task,
            r.1 == description,
    {
        Task(task, description)
    }

    /// Renders the task line.
    pub fn render(&self) -> (r: String)
        ensures
            r@ == spec_task_render(*self),
    {
        let mut out = String::new();
        push_str_pad_left(&mut out, self.0.as_str(), 12);
        push_char(&mut out, ' ');
        out.append(self.1.as_str());
        push_char(&mut out, '\n');
        proof {
            assert(out@ =~= spec_task_render(*self));
        }
        out
    }
}

impl Entry {
    /// Logs the entry to the given target, consuming it: the target's
    /// counters change by the entry's severity, and the rendered text is
    /// returned for the target's sink.
    pub fn log_to_target(self, target: &mut Target) -> (r: String)
        requires
            self.wf(),
            old(target).warnings < usize::MAX,
            old(target).errors < usize::MAX,
        ensures
            final(target).name == old(target).name,
            final(target).warnings == old(target).warnings + spec_warn_delta(self.kind),
            final(target).errors == old(target).errors + spec_err_delta(self.kind),
            r@ == spec_entry_render(self, None),
    {
        target.log_entry(self)
    }
}

impl Entry {
    /// Logs the entry to the target of the given name inside the logger,
    /// consuming it.  Returns the rendered text when such a target exists;
    /// an entry for an unknown name is dropped.
    pub fn log_to_prologue_logger(self, target: &str, logger: &mut PrologueLogger) -> (r: Option<
        String,
    >)
        requires
            self.wf(),
            forall|i: int|
                0 <= i < old(logger).target_list.targets@.len() ==> (#[trigger] old(
                    logger,
                ).target_list.targets@[i]).warnings < usize::MAX && old(
                    logger,
                ).target_list.targets@[i].errors < usize::MAX,
        ensures
            r is Some <==> (exists|i: int|
                0 <= i < old(logger).target_list.targets@.len() && (#[trigger] old(
                    logger,
                ).target_list.targets@[i]).name@ == target@),
            r is None ==> *final(logger) == *old(logger),
            r matches Some(text) ==> text@ == spec_entry_render(self, None) && (exists|i: int|
                {
                    &&& 0 <= i < old(logger).target_list.targets@.len()
                    &&& old(logger).target_list.targets@[i].name@ == target@
                    &&& final(logger).target_list.targets@ == old(
                        logger,
                    ).target_list.targets@.update(
                        i,
                        Target {
                            name: old(logger).target_list.targets@[i].name,
                            warnings: (old(logger).target_list.targets@[i].warnings
                                + spec_warn_delta(self.kind)) as usize,
                            errors: (old(logger).target_list.targets@[i].errors + spec_err_delta(
                                self.kind,
                            )) as usize,
                        },
                    )
                }),
    {
        match logger.target_list.find(target) {
            Some(i) => {
                let t = logger.target_list.get_mut(i);
                let text = t.log_entry(self);
                Some(text)
            },
            None => None,
        }
    }
}

impl MultiEntry {
    /// Logs the group to the given target, consuming it: the counters
    /// change once, by the group's worst severity, and the whole rendered
    /// group is returned for one write to the sink.
    pub fn log_to_target(self, target: &mut Target) -> (r: String)
        requires
            self.wf(),
            old(target).warnings < usize::MAX,
            old(target).errors < usize::MAX,
        ensures
            final(target).name == old(target).name,
            final(target).warnings == old(target).warnings + spec_warn_delta(
                spec_worst(self.entries@, self.entries@.len() as int),
            ),
            final(target).errors == old(target).errors + spec_err_delta(
                spec_worst(self.entries@, self.entries@.len() as int),
            ),
            r@ == spec_multi_render(self),
    {
        target.log_multi_entry(self)
    }
}

impl MultiEntry {
    /// Logs the group to the target of the given name inside the logger,
    /// consuming it.  Returns the rendered text when such a target exists;
    /// a group for an unknown name is dropped.
    pub fn log_to_prologue_logger(self, target: &str, logger: &mut PrologueLogger) -> (r: Option<
        String,
    >)
        requires
            self.wf(),
            forall|i: int|
                0 <= i < old(logger).target_list.targets@.len() ==> (#[trigger] old(
                    logger,
                ).target_list.targets@[i]).warnings < usize::MAX && old(
                    logger,
                ).target_list.targets@[i].errors < usize::MAX,
        ensures
            r is Some <==> (exists|i: int|
                0 <= i < old(logger).target_list.targets@.len() && (#[trigger] old(
                    logger,
                ).target_list.targets@[i]).name@ == target@),
            r is None ==> *final(logger) == *old(logger),
            r matches Some(text) ==> text@ == spec_multi_render(self) && (exists|i: int|
                {
                    &&& 0 <= i < old(logger).target_list.targets@.len()
                    &&& old(logger).target_list.targets@[i].name@ == target@
                    &&& final(logger).target_list.targets@ == old(
                        logger,
                    ).target_list.targets@.update(
                        i,
                        Target {
                            name: old(logger).target_list.targets@[i].name,
                            warnings: (old(logger).target_list.targets@[i].warnings
                                + spec_warn_delta(
                                spec_worst(self.entries@, self.entries@.len() as int),
                            )) as usize,
                            errors: (old(logger).target_list.targets@[i].errors + spec_err_delta(
                                spec_worst(self.entries@, self.entries@.len() as int),
                            )) as usize,
                        },
                    )
                }),
    {
        match logger.target_list.find(target) {
            Some(i) => {
                let t = logger.target_list.get_mut(i);
                let text = t.log_multi_entry(self);
                Some(text)
            },
            None => None,
        }
    }
}

impl Task {
    /// Logs the task line to the given target, consuming it: no counters
    /// change, and the rendered text is returned for the target's sink.
    pub fn log_to_target(self, target: &Target) -> (r: String)
        ensures
            r@ == spec_task_render(self),
    {
        target.log_inline_entry(self)
    }

    /// Logs the task line to the target of the given name inside the
    /// logger, consuming it.  Returns the rendered text when such a target
    /// exists; a task for an unknown name is dropped.
    pub fn log_to_prologue_logger(self, target: &str, logger: &PrologueLogger) -> (r: Option<
        String,
    >)
        ensures
            r is Some <==> (exists|i: int|
                0 <= i < logger.target_list.targets@.len() && (
                #[trigger] logger.target_list.targets@[i]).name@ == target@),
            r matches Some(text) ==> text@ == spec_task_render(self),
    {
        match logger.target_list.find(target) {
            Some(i) => {
                let t = logger.target_list.get(i);
                let text = t.log_inline_entry(self);
                Some(text)
            },
            None => None,
        }
    }
}

/// What each `annotate_*` method returns: on failure the untouched builder
/// comes back together with the error, so no work is lost; on success the
/// builder comes back with the annotation inserted at its sorted position
/// in the open line.
pub open spec fn spec_annotate_result(
    b: EntrySourceBuilder,
    style: EntryKind,
    pos: usize,
    len: usize,
    text: String,
    r: Result<EntrySourceBuilder, (EntrySourceBuilder, Error)>,
) -> bool {
    &&& (b.source_line is None ==> (r matches Err((rb, e)) && rb == b && e.kind matches
        ErrorKind::AnnotationOnEmptyLine))
    &&& (b.source_line matches Some(l) ==> {
        &&& (r is Ok <==> (forall|i: int|
            0 <= i < l.annotations@.len() ==> spans_disjoint(
                (#[trigger] l.annotations@[i]).reference,
                AnnotationReference { position: pos, len },
            )))
        &&& (r matches Ok(nb) ==> {
            &&& nb.wf()
            &&& nb.entry == b.entry
            &&& nb.source == b.source
            &&& nb.source_line matches Some(l2) && l2.line == l.line && l2.contents == l.contents
                && (exists|k: int|
                0 <= k <= l.annotations@.len() && l2.annotations@ == l.annotations@.insert(
                    k,
                    Annotation { style, reference: AnnotationReference { position: pos, len }, text },
                ))
        })
        &&& (!(r is Ok) ==> (r matches Err((rb, e)) && rb == b && e.kind matches
            ErrorKind::OverlappingAnnotation))
    })
}

} // verus!
