//! Annotated source lines: span overlap validation, the ordering invariant,
//! and the underline / call-out rendering of a single line.

use vstd::prelude::*;
use vstd::string::StringExecFns;

use crate::EntryKind;
use crate::error::{Error, ErrorKind};
use crate::text::{
    push_char, push_dec_pad_right, push_repeat, push_spaces, spec_dec, spec_pad_right,
    spec_repeat, spec_spaces,
};

verus! {

/// A half-open span `[position, position + len)` on one source line.
///
/// Positions are one-based columns of the line's text, so a span at
/// position `p` underlines the characters starting at index `p - 1`.
#[derive(Copy, Clone, PartialEq, Eq, Structural, Debug, Hash)]
pub struct AnnotationReference {
    /// Start column of the span.
    pub position: usize,
    /// Number of columns the span covers.
    pub len: usize,
}

impl AnnotationReference {
    /// The first column after the span.
    pub open spec fn end(self) -> int {
        self.position + self.len
    }

    /// A span is well formed when it covers at least one column and its end
    /// fits in a machine word.
    pub open spec fn wf(self) -> bool {
        1 <= self.len && self.end() <= usize::MAX
    }
}

/// Two spans are disjoint when one lies entirely before the other;
/// touching endpoints do not conflict.
pub open spec fn spans_disjoint(a: AnnotationReference, b: AnnotationReference) -> bool {
    a.end() <= b.position || b.end() <= a.position
}

/// An underline over a sub-range of one source line, with an optional label.
#[derive(Clone, Debug)]
pub struct Annotation {
    /// Kind of the annotation, which selects the underline glyph.
    pub style: EntryKind,
    /// The span underlined.
    pub reference: AnnotationReference,
    /// The label drawn next to or below the underline; may be empty.
    pub text: String,
}

/// The glyph used to underline a span: `-` for help call-outs, `^` otherwise.
pub open spec fn spec_glyph(k: EntryKind) -> char {
    if k is Help {
        '-'
    } else {
        '^'
    }
}

/// Executable form of [`spec_glyph`].
pub fn glyph(k: EntryKind) -> (r: char)
    ensures
        r == spec_glyph(k),
{
    match k {
        EntryKind::Help => '-',
        _ => '^',
    }
}

/// Annotations are sorted by start position and pairwise disjoint: each one
/// ends at or before the next one starts.
pub open spec fn anns_ordered(s: Seq<Annotation>) -> bool {
    forall|i: int, j: int|
        0 <= i < j < s.len() ==> (#[trigger] s[i]).reference.end() <= (
        #[trigger] s[j]).reference.position
}

/// Annotation `k` ends at or before annotation `k + 1` starts.
spec fn adjacent_ok(s: Seq<Annotation>, k: int) -> bool {
    s[k].reference.end() <= s[k + 1].reference.position
}

/// A well-formed span ending at or before the next span's start, at every
/// adjacent pair, puts every earlier span before every later one.
proof fn lemma_span_chain(s: Seq<Annotation>, i: int, j: int)
    requires
        forall|k: int| 0 <= k < s.len() ==> (#[trigger] s[k]).reference.wf(),
        forall|k: int| 0 <= k < s.len() - 1 ==> #[trigger] adjacent_ok(s, k),
        0 <= i < j < s.len(),
    ensures
        s[i].reference.end() <= s[j].reference.position,
    decreases j - i,
{
    if j > i + 1 {
        lemma_span_chain(s, i, j - 1);
        assert(adjacent_ok(s, j - 1));
        assert(s[j - 1].reference.wf());
    } else {
        assert(adjacent_ok(s, i));
    }
}

/// Adjacent ordering plus well-formed spans give the full ordering
/// invariant.
proof fn lemma_adjacent_ordered(s: Seq<Annotation>)
    requires
        forall|k: int| 0 <= k < s.len() ==> (#[trigger] s[k]).reference.wf(),
        forall|k: int| 0 <= k < s.len() - 1 ==> #[trigger] adjacent_ok(s, k),
    ensures
        anns_ordered(s),
{
    assert forall|i: int, j: int| 0 <= i < j < s.len() implies (
    #[trigger] s[i]).reference.end() <= (#[trigger] s[j]).reference.position by {
        lemma_span_chain(s, i, j);
    }
}

/// A source code line together with its annotations.
#[derive(Clone, Debug)]
pub struct SourceLine {
    /// The line number shown in the margin.
    pub line: usize,
    /// The text of the source line.
    pub contents: String,
    /// The annotations attached to the line, sorted by start position.
    pub annotations: Vec<Annotation>,
}

impl SourceLine {
    /// Every annotation has a well-formed span and the annotations are
    /// sorted and pairwise disjoint.
    pub open spec fn wf(self) -> bool {
        &&& forall|i: int|
            0 <= i < self.annotations@.len() ==> (#[trigger] self.annotations@[i]).reference.wf()
        &&& anns_ordered(self.annotations@)
    }

    /// Creates a new source line, with no annotations, given the line number
    /// and the source text.
    pub fn new(line: usize, contents: String) -> (r: SourceLine)
        ensures
            r.line == line,
            r.contents == contents,
            r.annotations@.len() == 0,
            r.wf(),
    {
        SourceLine { line, contents, annotations: Vec::new() }
    }

    /// Attaches an annotation to the line.
    ///
    /// The new span is validated against every existing annotation: it is
    /// accepted exactly when it is disjoint from all of them (touching
    /// endpoints are fine), and is then inserted at its sorted position.
    /// A rejected span leaves the line unchanged.
    pub fn annotate(&mut self, style: EntryKind, pos: usize, len: usize, text: String) -> (r:
        Result<(), Error>)
        requires
            old(self).wf(),
            1 <= len,
            pos + len <= usize::MAX,
        ensures
            final(self).wf(),
            final(self).line == old(self).line,
            final(self).contents == old(self).contents,
            r is Ok <==> (forall|i: int|
                0 <= i < old(self).annotations@.len() ==> spans_disjoint(
                    (#[trigger] old(self).annotations@[i]).reference,
                    AnnotationReference { position: pos, len },
                )),
            r is Ok ==> exists|k: int|
                0 <= k <= old(self).annotations@.len() && final(self).annotations@ == old(
                    self,
                ).annotations@.insert(
                    k,
                    Annotation { style, reference: AnnotationReference { position: pos, len }, text },
                ),
            r is Err ==> *final(self) == *old(self) && (r matches Err(e) && e.kind matches
                ErrorKind::OverlappingAnnotation),
    {
        let ghost new_ref = AnnotationReference { position: pos, len };
        let n = self.annotations.len();
        let mut i: usize = 0;
        // Scan left to right; annotations that end at or before `pos` lie
        // entirely before the new span.  The first one that reaches past
        // `pos` either starts at or after the new span's end (then every
        // later one does too, by the ordering invariant) or overlaps it.
        loop
            invariant
                n == self.annotations@.len(),
                i <= n,
                *self == *old(self),
                old(self).wf(),
                forall|k: int|
                    0 <= k < i ==> (#[trigger] self.annotations@[k]).reference.end() <= pos as int,
            ensures
                i <= n,
                *self == *old(self),
                forall|k: int|
                    0 <= k < i ==> (#[trigger] self.annotations@[k]).reference.end() <= pos as int,
                i < n ==> self.annotations@[i as int].reference.end() > pos as int,
            decreases n - i,
        {
            if i == n {
                break ;
            }
            let a_pos = self.annotations[i].reference.position;
            let a_len = self.annotations[i].reference.len;
            if a_pos + a_len <= pos {
                // Ends before the new span starts: keep scanning.
                i = i + 1;
            } else {
                break ;
            }
        }
        if i < n && pos + len > self.annotations[i].reference.position {
            // The new span reaches past the start of annotation `i`, which
            // in turn reaches past the start of the new span: they overlap.
            proof {
                assert(!spans_disjoint(self.annotations@[i as int].reference, new_ref));
            }
            return Err(Error { kind: ErrorKind::OverlappingAnnotation });
        }
        proof {
            let s = old(self).annotations@;
            assert forall|k: int| 0 <= k < s.len() implies spans_disjoint(
                (#[trigger] s[k]).reference,
                new_ref,
            ) by {
                if k >= i {
                    assert(pos + len <= s[i as int].reference.position);
                    if k > i {
                        assert(s[i as int].reference.end() <= s[k].reference.position);
                        assert(s[i as int].reference.wf());
                    }
                }
            }
        }
        let ann = Annotation { style, reference: AnnotationReference { position: pos, len }, text };
        self.annotations.insert(i, ann);
        proof {
            let s = old(self).annotations@;
            let t = self.annotations@;
            assert(t == s.insert(i as int, ann));
            assert forall|p: int, q: int| 0 <= p < q < t.len() implies (
            #[trigger] t[p]).reference.end() <= (#[trigger] t[q]).reference.position by {
                if q < i {
                    assert(t[p] == s[p] && t[q] == s[q]);
                } else if q == i {
                    assert(t[p] == s[p]);
                    assert(s[p].reference.end() <= pos as int);
                } else if p == i {
                    assert(t[q] == s[q - 1]);
                    assert(pos + len <= s[i as int].reference.position);
                    if q - 1 > i {
                        assert(s[i as int].reference.end() <= s[q - 1].reference.position);
                        assert(s[i as int].reference.wf());
                    }
                } else if p > i {
                    assert(t[p] == s[p - 1] && t[q] == s[q - 1]);
                } else {
                    assert(p < i && q > i);
                    assert(t[p] == s[p] && t[q] == s[q - 1]);
                    assert(s[p].reference.end() <= pos as int);
                    assert(pos + len <= s[q - 1].reference.position);
                }
            }
        }
        Ok(())
    }
}

/// Overlap invariant: all annotations attached to a well-formed line have
/// pairwise disjoint spans (spans touching at a boundary are disjoint).
/// Every line built through [`SourceLine::new`] and
/// [`SourceLine::annotate`] is well formed, and a rejected insert leaves
/// the line unchanged, so this holds of every line the builder produces.
pub proof fn lemma_overlap_invariant(l: SourceLine)
    requires
        l.wf(),
    ensures
        forall|i: int, j: int|
            0 <= i < l.annotations@.len() && 0 <= j < l.annotations@.len() && i != j
                ==> spans_disjoint(
                (#[trigger] l.annotations@[i]).reference,
                (#[trigger] l.annotations@[j]).reference,
            ),
{
}

/// Sort invariant: the annotations of a well-formed line are ordered by
/// strictly ascending start position, whatever sequence of successful
/// inserts produced them.
pub proof fn lemma_sort_invariant(l: SourceLine)
    requires
        l.wf(),
    ensures
        forall|i: int, j: int|
            0 <= i < j < l.annotations@.len() ==> (
            #[trigger] l.annotations@[i]).reference.position < (
            #[trigger] l.annotations@[j]).reference.position,
{
    assert forall|i: int, j: int| 0 <= i < j < l.annotations@.len() implies (
    #[trigger] l.annotations@[i]).reference.position < (
    #[trigger] l.annotations@[j]).reference.position by {
        assert(l.annotations@[i].reference.end() <= l.annotations@[j].reference.position);
        assert(l.annotations@[i].reference.wf());
    }
}

/// The drawing cursor after the spans of `anns` have been drawn: the end of
/// the last span, or `0` before anything was drawn.
pub open spec fn spec_cursor(anns: Seq<Annotation>) -> int {
    if anns.len() == 0 {
        0
    } else {
        anns.last().reference.end()
    }
}

/// The underline row's segments: every annotation, left to right, drawn as
/// padding up to its start column followed by its glyph repeated over the
/// span, with a cursor running from span end to span end.
pub open spec fn spec_underlines(anns: Seq<Annotation>) -> Seq<char>
    decreases anns.len(),
{
    if anns.len() == 0 {
        Seq::empty()
    } else {
        let a = anns.last();
        spec_underlines(anns.drop_last()) + spec_spaces(
            a.reference.position - spec_cursor(anns.drop_last()),
        ) + spec_repeat(spec_glyph(a.style), a.reference.len as int)
    }
}

/// One annotation's part of a stem row: padding up to its start column,
/// then a vertical stem over its span when it has a label, blank padding
/// when it does not.
pub open spec fn spec_arrow(a: Annotation, cursor: int) -> Seq<char> {
    spec_spaces(a.reference.position - cursor) + if a.text@.len() > 0 {
        seq!['|'] + spec_spaces(a.reference.len - 1)
    } else {
        spec_spaces(a.reference.len as int)
    }
}

/// The stems of the first `anns.len()` annotations, left to right.
pub open spec fn spec_arrows(anns: Seq<Annotation>) -> Seq<char>
    decreases anns.len(),
{
    if anns.len() == 0 {
        Seq::empty()
    } else {
        spec_arrows(anns.drop_last()) + spec_arrow(anns.last(), spec_cursor(anns.drop_last()))
    }
}

/// The margin under a line-number column of width `w`: padding, a space,
/// and the vertical bar.
pub open spec fn spec_margin(w: int) -> Seq<char> {
    spec_spaces(w) + seq![' ', '|']
}

/// The two call-out rows for annotation `k`: a stem row over annotations
/// `0 ..= k`, then a label row where the stems of annotations `0 .. k` are
/// redrawn and annotation `k`'s label is placed at its own column.
pub open spec fn spec_callout_pair(anns: Seq<Annotation>, w: int, k: int) -> Seq<char> {
    seq!['\n'] + spec_margin(w) + spec_arrows(anns.take(k + 1)) + seq!['\n'] + spec_margin(w)
        + spec_arrows(anns.take(k)) + spec_spaces(
        anns[k].reference.position - spec_cursor(anns.take(k)),
    ) + anns[k].text@
}

/// The call-out rows for annotations `anns.len() - 2` down to `j`, in that
/// order: the rightmost annotation's label sits inline after the underline
/// row, and every earlier annotation gets its own pair of rows, right to
/// left.
pub open spec fn spec_callouts_from(anns: Seq<Annotation>, w: int, j: int) -> Seq<char>
    decreases anns.len() - j,
{
    if j < 0 || j > anns.len() - 2 {
        Seq::empty()
    } else {
        spec_callouts_from(anns, w, j + 1) + spec_callout_pair(anns, w, j)
    }
}

/// The decoration rows drawn under an annotated line: the underline row
/// with the rightmost label inline, then the staggered call-out rows, then
/// the final line break.
pub open spec fn spec_annotation_block(anns: Seq<Annotation>, w: int) -> Seq<char>
    recommends
        anns.len() > 0,
{
    spec_margin(w) + spec_underlines(anns) + seq![' '] + anns.last().text@ + spec_callouts_from(
        anns,
        w,
        0,
    ) + seq!['\n']
}

/// The full rendering of a source line at column width `w`: the line-number
/// row followed by the annotation block, if any annotations exist.
pub open spec fn spec_line_render(l: SourceLine, w: int) -> Seq<char> {
    spec_pad_right(spec_dec(l.line as int), w) + seq![' ', '|', ' '] + l.contents@ + seq!['\n']
        + if l.annotations@.len() == 0 {
        Seq::empty()
    } else {
        spec_annotation_block(l.annotations@, w)
    }
}

/// Appends the margin row prefix for column width `w`.
pub fn push_margin(out: &mut String, w: usize)
    ensures
        final(out)@ == old(out)@ + spec_margin(w as int),
{
    push_spaces(out, w);
    out.append(" |");
    proof {
        reveal_strlit(" |");
        assert(out@ =~= old(out)@ + spec_margin(w as int));
    }
}

/// Appends the underline segments of all annotations.
fn push_underlines(out: &mut String, anns: &Vec<Annotation>)
    requires
        anns_ordered(anns@),
        forall|i: int| 0 <= i < anns@.len() ==> (#[trigger] anns@[i]).reference.wf(),
    ensures
        final(out)@ == old(out)@ + spec_underlines(anns@),
{
    let mut cursor: usize = 0;
    let mut i: usize = 0;
    while i < anns.len()
        invariant
            i <= anns@.len(),
            anns_ordered(anns@),
            forall|k: int| 0 <= k < anns@.len() ==> (#[trigger] anns@[k]).reference.wf(),
            cursor as int == spec_cursor(anns@.take(i as int)),
            out@ == old(out)@ + spec_underlines(anns@.take(i as int)),
        decreases anns@.len() - i,
    {
        proof {
            assert(anns@.take(i + 1).drop_last() =~= anns@.take(i as int));
            assert(anns@.take(i + 1).last() == anns@[i as int]);
            if i > 0 {
                assert(anns@.take(i as int).last() == anns@[i - 1]);
                assert(anns@[i - 1].reference.end() <= anns@[i as int].reference.position);
            }
        }
        let pos = anns[i].reference.position;
        let alen = anns[i].reference.len;
        push_spaces(out, pos - cursor);
        let g = glyph(anns[i].style);
        push_repeat(out, g, alen);
        cursor = pos + alen;
        i = i + 1;
    }
    proof {
        assert(anns@.take(anns@.len() as int) =~= anns@);
    }
}

/// Appends the stems of the first `limit` annotations.
fn push_arrows(out: &mut String, anns: &Vec<Annotation>, limit: usize)
    requires
        limit <= anns@.len(),
        anns_ordered(anns@),
        forall|i: int| 0 <= i < anns@.len() ==> (#[trigger] anns@[i]).reference.wf(),
    ensures
        final(out)@ == old(out)@ + spec_arrows(anns@.take(limit as int)),
{
    let mut cursor: usize = 0;
    let mut i: usize = 0;
    while i < limit
        invariant
            i <= limit <= anns@.len(),
            anns_ordered(anns@),
            forall|k: int| 0 <= k < anns@.len() ==> (#[trigger] anns@[k]).reference.wf(),
            cursor as int == spec_cursor(anns@.take(i as int)),
            out@ == old(out)@ + spec_arrows(anns@.take(i as int)),
        decreases limit - i,
    {
        proof {
            assert(anns@.take(i + 1).drop_last() =~= anns@.take(i as int));
            assert(anns@.take(i + 1).last() == anns@[i as int]);
            if i > 0 {
                assert(anns@.take(i as int).last() == anns@[i - 1]);
                assert(anns@[i - 1].reference.end() <= anns@[i as int].reference.position);
            }
        }
        let pos = anns[i].reference.position;
        let alen = anns[i].reference.len;
        push_spaces(out, pos - cursor);
        if !anns[i].text.as_str().is_empty() {
            push_char(out, '|');
            push_spaces(out, alen - 1);
            proof {
                assert(out@ =~= old(out)@ + spec_arrows(anns@.take(i + 1)));
            }
        } else {
            push_spaces(out, alen);
            proof {
                assert(out@ =~= old(out)@ + spec_arrows(anns@.take(i + 1)));
            }
        }
        cursor = pos + alen;
        i = i + 1;
    }
}

impl SourceLine {
    /// Decides well-formedness: every span covers at least one column and
    /// ends within a machine word, and each annotation ends at or before
    /// the next one starts.
    pub fn is_wf(&self) -> (r: bool)
        ensures
            r == self.wf(),
    {
        let n = self.annotations.len();
        let mut i: usize = 0;
        while i < n
            invariant
                n == self.annotations@.len(),
                i <= n,
                forall|k: int|
                    0 <= k < i ==> (#[trigger] self.annotations@[k]).reference.wf(),
                forall|k: int| 0 <= k < i - 1 ==> #[trigger] adjacent_ok(self.annotations@, k),
            decreases n - i,
        {
            let a = self.annotations[i].reference;
            if a.len < 1 || a.position > usize::MAX - a.len {
                return false;
            }
            if i > 0 {
                let p = self.annotations[i - 1].reference;
                if p.position + p.len > a.position {
                    proof {
                        assert(!anns_ordered(self.annotations@)) by {
                            assert(self.annotations@[i - 1].reference.end() > self.annotations@[
                                i as int
                            ].reference.position);
                        }
                    }
                    return false;
                }
                proof {
                    assert(adjacent_ok(self.annotations@, i - 1));
                }
            }
            i = i + 1;
        }
        proof {
            lemma_adjacent_ordered(self.annotations@);
        }
        true
    }

    /// Renders the line and its annotations with the given line-number
    /// column width.
    #[verifier::rlimit(60)]
    pub fn render_with_width(&self, w: usize) -> (r: String)
        requires
            self.wf(),
        ensures
            r@ == spec_line_render(*self, w as int),
    {
        let mut out = String::new();
        push_dec_pad_right(&mut out, self.line, w);
        out.append(" | ");
        out.append(self.contents.as_str());
        push_char(&mut out, '\n');
        proof {
            reveal_strlit(" | ");
            assert(out@ =~= spec_pad_right(spec_dec(self.line as int), w as int) + seq![
                ' ',
                '|',
                ' ',
            ] + self.contents@ + seq!['\n']);
        }
        let n = self.annotations.len();
        if n > 0 {
            let ghost base = out@;
            push_margin(&mut out, w);
            push_underlines(&mut out, &self.annotations);
            push_char(&mut out, ' ');
            out.append(self.annotations[n - 1].text.as_str());
            proof {
                assert(self.annotations@.last() == self.annotations@[n - 1]);
                assert(out@ =~= base + spec_margin(w as int) + spec_underlines(self.annotations@)
                    + seq![' '] + self.annotations@.last().text@);
            }
            let ghost head = out@;
            let mut k = n - 1;
            while k > 0
                invariant
                    k <= n - 1,
                    n == self.annotations@.len(),
                    self.wf(),
                    out@ == head + spec_callouts_from(self.annotations@, w as int, k as int),
                decreases k,
            {
                let kk = k - 1;
                let ghost before = out@;
                push_char(&mut out, '\n');
                push_margin(&mut out, w);
                push_arrows(&mut out, &self.annotations, kk + 1);
                push_char(&mut out, '\n');
                push_margin(&mut out, w);
                push_arrows(&mut out, &self.annotations, kk);
                let cur: usize = if kk == 0 {
                    0
                } else {
                    proof {
                        assert(self.annotations@.take(kk as int).last() == self.annotations@[kk
                            - 1]);
                        assert(self.annotations@[kk - 1].reference.end()
                            <= self.annotations@[kk as int].reference.position);
                    }
                    self.annotations[kk - 1].reference.position + self.annotations[kk
                        - 1].reference.len
                };
                proof {
                    assert(cur as int == spec_cursor(self.annotations@.take(kk as int)));
                }
                push_spaces(&mut out, self.annotations[kk].reference.position - cur);
                out.append(self.annotations[kk].text.as_str());
                proof {
                    assert(out@ =~= before + spec_callout_pair(
                        self.annotations@,
                        w as int,
                        kk as int,
                    ));
                    assert(out@ =~= head + spec_callouts_from(
                        self.annotations@,
                        w as int,
                        kk as int,
                    ));
                }
                k = kk;
            }
            push_char(&mut out, '\n');
            proof {
                assert(out@ =~= spec_line_render(*self, w as int));
            }
        } else {
            proof {
                assert(out@ =~= spec_line_render(*self, w as int));
            }
        }
        out
    }

    /// Renders the line with the column width of its own line number.
    pub fn render(&self) -> (r: String)
        requires
            self.wf(),
        ensures
            r@ == spec_line_render(*self, spec_dec(self.line as int).len() as int),
    {
        let w = crate::text::dec_len(self.line);
        self.render_with_width(w)
    }
}

} // verus!
