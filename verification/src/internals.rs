//! Small presentation pieces shared by the renderers: the margin bar, the
//! note bullet, the location arrow, the header colon, emphasized titles,
//! and the underline glyph run.

pub mod console;

use vstd::prelude::*;

use crate::EntryKind;
use crate::annotation::spec_glyph;
use crate::text::{push_repeat, spec_repeat};

verus! {

/// The vertical bar drawn at the start of every margin row.
#[derive(Copy, Clone, Debug)]
pub struct LineStart;

impl LineStart {
    /// The text of the bar.
    pub fn text(&self) -> (r: &'static str)
        ensures
            r@ == "|"@,
    {
        "|"
    }
}

/// The bullet drawn before a trailing note.
#[derive(Copy, Clone, Debug)]
pub struct NoteDash;

impl NoteDash {
    /// The text of the bullet.
    pub fn text(&self) -> (r: &'static str)
        ensures
            r@ == "="@,
    {
        "="
    }
}

/// The arrow drawn before the source location in the header row.
#[derive(Copy, Clone, Debug)]
pub struct Arrow;

impl Arrow {
    /// The text of the arrow.
    pub fn text(&self) -> (r: &'static str)
        ensures
            r@ == "-->"@,
    {
        "-->"
    }
}

/// The colon drawn between the severity label and the message.
#[derive(Copy, Clone, Debug)]
pub struct Colon;

impl Colon {
    /// The text of the colon.
    pub fn text(&self) -> (r: &'static str)
        ensures
            r@ == ":"@,
    {
        ":"
    }
}

/// A piece of text drawn emphasized; with the plain presentation backend
/// the emphasis is a no-op.
#[derive(Clone, Debug)]
pub struct Title(pub String);

impl Title {
    /// Renders the title: the text itself.
    pub fn render(&self) -> (r: String)
        ensures
            r@ == self.0@,
    {
        self.0.clone()
    }
}

/// An underline run: the glyph of the given severity repeated over the
/// length of the underlined span.
#[derive(Copy, Clone, Debug)]
pub struct AnnotationUnderline(pub EntryKind, pub usize);

impl AnnotationUnderline {
    /// Renders the run.
    pub fn render(&self) -> (r: String)
        ensures
            r@ == spec_repeat(spec_glyph(self.0), self.1 as int),
    {
        let mut out = String::new();
        let g = crate::annotation::glyph(self.0);
        push_repeat(&mut out, g, self.1);
        proof {
            assert(out@ =~= spec_repeat(spec_glyph(self.0), self.1 as int));
        }
        out
    }
}

} // verus!
