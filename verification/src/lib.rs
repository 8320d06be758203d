//! Compiler-style diagnostic rendering: annotated source lines with
//! underline call-outs, grouped entries with a shared line-number column,
//! and per-target warning/error counting with conditional summaries.
//!
//! An [`Entry`] is one diagnostic: a severity, a message, and optionally a
//! source block built through [`EntrySourceBuilder`], which holds annotated
//! source lines and trailing notes.  Rendering an entry produces text in
//! the familiar compiler shape:
//!
//! ```text
//! warning: variable does not need to be mutable
//!  --> src/main.rs:3:9
//!   |
//! 3 |     let mut x = 42;
//!   |         ----^
//!   |         |
//!   |         help: remove this `mut`
//!   |
//!   = note: `#[warn(unused_mut)]` on by default
//! ```
//!
//! A [`MultiEntry`] renders several entries back to back, aligned on one
//! shared line-number column.  A [`Target`] counts the warnings and errors
//! submitted to it and hands back the rendered text for its sink; a
//! [`TargetList`] keeps targets under unique names, and [`PrologueLogger`]
//! routes entries and inbound leveled records to them by name.
//!
//! Every renderer is specified against a sequence-of-characters model of
//! its output, the annotation engine maintains the span ordering and
//! non-overlap invariants, and the counting rules are stated exactly; the
//! laws the crate guarantees stand as public proof functions beside the
//! types they describe.

pub mod annotation;
pub mod entry;
pub mod error;
pub mod internals;
pub mod source;
pub mod style;
pub mod target;
pub mod text;

pub use entry::{Entry, EntrySourceBuilder, MultiEntry, Task};
pub use target::{LogLevel, PrologueLogger, Target, TargetList};

use vstd::prelude::*;

verus! {

/// Kind of a log entry, ordered from least to most severe.
#[derive(Copy, Clone, PartialEq, Eq, Structural, Debug, Hash)]
pub enum EntryKind {
    /// A help message, usually attached to a warning or error.
    Help,
    /// A note, usually attached to a warning or error.
    Note,
    /// A warning.
    Warning,
    /// An error.
    Error,
}

impl EntryKind {
    /// Rank of this kind in the severity order: Help < Note < Warning < Error.
    pub open spec fn rank(self) -> int {
        match self {
            EntryKind::Help => 0,
            EntryKind::Note => 1,
            EntryKind::Warning => 2,
            EntryKind::Error => 3,
        }
    }

    /// The severity rank as an executable value.
    pub fn rank_value(self) -> (r: u8)
        ensures
            r as int == self.rank(),
    {
        match self {
            EntryKind::Help => 0,
            EntryKind::Note => 1,
            EntryKind::Warning => 2,
            EntryKind::Error => 3,
        }
    }

    /// The label written before the colon of an entry of this kind.
    pub fn as_str(&self) -> (r: &'static str)
        ensures
            r@ == self.spec_label(),
    {
        match self {
            EntryKind::Help => "help",
            EntryKind::Note => "note",
            EntryKind::Warning => "warning",
            EntryKind::Error => "error",
        }
    }

    /// The label of this kind as a sequence of characters.
    pub open spec fn spec_label(self) -> Seq<char> {
        match self {
            EntryKind::Help => "help"@,
            EntryKind::Note => "note"@,
            EntryKind::Warning => "warning"@,
            EntryKind::Error => "error"@,
        }
    }
}

} // verus!
