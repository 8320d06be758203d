//! Errors returned by bad configuration of log entries or the logger itself.

use vstd::prelude::*;
use vstd::string::StringExecFns;

verus! {

/// Describes which kind of error happened.
#[derive(Clone, Debug)]
pub enum ErrorKind {
    /// A target with the given name already exists.
    TargetAlreadyExists(String),
    /// There was an attempt to annotate before any line was added.
    AnnotationOnEmptyLine,
    /// There was an attempt to overlap annotations on a source code line.
    OverlappingAnnotation,
}

/// Error raised during the construction of a log entry or the configuration
/// of the logger.
#[derive(Clone, Debug)]
pub struct Error {
    /// The kind of error.
    pub kind: ErrorKind,
}

impl Error {
    /// Wraps an [`ErrorKind`] into an [`Error`].
    pub fn new(kind: ErrorKind) -> (r: Error)
        ensures
            r.kind == kind,
    {
        Error { kind }
    }

    /// Returns the kind of error.
    pub fn kind(&self) -> (r: &ErrorKind)
        ensures
            r == self.kind,
    {
        &self.kind
    }

    /// A human-readable description of the error.
    pub fn message(&self) -> (r: String)
        ensures
            r@ == spec_message(self.kind),
    {
        let mut out = String::new();
        match &self.kind {
            ErrorKind::TargetAlreadyExists(name) => {
                out.append("target `");
                out.append(name.as_str());
                out.append("` already exists");
            },
            ErrorKind::AnnotationOnEmptyLine => {
                out.append("tried to annotate an empty line");
            },
            ErrorKind::OverlappingAnnotation => {
                out.append("annotation overlaps with previous annotation");
            },
        }
        assert(out@ =~= spec_message(self.kind));
        out
    }
}

/// The description that [`Error::message`] produces for each kind.
pub open spec fn spec_message(kind: ErrorKind) -> Seq<char> {
    match kind {
        ErrorKind::TargetAlreadyExists(name) => "target `"@ + name@ + "` already exists"@,
        ErrorKind::AnnotationOnEmptyLine => "tried to annotate an empty line"@,
        ErrorKind::OverlappingAnnotation => "annotation overlaps with previous annotation"@,
    }
}

} // verus!
