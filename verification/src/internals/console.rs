//! The plain presentation backend: color selectors that leave the text
//! unchanged, so the renderers work with zero presentation dependencies.

use vstd::prelude::*;
use vstd::string::StrSliceExecFns;

use crate::text::{push_spaces, spec_spaces};

verus! {

/// A piece of text with a presentation applied; with this backend the
/// presentation is the identity.
#[derive(Clone, PartialEq, Eq, Debug, Hash)]
pub struct StyledObject(pub String);

impl StyledObject {
    /// Selects black; the text is unchanged.
    pub fn black(self) -> (r: Self)
        ensures
            r == self,
    {
        self
    }

    /// Selects red; the text is unchanged.
    pub fn red(self) -> (r: Self)
        ensures
            r == self,
    {
        self
    }

    /// Selects green; the text is unchanged.
    pub fn green(self) -> (r: Self)
        ensures
            r == self,
    {
        self
    }

    /// Selects blue; the text is unchanged.
    pub fn blue(self) -> (r: Self)
        ensures
            r == self,
    {
        self
    }

    /// Selects cyan; the text is unchanged.
    pub fn cyan(self) -> (r: Self)
        ensures
            r == self,
    {
        self
    }

    /// Selects magenta; the text is unchanged.
    pub fn magenta(self) -> (r: Self)
        ensures
            r == self,
    {
        self
    }

    /// Selects yellow; the text is unchanged.
    pub fn yellow(self) -> (r: Self)
        ensures
            r == self,
    {
        self
    }

    /// Selects white; the text is unchanged.
    pub fn white(self) -> (r: Self)
        ensures
            r == self,
    {
        self
    }

    /// Selects the bright variant; the text is unchanged.
    pub fn bright(self) -> (r: Self)
        ensures
            r == self,
    {
        self
    }

    /// Hides the text: it is replaced by as many spaces as it has
    /// characters, keeping the layout.
    pub fn hidden(self) -> (r: StyledObject)
        ensures
            r.0@ == spec_spaces(self.0@.len() as int),
    {
        let n = self.0.as_str().unicode_len();
        let mut out = String::new();
        push_spaces(&mut out, n);
        StyledObject(out)
    }

    /// The text carried by the object.
    pub fn text(&self) -> (r: &str)
        ensures
            r@ == self.0@,
    {
        self.0.as_str()
    }
}

/// Wraps a piece of text for presentation selection.
pub fn style(object: String) -> (r: StyledObject)
    ensures
        r.0 == object,
{
    StyledObject(object)
}

} // verus!
