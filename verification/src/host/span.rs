//! Source ranges and the identities of definitions.
use vstd::prelude::*;

verus! {

/// A source range as byte offsets.
#[derive(Clone, Copy, Debug, PartialEq, Eq)]
pub struct Span {
    pub lo: u32,
    pub hi: u32,
}

impl Span {
    /// The compiler never holds a range that ends before it starts.
    pub open spec fn wf(&self) -> bool {
        self.lo <= self.hi
    }

    /// The range between two offsets, given in either order.
    pub fn new(lo: u32, hi: u32) -> (r: Span)
        ensures
            r.wf(),
            lo <= hi ==> r == (Span { lo, hi }),
            lo > hi ==> r == (Span { lo: hi, hi: lo }),
    {
        if lo <= hi {
            Span { lo, hi }
        } else {
            Span { lo: hi, hi: lo }
        }
    }
}

/// The identity of a definition: its crate, and its index in that crate.
#[derive(Clone, Copy, Debug, PartialEq, Eq)]
pub struct DefId {
    pub krate: u32,
    pub index: u32,
}

/// A value with the source range it was written at.
#[derive(Debug, PartialEq, Eq)]
pub struct Spanned<T> {
    pub node: T,
    pub span: Span,
}

} // verus!
