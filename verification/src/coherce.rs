//! Transcoding: from the compiler's representation of a function to the
//! schema.
//!
//! Every mapping is total: a shape the schema does not cover becomes the
//! `Unknown` of the schema type at that position, and nothing fails. The
//! result depends on the node alone. Identifiers wider than 32 bits keep
//! their low 32 bits.
use crate::host::index::IndexVec;
use crate::host::span::{DefId, Span};
use crate::mir_types;
use vstd::prelude::*;

pub mod body;
pub mod operand;
pub mod rvalue;
pub mod statement;
pub mod ty;

verus! {

/// A node of the compiler's representation that has a schema counterpart.
pub trait Coherce: Sized {
    /// The schema type of the counterpart.
    type T: DeepView;

    /// The counterpart, as a mathematical value.
    spec fn mmir(&self) -> <Self::T as DeepView>::V;

    /// Builds the counterpart. `def_id` names the function that owns the
    /// node; the result does not depend on it.
    fn to_mmir(&self, def_id: DefId) -> (r: Self::T)
        ensures
            r.deep_view() == self.mmir(),
    ;
}

/// A list maps to the list of its items' counterparts, in order.
impl<S: Coherce> Coherce for Vec<S> {
    type T = Vec<S::T>;

    open spec fn mmir(&self) -> Seq<<S::T as DeepView>::V> {
        Seq::new(self@.len(), |i: int| self@[i].mmir())
    }

    fn to_mmir(&self, def_id: DefId) -> (r: Vec<S::T>)
        ensures
            r.deep_view() == self.mmir(),
    {
        let mut out: Vec<S::T> = Vec::new();
        let mut i: usize = 0;
        while i < self.len()
            invariant
                i <= self.len(),
                out@.len() == i,
                forall|j: int| 0 <= j < i ==> (#[trigger] out@[j]).deep_view() == self@[j].mmir(),
            decreases self.len() - i,
        {
            let item = self[i].to_mmir(def_id);
            out.push(item);
            i += 1;
        }
        assert(out.deep_view() =~= self.mmir());
        out
    }
}

/// An indexed list maps like a list; position `i` of the result holds the
/// counterpart of the item with identifier `i`.
impl<S: Coherce> Coherce for IndexVec<S> {
    type T = Vec<S::T>;

    open spec fn mmir(&self) -> Seq<<S::T as DeepView>::V> {
        self.raw.mmir()
    }

    fn to_mmir(&self, def_id: DefId) -> (r: Vec<S::T>)
        ensures
            r.deep_view() == self.mmir(),
    {
        self.raw.to_mmir(def_id)
    }
}

/// An owned node maps to its counterpart, owned.
impl<S: Coherce> Coherce for Box<S> {
    type T = Box<S::T>;

    open spec fn mmir(&self) -> <S::T as DeepView>::V {
        (**self).mmir()
    }

    fn to_mmir(&self, def_id: DefId) -> (r: Box<S::T>)
        ensures
            r.deep_view() == self.mmir(),
    {
        Box::new((**self).to_mmir(def_id))
    }
}

/// An optional node maps to its counterpart if it is there.
impl<S: Coherce> Coherce for Option<S> {
    type T = Option<S::T>;

    open spec fn mmir(&self) -> Option<<S::T as DeepView>::V> {
        match self {
            Some(s) => Some(s.mmir()),
            None => None,
        }
    }

    fn to_mmir(&self, def_id: DefId) -> (r: Option<S::T>)
        ensures
            r.deep_view() == self.mmir(),
    {
        match self {
            Some(s) => Some(s.to_mmir(def_id)),
            None => None,
        }
    }
}

/// A source range keeps its two offsets, and with them their order.
impl Coherce for Span {
    type T = mir_types::Span;

    open spec fn mmir(&self) -> mir_types::Span {
        mir_types::Span::Span(self.lo, self.hi)
    }

    fn to_mmir(&self, _def_id: DefId) -> (r: mir_types::Span)
        ensures
            r.deep_view() == self.mmir(),
            self.wf() ==> r.ordered(),
    {
        mir_types::Span::Span(self.lo, self.hi)
    }
}

} // verus!
