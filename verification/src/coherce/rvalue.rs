//! Value expressions and what they are made of.
use crate::coherce::Coherce;
use crate::host::mir;
use crate::host::span::DefId;
use crate::mir_types;
use crate::mir_view::{IntrinsicView, RvalueView};
use vstd::prelude::*;

verus! {

impl Coherce for mir::NonDivergingIntrinsic {
    type T = mir_types::Intrinsic;

    open spec fn mmir(&self) -> IntrinsicView {
        match self {
            mir::NonDivergingIntrinsic::Assume(op) => IntrinsicView::Assume(op.mmir()),
            mir::NonDivergingIntrinsic::CopyNonOverlapping(copy) => {
                IntrinsicView::CopyNonOverlapping(
                    copy.src.mmir(),
                    copy.dst.mmir(),
                    copy.count.mmir(),
                )
            },
        }
    }

    fn to_mmir(&self, def_id: DefId) -> (r: mir_types::Intrinsic)
        ensures
            r.deep_view() == self.mmir(),
    {
        match self {
            mir::NonDivergingIntrinsic::Assume(op) => mir_types::Intrinsic::Assume(
                op.to_mmir(def_id),
            ),
            mir::NonDivergingIntrinsic::CopyNonOverlapping(copy) => {
                mir_types::Intrinsic::CopyNonOverlapping(
                    copy.src.to_mmir(def_id),
                    copy.dst.to_mmir(def_id),
                    copy.count.to_mmir(def_id),
                )
            },
        }
    }
}

impl Coherce for mir::NullOp {
    type T = mir_types::NullOp;

    open spec fn mmir(&self) -> mir_types::NullOp {
        match self {
            mir::NullOp::SizeOf => mir_types::NullOp::SizeOf,
            mir::NullOp::AlignOf => mir_types::NullOp::AlignOf,
            mir::NullOp::UbChecks => mir_types::NullOp::UbChecks,
            mir::NullOp::Other => mir_types::NullOp::Unknown,
        }
    }

    fn to_mmir(&self, _def_id: DefId) -> (r: mir_types::NullOp)
        ensures
            r.deep_view() == self.mmir(),
    {
        match self {
            mir::NullOp::SizeOf => mir_types::NullOp::SizeOf,
            mir::NullOp::AlignOf => mir_types::NullOp::AlignOf,
            mir::NullOp::UbChecks => mir_types::NullOp::UbChecks,
            mir::NullOp::Other => mir_types::NullOp::Unknown,
        }
    }
}

impl Coherce for mir::RetagKind {
    type T = mir_types::Rkind;

    open spec fn mmir(&self) -> mir_types::Rkind {
        match self {
            mir::RetagKind::FnEntry => mir_types::Rkind::FnEntry,
            mir::RetagKind::TwoPhase => mir_types::Rkind::TwoPhase,
            mir::RetagKind::Raw => mir_types::Rkind::Raw,
            mir::RetagKind::Default => mir_types::Rkind::Default,
        }
    }

    fn to_mmir(&self, _def_id: DefId) -> (r: mir_types::Rkind)
        ensures
            r.deep_view() == self.mmir(),
    {
        match self {
            mir::RetagKind::FnEntry => mir_types::Rkind::FnEntry,
            mir::RetagKind::TwoPhase => mir_types::Rkind::TwoPhase,
            mir::RetagKind::Raw => mir_types::Rkind::Raw,
            mir::RetagKind::Default => mir_types::Rkind::Default,
        }
    }
}

impl Coherce for mir::BorrowKind {
    type T = mir_types::BorrowKind;

    open spec fn mmir(&self) -> mir_types::BorrowKind {
        match self {
            mir::BorrowKind::Shared => mir_types::BorrowKind::Shared,
            mir::BorrowKind::Fake => mir_types::BorrowKind::Fake,
            mir::BorrowKind::Mut => mir_types::BorrowKind::Mut,
        }
    }

    fn to_mmir(&self, _def_id: DefId) -> (r: mir_types::BorrowKind)
        ensures
            r.deep_view() == self.mmir(),
    {
        match self {
            mir::BorrowKind::Shared => mir_types::BorrowKind::Shared,
            mir::BorrowKind::Fake => mir_types::BorrowKind::Fake,
            mir::BorrowKind::Mut => mir_types::BorrowKind::Mut,
        }
    }
}

/// A raw pointer is mutable only if it was made as one.
impl Coherce for mir::RawPtrKind {
    type T = mir_types::Mutability;

    open spec fn mmir(&self) -> mir_types::Mutability {
        match self {
            mir::RawPtrKind::Mut => mir_types::Mutability::Mut,
            _ => mir_types::Mutability::Not,
        }
    }

    fn to_mmir(&self, _def_id: DefId) -> (r: mir_types::Mutability)
        ensures
            r.deep_view() == self.mmir(),
    {
        match self {
            mir::RawPtrKind::Mut => mir_types::Mutability::Mut,
            _ => mir_types::Mutability::Not,
        }
    }
}

/// A value expression keeps its shape and maps its parts. Casts,
/// aggregates and the other shapes the schema does not cover are `Unknown`.
impl Coherce for mir::Rvalue {
    type T = mir_types::Rvalue;

    open spec fn mmir(&self) -> RvalueView {
        match self {
            mir::Rvalue::Use(op) => RvalueView::Use(op.mmir()),
            mir::Rvalue::Repeat(op, count) => RvalueView::Repeat(op.mmir(), count.mmir()),
            mir::Rvalue::Ref(kind, place) => RvalueView::Ref(kind.mmir(), place.mmir()),
            mir::Rvalue::RawPtr(kind, place) => RvalueView::RawPtr(kind.mmir(), place.mmir()),
            mir::Rvalue::Len(place) => RvalueView::Len(place.mmir()),
            mir::Rvalue::BinaryOp(op, lhs, rhs) => RvalueView::BinaryOp(
                op.mmir(),
                lhs.mmir(),
                rhs.mmir(),
            ),
            mir::Rvalue::NullaryOp(op) => RvalueView::NullaryOp(op.mmir()),
            mir::Rvalue::UnaryOp(op, arg) => RvalueView::UnaryOp(op.mmir(), arg.mmir()),
            mir::Rvalue::Discriminant(place) => RvalueView::Discriminant(place.mmir()),
            mir::Rvalue::ShallowInitBox(op, ty) => RvalueView::ShallowInitBox(
                op.mmir(),
                ty.mmir(),
            ),
            mir::Rvalue::CopyForDeref(place) => RvalueView::CopyForDeref(place.mmir()),
            mir::Rvalue::WrapUnsafeBinder(op, ty) => RvalueView::WrapUnsafeBinder(
                op.mmir(),
                ty.mmir(),
            ),
            mir::Rvalue::Other => RvalueView::Unknown,
        }
    }

    fn to_mmir(&self, def_id: DefId) -> (r: mir_types::Rvalue)
        ensures
            r.deep_view() == self.mmir(),
    {
        match self {
            mir::Rvalue::Use(op) => mir_types::Rvalue::Use(op.to_mmir(def_id)),
            mir::Rvalue::Repeat(op, count) => mir_types::Rvalue::Repeat(
                op.to_mmir(def_id),
                Box::new(count.to_mmir(def_id)),
            ),
            mir::Rvalue::Ref(kind, place) => mir_types::Rvalue::Ref(
                kind.to_mmir(def_id),
                place.to_mmir(def_id),
            ),
            mir::Rvalue::RawPtr(kind, place) => mir_types::Rvalue::RawPtr(
                kind.to_mmir(def_id),
                place.to_mmir(def_id),
            ),
            mir::Rvalue::Len(place) => mir_types::Rvalue::Len(place.to_mmir(def_id)),
            mir::Rvalue::BinaryOp(op, lhs, rhs) => mir_types::Rvalue::BinaryOp(
                op.to_mmir(def_id),
                lhs.to_mmir(def_id),
                rhs.to_mmir(def_id),
            ),
            mir::Rvalue::NullaryOp(op) => mir_types::Rvalue::NullaryOp(op.to_mmir(def_id)),
            mir::Rvalue::UnaryOp(op, arg) => mir_types::Rvalue::UnaryOp(
                op.to_mmir(def_id),
                arg.to_mmir(def_id),
            ),
            mir::Rvalue::Discriminant(place) => mir_types::Rvalue::Discriminant(
                place.to_mmir(def_id),
            ),
            mir::Rvalue::ShallowInitBox(op, ty) => mir_types::Rvalue::ShallowInitBox(
                op.to_mmir(def_id),
                Box::new(ty.to_mmir(def_id)),
            ),
            mir::Rvalue::CopyForDeref(place) => mir_types::Rvalue::CopyForDeref(
                place.to_mmir(def_id),
            ),
            mir::Rvalue::WrapUnsafeBinder(op, ty) => mir_types::Rvalue::WrapUnsafeBinder(
                op.to_mmir(def_id),
                Box::new(ty.to_mmir(def_id)),
            ),
            mir::Rvalue::Other => mir_types::Rvalue::Unknown,
        }
    }
}

} // verus!
