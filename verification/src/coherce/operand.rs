//! Evaluated constants, places and operands.
use crate::coherce::Coherce;
use crate::host::mir;
use crate::host::span::DefId;
use crate::mir_types;
use crate::mir_view::{ConstView, OperandView, PlaceView, ProjectionView};
use crate::narrow::{low32, narrow_u128, narrow_u64};
use vstd::prelude::*;

verus! {

/// An evaluated constant keeps its shape; its numbers keep their low 32
/// bits, but for the size of a pointer, which is a byte already.
impl Coherce for mir::ConstValue {
    type T = mir_types::ConstVal;

    open spec fn mmir(&self) -> mir_types::ConstVal {
        match self {
            mir::ConstValue::Scalar(mir::Scalar::Int(bits)) => mir_types::ConstVal::ScalarInt(
                low32(bits.data as int),
            ),
            mir::ConstValue::Scalar(mir::Scalar::Ptr(ptr, size)) => mir_types::ConstVal::ScalarPtr(
                low32(ptr.alloc_id as int),
                low32(ptr.offset as int),
                *size,
            ),
            mir::ConstValue::ZeroSized => mir_types::ConstVal::ZeroSized,
            mir::ConstValue::Slice { mutability, meta } => mir_types::ConstVal::Slice(
                low32(*meta as int),
                mutability.mmir(),
            ),
            mir::ConstValue::Indirect { alloc_id, offset } => mir_types::ConstVal::Indirect(
                low32(*alloc_id as int),
                low32(*offset as int),
            ),
            mir::ConstValue::Other => mir_types::ConstVal::Unknown,
        }
    }

    fn to_mmir(&self, def_id: DefId) -> (r: mir_types::ConstVal)
        ensures
            r.deep_view() == self.mmir(),
    {
        match self {
            mir::ConstValue::Scalar(scalar) => {
                match scalar {
                    mir::Scalar::Int(bits) => mir_types::ConstVal::ScalarInt(
                        narrow_u128(bits.data),
                    ),
                    mir::Scalar::Ptr(ptr, size) => mir_types::ConstVal::ScalarPtr(
                        narrow_u64(ptr.alloc_id),
                        narrow_u64(ptr.offset),
                        *size,
                    ),
                }
            },
            mir::ConstValue::ZeroSized => mir_types::ConstVal::ZeroSized,
            mir::ConstValue::Slice { mutability, meta } => mir_types::ConstVal::Slice(
                narrow_u64(*meta),
                mutability.to_mmir(def_id),
            ),
            mir::ConstValue::Indirect { alloc_id, offset } => mir_types::ConstVal::Indirect(
                narrow_u64(*alloc_id),
                narrow_u64(*offset),
            ),
            mir::ConstValue::Other => mir_types::ConstVal::Unknown,
        }
    }
}

/// A constant operand maps by the constant it holds: one that carries its
/// type, or an evaluated value with its type. Any other is `Unknown`.
impl Coherce for mir::ConstOperand {
    type T = mir_types::Const;

    open spec fn mmir(&self) -> ConstView {
        match self.const_ {
            mir::Const::Ty(ty, ct) => ConstView::Ty(Box::new(ty.mmir()), Box::new(ct.mmir())),
            mir::Const::Val(val, ty) => ConstView::Val(val.mmir(), Box::new(ty.mmir())),
            mir::Const::Other => ConstView::Unknown,
        }
    }

    fn to_mmir(&self, def_id: DefId) -> (r: mir_types::Const)
        ensures
            r.deep_view() == self.mmir(),
    {
        match &self.const_ {
            mir::Const::Ty(ty, ct) => mir_types::Const::Ty(
                Box::new(ty.to_mmir(def_id)),
                Box::new(ct.to_mmir(def_id)),
            ),
            mir::Const::Val(val, ty) => mir_types::Const::Val(
                val.to_mmir(def_id),
                Box::new(ty.to_mmir(def_id)),
            ),
            mir::Const::Other => mir_types::Const::Unknown,
        }
    }
}

/// A projection keeps its shape; offsets and lengths keep their low 32
/// bits.
impl Coherce for mir::PlaceElem {
    type T = mir_types::Projection;

    open spec fn mmir(&self) -> ProjectionView {
        match self {
            mir::PlaceElem::Deref => ProjectionView::Deref,
            mir::PlaceElem::Field(idx, ty) => ProjectionView::Field(*idx, ty.mmir()),
            mir::PlaceElem::Index(local) => ProjectionView::Index(*local),
            mir::PlaceElem::ConstantIndex { offset, min_length, from_end } => {
                ProjectionView::ConstantIndex(
                    low32(*offset as int),
                    low32(*min_length as int),
                    *from_end,
                )
            },
            mir::PlaceElem::Subslice { from, to, from_end } => ProjectionView::Subslice(
                low32(*from as int),
                low32(*to as int),
                *from_end,
            ),
            mir::PlaceElem::Downcast(idx) => ProjectionView::Downcast(*idx),
            mir::PlaceElem::OpaqueCast(ty) => ProjectionView::OpaqueCast(ty.mmir()),
            mir::PlaceElem::UnwrapUnsafeBinder(ty) => ProjectionView::UnwrapUnsafeBinder(
                ty.mmir(),
            ),
            mir::PlaceElem::Subtype(ty) => ProjectionView::Subtype(ty.mmir()),
        }
    }

    fn to_mmir(&self, def_id: DefId) -> (r: mir_types::Projection)
        ensures
            r.deep_view() == self.mmir(),
    {
        match self {
            mir::PlaceElem::Deref => mir_types::Projection::Deref,
            mir::PlaceElem::Field(idx, ty) => mir_types::Projection::Field(
                *idx,
                Box::new(ty.to_mmir(def_id)),
            ),
            mir::PlaceElem::Index(local) => mir_types::Projection::Index(*local),
            mir::PlaceElem::ConstantIndex { offset, min_length, from_end } => {
                mir_types::Projection::ConstantIndex(
                    narrow_u64(*offset),
                    narrow_u64(*min_length),
                    *from_end,
                )
            },
            mir::PlaceElem::Subslice { from, to, from_end } => mir_types::Projection::Subslice(
                narrow_u64(*from),
                narrow_u64(*to),
                *from_end,
            ),
            mir::PlaceElem::Downcast(idx) => mir_types::Projection::Downcast(*idx),
            mir::PlaceElem::OpaqueCast(ty) => mir_types::Projection::OpaqueCast(
                Box::new(ty.to_mmir(def_id)),
            ),
            mir::PlaceElem::UnwrapUnsafeBinder(ty) => mir_types::Projection::UnwrapUnsafeBinder(
                Box::new(ty.to_mmir(def_id)),
            ),
            mir::PlaceElem::Subtype(ty) => mir_types::Projection::Subtype(
                Box::new(ty.to_mmir(def_id)),
            ),
        }
    }
}

/// A place keeps its local and maps its projections in order.
impl Coherce for mir::Place {
    type T = mir_types::Place;

    open spec fn mmir(&self) -> PlaceView {
        PlaceView { local: self.local, proj: self.projection.mmir() }
    }

    fn to_mmir(&self, def_id: DefId) -> (r: mir_types::Place)
        ensures
            r.deep_view() == self.mmir(),
    {
        mir_types::Place { local: self.local, proj: self.projection.to_mmir(def_id) }
    }
}

impl Coherce for mir::Operand {
    type T = mir_types::Operand;

    open spec fn mmir(&self) -> OperandView {
        match self {
            mir::Operand::Copy(place) => OperandView::Copy(place.mmir()),
            mir::Operand::Move(place) => OperandView::Move(place.mmir()),
            mir::Operand::Constant(constant) => OperandView::Constant(constant.mmir()),
        }
    }

    fn to_mmir(&self, def_id: DefId) -> (r: mir_types::Operand)
        ensures
            r.deep_view() == self.mmir(),
    {
        match self {
            mir::Operand::Copy(place) => mir_types::Operand::Copy(place.to_mmir(def_id)),
            mir::Operand::Move(place) => mir_types::Operand::Move(place.to_mmir(def_id)),
            mir::Operand::Constant(constant) => mir_types::Operand::Constant(
                Box::new(constant.to_mmir(def_id)),
            ),
        }
    }
}

} // verus!
