//! Types, constants of the type system, and operators.
use crate::coherce::Coherce;
use crate::host::mir;
use crate::host::span::DefId;
use crate::host::ty;
use crate::mir_types;
use crate::mir_view::{lemma_expr_view, lemma_tuple_view, ArgView, ConstView, TypView};
use crate::narrow::{low32, narrow_u64};
use vstd::prelude::*;

verus! {

impl Coherce for ty::Mutability {
    type T = mir_types::Mutability;

    open spec fn mmir(&self) -> mir_types::Mutability {
        match self {
            ty::Mutability::Not => mir_types::Mutability::Not,
            ty::Mutability::Mut => mir_types::Mutability::Mut,
        }
    }

    fn to_mmir(&self, _def_id: DefId) -> (r: mir_types::Mutability)
        ensures
            r.deep_view() == self.mmir(),
    {
        match self {
            ty::Mutability::Not => mir_types::Mutability::Not,
            ty::Mutability::Mut => mir_types::Mutability::Mut,
        }
    }
}

impl Coherce for mir::BinOp {
    type T = mir_types::BinOp;

    open spec fn mmir(&self) -> mir_types::BinOp {
        match self {
            mir::BinOp::Add => mir_types::BinOp::Add,
            mir::BinOp::AddUnchecked => mir_types::BinOp::AddUnchecked,
            mir::BinOp::AddWithOverflow => mir_types::BinOp::AddWithOverflow,
            mir::BinOp::Sub => mir_types::BinOp::Sub,
            mir::BinOp::SubUnchecked => mir_types::BinOp::SubUnchecked,
            mir::BinOp::SubWithOverflow => mir_types::BinOp::SubWithOverflow,
            mir::BinOp::Mul => mir_types::BinOp::Mul,
            mir::BinOp::MulUnchecked => mir_types::BinOp::MulUnchecked,
            mir::BinOp::MulWithOverflow => mir_types::BinOp::MulWithOverflow,
            mir::BinOp::Div => mir_types::BinOp::Div,
            mir::BinOp::Rem => mir_types::BinOp::Rem,
            mir::BinOp::BitXor => mir_types::BinOp::BitXor,
            mir::BinOp::BitAnd => mir_types::BinOp::BitAnd,
            mir::BinOp::BitOr => mir_types::BinOp::BitOr,
            mir::BinOp::Shl => mir_types::BinOp::Shl,
            mir::BinOp::ShlUnchecked => mir_types::BinOp::ShlUnchecked,
            mir::BinOp::Shr => mir_types::BinOp::Shr,
            mir::BinOp::ShrUnchecked => mir_types::BinOp::ShrUnchecked,
            mir::BinOp::Eq => mir_types::BinOp::Eq,
            mir::BinOp::Lt => mir_types::BinOp::Lt,
            mir::BinOp::Le => mir_types::BinOp::Le,
            mir::BinOp::Ne => mir_types::BinOp::Ne,
            mir::BinOp::Ge => mir_types::BinOp::Ge,
            mir::BinOp::Gt => mir_types::BinOp::Gt,
            mir::BinOp::Cmp => mir_types::BinOp::Cmp,
            mir::BinOp::Offset => mir_types::BinOp::Offset,
        }
    }

    fn to_mmir(&self, _def_id: DefId) -> (r: mir_types::BinOp)
        ensures
            r.deep_view() == self.mmir(),
    {
        match self {
            mir::BinOp::Add => mir_types::BinOp::Add,
            mir::BinOp::AddUnchecked => mir_types::BinOp::AddUnchecked,
            mir::BinOp::AddWithOverflow => mir_types::BinOp::AddWithOverflow,
            mir::BinOp::Sub => mir_types::BinOp::Sub,
            mir::BinOp::SubUnchecked => mir_types::BinOp::SubUnchecked,
            mir::BinOp::SubWithOverflow => mir_types::BinOp::SubWithOverflow,
            mir::BinOp::Mul => mir_types::BinOp::Mul,
            mir::BinOp::MulUnchecked => mir_types::BinOp::MulUnchecked,
            mir::BinOp::MulWithOverflow => mir_types::BinOp::MulWithOverflow,
            mir::BinOp::Div => mir_types::BinOp::Div,
            mir::BinOp::Rem => mir_types::BinOp::Rem,
            mir::BinOp::BitAnd => mir_types::BinOp::BitAnd,
            mir::BinOp::BitOr => mir_types::BinOp::BitOr,
            mir::BinOp::BitXor => mir_types::BinOp::BitXor,
            mir::BinOp::Shl => mir_types::BinOp::Shl,
            mir::BinOp::Shr => mir_types::BinOp::Shr,
            mir::BinOp::Eq => mir_types::BinOp::Eq,
            mir::BinOp::Ne => mir_types::BinOp::Ne,
            mir::BinOp::Lt => mir_types::BinOp::Lt,
            mir::BinOp::Le => mir_types::BinOp::Le,
            mir::BinOp::Gt => mir_types::BinOp::Gt,
            mir::BinOp::Ge => mir_types::BinOp::Ge,
            mir::BinOp::Offset => mir_types::BinOp::Offset,
            mir::BinOp::Cmp => mir_types::BinOp::Cmp,
            mir::BinOp::ShlUnchecked => mir_types::BinOp::ShlUnchecked,
            mir::BinOp::ShrUnchecked => mir_types::BinOp::ShrUnchecked,
        }
    }
}

impl Coherce for mir::UnOp {
    type T = mir_types::UnOp;

    open spec fn mmir(&self) -> mir_types::UnOp {
        match self {
            mir::UnOp::Not => mir_types::UnOp::Not,
            mir::UnOp::Neg => mir_types::UnOp::Neg,
            mir::UnOp::PtrMetadata => mir_types::UnOp::PtrMetadata,
        }
    }

    fn to_mmir(&self, _def_id: DefId) -> (r: mir_types::UnOp)
        ensures
            r.deep_view() == self.mmir(),
    {
        match self {
            mir::UnOp::Not => mir_types::UnOp::Not,
            mir::UnOp::Neg => mir_types::UnOp::Neg,
            mir::UnOp::PtrMetadata => mir_types::UnOp::PtrMetadata,
        }
    }
}

impl Coherce for ty::ExprKind {
    type T = mir_types::ExprKind;

    open spec fn mmir(&self) -> mir_types::ExprKind {
        match self {
            ty::ExprKind::Binop(op) => mir_types::ExprKind::BinOp(op.mmir()),
            ty::ExprKind::UnOp(op) => mir_types::ExprKind::UnOp(op.mmir()),
            ty::ExprKind::FunctionCall => mir_types::ExprKind::FunctionCall,
            ty::ExprKind::Cast(ty::CastKind::As) => mir_types::ExprKind::CastAs,
            ty::ExprKind::Cast(ty::CastKind::Use) => mir_types::ExprKind::CastUse,
        }
    }

    fn to_mmir(&self, def_id: DefId) -> (r: mir_types::ExprKind)
        ensures
            r.deep_view() == self.mmir(),
    {
        match self {
            ty::ExprKind::Binop(op) => mir_types::ExprKind::BinOp(op.to_mmir(def_id)),
            ty::ExprKind::UnOp(op) => mir_types::ExprKind::UnOp(op.to_mmir(def_id)),
            ty::ExprKind::FunctionCall => mir_types::ExprKind::FunctionCall,
            ty::ExprKind::Cast(kind) => match kind {
                ty::CastKind::As => mir_types::ExprKind::CastAs,
                ty::CastKind::Use => mir_types::ExprKind::CastUse,
            },
        }
    }
}

/// The schema type of a compiler type.
///
/// Integers and floats carry their width in bits, the pointer-sized
/// integers have variants of their own, and compound types map their parts.
/// Every other type is `Unknown`.
pub open spec fn ty_mmir(t: ty::Ty) -> TypView
    decreases t,
{
    match t {
        ty::Ty::Bool => TypView::Bool,
        ty::Ty::Char => TypView::Char,
        ty::Ty::Int(int_ty) => match int_ty.spec_bit_width() {
            None => TypView::Isize,
            Some(w) => TypView::I(low32(w as int)),
        },
        ty::Ty::Uint(uint_ty) => match uint_ty.spec_bit_width() {
            None => TypView::USize,
            Some(w) => TypView::U(low32(w as int)),
        },
        ty::Ty::Float(float_ty) => TypView::F(low32(float_ty.spec_bit_width() as int)),
        ty::Ty::Str => TypView::Str,
        ty::Ty::Array(elem, len) => TypView::Array(
            Box::new(ty_mmir(*elem)),
            Box::new(ty_const_mmir(*len)),
        ),
        ty::Ty::Slice(elem) => TypView::Slice(Box::new(ty_mmir(*elem))),
        ty::Ty::RawPtr(pointee, m) => TypView::RawPtr(Box::new(ty_mmir(*pointee)), m.mmir()),
        ty::Ty::Ref(pointee, m) => TypView::Ref(Box::new(ty_mmir(*pointee)), m.mmir()),
        ty::Ty::Tuple(elems) => TypView::Tuple(
            Seq::new(
                elems@.len(),
                |i: int|
                    if 0 <= i < elems@.len() {
                        ty_mmir(elems@[i])
                    } else {
                        TypView::Unknown
                    },
            ),
        ),
        ty::Ty::Other => TypView::Unknown,
    }
}

/// The schema constant of a constant of the type system: a parameter by
/// its position, an expression by its operator and arguments, anything else
/// `Unknown`.
pub open spec fn ty_const_mmir(c: ty::Const) -> ConstView
    decreases c,
{
    match c {
        ty::Const::Param { index } => ConstView::Param(index),
        ty::Const::Expr(expr) => ConstView::Expr(
            expr.kind.mmir(),
            Seq::new(
                expr.args@.len(),
                |i: int|
                    if 0 <= i < expr.args@.len() {
                        generic_arg_mmir(expr.args@[i])
                    } else {
                        ArgView::Arg(Box::new(TypView::Unknown), Box::new(ConstView::Unknown))
                    },
            ),
        ),
        ty::Const::Other => ConstView::Unknown,
    }
}

/// The schema argument of one argument of a constant expression: a pair
/// of a type and a constant, in which the part that the argument does not
/// have is `Unknown`.
pub open spec fn generic_arg_mmir(a: ty::GenericArg) -> ArgView
    decreases a,
{
    match a {
        ty::GenericArg::Type(t) => ArgView::Arg(
            Box::new(ty_mmir(t)),
            Box::new(ConstView::Unknown),
        ),
        ty::GenericArg::Const(c) => ArgView::Arg(
            Box::new(TypView::Unknown),
            Box::new(ty_const_mmir(c)),
        ),
        ty::GenericArg::Other => ArgView::Arg(
            Box::new(TypView::Unknown),
            Box::new(ConstView::Unknown),
        ),
    }
}

impl Coherce for ty::Ty {
    type T = mir_types::Typ;

    open spec fn mmir(&self) -> TypView {
        ty_mmir(*self)
    }

    fn to_mmir(&self, def_id: DefId) -> (r: mir_types::Typ)
        ensures
            r.deep_view() == self.mmir(),
        decreases self,
    {
        match self {
            ty::Ty::Bool => mir_types::Typ::Bool,
            ty::Ty::Char => mir_types::Typ::Char,
            ty::Ty::Int(int_ty) => {
                match int_ty.bit_width() {
                    None => mir_types::Typ::Isize,
                    Some(w) => mir_types::Typ::I(narrow_u64(w)),
                }
            },
            ty::Ty::Uint(uint_ty) => {
                match uint_ty.bit_width() {
                    None => mir_types::Typ::USize,
                    Some(w) => mir_types::Typ::U(narrow_u64(w)),
                }
            },
            ty::Ty::Float(float_ty) => mir_types::Typ::F(narrow_u64(float_ty.bit_width())),
            ty::Ty::Str => mir_types::Typ::Str,
            ty::Ty::Array(elem, len) => mir_types::Typ::Array(
                Box::new((**elem).to_mmir(def_id)),
                Box::new((**len).to_mmir(def_id)),
            ),
            ty::Ty::Slice(elem) => mir_types::Typ::Slice(Box::new((**elem).to_mmir(def_id))),
            ty::Ty::RawPtr(pointee, m) => mir_types::Typ::RawPtr(
                Box::new((**pointee).to_mmir(def_id)),
                m.to_mmir(def_id),
            ),
            ty::Ty::Ref(pointee, m) => mir_types::Typ::Ref(
                Box::new((**pointee).to_mmir(def_id)),
                m.to_mmir(def_id),
            ),
            ty::Ty::Tuple(elems) => {
                let mut out: Vec<mir_types::Typ> = Vec::new();
                let mut i: usize = 0;
                while i < elems.len()
                    invariant
                        i <= elems.len(),
                        out@.len() == i,
                        forall|j: int|
                            0 <= j < i ==> (#[trigger] out@[j]).deep_view() == ty_mmir(elems@[j]),
                        forall|j: int|
                            0 <= j < elems@.len() ==> decreases_to!(self => #[trigger] elems@[j]),
                    decreases elems.len() - i,
                {
                    let elem = elems[i].to_mmir(def_id);
                    out.push(elem);
                    i += 1;
                }
                proof {
                    lemma_tuple_view(out);
                    assert(out.deep_view() =~= ty_mmir(*self)->Tuple_0);
                }
                mir_types::Typ::Tuple(out)
            },
            ty::Ty::Other => mir_types::Typ::Unknown,
        }
    }
}

impl Coherce for ty::Const {
    type T = mir_types::Const;

    open spec fn mmir(&self) -> ConstView {
        ty_const_mmir(*self)
    }

    fn to_mmir(&self, def_id: DefId) -> (r: mir_types::Const)
        ensures
            r.deep_view() == self.mmir(),
        decreases self,
    {
        match self {
            ty::Const::Param { index } => mir_types::Const::Param(*index),
            ty::Const::Expr(expr) => {
                let mut args: Vec<mir_types::Arg> = Vec::new();
                let mut i: usize = 0;
                while i < expr.args.len()
                    invariant
                        i <= expr.args.len(),
                        args@.len() == i,
                        forall|j: int|
                            0 <= j < i ==> (#[trigger] args@[j]).deep_view()
                                == generic_arg_mmir(expr.args@[j]),
                        forall|j: int|
                            0 <= j < expr.args@.len() ==> decreases_to!(
                                self => #[trigger] expr.args@[j]
                            ),
                    decreases expr.args.len() - i,
                {
                    let arg = expr.args[i].to_mmir(def_id);
                    args.push(arg);
                    i += 1;
                }
                let kind = expr.kind.to_mmir(def_id);
                proof {
                    lemma_expr_view(kind, args);
                    assert(args.deep_view() =~= ty_const_mmir(*self)->Expr_1);
                }
                mir_types::Const::Expr(kind, args)
            },
            ty::Const::Other => mir_types::Const::Unknown,
        }
    }
}

impl Coherce for ty::GenericArg {
    type T = mir_types::Arg;

    open spec fn mmir(&self) -> ArgView {
        generic_arg_mmir(*self)
    }

    fn to_mmir(&self, def_id: DefId) -> (r: mir_types::Arg)
        ensures
            r.deep_view() == self.mmir(),
        decreases self,
    {
        match self {
            ty::GenericArg::Type(t) => mir_types::Arg::Arg(
                Box::new(t.to_mmir(def_id)),
                Box::new(mir_types::Const::Unknown),
            ),
            ty::GenericArg::Const(c) => mir_types::Arg::Arg(
                Box::new(mir_types::Typ::Unknown),
                Box::new(c.to_mmir(def_id)),
            ),
            ty::GenericArg::Other => mir_types::Arg::Arg(
                Box::new(mir_types::Typ::Unknown),
                Box::new(mir_types::Const::Unknown),
            ),
        }
    }
}

} // verus!
