//! The schema as mathematical values.
//!
//! Each schema type that owns a list or a string has a counterpart here in
//! which lists are `Seq`s and nothing is boxed for storage's sake; its
//! `deep_view` gives that counterpart. The remaining schema types are plain
//! already and are their own deep view. Two schema values with the same deep
//! view have the same shape and the same leaves. The recursive schema types
//! get their `Clone` here, since what a copy keeps is stated over the deep
//! view.
use crate::mir_types::{
    Arg, AssertInfo, AssertMessage, BasicBlock, BinOp, Body, BorrowKind, CallInfo, Const,
    ConstVal, DropInfo, ExprKind, Intrinsic, LocalDecl, LocalInfo, Mutability, NullOp, Operand,
    Place, Projection, Rkind, Rvalue, Span, Statement, StatementKind, Targets, Typ, UnOp,
    UnwindAction, VarDebugInfo, VarDebugInfoContent, VarDebugInfoFragment,
};
use vstd::prelude::*;

verus! {

/// The deep view of [`Typ`].
pub enum TypView {
    Bool,
    Char,
    Isize,
    I(u32),
    USize,
    U(u32),
    F(u32),
    Str,
    Array(Box<TypView>, Box<ConstView>),
    Slice(Box<TypView>),
    RawPtr(Box<TypView>, Mutability),
    Ref(Box<TypView>, Mutability),
    Tuple(Seq<TypView>),
    Unknown,
}

/// The deep view of [`Const`].
pub enum ConstView {
    Ty(Box<TypView>, Box<ConstView>),
    Val(ConstVal, Box<TypView>),
    Param(u32),
    Expr(ExprKind, Seq<ArgView>),
    Unknown,
}

/// The deep view of [`Arg`].
pub enum ArgView {
    Arg(Box<TypView>, Box<ConstView>),
}

/// The deep view of [`Projection`].
pub enum ProjectionView {
    Deref,
    Field(u32, TypView),
    Index(u32),
    ConstantIndex(u32, u32, bool),
    Subslice(u32, u32, bool),
    Downcast(u32),
    OpaqueCast(TypView),
    Subtype(TypView),
    UnwrapUnsafeBinder(TypView),
}

/// The deep view of [`Place`].
pub struct PlaceView {
    pub local: u32,
    pub proj: Seq<ProjectionView>,
}

/// The deep view of [`LocalDecl`].
pub struct LocalDeclView {
    pub scope: u32,
    pub local: LocalInfo,
    pub typ: TypView,
    pub mutability: Mutability,
}

/// The deep view of [`Operand`].
pub enum OperandView {
    Copy(PlaceView),
    Move(PlaceView),
    Constant(ConstView),
}

/// The deep view of [`Intrinsic`].
pub enum IntrinsicView {
    Assume(OperandView),
    CopyNonOverlapping(OperandView, OperandView, OperandView),
}

/// The deep view of [`Rvalue`].
pub enum RvalueView {
    Use(OperandView),
    Repeat(OperandView, ConstView),
    Ref(BorrowKind, PlaceView),
    RawPtr(Mutability, PlaceView),
    Len(PlaceView),
    BinaryOp(BinOp, OperandView, OperandView),
    NullaryOp(NullOp),
    UnaryOp(UnOp, OperandView),
    Discriminant(PlaceView),
    ShallowInitBox(OperandView, TypView),
    CopyForDeref(PlaceView),
    WrapUnsafeBinder(OperandView, TypView),
    Unknown,
}

/// The deep view of [`StatementKind`].
pub enum StatementKindView {
    Assign(PlaceView, RvalueView),
    SetDiscriminant(PlaceView, u32),
    Deinit(PlaceView),
    StorageLive(u32),
    StorageDead(u32),
    Retag(Rkind, PlaceView),
    PlaceMention(PlaceView),
    Intrinsic(IntrinsicView),
    Nop,
    ConstEvalCounter,
    Goto(u32),
    SwitchInt(OperandView, TargetsView),
    UnwindResume,
    UnwindTerminate,
    Unreachable,
    CoroutineDrop,
    Return,
    Drop(DropInfoView),
    Call(CallInfoView),
    Assert(AssertInfoView),
    Unknown,
}

/// The deep view of [`Statement`].
pub struct StatementView {
    pub skind: StatementKindView,
    pub span: Span,
    pub scope: u32,
}

/// The deep view of [`Targets`].
pub struct TargetsView {
    pub targets: Seq<u32>,
    pub values: Seq<u32>,
}

/// The deep view of [`CallInfo`].
pub struct CallInfoView {
    pub func: OperandView,
    pub args: Seq<OperandView>,
    pub dest: PlaceView,
    pub target: Option<u32>,
    pub unwind: UnwindAction,
    pub span: Span,
}

/// The deep view of [`AssertMessage`].
pub enum AssertMessageView {
    BoundsCheck(OperandView, OperandView),
    Overflow(BinOp, OperandView, OperandView),
    OverflowNeg(OperandView),
    DivisionByZero(OperandView),
    RemainderByZero(OperandView),
    MisalignedPointerDereference(OperandView, OperandView),
    NullPointerDereference,
    Unknown,
}

/// The deep view of [`DropInfo`].
pub struct DropInfoView {
    pub place: PlaceView,
    pub target: u32,
    pub unwind: UnwindAction,
    pub replace: bool,
    pub drop: Option<u32>,
}

/// The deep view of [`AssertInfo`].
pub struct AssertInfoView {
    pub cond: OperandView,
    pub expected: bool,
    pub msg: AssertMessageView,
    pub target: u32,
    pub unwind: UnwindAction,
}

/// The deep view of [`BasicBlock`].
pub struct BasicBlockView {
    pub statements: Seq<StatementView>,
    pub is_cleanup: bool,
}

/// The deep view of [`VarDebugInfoContent`].
pub enum VarDebugInfoContentView {
    Place(PlaceView),
    Const(ConstView),
}

/// The deep view of [`VarDebugInfoFragment`].
pub struct VarDebugInfoFragmentView {
    pub ty: TypView,
    pub projection: Seq<ProjectionView>,
}

/// The deep view of [`VarDebugInfo`].
pub struct VarDebugInfoView {
    pub value: VarDebugInfoContentView,
    pub scope: u32,
    pub name: Seq<char>,
    pub arg_index: Option<u32>,
    pub composite: Option<VarDebugInfoFragmentView>,
}

/// The deep view of [`Body`].
pub struct BodyView {
    pub stmts: Seq<BasicBlockView>,
    pub local_decls: Seq<LocalDeclView>,
    pub arg_count: usize,
    pub var_debug_info: Seq<VarDebugInfoView>,
    pub spread_arg: Option<usize>,
    pub span: Span,
}

/// The deep view of a type: element types of a tuple in order.
pub open spec fn typ_view(t: Typ) -> TypView
    decreases t,
{
    match t {
        Typ::Bool => TypView::Bool,
        Typ::Char => TypView::Char,
        Typ::Isize => TypView::Isize,
        Typ::I(w) => TypView::I(w),
        Typ::USize => TypView::USize,
        Typ::U(w) => TypView::U(w),
        Typ::F(w) => TypView::F(w),
        Typ::Str => TypView::Str,
        Typ::Array(elem, len) => TypView::Array(
            Box::new(typ_view(*elem)),
            Box::new(const_view(*len)),
        ),
        Typ::Slice(elem) => TypView::Slice(Box::new(typ_view(*elem))),
        Typ::RawPtr(pointee, m) => TypView::RawPtr(Box::new(typ_view(*pointee)), m),
        Typ::Ref(pointee, m) => TypView::Ref(Box::new(typ_view(*pointee)), m),
        Typ::Tuple(elems) => TypView::Tuple(
            Seq::new(
                elems@.len(),
                |i: int|
                    if 0 <= i < elems@.len() {
                        typ_view(elems@[i])
                    } else {
                        TypView::Unknown
                    },
            ),
        ),
        Typ::Unknown => TypView::Unknown,
    }
}

/// The deep view of a constant: arguments of an expression in order.
pub open spec fn const_view(c: Const) -> ConstView
    decreases c,
{
    match c {
        Const::Ty(ty, inner) => ConstView::Ty(
            Box::new(typ_view(*ty)),
            Box::new(const_view(*inner)),
        ),
        Const::Val(val, ty) => ConstView::Val(val, Box::new(typ_view(*ty))),
        Const::Param(index) => ConstView::Param(index),
        Const::Expr(kind, args) => ConstView::Expr(
            kind,
            Seq::new(
                args@.len(),
                |i: int|
                    if 0 <= i < args@.len() {
                        arg_view(args@[i])
                    } else {
                        ArgView::Arg(Box::new(TypView::Unknown), Box::new(ConstView::Unknown))
                    },
            ),
        ),
        Const::Unknown => ConstView::Unknown,
    }
}

/// The deep view of one argument of a constant expression.
pub open spec fn arg_view(a: Arg) -> ArgView
    decreases a,
{
    match a {
        Arg::Arg(ty, ct) => ArgView::Arg(Box::new(typ_view(*ty)), Box::new(const_view(*ct))),
    }
}

/// The deep view of a tuple type is the tuple of its elements' deep views.
pub proof fn lemma_tuple_view(elems: Vec<Typ>)
    ensures
        Typ::Tuple(elems).deep_view() == TypView::Tuple(elems.deep_view()),
{
    assert(typ_view(Typ::Tuple(elems))->Tuple_0 =~= elems.deep_view());
}

/// The deep view of a constant expression holds its arguments' deep views.
pub proof fn lemma_expr_view(kind: ExprKind, args: Vec<Arg>)
    ensures
        Const::Expr(kind, args).deep_view() == ConstView::Expr(kind, args.deep_view()),
{
    assert(const_view(Const::Expr(kind, args))->Expr_1 =~= args.deep_view());
}

impl DeepView for Mutability {
    type V = Mutability;

    #[verifier::inline]
    open spec fn deep_view(&self) -> Mutability {
        *self
    }
}

impl DeepView for UnOp {
    type V = UnOp;

    #[verifier::inline]
    open spec fn deep_view(&self) -> UnOp {
        *self
    }
}

impl DeepView for BinOp {
    type V = BinOp;

    #[verifier::inline]
    open spec fn deep_view(&self) -> BinOp {
        *self
    }
}

impl DeepView for NullOp {
    type V = NullOp;

    #[verifier::inline]
    open spec fn deep_view(&self) -> NullOp {
        *self
    }
}

impl DeepView for Span {
    type V = Span;

    #[verifier::inline]
    open spec fn deep_view(&self) -> Span {
        *self
    }
}

impl DeepView for BorrowKind {
    type V = BorrowKind;

    #[verifier::inline]
    open spec fn deep_view(&self) -> BorrowKind {
        *self
    }
}

impl DeepView for Rkind {
    type V = Rkind;

    #[verifier::inline]
    open spec fn deep_view(&self) -> Rkind {
        *self
    }
}

impl DeepView for ExprKind {
    type V = ExprKind;

    #[verifier::inline]
    open spec fn deep_view(&self) -> ExprKind {
        *self
    }
}

impl DeepView for ConstVal {
    type V = ConstVal;

    #[verifier::inline]
    open spec fn deep_view(&self) -> ConstVal {
        *self
    }
}

impl DeepView for LocalInfo {
    type V = LocalInfo;

    #[verifier::inline]
    open spec fn deep_view(&self) -> LocalInfo {
        *self
    }
}

impl DeepView for UnwindAction {
    type V = UnwindAction;

    #[verifier::inline]
    open spec fn deep_view(&self) -> UnwindAction {
        *self
    }
}

impl DeepView for Typ {
    type V = TypView;

    open spec fn deep_view(&self) -> TypView {
        typ_view(*self)
    }
}

impl DeepView for Const {
    type V = ConstView;

    open spec fn deep_view(&self) -> ConstView {
        const_view(*self)
    }
}

impl DeepView for Arg {
    type V = ArgView;

    open spec fn deep_view(&self) -> ArgView {
        arg_view(*self)
    }
}

impl DeepView for Projection {
    type V = ProjectionView;

    open spec fn deep_view(&self) -> ProjectionView {
        match self {
            Projection::Deref => ProjectionView::Deref,
            Projection::Field(idx, ty) => ProjectionView::Field(*idx, ty.deep_view()),
            Projection::Index(local) => ProjectionView::Index(*local),
            Projection::ConstantIndex(offset, min_length, from_end) => {
                ProjectionView::ConstantIndex(*offset, *min_length, *from_end)
            },
            Projection::Subslice(from, to, from_end) => ProjectionView::Subslice(
                *from,
                *to,
                *from_end,
            ),
            Projection::Downcast(idx) => ProjectionView::Downcast(*idx),
            Projection::OpaqueCast(ty) => ProjectionView::OpaqueCast(ty.deep_view()),
            Projection::Subtype(ty) => ProjectionView::Subtype(ty.deep_view()),
            Projection::UnwrapUnsafeBinder(ty) => ProjectionView::UnwrapUnsafeBinder(
                ty.deep_view(),
            ),
        }
    }
}

impl DeepView for Place {
    type V = PlaceView;

    open spec fn deep_view(&self) -> PlaceView {
        PlaceView { local: self.local, proj: self.proj.deep_view() }
    }
}

impl DeepView for LocalDecl {
    type V = LocalDeclView;

    open spec fn deep_view(&self) -> LocalDeclView {
        LocalDeclView {
            scope: self.scope,
            local: self.local,
            typ: self.typ.deep_view(),
            mutability: self.mutability,
        }
    }
}

impl DeepView for Operand {
    type V = OperandView;

    open spec fn deep_view(&self) -> OperandView {
        match self {
            Operand::Copy(place) => OperandView::Copy(place.deep_view()),
            Operand::Move(place) => OperandView::Move(place.deep_view()),
            Operand::Constant(ct) => OperandView::Constant(ct.deep_view()),
        }
    }
}

impl DeepView for Intrinsic {
    type V = IntrinsicView;

    open spec fn deep_view(&self) -> IntrinsicView {
        match self {
            Intrinsic::Assume(op) => IntrinsicView::Assume(op.deep_view()),
            Intrinsic::CopyNonOverlapping(src, dst, count) => IntrinsicView::CopyNonOverlapping(
                src.deep_view(),
                dst.deep_view(),
                count.deep_view(),
            ),
        }
    }
}

impl DeepView for Rvalue {
    type V = RvalueView;

    open spec fn deep_view(&self) -> RvalueView {
        match self {
            Rvalue::Use(op) => RvalueView::Use(op.deep_view()),
            Rvalue::Repeat(op, count) => RvalueView::Repeat(op.deep_view(), count.deep_view()),
            Rvalue::Ref(kind, place) => RvalueView::Ref(*kind, place.deep_view()),
            Rvalue::RawPtr(m, place) => RvalueView::RawPtr(*m, place.deep_view()),
            Rvalue::Len(place) => RvalueView::Len(place.deep_view()),
            Rvalue::BinaryOp(op, lhs, rhs) => RvalueView::BinaryOp(
                *op,
                lhs.deep_view(),
                rhs.deep_view(),
            ),
            Rvalue::NullaryOp(op) => RvalueView::NullaryOp(*op),
            Rvalue::UnaryOp(op, arg) => RvalueView::UnaryOp(*op, arg.deep_view()),
            Rvalue::Discriminant(place) => RvalueView::Discriminant(place.deep_view()),
            Rvalue::ShallowInitBox(op, ty) => RvalueView::ShallowInitBox(
                op.deep_view(),
                ty.deep_view(),
            ),
            Rvalue::CopyForDeref(place) => RvalueView::CopyForDeref(place.deep_view()),
            Rvalue::WrapUnsafeBinder(op, ty) => RvalueView::WrapUnsafeBinder(
                op.deep_view(),
                ty.deep_view(),
            ),
            Rvalue::Unknown => RvalueView::Unknown,
        }
    }
}

impl DeepView for Targets {
    type V = TargetsView;

    open spec fn deep_view(&self) -> TargetsView {
        TargetsView { targets: self.targets@, values: self.values@ }
    }
}

impl DeepView for CallInfo {
    type V = CallInfoView;

    open spec fn deep_view(&self) -> CallInfoView {
        CallInfoView {
            func: self.func.deep_view(),
            args: self.args.deep_view(),
            dest: self.dest.deep_view(),
            target: self.target,
            unwind: self.unwind,
            span: self.span,
        }
    }
}

impl DeepView for AssertMessage {
    type V = AssertMessageView;

    open spec fn deep_view(&self) -> AssertMessageView {
        match self {
            AssertMessage::BoundsCheck(len, index) => AssertMessageView::BoundsCheck(
                len.deep_view(),
                index.deep_view(),
            ),
            AssertMessage::Overflow(op, lhs, rhs) => AssertMessageView::Overflow(
                *op,
                lhs.deep_view(),
                rhs.deep_view(),
            ),
            AssertMessage::OverflowNeg(op) => AssertMessageView::OverflowNeg(op.deep_view()),
            AssertMessage::DivisionByZero(op) => AssertMessageView::DivisionByZero(
                op.deep_view(),
            ),
            AssertMessage::RemainderByZero(op) => AssertMessageView::RemainderByZero(
                op.deep_view(),
            ),
            AssertMessage::MisalignedPointerDereference(required, found) => {
                AssertMessageView::MisalignedPointerDereference(
                    required.deep_view(),
                    found.deep_view(),
                )
            },
            AssertMessage::NullPointerDereference => AssertMessageView::NullPointerDereference,
            AssertMessage::Unknown => AssertMessageView::Unknown,
        }
    }
}

impl DeepView for DropInfo {
    type V = DropInfoView;

    open spec fn deep_view(&self) -> DropInfoView {
        DropInfoView {
            place: self.place.deep_view(),
            target: self.target,
            unwind: self.unwind,
            replace: self.replace,
            drop: self.drop,
        }
    }
}

impl DeepView for AssertInfo {
    type V = AssertInfoView;

    open spec fn deep_view(&self) -> AssertInfoView {
        AssertInfoView {
            cond: self.cond.deep_view(),
            expected: self.expected,
            msg: self.msg.deep_view(),
            target: self.target,
            unwind: self.unwind,
        }
    }
}

impl DeepView for StatementKind {
    type V = StatementKindView;

    open spec fn deep_view(&self) -> StatementKindView {
        match self {
            StatementKind::Assign(place, rvalue) => StatementKindView::Assign(
                place.deep_view(),
                rvalue.deep_view(),
            ),
            StatementKind::SetDiscriminant(place, variant) => StatementKindView::SetDiscriminant(
                place.deep_view(),
                *variant,
            ),
            StatementKind::Deinit(place) => StatementKindView::Deinit(place.deep_view()),
            StatementKind::StorageLive(local) => StatementKindView::StorageLive(*local),
            StatementKind::StorageDead(local) => StatementKindView::StorageDead(*local),
            StatementKind::Retag(kind, place) => StatementKindView::Retag(
                *kind,
                place.deep_view(),
            ),
            StatementKind::PlaceMention(place) => StatementKindView::PlaceMention(
                place.deep_view(),
            ),
            StatementKind::Intrinsic(intrinsic) => StatementKindView::Intrinsic(
                intrinsic.deep_view(),
            ),
            StatementKind::Nop => StatementKindView::Nop,
            StatementKind::ConstEvalCounter => StatementKindView::ConstEvalCounter,
            StatementKind::Goto(target) => StatementKindView::Goto(*target),
            StatementKind::SwitchInt(discr, targets) => StatementKindView::SwitchInt(
                discr.deep_view(),
                targets.deep_view(),
            ),
            StatementKind::UnwindResume => StatementKindView::UnwindResume,
            StatementKind::UnwindTerminate => StatementKindView::UnwindTerminate,
            StatementKind::Unreachable => StatementKindView::Unreachable,
            StatementKind::CoroutineDrop => StatementKindView::CoroutineDrop,
            StatementKind::Return => StatementKindView::Return,
            StatementKind::Drop(info) => StatementKindView::Drop(info.deep_view()),
            StatementKind::Call(info) => StatementKindView::Call(info.deep_view()),
            StatementKind::Assert(info) => StatementKindView::Assert(info.deep_view()),
            StatementKind::Unknown => StatementKindView::Unknown,
        }
    }
}

impl DeepView for Statement {
    type V = StatementView;

    open spec fn deep_view(&self) -> StatementView {
        StatementView { skind: self.skind.deep_view(), span: self.span, scope: self.scope }
    }
}

impl DeepView for BasicBlock {
    type V = BasicBlockView;

    open spec fn deep_view(&self) -> BasicBlockView {
        BasicBlockView { statements: self.statements.deep_view(), is_cleanup: self.is_cleanup }
    }
}

impl DeepView for VarDebugInfoContent {
    type V = VarDebugInfoContentView;

    open spec fn deep_view(&self) -> VarDebugInfoContentView {
        match self {
            VarDebugInfoContent::Place(place) => VarDebugInfoContentView::Place(
                place.deep_view(),
            ),
            VarDebugInfoContent::Const(ct) => VarDebugInfoContentView::Const(ct.deep_view()),
        }
    }
}

impl DeepView for VarDebugInfoFragment {
    type V = VarDebugInfoFragmentView;

    open spec fn deep_view(&self) -> VarDebugInfoFragmentView {
        VarDebugInfoFragmentView {
            ty: self.ty.deep_view(),
            projection: self.projection.deep_view(),
        }
    }
}

impl DeepView for VarDebugInfo {
    type V = VarDebugInfoView;

    open spec fn deep_view(&self) -> VarDebugInfoView {
        VarDebugInfoView {
            value: self.value.deep_view(),
            scope: self.scope,
            name: self.name@,
            arg_index: self.arg_index,
            composite: self.composite.deep_view(),
        }
    }
}

impl DeepView for Body {
    type V = BodyView;

    open spec fn deep_view(&self) -> BodyView {
        BodyView {
            stmts: self.stmts.deep_view(),
            local_decls: self.local_decls.deep_view(),
            arg_count: self.arg_count,
            var_debug_info: self.var_debug_info.deep_view(),
            spread_arg: self.spread_arg,
            span: self.span,
        }
    }
}

impl Clone for Typ {
    /// A copy with the same deep view.
    fn clone(&self) -> (r: Typ)
        ensures
            r.deep_view() == self.deep_view(),
        decreases self,
    {
        match self {
            Typ::Bool => Typ::Bool,
            Typ::Char => Typ::Char,
            Typ::Isize => Typ::Isize,
            Typ::I(w) => Typ::I(*w),
            Typ::USize => Typ::USize,
            Typ::U(w) => Typ::U(*w),
            Typ::F(w) => Typ::F(*w),
            Typ::Str => Typ::Str,
            Typ::Array(elem, len) => Typ::Array(
                Box::new((**elem).clone()),
                Box::new((**len).clone()),
            ),
            Typ::Slice(elem) => Typ::Slice(Box::new((**elem).clone())),
            Typ::RawPtr(pointee, m) => Typ::RawPtr(Box::new((**pointee).clone()), *m),
            Typ::Ref(pointee, m) => Typ::Ref(Box::new((**pointee).clone()), *m),
            Typ::Tuple(elems) => {
                let mut out: Vec<Typ> = Vec::new();
                let mut i: usize = 0;
                while i < elems.len()
                    invariant
                        i <= elems.len(),
                        out@.len() == i,
                        forall|j: int|
                            0 <= j < i ==> (#[trigger] out@[j]).deep_view()
                                == elems@[j].deep_view(),
                        forall|j: int|
                            0 <= j < elems@.len() ==> decreases_to!(self => #[trigger] elems@[j]),
                    decreases elems.len() - i,
                {
                    let elem = elems[i].clone();
                    out.push(elem);
                    i += 1;
                }
                proof {
                    lemma_tuple_view(out);
                    lemma_tuple_view(*elems);
                    assert(out.deep_view() =~= elems.deep_view());
                }
                Typ::Tuple(out)
            },
            Typ::Unknown => Typ::Unknown,
        }
    }
}

impl Clone for Const {
    /// A copy with the same deep view.
    fn clone(&self) -> (r: Const)
        ensures
            r.deep_view() == self.deep_view(),
        decreases self,
    {
        match self {
            Const::Ty(ty, inner) => Const::Ty(
                Box::new((**ty).clone()),
                Box::new((**inner).clone()),
            ),
            Const::Val(val, ty) => Const::Val(*val, Box::new((**ty).clone())),
            Const::Param(index) => Const::Param(*index),
            Const::Expr(kind, args) => {
                let mut out: Vec<Arg> = Vec::new();
                let mut i: usize = 0;
                while i < args.len()
                    invariant
                        i <= args.len(),
                        out@.len() == i,
                        forall|j: int|
                            0 <= j < i ==> (#[trigger] out@[j]).deep_view()
                                == args@[j].deep_view(),
                        forall|j: int|
                            0 <= j < args@.len() ==> decreases_to!(self => #[trigger] args@[j]),
                    decreases args.len() - i,
                {
                    let arg = args[i].clone();
                    out.push(arg);
                    i += 1;
                }
                proof {
                    lemma_expr_view(*kind, out);
                    lemma_expr_view(*kind, *args);
                    assert(out.deep_view() =~= args.deep_view());
                }
                Const::Expr(*kind, out)
            },
            Const::Unknown => Const::Unknown,
        }
    }
}

impl Clone for Arg {
    /// A copy with the same deep view.
    fn clone(&self) -> (r: Arg)
        ensures
            r.deep_view() == self.deep_view(),
        decreases self,
    {
        match self {
            Arg::Arg(ty, ct) => Arg::Arg(Box::new((**ty).clone()), Box::new((**ct).clone())),
        }
    }
}

} // verus!
