//! The body of a function: blocks, statements, terminators, places,
//! operands and constants.
use crate::host::index::IndexVec;
use crate::host::span::{DefId, Span, Spanned};
use crate::host::ty;
use crate::host::ty::{Mutability, Ty};
use vstd::prelude::*;

verus! {

/// A binary operator.
#[derive(Clone, Copy, Debug, PartialEq, Eq)]
pub enum BinOp {
    Add,
    AddUnchecked,
    AddWithOverflow,
    Sub,
    SubUnchecked,
    SubWithOverflow,
    Mul,
    MulUnchecked,
    MulWithOverflow,
    Div,
    Rem,
    BitXor,
    BitAnd,
    BitOr,
    Shl,
    ShlUnchecked,
    Shr,
    ShrUnchecked,
    Eq,
    Lt,
    Le,
    Ne,
    Ge,
    Gt,
    Cmp,
    Offset,
}

/// A unary operator.
#[derive(Clone, Copy, Debug, PartialEq, Eq)]
pub enum UnOp {
    Not,
    Neg,
    PtrMetadata,
}

/// An operator without operands.
#[derive(Clone, Copy, Debug, PartialEq, Eq)]
pub enum NullOp {
    SizeOf,
    AlignOf,
    UbChecks,
    /// Any other operator, such as the offset of a field.
    Other,
}

/// The kind of a retag.
#[derive(Clone, Copy, Debug, PartialEq, Eq)]
pub enum RetagKind {
    FnEntry,
    TwoPhase,
    Raw,
    Default,
}

/// The kind of a borrow.
#[derive(Clone, Copy, Debug, PartialEq, Eq)]
pub enum BorrowKind {
    Shared,
    Fake,
    Mut,
}

/// The kind of a raw pointer creation.
#[derive(Clone, Copy, Debug, PartialEq, Eq)]
pub enum RawPtrKind {
    Mut,
    Const,
    /// A pointer made only to read the metadata of its pointee.
    FakeForPtrMetadata,
}

/// Where a statement comes from: its source range and lexical scope.
#[derive(Clone, Copy, Debug, PartialEq, Eq)]
pub struct SourceInfo {
    pub span: Span,
    pub scope: u32,
}

/// One step from a location to a location inside it.
#[derive(Debug, PartialEq, Eq)]
pub enum PlaceElem {
    Deref,
    /// Field index and field type.
    Field(u32, Ty),
    /// Index held in a local.
    Index(u32),
    ConstantIndex { offset: u64, min_length: u64, from_end: bool },
    Subslice { from: u64, to: u64, from_end: bool },
    /// Variant index.
    Downcast(u32),
    OpaqueCast(Ty),
    UnwrapUnsafeBinder(Ty),
    Subtype(Ty),
}

/// A storage location: a local and the projections applied to it, left to
/// right.
#[derive(Debug, PartialEq, Eq)]
pub struct Place {
    pub local: u32,
    pub projection: Vec<PlaceElem>,
}

/// An integer scalar: up to 128 bits of data, and its size in bytes.
#[derive(Clone, Copy, Debug, PartialEq, Eq)]
pub struct ScalarInt {
    pub data: u128,
    pub size: u8,
}

/// A pointer into compile-time memory.
#[derive(Clone, Copy, Debug, PartialEq, Eq)]
pub struct Pointer {
    pub alloc_id: u64,
    /// Offset in bytes.
    pub offset: u64,
}

/// A scalar: an integer, or a pointer with its size in bytes.
#[derive(Clone, Copy, Debug, PartialEq, Eq)]
pub enum Scalar {
    Int(ScalarInt),
    Ptr(Pointer, u8),
}

/// An evaluated constant.
#[derive(Clone, Copy, Debug, PartialEq, Eq)]
pub enum ConstValue {
    Scalar(Scalar),
    ZeroSized,
    /// A slice: the mutability of the allocation that holds its data, and
    /// the number of elements.
    Slice { mutability: Mutability, meta: u64 },
    /// A value held in an allocation, at an offset in bytes.
    Indirect { alloc_id: u64, offset: u64 },
    /// Any other value.
    Other,
}

/// A constant as it occurs in a function body.
#[derive(Debug, PartialEq, Eq)]
pub enum Const {
    /// A constant of the type system, with its type.
    Ty(Ty, ty::Const),
    /// An evaluated value and its type.
    Val(ConstValue, Ty),
    /// Any other constant, such as one that is not evaluated yet.
    Other,
}

/// A constant used as an operand.
#[derive(Debug, PartialEq, Eq)]
pub struct ConstOperand {
    pub const_: Const,
}

/// A value read by copy, read by move, or given as a constant.
#[derive(Debug, PartialEq, Eq)]
pub enum Operand {
    Copy(Place),
    Move(Place),
    Constant(ConstOperand),
}

/// The operands of a copy between regions that do not overlap.
#[derive(Debug, PartialEq, Eq)]
pub struct CopyNonOverlapping {
    pub src: Operand,
    pub dst: Operand,
    pub count: Operand,
}

/// An intrinsic call that always returns.
#[derive(Debug, PartialEq, Eq)]
pub enum NonDivergingIntrinsic {
    Assume(Operand),
    CopyNonOverlapping(CopyNonOverlapping),
}

/// The right-hand side of an assignment.
#[derive(Debug, PartialEq, Eq)]
pub enum Rvalue {
    Use(Operand),
    Repeat(Operand, ty::Const),
    Ref(BorrowKind, Place),
    RawPtr(RawPtrKind, Place),
    Len(Place),
    BinaryOp(BinOp, Operand, Operand),
    NullaryOp(NullOp),
    UnaryOp(UnOp, Operand),
    Discriminant(Place),
    ShallowInitBox(Operand, Ty),
    CopyForDeref(Place),
    WrapUnsafeBinder(Operand, Ty),
    /// Any other value expression, such as a cast or an aggregate.
    Other,
}

/// The arms of a multi-way branch. `values[i]` routes to `targets[i]`; one
/// more target follows them, the one taken when no value matches.
#[derive(Debug, PartialEq, Eq)]
pub struct SwitchTargets {
    pub values: Vec<u128>,
    pub targets: Vec<u32>,
}

/// What an assertion checks.
#[derive(Debug, PartialEq, Eq)]
pub enum AssertMessage {
    BoundsCheck { len: Operand, index: Operand },
    Overflow(BinOp, Operand, Operand),
    OverflowNeg(Operand),
    DivisionByZero(Operand),
    RemainderByZero(Operand),
    MisalignedPointerDereference { required: Operand, found: Operand },
    NullPointerDereference,
    /// Any other check.
    Other,
}

/// What happens when the callee unwinds.
#[derive(Clone, Copy, Debug, PartialEq, Eq)]
pub enum UnwindAction {
    Continue,
    Unreachable,
    Terminate,
    Cleanup(u32),
}

/// How a block ends.
#[derive(Debug, PartialEq, Eq)]
pub enum TerminatorKind {
    Goto { target: u32 },
    SwitchInt { discr: Operand, targets: SwitchTargets },
    UnwindResume,
    UnwindTerminate,
    Return,
    Unreachable,
    Drop { place: Place, target: u32, unwind: UnwindAction, replace: bool, drop: Option<u32> },
    Call {
        func: Operand,
        args: Vec<Spanned<Operand>>,
        destination: Place,
        target: Option<u32>,
        unwind: UnwindAction,
        fn_span: Span,
    },
    Assert { cond: Operand, expected: bool, msg: AssertMessage, target: u32, unwind: UnwindAction },
    CoroutineDrop,
    /// Any other terminator, such as a yield or inline assembly.
    Other,
}

/// The terminator of a block.
#[derive(Debug, PartialEq, Eq)]
pub struct Terminator {
    pub source_info: SourceInfo,
    pub kind: TerminatorKind,
}

/// What a statement does.
#[derive(Debug, PartialEq, Eq)]
pub enum StatementKind {
    Assign(Place, Rvalue),
    SetDiscriminant { place: Place, variant_index: u32 },
    Deinit(Place),
    StorageLive(u32),
    StorageDead(u32),
    Retag(RetagKind, Place),
    PlaceMention(Place),
    Intrinsic(NonDivergingIntrinsic),
    ConstEvalCounter,
    Nop,
    /// Any other statement, such as a coverage marker.
    Other,
}

/// One statement of a block.
#[derive(Debug, PartialEq, Eq)]
pub struct Statement {
    pub source_info: SourceInfo,
    pub kind: StatementKind,
}

/// One basic block. The terminator is absent only while a body is being
/// built.
#[derive(Debug, PartialEq, Eq)]
pub struct BasicBlockData {
    pub statements: Vec<Statement>,
    pub terminator: Option<Terminator>,
    pub is_cleanup: bool,
}

/// The blocks of a body, by block identifier.
#[derive(Debug, PartialEq, Eq)]
pub struct BasicBlocks {
    pub basic_blocks: IndexVec<BasicBlockData>,
}

/// What the compiler recorded about why a local exists.
#[derive(Clone, Copy, Debug, PartialEq, Eq)]
pub enum LocalInfo {
    ConstRef { def_id: DefId },
    StaticRef { def_id: DefId },
    AggregateTemp,
    DerefTemp,
    FakeBorrow,
    Boring,
    /// Any other record, such as that of a variable the user declared.
    Other,
}

/// The declaration of one local.
#[derive(Debug, PartialEq, Eq)]
pub struct LocalDecl {
    pub mutability: Mutability,
    pub local_info: LocalInfo,
    pub ty: Ty,
    pub source_info: SourceInfo,
}

/// Where a source variable lives.
#[derive(Debug, PartialEq, Eq)]
pub enum VarDebugInfoContents {
    Place(Place),
    Const(ConstOperand),
}

/// The part of a source variable that a debug entry describes.
#[derive(Debug, PartialEq, Eq)]
pub struct VarDebugInfoFragment {
    pub ty: Ty,
    pub projection: Vec<PlaceElem>,
}

/// Debug information for one source variable.
#[derive(Debug, PartialEq, Eq)]
pub struct VarDebugInfo {
    pub name: String,
    pub source_info: SourceInfo,
    pub composite: Option<Box<VarDebugInfoFragment>>,
    pub value: VarDebugInfoContents,
    /// For an argument, its position counted from one.
    pub argument_index: Option<u16>,
}

/// One function.
#[derive(Debug, PartialEq, Eq)]
pub struct Body {
    pub basic_blocks: BasicBlocks,
    pub local_decls: IndexVec<LocalDecl>,
    pub arg_count: usize,
    pub spread_arg: Option<u32>,
    pub var_debug_info: Vec<VarDebugInfo>,
    pub span: Span,
}

} // verus!
