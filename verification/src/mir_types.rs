//! The portable schema: one function body and everything below it, as plain
//! owned values.
//!
//! The types here carry no behaviour. Every identifier (basic block, local,
//! scope, field, variant) is a dense, zero-based `u32` that means something
//! only inside the `Body` it occurs in. Nothing is shared: a subtree that
//! occurs twice is stored twice.
use vstd::prelude::*;

verus! {

/// Whether a location may be written through.
#[derive(Clone, Copy, Debug, PartialEq, Eq)]
pub enum Mutability {
    Mut,
    Not,
}

/// A unary operator.
#[derive(Clone, Copy, Debug, PartialEq, Eq)]
pub enum UnOp {
    Not,
    Neg,
    PtrMetadata,
}

/// A binary operator.
#[derive(Clone, Copy, Debug, PartialEq, Eq)]
pub enum BinOp {
    Add,
    AddUnchecked,
    AddWithOverflow,
    Sub,
    SubUnchecked,
    SubWithOverflow,
    Mul,
    MulUnchecked,
    MulWithOverflow,
    Div,
    Rem,
    BitXor,
    BitAnd,
    BitOr,
    Shl,
    ShlUnchecked,
    Shr,
    ShrUnchecked,
    Eq,
    Ne,
    Lt,
    Le,
    Gt,
    Ge,
    Offset,
    Cmp,
}

/// An operator without operands.
#[derive(Clone, Copy, Debug, PartialEq, Eq)]
pub enum NullOp {
    SizeOf,
    AlignOf,
    UbChecks,
    Unknown,
}

/// A source range as a pair of byte offsets, low end first.
#[derive(Clone, Copy, Debug, PartialEq, Eq)]
pub enum Span {
    Span(u32, u32),
}

/// The kind of a borrow.
#[derive(Clone, Copy, Debug, PartialEq, Eq)]
pub enum BorrowKind {
    Shared,
    Fake,
    Mut,
    Unknown,
}

/// The kind of a retag.
#[derive(Clone, Copy, Debug, PartialEq, Eq)]
pub enum Rkind {
    FnEntry,
    TwoPhase,
    Raw,
    Default,
}

/// The operator at the head of an unevaluated constant expression.
#[derive(Clone, Copy, Debug, PartialEq, Eq)]
pub enum ExprKind {
    BinOp(BinOp),
    UnOp(UnOp),
    FunctionCall,
    CastAs,
    CastUse,
}

/// An evaluated constant, in the abstract form the compiler keeps of
/// compile-time memory. No bytes of that memory are held.
#[derive(Clone, Copy, Debug, PartialEq, Eq)]
pub enum ConstVal {
    /// An integer scalar, cut to its low 32 bits.
    ScalarInt(u32),
    /// A pointer scalar: allocation, byte offset, size in bytes.
    ScalarPtr(u32, u32, u8),
    ZeroSized,
    /// Slice metadata: the element count, and whether the data is mutable.
    Slice(u32, Mutability),
    /// A value held in an allocation: allocation and byte offset.
    Indirect(u32, u32),
    Unknown,
}

/// A type. Shapes outside the list are `Unknown`.
#[derive(Debug, PartialEq, Eq)]
pub enum Typ {
    Bool,
    Char,
    Isize,
    /// A signed integer of the given width in bits.
    I(u32),
    USize,
    /// An unsigned integer of the given width in bits.
    U(u32),
    /// A floating-point number of the given width in bits.
    F(u32),
    Str,
    /// An array: element type and length.
    Array(Box<Typ>, Box<Const>),
    Slice(Box<Typ>),
    RawPtr(Box<Typ>, Mutability),
    Ref(Box<Typ>, Mutability),
    Tuple(Vec<Typ>),
    Unknown,
}

/// A constant.
#[derive(Debug, PartialEq, Eq)]
pub enum Const {
    /// A constant that carries its type, such as an array length.
    Ty(Box<Typ>, Box<Const>),
    /// An evaluated value and its type.
    Val(ConstVal, Box<Typ>),
    /// A generic constant parameter, by position.
    Param(u32),
    /// An unevaluated expression: operator and arguments.
    Expr(ExprKind, Vec<Arg>),
    Unknown,
}

/// One argument of a constant expression: a type and a constant. An
/// argument that is only one of the two has `Unknown` for the other.
#[derive(Debug, PartialEq, Eq)]
pub enum Arg {
    Arg(Box<Typ>, Box<Const>),
}

/// One step from a location to a location inside it.
#[derive(Clone, Debug, PartialEq, Eq)]
pub enum Projection {
    Deref,
    /// Field index and field type.
    Field(u32, Box<Typ>),
    /// Index held in a local.
    Index(u32),
    /// Offset, minimum length, and whether the offset counts from the end.
    ConstantIndex(u32, u32, bool),
    /// From, to, and whether `to` counts from the end.
    Subslice(u32, u32, bool),
    /// Variant index.
    Downcast(u32),
    OpaqueCast(Box<Typ>),
    Subtype(Box<Typ>),
    UnwrapUnsafeBinder(Box<Typ>),
}

/// A storage location: a local and the projections applied to it, left to
/// right.
#[derive(Clone, Debug, PartialEq, Eq)]
pub struct Place {
    pub local: u32,
    pub proj: Vec<Projection>,
}

/// What the compiler recorded about why a local exists.
#[derive(Clone, Debug, PartialEq, Eq)]
pub enum LocalInfo {
    ConstRef(u32),
    StaticRef(u32),
    AggregateTemp,
    DerefTemp,
    FakeBorrow,
    Boring,
    Unknown,
}

/// The declaration of one local. Its position in `Body::local_decls` is its
/// identifier.
#[derive(Clone, Debug, PartialEq, Eq)]
pub struct LocalDecl {
    pub scope: u32,
    pub local: LocalInfo,
    pub typ: Box<Typ>,
    pub mutability: Mutability,
}

/// A value read by copy, read by move, or given as a constant.
#[derive(Clone, Debug, PartialEq, Eq)]
pub enum Operand {
    Copy(Place),
    Move(Place),
    Constant(Box<Const>),
}

/// An intrinsic call that always returns.
#[derive(Clone, Debug, PartialEq, Eq)]
pub enum Intrinsic {
    Assume(Operand),
    /// Source, destination, count.
    CopyNonOverlapping(Operand, Operand, Operand),
}

/// The right-hand side of an assignment.
#[derive(Clone, Debug, PartialEq, Eq)]
pub enum Rvalue {
    Use(Operand),
    Repeat(Operand, Box<Const>),
    Ref(BorrowKind, Place),
    RawPtr(Mutability, Place),
    Len(Place),
    BinaryOp(BinOp, Operand, Operand),
    NullaryOp(NullOp),
    UnaryOp(UnOp, Operand),
    Discriminant(Place),
    ShallowInitBox(Operand, Box<Typ>),
    CopyForDeref(Place),
    WrapUnsafeBinder(Operand, Box<Typ>),
    Unknown,
}

/// What a statement does. Plain statements and block terminators share this
/// type; `Unknown` stands for either.
#[derive(Clone, Debug, PartialEq, Eq)]
pub enum StatementKind {
    Assign(Place, Rvalue),
    SetDiscriminant(Place, u32),
    Deinit(Place),
    StorageLive(u32),
    StorageDead(u32),
    Retag(Rkind, Place),
    PlaceMention(Place),
    Intrinsic(Intrinsic),
    Nop,
    ConstEvalCounter,
    Goto(u32),
    SwitchInt(Operand, Box<Targets>),
    UnwindResume,
    UnwindTerminate,
    Unreachable,
    CoroutineDrop,
    Return,
    Drop(DropInfo),
    Call(CallInfo),
    Assert(AssertInfo),
    Unknown,
}

/// One statement of a block.
#[derive(Clone, Debug, PartialEq, Eq)]
pub struct Statement {
    pub skind: StatementKind,
    pub span: Span,
    pub scope: u32,
}

/// The arms of a multi-way branch. `values[i]` routes to `targets[i]`; one
/// more target follows them, the one taken when no value matches.
#[derive(Clone, Debug, PartialEq, Eq)]
pub struct Targets {
    pub targets: Vec<u32>,
    pub values: Vec<u32>,
}

/// A function call.
#[derive(Clone, Debug, PartialEq, Eq)]
pub struct CallInfo {
    pub func: Operand,
    pub args: Vec<Operand>,
    pub dest: Place,
    /// The block to continue in; absent when the call does not return.
    pub target: Option<u32>,
    pub unwind: UnwindAction,
    pub span: Span,
}

/// What an assertion checks.
#[derive(Clone, Debug, PartialEq, Eq)]
pub enum AssertMessage {
    /// Length and index.
    BoundsCheck(Operand, Operand),
    Overflow(BinOp, Operand, Operand),
    OverflowNeg(Operand),
    DivisionByZero(Operand),
    RemainderByZero(Operand),
    /// Required and found alignment.
    MisalignedPointerDereference(Operand, Operand),
    NullPointerDereference,
    Unknown,
}

/// A drop of a place.
#[derive(Clone, Debug, PartialEq, Eq)]
pub struct DropInfo {
    pub place: Place,
    pub target: u32,
    pub unwind: UnwindAction,
    /// Whether the dropped storage is written again at once.
    pub replace: bool,
    /// The block that continues an asynchronous drop.
    pub drop: Option<u32>,
}

/// An assertion.
#[derive(Clone, Debug, PartialEq, Eq)]
pub struct AssertInfo {
    pub cond: Operand,
    pub expected: bool,
    pub msg: AssertMessage,
    pub target: u32,
    pub unwind: UnwindAction,
}

/// One basic block: its statements in order, the terminator last.
#[derive(Clone, Debug, PartialEq, Eq)]
pub struct BasicBlock {
    pub statements: Vec<Statement>,
    /// Whether the block runs only while unwinding.
    pub is_cleanup: bool,
}

/// What happens when the callee unwinds.
#[derive(Clone, Debug, PartialEq, Eq)]
pub enum UnwindAction {
    Continue,
    Unreachable,
    Terminate,
    Cleanup(u32),
}

/// Where a source variable lives.
#[derive(Clone, Debug, PartialEq, Eq)]
pub enum VarDebugInfoContent {
    Place(Place),
    Const(Const),
}

/// The part of a source variable that a debug entry describes.
#[derive(Clone, Debug, PartialEq, Eq)]
pub struct VarDebugInfoFragment {
    pub ty: Typ,
    pub projection: Vec<Projection>,
}

/// Debug information for one source variable.
#[derive(Clone, Debug, PartialEq, Eq)]
pub struct VarDebugInfo {
    pub value: VarDebugInfoContent,
    pub scope: u32,
    pub name: String,
    pub arg_index: Option<u32>,
    pub composite: Option<Box<VarDebugInfoFragment>>,
}

/// One function.
#[derive(Clone, Debug, PartialEq, Eq)]
pub struct Body {
    pub stmts: Vec<BasicBlock>,
    pub local_decls: Vec<LocalDecl>,
    pub arg_count: usize,
    pub var_debug_info: Vec<VarDebugInfo>,
    /// The trailing argument that collects further positional arguments.
    pub spread_arg: Option<usize>,
    pub span: Span,
}

} // verus!
