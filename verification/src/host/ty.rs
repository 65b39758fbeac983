//! Types and the constants of the type system.
use crate::host::mir::{BinOp, UnOp};
use vstd::prelude::*;

verus! {

/// Whether a location may be written through.
#[derive(Clone, Copy, Debug, PartialEq, Eq)]
pub enum Mutability {
    Not,
    Mut,
}

/// The signed integer types.
#[derive(Clone, Copy, Debug, PartialEq, Eq)]
pub enum IntTy {
    Isize,
    I8,
    I16,
    I32,
    I64,
    I128,
}

/// The unsigned integer types.
#[derive(Clone, Copy, Debug, PartialEq, Eq)]
pub enum UintTy {
    Usize,
    U8,
    U16,
    U32,
    U64,
    U128,
}

/// The floating-point types.
#[derive(Clone, Copy, Debug, PartialEq, Eq)]
pub enum FloatTy {
    F16,
    F32,
    F64,
    F128,
}

impl IntTy {
    /// The width in bits; none for the pointer-sized type.
    pub open spec fn spec_bit_width(&self) -> Option<u64> {
        match self {
            IntTy::Isize => None,
            IntTy::I8 => Some(8),
            IntTy::I16 => Some(16),
            IntTy::I32 => Some(32),
            IntTy::I64 => Some(64),
            IntTy::I128 => Some(128),
        }
    }

    #[verifier::when_used_as_spec(spec_bit_width)]
    pub fn bit_width(&self) -> (r: Option<u64>)
        ensures
            r == self.spec_bit_width(),
    {
        match self {
            IntTy::Isize => None,
            IntTy::I8 => Some(8),
            IntTy::I16 => Some(16),
            IntTy::I32 => Some(32),
            IntTy::I64 => Some(64),
            IntTy::I128 => Some(128),
        }
    }
}

impl UintTy {
    /// The width in bits; none for the pointer-sized type.
    pub open spec fn spec_bit_width(&self) -> Option<u64> {
        match self {
            UintTy::Usize => None,
            UintTy::U8 => Some(8),
            UintTy::U16 => Some(16),
            UintTy::U32 => Some(32),
            UintTy::U64 => Some(64),
            UintTy::U128 => Some(128),
        }
    }

    #[verifier::when_used_as_spec(spec_bit_width)]
    pub fn bit_width(&self) -> (r: Option<u64>)
        ensures
            r == self.spec_bit_width(),
    {
        match self {
            UintTy::Usize => None,
            UintTy::U8 => Some(8),
            UintTy::U16 => Some(16),
            UintTy::U32 => Some(32),
            UintTy::U64 => Some(64),
            UintTy::U128 => Some(128),
        }
    }
}

impl FloatTy {
    /// The width in bits.
    pub open spec fn spec_bit_width(&self) -> u64 {
        match self {
            FloatTy::F16 => 16,
            FloatTy::F32 => 32,
            FloatTy::F64 => 64,
            FloatTy::F128 => 128,
        }
    }

    #[verifier::when_used_as_spec(spec_bit_width)]
    pub fn bit_width(&self) -> (r: u64)
        ensures
            r == self.spec_bit_width(),
    {
        match self {
            FloatTy::F16 => 16,
            FloatTy::F32 => 32,
            FloatTy::F64 => 64,
            FloatTy::F128 => 128,
        }
    }
}

/// A type of the compiler.
#[derive(Debug, PartialEq, Eq)]
pub enum Ty {
    Bool,
    Char,
    Int(IntTy),
    Uint(UintTy),
    Float(FloatTy),
    Str,
    /// An array: element type and length.
    Array(Box<Ty>, Box<Const>),
    Slice(Box<Ty>),
    RawPtr(Box<Ty>, Mutability),
    Ref(Box<Ty>, Mutability),
    Tuple(Vec<Ty>),
    /// Any other type: a user-defined aggregate, a function, a closure, a
    /// trait object, a generic parameter and so on.
    Other,
}

/// A constant of the type system.
#[derive(Debug, PartialEq, Eq)]
pub enum Const {
    /// A generic constant parameter, by its position among the generics.
    Param { index: u32 },
    /// An expression that has not been evaluated.
    Expr(Expr),
    /// Any other constant.
    Other,
}

/// An unevaluated constant expression.
#[derive(Debug, PartialEq, Eq)]
pub struct Expr {
    pub kind: ExprKind,
    pub args: Vec<GenericArg>,
}

/// One argument of a constant expression: a type or a constant.
#[derive(Debug, PartialEq, Eq)]
pub enum GenericArg {
    Type(Ty),
    Const(Const),
    /// Any other argument, such as a lifetime.
    Other,
}

/// The operator at the head of a constant expression.
#[derive(Clone, Copy, Debug, PartialEq, Eq)]
pub enum ExprKind {
    Binop(BinOp),
    UnOp(UnOp),
    FunctionCall,
    Cast(CastKind),
}

/// How a constant expression casts.
#[derive(Clone, Copy, Debug, PartialEq, Eq)]
pub enum CastKind {
    As,
    Use,
}

} // verus!
