use mmir::coherce::Coherce;
use mmir::host::mir;
use mmir::host::span::{DefId, Span};
use mmir::host::ty;
use mmir::mir_types::{Arg, BinOp, Const, ExprKind, Mutability, Typ, UnOp};

fn owner() -> DefId {
    DefId { krate: 0, index: 3 }
}

#[test]
fn span_new_keeps_ordered_ends() {
    assert_eq!(Span::new(3, 9), Span { lo: 3, hi: 9 });
    assert_eq!(Span::new(4, 4), Span { lo: 4, hi: 4 });
}

#[test]
fn span_new_swaps_reversed_ends() {
    assert_eq!(Span::new(9, 3), Span { lo: 3, hi: 9 });
}

#[test]
fn int_bit_widths() {
    assert_eq!(ty::IntTy::Isize.bit_width(), None);
    assert_eq!(ty::IntTy::I8.bit_width(), Some(8));
    assert_eq!(ty::IntTy::I16.bit_width(), Some(16));
    assert_eq!(ty::IntTy::I32.bit_width(), Some(32));
    assert_eq!(ty::IntTy::I64.bit_width(), Some(64));
    assert_eq!(ty::IntTy::I128.bit_width(), Some(128));
}

#[test]
fn uint_bit_widths() {
    assert_eq!(ty::UintTy::Usize.bit_width(), None);
    assert_eq!(ty::UintTy::U8.bit_width(), Some(8));
    assert_eq!(ty::UintTy::U16.bit_width(), Some(16));
    assert_eq!(ty::UintTy::U32.bit_width(), Some(32));
    assert_eq!(ty::UintTy::U64.bit_width(), Some(64));
    assert_eq!(ty::UintTy::U128.bit_width(), Some(128));
}

#[test]
fn float_bit_widths() {
    assert_eq!(ty::FloatTy::F16.bit_width(), 16);
    assert_eq!(ty::FloatTy::F32.bit_width(), 32);
    assert_eq!(ty::FloatTy::F64.bit_width(), 64);
    assert_eq!(ty::FloatTy::F128.bit_width(), 128);
}

#[test]
fn mutability_maps_by_name() {
    assert_eq!(ty::Mutability::Mut.to_mmir(owner()), Mutability::Mut);
    assert_eq!(ty::Mutability::Not.to_mmir(owner()), Mutability::Not);
}

#[test]
fn scalar_types_map_by_name() {
    assert_eq!(ty::Ty::Bool.to_mmir(owner()), Typ::Bool);
    assert_eq!(ty::Ty::Char.to_mmir(owner()), Typ::Char);
    assert_eq!(ty::Ty::Str.to_mmir(owner()), Typ::Str);
}

#[test]
fn signed_integers_carry_their_width() {
    assert_eq!(ty::Ty::Int(ty::IntTy::Isize).to_mmir(owner()), Typ::Isize);
    assert_eq!(ty::Ty::Int(ty::IntTy::I8).to_mmir(owner()), Typ::I(8));
    assert_eq!(ty::Ty::Int(ty::IntTy::I16).to_mmir(owner()), Typ::I(16));
    assert_eq!(ty::Ty::Int(ty::IntTy::I32).to_mmir(owner()), Typ::I(32));
    assert_eq!(ty::Ty::Int(ty::IntTy::I64).to_mmir(owner()), Typ::I(64));
    assert_eq!(ty::Ty::Int(ty::IntTy::I128).to_mmir(owner()), Typ::I(128));
}

#[test]
fn unsigned_integers_carry_their_width() {
    assert_eq!(ty::Ty::Uint(ty::UintTy::Usize).to_mmir(owner()), Typ::USize);
    assert_eq!(ty::Ty::Uint(ty::UintTy::U8).to_mmir(owner()), Typ::U(8));
    assert_eq!(ty::Ty::Uint(ty::UintTy::U16).to_mmir(owner()), Typ::U(16));
    assert_eq!(ty::Ty::Uint(ty::UintTy::U32).to_mmir(owner()), Typ::U(32));
    assert_eq!(ty::Ty::Uint(ty::UintTy::U64).to_mmir(owner()), Typ::U(64));
    assert_eq!(ty::Ty::Uint(ty::UintTy::U128).to_mmir(owner()), Typ::U(128));
}

#[test]
fn floats_carry_their_width() {
    assert_eq!(ty::Ty::Float(ty::FloatTy::F16).to_mmir(owner()), Typ::F(16));
    assert_eq!(ty::Ty::Float(ty::FloatTy::F32).to_mmir(owner()), Typ::F(32));
    assert_eq!(ty::Ty::Float(ty::FloatTy::F64).to_mmir(owner()), Typ::F(64));
    assert_eq!(ty::Ty::Float(ty::FloatTy::F128).to_mmir(owner()), Typ::F(128));
}

#[test]
fn array_maps_element_and_length() {
    let t = ty::Ty::Array(
        Box::new(ty::Ty::Uint(ty::UintTy::U8)),
        Box::new(ty::Const::Param { index: 2 }),
    );
    assert_eq!(
        t.to_mmir(owner()),
        Typ::Array(Box::new(Typ::U(8)), Box::new(Const::Param(2)))
    );
}

#[test]
fn slice_maps_element() {
    let t = ty::Ty::Slice(Box::new(ty::Ty::Char));
    assert_eq!(t.to_mmir(owner()), Typ::Slice(Box::new(Typ::Char)));
}

#[test]
fn pointers_keep_their_mutability() {
    let raw_mut = ty::Ty::RawPtr(Box::new(ty::Ty::Int(ty::IntTy::I32)), ty::Mutability::Mut);
    assert_eq!(raw_mut.to_mmir(owner()), Typ::RawPtr(Box::new(Typ::I(32)), Mutability::Mut));
    let raw_const = ty::Ty::RawPtr(Box::new(ty::Ty::Str), ty::Mutability::Not);
    assert_eq!(raw_const.to_mmir(owner()), Typ::RawPtr(Box::new(Typ::Str), Mutability::Not));
    let shared = ty::Ty::Ref(Box::new(ty::Ty::Bool), ty::Mutability::Not);
    assert_eq!(shared.to_mmir(owner()), Typ::Ref(Box::new(Typ::Bool), Mutability::Not));
    let unique = ty::Ty::Ref(Box::new(ty::Ty::Bool), ty::Mutability::Mut);
    assert_eq!(unique.to_mmir(owner()), Typ::Ref(Box::new(Typ::Bool), Mutability::Mut));
}

#[test]
fn tuple_maps_elements_in_order() {
    let t = ty::Ty::Tuple(vec![
        ty::Ty::Int(ty::IntTy::I32),
        ty::Ty::Bool,
        ty::Ty::Float(ty::FloatTy::F64),
    ]);
    assert_eq!(t.to_mmir(owner()), Typ::Tuple(vec![Typ::I(32), Typ::Bool, Typ::F(64)]));
}

#[test]
fn unit_is_the_empty_tuple() {
    assert_eq!(ty::Ty::Tuple(vec![]).to_mmir(owner()), Typ::Tuple(vec![]));
}

#[test]
fn uncovered_type_is_unknown() {
    assert_eq!(ty::Ty::Other.to_mmir(owner()), Typ::Unknown);
}

#[test]
fn unknown_stands_where_the_uncovered_type_stood() {
    let t = ty::Ty::Tuple(vec![
        ty::Ty::Bool,
        ty::Ty::Ref(
            Box::new(ty::Ty::Array(Box::new(ty::Ty::Other), Box::new(ty::Const::Other))),
            ty::Mutability::Not,
        ),
        ty::Ty::Other,
    ]);
    assert_eq!(
        t.to_mmir(owner()),
        Typ::Tuple(vec![
            Typ::Bool,
            Typ::Ref(
                Box::new(Typ::Array(Box::new(Typ::Unknown), Box::new(Const::Unknown))),
                Mutability::Not
            ),
            Typ::Unknown,
        ])
    );
}

#[test]
fn const_param_keeps_its_index() {
    assert_eq!(ty::Const::Param { index: 0 }.to_mmir(owner()), Const::Param(0));
    assert_eq!(ty::Const::Param { index: 41 }.to_mmir(owner()), Const::Param(41));
}

#[test]
fn uncovered_const_is_unknown() {
    assert_eq!(ty::Const::Other.to_mmir(owner()), Const::Unknown);
}

#[test]
fn const_expr_maps_operator_and_arguments() {
    let c = ty::Const::Expr(ty::Expr {
        kind: ty::ExprKind::Binop(mir::BinOp::Mul),
        args: vec![
            ty::GenericArg::Type(ty::Ty::Uint(ty::UintTy::Usize)),
            ty::GenericArg::Type(ty::Ty::Uint(ty::UintTy::U8)),
            ty::GenericArg::Const(ty::Const::Param { index: 0 }),
            ty::GenericArg::Const(ty::Const::Other),
        ],
    });
    assert_eq!(
        c.to_mmir(owner()),
        Const::Expr(
            ExprKind::BinOp(BinOp::Mul),
            vec![
                Arg::Arg(Box::new(Typ::USize), Box::new(Const::Unknown)),
                Arg::Arg(Box::new(Typ::U(8)), Box::new(Const::Unknown)),
                Arg::Arg(Box::new(Typ::Unknown), Box::new(Const::Param(0))),
                Arg::Arg(Box::new(Typ::Unknown), Box::new(Const::Unknown)),
            ]
        )
    );
}

#[test]
fn const_expr_argument_has_unknown_for_the_part_it_lacks() {
    assert_eq!(
        ty::GenericArg::Type(ty::Ty::Bool).to_mmir(owner()),
        Arg::Arg(Box::new(Typ::Bool), Box::new(Const::Unknown))
    );
    assert_eq!(
        ty::GenericArg::Const(ty::Const::Param { index: 4 }).to_mmir(owner()),
        Arg::Arg(Box::new(Typ::Unknown), Box::new(Const::Param(4)))
    );
    assert_eq!(
        ty::GenericArg::Other.to_mmir(owner()),
        Arg::Arg(Box::new(Typ::Unknown), Box::new(Const::Unknown))
    );
}

#[test]
fn const_expr_without_arguments() {
    let c = ty::Const::Expr(ty::Expr { kind: ty::ExprKind::FunctionCall, args: vec![] });
    assert_eq!(c.to_mmir(owner()), Const::Expr(ExprKind::FunctionCall, vec![]));
}

#[test]
fn const_expr_nests() {
    let inner = ty::Const::Expr(ty::Expr {
        kind: ty::ExprKind::UnOp(mir::UnOp::Neg),
        args: vec![
            ty::GenericArg::Type(ty::Ty::Int(ty::IntTy::I8)),
            ty::GenericArg::Const(ty::Const::Param { index: 1 }),
        ],
    });
    let outer = ty::Const::Expr(ty::Expr {
        kind: ty::ExprKind::Cast(ty::CastKind::As),
        args: vec![
            ty::GenericArg::Type(ty::Ty::Array(
                Box::new(ty::Ty::Bool),
                Box::new(ty::Const::Param { index: 5 }),
            )),
            ty::GenericArg::Const(inner),
        ],
    });
    assert_eq!(
        outer.to_mmir(owner()),
        Const::Expr(
            ExprKind::CastAs,
            vec![
                Arg::Arg(
                    Box::new(Typ::Array(Box::new(Typ::Bool), Box::new(Const::Param(5)))),
                    Box::new(Const::Unknown),
                ),
                Arg::Arg(
                    Box::new(Typ::Unknown),
                    Box::new(Const::Expr(
                        ExprKind::UnOp(UnOp::Neg),
                        vec![
                            Arg::Arg(Box::new(Typ::I(8)), Box::new(Const::Unknown)),
                            Arg::Arg(Box::new(Typ::Unknown), Box::new(Const::Param(1))),
                        ]
                    )),
                ),
            ]
        )
    );
}

#[test]
fn expr_kinds_map_by_name() {
    assert_eq!(
        ty::ExprKind::Binop(mir::BinOp::Add).to_mmir(owner()),
        ExprKind::BinOp(BinOp::Add)
    );
    assert_eq!(ty::ExprKind::UnOp(mir::UnOp::Not).to_mmir(owner()), ExprKind::UnOp(UnOp::Not));
    assert_eq!(ty::ExprKind::FunctionCall.to_mmir(owner()), ExprKind::FunctionCall);
    assert_eq!(ty::ExprKind::Cast(ty::CastKind::As).to_mmir(owner()), ExprKind::CastAs);
    assert_eq!(ty::ExprKind::Cast(ty::CastKind::Use).to_mmir(owner()), ExprKind::CastUse);
}

#[test]
fn binary_operators_map_by_name() {
    let pairs = vec![
        (mir::BinOp::Add, BinOp::Add),
        (mir::BinOp::AddUnchecked, BinOp::AddUnchecked),
        (mir::BinOp::AddWithOverflow, BinOp::AddWithOverflow),
        (mir::BinOp::Sub, BinOp::Sub),
        (mir::BinOp::SubUnchecked, BinOp::SubUnchecked),
        (mir::BinOp::SubWithOverflow, BinOp::SubWithOverflow),
        (mir::BinOp::Mul, BinOp::Mul),
        (mir::BinOp::MulUnchecked, BinOp::MulUnchecked),
        (mir::BinOp::MulWithOverflow, BinOp::MulWithOverflow),
        (mir::BinOp::Div, BinOp::Div),
        (mir::BinOp::Rem, BinOp::Rem),
        (mir::BinOp::BitXor, BinOp::BitXor),
        (mir::BinOp::BitAnd, BinOp::BitAnd),
        (mir::BinOp::BitOr, BinOp::BitOr),
        (mir::BinOp::Shl, BinOp::Shl),
        (mir::BinOp::ShlUnchecked, BinOp::ShlUnchecked),
        (mir::BinOp::Shr, BinOp::Shr),
        (mir::BinOp::ShrUnchecked, BinOp::ShrUnchecked),
        (mir::BinOp::Eq, BinOp::Eq),
        (mir::BinOp::Lt, BinOp::Lt),
        (mir::BinOp::Le, BinOp::Le),
        (mir::BinOp::Ne, BinOp::Ne),
        (mir::BinOp::Ge, BinOp::Ge),
        (mir::BinOp::Gt, BinOp::Gt),
        (mir::BinOp::Cmp, BinOp::Cmp),
        (mir::BinOp::Offset, BinOp::Offset),
    ];
    assert_eq!(pairs.len(), 26);
    for (host, schema) in pairs {
        assert_eq!(host.to_mmir(owner()), schema);
    }
}

#[test]
fn unary_operators_map_by_name() {
    assert_eq!(mir::UnOp::Not.to_mmir(owner()), UnOp::Not);
    assert_eq!(mir::UnOp::Neg.to_mmir(owner()), UnOp::Neg);
    assert_eq!(mir::UnOp::PtrMetadata.to_mmir(owner()), UnOp::PtrMetadata);
}

#[test]
fn cloned_type_equals_its_source() {
    let t = Typ::Tuple(vec![
        Typ::I(32),
        Typ::Array(
            Box::new(Typ::RawPtr(Box::new(Typ::Unknown), Mutability::Mut)),
            Box::new(Const::Expr(
                ExprKind::CastUse,
                vec![Arg::Arg(Box::new(Typ::F(64)), Box::new(Const::Param(3)))],
            )),
        ),
        Typ::Slice(Box::new(Typ::Ref(Box::new(Typ::Str), Mutability::Not))),
    ]);
    assert_eq!(t.clone(), t);
}

#[test]
fn cloned_const_equals_its_source() {
    let c = Const::Ty(
        Box::new(Typ::USize),
        Box::new(Const::Expr(
            ExprKind::BinOp(BinOp::Shl),
            vec![
                Arg::Arg(Box::new(Typ::U(8)), Box::new(Const::Param(0))),
                Arg::Arg(
                    Box::new(Typ::Tuple(vec![Typ::Bool, Typ::Char])),
                    Box::new(Const::Unknown),
                ),
            ],
        )),
    );
    assert_eq!(c.clone(), c);
    let a = Arg::Arg(Box::new(Typ::Isize), Box::new(Const::Param(9)));
    assert_eq!(a.clone(), a);
}
