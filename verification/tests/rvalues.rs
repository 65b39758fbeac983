use mmir::coherce::Coherce;
use mmir::host::mir;
use mmir::host::span::DefId;
use mmir::host::ty;
use mmir::mir_types::{
    BinOp, BorrowKind, Const, ConstVal, Intrinsic, Mutability, NullOp, Operand, Place, Projection,
    Rkind, Rvalue, Typ, UnOp,
};

fn owner() -> DefId {
    DefId { krate: 0, index: 11 }
}

fn local(n: u32) -> mir::Place {
    mir::Place { local: n, projection: vec![] }
}

fn place(n: u32) -> Place {
    Place { local: n, proj: vec![] }
}

fn int_const(value: u128) -> mir::Operand {
    mir::Operand::Constant(mir::ConstOperand {
        const_: mir::Const::Val(
            mir::ConstValue::Scalar(mir::Scalar::Int(mir::ScalarInt { data: value, size: 4 })),
            ty::Ty::Int(ty::IntTy::I32),
        ),
    })
}

fn schema_int_const(value: u32) -> Operand {
    Operand::Constant(Box::new(Const::Val(ConstVal::ScalarInt(value), Box::new(Typ::I(32)))))
}

#[test]
fn nullary_operators() {
    assert_eq!(mir::NullOp::SizeOf.to_mmir(owner()), NullOp::SizeOf);
    assert_eq!(mir::NullOp::AlignOf.to_mmir(owner()), NullOp::AlignOf);
    assert_eq!(mir::NullOp::UbChecks.to_mmir(owner()), NullOp::UbChecks);
    assert_eq!(mir::NullOp::Other.to_mmir(owner()), NullOp::Unknown);
}

#[test]
fn retag_kinds() {
    assert_eq!(mir::RetagKind::FnEntry.to_mmir(owner()), Rkind::FnEntry);
    assert_eq!(mir::RetagKind::TwoPhase.to_mmir(owner()), Rkind::TwoPhase);
    assert_eq!(mir::RetagKind::Raw.to_mmir(owner()), Rkind::Raw);
    assert_eq!(mir::RetagKind::Default.to_mmir(owner()), Rkind::Default);
}

#[test]
fn borrow_kinds() {
    assert_eq!(mir::BorrowKind::Shared.to_mmir(owner()), BorrowKind::Shared);
    assert_eq!(mir::BorrowKind::Fake.to_mmir(owner()), BorrowKind::Fake);
    assert_eq!(mir::BorrowKind::Mut.to_mmir(owner()), BorrowKind::Mut);
}

#[test]
fn raw_pointer_kinds() {
    assert_eq!(mir::RawPtrKind::Mut.to_mmir(owner()), Mutability::Mut);
    assert_eq!(mir::RawPtrKind::Const.to_mmir(owner()), Mutability::Not);
    assert_eq!(mir::RawPtrKind::FakeForPtrMetadata.to_mmir(owner()), Mutability::Not);
}

#[test]
fn intrinsic_assume() {
    let i = mir::NonDivergingIntrinsic::Assume(mir::Operand::Copy(local(1)));
    assert_eq!(i.to_mmir(owner()), Intrinsic::Assume(Operand::Copy(place(1))));
}

#[test]
fn intrinsic_copy_keeps_source_destination_count() {
    let i = mir::NonDivergingIntrinsic::CopyNonOverlapping(mir::CopyNonOverlapping {
        src: mir::Operand::Copy(local(1)),
        dst: mir::Operand::Move(local(2)),
        count: int_const(16),
    });
    assert_eq!(
        i.to_mmir(owner()),
        Intrinsic::CopyNonOverlapping(
            Operand::Copy(place(1)),
            Operand::Move(place(2)),
            schema_int_const(16)
        )
    );
}

#[test]
fn rvalue_use() {
    let r = mir::Rvalue::Use(int_const(5));
    assert_eq!(r.to_mmir(owner()), Rvalue::Use(schema_int_const(5)));
}

#[test]
fn rvalue_repeat() {
    let r = mir::Rvalue::Repeat(mir::Operand::Copy(local(1)), ty::Const::Param { index: 0 });
    assert_eq!(
        r.to_mmir(owner()),
        Rvalue::Repeat(Operand::Copy(place(1)), Box::new(Const::Param(0)))
    );
}

#[test]
fn rvalue_ref() {
    let r = mir::Rvalue::Ref(mir::BorrowKind::Mut, local(3));
    assert_eq!(r.to_mmir(owner()), Rvalue::Ref(BorrowKind::Mut, place(3)));
    let r = mir::Rvalue::Ref(mir::BorrowKind::Shared, local(4));
    assert_eq!(r.to_mmir(owner()), Rvalue::Ref(BorrowKind::Shared, place(4)));
}

#[test]
fn rvalue_raw_pointer() {
    let r = mir::Rvalue::RawPtr(mir::RawPtrKind::Mut, local(1));
    assert_eq!(r.to_mmir(owner()), Rvalue::RawPtr(Mutability::Mut, place(1)));
    let r = mir::Rvalue::RawPtr(mir::RawPtrKind::Const, local(1));
    assert_eq!(r.to_mmir(owner()), Rvalue::RawPtr(Mutability::Not, place(1)));
    let r = mir::Rvalue::RawPtr(mir::RawPtrKind::FakeForPtrMetadata, local(1));
    assert_eq!(r.to_mmir(owner()), Rvalue::RawPtr(Mutability::Not, place(1)));
}

#[test]
fn rvalue_len_discriminant_copy_for_deref() {
    assert_eq!(mir::Rvalue::Len(local(2)).to_mmir(owner()), Rvalue::Len(place(2)));
    assert_eq!(
        mir::Rvalue::Discriminant(local(3)).to_mmir(owner()),
        Rvalue::Discriminant(place(3))
    );
    assert_eq!(
        mir::Rvalue::CopyForDeref(local(4)).to_mmir(owner()),
        Rvalue::CopyForDeref(place(4))
    );
}

#[test]
fn rvalue_binary_keeps_operand_order() {
    let r = mir::Rvalue::BinaryOp(mir::BinOp::Sub, mir::Operand::Copy(local(1)), int_const(4));
    assert_eq!(
        r.to_mmir(owner()),
        Rvalue::BinaryOp(BinOp::Sub, Operand::Copy(place(1)), schema_int_const(4))
    );
}

#[test]
fn rvalue_nullary_and_unary() {
    assert_eq!(
        mir::Rvalue::NullaryOp(mir::NullOp::SizeOf).to_mmir(owner()),
        Rvalue::NullaryOp(NullOp::SizeOf)
    );
    assert_eq!(
        mir::Rvalue::NullaryOp(mir::NullOp::Other).to_mmir(owner()),
        Rvalue::NullaryOp(NullOp::Unknown)
    );
    assert_eq!(
        mir::Rvalue::UnaryOp(mir::UnOp::Neg, mir::Operand::Move(local(6))).to_mmir(owner()),
        Rvalue::UnaryOp(UnOp::Neg, Operand::Move(place(6)))
    );
}

#[test]
fn rvalue_with_a_type() {
    let r = mir::Rvalue::ShallowInitBox(mir::Operand::Move(local(1)), ty::Ty::Uint(ty::UintTy::U8));
    assert_eq!(
        r.to_mmir(owner()),
        Rvalue::ShallowInitBox(Operand::Move(place(1)), Box::new(Typ::U(8)))
    );
    let r = mir::Rvalue::WrapUnsafeBinder(mir::Operand::Copy(local(2)), ty::Ty::Other);
    assert_eq!(
        r.to_mmir(owner()),
        Rvalue::WrapUnsafeBinder(Operand::Copy(place(2)), Box::new(Typ::Unknown))
    );
}

#[test]
fn uncovered_rvalue_is_unknown() {
    assert_eq!(mir::Rvalue::Other.to_mmir(owner()), Rvalue::Unknown);
}

#[test]
fn rvalue_through_a_dereference() {
    let deref = mir::Place { local: 2, projection: vec![mir::PlaceElem::Deref] };
    let r = mir::Rvalue::BinaryOp(mir::BinOp::Add, mir::Operand::Copy(deref), int_const(4));
    assert_eq!(
        r.to_mmir(owner()),
        Rvalue::BinaryOp(
            BinOp::Add,
            Operand::Copy(Place { local: 2, proj: vec![Projection::Deref] }),
            schema_int_const(4)
        )
    );
}
