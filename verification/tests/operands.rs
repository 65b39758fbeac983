use mmir::coherce::Coherce;
use mmir::host::mir;
use mmir::host::span::DefId;
use mmir::host::ty;
use mmir::mir_types::{Const, ConstVal, Mutability, Operand, Place, Projection, Typ};

fn owner() -> DefId {
    DefId { krate: 0, index: 7 }
}

fn local(n: u32) -> mir::Place {
    mir::Place { local: n, projection: vec![] }
}

#[test]
fn integer_scalar_of_four_bytes_is_kept() {
    let v = mir::ConstValue::Scalar(mir::Scalar::Int(mir::ScalarInt { data: 5, size: 4 }));
    assert_eq!(v.to_mmir(owner()), ConstVal::ScalarInt(5));
    let v = mir::ConstValue::Scalar(mir::Scalar::Int(mir::ScalarInt {
        data: 0xffff_ffff,
        size: 4,
    }));
    assert_eq!(v.to_mmir(owner()), ConstVal::ScalarInt(0xffff_ffff));
}

#[test]
fn integer_scalar_of_any_size_keeps_low_32_bits() {
    let v = mir::ConstValue::Scalar(mir::Scalar::Int(mir::ScalarInt { data: 1, size: 1 }));
    assert_eq!(v.to_mmir(owner()), ConstVal::ScalarInt(1));
    let v = mir::ConstValue::Scalar(mir::Scalar::Int(mir::ScalarInt {
        data: 0x0000_0001_0000_0004,
        size: 8,
    }));
    assert_eq!(v.to_mmir(owner()), ConstVal::ScalarInt(4));
    let v = mir::ConstValue::Scalar(mir::Scalar::Int(mir::ScalarInt { data: u128::MAX, size: 16 }));
    assert_eq!(v.to_mmir(owner()), ConstVal::ScalarInt(0xffff_ffff));
}

#[test]
fn pointer_scalar_keeps_allocation_offset_and_size() {
    let v = mir::ConstValue::Scalar(mir::Scalar::Ptr(
        mir::Pointer { alloc_id: 12, offset: 16 },
        8,
    ));
    assert_eq!(v.to_mmir(owner()), ConstVal::ScalarPtr(12, 16, 8));
}

#[test]
fn pointer_scalar_narrows_allocation_and_offset() {
    let v = mir::ConstValue::Scalar(mir::Scalar::Ptr(
        mir::Pointer { alloc_id: 0x5_0000_0002, offset: 0x1_0000_0000 },
        4,
    ));
    assert_eq!(v.to_mmir(owner()), ConstVal::ScalarPtr(2, 0, 4));
}

#[test]
fn zero_sized_value() {
    assert_eq!(mir::ConstValue::ZeroSized.to_mmir(owner()), ConstVal::ZeroSized);
}

#[test]
fn slice_value_keeps_count_and_mutability() {
    let v = mir::ConstValue::Slice { mutability: ty::Mutability::Not, meta: 11 };
    assert_eq!(v.to_mmir(owner()), ConstVal::Slice(11, Mutability::Not));
    let v = mir::ConstValue::Slice { mutability: ty::Mutability::Mut, meta: 0x2_0000_0003 };
    assert_eq!(v.to_mmir(owner()), ConstVal::Slice(3, Mutability::Mut));
}

#[test]
fn indirect_value_keeps_allocation_and_offset() {
    let v = mir::ConstValue::Indirect { alloc_id: 4, offset: 24 };
    assert_eq!(v.to_mmir(owner()), ConstVal::Indirect(4, 24));
    let v = mir::ConstValue::Indirect { alloc_id: u64::MAX, offset: 0x1_0000_0001 };
    assert_eq!(v.to_mmir(owner()), ConstVal::Indirect(0xffff_ffff, 1));
}

#[test]
fn uncovered_value_is_unknown() {
    assert_eq!(mir::ConstValue::Other.to_mmir(owner()), ConstVal::Unknown);
}

#[test]
fn constant_with_type_maps_both() {
    let c = mir::ConstOperand {
        const_: mir::Const::Ty(ty::Ty::Uint(ty::UintTy::Usize), ty::Const::Param { index: 1 }),
    };
    assert_eq!(
        c.to_mmir(owner()),
        Const::Ty(Box::new(Typ::USize), Box::new(Const::Param(1)))
    );
}

#[test]
fn evaluated_constant_maps_value_and_type() {
    let c = mir::ConstOperand {
        const_: mir::Const::Val(
            mir::ConstValue::Scalar(mir::Scalar::Int(mir::ScalarInt { data: 4, size: 4 })),
            ty::Ty::Int(ty::IntTy::I32),
        ),
    };
    assert_eq!(
        c.to_mmir(owner()),
        Const::Val(ConstVal::ScalarInt(4), Box::new(Typ::I(32)))
    );
}

#[test]
fn uncovered_constant_is_unknown() {
    let c = mir::ConstOperand { const_: mir::Const::Other };
    assert_eq!(c.to_mmir(owner()), Const::Unknown);
}

#[test]
fn unknown_type_inside_an_evaluated_constant() {
    let c = mir::ConstOperand {
        const_: mir::Const::Val(mir::ConstValue::ZeroSized, ty::Ty::Other),
    };
    assert_eq!(c.to_mmir(owner()), Const::Val(ConstVal::ZeroSized, Box::new(Typ::Unknown)));
}

#[test]
fn projections_keep_their_shape() {
    assert_eq!(mir::PlaceElem::Deref.to_mmir(owner()), Projection::Deref);
    assert_eq!(
        mir::PlaceElem::Field(2, ty::Ty::Bool).to_mmir(owner()),
        Projection::Field(2, Box::new(Typ::Bool))
    );
    assert_eq!(mir::PlaceElem::Index(9).to_mmir(owner()), Projection::Index(9));
    assert_eq!(
        mir::PlaceElem::ConstantIndex { offset: 1, min_length: 3, from_end: true }.to_mmir(owner()),
        Projection::ConstantIndex(1, 3, true)
    );
    assert_eq!(
        mir::PlaceElem::Subslice { from: 2, to: 5, from_end: false }.to_mmir(owner()),
        Projection::Subslice(2, 5, false)
    );
    assert_eq!(mir::PlaceElem::Downcast(1).to_mmir(owner()), Projection::Downcast(1));
    assert_eq!(
        mir::PlaceElem::OpaqueCast(ty::Ty::Char).to_mmir(owner()),
        Projection::OpaqueCast(Box::new(Typ::Char))
    );
    assert_eq!(
        mir::PlaceElem::UnwrapUnsafeBinder(ty::Ty::Str).to_mmir(owner()),
        Projection::UnwrapUnsafeBinder(Box::new(Typ::Str))
    );
    assert_eq!(
        mir::PlaceElem::Subtype(ty::Ty::Other).to_mmir(owner()),
        Projection::Subtype(Box::new(Typ::Unknown))
    );
}

#[test]
fn projection_offsets_keep_low_32_bits() {
    assert_eq!(
        mir::PlaceElem::ConstantIndex {
            offset: 0x1_0000_0002,
            min_length: 0x3_0000_0000,
            from_end: false
        }
        .to_mmir(owner()),
        Projection::ConstantIndex(2, 0, false)
    );
    assert_eq!(
        mir::PlaceElem::Subslice { from: u64::MAX, to: 0x1_0000_0009, from_end: true }
            .to_mmir(owner()),
        Projection::Subslice(0xffff_ffff, 9, true)
    );
}

#[test]
fn place_without_projections() {
    assert_eq!(local(3).to_mmir(owner()), Place { local: 3, proj: vec![] });
}

#[test]
fn place_maps_projections_in_order() {
    let p = mir::Place {
        local: 1,
        projection: vec![
            mir::PlaceElem::Deref,
            mir::PlaceElem::Field(0, ty::Ty::Int(ty::IntTy::I64)),
            mir::PlaceElem::Index(4),
        ],
    };
    assert_eq!(
        p.to_mmir(owner()),
        Place {
            local: 1,
            proj: vec![
                Projection::Deref,
                Projection::Field(0, Box::new(Typ::I(64))),
                Projection::Index(4),
            ],
        }
    );
}

#[test]
fn operands_keep_how_they_read() {
    assert_eq!(
        mir::Operand::Copy(local(1)).to_mmir(owner()),
        Operand::Copy(Place { local: 1, proj: vec![] })
    );
    assert_eq!(
        mir::Operand::Move(local(2)).to_mmir(owner()),
        Operand::Move(Place { local: 2, proj: vec![] })
    );
    let c = mir::Operand::Constant(mir::ConstOperand {
        const_: mir::Const::Val(mir::ConstValue::ZeroSized, ty::Ty::Tuple(vec![])),
    });
    assert_eq!(
        c.to_mmir(owner()),
        Operand::Constant(Box::new(Const::Val(ConstVal::ZeroSized, Box::new(Typ::Tuple(vec![])))))
    );
}

#[test]
fn list_maps_items_in_order() {
    let places = vec![local(5), local(0), local(2)];
    assert_eq!(
        places.to_mmir(owner()),
        vec![
            Place { local: 5, proj: vec![] },
            Place { local: 0, proj: vec![] },
            Place { local: 2, proj: vec![] },
        ]
    );
    let none: Vec<mir::Place> = vec![];
    assert_eq!(none.to_mmir(owner()), vec![]);
}

#[test]
fn optional_node_stays_optional() {
    let some = Some(local(8));
    assert_eq!(some.to_mmir(owner()), Some(Place { local: 8, proj: vec![] }));
    let none: Option<mir::Place> = None;
    assert_eq!(none.to_mmir(owner()), None);
}

#[test]
fn owned_node_stays_owned() {
    let boxed = Box::new(ty::Ty::Bool);
    assert_eq!(boxed.to_mmir(owner()), Box::new(Typ::Bool));
}
