//! What transcoding guarantees, beyond the value it returns.
use crate::coherce::ty::{ty_const_mmir, ty_mmir};
use crate::coherce::Coherce;
use crate::collect::gathered;
use crate::host::mir;
use crate::host::span::{DefId, Span};
use crate::host::ty;
use crate::mir_types;
use crate::mir_view::{
    BodyView, OperandView, PlaceView, ProjectionView, RvalueView, StatementKindView, TypView,
};
use crate::narrow::low32;
use vstd::prelude::*;

verus! {

/// A place and its counterpart name the same locals.
proof fn lemma_place_locals(p: mir::Place, n: nat)
    ensures
        p.mmir().locals_below(n) == p.locals_below(n),
{
    let v = p.mmir();
    if v.locals_below(n) {
        assert forall|i: int| 0 <= i < p.projection@.len() implies #[trigger] p.projection@[i]
            .locals_below(n) by {
            assert(v.proj[i].locals_below(n));
        }
    }
}

/// An operand and its counterpart name the same locals.
proof fn lemma_operand_locals(op: mir::Operand, n: nat)
    ensures
        op.mmir().locals_below(n) == op.locals_below(n),
{
    match op {
        mir::Operand::Copy(place) => lemma_place_locals(place, n),
        mir::Operand::Move(place) => lemma_place_locals(place, n),
        mir::Operand::Constant(_) => {},
    }
}

/// An intrinsic and its counterpart name the same locals.
proof fn lemma_intrinsic_locals(intrinsic: mir::NonDivergingIntrinsic, n: nat)
    ensures
        intrinsic.mmir().locals_below(n) == intrinsic.locals_below(n),
{
    match intrinsic {
        mir::NonDivergingIntrinsic::Assume(op) => lemma_operand_locals(op, n),
        mir::NonDivergingIntrinsic::CopyNonOverlapping(copy) => {
            lemma_operand_locals(copy.src, n);
            lemma_operand_locals(copy.dst, n);
            lemma_operand_locals(copy.count, n);
        },
    }
}

/// A value expression and its counterpart name the same locals.
proof fn lemma_rvalue_locals(rvalue: mir::Rvalue, n: nat)
    ensures
        rvalue.mmir().locals_below(n) == rvalue.locals_below(n),
{
    match rvalue {
        mir::Rvalue::Use(op) => lemma_operand_locals(op, n),
        mir::Rvalue::Repeat(op, _) => lemma_operand_locals(op, n),
        mir::Rvalue::Ref(_, place) => lemma_place_locals(place, n),
        mir::Rvalue::RawPtr(_, place) => lemma_place_locals(place, n),
        mir::Rvalue::Len(place) => lemma_place_locals(place, n),
        mir::Rvalue::BinaryOp(_, lhs, rhs) => {
            lemma_operand_locals(lhs, n);
            lemma_operand_locals(rhs, n);
        },
        mir::Rvalue::NullaryOp(_) => {},
        mir::Rvalue::UnaryOp(_, arg) => lemma_operand_locals(arg, n),
        mir::Rvalue::Discriminant(place) => lemma_place_locals(place, n),
        mir::Rvalue::ShallowInitBox(op, _) => lemma_operand_locals(op, n),
        mir::Rvalue::CopyForDeref(place) => lemma_place_locals(place, n),
        mir::Rvalue::WrapUnsafeBinder(op, _) => lemma_operand_locals(op, n),
        mir::Rvalue::Other => {},
    }
}

/// A check and its counterpart name the same locals.
proof fn lemma_assert_message_locals(msg: mir::AssertMessage, n: nat)
    ensures
        msg.mmir().locals_below(n) == msg.locals_below(n),
{
    match msg {
        mir::AssertMessage::BoundsCheck { len, index } => {
            lemma_operand_locals(len, n);
            lemma_operand_locals(index, n);
        },
        mir::AssertMessage::Overflow(_, lhs, rhs) => {
            lemma_operand_locals(lhs, n);
            lemma_operand_locals(rhs, n);
        },
        mir::AssertMessage::OverflowNeg(op) => lemma_operand_locals(op, n),
        mir::AssertMessage::DivisionByZero(op) => lemma_operand_locals(op, n),
        mir::AssertMessage::RemainderByZero(op) => lemma_operand_locals(op, n),
        mir::AssertMessage::MisalignedPointerDereference { required, found } => {
            lemma_operand_locals(required, n);
            lemma_operand_locals(found, n);
        },
        mir::AssertMessage::NullPointerDereference => {},
        mir::AssertMessage::Other => {},
    }
}

/// A plain statement and its counterpart name the same locals.
proof fn lemma_statement_kind_locals(kind: mir::StatementKind, n: nat)
    ensures
        kind.mmir().locals_below(n) == kind.locals_below(n),
{
    match kind {
        mir::StatementKind::Assign(place, rvalue) => {
            lemma_place_locals(place, n);
            lemma_rvalue_locals(rvalue, n);
        },
        mir::StatementKind::SetDiscriminant { place, variant_index } => {
            lemma_place_locals(place, n)
        },
        mir::StatementKind::Deinit(place) => lemma_place_locals(place, n),
        mir::StatementKind::Retag(_, place) => lemma_place_locals(place, n),
        mir::StatementKind::PlaceMention(place) => lemma_place_locals(place, n),
        mir::StatementKind::Intrinsic(intrinsic) => lemma_intrinsic_locals(intrinsic, n),
        _ => {},
    }
}

/// A terminator and its counterpart name the same locals.
proof fn lemma_terminator_kind_locals(kind: mir::TerminatorKind, n: nat)
    ensures
        kind.mmir().locals_below(n) == kind.locals_below(n),
{
    match kind {
        mir::TerminatorKind::SwitchInt { discr, targets } => lemma_operand_locals(discr, n),
        mir::TerminatorKind::Drop { place, target, unwind, replace, drop } => {
            lemma_place_locals(place, n)
        },
        mir::TerminatorKind::Call { func, args, destination, target, unwind, fn_span } => {
            lemma_operand_locals(func, n);
            lemma_place_locals(destination, n);
            let info = kind.mmir()->Call_0;
            assert forall|i: int| 0 <= i < args@.len() implies #[trigger] info.args[i]
                .locals_below(n) == args@[i].node.locals_below(n) by {
                lemma_operand_locals(args@[i].node, n);
            }
            if info.locals_below(n) {
                assert forall|i: int| 0 <= i < args@.len() implies (#[trigger] args@[i])
                    .node.locals_below(n) by {
                    assert(info.args[i].locals_below(n));
                }
            }
        },
        mir::TerminatorKind::Assert { cond, expected, msg, target, unwind } => {
            lemma_operand_locals(cond, n);
            lemma_assert_message_locals(msg, n);
        },
        _ => {},
    }
}

/// The statement at position `i` of a transcoded block is the counterpart
/// of the block's statement `i`, or, one past them, of its terminator.
proof fn lemma_block_statement(b: mir::BasicBlockData, i: int)
    requires
        0 <= i < b.mmir().statements.len(),
    ensures
        i < b.statements@.len() ==> b.mmir().statements[i] == b.statements@[i].mmir(),
        i >= b.statements@.len() ==> i == b.statements@.len() && b.terminator is Some
            && b.mmir().statements[i] == b.terminator->Some_0.mmir(),
{
}

/// A block and its counterpart name the same locals.
proof fn lemma_block_locals(b: mir::BasicBlockData, n: nat)
    ensures
        b.mmir().locals_below(n) == b.locals_below(n),
{
    let v = b.mmir();
    assert forall|i: int| 0 <= i < b.statements@.len() implies #[trigger] v.statements[i]
        .skind.locals_below(n) == b.statements@[i].kind.locals_below(n) by {
        lemma_block_statement(b, i);
        lemma_statement_kind_locals(b.statements@[i].kind, n);
    }
    if b.terminator is Some {
        let last = b.statements@.len() as int;
        let term = b.terminator->Some_0;
        lemma_block_statement(b, last);
        lemma_terminator_kind_locals(term.kind, n);
        assert(v.statements[last].skind.locals_below(n) == term.kind.locals_below(n));
    }
    if b.locals_below(n) {
        assert forall|i: int| 0 <= i < v.statements.len() implies #[trigger] v.statements[i]
            .skind.locals_below(n) by {
            lemma_block_statement(b, i);
        }
    }
    if v.locals_below(n) {
        assert forall|i: int| 0 <= i < b.statements@.len() implies (#[trigger] b.statements@[i])
            .kind.locals_below(n) by {
            assert(v.statements[i].skind.locals_below(n));
        }
    }
}

/// Transcoding keeps the locals that places name, and the number of
/// declared locals: a place of the result names an undeclared local exactly
/// if a place of the body does. So where the places of a body name declared
/// locals, so do the places of the result.
pub proof fn lemma_locals_stay_in_range(body: mir::Body)
    ensures
        body.mmir().local_decls.len() == body.local_decls.raw@.len(),
        body.mmir().locals_in_range() == body.locals_in_range(),
        body.locals_in_range() ==> body.mmir().locals_in_range(),
{
    let v = body.mmir();
    let blocks = body.basic_blocks.basic_blocks.raw@;
    let infos = body.var_debug_info@;
    let n = body.local_decls.raw@.len();
    assert forall|i: int| 0 <= i < blocks.len() implies #[trigger] v.stmts[i].locals_below(n)
        == blocks[i].locals_below(n) by {
        lemma_block_locals(blocks[i], n);
    }
    assert forall|i: int| 0 <= i < infos.len() implies #[trigger] v.var_debug_info[i]
        .locals_below(n) == infos[i].locals_below(n) by {
        match infos[i].value {
            mir::VarDebugInfoContents::Place(place) => lemma_place_locals(place, n),
            mir::VarDebugInfoContents::Const(_) => {},
        }
    }
    if v.locals_in_range() {
        assert forall|i: int| 0 <= i < blocks.len() implies (#[trigger] blocks[i]).locals_below(
            n,
        ) by {
            assert(v.stmts[i].locals_below(n));
        }
        assert forall|i: int| 0 <= i < infos.len() implies (#[trigger] infos[i]).locals_below(
            n,
        ) by {
            assert(v.var_debug_info[i].locals_below(n));
        }
    }
}

/// A plain statement never transcodes to a statement that ends a block.
pub proof fn lemma_statement_is_no_terminator(kind: mir::StatementKind)
    ensures
        !kind.mmir().is_terminator(),
{
}

/// In a transcoded block, a statement that ends a block stands last: the
/// statements before the last come from plain statements.
pub proof fn lemma_terminator_is_last(b: mir::BasicBlockData)
    ensures
        b.mmir().terminator_last(),
        b.terminator matches Some(term) ==> b.mmir().statements.len() > 0
            && b.mmir().statements.last() == term.mmir(),
{
    let v = b.mmir();
    assert forall|i: int|
        0 <= i < v.statements.len() && (#[trigger] v.statements[i]).skind.is_terminator()
        implies i == v.statements.len() - 1 by {
        lemma_block_statement(b, i);
        if i < b.statements@.len() {
            lemma_statement_is_no_terminator(b.statements@[i].kind);
        }
    }
}

/// In every block of a transcoded body, a statement that ends a block
/// stands last.
pub proof fn lemma_terminators_are_last(body: mir::Body)
    ensures
        body.mmir().terminators_last(),
{
    let v = body.mmir();
    let blocks = body.basic_blocks.basic_blocks.raw;
    assert forall|i: int| 0 <= i < v.stmts.len() implies #[trigger] v.stmts[i]
        .terminator_last() by {
        lemma_terminator_is_last(blocks@[i]);
    }
}

/// A transcoded branch keeps every target and every value, the values in
/// their low 32 bits. So where the branch is as the compiler leaves one,
/// with one target more than values, the result has one target more than
/// values too, `values[i]` routes to `targets[i]`, and the last target is
/// the one taken when no value matches.
pub proof fn lemma_targets_keep_fallback(t: mir::SwitchTargets)
    ensures
        t.mmir().targets == t.targets@,
        t.mmir().values.len() == t.values@.len(),
        forall|i: int|
            0 <= i < t.values@.len() ==> t.mmir().values[i] == low32(t.values@[i] as int),
        t.mmir().has_fallback() == t.wf(),
        t.wf() ==> t.mmir().targets.last() == t.targets@.last(),
{
}

/// Every branch in the transcoded form of a body whose branches have one
/// target more than values has one target more than values.
pub proof fn lemma_all_targets_keep_fallback(body: mir::Body)
    requires
        body.targets_wf(),
    ensures
        body.mmir().targets_have_fallback(),
{
    let v = body.mmir();
    let blocks = body.basic_blocks.basic_blocks.raw;
    assert forall|i: int| 0 <= i < v.stmts.len() implies #[trigger] v.stmts[i]
        .targets_have_fallback() by {
        let b = blocks@[i];
        assert(b.targets_wf());
        assert forall|j: int|
            0 <= j < b.mmir().statements.len() implies #[trigger] b.mmir().statements[j]
            .skind.targets_have_fallback() by {
            lemma_block_statement(b, j);
            if j >= b.statements@.len() {
                match b.terminator->Some_0.kind {
                    mir::TerminatorKind::SwitchInt { discr, targets } => {
                        lemma_targets_keep_fallback(targets);
                    },
                    _ => {},
                }
            }
        }
    }
}

/// A transcoded source range is ordered exactly if the one it comes from is
/// well-formed.
pub proof fn lemma_span_order(s: Span)
    ensures
        s.mmir().ordered() == s.wf(),
{
}

/// Every source range in the transcoded form of a block whose source
/// ranges are well-formed is ordered.
proof fn lemma_block_spans(b: mir::BasicBlockData)
    requires
        b.spans_wf(),
    ensures
        b.mmir().spans_ordered(),
{
    let v = b.mmir();
    assert forall|i: int| 0 <= i < v.statements.len() implies #[trigger] v.statements[i]
        .spans_ordered() by {
        lemma_block_statement(b, i);
    }
}

/// Every source range in the transcoded form of a body whose source ranges
/// are well-formed is ordered.
pub proof fn lemma_spans_stay_ordered(body: mir::Body)
    requires
        body.spans_wf(),
    ensures
        body.mmir().spans_ordered(),
{
    let v = body.mmir();
    let blocks = body.basic_blocks.basic_blocks.raw;
    assert forall|i: int| 0 <= i < v.stmts.len() implies #[trigger] v.stmts[i]
        .spans_ordered() by {
        lemma_block_spans(blocks@[i]);
    }
}

/// The transcoded form of a body that is as the compiler leaves one is a
/// well-formed schema body.
pub proof fn lemma_well_formed_stays_well_formed(body: mir::Body)
    requires
        body.wf(),
    ensures
        body.mmir().wf(),
{
    lemma_locals_stay_in_range(body);
    lemma_terminators_are_last(body);
    lemma_spans_stay_ordered(body);
    lemma_all_targets_keep_fallback(body);
}

/// Transcoding is a function of the body: whatever two calls on one body
/// return, for whichever owners, has one deep view.
pub proof fn lemma_transcoding_is_stable(
    body: mir::Body,
    owner: DefId,
    other_owner: DefId,
    first: mir_types::Body,
    second: mir_types::Body,
)
    requires
        call_ensures(<mir::Body as Coherce>::to_mmir, (&body, owner), first),
        call_ensures(<mir::Body as Coherce>::to_mmir, (&body, other_owner), second),
    ensures
        first.deep_view() == second.deep_view(),
        first.deep_view() == body.mmir(),
{
}

/// What a run gathers is a function of the bodies it hands over and of
/// their order: the run with one more body at its end gathers what the run
/// gathered, and the counterpart of that body behind it. Two runs that hand
/// over the same bodies in the same order gather the same.
pub proof fn lemma_gathered_step(run: Seq<mir::Body>, body: mir::Body)
    ensures
        gathered(run.push(body)) == gathered(run).push(body.mmir()),
        gathered(Seq::<mir::Body>::empty()) == Seq::<BodyView>::empty(),
        gathered(run).len() == run.len(),
        forall|i: int| 0 <= i < run.len() ==> gathered(run)[i] == run[i].mmir(),
{
    assert(gathered(run.push(body)) =~= gathered(run).push(body.mmir()));
    assert(gathered(Seq::<mir::Body>::empty()) =~= Seq::<BodyView>::empty());
}

/// The declared locals keep their positions, their types and whether they
/// may be written: a mutable local of a 32-bit signed integer stays one, and
/// a local that holds a mutable raw pointer to such an integer stays one.
pub proof fn lemma_locals_keep_type_and_mutability(body: mir::Body, x: int, p: int)
    requires
        0 <= x < body.local_decls.raw@.len(),
        0 <= p < body.local_decls.raw@.len(),
        body.local_decls.raw@[x].ty == ty::Ty::Int(ty::IntTy::I32),
        body.local_decls.raw@[x].mutability == ty::Mutability::Mut,
        body.local_decls.raw@[p].ty == ty::Ty::RawPtr(
            Box::new(ty::Ty::Int(ty::IntTy::I32)),
            ty::Mutability::Mut,
        ),
    ensures
        body.mmir().local_decls.len() == body.local_decls.raw@.len(),
        body.mmir().local_decls[x].typ == TypView::I(32),
        body.mmir().local_decls[x].mutability == mir_types::Mutability::Mut,
        body.mmir().local_decls[p].typ == TypView::RawPtr(
            Box::new(TypView::I(32)),
            mir_types::Mutability::Mut,
        ),
{
    reveal_with_fuel(ty_mmir, 2);
}

/// A block that makes a mutable raw pointer to a local, later adds a
/// constant to what the pointer points to, and then returns, transcodes to
/// a block that does the same at the same positions: the assignment of the
/// pointer, the assignment through it of the sum of what it points to and
/// the constant, and the return as the last statement.
pub proof fn lemma_raw_pointer_update(
    b: mir::BasicBlockData,
    make: int,
    update: int,
    x: mir::Place,
    p: mir::Place,
    through: mir::Place,
    amount: mir::ConstOperand,
)
    requires
        0 <= make < update < b.statements@.len(),
        through.local == p.local,
        through.projection@ == seq![mir::PlaceElem::Deref],
        b.statements@[make].kind == mir::StatementKind::Assign(
            p,
            mir::Rvalue::RawPtr(mir::RawPtrKind::Mut, x),
        ),
        b.statements@[update].kind == mir::StatementKind::Assign(
            through,
            mir::Rvalue::BinaryOp(
                mir::BinOp::Add,
                mir::Operand::Copy(through),
                mir::Operand::Constant(amount),
            ),
        ),
        b.terminator matches Some(term) && term.kind == mir::TerminatorKind::Return,
    ensures
        b.mmir().statements.len() == b.statements@.len() + 1,
        b.mmir().statements[make].skind == StatementKindView::Assign(
            p.mmir(),
            RvalueView::RawPtr(mir_types::Mutability::Mut, x.mmir()),
        ),
        b.mmir().statements[update].skind == StatementKindView::Assign(
            through.mmir(),
            RvalueView::BinaryOp(
                mir_types::BinOp::Add,
                OperandView::Copy(through.mmir()),
                OperandView::Constant(amount.mmir()),
            ),
        ),
        b.mmir().statements.last().skind == StatementKindView::Return,
        x.mmir().local == x.local,
        p.mmir().local == p.local,
        through.mmir() == (PlaceView { local: p.local, proj: seq![ProjectionView::Deref] }),
{
    lemma_block_statement(b, make);
    lemma_block_statement(b, update);
    lemma_block_statement(b, b.statements@.len() as int);
    assert(through.mmir().proj =~= seq![ProjectionView::Deref]);
}

/// `Unknown` stands exactly where the compiler's node has a shape that the
/// schema does not cover.
pub proof fn lemma_unknown_marks_uncovered(
    t: ty::Ty,
    c: ty::Const,
    operand: mir::ConstOperand,
    value: mir::ConstValue,
    null_op: mir::NullOp,
    rvalue: mir::Rvalue,
    msg: mir::AssertMessage,
    local_info: mir::LocalInfo,
    statement: mir::StatementKind,
    terminator: mir::TerminatorKind,
)
    ensures
        ty_mmir(t) is Unknown <==> t is Other,
        ty_const_mmir(c) is Unknown <==> c is Other,
        operand.mmir() is Unknown <==> operand.const_ is Other,
        value.mmir() is Unknown <==> value is Other,
        null_op.mmir() is Unknown <==> null_op is Other,
        rvalue.mmir() is Unknown <==> rvalue is Other,
        msg.mmir() is Unknown <==> msg is Other,
        local_info.mmir() is Unknown <==> local_info is Other,
        statement.mmir() is Unknown <==> statement is Other,
        terminator.mmir() is Unknown <==> terminator is Other,
{
}

} // verus!
