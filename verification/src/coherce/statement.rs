//! Statements, terminators and blocks.
use crate::coherce::Coherce;
use crate::host::mir;
use crate::host::span::DefId;
use crate::laws::lemma_terminator_is_last;
use crate::mir_types;
use crate::mir_view::{
    AssertInfoView, AssertMessageView, BasicBlockView, CallInfoView, DropInfoView,
    StatementKindView, StatementView, TargetsView,
};
use crate::narrow::{low32, narrow_u128};
use vstd::prelude::*;

verus! {

/// A branch keeps all its targets, in order, and the low 32 bits of each
/// value. `values[i]` routes to `targets[i]`; the target that follows them,
/// the one taken when no value matches, stays the last of the targets.
impl Coherce for mir::SwitchTargets {
    type T = mir_types::Targets;

    open spec fn mmir(&self) -> TargetsView {
        TargetsView {
            targets: self.targets@,
            values: Seq::new(self.values@.len(), |i: int| low32(self.values@[i] as int)),
        }
    }

    fn to_mmir(&self, def_id: DefId) -> (r: mir_types::Targets)
        ensures
            r.deep_view() == self.mmir(),
            r.targets@ == self.targets@,
            r.values@.len() == self.values@.len(),
            forall|i: int|
                0 <= i < r.values@.len() ==> r.values@[i] == low32(self.values@[i] as int),
            self.wf() ==> r.targets@.len() == r.values@.len() + 1 && r.targets@.last()
                == self.targets@.last(),
    {
        let mut targets: Vec<u32> = Vec::new();
        let mut i: usize = 0;
        while i < self.targets.len()
            invariant
                i <= self.targets.len(),
                targets@.len() == i,
                forall|j: int| 0 <= j < i ==> targets@[j] == self.targets@[j],
            decreases self.targets.len() - i,
        {
            targets.push(self.targets[i]);
            i += 1;
        }
        let mut values: Vec<u32> = Vec::new();
        let mut k: usize = 0;
        while k < self.values.len()
            invariant
                k <= self.values.len(),
                values@.len() == k,
                forall|j: int| 0 <= j < k ==> values@[j] == low32(self.values@[j] as int),
            decreases self.values.len() - k,
        {
            values.push(narrow_u128(self.values[k]));
            k += 1;
        }
        assert(targets@ =~= self.targets@);
        assert(values@ =~= self.mmir().values);
        mir_types::Targets { targets, values }
    }
}

/// A check keeps its shape and maps its operands. A check the schema does
/// not cover is `Unknown`.
impl Coherce for mir::AssertMessage {
    type T = mir_types::AssertMessage;

    open spec fn mmir(&self) -> AssertMessageView {
        match self {
            mir::AssertMessage::BoundsCheck { len, index } => AssertMessageView::BoundsCheck(
                len.mmir(),
                index.mmir(),
            ),
            mir::AssertMessage::Overflow(op, lhs, rhs) => AssertMessageView::Overflow(
                op.mmir(),
                lhs.mmir(),
                rhs.mmir(),
            ),
            mir::AssertMessage::OverflowNeg(op) => AssertMessageView::OverflowNeg(op.mmir()),
            mir::AssertMessage::DivisionByZero(op) => AssertMessageView::DivisionByZero(
                op.mmir(),
            ),
            mir::AssertMessage::RemainderByZero(op) => AssertMessageView::RemainderByZero(
                op.mmir(),
            ),
            mir::AssertMessage::MisalignedPointerDereference { required, found } => {
                AssertMessageView::MisalignedPointerDereference(required.mmir(), found.mmir())
            },
            mir::AssertMessage::NullPointerDereference => {
                AssertMessageView::NullPointerDereference
            },
            mir::AssertMessage::Other => AssertMessageView::Unknown,
        }
    }

    fn to_mmir(&self, def_id: DefId) -> (r: mir_types::AssertMessage)
        ensures
            r.deep_view() == self.mmir(),
    {
        match self {
            mir::AssertMessage::BoundsCheck { len, index } => {
                mir_types::AssertMessage::BoundsCheck(len.to_mmir(def_id), index.to_mmir(def_id))
            },
            mir::AssertMessage::Overflow(op, lhs, rhs) => mir_types::AssertMessage::Overflow(
                op.to_mmir(def_id),
                lhs.to_mmir(def_id),
                rhs.to_mmir(def_id),
            ),
            mir::AssertMessage::OverflowNeg(op) => mir_types::AssertMessage::OverflowNeg(
                op.to_mmir(def_id),
            ),
            mir::AssertMessage::DivisionByZero(op) => mir_types::AssertMessage::DivisionByZero(
                op.to_mmir(def_id),
            ),
            mir::AssertMessage::RemainderByZero(op) => mir_types::AssertMessage::RemainderByZero(
                op.to_mmir(def_id),
            ),
            mir::AssertMessage::MisalignedPointerDereference { required, found } => {
                mir_types::AssertMessage::MisalignedPointerDereference(
                    required.to_mmir(def_id),
                    found.to_mmir(def_id),
                )
            },
            mir::AssertMessage::NullPointerDereference => {
                mir_types::AssertMessage::NullPointerDereference
            },
            mir::AssertMessage::Other => mir_types::AssertMessage::Unknown,
        }
    }
}

impl Coherce for mir::UnwindAction {
    type T = mir_types::UnwindAction;

    open spec fn mmir(&self) -> mir_types::UnwindAction {
        match self {
            mir::UnwindAction::Continue => mir_types::UnwindAction::Continue,
            mir::UnwindAction::Unreachable => mir_types::UnwindAction::Unreachable,
            mir::UnwindAction::Terminate => mir_types::UnwindAction::Terminate,
            mir::UnwindAction::Cleanup(bb) => mir_types::UnwindAction::Cleanup(*bb),
        }
    }

    fn to_mmir(&self, _def_id: DefId) -> (r: mir_types::UnwindAction)
        ensures
            r.deep_view() == self.mmir(),
    {
        match self {
            mir::UnwindAction::Continue => mir_types::UnwindAction::Continue,
            mir::UnwindAction::Unreachable => mir_types::UnwindAction::Unreachable,
            mir::UnwindAction::Terminate => mir_types::UnwindAction::Terminate,
            mir::UnwindAction::Cleanup(bb) => mir_types::UnwindAction::Cleanup(*bb),
        }
    }
}

/// A terminator becomes a statement kind of its own shape. A call maps its
/// arguments in order and keeps an absent target absent. A terminator the
/// schema does not cover is `Unknown`.
impl Coherce for mir::TerminatorKind {
    type T = mir_types::StatementKind;

    open spec fn mmir(&self) -> StatementKindView {
        match self {
            mir::TerminatorKind::Goto { target } => StatementKindView::Goto(*target),
            mir::TerminatorKind::SwitchInt { discr, targets } => StatementKindView::SwitchInt(
                discr.mmir(),
                targets.mmir(),
            ),
            mir::TerminatorKind::UnwindResume => StatementKindView::UnwindResume,
            mir::TerminatorKind::UnwindTerminate => StatementKindView::UnwindTerminate,
            mir::TerminatorKind::Return => StatementKindView::Return,
            mir::TerminatorKind::Unreachable => StatementKindView::Unreachable,
            mir::TerminatorKind::Drop { place, target, unwind, replace, drop } => {
                StatementKindView::Drop(
                    DropInfoView {
                        place: place.mmir(),
                        target: *target,
                        unwind: unwind.mmir(),
                        replace: *replace,
                        drop: *drop,
                    },
                )
            },
            mir::TerminatorKind::Call { func, args, destination, target, unwind, fn_span } => {
                StatementKindView::Call(
                    CallInfoView {
                        func: func.mmir(),
                        args: Seq::new(args@.len(), |i: int| args@[i].node.mmir()),
                        dest: destination.mmir(),
                        target: *target,
                        unwind: unwind.mmir(),
                        span: fn_span.mmir(),
                    },
                )
            },
            mir::TerminatorKind::Assert { cond, expected, msg, target, unwind } => {
                StatementKindView::Assert(
                    AssertInfoView {
                        cond: cond.mmir(),
                        expected: *expected,
                        msg: msg.mmir(),
                        target: *target,
                        unwind: unwind.mmir(),
                    },
                )
            },
            mir::TerminatorKind::CoroutineDrop => StatementKindView::CoroutineDrop,
            mir::TerminatorKind::Other => StatementKindView::Unknown,
        }
    }

    fn to_mmir(&self, def_id: DefId) -> (r: mir_types::StatementKind)
        ensures
            r.deep_view() == self.mmir(),
    {
        match self {
            mir::TerminatorKind::Goto { target } => mir_types::StatementKind::Goto(*target),
            mir::TerminatorKind::SwitchInt { discr, targets } => {
                mir_types::StatementKind::SwitchInt(
                    discr.to_mmir(def_id),
                    Box::new(targets.to_mmir(def_id)),
                )
            },
            mir::TerminatorKind::UnwindResume => mir_types::StatementKind::UnwindResume,
            mir::TerminatorKind::Return => mir_types::StatementKind::Return,
            mir::TerminatorKind::Unreachable => mir_types::StatementKind::Unreachable,
            mir::TerminatorKind::UnwindTerminate => mir_types::StatementKind::UnwindTerminate,
            mir::TerminatorKind::CoroutineDrop => mir_types::StatementKind::CoroutineDrop,
            mir::TerminatorKind::Drop { place, target, unwind, replace, drop } => {
                mir_types::StatementKind::Drop(
                    mir_types::DropInfo {
                        place: place.to_mmir(def_id),
                        target: *target,
                        unwind: unwind.to_mmir(def_id),
                        replace: *replace,
                        drop: *drop,
                    },
                )
            },
            mir::TerminatorKind::Call { func, args, destination, target, unwind, fn_span } => {
                let mut out: Vec<mir_types::Operand> = Vec::new();
                let mut i: usize = 0;
                while i < args.len()
                    invariant
                        i <= args.len(),
                        out@.len() == i,
                        forall|j: int|
                            0 <= j < i ==> (#[trigger] out@[j]).deep_view()
                                == args@[j].node.mmir(),
                    decreases args.len() - i,
                {
                    let arg = args[i].node.to_mmir(def_id);
                    out.push(arg);
                    i += 1;
                }
                assert(out.deep_view() =~= Seq::new(
                    args@.len(),
                    |i: int| args@[i].node.mmir(),
                ));
                mir_types::StatementKind::Call(
                    mir_types::CallInfo {
                        func: func.to_mmir(def_id),
                        args: out,
                        dest: destination.to_mmir(def_id),
                        target: *target,
                        unwind: unwind.to_mmir(def_id),
                        span: fn_span.to_mmir(def_id),
                    },
                )
            },
            mir::TerminatorKind::Assert { cond, expected, msg, target, unwind } => {
                mir_types::StatementKind::Assert(
                    mir_types::AssertInfo {
                        cond: cond.to_mmir(def_id),
                        expected: *expected,
                        msg: msg.to_mmir(def_id),
                        target: *target,
                        unwind: unwind.to_mmir(def_id),
                    },
                )
            },
            mir::TerminatorKind::Other => mir_types::StatementKind::Unknown,
        }
    }
}

/// A plain statement keeps its shape and maps its parts. A statement the
/// schema does not cover is `Unknown`.
impl Coherce for mir::StatementKind {
    type T = mir_types::StatementKind;

    open spec fn mmir(&self) -> StatementKindView {
        match self {
            mir::StatementKind::Assign(place, rvalue) => StatementKindView::Assign(
                place.mmir(),
                rvalue.mmir(),
            ),
            mir::StatementKind::SetDiscriminant { place, variant_index } => {
                StatementKindView::SetDiscriminant(place.mmir(), *variant_index)
            },
            mir::StatementKind::Deinit(place) => StatementKindView::Deinit(place.mmir()),
            mir::StatementKind::StorageLive(local) => StatementKindView::StorageLive(*local),
            mir::StatementKind::StorageDead(local) => StatementKindView::StorageDead(*local),
            mir::StatementKind::Retag(kind, place) => StatementKindView::Retag(
                kind.mmir(),
                place.mmir(),
            ),
            mir::StatementKind::PlaceMention(place) => StatementKindView::PlaceMention(
                place.mmir(),
            ),
            mir::StatementKind::Intrinsic(intrinsic) => StatementKindView::Intrinsic(
                intrinsic.mmir(),
            ),
            mir::StatementKind::ConstEvalCounter => StatementKindView::ConstEvalCounter,
            mir::StatementKind::Nop => StatementKindView::Nop,
            mir::StatementKind::Other => StatementKindView::Unknown,
        }
    }

    fn to_mmir(&self, def_id: DefId) -> (r: mir_types::StatementKind)
        ensures
            r.deep_view() == self.mmir(),
    {
        match self {
            mir::StatementKind::Assign(place, rvalue) => mir_types::StatementKind::Assign(
                place.to_mmir(def_id),
                rvalue.to_mmir(def_id),
            ),
            mir::StatementKind::StorageLive(local) => mir_types::StatementKind::StorageLive(
                *local,
            ),
            mir::StatementKind::StorageDead(local) => mir_types::StatementKind::StorageDead(
                *local,
            ),
            mir::StatementKind::Nop => mir_types::StatementKind::Nop,
            mir::StatementKind::ConstEvalCounter => mir_types::StatementKind::ConstEvalCounter,
            mir::StatementKind::Deinit(place) => mir_types::StatementKind::Deinit(
                place.to_mmir(def_id),
            ),
            mir::StatementKind::PlaceMention(place) => mir_types::StatementKind::PlaceMention(
                place.to_mmir(def_id),
            ),
            mir::StatementKind::Retag(kind, place) => mir_types::StatementKind::Retag(
                kind.to_mmir(def_id),
                place.to_mmir(def_id),
            ),
            mir::StatementKind::SetDiscriminant { place, variant_index } => {
                mir_types::StatementKind::SetDiscriminant(place.to_mmir(def_id), *variant_index)
            },
            mir::StatementKind::Intrinsic(intrinsic) => mir_types::StatementKind::Intrinsic(
                intrinsic.to_mmir(def_id),
            ),
            mir::StatementKind::Other => mir_types::StatementKind::Unknown,
        }
    }
}

/// A statement keeps its source range and scope.
impl Coherce for mir::Statement {
    type T = mir_types::Statement;

    open spec fn mmir(&self) -> StatementView {
        StatementView {
            skind: self.kind.mmir(),
            span: self.source_info.span.mmir(),
            scope: self.source_info.scope,
        }
    }

    fn to_mmir(&self, def_id: DefId) -> (r: mir_types::Statement)
        ensures
            r.deep_view() == self.mmir(),
    {
        mir_types::Statement {
            skind: self.kind.to_mmir(def_id),
            span: self.source_info.span.to_mmir(def_id),
            scope: self.source_info.scope,
        }
    }
}

/// A terminator becomes a statement, with its source range and scope.
impl Coherce for mir::Terminator {
    type T = mir_types::Statement;

    open spec fn mmir(&self) -> StatementView {
        StatementView {
            skind: self.kind.mmir(),
            span: self.source_info.span.mmir(),
            scope: self.source_info.scope,
        }
    }

    fn to_mmir(&self, def_id: DefId) -> (r: mir_types::Statement)
        ensures
            r.deep_view() == self.mmir(),
    {
        mir_types::Statement {
            skind: self.kind.to_mmir(def_id),
            span: self.source_info.span.to_mmir(def_id),
            scope: self.source_info.scope,
        }
    }
}

/// A block maps its statements in order; its terminator, if it has one,
/// follows them as the last statement.
impl Coherce for mir::BasicBlockData {
    type T = mir_types::BasicBlock;

    open spec fn mmir(&self) -> BasicBlockView {
        BasicBlockView {
            statements: match self.terminator {
                Some(term) => self.statements.mmir().push(term.mmir()),
                None => self.statements.mmir(),
            },
            is_cleanup: self.is_cleanup,
        }
    }

    fn to_mmir(&self, def_id: DefId) -> (r: mir_types::BasicBlock)
        ensures
            r.deep_view() == self.mmir(),
            r.deep_view().terminator_last(),
    {
        proof {
            lemma_terminator_is_last(*self);
        }
        let mut statements = self.statements.to_mmir(def_id);
        match &self.terminator {
            None => (),
            Some(term) => {
                let ghost before = statements.deep_view();
                let last = term.to_mmir(def_id);
                statements.push(last);
                assert(statements.deep_view() =~= before.push(term.mmir()));
            },
        };
        mir_types::BasicBlock { statements, is_cleanup: self.is_cleanup }
    }
}

/// The blocks of a body map in order: position `i` of the result is the
/// block with identifier `i`.
impl Coherce for mir::BasicBlocks {
    type T = Vec<mir_types::BasicBlock>;

    open spec fn mmir(&self) -> Seq<BasicBlockView> {
        self.basic_blocks.mmir()
    }

    fn to_mmir(&self, def_id: DefId) -> (r: Vec<mir_types::BasicBlock>)
        ensures
            r.deep_view() == self.mmir(),
    {
        self.basic_blocks.to_mmir(def_id)
    }
}

} // verus!
