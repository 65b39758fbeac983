//! What holds of a well-formed schema value, stated over its deep view.
use crate::mir_types::Span;
use crate::mir_view::{
    AssertInfoView, AssertMessageView, BasicBlockView, BodyView, CallInfoView, DropInfoView,
    IntrinsicView, OperandView, PlaceView, ProjectionView, RvalueView, StatementKindView,
    StatementView, TargetsView, VarDebugInfoContentView, VarDebugInfoView,
};
use vstd::prelude::*;

verus! {

impl Span {
    /// The range does not end before it starts.
    pub open spec fn ordered(&self) -> bool {
        match *self {
            Span::Span(lo, hi) => lo <= hi,
        }
    }
}

impl TargetsView {
    /// Each value has its target, and one target more follows them: the
    /// one taken when no value matches.
    pub open spec fn has_fallback(self) -> bool {
        self.targets.len() == self.values.len() + 1
    }
}

impl ProjectionView {
    /// A local that the projection indexes by is below `n`.
    pub open spec fn locals_below(self, n: nat) -> bool {
        self matches ProjectionView::Index(local) ==> local < n
    }
}

impl PlaceView {
    /// The local of the place, and each local it indexes by, is below `n`.
    pub open spec fn locals_below(self, n: nat) -> bool {
        &&& self.local < n
        &&& forall|i: int| 0 <= i < self.proj.len() ==> (#[trigger] self.proj[i]).locals_below(n)
    }
}

impl OperandView {
    /// The place that the operand reads, if it reads one, names locals
    /// below `n`.
    pub open spec fn locals_below(self, n: nat) -> bool {
        match self {
            OperandView::Copy(place) => place.locals_below(n),
            OperandView::Move(place) => place.locals_below(n),
            OperandView::Constant(_) => true,
        }
    }
}

impl IntrinsicView {
    /// Every place in the intrinsic names locals below `n`.
    pub open spec fn locals_below(self, n: nat) -> bool {
        match self {
            IntrinsicView::Assume(op) => op.locals_below(n),
            IntrinsicView::CopyNonOverlapping(src, dst, count) => {
                &&& src.locals_below(n)
                &&& dst.locals_below(n)
                &&& count.locals_below(n)
            },
        }
    }
}

impl RvalueView {
    /// Every place in the value expression names locals below `n`.
    pub open spec fn locals_below(self, n: nat) -> bool {
        match self {
            RvalueView::Use(op) => op.locals_below(n),
            RvalueView::Repeat(op, _) => op.locals_below(n),
            RvalueView::Ref(_, place) => place.locals_below(n),
            RvalueView::RawPtr(_, place) => place.locals_below(n),
            RvalueView::Len(place) => place.locals_below(n),
            RvalueView::BinaryOp(_, lhs, rhs) => lhs.locals_below(n) && rhs.locals_below(n),
            RvalueView::NullaryOp(_) => true,
            RvalueView::UnaryOp(_, arg) => arg.locals_below(n),
            RvalueView::Discriminant(place) => place.locals_below(n),
            RvalueView::ShallowInitBox(op, _) => op.locals_below(n),
            RvalueView::CopyForDeref(place) => place.locals_below(n),
            RvalueView::WrapUnsafeBinder(op, _) => op.locals_below(n),
            RvalueView::Unknown => true,
        }
    }
}

impl AssertMessageView {
    /// Every place in the check names locals below `n`.
    pub open spec fn locals_below(self, n: nat) -> bool {
        match self {
            AssertMessageView::BoundsCheck(len, index) => {
                len.locals_below(n) && index.locals_below(n)
            },
            AssertMessageView::Overflow(_, lhs, rhs) => lhs.locals_below(n) && rhs.locals_below(n),
            AssertMessageView::OverflowNeg(op) => op.locals_below(n),
            AssertMessageView::DivisionByZero(op) => op.locals_below(n),
            AssertMessageView::RemainderByZero(op) => op.locals_below(n),
            AssertMessageView::MisalignedPointerDereference(required, found) => {
                required.locals_below(n) && found.locals_below(n)
            },
            AssertMessageView::NullPointerDereference => true,
            AssertMessageView::Unknown => true,
        }
    }
}

impl CallInfoView {
    /// Every place in the call names locals below `n`.
    pub open spec fn locals_below(self, n: nat) -> bool {
        &&& self.func.locals_below(n)
        &&& forall|i: int| 0 <= i < self.args.len() ==> (#[trigger] self.args[i]).locals_below(n)
        &&& self.dest.locals_below(n)
    }
}

impl DropInfoView {
    /// The dropped place names locals below `n`.
    pub open spec fn locals_below(self, n: nat) -> bool {
        self.place.locals_below(n)
    }
}

impl AssertInfoView {
    /// Every place in the assertion names locals below `n`.
    pub open spec fn locals_below(self, n: nat) -> bool {
        self.cond.locals_below(n) && self.msg.locals_below(n)
    }
}

impl StatementKindView {
    /// Every place in the statement names locals below `n`.
    pub open spec fn locals_below(self, n: nat) -> bool {
        match self {
            StatementKindView::Assign(place, rvalue) => {
                place.locals_below(n) && rvalue.locals_below(n)
            },
            StatementKindView::SetDiscriminant(place, _) => place.locals_below(n),
            StatementKindView::Deinit(place) => place.locals_below(n),
            StatementKindView::Retag(_, place) => place.locals_below(n),
            StatementKindView::PlaceMention(place) => place.locals_below(n),
            StatementKindView::Intrinsic(intrinsic) => intrinsic.locals_below(n),
            StatementKindView::SwitchInt(discr, _) => discr.locals_below(n),
            StatementKindView::Drop(info) => info.locals_below(n),
            StatementKindView::Call(info) => info.locals_below(n),
            StatementKindView::Assert(info) => info.locals_below(n),
            _ => true,
        }
    }

    /// The statement ends a block: it is a jump, a branch, a return, a
    /// call, a drop, an assertion, or one of the other shapes that only a
    /// terminator has. `Unknown` is not among them: it also stands for
    /// plain statements.
    pub open spec fn is_terminator(self) -> bool {
        match self {
            StatementKindView::Goto(_) => true,
            StatementKindView::SwitchInt(_, _) => true,
            StatementKindView::UnwindResume => true,
            StatementKindView::UnwindTerminate => true,
            StatementKindView::Unreachable => true,
            StatementKindView::CoroutineDrop => true,
            StatementKindView::Return => true,
            StatementKindView::Drop(_) => true,
            StatementKindView::Call(_) => true,
            StatementKindView::Assert(_) => true,
            _ => false,
        }
    }

    /// The source range of a call, where the statement is one, is ordered.
    pub open spec fn spans_ordered(self) -> bool {
        self matches StatementKindView::Call(info) ==> info.span.ordered()
    }

    /// A branch, where the statement is one, has one target more than
    /// values.
    pub open spec fn targets_have_fallback(self) -> bool {
        self matches StatementKindView::SwitchInt(_, targets) ==> targets.has_fallback()
    }
}

impl StatementView {
    /// The source ranges in the statement are ordered.
    pub open spec fn spans_ordered(self) -> bool {
        self.span.ordered() && self.skind.spans_ordered()
    }
}

impl BasicBlockView {
    /// Every place in the block names locals below `n`.
    pub open spec fn locals_below(self, n: nat) -> bool {
        forall|i: int|
            0 <= i < self.statements.len() ==> (#[trigger] self.statements[i])
                .skind.locals_below(n)
    }

    /// A statement that ends a block stands last in this one.
    pub open spec fn terminator_last(self) -> bool {
        forall|i: int|
            0 <= i < self.statements.len() && (#[trigger] self.statements[i]).skind.is_terminator()
                ==> i == self.statements.len() - 1
    }

    /// Every source range in the block is ordered.
    pub open spec fn spans_ordered(self) -> bool {
        forall|i: int|
            0 <= i < self.statements.len() ==> (#[trigger] self.statements[i]).spans_ordered()
    }

    /// Every branch in the block has one target more than values.
    pub open spec fn targets_have_fallback(self) -> bool {
        forall|i: int|
            0 <= i < self.statements.len() ==> (#[trigger] self.statements[i])
                .skind.targets_have_fallback()
    }
}

impl VarDebugInfoContentView {
    /// The place of the variable, if it has one, names locals below `n`.
    pub open spec fn locals_below(self, n: nat) -> bool {
        match self {
            VarDebugInfoContentView::Place(place) => place.locals_below(n),
            VarDebugInfoContentView::Const(_) => true,
        }
    }
}

impl VarDebugInfoView {
    /// The place of the variable, if it has one, names locals below `n`.
    pub open spec fn locals_below(self, n: nat) -> bool {
        self.value.locals_below(n)
    }
}

impl BodyView {
    /// Every local that a place of the body names is declared in the body.
    pub open spec fn locals_in_range(self) -> bool {
        let n = self.local_decls.len();
        &&& forall|i: int| 0 <= i < self.stmts.len() ==> (#[trigger] self.stmts[i]).locals_below(n)
        &&& forall|i: int|
            0 <= i < self.var_debug_info.len() ==> (#[trigger] self.var_debug_info[i])
                .locals_below(n)
    }

    /// In every block, a statement that ends a block stands last.
    pub open spec fn terminators_last(self) -> bool {
        forall|i: int| 0 <= i < self.stmts.len() ==> (#[trigger] self.stmts[i]).terminator_last()
    }

    /// Every source range in the body is ordered.
    pub open spec fn spans_ordered(self) -> bool {
        &&& self.span.ordered()
        &&& forall|i: int| 0 <= i < self.stmts.len() ==> (#[trigger] self.stmts[i]).spans_ordered()
    }

    /// Every branch in the body has one target more than values.
    pub open spec fn targets_have_fallback(self) -> bool {
        forall|i: int|
            0 <= i < self.stmts.len() ==> (#[trigger] self.stmts[i]).targets_have_fallback()
    }

    /// The body is well-formed: its places name declared locals, its
    /// terminators stand last, its source ranges are ordered and each of its
    /// branches has one target more than values.
    pub open spec fn wf(self) -> bool {
        &&& self.locals_in_range()
        &&& self.terminators_last()
        &&& self.spans_ordered()
        &&& self.targets_have_fallback()
    }
}

} // verus!
