//! What the compiler guarantees of a finished body, stated on the model.
use crate::host::mir::{
    AssertMessage, BasicBlockData, Body, NonDivergingIntrinsic, Operand, Place, PlaceElem, Rvalue,
    Statement, StatementKind, SwitchTargets, Terminator, TerminatorKind, VarDebugInfo,
    VarDebugInfoContents,
};
use vstd::prelude::*;

verus! {

impl SwitchTargets {
    /// There is one target for each value, and one more for the case that
    /// no value matches.
    pub open spec fn wf(&self) -> bool {
        self.targets@.len() == self.values@.len() + 1
    }
}

impl PlaceElem {
    /// A local that the projection indexes by is below `n`.
    pub open spec fn locals_below(&self, n: nat) -> bool {
        *self matches PlaceElem::Index(local) ==> local < n
    }
}

impl Place {
    /// The local of the place, and each local it indexes by, is below `n`.
    pub open spec fn locals_below(&self, n: nat) -> bool {
        &&& self.local < n
        &&& forall|i: int|
            0 <= i < self.projection@.len() ==> (#[trigger] self.projection@[i]).locals_below(n)
    }
}

impl Operand {
    /// The place that the operand reads, if it reads one, names locals
    /// below `n`.
    pub open spec fn locals_below(&self, n: nat) -> bool {
        match self {
            Operand::Copy(place) => place.locals_below(n),
            Operand::Move(place) => place.locals_below(n),
            Operand::Constant(_) => true,
        }
    }
}

impl NonDivergingIntrinsic {
    /// Every place in the intrinsic names locals below `n`.
    pub open spec fn locals_below(&self, n: nat) -> bool {
        match self {
            NonDivergingIntrinsic::Assume(op) => op.locals_below(n),
            NonDivergingIntrinsic::CopyNonOverlapping(copy) => {
                &&& copy.src.locals_below(n)
                &&& copy.dst.locals_below(n)
                &&& copy.count.locals_below(n)
            },
        }
    }
}

impl Rvalue {
    /// Every place that the model holds of the value expression names
    /// locals below `n`.
    pub open spec fn locals_below(&self, n: nat) -> bool {
        match self {
            Rvalue::Use(op) => op.locals_below(n),
            Rvalue::Repeat(op, _) => op.locals_below(n),
            Rvalue::Ref(_, place) => place.locals_below(n),
            Rvalue::RawPtr(_, place) => place.locals_below(n),
            Rvalue::Len(place) => place.locals_below(n),
            Rvalue::BinaryOp(_, lhs, rhs) => lhs.locals_below(n) && rhs.locals_below(n),
            Rvalue::NullaryOp(_) => true,
            Rvalue::UnaryOp(_, arg) => arg.locals_below(n),
            Rvalue::Discriminant(place) => place.locals_below(n),
            Rvalue::ShallowInitBox(op, _) => op.locals_below(n),
            Rvalue::CopyForDeref(place) => place.locals_below(n),
            Rvalue::WrapUnsafeBinder(op, _) => op.locals_below(n),
            Rvalue::Other => true,
        }
    }
}

impl AssertMessage {
    /// Every place that the model holds of the check names locals below
    /// `n`.
    pub open spec fn locals_below(&self, n: nat) -> bool {
        match self {
            AssertMessage::BoundsCheck { len, index } => {
                len.locals_below(n) && index.locals_below(n)
            },
            AssertMessage::Overflow(_, lhs, rhs) => lhs.locals_below(n) && rhs.locals_below(n),
            AssertMessage::OverflowNeg(op) => op.locals_below(n),
            AssertMessage::DivisionByZero(op) => op.locals_below(n),
            AssertMessage::RemainderByZero(op) => op.locals_below(n),
            AssertMessage::MisalignedPointerDereference { required, found } => {
                required.locals_below(n) && found.locals_below(n)
            },
            AssertMessage::NullPointerDereference => true,
            AssertMessage::Other => true,
        }
    }
}

impl StatementKind {
    /// Every place that the model holds of the statement names locals
    /// below `n`.
    pub open spec fn locals_below(&self, n: nat) -> bool {
        match self {
            StatementKind::Assign(place, rvalue) => {
                place.locals_below(n) && rvalue.locals_below(n)
            },
            StatementKind::SetDiscriminant { place, variant_index } => place.locals_below(n),
            StatementKind::Deinit(place) => place.locals_below(n),
            StatementKind::Retag(_, place) => place.locals_below(n),
            StatementKind::PlaceMention(place) => place.locals_below(n),
            StatementKind::Intrinsic(intrinsic) => intrinsic.locals_below(n),
            _ => true,
        }
    }
}

impl TerminatorKind {
    /// Every place that the model holds of the terminator names locals
    /// below `n`.
    pub open spec fn locals_below(&self, n: nat) -> bool {
        match self {
            TerminatorKind::SwitchInt { discr, targets } => discr.locals_below(n),
            TerminatorKind::Drop { place, target, unwind, replace, drop } => place.locals_below(n),
            TerminatorKind::Call { func, args, destination, target, unwind, fn_span } => {
                &&& func.locals_below(n)
                &&& forall|i: int|
                    0 <= i < args@.len() ==> (#[trigger] args@[i]).node.locals_below(n)
                &&& destination.locals_below(n)
            },
            TerminatorKind::Assert { cond, expected, msg, target, unwind } => {
                cond.locals_below(n) && msg.locals_below(n)
            },
            _ => true,
        }
    }

    /// The source range of a call, where the terminator is one, is
    /// well-formed.
    pub open spec fn spans_wf(&self) -> bool {
        self matches TerminatorKind::Call { func, args, destination, target, unwind, fn_span }
            ==> fn_span.wf()
    }

    /// The arms of a branch, where the terminator is one, are well-formed.
    pub open spec fn targets_wf(&self) -> bool {
        self matches TerminatorKind::SwitchInt { discr, targets } ==> targets.wf()
    }
}

impl Statement {
    /// The source range of the statement is well-formed.
    pub open spec fn spans_wf(&self) -> bool {
        self.source_info.span.wf()
    }
}

impl Terminator {
    /// The source ranges in the terminator are well-formed.
    pub open spec fn spans_wf(&self) -> bool {
        self.source_info.span.wf() && self.kind.spans_wf()
    }
}

impl BasicBlockData {
    /// Every place in the block names locals below `n`.
    pub open spec fn locals_below(&self, n: nat) -> bool {
        &&& forall|i: int|
            0 <= i < self.statements@.len() ==> (#[trigger] self.statements@[i])
                .kind.locals_below(n)
        &&& self.terminator matches Some(term) ==> term.kind.locals_below(n)
    }

    /// Every source range in the block is well-formed.
    pub open spec fn spans_wf(&self) -> bool {
        &&& forall|i: int|
            0 <= i < self.statements@.len() ==> (#[trigger] self.statements@[i]).spans_wf()
        &&& self.terminator matches Some(term) ==> term.spans_wf()
    }

    /// The arms of the branch that ends the block, if one does, are
    /// well-formed.
    pub open spec fn targets_wf(&self) -> bool {
        self.terminator matches Some(term) ==> term.kind.targets_wf()
    }
}

impl VarDebugInfoContents {
    /// The place of the variable, if it has one, names locals below `n`.
    pub open spec fn locals_below(&self, n: nat) -> bool {
        match self {
            VarDebugInfoContents::Place(place) => place.locals_below(n),
            VarDebugInfoContents::Const(_) => true,
        }
    }
}

impl VarDebugInfo {
    /// The place of the variable, if it has one, names locals below `n`.
    pub open spec fn locals_below(&self, n: nat) -> bool {
        self.value.locals_below(n)
    }
}

impl Body {
    /// Every local that a place of the body names is declared in the body.
    pub open spec fn locals_in_range(&self) -> bool {
        let blocks = self.basic_blocks.basic_blocks.raw@;
        let n = self.local_decls.raw@.len();
        &&& forall|i: int| 0 <= i < blocks.len() ==> (#[trigger] blocks[i]).locals_below(n)
        &&& forall|i: int|
            0 <= i < self.var_debug_info@.len() ==> (#[trigger] self.var_debug_info@[i])
                .locals_below(n)
    }

    /// Every source range that the model holds of the body is well-formed.
    pub open spec fn spans_wf(&self) -> bool {
        let blocks = self.basic_blocks.basic_blocks.raw@;
        &&& self.span.wf()
        &&& forall|i: int| 0 <= i < blocks.len() ==> (#[trigger] blocks[i]).spans_wf()
    }

    /// The arms of every branch in the body are well-formed.
    pub open spec fn targets_wf(&self) -> bool {
        let blocks = self.basic_blocks.basic_blocks.raw@;
        forall|i: int| 0 <= i < blocks.len() ==> (#[trigger] blocks[i]).targets_wf()
    }

    /// The body is as the compiler leaves one: its places name declared
    /// locals, its source ranges are well-formed, and so are the arms of its
    /// branches.
    pub open spec fn wf(&self) -> bool {
        &&& self.locals_in_range()
        &&& self.spans_wf()
        &&& self.targets_wf()
    }
}

} // verus!
