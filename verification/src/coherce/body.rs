//! Local declarations, debug information and whole bodies.
use crate::coherce::Coherce;
use crate::host::mir;
use crate::host::span::DefId;
use crate::laws::{
    lemma_all_targets_keep_fallback, lemma_locals_stay_in_range, lemma_spans_stay_ordered,
    lemma_terminators_are_last, lemma_well_formed_stays_well_formed,
};
use crate::mir_types;
use crate::mir_view::{
    BodyView, LocalDeclView, VarDebugInfoContentView, VarDebugInfoFragmentView, VarDebugInfoView,
};
use vstd::prelude::*;

verus! {

/// A record about a local keeps its shape; a definition is named by its
/// index alone. A record the schema does not cover is `Unknown`.
impl Coherce for mir::LocalInfo {
    type T = mir_types::LocalInfo;

    open spec fn mmir(&self) -> mir_types::LocalInfo {
        match self {
            mir::LocalInfo::FakeBorrow => mir_types::LocalInfo::FakeBorrow,
            mir::LocalInfo::DerefTemp => mir_types::LocalInfo::DerefTemp,
            mir::LocalInfo::Boring => mir_types::LocalInfo::Boring,
            mir::LocalInfo::ConstRef { def_id } => mir_types::LocalInfo::ConstRef(def_id.index),
            mir::LocalInfo::StaticRef { def_id } => mir_types::LocalInfo::StaticRef(def_id.index),
            mir::LocalInfo::AggregateTemp => mir_types::LocalInfo::AggregateTemp,
            mir::LocalInfo::Other => mir_types::LocalInfo::Unknown,
        }
    }

    fn to_mmir(&self, _def_id: DefId) -> (r: mir_types::LocalInfo)
        ensures
            r.deep_view() == self.mmir(),
    {
        match self {
            mir::LocalInfo::FakeBorrow => mir_types::LocalInfo::FakeBorrow,
            mir::LocalInfo::DerefTemp => mir_types::LocalInfo::DerefTemp,
            mir::LocalInfo::Boring => mir_types::LocalInfo::Boring,
            mir::LocalInfo::ConstRef { def_id } => mir_types::LocalInfo::ConstRef(def_id.index),
            mir::LocalInfo::StaticRef { def_id } => mir_types::LocalInfo::StaticRef(def_id.index),
            mir::LocalInfo::AggregateTemp => mir_types::LocalInfo::AggregateTemp,
            mir::LocalInfo::Other => mir_types::LocalInfo::Unknown,
        }
    }
}

impl Coherce for mir::LocalDecl {
    type T = mir_types::LocalDecl;

    open spec fn mmir(&self) -> LocalDeclView {
        LocalDeclView {
            scope: self.source_info.scope,
            local: self.local_info.mmir(),
            typ: self.ty.mmir(),
            mutability: self.mutability.mmir(),
        }
    }

    fn to_mmir(&self, def_id: DefId) -> (r: mir_types::LocalDecl)
        ensures
            r.deep_view() == self.mmir(),
    {
        mir_types::LocalDecl {
            scope: self.source_info.scope,
            local: self.local_info.to_mmir(def_id),
            typ: Box::new(self.ty.to_mmir(def_id)),
            mutability: self.mutability.to_mmir(def_id),
        }
    }
}

impl Coherce for mir::VarDebugInfoContents {
    type T = mir_types::VarDebugInfoContent;

    open spec fn mmir(&self) -> VarDebugInfoContentView {
        match self {
            mir::VarDebugInfoContents::Place(place) => VarDebugInfoContentView::Place(
                place.mmir(),
            ),
            mir::VarDebugInfoContents::Const(constant) => VarDebugInfoContentView::Const(
                constant.mmir(),
            ),
        }
    }

    fn to_mmir(&self, def_id: DefId) -> (r: mir_types::VarDebugInfoContent)
        ensures
            r.deep_view() == self.mmir(),
    {
        match self {
            mir::VarDebugInfoContents::Place(place) => mir_types::VarDebugInfoContent::Place(
                place.to_mmir(def_id),
            ),
            mir::VarDebugInfoContents::Const(constant) => mir_types::VarDebugInfoContent::Const(
                constant.to_mmir(def_id),
            ),
        }
    }
}

impl Coherce for mir::VarDebugInfoFragment {
    type T = mir_types::VarDebugInfoFragment;

    open spec fn mmir(&self) -> VarDebugInfoFragmentView {
        VarDebugInfoFragmentView { ty: self.ty.mmir(), projection: self.projection.mmir() }
    }

    fn to_mmir(&self, def_id: DefId) -> (r: mir_types::VarDebugInfoFragment)
        ensures
            r.deep_view() == self.mmir(),
    {
        mir_types::VarDebugInfoFragment {
            ty: self.ty.to_mmir(def_id),
            projection: self.projection.to_mmir(def_id),
        }
    }
}

/// A debug entry keeps its name and scope; the position of an argument is
/// widened to 32 bits.
impl Coherce for mir::VarDebugInfo {
    type T = mir_types::VarDebugInfo;

    open spec fn mmir(&self) -> VarDebugInfoView {
        VarDebugInfoView {
            value: self.value.mmir(),
            scope: self.source_info.scope,
            name: self.name@,
            arg_index: match self.argument_index {
                Some(i) => Some(i as u32),
                None => None,
            },
            composite: self.composite.mmir(),
        }
    }

    fn to_mmir(&self, def_id: DefId) -> (r: mir_types::VarDebugInfo)
        ensures
            r.deep_view() == self.mmir(),
    {
        mir_types::VarDebugInfo {
            value: self.value.to_mmir(def_id),
            scope: self.source_info.scope,
            name: self.name.clone(),
            arg_index: match self.argument_index {
                Some(i) => Some(i as u32),
                None => None,
            },
            composite: self.composite.to_mmir(def_id),
        }
    }
}

/// A body maps its blocks, its local declarations and its debug entries,
/// each list in order, and keeps its argument count, its spread argument
/// and its source range.
///
/// In the result a statement that ends a block stands last in its block.
/// The places of the result name declared locals, its source ranges are
/// ordered, and its branches have one target more than values, where that
/// holds of the body.
impl Coherce for mir::Body {
    type T = mir_types::Body;

    open spec fn mmir(&self) -> BodyView {
        BodyView {
            stmts: self.basic_blocks.mmir(),
            local_decls: self.local_decls.mmir(),
            arg_count: self.arg_count,
            var_debug_info: self.var_debug_info.mmir(),
            spread_arg: match self.spread_arg {
                Some(local) => Some(local as usize),
                None => None,
            },
            span: self.span.mmir(),
        }
    }

    fn to_mmir(&self, def_id: DefId) -> (r: mir_types::Body)
        ensures
            r.deep_view() == self.mmir(),
            r.deep_view().terminators_last(),
            self.locals_in_range() ==> r.deep_view().locals_in_range(),
            self.spans_wf() ==> r.deep_view().spans_ordered(),
            self.targets_wf() ==> r.deep_view().targets_have_fallback(),
            self.wf() ==> r.deep_view().wf(),
    {
        proof {
            lemma_terminators_are_last(*self);
            if self.targets_wf() {
                lemma_all_targets_keep_fallback(*self);
            }
            lemma_locals_stay_in_range(*self);
            if self.spans_wf() {
                lemma_spans_stay_ordered(*self);
            }
            if self.wf() {
                lemma_well_formed_stays_well_formed(*self);
            }
        }
        mir_types::Body {
            stmts: self.basic_blocks.to_mmir(def_id),
            local_decls: self.local_decls.to_mmir(def_id),
            arg_count: self.arg_count,
            var_debug_info: self.var_debug_info.to_mmir(def_id),
            spread_arg: match self.spread_arg {
                Some(local) => Some(local as usize),
                None => None,
            },
            span: self.span.to_mmir(def_id),
        }
    }
}

} // verus!
