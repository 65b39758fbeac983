//! Gathering the bodies of one compiler run.
use crate::coherce::Coherce;
use crate::host::mir;
use crate::host::span::DefId;
use crate::laws::lemma_gathered_step;
use crate::mir_types;
use crate::mir_view::BodyView;
use vstd::prelude::*;

verus! {

/// The compiler ended the run with a fatal diagnostic. No body of the run
/// is handed on.
#[derive(Clone, Copy, Debug, PartialEq, Eq)]
pub struct ToolchainFailure;

/// What a run that hands over `bodies`, in this order, gathers: the
/// counterpart of each, in the same order.
pub open spec fn gathered(bodies: Seq<mir::Body>) -> Seq<BodyView> {
    Seq::new(bodies.len(), |i: int| bodies[i].mmir())
}

/// The transcoded bodies of one run, in the order in which the compiler
/// handed their functions over.
pub struct Collector {
    bodies: Vec<mir_types::Body>,
}

/// The deep views of the gathered bodies, in order.
impl View for Collector {
    type V = Seq<BodyView>;

    closed spec fn view(&self) -> Seq<BodyView> {
        self.bodies.deep_view()
    }
}

impl Collector {
    /// A collector that has gathered nothing.
    pub fn new() -> (r: Collector)
        ensures
            r@ == Seq::<BodyView>::empty(),
    {
        Collector { bodies: Vec::new() }
    }

    /// Transcodes the body of the function `def_id` and puts the result
    /// behind those gathered before, which stay as they are. So a collector
    /// that has gathered a run of bodies has, after this, gathered the run
    /// with `body` at its end.
    pub fn record(&mut self, def_id: DefId, body: &mir::Body)
        ensures
            final(self)@ == old(self)@.push(body.mmir()),
            forall|run: Seq<mir::Body>|
                old(self)@ == #[trigger] gathered(run) ==> final(self)@
                    == gathered(run.push(*body)),
    {
        let transcoded = body.to_mmir(def_id);
        self.bodies.push(transcoded);
        proof {
            assert forall|run: Seq<mir::Body>|
                old(self)@ == #[trigger] gathered(run) implies self@ == gathered(
                run.push(*body),
            ) by {
                lemma_gathered_step(run, *body);
            }
        }
    }

    /// Ends the run. A run that failed yields the failure and none of the
    /// bodies gathered so far; a run that went through yields all of them,
    /// in the order in which they were recorded.
    pub fn finish(self, run_failed: bool) -> (r: Result<Vec<mir_types::Body>, ToolchainFailure>)
        ensures
            run_failed ==> r is Err,
            !run_failed ==> r is Ok && r->Ok_0.deep_view() == self@,
    {
        if run_failed {
            Err(ToolchainFailure)
        } else {
            Ok(self.bodies)
        }
    }
}

} // verus!
