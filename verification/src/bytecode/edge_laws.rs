//! Where the effective control flow leads.
use crate::bytecode::initializer_pairs::{
    InitializerBody, body_incoming, edges_out, edges_reaching, flows_on, incoming_edges,
};
use crate::bytecode::internal_stack::EffectiveEdge;
use crate::opcode::FinalOpcode;
use vstd::prelude::*;

verus! {

/// Whether an instruction leads to another: a subroutine call to its subroutine
/// alone, the end of a subroutine to what its calls go on with, and any other
/// instruction to what follows it, to its branch and to its jump.
pub open(crate) spec fn leads_to(body: InitializerBody, at: int, target: int) -> bool {
    let instruction = body.instructions[at];
    let successors = instruction.spec_successors();
    let rets = body.certificate.certificates.rets;
    &&& 0 <= at < body.instructions.len()
    &&& match instruction.spec_decoded().instruction.opcode {
        FinalOpcode::Gosub => match successors.spec_branch_target() {
            Some(index) => index.spec_get() == target,
            None => false,
        },
        FinalOpcode::Ret => at < rets.len() && match rets[at] {
            Some(finalizer) => finalizer.spec_get() < body.certificate.continuations.len() && exists|
                k: int,
            |
                0 <= k < body.certificate.continuations[finalizer.spec_get() as int].len() && (
                #[trigger] body.certificate.continuations[finalizer.spec_get() as int][k]).spec_get()
                    == target,
            None => false,
        },
        _ => {
            ||| match successors.spec_fallthrough() {
                Some(index) => index.spec_get() == target,
                None => false,
            }
            ||| match successors.spec_branch_target() {
                Some(index) => index.spec_get() == target,
                None => false,
            }
            ||| match successors.spec_jump_target() {
                Some(index) => index.spec_get() == target,
                None => false,
            }
        },
    }
}

proof fn lemma_edges_lead(body: InitializerBody, at: int, target: int)
    ensures
        leads_to(body, at, target) <==> exists|i: int|
            0 <= i < edges_out(body.certificate, body.instructions, at).len() && (
            #[trigger] edges_out(body.certificate, body.instructions, at)[i]).target.spec_get()
                == target,
{
    let edges = edges_out(body.certificate, body.instructions, at);
    if 0 <= at < body.instructions.len() {
        let instruction = body.instructions[at];
        let successors = instruction.spec_successors();
        let opcode = instruction.spec_decoded().instruction.opcode;
        if leads_to(body, at, target) {
            if opcode == FinalOpcode::Ret {
                let finalizer = body.certificate.certificates.rets[at].unwrap();
                let list = body.certificate.continuations[finalizer.spec_get() as int];
                let k = choose|k: int|
                    0 <= k < list.len() && (#[trigger] list[k]).spec_get() == target;
                assert(edges[k].target == list[k]);
            } else if opcode == FinalOpcode::Gosub {
                assert(edges[0].target.spec_get() == target);
            } else {
                let first: int = if successors.spec_fallthrough().is_some() {
                    1
                } else {
                    0
                };
                let second: int = if successors.spec_branch_target().is_some() {
                    1
                } else {
                    0
                };
                assert(first == 1 ==> edges[0].target == successors.spec_fallthrough().unwrap());
                assert(second == 1 ==> edges[first].target
                    == successors.spec_branch_target().unwrap());
                assert(successors.spec_jump_target().is_some() ==> edges[first + second].target
                    == successors.spec_jump_target().unwrap());
            }
        }
    }
}

proof fn lemma_reaching(edges: Seq<EffectiveEdge>, target: int, count: int)
    requires
        count <= edges.len(),
    ensures
        edges_reaching(edges, target, count) == 0 <==> forall|i: int|
            0 <= i < count ==> (#[trigger] edges[i]).target.spec_get() != target,
    decreases count,
{
    if count > 0 {
        lemma_reaching(edges, target, count - 1);
    }
}

proof fn lemma_incoming(body: InitializerBody, target: int, count: int)
    requires
        count <= body.instructions.len(),
    ensures
        incoming_edges(body.certificate, body.instructions, target, count) == 0 <==> forall|at: int|
            at < count ==> !#[trigger] leads_to(body, at, target),
    decreases count,
{
    if count > 0 {
        lemma_incoming(body, target, count - 1);
        lemma_edges_lead(body, count - 1, target);
        let edges = edges_out(body.certificate, body.instructions, count - 1);
        lemma_reaching(edges, target, edges.len() as int);
    }
}

/// An instruction flows on exactly if it leads to the one behind it, and nothing
/// comes in at an instruction exactly if no instruction leads there.
pub proof fn lemma_edges_are_what_successors_say(body: InitializerBody, at: int, target: int)
    requires
        0 <= at < body.instructions.len() < u32::MAX,
    ensures
        flows_on(body, at) <==> leads_to(body, at, at + 1),
        body_incoming(body, target) == 0 <==> forall|from: int|
            !#[trigger] leads_to(body, from, target),
{
    lemma_edges_lead(body, at, at + 1);
    lemma_incoming(body, target, body.instructions.len() as int);
    if body_incoming(body, target) == 0 {
        assert forall|from: int| !#[trigger] leads_to(body, from, target) by {
            if from < body.instructions.len() {
                assert(!leads_to(body, from, target));
            }
        }
    }
}

} // verus!
