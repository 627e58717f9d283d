//! What the typed operand-stack analysis guarantees: the stacks that it ends
//! with agree along every edge of the effective control flow.
use crate::bytecode::error::BytecodeVerificationError;
use crate::bytecode::internal_propagation::{
    EdgeFacts, EdgeState, ForOfRecordState, InternalStackTarget, has_targeted_pair, is_inert_edge,
    merged_close_record, propagated_stack, stack_exit_check, trailing_record,
    with_closable_record,
};
use crate::bytecode::internal_stack::{
    EffectiveEdge, InternalStackValue as Slot, SlotClass, effective_edges, holds_class,
};
use crate::bytecode::internal_step::{Certificates, certified_transfer, edge_stack, stack_transfer};
use crate::bytecode::internal_transfer::{Certification, StackOutcome};
use crate::bytecode::internal_verifier::{
    StackAnalysis, StackBody, edge_facts, evaluated_stack, has_continuation, initial_analysis,
    lemma_evaluation_charges, over_edges, seed_from, seeded, stack_analysis_from,
    stack_certificate, stack_cost, unentered_from,
};
use crate::bytecode::model::{BytecodeGraphUsage, BytecodeGraphVerificationLimits};
use crate::bytecode::protected_regions::{
    ProtectedTargets, has_markers, no_targets, targets_from, with_targets_of,
};
use crate::bytecode::stack_error::charged_transfers;
use crate::control_flow::model::{InstructionIndex, VerifiedInstruction};
use crate::function_graph::FunctionTemplateId;
use crate::instruction::DecodedInstruction;
use crate::opcode::FinalOpcode;
use vstd::prelude::*;

verus! {

/// Whether a stack that arrives at an instruction fits the stack recorded for
/// it: they are the same, or the instruction closes an iterator whose recorded
/// state covers the one that arrives.
pub open spec fn stack_fits(
    target: InternalStackTarget,
    entry: Seq<Slot>,
    arriving: Seq<Slot>,
) -> bool {
    entry == arriving || (target.iterator_close && merged_close_record(entry, arriving) == Some(
        (entry, false),
    ))
}

/// Whether an edge agrees with the recorded stacks.
///
/// A finally subroutine is entered only with its own pair on top. Along an edge
/// between instructions of one component the stack fits; between components
/// that no execution connects it fits or holds ordinary values only.
pub open spec fn edge_agrees(edge: EdgeFacts, arriving: Seq<Slot>, state: EdgeState) -> bool {
    let index = edge.successor.spec_get() as int;
    let prefix = if edge.target.finally_entry && edge.enters_finally {
        arriving.take(arriving.len() - 2)
    } else {
        arriving
    };
    &&& 0 <= index < state.entries.len()
    &&& state.entries[index].is_some()
    &&& state.components[index].is_some()
    &&& is_inert_edge(
        index,
        edge.component,
        edge.target,
        edge.enters_finally,
        arriving,
        state.components,
    ) || ({
        &&& edge.target.finally_entry ==> has_targeted_pair(arriving, edge.successor)
        &&& edge.enters_finally ==> edge.target.finally_entry
        &&& stack_fits(edge.target, state.entries[index].unwrap(), arriving) || (
        state.components[index] != Some(edge.component) && !edge.target.catch_handler
            && !holds_class(prefix, 0, SlotClass::NotOrdinary))
    })
}

/// Whether an edge out of an instruction carries a stack that agrees with the
/// recorded ones.
pub open(crate) spec fn edge_is_settled(
    body: StackBody,
    state: EdgeState,
    decoded: DecodedInstruction,
    component: u32,
    outcome: StackOutcome,
    edge: EffectiveEdge,
) -> bool {
    let carried = edge_stack(
        body.id,
        decoded,
        outcome.step.transfer.iteration_branch_value,
        edge,
        outcome.state,
    );
    &&& edge.target.spec_get() < body.instructions.len()
    &&& carried.is_ok()
    &&& edge_agrees(edge_facts(body, decoded, component, edge), carried->Ok_0, state)
}

/// Whether certificates hold what a transfer of an instruction certifies.
pub open spec fn is_recorded(
    certificates: Certificates,
    at: int,
    certification: Certification,
) -> bool {
    match certification {
        Certification::Nothing => true,
        Certification::IterationPut(put) => certificates.iteration[at] == Some(put),
        Certification::CatchPut(put) => certificates.catching[at] == Some(put),
        Certification::NipCatch(transform) => certificates.nips[at] == Some(transform),
        Certification::Ret(target) => certificates.rets[at] == Some(target),
    }
}

/// Whether an instruction is settled: its transfer from the recorded stack
/// succeeds and is recorded, and control leaves it along agreeing edges or by an
/// exit with an admissible stack.
pub open(crate) spec fn is_settled(
    body: StackBody,
    state: EdgeState,
    certificates: Certificates,
    at: int,
) -> bool {
    let verified = body.instructions[at];
    match (state.components[at], state.entries[at]) {
        (Some(component), Some(entry)) => match stack_transfer(
            body.id,
            verified.decoded,
            component == 0,
            verified.successors.spec_branch_target(),
            body.instructions,
            entry,
        ) {
            Ok(Some(outcome)) => is_recorded(certificates, at, outcome.step.certification)
                && leaves_settled(body, state, verified.decoded, at, component, outcome),
            _ => false,
        },
        _ => false,
    }
}

/// Whether control leaves an instruction along agreeing edges or by an exit with
/// an admissible stack.
pub open(crate) spec fn leaves_settled(
    body: StackBody,
    state: EdgeState,
    decoded: DecodedInstruction,
    at: int,
    component: u32,
    outcome: StackOutcome,
) -> bool {
    let edges = effective_edges(
        body.instructions,
        at,
        body.targets.continuations,
        outcome.step.transfer.ret_finalizer,
    );
    outcome.step.transfer.normal_completion ==> if edges.len() == 0 {
        stack_exit_check(
            body.id,
            decoded,
            outcome.state,
            has_continuation(body.targets.continuations),
        ).is_ok()
    } else {
        forall|k: int|
            0 <= k < edges.len() ==> edge_is_settled(
                body,
                state,
                decoded,
                component,
                outcome,
                #[trigger] edges[k],
            )
    }
}

/// Whether every instruction has a recorded stack and is settled, and the body
/// starts with an empty stack unless its first instruction is protected.
pub open(crate) spec fn stacks_agree(body: StackBody, analysis: StackAnalysis) -> bool {
    &&& analysis.edges.entries.len() == body.instructions.len()
    &&& analysis.edges.components.len() == body.instructions.len()
    &&& forall|i: int|
        0 <= i < body.instructions.len() ==> #[trigger] is_settled(
            body,
            analysis.edges,
            analysis.certificates,
            i,
        )
    &&& body.instructions.len() > 0 && !body.targets.handlers[0] && !body.targets.subroutines[0]
        ==> analysis.edges.entries[0] == Some(Seq::<Slot>::empty())
}

/// Whether the collections of a state have one place for each instruction, and
/// the queue holds the queued instructions, each once.
spec fn has_shape(body: StackBody, analysis: StackAnalysis) -> bool {
    let count = body.instructions.len();
    let state = analysis.edges;
    &&& state.entries.len() == count
    &&& state.components.len() == count
    &&& state.queued.len() == count
    &&& analysis.certificates.iteration.len() == count
    &&& analysis.certificates.catching.len() == count
    &&& analysis.certificates.nips.len() == count
    &&& analysis.certificates.rets.len() == count
    &&& queue_holds(state)
    &&& forall|i: int|
        0 <= i < count ==> (#[trigger] state.entries[i]).is_some()
            == state.components[i].is_some()
}

spec fn queue_holds(state: EdgeState) -> bool {
    &&& forall|k: int| 0 <= k < state.work.len() ==> (#[trigger] state.work[k]) < state.queued.len()
    &&& forall|i: int| 0 <= i < state.queued.len() && #[trigger] state.queued[i] ==> is_waiting(
        state,
        i,
    )
    &&& forall|k: int|
        0 <= k < state.work.len() ==> state.queued[#[trigger] state.work[k] as int]
    &&& forall|j: int, k: int|
        0 <= j < k < state.work.len() ==> #[trigger] state.work[j] != #[trigger] state.work[k]
}

spec fn is_waiting(state: EdgeState, at: int) -> bool {
    exists|k: int| 0 <= k < state.work.len() && #[trigger] state.work[k] == at
}

/// How propagation changes a state: components stay, a recorded stack stays or
/// becomes closable at an instruction that closes an iterator, and what changes
/// is queued.
spec fn evolves(body: StackBody, before: EdgeState, after: EdgeState) -> bool {
    &&& after.entries.len() == before.entries.len()
    &&& after.components.len() == before.components.len()
    &&& after.queued.len() == before.queued.len()
    &&& forall|i: int| #[trigger] evolves_at(body, before, after, i)
}

spec fn evolves_at(body: StackBody, before: EdgeState, after: EdgeState, i: int) -> bool {
    0 <= i < before.entries.len() ==> {
        &&& before.components[i].is_some() ==> after.components[i] == before.components[i]
        &&& before.entries[i].is_some() ==> after.entries[i].is_some() && (after.entries[i]
            == before.entries[i] || (closes_iterator(body, i) && is_closed_version(
            before.entries[i].unwrap(),
            after.entries[i].unwrap(),
        )))
        &&& after.entries[i] != before.entries[i] ==> after.queued[i]
        &&& before.queued[i] ==> after.queued[i]
    }
}

spec fn closes_iterator(body: StackBody, at: int) -> bool {
    body.instructions[at].decoded.instruction.opcode
        == FinalOpcode::IteratorClose
}

/// Whether a stack is another with its trailing record made closable.
spec fn is_closed_version(before: Seq<Slot>, after: Seq<Slot>) -> bool {
    match trailing_record(before) {
        Some((site, _)) => after == with_closable_record(before, site),
        None => false,
    }
}

proof fn lemma_closable_record(state: Seq<Slot>)
    requires
        trailing_record(state).is_some(),
    ensures
        ({
            let (site, kind) = trailing_record(state).unwrap();
            let closed = with_closable_record(state, site);
            &&& state.len() >= 3
            &&& closed.len() == state.len()
            &&& closed.take(closed.len() - 3) == state.take(state.len() - 3)
            &&& trailing_record(closed) == Some((site, ForOfRecordState::Closable))
            &&& with_closable_record(closed, site) == closed
            &&& kind == ForOfRecordState::Closable ==> closed == state
        }),
{
    let (site, kind) = trailing_record(state).unwrap();
    let closed = with_closable_record(state, site);
    let base = state.len() - 3;
    assert(closed.take(base) =~= state.take(base));
    assert(closed[base] == Slot::ForOfClosableIterator(site));
    assert(closed[base + 1] == Slot::ForOfClosableNextMethod(site));
    assert(closed[base + 2] == Slot::ForOfClosableCatch(site));
    assert(with_closable_record(closed, site) =~= closed);
    if kind == ForOfRecordState::Closable {
        assert(closed =~= state);
    }
}

/// A stack that fits a recorded one still fits after the recorded one was made
/// closable.
proof fn lemma_fit_survives_closing(
    target: InternalStackTarget,
    entry: Seq<Slot>,
    closed: Seq<Slot>,
    arriving: Seq<Slot>,
)
    requires
        target.iterator_close,
        is_closed_version(entry, closed),
        stack_fits(target, entry, arriving),
    ensures
        stack_fits(target, closed, arriving),
{
    lemma_closable_record(entry);
    if entry != arriving {
        assert(trailing_record(entry).is_some());
    }
}

proof fn lemma_merge(existing: Seq<Slot>, arriving: Seq<Slot>)
    requires
        merged_close_record(existing, arriving).is_some(),
    ensures
        ({
            let (merged, changed) = merged_close_record(existing, arriving).unwrap();
            &&& is_closed_version(existing, merged)
            &&& !changed ==> merged == existing
            &&& merged_close_record(merged, arriving) == Some((merged, false))
        }),
{
    lemma_closable_record(existing);
}

/// An edge that agrees with a state agrees with what the state evolves to.
proof fn lemma_agreement_survives(
    body: StackBody,
    edge: EdgeFacts,
    arriving: Seq<Slot>,
    before: EdgeState,
    after: EdgeState,
)
    requires
        evolves(body, before, after),
        before.entries.len() == body.instructions.len(),
        before.components.len() == body.instructions.len(),
        edge.target.iterator_close == closes_iterator(body, edge.successor.spec_get() as int),
        edge_agrees(edge, arriving, before),
    ensures
        edge_agrees(edge, arriving, after),
{
    let index = edge.successor.spec_get() as int;
    assert(evolves_at(body, before, after, index));
    let entry = before.entries[index].unwrap();
    let later = after.entries[index].unwrap();
    if entry != later && stack_fits(edge.target, entry, arriving) {
        lemma_fit_survives_closing(edge.target, entry, later, arriving);
    }
}

proof fn lemma_evolution_composes(
    body: StackBody,
    first: EdgeState,
    second: EdgeState,
    third: EdgeState,
)
    requires
        first.entries.len() == body.instructions.len(),
        first.components.len() == body.instructions.len(),
        first.queued.len() == body.instructions.len(),
        evolves(body, first, second),
        evolves(body, second, third),
    ensures
        evolves(body, first, third),
{
    assert forall|i: int| #[trigger] evolves_at(body, first, third, i) by {
        assert(evolves_at(body, first, second, i));
        assert(evolves_at(body, second, third, i));
        if 0 <= i < first.entries.len() && first.entries[i].is_some() && first.entries[i]
            != second.entries[i] && second.entries[i] != third.entries[i] {
            lemma_closable_record(first.entries[i].unwrap());
        }
    }
}

/// Propagation over an edge leaves the edge in agreement, and the state evolves.
proof fn lemma_propagation_agrees(
    body: StackBody,
    edge: EdgeFacts,
    output: Seq<Slot>,
    analysis: StackAnalysis,
    next: EdgeState,
    state_limit: u64,
)
    requires
        has_shape(body, analysis),
        body.instructions.len() <= usize::MAX,
        0 <= edge.successor.spec_get() < body.instructions.len(),
        edge.target.iterator_close == closes_iterator(body, edge.successor.spec_get() as int),
        propagated_stack(body.id, edge, output, analysis.edges, state_limit) == Ok::<
            EdgeState,
            BytecodeVerificationError,
        >(next),
    ensures
        edge_agrees(edge, output, next),
        evolves(body, analysis.edges, next),
        has_shape(body, StackAnalysis { edges: next, ..analysis }),
{
    let state = analysis.edges;
    let index = edge.successor.spec_get() as int;
    assert(state.entries[index].is_some() == state.components[index].is_some());
    if let Some(existing) = state.entries[index] {
        if existing != output && merged_close_record(existing, output).is_some() {
            lemma_merge(existing, output);
        }
    }
    assert(queue_holds(next)) by {
        lemma_enqueuing(state, next, index);
    }
    assert forall|i: int| #[trigger] evolves_at(body, state, next, i) by {}
}

/// Queueing one more instruction keeps the queue in order.
proof fn lemma_enqueuing(before: EdgeState, after: EdgeState, index: int)
    requires
        queue_holds(before),
        0 <= index < before.queued.len() <= usize::MAX,
        after.queued == before.queued && after.work == before.work || (!before.queued[index]
            && after.queued == before.queued.update(index, true) && after.work
            == before.work.push(index as usize)),
    ensures
        queue_holds(after),
{
    if !(after.queued == before.queued && after.work == before.work) {
        assert forall|i: int| 0 <= i < after.queued.len() && #[trigger] after.queued[i] implies
            is_waiting(after, i) by {
            if i == index {
                assert(after.work[after.work.len() - 1] == i);
            } else {
                assert(before.queued[i]);
                assert(is_waiting(before, i));
                let k = choose|k: int| 0 <= k < before.work.len() && #[trigger] before.work[k] == i;
                assert(after.work[k] == i);
            }
        }
        assert forall|j: int, k: int| 0 <= j < k < after.work.len() implies #[trigger] after.work[j]
            != #[trigger] after.work[k] by {
            assert(before.queued[before.work[j] as int]);
        }
    } else {
        assert forall|i: int| 0 <= i < after.queued.len() && #[trigger] after.queued[i] implies
            is_waiting(after, i) by {
            assert(is_waiting(before, i));
            let k = choose|k: int| 0 <= k < before.work.len() && #[trigger] before.work[k] == i;
            assert(after.work[k] == i);
        }
    }
}

/// A settled edge stays settled while the state evolves.
proof fn lemma_settled_edge_survives(
    body: StackBody,
    decoded: DecodedInstruction,
    component: u32,
    outcome: StackOutcome,
    edge: EffectiveEdge,
    before: EdgeState,
    after: EdgeState,
)
    requires
        evolves(body, before, after),
        before.entries.len() == body.instructions.len(),
        before.components.len() == body.instructions.len(),
        edge_is_settled(body, before, decoded, component, outcome, edge),
    ensures
        edge_is_settled(body, after, decoded, component, outcome, edge),
{
    let carried = edge_stack(
        body.id,
        decoded,
        outcome.step.transfer.iteration_branch_value,
        edge,
        outcome.state,
    );
    lemma_agreement_survives(
        body,
        edge_facts(body, decoded, component, edge),
        carried->Ok_0,
        before,
        after,
    );
}

/// Propagation over the edges from `at` on settles them.
proof fn lemma_edges_are_settled(
    body: StackBody,
    decoded: DecodedInstruction,
    component: u32,
    outcome: StackOutcome,
    edges: Seq<EffectiveEdge>,
    at: int,
    analysis: StackAnalysis,
)
    requires
        has_shape(body, analysis),
        body.instructions.len() <= usize::MAX,
        0 <= at,
        over_edges(body, decoded, component, outcome, edges, at, analysis).is_ok(),
    ensures
        ({
            let end = over_edges(body, decoded, component, outcome, edges, at, analysis)->Ok_0;
            &&& has_shape(body, end)
            &&& evolves(body, analysis.edges, end.edges)
            &&& end.certificates == analysis.certificates
            &&& end.next_seed == analysis.next_seed
            &&& forall|k: int|
                at <= k < edges.len() ==> edge_is_settled(
                    body,
                    end.edges,
                    decoded,
                    component,
                    outcome,
                    #[trigger] edges[k],
                )
        }),
    decreases edges.len() - at,
{
    if at < edges.len() {
        let edge = edges[at];
        let output = edge_stack(
            body.id,
            decoded,
            outcome.step.transfer.iteration_branch_value,
            edge,
            outcome.state,
        )->Ok_0;
        let evaluations = charged_transfers(
            body.id,
            analysis.evaluations,
            stack_cost(output.len()),
            body.base,
            body.limits.max_policy_transfers,
        )->Ok_0;
        let facts = edge_facts(body, decoded, component, edge);
        let next = propagated_stack(
            body.id,
            facts,
            output,
            analysis.edges,
            body.limits.max_frame_state_entries,
        )->Ok_0;
        lemma_propagation_agrees(
            body,
            facts,
            output,
            analysis,
            next,
            body.limits.max_frame_state_entries,
        );
        let later = StackAnalysis { edges: next, evaluations, ..analysis };
        assert(has_shape(body, later));
        lemma_edges_are_settled(body, decoded, component, outcome, edges, at + 1, later);
        let end = over_edges(body, decoded, component, outcome, edges, at, analysis)->Ok_0;
        lemma_evolution_composes(body, analysis.edges, next, end.edges);
        lemma_settled_edge_survives(
            body,
            decoded,
            component,
            outcome,
            edge,
            next,
            end.edges,
        );
    } else {
        assert forall|i: int| #[trigger]
            evolves_at(body, analysis.edges, analysis.edges, i) by {}
    }
}

/// An instruction that is settled and whose own record stays is settled after
/// the state evolves.
proof fn lemma_settled_survives(
    body: StackBody,
    before: EdgeState,
    after: EdgeState,
    certificates: Certificates,
    later: Certificates,
    at: int,
)
    requires
        0 <= at < body.instructions.len(),
        evolves(body, before, after),
        before.entries.len() == body.instructions.len(),
        before.components.len() == body.instructions.len(),
        after.entries[at] == before.entries[at],
        later.iteration[at] == certificates.iteration[at],
        later.catching[at] == certificates.catching[at],
        later.nips[at] == certificates.nips[at],
        later.rets[at] == certificates.rets[at],
        is_settled(body, before, certificates, at),
    ensures
        is_settled(body, after, later, at),
{
    assert(evolves_at(body, before, after, at));
    let verified = body.instructions[at];
    let component = before.components[at].unwrap();
    let entry = before.entries[at].unwrap();
    let outcome = stack_transfer(
        body.id,
        verified.decoded,
        component == 0,
        verified.successors.spec_branch_target(),
        body.instructions,
        entry,
    )->Ok_0.unwrap();
    let edges = effective_edges(
        body.instructions,
        at,
        body.targets.continuations,
        outcome.step.transfer.ret_finalizer,
    );
    assert forall|k: int|
        0 <= k < edges.len() && outcome.step.transfer.normal_completion implies edge_is_settled(
        body,
        after,
        verified.decoded,
        component,
        outcome,
        #[trigger] edges[k],
    ) by {
        lemma_settled_edge_survives(
            body,
            verified.decoded,
            component,
            outcome,
            edges[k],
            before,
            after,
        );
    }
}

/// What holds between rounds: instructions that were visited and are not queued
/// are settled.
spec fn between_rounds(body: StackBody, analysis: StackAnalysis) -> bool {
    &&& has_shape(body, analysis)
    &&& forall|i: int|
        0 <= i < body.instructions.len() && analysis.edges.entries[i].is_some()
            && !analysis.edges.queued[i] ==> #[trigger] is_settled(
            body,
            analysis.edges,
            analysis.certificates,
            i,
        )
}

/// Transfer and record at one instruction leave the records of the others.
proof fn lemma_transfer_records(
    body: StackBody,
    analysis: StackAnalysis,
    index: int,
    component: u32,
    entry: Seq<Slot>,
)
    requires
        has_shape(body, analysis),
        0 <= index < body.instructions.len(),
        certified_transfer(
            body.id,
            index,
            body.instructions[index].decoded,
            component == 0,
            body.instructions[index].successors.spec_branch_target(),
            body.instructions,
            entry,
            analysis.certificates,
        ).is_ok(),
    ensures
        ({
            let verified = body.instructions[index];
            let (outcome, later) = certified_transfer(
                body.id,
                index,
                verified.decoded,
                component == 0,
                verified.successors.spec_branch_target(),
                body.instructions,
                entry,
                analysis.certificates,
            )->Ok_0;
            let earlier = analysis.certificates;
            &&& stack_transfer(
                body.id,
                verified.decoded,
                component == 0,
                verified.successors.spec_branch_target(),
                body.instructions,
                entry,
            ) == Ok::<Option<StackOutcome>, BytecodeVerificationError>(
                Some(outcome),
            )
            &&& is_recorded(later, index, outcome.step.certification)
            &&& later.iteration.len() == earlier.iteration.len()
            &&& later.catching.len() == earlier.catching.len()
            &&& later.nips.len() == earlier.nips.len()
            &&& later.rets.len() == earlier.rets.len()
            &&& forall|i: int|
                0 <= i < body.instructions.len() && i != index ==> #[trigger] later.iteration[i]
                    == earlier.iteration[i]
            &&& forall|i: int|
                0 <= i < body.instructions.len() && i != index ==> #[trigger] later.catching[i]
                    == earlier.catching[i]
            &&& forall|i: int|
                0 <= i < body.instructions.len() && i != index ==> #[trigger] later.nips[i]
                    == earlier.nips[i]
            &&& forall|i: int|
                0 <= i < body.instructions.len() && i != index ==> #[trigger] later.rets[i]
                    == earlier.rets[i]
        }),
{
}

/// Taking the oldest instruction out of the queue keeps the queue in order.
proof fn lemma_taking(before: EdgeState, after: EdgeState)
    requires
        queue_holds(before),
        before.work.len() > 0,
        after.work == before.work.skip(1),
        after.queued == before.queued.update(before.work[0] as int, false),
    ensures
        queue_holds(after),
{
    assert forall|k: int| 0 <= k < after.work.len() implies after.queued[#[trigger] after.work[k]
        as int] by {
        assert(after.work[k] == before.work[k + 1]);
        assert(before.work[0] != before.work[k + 1]);
        assert(before.queued[before.work[k + 1] as int]);
    }
    assert forall|i: int| 0 <= i < after.queued.len() && #[trigger] after.queued[i] implies
        is_waiting(after, i) by {
        assert(before.queued[i]);
        assert(is_waiting(before, i));
        let k = choose|k: int| 0 <= k < before.work.len() && #[trigger] before.work[k] == i;
        assert(after.work[k - 1] == i);
    }
}

/// A round leaves what holds between rounds.
proof fn lemma_evaluation_settles(body: StackBody, analysis: StackAnalysis)
    requires
        between_rounds(body, analysis),
        body.instructions.len() <= usize::MAX,
        analysis.edges.work.len() > 0,
        evaluated_stack(body, analysis).is_ok(),
    ensures
        ({
            let end = evaluated_stack(body, analysis)->Ok_0;
            &&& between_rounds(body, end)
            &&& end.next_seed == analysis.next_seed
            &&& forall|i: int|
                0 <= i < body.instructions.len() && analysis.edges.entries[i] == Some(
                    Seq::<Slot>::empty(),
                ) ==> #[trigger] end.edges.entries[i] == Some(Seq::<Slot>::empty())
            &&& forall|i: int|
                0 <= i < body.instructions.len() && analysis.edges.entries[i].is_some()
                    ==> (#[trigger] end.edges.entries[i]).is_some()
        }),
{
    let index = analysis.edges.work[0] as int;
    let verified = body.instructions[index];
    let decoded = verified.decoded;
    let taken = EdgeState {
        work: analysis.edges.work.skip(1),
        queued: analysis.edges.queued.update(index, false),
        ..analysis.edges
    };
    lemma_taking(analysis.edges, taken);
    let component = taken.components[index].unwrap();
    let entry = taken.entries[index].unwrap();
    let evaluations = charged_transfers(
        body.id,
        analysis.evaluations,
        stack_cost(entry.len()),
        body.base,
        body.limits.max_policy_transfers,
    )->Ok_0;
    let (outcome, certificates) = certified_transfer(
        body.id,
        index,
        decoded,
        component == 0,
        verified.successors.spec_branch_target(),
        body.instructions,
        entry,
        analysis.certificates,
    )->Ok_0;
    lemma_transfer_records(body, analysis, index, component, entry);
    let transferred = StackAnalysis { edges: taken, certificates, evaluations, ..analysis };
    assert(has_shape(body, transferred));
    let edges = effective_edges(
        body.instructions,
        index,
        body.targets.continuations,
        outcome.step.transfer.ret_finalizer,
    );
    let end = evaluated_stack(body, analysis)->Ok_0;
    if outcome.step.transfer.normal_completion && edges.len() > 0 {
        lemma_edges_are_settled(body, decoded, component, outcome, edges, 0, transferred);
    } else {
        assert(end.edges == taken);
        assert forall|i: int| #[trigger] evolves_at(body, taken, taken, i) by {}
    }
    assert(evolves(body, taken, end.edges));
    assert(end.certificates == certificates);
    assert forall|i: int|
        0 <= i < body.instructions.len() && end.edges.entries[i].is_some()
            && !end.edges.queued[i] implies #[trigger] is_settled(
        body,
        end.edges,
        end.certificates,
        i,
    ) by {
        assert(evolves_at(body, taken, end.edges, i));
        assert(end.edges.entries[i] == taken.entries[i]);
        if i == index {
            assert(end.edges.components[i] == Some(component));
            assert(leaves_settled(body, end.edges, decoded, i, component, outcome));
        } else {
            assert(!analysis.edges.queued[i]);
            assert(is_settled(body, analysis.edges, analysis.certificates, i));
            lemma_taken_settled(body, analysis.edges, taken, analysis.certificates, i);
            lemma_settled_survives(
                body,
                taken,
                end.edges,
                analysis.certificates,
                certificates,
                i,
            );
        }
    }
    assert forall|i: int|
        0 <= i < body.instructions.len() && analysis.edges.entries[i] == Some(
            Seq::<Slot>::empty(),
        ) implies #[trigger] end.edges.entries[i] == Some(Seq::<Slot>::empty()) by {
        assert(evolves_at(body, taken, end.edges, i));
    }
    assert forall|i: int|
        0 <= i < body.instructions.len() && analysis.edges.entries[i].is_some() implies (
    #[trigger] end.edges.entries[i]).is_some() by {
        assert(evolves_at(body, taken, end.edges, i));
    }
}

/// Whether an instruction is settled does not rest on the queue.
proof fn lemma_taken_settled(
    body: StackBody,
    before: EdgeState,
    after: EdgeState,
    certificates: Certificates,
    at: int,
)
    requires
        0 <= at < body.instructions.len(),
        before.entries.len() == body.instructions.len(),
        before.components.len() == body.instructions.len(),
        after.entries == before.entries,
        after.components == before.components,
        is_settled(body, before, certificates, at),
    ensures
        is_settled(body, after, certificates, at),
{
    let verified = body.instructions[at];
    let component = before.components[at].unwrap();
    let outcome = stack_transfer(
        body.id,
        verified.decoded,
        component == 0,
        verified.successors.spec_branch_target(),
        body.instructions,
        before.entries[at].unwrap(),
    )->Ok_0.unwrap();
    let edges = effective_edges(
        body.instructions,
        at,
        body.targets.continuations,
        outcome.step.transfer.ret_finalizer,
    );
    assert forall|k: int|
        0 <= k < edges.len() && outcome.step.transfer.normal_completion implies edge_is_settled(
        body,
        after,
        verified.decoded,
        component,
        outcome,
        #[trigger] edges[k],
    ) by {
        assert(edge_is_settled(body, before, verified.decoded, component, outcome, edges[k]));
    }
}

/// Seeding an unvisited instruction leaves what holds between rounds.
proof fn lemma_seeding_settles(body: StackBody, analysis: StackAnalysis, seed: int)
    requires
        between_rounds(body, analysis),
        body.instructions.len() <= usize::MAX,
        analysis.edges.work.len() == 0,
        0 <= seed < body.instructions.len(),
        analysis.edges.entries[seed].is_none(),
    ensures
        between_rounds(body, seeded(analysis, seed)),
{
    let next = seeded(analysis, seed);
    let state = analysis.edges;
    assert(state.components[seed].is_none()) by {
        assert(state.entries[seed].is_some() == state.components[seed].is_some());
    }
    assert(!state.queued[seed]) by {
        if state.queued[seed] {
            assert(is_waiting(state, seed));
        }
    }
    lemma_enqueuing(state, next.edges, seed);
    assert(evolves(body, state, next.edges)) by {
        assert forall|i: int| #[trigger] evolves_at(body, state, next.edges, i) by {}
    }
    assert(has_shape(body, next));
    assert forall|i: int|
        0 <= i < body.instructions.len() && next.edges.entries[i].is_some()
            && !next.edges.queued[i] implies #[trigger] is_settled(
        body,
        next.edges,
        next.certificates,
        i,
    ) by {
        assert(i != seed);
        assert(is_settled(body, state, analysis.certificates, i));
        lemma_settled_survives(
            body,
            state,
            next.edges,
            analysis.certificates,
            analysis.certificates,
            i,
        );
    }
}

proof fn lemma_seed_is_unvisited(
    entries: Seq<Option<Seq<Slot>>>,
    targets: ProtectedTargets,
    from: int,
)
    requires
        0 <= from,
    ensures
        ({
            let seed = seed_from(entries, targets, from);
            &&& from <= seed
            &&& seed < entries.len() ==> entries[seed].is_none()
            &&& forall|i: int|
                from <= i < seed && i < entries.len() ==> (#[trigger] entries[i]).is_some()
                    || targets.handlers[i] || targets.subroutines[i]
        }),
    decreases entries.len() - from,
{
    if from < entries.len() && (entries[from].is_some() || targets.handlers[from]
        || targets.subroutines[from]) {
        lemma_seed_is_unvisited(entries, targets, from + 1);
    }
}

proof fn lemma_all_protected_entered(
    entries: Seq<Option<Seq<Slot>>>,
    targets: ProtectedTargets,
    from: int,
)
    requires
        0 <= from,
        unentered_from(entries, targets, from).is_none(),
    ensures
        forall|i: int|
            from <= i < entries.len() ==> (#[trigger] entries[i]).is_some() || (
            !targets.handlers[i] && !targets.subroutines[i]),
    decreases entries.len() - from,
{
    if from < entries.len() {
        lemma_all_protected_entered(entries, targets, from + 1);
    }
}

/// Whether all unprotected instructions below the next seed were visited, and
/// the first instruction was visited with an empty stack unless it is protected
/// or nothing was visited yet.
spec fn seeds_so_far(body: StackBody, analysis: StackAnalysis) -> bool {
    &&& 0 <= analysis.next_seed <= body.instructions.len()
    &&& forall|i: int|
        0 <= i < analysis.next_seed ==> (#[trigger] analysis.edges.entries[i]).is_some()
            || body.targets.handlers[i] || body.targets.subroutines[i]
    &&& body.instructions.len() > 0 && !body.targets.handlers[0] && !body.targets.subroutines[0]
        ==> analysis.edges.entries[0] == Some(Seq::<Slot>::empty()) || (analysis.next_seed == 0
        && analysis.edges.work.len() == 0 && analysis.edges.entries[0].is_none())
}

/// A run that reaches its end leaves stacks that agree.
proof fn lemma_analysis_agrees(body: StackBody, analysis: StackAnalysis)
    requires
        between_rounds(body, analysis),
        seeds_so_far(body, analysis),
        body.instructions.len() <= usize::MAX,
        stack_analysis_from(body, analysis).is_ok(),
    ensures
        stacks_agree(body, stack_analysis_from(body, analysis)->Ok_0),
    decreases u64::MAX - analysis.evaluations,
{
    let state = analysis.edges;
    let seed = seed_from(state.entries, body.targets, analysis.next_seed);
    lemma_seed_is_unvisited(state.entries, body.targets, analysis.next_seed);
    if state.work.len() > 0 {
        let next = evaluated_stack(body, analysis)->Ok_0;
        lemma_evaluation_charges(body, analysis);
        lemma_evaluation_settles(body, analysis);
        lemma_analysis_agrees(body, next);
    } else if seed < state.entries.len() {
        let start = seeded(analysis, seed);
        lemma_seeding_settles(body, analysis, seed);
        let next = evaluated_stack(body, start)->Ok_0;
        lemma_evaluation_charges(body, start);
        lemma_evaluation_settles(body, start);
        assert(seeds_so_far(body, start));
        lemma_analysis_agrees(body, next);
    } else {
        lemma_all_protected_entered(state.entries, body.targets, 0);
        assert forall|i: int| 0 <= i < body.instructions.len() implies #[trigger] is_settled(
            body,
            state,
            analysis.certificates,
            i,
        ) by {
            assert(state.entries[i].is_some());
            if state.queued[i] {
                assert(is_waiting(state, i));
            }
        }
        if body.instructions.len() > 0 {
            assert(state.entries[0].is_some());
        }
    }
}

proof fn lemma_targets_cover(
    id: FunctionTemplateId,
    instructions: Seq<VerifiedInstruction>,
    at: int,
    targets: ProtectedTargets,
    state_limit: u64,
)
    requires
        0 <= at,
        targets_from(id, instructions, at, targets, state_limit).is_ok(),
    ensures
        ({
            let end = targets_from(id, instructions, at, targets, state_limit)->Ok_0;
            &&& end.handlers.len() == targets.handlers.len()
            &&& end.subroutines.len() == targets.subroutines.len()
        }),
    decreases instructions.len() - at,
{
    if at < instructions.len() {
        let next = with_targets_of(id, instructions[at], targets, state_limit)->Ok_0;
        lemma_targets_cover(id, instructions, at + 1, next, state_limit);
    }
}

/// A transfer certifies a return from a finally subroutine exactly where it
/// continues behind one.
pub proof fn lemma_returns_are_certified(
    id: FunctionTemplateId,
    decoded: DecodedInstruction,
    reachable: bool,
    catch_handler: Option<InstructionIndex>,
    instructions: Seq<VerifiedInstruction>,
    state: Seq<Slot>,
)
    ensures
        match stack_transfer(id, decoded, reachable, catch_handler, instructions, state) {
            Ok(Some(outcome)) => match outcome.step.transfer.ret_finalizer {
                Some(target) => outcome.step.certification == Certification::Ret(target),
                None => !(outcome.step.certification is Ret),
            },
            _ => true,
        },
{
}

/// Typed stacks agree: for a certified body that uses internal markers there is
/// a stack for each instruction such that the body starts with the empty stack,
/// every transfer from these stacks succeeds and is recorded in the certificate,
/// every edge of the effective control flow carries a stack that fits the one at
/// its target, and every exit leaves an admissible stack.
pub proof fn lemma_typed_stacks_agree(
    id: FunctionTemplateId,
    instructions: Seq<VerifiedInstruction>,
    limits: BytecodeGraphVerificationLimits,
    usage: BytecodeGraphUsage,
)
    requires
        has_markers(instructions),
        instructions.len() <= usize::MAX,
        stack_certificate(id, instructions, limits, usage).is_ok(),
    ensures
        exists|body: StackBody, analysis: StackAnalysis|
            #![trigger stacks_agree(body, analysis)]
            {
                let certificate = stack_certificate(id, instructions, limits, usage)->Ok_0.0;
                &&& body.id == id
                &&& body.instructions == instructions
                &&& body.targets.continuations == certificate.continuations
                &&& analysis.certificates == certificate.certificates
                &&& stacks_agree(body, analysis)
            },
{
    let none = no_targets(instructions.len(), usage);
    let targets = targets_from(id, instructions, 0, none, limits.max_frame_state_entries)->Ok_0;
    lemma_targets_cover(id, instructions, 0, none, limits.max_frame_state_entries);
    let body = StackBody { id, instructions, targets, limits, base: usage.policy_transfers };
    let first = initial_analysis(instructions.len(), targets.usage);
    let end = stack_analysis_from(body, first)->Ok_0;
    assert(between_rounds(body, first));
    assert(seeds_so_far(body, first));
    lemma_analysis_agrees(body, first);
    assert(stacks_agree(body, end));
}

} // verus!
