//! What the analysis of object definitions guarantees: the origins that it ends
//! with cover what arrives along every edge of the effective control flow.
use crate::bytecode::error::BytecodeVerificationError;
use crate::bytecode::internal_stack::{EffectiveEdge, effective_edges, entry_at};
use crate::bytecode::internal_verifier::stack_cost;
use crate::bytecode::model::BytecodeGraphUsage;
use crate::bytecode::object_provenance::{DefinitionBody, definition_check, definition_transfer};
use crate::bytecode::object_verifier::{
    DefinitionState, definition_certification, definition_seed_from, definitions_from,
    edge_origins, evaluated_definition, initial_definitions, joined, joined_stacks,
    lemma_definition_evaluation, over_definition_edges, propagated_origins, seeded_definition,
    spec_is_generator_kind, starts_subroutine,
};
use crate::bytecode::provenance::{ObjectDefinitionProvenance as Origin, spec_any_append};
use crate::bytecode::stack_error::charged_transfers;
use crate::instruction::DecodedInstruction;
use crate::opcode::FinalOpcode;
use vstd::prelude::*;

verus! {

/// Whether recorded origins cover those that arrive: joining them changes
/// nothing.
pub open spec fn covers(entry: Seq<Origin>, arriving: Seq<Origin>) -> bool {
    joined_stacks(entry, arriving) == Some(entry)
}

/// Whether an edge carries origins that the recorded ones cover.
pub open(crate) spec fn edge_is_covered(
    body: DefinitionBody,
    entries: Seq<Option<Seq<Origin>>>,
    stack: Seq<Origin>,
    edge: EffectiveEdge,
) -> bool {
    let position = edge.target.spec_get() as int;
    &&& position < body.instructions.len()
    &&& entries[position].is_some()
    &&& covers(entries[position].unwrap(), edge_origins(edge, stack))
}

/// Effective edges out of an instruction of a body.
pub open(crate) spec fn definition_edges(body: DefinitionBody, at: int) -> Seq<EffectiveEdge> {
    effective_edges(
        body.instructions,
        at,
        body.certificate.continuations,
        entry_at(body.certificate.certificates.rets, at),
    )
}

/// Whether control leaves an instruction along covered edges, or ends without
/// abandoning an array under construction.
pub open(crate) spec fn leaves_covered(
    body: DefinitionBody,
    entries: Seq<Option<Seq<Origin>>>,
    at: int,
    stack: Seq<Origin>,
) -> bool {
    let edges = definition_edges(body, at);
    let opcode = body.instructions[at].decoded.instruction.opcode;
    &&& edges.len() == 0 && spec_any_append(stack, 0) ==> opcode == FinalOpcode::ReturnAsync
        && spec_is_generator_kind(body.executable_kind)
    &&& forall|k: int|
        0 <= k < edges.len() ==> edge_is_covered(body, entries, stack, #[trigger] edges[k])
}

/// Whether a definition is certified at an instruction: the check of its target
/// passes on the recorded origins, its transfer succeeds, and control leaves it
/// along covered edges.
pub open(crate) spec fn is_certified(
    body: DefinitionBody,
    entries: Seq<Option<Seq<Origin>>>,
    at: int,
) -> bool {
    let decoded = body.instructions[at].decoded;
    match entries[at] {
        Some(entry) => definition_check(body.id, body.atoms, decoded, entry).is_ok()
            && match definition_transfer(body, at, decoded, entry) {
            Ok(Some(stack)) => leaves_covered(body, entries, at, stack),
            Ok(None) => true,
            Err(_) => false,
        },
        None => false,
    }
}

/// Whether every instruction is certified, but for those of finally subroutines
/// that nothing enters.
pub open(crate) spec fn origins_agree(
    body: DefinitionBody,
    entries: Seq<Option<Seq<Origin>>>,
) -> bool {
    &&& entries.len() == body.instructions.len()
    &&& forall|i: int|
        0 <= i < body.instructions.len() && entries[i].is_some() ==> #[trigger] is_certified(
            body,
            entries,
            i,
        )
    &&& forall|i: int|
        0 <= i < body.instructions.len() && (#[trigger] entries[i]).is_none()
            ==> starts_subroutine(body, i)
}

/// What is joined in is covered afterwards, and what was covered stays so.
proof fn lemma_slot_joins(entry: Origin, arriving: Origin, other: Origin)
    requires
        joined(entry, other).is_some(),
    ensures
        joined(joined(entry, other).unwrap(), other) == joined(entry, other),
        joined(entry, arriving) == Some(entry) ==> joined(
            joined(entry, other).unwrap(),
            arriving,
        ) == joined(entry, other),
{
}

/// Joining covers what is joined in and keeps what was covered.
proof fn lemma_joins_cover(entry: Seq<Origin>, arriving: Seq<Origin>, other: Seq<Origin>)
    requires
        joined_stacks(entry, other).is_some(),
    ensures
        covers(joined_stacks(entry, other).unwrap(), other),
        covers(entry, arriving) ==> covers(joined_stacks(entry, other).unwrap(), arriving),
{
    let merged = joined_stacks(entry, other).unwrap();
    if entry.len() == other.len() {
        assert forall|i: int| 0 <= i < entry.len() implies #[trigger] joined(merged[i], other[i])
            == Some(merged[i]) by {
            assert(joined(entry[i], other[i]).is_some());
            lemma_slot_joins(entry[i], other[i], other[i]);
        }
    }
    assert(joined_stacks(merged, other).unwrap() =~= merged);
    if covers(entry, arriving) {
        lemma_cover_survives(entry, arriving, other, merged);
    }
}

proof fn lemma_cover_survives(
    entry: Seq<Origin>,
    arriving: Seq<Origin>,
    other: Seq<Origin>,
    merged: Seq<Origin>,
)
    requires
        joined_stacks(entry, other) == Some(merged),
        covers(entry, arriving),
    ensures
        covers(merged, arriving),
{
    if entry.len() == arriving.len() {
        assert forall|i: int| 0 <= i < entry.len() implies #[trigger] joined(
            merged[i],
            arriving[i],
        ) == Some(merged[i]) by {
            assert(joined(entry[i], arriving[i]).is_some());
            assert(joined_stacks(entry, arriving).unwrap()[i] == entry[i]);
            if entry.len() == other.len() {
                assert(joined(entry[i], other[i]).is_some());
                lemma_slot_joins(entry[i], arriving[i], other[i]);
            }
        }
        assert(joined_stacks(merged, arriving).unwrap() =~= merged);
    } else {
        assert forall|i: int| 0 <= i < entry.len() implies #[trigger] entry[i]
            == Origin::Unknown by {
            assert(joined_stacks(entry, arriving).unwrap()[i] == entry[i]);
        }
        assert forall|i: int| 0 <= i < entry.len() implies #[trigger] merged[i]
            == Origin::Unknown by {
            if entry.len() == other.len() {
                assert(joined(entry[i], other[i]).is_some());
            }
        }
        assert(joined_stacks(merged, arriving).unwrap() =~= merged);
    }
}

spec fn queue_holds(state: DefinitionState) -> bool {
    &&& forall|k: int| 0 <= k < state.work.len() ==> (#[trigger] state.work[k]) < state.queued.len()
    &&& forall|i: int| 0 <= i < state.queued.len() && #[trigger] state.queued[i] ==> is_waiting(
        state,
        i,
    )
    &&& forall|k: int|
        0 <= k < state.work.len() ==> state.queued[#[trigger] state.work[k] as int]
    &&& forall|j: int, k: int|
        0 <= j < k < state.work.len() ==> #[trigger] state.work[j] != #[trigger] state.work[k]
}

spec fn is_waiting(state: DefinitionState, at: int) -> bool {
    exists|k: int| 0 <= k < state.work.len() && #[trigger] state.work[k] == at
}

spec fn has_shape(body: DefinitionBody, state: DefinitionState) -> bool {
    &&& state.entries.len() == body.instructions.len()
    &&& state.queued.len() == body.instructions.len()
    &&& queue_holds(state)
}

/// How propagation changes a state: recorded origins keep covering what they
/// covered, and what changes is queued.
spec fn evolves(before: DefinitionState, after: DefinitionState) -> bool {
    &&& after.entries.len() == before.entries.len()
    &&& after.queued.len() == before.queued.len()
    &&& forall|i: int| #[trigger] evolves_at(before, after, i)
}

spec fn evolves_at(before: DefinitionState, after: DefinitionState, i: int) -> bool {
    0 <= i < before.entries.len() ==> {
        &&& before.entries[i].is_some() ==> after.entries[i].is_some() && covers_more(
            before.entries[i].unwrap(),
            after.entries[i].unwrap(),
        )
        &&& after.entries[i] != before.entries[i] ==> after.queued[i]
        &&& before.queued[i] ==> after.queued[i]
    }
}

spec fn covers_more(before: Seq<Origin>, after: Seq<Origin>) -> bool {
    forall|arriving: Seq<Origin>| covers(before, arriving) ==> #[trigger] covers(after, arriving)
}

proof fn lemma_evolution_composes(
    first: DefinitionState,
    second: DefinitionState,
    third: DefinitionState,
)
    requires
        first.entries.len() == first.queued.len(),
        evolves(first, second),
        evolves(second, third),
    ensures
        evolves(first, third),
{
    assert forall|i: int| #[trigger] evolves_at(first, third, i) by {
        assert(evolves_at(first, second, i));
        assert(evolves_at(second, third, i));
        if 0 <= i < first.entries.len() && first.entries[i].is_some() {
            let (a, b, c) = (
                first.entries[i].unwrap(),
                second.entries[i].unwrap(),
                third.entries[i].unwrap(),
            );
            assert forall|arriving: Seq<Origin>| covers(a, arriving) implies #[trigger] covers(
                c,
                arriving,
            ) by {
                assert(covers(b, arriving));
            }
        }
    }
}

/// Queueing one more instruction keeps the queue in order.
proof fn lemma_enqueuing(before: DefinitionState, after: DefinitionState, index: int)
    requires
        queue_holds(before),
        0 <= index < before.queued.len() <= usize::MAX,
        after.queued == before.queued && after.work == before.work || (!before.queued[index]
            && after.queued == before.queued.update(index, true) && after.work
            == before.work.push(index as usize)),
    ensures
        queue_holds(after),
{
    assert forall|i: int| 0 <= i < after.queued.len() && #[trigger] after.queued[i] implies
        is_waiting(after, i) by {
        if before.queued[i] {
            assert(is_waiting(before, i));
            let k = choose|k: int| 0 <= k < before.work.len() && #[trigger] before.work[k] == i;
            assert(after.work[k] == i);
        } else {
            assert(after.work[after.work.len() - 1] == i);
        }
    }
    assert forall|j: int, k: int| 0 <= j < k < after.work.len() implies #[trigger] after.work[j]
        != #[trigger] after.work[k] by {
        assert(before.queued[before.work[j] as int]);
    }
}

/// Propagation over an edge leaves it covered, and the state evolves.
proof fn lemma_propagation_covers(
    body: DefinitionBody,
    decoded: DecodedInstruction,
    index: int,
    output: Seq<Origin>,
    state: DefinitionState,
    next: DefinitionState,
)
    requires
        has_shape(body, state),
        0 <= index < body.instructions.len() <= usize::MAX,
        propagated_origins(
            body.id,
            decoded.pc,
            index,
            body.instructions[index].decoded.pc,
            output,
            state,
            body.limits.max_frame_state_entries,
        ) == Ok::<DefinitionState, BytecodeVerificationError>(next),
    ensures
        next.entries[index].is_some(),
        covers(next.entries[index].unwrap(), output),
        evolves(state, next),
        has_shape(body, next),
        next.next_seed == state.next_seed,
{
    lemma_enqueuing(state, next, index);
    match state.entries[index] {
        Some(existing) => {
            lemma_joins_cover(existing, output, output);
            let merged = joined_stacks(existing, output).unwrap();
            assert forall|arriving: Seq<Origin>| covers(existing, arriving) implies
                #[trigger] covers(merged, arriving) by {
                lemma_joins_cover(existing, arriving, output);
            }
        },
        None => {
            lemma_stack_covers_itself(output);
        },
    }
    assert forall|i: int| #[trigger] evolves_at(state, next, i) by {}
}

proof fn lemma_stack_covers_itself(stack: Seq<Origin>)
    ensures
        covers(stack, stack),
{
    assert forall|i: int| 0 <= i < stack.len() implies #[trigger] joined(stack[i], stack[i])
        == Some(stack[i]) by {}
    assert(joined_stacks(stack, stack).unwrap() =~= stack);
}

/// Propagation over the edges from `at` on leaves them covered.
proof fn lemma_edges_are_covered(
    body: DefinitionBody,
    decoded: DecodedInstruction,
    stack: Seq<Origin>,
    edges: Seq<EffectiveEdge>,
    at: int,
    state: DefinitionState,
)
    requires
        has_shape(body, state),
        body.instructions.len() <= usize::MAX,
        0 <= at,
        over_definition_edges(body, decoded, stack, edges, at, state).is_ok(),
    ensures
        ({
            let end = over_definition_edges(body, decoded, stack, edges, at, state)->Ok_0;
            &&& has_shape(body, end)
            &&& evolves(state, end)
            &&& end.next_seed == state.next_seed
            &&& forall|k: int|
                at <= k < edges.len() ==> edge_is_covered(
                    body,
                    end.entries,
                    stack,
                    #[trigger] edges[k],
                )
        }),
    decreases edges.len() - at,
{
    if at < edges.len() {
        let edge = edges[at];
        let position = edge.target.spec_get() as int;
        let output = edge_origins(edge, stack);
        let evaluations = charged_transfers(
            body.id,
            state.evaluations,
            stack_cost(output.len()),
            body.base,
            body.limits.max_policy_transfers,
        )->Ok_0;
        let charged = DefinitionState { evaluations, ..state };
        let next = propagated_origins(
            body.id,
            decoded.pc,
            position,
            body.instructions[position].decoded.pc,
            output,
            charged,
            body.limits.max_frame_state_entries,
        )->Ok_0;
        assert(has_shape(body, charged)) by {
            lemma_enqueuing(state, charged, position);
        }
        lemma_propagation_covers(body, decoded, position, output, charged, next);
        lemma_edges_are_covered(body, decoded, stack, edges, at + 1, next);
        let end = over_definition_edges(body, decoded, stack, edges, at, state)->Ok_0;
        assert(evolves(state, next)) by {
            assert forall|i: int| #[trigger] evolves_at(state, next, i) by {
                assert(evolves_at(charged, next, i));
            }
        }
        lemma_evolution_composes(state, next, end);
        assert(evolves_at(next, end, position));
        assert(covers(end.entries[position].unwrap(), output));
    } else {
        assert forall|i: int| #[trigger] evolves_at(state, state, i) by {}
    }
}

/// A certified instruction whose own record stays is certified after the state
/// evolves.
proof fn lemma_certified_survives(
    body: DefinitionBody,
    before: DefinitionState,
    after: DefinitionState,
    at: int,
)
    requires
        0 <= at < body.instructions.len(),
        before.entries.len() == body.instructions.len(),
        evolves(before, after),
        after.entries[at] == before.entries[at],
        is_certified(body, before.entries, at),
    ensures
        is_certified(body, after.entries, at),
{
    let decoded = body.instructions[at].decoded;
    let entry = before.entries[at].unwrap();
    if let Ok(Some(stack)) = definition_transfer(body, at, decoded, entry) {
        let edges = definition_edges(body, at);
        assert(leaves_covered(body, before.entries, at, stack));
        assert forall|k: int| 0 <= k < edges.len() implies edge_is_covered(
            body,
            after.entries,
            stack,
            #[trigger] edges[k],
        ) by {
            assert(edge_is_covered(body, before.entries, stack, edges[k]));
            let position = edges[k].target.spec_get() as int;
            assert(evolves_at(before, after, position));
            assert(covers(after.entries[position].unwrap(), edge_origins(edges[k], stack)));
        }
    }
}

/// What holds between rounds: instructions that were visited and are not queued
/// are certified.
spec fn between_rounds(body: DefinitionBody, state: DefinitionState) -> bool {
    &&& has_shape(body, state)
    &&& forall|i: int|
        0 <= i < body.instructions.len() && state.entries[i].is_some() && !state.queued[i]
            ==> #[trigger] is_certified(body, state.entries, i)
}

/// Taking the oldest instruction out of the queue keeps the queue in order.
proof fn lemma_taking(before: DefinitionState, after: DefinitionState)
    requires
        queue_holds(before),
        before.work.len() > 0,
        after.work == before.work.skip(1),
        after.queued == before.queued.update(before.work[0] as int, false),
    ensures
        queue_holds(after),
{
    assert forall|k: int| 0 <= k < after.work.len() implies after.queued[#[trigger] after.work[k]
        as int] by {
        assert(after.work[k] == before.work[k + 1]);
        assert(before.work[0] != before.work[k + 1]);
        assert(before.queued[before.work[k + 1] as int]);
    }
    assert forall|i: int| 0 <= i < after.queued.len() && #[trigger] after.queued[i] implies
        is_waiting(after, i) by {
        assert(before.queued[i]);
        assert(is_waiting(before, i));
        let k = choose|k: int| 0 <= k < before.work.len() && #[trigger] before.work[k] == i;
        assert(after.work[k - 1] == i);
    }
}

/// A round leaves what holds between rounds.
proof fn lemma_evaluation_certifies(body: DefinitionBody, state: DefinitionState)
    requires
        between_rounds(body, state),
        body.instructions.len() <= usize::MAX,
        state.work.len() > 0,
        evaluated_definition(body, state).is_ok(),
    ensures
        ({
            let end = evaluated_definition(body, state)->Ok_0;
            &&& between_rounds(body, end)
            &&& end.next_seed == state.next_seed
            &&& forall|i: int|
                0 <= i < body.instructions.len() && state.entries[i].is_some() ==> (
                #[trigger] end.entries[i]).is_some()
        }),
{
    let index = state.work[0] as int;
    let decoded = body.instructions[index].decoded;
    let taken = DefinitionState {
        work: state.work.skip(1),
        queued: state.queued.update(index, false),
        ..state
    };
    lemma_taking(state, taken);
    let entry = taken.entries[index].unwrap();
    let evaluations = charged_transfers(
        body.id,
        state.evaluations,
        stack_cost(entry.len()),
        body.base,
        body.limits.max_policy_transfers,
    )->Ok_0;
    let charged = DefinitionState { evaluations, ..taken };
    assert(has_shape(body, charged)) by {
        lemma_enqueuing(taken, charged, index);
    }
    let end = evaluated_definition(body, state)->Ok_0;
    let transferred = definition_transfer(body, index, decoded, entry)->Ok_0;
    if let Some(stack) = transferred {
        lemma_edges_are_covered(body, decoded, stack, definition_edges(body, index), 0, charged);
    } else {
        assert(end == charged);
        assert forall|i: int| #[trigger] evolves_at(charged, charged, i) by {}
    }
    assert(evolves(charged, end));
    assert forall|i: int|
        0 <= i < body.instructions.len() && end.entries[i].is_some()
            && !end.queued[i] implies #[trigger] is_certified(body, end.entries, i) by {
        assert(evolves_at(charged, end, i));
        assert(end.entries[i] == state.entries[i]);
        if i != index {
            assert(!state.queued[i]);
            assert(is_certified(body, state.entries, i));
            lemma_certified_survives(body, charged, end, i);
        } else if let Some(stack) = transferred {
            assert(leaves_covered(body, end.entries, i, stack));
        }
    }
    assert forall|i: int| 0 <= i < body.instructions.len() && state.entries[i].is_some() implies (
    #[trigger] end.entries[i]).is_some() by {
        assert(evolves_at(charged, end, i));
    }
}

/// Seeding an unvisited instruction leaves what holds between rounds.
proof fn lemma_seeding_certifies(body: DefinitionBody, state: DefinitionState, seed: int)
    requires
        between_rounds(body, state),
        body.instructions.len() <= usize::MAX,
        state.work.len() == 0,
        0 <= seed < body.instructions.len(),
        state.entries[seed].is_none(),
    ensures
        between_rounds(body, seeded_definition(state, seed)),
{
    let next = seeded_definition(state, seed);
    assert(!state.queued[seed]) by {
        if state.queued[seed] {
            assert(is_waiting(state, seed));
        }
    }
    lemma_enqueuing(state, next, seed);
    assert(evolves(state, next)) by {
        assert forall|i: int| #[trigger] evolves_at(state, next, i) by {}
    }
    assert forall|i: int|
        0 <= i < body.instructions.len() && next.entries[i].is_some()
            && !next.queued[i] implies #[trigger] is_certified(body, next.entries, i) by {
        assert(i != seed);
        assert(is_certified(body, state.entries, i));
        lemma_certified_survives(body, state, next, i);
    }
}

proof fn lemma_seed_is_unvisited(
    body: DefinitionBody,
    entries: Seq<Option<Seq<Origin>>>,
    from: int,
)
    requires
        0 <= from,
    ensures
        ({
            let seed = definition_seed_from(body, entries, from);
            &&& from <= seed
            &&& seed < entries.len() ==> entries[seed].is_none()
            &&& forall|i: int|
                from <= i < seed && i < entries.len() ==> (#[trigger] entries[i]).is_some()
                    || starts_subroutine(body, i)
        }),
    decreases entries.len() - from,
{
    if from < entries.len() && (entries[from].is_some() || starts_subroutine(body, from)) {
        lemma_seed_is_unvisited(body, entries, from + 1);
    }
}

/// A run that reaches its end leaves origins that agree.
proof fn lemma_analysis_agrees(body: DefinitionBody, state: DefinitionState)
    requires
        between_rounds(body, state),
        0 <= state.next_seed <= body.instructions.len(),
        forall|i: int|
            0 <= i < state.next_seed ==> (#[trigger] state.entries[i]).is_some()
                || starts_subroutine(body, i),
        body.instructions.len() <= usize::MAX,
        definitions_from(body, state).is_ok(),
    ensures
        origins_agree(body, definitions_from(body, state)->Ok_0.entries),
    decreases u64::MAX - state.evaluations,
{
    let seed = definition_seed_from(body, state.entries, state.next_seed);
    lemma_seed_is_unvisited(body, state.entries, state.next_seed);
    if state.work.len() > 0 {
        let next = evaluated_definition(body, state)->Ok_0;
        lemma_definition_evaluation(body, state);
        lemma_evaluation_certifies(body, state);
        lemma_analysis_agrees(body, next);
    } else if seed < state.entries.len() {
        let start = seeded_definition(state, seed);
        lemma_seeding_certifies(body, state, seed);
        let next = evaluated_definition(body, start)->Ok_0;
        lemma_definition_evaluation(body, start);
        lemma_evaluation_certifies(body, start);
        lemma_analysis_agrees(body, next);
    } else {
        assert forall|i: int|
            0 <= i < body.instructions.len()
                && state.entries[i].is_some() implies #[trigger] is_certified(
            body,
            state.entries,
            i,
        ) by {
            if state.queued[i] {
                assert(is_waiting(state, i));
            }
        }
    }
}

/// Origins agree: for a certified body there are origins for the stack of each
/// instruction, but for finally subroutines that nothing enters, such that every
/// definition finds a target of the kind that it needs, the origins at the
/// target of every edge cover those that the edge carries, and no exit abandons
/// an array under construction, except the resumed return of a generator.
pub proof fn lemma_origins_agree(body: DefinitionBody, usage: BytecodeGraphUsage)
    requires
        body.instructions.len() <= usize::MAX,
        definition_certification(body, usage).is_ok(),
    ensures
        exists|entries: Seq<Option<Seq<Origin>>>| origins_agree(body, entries),
{
    reveal(definition_certification);
    let first = initial_definitions(body.instructions.len(), usage);
    let end = definitions_from(body, first)->Ok_0;
    assert(between_rounds(body, first));
    lemma_analysis_agrees(body, first);
    assert(origins_agree(body, end.entries));
}

} // verus!
