//! The provenance analysis of one function body.
use crate::bytecode::error::{
    BytecodeVerificationError, BytecodeVerificationErrorKind, function_error, graph_error,
};
use crate::bytecode::internal_stack::{
    EffectiveEdge, InternalStackCertificate, effective_edges, entry_at,
};
use crate::bytecode::internal_verifier::stack_cost;
use crate::bytecode::model::{
    BytecodeGraphResource, BytecodeGraphUsage, BytecodeGraphVerificationLimits,
    CompilerExecutableKind, VerifiedFunctionMetadata,
};
use crate::bytecode::object_provenance::{
    DefinitionBody, definition_check, definition_transfer, holds_body, transfer_growth_failure,
    transfer_object_definition_provenance, verify_definition,
};
use crate::bytecode::provenance::{
    ObjectDefinitionProvenance as Origin, any_append, any_linear, is_linear_append_provenance,
    method_target_error, spec_any_append, spec_any_linear, spec_is_linear_append_provenance,
    target_error,
};
use crate::bytecode::stack_error::{
    allocation_error, charge, charge_frame_state_entries, charge_policy_transfers, charged,
    charged_frame_state, charged_transfers, growth_failure, reservation_failure, reserve_slots,
    tables_failure, try_copy_slice, try_filled_vec,
};
use crate::control_flow::model::VerifiedInstruction;
use crate::function_graph::{FunctionTemplateId, VerifiedCompilerFunction};
use crate::instruction::{BytecodePc, DecodedInstruction};
use crate::opcode::FinalOpcode;
use crate::reserve::{reserve_queue_exact, reserve_vec_exact};
use std::collections::VecDeque;
use vstd::prelude::*;

verus! {

/// What is known of a slot where two edges meet; none where they disagree about
/// an array that values are appended to.
///
/// A fresh array and its first cursor meet the same array and cursor coming
/// round a rest-collection loop, and the latter wins.
pub open spec fn joined(established: Origin, incoming: Origin) -> Option<Origin> {
    if established == incoming {
        Some(established)
    } else {
        match (established, incoming) {
            (Origin::FreshArray { site, .. }, Origin::AppendDestination(array)) if site == array => Some(
                incoming,
            ),
            (Origin::AppendDestination(array), Origin::FreshArray { site, .. }) if site == array => Some(
                established,
            ),
            (Origin::ArrayCursorCandidate { site, .. }, Origin::CheckedAppendCursor(cursor)) if site
                == cursor => Some(incoming),
            (Origin::CheckedAppendCursor(cursor), Origin::ArrayCursorCandidate { site, .. }) if site
                == cursor => Some(established),
            _ => if spec_is_linear_append_provenance(established)
                || spec_is_linear_append_provenance(incoming) {
                None
            } else {
                Some(Origin::Unknown)
            },
        }
    }
}

fn join(established: Origin, incoming: Origin) -> (origin: Option<Origin>)
    ensures
        origin == joined(established, incoming),
{
    if established == incoming {
        return Some(established);
    }
    match (established, incoming) {
        (Origin::FreshArray { site, .. }, Origin::AppendDestination(array)) if site == array => Some(
            incoming,
        ),
        (Origin::AppendDestination(array), Origin::FreshArray { site, .. }) if site == array => Some(
            established,
        ),
        (Origin::ArrayCursorCandidate { site, .. }, Origin::CheckedAppendCursor(cursor)) if site
            == cursor => Some(incoming),
        (Origin::CheckedAppendCursor(cursor), Origin::ArrayCursorCandidate { site, .. }) if site
            == cursor => Some(established),
        _ => {
            if is_linear_append_provenance(established) || is_linear_append_provenance(incoming) {
                None
            } else {
                Some(Origin::Unknown)
            }
        },
    }
}

/// Two stacks of equal depth joined slot by slot; stacks of different depth
/// know nothing. None where they disagree about an array that values are
/// appended to.
pub open spec fn joined_stacks(established: Seq<Origin>, incoming: Seq<Origin>) -> Option<
    Seq<Origin>,
> {
    if established.len() == incoming.len() {
        if exists|i: int|
            0 <= i < established.len() && (#[trigger] joined(
                established[i],
                incoming[i],
            )).is_none() {
            None
        } else {
            Some(
                Seq::new(
                    established.len(),
                    |i: int| joined(established[i], incoming[i]).unwrap(),
                ),
            )
        }
    } else if spec_any_linear(established, 0) || spec_any_linear(incoming, 0) {
        None
    } else {
        Some(Seq::new(established.len(), |i: int| Origin::Unknown))
    }
}

fn join_stacks(established: &mut Vec<Origin>, incoming: &[Origin]) -> (changed: Option<bool>)
    ensures
        match changed {
            Some(changed) => joined_stacks(old(established)@, incoming@) == Some(
                final(established)@,
            ) && changed == (final(established)@ != old(established)@),
            None => joined_stacks(old(established)@, incoming@).is_none(),
        },
{
    let ghost before = established@;
    let count: usize = established.len();
    if count == incoming.len() {
        let mut changed: bool = false;
        let mut i: usize = 0;
        while i < count
            invariant
                i <= count,
                before == old(established)@,
                count == before.len(),
                count == incoming@.len(),
                established@.len() == count,
                forall|j: int| i <= j < count ==> established@[j] == before[j],
                forall|j: int|
                    0 <= j < i ==> joined(before[j], incoming@[j]) == Some(
                        #[trigger] established@[j],
                    ),
                changed == exists|j: int| 0 <= j < i && #[trigger] established@[j] != before[j],
            decreases count - i,
        {
            let target = established[i];
            match join(target, incoming[i]) {
                Some(origin) => {
                    if origin != target {
                        changed = true;
                    }
                    let ghost previous = established@;
                    established.set(i, origin);
                    proof {
                        assert forall|j: int| 0 <= j < i implies established@[j] == previous[j] by {
                        }
                        if changed {
                            if origin != target {
                                assert(established@[i as int] != before[i as int]);
                            } else {
                                let j = choose|j: int|
                                    0 <= j < i && #[trigger] previous[j] != before[j];
                                assert(established@[j] != before[j]);
                            }
                        }
                    }
                },
                None => {
                    assert(joined(before[i as int], incoming@[i as int]).is_none());
                    return None;
                },
            }
            i = i + 1;
        }
        proof {
            assert forall|j: int| 0 <= j < count implies (#[trigger] joined(
                before[j],
                incoming@[j],
            )).is_some() by {
                assert(joined(before[j], incoming@[j]) == Some(established@[j]));
            }
            assert(established@ =~= joined_stacks(before, incoming@).unwrap());
            if !changed {
                assert(established@ =~= before);
            }
        }
        return Some(changed);
    }
    if any_linear(established, 0) || any_linear(incoming, 0) {
        return None;
    }
    let mut changed: bool = false;
    let mut i: usize = 0;
    while i < count
        invariant
            i <= count,
            count == before.len(),
            established@.len() == count,
            forall|j: int| i <= j < count ==> established@[j] == before[j],
            forall|j: int| 0 <= j < i ==> #[trigger] established@[j] == Origin::Unknown,
            changed == exists|j: int| 0 <= j < i && #[trigger] established@[j] != before[j],
        decreases count - i,
    {
        let ghost previous = established@;
        if !matches!(established[i], Origin::Unknown) {
            changed = true;
            established.set(i, Origin::Unknown);
            proof {
                assert(established@[i as int] != before[i as int]);
            }
        } else {
            proof {
                if changed {
                    let j = choose|j: int| 0 <= j < i && #[trigger] previous[j] != before[j];
                    assert(established@[j] != before[j]);
                }
            }
        }
        i = i + 1;
    }
    proof {
        assert(established@ =~= joined_stacks(before, incoming@).unwrap());
        if !changed {
            assert(established@ =~= before);
        }
    }
    Some(changed)
}

/// State of the provenance analysis.
pub struct DefinitionState {
    /// Stack on entry of each visited instruction.
    pub entries: Seq<Option<Seq<Origin>>>,
    /// Whether each instruction is queued.
    pub queued: Seq<bool>,
    /// Queued instructions, oldest first.
    pub work: Seq<usize>,
    /// Charged resources.
    pub usage: BytecodeGraphUsage,
    /// Transfers charged for this body.
    pub evaluations: u64,
    /// Instruction from which unvisited code is looked for.
    pub next_seed: int,
}

/// The stacks behind optional vectors.
pub open spec fn origins_of(entries: Seq<Option<Vec<Origin>>>) -> Seq<Option<Seq<Origin>>> {
    entries.map_values(
        |entry: Option<Vec<Origin>>|
            match entry {
                Some(stack) => Some(stack@),
                None => None,
            },
    )
}

/// The instruction queued, unless it already is.
pub open spec fn queue_definition(state: DefinitionState, index: int) -> DefinitionState {
    if state.queued[index] {
        state
    } else {
        DefinitionState {
            queued: state.queued.update(index, true),
            work: state.work.push(index as usize),
            ..state
        }
    }
}

/// Propagation of a stack over one edge: recorded on a first visit, joined on a
/// later one; a change queues the target.
pub open spec fn propagated_origins(
    id: FunctionTemplateId,
    source_pc: BytecodePc,
    index: int,
    target_pc: BytecodePc,
    output: Seq<Origin>,
    state: DefinitionState,
    state_limit: u64,
) -> Result<DefinitionState, BytecodeVerificationError> {
    match state.entries[index] {
        None => match charged_frame_state(id, state.usage, output.len(), state_limit) {
            Err(error) => Err(error),
            Ok(usage) => Ok(
                queue_definition(
                    DefinitionState {
                        entries: state.entries.update(index, Some(output)),
                        usage,
                        ..state
                    },
                    index,
                ),
            ),
        },
        Some(existing) => match joined_stacks(existing, output) {
            None => Err(
                function_error(
                    id,
                    BytecodeVerificationErrorKind::AppendProvenanceJoinMismatch {
                        target: target_pc,
                        incoming_from: source_pc,
                    },
                ),
            ),
            Some(merged) => {
                let next = DefinitionState {
                    entries: state.entries.update(index, Some(merged)),
                    ..state
                };
                if merged != existing {
                    Ok(queue_definition(next, index))
                } else {
                    Ok(next)
                }
            },
        },
    }
}

/// The stack that an edge carries: entering a finally subroutine pushes a
/// return address.
pub open spec fn edge_origins(edge: EffectiveEdge, state: Seq<Origin>) -> Seq<Origin> {
    if edge.enters_finally {
        state.push(Origin::Unknown)
    } else {
        state
    }
}

/// Propagation over the edges from `at` on.
pub open(crate) spec fn over_definition_edges(
    body: DefinitionBody,
    decoded: DecodedInstruction,
    stack: Seq<Origin>,
    edges: Seq<EffectiveEdge>,
    at: int,
    state: DefinitionState,
) -> Result<DefinitionState, BytecodeVerificationError>
    decreases edges.len() - at,
{
    if at >= edges.len() {
        Ok(state)
    } else {
        let edge = edges[at];
        let position = edge.target.0 as int;
        let output = edge_origins(edge, stack);
        match charged_transfers(
            body.id,
            state.evaluations,
            stack_cost(output.len()),
            body.base,
            body.limits.max_policy_transfers,
        ) {
            Err(error) => Err(error),
            Ok(evaluations) => if position >= body.instructions.len() {
                Err(target_error(body.id, decoded))
            } else {
                match propagated_origins(
                    body.id,
                    decoded.pc,
                    position,
                    body.instructions[position].decoded.pc,
                    output,
                    DefinitionState { evaluations, ..state },
                    body.limits.max_frame_state_entries,
                ) {
                    Err(error) => Err(error),
                    Ok(next) => over_definition_edges(body, decoded, stack, edges, at + 1, next),
                }
            },
        }
    }
}

/// Whether a function is a generator of any kind.
pub open spec fn spec_is_generator_kind(kind: CompilerExecutableKind) -> bool {
    match kind {
        CompilerExecutableKind::GeneratorFunction
        | CompilerExecutableKind::GeneratorMethod
        | CompilerExecutableKind::AsyncGeneratorFunction
        | CompilerExecutableKind::AsyncGeneratorMethod => true,
        _ => false,
    }
}

#[verifier::when_used_as_spec(spec_is_generator_kind)]
pub(crate) fn is_generator_kind(kind: CompilerExecutableKind) -> (generator: bool)
    ensures
        generator == spec_is_generator_kind(kind),
{
    match kind {
        CompilerExecutableKind::GeneratorFunction
        | CompilerExecutableKind::GeneratorMethod
        | CompilerExecutableKind::AsyncGeneratorFunction
        | CompilerExecutableKind::AsyncGeneratorMethod => true,
        _ => false,
    }
}

/// Evaluation of the oldest queued instruction. A terminal may not abandon an
/// array under construction, except by the resumed return of a generator.
pub open(crate) spec fn evaluated_definition(body: DefinitionBody, state: DefinitionState) -> Result<
    DefinitionState,
    BytecodeVerificationError,
> {
    let index = state.work[0] as int;
    let decoded = body.instructions[index].decoded;
    let taken = DefinitionState {
        work: state.work.skip(1),
        queued: state.queued.update(index, false),
        ..state
    };
    match taken.entries[index] {
        None => Err(target_error(body.id, decoded)),
        Some(entry) => match charged_transfers(
            body.id,
            state.evaluations,
            stack_cost(entry.len()),
            body.base,
            body.limits.max_policy_transfers,
        ) {
            Err(error) => Err(error),
            Ok(evaluations) => match definition_check(body.id, body.atoms, decoded, entry) {
                Err(error) => Err(error),
                Ok(_) => match definition_transfer(body, index, decoded, entry) {
                    Err(error) => Err(error),
                    Ok(None) => Ok(DefinitionState { evaluations, ..taken }),
                    Ok(Some(stack)) => {
                        let edges = effective_edges(
                            body.instructions,
                            index,
                            body.certificate.continuations,
                            entry_at(body.certificate.certificates.rets, index),
                        );
                        if edges.len() == 0 && spec_any_append(stack, 0) && !(
                        decoded.instruction.opcode == FinalOpcode::ReturnAsync
                            && spec_is_generator_kind(body.executable_kind)) {
                            Err(
                                function_error(
                                    body.id,
                                    BytecodeVerificationErrorKind::AppendMarkerAtExit {
                                        pc: decoded.pc,
                                    },
                                ),
                            )
                        } else {
                            over_definition_edges(
                                body,
                                decoded,
                                stack,
                                edges,
                                0,
                                DefinitionState { evaluations, ..taken },
                            )
                        }
                    },
                },
            },
        },
    }
}

/// Whether the instruction starts a finally subroutine.
pub open(crate) spec fn starts_subroutine(body: DefinitionBody, at: int) -> bool {
    0 <= at < body.certificate.continuations.len() && body.certificate.continuations[at].len() > 0
}

/// First instruction from `seed` on that is unvisited and starts no finally
/// subroutine.
pub open(crate) spec fn definition_seed_from(
    body: DefinitionBody,
    entries: Seq<Option<Seq<Origin>>>,
    seed: int,
) -> int
    decreases entries.len() - seed,
{
    if seed < entries.len() && (entries[seed].is_some() || starts_subroutine(body, seed)) {
        definition_seed_from(body, entries, seed + 1)
    } else {
        seed
    }
}

/// The state with unvisited instruction `seed` queued with an empty stack.
pub open spec fn seeded_definition(state: DefinitionState, seed: int) -> DefinitionState {
    DefinitionState {
        entries: state.entries.update(seed, Some(Seq::empty())),
        queued: state.queued.update(seed, true),
        work: state.work.push(seed as usize),
        next_seed: seed,
        ..state
    }
}

/// One round: queued code is evaluated; where nothing is queued, the next
/// unvisited code is seeded first; where nothing is left, the analysis is over.
pub open(crate) spec fn definition_round(body: DefinitionBody, state: DefinitionState) -> Result<
    Option<DefinitionState>,
    BytecodeVerificationError,
> {
    if state.work.len() > 0 {
        match evaluated_definition(body, state) {
            Ok(next) => Ok(Some(next)),
            Err(error) => Err(error),
        }
    } else {
        let seed = definition_seed_from(body, state.entries, state.next_seed);
        if seed >= state.entries.len() {
            Ok(None)
        } else {
            match evaluated_definition(body, seeded_definition(state, seed)) {
                Ok(next) => Ok(Some(next)),
                Err(error) => Err(error),
            }
        }
    }
}

/// The analysis run to its end. Every round charges at least one transfer.
pub open(crate) spec fn definitions_from(body: DefinitionBody, state: DefinitionState) -> Result<
    DefinitionState,
    BytecodeVerificationError,
>
    decreases u64::MAX - state.evaluations,
{
    match definition_round(body, state) {
        Err(error) => Err(error),
        Ok(None) => Ok(state),
        Ok(Some(next)) => if next.evaluations > state.evaluations {
            definitions_from(body, next)
        } else {
            Ok(state)
        },
    }
}

/// Whether `error` reports that the stack which an edge carries to an
/// instruction could not be copied. Only the first stack that reaches an
/// instruction is.
pub open(crate) spec fn origins_memory_failure(
    body: DefinitionBody,
    decoded: DecodedInstruction,
    index: int,
    output: Seq<Origin>,
    state: DefinitionState,
    error: BytecodeVerificationError,
) -> bool {
    &&& state.entries[index].is_none()
    &&& propagated_origins(
        body.id,
        decoded.pc,
        index,
        body.instructions[index].decoded.pc,
        output,
        state,
        body.limits.max_frame_state_entries,
    ).is_ok()
    &&& error == reservation_failure(
        body.id,
        BytecodeGraphResource::FrameStateEntries,
        output.len() as u64,
    )
}

/// Whether `error` reports that an edge from `at` on could not reserve memory:
/// for the return address that it pushes, or for the stack that it carries.
pub open(crate) spec fn definition_edges_memory_failure(
    body: DefinitionBody,
    decoded: DecodedInstruction,
    stack: Seq<Origin>,
    edges: Seq<EffectiveEdge>,
    at: int,
    state: DefinitionState,
    error: BytecodeVerificationError,
) -> bool
    decreases edges.len() - at,
{
    if at >= edges.len() {
        false
    } else {
        let edge = edges[at];
        let position = edge.target.0 as int;
        let output = edge_origins(edge, stack);
        ||| growth_failure(body.id, stack.len(), output.len(), error)
        ||| match charged_transfers(
            body.id,
            state.evaluations,
            stack_cost(output.len()),
            body.base,
            body.limits.max_policy_transfers,
        ) {
            Err(_) => false,
            Ok(evaluations) => position < body.instructions.len() && {
                let charged = DefinitionState { evaluations, ..state };
                ||| origins_memory_failure(body, decoded, position, output, charged, error)
                ||| match propagated_origins(
                    body.id,
                    decoded.pc,
                    position,
                    body.instructions[position].decoded.pc,
                    output,
                    charged,
                    body.limits.max_frame_state_entries,
                ) {
                    Err(_) => false,
                    Ok(next) => definition_edges_memory_failure(
                        body,
                        decoded,
                        stack,
                        edges,
                        at + 1,
                        next,
                        error,
                    ),
                }
            },
        }
    }
}

/// Whether `error` reports that the evaluation of the oldest queued instruction
/// could not reserve memory: for a copy of its entry stack, for the slots by
/// which its transfer grows that stack, or for one of its edges.
pub open(crate) spec fn definition_memory_failure(
    body: DefinitionBody,
    state: DefinitionState,
    error: BytecodeVerificationError,
) -> bool {
    let index = state.work[0] as int;
    let decoded = body.instructions[index].decoded;
    match state.entries[index] {
        None => false,
        Some(entry) => match charged_transfers(
            body.id,
            state.evaluations,
            stack_cost(entry.len()),
            body.base,
            body.limits.max_policy_transfers,
        ) {
            Err(_) => false,
            Ok(evaluations) => {
                ||| error == reservation_failure(
                    body.id,
                    BytecodeGraphResource::FrameStateEntries,
                    entry.len() as u64,
                )
                ||| definition_check(body.id, body.atoms, decoded, entry).is_ok() && {
                    ||| transfer_growth_failure(body.id, decoded, entry.len(), error)
                    ||| match definition_transfer(body, index, decoded, entry) {
                        Ok(Some(stack)) => definition_edges_memory_failure(
                            body,
                            decoded,
                            stack,
                            effective_edges(
                                body.instructions,
                                index,
                                body.certificate.continuations,
                                entry_at(body.certificate.certificates.rets, index),
                            ),
                            0,
                            DefinitionState {
                                work: state.work.skip(1),
                                queued: state.queued.update(index, false),
                                evaluations,
                                ..state
                            },
                            error,
                        ),
                        _ => false,
                    }
                }
            },
        },
    }
}

/// Whether `error` reports that an evaluation of the run from `state` on could
/// not reserve memory.
pub open(crate) spec fn definitions_memory_failure(
    body: DefinitionBody,
    state: DefinitionState,
    error: BytecodeVerificationError,
) -> bool
    decreases u64::MAX - state.evaluations,
{
    let seed = definition_seed_from(body, state.entries, state.next_seed);
    ||| if state.work.len() > 0 {
        definition_memory_failure(body, state, error)
    } else {
        seed < state.entries.len() && definition_memory_failure(
            body,
            seeded_definition(state, seed),
            error,
        )
    }
    ||| match definition_round(body, state) {
        Ok(Some(next)) => next.evaluations > state.evaluations && definitions_memory_failure(
            body,
            next,
            error,
        ),
        _ => false,
    }
}

/// Whether `error` reports that the provenance analysis of a body could not
/// reserve memory: for a table with an entry for each instruction, or for a
/// stack of the run.
#[verifier::opaque]
pub open(crate) spec fn certification_memory_failure(
    body: DefinitionBody,
    usage: BytecodeGraphUsage,
    error: BytecodeVerificationError,
) -> bool {
    ||| tables_failure(body.id, body.instructions.len(), error)
    ||| definitions_memory_failure(
        body,
        initial_definitions(body.instructions.len(), usage),
        error,
    )
}

/// The state before the first round.
pub open spec fn initial_definitions(count: nat, usage: BytecodeGraphUsage) -> DefinitionState {
    DefinitionState {
        entries: Seq::new(count, |i: int| None),
        queued: Seq::new(count, |i: int| false),
        work: Seq::empty(),
        usage,
        evaluations: 0,
        next_seed: 0,
    }
}

/// The provenance analysis of a body: the usage with what it cost.
#[verifier::opaque]
pub open(crate) spec fn definition_certification(
    body: DefinitionBody,
    usage: BytecodeGraphUsage,
) -> Result<BytecodeGraphUsage, BytecodeVerificationError> {
    match definitions_from(body, initial_definitions(body.instructions.len(), usage)) {
        Err(error) => Err(error),
        Ok(end) => match charged(
            end.usage.policy_transfers,
            end.evaluations,
            body.limits.max_policy_transfers,
            BytecodeGraphResource::PolicyTransfers,
        ) {
            Err(kind) => Err(graph_error(kind)),
            Ok(transfers) => Ok(BytecodeGraphUsage { policy_transfers: transfers, ..end.usage }),
        },
    }
}

proof fn lemma_definition_edges(
    body: DefinitionBody,
    decoded: DecodedInstruction,
    stack: Seq<Origin>,
    edges: Seq<EffectiveEdge>,
    at: int,
    state: DefinitionState,
)
    ensures
        match over_definition_edges(body, decoded, stack, edges, at, state) {
            Ok(next) => next.evaluations >= state.evaluations && next.next_seed == state.next_seed,
            Err(_) => true,
        },
    decreases edges.len() - at,
{
    if at < edges.len() {
        let edge = edges[at];
        let position = edge.target.0 as int;
        let output = edge_origins(edge, stack);
        if let Ok(evaluations) = charged_transfers(
            body.id,
            state.evaluations,
            stack_cost(output.len()),
            body.base,
            body.limits.max_policy_transfers,
        ) {
            if position < body.instructions.len() {
                if let Ok(next) = propagated_origins(
                    body.id,
                    decoded.pc,
                    position,
                    body.instructions[position].decoded.pc,
                    output,
                    DefinitionState { evaluations, ..state },
                    body.limits.max_frame_state_entries,
                ) {
                    lemma_definition_edges(body, decoded, stack, edges, at + 1, next);
                }
            }
        }
    }
}

pub(crate) proof fn lemma_definition_evaluation(body: DefinitionBody, state: DefinitionState)
    ensures
        match evaluated_definition(body, state) {
            Ok(next) => next.evaluations > state.evaluations && next.next_seed == state.next_seed,
            Err(_) => true,
        },
{
    let index = state.work[0] as int;
    let decoded = body.instructions[index].decoded;
    let taken = DefinitionState {
        work: state.work.skip(1),
        queued: state.queued.update(index, false),
        ..state
    };
    if let Some(entry) = taken.entries[index] {
        if let Ok(evaluations) = charged_transfers(
            body.id,
            state.evaluations,
            stack_cost(entry.len()),
            body.base,
            body.limits.max_policy_transfers,
        ) {
            if let Ok(Some(stack)) = definition_transfer(body, index, decoded, entry) {
                lemma_definition_edges(
                    body,
                    decoded,
                    stack,
                    effective_edges(
                        body.instructions,
                        index,
                        body.certificate.continuations,
                        entry_at(body.certificate.certificates.rets, index),
                    ),
                    0,
                    DefinitionState { evaluations, ..taken },
                );
            }
        }
    }
}

struct DefinitionAnalyzer {
    entries: Vec<Option<Vec<Origin>>>,
    queued: Vec<bool>,
    work: VecDeque<usize>,
    evaluations: u64,
}

impl DefinitionAnalyzer {
    /// The vectors hold exactly the state of `count` instructions, and only
    /// instructions are queued.
    spec fn holds(&self, state: DefinitionState, usage: BytecodeGraphUsage, count: nat) -> bool {
        &&& state.entries == origins_of(self.entries@)
        &&& state.queued == self.queued@
        &&& state.work == self.work@
        &&& state.usage == usage
        &&& state.evaluations == self.evaluations
        &&& self.entries@.len() == count
        &&& self.queued@.len() == count
        &&& forall|k: int| 0 <= k < self.work@.len() ==> #[trigger] self.work@[k] < count
    }
}

fn propagate_object_definition_provenance(
    id: FunctionTemplateId,
    source_pc: BytecodePc,
    index: usize,
    target_pc: BytecodePc,
    output: &Vec<Origin>,
    analyzer: &mut DefinitionAnalyzer,
    state_limit: u64,
    usage: &mut BytecodeGraphUsage,
    Ghost(state): Ghost<DefinitionState>,
    Ghost(count): Ghost<nat>,
) -> (propagated: Result<Ghost<DefinitionState>, BytecodeVerificationError>)
    requires
        old(analyzer).holds(state, *old(usage), count),
        index < count,
    ensures
        ({
            let expected = propagated_origins(
                id,
                source_pc,
                index as int,
                target_pc,
                output@,
                state,
                state_limit,
            );
            match propagated {
                Ok(next) => expected == Ok::<DefinitionState, BytecodeVerificationError>(next@)
                    && final(analyzer).holds(next@, *final(usage), count)
                    && final(usage).policy_transfers == old(usage).policy_transfers,
                Err(error) => expected == Err::<DefinitionState, BytecodeVerificationError>(error)
                    || (state.entries[index as int].is_none() && expected.is_ok() && error
                    == reservation_failure(
                    id,
                    BytecodeGraphResource::FrameStateEntries,
                    output@.len() as u64,
                )),
            }
        }),
{
    assert(state.entries[index as int] == origins_of(analyzer.entries@)[index as int]);
    let mut changed: bool = true;
    let ghost mut next = state;
    let mut entry: Option<Vec<Origin>> = None;
    analyzer.entries.set_and_swap(index, &mut entry);
    let merged: Vec<Origin> = match entry {
        None => {
            charge_frame_state_entries(id, usage, output.len(), state_limit)?;
            try_copy_slice(id, output, BytecodeGraphResource::FrameStateEntries)?
        },
        Some(existing) => {
            let mut merged = existing;
            match join_stacks(&mut merged, output) {
                Some(joined) => {
                    changed = joined;
                },
                None => {
                    return Err(
                        BytecodeVerificationError::function(
                            id,
                            BytecodeVerificationErrorKind::AppendProvenanceJoinMismatch {
                                target: target_pc,
                                incoming_from: source_pc,
                            },
                        ),
                    );
                },
            }
            merged
        },
    };
    let ghost stack = merged@;
    analyzer.entries.set(index, Some(merged));
    proof {
        assert(origins_of(analyzer.entries@) =~= state.entries.update(index as int, Some(stack)));
        next = DefinitionState {
            entries: origins_of(analyzer.entries@),
            usage: *usage,
            ..state
        };
    }
    if changed && !analyzer.queued[index] {
        analyzer.queued.set(index, true);
        analyzer.work.push_back(index);
        proof {
            next = DefinitionState {
                queued: analyzer.queued@,
                work: analyzer.work@,
                ..next
            };
        }
    }
    Ok(Ghost(next))
}

fn propagate_definition_edges(
    id: FunctionTemplateId,
    instructions: &[VerifiedInstruction],
    limits: BytecodeGraphVerificationLimits,
    base: u64,
    decoded: DecodedInstruction,
    stack: &mut Vec<Origin>,
    edges: &Vec<EffectiveEdge>,
    analyzer: &mut DefinitionAnalyzer,
    usage: &mut BytecodeGraphUsage,
    Ghost(body): Ghost<DefinitionBody>,
    Ghost(state): Ghost<DefinitionState>,
) -> (propagated: Result<Ghost<DefinitionState>, BytecodeVerificationError>)
    requires
        body.id == id,
        body.instructions == instructions@,
        body.limits == limits,
        body.base == base,
        old(analyzer).holds(state, *old(usage), instructions@.len()),
    ensures
        ({
            let expected = over_definition_edges(body, decoded, old(stack)@, edges@, 0, state);
            match propagated {
                Ok(next) => expected == Ok::<DefinitionState, BytecodeVerificationError>(next@)
                    && final(analyzer).holds(next@, *final(usage), instructions@.len())
                    && final(usage).policy_transfers == old(usage).policy_transfers,
                Err(error) => expected == Err::<DefinitionState, BytecodeVerificationError>(error)
                    || definition_edges_memory_failure(
                    body,
                    decoded,
                    old(stack)@,
                    edges@,
                    0,
                    state,
                    error,
                ),
            }
        }),
{
    let ghost left = stack@;
    let ghost mut current = state;
    let ghost transfers = usage.policy_transfers;
    let mut at: usize = 0;
    while at < edges.len()
        invariant
            at <= edges@.len(),
            stack@ == left,
            left == old(stack)@,
            body.id == id,
            body.instructions == instructions@,
            body.limits == limits,
            body.base == base,
            analyzer.holds(current, *usage, instructions@.len()),
            usage.policy_transfers == transfers,
            forall|error: BytecodeVerificationError| #[trigger]
                definition_edges_memory_failure(
                    body,
                    decoded,
                    left,
                    edges@,
                    at as int,
                    current,
                    error,
                ) ==> definition_edges_memory_failure(
                    body,
                    decoded,
                    left,
                    edges@,
                    0,
                    state,
                    error,
                ),
            over_definition_edges(body, decoded, left, edges@, 0, state) == over_definition_edges(
                body,
                decoded,
                left,
                edges@,
                at as int,
                current,
            ),
        decreases edges@.len() - at,
    {
        let edge = edges[at];
        if edge.enters_finally {
            if let Err(error) = reserve_slots(id, stack, 1) {
                assert(definition_edges_memory_failure(
                    body,
                    decoded,
                    left,
                    edges@,
                    at as int,
                    current,
                    error,
                ));
                return Err(error);
            }
            stack.push(Origin::Unknown);
        }
        assert(stack@ == edge_origins(edge, left));
        let cost: u64 = (stack.len() as u64).saturating_add(1);
        charge_policy_transfers(
            id,
            &mut analyzer.evaluations,
            cost,
            base,
            limits.max_policy_transfers,
        )?;
        let position: usize = edge.target.0 as usize;
        if position >= instructions.len() {
            return Err(method_target_error(id, decoded));
        }
        let target_pc = instructions[position].decoded.pc;
        let ghost before = DefinitionState { evaluations: analyzer.evaluations, ..current };
        let propagated = propagate_object_definition_provenance(
            id,
            decoded.pc,
            position,
            target_pc,
            stack,
            analyzer,
            limits.max_frame_state_entries,
            usage,
            Ghost(before),
            Ghost(instructions@.len()),
        );
        let next = match propagated {
            Ok(next) => next,
            Err(error) => {
                assert(origins_memory_failure(
                    body,
                    decoded,
                    position as int,
                    stack@,
                    before,
                    error,
                ) ==> definition_edges_memory_failure(
                    body,
                    decoded,
                    left,
                    edges@,
                    at as int,
                    current,
                    error,
                ));
                return Err(error);
            },
        };
        proof {
            assert forall|error: BytecodeVerificationError| #[trigger]
                definition_edges_memory_failure(
                    body,
                    decoded,
                    left,
                    edges@,
                    at + 1,
                    next@,
                    error,
                ) implies definition_edges_memory_failure(
                body,
                decoded,
                left,
                edges@,
                0,
                state,
                error,
            ) by {
                assert(definition_edges_memory_failure(
                    body,
                    decoded,
                    left,
                    edges@,
                    at as int,
                    current,
                    error,
                ));
            }
            current = next@;
        }
        if edge.enters_finally {
            let count: usize = stack.len();
            stack.truncate(count - 1);
            assert(stack@ =~= left);
        }
        at = at + 1;
    }
    Ok(Ghost(current))
}

fn evaluate_definition(
    id: FunctionTemplateId,
    function: &VerifiedCompilerFunction,
    metadata: &VerifiedFunctionMetadata,
    internal_stack: &InternalStackCertificate,
    limits: BytecodeGraphVerificationLimits,
    base: u64,
    analyzer: &mut DefinitionAnalyzer,
    usage: &mut BytecodeGraphUsage,
    Ghost(body): Ghost<DefinitionBody>,
    Ghost(state): Ghost<DefinitionState>,
) -> (evaluated: Result<Ghost<DefinitionState>, BytecodeVerificationError>)
    requires
        holds_body(body, id, function, metadata, internal_stack, limits, base),
        old(analyzer).holds(state, *old(usage), body.instructions.len()),
        old(analyzer).work@.len() > 0,
    ensures
        match evaluated {
            Ok(next) => evaluated_definition(body, state) == Ok::<
                DefinitionState,
                BytecodeVerificationError,
            >(next@) && final(analyzer).holds(next@, *final(usage), body.instructions.len())
                && final(usage).policy_transfers == old(usage).policy_transfers,
            Err(error) => evaluated_definition(body, state) == Err::<
                DefinitionState,
                BytecodeVerificationError,
            >(error) || definition_memory_failure(body, state, error),
        },
{
    let instructions = function.control_flow.instructions();
    let index: usize = match analyzer.work.pop_front() {
        Some(index) => index,
        None => 0,
    };
    analyzer.queued.set(index, false);
    let ghost taken = DefinitionState {
        work: state.work.skip(1),
        queued: state.queued.update(index as int, false),
        ..state
    };
    proof {
        assert(index == state.work[0]);
        assert(analyzer.work@ =~= state.work.skip(1));
        assert(taken.entries[index as int] == origins_of(analyzer.entries@)[index as int]);
        assert forall|k: int| 0 <= k < analyzer.work@.len() implies #[trigger] analyzer.work@[k]
            < body.instructions.len() by {
            assert(analyzer.work@[k] == state.work[k + 1]);
        }
    }
    let decoded = instructions[index].decoded;
    let mut stack: Vec<Origin> = match &analyzer.entries[index] {
        Some(entry) => {
            let cost: u64 = (entry.len() as u64).saturating_add(1);
            charge_policy_transfers(
                id,
                &mut analyzer.evaluations,
                cost,
                base,
                limits.max_policy_transfers,
            )?;
            try_copy_slice(id, entry, BytecodeGraphResource::FrameStateEntries)?
        },
        None => {
            return Err(method_target_error(id, decoded));
        },
    };
    verify_definition(id, &function.atoms, decoded, &stack)?;
    let transform = internal_stack.nip_catch_transform(index);
    if !transfer_object_definition_provenance(
        id,
        index,
        decoded,
        transform,
        function,
        metadata,
        &mut stack,
        Ghost(body),
    )? {
        return Ok(
            Ghost(DefinitionState { evaluations: analyzer.evaluations, ..taken }),
        );
    }
    let edges = internal_stack.effective_successors(instructions, index);
    let abandons: bool = matches!(decoded.instruction.opcode, FinalOpcode::ReturnAsync)
        && is_generator_kind(metadata.executable_kind);
    if edges.len() == 0 && any_append(&stack, 0) && !abandons {
        return Err(
            BytecodeVerificationError::function(
                id,
                BytecodeVerificationErrorKind::AppendMarkerAtExit { pc: decoded.pc },
            ),
        );
    }
    propagate_definition_edges(
        id,
        instructions,
        limits,
        base,
        decoded,
        &mut stack,
        &edges,
        analyzer,
        usage,
        Ghost(body),
        Ghost(DefinitionState { evaluations: analyzer.evaluations, ..taken }),
    )
}

fn find_definition_seed(
    analyzer: &DefinitionAnalyzer,
    internal_stack: &InternalStackCertificate,
    start: usize,
    Ghost(body): Ghost<DefinitionBody>,
    Ghost(state): Ghost<DefinitionState>,
    Ghost(usage): Ghost<BytecodeGraphUsage>,
) -> (seed: usize)
    requires
        analyzer.holds(state, usage, body.instructions.len()),
        body.certificate == internal_stack.model(),
        start <= body.instructions.len(),
    ensures
        seed == definition_seed_from(body, state.entries, start as int),
        seed <= body.instructions.len(),
{
    let mut seed: usize = start;
    let ghost entries = state.entries;
    while seed < analyzer.entries.len() && (analyzer.entries[seed].is_some()
        || internal_stack.is_finally_target(seed))
        invariant
            seed <= body.instructions.len(),
            analyzer.holds(state, usage, body.instructions.len()),
            body.certificate == internal_stack.model(),
            entries == state.entries,
            definition_seed_from(body, entries, start as int) == definition_seed_from(
                body,
                entries,
                seed as int,
            ),
        decreases body.instructions.len() - seed,
    {
        assert(entries[seed as int] == origins_of(analyzer.entries@)[seed as int]);
        seed = seed + 1;
    }
    proof {
        if seed < entries.len() {
            assert(entries[seed as int] == origins_of(analyzer.entries@)[seed as int]);
        }
    }
    seed
}

/// Certifies the object, class and array definitions of one function.
pub(crate) fn verify_object_definition_provenance(
    id: FunctionTemplateId,
    function: &VerifiedCompilerFunction,
    metadata: &VerifiedFunctionMetadata,
    internal_stack: &InternalStackCertificate,
    limits: BytecodeGraphVerificationLimits,
    usage: &mut BytecodeGraphUsage,
    Ghost(body): Ghost<DefinitionBody>,
) -> (certified: Result<(), BytecodeVerificationError>)
    requires
        holds_body(
            body,
            id,
            function,
            metadata,
            internal_stack,
            limits,
            old(usage).policy_transfers,
        ),
    ensures
        match certified {
            Ok(_) => definition_certification(body, *old(usage)) == Ok::<
                BytecodeGraphUsage,
                BytecodeVerificationError,
            >(*final(usage)),
            Err(error) => definition_certification(body, *old(usage)) == Err::<
                BytecodeGraphUsage,
                BytecodeVerificationError,
            >(error) || certification_memory_failure(body, *old(usage), error),
        },
{
    proof {
        reveal(definition_certification);
        reveal(certification_memory_failure);
    }
    let count: usize = function.control_flow.instructions().len();
    let base: u64 = usage.policy_transfers;
    let mut entries: Vec<Option<Vec<Origin>>> = Vec::new();
    if reserve_vec_exact(&mut entries, count).is_err() {
        return Err(allocation_error(id, BytecodeGraphResource::FrameStateEntries, count));
    }
    let mut filled: usize = 0;
    while filled < count
        invariant
            filled <= count,
            entries@.len() == filled,
            forall|i: int| 0 <= i < filled ==> (#[trigger] entries@[i]).is_none(),
        decreases count - filled,
    {
        entries.push(None);
        filled = filled + 1;
    }
    let queued = try_filled_vec(id, count, false, BytecodeGraphResource::PolicyTransfers)?;
    let mut work: VecDeque<usize> = VecDeque::new();
    if reserve_queue_exact(&mut work, count).is_err() {
        return Err(allocation_error(id, BytecodeGraphResource::PolicyTransfers, count));
    }
    let ghost first = initial_definitions(count as nat, *usage);
    proof {
        assert(origins_of(entries@) =~= first.entries);
        assert(queued@ =~= first.queued);
        assert(work@ =~= first.work);
    }
    let mut analyzer = DefinitionAnalyzer { entries, queued, work, evaluations: 0 };
    let ghost mut state = first;
    let mut next_seed: usize = 0;
    let mut finished: bool = false;
    while !finished
        invariant
            count == body.instructions.len(),
            holds_body(body, id, function, metadata, internal_stack, limits, base),
            analyzer.holds(state, *usage, count as nat),
            state.next_seed == next_seed,
            next_seed <= count,
            usage.policy_transfers == base,
            first == initial_definitions(count as nat, *old(usage)),
            forall|error: BytecodeVerificationError| #[trigger]
                definitions_memory_failure(body, state, error) ==> definitions_memory_failure(
                    body,
                    first,
                    error,
                ),
            !finished ==> definitions_from(body, first) == definitions_from(body, state),
            finished ==> definitions_from(body, first) == Ok::<
                DefinitionState,
                BytecodeVerificationError,
            >(state),
        decreases
                u64::MAX - analyzer.evaluations + if finished {
                    0int
                } else {
                    1int
                },
    {
        let ghost before = state;
        if analyzer.work.len() == 0 {
            let seed: usize = find_definition_seed(
                &analyzer,
                internal_stack,
                next_seed,
                Ghost(body),
                Ghost(state),
                Ghost(*usage),
            );
            if seed >= count {
                finished = true;
            } else {
                analyzer.entries.set(seed, Some(Vec::new()));
                analyzer.queued.set(seed, true);
                analyzer.work.push_back(seed);
                next_seed = seed;
                proof {
                    state = seeded_definition(before, seed as int);
                    assert(origins_of(analyzer.entries@) =~= state.entries) by {
                        assert(origins_of(analyzer.entries@)[seed as int] == Some(
                            Seq::<Origin>::empty(),
                        )) by {
                            assert(analyzer.entries@[seed as int].unwrap()@ =~= Seq::<
                                Origin,
                            >::empty());
                        }
                    }
                }
            }
        }
        if !finished {
            proof {
                reveal(definition_certification);
                reveal(certification_memory_failure);
                lemma_definition_evaluation(body, state);
            }
            let evaluated = evaluate_definition(
                id,
                function,
                metadata,
                internal_stack,
                limits,
                base,
                &mut analyzer,
                usage,
                Ghost(body),
                Ghost(state),
            );
            let next = match evaluated {
                Ok(next) => next,
                Err(error) => {
                    assert(definition_memory_failure(body, state, error)
                        ==> definitions_memory_failure(body, before, error));
                    return Err(error);
                },
            };
            proof {
                assert forall|error: BytecodeVerificationError| #[trigger]
                    definitions_memory_failure(
                        body,
                        next@,
                        error,
                    ) implies definitions_memory_failure(body, first, error) by {
                    assert(definitions_memory_failure(body, before, error));
                }
                assert(definition_round(body, before) == Ok::<
                    Option<DefinitionState>,
                    BytecodeVerificationError,
                >(Some(next@)));
                state = next@;
            }
        }
    }
    charge(
        &mut usage.policy_transfers,
        analyzer.evaluations,
        limits.max_policy_transfers,
        BytecodeGraphResource::PolicyTransfers,
    )
}

} // verus!
