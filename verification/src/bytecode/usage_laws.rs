//! Usage of accepted graphs stays within the limits and counts their records.
use crate::bytecode::function_metadata::{
    FunctionFindings, FunctionPlace, certified_checks, function_verdict,
};
use crate::bytecode::graph::{
    GraphFindings, GraphVerdict, authority_of_graph, charged_first, definition_body,
    definitions_verdict_from, followed_bindings, functions_verdict_from, graph_verdict,
    spanning_verdict,
};
use crate::bytecode::internal_stack::{EffectiveEdge, effective_edges, entry_at};
use crate::bytecode::internal_step::{certified_transfer, edge_stack};
use crate::bytecode::internal_propagation::{EdgeState, propagated_stack};
use crate::bytecode::internal_transfer::StackOutcome;
use crate::bytecode::internal_verifier::{
    CertificateModel, StackAnalysis, StackBody, edge_facts, evaluated_stack, initial_analysis,
    lemma_evaluation_charges, over_edges, seed_from, seeded, stack_analysis_from,
    stack_certificate, stack_cost,
};
use crate::bytecode::model::{
    BytecodeGraphUsage, BytecodeGraphVerificationLimits, UnverifiedCompilerBytecodeGraph,
    UnverifiedFunctionMetadata, no_usage,
};
use crate::bytecode::object_provenance::{DefinitionBody, definition_transfer};
use crate::bytecode::object_verifier::{
    DefinitionState, definition_certification, definition_seed_from, definitions_from,
    edge_origins, evaluated_definition, initial_definitions, lemma_definition_evaluation,
    over_definition_edges, propagated_origins, seeded_definition,
};
use crate::bytecode::ownership::spec_function_id;
use crate::bytecode::preflight::{
    PreflightInput, TextCounts, allocated_bytes_from, closures_from, counted_bytes_from,
    counts_each_allocation, lemma_counted_bytes_are_allocated, lemma_preflight_sums_within_limits,
    mappings_from, names_told, preflight, tells_allocations, texts_told, variables_from,
    with_function, with_functions_from, within_limits,
};
use crate::bytecode::protected_regions::{
    ProtectedTargets, no_targets, targets_from, with_targets_of,
};
use crate::bytecode::provenance::ObjectDefinitionProvenance as Origin;
use crate::bytecode::stack_error::charged_transfers;
use crate::control_flow::model::VerifiedInstruction;
use crate::function_graph::{FunctionTemplateId, VerifiedCompilerFunction};
use crate::instruction::DecodedInstruction;
use vstd::prelude::*;

verus! {

/// Whether frame states are within their limit, and nothing else was charged.
spec fn frames_within(
    before: BytecodeGraphUsage,
    after: BytecodeGraphUsage,
    limit: u64,
) -> bool {
    &&& before.frame_state_entries <= limit ==> after.frame_state_entries <= limit
    &&& after == (BytecodeGraphUsage {
        frame_state_entries: after.frame_state_entries,
        ..before
    })
}

/// Whether two usages hold the same definitions, source bytes and source
/// mappings.
pub open spec fn same_totals(before: BytecodeGraphUsage, after: BytecodeGraphUsage) -> bool {
    &&& after.variable_definitions == before.variable_definitions
    &&& after.closure_definitions == before.closure_definitions
    &&& after.source_bytes == before.source_bytes
    &&& after.source_mappings == before.source_mappings
}

proof fn lemma_targets_within(
    id: FunctionTemplateId,
    instructions: Seq<VerifiedInstruction>,
    at: int,
    targets: ProtectedTargets,
    limit: u64,
)
    requires
        0 <= at,
        targets_from(id, instructions, at, targets, limit).is_ok(),
    ensures
        frames_within(
            targets.usage,
            targets_from(id, instructions, at, targets, limit)->Ok_0.usage,
            limit,
        ),
    decreases instructions.len() - at,
{
    if at < instructions.len() {
        let next = with_targets_of(id, instructions[at], targets, limit)->Ok_0;
        assert(frames_within(targets.usage, next.usage, limit));
        lemma_targets_within(id, instructions, at + 1, next, limit);
    }
}

proof fn lemma_edges_within(
    body: StackBody,
    decoded: DecodedInstruction,
    component: u32,
    outcome: StackOutcome,
    edges: Seq<EffectiveEdge>,
    at: int,
    analysis: StackAnalysis,
)
    requires
        over_edges(body, decoded, component, outcome, edges, at, analysis).is_ok(),
    ensures
        frames_within(
            analysis.edges.usage,
            over_edges(
                body,
                decoded,
                component,
                outcome,
                edges,
                at,
                analysis,
            )->Ok_0.edges.usage,
            body.limits.max_frame_state_entries,
        ),
    decreases edges.len() - at,
{
    if at < edges.len() {
        let edge = edges[at];
        let output = edge_stack(
            body.id,
            decoded,
            outcome.step.transfer.iteration_branch_value,
            edge,
            outcome.state,
        )->Ok_0;
        let evaluations = charged_transfers(
            body.id,
            analysis.evaluations,
            stack_cost(output.len()),
            body.base,
            body.limits.max_policy_transfers,
        )->Ok_0;
        let next = propagated_stack(
            body.id,
            edge_facts(body, decoded, component, edge),
            output,
            analysis.edges,
            body.limits.max_frame_state_entries,
        )->Ok_0;
        assert(frames_within(
            analysis.edges.usage,
            next.usage,
            body.limits.max_frame_state_entries,
        ));
        lemma_edges_within(
            body,
            decoded,
            component,
            outcome,
            edges,
            at + 1,
            StackAnalysis { edges: next, evaluations, ..analysis },
        );
    }
}

proof fn lemma_evaluation_within(body: StackBody, analysis: StackAnalysis)
    requires
        evaluated_stack(body, analysis).is_ok(),
    ensures
        frames_within(
            analysis.edges.usage,
            evaluated_stack(body, analysis)->Ok_0.edges.usage,
            body.limits.max_frame_state_entries,
        ),
{
    let index = analysis.edges.work[0] as int;
    let verified = body.instructions[index];
    let decoded = verified.decoded;
    let taken = EdgeState {
        work: analysis.edges.work.skip(1),
        queued: analysis.edges.queued.update(index, false),
        ..analysis.edges
    };
    let component = taken.components[index].unwrap();
    let entry = taken.entries[index].unwrap();
    let evaluations = charged_transfers(
        body.id,
        analysis.evaluations,
        stack_cost(entry.len()),
        body.base,
        body.limits.max_policy_transfers,
    )->Ok_0;
    let (outcome, certificates) = certified_transfer(
        body.id,
        index,
        decoded,
        component == 0,
        verified.successors.spec_branch_target(),
        body.instructions,
        entry,
        analysis.certificates,
    )->Ok_0;
    let transferred = StackAnalysis { edges: taken, certificates, evaluations, ..analysis };
    let edges = effective_edges(
        body.instructions,
        index,
        body.targets.continuations,
        outcome.step.transfer.ret_finalizer,
    );
    if outcome.step.transfer.normal_completion && edges.len() > 0 {
        lemma_edges_within(body, decoded, component, outcome, edges, 0, transferred);
    }
}

proof fn lemma_analysis_within(body: StackBody, analysis: StackAnalysis)
    requires
        stack_analysis_from(body, analysis).is_ok(),
    ensures
        frames_within(
            analysis.edges.usage,
            stack_analysis_from(body, analysis)->Ok_0.edges.usage,
            body.limits.max_frame_state_entries,
        ),
    decreases u64::MAX - analysis.evaluations,
{
    let state = analysis.edges;
    let seed = seed_from(state.entries, body.targets, analysis.next_seed);
    if state.work.len() > 0 {
        lemma_evaluation_charges(body, analysis);
        lemma_evaluation_within(body, analysis);
        lemma_analysis_within(body, evaluated_stack(body, analysis)->Ok_0);
    } else if seed < state.entries.len() {
        let start = seeded(analysis, seed);
        lemma_evaluation_charges(body, start);
        lemma_evaluation_within(body, start);
        lemma_analysis_within(body, evaluated_stack(body, start)->Ok_0);
    }
}

proof fn lemma_certificate_within(
    id: FunctionTemplateId,
    instructions: Seq<VerifiedInstruction>,
    limits: BytecodeGraphVerificationLimits,
    usage: BytecodeGraphUsage,
)
    requires
        within_limits(usage, limits),
        stack_certificate(id, instructions, limits, usage).is_ok(),
    ensures
        within_limits(stack_certificate(id, instructions, limits, usage)->Ok_0.1, limits),
        same_totals(usage, stack_certificate(id, instructions, limits, usage)->Ok_0.1),
{
    let none = no_targets(instructions.len(), usage);
    let found = targets_from(id, instructions, 0, none, limits.max_frame_state_entries);
    if let Ok(targets) = found {
        lemma_targets_within(id, instructions, 0, none, limits.max_frame_state_entries);
        let body = StackBody { id, instructions, targets, limits, base: usage.policy_transfers };
        let first = initial_analysis(instructions.len(), targets.usage);
        if stack_analysis_from(body, first).is_ok() {
            lemma_analysis_within(body, first);
        }
    }
}

proof fn lemma_definition_edges_within(
    body: DefinitionBody,
    decoded: DecodedInstruction,
    stack: Seq<Origin>,
    edges: Seq<EffectiveEdge>,
    at: int,
    state: DefinitionState,
)
    requires
        over_definition_edges(body, decoded, stack, edges, at, state).is_ok(),
    ensures
        frames_within(
            state.usage,
            over_definition_edges(body, decoded, stack, edges, at, state)->Ok_0.usage,
            body.limits.max_frame_state_entries,
        ),
    decreases edges.len() - at,
{
    if at < edges.len() {
        let edge = edges[at];
        let position = edge.target.spec_get() as int;
        let output = edge_origins(edge, stack);
        let evaluations = charged_transfers(
            body.id,
            state.evaluations,
            stack_cost(output.len()),
            body.base,
            body.limits.max_policy_transfers,
        )->Ok_0;
        let next = propagated_origins(
            body.id,
            decoded.pc,
            position,
            body.instructions[position].decoded.pc,
            output,
            DefinitionState { evaluations, ..state },
            body.limits.max_frame_state_entries,
        )->Ok_0;
        assert(frames_within(state.usage, next.usage, body.limits.max_frame_state_entries));
        lemma_definition_edges_within(body, decoded, stack, edges, at + 1, next);
    }
}

proof fn lemma_definition_evaluation_within(body: DefinitionBody, state: DefinitionState)
    requires
        evaluated_definition(body, state).is_ok(),
    ensures
        frames_within(
            state.usage,
            evaluated_definition(body, state)->Ok_0.usage,
            body.limits.max_frame_state_entries,
        ),
{
    let index = state.work[0] as int;
    let decoded = body.instructions[index].decoded;
    let taken = DefinitionState {
        work: state.work.skip(1),
        queued: state.queued.update(index, false),
        ..state
    };
    let entry = taken.entries[index].unwrap();
    let evaluations = charged_transfers(
        body.id,
        state.evaluations,
        stack_cost(entry.len()),
        body.base,
        body.limits.max_policy_transfers,
    )->Ok_0;
    if let Some(stack) = definition_transfer(body, index, decoded, entry)->Ok_0 {
        lemma_definition_edges_within(
            body,
            decoded,
            stack,
            effective_edges(
                body.instructions,
                index,
                body.certificate.continuations,
                entry_at(
                    body.certificate.certificates.rets,
                    index,
                ),
            ),
            0,
            DefinitionState { evaluations, ..taken },
        );
    }
}

proof fn lemma_definitions_within(body: DefinitionBody, state: DefinitionState)
    requires
        definitions_from(body, state).is_ok(),
    ensures
        frames_within(
            state.usage,
            definitions_from(body, state)->Ok_0.usage,
            body.limits.max_frame_state_entries,
        ),
    decreases u64::MAX - state.evaluations,
{
    let seed = definition_seed_from(body, state.entries, state.next_seed);
    if state.work.len() > 0 {
        lemma_definition_evaluation(body, state);
        lemma_definition_evaluation_within(body, state);
        lemma_definitions_within(body, evaluated_definition(body, state)->Ok_0);
    } else if seed < state.entries.len() {
        let start = seeded_definition(state, seed);
        lemma_definition_evaluation(body, start);
        lemma_definition_evaluation_within(body, start);
        lemma_definitions_within(body, evaluated_definition(body, start)->Ok_0);
    }
}

proof fn lemma_function_within(
    place: FunctionPlace,
    function: VerifiedCompilerFunction,
    metadata: UnverifiedFunctionMetadata,
    limits: BytecodeGraphVerificationLimits,
    findings: FunctionFindings,
    usage: BytecodeGraphUsage,
)
    requires
        within_limits(usage, limits),
        function_verdict(place, function, metadata, limits, findings, usage).is_ok(),
    ensures
        within_limits(
            function_verdict(place, function, metadata, limits, findings, usage)->Ok_0.1,
            limits,
        ),
        same_totals(
            usage,
            function_verdict(place, function, metadata, limits, findings, usage)->Ok_0.1,
        ),
{
    reveal(function_verdict);
    let instructions = function.control_flow.instructions@;
    lemma_certificate_within(place.id, instructions, limits, usage);
    let (certificate, stacked) = stack_certificate(
        place.id,
        instructions,
        limits,
        usage,
    )->Ok_0;
    let (declaring, classified) = certified_checks(
        place,
        function,
        metadata,
        limits,
        certificate,
        stacked,
    )->Ok_0;
    assert(within_limits(classified, limits));
    assert(same_totals(stacked, classified));
}

proof fn lemma_functions_within(
    input: UnverifiedCompilerBytecodeGraph,
    limits: BytecodeGraphVerificationLimits,
    findings: Seq<FunctionFindings>,
    at: int,
    verdict: GraphVerdict,
)
    requires
        within_limits(verdict.usage, limits),
        functions_verdict_from(input, limits, findings, at, verdict).is_ok(),
    ensures
        within_limits(
            functions_verdict_from(input, limits, findings, at, verdict)->Ok_0.usage,
            limits,
        ),
        same_totals(
            verdict.usage,
            functions_verdict_from(input, limits, findings, at, verdict)->Ok_0.usage,
        ),
    decreases input.metadata@.len() - at,
{
    if at < input.metadata@.len() {
        let place = FunctionPlace {
            id: spec_function_id(at)->Ok_0,
            root: input.graph.root_id,
            authority: authority_of_graph(input),
        };
        let (certificate, usage) = function_verdict(
            place,
            input.graph.functions@[at],
            input.metadata@[at],
            limits,
            findings[at],
            verdict.usage,
        )->Ok_0;
        lemma_function_within(
            place,
            input.graph.functions@[at],
            input.metadata@[at],
            limits,
            findings[at],
            verdict.usage,
        );
        lemma_functions_within(
            input,
            limits,
            findings,
            at + 1,
            GraphVerdict { certificates: verdict.certificates.push(certificate), usage },
        );
    }
}

proof fn lemma_graph_definitions_within(
    input: UnverifiedCompilerBytecodeGraph,
    limits: BytecodeGraphVerificationLimits,
    certificates: Seq<CertificateModel>,
    at: int,
    usage: BytecodeGraphUsage,
)
    requires
        within_limits(usage, limits),
        definitions_verdict_from(input, limits, certificates, at, usage).is_ok(),
    ensures
        within_limits(
            definitions_verdict_from(input, limits, certificates, at, usage)->Ok_0,
            limits,
        ),
        same_totals(
            usage,
            definitions_verdict_from(input, limits, certificates, at, usage)->Ok_0,
        ),
    decreases input.metadata@.len() - at,
{
    if at < input.metadata@.len() {
        reveal(definition_certification);
        let body = definition_body(input, limits, certificates[at], at, usage);
        let first = initial_definitions(body.instructions.len(), usage);
        lemma_definitions_within(body, first);
        let next = definition_certification(body, usage)->Ok_0;
        assert(within_limits(next, limits));
        assert(same_totals(usage, next));
        lemma_graph_definitions_within(input, limits, certificates, at + 1, next);
    }
}

proof fn lemma_preflight_within(input: PreflightInput, at: int, usage: BytecodeGraphUsage)
    requires
        within_limits(usage, input.limits),
        with_functions_from(input, at, usage).is_ok(),
    ensures
        within_limits(with_functions_from(input, at, usage)->Ok_0, input.limits),
    decreases input.metadata.len() - at,
{
    if at < input.metadata.len() {
        let next = with_function(input, at, usage)->Ok_0;
        assert(within_limits(next, input.limits));
        lemma_preflight_within(input, at + 1, next);
    }
}

/// An accepted graph is charged no more of any resource than its limit allows.
pub proof fn lemma_accepted_graphs_stay_within_limits(
    input: UnverifiedCompilerBytecodeGraph,
    limits: BytecodeGraphVerificationLimits,
    findings: GraphFindings,
    counts: TextCounts,
)
    requires
        graph_verdict(input, limits, findings, counts).is_ok(),
    ensures
        within_limits(graph_verdict(input, limits, findings, counts)->Ok_0.usage, limits),
{
    let charged_input = PreflightInput {
        functions: input.graph.functions@,
        metadata: input.metadata@,
        followed: followed_bindings(findings.functions@),
        counts,
        limits,
    };
    let transfers = input.graph.closure_edge_evaluations;
    lemma_preflight_within(
        charged_input,
        0,
        BytecodeGraphUsage { policy_transfers: transfers, ..no_usage() },
    );
    let charged = preflight(charged_input, transfers)->Ok_0;
    let first = GraphVerdict { certificates: Seq::empty(), usage: charged };
    lemma_functions_within(input, limits, findings.functions@, 0, first);
    let verdict = functions_verdict_from(input, limits, findings.functions@, 0, first)->Ok_0;
    lemma_graph_definitions_within(input, limits, verdict.certificates, 0, verdict.usage);
    assert(spanning_verdict(input, limits, findings, verdict).is_ok());
}

/// An accepted graph is charged exactly the variables, closures and source
/// mappings of its records, and the bytes of its counted texts: what is checked
/// afterwards adds frame states and transfers alone.
pub proof fn lemma_accepted_graphs_are_charged_their_records(
    input: UnverifiedCompilerBytecodeGraph,
    limits: BytecodeGraphVerificationLimits,
    findings: GraphFindings,
    counts: TextCounts,
)
    requires
        graph_verdict(input, limits, findings, counts).is_ok(),
    ensures
        ({
            let usage = graph_verdict(input, limits, findings, counts)->Ok_0.usage;
            &&& usage.variable_definitions == variables_from(input.metadata@, 0)
            &&& usage.closure_definitions == closures_from(input.metadata@, 0)
            &&& usage.source_mappings == mappings_from(input.metadata@, 0)
            &&& usage.source_bytes == counted_bytes_from(input.metadata@, counts, 0)
            &&& same_totals(charged_first(input, limits, findings, counts)->Ok_0, usage)
        }),
{
    let charged_input = PreflightInput {
        functions: input.graph.functions@,
        metadata: input.metadata@,
        followed: followed_bindings(findings.functions@),
        counts,
        limits,
    };
    lemma_preflight_sums_within_limits(charged_input, input.graph.closure_edge_evaluations);
    let charged = charged_first(input, limits, findings, counts)->Ok_0;
    let first = GraphVerdict { certificates: Seq::empty(), usage: charged };
    lemma_functions_within(input, limits, findings.functions@, 0, first);
    let verdict = functions_verdict_from(input, limits, findings.functions@, 0, first)->Ok_0;
    lemma_graph_definitions_within(input, limits, verdict.certificates, 0, verdict.usage);
    assert(spanning_verdict(input, limits, findings, verdict).is_ok());
}

/// An accepted graph is charged the bytes of each distinct allocation once, of
/// source texts and of display names, where the comparisons of handles tell
/// which of them share an allocation: one text that several records share counts
/// once, equal texts in two allocations twice.
pub proof fn lemma_accepted_graphs_are_charged_each_allocation_once(
    input: UnverifiedCompilerBytecodeGraph,
    limits: BytecodeGraphVerificationLimits,
    findings: GraphFindings,
    counts: TextCounts,
    same_text: spec_fn(int, int) -> bool,
    same_name: spec_fn(int, int) -> bool,
)
    requires
        graph_verdict(input, limits, findings, counts).is_ok(),
        counts_each_allocation(counts, input.metadata@),
        tells_allocations(texts_told(input.metadata@), same_text),
        tells_allocations(names_told(input.metadata@), same_name),
    ensures
        graph_verdict(input, limits, findings, counts)->Ok_0.usage.source_bytes
            == allocated_bytes_from(input.metadata@, same_text, same_name, 0),
{
    lemma_accepted_graphs_are_charged_their_records(input, limits, findings, counts);
    lemma_counted_bytes_are_allocated(input.metadata@, counts, same_text, same_name, 0);
}

} // verus!
