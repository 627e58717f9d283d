//! What verified bytecode guarantees of every function in it.
use crate::bytecode::closure_metadata::parent_checks;
use crate::bytecode::function_metadata::{
    FunctionFindings, FunctionPlace, admission_checks, certified_checks, function_verdict,
};
use crate::bytecode::graph::{
    GraphFindings, GraphVerdict, authority_of_graph, definition_body, definitions_verdict_from,
    followed_bindings, functions_verdict_from, graph_verdict, spanning_verdict,
};
use crate::bytecode::internal_laws::{lemma_typed_stacks_agree, stacks_agree};
use crate::bytecode::internal_verifier::{
    CertificateModel, StackAnalysis, StackBody, stack_certificate,
};
use crate::bytecode::lexical_environment::arrow_checks;
use crate::bytecode::model::{
    BytecodeGraphUsage, BytecodeGraphVerificationLimits, UnverifiedCompilerBytecodeGraph,
    UnverifiedFunctionMetadata, declared_records, span_of_text,
};
use crate::bytecode::module_record::module_record_check;
use crate::bytecode::object_laws::{lemma_origins_agree, origins_agree};
use crate::bytecode::object_verifier::definition_certification;
use crate::bytecode::opcode_profile::{
    OpcodeAuthority, authority_of, opcode_admitted, refused_from,
};
use crate::bytecode::ownership::{ownership_check, spec_function_id, template_parents};
use crate::bytecode::preflight::{PreflightInput, TextCounts, preflight};
use crate::bytecode::protected_regions::has_markers;
use crate::bytecode::provenance::ObjectDefinitionProvenance as Origin;
use crate::bytecode::source::{mapping_checks, source_check, spec_contains};
use crate::bytecode::variables::{variable_checks, variable_context};
use crate::checks::{first_failure, lemma_success_means_all};
use crate::control_flow::model::VerifiedInstruction;
use crate::function_graph::{FunctionTemplateId, VerifiedCompilerFunction};
use vstd::prelude::*;
use vstd::string::StringSliceAdditionalSpecFns;

verus! {

/// Where a function of a graph stands in it.
pub open spec fn place_of(input: UnverifiedCompilerBytecodeGraph, at: int) -> FunctionPlace {
    FunctionPlace {
        id: FunctionTemplateId(at as u32),
        root: input.graph.root_id,
        authority: authority_of_graph(input),
    }
}

/// Whether a function was accepted with a certificate, whatever had been charged
/// before it.
pub open(crate) spec fn is_accepted_with(
    input: UnverifiedCompilerBytecodeGraph,
    limits: BytecodeGraphVerificationLimits,
    findings: Seq<FunctionFindings>,
    at: int,
    certificate: CertificateModel,
) -> bool {
    exists|usage: BytecodeGraphUsage|
        is_accepted_at(input, limits, findings, at, certificate, usage)
}

/// Whether a function was accepted with a certificate at a usage.
pub open(crate) spec fn is_accepted_at(
    input: UnverifiedCompilerBytecodeGraph,
    limits: BytecodeGraphVerificationLimits,
    findings: Seq<FunctionFindings>,
    at: int,
    certificate: CertificateModel,
    usage: BytecodeGraphUsage,
) -> bool {
    let verdict = function_verdict(
        place_of(input, at),
        input.graph.functions@[at],
        input.metadata@[at],
        limits,
        findings[at],
        usage,
    );
    verdict.is_ok() && verdict->Ok_0.0 == certificate
}

proof fn lemma_functions_are_accepted(
    input: UnverifiedCompilerBytecodeGraph,
    limits: BytecodeGraphVerificationLimits,
    findings: Seq<FunctionFindings>,
    at: int,
    verdict: GraphVerdict,
)
    requires
        0 <= at <= input.metadata@.len(),
        verdict.certificates.len() == at,
        forall|i: int|
            0 <= i < at ==> is_accepted_with(
                input,
                limits,
                findings,
                i,
                #[trigger] verdict.certificates[i],
            ),
        functions_verdict_from(input, limits, findings, at, verdict).is_ok(),
    ensures
        ({
            let end = functions_verdict_from(input, limits, findings, at, verdict)->Ok_0;
            &&& end.certificates.len() == input.metadata@.len()
            &&& forall|i: int|
                0 <= i < input.metadata@.len() ==> is_accepted_with(
                    input,
                    limits,
                    findings,
                    i,
                    #[trigger] end.certificates[i],
                )
        }),
    decreases input.metadata@.len() - at,
{
    if at < input.metadata@.len() {
        assert(spec_function_id(at).is_ok());
        let (certificate, usage) = function_verdict(
            place_of(input, at),
            input.graph.functions@[at],
            input.metadata@[at],
            limits,
            findings[at],
            verdict.usage,
        )->Ok_0;
        assert(is_accepted_at(input, limits, findings, at, certificate, verdict.usage));
        let next = GraphVerdict { certificates: verdict.certificates.push(certificate), usage };
        assert forall|i: int| 0 <= i < at + 1 implies is_accepted_with(
            input,
            limits,
            findings,
            i,
            #[trigger] next.certificates[i],
        ) by {
            if i < at {
                assert(next.certificates[i] == verdict.certificates[i]);
            }
        }
        lemma_functions_are_accepted(input, limits, findings, at + 1, next);
    }
}

/// In an accepted graph every function was accepted with its certificate, every
/// template has its one owner, children close over what their parents hand on,
/// arrows use only what their environment lends them, and the declaration record
/// fits the root.
pub proof fn lemma_accepted_graphs_pass_every_check(
    input: UnverifiedCompilerBytecodeGraph,
    limits: BytecodeGraphVerificationLimits,
    findings: GraphFindings,
    counts: TextCounts,
)
    requires
        graph_verdict(input, limits, findings, counts).is_ok(),
    ensures
        ({
            let verdict = graph_verdict(input, limits, findings, counts)->Ok_0;
            let functions = input.graph.functions@;
            let records = declared_records(input.metadata@);
            &&& functions.len() == input.metadata@.len()
            &&& verdict.certificates.len() == functions.len()
            &&& ownership_check(functions, input.graph.root_id).is_ok()
            &&& first_failure(parent_checks(functions, records)).is_ok()
            &&& first_failure(
                arrow_checks(functions, records, template_parents(functions)),
            ).is_ok()
            &&& module_record_check(
                *input.graph,
                records,
                authority_of_graph(input),
                input.module,
            ).is_ok()
            &&& forall|i: int|
                0 <= i < functions.len() ==> is_accepted_with(
                    input,
                    limits,
                    findings.functions@,
                    i,
                    #[trigger] verdict.certificates[i],
                )
        }),
{
    let charged = preflight(
        PreflightInput {
            functions: input.graph.functions@,
            metadata: input.metadata@,
            followed: followed_bindings(findings.functions@),
            counts,
            limits,
        },
        input.graph.closure_edge_evaluations,
    )->Ok_0;
    let first = GraphVerdict { certificates: Seq::empty(), usage: charged };
    lemma_functions_are_accepted(input, limits, findings.functions@, 0, first);
    let verdict = functions_verdict_from(input, limits, findings.functions@, 0, first)->Ok_0;
    assert(spanning_verdict(input, limits, findings, verdict).is_ok());
}

/// The typed stacks of an accepted function agree along all its edges.
pub proof fn lemma_accepted_stacks_agree(
    input: UnverifiedCompilerBytecodeGraph,
    limits: BytecodeGraphVerificationLimits,
    findings: GraphFindings,
    counts: TextCounts,
    at: int,
)
    requires
        graph_verdict(input, limits, findings, counts).is_ok(),
        0 <= at < input.metadata@.len(),
        has_markers(input.graph.functions@[at].control_flow.spec_instructions()),
        input.graph.functions@[at].control_flow.spec_instructions().len() <= usize::MAX,
    ensures
        exists|body: StackBody, analysis: StackAnalysis|
            #![trigger stacks_agree(body, analysis)]
            {
                let certificate = graph_verdict(
                    input,
                    limits,
                    findings,
                    counts,
                )->Ok_0.certificates[at];
                &&& body.instructions
                    == input.graph.functions@[at].control_flow.spec_instructions()
                &&& body.targets.continuations == certificate.continuations
                &&& analysis.certificates.rets == certificate.certificates.rets
                &&& stacks_agree(body, analysis)
            },
{
    lemma_accepted_graphs_pass_every_check(input, limits, findings, counts);
    let certificate = graph_verdict(input, limits, findings, counts)->Ok_0.certificates[at];
    assert(is_accepted_with(input, limits, findings.functions@, at, certificate));
    let usage = choose|usage: BytecodeGraphUsage|
        is_accepted_at(input, limits, findings.functions@, at, certificate, usage);
    let function = input.graph.functions@[at];
    let instructions = function.control_flow.instructions@;
    let place = place_of(input, at);
    reveal(function_verdict);
    lemma_typed_stacks_agree(place.id, instructions, limits, usage);
    let (stacked, charged) = stack_certificate(place.id, instructions, limits, usage)->Ok_0;
    let (body, analysis) = choose|body: StackBody, analysis: StackAnalysis|
        #![trigger stacks_agree(body, analysis)]
        {
            &&& body.id == place.id
            &&& body.instructions == instructions
            &&& body.targets.continuations == stacked.continuations
            &&& analysis.certificates == stacked.certificates
            &&& stacks_agree(body, analysis)
        };
    let declaring = certified_checks(
        place,
        function,
        input.metadata@[at],
        limits,
        stacked,
        charged,
    )->Ok_0.0;
    assert(declaring == certificate);
    assert(stacks_agree(body, analysis));
}

proof fn lemma_definitions_are_certified(
    input: UnverifiedCompilerBytecodeGraph,
    limits: BytecodeGraphVerificationLimits,
    certificates: Seq<CertificateModel>,
    from: int,
    usage: BytecodeGraphUsage,
    at: int,
)
    requires
        0 <= from <= at < input.metadata@.len(),
        definitions_verdict_from(input, limits, certificates, from, usage).is_ok(),
    ensures
        exists|charged: BytecodeGraphUsage| #[trigger]
            definition_certification(
                definition_body(input, limits, certificates[at], at, charged),
                charged,
            ).is_ok(),
    decreases at - from,
{
    let body = definition_body(input, limits, certificates[from], from, usage);
    assert(definition_certification(body, usage).is_ok());
    if from < at {
        let next = definition_certification(body, usage)->Ok_0;
        lemma_definitions_are_certified(input, limits, certificates, from + 1, next, at);
    }
}

/// The origins of what an accepted function defines agree along all its edges.
pub proof fn lemma_accepted_origins_agree(
    input: UnverifiedCompilerBytecodeGraph,
    limits: BytecodeGraphVerificationLimits,
    findings: GraphFindings,
    counts: TextCounts,
    at: int,
)
    requires
        graph_verdict(input, limits, findings, counts).is_ok(),
        0 <= at < input.metadata@.len(),
        input.graph.functions@[at].control_flow.spec_instructions().len() <= usize::MAX,
    ensures
        exists|usage: BytecodeGraphUsage, entries: Seq<Option<Seq<Origin>>>| #[trigger]
            origins_agree(
                definition_body(
                    input,
                    limits,
                    graph_verdict(input, limits, findings, counts)->Ok_0.certificates[at],
                    at,
                    usage,
                ),
                entries,
            ),
{
    let charged = preflight(
        PreflightInput {
            functions: input.graph.functions@,
            metadata: input.metadata@,
            followed: followed_bindings(findings.functions@),
            counts,
            limits,
        },
        input.graph.closure_edge_evaluations,
    )->Ok_0;
    let verdict = functions_verdict_from(
        input,
        limits,
        findings.functions@,
        0,
        GraphVerdict { certificates: Seq::empty(), usage: charged },
    )->Ok_0;
    lemma_definitions_are_certified(
        input,
        limits,
        verdict.certificates,
        0,
        verdict.usage,
        at,
    );
    let usage = choose|usage: BytecodeGraphUsage| #[trigger]
        definition_certification(
            definition_body(input, limits, verdict.certificates[at], at, usage),
            usage,
        ).is_ok();
    let body = definition_body(input, limits, verdict.certificates[at], at, usage);
    lemma_origins_agree(body, usage);
    let entries = choose|entries: Seq<Option<Seq<Origin>>>| origins_agree(body, entries);
    let end = graph_verdict(input, limits, findings, counts)->Ok_0;
    assert(spanning_verdict(input, limits, findings, verdict).is_ok());
    assert(end.certificates == verdict.certificates);
    assert(origins_agree(
        definition_body(input, limits, end.certificates[at], at, usage),
        entries,
    ));
}

/// Every check without dataflow passes for an accepted function.
pub proof fn lemma_accepted_functions_are_admitted(
    input: UnverifiedCompilerBytecodeGraph,
    limits: BytecodeGraphVerificationLimits,
    findings: GraphFindings,
    counts: TextCounts,
    at: int,
)
    requires
        graph_verdict(input, limits, findings, counts).is_ok(),
        0 <= at < input.metadata@.len(),
    ensures
        first_failure(
            admission_checks(
                place_of(input, at),
                input.graph.functions@[at],
                input.metadata@[at],
                findings.functions@[at].instance_initializer_sequences@,
            ),
        ).is_ok(),
{
    lemma_accepted_graphs_pass_every_check(input, limits, findings, counts);
    let certificate = graph_verdict(input, limits, findings, counts)->Ok_0.certificates[at];
    assert(is_accepted_with(input, limits, findings.functions@, at, certificate));
    reveal(function_verdict);
}

proof fn lemma_nothing_is_refused(
    authority: OpcodeAuthority,
    instructions: Seq<VerifiedInstruction>,
    sequences: Seq<bool>,
    from: int,
    at: int,
)
    requires
        0 <= from <= at < instructions.len(),
        refused_from(authority, instructions, sequences, from).is_none(),
    ensures
        opcode_admitted(authority, instructions, sequences, at),
    decreases at - from,
{
    if from < at {
        lemma_nothing_is_refused(authority, instructions, sequences, from + 1, at);
    }
}

/// An admitted function holds only opcodes that its kind and header authorize.
pub proof fn lemma_admitted_opcodes_are_authorized(
    place: FunctionPlace,
    function: VerifiedCompilerFunction,
    metadata: UnverifiedFunctionMetadata,
    sequences: Seq<bool>,
    at: int,
)
    requires
        first_failure(admission_checks(place, function, metadata, sequences)).is_ok(),
        0 <= at < function.control_flow.spec_instructions().len(),
    ensures
        opcode_admitted(
            authority_of(function.control_flow, metadata),
            function.control_flow.spec_instructions(),
            sequences,
            at,
        ),
{
    let checks = admission_checks(place, function, metadata, sequences);
    lemma_success_means_all(checks);
    assert(checks[10].is_ok());
    lemma_nothing_is_refused(
        authority_of(function.control_flow, metadata),
        function.control_flow.instructions@,
        sequences,
        0,
        at,
    );
}

/// The variables of an admitted function have policies that are valid in it.
pub proof fn lemma_admitted_variables_have_valid_policies(
    place: FunctionPlace,
    function: VerifiedCompilerFunction,
    metadata: UnverifiedFunctionMetadata,
    sequences: Seq<bool>,
    at: int,
)
    requires
        first_failure(admission_checks(place, function, metadata, sequences)).is_ok(),
        0 <= at < metadata.variables@.len(),
    ensures
        metadata.variables@[at].policy.spec_is_valid_for_function(
            variable_context(place.id, function).strict,
        ),
        metadata.variables@[at].name.is_some(),
{
    let checks = admission_checks(place, function, metadata, sequences);
    lemma_success_means_all(checks);
    assert(checks[6].is_ok());
    let context = variable_context(place.id, function);
    let definitions = variable_checks(context, metadata.variables@);
    lemma_success_means_all(definitions);
    assert(definitions[at].is_ok());
}

/// The source of an admitted function maps each instruction, at its own offset,
/// to whole characters inside the function.
pub proof fn lemma_admitted_sources_map_instructions(
    place: FunctionPlace,
    function: VerifiedCompilerFunction,
    metadata: UnverifiedFunctionMetadata,
    sequences: Seq<bool>,
    at: int,
)
    requires
        first_failure(admission_checks(place, function, metadata, sequences)).is_ok(),
        0 <= at < function.control_flow.spec_instructions().len(),
    ensures
        metadata.source.mappings@.len() == function.control_flow.spec_instructions().len(),
        ({
            let mapping = metadata.source.mappings@[at];
            &&& mapping.pc == function.control_flow.spec_instructions()[at].spec_decoded().pc
            &&& span_of_text(metadata.source.text.spec_bytes(), mapping.span)
            &&& spec_contains(metadata.source.function_span, mapping.span)
        }),
{
    let checks = admission_checks(place, function, metadata, sequences);
    lemma_success_means_all(checks);
    assert(checks[9].is_ok());
    let instructions = function.control_flow.instructions@;
    assert(source_check(place.id, instructions, metadata).is_ok());
    let mappings = mapping_checks(place.id, instructions, metadata);
    lemma_success_means_all(mappings);
    assert(mappings[at].is_ok());
}

} // verus!
