//! Verification of a whole compiler graph.
use crate::bytecode::closure_metadata::{parent_checks, verify_closure_metadata};
use crate::bytecode::error::{
    BytecodeVerificationError, BytecodeVerificationErrorKind, graph_error,
};
use crate::bytecode::function_metadata::{
    FunctionFindings, FunctionPlace, freezes, function_memory_failure, function_verdict,
    verify_function_metadata,
};
use crate::bytecode::internal_verifier::CertificateModel;
use crate::bytecode::lexical_environment::{
    arrow_checks, derived_this_flags, verify_lexical_arrow_environments,
};
use crate::bytecode::model::{
    BytecodeGraphResource, BytecodeGraphUsage, BytecodeGraphVerificationLimits,
    CompilerExecutableKind, EXECUTION_REQUIREMENT_COUNT, ExecutionRequirement,
    UnverifiedCompilerBytecodeGraph, VerifiedBytecode, VerifiedFunctionMetadata, declared_records,
    records_of,
};
use crate::bytecode::module_record::{
    module_record_check, records_module, verify_module_declaration_record,
};
use crate::bytecode::object_provenance::DefinitionBody;
use crate::bytecode::object_verifier::{
    certification_memory_failure, definition_certification, verify_object_definition_provenance,
};
use crate::bytecode::ownership::{
    function_id, ownership_check, spec_function_id, template_parents,
    verify_function_tree_ownership,
};
use crate::bytecode::preflight::{
    PreflightInput, RetainedTexts, TextCounts, counts_each_allocation, find_retained_texts,
    preflight, preflight_usage_of_texts, texts_failure,
};
use crate::bytecode::requirements::{collect_requirements, lists_requirements};
use crate::bytecode::stack_error::{charge, charged, reservation_failure};
use crate::checks::first_failure;
use crate::function_graph::FunctionTemplateId;
use crate::reserve::reserve_vec_exact;
use std::sync::Arc;
use vstd::prelude::*;

verus! {

/// What the analyses that follow bindings and class elements found of a graph.
#[derive(Debug)]
pub struct GraphFindings {
    /// Findings on each function.
    pub functions: Vec<FunctionFindings>,
    /// Whether the keys of class fields are bound as their classes ask.
    pub class_field_keys: Result<(), BytecodeVerificationError>,
    /// Whether inferred function names fit their functions.
    pub inferred_names: Result<(), BytecodeVerificationError>,
    /// Whether methods are defined from templates of their kind.
    pub method_templates: Result<(), BytecodeVerificationError>,
}

/// Numbers of variables whose state each function follows.
pub open spec fn followed_bindings(findings: Seq<FunctionFindings>) -> Seq<usize> {
    Seq::new(findings.len(), |i: int| findings[i].followed_bindings)
}

/// What an accepted graph was certified and charged.
pub struct GraphVerdict {
    /// Typed-stack certificate of each function.
    pub certificates: Seq<CertificateModel>,
    /// Resources charged in all.
    pub usage: BytecodeGraphUsage,
}

/// Executable kind of the root.
pub open spec fn authority_of_graph(input: UnverifiedCompilerBytecodeGraph) ->
    CompilerExecutableKind {
    input.metadata@[input.graph.root_id.0 as int].executable_kind
}

/// Verdict on the functions from `at` on.
pub open(crate) spec fn functions_verdict_from(
    input: UnverifiedCompilerBytecodeGraph,
    limits: BytecodeGraphVerificationLimits,
    findings: Seq<FunctionFindings>,
    at: int,
    verdict: GraphVerdict,
) -> Result<GraphVerdict, BytecodeVerificationError>
    decreases input.metadata@.len() - at,
{
    if at >= input.metadata@.len() {
        Ok(verdict)
    } else {
        match spec_function_id(at) {
            Err(error) => Err(error),
            Ok(id) => match function_verdict(
                FunctionPlace {
                    id,
                    root: input.graph.root_id,
                    authority: authority_of_graph(input),
                },
                input.graph.functions@[at],
                input.metadata@[at],
                limits,
                findings[at],
                verdict.usage,
            ) {
                Err(error) => Err(error),
                Ok((certificate, usage)) => functions_verdict_from(
                    input,
                    limits,
                    findings,
                    at + 1,
                    GraphVerdict {
                        certificates: verdict.certificates.push(certificate),
                        usage,
                    },
                ),
            },
        }
    }
}

/// The body of one function, as object definitions are certified in it.
pub open(crate) spec fn definition_body(
    input: UnverifiedCompilerBytecodeGraph,
    limits: BytecodeGraphVerificationLimits,
    certificate: CertificateModel,
    at: int,
    usage: BytecodeGraphUsage,
) -> DefinitionBody {
    let function = input.graph.functions@[at];
    let metadata = input.metadata@[at];
    DefinitionBody {
        id: FunctionTemplateId(at as u32),
        instructions: function.control_flow.instructions@,
        atoms: function.atoms@,
        argument_count: function.control_flow.domains.argument_count,
        executable_kind: metadata.executable_kind,
        variables: metadata.variables@,
        closures: metadata.closures@,
        certificate,
        limits,
        base: usage.policy_transfers,
    }
}

/// Usage after the object definitions of the functions from `at` on were
/// certified.
pub open(crate) spec fn definitions_verdict_from(
    input: UnverifiedCompilerBytecodeGraph,
    limits: BytecodeGraphVerificationLimits,
    certificates: Seq<CertificateModel>,
    at: int,
    usage: BytecodeGraphUsage,
) -> Result<BytecodeGraphUsage, BytecodeVerificationError>
    decreases input.metadata@.len() - at,
{
    if at >= input.metadata@.len() {
        Ok(usage)
    } else {
        match definition_certification(
            definition_body(input, limits, certificates[at], at, usage),
            usage,
        ) {
            Err(error) => Err(error),
            Ok(next) => definitions_verdict_from(input, limits, certificates, at + 1, next),
        }
    }
}

/// Verdict on what spans the functions of a graph, after each function was
/// accepted.
pub open(crate) spec fn spanning_verdict(
    input: UnverifiedCompilerBytecodeGraph,
    limits: BytecodeGraphVerificationLimits,
    findings: GraphFindings,
    verdict: GraphVerdict,
) -> Result<GraphVerdict, BytecodeVerificationError> {
    let functions = input.graph.functions@;
    let records = declared_records(input.metadata@);
    let closures = first_failure(parent_checks(functions, records));
    let arrows = first_failure(arrow_checks(functions, records, template_parents(functions)));
    let definitions = definitions_verdict_from(
        input,
        limits,
        verdict.certificates,
        0,
        verdict.usage,
    );
    let module = module_record_check(
        *input.graph,
        records,
        authority_of_graph(input),
        input.module,
    );
    if closures.is_err() {
        Err(closures->Err_0)
    } else if arrows.is_err() {
        Err(arrows->Err_0)
    } else if findings.class_field_keys.is_err() {
        Err(findings.class_field_keys->Err_0)
    } else if findings.inferred_names.is_err() {
        Err(findings.inferred_names->Err_0)
    } else if definitions.is_err() {
        Err(definitions->Err_0)
    } else if findings.method_templates.is_err() {
        Err(findings.method_templates->Err_0)
    } else if module.is_err() {
        Err(module->Err_0)
    } else {
        Ok(GraphVerdict { usage: definitions->Ok_0, ..verdict })
    }
}

/// The metadata records do not match the functions one to one.
pub open spec fn record_count_error(input: UnverifiedCompilerBytecodeGraph) ->
    BytecodeVerificationError {
    graph_error(
        BytecodeVerificationErrorKind::FunctionMetadataCountMismatch {
            functions: input.graph.functions@.len() as u64,
            metadata: input.metadata@.len() as u64,
        },
    )
}

/// The findings do not match the functions one to one.
pub open spec fn finding_count_error(
    input: UnverifiedCompilerBytecodeGraph,
    findings: GraphFindings,
) -> BytecodeVerificationError {
    graph_error(
        BytecodeVerificationErrorKind::FunctionMetadataCountMismatch {
            functions: input.graph.functions@.len() as u64,
            metadata: findings.functions@.len() as u64,
        },
    )
}

/// Whether each function has its record and its findings.
pub open spec fn counts_match(
    input: UnverifiedCompilerBytecodeGraph,
    findings: GraphFindings,
) -> bool {
    input.graph.functions@.len() == input.metadata@.len() && findings.functions@.len()
        == input.graph.functions@.len()
}

/// Verdict on a graph, given the texts that are counted.
pub open(crate) spec fn graph_verdict(
    input: UnverifiedCompilerBytecodeGraph,
    limits: BytecodeGraphVerificationLimits,
    findings: GraphFindings,
    counts: TextCounts,
) -> Result<GraphVerdict, BytecodeVerificationError> {
    let functions = input.graph.functions@;
    let charged = charged_first(input, limits, findings, counts);
    let owned = ownership_check(functions, input.graph.root_id);
    if functions.len() != input.metadata@.len() {
        Err(record_count_error(input))
    } else if findings.functions@.len() != functions.len() {
        Err(finding_count_error(input, findings))
    } else if charged.is_err() {
        Err(charged->Err_0)
    } else if owned.is_err() {
        Err(owned->Err_0)
    } else if input.graph.root_id.0 >= input.metadata@.len() {
        Err(record_count_error(input))
    } else {
        match functions_verdict_from(
            input,
            limits,
            findings.functions@,
            0,
            GraphVerdict { certificates: Seq::empty(), usage: charged->Ok_0 },
        ) {
            Err(error) => Err(error),
            Ok(verdict) => spanning_verdict(input, limits, findings, verdict),
        }
    }
}

/// Whether verified bytecode is what an input was accepted as.
pub open(crate) spec fn accepts(
    bytecode: VerifiedBytecode,
    input: UnverifiedCompilerBytecodeGraph,
    findings: GraphFindings,
    verdict: GraphVerdict,
) -> bool {
    let functions = input.graph.functions@;
    &&& *bytecode.graph == *input.graph
    &&& bytecode.usage == verdict.usage
    &&& bytecode.metadata@.len() == input.metadata@.len()
    &&& verdict.certificates.len() == input.metadata@.len()
    &&& forall|i: int|
        0 <= i < input.metadata@.len() ==> freezes(
            #[trigger] bytecode.metadata@[i],
            input.metadata@[i],
            verdict.certificates[i],
        )
    &&& bytecode.lexical_derived_this@ == derived_this_flags(
        functions,
        declared_records(input.metadata@),
        template_parents(functions),
    )
    &&& lists_requirements(bytecode.requirements@, findings.functions@, input.module.is_some())
    &&& records_module(
        match bytecode.module {
            Some(module) => Some(*module),
            None => None,
        },
        input.module,
    )
}

/// What a graph is charged before its functions are checked.
pub open(crate) spec fn charged_first(
    input: UnverifiedCompilerBytecodeGraph,
    limits: BytecodeGraphVerificationLimits,
    findings: GraphFindings,
    counts: TextCounts,
) -> Result<BytecodeGraphUsage, BytecodeVerificationError> {
    preflight(
        PreflightInput {
            functions: input.graph.functions@,
            metadata: input.metadata@,
            followed: followed_bindings(findings.functions@),
            counts,
            limits,
        },
        input.graph.closure_edge_evaluations,
    )
}

/// Whether `error` reports that the checks of the functions from `at` on could
/// not reserve memory.
pub open(crate) spec fn functions_memory_failure_from(
    input: UnverifiedCompilerBytecodeGraph,
    limits: BytecodeGraphVerificationLimits,
    findings: Seq<FunctionFindings>,
    at: int,
    verdict: GraphVerdict,
    error: BytecodeVerificationError,
) -> bool
    decreases input.metadata@.len() - at,
{
    if at >= input.metadata@.len() {
        false
    } else {
        match spec_function_id(at) {
            Err(_) => false,
            Ok(id) => {
                let place = FunctionPlace {
                    id,
                    root: input.graph.root_id,
                    authority: authority_of_graph(input),
                };
                let function = input.graph.functions@[at];
                let metadata = input.metadata@[at];
                ||| function_memory_failure(
                    place,
                    function,
                    metadata,
                    limits,
                    findings[at],
                    verdict.usage,
                    error,
                )
                ||| match function_verdict(
                    place,
                    function,
                    metadata,
                    limits,
                    findings[at],
                    verdict.usage,
                ) {
                    Err(_) => false,
                    Ok((certificate, usage)) => functions_memory_failure_from(
                        input,
                        limits,
                        findings,
                        at + 1,
                        GraphVerdict {
                            certificates: verdict.certificates.push(certificate),
                            usage,
                        },
                        error,
                    ),
                }
            },
        }
    }
}

/// Whether `error` reports that the object definitions of the functions from
/// `at` on could not be certified for want of memory.
pub open(crate) spec fn definitions_memory_failure_from(
    input: UnverifiedCompilerBytecodeGraph,
    limits: BytecodeGraphVerificationLimits,
    certificates: Seq<CertificateModel>,
    at: int,
    usage: BytecodeGraphUsage,
    error: BytecodeVerificationError,
) -> bool
    decreases input.metadata@.len() - at,
{
    if at >= input.metadata@.len() {
        false
    } else {
        let body = definition_body(input, limits, certificates[at], at, usage);
        ||| certification_memory_failure(body, usage, error)
        ||| match definition_certification(body, usage) {
            Err(_) => false,
            Ok(next) => definitions_memory_failure_from(
                input,
                limits,
                certificates,
                at + 1,
                next,
                error,
            ),
        }
    }
}

/// Whether `error` reports that a check which spans the functions of a graph
/// could not reserve memory: for the flags of the arrows, once closures are in
/// order, or for the object definitions, once arrows and names are.
pub open(crate) spec fn spanning_memory_failure(
    input: UnverifiedCompilerBytecodeGraph,
    limits: BytecodeGraphVerificationLimits,
    findings: GraphFindings,
    verdict: GraphVerdict,
    error: BytecodeVerificationError,
) -> bool {
    let functions = input.graph.functions@;
    let records = declared_records(input.metadata@);
    &&& first_failure(parent_checks(functions, records)).is_ok()
    &&& {
        ||| error == reservation_failure(
            input.graph.root_id,
            BytecodeGraphResource::VerifiedMetadata,
            functions.len() as u64,
        )
        ||| {
            &&& first_failure(
                arrow_checks(functions, records, template_parents(functions)),
            ).is_ok()
            &&& findings.class_field_keys.is_ok()
            &&& findings.inferred_names.is_ok()
            &&& definitions_memory_failure_from(
                input,
                limits,
                verdict.certificates,
                0,
                verdict.usage,
                error,
            )
        }
    }
}

/// Failure to reserve `requested` entries of verified metadata for a graph.
pub open spec fn metadata_failure(requested: nat) -> BytecodeVerificationError {
    graph_error(
        BytecodeVerificationErrorKind::AllocationFailed {
            resource: BytecodeGraphResource::VerifiedMetadata,
            requested: requested as u64,
        },
    )
}

/// Whether `error` reports that the checks of a graph could not reserve memory,
/// at a point that they reach: for its tree, for its records and its
/// requirements, for one of its functions, or for what spans them.
pub open(crate) spec fn graph_memory_failure(
    input: UnverifiedCompilerBytecodeGraph,
    limits: BytecodeGraphVerificationLimits,
    findings: GraphFindings,
    counts: TextCounts,
    error: BytecodeVerificationError,
) -> bool {
    let functions = input.graph.functions@;
    let charged = charged_first(input, limits, findings, counts);
    let first = GraphVerdict { certificates: Seq::empty(), usage: charged->Ok_0 };
    &&& counts_match(input, findings)
    &&& charged.is_ok()
    &&& {
        ||| error == reservation_failure(
            input.graph.root_id,
            BytecodeGraphResource::VerifiedMetadata,
            functions.len() as u64,
        )
        ||| ownership_check(functions, input.graph.root_id).is_ok() && {
            ||| error == metadata_failure(functions.len())
            ||| error == metadata_failure(EXECUTION_REQUIREMENT_COUNT as nat)
            ||| input.graph.root_id.0 < functions.len() && {
                ||| functions_memory_failure_from(
                    input,
                    limits,
                    findings.functions@,
                    0,
                    first,
                    error,
                )
                ||| match functions_verdict_from(
                    input,
                    limits,
                    findings.functions@,
                    0,
                    first,
                ) {
                    Err(_) => false,
                    Ok(verdict) => spanning_memory_failure(
                        input,
                        limits,
                        findings,
                        verdict,
                        error,
                    ),
                }
            }
        }
    }
}

/// Whether an outcome is what the verdict on a graph asks for: bytecode that
/// holds the graph, or the error, unless memory ran out first.
pub open(crate) spec fn follows_verdict(
    outcome: Result<VerifiedBytecode, BytecodeVerificationError>,
    input: UnverifiedCompilerBytecodeGraph,
    limits: BytecodeGraphVerificationLimits,
    findings: GraphFindings,
    counts: TextCounts,
) -> bool {
    let expected = graph_verdict(input, limits, findings, counts);
    match outcome {
        Ok(bytecode) => expected.is_ok() && accepts(bytecode, input, findings, expected->Ok_0),
        Err(error) => expected == Err::<GraphVerdict, BytecodeVerificationError>(error)
            || graph_memory_failure(input, limits, findings, counts, error),
    }
}

fn metadata_count_mismatch(functions: usize, metadata: usize) -> (error: BytecodeVerificationError)
    ensures
        error == graph_error(
            BytecodeVerificationErrorKind::FunctionMetadataCountMismatch {
                functions: functions as u64,
                metadata: metadata as u64,
            },
        ),
{
    BytecodeVerificationError::graph(
        BytecodeVerificationErrorKind::FunctionMetadataCountMismatch {
            functions: functions as u64,
            metadata: metadata as u64,
        },
    )
}

fn metadata_reservation_failure(requested: usize) -> (error: BytecodeVerificationError)
    ensures
        error == metadata_failure(requested as nat),
{
    BytecodeVerificationError::graph(
        BytecodeVerificationErrorKind::AllocationFailed {
            resource: BytecodeGraphResource::VerifiedMetadata,
            requested: requested as u64,
        },
    )
}

fn count_followed_bindings(findings: &[FunctionFindings]) -> (counts: Vec<usize>)
    ensures
        counts@ == followed_bindings(findings@),
{
    let mut counts: Vec<usize> = Vec::new();
    let mut at: usize = 0;
    while at < findings.len()
        invariant
            at <= findings@.len(),
            counts@.len() == at,
            forall|i: int| 0 <= i < at ==> #[trigger] counts@[i] == findings@[i].followed_bindings,
        decreases findings@.len() - at,
    {
        counts.push(findings[at].followed_bindings);
        at = at + 1;
    }
    assert(counts@ =~= followed_bindings(findings@));
    counts
}

fn verify_functions(
    input: &UnverifiedCompilerBytecodeGraph,
    authority: CompilerExecutableKind,
    limits: BytecodeGraphVerificationLimits,
    findings: &[FunctionFindings],
    usage: &mut BytecodeGraphUsage,
    room: Vec<VerifiedFunctionMetadata>,
) -> (verified: Result<
    (Vec<VerifiedFunctionMetadata>, Ghost<Seq<CertificateModel>>),
    BytecodeVerificationError,
>)
    requires
        input.metadata@.len() == input.graph.functions@.len(),
        findings@.len() == input.graph.functions@.len(),
        authority == authority_of_graph(*input),
        room@.len() == 0,
    ensures
        ({
            let expected = functions_verdict_from(
                *input,
                limits,
                findings@,
                0,
                GraphVerdict { certificates: Seq::empty(), usage: *old(usage) },
            );
            match verified {
                Ok((verified, certificates)) => expected == Ok::<
                    GraphVerdict,
                    BytecodeVerificationError,
                >(GraphVerdict { certificates: certificates@, usage: *final(usage) })
                    && verified@.len() == input.metadata@.len() && certificates@.len()
                    == input.metadata@.len() && (forall|i: int|
                    0 <= i < input.metadata@.len() ==> freezes(
                        #[trigger] verified@[i],
                        input.metadata@[i],
                        certificates@[i],
                    )),
                Err(error) => expected == Err::<GraphVerdict, BytecodeVerificationError>(error)
                    || functions_memory_failure_from(
                    *input,
                    limits,
                    findings@,
                    0,
                    GraphVerdict { certificates: Seq::empty(), usage: *old(usage) },
                    error,
                ),
            }
        }),
{
    let functions = input.graph.functions();
    let mut verified = room;
    let ghost mut certificates: Seq<CertificateModel> = Seq::empty();
    let ghost first = GraphVerdict { certificates, usage: *usage };
    let root = input.graph.root_id();
    let mut at: usize = 0;
    while at < input.metadata.len()
        invariant
            at <= input.metadata@.len(),
            functions@ == input.graph.functions@,
            root == input.graph.root_id,
            input.metadata@.len() == input.graph.functions@.len(),
            findings@.len() == input.graph.functions@.len(),
            authority == authority_of_graph(*input),
            verified@.len() == at,
            certificates.len() == at,
            forall|i: int|
                0 <= i < at ==> freezes(
                    #[trigger] verified@[i],
                    input.metadata@[i],
                    certificates[i],
                ),
            first == (GraphVerdict { certificates: Seq::empty(), usage: *old(usage) }),
            functions_verdict_from(*input, limits, findings@, 0, first) == functions_verdict_from(
                *input,
                limits,
                findings@,
                at as int,
                GraphVerdict { certificates, usage: *usage },
            ),
            forall|error: BytecodeVerificationError| #[trigger]
                functions_memory_failure_from(
                    *input,
                    limits,
                    findings@,
                    at as int,
                    GraphVerdict { certificates, usage: *usage },
                    error,
                ) ==> functions_memory_failure_from(*input, limits, findings@, 0, first, error),
        decreases input.metadata@.len() - at,
    {
        let id = function_id(at)?;
        let place = FunctionPlace { id, root, authority };
        let ghost before = *usage;
        let ghost reached = GraphVerdict { certificates, usage: before };
        let checked = verify_function_metadata(
            place,
            &functions[at],
            &input.metadata[at],
            &findings[at],
            limits,
            usage,
        );
        let record = match checked {
            Ok(record) => record,
            Err(error) => {
                assert(function_memory_failure(
                    place,
                    functions@[at as int],
                    input.metadata@[at as int],
                    limits,
                    findings@[at as int],
                    before,
                    error,
                ) ==> functions_memory_failure_from(
                    *input,
                    limits,
                    findings@,
                    at as int,
                    reached,
                    error,
                ));
                return Err(error);
            },
        };
        proof {
            let verdict = function_verdict(
                place,
                functions@[at as int],
                input.metadata@[at as int],
                limits,
                findings@[at as int],
                before,
            );
            certificates = certificates.push(verdict->Ok_0.0);
            let next = GraphVerdict { certificates, usage: *usage };
            assert forall|error: BytecodeVerificationError| #[trigger]
                functions_memory_failure_from(
                    *input,
                    limits,
                    findings@,
                    at + 1,
                    next,
                    error,
                ) implies functions_memory_failure_from(
                *input,
                limits,
                findings@,
                0,
                first,
                error,
            ) by {
                assert(functions_memory_failure_from(
                    *input,
                    limits,
                    findings@,
                    at as int,
                    reached,
                    error,
                ));
            }
        }
        verified.push(record);
        at = at + 1;
    }
    Ok((verified, Ghost(certificates)))
}

fn verify_definitions(
    input: &UnverifiedCompilerBytecodeGraph,
    limits: BytecodeGraphVerificationLimits,
    verified: &Vec<VerifiedFunctionMetadata>,
    usage: &mut BytecodeGraphUsage,
    Ghost(certificates): Ghost<Seq<CertificateModel>>,
) -> (certified: Result<(), BytecodeVerificationError>)
    requires
        input.metadata@.len() == input.graph.functions@.len(),
        input.metadata@.len() <= 0x1_0000_0000,
        verified@.len() == input.metadata@.len(),
        certificates.len() == input.metadata@.len(),
        forall|i: int|
            0 <= i < input.metadata@.len() ==> freezes(
                #[trigger] verified@[i],
                input.metadata@[i],
                certificates[i],
            ),
    ensures
        ({
            let expected = definitions_verdict_from(
                *input,
                limits,
                certificates,
                0,
                *old(usage),
            );
            match certified {
                Ok(_) => expected == Ok::<BytecodeGraphUsage, BytecodeVerificationError>(
                    *final(usage),
                ),
                Err(error) => expected == Err::<BytecodeGraphUsage, BytecodeVerificationError>(
                    error,
                ) || definitions_memory_failure_from(
                    *input,
                    limits,
                    certificates,
                    0,
                    *old(usage),
                    error,
                ),
            }
        }),
{
    let functions = input.graph.functions();
    let ghost first = *usage;
    let mut at: usize = 0;
    while at < verified.len()
        invariant
            at <= verified@.len(),
            functions@ == input.graph.functions@,
            input.metadata@.len() == input.graph.functions@.len(),
            input.metadata@.len() <= 0x1_0000_0000,
            verified@.len() == input.metadata@.len(),
            certificates.len() == input.metadata@.len(),
            forall|i: int|
                0 <= i < input.metadata@.len() ==> freezes(
                    #[trigger] verified@[i],
                    input.metadata@[i],
                    certificates[i],
                ),
            first == *old(usage),
            definitions_verdict_from(*input, limits, certificates, 0, first)
                == definitions_verdict_from(*input, limits, certificates, at as int, *usage),
            forall|error: BytecodeVerificationError| #[trigger]
                definitions_memory_failure_from(
                    *input,
                    limits,
                    certificates,
                    at as int,
                    *usage,
                    error,
                ) ==> definitions_memory_failure_from(
                    *input,
                    limits,
                    certificates,
                    0,
                    first,
                    error,
                ),
        decreases verified@.len() - at,
    {
        let ghost body = definition_body(
            *input,
            limits,
            certificates[at as int],
            at as int,
            *usage,
        );
        let ghost before = *usage;
        let record = &verified[at];
        proof {
            assert(freezes(
                verified@[at as int],
                input.metadata@[at as int],
                certificates[at as int],
            ));
            assert(record.record() == input.metadata@[at as int].record());
        }
        let certified = verify_object_definition_provenance(
            FunctionTemplateId(at as u32),
            &functions[at],
            record,
            &record.internal_stack,
            limits,
            usage,
            Ghost(body),
        );
        if let Err(error) = certified {
            assert(certification_memory_failure(body, before, error)
                ==> definitions_memory_failure_from(
                *input,
                limits,
                certificates,
                at as int,
                before,
                error,
            ));
            return Err(error);
        }
        proof {
            assert forall|error: BytecodeVerificationError| #[trigger]
                definitions_memory_failure_from(
                    *input,
                    limits,
                    certificates,
                    at + 1,
                    *usage,
                    error,
                ) implies definitions_memory_failure_from(
                *input,
                limits,
                certificates,
                0,
                first,
                error,
            ) by {
                assert(definitions_memory_failure_from(
                    *input,
                    limits,
                    certificates,
                    at as int,
                    before,
                    error,
                ));
            }
        }
        at = at + 1;
    }
    Ok(())
}

/// A graph whose functions were accepted has no more functions than identities.
proof fn lemma_accepted_functions_have_identities(
    input: UnverifiedCompilerBytecodeGraph,
    limits: BytecodeGraphVerificationLimits,
    findings: Seq<FunctionFindings>,
    at: int,
    verdict: GraphVerdict,
)
    requires
        0 <= at <= input.metadata@.len(),
        at <= 0x1_0000_0000,
        functions_verdict_from(input, limits, findings, at, verdict).is_ok(),
    ensures
        input.metadata@.len() <= 0x1_0000_0000,
    decreases input.metadata@.len() - at,
{
    if at < input.metadata@.len() {
        let id = spec_function_id(at)->Ok_0;
        let (certificate, usage) = function_verdict(
            FunctionPlace { id, root: input.graph.root_id, authority: authority_of_graph(input) },
            input.graph.functions@[at],
            input.metadata@[at],
            limits,
            findings[at],
            verdict.usage,
        )->Ok_0;
        lemma_accepted_functions_have_identities(
            input,
            limits,
            findings,
            at + 1,
            GraphVerdict { certificates: verdict.certificates.push(certificate), usage },
        );
    }
}

/// Verifies a whole compiler graph, given the texts that are counted, and
/// freezes its code and metadata.
pub fn verify_compiler_bytecode_graph_with_texts(
    input: UnverifiedCompilerBytecodeGraph,
    limits: BytecodeGraphVerificationLimits,
    findings: &GraphFindings,
    retained: &RetainedTexts,
) -> (outcome: Result<VerifiedBytecode, BytecodeVerificationError>)
    requires
        retained.texts@.len() == input.metadata@.len(),
        retained.names@.len() == input.metadata@.len(),
    ensures
        follows_verdict(outcome, input, limits, *findings, retained.counts()),
{
    let function_count: usize = input.graph.functions().len();
    if input.metadata.len() != function_count {
        return Err(metadata_count_mismatch(function_count, input.metadata.len()));
    }
    if findings.functions.len() != function_count {
        return Err(metadata_count_mismatch(function_count, findings.functions.len()));
    }
    let followed = count_followed_bindings(&findings.functions);
    let mut usage = preflight_usage_of_texts(
        &input.graph,
        &input.metadata,
        &followed,
        retained,
        limits,
    )?;
    let parents = verify_function_tree_ownership(&input.graph)?;
    let mut room: Vec<VerifiedFunctionMetadata> = Vec::new();
    if reserve_vec_exact(&mut room, function_count).is_err() {
        return Err(metadata_reservation_failure(function_count));
    }
    let mut requirements: Vec<ExecutionRequirement> = Vec::new();
    if reserve_vec_exact(&mut requirements, EXECUTION_REQUIREMENT_COUNT).is_err() {
        return Err(metadata_reservation_failure(EXECUTION_REQUIREMENT_COUNT));
    }
    let root_index: usize = input.graph.root_id().0 as usize;
    if root_index >= input.metadata.len() {
        return Err(metadata_count_mismatch(function_count, input.metadata.len()));
    }
    let authority = input.metadata[root_index].executable_kind;
    let ghost charged = usage;
    let (verified, certificates) = verify_functions(
        &input,
        authority,
        limits,
        &findings.functions,
        &mut usage,
        room,
    )?;
    proof {
        lemma_accepted_functions_have_identities(
            input,
            limits,
            findings.functions@,
            0,
            GraphVerdict { certificates: Seq::empty(), usage: charged },
        );
        assert forall|i: int| 0 <= i < verified@.len() implies (#[trigger] verified@[i]).record()
            == input.metadata@[i].record() by {
            assert(freezes(verified@[i], input.metadata@[i], certificates@[i]));
        }
        assert(records_of(verified@) =~= declared_records(input.metadata@));
    }
    verify_closure_metadata(&input.graph, &verified)?;
    let lexical_derived_this = verify_lexical_arrow_environments(
        &input.graph,
        &verified,
        &parents,
    )?;
    if let Err(error) = findings.class_field_keys {
        return Err(error);
    }
    if let Err(error) = findings.inferred_names {
        return Err(error);
    }
    verify_definitions(&input, limits, &verified, &mut usage, certificates)?;
    if let Err(error) = findings.method_templates {
        return Err(error);
    }
    let declared = match &input.module {
        Some(module) => Some(Arc::clone(module)),
        None => None,
    };
    let module = verify_module_declaration_record(
        &input.graph,
        &verified,
        authority,
        declared,
    )?;
    collect_requirements(&findings.functions, module.is_some(), &mut requirements);
    let module = match module {
        Some(module) => Some(Arc::new(module)),
        None => None,
    };
    Ok(
        VerifiedBytecode {
            graph: Arc::clone(&input.graph),
            metadata: Arc::new(verified),
            lexical_derived_this: Arc::new(lexical_derived_this),
            requirements: Arc::new(requirements),
            usage,
            module,
        },
    )
}

/// What a graph is refused for before the handles of its texts are compared: a
/// count of records or findings that does not match, or more evaluated closure
/// edges than transfers are allowed.
pub open spec fn refused_unread(
    input: UnverifiedCompilerBytecodeGraph,
    limits: BytecodeGraphVerificationLimits,
    findings: GraphFindings,
) -> Option<BytecodeVerificationError> {
    let functions = input.graph.functions@;
    if functions.len() != input.metadata@.len() {
        Some(record_count_error(input))
    } else if findings.functions@.len() != functions.len() {
        Some(finding_count_error(input, findings))
    } else {
        match charged(
            0,
            input.graph.closure_edge_evaluations,
            limits.max_policy_transfers,
            BytecodeGraphResource::PolicyTransfers,
        ) {
            Ok(_) => None,
            Err(kind) => Some(graph_error(kind)),
        }
    }
}

/// Verifies a whole compiler graph and freezes its code and metadata. Each
/// retained source text and display name is charged once, however many records
/// share it: the first handle of each allocation is counted, as the comparisons
/// of the handles come out.
pub fn verify_compiler_bytecode_graph(
    input: UnverifiedCompilerBytecodeGraph,
    limits: BytecodeGraphVerificationLimits,
    findings: &GraphFindings,
) -> (outcome: Result<VerifiedBytecode, BytecodeVerificationError>)
    ensures
        match refused_unread(input, limits, *findings) {
            Some(error) => outcome == Err::<VerifiedBytecode, BytecodeVerificationError>(error),
            None => outcome == Err::<VerifiedBytecode, BytecodeVerificationError>(
                texts_failure(input.metadata@.len()),
            ) || exists|counts: TextCounts|
                counts_each_allocation(counts, input.metadata@) && #[trigger] follows_verdict(
                    outcome,
                    input,
                    limits,
                    *findings,
                    counts,
                ),
        },
{
    let function_count: usize = input.graph.functions().len();
    if input.metadata.len() != function_count {
        return Err(metadata_count_mismatch(function_count, input.metadata.len()));
    }
    if findings.functions.len() != function_count {
        return Err(metadata_count_mismatch(function_count, findings.functions.len()));
    }
    let mut policy_transfers: u64 = 0;
    charge(
        &mut policy_transfers,
        input.graph.closure_edge_evaluations,
        limits.max_policy_transfers,
        BytecodeGraphResource::PolicyTransfers,
    )?;
    let retained = find_retained_texts(&input.metadata)?;
    let outcome = verify_compiler_bytecode_graph_with_texts(input, limits, findings, &retained);
    assert(follows_verdict(outcome, input, limits, *findings, retained.counts()));
    outcome
}

} // verus!
