//! The ordered checks of one function and its metadata.
use crate::bytecode::atoms::{optional_atom_check, verify_optional_atom};
use crate::bytecode::closures::{closure_checks, closure_context, verify_closures};
use crate::bytecode::error::{
    BytecodeVerificationError, BytecodeVerificationErrorKind, MetadataAtomField, function_error,
    graph_error,
};
use crate::bytecode::executable::{
    executable_header_check, executable_kind_check, verify_executable_kind, verify_header,
};
use crate::bytecode::function_initializers::{
    entry_prefix_verdict, initializer_body, verify_function_initializers,
};
use crate::bytecode::global_initializers::{
    global_body, global_prefix_verdict, initializes_global,
    verify_realm_global_function_initializers,
};
use crate::bytecode::internal_verifier::{
    CertificateModel, stack_certificate, stack_memory_failure, verify_internal_operand_stack,
};
use crate::bytecode::iteration_puts::{
    classify_iteration_declarative_local_puts, declaring_certificate, puts_memory_failure,
};
use crate::bytecode::model::{
    BytecodeGraphResource, BytecodeGraphUsage, BytecodeGraphVerificationLimits,
    CompilerExecutableKind, ExecutionRequirement, UnverifiedFunctionMetadata,
    VerifiedCompilerSource, VerifiedFunctionMetadata, span_of_text, strictly_increasing,
};
use crate::bytecode::opcode_profile::{
    authority_of, supported_opcodes_check, verify_supported_opcodes,
};
use crate::bytecode::source::{source_check, strict_pcs, verify_source};
use crate::bytecode::stack_error::{
    charge, charged, global_initializer_failure, initializer_failure,
};
use crate::bytecode::variables::{
    eval_scope_checks, variable_context, variables_check, variables_memory_failure,
    verify_eval_scope_operands, verify_variables,
};
use crate::checks::{first_failure, lemma_first_failure_at, lemma_no_failure};
use crate::function_graph::{FunctionTemplateId, VerifiedCompilerFunction};
use std::sync::Arc;
use vstd::prelude::*;
use vstd::string::StringSliceAdditionalSpecFns;

verus! {

/// What the analyses that follow bindings through a body found of one function.
#[derive(Debug)]
pub struct FunctionFindings {
    /// Number of variables whose state is followed.
    pub followed_bindings: usize,
    /// Marks the instructions at which a contextual instance-initializer
    /// sequence starts.
    pub instance_initializer_sequences: Vec<bool>,
    /// Whether opcodes and the bindings that they use fit.
    pub binding_opcodes: Result<(), BytecodeVerificationError>,
    /// Transfers that following the bindings took.
    pub binding_transfers: Result<u64, BytecodeVerificationError>,
    /// What an engine must implement to run the function.
    pub requirements: Vec<ExecutionRequirement>,
}

/// Where a function stands in the graph that it is checked with.
#[derive(Clone, Copy, Debug)]
pub struct FunctionPlace {
    /// The function.
    pub id: FunctionTemplateId,
    /// Root of the graph.
    pub root: FunctionTemplateId,
    /// Executable kind of the root.
    pub authority: CompilerExecutableKind,
}

/// The check that the variable definitions cover arguments and locals.
pub open(crate) spec fn variable_count_check(
    id: FunctionTemplateId,
    function: VerifiedCompilerFunction,
    entries: int,
) -> Result<(), BytecodeVerificationError> {
    let domains = function.control_flow.domains;
    let declared = domains.argument_count + domains.local_count;
    if entries == declared {
        Ok(())
    } else {
        Err(
            function_error(
                id,
                BytecodeVerificationErrorKind::VariableDefinitionCountMismatch {
                    declared: declared as u64,
                    entries: entries as u64,
                },
            ),
        )
    }
}

/// The check that the closure definitions cover the closure variables.
pub open(crate) spec fn closure_count_check(
    id: FunctionTemplateId,
    function: VerifiedCompilerFunction,
    entries: int,
) -> Result<(), BytecodeVerificationError> {
    let declared = function.control_flow.domains.closure_var_count;
    if entries == declared {
        Ok(())
    } else {
        Err(
            function_error(
                id,
                BytecodeVerificationErrorKind::ClosureDefinitionCountMismatch {
                    declared,
                    entries: entries as u64,
                },
            ),
        )
    }
}

/// The check that every instruction has a source mapping.
pub open(crate) spec fn mapping_count_check(
    id: FunctionTemplateId,
    function: VerifiedCompilerFunction,
    mappings: int,
) -> Result<(), BytecodeVerificationError> {
    let instructions = function.control_flow.instructions@.len();
    if mappings == instructions {
        Ok(())
    } else {
        Err(
            function_error(
                id,
                BytecodeVerificationErrorKind::SourceMappingCountMismatch {
                    instructions: instructions as u64,
                    mappings: mappings as u64,
                },
            ),
        )
    }
}

/// The checks that need no dataflow, in order.
pub open(crate) spec fn admission_checks(
    place: FunctionPlace,
    function: VerifiedCompilerFunction,
    metadata: UnverifiedFunctionMetadata,
    sequences: Seq<bool>,
) -> Seq<Result<(), BytecodeVerificationError>> {
    let id = place.id;
    let flow = function.control_flow;
    seq![
        executable_kind_check(id, place.root, metadata),
        executable_header_check(
            id,
            metadata.executable_kind,
            flow.function_header,
            flow.domains.argument_count,
        ),
        variable_count_check(id, function, metadata.variables@.len() as int),
        closure_count_check(id, function, metadata.closures@.len() as int),
        mapping_count_check(id, function, metadata.source.mappings@.len() as int),
        optional_atom_check(
            id,
            metadata.function_name,
            MetadataAtomField::FunctionName,
            function.atoms@,
        ),
        variables_check(
            variable_context(id, function),
            metadata.variables@,
            flow.compiler_capture_layout,
        ),
        first_failure(eval_scope_checks(id, flow, metadata.variables@)),
        first_failure(
            closure_checks(
                closure_context(id, place.root, place.authority, function),
                metadata.closures@,
            ),
        ),
        source_check(id, flow.instructions@, metadata),
        supported_opcodes_check(
            id,
            authority_of(flow, metadata),
            flow.instructions@,
            metadata.variables@,
            sequences,
        ),
    ]
}

/// Whether kind, header, counts and name are in order, after which memory is
/// needed.
#[verifier::opaque]
pub open(crate) spec fn counts_in_order(
    place: FunctionPlace,
    function: VerifiedCompilerFunction,
    metadata: UnverifiedFunctionMetadata,
    sequences: Seq<bool>,
) -> bool {
    forall|i: int|
        0 <= i < 6 ==> (#[trigger] admission_checks(place, function, metadata, sequences)[i]).is_ok()
}

/// Instructions at the entry of a function that may precede its initializers.
pub open(crate) spec fn entry_prefix_start(
    function: VerifiedCompilerFunction,
    realm_globals: int,
) -> int {
    if realm_globals < function.function_initializer_prefix_start {
        function.function_initializer_prefix_start as int
    } else {
        realm_globals
    }
}

/// The checks that rest on the typed-stack certificate, and the certificate of
/// the puts that declare their local.
pub open(crate) spec fn certified_checks(
    place: FunctionPlace,
    function: VerifiedCompilerFunction,
    metadata: UnverifiedFunctionMetadata,
    limits: BytecodeGraphVerificationLimits,
    certificate: CertificateModel,
    usage: BytecodeGraphUsage,
) -> Result<(CertificateModel, BytecodeGraphUsage), BytecodeVerificationError> {
    let flow = function.control_flow;
    match global_prefix_verdict(
        global_body(place.id, function, certificate),
        place.root,
        metadata.closures@,
    ) {
        Err(error) => Err(error),
        Ok(realm_globals) => match entry_prefix_verdict(
            initializer_body(place.id, function, metadata.variables@, certificate),
            entry_prefix_start(function, realm_globals),
        ) {
            Err(error) => Err(error),
            Ok(_) => declaring_certificate(
                place.id,
                flow.instructions@,
                metadata.variables@.skip(flow.domains.argument_count as int),
                certificate,
                limits,
                usage,
            ),
        },
    }
}

/// Usage after the bindings of a function were followed.
pub open spec fn after_bindings(
    findings: FunctionFindings,
    limits: BytecodeGraphVerificationLimits,
    usage: BytecodeGraphUsage,
) -> Result<BytecodeGraphUsage, BytecodeVerificationError> {
    match (findings.binding_opcodes, findings.binding_transfers) {
        (Err(error), _) => Err(error),
        (Ok(_), Err(error)) => Err(error),
        (Ok(_), Ok(transfers)) => match charged(
            usage.policy_transfers,
            transfers,
            limits.max_policy_transfers,
            BytecodeGraphResource::PolicyTransfers,
        ) {
            Ok(policy_transfers) => Ok(BytecodeGraphUsage { policy_transfers, ..usage }),
            Err(kind) => Err(graph_error(kind)),
        },
    }
}

/// The typed-stack certificate of an accepted function and what it was charged.
#[verifier::opaque]
pub open(crate) spec fn function_verdict(
    place: FunctionPlace,
    function: VerifiedCompilerFunction,
    metadata: UnverifiedFunctionMetadata,
    limits: BytecodeGraphVerificationLimits,
    findings: FunctionFindings,
    usage: BytecodeGraphUsage,
) -> Result<(CertificateModel, BytecodeGraphUsage), BytecodeVerificationError> {
    let admission = first_failure(
        admission_checks(
            place,
            function,
            metadata,
            findings.instance_initializer_sequences@,
        ),
    );
    let flow = function.control_flow;
    match (admission, stack_certificate(place.id, flow.instructions@, limits, usage)) {
        (Err(error), _) => Err(error),
        (Ok(_), Err(error)) => Err(error),
        (Ok(_), Ok((certificate, stacked))) => match certified_checks(
            place,
            function,
            metadata,
            limits,
            certificate,
            stacked,
        ) {
            Err(error) => Err(error),
            Ok((declaring, classified)) => match after_bindings(findings, limits, classified) {
                Err(error) => Err(error),
                Ok(end) => Ok((declaring, end)),
            },
        },
    }
}

/// Whether `error` reports that a check which rests on the typed-stack
/// certificate could not reserve memory.
pub open(crate) spec fn certified_memory_failure(
    place: FunctionPlace,
    function: VerifiedCompilerFunction,
    metadata: UnverifiedFunctionMetadata,
    limits: BytecodeGraphVerificationLimits,
    certificate: CertificateModel,
    usage: BytecodeGraphUsage,
    error: BytecodeVerificationError,
) -> bool {
    let flow = function.control_flow;
    let instructions = flow.instructions@.len();
    ||| {
        &&& place.id == place.root
        &&& exists|c: int|
            0 <= c < metadata.closures@.len() && initializes_global(#[trigger] metadata.closures@[c])
        &&& global_initializer_failure(place.id, metadata.closures@.len(), instructions, error)
    }
    ||| match global_prefix_verdict(
        global_body(place.id, function, certificate),
        place.root,
        metadata.closures@,
    ) {
        Err(_) => false,
        Ok(realm_globals) => {
            ||| initializer_failure(place.id, metadata.variables@.len(), instructions, error)
            ||| entry_prefix_verdict(
                initializer_body(place.id, function, metadata.variables@, certificate),
                entry_prefix_start(function, realm_globals),
            ).is_ok() && puts_memory_failure(
                place.id,
                (metadata.variables@.len() - flow.domains.argument_count) as nat,
                certificate,
                limits,
                usage,
                error,
            )
        },
    }
}

/// Whether `error` reports that the checks of a function could not reserve
/// memory: those of its definitions, once its counts are in order, the typed
/// operand-stack analysis, once all of it is admitted, and the checks that rest
/// on that analysis.
#[verifier::opaque]
pub open(crate) spec fn function_memory_failure(
    place: FunctionPlace,
    function: VerifiedCompilerFunction,
    metadata: UnverifiedFunctionMetadata,
    limits: BytecodeGraphVerificationLimits,
    findings: FunctionFindings,
    usage: BytecodeGraphUsage,
    error: BytecodeVerificationError,
) -> bool {
    let sequences = findings.instance_initializer_sequences@;
    let instructions = function.control_flow.instructions@;
    ||| counts_in_order(place, function, metadata, sequences) && variables_memory_failure(
        variable_context(place.id, function),
        metadata.variables@,
        error,
    )
    ||| first_failure(admission_checks(place, function, metadata, sequences)).is_ok() && {
        ||| stack_memory_failure(place.id, instructions, limits, usage, error)
        ||| match stack_certificate(place.id, instructions, limits, usage) {
            Err(_) => false,
            Ok((certificate, stacked)) => certified_memory_failure(
                place,
                function,
                metadata,
                limits,
                certificate,
                stacked,
                error,
            ),
        }
    }
}

/// Whether a verified record holds an unverified one and its certificate.
pub open(crate) spec fn freezes(
    record: VerifiedFunctionMetadata,
    metadata: UnverifiedFunctionMetadata,
    certificate: CertificateModel,
) -> bool {
    &&& record.record() == metadata.record()
    &&& record.source.display_name@ == metadata.source.display_name@
    &&& record.source.text@ == metadata.source.text@
    &&& record.source.function_span == metadata.source.function_span
    &&& record.source.name_span == metadata.source.name_span
    &&& record.source.mappings@ == metadata.source.mappings@
    &&& record.source.spec_strict_mode_pcs() == strict_pcs(metadata)
    &&& record.internal_stack.model() == certificate
}

fn verify_admission(
    place: FunctionPlace,
    function: &VerifiedCompilerFunction,
    metadata: &UnverifiedFunctionMetadata,
    sequences: &[bool],
) -> (checked: Result<(), BytecodeVerificationError>)
    ensures
        ({
            let checks = admission_checks(place, *function, *metadata, sequences@);
            match checked {
                Ok(_) => first_failure(checks).is_ok() && counts_in_order(
                    place,
                    *function,
                    *metadata,
                    sequences@,
                ) && metadata.variables@.len()
                    == function.control_flow.domains.argument_count
                    + function.control_flow.domains.local_count
                    && span_of_text(
                    metadata.source.text.spec_bytes(),
                    metadata.source.function_span,
                ) && strictly_increasing(
                    strict_pcs(*metadata),
                ),
                Err(error) => first_failure(checks) == Err::<(), BytecodeVerificationError>(error)
                    || (variables_memory_failure(
                    variable_context(place.id, *function),
                    metadata.variables@,
                    error,
                ) && counts_in_order(place, *function, *metadata, sequences@)),
            }
        }),
{
    let id = place.id;
    let flow = function.control_flow();
    let domains = flow.domains();
    let ghost checks = admission_checks(place, *function, *metadata, sequences@);
    proof {
        reveal(counts_in_order);
        if checks[0].is_err() {
            lemma_first_failure_at(checks, 0);
        } else if checks[1].is_err() {
            lemma_first_failure_at(checks, 1);
        } else if checks[2].is_err() {
            lemma_first_failure_at(checks, 2);
        } else if checks[3].is_err() {
            lemma_first_failure_at(checks, 3);
        } else if checks[4].is_err() {
            lemma_first_failure_at(checks, 4);
        } else if checks[5].is_err() {
            lemma_first_failure_at(checks, 5);
        } else if checks[6].is_err() {
            lemma_first_failure_at(checks, 6);
        } else if checks[7].is_err() {
            lemma_first_failure_at(checks, 7);
        } else if checks[8].is_err() {
            lemma_first_failure_at(checks, 8);
        } else if checks[9].is_err() {
            lemma_first_failure_at(checks, 9);
        } else if checks[10].is_err() {
            lemma_first_failure_at(checks, 10);
        } else {
            lemma_no_failure(checks);
        }
    }
    verify_executable_kind(id, place.root, metadata)?;
    verify_header(id, metadata.executable_kind, flow)?;
    let declared: u64 = domains.argument_count as u64 + domains.local_count as u64;
    if metadata.variables.len() as u64 != declared {
        return Err(
            BytecodeVerificationError::function(
                id,
                BytecodeVerificationErrorKind::VariableDefinitionCountMismatch {
                    declared,
                    entries: metadata.variables.len() as u64,
                },
            ),
        );
    }
    if metadata.closures.len() as u64 != domains.closure_var_count as u64 {
        return Err(
            BytecodeVerificationError::function(
                id,
                BytecodeVerificationErrorKind::ClosureDefinitionCountMismatch {
                    declared: domains.closure_var_count,
                    entries: metadata.closures.len() as u64,
                },
            ),
        );
    }
    if metadata.source.mappings.len() != flow.instructions().len() {
        return Err(
            BytecodeVerificationError::function(
                id,
                BytecodeVerificationErrorKind::SourceMappingCountMismatch {
                    instructions: flow.instructions().len() as u64,
                    mappings: metadata.source.mappings.len() as u64,
                },
            ),
        );
    }
    verify_optional_atom(
        id,
        metadata.function_name,
        MetadataAtomField::FunctionName,
        function.atoms(),
    )?;
    verify_variables(id, function, &metadata.variables)?;
    verify_eval_scope_operands(id, flow, &metadata.variables)?;
    verify_closures(id, place.root, place.authority, function, &metadata.closures)?;
    verify_source(id, flow, metadata)?;
    verify_supported_opcodes(id, flow, metadata, sequences)
}

/// Checks one function and its metadata, and freezes the metadata with the
/// certificate of the function's typed operand stack.
pub fn verify_function_metadata(
    place: FunctionPlace,
    function: &VerifiedCompilerFunction,
    metadata: &UnverifiedFunctionMetadata,
    findings: &FunctionFindings,
    limits: BytecodeGraphVerificationLimits,
    usage: &mut BytecodeGraphUsage,
) -> (record: Result<VerifiedFunctionMetadata, BytecodeVerificationError>)
    ensures
        ({
            let expected = function_verdict(
                place,
                *function,
                *metadata,
                limits,
                *findings,
                *old(usage),
            );
            match record {
                Ok(record) => expected.is_ok() && freezes(
                    record,
                    *metadata,
                    expected->Ok_0.0,
                ) && *final(usage) == expected->Ok_0.1,
                Err(error) => expected == Err::<
                    (CertificateModel, BytecodeGraphUsage),
                    BytecodeVerificationError,
                >(error) || function_memory_failure(
                    place,
                    *function,
                    *metadata,
                    limits,
                    *findings,
                    *old(usage),
                    error,
                ),
            }
        }),
{
    let id = place.id;
    let flow = function.control_flow();
    proof {
        reveal(function_verdict);
        reveal(function_memory_failure);
    }
    verify_admission(place, function, metadata, &findings.instance_initializer_sequences)?;
    let mut internal_stack = verify_internal_operand_stack(id, flow, limits, usage)?;
    let realm_globals: usize = verify_realm_global_function_initializers(
        id,
        place.root,
        function,
        &metadata.closures,
        &internal_stack,
    )?;
    let start: usize = function.function_initializer_prefix_start() as usize;
    let prefix: usize = if realm_globals < start {
        start
    } else {
        realm_globals
    };
    verify_function_initializers(id, function, &metadata.variables, prefix, &internal_stack)?;
    classify_iteration_declarative_local_puts(
        id,
        flow,
        &metadata.variables,
        &mut internal_stack,
        limits,
        usage,
    )?;
    if let Err(error) = findings.binding_opcodes {
        return Err(error);
    }
    let binding_transfers: u64 = match findings.binding_transfers {
        Ok(transfers) => transfers,
        Err(error) => {
            return Err(error);
        },
    };
    charge(
        &mut usage.policy_transfers,
        binding_transfers,
        limits.max_policy_transfers,
        BytecodeGraphResource::PolicyTransfers,
    )?;
    let strict_mode_pcs = match &metadata.source.strict_mode_pcs {
        Some(pcs) => Some(Arc::clone(pcs)),
        None => None,
    };
    Ok(
        VerifiedFunctionMetadata {
            executable_kind: metadata.executable_kind,
            function_name: metadata.function_name,
            variables: Arc::clone(&metadata.variables),
            closures: Arc::clone(&metadata.closures),
            source: VerifiedCompilerSource {
                display_name: Arc::clone(&metadata.source.display_name),
                text: Arc::clone(&metadata.source.text),
                function_span: metadata.source.function_span,
                name_span: metadata.source.name_span,
                mappings: Arc::clone(&metadata.source.mappings),
                strict_mode_pcs,
            },
            internal_stack,
        },
    )
}

} // verus!
