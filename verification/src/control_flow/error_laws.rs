//! Where the errors of control-flow verification point.
use crate::checks::{first_failure, lemma_failure_is_of_a_check};
use crate::control_flow::error::VerificationError;
use crate::control_flow::header::header_validation;
use crate::control_flow::layouts::{
    binding_bounds_checks, distinct_slot_checks, mapped_argument_checks,
};
use crate::control_flow::limits::{VerificationLimits, limits_and_counts_checks};
use crate::control_flow::model::{
    CompilerCaptureLayout, CompilerConstantLayout, FunctionIndexDomains, FunctionPath,
    UnverifiedCompilerFunctionBody, UnverifiedFunctionBody,
};
use crate::control_flow::opcode_semantics::CapabilityProfile;
use crate::control_flow::pipeline::{
    FlowVerdict, StackVerificationMode, capture_check, compiler_memory_failure, compiler_verdict,
    flow_verdict, serialized_memory_failure, serialized_verdict, static_context,
};
use crate::control_flow::predecode::{predecode, predecode_from};
use crate::control_flow::stack::{
    DepthState, StackRules, analyzed_from, body_rules, evaluated, initial_state,
};
use crate::control_flow::static_control_flow::{
    StaticContext, admission_check, admission_checks, static_semantics, structural_checks,
    structural_instruction,
};
use crate::function::{UnverifiedFunctionHeader, VerifiedFunctionHeader};
use crate::instruction::{
    BytecodePc, DecodedInstruction, decode_at_spec, lemma_decoded_operands_match_format,
};
use vstd::prelude::*;

verus! {

/// An error names the root function; where it names an opcode it names the
/// offset too, and only a decoding error names an offset without an opcode.
pub open spec fn well_placed(error: VerificationError) -> bool {
    &&& error.function_path == (FunctionPath {  })
    &&& error.opcode.is_some() ==> error.pc.is_some()
    &&& error.pc.is_some() && error.opcode.is_none() ==> error.kind is Decode
}

/// Every failure among the checks is well placed.
spec fn all_well_placed(checks: Seq<Result<(), VerificationError>>) -> bool {
    forall|i: int|
        0 <= i < checks.len() ==> match #[trigger] checks[i] {
            Err(error) => well_placed(error),
            Ok(_) => true,
        }
}

proof fn lemma_first_failure_is_well_placed(checks: Seq<Result<(), VerificationError>>)
    requires
        all_well_placed(checks),
    ensures
        match first_failure(checks) {
            Err(error) => well_placed(error),
            Ok(_) => true,
        },
{
    lemma_failure_is_of_a_check(checks);
}

proof fn lemma_decoding_errors(
    bytes: Seq<u8>,
    pc: BytecodePc,
    done: Seq<DecodedInstruction>,
    max_instructions: u32,
)
    ensures
        match predecode_from(bytes, pc, done, max_instructions) {
            Err(error) => well_placed(error),
            Ok(_) => true,
        },
    decreases bytes.len() - pc.0,
{
    if pc.0 < bytes.len() {
        if let Ok(decoded) = decode_at_spec(bytes, pc) {
            lemma_decoded_operands_match_format(bytes, pc);
            if done.len() + 1 <= max_instructions {
                lemma_decoding_errors(bytes, decoded.next_pc, done.push(decoded), max_instructions);
            }
        }
    }
}

proof fn lemma_capture_errors(
    mode: StackVerificationMode,
    layout: Option<CompilerCaptureLayout>,
    domains: FunctionIndexDomains,
    header: VerifiedFunctionHeader,
)
    ensures
        match capture_check(mode, layout, domains, header) {
            Err(error) => well_placed(error),
            Ok(_) => true,
        },
{
    if let Some(layout) = layout {
        lemma_first_failure_is_well_placed(binding_bounds_checks(layout.bindings@, domains));
        lemma_first_failure_is_well_placed(distinct_slot_checks(layout.bindings@));
        if let Some(indices) = layout.mapped_arguments {
            lemma_first_failure_is_well_placed(mapped_argument_checks(indices@, domains));
        }
    }
}

proof fn lemma_instruction_errors(
    context: StaticContext,
    decoded: Seq<DecodedInstruction>,
    current: DecodedInstruction,
)
    ensures
        match structural_instruction(context, decoded, current) {
            Err(error) => well_placed(error),
            Ok(_) => true,
        },
        match admission_check(context, current) {
            Err(error) => well_placed(error),
            Ok(_) => true,
        },
{
}

proof fn lemma_static_errors(context: StaticContext, decoded: Seq<DecodedInstruction>)
    ensures
        match static_semantics(context, decoded) {
            Err(error) => well_placed(error),
            Ok(_) => true,
        },
{
    let structural = structural_checks(context, decoded);
    let admission = admission_checks(context, decoded);
    assert forall|i: int| 0 <= i < decoded.len() implies match #[trigger] structural[i] {
        Err(error) => well_placed(error),
        Ok(_) => true,
    } by {
        lemma_instruction_errors(context, decoded, decoded[i]);
    }
    assert forall|i: int| 0 <= i < decoded.len() implies match #[trigger] admission[i] {
        Err(error) => well_placed(error),
        Ok(_) => true,
    } by {
        lemma_instruction_errors(context, decoded, decoded[i]);
    }
    lemma_first_failure_is_well_placed(structural);
    lemma_first_failure_is_well_placed(admission);
}

proof fn lemma_stack_errors(rules: StackRules, state: DepthState)
    ensures
        match analyzed_from(rules, state) {
            Err(error) => well_placed(error),
            Ok(_) => true,
        },
    decreases state.instructions.len() - state.evaluations,
{
    if !(state.worklist.len() == 0 || state.evaluations >= state.instructions.len()) {
        match evaluated(rules, state) {
            Err(error) => {
                assert(well_placed(error));
            },
            Ok(next) => {
                lemma_stack_errors(rules, next);
            },
        }
    }
}

proof fn lemma_body_errors(
    profile: CapabilityProfile,
    bytecode: Seq<u8>,
    domains: FunctionIndexDomains,
    function_header: UnverifiedFunctionHeader,
    mode: StackVerificationMode,
    capture: Option<CompilerCaptureLayout>,
    constants: Option<CompilerConstantLayout>,
    limits: VerificationLimits,
)
    ensures
        match flow_verdict(
            profile,
            bytecode,
            domains,
            function_header,
            mode,
            capture,
            constants,
            limits,
        ) {
            Err(error) => well_placed(error),
            Ok(_) => true,
        },
{
    let expected_stack_size = mode.spec_expected_stack_size();
    lemma_first_failure_is_well_placed(
        limits_and_counts_checks(
            bytecode.len(),
            domains,
            function_header,
            expected_stack_size,
            limits,
        ),
    );
    lemma_decoding_errors(
        bytecode,
        BytecodePc(0),
        Seq::empty(),
        limits.max_instructions_per_function,
    );
    if let Ok(decoded) = predecode(bytecode, limits.max_instructions_per_function) {
        if let Ok(header) = header_validation(function_header, domains) {
            lemma_capture_errors(mode, capture, domains, header);
            let context = static_context(
                profile,
                bytecode.len(),
                domains,
                header,
                mode,
                capture,
                constants,
            );
            lemma_static_errors(context, decoded);
            if let Ok(instructions) = static_semantics(context, decoded) {
                lemma_stack_errors(
                    body_rules(
                        profile,
                        header.kind,
                        limits,
                        mode.spec_requires_empty_exits(),
                        instructions,
                    ),
                    initial_state(instructions),
                );
            }
        }
    }
}

/// Every error about serialized bytecode is well placed.
pub proof fn lemma_serialized_errors_are_well_placed(
    profile: CapabilityProfile,
    body: UnverifiedFunctionBody,
    limits: VerificationLimits,
    error: VerificationError,
)
    requires
        serialized_verdict(profile, body, limits) == Err::<
            FlowVerdict,
            VerificationError,
        >(error) || serialized_memory_failure(profile, body, limits, error),
    ensures
        well_placed(error),
{
    lemma_body_errors(
        profile,
        body.bytecode@,
        body.domains,
        body.function_header,
        StackVerificationMode::Serialized { expected_stack_size: body.expected_stack_size },
        None,
        None,
        limits,
    );
}

/// Every error about compiler output is well placed.
pub proof fn lemma_compiler_errors_are_well_placed(
    profile: CapabilityProfile,
    body: UnverifiedCompilerFunctionBody,
    limits: VerificationLimits,
    error: VerificationError,
)
    requires
        compiler_verdict(profile, body, limits) == Err::<
            FlowVerdict,
            VerificationError,
        >(error) || compiler_memory_failure(profile, body, limits, error),
    ensures
        well_placed(error),
{
    lemma_body_errors(
        profile,
        body.bytecode@,
        body.domains,
        body.function_header,
        StackVerificationMode::CompilerGenerated,
        body.capture_layout,
        body.constant_layout,
        limits,
    );
}

} // verus!
