//! Control-flow verification under the baseline capability profile.
use crate::control_flow::error::{VerificationError, VerificationErrorKind};
use crate::control_flow::limits::VerificationLimits;
use crate::control_flow::model::{
    CompilerCaptureLayout, CompilerConstantLayout, UnverifiedCompilerFunctionBody,
    UnverifiedFunctionBody, VerifiedControlFlow,
};
use crate::control_flow::opcode_semantics::CapabilityProfile;
use crate::control_flow::pipeline::{
    FlowVerdict, StackVerificationMode, compiler_memory_failure, compiler_verdict,
    serialized_memory_failure, serialized_verdict, verify_control_flow_common,
};
use crate::control_flow::stack::body_rules;
use crate::control_flow::stack_laws::sound_depths;
use vstd::prelude::*;

verus! {

/// Completely predecodes and verifies serialized bytecode with
/// baseline capabilities.
///
/// Predecoding always consumes the complete instruction stream before opcode
/// capability errors are considered. The returned value is not executable
/// bytecode: whole-function metadata and pool validation remain mandatory.
pub fn verify_control_flow(body: UnverifiedFunctionBody, limits: VerificationLimits) -> (verified: Result<
    VerifiedControlFlow,
    VerificationError,
>)
    ensures
        match verified {
            Ok(flow) => {
                &&& serialized_verdict(CapabilityProfile::Baseline, body, limits) == Ok::<FlowVerdict, VerificationError>(flow.spec_verdict())
                &&& flow.spec_bytecode() == body.bytecode@
                &&& flow.spec_domains() == body.domains
                &&& flow.spec_compiler_capture_layout() == None::<CompilerCaptureLayout>
                &&& flow.spec_compiler_constant_layout() == None::<CompilerConstantLayout>
                &&& flow.well_formed()
                &&& flow.spec_computed_stack_size() == body.expected_stack_size
                &&& sound_depths(
                    body_rules(
                        CapabilityProfile::Baseline,
                        flow.spec_function_header().kind,
                        limits,
                        false,
                        flow.spec_instructions(),
                    ),
                    flow.spec_instructions(),
                    flow.spec_computed_stack_size(),
                )
            },
            Err(error) => serialized_verdict(CapabilityProfile::Baseline, body, limits) == Err::<FlowVerdict, VerificationError>(error)
                || serialized_memory_failure(
                    CapabilityProfile::Baseline,
                    body,
                    limits,
                    error,
                ),
        },
{
    let expected_stack_size: u32 = body.expected_stack_size;
    let verified = verify_control_flow_common(
        CapabilityProfile::Baseline,
        body.bytecode,
        body.domains,
        body.function_header,
        StackVerificationMode::Serialized { expected_stack_size },
        None,
        None,
        limits,
    )?;
    if verified.computed_stack_size != expected_stack_size {
        return Err(
            VerificationError::root(
                VerificationErrorKind::SerializedStackSizeMismatch {
                    serialized: expected_stack_size,
                    computed: verified.computed_stack_size,
                },
            ),
        );
    }
    Ok(verified)
}

/// Completely predecodes compiler-generated bytecode and derives its exact
/// reachable maximum stack size.
///
/// There is no stored stack size to compare, and every reachable terminal must
/// leave the ordinary value stack empty. Excepted are a throw in a body with
/// catch markers, the return of a finally subroutine, and a return or throw in a
/// body that calls such subroutines. The returned value remains
/// non-executable staged evidence.
pub fn verify_compiler_control_flow(body: UnverifiedCompilerFunctionBody, limits: VerificationLimits) -> (verified: Result<
    VerifiedControlFlow,
    VerificationError,
>)
    ensures
        match verified {
            Ok(flow) => {
                &&& compiler_verdict(CapabilityProfile::Baseline, body, limits) == Ok::<FlowVerdict, VerificationError>(flow.spec_verdict())
                &&& flow.spec_bytecode() == body.bytecode@
                &&& flow.spec_domains() == body.domains
                &&& flow.spec_compiler_capture_layout() == body.capture_layout
                &&& flow.spec_compiler_constant_layout() == body.constant_layout
                &&& flow.well_formed()
                &&& sound_depths(
                    body_rules(
                        CapabilityProfile::Baseline,
                        flow.spec_function_header().kind,
                        limits,
                        true,
                        flow.spec_instructions(),
                    ),
                    flow.spec_instructions(),
                    flow.spec_computed_stack_size(),
                )
            },
            Err(error) => compiler_verdict(CapabilityProfile::Baseline, body, limits) == Err::<FlowVerdict, VerificationError>(error)
                || compiler_memory_failure(
                    CapabilityProfile::Baseline,
                    body,
                    limits,
                    error,
                ),
        },
{
    verify_control_flow_common(
        CapabilityProfile::Baseline,
        body.bytecode,
        body.domains,
        body.function_header,
        StackVerificationMode::CompilerGenerated,
        body.capture_layout,
        body.constant_layout,
        limits,
    )
}

} // verus!
