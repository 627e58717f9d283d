//! In which order a body is judged, and what its terminals leave.
use crate::checks::first_failure;
use crate::control_flow::error::VerificationError;
use crate::control_flow::limits::{VerificationLimits, limits_and_counts_checks};
use crate::control_flow::model::{
    CompilerCaptureLayout, CompilerConstantLayout, FunctionIndexDomains, VerifiedInstruction,
    VerifiedSuccessorKind,
};
use crate::control_flow::opcode_semantics::CapabilityProfile;
use crate::control_flow::pipeline::{FlowVerdict, StackVerificationMode, flow_verdict};
use crate::control_flow::predecode::predecode;
use crate::control_flow::stack::{StackRules, depth_transfer, residue_allowed};
use crate::control_flow::stack_laws::{reachable, settled, sound_depths};
use crate::function::UnverifiedFunctionHeader;
use vstd::prelude::*;

verus! {

/// The whole instruction stream is decoded before anything is said about an
/// opcode: where it does not decode, that is the verdict, whatever the opcodes
/// before it.
pub proof fn lemma_decoding_comes_first(
    profile: CapabilityProfile,
    bytecode: Seq<u8>,
    domains: FunctionIndexDomains,
    function_header: UnverifiedFunctionHeader,
    mode: StackVerificationMode,
    capture: Option<CompilerCaptureLayout>,
    constants: Option<CompilerConstantLayout>,
    limits: VerificationLimits,
)
    requires
        first_failure(
            limits_and_counts_checks(
                bytecode.len(),
                domains,
                function_header,
                mode.spec_expected_stack_size(),
                limits,
            ),
        ).is_ok(),
        bytecode.len() > 0,
        predecode(bytecode, limits.max_instructions_per_function).is_err(),
    ensures
        flow_verdict(
            profile,
            bytecode,
            domains,
            function_header,
            mode,
            capture,
            constants,
            limits,
        ) == Err::<FlowVerdict, VerificationError>(
            predecode(bytecode, limits.max_instructions_per_function)->Err_0,
        ),
{
}

/// In a body whose exits must be empty every reachable terminal leaves the
/// stack empty, unless its opcode is one whose residue a handler, a finally
/// subroutine or a resumed generator takes care of.
pub proof fn lemma_terminals_leave_nothing(
    rules: StackRules,
    instructions: Seq<VerifiedInstruction>,
    computed_max: u32,
    at: int,
)
    requires
        rules.require_empty_exits,
        sound_depths(rules, instructions, computed_max),
        0 <= at < instructions.len(),
        reachable(instructions, at),
        instructions[at].spec_successors().spec_kind() == VerifiedSuccessorKind::Terminate,
        !residue_allowed(rules, instructions[at].spec_decoded().instruction.opcode),
    ensures
        instructions[at].spec_entry_stack_depth().is_some(),
        ({
            let depth = instructions[at].spec_entry_stack_depth().unwrap();
            let transfer = depth_transfer(rules, instructions[at].spec_decoded(), depth);
            transfer.is_ok() && transfer->Ok_0.output_depth == 0
        }),
{
    assert(settled(rules, instructions, computed_max, at));
}

} // verus!
