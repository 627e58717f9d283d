//! Accepted bodies stay within their limits.
use crate::checks::lemma_success_means_all;
use crate::control_flow::header::header_validation;
use crate::control_flow::limits::{
    MAX_FUNCTION_INDEX_ENTRIES, VerificationLimits, limits_and_counts_checks,
};
use crate::control_flow::model::{
    CompilerCaptureLayout, CompilerConstantLayout, FunctionIndexDomains,
};
use crate::control_flow::opcode_semantics::CapabilityProfile;
use crate::control_flow::pipeline::{
    StackVerificationMode, flow_verdict, static_context,
};
use crate::control_flow::predecode::{lemma_predecode_covers_body, predecode};
use crate::control_flow::stack::{
    DepthState, StackRules, analyzed_from, body_rules, evaluated, initial_state, stack_analysis,
};
use crate::control_flow::static_control_flow::static_semantics;
use crate::function::UnverifiedFunctionHeader;
use vstd::prelude::*;

verus! {

/// Whether evaluations and depths so far are within their limits.
spec fn so_far_within(rules: StackRules, state: DepthState) -> bool {
    &&& state.evaluations <= rules.limits.max_transfer_evaluations
    &&& state.computed_max <= rules.limits.max_stack_depth
}

proof fn lemma_evaluation_within(rules: StackRules, state: DepthState)
    requires
        so_far_within(rules, state),
        evaluated(rules, state).is_ok(),
    ensures
        ({
            let next = evaluated(rules, state)->Ok_0;
            &&& so_far_within(rules, next)
            &&& next.instructions.len() == state.instructions.len()
            &&& next.evaluations == state.evaluations + 1
        }),
{
}

proof fn lemma_analysis_within(rules: StackRules, state: DepthState)
    requires
        so_far_within(rules, state),
        analyzed_from(rules, state).is_ok(),
    ensures
        so_far_within(rules, analyzed_from(rules, state)->Ok_0),
        analyzed_from(rules, state)->Ok_0.instructions.len() == state.instructions.len(),
    decreases state.instructions.len() - state.evaluations,
{
    if !(state.worklist.len() == 0 || state.evaluations >= state.instructions.len()) {
        lemma_evaluation_within(rules, state);
        lemma_analysis_within(rules, evaluated(rules, state)->Ok_0);
    }
}

/// An accepted body has no more bytes, instructions, constants, atoms and
/// evaluations than its limits allow, no deeper stack, and no more arguments,
/// locals, cells and closure variables than the structural maximum.
pub proof fn lemma_accepted_bodies_stay_within_limits(
    profile: CapabilityProfile,
    bytecode: Seq<u8>,
    domains: FunctionIndexDomains,
    function_header: UnverifiedFunctionHeader,
    mode: StackVerificationMode,
    capture: Option<CompilerCaptureLayout>,
    constants: Option<CompilerConstantLayout>,
    limits: VerificationLimits,
)
    requires
        bytecode.len() <= u64::MAX,
        flow_verdict(
            profile,
            bytecode,
            domains,
            function_header,
            mode,
            capture,
            constants,
            limits,
        ).is_ok(),
    ensures
        ({
            let verdict = flow_verdict(
                profile,
                bytecode,
                domains,
                function_header,
                mode,
                capture,
                constants,
                limits,
            )->Ok_0;
            &&& 0 < bytecode.len() <= limits.max_bytecode_bytes_per_function
            &&& verdict.instructions.len() <= limits.max_instructions_per_function
            &&& domains.constant_pool_len <= limits.max_constants_per_function
            &&& domains.atom_pool_len <= limits.max_atom_pool_entries
            &&& verdict.transfer_evaluations <= limits.max_transfer_evaluations
            &&& verdict.computed_stack_size <= limits.max_stack_depth
            &&& domains.argument_count <= MAX_FUNCTION_INDEX_ENTRIES
            &&& domains.local_count <= MAX_FUNCTION_INDEX_ENTRIES
            &&& domains.closure_var_count <= MAX_FUNCTION_INDEX_ENTRIES
        }),
{
    let checks = limits_and_counts_checks(
        bytecode.len(),
        domains,
        function_header,
        mode.spec_expected_stack_size(),
        limits,
    );
    lemma_success_means_all(checks);
    assert(checks[1].is_ok());
    assert(checks[2].is_ok());
    assert(checks[3].is_ok());
    assert(checks[4].is_ok());
    assert(checks[5].is_ok());
    assert(checks[7].is_ok());
    lemma_predecode_covers_body(bytecode, limits.max_instructions_per_function);
    let decoded = predecode(bytecode, limits.max_instructions_per_function)->Ok_0;
    let header = header_validation(function_header, domains)->Ok_0;
    let instructions = static_semantics(
        static_context(profile, bytecode.len(), domains, header, mode, capture, constants),
        decoded,
    )->Ok_0;
    let rules = body_rules(
        profile,
        header.kind,
        limits,
        mode.spec_requires_empty_exits(),
        instructions,
    );
    lemma_analysis_within(rules, initial_state(instructions));
    assert(stack_analysis(rules, instructions).is_ok());
}

} // verus!
