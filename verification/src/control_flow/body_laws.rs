//! What the instructions of an accepted body look like.
use crate::checks::lemma_success_means_all;
use crate::control_flow::error::VerificationError;
use crate::control_flow::header::header_validation;
use crate::control_flow::limits::VerificationLimits;
use crate::control_flow::model::{
    CompilerCaptureLayout, CompilerConstantLayout, FunctionIndexDomains, VerifiedInstruction,
};
use crate::control_flow::opcode_semantics::CapabilityProfile;
use crate::control_flow::pipeline::{StackVerificationMode, flow_verdict, static_context};
use crate::control_flow::predecode::{
    contiguous, increasing_pcs, lemma_predecode_covers_body, predecode,
};
use crate::control_flow::stack::{
    DepthState, StackRules, analyzed_from, body_rules, depth_transfer, evaluated, initial_state,
    larger, lemma_initial_queue, lemma_propagated_keeps_queue, propagated, queue_invariant,
    stack_analysis, unvisited,
};
use crate::control_flow::stack_laws::{leads_to, lemma_analysis_is_sound};
use crate::control_flow::static_control_flow::{
    StaticContext, static_semantics, structural_checks, structural_instruction,
};
use crate::control_flow::targets::{index_at, lemma_index_at_is_unique};
use crate::function::UnverifiedFunctionHeader;
use crate::instruction::{BytecodePc, DecodeError, DecodedInstruction, decode_at_spec};
use vstd::prelude::*;

verus! {

/// The instructions cover the bytecode without gap or overlap: there is at
/// least one, the first starts at byte zero, each ends where the next starts,
/// the last ends with the bytecode, and each is what its own bytes decode to.
pub open spec fn covers_body(bytecode: Seq<u8>, instructions: Seq<VerifiedInstruction>) -> bool {
    &&& instructions.len() > 0
    &&& instructions[0].spec_decoded().pc.0 == 0
    &&& instructions.last().spec_decoded().next_pc.0 == bytecode.len()
    &&& forall|i: int, j: int|
        0 <= i < instructions.len() && j == i + 1 && j < instructions.len() ==> (
        #[trigger] instructions[i]).spec_decoded().next_pc == (
        #[trigger] instructions[j]).spec_decoded().pc
    &&& forall|i: int|
        0 <= i < instructions.len() ==> decode_at_spec(
            bytecode,
            (#[trigger] instructions[i]).spec_decoded().pc,
        ) == Ok::<DecodedInstruction, DecodeError>(instructions[i].spec_decoded())
}

/// Control stays inside the body: it passes only to instructions of the body,
/// and an instruction falls through only to the one behind it.
pub open spec fn stays_inside(instructions: Seq<VerifiedInstruction>) -> bool {
    forall|i: int|
        0 <= i < instructions.len() ==> #[trigger] leads_inside(instructions, i)
}

/// Control stays inside the body behind instruction `at`.
pub open spec fn leads_inside(instructions: Seq<VerifiedInstruction>, at: int) -> bool {
    &&& forall|next: int|
        #[trigger] leads_to(instructions[at].spec_successors(), next) ==> 0 <= next
            < instructions.len()
    &&& match instructions[at].spec_successors().spec_fallthrough() {
        Some(next) => next.spec_get() == at + 1,
        None => true,
    }
}

/// Number of instructions that record an entry depth.
pub open spec fn recorded_depths(instructions: Seq<VerifiedInstruction>) -> nat {
    instructions.filter(
        |verified: VerifiedInstruction| verified.spec_entry_stack_depth().is_some(),
    ).len()
}

proof fn lemma_recorded_or_unvisited(instructions: Seq<VerifiedInstruction>)
    ensures
        recorded_depths(instructions) + unvisited(instructions) == instructions.len(),
    decreases instructions.len(),
{
    reveal(Seq::filter);
    if instructions.len() > 0 {
        lemma_recorded_or_unvisited(instructions.drop_last());
    }
}

proof fn lemma_evaluated_keeps_queue(rules: StackRules, state: DepthState)
    requires
        queue_invariant(state),
        state.worklist.len() > 0,
        evaluated(rules, state).is_ok(),
    ensures
        queue_invariant(evaluated(rules, state)->Ok_0),
        evaluated(rules, state)->Ok_0.instructions.len() == state.instructions.len(),
        evaluated(rules, state)->Ok_0.evaluations == state.evaluations + 1,
{
    let current = state.instructions[state.worklist[0].0 as int];
    let transfer = depth_transfer(
        rules,
        current.decoded,
        current.entry_stack_depth.unwrap(),
    )->Ok_0;
    let popped = DepthState {
        instructions: state.instructions,
        worklist: state.worklist.skip(1),
        computed_max: larger(
            state.computed_max,
            larger(transfer.output_depth, transfer.taken_depth),
        ),
        evaluations: state.evaluations + 1,
    };
    assert(queue_invariant(popped));
    if let Some(next) = current.successors.spec_jump_target() {
        lemma_propagated_keeps_queue(popped, next, transfer.output_depth, current.decoded);
    }
    if let Some(next) = current.successors.spec_fallthrough() {
        if let Some(taken) = current.successors.spec_branch_target() {
            lemma_propagated_keeps_queue(popped, taken, transfer.taken_depth, current.decoded);
            let middle = propagated(popped, taken, transfer.taken_depth, current.decoded)->Ok_0;
            lemma_propagated_keeps_queue(middle, next, transfer.output_depth, current.decoded);
        } else {
            lemma_propagated_keeps_queue(popped, next, transfer.output_depth, current.decoded);
        }
    }
}

proof fn lemma_analyzed_keeps_queue(rules: StackRules, state: DepthState)
    requires
        queue_invariant(state),
        analyzed_from(rules, state).is_ok(),
    ensures
        queue_invariant(analyzed_from(rules, state)->Ok_0),
        analyzed_from(rules, state)->Ok_0.worklist.len() == 0,
    decreases state.instructions.len() - state.evaluations,
{
    if !(state.worklist.len() == 0 || state.evaluations >= state.instructions.len()) {
        lemma_evaluated_keeps_queue(rules, state);
        lemma_analyzed_keeps_queue(rules, evaluated(rules, state)->Ok_0);
    }
}

proof fn lemma_found_index_is_inside(
    instructions: Seq<DecodedInstruction>,
    pc: BytecodePc,
)
    requires
        instructions.len() <= u32::MAX,
        index_at(instructions, pc).is_some(),
    ensures
        index_at(instructions, pc).unwrap().0 < instructions.len(),
        instructions[index_at(instructions, pc).unwrap().0 as int].pc == pc,
{
}

proof fn lemma_structural_successors(
    context: StaticContext,
    decoded: Seq<DecodedInstruction>,
    at: int,
)
    requires
        contiguous(decoded, context.bytecode_len),
        increasing_pcs(decoded),
        decoded.len() <= u32::MAX,
        0 <= at < decoded.len(),
        structural_instruction(context, decoded, decoded[at]).is_ok(),
    ensures
        ({
            let verified = structural_instruction(context, decoded, decoded[at])->Ok_0;
            &&& verified.decoded == decoded[at]
            &&& verified.entry_stack_depth.is_none()
            &&& forall|next: int|
                #[trigger] leads_to(verified.spec_successors(), next) ==> 0 <= next < decoded.len()
            &&& match verified.spec_successors().spec_fallthrough() {
                Some(next) => next.spec_get() == at + 1,
                None => true,
            }
        }),
{
    let verified = structural_instruction(context, decoded, decoded[at])->Ok_0;
    assert forall|pc: BytecodePc|
        (#[trigger] index_at(decoded, pc)).is_some() implies index_at(decoded, pc).unwrap().0
        < decoded.len() by {
        lemma_found_index_is_inside(decoded, pc);
    }
    if verified.spec_successors().spec_fallthrough().is_some() {
        let next_pc = decoded[at].next_pc;
        assert(index_at(decoded, next_pc) == verified.spec_successors().spec_fallthrough());
        lemma_found_index_is_inside(decoded, next_pc);
        let found = index_at(decoded, next_pc).unwrap().0 as int;
        if at == decoded.len() - 1 {
            assert(decoded[at] == decoded.last());
            assert(decoded[found].pc.0 <= decoded[at].pc.0);
        } else {
            assert(decoded[at + 1].pc == next_pc);
            lemma_index_at_is_unique(decoded, next_pc, at + 1);
        }
    }
}

/// An accepted body is covered by its instructions, control never leaves it,
/// and each of its reachable instructions is evaluated exactly once.
pub proof fn lemma_accepted_bodies_are_covered(
    profile: CapabilityProfile,
    bytecode: Seq<u8>,
    domains: FunctionIndexDomains,
    function_header: UnverifiedFunctionHeader,
    mode: StackVerificationMode,
    capture: Option<CompilerCaptureLayout>,
    constants: Option<CompilerConstantLayout>,
    limits: VerificationLimits,
)
    requires
        flow_verdict(
            profile,
            bytecode,
            domains,
            function_header,
            mode,
            capture,
            constants,
            limits,
        ).is_ok(),
    ensures
        ({
            let verdict = flow_verdict(
                profile,
                bytecode,
                domains,
                function_header,
                mode,
                capture,
                constants,
                limits,
            )->Ok_0;
            &&& covers_body(bytecode, verdict.instructions)
            &&& stays_inside(verdict.instructions)
            &&& verdict.transfer_evaluations == recorded_depths(verdict.instructions)
        }),
{
    let header = header_validation(function_header, domains)->Ok_0;
    let context = static_context(
        profile,
        bytecode.len(),
        domains,
        header,
        mode,
        capture,
        constants,
    );
    let decoded = predecode(bytecode, limits.max_instructions_per_function)->Ok_0;
    lemma_predecode_covers_body(bytecode, limits.max_instructions_per_function);
    let checks = structural_checks(context, decoded);
    lemma_success_means_all(checks);
    let before = static_semantics(context, decoded)->Ok_0;
    assert forall|i: int| 0 <= i < before.len() implies (
    #[trigger] before[i]).entry_stack_depth.is_none() && before[i].decoded == decoded[i] by {
        assert(checks[i].is_ok());
        lemma_structural_successors(context, decoded, i);
    }
    let rules = body_rules(profile, header.kind, limits, mode.spec_requires_empty_exits(), before);
    let end = stack_analysis(rules, before)->Ok_0;
    lemma_initial_queue(before);
    lemma_analyzed_keeps_queue(rules, initial_state(before));
    lemma_recorded_or_unvisited(end.instructions);
    assert(stack_analysis(rules, before) == Ok::<DepthState, VerificationError>(end));
    lemma_analysis_is_sound(rules, before, end);
    let after = end.instructions;
    assert forall|i: int| 0 <= i < after.len() implies (#[trigger] after[i]).decoded
        == decoded[i] by {
        assert(before[i].decoded == decoded[i]);
    }
    assert(after[after.len() - 1].decoded == decoded[decoded.len() - 1]);
    assert forall|i: int, j: int|
        0 <= i < after.len() && j == i + 1 && j < after.len() implies (
    #[trigger] after[i]).spec_decoded().next_pc == (#[trigger] after[j]).spec_decoded().pc by {
        assert(decoded[i].next_pc == decoded[j].pc);
    }
    assert(covers_body(bytecode, after));
    assert forall|i: int| 0 <= i < after.len() implies #[trigger] leads_inside(after, i) by {
        assert(checks[i].is_ok());
        lemma_structural_successors(context, decoded, i);
        assert(after[i].successors == before[i].successors);
    }
}

} // verus!
