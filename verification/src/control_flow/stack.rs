//! Ordinary operand-stack depths of structurally checked control flow.
use crate::control_flow::error::{
    VerificationError, VerificationErrorKind, error_at, root_error,
};
use crate::control_flow::limits::{
    VerificationLimits, VerificationResource, allocation_failure_at,
};
use crate::control_flow::model::{InstructionIndex, VerifiedInstruction, VerifiedSuccessorsRepr};
use crate::control_flow::opcode_semantics::CapabilityProfile;
use crate::control_flow::static_control_flow::StructurallyVerifiedControlFlow;
use crate::control_flow::targets::decoded_of;
use crate::function::FunctionKind;
use crate::instruction::DecodedInstruction;
use crate::opcode::FinalOpcode;
use crate::reserve::reserve_queue;
use std::collections::{TryReserveError, VecDeque};
use vstd::prelude::*;

verus! {

/// Ordinary-stack dataflow certificate for structurally checked control flow.
pub(crate) struct StackCertificate {
    pub(crate) instructions: Vec<VerifiedInstruction>,
    pub(crate) computed_stack_size: u32,
    pub(crate) transfer_evaluations: u64,
}

/// What stack analysis of a body depends on beside its instructions.
#[derive(Clone, Copy)]
pub struct StackRules {
    /// Opcodes and operand values that are admitted.
    pub profile: CapabilityProfile,
    /// Kind of the function.
    pub function_kind: FunctionKind,
    /// Resource limits.
    pub limits: VerificationLimits,
    /// Whether a terminal must leave the stack empty, but for those whose residue
    /// is allowed.
    pub require_empty_exits: bool,
    /// Whether the body installs a catch marker somewhere.
    pub has_catch_marker: bool,
    /// Whether the body enters a finally subroutine somewhere.
    pub has_gosub: bool,
}

/// Depths after one instruction: on its ordinary edges and on its taken edge.
pub struct DepthTransfer {
    /// Depth that ordinary successors and terminals see.
    pub output_depth: u32,
    /// Depth that the taken edge of a branch sees.
    pub taken_depth: u32,
}

/// Whether the taken edge carries one value more: the return address of a
/// `gosub`, or the binding that an extended `with_get_var` found.
pub open spec fn taken_edge_pushes(profile: CapabilityProfile, opcode: FinalOpcode) -> bool {
    opcode == FinalOpcode::Gosub || (profile == CapabilityProfile::Extended && opcode
        == FinalOpcode::WithGetVar)
}

fn exceeds(decoded: DecodedInstruction, depth: u64, limit: u32) -> (error: VerificationError)
    ensures
        error == error_at(decoded, VerificationErrorKind::StackLimitExceeded { depth, limit }),
{
    VerificationError::at_instruction(
        decoded,
        VerificationErrorKind::StackLimitExceeded { depth, limit },
    )
}

/// Stack transfer of one instruction entered at `entry_depth`.
pub open spec fn depth_transfer(
    rules: StackRules,
    decoded: DecodedInstruction,
    entry_depth: u32,
) -> Result<DepthTransfer, VerificationError> {
    match decoded.instruction.spec_stack_effect() {
        Err(source) => Err(error_at(decoded, VerificationErrorKind::StackEffect(source))),
        Ok(effect) => {
            let output = entry_depth - effect.pops + effect.pushes;
            let limit = rules.limits.max_stack_depth;
            if entry_depth < effect.pops {
                Err(
                    error_at(
                        decoded,
                        VerificationErrorKind::StackUnderflow {
                            required: effect.pops,
                            available: entry_depth,
                        },
                    ),
                )
            } else if output > limit {
                Err(
                    error_at(
                        decoded,
                        VerificationErrorKind::StackLimitExceeded { depth: output as u64, limit },
                    ),
                )
            } else if taken_edge_pushes(rules.profile, decoded.instruction.opcode) {
                if output + 1 > limit {
                    Err(
                        error_at(
                            decoded,
                            VerificationErrorKind::StackLimitExceeded {
                                depth: (output + 1) as u64,
                                limit,
                            },
                        ),
                    )
                } else {
                    Ok(
                        DepthTransfer {
                            output_depth: output as u32,
                            taken_depth: (output + 1) as u32,
                        },
                    )
                }
            } else {
                Ok(DepthTransfer { output_depth: output as u32, taken_depth: output as u32 })
            }
        },
    }
}

fn transfer_depth(rules: StackRules, decoded: DecodedInstruction, entry_depth: u32) -> (transfer:
    Result<DepthTransfer, VerificationError>)
    ensures
        transfer == depth_transfer(rules, decoded, entry_depth),
{
    let effect = match decoded.instruction.stack_effect() {
        Ok(effect) => effect,
        Err(source) => {
            return Err(
                VerificationError::at_instruction(
                    decoded,
                    VerificationErrorKind::StackEffect(source),
                ),
            );
        },
    };
    let limit: u32 = rules.limits.max_stack_depth;
    if entry_depth < effect.pops {
        return Err(
            VerificationError::at_instruction(
                decoded,
                VerificationErrorKind::StackUnderflow {
                    required: effect.pops,
                    available: entry_depth,
                },
            ),
        );
    }
    let output: u64 = (entry_depth - effect.pops) as u64 + effect.pushes as u64;
    if output > limit as u64 {
        return Err(exceeds(decoded, output, limit));
    }
    let pushes = matches!(decoded.instruction.opcode, FinalOpcode::Gosub) || (matches!(
        rules.profile,
        CapabilityProfile::Extended
    ) && matches!(decoded.instruction.opcode, FinalOpcode::WithGetVar));
    if !pushes {
        return Ok(DepthTransfer { output_depth: output as u32, taken_depth: output as u32 });
    }
    if output + 1 > limit as u64 {
        return Err(exceeds(decoded, output + 1, limit));
    }
    Ok(DepthTransfer { output_depth: output as u32, taken_depth: (output + 1) as u32 })
}

/// Whether a terminal may leave values on the stack.
///
/// A throw may, where a catch marker can receive it; so may the return of a
/// finally subroutine and a generator's resumed return; and in a body with
/// finally subroutines the typed pass decides about the other abrupt exits.
pub open spec fn residue_allowed(rules: StackRules, opcode: FinalOpcode) -> bool {
    let extended = rules.profile == CapabilityProfile::Extended;
    ||| rules.has_catch_marker && (opcode == FinalOpcode::Throw || (extended && opcode
        == FinalOpcode::ThrowError))
    ||| opcode == FinalOpcode::Ret
    ||| extended && opcode == FinalOpcode::ReturnAsync && (rules.function_kind
        == FunctionKind::Generator || rules.function_kind == FunctionKind::AsyncGenerator)
    ||| rules.has_gosub && (opcode == FinalOpcode::Return || opcode == FinalOpcode::ReturnUndef
        || opcode == FinalOpcode::Throw)
}

/// The check of the values that a terminal leaves behind.
pub open spec fn exit_check(
    rules: StackRules,
    decoded: DecodedInstruction,
    output_depth: u32,
) -> Result<(), VerificationError> {
    if rules.require_empty_exits && output_depth != 0 && !residue_allowed(
        rules,
        decoded.instruction.opcode,
    ) {
        Err(
            error_at(
                decoded,
                VerificationErrorKind::NonEmptyCompilerExitStack { remaining: output_depth },
            ),
        )
    } else {
        Ok(())
    }
}

fn check_exit(rules: StackRules, decoded: DecodedInstruction, output_depth: u32) -> (checked:
    Result<(), VerificationError>)
    ensures
        checked == exit_check(rules, decoded, output_depth),
{
    let opcode = decoded.instruction.opcode;
    let extended: bool = matches!(rules.profile, CapabilityProfile::Extended);
    let protected_throw: bool = rules.has_catch_marker && (matches!(opcode, FinalOpcode::Throw) || (
    extended && matches!(opcode, FinalOpcode::ThrowError)));
    let returns_from_finally: bool = matches!(opcode, FinalOpcode::Ret);
    let abandons_generator_expression: bool = extended && matches!(
        rules.function_kind,
        FunctionKind::Generator | FunctionKind::AsyncGenerator
    ) && matches!(opcode, FinalOpcode::ReturnAsync);
    let defers_typed_finally_exit: bool = rules.has_gosub && matches!(
        opcode,
        FinalOpcode::Return | FinalOpcode::ReturnUndef | FinalOpcode::Throw
    );
    if rules.require_empty_exits && output_depth != 0 && !protected_throw && !returns_from_finally
        && !abandons_generator_expression && !defers_typed_finally_exit {
        return Err(
            VerificationError::at_instruction(
                decoded,
                VerificationErrorKind::NonEmptyCompilerExitStack { remaining: output_depth },
            ),
        );
    }
    Ok(())
}

/// State of the depth analysis.
pub(crate) struct DepthState {
    pub(crate) instructions: Seq<VerifiedInstruction>,
    pub(crate) worklist: Seq<InstructionIndex>,
    pub(crate) computed_max: u32,
    pub(crate) evaluations: nat,
}

/// The instruction with its entry depth set.
pub(crate) open(crate) spec fn with_depth(
    instruction: VerifiedInstruction,
    depth: u32,
) -> VerifiedInstruction {
    VerifiedInstruction { entry_stack_depth: Some(depth), ..instruction }
}

/// Propagation of a depth over one edge: a first visit records the depth and
/// queues the target, a later one must agree with it.
pub(crate) open(crate) spec fn propagated(
    state: DepthState,
    target: InstructionIndex,
    incoming_depth: u32,
    source: DecodedInstruction,
) -> Result<DepthState, VerificationError> {
    let at = target.0 as int;
    if at >= state.instructions.len() {
        Err(
            error_at(
                source,
                VerificationErrorKind::LimitExceeded {
                    resource: VerificationResource::Instructions,
                    limit: state.instructions.len() as u64,
                    observed: (target.0 + 1) as u64,
                },
            ),
        )
    } else {
        match state.instructions[at].entry_stack_depth {
            None => Ok(
                DepthState {
                    instructions: state.instructions.update(
                        at,
                        with_depth(state.instructions[at], incoming_depth),
                    ),
                    worklist: state.worklist.push(target),
                    ..state
                },
            ),
            Some(established_depth) => if established_depth == incoming_depth {
                Ok(state)
            } else {
                Err(
                    error_at(
                        source,
                        VerificationErrorKind::InconsistentStackAtJoin {
                            target: state.instructions[at].decoded.pc,
                            established_depth,
                            incoming_depth,
                            incoming_from: source.pc,
                        },
                    ),
                )
            },
        }
    }
}

/// Propagation of an instruction's output over all its edges, the taken edge
/// first; a terminal has its residue checked instead.
pub(crate) open(crate) spec fn propagated_to_successors(
    rules: StackRules,
    state: DepthState,
    current: VerifiedInstruction,
    transfer: DepthTransfer,
) -> Result<DepthState, VerificationError> {
    match current.successors.0 {
        VerifiedSuccessorsRepr::Fallthrough(successor) => propagated(
            state,
            successor,
            transfer.output_depth,
            current.decoded,
        ),
        VerifiedSuccessorsRepr::Jump(successor) => propagated(
            state,
            successor,
            transfer.output_depth,
            current.decoded,
        ),
        VerifiedSuccessorsRepr::Branch { taken, not_taken } => match propagated(
            state,
            taken,
            transfer.taken_depth,
            current.decoded,
        ) {
            Err(error) => Err(error),
            Ok(next) => propagated(next, not_taken, transfer.output_depth, current.decoded),
        },
        VerifiedSuccessorsRepr::Terminate => match exit_check(
            rules,
            current.decoded,
            transfer.output_depth,
        ) {
            Ok(_) => Ok(state),
            Err(error) => Err(error),
        },
    }
}

/// The larger depth.
pub open spec fn larger(left: u32, right: u32) -> u32 {
    if left < right {
        right
    } else {
        left
    }
}

/// One evaluation: the oldest queued instruction is transferred and its output
/// propagated.
pub(crate) open(crate) spec fn evaluated(rules: StackRules, state: DepthState) -> Result<
    DepthState,
    VerificationError,
> {
    let current = state.instructions[state.worklist[0].0 as int];
    let limit = rules.limits.max_transfer_evaluations;
    let entry_depth = current.entry_stack_depth.unwrap();
    if state.evaluations + 1 > limit {
        Err(
            error_at(
                current.decoded,
                VerificationErrorKind::LimitExceeded {
                    resource: VerificationResource::TransferEvaluations,
                    limit,
                    observed: (state.evaluations + 1) as u64,
                },
            ),
        )
    } else {
        match depth_transfer(rules, current.decoded, entry_depth) {
            Err(error) => Err(error),
            Ok(transfer) => propagated_to_successors(
                rules,
                DepthState {
                    instructions: state.instructions,
                    worklist: state.worklist.skip(1),
                    computed_max: larger(
                        state.computed_max,
                        larger(transfer.output_depth, transfer.taken_depth),
                    ),
                    evaluations: state.evaluations + 1,
                },
                current,
                transfer,
            ),
        }
    }
}

/// The analysis run to the end: evaluations until nothing is queued.
///
/// Every evaluation is the only one of its instruction, so there are no more
/// evaluations than instructions.
pub(crate) open(crate) spec fn analyzed_from(rules: StackRules, state: DepthState) -> Result<
    DepthState,
    VerificationError,
>
    decreases state.instructions.len() - state.evaluations,
{
    if state.worklist.len() == 0 || state.evaluations >= state.instructions.len() {
        Ok(state)
    } else {
        match evaluated(rules, state) {
            Err(error) => Err(error),
            Ok(next) => analyzed_from(rules, next),
        }
    }
}

/// The state before the first evaluation: only the entry is queued, at depth
/// zero.
pub(crate) open(crate) spec fn initial_state(
    instructions: Seq<VerifiedInstruction>,
) -> DepthState {
    DepthState {
        instructions: instructions.update(0, with_depth(instructions[0], 0)),
        worklist: seq![InstructionIndex(0)],
        computed_max: 0,
        evaluations: 0,
    }
}

/// Whether an opcode installs a catch marker.
pub open spec fn spec_installs_catch_marker(
    profile: CapabilityProfile,
    opcode: FinalOpcode,
) -> bool {
    opcode == FinalOpcode::Catch || opcode == FinalOpcode::ForOfStart || (profile
        == CapabilityProfile::Extended && opcode == FinalOpcode::ForAwaitOfStart)
}

/// The rules for a body: whether it has catch markers and finally subroutines
/// is read off its instructions.
pub open(crate) spec fn body_rules(
    profile: CapabilityProfile,
    function_kind: FunctionKind,
    limits: VerificationLimits,
    require_empty_exits: bool,
    instructions: Seq<VerifiedInstruction>,
) -> StackRules {
    StackRules {
        profile,
        function_kind,
        limits,
        require_empty_exits,
        has_catch_marker: exists|i: int|
            0 <= i < instructions.len() && spec_installs_catch_marker(
                profile,
                (#[trigger] instructions[i]).decoded.instruction.opcode,
            ),
        has_gosub: exists|i: int|
            0 <= i < instructions.len() && (
            #[trigger] instructions[i]).decoded.instruction.opcode == FinalOpcode::Gosub,
    }
}

/// Depth analysis of a whole body.
pub(crate) open(crate) spec fn stack_analysis(
    rules: StackRules,
    instructions: Seq<VerifiedInstruction>,
) -> Result<DepthState, VerificationError> {
    if instructions.len() == 0 {
        Err(root_error(VerificationErrorKind::EmptyBytecode))
    } else {
        analyzed_from(rules, initial_state(instructions))
    }
}

/// Number of instructions without a recorded depth.
pub(crate) open(crate) spec fn unvisited(instructions: Seq<VerifiedInstruction>) -> nat
    decreases instructions.len(),
{
    if instructions.len() == 0 {
        0
    } else {
        unvisited(instructions.drop_last()) + if instructions.last().entry_stack_depth.is_none() {
            1nat
        } else {
            0nat
        }
    }
}

proof fn lemma_unvisited_update(
    instructions: Seq<VerifiedInstruction>,
    at: int,
    replacement: VerifiedInstruction,
)
    requires
        0 <= at < instructions.len(),
        instructions[at].entry_stack_depth.is_none(),
        replacement.entry_stack_depth.is_some(),
    ensures
        unvisited(instructions.update(at, replacement)) + 1 == unvisited(instructions),
    decreases instructions.len(),
{
    let updated = instructions.update(at, replacement);
    if at == instructions.len() - 1 {
        assert(updated.drop_last() =~= instructions.drop_last());
    } else {
        assert(updated.drop_last() =~= instructions.drop_last().update(at, replacement));
        lemma_unvisited_update(instructions.drop_last(), at, replacement);
    }
}

proof fn lemma_unvisited_all(instructions: Seq<VerifiedInstruction>)
    requires
        forall|i: int|
            0 <= i < instructions.len() ==> (
            #[trigger] instructions[i]).entry_stack_depth.is_none(),
    ensures
        unvisited(instructions) == instructions.len(),
    decreases instructions.len(),
{
    if instructions.len() > 0 {
        let rest = instructions.drop_last();
        assert forall|i: int| 0 <= i < rest.len() implies (
        #[trigger] rest[i]).entry_stack_depth.is_none() by {
            assert(rest[i] == instructions[i]);
        }
        lemma_unvisited_all(rest);
    }
}

/// What holds of a state between evaluations: the queue names distinct visited
/// instructions, and every instruction is unvisited, queued or evaluated.
pub(crate) open(crate) spec fn queue_invariant(state: DepthState) -> bool {
    &&& state.instructions.len() > 0
    &&& state.evaluations + state.worklist.len() + unvisited(state.instructions)
        == state.instructions.len()
    &&& forall|k: int|
        0 <= k < state.worklist.len() ==> (#[trigger] state.worklist[k]).0
            < state.instructions.len() && state.instructions[state.worklist[k].0 as int].entry_stack_depth.is_some()
}

pub(crate) proof fn lemma_propagated_keeps_queue(
    state: DepthState,
    target: InstructionIndex,
    incoming_depth: u32,
    source: DecodedInstruction,
)
    requires
        queue_invariant(state),
    ensures
        match propagated(state, target, incoming_depth, source) {
            Ok(next) => queue_invariant(next) && next.instructions.len()
                == state.instructions.len() && next.evaluations == state.evaluations
                && next.computed_max == state.computed_max,
            Err(_) => true,
        },
{
    if target.0 < state.instructions.len() {
        if state.instructions[target.0 as int].entry_stack_depth.is_none() {
            lemma_unvisited_update(
                state.instructions,
                target.0 as int,
                with_depth(state.instructions[target.0 as int], incoming_depth),
            );
        }
    }
}

pub(crate) proof fn lemma_initial_queue(instructions: Seq<VerifiedInstruction>)
    requires
        instructions.len() > 0,
        forall|i: int|
            0 <= i < instructions.len() ==> (
            #[trigger] instructions[i]).entry_stack_depth.is_none(),
    ensures
        queue_invariant(initial_state(instructions)),
{
    lemma_unvisited_all(instructions);
    lemma_unvisited_update(instructions, 0, with_depth(instructions[0], 0));
}

/// Returns success of a worklist reservation, or the failure to reserve one
/// entry while `decoded` was being processed.
pub fn worklist_reservation_outcome(
    reserved: Result<(), TryReserveError>,
    decoded: DecodedInstruction,
) -> (outcome: Result<(), VerificationError>)
    ensures
        outcome.is_ok() <==> reserved.is_ok(),
        outcome.is_err() ==> outcome == Err::<(), VerificationError>(
            allocation_failure_at(decoded, VerificationResource::WorklistEntries, 1),
        ),
{
    match reserved {
        Ok(_) => Ok(()),
        Err(_) => Err(
            VerificationError::at_instruction(
                decoded,
                VerificationErrorKind::AllocationFailed {
                    resource: VerificationResource::WorklistEntries,
                    requested: 1,
                },
            ),
        ),
    }
}

/// Reserves room for one worklist entry.
pub fn reserve_worklist_entry(
    worklist: &mut VecDeque<InstructionIndex>,
    decoded: DecodedInstruction,
) -> (reserved: Result<(), VerificationError>)
    ensures
        final(worklist)@ == old(worklist)@,
        match reserved {
            Ok(_) => true,
            Err(error) => error == allocation_failure_at(
                decoded,
                VerificationResource::WorklistEntries,
                1,
            ),
        },
{
    worklist_reservation_outcome(reserve_queue(worklist, 1), decoded)
}

/// Whether `error` reports that room for one more worklist entry could not be
/// reserved, at an instruction of the body.
pub open spec fn worklist_failure(
    decoded: Seq<DecodedInstruction>,
    error: VerificationError,
) -> bool {
    exists|i: int|
        0 <= i < decoded.len() && error == allocation_failure_at(
            #[trigger] decoded[i],
            VerificationResource::WorklistEntries,
            1,
        )
}

fn propagate_stack_depth(
    instructions: &mut Vec<VerifiedInstruction>,
    worklist: &mut VecDeque<InstructionIndex>,
    target: InstructionIndex,
    incoming_depth: u32,
    source: DecodedInstruction,
    Ghost(state): Ghost<DepthState>,
) -> (next: Result<(), VerificationError>)
    requires
        old(instructions)@ == state.instructions,
        old(worklist)@ == state.worklist,
    ensures
        match next {
            Ok(_) => propagated(state, target, incoming_depth, source) == Ok::<
                DepthState,
                VerificationError,
            >(
                (DepthState {
                    instructions: final(instructions)@,
                    worklist: final(worklist)@,
                    ..state
                }),
            ),
            Err(error) => propagated(state, target, incoming_depth, source) == Err::<
                DepthState,
                VerificationError,
            >(error) || error == allocation_failure_at(
                source,
                VerificationResource::WorklistEntries,
                1,
            ),
        },
{
    let position: usize = target.0 as usize;
    if position >= instructions.len() {
        return Err(
            VerificationError::at_instruction(
                source,
                VerificationErrorKind::LimitExceeded {
                    resource: VerificationResource::Instructions,
                    limit: instructions.len() as u64,
                    observed: target.0 as u64 + 1,
                },
            ),
        );
    }
    let current = instructions[position];
    match current.entry_stack_depth {
        None => {
            reserve_worklist_entry(worklist, source)?;
            let mut visited = current;
            visited.entry_stack_depth = Some(incoming_depth);
            instructions.set(position, visited);
            worklist.push_back(target);
            assert(visited == with_depth(current, incoming_depth));
        },
        Some(established_depth) => {
            if established_depth != incoming_depth {
                return Err(
                    VerificationError::at_instruction(
                        source,
                        VerificationErrorKind::InconsistentStackAtJoin {
                            target: current.decoded.pc,
                            established_depth,
                            incoming_depth,
                            incoming_from: source.pc,
                        },
                    ),
                );
            }
        },
    }
    Ok(())
}

fn contains_catch_marker(profile: CapabilityProfile, instructions: &Vec<VerifiedInstruction>) -> (
found: bool)
    ensures
        found == exists|i: int|
            0 <= i < instructions@.len() && spec_installs_catch_marker(
                profile,
                (#[trigger] instructions@[i]).decoded.instruction.opcode,
            ),
{
    let mut i: usize = 0;
    while i < instructions.len()
        invariant
            i <= instructions@.len(),
            forall|j: int|
                0 <= j < i ==> !spec_installs_catch_marker(
                    profile,
                    (#[trigger] instructions@[j]).decoded.instruction.opcode,
                ),
        decreases instructions@.len() - i,
    {
        let opcode = instructions[i].decoded.instruction.opcode;
        if matches!(opcode, FinalOpcode::Catch | FinalOpcode::ForOfStart) || (matches!(
            profile,
            CapabilityProfile::Extended
        ) && matches!(opcode, FinalOpcode::ForAwaitOfStart)) {
            assert(spec_installs_catch_marker(
                profile,
                instructions@[i as int].decoded.instruction.opcode,
            ));
            return true;
        }
        i = i + 1;
    }
    false
}

fn contains_gosub(instructions: &Vec<VerifiedInstruction>) -> (found: bool)
    ensures
        found == exists|i: int|
            0 <= i < instructions@.len() && (
            #[trigger] instructions@[i]).decoded.instruction.opcode == FinalOpcode::Gosub,
{
    let mut i: usize = 0;
    while i < instructions.len()
        invariant
            i <= instructions@.len(),
            forall|j: int|
                0 <= j < i ==> (#[trigger] instructions@[j]).decoded.instruction.opcode
                    != FinalOpcode::Gosub,
        decreases instructions@.len() - i,
    {
        if matches!(instructions[i].decoded.instruction.opcode, FinalOpcode::Gosub) {
            assert(instructions@[i as int].decoded.instruction.opcode == FinalOpcode::Gosub);
            return true;
        }
        i = i + 1;
    }
    false
}

fn larger_depth(left: u32, right: u32) -> (depth: u32)
    ensures
        depth == larger(left, right),
{
    if left < right {
        right
    } else {
        left
    }
}

/// Computes the entry depth of every reachable instruction.
pub(crate) fn analyze_ordinary_stack(
    structurally_verified: StructurallyVerifiedControlFlow,
    profile: CapabilityProfile,
    limits: VerificationLimits,
    require_empty_exits: bool,
) -> (certificate: Result<StackCertificate, VerificationError>)
    requires
        structurally_verified.instructions@.len() <= u32::MAX,
        forall|i: int|
            0 <= i < structurally_verified.instructions@.len() ==> (
            #[trigger] structurally_verified.instructions@[i]).entry_stack_depth.is_none(),
    ensures
        ({
            let instructions = structurally_verified.instructions@;
            let rules = body_rules(
                profile,
                structurally_verified.function_kind,
                limits,
                require_empty_exits,
                instructions,
            );
            match certificate {
                Ok(certificate) => match stack_analysis(rules, instructions) {
                    Ok(state) => state.worklist.len() == 0 && certificate.instructions@
                        == state.instructions && certificate.computed_stack_size
                        == state.computed_max && certificate.transfer_evaluations
                        == state.evaluations,
                    Err(_) => false,
                },
                Err(error) => stack_analysis(rules, instructions) == Err::<
                    DepthState,
                    VerificationError,
                >(error) || worklist_failure(decoded_of(instructions), error),
            }
        }),
{
    let ghost original = structurally_verified.instructions@;
    let (mut instructions, function_kind) = structurally_verified.into_parts();
    if instructions.len() == 0 {
        return Err(VerificationError::root(VerificationErrorKind::EmptyBytecode));
    }
    let has_catch_marker: bool = contains_catch_marker(profile, &instructions);
    let has_gosub: bool = contains_gosub(&instructions);
    let rules = StackRules {
        profile,
        function_kind,
        limits,
        require_empty_exits,
        has_catch_marker,
        has_gosub,
    };
    let mut entry = instructions[0];
    entry.entry_stack_depth = Some(0);
    assert(entry == with_depth(original[0], 0));
    instructions.set(0, entry);
    let mut worklist: VecDeque<InstructionIndex> = VecDeque::new();
    assert(decoded_of(original)[0] == entry.decoded);
    reserve_worklist_entry(&mut worklist, entry.decoded)?;
    worklist.push_back(InstructionIndex(0));
    let mut computed_max: u32 = 0;
    let mut evaluations: u64 = 0;
    let ghost mut state = initial_state(original);
    proof {
        lemma_initial_queue(original);
        assert(worklist@ =~= state.worklist);
    }
    while worklist.len() > 0
        invariant
            instructions@ == state.instructions,
            worklist@ == state.worklist,
            computed_max == state.computed_max,
            evaluations == state.evaluations,
            queue_invariant(state),
            state.instructions.len() <= u32::MAX,
            rules.limits == limits,
            original == structurally_verified.instructions@,
            instructions@.len() == original.len(),
            forall|i: int|
                0 <= i < original.len() ==> (#[trigger] instructions@[i]).decoded
                    == original[i].decoded,
            rules == body_rules(
                profile,
                structurally_verified.function_kind,
                limits,
                require_empty_exits,
                original,
            ),
            stack_analysis(rules, original) == analyzed_from(rules, state),
        ensures
            worklist@.len() == 0,
        decreases instructions@.len() - evaluations,
    {
        let index = match worklist.pop_front() {
            Some(index) => index,
            None => {
                break;
            },
        };
        proof {
            assert(index == state.worklist[0]);
            assert(worklist@ =~= state.worklist.skip(1));
        }
        let current = instructions[index.0 as usize];
        assert(decoded_of(original)[index.0 as int] == current.decoded);
        let entry_depth: u32 = match current.entry_stack_depth {
            Some(depth) => depth,
            None => 0,
        };
        if evaluations + 1 > limits.max_transfer_evaluations {
            return Err(
                VerificationError::at_instruction(
                    current.decoded,
                    VerificationErrorKind::LimitExceeded {
                        resource: VerificationResource::TransferEvaluations,
                        limit: limits.max_transfer_evaluations,
                        observed: evaluations + 1,
                    },
                ),
            );
        }
        evaluations = evaluations + 1;
        let transfer = transfer_depth(rules, current.decoded, entry_depth)?;
        computed_max = larger_depth(
            computed_max,
            larger_depth(transfer.output_depth, transfer.taken_depth),
        );
        let ghost popped = DepthState {
            instructions: state.instructions,
            worklist: state.worklist.skip(1),
            computed_max,
            evaluations: evaluations as nat,
        };
        proof {
            assert(queue_invariant(popped));
        }
        match current.successors.0 {
            VerifiedSuccessorsRepr::Fallthrough(successor)
            | VerifiedSuccessorsRepr::Jump(successor) => {
                propagate_stack_depth(
                    &mut instructions,
                    &mut worklist,
                    successor,
                    transfer.output_depth,
                    current.decoded,
                    Ghost(popped),
                )?;
                proof {
                    lemma_propagated_keeps_queue(
                        popped,
                        successor,
                        transfer.output_depth,
                        current.decoded,
                    );
                }
            },
            VerifiedSuccessorsRepr::Branch { taken, not_taken } => {
                propagate_stack_depth(
                    &mut instructions,
                    &mut worklist,
                    taken,
                    transfer.taken_depth,
                    current.decoded,
                    Ghost(popped),
                )?;
                let ghost middle = DepthState {
                    instructions: instructions@,
                    worklist: worklist@,
                    ..popped
                };
                proof {
                    lemma_propagated_keeps_queue(
                        popped,
                        taken,
                        transfer.taken_depth,
                        current.decoded,
                    );
                }
                propagate_stack_depth(
                    &mut instructions,
                    &mut worklist,
                    not_taken,
                    transfer.output_depth,
                    current.decoded,
                    Ghost(middle),
                )?;
                proof {
                    lemma_propagated_keeps_queue(
                        middle,
                        not_taken,
                        transfer.output_depth,
                        current.decoded,
                    );
                }
            },
            VerifiedSuccessorsRepr::Terminate => {
                check_exit(rules, current.decoded, transfer.output_depth)?;
            },
        }
        proof {
            state = DepthState {
                instructions: instructions@,
                worklist: worklist@,
                computed_max,
                evaluations: evaluations as nat,
            };
        }
    }
    Ok(
        StackCertificate {
            instructions,
            computed_stack_size: computed_max,
            transfer_evaluations: evaluations,
        },
    )
}

} // verus!
