//! One evaluation of the typed operand-stack analysis: the transfer of an
//! instruction, what it certifies, and the stacks on its edges.
use crate::bytecode::error::BytecodeVerificationError;
use crate::bytecode::internal_stack::{
    CertifiedCatchLocalPut, CertifiedIterationLocalPut, CertifiedNipCatchTransform,
    EffectiveEdge, InternalStackValue as Slot, IterationBranchValue, JavaScriptStackValue,
    RecordKind, YieldStarCallKind, find_record, record_at,
};
use crate::bytecode::internal_transfer::{
    Certification, GroupOutcome, StackOutcome, StackStep, agrees, delegation_outcome,
    derived_constructor_outcome, from_top, in_byte_order, iteration_outcome, replace_top, retop,
    slot_from_top, transfer_delegation, transfer_derived_constructor, transfer_iteration,
};
use crate::bytecode::internal_unwind::{
    effect_outcome, lemma_topmost_catch_is_below, marker_error, marker_stack_error,
    transfer_by_effect, transfer_unwinding, unwinding_outcome,
};
use crate::bytecode::stack_error::{
    catch_error, catch_stack_error, finally_error, finally_stack_error, for_in_error,
    for_in_stack_error, for_of_error, for_of_stack_error, growth_failure, internal_stack_error,
    reserve_slots, stack_error,
};
use crate::control_flow::model::{InstructionIndex, VerifiedInstruction};
use crate::function_graph::FunctionTemplateId;
use crate::instruction::DecodedInstruction;
use crate::opcode::FinalOpcode;
use vstd::prelude::*;

verus! {

/// The outcome, or the outcome of the next group where this one has nothing to
/// say.
pub open spec fn otherwise(outcome: GroupOutcome, next: GroupOutcome) -> GroupOutcome {
    match outcome {
        Ok(None) => next,
        outcome => outcome,
    }
}

/// Typed operand-stack transfer of one instruction.
///
/// Opcodes with internal markers are handled by their groups; every other use
/// goes by the declared stack effect.
pub open(crate) spec fn stack_transfer(
    id: FunctionTemplateId,
    decoded: DecodedInstruction,
    reachable: bool,
    catch_handler: Option<InstructionIndex>,
    instructions: Seq<VerifiedInstruction>,
    state: Seq<Slot>,
) -> GroupOutcome {
    otherwise(
        derived_constructor_outcome(id, decoded, state),
        otherwise(
            iteration_outcome(id, decoded, catch_handler, instructions, state),
            otherwise(
                delegation_outcome(id, decoded, state),
                otherwise(
                    unwinding_outcome(id, decoded, reachable, state),
                    effect_outcome(id, decoded, reachable, state),
                ),
            ),
        ),
    )
}

/// What the instructions of a body are certified to do.
pub struct Certificates {
    /// Locals written from iteration heads.
    pub iteration: Seq<Option<CertifiedIterationLocalPut>>,
    /// Locals written from catch clauses.
    pub catching: Seq<Option<CertifiedCatchLocalPut>>,
    /// Rearrangements by `nip_catch`.
    pub nips: Seq<Option<CertifiedNipCatchTransform>>,
    /// Finally subroutines that `ret` instructions leave.
    pub rets: Seq<Option<InstructionIndex>>,
}

/// The certificates after one more transfer of instruction `index` from a stack
/// `before`. There must be a place for what is certified, and two transfers may
/// not certify different rearrangements or subroutines.
pub open spec fn recorded(
    id: FunctionTemplateId,
    decoded: DecodedInstruction,
    index: int,
    before: Seq<Slot>,
    outcome: StackOutcome,
    certificates: Certificates,
) -> Result<Certificates, BytecodeVerificationError> {
    match outcome.step.certification {
        Certification::Nothing => Ok(certificates),
        Certification::IterationPut(put) => if index >= certificates.iteration.len() {
            Err(
                match from_top(before, 0) {
                    Some(Slot::ForInHeadKey(_)) => for_in_error(id, decoded),
                    _ => for_of_error(id, decoded),
                },
            )
        } else {
            Ok(
                Certificates {
                    iteration: certificates.iteration.update(index, Some(put)),
                    ..certificates
                },
            )
        },
        Certification::CatchPut(put) => if index >= certificates.catching.len() {
            Err(catch_error(id, decoded))
        } else {
            Ok(
                Certificates {
                    catching: certificates.catching.update(index, Some(put)),
                    ..certificates
                },
            )
        },
        Certification::NipCatch(transform) => if index >= certificates.nips.len() || (
        certificates.nips[index].is_some() && certificates.nips[index] != Some(transform)) {
            Err(marker_error(id, decoded, from_top(outcome.state, 0).unwrap() is ForOfReturnValue))
        } else {
            Ok(
                Certificates {
                    nips: certificates.nips.update(index, Some(transform)),
                    ..certificates
                },
            )
        },
        Certification::Ret(target) => if index >= certificates.rets.len() || (
        certificates.rets[index].is_some() && certificates.rets[index] != Some(target)) {
            Err(finally_error(id, decoded))
        } else {
            Ok(Certificates { rets: certificates.rets.update(index, Some(target)), ..certificates })
        },
    }
}

/// The executable vectors hold exactly the certificates.
pub open spec fn holds_certificates(
    certificates: Certificates,
    iteration: Seq<Option<CertifiedIterationLocalPut>>,
    catching: Seq<Option<CertifiedCatchLocalPut>>,
    nips: Seq<Option<CertifiedNipCatchTransform>>,
    rets: Seq<Option<InstructionIndex>>,
) -> bool {
    &&& certificates.iteration == iteration
    &&& certificates.catching == catching
    &&& certificates.nips == nips
    &&& certificates.rets == rets
}

/// Transfer of an instruction together with what it certifies.
pub open(crate) spec fn certified_transfer(
    id: FunctionTemplateId,
    index: int,
    decoded: DecodedInstruction,
    reachable: bool,
    catch_handler: Option<InstructionIndex>,
    instructions: Seq<VerifiedInstruction>,
    state: Seq<Slot>,
    certificates: Certificates,
) -> Result<(StackOutcome, Certificates), BytecodeVerificationError> {
    match stack_transfer(id, decoded, reachable, catch_handler, instructions, state) {
        Err(error) => Err(error),
        Ok(None) => Err(stack_error(id, decoded, state)),
        Ok(Some(outcome)) => match recorded(id, decoded, index, state, outcome, certificates) {
            Err(error) => Err(error),
            Ok(next) => Ok((outcome, next)),
        },
    }
}

fn transfer_stack(
    id: FunctionTemplateId,
    decoded: DecodedInstruction,
    reachable: bool,
    catch_handler: Option<InstructionIndex>,
    instructions: &[VerifiedInstruction],
    state: &mut Vec<Slot>,
) -> (step: Result<Option<StackStep>, BytecodeVerificationError>)
    requires
        in_byte_order(instructions@),
    ensures
        agrees(
            id,
            stack_transfer(id, decoded, reachable, catch_handler, instructions@, old(state)@),
            step,
            old(state)@,
            final(state)@,
        ),
{
    if let Some(step) = transfer_derived_constructor(id, decoded, state)? {
        return Ok(Some(step));
    }
    if let Some(step) = transfer_iteration(id, decoded, catch_handler, instructions, state)? {
        return Ok(Some(step));
    }
    if let Some(step) = transfer_delegation(id, decoded, state)? {
        return Ok(Some(step));
    }
    if let Some(step) = transfer_unwinding(id, decoded, reachable, state)? {
        return Ok(Some(step));
    }
    transfer_by_effect(id, decoded, reachable, state)
}

/// Transfers an instruction and records what it certifies.
pub(crate) fn transfer_internal_operand_stack(
    id: FunctionTemplateId,
    instruction_index: usize,
    decoded: DecodedInstruction,
    effectively_reachable: bool,
    catch_handler: Option<InstructionIndex>,
    instructions: &[VerifiedInstruction],
    state: &mut Vec<Slot>,
    iteration_local_puts: &mut Vec<Option<CertifiedIterationLocalPut>>,
    catch_local_puts: &mut Vec<Option<CertifiedCatchLocalPut>>,
    nip_catch_transforms: &mut Vec<Option<CertifiedNipCatchTransform>>,
    ret_finalizers: &mut Vec<Option<InstructionIndex>>,
    Ghost(certificates): Ghost<Certificates>,
) -> (transferred: Result<(StackStep, Ghost<Certificates>), BytecodeVerificationError>)
    requires
        in_byte_order(instructions@),
        holds_certificates(
            certificates,
            old(iteration_local_puts)@,
            old(catch_local_puts)@,
            old(nip_catch_transforms)@,
            old(ret_finalizers)@,
        ),
    ensures
        ({
            let expected = certified_transfer(
                id,
                instruction_index as int,
                decoded,
                effectively_reachable,
                catch_handler,
                instructions@,
                old(state)@,
                certificates,
            );
            match transferred {
                Ok((step, next)) => expected == Ok::<
                    (StackOutcome, Certificates),
                    BytecodeVerificationError,
                >((StackOutcome { state: final(state)@, step }, next@)) && holds_certificates(
                    next@,
                    final(iteration_local_puts)@,
                    final(catch_local_puts)@,
                    final(nip_catch_transforms)@,
                    final(ret_finalizers)@,
                ),
                Err(error) => match expected {
                    Ok((outcome, _)) => growth_failure(
                        id,
                        old(state)@.len(),
                        outcome.state.len(),
                        error,
                    ),
                    Err(refusal) => error == refusal,
                },
            }
        }),
{
    let ghost before = state@;
    let top = slot_from_top(state, 0);
    proof {
        lemma_certified_stacks_do_not_grow(
            id,
            decoded,
            effectively_reachable,
            catch_handler,
            instructions@,
            before,
        );
    }
    let step = match transfer_stack(
        id,
        decoded,
        effectively_reachable,
        catch_handler,
        instructions,
        state,
    )? {
        Some(step) => step,
        None => {
            return Err(internal_stack_error(id, decoded, state));
        },
    };
    let ghost outcome = StackOutcome { state: state@, step };
    match step.certification {
        Certification::Nothing => {},
        Certification::IterationPut(put) => {
            if instruction_index >= iteration_local_puts.len() {
                return Err(
                    match top {
                        Some(Slot::ForInHeadKey(_)) => for_in_stack_error(id, decoded),
                        _ => for_of_stack_error(id, decoded),
                    },
                );
            }
            iteration_local_puts.set(instruction_index, Some(put));
        },
        Certification::CatchPut(put) => {
            if instruction_index >= catch_local_puts.len() {
                return Err(catch_stack_error(id, decoded));
            }
            catch_local_puts.set(instruction_index, Some(put));
        },
        Certification::NipCatch(transform) => {
            let conflicting: bool = if instruction_index >= nip_catch_transforms.len() {
                true
            } else {
                match nip_catch_transforms[instruction_index] {
                    Some(established) => established != transform,
                    None => false,
                }
            };
            if conflicting {
                let for_of: bool = matches!(
                    slot_from_top(state, 0),
                    Some(Slot::ForOfReturnValue(_))
                );
                return Err(marker_stack_error(id, decoded, for_of));
            }
            nip_catch_transforms.set(instruction_index, Some(transform));
        },
        Certification::Ret(target) => {
            if instruction_index >= ret_finalizers.len() {
                return Err(finally_stack_error(id, decoded));
            }
            if let Some(established) = ret_finalizers[instruction_index] {
                if established != target {
                    return Err(finally_stack_error(id, decoded));
                }
            }
            ret_finalizers.set(instruction_index, Some(target));
        },
    }
    let ghost next = Certificates {
        iteration: iteration_local_puts@,
        catching: catch_local_puts@,
        nips: nip_catch_transforms@,
        rets: ret_finalizers@,
    };
    proof {
        assert(recorded(id, decoded, instruction_index as int, before, outcome, certificates) == Ok::<
            Certificates,
            BytecodeVerificationError,
        >(next));
    }
    Ok((step, Ghost(next)))
}

/// What certifies something leaves no longer stack, and a rearrangement leaves a
/// value.
proof fn lemma_certified_stacks_do_not_grow(
    id: FunctionTemplateId,
    decoded: DecodedInstruction,
    reachable: bool,
    catch_handler: Option<InstructionIndex>,
    instructions: Seq<VerifiedInstruction>,
    state: Seq<Slot>,
)
    ensures
        match stack_transfer(id, decoded, reachable, catch_handler, instructions, state) {
            Ok(Some(outcome)) => (outcome.step.certification is NipCatch ==> outcome.state.len()
                > 0) && (!(outcome.step.certification is Nothing) ==> outcome.state.len()
                <= state.len()),
            _ => true,
        },
{
    lemma_topmost_catch_is_below(state, state.len() - 1);
}

/// The stack with its top value kept aside for a finally subroutine.
pub open spec fn entering_finally(
    id: FunctionTemplateId,
    decoded: DecodedInstruction,
    target: InstructionIndex,
    state: Seq<Slot>,
) -> Result<Seq<Slot>, BytecodeVerificationError> {
    match from_top(state, 0) {
        None => Err(finally_error(id, decoded)),
        Some(top) => match JavaScriptStackValue::spec_from_internal(top) {
            None => Err(finally_error(id, decoded)),
            Some(original) => Ok(
                retop(state, Slot::FinallyPending { target, original }).push(
                    Slot::FinallyReturn { target },
                ),
            ),
        },
    }
}

/// The stack on one edge of a branch on the flag of an iteration step.
pub open spec fn branched(
    id: FunctionTemplateId,
    decoded: DecodedInstruction,
    value: IterationBranchValue,
    taken: bool,
    state: Seq<Slot>,
) -> Result<Seq<Slot>, BytecodeVerificationError> {
    let refused = Err(stack_error(id, decoded, state));
    let top = from_top(state, 0);
    match value {
        IterationBranchValue::ForIn(site) => if top == Some(Slot::ForInKey(site)) {
            Ok(
                retop(
                    state,
                    if taken {
                        Slot::ForInHeadKey(site)
                    } else {
                        Slot::Ordinary
                    },
                ),
            )
        } else {
            refused
        },
        IterationBranchValue::ForOf { site, extras } => if top == Some(Slot::ForOfValue(site)) {
            let record = state.len() - 4 - extras;
            if record_at(RecordKind::Active, state, record) != Some(site) {
                Err(for_of_error(id, decoded))
            } else if taken {
                Ok(retop(state, Slot::ForOfHeadValue(site)))
            } else {
                Ok(
                    retop(
                        state.update(record, Slot::ForOfExhaustedIterator(site)).update(
                            record + 1,
                            Slot::ForOfExhaustedNextMethod(site),
                        ).update(record + 2, Slot::ForOfExhaustedCatch(site)),
                        Slot::Ordinary,
                    ),
                )
            }
        } else {
            refused
        },
        IterationBranchValue::YieldStarDone { site, branch_when_true } => if top == Some(
            Slot::YieldStarIteratorResult(site),
        ) {
            Ok(
                retop(
                    state,
                    if taken == branch_when_true {
                        Slot::YieldStarFinalResult(site)
                    } else {
                        Slot::YieldStarYieldResult(site)
                    },
                ),
            )
        } else {
            refused
        },
        IterationBranchValue::YieldStarMethod { site, kind } => if top == Some(
            Slot::YieldStarCallValue(site, kind),
        ) {
            Ok(
                retop(
                    state,
                    if kind == YieldStarCallKind::Close {
                        Slot::Ordinary
                    } else if !taken {
                        Slot::YieldStarIteratorResult(site)
                    } else if kind == YieldStarCallKind::Throw {
                        Slot::YieldStarResumeValue(site)
                    } else {
                        Slot::Ordinary
                    },
                ),
            )
        } else {
            refused
        },
    }
}

/// The stack on entry of a catch handler: the exception takes the place of the
/// marker.
pub open spec fn catching(
    id: FunctionTemplateId,
    decoded: DecodedInstruction,
    target: InstructionIndex,
    state: Seq<Slot>,
) -> Result<Seq<Slot>, BytecodeVerificationError> {
    match from_top(state, 0) {
        Some(Slot::CatchMarker { site, handler }) => if handler == target {
            Ok(retop(state, Slot::CatchException(site)))
        } else {
            Err(catch_error(id, decoded))
        },
        _ => Err(catch_error(id, decoded)),
    }
}

/// Values that the taken edge of a `with` instruction pushes.
pub open spec fn spec_with_binding_results(opcode: FinalOpcode, taken: bool) -> usize {
    if !taken {
        0
    } else {
        match opcode {
            FinalOpcode::WithGetVar | FinalOpcode::WithDeleteVar => 1,
            FinalOpcode::WithMakeRef | FinalOpcode::WithGetRef => 2,
            _ => 0,
        }
    }
}

/// The stack that an edge carries, from the stack after the instruction.
pub open spec fn edge_stack(
    id: FunctionTemplateId,
    decoded: DecodedInstruction,
    branch_value: Option<IterationBranchValue>,
    edge: EffectiveEdge,
    state: Seq<Slot>,
) -> Result<Seq<Slot>, BytecodeVerificationError> {
    let opcode = decoded.instruction.opcode;
    let entered = if edge.enters_finally {
        entering_finally(id, decoded, edge.target, state)
    } else {
        Ok(state)
    };
    match entered {
        Err(error) => Err(error),
        Ok(entered) => {
            let chosen = match branch_value {
                Some(value) => branched(id, decoded, value, edge.is_branch_target, entered),
                None => Ok(entered),
            };
            match chosen {
                Err(error) => Err(error),
                Ok(chosen) => {
                    let caught = if opcode == FinalOpcode::Catch && edge.is_branch_target {
                        catching(id, decoded, edge.target, chosen)
                    } else {
                        Ok(chosen)
                    };
                    match caught {
                        Err(error) => Err(error),
                        Ok(caught) => Ok(
                            caught + Seq::new(
                                spec_with_binding_results(opcode, edge.is_branch_target) as nat,
                                |i: int| Slot::Ordinary,
                            ),
                        ),
                    }
                },
            }
        },
    }
}

fn apply_branch_value(
    id: FunctionTemplateId,
    decoded: DecodedInstruction,
    value: IterationBranchValue,
    taken: bool,
    state: &mut Vec<Slot>,
) -> (applied: Result<(), BytecodeVerificationError>)
    ensures
        match applied {
            Ok(_) => branched(id, decoded, value, taken, old(state)@) == Ok::<
                Seq<Slot>,
                BytecodeVerificationError,
            >(final(state)@),
            Err(error) => branched(id, decoded, value, taken, old(state)@) == Err::<
                Seq<Slot>,
                BytecodeVerificationError,
            >(error),
        },
{
    let count: usize = state.len();
    let top = match slot_from_top(state, 0) {
        Some(top) => top,
        None => {
            return Err(internal_stack_error(id, decoded, state));
        },
    };
    let replacement = match (value, top) {
        (IterationBranchValue::ForIn(site), Slot::ForInKey(key)) => {
            if key != site {
                return Err(internal_stack_error(id, decoded, state));
            }
            if taken {
                Slot::ForInHeadKey(site)
            } else {
                Slot::Ordinary
            }
        },
        (IterationBranchValue::ForOf { site, extras }, Slot::ForOfValue(found)) => {
            if found != site {
                return Err(internal_stack_error(id, decoded, state));
            }
            if count < 4 || count - 4 < extras {
                return Err(for_of_stack_error(id, decoded));
            }
            let record: usize = count - 4 - extras;
            match find_record(RecordKind::Active, state, record) {
                Some(owner) => {
                    if owner != site {
                        return Err(for_of_stack_error(id, decoded));
                    }
                },
                None => {
                    return Err(for_of_stack_error(id, decoded));
                },
            }
            if taken {
                Slot::ForOfHeadValue(site)
            } else {
                state.set(record, Slot::ForOfExhaustedIterator(site));
                state.set(record + 1, Slot::ForOfExhaustedNextMethod(site));
                state.set(record + 2, Slot::ForOfExhaustedCatch(site));
                Slot::Ordinary
            }
        },
        (
            IterationBranchValue::YieldStarDone { site, branch_when_true },
            Slot::YieldStarIteratorResult(found),
        ) => {
            if found != site {
                return Err(internal_stack_error(id, decoded, state));
            }
            if taken == branch_when_true {
                Slot::YieldStarFinalResult(site)
            } else {
                Slot::YieldStarYieldResult(site)
            }
        },
        (
            IterationBranchValue::YieldStarMethod { site, kind },
            Slot::YieldStarCallValue(found, found_kind),
        ) => {
            if found != site || found_kind != kind {
                return Err(internal_stack_error(id, decoded, state));
            }
            if matches!(kind, YieldStarCallKind::Close) {
                Slot::Ordinary
            } else if !taken {
                Slot::YieldStarIteratorResult(site)
            } else if matches!(kind, YieldStarCallKind::Throw) {
                Slot::YieldStarResumeValue(site)
            } else {
                Slot::Ordinary
            }
        },
        _ => {
            return Err(internal_stack_error(id, decoded, state));
        },
    };
    replace_top(state, replacement);
    Ok(())
}

/// Whether `error` reports that the slots which an edge adds could not be
/// reserved: the return address of a finally subroutine, or the values that the
/// taken edge of a `with` instruction pushes.
pub open spec fn edge_growth_failure(
    id: FunctionTemplateId,
    decoded: DecodedInstruction,
    edge: EffectiveEdge,
    error: BytecodeVerificationError,
) -> bool {
    let results = spec_with_binding_results(decoded.instruction.opcode, edge.is_branch_target);
    (edge.enters_finally && growth_failure(id, 0, 1, error)) || growth_failure(
        id,
        0,
        results as nat,
        error,
    )
}

/// Turns the stack after an instruction into the stack that an edge carries.
pub(crate) fn apply_edge(
    id: FunctionTemplateId,
    decoded: DecodedInstruction,
    branch_value: Option<IterationBranchValue>,
    edge: EffectiveEdge,
    state: &mut Vec<Slot>,
) -> (applied: Result<(), BytecodeVerificationError>)
    ensures
        match applied {
            Ok(_) => edge_stack(id, decoded, branch_value, edge, old(state)@) == Ok::<
                Seq<Slot>,
                BytecodeVerificationError,
            >(final(state)@),
            Err(error) => edge_stack(id, decoded, branch_value, edge, old(state)@) == Err::<
                Seq<Slot>,
                BytecodeVerificationError,
            >(error) || edge_growth_failure(id, decoded, edge, error),
        },
{
    let opcode = decoded.instruction.opcode;
    if edge.enters_finally {
        let original = match slot_from_top(state, 0) {
            Some(top) => match JavaScriptStackValue::from_internal(top) {
                Some(original) => original,
                None => {
                    return Err(finally_stack_error(id, decoded));
                },
            },
            None => {
                return Err(finally_stack_error(id, decoded));
            },
        };
        replace_top(state, Slot::FinallyPending { target: edge.target, original });
        reserve_slots(id, state, 1)?;
        state.push(Slot::FinallyReturn { target: edge.target });
    }
    if let Some(value) = branch_value {
        apply_branch_value(id, decoded, value, edge.is_branch_target, state)?;
    }
    if matches!(opcode, FinalOpcode::Catch) && edge.is_branch_target {
        match slot_from_top(state, 0) {
            Some(Slot::CatchMarker { site, handler }) => {
                if handler != edge.target {
                    return Err(catch_stack_error(id, decoded));
                }
                replace_top(state, Slot::CatchException(site));
            },
            _ => {
                return Err(catch_stack_error(id, decoded));
            },
        }
    }
    let results: usize = if edge.is_branch_target {
        match opcode {
            FinalOpcode::WithGetVar | FinalOpcode::WithDeleteVar => 1,
            FinalOpcode::WithMakeRef | FinalOpcode::WithGetRef => 2,
            _ => 0,
        }
    } else {
        0
    };
    let ghost before = state@;
    if results != 0 {
        reserve_slots(id, state, results)?;
        state.push(Slot::Ordinary);
        if results == 2 {
            state.push(Slot::Ordinary);
        }
    }
    assert(state@ =~= before + Seq::new(results as nat, |i: int| Slot::Ordinary));
    Ok(())
}

/// Turns the stack that an edge carries back into the stack after the
/// instruction, which held `count` slots with `top` above.
pub(crate) fn undo_edge(
    branch_value: Option<IterationBranchValue>,
    count: usize,
    top: Option<Slot>,
    state: &mut Vec<Slot>,
    Ghost(id): Ghost<FunctionTemplateId>,
    Ghost(decoded): Ghost<DecodedInstruction>,
    Ghost(edge): Ghost<EffectiveEdge>,
    Ghost(before): Ghost<Seq<Slot>>,
)
    requires
        edge_stack(id, decoded, branch_value, edge, before) == Ok::<
            Seq<Slot>,
            BytecodeVerificationError,
        >(old(state)@),
        count == before.len(),
        top == from_top(before, 0),
    ensures
        final(state)@ == before,
{
    state.truncate(count);
    if let Some(IterationBranchValue::ForOf { site, extras }) = branch_value {
        let record: usize = count - 4 - extras;
        state.set(record, Slot::ForOfIterator(site));
        state.set(record + 1, Slot::ForOfNextMethod(site));
        state.set(record + 2, Slot::ForOfCatch(site));
    }
    if let Some(top) = top {
        replace_top(state, top);
    }
    assert(state@ =~= before);
}

} // verus!
