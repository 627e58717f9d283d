//! Typed operand-stack transfer of one instruction.
use crate::bytecode::error::BytecodeVerificationError;
use crate::bytecode::internal_stack::{
    CertifiedCatchLocalPut, CertifiedIterationLocalPut, CertifiedNipCatchTransform,
    InternalStackTransfer, InternalStackValue as Slot, IterationBranchValue, RecordKind,
    SlotClass, YieldStarCallKind, any_slot, find_record, forget, holds_class,
    invalidate_internal_value_provenance, record_at,
};
use crate::bytecode::stack_error::{
    catch_error, catch_stack_error, for_in_error, for_in_stack_error, for_of_error,
    for_of_stack_error, growth_failure, internal_stack_error, reserve_slots, stack_error,
};
use crate::control_flow::model::{InstructionIndex, VerifiedInstruction};
use crate::function_graph::FunctionTemplateId;
use crate::instruction::{BytecodePc, DecodedInstruction, Operands};
use crate::opcode::FinalOpcode;
use vstd::prelude::*;

verus! {

/// What a transfer certifies of its instruction.
#[derive(Clone, Copy, Debug, PartialEq, Eq, Hash, Structural)]
pub enum Certification {
    /// Nothing.
    Nothing,
    /// It writes a local from the head of an iteration.
    IterationPut(CertifiedIterationLocalPut),
    /// It writes a local from a catch clause.
    CatchPut(CertifiedCatchLocalPut),
    /// It rearranges the stack as a `nip_catch`.
    NipCatch(CertifiedNipCatchTransform),
    /// It returns from a finally subroutine.
    Ret(InstructionIndex),
}

/// What a transfer does beside changing the stack.
#[derive(Clone, Copy, Debug, PartialEq, Eq, Hash, Structural)]
pub struct StackStep {
    /// How control goes on.
    pub transfer: InternalStackTransfer,
    /// What is certified.
    pub certification: Certification,
}

/// A transfer with the stack it leaves.
pub struct StackOutcome {
    /// The stack after the instruction.
    pub state: Seq<Slot>,
    /// What happens beside.
    pub step: StackStep,
}

/// Outcome of a group of opcodes: none where the group has nothing to say.
pub type GroupOutcome = Result<Option<StackOutcome>, BytecodeVerificationError>;

/// A step that goes on and certifies nothing.
pub open spec fn plain_step() -> StackStep {
    StackStep {
        transfer: InternalStackTransfer {
            normal_completion: true,
            iteration_branch_value: None,
            ret_finalizer: None,
        },
        certification: Certification::Nothing,
    }
}

pub(crate) fn completed() -> (step: StackStep)
    ensures
        step == plain_step(),
{
    StackStep {
        transfer: InternalStackTransfer {
            normal_completion: true,
            iteration_branch_value: None,
            ret_finalizer: None,
        },
        certification: Certification::Nothing,
    }
}

/// A step after which control does not go on.
pub open spec fn dead_step() -> StackStep {
    StackStep {
        transfer: InternalStackTransfer {
            normal_completion: false,
            iteration_branch_value: None,
            ret_finalizer: None,
        },
        certification: Certification::Nothing,
    }
}

pub(crate) fn stopped() -> (step: StackStep)
    ensures
        step == dead_step(),
{
    StackStep {
        transfer: InternalStackTransfer {
            normal_completion: false,
            iteration_branch_value: None,
            ret_finalizer: None,
        },
        certification: Certification::Nothing,
    }
}

/// A step that certifies something.
pub open spec fn certified_step(certification: Certification) -> StackStep {
    StackStep { certification, ..plain_step() }
}

pub(crate) fn certified(certification: Certification) -> (step: StackStep)
    ensures
        step == certified_step(certification),
{
    let mut step = completed();
    step.certification = certification;
    step
}

/// A branch on the flag of an iteration step.
pub open spec fn branch_step(value: IterationBranchValue) -> StackStep {
    StackStep {
        transfer: InternalStackTransfer {
            normal_completion: true,
            iteration_branch_value: Some(value),
            ret_finalizer: None,
        },
        certification: Certification::Nothing,
    }
}

pub(crate) fn branching(value: IterationBranchValue) -> (step: StackStep)
    ensures
        step == branch_step(value),
{
    StackStep {
        transfer: InternalStackTransfer {
            normal_completion: true,
            iteration_branch_value: Some(value),
            ret_finalizer: None,
        },
        certification: Certification::Nothing,
    }
}

/// The group leaves this stack.
pub open spec fn leaves(state: Seq<Slot>, step: StackStep) -> GroupOutcome {
    Ok(Some(StackOutcome { state, step }))
}

/// An executed group agrees with the outcome that is expected of it, but for a
/// failure to reserve the slots by which the stack grows.
pub open spec fn agrees(
    id: FunctionTemplateId,
    expected: GroupOutcome,
    actual: Result<Option<StackStep>, BytecodeVerificationError>,
    before: Seq<Slot>,
    after: Seq<Slot>,
) -> bool {
    match actual {
        Ok(None) => expected == Ok::<Option<StackOutcome>, BytecodeVerificationError>(None)
            && after == before,
        Ok(Some(step)) => expected == leaves(after, step),
        Err(error) => match expected {
            Ok(Some(outcome)) => growth_failure(id, before.len(), outcome.state.len(), error),
            Ok(None) => false,
            Err(refusal) => error == refusal,
        },
    }
}

/// The slot `depth` below the top.
pub open spec fn from_top(state: Seq<Slot>, depth: int) -> Option<Slot> {
    if 0 <= depth < state.len() {
        Some(state[state.len() - 1 - depth])
    } else {
        None
    }
}

pub(crate) fn slot_from_top(state: &[Slot], depth: usize) -> (slot: Option<Slot>)
    ensures
        slot == from_top(state@, depth as int),
{
    if depth < state.len() {
        Some(state[state.len() - 1 - depth])
    } else {
        None
    }
}

/// The stack with its top slot replaced.
pub open spec fn retop(state: Seq<Slot>, slot: Slot) -> Seq<Slot> {
    state.update(state.len() - 1, slot)
}

pub(crate) fn replace_top(state: &mut Vec<Slot>, slot: Slot)
    requires
        old(state)@.len() > 0,
    ensures
        final(state)@ == retop(old(state)@, slot),
{
    let top: usize = state.len() - 1;
    state.set(top, slot);
}

/// Pushes one slot.
pub(crate) fn push_slot(id: FunctionTemplateId, state: &mut Vec<Slot>, slot: Slot) -> (pushed: Result<
    (),
    BytecodeVerificationError,
>)
    ensures
        match pushed {
            Ok(_) => final(state)@ == old(state)@.push(slot),
            Err(error) => growth_failure(id, old(state)@.len(), old(state)@.len() + 1, error),
        },
{
    reserve_slots(id, state, 1)?;
    state.push(slot);
    Ok(())
}

/// Pushes two slots.
pub(crate) fn push_two(id: FunctionTemplateId, state: &mut Vec<Slot>, first: Slot, second: Slot) -> (pushed:
    Result<(), BytecodeVerificationError>)
    ensures
        match pushed {
            Ok(_) => final(state)@ == old(state)@.push(first).push(second),
            Err(error) => growth_failure(id, old(state)@.len(), old(state)@.len() + 2, error),
        },
{
    reserve_slots(id, state, 2)?;
    state.push(first);
    state.push(second);
    Ok(())
}

/// The superclass constructor and its `new.target` at `base`, from one site,
/// below JavaScript arguments only: absent where they are no such pair.
pub open spec fn super_call_result(
    id: FunctionTemplateId,
    decoded: DecodedInstruction,
    state: Seq<Slot>,
    base: int,
) -> GroupOutcome {
    match (state[base], state[base + 1]) {
        (Slot::DerivedSuperConstructor(site), Slot::DerivedSuperNewTarget(target)) => if site
            != target || holds_class(state, base + 2, SlotClass::NotJavaScript) {
            Err(stack_error(id, decoded, state))
        } else {
            leaves(
                state.take(base).push(Slot::DerivedSuperResult(decoded.pc)),
                plain_step(),
            )
        },
        _ => Ok(None),
    }
}

pub(crate) fn transfer_super_call(
    id: FunctionTemplateId,
    decoded: DecodedInstruction,
    state: &mut Vec<Slot>,
    base: usize,
) -> (step: Result<Option<StackStep>, BytecodeVerificationError>)
    requires
        base + 2 <= old(state)@.len(),
    ensures
        agrees(
            id,
            super_call_result(id, decoded, old(state)@, base as int),
            step,
            old(state)@,
            final(state)@,
        ),
{
    let count: usize = state.len();
    assert(base + 2 <= count);
    match (state[base], state[base + 1]) {
        (Slot::DerivedSuperConstructor(site), Slot::DerivedSuperNewTarget(target)) => {
            assert(state@.take(state@.len() as int) =~= state@);
            if site != target || any_slot(
                state,
                base + 2,
                state.len(),
                SlotClass::NotJavaScript,
            ) {
                return Err(internal_stack_error(id, decoded, state));
            }
            state.truncate(base);
            state.push(Slot::DerivedSuperResult(decoded.pc));
            Ok(Some(completed()))
        },
        _ => Ok(None),
    }
}

/// Derived-constructor capabilities: the active constructor, its superclass
/// constructor, `new.target` for it, the `super(..)` call and its checked
/// completion.
pub open spec fn derived_constructor_outcome(
    id: FunctionTemplateId,
    decoded: DecodedInstruction,
    state: Seq<Slot>,
) -> GroupOutcome {
    let operands = decoded.instruction.operands;
    let refused = Err(stack_error(id, decoded, state));
    match decoded.instruction.opcode {
        FinalOpcode::SpecialObject => match operands {
            Operands::U8(selector) => if selector == 4 {
                leaves(state.push(Slot::DerivedActiveConstructor(decoded.pc)), plain_step())
            } else if selector == 3 {
                match from_top(state, 0) {
                    Some(Slot::DerivedSuperConstructor(site)) => leaves(
                        state.push(Slot::DerivedSuperNewTarget(site)),
                        plain_step(),
                    ),
                    _ => Ok(None),
                }
            } else {
                Ok(None)
            },
            _ => refused,
        },
        FinalOpcode::GetSuper => match from_top(state, 0) {
            Some(Slot::DerivedActiveConstructor(_)) => leaves(
                retop(state, Slot::DerivedSuperConstructor(decoded.pc)),
                plain_step(),
            ),
            _ => Ok(None),
        },
        FinalOpcode::CallConstructor => match operands.spec_dynamic_argument_count() {
            None => refused,
            Some(count) => if state.len() < count + 2 {
                refused
            } else {
                super_call_result(id, decoded, state, state.len() - count - 2)
            },
        },
        FinalOpcode::Apply => match operands {
            Operands::U16(mode) => if mode != 2 {
                Ok(None)
            } else if state.len() < 3 {
                refused
            } else {
                match super_call_result(id, decoded, state, state.len() - 3) {
                    Ok(None) => refused,
                    outcome => outcome,
                }
            },
            _ => Ok(None),
        },
        FinalOpcode::CheckCtorReturn => match from_top(state, 0) {
            Some(Slot::DerivedSuperResult(site)) => leaves(
                state.push(Slot::DerivedSuperCompletion(site)),
                plain_step(),
            ),
            _ => refused,
        },
        _ => Ok(None),
    }
}

pub(crate) fn transfer_derived_constructor(
    id: FunctionTemplateId,
    decoded: DecodedInstruction,
    state: &mut Vec<Slot>,
) -> (step: Result<Option<StackStep>, BytecodeVerificationError>)
    ensures
        agrees(
            id,
            derived_constructor_outcome(id, decoded, old(state)@),
            step,
            old(state)@,
            final(state)@,
        ),
{
    let operands = decoded.instruction.operands;
    match decoded.instruction.opcode {
        FinalOpcode::SpecialObject => match operands {
            Operands::U8(selector) => {
                if selector == 4 {
                    push_slot(id, state, Slot::DerivedActiveConstructor(decoded.pc))?;
                    return Ok(Some(completed()));
                }
                if selector == 3 {
                    if let Some(Slot::DerivedSuperConstructor(site)) = slot_from_top(state, 0) {
                        push_slot(id, state, Slot::DerivedSuperNewTarget(site))?;
                        return Ok(Some(completed()));
                    }
                }
                Ok(None)
            },
            _ => Err(internal_stack_error(id, decoded, state)),
        },
        FinalOpcode::GetSuper => match slot_from_top(state, 0) {
            Some(Slot::DerivedActiveConstructor(_)) => {
                replace_top(state, Slot::DerivedSuperConstructor(decoded.pc));
                Ok(Some(completed()))
            },
            _ => Ok(None),
        },
        FinalOpcode::CallConstructor => match operands.dynamic_argument_count() {
            None => Err(internal_stack_error(id, decoded, state)),
            Some(count) => {
                let required: usize = count as usize + 2;
                if state.len() < required {
                    return Err(internal_stack_error(id, decoded, state));
                }
                let base: usize = state.len() - required;
                transfer_super_call(id, decoded, state, base)
            },
        },
        FinalOpcode::Apply => match operands {
            Operands::U16(mode) => {
                if mode != 2 {
                    return Ok(None);
                }
                if state.len() < 3 {
                    return Err(internal_stack_error(id, decoded, state));
                }
                let base: usize = state.len() - 3;
                let step = transfer_super_call(id, decoded, state, base)?;
                if step.is_none() {
                    // Operand mode two is reserved for the proven derived-super
                    // transaction.
                    return Err(internal_stack_error(id, decoded, state));
                }
                Ok(step)
            },
            _ => Ok(None),
        },
        FinalOpcode::CheckCtorReturn => match slot_from_top(state, 0) {
            Some(Slot::DerivedSuperResult(site)) => {
                push_slot(id, state, Slot::DerivedSuperCompletion(site))?;
                Ok(Some(completed()))
            },
            _ => Err(internal_stack_error(id, decoded, state)),
        },
        _ => Ok(None),
    }
}

/// Whether the for-of loop started at `site` is asynchronous, if one starts
/// there.
pub open(crate) spec fn spec_for_of_start_is_async(
    instructions: Seq<VerifiedInstruction>,
    site: BytecodePc,
) -> Option<bool> {
    if exists|i: int| 0 <= i < instructions.len() && (#[trigger] instructions[i]).decoded.pc == site {
        let i = choose|i: int|
            0 <= i < instructions.len() && (#[trigger] instructions[i]).decoded.pc == site;
        match instructions[i].decoded.instruction.opcode {
            FinalOpcode::ForOfStart => Some(false),
            FinalOpcode::ForAwaitOfStart => Some(true),
            _ => None,
        }
    } else {
        None
    }
}

/// The instructions stand in increasing byte order.
pub open(crate) spec fn in_byte_order(instructions: Seq<VerifiedInstruction>) -> bool {
    forall|i: int, j: int|
        0 <= i < j < instructions.len() ==> (#[trigger] instructions[i]).decoded.pc.0 < (
        #[trigger] instructions[j]).decoded.pc.0
}

pub(crate) fn for_of_start_is_async(instructions: &[VerifiedInstruction], site: BytecodePc) -> (asynchronous:
    Option<bool>)
    requires
        in_byte_order(instructions@),
    ensures
        asynchronous == spec_for_of_start_is_async(instructions@, site),
{
    let mut low: usize = 0;
    let mut high: usize = instructions.len();
    while low < high
        invariant
            0 <= low <= high <= instructions@.len(),
            in_byte_order(instructions@),
            forall|i: int| 0 <= i < low ==> (#[trigger] instructions@[i]).decoded.pc.0 < site.0,
            forall|i: int|
                high <= i < instructions@.len() ==> (#[trigger] instructions@[i]).decoded.pc.0
                    > site.0,
        decreases high - low,
    {
        let middle: usize = low + (high - low) / 2;
        let candidate: u32 = instructions[middle].decoded.pc.0;
        if candidate == site.0 {
            proof {
                let i = choose|i: int|
                    0 <= i < instructions@.len() && (#[trigger] instructions@[i]).decoded.pc
                        == site;
                assert(instructions@[middle as int].decoded.pc == site);
                assert(instructions@[i].decoded.pc == site);
                if i < middle {
                    assert(instructions@[i].decoded.pc.0
                        < instructions@[middle as int].decoded.pc.0);
                } else if middle < i {
                    assert(instructions@[middle as int].decoded.pc.0
                        < instructions@[i].decoded.pc.0);
                }
            }
            return match instructions[middle].decoded.instruction.opcode {
                FinalOpcode::ForOfStart => Some(false),
                FinalOpcode::ForAwaitOfStart => Some(true),
                _ => None,
            };
        }
        if candidate < site.0 {
            low = middle + 1;
        } else {
            high = middle;
        }
    }
    None
}

/// Catch regions, enumerations and iteration steps.
pub open(crate) spec fn iteration_outcome(
    id: FunctionTemplateId,
    decoded: DecodedInstruction,
    catch_handler: Option<InstructionIndex>,
    instructions: Seq<VerifiedInstruction>,
    state: Seq<Slot>,
) -> GroupOutcome {
    let pc = decoded.pc;
    let forgotten = forget(state);
    let len = state.len() as int;
    match decoded.instruction.opcode {
        FinalOpcode::Catch => match catch_handler {
            None => Err(catch_error(id, decoded)),
            Some(handler) => leaves(
                forgotten.push(Slot::CatchMarker { site: pc, handler }),
                plain_step(),
            ),
        },
        FinalOpcode::ForInStart => match from_top(forgotten, 0) {
            Some(Slot::Ordinary) => leaves(retop(forgotten, Slot::ForInIterator(pc)), plain_step()),
            _ => Err(for_in_error(id, decoded)),
        },
        FinalOpcode::ForInNext => match from_top(forgotten, 0) {
            Some(Slot::ForInIterator(site)) => leaves(
                forgotten.push(Slot::ForInKey(site)).push(Slot::ForInDone(site)),
                plain_step(),
            ),
            _ => Err(for_in_error(id, decoded)),
        },
        FinalOpcode::ForOfStart | FinalOpcode::ForAwaitOfStart => match from_top(forgotten, 0) {
            Some(Slot::Ordinary) => leaves(
                retop(forgotten, Slot::ForOfIterator(pc)).push(Slot::ForOfNextMethod(pc)).push(
                    Slot::ForOfCatch(pc),
                ),
                plain_step(),
            ),
            _ => Err(for_of_error(id, decoded)),
        },
        FinalOpcode::ForOfNext => match decoded.instruction.operands {
            Operands::U8(offset) => match record_at(
                RecordKind::Active,
                forgotten,
                len - 3 - offset,
            ) {
                Some(site) => if spec_for_of_start_is_async(instructions, site) == Some(false) {
                    leaves(
                        forgotten.push(Slot::ForOfValue(site)).push(Slot::ForOfDone(site)),
                        plain_step(),
                    )
                } else {
                    Err(for_of_error(id, decoded))
                },
                None => Err(for_of_error(id, decoded)),
            },
            _ => Err(for_of_error(id, decoded)),
        },
        FinalOpcode::ForAwaitOfNext => match record_at(RecordKind::Active, forgotten, len - 3) {
            Some(site) => if spec_for_of_start_is_async(instructions, site) == Some(true) {
                leaves(
                    retop(forgotten, Slot::ForOfDisabledCatch(site)).push(
                        Slot::ForOfAwaitResult(site),
                    ),
                    plain_step(),
                )
            } else {
                Err(for_of_error(id, decoded))
            },
            None => Err(for_of_error(id, decoded)),
        },
        FinalOpcode::IteratorGetValueDone => if len < 4 {
            Err(for_of_error(id, decoded))
        } else {
            match (state[len - 4], state[len - 3], state[len - 2], state[len - 1]) {
                (
                    Slot::ForOfIterator(iterator),
                    Slot::ForOfNextMethod(next),
                    Slot::ForOfDisabledCatch(catch),
                    Slot::ForOfAwaitedResult(result),
                ) => if iterator == next && next == catch && catch == result
                    && spec_for_of_start_is_async(instructions, iterator) == Some(true) {
                    leaves(
                        state.update(len - 2, Slot::ForOfCatch(iterator)).update(
                            len - 1,
                            Slot::ForOfValue(iterator),
                        ).push(Slot::ForOfDone(iterator)),
                        plain_step(),
                    )
                } else {
                    Err(for_of_error(id, decoded))
                },
                _ => Err(for_of_error(id, decoded)),
            }
        },
        _ => Ok(None),
    }
}

pub(crate) fn transfer_iteration(
    id: FunctionTemplateId,
    decoded: DecodedInstruction,
    catch_handler: Option<InstructionIndex>,
    instructions: &[VerifiedInstruction],
    state: &mut Vec<Slot>,
) -> (step: Result<Option<StackStep>, BytecodeVerificationError>)
    requires
        in_byte_order(instructions@),
    ensures
        agrees(
            id,
            iteration_outcome(id, decoded, catch_handler, instructions@, old(state)@),
            step,
            old(state)@,
            final(state)@,
        ),
{
    let pc = decoded.pc;
    let count: usize = state.len();
    match decoded.instruction.opcode {
        FinalOpcode::Catch => {
            invalidate_internal_value_provenance(state, count);
            match catch_handler {
                None => Err(catch_stack_error(id, decoded)),
                Some(handler) => {
                    push_slot(id, state, Slot::CatchMarker { site: pc, handler })?;
                    Ok(Some(completed()))
                },
            }
        },
        FinalOpcode::ForInStart => {
            invalidate_internal_value_provenance(state, count);
            match slot_from_top(state, 0) {
                Some(Slot::Ordinary) => {
                    replace_top(state, Slot::ForInIterator(pc));
                    Ok(Some(completed()))
                },
                _ => Err(for_in_stack_error(id, decoded)),
            }
        },
        FinalOpcode::ForInNext => {
            invalidate_internal_value_provenance(state, count);
            match slot_from_top(state, 0) {
                Some(Slot::ForInIterator(site)) => {
                    push_two(id, state, Slot::ForInKey(site), Slot::ForInDone(site))?;
                    Ok(Some(completed()))
                },
                _ => Err(for_in_stack_error(id, decoded)),
            }
        },
        FinalOpcode::ForOfStart | FinalOpcode::ForAwaitOfStart => {
            invalidate_internal_value_provenance(state, count);
            match slot_from_top(state, 0) {
                Some(Slot::Ordinary) => {
                    replace_top(state, Slot::ForOfIterator(pc));
                    push_two(id, state, Slot::ForOfNextMethod(pc), Slot::ForOfCatch(pc))?;
                    Ok(Some(completed()))
                },
                _ => Err(for_of_stack_error(id, decoded)),
            }
        },
        FinalOpcode::ForOfNext => {
            let offset: usize = match decoded.instruction.operands {
                Operands::U8(offset) => offset as usize,
                _ => {
                    return Err(for_of_stack_error(id, decoded));
                },
            };
            invalidate_internal_value_provenance(state, count);
            if count < 3 + offset {
                return Err(for_of_stack_error(id, decoded));
            }
            match find_record(RecordKind::Active, state, count - 3 - offset) {
                Some(site) => {
                    if !matches!(for_of_start_is_async(instructions, site), Some(false)) {
                        return Err(for_of_stack_error(id, decoded));
                    }
                    push_two(id, state, Slot::ForOfValue(site), Slot::ForOfDone(site))?;
                    Ok(Some(completed()))
                },
                None => Err(for_of_stack_error(id, decoded)),
            }
        },
        FinalOpcode::ForAwaitOfNext => {
            invalidate_internal_value_provenance(state, count);
            if count < 3 {
                return Err(for_of_stack_error(id, decoded));
            }
            match find_record(RecordKind::Active, state, count - 3) {
                Some(site) => {
                    if !matches!(for_of_start_is_async(instructions, site), Some(true)) {
                        return Err(for_of_stack_error(id, decoded));
                    }
                    replace_top(state, Slot::ForOfDisabledCatch(site));
                    push_slot(id, state, Slot::ForOfAwaitResult(site))?;
                    Ok(Some(completed()))
                },
                None => Err(for_of_stack_error(id, decoded)),
            }
        },
        FinalOpcode::IteratorGetValueDone => {
            if count < 4 {
                return Err(for_of_stack_error(id, decoded));
            }
            match (state[count - 4], state[count - 3], state[count - 2], state[count - 1]) {
                (
                    Slot::ForOfIterator(iterator),
                    Slot::ForOfNextMethod(next),
                    Slot::ForOfDisabledCatch(catch),
                    Slot::ForOfAwaitedResult(result),
                ) => {
                    if iterator != next || next != catch || catch != result || !matches!(
                        for_of_start_is_async(instructions, iterator),
                        Some(true)
                    ) {
                        return Err(for_of_stack_error(id, decoded));
                    }
                    state.set(count - 2, Slot::ForOfCatch(iterator));
                    state.set(count - 1, Slot::ForOfValue(iterator));
                    push_slot(id, state, Slot::ForOfDone(iterator))?;
                    Ok(Some(completed()))
                },
                _ => Err(for_of_stack_error(id, decoded)),
            }
        },
        _ => Ok(None),
    }
}

/// Whether the stack of a delegation holds its record below the top.
pub open spec fn delegation_below_top(state: Seq<Slot>) -> Option<BytecodePc> {
    record_at(RecordKind::YieldStar, state, state.len() - 4)
}

/// Delegation to another iterator, and awaiting.
pub open spec fn delegation_outcome(
    id: FunctionTemplateId,
    decoded: DecodedInstruction,
    state: Seq<Slot>,
) -> GroupOutcome {
    let top = from_top(state, 0);
    let refused = Err(for_of_error(id, decoded));
    match decoded.instruction.opcode {
        FinalOpcode::Await => match top {
            Some(Slot::ForOfAwaitResult(site)) => leaves(
                retop(state, Slot::ForOfAwaitedResult(site)),
                plain_step(),
            ),
            Some(Slot::YieldStarIteratorResult(_)) => leaves(state, plain_step()),
            _ => Ok(None),
        },
        FinalOpcode::IteratorNext => match delegation_below_top(state) {
            Some(site) => if top.unwrap().spec_is_javascript_value() {
                leaves(retop(state, Slot::YieldStarIteratorResult(site)), plain_step())
            } else {
                refused
            },
            None => refused,
        },
        FinalOpcode::IteratorCheckObject => match top {
            Some(Slot::YieldStarIteratorResult(_))
            | Some(Slot::YieldStarYieldResult(_))
            | Some(Slot::YieldStarFinalResult(_)) => leaves(state, plain_step()),
            _ => Ok(None),
        },
        FinalOpcode::GetField2 => match top {
            Some(Slot::YieldStarIteratorResult(site)) => leaves(
                state.push(Slot::YieldStarDone(site)),
                plain_step(),
            ),
            _ => Ok(None),
        },
        FinalOpcode::GetField => match top {
            Some(Slot::YieldStarYieldResult(site)) => leaves(
                retop(state, Slot::YieldStarYieldValue(site)),
                plain_step(),
            ),
            Some(Slot::YieldStarIteratorResult(_)) | Some(Slot::YieldStarFinalResult(_)) => leaves(
                retop(state, Slot::Ordinary),
                plain_step(),
            ),
            _ => Ok(None),
        },
        FinalOpcode::YieldStar => match top {
            Some(Slot::YieldStarYieldResult(site)) => leaves(
                retop(state, Slot::YieldStarResumeValue(site)).push(
                    Slot::YieldStarResumeMode(site),
                ),
                plain_step(),
            ),
            _ => refused,
        },
        FinalOpcode::AsyncYieldStar => match top {
            Some(Slot::YieldStarYieldValue(site)) => leaves(
                retop(state, Slot::YieldStarResumeValue(site)).push(
                    Slot::YieldStarResumeMode(site),
                ),
                plain_step(),
            ),
            _ => refused,
        },
        FinalOpcode::Dup => match top {
            Some(Slot::YieldStarResumeMode(site)) => leaves(
                state.push(Slot::YieldStarResumeModeTest(site)),
                plain_step(),
            ),
            _ => Ok(None),
        },
        FinalOpcode::Push2 => match top {
            Some(Slot::YieldStarResumeMode(_)) => leaves(
                state.push(Slot::Ordinary),
                plain_step(),
            ),
            _ => Ok(None),
        },
        FinalOpcode::StrictEq => match (from_top(state, 1), top) {
            (Some(Slot::YieldStarResumeMode(site)), Some(Slot::Ordinary)) => leaves(
                retop(state.drop_last(), Slot::YieldStarIsThrow(site)),
                plain_step(),
            ),
            _ => Ok(None),
        },
        FinalOpcode::IteratorCall => match (decoded.instruction.operands, top) {
            (Operands::U8(flags), Some(Slot::YieldStarResumeValue(value_site))) =>
                match delegation_below_top(state) {
                Some(site) => if site == value_site && flags <= 2 {
                    let kind = call_kind(flags);
                    leaves(
                        retop(state, Slot::YieldStarCallValue(site, kind)).push(
                            Slot::YieldStarMethodMissing(site, kind),
                        ),
                        plain_step(),
                    )
                } else {
                    refused
                },
                None => refused,
            },
            _ => refused,
        },
        _ => Ok(None),
    }
}

/// Call of the delegate that the flags ask for.
pub open spec fn call_kind(flags: u8) -> YieldStarCallKind {
    if flags == 0 {
        YieldStarCallKind::Return
    } else if flags == 1 {
        YieldStarCallKind::Throw
    } else {
        YieldStarCallKind::Close
    }
}

pub(crate) fn transfer_delegation(
    id: FunctionTemplateId,
    decoded: DecodedInstruction,
    state: &mut Vec<Slot>,
) -> (step: Result<Option<StackStep>, BytecodeVerificationError>)
    ensures
        agrees(
            id,
            delegation_outcome(id, decoded, old(state)@),
            step,
            old(state)@,
            final(state)@,
        ),
{
    let top = slot_from_top(state, 0);
    let count: usize = state.len();
    match decoded.instruction.opcode {
        FinalOpcode::Await => match top {
            Some(Slot::ForOfAwaitResult(site)) => {
                replace_top(state, Slot::ForOfAwaitedResult(site));
                Ok(Some(completed()))
            },
            Some(Slot::YieldStarIteratorResult(_)) => Ok(Some(completed())),
            _ => Ok(None),
        },
        FinalOpcode::IteratorNext => {
            if count < 4 {
                return Err(for_of_stack_error(id, decoded));
            }
            match find_record(RecordKind::YieldStar, state, count - 4) {
                Some(site) => {
                    if !state[count - 1].is_javascript_value() {
                        return Err(for_of_stack_error(id, decoded));
                    }
                    replace_top(state, Slot::YieldStarIteratorResult(site));
                    Ok(Some(completed()))
                },
                None => Err(for_of_stack_error(id, decoded)),
            }
        },
        FinalOpcode::IteratorCheckObject => match top {
            Some(Slot::YieldStarIteratorResult(_))
            | Some(Slot::YieldStarYieldResult(_))
            | Some(Slot::YieldStarFinalResult(_)) => Ok(Some(completed())),
            _ => Ok(None),
        },
        FinalOpcode::GetField2 => match top {
            Some(Slot::YieldStarIteratorResult(site)) => {
                push_slot(id, state, Slot::YieldStarDone(site))?;
                Ok(Some(completed()))
            },
            _ => Ok(None),
        },
        FinalOpcode::GetField => match top {
            Some(Slot::YieldStarYieldResult(site)) => {
                replace_top(state, Slot::YieldStarYieldValue(site));
                Ok(Some(completed()))
            },
            Some(Slot::YieldStarIteratorResult(_)) | Some(Slot::YieldStarFinalResult(_)) => {
                replace_top(state, Slot::Ordinary);
                Ok(Some(completed()))
            },
            _ => Ok(None),
        },
        FinalOpcode::YieldStar => match top {
            Some(Slot::YieldStarYieldResult(site)) => {
                replace_top(state, Slot::YieldStarResumeValue(site));
                push_slot(id, state, Slot::YieldStarResumeMode(site))?;
                Ok(Some(completed()))
            },
            _ => Err(for_of_stack_error(id, decoded)),
        },
        FinalOpcode::AsyncYieldStar => match top {
            Some(Slot::YieldStarYieldValue(site)) => {
                replace_top(state, Slot::YieldStarResumeValue(site));
                push_slot(id, state, Slot::YieldStarResumeMode(site))?;
                Ok(Some(completed()))
            },
            _ => Err(for_of_stack_error(id, decoded)),
        },
        FinalOpcode::Dup => match top {
            Some(Slot::YieldStarResumeMode(site)) => {
                push_slot(id, state, Slot::YieldStarResumeModeTest(site))?;
                Ok(Some(completed()))
            },
            _ => Ok(None),
        },
        FinalOpcode::Push2 => match top {
            Some(Slot::YieldStarResumeMode(_)) => {
                push_slot(id, state, Slot::Ordinary)?;
                Ok(Some(completed()))
            },
            _ => Ok(None),
        },
        FinalOpcode::StrictEq => match (slot_from_top(state, 1), top) {
            (Some(Slot::YieldStarResumeMode(site)), Some(Slot::Ordinary)) => {
                state.set(count - 2, Slot::YieldStarIsThrow(site));
                state.truncate(count - 1);
                assert(state@ =~= retop(old(state)@.drop_last(), Slot::YieldStarIsThrow(site)));
                Ok(Some(completed()))
            },
            _ => Ok(None),
        },
        FinalOpcode::IteratorCall => match (decoded.instruction.operands, top) {
            (Operands::U8(flags), Some(Slot::YieldStarResumeValue(value_site))) => {
                if count < 4 {
                    return Err(for_of_stack_error(id, decoded));
                }
                match find_record(RecordKind::YieldStar, state, count - 4) {
                    Some(site) => {
                        if site != value_site || flags > 2 {
                            return Err(for_of_stack_error(id, decoded));
                        }
                        let kind = if flags == 0 {
                            YieldStarCallKind::Return
                        } else if flags == 1 {
                            YieldStarCallKind::Throw
                        } else {
                            YieldStarCallKind::Close
                        };
                        replace_top(state, Slot::YieldStarCallValue(site, kind));
                        push_slot(id, state, Slot::YieldStarMethodMissing(site, kind))?;
                        Ok(Some(completed()))
                    },
                    None => Err(for_of_stack_error(id, decoded)),
                }
            },
            _ => Err(for_of_stack_error(id, decoded)),
        },
        _ => Ok(None),
    }
}

} // verus!
