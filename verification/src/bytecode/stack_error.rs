//! Errors of the typed operand-stack analysis and the budgets it charges.
use crate::bytecode::error::{
    BytecodeVerificationError, BytecodeVerificationErrorKind, function_error, graph_error,
};
use crate::bytecode::internal_stack::{
    InternalStackValue, SlotClass, any_slot_of, holds_class,
};
use crate::bytecode::model::{BytecodeGraphResource, BytecodeGraphUsage};
use crate::function_graph::FunctionTemplateId;
use crate::instruction::{BytecodePc, DecodedInstruction};
use crate::opcode::FinalOpcode;
use crate::reserve::reserve_vec_exact;
use vstd::prelude::*;

verus! {

/// Misuse of a finally marker.
pub open spec fn finally_error(
    id: FunctionTemplateId,
    decoded: DecodedInstruction,
) -> BytecodeVerificationError {
    function_error(
        id,
        BytecodeVerificationErrorKind::FinallyReturnStackMismatch {
            pc: decoded.pc,
            opcode: decoded.instruction.opcode,
        },
    )
}

pub(crate) fn finally_stack_error(id: FunctionTemplateId, decoded: DecodedInstruction) -> (error:
    BytecodeVerificationError)
    ensures
        error == finally_error(id, decoded),
{
    BytecodeVerificationError::function(
        id,
        BytecodeVerificationErrorKind::FinallyReturnStackMismatch {
            pc: decoded.pc,
            opcode: decoded.instruction.opcode,
        },
    )
}

/// Misuse of a catch marker.
pub open spec fn catch_error(
    id: FunctionTemplateId,
    decoded: DecodedInstruction,
) -> BytecodeVerificationError {
    function_error(
        id,
        BytecodeVerificationErrorKind::CatchMarkerStackMismatch {
            pc: decoded.pc,
            opcode: decoded.instruction.opcode,
        },
    )
}

pub(crate) fn catch_stack_error(id: FunctionTemplateId, decoded: DecodedInstruction) -> (error:
    BytecodeVerificationError)
    ensures
        error == catch_error(id, decoded),
{
    BytecodeVerificationError::function(
        id,
        BytecodeVerificationErrorKind::CatchMarkerStackMismatch {
            pc: decoded.pc,
            opcode: decoded.instruction.opcode,
        },
    )
}

/// Misuse of a for-in marker.
pub open spec fn for_in_error(
    id: FunctionTemplateId,
    decoded: DecodedInstruction,
) -> BytecodeVerificationError {
    function_error(
        id,
        BytecodeVerificationErrorKind::ForInIteratorStackMismatch {
            pc: decoded.pc,
            opcode: decoded.instruction.opcode,
        },
    )
}

pub(crate) fn for_in_stack_error(id: FunctionTemplateId, decoded: DecodedInstruction) -> (error:
    BytecodeVerificationError)
    ensures
        error == for_in_error(id, decoded),
{
    BytecodeVerificationError::function(
        id,
        BytecodeVerificationErrorKind::ForInIteratorStackMismatch {
            pc: decoded.pc,
            opcode: decoded.instruction.opcode,
        },
    )
}

/// Misuse of a for-of marker.
pub open spec fn for_of_error(
    id: FunctionTemplateId,
    decoded: DecodedInstruction,
) -> BytecodeVerificationError {
    function_error(
        id,
        BytecodeVerificationErrorKind::ForOfIteratorStackMismatch {
            pc: decoded.pc,
            opcode: decoded.instruction.opcode,
        },
    )
}

pub(crate) fn for_of_stack_error(id: FunctionTemplateId, decoded: DecodedInstruction) -> (error:
    BytecodeVerificationError)
    ensures
        error == for_of_error(id, decoded),
{
    BytecodeVerificationError::function(
        id,
        BytecodeVerificationErrorKind::ForOfIteratorStackMismatch {
            pc: decoded.pc,
            opcode: decoded.instruction.opcode,
        },
    )
}

/// Misuse of whatever markers the stack holds: finally markers first, then
/// for-of, then catch, then for-in.
pub open spec fn stack_error(
    id: FunctionTemplateId,
    decoded: DecodedInstruction,
    state: Seq<InternalStackValue>,
) -> BytecodeVerificationError {
    let opcode = decoded.instruction.opcode;
    if opcode == FinalOpcode::Gosub || opcode == FinalOpcode::Ret || holds_class(
        state,
        0,
        SlotClass::Finally,
    ) {
        finally_error(id, decoded)
    } else if is_for_of_opcode(opcode) || holds_class(state, 0, SlotClass::ForOf) {
        for_of_error(id, decoded)
    } else if opcode == FinalOpcode::Catch || opcode == FinalOpcode::NipCatch || holds_class(
        state,
        0,
        SlotClass::Catch,
    ) {
        catch_error(id, decoded)
    } else {
        for_in_error(id, decoded)
    }
}

/// Opcodes that work on a for-of record.
pub open spec fn is_for_of_opcode(opcode: FinalOpcode) -> bool {
    match opcode {
        FinalOpcode::ForOfStart
        | FinalOpcode::ForAwaitOfStart
        | FinalOpcode::ForOfNext
        | FinalOpcode::ForAwaitOfNext
        | FinalOpcode::IteratorGetValueDone
        | FinalOpcode::IteratorClose
        | FinalOpcode::Rot3r => true,
        _ => false,
    }
}

pub(crate) fn internal_stack_error(
    id: FunctionTemplateId,
    decoded: DecodedInstruction,
    state: &[InternalStackValue],
) -> (error: BytecodeVerificationError)
    ensures
        error == stack_error(id, decoded, state@),
{
    let opcode = decoded.instruction.opcode;
    if matches!(opcode, FinalOpcode::Gosub | FinalOpcode::Ret) || any_slot_of(
        state,
        SlotClass::Finally,
    ) {
        finally_stack_error(id, decoded)
    } else if matches!(
        opcode,
        FinalOpcode::ForOfStart
        | FinalOpcode::ForAwaitOfStart
        | FinalOpcode::ForOfNext
        | FinalOpcode::ForAwaitOfNext
        | FinalOpcode::IteratorGetValueDone
        | FinalOpcode::IteratorClose
        | FinalOpcode::Rot3r
    ) || any_slot_of(state, SlotClass::ForOf) {
        for_of_stack_error(id, decoded)
    } else if matches!(opcode, FinalOpcode::Catch | FinalOpcode::NipCatch) || any_slot_of(
        state,
        SlotClass::Catch,
    ) {
        catch_stack_error(id, decoded)
    } else {
        for_in_stack_error(id, decoded)
    }
}

/// Disagreement of two stacks where edges meet, named after the markers that
/// either of them holds.
pub open spec fn join_error(
    id: FunctionTemplateId,
    target: BytecodePc,
    incoming_from: BytecodePc,
    established: Seq<InternalStackValue>,
    incoming: Seq<InternalStackValue>,
) -> BytecodeVerificationError {
    let either = |class: SlotClass|
        holds_class(established, 0, class) || holds_class(incoming, 0, class);
    function_error(
        id,
        if either(SlotClass::Finally) {
            BytecodeVerificationErrorKind::FinallyReturnJoinMismatch { target, incoming_from }
        } else if either(SlotClass::ForOf) {
            BytecodeVerificationErrorKind::ForOfIteratorJoinMismatch { target, incoming_from }
        } else if either(SlotClass::Catch) {
            BytecodeVerificationErrorKind::CatchMarkerJoinMismatch { target, incoming_from }
        } else {
            BytecodeVerificationErrorKind::ForInIteratorJoinMismatch { target, incoming_from }
        },
    )
}

pub(crate) fn internal_join_error(
    id: FunctionTemplateId,
    target: BytecodePc,
    incoming_from: BytecodePc,
    established: &[InternalStackValue],
    incoming: &[InternalStackValue],
) -> (error: BytecodeVerificationError)
    ensures
        error == join_error(id, target, incoming_from, established@, incoming@),
{
    let kind = if any_slot_of(established, SlotClass::Finally) || any_slot_of(
        incoming,
        SlotClass::Finally,
    ) {
        BytecodeVerificationErrorKind::FinallyReturnJoinMismatch { target, incoming_from }
    } else if any_slot_of(established, SlotClass::ForOf) || any_slot_of(
        incoming,
        SlotClass::ForOf,
    ) {
        BytecodeVerificationErrorKind::ForOfIteratorJoinMismatch { target, incoming_from }
    } else if any_slot_of(established, SlotClass::Catch) || any_slot_of(
        incoming,
        SlotClass::Catch,
    ) {
        BytecodeVerificationErrorKind::CatchMarkerJoinMismatch { target, incoming_from }
    } else {
        BytecodeVerificationErrorKind::ForInIteratorJoinMismatch { target, incoming_from }
    };
    BytecodeVerificationError::function(id, kind)
}

/// Failure to reserve `requested` entries of `resource` for a function.
pub open spec fn reservation_failure(
    id: FunctionTemplateId,
    resource: BytecodeGraphResource,
    requested: u64,
) -> BytecodeVerificationError {
    function_error(
        id,
        BytecodeVerificationErrorKind::AllocationFailed { resource, requested },
    )
}

/// Whether `error` reports that a table of an analysis, with an entry for each
/// instruction of a function, could not be reserved.
pub open spec fn tables_failure(
    id: FunctionTemplateId,
    instructions: nat,
    error: BytecodeVerificationError,
) -> bool {
    ||| error == reservation_failure(
        id,
        BytecodeGraphResource::FrameStateEntries,
        instructions as u64,
    )
    ||| error == reservation_failure(
        id,
        BytecodeGraphResource::PolicyTransfers,
        instructions as u64,
    )
}

/// Whether `error` reports that the tables of a function's initializers could
/// not be reserved: one entry for each definition or instruction.
pub open spec fn initializer_failure(
    id: FunctionTemplateId,
    definitions: nat,
    instructions: nat,
    error: BytecodeVerificationError,
) -> bool {
    ||| error == reservation_failure(
        id,
        BytecodeGraphResource::VariableDefinitions,
        definitions as u64,
    )
    ||| error == reservation_failure(
        id,
        BytecodeGraphResource::SourceMappings,
        instructions as u64,
    )
}

/// Whether `error` reports that the tables of realm-global initializers could
/// not be reserved: one entry for each closure or instruction.
pub open spec fn global_initializer_failure(
    id: FunctionTemplateId,
    closures: nat,
    instructions: nat,
    error: BytecodeVerificationError,
) -> bool {
    ||| error == reservation_failure(
        id,
        BytecodeGraphResource::ClosureDefinitions,
        closures as u64,
    )
    ||| error == reservation_failure(
        id,
        BytecodeGraphResource::SourceMappings,
        instructions as u64,
    )
}

/// Slots that are reserved where a stack grows to another.
pub open spec fn reserved_slots(before: nat, after: nat) -> nat {
    if after > before {
        (after - before) as nat
    } else {
        0
    }
}

/// Whether `error` reports that the slots by which a stack grows could not be
/// reserved. A stack that does not grow needs none.
pub open spec fn growth_failure(
    id: FunctionTemplateId,
    before: nat,
    after: nat,
    error: BytecodeVerificationError,
) -> bool {
    let slots = reserved_slots(before, after);
    slots > 0 && error == reservation_failure(
        id,
        BytecodeGraphResource::FrameStateEntries,
        slots as u64,
    )
}

pub(crate) fn allocation_error(
    id: FunctionTemplateId,
    resource: BytecodeGraphResource,
    requested: usize,
) -> (error: BytecodeVerificationError)
    ensures
        error == reservation_failure(id, resource, requested as u64),
{
    let error = BytecodeVerificationError::function(
        id,
        BytecodeVerificationErrorKind::AllocationFailed { resource, requested: requested as u64 },
    );
    assert(error == reservation_failure(id, resource, requested as u64));
    error
}

/// Reserves room for `additional` stack slots.
pub(crate) fn reserve_slots<T>(
    id: FunctionTemplateId,
    state: &mut Vec<T>,
    additional: usize,
) -> (reserved: Result<(), BytecodeVerificationError>)
    ensures
        final(state)@ == old(state)@,
        match reserved {
            Ok(_) => true,
            Err(error) => error == reservation_failure(
                id,
                BytecodeGraphResource::FrameStateEntries,
                additional as u64,
            ),
        },
{
    if state.try_reserve(additional).is_err() {
        return Err(
            allocation_error(id, BytecodeGraphResource::FrameStateEntries, additional),
        );
    }
    Ok(())
}

/// Returns a vector of `length` copies of `value`.
pub(crate) fn try_filled_vec<T: Copy>(
    id: FunctionTemplateId,
    length: usize,
    value: T,
    resource: BytecodeGraphResource,
) -> (filled: Result<Vec<T>, BytecodeVerificationError>)
    ensures
        match filled {
            Ok(filled) => filled@ == Seq::new(length as nat, |i: int| value),
            Err(error) => error == reservation_failure(id, resource, length as u64),
        },
{
    let mut output: Vec<T> = Vec::new();
    if reserve_vec_exact(&mut output, length).is_err() {
        return Err(allocation_error(id, resource, length));
    }
    let mut i: usize = 0;
    while i < length
        invariant
            i <= length,
            output@ == Seq::new(i as nat, |j: int| value),
        decreases length - i,
    {
        output.push(value);
        i = i + 1;
        assert(output@ =~= Seq::new(i as nat, |j: int| value));
    }
    Ok(output)
}

/// Returns a copy of `input`.
pub(crate) fn try_copy_slice<T: Copy>(
    id: FunctionTemplateId,
    input: &[T],
    resource: BytecodeGraphResource,
) -> (copy: Result<Vec<T>, BytecodeVerificationError>)
    ensures
        match copy {
            Ok(copy) => copy@ == input@,
            Err(error) => error == reservation_failure(id, resource, input@.len() as u64),
        },
{
    let mut output: Vec<T> = Vec::new();
    if reserve_vec_exact(&mut output, input.len()).is_err() {
        return Err(allocation_error(id, resource, input.len()));
    }
    let mut i: usize = 0;
    while i < input.len()
        invariant
            i <= input@.len(),
            output@ == input@.take(i as int),
        decreases input@.len() - i,
    {
        output.push(input[i]);
        i = i + 1;
        assert(output@ =~= input@.take(i as int));
    }
    assert(input@.take(i as int) =~= input@);
    Ok(output)
}

/// A budget after `amount` more was charged to it.
pub open spec fn charged(
    total: u64,
    amount: u64,
    limit: u64,
    resource: BytecodeGraphResource,
) -> Result<u64, BytecodeVerificationErrorKind> {
    if total + amount > u64::MAX {
        Err(
            BytecodeVerificationErrorKind::LimitExceeded { resource, limit, observed: u64::MAX },
        )
    } else if total + amount > limit {
        Err(
            BytecodeVerificationErrorKind::LimitExceeded {
                resource,
                limit,
                observed: (total + amount) as u64,
            },
        )
    } else {
        Ok((total + amount) as u64)
    }
}

/// Charges `amount` to a graph-wide budget.
pub(crate) fn charge(
    total: &mut u64,
    amount: u64,
    limit: u64,
    resource: BytecodeGraphResource,
) -> (outcome: Result<(), BytecodeVerificationError>)
    ensures
        match charged(*old(total), amount, limit, resource) {
            Ok(sum) => outcome.is_ok() && *final(total) == sum,
            Err(kind) => outcome == Err::<(), BytecodeVerificationError>(graph_error(kind)),
        },
{
    match total.checked_add(amount) {
        None => Err(
            BytecodeVerificationError::graph(
                BytecodeVerificationErrorKind::LimitExceeded {
                    resource,
                    limit,
                    observed: u64::MAX,
                },
            ),
        ),
        Some(sum) => {
            *total = sum;
            if sum > limit {
                return Err(
                    BytecodeVerificationError::graph(
                        BytecodeVerificationErrorKind::LimitExceeded {
                            resource,
                            limit,
                            observed: sum,
                        },
                    ),
                );
            }
            Ok(())
        },
    }
}

/// A successful charge stays within its limit and never lowers the total.
pub proof fn lemma_charge_is_monotone_and_limited(
    total: u64,
    amount: u64,
    limit: u64,
    resource: BytecodeGraphResource,
)
    ensures
        match charged(total, amount, limit, resource) {
            Ok(sum) => total <= sum <= limit && sum == total + amount,
            Err(_) => total + amount > limit || total + amount > u64::MAX,
        },
{
}

/// Usage after `amount` more frame-state entries.
pub open spec fn charged_frame_state(
    id: FunctionTemplateId,
    usage: BytecodeGraphUsage,
    amount: nat,
    limit: u64,
) -> Result<BytecodeGraphUsage, BytecodeVerificationError> {
    match charged(
        usage.frame_state_entries,
        amount as u64,
        limit,
        BytecodeGraphResource::FrameStateEntries,
    ) {
        Ok(sum) => Ok(BytecodeGraphUsage { frame_state_entries: sum, ..usage }),
        Err(kind) => Err(function_error(id, kind)),
    }
}

/// Charges `amount` frame-state entries of a function.
pub(crate) fn charge_frame_state_entries(
    id: FunctionTemplateId,
    usage: &mut BytecodeGraphUsage,
    amount: usize,
    limit: u64,
) -> (outcome: Result<(), BytecodeVerificationError>)
    ensures
        match charged_frame_state(id, *old(usage), amount as nat, limit) {
            Ok(next) => outcome.is_ok() && *final(usage) == next,
            Err(error) => outcome == Err::<(), BytecodeVerificationError>(error)
                && *final(usage) == *old(usage),
        },
{
    let observed = match usage.frame_state_entries.checked_add(amount as u64) {
        Some(observed) => observed,
        None => {
            return Err(
                BytecodeVerificationError::function(
                    id,
                    BytecodeVerificationErrorKind::LimitExceeded {
                        resource: BytecodeGraphResource::FrameStateEntries,
                        limit,
                        observed: u64::MAX,
                    },
                ),
            );
        },
    };
    if observed > limit {
        return Err(
            BytecodeVerificationError::function(
                id,
                BytecodeVerificationErrorKind::LimitExceeded {
                    resource: BytecodeGraphResource::FrameStateEntries,
                    limit,
                    observed,
                },
            ),
        );
    }
    usage.frame_state_entries = observed;
    Ok(())
}

/// Transfers of one pass after `amount` more, on top of `base` charged before.
pub open spec fn charged_transfers(
    id: FunctionTemplateId,
    evaluations: u64,
    amount: u64,
    base: u64,
    limit: u64,
) -> Result<u64, BytecodeVerificationError> {
    let exceeded = |observed: u64|
        function_error(
            id,
            BytecodeVerificationErrorKind::LimitExceeded {
                resource: BytecodeGraphResource::PolicyTransfers,
                limit,
                observed,
            },
        );
    if evaluations + amount > u64::MAX || base + evaluations + amount > u64::MAX {
        Err(exceeded(u64::MAX))
    } else if base + evaluations + amount > limit {
        Err(exceeded((base + evaluations + amount) as u64))
    } else {
        Ok((evaluations + amount) as u64)
    }
}

/// Charges `amount` transfers of one pass of a function.
pub(crate) fn charge_policy_transfers(
    id: FunctionTemplateId,
    evaluations: &mut u64,
    amount: u64,
    base: u64,
    limit: u64,
) -> (outcome: Result<(), BytecodeVerificationError>)
    ensures
        match charged_transfers(id, *old(evaluations), amount, base, limit) {
            Ok(next) => outcome.is_ok() && *final(evaluations) == next,
            Err(error) => outcome == Err::<(), BytecodeVerificationError>(error),
        },
{
    let next = match evaluations.checked_add(amount) {
        Some(next) => next,
        None => {
            return Err(transfer_limit_error(id, limit, u64::MAX));
        },
    };
    let observed = match base.checked_add(next) {
        Some(observed) => observed,
        None => {
            return Err(transfer_limit_error(id, limit, u64::MAX));
        },
    };
    if observed > limit {
        return Err(transfer_limit_error(id, limit, observed));
    }
    *evaluations = next;
    Ok(())
}

fn transfer_limit_error(id: FunctionTemplateId, limit: u64, observed: u64) -> (error:
    BytecodeVerificationError)
    ensures
        error == function_error(
            id,
            BytecodeVerificationErrorKind::LimitExceeded {
                resource: BytecodeGraphResource::PolicyTransfers,
                limit,
                observed,
            },
        ),
{
    BytecodeVerificationError::function(
        id,
        BytecodeVerificationErrorKind::LimitExceeded {
            resource: BytecodeGraphResource::PolicyTransfers,
            limit,
            observed,
        },
    )
}

} // verus!
