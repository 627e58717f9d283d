//! Propagation of typed operand stacks over edges, and their exits.
use crate::bytecode::error::{
    BytecodeVerificationError, BytecodeVerificationErrorKind, function_error,
};
use crate::bytecode::internal_stack::{
    InternalStackValue as Slot, RecordKind, SlotClass, any_slot, any_slot_of, find_record,
    holds_class, record_at,
};
use crate::bytecode::internal_transfer::{from_top, slot_from_top};
use crate::bytecode::model::{BytecodeGraphResource, BytecodeGraphUsage};
use crate::bytecode::stack_error::{
    catch_error, catch_stack_error, charge_frame_state_entries, charged_frame_state,
    finally_error, finally_stack_error, for_in_error, for_in_stack_error, for_of_error,
    for_of_stack_error, internal_join_error, join_error, reservation_failure, try_copy_slice,
};
use crate::control_flow::model::InstructionIndex;
use crate::function_graph::FunctionTemplateId;
use crate::instruction::{BytecodePc, DecodedInstruction};
use crate::opcode::FinalOpcode;
use std::collections::VecDeque;
use vstd::prelude::*;

verus! {

/// State of the for-of record on top of a stack.
#[derive(Clone, Copy, Debug, PartialEq, Eq, Hash, Structural)]
pub enum ForOfRecordState {
    /// Not exhausted.
    Active,
    /// Exhausted.
    Exhausted,
    /// Either.
    Closable,
}

/// What is special about the target of an edge.
#[derive(Clone, Copy, Debug, PartialEq, Eq, Hash, Structural)]
pub struct InternalStackTarget {
    /// It starts a catch handler.
    pub catch_handler: bool,
    /// It starts a finally subroutine.
    pub finally_entry: bool,
    /// It closes an iterator.
    pub iterator_close: bool,
}

/// Site and state of the for-of record on top of a stack.
pub open spec fn trailing_record(state: Seq<Slot>) -> Option<(BytecodePc, ForOfRecordState)> {
    let base = state.len() - 3;
    match record_at(RecordKind::Active, state, base) {
        Some(site) => Some((site, ForOfRecordState::Active)),
        None => match record_at(RecordKind::Exhausted, state, base) {
            Some(site) => Some((site, ForOfRecordState::Exhausted)),
            None => match record_at(RecordKind::Closable, state, base) {
                Some(site) => Some((site, ForOfRecordState::Closable)),
                None => None,
            },
        },
    }
}

fn trailing_for_of_record(state: &[Slot]) -> (record: Option<(BytecodePc, ForOfRecordState)>)
    ensures
        record == trailing_record(state@),
{
    if state.len() < 3 {
        return None;
    }
    let base: usize = state.len() - 3;
    if let Some(site) = find_record(RecordKind::Active, state, base) {
        return Some((site, ForOfRecordState::Active));
    }
    if let Some(site) = find_record(RecordKind::Exhausted, state, base) {
        return Some((site, ForOfRecordState::Exhausted));
    }
    match find_record(RecordKind::Closable, state, base) {
        Some(site) => Some((site, ForOfRecordState::Closable)),
        None => None,
    }
}

/// The stack with its trailing record made closable.
pub open spec fn with_closable_record(state: Seq<Slot>, site: BytecodePc) -> Seq<Slot> {
    state.take(state.len() - 3).push(Slot::ForOfClosableIterator(site)).push(
        Slot::ForOfClosableNextMethod(site),
    ).push(Slot::ForOfClosableCatch(site))
}

/// Merge of two stacks that differ only in the state of one trailing record:
/// the record becomes closable. The flag says whether the established stack
/// changes.
pub open spec fn merged_close_record(established: Seq<Slot>, incoming: Seq<Slot>) -> Option<
    (Seq<Slot>, bool),
> {
    if established.len() != incoming.len() {
        None
    } else {
        match (trailing_record(established), trailing_record(incoming)) {
            (Some((site, before)), Some((incoming_site, after))) => if site != incoming_site
                || established.take(established.len() - 3) != incoming.take(incoming.len() - 3) {
                None
            } else if before == ForOfRecordState::Closable || after == ForOfRecordState::Closable
                || before != after {
                Some(
                    (
                        with_closable_record(established, site),
                        before != ForOfRecordState::Closable,
                    ),
                )
            } else {
                None
            },
            _ => None,
        }
    }
}

fn same_slots(left: &[Slot], right: &[Slot], count: usize) -> (same: bool)
    requires
        count <= left@.len(),
        count <= right@.len(),
    ensures
        same == (left@.take(count as int) == right@.take(count as int)),
{
    let mut i: usize = 0;
    while i < count
        invariant
            i <= count,
            count <= left@.len(),
            count <= right@.len(),
            forall|j: int| 0 <= j < i ==> left@[j] == right@[j],
        decreases count - i,
    {
        if left[i] != right[i] {
            assert(left@.take(count as int)[i as int] != right@.take(count as int)[i as int]);
            return false;
        }
        i = i + 1;
    }
    assert(left@.take(count as int) =~= right@.take(count as int));
    true
}

fn equal_stacks(left: &[Slot], right: &[Slot]) -> (equal: bool)
    ensures
        equal == (left@ == right@),
{
    if left.len() != right.len() {
        return false;
    }
    assert(left@.take(left@.len() as int) =~= left@);
    assert(right@.take(right@.len() as int) =~= right@);
    same_slots(left, right, left.len())
}

fn merge_trailing_for_of_close_record(established: &mut Vec<Slot>, incoming: &[Slot]) -> (merged:
    Option<bool>)
    ensures
        match merged {
            Some(changed) => merged_close_record(old(established)@, incoming@) == Some(
                (final(established)@, changed),
            ),
            None => merged_close_record(old(established)@, incoming@).is_none()
                && final(established)@ == old(established)@,
        },
{
    if established.len() != incoming.len() {
        return None;
    }
    let (site, before) = match trailing_for_of_record(established) {
        Some(record) => record,
        None => {
            return None;
        },
    };
    let (incoming_site, after) = match trailing_for_of_record(incoming) {
        Some(record) => record,
        None => {
            return None;
        },
    };
    let base: usize = established.len() - 3;
    if site != incoming_site || !same_slots(established, incoming, base) {
        return None;
    }
    if before != ForOfRecordState::Closable && after != ForOfRecordState::Closable && before
        == after {
        return None;
    }
    let changed: bool = before != ForOfRecordState::Closable;
    established.set(base, Slot::ForOfClosableIterator(site));
    established.set(base + 1, Slot::ForOfClosableNextMethod(site));
    established.set(base + 2, Slot::ForOfClosableCatch(site));
    assert(established@ =~= with_closable_record(old(established)@, site));
    Some(changed)
}

/// State of the typed-stack analysis that edges change.
pub struct EdgeState {
    /// Stack on entry of each visited instruction.
    pub entries: Seq<Option<Seq<Slot>>>,
    /// Seed from which each visited instruction was reached first.
    pub components: Seq<Option<u32>>,
    /// Whether each instruction is queued.
    pub queued: Seq<bool>,
    /// Queued instructions, oldest first.
    pub work: Seq<usize>,
    /// Charged resources.
    pub usage: BytecodeGraphUsage,
}

/// The stacks behind optional vectors.
pub open spec fn stacks_of(entries: Seq<Option<Vec<Slot>>>) -> Seq<Option<Seq<Slot>>> {
    entries.map_values(
        |entry: Option<Vec<Slot>>|
            match entry {
                Some(stack) => Some(stack@),
                None => None,
            },
    )
}

/// Whether an edge only closes a retained but unreachable loop around an
/// already verified finally subroutine.
pub open spec fn is_inert_edge(
    index: int,
    component: u32,
    target: InternalStackTarget,
    enters_finally: bool,
    output: Seq<Slot>,
    components: Seq<Option<u32>>,
) -> bool {
    &&& target.finally_entry
    &&& !enters_finally
    &&& !target.catch_handler
    &&& index < components.len()
    &&& components[index].is_some()
    &&& components[index] != Some(component)
    &&& !holds_class(output, 0, SlotClass::NotOrdinary)
}

fn is_inert_disconnected_finalizer_edge(
    index: usize,
    component: u32,
    target: InternalStackTarget,
    enters_finally: bool,
    output: &[Slot],
    components: &[Option<u32>],
) -> (inert: bool)
    ensures
        inert == is_inert_edge(
            index as int,
            component,
            target,
            enters_finally,
            output@,
            components@,
        ),
{
    if !target.finally_entry || enters_finally || target.catch_handler || index
        >= components.len() {
        return false;
    }
    match components[index] {
        None => false,
        Some(established) => established != component && !any_slot_of(
            output,
            SlotClass::NotOrdinary,
        ),
    }
}

/// Whether the top two slots are the pair of the finally subroutine at
/// `successor`.
pub open spec fn has_targeted_pair(output: Seq<Slot>, successor: InstructionIndex) -> bool {
    match (from_top(output, 1), from_top(output, 0)) {
        (Some(Slot::FinallyPending { target: pending, .. }), Some(Slot::FinallyReturn { target })) => pending
            == successor && target == successor,
        _ => false,
    }
}

fn has_targeted_finalizer_pair(output: &[Slot], successor: InstructionIndex) -> (found: bool)
    ensures
        found == has_targeted_pair(output@, successor),
{
    match (slot_from_top(output, 1), slot_from_top(output, 0)) {
        (Some(Slot::FinallyPending { target: pending, .. }), Some(Slot::FinallyReturn { target })) => pending
            == successor && target == successor,
        _ => false,
    }
}

/// Everything about one edge.
pub struct EdgeFacts {
    /// Offset of the instruction that the edge leaves.
    pub source_pc: BytecodePc,
    /// Instruction that the edge reaches.
    pub successor: InstructionIndex,
    /// Offset of that instruction.
    pub target_pc: BytecodePc,
    /// Seed of the leaving instruction.
    pub component: u32,
    /// What is special about the target.
    pub target: InternalStackTarget,
    /// Whether the edge enters a finally subroutine.
    pub enters_finally: bool,
}

/// The instruction queued, unless it already is.
pub open spec fn enqueued(state: EdgeState, index: int) -> EdgeState {
    if state.queued[index] {
        state
    } else {
        EdgeState {
            queued: state.queued.update(index, true),
            work: state.work.push(index as usize),
            ..state
        }
    }
}

/// Propagation of a stack over one edge.
///
/// A finally subroutine may be entered only with its own pair on top, and
/// nothing else may be entered by such an edge. A first visit records the
/// stack; a later one must agree, or differ only in the state of a record that
/// the target closes. From another seed nothing is recorded, and markers may
/// not differ.
pub open spec fn propagated_stack(
    id: FunctionTemplateId,
    edge: EdgeFacts,
    output: Seq<Slot>,
    state: EdgeState,
    state_limit: u64,
) -> Result<EdgeState, BytecodeVerificationError> {
    let index = edge.successor.spec_get() as int;
    let finally_mismatch = Err(
        function_error(
            id,
            BytecodeVerificationErrorKind::FinallyReturnJoinMismatch {
                target: edge.target_pc,
                incoming_from: edge.source_pc,
            },
        ),
    );
    if is_inert_edge(
        index,
        edge.component,
        edge.target,
        edge.enters_finally,
        output,
        state.components,
    ) {
        Ok(state)
    } else if edge.target.finally_entry && !has_targeted_pair(output, edge.successor) {
        finally_mismatch
    } else if !edge.target.finally_entry && edge.enters_finally {
        finally_mismatch
    } else if state.components[index].is_some() && state.components[index] != Some(
        edge.component,
    ) {
        match state.entries[index] {
            None => Err(join_error(id, edge.target_pc, edge.source_pc, output, Seq::empty())),
            Some(existing) => {
                let prefix = if edge.target.finally_entry && edge.enters_finally {
                    output.take(output.len() - 2)
                } else {
                    output
                };
                if existing != output && (edge.target.catch_handler || holds_class(
                    prefix,
                    0,
                    SlotClass::NotOrdinary,
                )) {
                    Err(join_error(id, edge.target_pc, edge.source_pc, existing, output))
                } else {
                    Ok(state)
                }
            },
        }
    } else {
        let claimed = EdgeState {
            components: state.components.update(index, Some(edge.component)),
            ..state
        };
        match state.entries[index] {
            None => match charged_frame_state(id, state.usage, output.len(), state_limit) {
                Err(error) => Err(error),
                Ok(usage) => Ok(
                    enqueued(
                        EdgeState {
                            entries: state.entries.update(index, Some(output)),
                            usage,
                            ..claimed
                        },
                        index,
                    ),
                ),
            },
            Some(existing) => if existing == output {
                Ok(claimed)
            } else if !edge.target.iterator_close {
                Err(join_error(id, edge.target_pc, edge.source_pc, existing, output))
            } else {
                match merged_close_record(existing, output) {
                    None => Err(join_error(id, edge.target_pc, edge.source_pc, existing, output)),
                    Some((merged, changed)) => {
                        let next = EdgeState {
                            entries: state.entries.update(index, Some(merged)),
                            ..claimed
                        };
                        if changed {
                            Ok(enqueued(next, index))
                        } else {
                            Ok(next)
                        }
                    },
                }
            },
        }
    }
}

/// Whether `error` reports that the stack which an edge carries to an
/// instruction could not be copied. Only the first stack that reaches an
/// instruction is.
pub open spec fn propagation_memory_failure(
    id: FunctionTemplateId,
    edge: EdgeFacts,
    output: Seq<Slot>,
    state: EdgeState,
    state_limit: u64,
    error: BytecodeVerificationError,
) -> bool {
    let index = edge.successor.spec_get() as int;
    match propagated_stack(id, edge, output, state, state_limit) {
        Ok(next) => state.entries[index].is_none() && next.entries[index].is_some() && error
            == reservation_failure(
            id,
            BytecodeGraphResource::FrameStateEntries,
            output.len() as u64,
        ),
        Err(_) => false,
    }
}

/// The executable collections hold exactly the state.
pub open spec fn holds_state(
    state: EdgeState,
    entries: Seq<Option<Vec<Slot>>>,
    components: Seq<Option<u32>>,
    queued: Seq<bool>,
    work: Seq<usize>,
    usage: BytecodeGraphUsage,
) -> bool {
    &&& state.entries == stacks_of(entries)
    &&& state.components == components
    &&& state.queued == queued
    &&& state.work == work
    &&& state.usage == usage
}

fn finally_join_error(id: FunctionTemplateId, target: BytecodePc, incoming_from: BytecodePc) -> (
error: BytecodeVerificationError)
    ensures
        error == function_error(
            id,
            BytecodeVerificationErrorKind::FinallyReturnJoinMismatch { target, incoming_from },
        ),
{
    BytecodeVerificationError::function(
        id,
        BytecodeVerificationErrorKind::FinallyReturnJoinMismatch { target, incoming_from },
    )
}

pub(crate) fn propagate_internal_operand_stack(
    id: FunctionTemplateId,
    edge: EdgeFacts,
    output: &[Slot],
    entries: &mut Vec<Option<Vec<Slot>>>,
    components: &mut Vec<Option<u32>>,
    queued: &mut Vec<bool>,
    work: &mut VecDeque<usize>,
    state_limit: u64,
    usage: &mut BytecodeGraphUsage,
    Ghost(state): Ghost<EdgeState>,
) -> (propagated: Result<Ghost<EdgeState>, BytecodeVerificationError>)
    requires
        holds_state(
            state,
            old(entries)@,
            old(components)@,
            old(queued)@,
            old(work)@,
            *old(usage),
        ),
        edge.successor.spec_get() < old(entries)@.len(),
        old(components)@.len() == old(entries)@.len(),
        old(queued)@.len() == old(entries)@.len(),
    ensures
        match propagated {
            Ok(next) => propagated_stack(id, edge, output@, state, state_limit) == Ok::<
                EdgeState,
                BytecodeVerificationError,
            >(next@) && holds_state(
                next@,
                final(entries)@,
                final(components)@,
                final(queued)@,
                final(work)@,
                *final(usage),
            ) && final(entries)@.len() == old(entries)@.len() && final(components)@.len()
                == old(components)@.len() && final(queued)@.len() == old(queued)@.len(),
            Err(error) => propagated_stack(id, edge, output@, state, state_limit) == Err::<
                EdgeState,
                BytecodeVerificationError,
            >(error) || propagation_memory_failure(
                id,
                edge,
                output@,
                state,
                state_limit,
                error,
            ),
        },
{
    let index: usize = edge.successor.get() as usize;
    if is_inert_disconnected_finalizer_edge(
        index,
        edge.component,
        edge.target,
        edge.enters_finally,
        output,
        components,
    ) {
        return Ok(Ghost(state));
    }
    if edge.target.finally_entry {
        if !has_targeted_finalizer_pair(output, edge.successor) {
            return Err(finally_join_error(id, edge.target_pc, edge.source_pc));
        }
    } else if edge.enters_finally {
        return Err(finally_join_error(id, edge.target_pc, edge.source_pc));
    }
    if let Some(established) = components[index] {
        if established != edge.component {
            assert(state.entries[index as int] == stacks_of(entries@)[index as int]);
            match &entries[index] {
                None => {
                    return Err(
                        internal_join_error(id, edge.target_pc, edge.source_pc, output, &[]),
                    );
                },
                Some(existing) => {
                    let prefix: usize = if edge.target.finally_entry && edge.enters_finally {
                        output.len() - 2
                    } else {
                        output.len()
                    };
                    proof {
                        assert(output@.take(output@.len() as int) =~= output@);
                    }
                    if !equal_stacks(existing, output) && (edge.target.catch_handler || any_slot(
                        output,
                        0,
                        prefix,
                        SlotClass::NotOrdinary,
                    )) {
                        return Err(
                            internal_join_error(
                                id,
                                edge.target_pc,
                                edge.source_pc,
                                existing,
                                output,
                            ),
                        );
                    }
                    return Ok(Ghost(state));
                },
            }
        }
    }
    components.set(index, Some(edge.component));
    let ghost claimed = EdgeState { components: components@, ..state };
    let visited: bool = entries[index].is_some();
    if !visited {
        charge_frame_state_entries(id, usage, output.len(), state_limit)?;
        let copy = try_copy_slice(id, output, BytecodeGraphResource::FrameStateEntries)?;
        entries.set(index, Some(copy));
        proof {
            assert(stacks_of(entries@) =~= state.entries.update(index as int, Some(output@)));
        }
        if !queued[index] {
            queued.set(index, true);
            work.push_back(index);
        }
        return Ok(
            Ghost(
                EdgeState {
                    entries: stacks_of(entries@),
                    components: components@,
                    queued: queued@,
                    work: work@,
                    usage: *usage,
                },
            ),
        );
    }
    let unchanged: bool = match &entries[index] {
        Some(existing) => equal_stacks(existing, output),
        None => false,
    };
    if unchanged {
        return Ok(Ghost(claimed));
    }
    let mut entry: Option<Vec<Slot>> = None;
    entries.set_and_swap(index, &mut entry);
    let mut existing: Vec<Slot> = match entry {
        Some(existing) => existing,
        None => Vec::new(),
    };
    proof {
        assert(state.entries[index as int] == Some(existing@));
    }
    if !edge.target.iterator_close {
        return Err(
            internal_join_error(id, edge.target_pc, edge.source_pc, &existing, output),
        );
    }
    match merge_trailing_for_of_close_record(&mut existing, output) {
        None => Err(internal_join_error(id, edge.target_pc, edge.source_pc, &existing, output)),
        Some(changed) => {
            let ghost merged = existing@;
            entries.set(index, Some(existing));
            proof {
                assert(stacks_of(entries@) =~= state.entries.update(index as int, Some(merged)));
            }
            if changed && !queued[index] {
                queued.set(index, true);
                work.push_back(index);
            }
            Ok(
                Ghost(
                    EdgeState {
                        entries: stacks_of(entries@),
                        components: components@,
                        queued: queued@,
                        work: work@,
                        usage: *usage,
                    },
                ),
            )
        },
    }
}

/// A terminal leaves a finally marker.
pub open spec fn finally_exit_error(
    id: FunctionTemplateId,
    decoded: DecodedInstruction,
) -> BytecodeVerificationError {
    function_error(
        id,
        BytecodeVerificationErrorKind::FinallyReturnMarkerAtExit { pc: decoded.pc },
    )
}

fn finally_exit(id: FunctionTemplateId, decoded: DecodedInstruction) -> (error:
    BytecodeVerificationError)
    ensures
        error == finally_exit_error(id, decoded),
{
    BytecodeVerificationError::function(
        id,
        BytecodeVerificationErrorKind::FinallyReturnMarkerAtExit { pc: decoded.pc },
    )
}

/// Length below the finally pairs on top of the first `len` slots; none where a
/// return address has no matching value kept aside.
pub open spec fn below_finally_pairs(state: Seq<Slot>, len: int) -> Option<int>
    decreases len,
{
    if len <= 0 {
        Some(0)
    } else {
        match state[len - 1] {
            Slot::FinallyReturn { target } => if len < 2 {
                None
            } else {
                match state[len - 2] {
                    Slot::FinallyPending { target: pending, .. } => if pending == target {
                        below_finally_pairs(state, len - 2)
                    } else {
                        None
                    },
                    _ => None,
                }
            },
            _ => Some(len),
        }
    }
}

/// The check of the slots from `cursor` up to `end` that a throw leaves:
/// values, catch regions, whole finally pairs and active for-of records may
/// stay, and a for-in enumeration only below a handler.
pub open spec fn throw_check(
    id: FunctionTemplateId,
    decoded: DecodedInstruction,
    state: Seq<Slot>,
    cursor: int,
    end: int,
) -> Result<(), BytecodeVerificationError>
    decreases end - cursor,
{
    if cursor >= end {
        Ok(())
    } else if state[cursor].spec_is_javascript_value() {
        throw_check(id, decoded, state, cursor + 1, end)
    } else {
        match state[cursor] {
            Slot::CatchMarker { .. } => throw_check(id, decoded, state, cursor + 1, end),
            Slot::FinallyPending { target, .. } => if cursor + 1 < end && state[cursor + 1]
                == (Slot::FinallyReturn { target }) {
                throw_check(id, decoded, state, cursor + 2, end)
            } else {
                Err(finally_exit_error(id, decoded))
            },
            Slot::FinallyReturn { .. } => Err(finally_exit_error(id, decoded)),
            Slot::ForOfIterator(_) => if cursor + 3 <= end && record_at(
                RecordKind::Active,
                state,
                cursor,
            ).is_some() {
                throw_check(id, decoded, state, cursor + 3, end)
            } else {
                Err(for_of_error(id, decoded))
            },
            Slot::ForInIterator(_) => if holds_class(
                state.take(end),
                cursor + 1,
                SlotClass::InnerHandler,
            ) {
                throw_check(id, decoded, state, cursor + 1, end)
            } else {
                Err(for_in_error(id, decoded))
            },
            slot => if slot.spec_is_for_of_value() {
                Err(for_of_error(id, decoded))
            } else {
                Err(catch_error(id, decoded))
            },
        }
    }
}

fn check_throw(
    id: FunctionTemplateId,
    decoded: DecodedInstruction,
    state: &[Slot],
    end: usize,
) -> (checked: Result<(), BytecodeVerificationError>)
    requires
        end <= state@.len(),
    ensures
        checked == throw_check(id, decoded, state@, 0, end as int),
{
    let mut cursor: usize = 0;
    while cursor < end
        invariant
            end <= state@.len(),
            throw_check(id, decoded, state@, 0, end as int) == throw_check(
                id,
                decoded,
                state@,
                cursor as int,
                end as int,
            ),
        decreases end - cursor,
    {
        let slot = state[cursor];
        if slot.is_javascript_value() {
            cursor = cursor + 1;
        } else {
            match slot {
                Slot::CatchMarker { .. } => {
                    cursor = cursor + 1;
                },
                Slot::FinallyPending { target, .. } => {
                    if cursor + 1 >= end {
                        return Err(finally_exit(id, decoded));
                    }
                    match state[cursor + 1] {
                        Slot::FinallyReturn { target: returned } => {
                            if returned != target {
                                return Err(finally_exit(id, decoded));
                            }
                        },
                        _ => {
                            return Err(finally_exit(id, decoded));
                        },
                    }
                    cursor = cursor + 2;
                },
                Slot::FinallyReturn { .. } => {
                    return Err(finally_exit(id, decoded));
                },
                Slot::ForOfIterator(_) => {
                    if end - cursor < 3 || find_record(
                        RecordKind::Active,
                        state,
                        cursor,
                    ).is_none() {
                        return Err(for_of_stack_error(id, decoded));
                    }
                    cursor = cursor + 3;
                },
                Slot::ForInIterator(_) => {
                    if !any_slot(state, cursor + 1, end, SlotClass::InnerHandler) {
                        return Err(for_in_stack_error(id, decoded));
                    }
                    cursor = cursor + 1;
                },
                _ => {
                    if slot.is_for_of_value() {
                        return Err(for_of_stack_error(id, decoded));
                    }
                    return Err(catch_stack_error(id, decoded));
                },
            }
        }
    }
    Ok(())
}

/// The check of the stack that a terminal leaves, below the finally pairs on
/// top.
///
/// A throw may leave what a handler above can unwind. A tail call may leave
/// plain values and for-in enumerations. Any other exit may leave no marker,
/// and in a body with finally subroutines nothing at all.
pub open spec fn stack_exit_check(
    id: FunctionTemplateId,
    decoded: DecodedInstruction,
    state: Seq<Slot>,
    has_finally: bool,
) -> Result<(), BytecodeVerificationError> {
    let opcode = decoded.instruction.opcode;
    match below_finally_pairs(state, state.len() as int) {
        None => Err(finally_exit_error(id, decoded)),
        Some(len) => {
            let kept = state.take(len);
            if opcode == FinalOpcode::Throw || opcode == FinalOpcode::ThrowError {
                throw_check(id, decoded, state, 0, len)
            } else if holds_class(kept, 0, SlotClass::Finally) {
                Err(finally_exit_error(id, decoded))
            } else if holds_class(kept, 0, SlotClass::ForOf) {
                Err(
                    function_error(
                        id,
                        BytecodeVerificationErrorKind::ForOfIteratorMarkerAtExit { pc: decoded.pc },
                    ),
                )
            } else if holds_class(kept, 0, SlotClass::CatchMarker) {
                Err(
                    function_error(
                        id,
                        BytecodeVerificationErrorKind::CatchMarkerAtExit { pc: decoded.pc },
                    ),
                )
            } else if opcode == FinalOpcode::TailCall || opcode == FinalOpcode::TailCallMethod {
                Ok(())
            } else if holds_class(kept, 0, SlotClass::ForInIterator) {
                Err(
                    function_error(
                        id,
                        BytecodeVerificationErrorKind::ForInIteratorMarkerAtExit { pc: decoded.pc },
                    ),
                )
            } else if has_finally && len > 0 {
                Err(finally_error(id, decoded))
            } else {
                Ok(())
            }
        },
    }
}

pub(crate) fn verify_internal_stack_exit(
    id: FunctionTemplateId,
    decoded: DecodedInstruction,
    state: &[Slot],
    has_finally: bool,
) -> (checked: Result<(), BytecodeVerificationError>)
    ensures
        checked == stack_exit_check(id, decoded, state@, has_finally),
{
    let opcode = decoded.instruction.opcode;
    let mut len: usize = state.len();
    let mut stripping: bool = true;
    while stripping && len > 0
        invariant
            len <= state@.len(),
            stripping ==> below_finally_pairs(state@, state@.len() as int) == below_finally_pairs(
                state@,
                len as int,
            ),
            !stripping ==> below_finally_pairs(state@, state@.len() as int) == Some(len as int),
        decreases
                len + if stripping {
                    1int
                } else {
                    0int
                },
    {
        match state[len - 1] {
            Slot::FinallyReturn { target } => {
                if len < 2 {
                    return Err(finally_exit(id, decoded));
                }
                match state[len - 2] {
                    Slot::FinallyPending { target: pending, .. } => {
                        if pending != target {
                            return Err(finally_exit(id, decoded));
                        }
                    },
                    _ => {
                        return Err(finally_exit(id, decoded));
                    },
                }
                len = len - 2;
            },
            _ => {
                stripping = false;
            },
        }
    }
    if matches!(opcode, FinalOpcode::Throw | FinalOpcode::ThrowError) {
        return check_throw(id, decoded, state, len);
    }
    if any_slot(state, 0, len, SlotClass::Finally) {
        return Err(finally_exit(id, decoded));
    }
    if any_slot(state, 0, len, SlotClass::ForOf) {
        return Err(
            BytecodeVerificationError::function(
                id,
                BytecodeVerificationErrorKind::ForOfIteratorMarkerAtExit { pc: decoded.pc },
            ),
        );
    }
    if any_slot(state, 0, len, SlotClass::CatchMarker) {
        return Err(
            BytecodeVerificationError::function(
                id,
                BytecodeVerificationErrorKind::CatchMarkerAtExit { pc: decoded.pc },
            ),
        );
    }
    if matches!(opcode, FinalOpcode::TailCall | FinalOpcode::TailCallMethod) {
        // A proper tail transfer abandons the current execution context, so
        // plain values and enumeration markers need no cleanup.
        return Ok(());
    }
    if any_slot(state, 0, len, SlotClass::ForInIterator) {
        return Err(
            BytecodeVerificationError::function(
                id,
                BytecodeVerificationErrorKind::ForInIteratorMarkerAtExit { pc: decoded.pc },
            ),
        );
    }
    if has_finally && len > 0 {
        return Err(finally_stack_error(id, decoded));
    }
    Ok(())
}

} // verus!
