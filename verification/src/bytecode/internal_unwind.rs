//! Typed operand-stack transfer of branches, writes, removals and returns.
use crate::bytecode::error::BytecodeVerificationError;
use crate::bytecode::internal_stack::{
    CertifiedCatchLocalPut, CertifiedIterationLocalPut, CertifiedNipCatchTransform,
    InternalStackTransfer, InternalStackValue as Slot, IterationBranchValue, RecordKind,
    SlotClass, any_slot, any_slot_of, find_record, forget, forget_below, holds_class,
    invalidate_internal_value_provenance, record_at,
};
use crate::bytecode::internal_transfer::{
    Certification, GroupOutcome, StackStep, agrees, branch_step, branching, certified,
    certified_step, completed, dead_step, from_top, leaves, plain_step, push_slot, retop,
    slot_from_top, stopped,
};
use crate::bytecode::operand_use::{
    is_unchecked_local_put, local_operand, saturated_u32, spec_is_unchecked_local_put,
    spec_local_operand, usize_to_u32,
};
use crate::bytecode::stack_error::{
    catch_error, catch_stack_error, finally_error, finally_stack_error, for_in_error,
    for_in_stack_error, for_of_error, for_of_stack_error, internal_stack_error, reserve_slots,
    stack_error,
};
use crate::control_flow::model::InstructionIndex;
use crate::function_graph::FunctionTemplateId;
use crate::instruction::{BytecodePc, DecodedInstruction};
use crate::opcode::FinalOpcode;
use vstd::prelude::*;

verus! {

/// Topmost slot below `end` that holds more than a value of unknown origin.
pub open spec fn topmost_marked(state: Seq<Slot>, end: int) -> Option<int>
    decreases end,
{
    if end <= 0 {
        None
    } else if state[end - 1] != Slot::Ordinary {
        Some(end - 1)
    } else {
        topmost_marked(state, end - 1)
    }
}

/// Start and site of the for-of record beneath a `value`/`done` pair about to
/// be branched on.
///
/// The `done` flag is at the top with the `value` directly below it. Between
/// the value and the record stand values of unknown origin only: the
/// array-destructuring rest collector keeps its fresh array and cursor there.
/// Record, value and flag come from one site.
pub open spec fn spec_for_of_branch_record(state: Seq<Slot>) -> Option<(int, BytecodePc)> {
    match (from_top(state, 1), from_top(state, 0)) {
        (Some(Slot::ForOfValue(value)), Some(Slot::ForOfDone(site))) => if value != site {
            None
        } else {
            match topmost_marked(state, state.len() - 2) {
                None => None,
                Some(marked) => if record_at(RecordKind::Active, state, marked - 2) == Some(site) {
                    Some((marked - 2, site))
                } else {
                    None
                },
            }
        },
        _ => None,
    }
}

fn for_of_branch_record(state: &[Slot]) -> (record: Option<(usize, BytecodePc)>)
    ensures
        match record {
            Some((start, site)) => spec_for_of_branch_record(state@) == Some((start as int, site))
                && start + 5 <= state@.len(),
            None => spec_for_of_branch_record(state@).is_none(),
        },
{
    let site = match (slot_from_top(state, 1), slot_from_top(state, 0)) {
        (Some(Slot::ForOfValue(value)), Some(Slot::ForOfDone(site))) => {
            if value != site {
                return None;
            }
            site
        },
        _ => {
            return None;
        },
    };
    let mut cursor: usize = state.len() - 2;
    while cursor > 0
        invariant
            cursor <= state@.len() - 2,
            topmost_marked(state@, state@.len() - 2) == topmost_marked(state@, cursor as int),
            from_top(state@, 0) == Some(Slot::ForOfDone(site)),
            from_top(state@, 1) == Some(Slot::ForOfValue(site)),
        decreases cursor,
    {
        cursor = cursor - 1;
        if !matches!(state[cursor], Slot::Ordinary) {
            if cursor < 2 {
                return None;
            }
            return match find_record(RecordKind::Active, state, cursor - 2) {
                Some(found) => if found == site {
                    Some((cursor - 2, site))
                } else {
                    None
                },
                None => None,
            };
        }
    }
    None
}

/// Branches on the flags of iteration steps and delegations.
pub open spec fn branch_outcome(
    id: FunctionTemplateId,
    decoded: DecodedInstruction,
    state: Seq<Slot>,
) -> GroupOutcome {
    let when_true = match decoded.instruction.opcode {
        FinalOpcode::IfTrue | FinalOpcode::IfTrue8 => true,
        _ => false,
    };
    let popped = state.drop_last();
    let len = state.len() as int;
    match (from_top(state, 1), from_top(state, 0)) {
        (Some(Slot::YieldStarIteratorResult(result)), Some(Slot::YieldStarDone(site))) => if result
            == site {
            leaves(
                popped,
                branch_step(
                    IterationBranchValue::YieldStarDone { site, branch_when_true: when_true },
                ),
            )
        } else {
            Ok(None)
        },
        (below, Some(top)) => if when_true {
            match (below, top) {
                (_, Slot::YieldStarResumeModeTest(_)) => leaves(popped, plain_step()),
                (_, Slot::YieldStarIsThrow(_)) => leaves(popped, plain_step()),
                (
                    Some(Slot::YieldStarCallValue(value_site, value_kind)),
                    Slot::YieldStarMethodMissing(site, kind),
                ) => if value_site == site && value_kind == kind {
                    leaves(
                        popped,
                        branch_step(IterationBranchValue::YieldStarMethod { site, kind }),
                    )
                } else {
                    Ok(None)
                },
                (_, Slot::ForOfDone(_)) => Err(for_of_error(id, decoded)),
                _ => Ok(None),
            }
        } else {
            match spec_for_of_branch_record(state) {
                Some((record, site)) => leaves(
                    forget_below(popped, record),
                    branch_step(
                        IterationBranchValue::ForOf { site, extras: (len - record - 5) as usize },
                    ),
                ),
                None => match (from_top(state, 2), below, top) {
                    (
                        Some(Slot::ForInIterator(iterator)),
                        Some(Slot::ForInKey(key)),
                        Slot::ForInDone(done),
                    ) => if iterator == key && key == done {
                        leaves(
                            forget_below(popped, len - 3),
                            branch_step(IterationBranchValue::ForIn(key)),
                        )
                    } else {
                        Ok(None)
                    },
                    (_, _, Slot::ForOfDone(_)) => Err(for_of_error(id, decoded)),
                    _ => Ok(None),
                },
            }
        },
        _ => Ok(None),
    }
}

fn drop_top(state: &mut Vec<Slot>)
    requires
        old(state)@.len() > 0,
    ensures
        final(state)@ == old(state)@.drop_last(),
{
    let count: usize = state.len();
    state.truncate(count - 1);
    assert(state@ =~= old(state)@.drop_last());
}

fn transfer_branch(id: FunctionTemplateId, decoded: DecodedInstruction, state: &mut Vec<Slot>) -> (
step: Result<Option<StackStep>, BytecodeVerificationError>)
    ensures
        agrees(
            id,
            branch_outcome(id, decoded, old(state)@),
            step,
            old(state)@,
            final(state)@,
        ),
{
    let when_true: bool = matches!(
        decoded.instruction.opcode,
        FinalOpcode::IfTrue | FinalOpcode::IfTrue8
    );
    let count: usize = state.len();
    let below = slot_from_top(state, 1);
    let top = match slot_from_top(state, 0) {
        Some(top) => top,
        None => {
            return Ok(None);
        },
    };
    if let (Some(Slot::YieldStarIteratorResult(result)), Slot::YieldStarDone(site)) = (below, top) {
        if result != site {
            return Ok(None);
        }
        drop_top(state);
        return Ok(
            Some(
                branching(
                    IterationBranchValue::YieldStarDone { site, branch_when_true: when_true },
                ),
            ),
        );
    }
    if when_true {
        return match (below, top) {
            (_, Slot::YieldStarResumeModeTest(_)) => {
                drop_top(state);
                Ok(Some(completed()))
            },
            (_, Slot::YieldStarIsThrow(_)) => {
                drop_top(state);
                Ok(Some(completed()))
            },
            (
                Some(Slot::YieldStarCallValue(value_site, value_kind)),
                Slot::YieldStarMethodMissing(site, kind),
            ) => {
                if value_site != site || value_kind != kind {
                    return Ok(None);
                }
                drop_top(state);
                Ok(Some(branching(IterationBranchValue::YieldStarMethod { site, kind })))
            },
            (_, Slot::ForOfDone(_)) => Err(for_of_stack_error(id, decoded)),
            _ => Ok(None),
        };
    }
    if let Some((record, site)) = for_of_branch_record(state) {
        let extras: usize = count - record - 5;
        drop_top(state);
        invalidate_internal_value_provenance(state, record);
        return Ok(Some(branching(IterationBranchValue::ForOf { site, extras })));
    }
    match (slot_from_top(state, 2), below, top) {
        (
            Some(Slot::ForInIterator(iterator)),
            Some(Slot::ForInKey(key)),
            Slot::ForInDone(done),
        ) => {
            if iterator != key || key != done {
                return Ok(None);
            }
            drop_top(state);
            invalidate_internal_value_provenance(state, count - 3);
            Ok(Some(branching(IterationBranchValue::ForIn(key))))
        },
        (_, _, Slot::ForOfDone(_)) => Err(for_of_stack_error(id, decoded)),
        _ => Ok(None),
    }
}

/// Unchecked writes of a local: from a catch clause, or from the head of an
/// iteration.
pub open spec fn local_put_outcome(
    id: FunctionTemplateId,
    decoded: DecodedInstruction,
    state: Seq<Slot>,
) -> GroupOutcome {
    let opcode = decoded.instruction.opcode;
    let local = spec_local_operand(opcode, decoded.instruction.operands);
    let written = forget(state.drop_last());
    match (from_top(state, 1), from_top(state, 0)) {
        (_, Some(Slot::CatchException(_))) => match local {
            Some(local) => leaves(
                written,
                certified_step(Certification::CatchPut(CertifiedCatchLocalPut { local })),
            ),
            None => Err(catch_error(id, decoded)),
        },
        (Some(Slot::ForInIterator(iterator)), Some(Slot::ForInHeadKey(key))) => if iterator
            != key {
            Ok(None)
        } else {
            match local {
                Some(local) => leaves(
                    written,
                    certified_step(
                        Certification::IterationPut(
                            CertifiedIterationLocalPut { local, cursor_site: key },
                        ),
                    ),
                ),
                None => Err(for_in_error(id, decoded)),
            }
        },
        (_, Some(Slot::ForOfHeadValue(value))) => if record_at(
            RecordKind::Active,
            state,
            state.len() - 4,
        ) != Some(value) {
            Ok(None)
        } else {
            match local {
                Some(local) => leaves(
                    written,
                    certified_step(
                        Certification::IterationPut(
                            CertifiedIterationLocalPut { local, cursor_site: value },
                        ),
                    ),
                ),
                None => Err(for_of_error(id, decoded)),
            }
        },
        _ => Ok(None),
    }
}

fn transfer_local_put(id: FunctionTemplateId, decoded: DecodedInstruction, state: &mut Vec<Slot>) -> (
step: Result<Option<StackStep>, BytecodeVerificationError>)
    ensures
        agrees(
            id,
            local_put_outcome(id, decoded, old(state)@),
            step,
            old(state)@,
            final(state)@,
        ),
{
    let count: usize = state.len();
    let local = local_operand(decoded.instruction.opcode, decoded.instruction.operands);
    let certification = match (slot_from_top(state, 1), slot_from_top(state, 0)) {
        (_, Some(Slot::CatchException(_))) => match local {
            Some(local) => Certification::CatchPut(CertifiedCatchLocalPut { local }),
            None => {
                return Err(catch_stack_error(id, decoded));
            },
        },
        (Some(Slot::ForInIterator(iterator)), Some(Slot::ForInHeadKey(key))) => {
            if iterator != key {
                return Ok(None);
            }
            match local {
                Some(local) => Certification::IterationPut(
                    CertifiedIterationLocalPut { local, cursor_site: key },
                ),
                None => {
                    return Err(for_in_stack_error(id, decoded));
                },
            }
        },
        (_, Some(Slot::ForOfHeadValue(value))) => {
            if count < 4 {
                return Ok(None);
            }
            match find_record(RecordKind::Active, state, count - 4) {
                Some(site) => {
                    if site != value {
                        return Ok(None);
                    }
                },
                None => {
                    return Ok(None);
                },
            }
            match local {
                Some(local) => Certification::IterationPut(
                    CertifiedIterationLocalPut { local, cursor_site: value },
                ),
                None => {
                    return Err(for_of_stack_error(id, decoded));
                },
            }
        },
        _ => {
            return Ok(None);
        },
    };
    drop_top(state);
    invalidate_internal_value_provenance(state, count - 1);
    Ok(Some(certified(certification)))
}

/// Whether an active for-of record stands somewhere below `end`.
pub open spec fn encloses_record(state: Seq<Slot>, end: int) -> bool {
    exists|i: int| 0 <= i && i + 3 <= end && (#[trigger] record_at(
        RecordKind::Active,
        state,
        i,
    )).is_some()
}

fn has_enclosing_for_of_record(state: &[Slot], end: usize) -> (found: bool)
    requires
        end <= state@.len(),
    ensures
        found == encloses_record(state@, end as int),
{
    let mut i: usize = 0;
    while i < end
        invariant
            i <= end,
            end <= state@.len(),
            forall|j: int|
                0 <= j < i && j + 3 <= end ==> (#[trigger] record_at(
                    RecordKind::Active,
                    state@,
                    j,
                )).is_none(),
        decreases end - i,
    {
        if end - i >= 3 && find_record(RecordKind::Active, state, i).is_some() {
            assert(record_at(RecordKind::Active, state@, i as int).is_some());
            return true;
        }
        i = i + 1;
    }
    false
}

/// Removal of the top value.
///
/// Dropping the catch slot of a record turns the record into a delegation;
/// dropping the done flag of an inner destructuring step leaves its value as a
/// head value, where an enclosing record shows that it belongs to an iteration
/// head.
pub open spec fn drop_outcome(
    id: FunctionTemplateId,
    decoded: DecodedInstruction,
    reachable: bool,
    state: Seq<Slot>,
) -> GroupOutcome {
    let len = state.len() as int;
    let refused = Err(stack_error(id, decoded, state));
    match from_top(state, 0) {
        None => if reachable {
            refused
        } else {
            leaves(state, dead_step())
        },
        Some(Slot::DerivedSuperCompletion(completion)) => match from_top(state, 1) {
            Some(Slot::DerivedSuperResult(result)) => if result == completion {
                leaves(retop(state.drop_last(), Slot::Ordinary), plain_step())
            } else {
                refused
            },
            _ => refused,
        },
        Some(top) => match record_at(RecordKind::Active, state, len - 3) {
            Some(site) => leaves(
                state.take(len - 3).push(Slot::YieldStarIterator(site)).push(
                    Slot::YieldStarNextMethod(site),
                ),
                plain_step(),
            ),
            None => match (from_top(state, 1), top) {
                (Some(Slot::YieldStarResumeValue(value)), Slot::YieldStarResumeMode(mode)) => if value
                    == mode {
                    leaves(retop(state.drop_last(), Slot::Ordinary), plain_step())
                } else {
                    ordinary_drop(id, decoded, state)
                },
                (Some(Slot::ForOfValue(value)), Slot::ForOfDone(done)) => if value == done
                    && record_at(RecordKind::Active, state, len - 5) == Some(value)
                    && encloses_record(state, len - 5) {
                    leaves(retop(state.drop_last(), Slot::ForOfHeadValue(value)), plain_step())
                } else {
                    ordinary_drop(id, decoded, state)
                },
                _ => ordinary_drop(id, decoded, state),
            },
        },
    }
}

/// Removal of a top value that is no part of a recognised sequence.
pub open spec fn ordinary_drop(
    id: FunctionTemplateId,
    decoded: DecodedInstruction,
    state: Seq<Slot>,
) -> GroupOutcome {
    let top = from_top(state, 0).unwrap();
    if top.spec_is_for_of_value() && !top.spec_is_javascript_value() {
        Err(for_of_error(id, decoded))
    } else {
        match top {
            Slot::FinallyReturn { target } => if is_pending_for(from_top(state, 1), target) {
                leaves(forget(state.drop_last()), plain_step())
            } else {
                Err(finally_error(id, decoded))
            },
            _ => leaves(forget(state.drop_last()), plain_step()),
        }
    }
}

/// Whether a slot keeps a value aside for the finally subroutine at `target`.
pub open spec fn is_pending_for(slot: Option<Slot>, target: InstructionIndex) -> bool {
    match slot {
        Some(Slot::FinallyPending { target: pending, .. }) => pending == target,
        _ => false,
    }
}

fn pending_for(slot: Option<Slot>, target: InstructionIndex) -> (pending: bool)
    ensures
        pending == is_pending_for(slot, target),
{
    match slot {
        Some(Slot::FinallyPending { target: pending, .. }) => pending == target,
        _ => false,
    }
}

fn transfer_drop(
    id: FunctionTemplateId,
    decoded: DecodedInstruction,
    reachable: bool,
    state: &mut Vec<Slot>,
) -> (step: Result<Option<StackStep>, BytecodeVerificationError>)
    ensures
        agrees(
            id,
            drop_outcome(id, decoded, reachable, old(state)@),
            step,
            old(state)@,
            final(state)@,
        ),
{
    let count: usize = state.len();
    let ghost before = state@;
    let below = slot_from_top(state, 1);
    let top = match slot_from_top(state, 0) {
        Some(top) => top,
        None => {
            if reachable {
                return Err(internal_stack_error(id, decoded, state));
            }
            return Ok(Some(stopped()));
        },
    };
    if let Slot::DerivedSuperCompletion(completion) = top {
        return match below {
            Some(Slot::DerivedSuperResult(result)) => {
                if result != completion {
                    return Err(internal_stack_error(id, decoded, state));
                }
                state.set(count - 2, Slot::Ordinary);
                state.truncate(count - 1);
                assert(state@ =~= retop(before.drop_last(), Slot::Ordinary));
                Ok(Some(completed()))
            },
            _ => Err(internal_stack_error(id, decoded, state)),
        };
    }
    if count >= 3 {
        if let Some(site) = find_record(RecordKind::Active, state, count - 3) {
            state.set(count - 3, Slot::YieldStarIterator(site));
            state.set(count - 2, Slot::YieldStarNextMethod(site));
            state.truncate(count - 1);
            assert(state@ =~= before.take(count - 3).push(Slot::YieldStarIterator(site)).push(
                Slot::YieldStarNextMethod(site),
            ));
            return Ok(Some(completed()));
        }
    }
    match (below, top) {
        (Some(Slot::YieldStarResumeValue(value)), Slot::YieldStarResumeMode(mode)) => {
            if value == mode {
                state.set(count - 2, Slot::Ordinary);
                state.truncate(count - 1);
                assert(state@ =~= retop(before.drop_last(), Slot::Ordinary));
                return Ok(Some(completed()));
            }
        },
        (Some(Slot::ForOfValue(value)), Slot::ForOfDone(done)) => {
            if value == done && count >= 5 {
                let record = find_record(RecordKind::Active, state, count - 5);
                if let Some(site) = record {
                    if site == value && has_enclosing_for_of_record(state, count - 5) {
                        state.set(count - 2, Slot::ForOfHeadValue(value));
                        state.truncate(count - 1);
                        assert(state@ =~= retop(before.drop_last(), Slot::ForOfHeadValue(value)));
                        return Ok(Some(completed()));
                    }
                }
            }
        },
        _ => {},
    }
    if top.is_for_of_value() && !top.is_javascript_value() {
        return Err(for_of_stack_error(id, decoded));
    }
    if let Slot::FinallyReturn { target } = top {
        if !pending_for(below, target) {
            return Err(finally_stack_error(id, decoded));
        }
    }
    drop_top(state);
    invalidate_internal_value_provenance(state, count - 1);
    Ok(Some(completed()))
}

/// Removal of the marker below the top value.
pub open spec fn nip_outcome(
    id: FunctionTemplateId,
    decoded: DecodedInstruction,
    reachable: bool,
    state: Seq<Slot>,
) -> GroupOutcome {
    let refused = Err(stack_error(id, decoded, state));
    match (from_top(state, 1), from_top(state, 0)) {
        (Some(marker), Some(value)) => {
            let nipped = retop(state.drop_last(), value);
            if !value.spec_is_javascript_value() {
                refused
            } else {
                match marker {
                    Slot::YieldStarIterator(_)
                    | Slot::YieldStarNextMethod(_)
                    | Slot::YieldStarDummy(_) => leaves(nipped, plain_step()),
                    Slot::ForInIterator(_) | Slot::FinallyPending { .. } => leaves(
                        forget(nipped),
                        plain_step(),
                    ),
                    Slot::FinallyReturn { target } => if is_pending_for(
                        from_top(state, 2),
                        target,
                    ) {
                        leaves(forget(nipped), plain_step())
                    } else {
                        refused
                    },
                    _ => refused,
                }
            }
        },
        _ => if reachable {
            refused
        } else {
            leaves(state, dead_step())
        },
    }
}

fn transfer_nip(
    id: FunctionTemplateId,
    decoded: DecodedInstruction,
    reachable: bool,
    state: &mut Vec<Slot>,
) -> (step: Result<Option<StackStep>, BytecodeVerificationError>)
    ensures
        agrees(
            id,
            nip_outcome(id, decoded, reachable, old(state)@),
            step,
            old(state)@,
            final(state)@,
        ),
{
    let count: usize = state.len();
    let ghost before = state@;
    let (marker, value) = match (slot_from_top(state, 1), slot_from_top(state, 0)) {
        (Some(marker), Some(value)) => (marker, value),
        _ => {
            if reachable {
                return Err(internal_stack_error(id, decoded, state));
            }
            return Ok(Some(stopped()));
        },
    };
    if !value.is_javascript_value() {
        return Err(internal_stack_error(id, decoded, state));
    }
    let mut forgets: bool = true;
    match marker {
        Slot::YieldStarIterator(_) | Slot::YieldStarNextMethod(_) | Slot::YieldStarDummy(_) => {
            forgets = false;
        },
        Slot::ForInIterator(_) | Slot::FinallyPending { .. } => {},
        Slot::FinallyReturn { target } => {
            if !pending_for(slot_from_top(state, 2), target) {
                return Err(internal_stack_error(id, decoded, state));
            }
        },
        _ => {
            return Err(internal_stack_error(id, decoded, state));
        },
    }
    state.set(count - 2, value);
    state.truncate(count - 1);
    assert(state@ =~= retop(before.drop_last(), value));
    if forgets {
        invalidate_internal_value_provenance(state, count - 1);
    }
    Ok(Some(completed()))
}

/// Whether a slot is the catch slot of a region or a record.
pub open spec fn is_catch_slot(slot: Slot) -> bool {
    slot is CatchMarker || slot is ForOfCatch || slot is ForOfExhaustedCatch
        || slot is ForOfClosableCatch
}

/// Topmost catch slot below `end`.
pub open spec fn topmost_catch(state: Seq<Slot>, end: int) -> Option<int>
    decreases end,
{
    if end <= 0 {
        None
    } else if is_catch_slot(state[end - 1]) {
        Some(end - 1)
    } else {
        topmost_catch(state, end - 1)
    }
}

/// The topmost catch slot lies below the end of the search.
pub(crate) proof fn lemma_topmost_catch_is_below(state: Seq<Slot>, end: int)
    ensures
        match topmost_catch(state, end) {
            Some(marker) => 0 <= marker < end,
            None => true,
        },
    decreases end,
{
    if end > 0 && !is_catch_slot(state[end - 1]) {
        lemma_topmost_catch_is_below(state, end - 1);
    }
}

/// What a catch slot belongs to: a catch region, a whole record of a for-of
/// loop, or a broken record.
pub open spec fn catch_owner(state: Seq<Slot>, marker: int) -> Result<Option<BytecodePc>, ()> {
    let owner = |kind: RecordKind, site: BytecodePc|
        if record_at(kind, state, marker - 2) == Some(site) {
            Ok::<Option<BytecodePc>, ()>(Some(site))
        } else {
            Err(())
        };
    match state[marker] {
        Slot::ForOfCatch(site) => owner(RecordKind::Active, site),
        Slot::ForOfExhaustedCatch(site) => owner(RecordKind::Exhausted, site),
        Slot::ForOfClosableCatch(site) => owner(RecordKind::Closable, site),
        _ => Ok(None),
    }
}

/// The check of the slots from `cursor` up to `end` that `nip_catch` discards:
/// JavaScript values and whole finally pairs.
pub open spec fn discarded_check(
    id: FunctionTemplateId,
    decoded: DecodedInstruction,
    state: Seq<Slot>,
    cursor: int,
    end: int,
    for_of: bool,
) -> Result<(), BytecodeVerificationError>
    decreases end - cursor,
{
    if cursor >= end {
        Ok(())
    } else if state[cursor].spec_is_javascript_value() {
        discarded_check(id, decoded, state, cursor + 1, end, for_of)
    } else {
        match state[cursor] {
            Slot::FinallyPending { target, .. } => if cursor + 1 < end && state[cursor + 1]
                == (Slot::FinallyReturn { target }) {
                discarded_check(id, decoded, state, cursor + 2, end, for_of)
            } else {
                Err(finally_error(id, decoded))
            },
            Slot::FinallyReturn { .. } => Err(finally_error(id, decoded)),
            _ => Err(marker_error(id, decoded, for_of)),
        }
    }
}

/// Misuse of a for-of or a catch marker.
pub open spec fn marker_error(
    id: FunctionTemplateId,
    decoded: DecodedInstruction,
    for_of: bool,
) -> BytecodeVerificationError {
    if for_of {
        for_of_error(id, decoded)
    } else {
        catch_error(id, decoded)
    }
}

pub(crate) fn marker_stack_error(
    id: FunctionTemplateId,
    decoded: DecodedInstruction,
    for_of: bool,
) -> (error: BytecodeVerificationError)
    ensures
        error == marker_error(id, decoded, for_of),
{
    if for_of {
        for_of_stack_error(id, decoded)
    } else {
        catch_stack_error(id, decoded)
    }
}

/// Removal of everything between the top value and the topmost catch slot, the
/// catch slot included.
pub open spec fn nip_catch_outcome(
    id: FunctionTemplateId,
    decoded: DecodedInstruction,
    reachable: bool,
    state: Seq<Slot>,
) -> GroupOutcome {
    let end = state.len() - 1;
    if state.len() == 0 {
        if reachable {
            Err(catch_error(id, decoded))
        } else {
            leaves(state, dead_step())
        }
    } else if !state[end].spec_is_javascript_value() {
        Err(stack_error(id, decoded, state))
    } else {
        match topmost_catch(state, end) {
            None => Err(marker_error(id, decoded, holds_class(state, 0, SlotClass::ForOf))),
            Some(marker) => match catch_owner(state, marker) {
                Err(_) => Err(for_of_error(id, decoded)),
                Ok(owner) => match discarded_check(
                    id,
                    decoded,
                    state,
                    marker + 1,
                    end,
                    owner.is_some(),
                ) {
                    Err(error) => Err(error),
                    Ok(_) => leaves(
                        forget(state.take(marker)).push(
                            match owner {
                                Some(site) => Slot::ForOfReturnValue(site),
                                None => Slot::Ordinary,
                            },
                        ),
                        certified_step(
                            Certification::NipCatch(
                                CertifiedNipCatchTransform {
                                    input_depth: saturated_u32(state.len() as int),
                                    retained_prefix: saturated_u32(marker),
                                },
                            ),
                        ),
                    ),
                },
            },
        }
    }
}

fn find_topmost_catch(state: &[Slot], end: usize) -> (found: Option<usize>)
    requires
        end <= state@.len(),
    ensures
        match found {
            Some(marker) => topmost_catch(state@, end as int) == Some(marker as int) && marker
                < end && is_catch_slot(state@[marker as int]),
            None => topmost_catch(state@, end as int).is_none(),
        },
{
    let mut cursor: usize = end;
    while cursor > 0
        invariant
            cursor <= end,
            end <= state@.len(),
            topmost_catch(state@, end as int) == topmost_catch(state@, cursor as int),
        decreases cursor,
    {
        cursor = cursor - 1;
        if matches!(
            state[cursor],
            Slot::CatchMarker { .. }
            | Slot::ForOfCatch(_)
            | Slot::ForOfExhaustedCatch(_)
            | Slot::ForOfClosableCatch(_)
        ) {
            return Some(cursor);
        }
    }
    None
}

fn find_catch_owner(state: &[Slot], marker: usize) -> (owner: Result<Option<BytecodePc>, ()>)
    requires
        marker < state@.len(),
    ensures
        owner == catch_owner(state@, marker as int),
{
    let (kind, site) = match state[marker] {
        Slot::ForOfCatch(site) => (RecordKind::Active, site),
        Slot::ForOfExhaustedCatch(site) => (RecordKind::Exhausted, site),
        Slot::ForOfClosableCatch(site) => (RecordKind::Closable, site),
        _ => {
            return Ok(None);
        },
    };
    if marker < 2 {
        return Err(());
    }
    match find_record(kind, state, marker - 2) {
        Some(found) => if found == site {
            Ok(Some(site))
        } else {
            Err(())
        },
        None => Err(()),
    }
}

fn check_discarded(
    id: FunctionTemplateId,
    decoded: DecodedInstruction,
    state: &[Slot],
    start: usize,
    end: usize,
    for_of: bool,
) -> (checked: Result<(), BytecodeVerificationError>)
    requires
        start <= end < state@.len(),
    ensures
        checked == discarded_check(id, decoded, state@, start as int, end as int, for_of),
{
    let mut cursor: usize = start;
    while cursor < end
        invariant
            start <= cursor <= end < state@.len(),
            discarded_check(id, decoded, state@, start as int, end as int, for_of)
                == discarded_check(id, decoded, state@, cursor as int, end as int, for_of),
        decreases end - cursor,
    {
        let slot = state[cursor];
        if slot.is_javascript_value() {
            cursor = cursor + 1;
        } else {
            match slot {
                Slot::FinallyPending { target, .. } => {
                    if cursor + 1 < end {
                        if let Slot::FinallyReturn { target: returned } = state[cursor + 1] {
                            if returned != target {
                                return Err(finally_stack_error(id, decoded));
                            }
                        } else {
                            return Err(finally_stack_error(id, decoded));
                        }
                    } else {
                        return Err(finally_stack_error(id, decoded));
                    }
                    cursor = cursor + 2;
                },
                Slot::FinallyReturn { .. } => {
                    return Err(finally_stack_error(id, decoded));
                },
                _ => {
                    return Err(marker_stack_error(id, decoded, for_of));
                },
            }
        }
    }
    Ok(())
}

fn transfer_nip_catch(
    id: FunctionTemplateId,
    decoded: DecodedInstruction,
    reachable: bool,
    state: &mut Vec<Slot>,
) -> (step: Result<Option<StackStep>, BytecodeVerificationError>)
    ensures
        agrees(
            id,
            nip_catch_outcome(id, decoded, reachable, old(state)@),
            step,
            old(state)@,
            final(state)@,
        ),
{
    let count: usize = state.len();
    let ghost before = state@;
    if count == 0 {
        if reachable {
            return Err(catch_stack_error(id, decoded));
        }
        return Ok(Some(stopped()));
    }
    if !state[count - 1].is_javascript_value() {
        return Err(internal_stack_error(id, decoded, state));
    }
    let marker: usize = match find_topmost_catch(state, count - 1) {
        Some(marker) => marker,
        None => {
            let for_of: bool = any_slot_of(state, SlotClass::ForOf);
            return Err(marker_stack_error(id, decoded, for_of));
        },
    };
    let owner = match find_catch_owner(state, marker) {
        Ok(owner) => owner,
        Err(_) => {
            return Err(for_of_stack_error(id, decoded));
        },
    };
    check_discarded(id, decoded, state, marker + 1, count - 1, owner.is_some())?;
    let transform = CertifiedNipCatchTransform {
        input_depth: usize_to_u32(count),
        retained_prefix: usize_to_u32(marker),
    };
    state.truncate(marker);
    assert(state@ =~= before.take(marker as int));
    invalidate_internal_value_provenance(state, marker);
    state.push(
        match owner {
            Some(site) => Slot::ForOfReturnValue(site),
            None => Slot::Ordinary,
        },
    );
    Ok(Some(certified(Certification::NipCatch(transform))))
}

/// Rotation of a completion below its record, fillers for records, and closing
/// of records.
pub open spec fn closing_outcome(
    id: FunctionTemplateId,
    decoded: DecodedInstruction,
    state: Seq<Slot>,
) -> GroupOutcome {
    let len = state.len() as int;
    let refused = Err(for_of_error(id, decoded));
    match decoded.instruction.opcode {
        FinalOpcode::Rot3r => match (from_top(state, 2), from_top(state, 1), from_top(state, 0)) {
            (Some(first), Some(second), Some(Slot::ForOfReturnValue(site))) => if rotates(
                first,
                second,
                site,
            ) {
                leaves(
                    state.take(len - 3).push(Slot::Ordinary).push(
                        Slot::ForOfCloseIterator(site),
                    ).push(Slot::ForOfCloseNextMethod(site)),
                    plain_step(),
                )
            } else {
                refused
            },
            _ => refused,
        },
        FinalOpcode::Undefined => match (from_top(state, 1), from_top(state, 0)) {
            (Some(Slot::YieldStarIterator(iterator)), Some(Slot::YieldStarNextMethod(next))) => if iterator
                == next {
                leaves(state.push(Slot::YieldStarDummy(iterator)), plain_step())
            } else {
                Ok(None)
            },
            (Some(Slot::ForOfCloseIterator(iterator)), Some(Slot::ForOfCloseNextMethod(next))) => if iterator
                == next && len >= 3 && state[len - 3].spec_is_javascript_value() {
                leaves(state.push(Slot::ForOfCloseDummy(iterator)), plain_step())
            } else {
                Ok(None)
            },
            _ => if record_at(RecordKind::YieldStar, state, len - 3).is_some() {
                leaves(state.push(Slot::Ordinary), plain_step())
            } else {
                Ok(None)
            },
        },
        FinalOpcode::IteratorClose => if closable(state, len - 3) {
            leaves(forget(state.take(len - 3)), plain_step())
        } else {
            refused
        },
        _ => Ok(None),
    }
}

/// Whether two slots are iterator and next method of a record from `site`.
pub open spec fn rotates(first: Slot, second: Slot, site: BytecodePc) -> bool {
    ||| first == Slot::ForOfIterator(site) && second == Slot::ForOfNextMethod(site)
    ||| first == Slot::ForOfExhaustedIterator(site) && second == Slot::ForOfExhaustedNextMethod(
        site,
    )
    ||| first == Slot::ForOfClosableIterator(site) && second == Slot::ForOfClosableNextMethod(site)
}

/// Whether the record at `base` may be closed.
pub open spec fn closable(state: Seq<Slot>, base: int) -> bool {
    ||| record_at(RecordKind::Active, state, base).is_some()
    ||| record_at(RecordKind::Exhausted, state, base).is_some()
    ||| record_at(RecordKind::Closable, state, base).is_some()
    ||| record_at(RecordKind::Close, state, base).is_some()
}

fn rotating(first: Slot, second: Slot, site: BytecodePc) -> (rotating: bool)
    ensures
        rotating == rotates(first, second, site),
{
    match (first, second) {
        (Slot::ForOfIterator(iterator), Slot::ForOfNextMethod(next)) => iterator == site && next
            == site,
        (Slot::ForOfExhaustedIterator(iterator), Slot::ForOfExhaustedNextMethod(next)) => iterator
            == site && next == site,
        (Slot::ForOfClosableIterator(iterator), Slot::ForOfClosableNextMethod(next)) => iterator
            == site && next == site,
        _ => false,
    }
}

fn transfer_closing(id: FunctionTemplateId, decoded: DecodedInstruction, state: &mut Vec<Slot>) -> (
step: Result<Option<StackStep>, BytecodeVerificationError>)
    ensures
        agrees(
            id,
            closing_outcome(id, decoded, old(state)@),
            step,
            old(state)@,
            final(state)@,
        ),
{
    let count: usize = state.len();
    let ghost before = state@;
    match decoded.instruction.opcode {
        FinalOpcode::Rot3r => match (
            slot_from_top(state, 2),
            slot_from_top(state, 1),
            slot_from_top(state, 0),
        ) {
            (Some(first), Some(second), Some(Slot::ForOfReturnValue(site))) => {
                if !rotating(first, second, site) {
                    return Err(for_of_stack_error(id, decoded));
                }
                state.set(count - 3, Slot::Ordinary);
                state.set(count - 2, Slot::ForOfCloseIterator(site));
                state.set(count - 1, Slot::ForOfCloseNextMethod(site));
                assert(state@ =~= before.take(count - 3).push(Slot::Ordinary).push(
                    Slot::ForOfCloseIterator(site),
                ).push(Slot::ForOfCloseNextMethod(site)));
                Ok(Some(completed()))
            },
            _ => Err(for_of_stack_error(id, decoded)),
        },
        FinalOpcode::Undefined => match (slot_from_top(state, 1), slot_from_top(state, 0)) {
            (Some(Slot::YieldStarIterator(iterator)), Some(Slot::YieldStarNextMethod(next))) => {
                if iterator != next {
                    return Ok(None);
                }
                push_slot(id, state, Slot::YieldStarDummy(iterator))?;
                Ok(Some(completed()))
            },
            (Some(Slot::ForOfCloseIterator(iterator)), Some(Slot::ForOfCloseNextMethod(next))) => {
                if iterator != next || count < 3 || !state[count - 3].is_javascript_value() {
                    return Ok(None);
                }
                push_slot(id, state, Slot::ForOfCloseDummy(iterator))?;
                Ok(Some(completed()))
            },
            _ => {
                if count < 3 || find_record(RecordKind::YieldStar, state, count - 3).is_none() {
                    return Ok(None);
                }
                push_slot(id, state, Slot::Ordinary)?;
                Ok(Some(completed()))
            },
        },
        FinalOpcode::IteratorClose => {
            if count < 3 {
                return Err(for_of_stack_error(id, decoded));
            }
            let base: usize = count - 3;
            if find_record(RecordKind::Active, state, base).is_none() && find_record(
                RecordKind::Exhausted,
                state,
                base,
            ).is_none() && find_record(RecordKind::Closable, state, base).is_none() && find_record(
                RecordKind::Close,
                state,
                base,
            ).is_none() {
                return Err(for_of_stack_error(id, decoded));
            }
            state.truncate(base);
            assert(state@ =~= before.take(base as int));
            invalidate_internal_value_provenance(state, base);
            Ok(Some(completed()))
        },
        _ => Ok(None),
    }
}

/// Return from a finally subroutine: the value kept aside comes back.
pub open spec fn ret_outcome(
    id: FunctionTemplateId,
    decoded: DecodedInstruction,
    reachable: bool,
    state: Seq<Slot>,
) -> GroupOutcome {
    if !reachable && state.len() == 0 {
        leaves(state, dead_step())
    } else {
        match (from_top(state, 1), from_top(state, 0)) {
            (
                Some(Slot::FinallyPending { target: pending, original }),
                Some(Slot::FinallyReturn { target }),
            ) => if pending == target {
                leaves(
                    forget(
                        state.take(state.len() - 2).push(original.spec_into_internal()),
                    ),
                    StackStep {
                        transfer: InternalStackTransfer {
                            normal_completion: true,
                            iteration_branch_value: None,
                            ret_finalizer: Some(target),
                        },
                        certification: Certification::Ret(target),
                    },
                )
            } else {
                Err(finally_error(id, decoded))
            },
            _ => Err(finally_error(id, decoded)),
        }
    }
}

fn transfer_ret(
    id: FunctionTemplateId,
    decoded: DecodedInstruction,
    reachable: bool,
    state: &mut Vec<Slot>,
) -> (step: Result<Option<StackStep>, BytecodeVerificationError>)
    ensures
        agrees(
            id,
            ret_outcome(id, decoded, reachable, old(state)@),
            step,
            old(state)@,
            final(state)@,
        ),
{
    let count: usize = state.len();
    let ghost before = state@;
    if !reachable && count == 0 {
        return Ok(Some(stopped()));
    }
    match (slot_from_top(state, 1), slot_from_top(state, 0)) {
        (
            Some(Slot::FinallyPending { target: pending, original }),
            Some(Slot::FinallyReturn { target }),
        ) => {
            if pending != target {
                return Err(finally_stack_error(id, decoded));
            }
            state.truncate(count - 2);
            state.push(original.into_internal());
            assert(state@ =~= before.take(count - 2).push(original.spec_into_internal()));
            invalidate_internal_value_provenance(state, count - 1);
            Ok(
                Some(
                    StackStep {
                        transfer: InternalStackTransfer {
                            normal_completion: true,
                            iteration_branch_value: None,
                            ret_finalizer: Some(target),
                        },
                        certification: Certification::Ret(target),
                    },
                ),
            )
        },
        _ => Err(finally_stack_error(id, decoded)),
    }
}

/// Transfer by the declared stack effect: JavaScript values are removed and
/// values of unknown origin pushed.
pub open spec fn effect_outcome(
    id: FunctionTemplateId,
    decoded: DecodedInstruction,
    reachable: bool,
    state: Seq<Slot>,
) -> GroupOutcome {
    let known = forget(state);
    if holds_class(state, 0, SlotClass::Close) {
        Err(for_of_error(id, decoded))
    } else {
        match decoded.instruction.spec_stack_effect() {
            Err(_) => Err(stack_error(id, decoded, known)),
            Ok(effect) => if state.len() < effect.pops {
                if reachable {
                    Err(stack_error(id, decoded, known))
                } else {
                    leaves(known, dead_step())
                }
            } else {
                let kept = state.len() - effect.pops;
                if holds_class(known, kept, SlotClass::NotJavaScript) {
                    Err(stack_error(id, decoded, known.skip(kept)))
                } else if kept + effect.pushes > usize::MAX {
                    Err(stack_error(id, decoded, known))
                } else {
                    leaves(
                        known.take(kept) + Seq::new(
                            effect.pushes as nat,
                            |i: int| Slot::Ordinary,
                        ),
                        plain_step(),
                    )
                }
            },
        }
    }
}

/// Transfers by the declared stack effect.
pub(crate) fn transfer_by_effect(
    id: FunctionTemplateId,
    decoded: DecodedInstruction,
    reachable: bool,
    state: &mut Vec<Slot>,
) -> (step: Result<Option<StackStep>, BytecodeVerificationError>)
    ensures
        agrees(
            id,
            effect_outcome(id, decoded, reachable, old(state)@),
            step,
            old(state)@,
            final(state)@,
        ),
{
    let count: usize = state.len();
    if any_slot_of(state, SlotClass::Close) {
        return Err(for_of_stack_error(id, decoded));
    }
    invalidate_internal_value_provenance(state, count);
    let ghost known = state@;
    let effect = match decoded.instruction.stack_effect() {
        Ok(effect) => effect,
        Err(_) => {
            return Err(internal_stack_error(id, decoded, state));
        },
    };
    let pops: usize = effect.pops as usize;
    let pushes: usize = effect.pushes as usize;
    if count < pops {
        if !reachable {
            return Ok(Some(stopped()));
        }
        return Err(internal_stack_error(id, decoded, state));
    }
    let kept: usize = count - pops;
    assert(state@.take(count as int) =~= state@);
    if any_slot(state, kept, count, SlotClass::NotJavaScript) {
        let inputs = state.split_off(kept);
        assert(inputs@ =~= known.skip(kept as int));
        return Err(internal_stack_error(id, decoded, &inputs));
    }
    let output = match kept.checked_add(pushes) {
        Some(output) => output,
        None => {
            return Err(internal_stack_error(id, decoded, state));
        },
    };
    if output > count {
        reserve_slots(id, state, output - count)?;
    }
    state.truncate(kept);
    state.resize(output, Slot::Ordinary);
    assert(state@ =~= known.take(kept as int) + Seq::new(
        pushes as nat,
        |i: int| Slot::Ordinary,
    ));
    Ok(Some(completed()))
}

/// The opcodes that remove, write, close and return; none for all others.
pub open spec fn unwinding_outcome(
    id: FunctionTemplateId,
    decoded: DecodedInstruction,
    reachable: bool,
    state: Seq<Slot>,
) -> GroupOutcome {
    match decoded.instruction.opcode {
        FinalOpcode::IfFalse
        | FinalOpcode::IfFalse8
        | FinalOpcode::IfTrue
        | FinalOpcode::IfTrue8 => branch_outcome(id, decoded, state),
        FinalOpcode::Drop => drop_outcome(id, decoded, reachable, state),
        FinalOpcode::Nip => nip_outcome(id, decoded, reachable, state),
        FinalOpcode::NipCatch => nip_catch_outcome(id, decoded, reachable, state),
        FinalOpcode::Rot3r | FinalOpcode::Undefined | FinalOpcode::IteratorClose => closing_outcome(
            id,
            decoded,
            state,
        ),
        FinalOpcode::Ret => ret_outcome(id, decoded, reachable, state),
        opcode => if spec_is_unchecked_local_put(opcode) {
            local_put_outcome(id, decoded, state)
        } else {
            Ok(None)
        },
    }
}

pub(crate) fn transfer_unwinding(
    id: FunctionTemplateId,
    decoded: DecodedInstruction,
    reachable: bool,
    state: &mut Vec<Slot>,
) -> (step: Result<Option<StackStep>, BytecodeVerificationError>)
    ensures
        agrees(
            id,
            unwinding_outcome(id, decoded, reachable, old(state)@),
            step,
            old(state)@,
            final(state)@,
        ),
{
    match decoded.instruction.opcode {
        FinalOpcode::IfFalse
        | FinalOpcode::IfFalse8
        | FinalOpcode::IfTrue
        | FinalOpcode::IfTrue8 => transfer_branch(id, decoded, state),
        FinalOpcode::Drop => transfer_drop(id, decoded, reachable, state),
        FinalOpcode::Nip => transfer_nip(id, decoded, reachable, state),
        FinalOpcode::NipCatch => transfer_nip_catch(id, decoded, reachable, state),
        FinalOpcode::Rot3r
        | FinalOpcode::Undefined
        | FinalOpcode::IteratorClose => transfer_closing(id, decoded, state),
        FinalOpcode::Ret => transfer_ret(id, decoded, reachable, state),
        opcode => {
            if is_unchecked_local_put(opcode) {
                transfer_local_put(id, decoded, state)
            } else {
                Ok(None)
            }
        },
    }
}

} // verus!
