//! Protected regions of a function body: catch handlers and finally
//! subroutines.
use crate::bytecode::error::BytecodeVerificationError;
use crate::bytecode::internal_stack::lists_of;
use crate::bytecode::model::{BytecodeGraphResource, BytecodeGraphUsage};
use crate::bytecode::stack_error::{
    allocation_error, catch_error, catch_stack_error, charge_frame_state_entries,
    charged_frame_state, finally_error, finally_stack_error, reservation_failure, reserve_slots,
    try_filled_vec,
};
use crate::control_flow::model::{InstructionIndex, VerifiedInstruction};
use crate::function_graph::FunctionTemplateId;
use crate::opcode::FinalOpcode;
use crate::reserve::reserve_vec_exact;
use vstd::prelude::*;

verus! {

/// Number of `gosub` instructions among the first `count`.
pub open(crate) spec fn gosub_sites(instructions: Seq<VerifiedInstruction>, count: int) -> nat
    decreases count,
{
    if count <= 0 {
        0
    } else {
        gosub_sites(instructions, count - 1) + if instructions[count
            - 1].decoded.instruction.opcode == FinalOpcode::Gosub {
            1nat
        } else {
            0nat
        }
    }
}

pub(crate) fn count_gosub_sites(instructions: &[VerifiedInstruction]) -> (sites: u64)
    ensures
        sites == gosub_sites(instructions@, instructions@.len() as int),
{
    let mut sites: u64 = 0;
    let mut i: usize = 0;
    while i < instructions.len()
        invariant
            i <= instructions@.len(),
            sites == gosub_sites(instructions@, i as int),
            sites <= i,
        decreases instructions@.len() - i,
    {
        if matches!(instructions[i].decoded.instruction.opcode, FinalOpcode::Gosub) {
            sites = sites + 1;
        }
        i = i + 1;
    }
    sites
}

/// Opcodes that put or need an internal marker, or push on a taken edge.
pub open spec fn spec_uses_markers(opcode: FinalOpcode) -> bool {
    match opcode {
        FinalOpcode::ForInStart
        | FinalOpcode::ForInNext
        | FinalOpcode::ForOfStart
        | FinalOpcode::ForAwaitOfStart
        | FinalOpcode::ForOfNext
        | FinalOpcode::ForAwaitOfNext
        | FinalOpcode::IteratorGetValueDone
        | FinalOpcode::IteratorClose
        | FinalOpcode::Rot3r
        | FinalOpcode::Nip
        | FinalOpcode::Catch
        | FinalOpcode::NipCatch
        | FinalOpcode::Gosub
        | FinalOpcode::Ret
        | FinalOpcode::WithGetVar
        | FinalOpcode::WithDeleteVar
        | FinalOpcode::WithMakeRef
        | FinalOpcode::WithGetRef => true,
        _ => false,
    }
}

/// Whether some instruction uses markers.
pub open(crate) spec fn has_markers(instructions: Seq<VerifiedInstruction>) -> bool {
    exists|i: int|
        0 <= i < instructions.len() && spec_uses_markers(
            (#[trigger] instructions[i]).decoded.instruction.opcode,
        )
}

pub(crate) fn find_markers(instructions: &[VerifiedInstruction]) -> (found: bool)
    ensures
        found == has_markers(instructions@),
{
    let mut i: usize = 0;
    while i < instructions.len()
        invariant
            i <= instructions@.len(),
            forall|j: int|
                0 <= j < i ==> !spec_uses_markers(
                    (#[trigger] instructions@[j]).decoded.instruction.opcode,
                ),
        decreases instructions@.len() - i,
    {
        let uses: bool = matches!(
            instructions[i].decoded.instruction.opcode,
            FinalOpcode::ForInStart
            | FinalOpcode::ForInNext
            | FinalOpcode::ForOfStart
            | FinalOpcode::ForAwaitOfStart
            | FinalOpcode::ForOfNext
            | FinalOpcode::ForAwaitOfNext
            | FinalOpcode::IteratorGetValueDone
            | FinalOpcode::IteratorClose
            | FinalOpcode::Rot3r
            | FinalOpcode::Nip
            | FinalOpcode::Catch
            | FinalOpcode::NipCatch
            | FinalOpcode::Gosub
            | FinalOpcode::Ret
            | FinalOpcode::WithGetVar
            | FinalOpcode::WithDeleteVar
            | FinalOpcode::WithMakeRef
            | FinalOpcode::WithGetRef
        );
        if uses {
            assert(spec_uses_markers(instructions@[i as int].decoded.instruction.opcode));
            return true;
        }
        i = i + 1;
    }
    false
}

/// Handlers and finally subroutines of a body.
pub struct ProtectedTargets {
    /// Whether each instruction starts a catch handler.
    pub handlers: Seq<bool>,
    /// Whether each instruction starts a finally subroutine.
    pub subroutines: Seq<bool>,
    /// Where each finally subroutine continues.
    pub continuations: Seq<Seq<InstructionIndex>>,
    /// Resources charged so far.
    pub usage: BytecodeGraphUsage,
}

/// The targets with those of one more instruction.
pub open(crate) spec fn with_targets_of(
    id: FunctionTemplateId,
    verified: VerifiedInstruction,
    targets: ProtectedTargets,
    state_limit: u64,
) -> Result<ProtectedTargets, BytecodeVerificationError> {
    let decoded = verified.decoded;
    match decoded.instruction.opcode {
        FinalOpcode::Catch => match verified.successors.spec_branch_target() {
            None => Err(catch_error(id, decoded)),
            Some(handler) => if handler.0 >= targets.handlers.len() {
                Err(catch_error(id, decoded))
            } else {
                Ok(
                    ProtectedTargets {
                        handlers: targets.handlers.update(handler.0 as int, true),
                        ..targets
                    },
                )
            },
        },
        FinalOpcode::Gosub => match (
            verified.successors.spec_branch_target(),
            verified.successors.spec_fallthrough(),
        ) {
            (Some(target), Some(continuation)) => if target.0 >= targets.subroutines.len() {
                Err(finally_error(id, decoded))
            } else {
                match charged_frame_state(id, targets.usage, 1, state_limit) {
                    Err(error) => Err(error),
                    Ok(usage) => Ok(
                        ProtectedTargets {
                            subroutines: targets.subroutines.update(target.0 as int, true),
                            continuations: targets.continuations.update(
                                target.0 as int,
                                targets.continuations[target.0 as int].push(continuation),
                            ),
                            usage,
                            ..targets
                        },
                    ),
                }
            },
            _ => Err(finally_error(id, decoded)),
        },
        _ => Ok(targets),
    }
}

/// The targets of the instructions from `at` on, added to `targets`.
pub open(crate) spec fn targets_from(
    id: FunctionTemplateId,
    instructions: Seq<VerifiedInstruction>,
    at: int,
    targets: ProtectedTargets,
    state_limit: u64,
) -> Result<ProtectedTargets, BytecodeVerificationError>
    decreases instructions.len() - at,
{
    if at >= instructions.len() {
        Ok(targets)
    } else {
        match with_targets_of(id, instructions[at], targets, state_limit) {
            Err(error) => Err(error),
            Ok(next) => targets_from(id, instructions, at + 1, next, state_limit),
        }
    }
}

/// Whether `error` reports that the continuation of a `gosub` from `at` on could
/// not be added to those of its subroutine.
pub open(crate) spec fn targets_memory_failure(
    id: FunctionTemplateId,
    instructions: Seq<VerifiedInstruction>,
    at: int,
    targets: ProtectedTargets,
    state_limit: u64,
    error: BytecodeVerificationError,
) -> bool
    decreases instructions.len() - at,
{
    if at >= instructions.len() {
        false
    } else {
        let verified = instructions[at];
        ||| {
            &&& verified.decoded.instruction.opcode == FinalOpcode::Gosub
            &&& verified.successors.spec_fallthrough().is_some()
            &&& match verified.successors.spec_branch_target() {
                Some(target) => target.0 < targets.subroutines.len(),
                None => false,
            }
            &&& error == reservation_failure(id, BytecodeGraphResource::FrameStateEntries, 1)
        }
        ||| match with_targets_of(id, verified, targets, state_limit) {
            Err(_) => false,
            Ok(next) => targets_memory_failure(
                id,
                instructions,
                at + 1,
                next,
                state_limit,
                error,
            ),
        }
    }
}

/// No targets for `count` instructions.
pub open spec fn no_targets(count: nat, usage: BytecodeGraphUsage) -> ProtectedTargets {
    ProtectedTargets {
        handlers: Seq::new(count, |i: int| false),
        subroutines: Seq::new(count, |i: int| false),
        continuations: Seq::new(count, |i: int| Seq::<InstructionIndex>::empty()),
        usage,
    }
}

/// Handlers and finally subroutines, as found.
pub(crate) struct Protected {
    pub(crate) handlers: Vec<bool>,
    pub(crate) subroutines: Vec<bool>,
    pub(crate) continuations: Vec<Vec<InstructionIndex>>,
}

impl Protected {
    /// The vectors hold exactly the targets.
    pub(crate) open(crate) spec fn holds(
        &self,
        targets: ProtectedTargets,
        count: nat,
        usage: BytecodeGraphUsage,
    ) -> bool {
        &&& targets.handlers == self.handlers@
        &&& targets.subroutines == self.subroutines@
        &&& targets.continuations == lists_of(self.continuations@)
        &&& targets.usage == usage
        &&& self.handlers@.len() == count
        &&& self.subroutines@.len() == count
        &&& self.continuations@.len() == count
    }
}

/// Finds the handlers and finally subroutines of a body.
pub(crate) fn collect_targets(
    id: FunctionTemplateId,
    instructions: &[VerifiedInstruction],
    state_limit: u64,
    usage: &mut BytecodeGraphUsage,
) -> (collected: Result<(Protected, Ghost<ProtectedTargets>), BytecodeVerificationError>)
    ensures
        ({
            let expected = targets_from(
                id,
                instructions@,
                0,
                no_targets(instructions@.len(), *old(usage)),
                state_limit,
            );
            match collected {
                Ok((protected, targets)) => expected == Ok::<
                    ProtectedTargets,
                    BytecodeVerificationError,
                >(targets@) && protected.holds(targets@, instructions@.len(), *final(usage))
                    && final(usage).policy_transfers == old(usage).policy_transfers,
                Err(error) => expected == Err::<ProtectedTargets, BytecodeVerificationError>(error)
                    || error == reservation_failure(
                    id,
                    BytecodeGraphResource::FrameStateEntries,
                    instructions@.len() as u64,
                ) || targets_memory_failure(
                    id,
                    instructions@,
                    0,
                    no_targets(instructions@.len(), *old(usage)),
                    state_limit,
                    error,
                ),
            }
        }),
{
    let count: usize = instructions.len();
    let handlers = try_filled_vec(id, count, false, BytecodeGraphResource::FrameStateEntries)?;
    let subroutines = try_filled_vec(id, count, false, BytecodeGraphResource::FrameStateEntries)?;
    let mut continuations: Vec<Vec<InstructionIndex>> = Vec::new();
    if reserve_vec_exact(&mut continuations, count).is_err() {
        return Err(allocation_error(id, BytecodeGraphResource::FrameStateEntries, count));
    }
    let mut filled: usize = 0;
    while filled < count
        invariant
            filled <= count,
            continuations@.len() == filled,
            forall|i: int| 0 <= i < filled ==> (#[trigger] continuations@[i])@.len() == 0,
        decreases count - filled,
    {
        continuations.push(Vec::new());
        filled = filled + 1;
    }
    proof {
        let expected = Seq::new(count as nat, |i: int| Seq::<InstructionIndex>::empty());
        assert forall|i: int| 0 <= i < count implies #[trigger] lists_of(continuations@)[i]
            == expected[i] by {
            assert(continuations@[i]@ =~= Seq::<InstructionIndex>::empty());
        }
        assert(lists_of(continuations@) =~= expected);
    }
    let mut protected = Protected { handlers, subroutines, continuations };
    let ghost mut targets = no_targets(count as nat, *usage);
    let ghost first = targets;
    proof {
        assert(lists_of(protected.continuations@).len() == count);
    }
    let ghost transfers = usage.policy_transfers;
    let mut at: usize = 0;
    while at < count
        invariant
            at <= count,
            count == instructions@.len(),
            protected.holds(targets, count as nat, *usage),
            usage.policy_transfers == transfers,
            first == no_targets(count as nat, *old(usage)),
            targets_from(id, instructions@, 0, first, state_limit) == targets_from(
                id,
                instructions@,
                at as int,
                targets,
                state_limit,
            ),
            forall|error: BytecodeVerificationError| #[trigger]
                targets_memory_failure(
                    id,
                    instructions@,
                    at as int,
                    targets,
                    state_limit,
                    error,
                ) ==> targets_memory_failure(id, instructions@, 0, first, state_limit, error),
        decreases count - at,
    {
        let verified = instructions[at];
        let decoded = verified.decoded;
        let ghost reached = targets;
        match decoded.instruction.opcode {
            FinalOpcode::Catch => {
                let handler: usize = match verified.successors.branch_target() {
                    Some(handler) => handler.0 as usize,
                    None => {
                        return Err(catch_stack_error(id, decoded));
                    },
                };
                if handler >= count {
                    return Err(catch_stack_error(id, decoded));
                }
                protected.handlers.set(handler, true);
                proof {
                    targets = ProtectedTargets { handlers: protected.handlers@, ..targets };
                }
            },
            FinalOpcode::Gosub => {
                let (target, continuation) = match (
                    verified.successors.branch_target(),
                    verified.successors.fallthrough(),
                ) {
                    (Some(target), Some(continuation)) => (target.0 as usize, continuation),
                    _ => {
                        return Err(finally_stack_error(id, decoded));
                    },
                };
                if target >= count {
                    return Err(finally_stack_error(id, decoded));
                }
                let ghost before = lists_of(protected.continuations@);
                protected.subroutines.set(target, true);
                let mut list: Vec<InstructionIndex> = Vec::new();
                protected.continuations.set_and_swap(target, &mut list);
                proof {
                    assert(list@ == before[target as int]);
                }
                if let Err(error) = reserve_slots(id, &mut list, 1) {
                    assert(targets_memory_failure(
                        id,
                        instructions@,
                        at as int,
                        targets,
                        state_limit,
                        error,
                    ));
                    return Err(error);
                }
                list.push(continuation);
                let ghost pushed = list@;
                protected.continuations.set(target, list);
                proof {
                    assert(lists_of(protected.continuations@) =~= before.update(
                        target as int,
                        pushed,
                    ));
                }
                charge_frame_state_entries(id, usage, 1, state_limit)?;
                proof {
                    targets = ProtectedTargets {
                        subroutines: protected.subroutines@,
                        continuations: lists_of(protected.continuations@),
                        usage: *usage,
                        ..targets
                    };
                }
            },
            _ => {},
        }
        proof {
            assert forall|error: BytecodeVerificationError| #[trigger]
                targets_memory_failure(
                    id,
                    instructions@,
                    at + 1,
                    targets,
                    state_limit,
                    error,
                ) implies targets_memory_failure(
                id,
                instructions@,
                0,
                first,
                state_limit,
                error,
            ) by {
                assert(targets_memory_failure(
                    id,
                    instructions@,
                    at as int,
                    reached,
                    state_limit,
                    error,
                ));
            }
        }
        at = at + 1;
    }
    Ok((protected, Ghost(targets)))
}

} // verus!
