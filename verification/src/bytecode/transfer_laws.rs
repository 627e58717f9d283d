//! What other instructions do to a typed operand stack, where paths may meet and
//! what exits may leave.
use crate::bytecode::error::BytecodeVerificationError;
use crate::bytecode::internal_propagation::{
    EdgeFacts, EdgeState, merged_close_record, propagated_stack, stack_exit_check, throw_check,
    with_closable_record,
};
use crate::bytecode::internal_stack::{
    CertifiedNipCatchTransform, EffectiveEdge, InternalStackValue as Slot, IterationBranchValue,
    RecordKind, SlotClass, YieldStarCallKind, forget, holds_class, in_class, record_at,
};
use crate::bytecode::internal_step::{edge_stack, stack_transfer};
use crate::bytecode::internal_transfer::Certification;
use crate::bytecode::internal_unwind::{discarded_check, encloses_record, topmost_catch};
use crate::bytecode::iteration_laws::{
    active_record, branches_with, certifies, closable_record, closing_record, exhausted_record,
    goes_on_with, hidden, plain, plain_stack,
};
use crate::control_flow::model::{InstructionIndex, VerifiedInstruction};
use crate::function_graph::FunctionTemplateId;
use crate::instruction::{BytecodePc, DecodedInstruction, Operands, StackEffect, StackEffectError};
use crate::opcode::FinalOpcode;
use vstd::prelude::*;

verus! {

/// Whether an opcode works on the stack by its declared effect alone, whatever
/// stands there.
pub open spec fn plain_opcode(opcode: FinalOpcode) -> bool {
    match opcode {
        FinalOpcode::SpecialObject
        | FinalOpcode::GetSuper
        | FinalOpcode::CallConstructor
        | FinalOpcode::Apply
        | FinalOpcode::CheckCtorReturn
        | FinalOpcode::Catch
        | FinalOpcode::ForInStart
        | FinalOpcode::ForInNext
        | FinalOpcode::ForOfStart
        | FinalOpcode::ForAwaitOfStart
        | FinalOpcode::ForOfNext
        | FinalOpcode::ForAwaitOfNext
        | FinalOpcode::IteratorGetValueDone
        | FinalOpcode::Await
        | FinalOpcode::IteratorNext
        | FinalOpcode::IteratorCheckObject
        | FinalOpcode::GetField2
        | FinalOpcode::GetField
        | FinalOpcode::YieldStar
        | FinalOpcode::AsyncYieldStar
        | FinalOpcode::Dup
        | FinalOpcode::Push2
        | FinalOpcode::StrictEq
        | FinalOpcode::IteratorCall
        | FinalOpcode::IfFalse
        | FinalOpcode::IfFalse8
        | FinalOpcode::IfTrue
        | FinalOpcode::IfTrue8
        | FinalOpcode::Drop
        | FinalOpcode::Nip
        | FinalOpcode::NipCatch
        | FinalOpcode::Rot3r
        | FinalOpcode::Undefined
        | FinalOpcode::IteratorClose
        | FinalOpcode::Ret
        | FinalOpcode::PutLoc
        | FinalOpcode::PutLoc8
        | FinalOpcode::PutLoc0
        | FinalOpcode::PutLoc1
        | FinalOpcode::PutLoc2
        | FinalOpcode::PutLoc3 => false,
        _ => true,
    }
}

/// An instruction of declared effect removes as many slots as it pops, which must
/// all be visible to JavaScript code, and pushes ordinary values. It is refused
/// while a record is being closed. Where slots are missing it is refused too, but
/// in code that nothing reaches, where control then ends.
pub proof fn lemma_effects_move_visible_values(
    id: FunctionTemplateId,
    decoded: DecodedInstruction,
    reachable: bool,
    handler: Option<InstructionIndex>,
    instructions: Seq<VerifiedInstruction>,
    state: Seq<Slot>,
    effect: StackEffect,
)
    requires
        plain_opcode(decoded.instruction.opcode),
        decoded.instruction.spec_stack_effect() == Ok::<StackEffect, StackEffectError>(effect),
        state.len() + effect.pushes <= usize::MAX,
    ensures
        ({
            let outcome = stack_transfer(id, decoded, reachable, handler, instructions, state);
            let kept = state.len() - effect.pops;
            let closing = exists|i: int|
                0 <= i < state.len() && ((#[trigger] state[i]) is ForOfCloseIterator || state[i]
                    is ForOfCloseNextMethod || state[i] is ForOfCloseDummy);
            let visible = forall|i: int| kept <= i < state.len() ==> !hidden(#[trigger] state[i]);
            if closing {
                outcome.is_err()
            } else if kept < 0 {
                if reachable {
                    outcome.is_err()
                } else {
                    match outcome {
                        Ok(Some(outcome)) => !outcome.step.transfer.normal_completion,
                        _ => false,
                    }
                }
            } else if !visible {
                outcome.is_err()
            } else {
                goes_on_with(
                    outcome,
                    plain_stack(state.take(kept)) + Seq::new(
                        effect.pushes as nat,
                        |i: int| Slot::Ordinary,
                    ),
                )
            }
        }),
{
    let outcome = stack_transfer(id, decoded, reachable, handler, instructions, state);
    let kept = state.len() - effect.pops;
    let closing = exists|i: int|
        0 <= i < state.len() && ((#[trigger] state[i]) is ForOfCloseIterator || state[i]
            is ForOfCloseNextMethod || state[i] is ForOfCloseDummy);
    let class = SlotClass::Close;
    let known = forget(state);
    if closing {
        let i = choose|i: int|
            0 <= i < state.len() && ((#[trigger] state[i]) is ForOfCloseIterator || state[i]
                is ForOfCloseNextMethod || state[i] is ForOfCloseDummy);
        assert(in_class(state[i], class));
        assert(holds_class(state, 0, class));
    } else {
        assert(!holds_class(state, 0, class));
    }
    let other = SlotClass::NotJavaScript;
    if kept >= 0 {
        let visible = forall|i: int| kept <= i < state.len() ==> !hidden(#[trigger] state[i]);
        assert forall|i: int| kept <= i < state.len() implies
            in_class(#[trigger] known[i], other)
            == hidden(state[i]) by {}
        if visible {
            assert(!holds_class(known, kept, other)) by {
                if holds_class(known, kept, other) {
                    let i = choose|i: int|
                        kept <= i < known.len() && in_class(
                            #[trigger] known[i],
                            other,
                        );
                    assert(hidden(state[i]));
                }
            }
            if !closing {
                assert(outcome->Ok_0.unwrap().state =~= plain_stack(state.take(kept)) + Seq::new(
                    effect.pushes as nat,
                    |i: int| Slot::Ordinary,
                ));
            }
        } else {
            let i = choose|i: int| kept <= i < state.len() && hidden(#[trigger] state[i]);
            assert(in_class(known[i], other));
        }
    }
}

/// The call of the superclass constructor. The active constructor gives way to
/// its superclass constructor, above which `new.target` is marked for it. The
/// call, with JavaScript arguments only, gives its result, and the check of a
/// constructor's return completes it. Dropping the completion leaves the result
/// as an ordinary value.
#[verifier::rlimit(60)]
pub proof fn lemma_super_calls_take_their_steps(
    id: FunctionTemplateId,
    active: DecodedInstruction,
    get: DecodedInstruction,
    target: DecodedInstruction,
    call: DecodedInstruction,
    check: DecodedInstruction,
    drops: DecodedInstruction,
    reachable: bool,
    handler: Option<InstructionIndex>,
    instructions: Seq<VerifiedInstruction>,
    below: Seq<Slot>,
    arguments: Seq<Slot>,
    site: BytecodePc,
    other: BytecodePc,
)
    requires
        active.instruction.opcode == FinalOpcode::SpecialObject,
        active.instruction.operands == Operands::U8(4),
        get.instruction.opcode == FinalOpcode::GetSuper,
        target.instruction.opcode == FinalOpcode::SpecialObject,
        target.instruction.operands == Operands::U8(3),
        call.instruction.opcode == FinalOpcode::CallConstructor,
        arguments.len() <= 0xffff,
        call.instruction.operands == (Operands::NPop { argument_count: arguments.len() as u16 }),
        check.instruction.opcode == FinalOpcode::CheckCtorReturn,
        drops.instruction.opcode == FinalOpcode::Drop,
    ensures
        ({
            let step = |decoded: DecodedInstruction, stack: Seq<Slot>|
                stack_transfer(id, decoded, reachable, handler, instructions, stack);
            let called = step(
                call,
                below + seq![
                    Slot::DerivedSuperConstructor(site),
                    Slot::DerivedSuperNewTarget(other),
                ] + arguments,
            );
            let visible = forall|i: int|
                0 <= i < arguments.len() ==> !hidden(#[trigger] arguments[i]);
            &&& goes_on_with(
                step(active, below),
                below.push(Slot::DerivedActiveConstructor(active.pc)),
            )
            &&& goes_on_with(
                step(get, below.push(Slot::DerivedActiveConstructor(site))),
                below.push(Slot::DerivedSuperConstructor(get.pc)),
            )
            &&& goes_on_with(
                step(target, below.push(Slot::DerivedSuperConstructor(site))),
                below + seq![
                    Slot::DerivedSuperConstructor(site),
                    Slot::DerivedSuperNewTarget(site),
                ],
            )
            &&& if site == other && visible {
                goes_on_with(called, below.push(Slot::DerivedSuperResult(call.pc)))
            } else {
                called.is_err()
            }
            &&& goes_on_with(
                step(check, below.push(Slot::DerivedSuperResult(site))),
                below + seq![Slot::DerivedSuperResult(site), Slot::DerivedSuperCompletion(site)],
            )
            &&& if site == other {
                goes_on_with(
                    step(
                        drops,
                        below + seq![
                            Slot::DerivedSuperResult(site),
                            Slot::DerivedSuperCompletion(other),
                        ],
                    ),
                    below.push(Slot::Ordinary),
                )
            } else {
                step(
                    drops,
                    below + seq![
                        Slot::DerivedSuperResult(site),
                        Slot::DerivedSuperCompletion(other),
                    ],
                ).is_err()
            }
        }),
{
    let second = below.push(Slot::DerivedActiveConstructor(site));
    assert(second.last() == Slot::DerivedActiveConstructor(site));
    assert(stack_transfer(
        id,
        get,
        reachable,
        handler,
        instructions,
        second,
    )->Ok_0.unwrap().state =~= below.push(Slot::DerivedSuperConstructor(get.pc)));
    let third = below.push(Slot::DerivedSuperConstructor(site));
    assert(third.last() == Slot::DerivedSuperConstructor(site));
    assert(stack_transfer(
        id,
        target,
        reachable,
        handler,
        instructions,
        third,
    )->Ok_0.unwrap().state =~= below + seq![
        Slot::DerivedSuperConstructor(site),
        Slot::DerivedSuperNewTarget(site),
    ]);
    let fourth = below + seq![
        Slot::DerivedSuperConstructor(site),
        Slot::DerivedSuperNewTarget(other),
    ] + arguments;
    let base = below.len() as int;
    assert(fourth[base] == Slot::DerivedSuperConstructor(site));
    assert(fourth[base + 1] == Slot::DerivedSuperNewTarget(other));
    assert(fourth.take(base) =~= below);
    let class = SlotClass::NotJavaScript;
    let visible = forall|i: int| 0 <= i < arguments.len() ==> !hidden(#[trigger] arguments[i]);
    if visible {
        if holds_class(fourth, base + 2, class) {
            let i = choose|i: int|
                base + 2 <= i < fourth.len() && in_class(
                    #[trigger] fourth[i],
                    class,
                );
            assert(fourth[i] == arguments[i - base - 2]);
        }
    } else {
        let i = choose|i: int| 0 <= i < arguments.len() && hidden(#[trigger] arguments[i]);
        assert(fourth[base + 2 + i] == arguments[i]);
        assert(in_class(fourth[base + 2 + i], class));
    }
    let fifth = below.push(Slot::DerivedSuperResult(site));
    assert(fifth.last() == Slot::DerivedSuperResult(site));
    assert(stack_transfer(
        id,
        check,
        reachable,
        handler,
        instructions,
        fifth,
    )->Ok_0.unwrap().state =~= below + seq![
        Slot::DerivedSuperResult(site),
        Slot::DerivedSuperCompletion(site),
    ]);
    let sixth = below + seq![Slot::DerivedSuperResult(site), Slot::DerivedSuperCompletion(other)];
    assert(sixth.last() == Slot::DerivedSuperCompletion(other));
    assert(sixth[sixth.len() - 2] == Slot::DerivedSuperResult(site));
    if site == other {
        assert(stack_transfer(
            id,
            drops,
            reachable,
            handler,
            instructions,
            sixth,
        )->Ok_0.unwrap().state =~= below.push(Slot::Ordinary));
    }
}

/// Dropping. The catch slot of an active record turns it into a delegation. The
/// done flag of an inner step leaves its value as that of a head, where another
/// active record stands below. A return address goes only from above the value
/// kept aside for its own subroutine. No other hidden slot of a for-of loop or a
/// delegation can be dropped.
#[verifier::rlimit(90)]
pub proof fn lemma_markers_are_dropped_in_their_place(
    id: FunctionTemplateId,
    decoded: DecodedInstruction,
    reachable: bool,
    handler: Option<InstructionIndex>,
    instructions: Seq<VerifiedInstruction>,
    below: Seq<Slot>,
    outer: BytecodePc,
    site: BytecodePc,
    target: InstructionIndex,
    pending: Slot,
)
    requires
        decoded.instruction.opcode == FinalOpcode::Drop,
    ensures
        ({
            let step = |stack: Seq<Slot>|
                stack_transfer(id, decoded, reachable, handler, instructions, stack);
            let returned = step(below + seq![pending, Slot::FinallyReturn { target }]);
            &&& goes_on_with(
                step(below + active_record(site)),
                below + seq![Slot::YieldStarIterator(site), Slot::YieldStarNextMethod(site)],
            )
            &&& goes_on_with(
                step(
                    below + active_record(outer) + active_record(site) + seq![
                        Slot::ForOfValue(site),
                        Slot::ForOfDone(site),
                    ],
                ),
                below + active_record(outer) + active_record(site) + seq![
                    Slot::ForOfHeadValue(site),
                ],
            )
            &&& goes_on_with(
                step(
                    below + seq![
                        Slot::YieldStarResumeValue(site),
                        Slot::YieldStarResumeMode(site),
                    ],
                ),
                below.push(Slot::Ordinary),
            )
            &&& match pending {
                Slot::FinallyPending { target: kept, .. } => if kept == target {
                    goes_on_with(returned, plain_stack(below).push(pending))
                } else {
                    returned.is_err()
                },
                _ => returned.is_err(),
            }
            &&& step(below.push(Slot::ForOfIterator(site))).is_err()
            &&& step(below.push(Slot::ForOfNextMethod(site))).is_err()
            &&& step(below.push(Slot::ForOfExhaustedCatch(site))).is_err()
            &&& step(below.push(Slot::ForOfClosableCatch(site))).is_err()
            &&& step(below.push(Slot::ForOfCloseDummy(site))).is_err()
            &&& step(below.push(Slot::ForOfDisabledCatch(site))).is_err()
            &&& step(below.push(Slot::YieldStarIterator(site))).is_err()
            &&& step(below.push(Slot::YieldStarNextMethod(site))).is_err()
            &&& step(below.push(Slot::YieldStarDummy(site))).is_err()
            &&& match step(Seq::empty()) {
                Ok(Some(outcome)) => !reachable && !outcome.step.transfer.normal_completion,
                Ok(None) => false,
                Err(_) => reachable,
            }
        }),
{
    let step = |stack: Seq<Slot>|
        stack_transfer(id, decoded, reachable, handler, instructions, stack);
    let base = below.len() as int;
    let first = below + active_record(site);
    assert(first[base] == Slot::ForOfIterator(site) && first[base + 1] == Slot::ForOfNextMethod(
        site,
    ) && first[base + 2] == Slot::ForOfCatch(site));
    assert(first.take(base) =~= below);
    assert(step(first)->Ok_0.unwrap().state =~= below + seq![
        Slot::YieldStarIterator(site),
        Slot::YieldStarNextMethod(site),
    ]);
    let second = below + active_record(outer) + active_record(site) + seq![
        Slot::ForOfValue(site),
        Slot::ForOfDone(site),
    ];
    assert(second[base] == Slot::ForOfIterator(outer) && second[base + 1] == Slot::ForOfNextMethod(
        outer,
    ) && second[base + 2] == Slot::ForOfCatch(outer));
    assert(second[base + 3] == Slot::ForOfIterator(site) && second[base + 4]
        == Slot::ForOfNextMethod(site) && second[base + 5] == Slot::ForOfCatch(site));
    assert(second[base + 6] == Slot::ForOfValue(site) && second[base + 7] == Slot::ForOfDone(site));
    assert(record_at(
        RecordKind::Active,
        second,
        base,
    ).is_some());
    assert(encloses_record(second, base + 3));
    assert(step(second)->Ok_0.unwrap().state =~= below + active_record(outer) + active_record(site)
        + seq![Slot::ForOfHeadValue(site)]);
    let third = below + seq![Slot::YieldStarResumeValue(site), Slot::YieldStarResumeMode(site)];
    assert(third[base] == Slot::YieldStarResumeValue(site) && third[base + 1]
        == Slot::YieldStarResumeMode(site));
    assert(step(third)->Ok_0.unwrap().state =~= below.push(Slot::Ordinary));
    let fourth = below + seq![pending, Slot::FinallyReturn { target }];
    assert(fourth[base] == pending && fourth[base + 1] == (Slot::FinallyReturn { target }));
    if let Slot::FinallyPending { target: kept, .. } = pending {
        if kept == target {
            assert(step(fourth)->Ok_0.unwrap().state =~= plain_stack(below).push(pending));
        }
    }
    assert(below.push(Slot::ForOfIterator(site)).last() == Slot::ForOfIterator(site));
    assert(below.push(Slot::ForOfNextMethod(site)).last() == Slot::ForOfNextMethod(site));
    assert(below.push(Slot::ForOfExhaustedCatch(site)).last() == Slot::ForOfExhaustedCatch(site));
    assert(below.push(Slot::ForOfClosableCatch(site)).last() == Slot::ForOfClosableCatch(site));
    assert(below.push(Slot::ForOfCloseDummy(site)).last() == Slot::ForOfCloseDummy(site));
    assert(below.push(Slot::ForOfDisabledCatch(site)).last() == Slot::ForOfDisabledCatch(site));
    assert(below.push(Slot::YieldStarIterator(site)).last() == Slot::YieldStarIterator(site));
    assert(below.push(Slot::YieldStarNextMethod(site)).last() == Slot::YieldStarNextMethod(site));
    assert(below.push(Slot::YieldStarDummy(site)).last() == Slot::YieldStarDummy(site));
}

/// `nip` removes what stands below a visible value: a slot of a delegation, an
/// enumeration, a value kept aside, or a return address above its own value.
/// Anything else, and anything below a hidden slot, is refused.
pub proof fn lemma_nip_removes_markers(
    id: FunctionTemplateId,
    decoded: DecodedInstruction,
    reachable: bool,
    handler: Option<InstructionIndex>,
    instructions: Seq<VerifiedInstruction>,
    below: Seq<Slot>,
    marker: Slot,
    value: Slot,
)
    requires
        decoded.instruction.opcode == FinalOpcode::Nip,
    ensures
        ({
            let outcome = stack_transfer(
                id,
                decoded,
                reachable,
                handler,
                instructions,
                below + seq![marker, value],
            );
            let delegation = marker is YieldStarIterator || marker is YieldStarNextMethod
                || marker is YieldStarDummy;
            let own = match marker {
                Slot::FinallyReturn { target } => below.len() > 0 && below.last() is FinallyPending
                    && below.last()->FinallyPending_target == target,
                _ => false,
            };
            if hidden(value) {
                outcome.is_err()
            } else if delegation {
                goes_on_with(outcome, below.push(value))
            } else if marker is ForInIterator || marker is FinallyPending || own {
                goes_on_with(outcome, plain_stack(below).push(plain(value)))
            } else {
                outcome.is_err()
            }
        }),
{
    let state = below + seq![marker, value];
    let base = below.len() as int;
    assert(state[base] == marker && state[base + 1] == value);
    if below.len() > 0 {
        assert(state[base - 1] == below.last());
    }
    let outcome = stack_transfer(id, decoded, reachable, handler, instructions, state);
    if outcome.is_ok() {
        let delegation = marker is YieldStarIterator || marker is YieldStarNextMethod || marker
            is YieldStarDummy;
        if delegation {
            assert(outcome->Ok_0.unwrap().state =~= below.push(value));
        } else {
            assert(outcome->Ok_0.unwrap().state =~= plain_stack(below).push(plain(value)));
        }
    }
}

/// `nip_catch` takes a visible value down to the topmost catch slot, removing
/// that slot and the visible values above it. Below a catch region the value is
/// then ordinary. Below a record, which must be whole, it is the completion that
/// leaves the loop. The rearrangement is certified with the depth before and the
/// depth of the slot.
pub proof fn lemma_nip_catch_unwinds_to_the_handler(
    id: FunctionTemplateId,
    decoded: DecodedInstruction,
    reachable: bool,
    handler: Option<InstructionIndex>,
    instructions: Seq<VerifiedInstruction>,
    below: Seq<Slot>,
    above: Seq<Slot>,
    site: BytecodePc,
    region: InstructionIndex,
    value: Slot,
)
    requires
        decoded.instruction.opcode == FinalOpcode::NipCatch,
        !hidden(value),
        forall|i: int| 0 <= i < above.len() ==> !hidden(#[trigger] above[i]),
        below.len() + above.len() + 4 <= u32::MAX,
    ensures
        ({
            let step = |stack: Seq<Slot>|
                stack_transfer(id, decoded, reachable, handler, instructions, stack);
            let certified = |depth: nat, kept: nat|
                Certification::NipCatch(
                    CertifiedNipCatchTransform {
                        input_depth: depth as u32,
                        retained_prefix: kept as u32,
                    },
                );
            let depth = below.len() + above.len();
            &&& certifies(
                step(
                    below.push(Slot::CatchMarker { site, handler: region }) + above + seq![value],
                ),
                plain_stack(below).push(Slot::Ordinary),
                certified(depth + 2, below.len()),
            )
            &&& certifies(
                step(below + active_record(site) + above + seq![value]),
                plain_stack(below) + seq![
                    Slot::ForOfIterator(site),
                    Slot::ForOfNextMethod(site),
                    Slot::ForOfReturnValue(site),
                ],
                certified(depth + 4, below.len() + 2),
            )
            &&& certifies(
                step(below + exhausted_record(site) + above + seq![value]),
                plain_stack(below) + seq![
                    Slot::ForOfExhaustedIterator(site),
                    Slot::ForOfExhaustedNextMethod(site),
                    Slot::ForOfReturnValue(site),
                ],
                certified(depth + 4, below.len() + 2),
            )
            &&& certifies(
                step(below + closable_record(site) + above + seq![value]),
                plain_stack(below) + seq![
                    Slot::ForOfClosableIterator(site),
                    Slot::ForOfClosableNextMethod(site),
                    Slot::ForOfReturnValue(site),
                ],
                certified(depth + 4, below.len() + 2),
            )
        }),
{
    lemma_nip_catch_below_region(
        id,
        decoded,
        reachable,
        handler,
        instructions,
        below,
        above,
        site,
        region,
        value,
    );
    lemma_nip_catch_below_record(
        id,
        decoded,
        reachable,
        handler,
        instructions,
        below,
        active_record(site),
        above,
        site,
        value,
    );
    lemma_nip_catch_below_record(
        id,
        decoded,
        reachable,
        handler,
        instructions,
        below,
        exhausted_record(site),
        above,
        site,
        value,
    );
    lemma_nip_catch_below_record(
        id,
        decoded,
        reachable,
        handler,
        instructions,
        below,
        closable_record(site),
        above,
        site,
        value,
    );
    assert(plain_stack(below) + seq![
        Slot::ForOfIterator(site),
        Slot::ForOfNextMethod(site),
        Slot::ForOfReturnValue(site),
    ] =~= plain_stack(below).push(active_record(site)[0]).push(active_record(site)[1]).push(
        Slot::ForOfReturnValue(site),
    ));
    assert(plain_stack(below) + seq![
        Slot::ForOfExhaustedIterator(site),
        Slot::ForOfExhaustedNextMethod(site),
        Slot::ForOfReturnValue(site),
    ] =~= plain_stack(below).push(exhausted_record(site)[0]).push(exhausted_record(site)[1]).push(
        Slot::ForOfReturnValue(site),
    ));
    assert(plain_stack(below) + seq![
        Slot::ForOfClosableIterator(site),
        Slot::ForOfClosableNextMethod(site),
        Slot::ForOfReturnValue(site),
    ] =~= plain_stack(below).push(closable_record(site)[0]).push(closable_record(site)[1]).push(
        Slot::ForOfReturnValue(site),
    ));
}

proof fn lemma_nip_catch_below_region(
    id: FunctionTemplateId,
    decoded: DecodedInstruction,
    reachable: bool,
    handler: Option<InstructionIndex>,
    instructions: Seq<VerifiedInstruction>,
    below: Seq<Slot>,
    above: Seq<Slot>,
    site: BytecodePc,
    region: InstructionIndex,
    value: Slot,
)
    requires
        decoded.instruction.opcode == FinalOpcode::NipCatch,
        !hidden(value),
        forall|i: int| 0 <= i < above.len() ==> !hidden(#[trigger] above[i]),
        below.len() + above.len() + 4 <= u32::MAX,
    ensures
        certifies(
            stack_transfer(
                id,
                decoded,
                reachable,
                handler,
                instructions,
                below.push(Slot::CatchMarker { site, handler: region }) + above + seq![value],
            ),
            plain_stack(below).push(Slot::Ordinary),
            Certification::NipCatch(
                CertifiedNipCatchTransform {
                    input_depth: (below.len() + above.len() + 2) as u32,
                    retained_prefix: below.len() as u32,
                },
            ),
        ),
{
    let state = below.push(Slot::CatchMarker { site, handler: region }) + above + seq![value];
    let base = below.len() as int;
    let end = state.len() - 1;
    assert(state[end] == value);
    assert(state[base] == (Slot::CatchMarker { site, handler: region }));
    assert forall|i: int| base < i < end implies !hidden(#[trigger] state[i]) by {
        assert(state[i] == above[i - base - 1]);
    }
    lemma_topmost_is(state, base, end);
    lemma_discards(id, decoded, state, base + 1, end, false);
    let outcome = stack_transfer(id, decoded, reachable, handler, instructions, state);
    assert(outcome->Ok_0.unwrap().state =~= plain_stack(below).push(Slot::Ordinary));
}

proof fn lemma_nip_catch_below_record(
    id: FunctionTemplateId,
    decoded: DecodedInstruction,
    reachable: bool,
    handler: Option<InstructionIndex>,
    instructions: Seq<VerifiedInstruction>,
    below: Seq<Slot>,
    record: Seq<Slot>,
    above: Seq<Slot>,
    site: BytecodePc,
    value: Slot,
)
    requires
        decoded.instruction.opcode == FinalOpcode::NipCatch,
        !hidden(value),
        forall|i: int| 0 <= i < above.len() ==> !hidden(#[trigger] above[i]),
        below.len() + above.len() + 4 <= u32::MAX,
        record == active_record(site) || record == exhausted_record(site) || record
            == closable_record(site),
    ensures
        certifies(
            stack_transfer(
                id,
                decoded,
                reachable,
                handler,
                instructions,
                below + record + above + seq![value],
            ),
            plain_stack(below).push(record[0]).push(record[1]).push(Slot::ForOfReturnValue(site)),
            Certification::NipCatch(
                CertifiedNipCatchTransform {
                    input_depth: (below.len() + above.len() + 4) as u32,
                    retained_prefix: (below.len() + 2) as u32,
                },
            ),
        ),
{
    let state = below + record + above + seq![value];
    let base = below.len() as int;
    let end = state.len() - 1;
    assert(state[end] == value);
    assert(state[base] == record[0] && state[base + 1] == record[1] && state[base + 2]
        == record[2]);
    assert forall|i: int| base + 2 < i < end implies !hidden(#[trigger] state[i]) by {
        assert(state[i] == above[i - base - 3]);
    }
    lemma_topmost_is(state, base + 2, end);
    lemma_discards(id, decoded, state, base + 3, end, true);
    let outcome = stack_transfer(id, decoded, reachable, handler, instructions, state);
    assert(outcome->Ok_0.unwrap().state =~= plain_stack(below).push(record[0]).push(
        record[1],
    ).push(Slot::ForOfReturnValue(site)));
}

proof fn lemma_topmost_is(state: Seq<Slot>, marker: int, end: int)
    requires
        0 <= marker < end <= state.len(),
        state[marker] is CatchMarker || state[marker] is ForOfCatch || state[marker]
            is ForOfExhaustedCatch || state[marker] is ForOfClosableCatch,
        forall|i: int| marker < i < end ==> !hidden(#[trigger] state[i]),
    ensures
        topmost_catch(state, end) == Some(marker),
    decreases end,
{
    if end - 1 > marker {
        assert(!hidden(state[end - 1]));
        lemma_topmost_is(state, marker, end - 1);
    }
}

proof fn lemma_discards(
    id: FunctionTemplateId,
    decoded: DecodedInstruction,
    state: Seq<Slot>,
    cursor: int,
    end: int,
    for_of: bool,
)
    requires
        0 <= cursor,
        end <= state.len(),
        forall|i: int| cursor <= i < end ==> !hidden(#[trigger] state[i]),
    ensures
        discarded_check(id, decoded, state, cursor, end, for_of).is_ok(),
    decreases end - cursor,
{
    if cursor < end {
        assert(!hidden(state[cursor]));
        lemma_discards(id, decoded, state, cursor + 1, end, for_of);
    }
}

/// Delegation to another iterator, step by step. Its record is iterator, next
/// method and a filler. `iterator_next` with a visible argument gives a result
/// object, whose done flag a read pushes. Behind the branch a result is final or
/// to be yielded, by itself or, awaited, by its value. Yielding leaves the value
/// and the mode of the resumption, whose test tells a throw.
#[verifier::rlimit(60)]
pub proof fn lemma_delegations_take_their_steps(
    id: FunctionTemplateId,
    decoded: DecodedInstruction,
    reachable: bool,
    handler: Option<InstructionIndex>,
    instructions: Seq<VerifiedInstruction>,
    below: Seq<Slot>,
    site: BytecodePc,
    other: BytecodePc,
    value: Slot,
)
    ensures
        ({
            let step = |stack: Seq<Slot>|
                stack_transfer(id, decoded, reachable, handler, instructions, stack);
            let open = below + seq![Slot::YieldStarIterator(site), Slot::YieldStarNextMethod(site)];
            let record = open.push(Slot::YieldStarDummy(site));
            let result = Slot::YieldStarIteratorResult(site);
            match decoded.instruction.opcode {
                FinalOpcode::Undefined => goes_on_with(step(open), record) && goes_on_with(
                    step(record),
                    record.push(Slot::Ordinary),
                ),
                FinalOpcode::IteratorNext => if hidden(value) {
                    step(record.push(value)).is_err()
                } else {
                    goes_on_with(step(record.push(value)), record.push(result))
                },
                FinalOpcode::Await => goes_on_with(
                    step(below.push(result)),
                    below.push(result),
                ) && goes_on_with(
                    step(below.push(Slot::ForOfAwaitResult(site))),
                    below.push(Slot::ForOfAwaitedResult(site)),
                ),
                FinalOpcode::IteratorCheckObject => goes_on_with(
                    step(below.push(result)),
                    below.push(result),
                ) && goes_on_with(
                    step(below.push(Slot::YieldStarYieldResult(site))),
                    below.push(Slot::YieldStarYieldResult(site)),
                ) && goes_on_with(
                    step(below.push(Slot::YieldStarFinalResult(site))),
                    below.push(Slot::YieldStarFinalResult(site)),
                ),
                FinalOpcode::GetField2 => goes_on_with(
                    step(below.push(result)),
                    below + seq![result, Slot::YieldStarDone(site)],
                ),
                FinalOpcode::GetField => goes_on_with(
                    step(below.push(Slot::YieldStarYieldResult(site))),
                    below.push(Slot::YieldStarYieldValue(site)),
                ) && goes_on_with(step(below.push(result)), below.push(Slot::Ordinary))
                    && goes_on_with(
                    step(below.push(Slot::YieldStarFinalResult(site))),
                    below.push(Slot::Ordinary),
                ),
                FinalOpcode::YieldStar => goes_on_with(
                    step(below.push(Slot::YieldStarYieldResult(site))),
                    below + seq![
                        Slot::YieldStarResumeValue(site),
                        Slot::YieldStarResumeMode(site),
                    ],
                ) && (!(value is YieldStarYieldResult) ==> step(below.push(value)).is_err()),
                FinalOpcode::AsyncYieldStar => goes_on_with(
                    step(below.push(Slot::YieldStarYieldValue(site))),
                    below + seq![
                        Slot::YieldStarResumeValue(site),
                        Slot::YieldStarResumeMode(site),
                    ],
                ) && (!(value is YieldStarYieldValue) ==> step(below.push(value)).is_err()),
                FinalOpcode::Dup => goes_on_with(
                    step(below.push(Slot::YieldStarResumeMode(site))),
                    below + seq![
                        Slot::YieldStarResumeMode(site),
                        Slot::YieldStarResumeModeTest(site),
                    ],
                ),
                FinalOpcode::Push2 => goes_on_with(
                    step(below.push(Slot::YieldStarResumeMode(site))),
                    below + seq![Slot::YieldStarResumeMode(site), Slot::Ordinary],
                ),
                FinalOpcode::StrictEq => goes_on_with(
                    step(below + seq![Slot::YieldStarResumeMode(site), Slot::Ordinary]),
                    below.push(Slot::YieldStarIsThrow(site)),
                ),
                _ => true,
            }
        }),
{
    let step = |stack: Seq<Slot>|
        stack_transfer(id, decoded, reachable, handler, instructions, stack);
    let open = below + seq![Slot::YieldStarIterator(site), Slot::YieldStarNextMethod(site)];
    let record = open.push(Slot::YieldStarDummy(site));
    let result = Slot::YieldStarIteratorResult(site);
    let base = below.len() as int;
    let opcode = decoded.instruction.opcode;
    assert(open[base] == Slot::YieldStarIterator(site) && open[base + 1]
        == Slot::YieldStarNextMethod(site));
    assert(record[base] == Slot::YieldStarIterator(site) && record[base + 1]
        == Slot::YieldStarNextMethod(site) && record[base + 2] == Slot::YieldStarDummy(site));
    let full = record.push(value);
    assert(full[base] == Slot::YieldStarIterator(site) && full[base + 1]
        == Slot::YieldStarNextMethod(site) && full[base + 2] == Slot::YieldStarDummy(site)
        && full[base + 3] == value);
    if opcode == FinalOpcode::IteratorNext && !hidden(value) {
        assert(step(full)->Ok_0.unwrap().state =~= record.push(result));
    }
    let one = below.push(result);
    assert(one.last() == result);
    let yields = below.push(Slot::YieldStarYieldResult(site));
    assert(yields.last() == Slot::YieldStarYieldResult(site));
    let ends = below.push(Slot::YieldStarFinalResult(site));
    assert(ends.last() == Slot::YieldStarFinalResult(site));
    let values = below.push(Slot::YieldStarYieldValue(site));
    assert(values.last() == Slot::YieldStarYieldValue(site));
    let mode = below.push(Slot::YieldStarResumeMode(site));
    assert(mode.last() == Slot::YieldStarResumeMode(site));
    let promise = below.push(Slot::ForOfAwaitResult(site));
    assert(promise.last() == Slot::ForOfAwaitResult(site));
    assert(below.push(value).last() == value);
    if opcode == FinalOpcode::Await {
        assert(step(promise)->Ok_0.unwrap().state =~= below.push(Slot::ForOfAwaitedResult(site)));
    }
    if opcode == FinalOpcode::GetField2 {
        assert(step(one)->Ok_0.unwrap().state =~= below + seq![result, Slot::YieldStarDone(site)]);
    }
    if opcode == FinalOpcode::GetField {
        assert(step(yields)->Ok_0.unwrap().state =~= below.push(Slot::YieldStarYieldValue(site)));
        assert(step(one)->Ok_0.unwrap().state =~= below.push(Slot::Ordinary));
        assert(step(ends)->Ok_0.unwrap().state =~= below.push(Slot::Ordinary));
    }
    if opcode == FinalOpcode::YieldStar {
        assert(step(yields)->Ok_0.unwrap().state =~= below + seq![
            Slot::YieldStarResumeValue(site),
            Slot::YieldStarResumeMode(site),
        ]);
    }
    if opcode == FinalOpcode::AsyncYieldStar {
        assert(step(values)->Ok_0.unwrap().state =~= below + seq![
            Slot::YieldStarResumeValue(site),
            Slot::YieldStarResumeMode(site),
        ]);
    }
    if opcode == FinalOpcode::Dup {
        assert(step(mode)->Ok_0.unwrap().state =~= below + seq![
            Slot::YieldStarResumeMode(site),
            Slot::YieldStarResumeModeTest(site),
        ]);
    }
    if opcode == FinalOpcode::Push2 {
        assert(step(mode)->Ok_0.unwrap().state =~= below + seq![
            Slot::YieldStarResumeMode(site),
            Slot::Ordinary,
        ]);
    }
    let tested = below + seq![Slot::YieldStarResumeMode(site), Slot::Ordinary];
    assert(tested[base] == Slot::YieldStarResumeMode(site) && tested[base + 1] == Slot::Ordinary);
    if opcode == FinalOpcode::StrictEq {
        assert(step(tested)->Ok_0.unwrap().state =~= below.push(Slot::YieldStarIsThrow(site)));
    }
}

/// `iterator_call` calls a method of the delegate with the value of the
/// resumption of that same delegation: flags zero return, one throws, two close.
/// It leaves the value of the call and whether the method is missing. The branch
/// on that and on the done flag decide what the value is on each edge.
#[verifier::rlimit(40)]
pub proof fn lemma_delegate_calls_take_their_steps(
    id: FunctionTemplateId,
    call: DecodedInstruction,
    branch: DecodedInstruction,
    reachable: bool,
    handler: Option<InstructionIndex>,
    instructions: Seq<VerifiedInstruction>,
    edge: EffectiveEdge,
    below: Seq<Slot>,
    site: BytecodePc,
    other: BytecodePc,
    flags: u8,
    kind: YieldStarCallKind,
)
    requires
        call.instruction.opcode == FinalOpcode::IteratorCall,
        call.instruction.operands == Operands::U8(flags),
        branch.instruction.opcode == FinalOpcode::IfTrue || branch.instruction.opcode
            == FinalOpcode::IfTrue8,
        !edge.enters_finally,
        flags == 0 ==> kind == YieldStarCallKind::Return,
        flags == 1 ==> kind == YieldStarCallKind::Throw,
        flags == 2 ==> kind == YieldStarCallKind::Close,
    ensures
        ({
            let record = below + seq![
                Slot::YieldStarIterator(site),
                Slot::YieldStarNextMethod(site),
                Slot::YieldStarDummy(site),
            ];
            let called = stack_transfer(
                id,
                call,
                reachable,
                handler,
                instructions,
                record.push(Slot::YieldStarResumeValue(other)),
            );
            let value = IterationBranchValue::YieldStarMethod { site, kind };
            let waiting = record.push(Slot::YieldStarCallValue(site, kind));
            &&& if site == other && flags <= 2 {
                goes_on_with(
                    called,
                    record + seq![
                        Slot::YieldStarCallValue(site, kind),
                        Slot::YieldStarMethodMissing(site, kind),
                    ],
                )
            } else {
                called.is_err()
            }
            &&& branches_with(
                stack_transfer(
                    id,
                    branch,
                    reachable,
                    handler,
                    instructions,
                    waiting.push(Slot::YieldStarMethodMissing(site, kind)),
                ),
                waiting,
                value,
            )
            &&& edge_stack(id, branch, Some(value), edge, waiting) == Ok::<
                Seq<Slot>,
                BytecodeVerificationError,
            >(
                record.push(
                    if kind == YieldStarCallKind::Close {
                        Slot::Ordinary
                    } else if !edge.is_branch_target {
                        Slot::YieldStarIteratorResult(site)
                    } else if kind == YieldStarCallKind::Throw {
                        Slot::YieldStarResumeValue(site)
                    } else {
                        Slot::Ordinary
                    },
                ),
            )
        }),
{
    let record = below + seq![
        Slot::YieldStarIterator(site),
        Slot::YieldStarNextMethod(site),
        Slot::YieldStarDummy(site),
    ];
    let base = below.len() as int;
    let state = record.push(Slot::YieldStarResumeValue(other));
    assert(state[base] == Slot::YieldStarIterator(site) && state[base + 1]
        == Slot::YieldStarNextMethod(site) && state[base + 2] == Slot::YieldStarDummy(site)
        && state[base + 3] == Slot::YieldStarResumeValue(other));
    let called = stack_transfer(id, call, reachable, handler, instructions, state);
    if site == other && flags <= 2 {
        assert(called->Ok_0.unwrap().state =~= record + seq![
            Slot::YieldStarCallValue(site, kind),
            Slot::YieldStarMethodMissing(site, kind),
        ]);
    }
    let waiting = record.push(Slot::YieldStarCallValue(site, kind));
    let tested = waiting.push(Slot::YieldStarMethodMissing(site, kind));
    assert(tested[tested.len() - 1] == Slot::YieldStarMethodMissing(site, kind));
    assert(tested[tested.len() - 2] == Slot::YieldStarCallValue(site, kind));
    let outcome = stack_transfer(id, branch, reachable, handler, instructions, tested);
    assert(outcome->Ok_0.unwrap().state =~= waiting);
    assert(waiting.last() == Slot::YieldStarCallValue(site, kind));
    let value = IterationBranchValue::YieldStarMethod { site, kind };
    let carried = edge_stack(id, branch, Some(value), edge, waiting);
    assert(carried->Ok_0 =~= record.push(
        if kind == YieldStarCallKind::Close {
            Slot::Ordinary
        } else if !edge.is_branch_target {
            Slot::YieldStarIteratorResult(site)
        } else if kind == YieldStarCallKind::Throw {
            Slot::YieldStarResumeValue(site)
        } else {
            Slot::Ordinary
        },
    ));
}

/// The branch on the done flag of a delegation: the result is final on the edge
/// where the flag is true and to be yielded on the other.
pub proof fn lemma_delegation_branches_tell_final_results(
    id: FunctionTemplateId,
    branch: DecodedInstruction,
    reachable: bool,
    handler: Option<InstructionIndex>,
    instructions: Seq<VerifiedInstruction>,
    edge: EffectiveEdge,
    below: Seq<Slot>,
    site: BytecodePc,
)
    requires
        branch.instruction.opcode == FinalOpcode::IfTrue || branch.instruction.opcode
            == FinalOpcode::IfTrue8 || branch.instruction.opcode == FinalOpcode::IfFalse
            || branch.instruction.opcode == FinalOpcode::IfFalse8,
        !edge.enters_finally,
    ensures
        ({
            let when_true = branch.instruction.opcode == FinalOpcode::IfTrue
                || branch.instruction.opcode == FinalOpcode::IfTrue8;
            let value = IterationBranchValue::YieldStarDone { site, branch_when_true: when_true };
            let result = below.push(Slot::YieldStarIteratorResult(site));
            &&& branches_with(
                stack_transfer(
                    id,
                    branch,
                    reachable,
                    handler,
                    instructions,
                    result.push(Slot::YieldStarDone(site)),
                ),
                result,
                value,
            )
            &&& edge_stack(id, branch, Some(value), edge, result) == Ok::<
                Seq<Slot>,
                BytecodeVerificationError,
            >(
                below.push(
                    if edge.is_branch_target == when_true {
                        Slot::YieldStarFinalResult(site)
                    } else {
                        Slot::YieldStarYieldResult(site)
                    },
                ),
            )
        }),
{
    let when_true = branch.instruction.opcode == FinalOpcode::IfTrue || branch.instruction.opcode
        == FinalOpcode::IfTrue8;
    let value = IterationBranchValue::YieldStarDone { site, branch_when_true: when_true };
    let result = below.push(Slot::YieldStarIteratorResult(site));
    let state = result.push(Slot::YieldStarDone(site));
    assert(state[state.len() - 1] == Slot::YieldStarDone(site));
    assert(state[state.len() - 2] == Slot::YieldStarIteratorResult(site));
    let outcome = stack_transfer(id, branch, reachable, handler, instructions, state);
    assert(outcome->Ok_0.unwrap().state =~= result);
    assert(result.last() == Slot::YieldStarIteratorResult(site));
    let carried = edge_stack(id, branch, Some(value), edge, result);
    assert(carried->Ok_0 =~= below.push(
        if edge.is_branch_target == when_true {
            Slot::YieldStarFinalResult(site)
        } else {
            Slot::YieldStarYieldResult(site)
        },
    ));
}

/// The taken edge of a `with` instruction carries what was found: one value for
/// `with_get_var` and `with_delete_var`, two for `with_make_ref` and
/// `with_get_ref`. Every other plain edge carries the stack as it is.
pub proof fn lemma_edges_carry_what_was_found(
    id: FunctionTemplateId,
    decoded: DecodedInstruction,
    edge: EffectiveEdge,
    stack: Seq<Slot>,
)
    requires
        !edge.enters_finally,
        decoded.instruction.opcode != FinalOpcode::Catch || !edge.is_branch_target,
    ensures
        edge_stack(id, decoded, None, edge, stack) == Ok::<Seq<Slot>, BytecodeVerificationError>(
            if !edge.is_branch_target {
                stack
            } else {
                match decoded.instruction.opcode {
                    FinalOpcode::WithGetVar | FinalOpcode::WithDeleteVar => stack.push(
                        Slot::Ordinary,
                    ),
                    FinalOpcode::WithMakeRef | FinalOpcode::WithGetRef => stack.push(
                        Slot::Ordinary,
                    ).push(Slot::Ordinary),
                    _ => stack,
                }
            },
        ),
{
    let carried = edge_stack(id, decoded, None, edge, stack);
    let opcode = decoded.instruction.opcode;
    if edge.is_branch_target && (opcode == FinalOpcode::WithGetVar || opcode
        == FinalOpcode::WithDeleteVar) {
        assert(carried->Ok_0 =~= stack.push(Slot::Ordinary));
    } else if edge.is_branch_target && (opcode == FinalOpcode::WithMakeRef || opcode
        == FinalOpcode::WithGetRef) {
        assert(carried->Ok_0 =~= stack.push(Slot::Ordinary).push(Slot::Ordinary));
    } else {
        assert(carried->Ok_0 =~= stack);
    }
}

/// Where paths of one component meet before an instruction that closes no
/// iterator and starts no finally subroutine, their stacks are the same. The
/// first stack is recorded, charged and queued, and an equal one changes nothing.
/// A different one is refused.
pub proof fn lemma_meeting_stacks_are_the_same(
    id: FunctionTemplateId,
    edge: EdgeFacts,
    output: Seq<Slot>,
    state: EdgeState,
    limit: u64,
)
    requires
        !edge.target.finally_entry,
        !edge.target.iterator_close,
        !edge.enters_finally,
        edge.successor.spec_get() < state.entries.len(),
        state.components.len() == state.entries.len(),
        state.queued.len() == state.entries.len(),
        state.components[edge.successor.spec_get() as int].is_none() || state.components[
        edge.successor.spec_get() as int] == Some(edge.component),
        output.len() <= u64::MAX,
    ensures
        ({
            let at = edge.successor.spec_get() as int;
            let met = propagated_stack(id, edge, output, state, limit);
            match state.entries[at] {
                None => if state.usage.frame_state_entries + output.len() <= limit {
                    &&& met.is_ok()
                    &&& met->Ok_0.entries == state.entries.update(at, Some(output))
                    &&& met->Ok_0.components[at] == Some(edge.component)
                    &&& met->Ok_0.queued[at]
                    &&& !state.queued[at] ==> met->Ok_0.work == state.work.push(at as usize)
                    &&& state.queued[at] ==> met->Ok_0.work == state.work
                    &&& met->Ok_0.usage.frame_state_entries == state.usage.frame_state_entries
                        + output.len()
                } else {
                    met.is_err()
                },
                Some(existing) => if existing == output {
                    &&& met.is_ok()
                    &&& met->Ok_0.entries == state.entries
                    &&& met->Ok_0.work == state.work
                    &&& met->Ok_0.queued == state.queued
                    &&& met->Ok_0.usage == state.usage
                } else {
                    met.is_err()
                },
            }
        }),
{
}

/// Before an instruction that closes an iterator two stacks may differ in one
/// thing: the state of the record on top. Active and exhausted records meet as
/// one that may be exhausted, and that meets each of them. Stacks that differ
/// elsewhere, or in the loop, do not meet.
pub proof fn lemma_records_meet_where_they_are_closed(
    below: Seq<Slot>,
    other: Seq<Slot>,
    site: BytecodePc,
    elsewhere: BytecodePc,
)
    ensures
        ({
            let closable = Some((below + closable_record(site), true));
            let kept = Some((below + closable_record(site), false));
            &&& merged_close_record(below + active_record(site), below + exhausted_record(site))
                == closable
            &&& merged_close_record(below + exhausted_record(site), below + active_record(site))
                == closable
            &&& merged_close_record(below + active_record(site), below + closable_record(site))
                == closable
            &&& merged_close_record(below + exhausted_record(site), below + closable_record(site))
                == closable
            &&& merged_close_record(below + closable_record(site), below + active_record(site))
                == kept
            &&& merged_close_record(below + closable_record(site), below + exhausted_record(site))
                == kept
            &&& site != elsewhere || below != other ==> merged_close_record(
                below + active_record(site),
                other + exhausted_record(elsewhere),
            ).is_none()
        }),
{
    let base = below.len() as int;
    let a = below + active_record(site);
    let e = below + exhausted_record(site);
    let c = below + closable_record(site);
    assert(a.take(base) =~= below && e.take(base) =~= below && c.take(base) =~= below);
    assert(a[base] == Slot::ForOfIterator(site) && a[base + 1] == Slot::ForOfNextMethod(site) && a[
    base + 2] == Slot::ForOfCatch(site));
    assert(e[base] == Slot::ForOfExhaustedIterator(site) && e[base + 1]
        == Slot::ForOfExhaustedNextMethod(site) && e[base + 2] == Slot::ForOfExhaustedCatch(site));
    assert(c[base] == Slot::ForOfClosableIterator(site) && c[base + 1]
        == Slot::ForOfClosableNextMethod(site) && c[base + 2] == Slot::ForOfClosableCatch(site));
    assert(with_closable_record(a, site) =~= c);
    assert(with_closable_record(e, site) =~= c);
    assert(with_closable_record(c, site) =~= c);
    let d = other + exhausted_record(elsewhere);
    let last = other.len() as int;
    assert(d.take(last) =~= other);
    assert(d[last] == Slot::ForOfExhaustedIterator(elsewhere) && d[last + 1]
        == Slot::ForOfExhaustedNextMethod(elsewhere) && d[last + 2] == Slot::ForOfExhaustedCatch(
        elsewhere,
    ));
}

/// A finally subroutine is entered only with its own value kept aside and its own
/// return address on top, and no other instruction is entered as one.
pub proof fn lemma_subroutines_are_entered_with_their_pair(
    id: FunctionTemplateId,
    edge: EdgeFacts,
    output: Seq<Slot>,
    state: EdgeState,
    limit: u64,
)
    requires
        edge.successor.spec_get() < state.entries.len(),
        state.components.len() == state.entries.len(),
        state.components[edge.successor.spec_get() as int].is_none() || state.components[
        edge.successor.spec_get() as int] == Some(edge.component),
        propagated_stack(id, edge, output, state, limit).is_ok(),
    ensures
        edge.target.finally_entry ==> output.len() >= 2 && output[output.len() - 2]
            is FinallyPending && output[output.len() - 2]->FinallyPending_target == edge.successor
            && output.last() == (Slot::FinallyReturn { target: edge.successor }),
        edge.enters_finally ==> edge.target.finally_entry,
{
}

/// What a terminal that is no throw may leave, where no finally pair is on top:
/// no slot of a catch region, of a finally subroutine, of a for-of loop or of a
/// delegation. Only a tail call may leave an enumeration, and in a body with
/// finally subroutines only a tail call may leave anything.
pub proof fn lemma_exits_leave_no_markers(
    id: FunctionTemplateId,
    decoded: DecodedInstruction,
    state: Seq<Slot>,
    has_finally: bool,
)
    requires
        decoded.instruction.opcode != FinalOpcode::Throw,
        decoded.instruction.opcode != FinalOpcode::ThrowError,
        forall|i: int|
            0 <= i < state.len() ==> (#[trigger] state[i]) == Slot::Ordinary || state[i]
                is ForInIterator || state[i] is CatchMarker || state[i] is ForOfCatch || state[i]
                is YieldStarDummy || state[i] is ForOfValue,
    ensures
        stack_exit_check(id, decoded, state, has_finally).is_ok() <==> {
            &&& forall|i: int|
                0 <= i < state.len() ==> (#[trigger] state[i]) == Slot::Ordinary || state[i]
                    is ForInIterator
            &&& {
                ||| decoded.instruction.opcode == FinalOpcode::TailCall
                ||| decoded.instruction.opcode == FinalOpcode::TailCallMethod
                ||| (forall|i: int|
                    0 <= i < state.len() ==> (#[trigger] state[i]) == Slot::Ordinary) && (
                has_finally ==> state.len() == 0)
            }
        },
{
    if state.len() > 0 {
        assert(!(state[state.len() - 1] is FinallyReturn));
    }
    assert(state.take(state.len() as int) =~= state);
    let f = SlotClass::Finally;
    let o = SlotClass::ForOf;
    let c = SlotClass::CatchMarker;
    let n = SlotClass::ForInIterator;
    assert(!holds_class(state, 0, f));
    if stack_exit_check(id, decoded, state, has_finally).is_ok() {
        assert forall|i: int| 0 <= i < state.len() implies (#[trigger] state[i]) == Slot::Ordinary
            || state[i] is ForInIterator by {
            if state[i] is CatchMarker {
                assert(in_class(state[i], c));
            }
            if state[i] is ForOfCatch || state[i] is YieldStarDummy || state[i] is ForOfValue {
                assert(in_class(state[i], o));
            }
        }
        if decoded.instruction.opcode != FinalOpcode::TailCall && decoded.instruction.opcode
            != FinalOpcode::TailCallMethod {
            assert forall|i: int| 0 <= i < state.len() implies (#[trigger] state[i])
                == Slot::Ordinary by {
                if state[i] is ForInIterator {
                    assert(in_class(state[i], n));
                }
            }
        }
    } else {
        if forall|i: int|
            0 <= i < state.len() ==> (#[trigger] state[i]) == Slot::Ordinary || state[i]
                is ForInIterator {
            assert(!holds_class(state, 0, o));
            assert(!holds_class(state, 0, c));
        }
    }
}

/// What a throw may leave. Visible values, catch regions and whole active records
/// may stay, and an enumeration may where a catch region or an active record
/// stands above it. Slots of exhausted and other records may not.
#[verifier::rlimit(40)]
pub proof fn lemma_throws_leave_what_handlers_unwind(
    id: FunctionTemplateId,
    decoded: DecodedInstruction,
    below: Seq<Slot>,
    site: BytecodePc,
    region: InstructionIndex,
    has_finally: bool,
)
    requires
        decoded.instruction.opcode == FinalOpcode::Throw || decoded.instruction.opcode
            == FinalOpcode::ThrowError,
        forall|i: int|
            0 <= i < below.len() ==> !hidden(#[trigger] below[i]) || below[i] is CatchMarker,
    ensures
        ({
            let left = |stack: Seq<Slot>| stack_exit_check(id, decoded, stack, has_finally).is_ok();
            let marker = Slot::CatchMarker { site, handler: region };
            &&& left(below)
            &&& left(below + active_record(site))
            &&& left(below + seq![Slot::ForInIterator(site), marker])
            &&& left(below + seq![Slot::ForInIterator(site)] + active_record(site))
            &&& !left(below + seq![Slot::ForInIterator(site)])
            &&& !left(below + exhausted_record(site))
            &&& !left(below + closable_record(site))
            &&& !left(below + closing_record(site))
            &&& !left(below + seq![Slot::ForOfIterator(site), Slot::ForOfNextMethod(site)])
            &&& !left(below + seq![Slot::YieldStarIterator(site)])
            &&& !left(below + seq![Slot::DerivedActiveConstructor(site)])
        }),
{
    let marker = Slot::CatchMarker { site, handler: region };
    let base = below.len() as int;
    lemma_throw_passes(id, decoded, below, Seq::empty(), 0);
    assert(below + Seq::<Slot>::empty() =~= below);
    lemma_throw_passes(id, decoded, below, active_record(site), 0);
    lemma_throw_passes(id, decoded, below, seq![Slot::ForInIterator(site), marker], 0);
    lemma_throw_passes(
        id,
        decoded,
        below,
        seq![Slot::ForInIterator(site)] + active_record(site),
        0,
    );
    assert(below + seq![Slot::ForInIterator(site)] + active_record(site) =~= below + (seq![
        Slot::ForInIterator(site),
    ] + active_record(site)));
    lemma_throw_passes(id, decoded, below, seq![Slot::ForInIterator(site)], 0);
    lemma_throw_passes(id, decoded, below, exhausted_record(site), 0);
    lemma_throw_passes(id, decoded, below, closable_record(site), 0);
    lemma_throw_passes(id, decoded, below, closing_record(site), 0);
    lemma_throw_passes(
        id,
        decoded,
        below,
        seq![Slot::ForOfIterator(site), Slot::ForOfNextMethod(site)],
        0,
    );
    lemma_throw_passes(id, decoded, below, seq![Slot::YieldStarIterator(site)], 0);
    lemma_throw_passes(id, decoded, below, seq![Slot::DerivedActiveConstructor(site)], 0);
    lemma_throw_tops(id, decoded, below, site, region);
    if below.len() > 0 {
        assert(!(below[base - 1] is FinallyReturn));
    }
}

proof fn lemma_throw_passes(
    id: FunctionTemplateId,
    decoded: DecodedInstruction,
    below: Seq<Slot>,
    top: Seq<Slot>,
    cursor: int,
)
    requires
        0 <= cursor <= below.len(),
        forall|i: int|
            0 <= i < below.len() ==> !hidden(#[trigger] below[i]) || below[i] is CatchMarker,
    ensures
        ({
            let state = below + top;
            throw_check(id, decoded, state, cursor, state.len() as int) == throw_check(
                id,
                decoded,
                state,
                below.len() as int,
                state.len() as int,
            )
        }),
    decreases below.len() - cursor,
{
    if cursor < below.len() {
        let state = below + top;
        assert(state[cursor] == below[cursor]);
        assert(!hidden(below[cursor]) || below[cursor] is CatchMarker);
        lemma_throw_passes(id, decoded, below, top, cursor + 1);
    }
}

proof fn lemma_throw_tops(
    id: FunctionTemplateId,
    decoded: DecodedInstruction,
    below: Seq<Slot>,
    site: BytecodePc,
    region: InstructionIndex,
)
    ensures
        ({
            let base = below.len() as int;
            let marker = Slot::CatchMarker { site, handler: region };
            let check = |state: Seq<Slot>|
                throw_check(id, decoded, state, base, state.len() as int);
            &&& check(below).is_ok()
            &&& check(below + active_record(site)).is_ok()
            &&& check(below + seq![Slot::ForInIterator(site), marker]).is_ok()
            &&& check(below + (seq![Slot::ForInIterator(site)] + active_record(site))).is_ok()
            &&& check(below + seq![Slot::ForInIterator(site)]).is_err()
            &&& check(below + exhausted_record(site)).is_err()
            &&& check(below + closable_record(site)).is_err()
            &&& check(below + closing_record(site)).is_err()
            &&& check(
                below + seq![Slot::ForOfIterator(site), Slot::ForOfNextMethod(site)],
            ).is_err()
            &&& check(below + seq![Slot::YieldStarIterator(site)]).is_err()
            &&& check(below + seq![Slot::DerivedActiveConstructor(site)]).is_err()
        }),
{
    let base = below.len() as int;
    let marker = Slot::CatchMarker { site, handler: region };
    let class = SlotClass::InnerHandler;
    let a = below + active_record(site);
    assert(a[base] == Slot::ForOfIterator(site) && a[base + 1] == Slot::ForOfNextMethod(site) && a[
    base + 2] == Slot::ForOfCatch(site));
    assert(throw_check(id, decoded, a, base + 3, a.len() as int).is_ok());
    let b = below + seq![Slot::ForInIterator(site), marker];
    assert(b[base] == Slot::ForInIterator(site) && b[base + 1] == marker);
    assert(b.take(b.len() as int) =~= b);
    assert(in_class(b[base + 1], class));
    assert(holds_class(b, base + 1, class));
    assert(throw_check(id, decoded, b, base + 2, b.len() as int).is_ok());
    assert(throw_check(id, decoded, b, base + 1, b.len() as int).is_ok());
    let c = below + (seq![Slot::ForInIterator(site)] + active_record(site));
    assert(c[base] == Slot::ForInIterator(site) && c[base + 1] == Slot::ForOfIterator(site) && c[
    base + 2] == Slot::ForOfNextMethod(site) && c[base + 3] == Slot::ForOfCatch(site));
    assert(c.take(c.len() as int) =~= c);
    assert(in_class(c[base + 3], class));
    assert(holds_class(c, base + 1, class));
    assert(throw_check(id, decoded, c, base + 4, c.len() as int).is_ok());
    assert(throw_check(id, decoded, c, base + 1, c.len() as int).is_ok());
    let d = below + seq![Slot::ForInIterator(site)];
    assert(d[base] == Slot::ForInIterator(site));
    assert(d.take(d.len() as int) =~= d);
    assert(!holds_class(d, base + 1, class));
    assert((below + exhausted_record(site))[base] == Slot::ForOfExhaustedIterator(site));
    assert((below + closable_record(site))[base] == Slot::ForOfClosableIterator(site));
    assert((below + closing_record(site))[base] == Slot::ForOfCloseIterator(site));
    assert((below + seq![Slot::ForOfIterator(site), Slot::ForOfNextMethod(site)])[base]
        == Slot::ForOfIterator(site));
    assert((below + seq![Slot::YieldStarIterator(site)])[base] == Slot::YieldStarIterator(site));
    assert((below + seq![Slot::DerivedActiveConstructor(site)])[base]
        == Slot::DerivedActiveConstructor(site));
}

} // verus!
