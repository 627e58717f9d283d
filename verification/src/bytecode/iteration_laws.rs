//! What the steps of iterations, catch regions and finally subroutines do to a
//! typed operand stack.
use crate::bytecode::error::BytecodeVerificationError;
use crate::bytecode::internal_stack::{
    CertifiedCatchLocalPut, CertifiedIterationLocalPut, EffectiveEdge, InternalStackValue as Slot,
    IterationBranchValue,
};
use crate::bytecode::internal_step::{edge_stack, stack_transfer};
use crate::bytecode::internal_transfer::{Certification, GroupOutcome, in_byte_order};
use crate::bytecode::internal_unwind::topmost_marked;
use crate::control_flow::model::{InstructionIndex, VerifiedInstruction};
use crate::function_graph::FunctionTemplateId;
use crate::instruction::{BytecodePc, DecodedInstruction, Operands};
use crate::opcode::FinalOpcode;
use vstd::prelude::*;

verus! {

/// The slot once the instruction behind a step or a handler was passed: what
/// they produced is an ordinary value from then on.
pub open spec fn plain(slot: Slot) -> Slot {
    if slot is ForInKey || slot is ForInDone || slot is ForInHeadKey || slot is ForOfValue
        || slot is ForOfDone || slot is ForOfHeadValue || slot is ForOfReturnValue
        || slot is CatchException {
        Slot::Ordinary
    } else {
        slot
    }
}

/// Every slot of the stack made plain.
pub open spec fn plain_stack(stack: Seq<Slot>) -> Seq<Slot> {
    Seq::new(stack.len(), |i: int| plain(stack[i]))
}

/// Whether a slot is hidden from JavaScript code.
pub open spec fn hidden(slot: Slot) -> bool {
    slot is DerivedActiveConstructor || slot is DerivedSuperConstructor
        || slot is DerivedSuperNewTarget || slot is DerivedSuperCompletion || slot is ForInIterator
        || slot is ForOfIterator || slot is ForOfNextMethod || slot is ForOfCatch
        || slot is ForOfDisabledCatch || slot is ForOfExhaustedIterator
        || slot is ForOfExhaustedNextMethod || slot is ForOfExhaustedCatch
        || slot is ForOfClosableIterator || slot is ForOfClosableNextMethod
        || slot is ForOfClosableCatch || slot is ForOfCloseIterator || slot is ForOfCloseNextMethod
        || slot is ForOfCloseDummy || slot is YieldStarIterator || slot is YieldStarNextMethod
        || slot is YieldStarDummy || slot is CatchMarker || slot is FinallyPending
        || slot is FinallyReturn
}

/// Whether an instruction leaves `stack` and control simply goes on.
pub open spec fn goes_on_with(outcome: GroupOutcome, stack: Seq<Slot>) -> bool {
    match outcome {
        Ok(Some(outcome)) => outcome.state == stack && outcome.step.transfer.normal_completion
            && outcome.step.transfer.iteration_branch_value.is_none()
            && outcome.step.transfer.ret_finalizer.is_none() && outcome.step.certification
            == Certification::Nothing,
        _ => false,
    }
}

/// Whether an instruction leaves `stack` and its edges then depend on `value`.
pub open spec fn branches_with(
    outcome: GroupOutcome,
    stack: Seq<Slot>,
    value: IterationBranchValue,
) -> bool {
    match outcome {
        Ok(Some(outcome)) => outcome.state == stack && outcome.step.transfer.normal_completion
            && outcome.step.transfer.iteration_branch_value == Some(value)
            && outcome.step.transfer.ret_finalizer.is_none() && outcome.step.certification
            == Certification::Nothing,
        _ => false,
    }
}

/// The three slots of an active for-of record.
pub open spec fn active_record(site: BytecodePc) -> Seq<Slot> {
    seq![Slot::ForOfIterator(site), Slot::ForOfNextMethod(site), Slot::ForOfCatch(site)]
}

/// The three slots of an exhausted for-of record.
pub open spec fn exhausted_record(site: BytecodePc) -> Seq<Slot> {
    seq![
        Slot::ForOfExhaustedIterator(site),
        Slot::ForOfExhaustedNextMethod(site),
        Slot::ForOfExhaustedCatch(site),
    ]
}

/// The three slots of a for-of record that may be exhausted.
pub open spec fn closable_record(site: BytecodePc) -> Seq<Slot> {
    seq![
        Slot::ForOfClosableIterator(site),
        Slot::ForOfClosableNextMethod(site),
        Slot::ForOfClosableCatch(site),
    ]
}

/// The three slots of a for-of record that is being closed.
pub open spec fn closing_record(site: BytecodePc) -> Seq<Slot> {
    seq![
        Slot::ForOfCloseIterator(site),
        Slot::ForOfCloseNextMethod(site),
        Slot::ForOfCloseDummy(site),
    ]
}

/// A for-in or for-of statement starts on any value that JavaScript made: the
/// value gives way to an enumeration, or to an active record of three slots,
/// both marked with the place of the instruction. On anything else it is
/// refused.
pub proof fn lemma_iterations_start_on_values(
    id: FunctionTemplateId,
    decoded: DecodedInstruction,
    reachable: bool,
    handler: Option<InstructionIndex>,
    instructions: Seq<VerifiedInstruction>,
    below: Seq<Slot>,
    top: Slot,
)
    ensures
        ({
            let outcome = stack_transfer(
                id,
                decoded,
                reachable,
                handler,
                instructions,
                below.push(top),
            );
            let starts = plain(top) == Slot::Ordinary;
            &&& decoded.instruction.opcode == FinalOpcode::ForInStart ==> if starts {
                goes_on_with(outcome, plain_stack(below).push(Slot::ForInIterator(decoded.pc)))
            } else {
                outcome.is_err()
            }
            &&& (decoded.instruction.opcode == FinalOpcode::ForOfStart
                || decoded.instruction.opcode == FinalOpcode::ForAwaitOfStart) ==> if starts {
                goes_on_with(outcome, plain_stack(below) + active_record(decoded.pc))
            } else {
                outcome.is_err()
            }
        }),
{
    let outcome = stack_transfer(id, decoded, reachable, handler, instructions, below.push(top));
    let opcode = decoded.instruction.opcode;
    assert(below.push(top).last() == top);
    if plain(top) == Slot::Ordinary {
        if opcode == FinalOpcode::ForInStart {
            assert(outcome->Ok_0.unwrap().state =~= plain_stack(below).push(
                Slot::ForInIterator(decoded.pc),
            ));
        }
        if opcode == FinalOpcode::ForOfStart || opcode == FinalOpcode::ForAwaitOfStart {
            assert(outcome->Ok_0.unwrap().state =~= plain_stack(below) + active_record(decoded.pc));
        }
    }
}

/// A step of a for-in statement needs an enumeration on top, and pushes its key
/// and its done flag.
pub proof fn lemma_for_in_steps_need_enumerations(
    id: FunctionTemplateId,
    decoded: DecodedInstruction,
    reachable: bool,
    handler: Option<InstructionIndex>,
    instructions: Seq<VerifiedInstruction>,
    below: Seq<Slot>,
    top: Slot,
)
    requires
        decoded.instruction.opcode == FinalOpcode::ForInNext,
    ensures
        ({
            let outcome = stack_transfer(
                id,
                decoded,
                reachable,
                handler,
                instructions,
                below.push(top),
            );
            match top {
                Slot::ForInIterator(site) => goes_on_with(
                    outcome,
                    plain_stack(below) + seq![
                        Slot::ForInIterator(site),
                        Slot::ForInKey(site),
                        Slot::ForInDone(site),
                    ],
                ),
                _ => outcome.is_err(),
            }
        }),
{
    let outcome = stack_transfer(id, decoded, reachable, handler, instructions, below.push(top));
    if let Slot::ForInIterator(site) = top {
        assert(outcome->Ok_0.unwrap().state =~= plain_stack(below) + seq![
            Slot::ForInIterator(site),
            Slot::ForInKey(site),
            Slot::ForInDone(site),
        ]);
    }
}

/// `for_of_next` on an active record, under as many slots as its operand says,
/// pushes the value and the done flag of the record where the record was pushed
/// by a `for_of_start`, and is refused where a `for_await_of_start` or anything
/// else stands at the record's place.
pub proof fn lemma_for_of_next_steps_synchronous_records(
    id: FunctionTemplateId,
    decoded: DecodedInstruction,
    reachable: bool,
    handler: Option<InstructionIndex>,
    instructions: Seq<VerifiedInstruction>,
    at: int,
    below: Seq<Slot>,
    above: Seq<Slot>,
)
    requires
        decoded.instruction.opcode == FinalOpcode::ForOfNext,
        above.len() <= 255,
        decoded.instruction.operands == Operands::U8(above.len() as u8),
        in_byte_order(instructions),
        0 <= at < instructions.len(),
    ensures
        ({
            let site = instructions[at].spec_decoded().pc;
            let outcome = stack_transfer(
                id,
                decoded,
                reachable,
                handler,
                instructions,
                below + active_record(site) + above,
            );
            if instructions[at].spec_decoded().instruction.opcode == FinalOpcode::ForOfStart {
                goes_on_with(
                    outcome,
                    plain_stack(below) + active_record(site) + plain_stack(above) + seq![
                        Slot::ForOfValue(site),
                        Slot::ForOfDone(site),
                    ],
                )
            } else {
                outcome.is_err()
            }
        }),
{
    let site = instructions[at].decoded.pc;
    let state = below + active_record(site) + above;
    let outcome = stack_transfer(id, decoded, reachable, handler, instructions, state);
    let base = below.len() as int;
    assert(state[base] == Slot::ForOfIterator(site));
    assert(state[base + 1] == Slot::ForOfNextMethod(site));
    assert(state[base + 2] == Slot::ForOfCatch(site));
    lemma_site_is_unique(instructions, at);
    if instructions[at].decoded.instruction.opcode == FinalOpcode::ForOfStart {
        assert(outcome->Ok_0.unwrap().state =~= plain_stack(below) + active_record(site)
            + plain_stack(above) + seq![Slot::ForOfValue(site), Slot::ForOfDone(site)]);
    }
}

proof fn lemma_site_is_unique(instructions: Seq<VerifiedInstruction>, at: int)
    requires
        in_byte_order(instructions),
        0 <= at < instructions.len(),
    ensures
        forall|i: int|
            0 <= i < instructions.len() && (#[trigger] instructions[i]).decoded.pc
                == instructions[at].decoded.pc ==> i == at,
{
    assert forall|i: int|
        0 <= i < instructions.len() && (#[trigger] instructions[i]).decoded.pc
            == instructions[at].decoded.pc implies i == at by {
        if i < at {
            assert(instructions[i].decoded.pc.0 < instructions[at].decoded.pc.0);
        } else if at < i {
            assert(instructions[at].decoded.pc.0 < instructions[i].decoded.pc.0);
        }
    }
}

/// `for_of_next` is refused where no active record stands under as many slots as
/// its operand says.
pub proof fn lemma_for_of_next_needs_an_active_record(
    id: FunctionTemplateId,
    decoded: DecodedInstruction,
    reachable: bool,
    handler: Option<InstructionIndex>,
    instructions: Seq<VerifiedInstruction>,
    state: Seq<Slot>,
    offset: u8,
)
    requires
        decoded.instruction.opcode == FinalOpcode::ForOfNext,
        decoded.instruction.operands == Operands::U8(offset),
        state.len() < 3 + offset || forall|site: BytecodePc|
            state.subrange(state.len() - 3 - offset, state.len() - offset) != #[trigger]
            active_record(site),
    ensures
        stack_transfer(id, decoded, reachable, handler, instructions, state).is_err(),
{
    if state.len() >= 3 + offset {
        let base = state.len() - 3 - offset;
        if let Slot::ForOfIterator(site) = state[base] {
            if state[base + 1] == Slot::ForOfNextMethod(site) && state[base + 2]
                == Slot::ForOfCatch(site) {
                assert(state.subrange(base, base + 3) =~= active_record(site));
            }
        }
    }
}

/// `for_await_of_next` on an active record on top starts a step where the record
/// was pushed by a `for_await_of_start`: the catch slot is disabled and the
/// promise of the step pushed. Awaiting the promise gives its result, and
/// `iterator_get_value_done` then restores the record and leaves value and done
/// flag. On a record of a `for_of_start` both are refused.
pub proof fn lemma_for_await_steps_asynchronous_records(
    id: FunctionTemplateId,
    next: DecodedInstruction,
    awaits: DecodedInstruction,
    get: DecodedInstruction,
    reachable: bool,
    handler: Option<InstructionIndex>,
    instructions: Seq<VerifiedInstruction>,
    at: int,
    below: Seq<Slot>,
)
    requires
        next.instruction.opcode == FinalOpcode::ForAwaitOfNext,
        awaits.instruction.opcode == FinalOpcode::Await,
        get.instruction.opcode == FinalOpcode::IteratorGetValueDone,
        in_byte_order(instructions),
        0 <= at < instructions.len(),
    ensures
        ({
            let site = instructions[at].spec_decoded().pc;
            let asynchronous = instructions[at].spec_decoded().instruction.opcode
                == FinalOpcode::ForAwaitOfStart;
            let disabled = seq![
                Slot::ForOfIterator(site),
                Slot::ForOfNextMethod(site),
                Slot::ForOfDisabledCatch(site),
            ];
            let started = stack_transfer(
                id,
                next,
                reachable,
                handler,
                instructions,
                below + active_record(site),
            );
            let awaited = stack_transfer(
                id,
                awaits,
                reachable,
                handler,
                instructions,
                below + disabled + seq![Slot::ForOfAwaitResult(site)],
            );
            let finished = stack_transfer(
                id,
                get,
                reachable,
                handler,
                instructions,
                below + disabled + seq![Slot::ForOfAwaitedResult(site)],
            );
            &&& if asynchronous {
                goes_on_with(
                    started,
                    plain_stack(below) + disabled + seq![Slot::ForOfAwaitResult(site)],
                )
            } else {
                started.is_err()
            }
            &&& goes_on_with(awaited, below + disabled + seq![Slot::ForOfAwaitedResult(site)])
            &&& if asynchronous {
                goes_on_with(
                    finished,
                    below + active_record(site) + seq![
                        Slot::ForOfValue(site),
                        Slot::ForOfDone(site),
                    ],
                )
            } else {
                finished.is_err()
            }
        }),
{
    let site = instructions[at].decoded.pc;
    let disabled = seq![
        Slot::ForOfIterator(site),
        Slot::ForOfNextMethod(site),
        Slot::ForOfDisabledCatch(site),
    ];
    let base = below.len() as int;
    lemma_site_is_unique(instructions, at);
    let first = below + active_record(site);
    assert(first[base] == Slot::ForOfIterator(site));
    assert(first[base + 1] == Slot::ForOfNextMethod(site));
    assert(first[base + 2] == Slot::ForOfCatch(site));
    let started = stack_transfer(id, next, reachable, handler, instructions, first);
    let second = below + disabled + seq![Slot::ForOfAwaitResult(site)];
    let awaited = stack_transfer(id, awaits, reachable, handler, instructions, second);
    assert(second.last() == Slot::ForOfAwaitResult(site));
    assert(awaited->Ok_0.unwrap().state =~= below + disabled + seq![
        Slot::ForOfAwaitedResult(site),
    ]);
    let third = below + disabled + seq![Slot::ForOfAwaitedResult(site)];
    assert(third[base] == Slot::ForOfIterator(site));
    assert(third[base + 1] == Slot::ForOfNextMethod(site));
    assert(third[base + 2] == Slot::ForOfDisabledCatch(site));
    assert(third[base + 3] == Slot::ForOfAwaitedResult(site));
    let finished = stack_transfer(id, get, reachable, handler, instructions, third);
    if instructions[at].decoded.instruction.opcode == FinalOpcode::ForAwaitOfStart {
        assert(started->Ok_0.unwrap().state =~= plain_stack(below) + disabled + seq![
            Slot::ForOfAwaitResult(site),
        ]);
        assert(finished->Ok_0.unwrap().state =~= below + active_record(site) + seq![
            Slot::ForOfValue(site),
            Slot::ForOfDone(site),
        ]);
    }
}

/// A conditional branch on the done flag of a for-of step, whose record stands
/// below the value under ordinary values only, removes the flag. Where the branch
/// is taken, the value is that of the loop's head and the record stays active;
/// where it is not taken, the record is exhausted and the value ordinary.
pub proof fn lemma_for_of_branches_tell_heads_from_exits(
    id: FunctionTemplateId,
    decoded: DecodedInstruction,
    reachable: bool,
    handler: Option<InstructionIndex>,
    instructions: Seq<VerifiedInstruction>,
    edge: EffectiveEdge,
    below: Seq<Slot>,
    extras: nat,
    site: BytecodePc,
)
    requires
        decoded.instruction.opcode == FinalOpcode::IfFalse || decoded.instruction.opcode
            == FinalOpcode::IfFalse8,
        extras <= usize::MAX,
        !edge.enters_finally,
    ensures
        ({
            let between = Seq::new(extras, |i: int| Slot::Ordinary);
            let value = IterationBranchValue::ForOf { site, extras: extras as usize };
            let branched = plain_stack(below) + active_record(site) + between + seq![
                Slot::ForOfValue(site),
            ];
            &&& branches_with(
                stack_transfer(
                    id,
                    decoded,
                    reachable,
                    handler,
                    instructions,
                    below + active_record(site) + between + seq![
                        Slot::ForOfValue(site),
                        Slot::ForOfDone(site),
                    ],
                ),
                branched,
                value,
            )
            &&& match edge_stack(id, decoded, Some(value), edge, branched) {
                Ok(carried) => carried == if edge.is_branch_target {
                    plain_stack(below) + active_record(site) + between + seq![
                        Slot::ForOfHeadValue(site),
                    ]
                } else {
                    plain_stack(below) + exhausted_record(site) + between + seq![Slot::Ordinary]
                },
                Err(_) => false,
            }
        }),
{
    let between = Seq::new(extras, |i: int| Slot::Ordinary);
    let value = IterationBranchValue::ForOf { site, extras: extras as usize };
    let state = below + active_record(site) + between + seq![
        Slot::ForOfValue(site),
        Slot::ForOfDone(site),
    ];
    let branched = plain_stack(below) + active_record(site) + between + seq![
        Slot::ForOfValue(site),
    ];
    let base = below.len() as int;
    assert(state[base] == Slot::ForOfIterator(site));
    assert(state[base + 1] == Slot::ForOfNextMethod(site));
    assert(state[base + 2] == Slot::ForOfCatch(site));
    assert(state[state.len() - 1] == Slot::ForOfDone(site));
    assert(state[state.len() - 2] == Slot::ForOfValue(site));
    assert forall|i: int| base + 3 <= i < state.len() - 2 implies #[trigger] state[i]
        == Slot::Ordinary by {}
    lemma_marked_below_ordinary(state, base + 2, state.len() - 2);
    let outcome = stack_transfer(id, decoded, reachable, handler, instructions, state);
    assert(outcome->Ok_0.unwrap().state =~= branched);
    assert(branched[base] == Slot::ForOfIterator(site));
    assert(branched[base + 1] == Slot::ForOfNextMethod(site));
    assert(branched[base + 2] == Slot::ForOfCatch(site));
    assert(branched.last() == Slot::ForOfValue(site));
    let carried = edge_stack(id, decoded, Some(value), edge, branched);
    if edge.is_branch_target {
        assert(carried->Ok_0 =~= plain_stack(below) + active_record(site) + between + seq![
            Slot::ForOfHeadValue(site),
        ]);
    } else {
        assert(carried->Ok_0 =~= plain_stack(below) + exhausted_record(site) + between + seq![
            Slot::Ordinary,
        ]);
    }
}

proof fn lemma_marked_below_ordinary(state: Seq<Slot>, marked: int, end: int)
    requires
        0 <= marked < end <= state.len(),
        state[marked] != Slot::Ordinary,
        forall|i: int| marked < i < end ==> #[trigger] state[i] == Slot::Ordinary,
    ensures
        topmost_marked(state, end) == Some(marked),
    decreases end,
{
    if end - 1 > marked {
        assert(state[end - 1] == Slot::Ordinary);
        lemma_marked_below_ordinary(state, marked, end - 1);
    }
}

/// A conditional branch on the done flag of a for-in step removes the flag.
/// Where the branch is taken the key is that of the loop's head, and where it is
/// not taken an ordinary value.
pub proof fn lemma_for_in_branches_tell_heads_from_exits(
    id: FunctionTemplateId,
    decoded: DecodedInstruction,
    reachable: bool,
    handler: Option<InstructionIndex>,
    instructions: Seq<VerifiedInstruction>,
    edge: EffectiveEdge,
    below: Seq<Slot>,
    site: BytecodePc,
)
    requires
        decoded.instruction.opcode == FinalOpcode::IfFalse || decoded.instruction.opcode
            == FinalOpcode::IfFalse8,
        !edge.enters_finally,
    ensures
        ({
            let value = IterationBranchValue::ForIn(site);
            let branched = plain_stack(below) + seq![
                Slot::ForInIterator(site),
                Slot::ForInKey(site),
            ];
            &&& branches_with(
                stack_transfer(
                    id,
                    decoded,
                    reachable,
                    handler,
                    instructions,
                    below + seq![
                        Slot::ForInIterator(site),
                        Slot::ForInKey(site),
                        Slot::ForInDone(site),
                    ],
                ),
                branched,
                value,
            )
            &&& match edge_stack(id, decoded, Some(value), edge, branched) {
                Ok(carried) => carried == plain_stack(below) + seq![
                    Slot::ForInIterator(site),
                    if edge.is_branch_target {
                        Slot::ForInHeadKey(site)
                    } else {
                        Slot::Ordinary
                    },
                ],
                Err(_) => false,
            }
        }),
{
    let value = IterationBranchValue::ForIn(site);
    let state = below + seq![
        Slot::ForInIterator(site),
        Slot::ForInKey(site),
        Slot::ForInDone(site),
    ];
    let branched = plain_stack(below) + seq![Slot::ForInIterator(site), Slot::ForInKey(site)];
    assert(state[below.len() as int] == Slot::ForInIterator(site));
    assert(state[state.len() - 2] == Slot::ForInKey(site));
    assert(state.last() == Slot::ForInDone(site));
    let outcome = stack_transfer(id, decoded, reachable, handler, instructions, state);
    assert(outcome->Ok_0.unwrap().state =~= branched);
    assert(branched.last() == Slot::ForInKey(site));
    let carried = edge_stack(id, decoded, Some(value), edge, branched);
    assert(carried->Ok_0 =~= plain_stack(below) + seq![
        Slot::ForInIterator(site),
        if edge.is_branch_target {
            Slot::ForInHeadKey(site)
        } else {
            Slot::Ordinary
        },
    ]);
}

/// A branch on true never tests the done flag of a for-of step, and a branch on
/// false does so only behind the value of the same step.
pub proof fn lemma_for_of_flags_are_tested_as_false(
    id: FunctionTemplateId,
    decoded: DecodedInstruction,
    reachable: bool,
    handler: Option<InstructionIndex>,
    instructions: Seq<VerifiedInstruction>,
    below: Seq<Slot>,
    site: BytecodePc,
)
    ensures
        ({
            let outcome = stack_transfer(
                id,
                decoded,
                reachable,
                handler,
                instructions,
                below.push(Slot::ForOfDone(site)),
            );
            let opcode = decoded.instruction.opcode;
            &&& (opcode == FinalOpcode::IfTrue || opcode == FinalOpcode::IfTrue8)
                ==> outcome.is_err()
            &&& (opcode == FinalOpcode::IfFalse || opcode == FinalOpcode::IfFalse8)
                && (below.len() == 0 || below.last() != Slot::ForOfValue(site))
                ==> outcome.is_err()
        }),
{
    let state = below.push(Slot::ForOfDone(site));
    assert(state.last() == Slot::ForOfDone(site));
    if below.len() > 0 {
        assert(state[state.len() - 2] == below.last());
    }
}

/// `iterator_close` removes a whole record from the top, be it active,
/// exhausted, possibly exhausted or being closed, and is refused on anything
/// else.
pub proof fn lemma_closing_removes_whole_records(
    id: FunctionTemplateId,
    decoded: DecodedInstruction,
    reachable: bool,
    handler: Option<InstructionIndex>,
    instructions: Seq<VerifiedInstruction>,
    below: Seq<Slot>,
    first: Slot,
    second: Slot,
    third: Slot,
)
    requires
        decoded.instruction.opcode == FinalOpcode::IteratorClose,
    ensures
        ({
            let outcome = stack_transfer(
                id,
                decoded,
                reachable,
                handler,
                instructions,
                below + seq![first, second, third],
            );
            let whole = exists|site: BytecodePc|
                #![trigger active_record(site)]
                seq![first, second, third] == active_record(site) || seq![first, second, third]
                    == exhausted_record(site) || seq![first, second, third] == closable_record(
                    site,
                ) || seq![first, second, third] == closing_record(site);
            if whole {
                goes_on_with(outcome, plain_stack(below))
            } else {
                outcome.is_err()
            }
        }),
        below.len() < 3 ==> stack_transfer(
            id,
            decoded,
            reachable,
            handler,
            instructions,
            below,
        ).is_err(),
{
    let record = seq![first, second, third];
    let state = below + record;
    let base = below.len() as int;
    assert(state[base] == first && state[base + 1] == second && state[base + 2] == third);
    let outcome = stack_transfer(id, decoded, reachable, handler, instructions, state);
    assert(state.take(base) =~= below);
    assert(record[0] == first && record[1] == second && record[2] == third);
    if outcome.is_ok() {
        assert(outcome->Ok_0.unwrap().state =~= plain_stack(below));
        let site = match first {
            Slot::ForOfIterator(site) => site,
            Slot::ForOfExhaustedIterator(site) => site,
            Slot::ForOfClosableIterator(site) => site,
            Slot::ForOfCloseIterator(site) => site,
            _ => decoded.pc,
        };
        assert(record =~= active_record(site) || record =~= exhausted_record(site) || record
            =~= closable_record(site) || record =~= closing_record(site));
    } else {
        assert forall|site: BytecodePc|
            #![trigger active_record(site)]
            record != active_record(site) && record != exhausted_record(site) && record
                != closable_record(site) && record != closing_record(site) by {
            assert(active_record(site)[0] == Slot::ForOfIterator(site));
            assert(active_record(site)[1] == Slot::ForOfNextMethod(site));
            assert(active_record(site)[2] == Slot::ForOfCatch(site));
            assert(exhausted_record(site)[0] == Slot::ForOfExhaustedIterator(site));
            assert(exhausted_record(site)[1] == Slot::ForOfExhaustedNextMethod(site));
            assert(exhausted_record(site)[2] == Slot::ForOfExhaustedCatch(site));
            assert(closable_record(site)[0] == Slot::ForOfClosableIterator(site));
            assert(closable_record(site)[1] == Slot::ForOfClosableNextMethod(site));
            assert(closable_record(site)[2] == Slot::ForOfClosableCatch(site));
            assert(closing_record(site)[0] == Slot::ForOfCloseIterator(site));
            assert(closing_record(site)[1] == Slot::ForOfCloseNextMethod(site));
            assert(closing_record(site)[2] == Slot::ForOfCloseDummy(site));
        }
    }
}

/// A completion that leaves a for-of loop is rotated below iterator and next
/// method of its own loop, in whatever state the record is; a filler then makes
/// these a record being closed.
pub proof fn lemma_completions_rotate_below_their_loops(
    id: FunctionTemplateId,
    rotate: DecodedInstruction,
    fill: DecodedInstruction,
    reachable: bool,
    handler: Option<InstructionIndex>,
    instructions: Seq<VerifiedInstruction>,
    below: Seq<Slot>,
    first: Slot,
    second: Slot,
    site: BytecodePc,
)
    requires
        rotate.instruction.opcode == FinalOpcode::Rot3r,
        fill.instruction.opcode == FinalOpcode::Undefined,
    ensures
        ({
            let rotated = stack_transfer(
                id,
                rotate,
                reachable,
                handler,
                instructions,
                below + seq![first, second, Slot::ForOfReturnValue(site)],
            );
            let completion = below.push(Slot::Ordinary);
            let open = completion + seq![
                Slot::ForOfCloseIterator(site),
                Slot::ForOfCloseNextMethod(site),
            ];
            &&& if (first == Slot::ForOfIterator(site) && second == Slot::ForOfNextMethod(site))
                || (first == Slot::ForOfExhaustedIterator(site) && second
                == Slot::ForOfExhaustedNextMethod(site)) || (first == Slot::ForOfClosableIterator(
                site,
            ) && second == Slot::ForOfClosableNextMethod(site)) {
                goes_on_with(rotated, open)
            } else {
                rotated.is_err()
            }
            &&& goes_on_with(
                stack_transfer(id, fill, reachable, handler, instructions, open),
                completion + closing_record(site),
            )
        }),
{
    let state = below + seq![first, second, Slot::ForOfReturnValue(site)];
    let base = below.len() as int;
    assert(state[base] == first && state[base + 1] == second && state.last()
        == Slot::ForOfReturnValue(site));
    let rotated = stack_transfer(id, rotate, reachable, handler, instructions, state);
    let completion = below.push(Slot::Ordinary);
    let open = completion + seq![
        Slot::ForOfCloseIterator(site),
        Slot::ForOfCloseNextMethod(site),
    ];
    if rotated.is_ok() {
        assert(rotated->Ok_0.unwrap().state =~= open);
    }
    assert(open[base] == Slot::Ordinary);
    assert(open[base + 1] == Slot::ForOfCloseIterator(site));
    assert(open[base + 2] == Slot::ForOfCloseNextMethod(site));
    let filled = stack_transfer(id, fill, reachable, handler, instructions, open);
    assert(filled->Ok_0.unwrap().state =~= completion + closing_record(site));
}

/// `rot3r` rotates nothing but the completion of a for-of loop.
pub proof fn lemma_only_completions_rotate(
    id: FunctionTemplateId,
    decoded: DecodedInstruction,
    reachable: bool,
    handler: Option<InstructionIndex>,
    instructions: Seq<VerifiedInstruction>,
    state: Seq<Slot>,
)
    requires
        decoded.instruction.opcode == FinalOpcode::Rot3r,
        state.len() < 3 || !(state.last() is ForOfReturnValue),
    ensures
        stack_transfer(id, decoded, reachable, handler, instructions, state).is_err(),
{
}

/// A value of unknown origin can be dropped from any stack, and so can what a
/// step or a handler produced.
pub proof fn lemma_values_can_be_dropped(
    id: FunctionTemplateId,
    decoded: DecodedInstruction,
    reachable: bool,
    handler: Option<InstructionIndex>,
    instructions: Seq<VerifiedInstruction>,
    below: Seq<Slot>,
    top: Slot,
)
    requires
        decoded.instruction.opcode == FinalOpcode::Drop,
        plain(top) == Slot::Ordinary,
        !(top is ForOfDone),
    ensures
        goes_on_with(
            stack_transfer(id, decoded, reachable, handler, instructions, below.push(top)),
            plain_stack(below),
        ),
{
    let state = below.push(top);
    assert(state.last() == top);
    let outcome = stack_transfer(id, decoded, reachable, handler, instructions, state);
    assert(outcome->Ok_0.unwrap().state =~= plain_stack(below));
}

/// A whole for-of loop leaves the stack below it as it was: started on a value,
/// stepped once, left by its exit edge, its value dropped and its record closed,
/// it takes the value away and nothing else.
#[verifier::rlimit(80)]
pub proof fn lemma_for_of_loops_take_their_value(
    id: FunctionTemplateId,
    start: int,
    next: DecodedInstruction,
    branch: DecodedInstruction,
    drops: DecodedInstruction,
    close: DecodedInstruction,
    handler: Option<InstructionIndex>,
    instructions: Seq<VerifiedInstruction>,
    leave: EffectiveEdge,
    below: Seq<Slot>,
)
    requires
        in_byte_order(instructions),
        0 <= start < instructions.len(),
        instructions[start].spec_decoded().instruction.opcode == FinalOpcode::ForOfStart,
        next.instruction.opcode == FinalOpcode::ForOfNext,
        next.instruction.operands == Operands::U8(0),
        branch.instruction.opcode == FinalOpcode::IfFalse8,
        drops.instruction.opcode == FinalOpcode::Drop,
        close.instruction.opcode == FinalOpcode::IteratorClose,
        !leave.enters_finally,
        !leave.is_branch_target,
    ensures
        ({
            let step = |decoded: DecodedInstruction, stack: Seq<Slot>|
                stack_transfer(id, decoded, true, handler, instructions, stack);
            let site = instructions[start].spec_decoded().pc;
            let settled = plain_stack(below);
            let started = settled + active_record(site);
            let stepped = started + seq![Slot::ForOfValue(site), Slot::ForOfDone(site)];
            let tested = started + seq![Slot::ForOfValue(site)];
            let value = IterationBranchValue::ForOf { site, extras: 0 };
            let left = settled + exhausted_record(site);
            &&& goes_on_with(
                step(instructions[start].spec_decoded(), below.push(Slot::Ordinary)),
                started,
            )
            &&& goes_on_with(step(next, started), stepped)
            &&& branches_with(step(branch, stepped), tested, value)
            &&& edge_stack(id, branch, Some(value), leave, tested) == Ok::<
                Seq<Slot>,
                BytecodeVerificationError,
            >(left.push(Slot::Ordinary))
            &&& goes_on_with(step(drops, left.push(Slot::Ordinary)), left)
            &&& goes_on_with(step(close, left), settled)
        }),
{
    let site = instructions[start].decoded.pc;
    let settled = plain_stack(below);
    let none = Seq::<Slot>::empty();
    assert(plain_stack(settled) =~= settled);
    assert(plain_stack(none) =~= none);
    let started = settled + active_record(site);
    assert(started + none =~= started);
    lemma_iterations_start_on_values(
        id,
        instructions[start].decoded,
        true,
        handler,
        instructions,
        below,
        Slot::Ordinary,
    );
    lemma_for_of_next_steps_synchronous_records(
        id,
        next,
        true,
        handler,
        instructions,
        start,
        settled,
        none,
    );
    lemma_for_of_branches_tell_heads_from_exits(
        id,
        branch,
        true,
        handler,
        instructions,
        leave,
        settled,
        0,
        site,
    );
    assert(Seq::new(0, |i: int| Slot::Ordinary) =~= none);
    let left = settled + exhausted_record(site);
    assert(left + none + seq![Slot::Ordinary] =~= left.push(Slot::Ordinary));
    assert(plain_stack(left) =~= left);
    lemma_values_can_be_dropped(
        id,
        drops,
        true,
        handler,
        instructions,
        left,
        Slot::Ordinary,
    );
    lemma_closing_removes_whole_records(
        id,
        close,
        true,
        handler,
        instructions,
        settled,
        Slot::ForOfExhaustedIterator(site),
        Slot::ForOfExhaustedNextMethod(site),
        Slot::ForOfExhaustedCatch(site),
    );
    assert(active_record(site).len() == 3);
}

/// `catch` pushes the marker of its region with its handler. Along its taken
/// edge the caught exception takes the place of the marker, and only into the
/// handler itself.
pub proof fn lemma_handlers_find_the_exception(
    id: FunctionTemplateId,
    decoded: DecodedInstruction,
    reachable: bool,
    handler: InstructionIndex,
    instructions: Seq<VerifiedInstruction>,
    edge: EffectiveEdge,
    below: Seq<Slot>,
)
    requires
        decoded.instruction.opcode == FinalOpcode::Catch,
        !edge.enters_finally,
    ensures
        ({
            let marker = Slot::CatchMarker { site: decoded.pc, handler };
            let marked = plain_stack(below).push(marker);
            let carried = edge_stack(id, decoded, None, edge, marked);
            &&& goes_on_with(
                stack_transfer(id, decoded, reachable, Some(handler), instructions, below),
                marked,
            )
            &&& stack_transfer(
                id,
                decoded,
                reachable,
                None::<InstructionIndex>,
                instructions,
                below,
            ).is_err()
            &&& if !edge.is_branch_target {
                carried.is_ok() && carried->Ok_0 == marked
            } else if edge.target == handler {
                carried.is_ok() && carried->Ok_0 == plain_stack(below).push(
                    Slot::CatchException(decoded.pc),
                )
            } else {
                carried.is_err()
            }
        }),
{
    let marker = Slot::CatchMarker { site: decoded.pc, handler };
    let marked = plain_stack(below).push(marker);
    let outcome = stack_transfer(id, decoded, reachable, Some(handler), instructions, below);
    assert(outcome->Ok_0.unwrap().state =~= marked);
    let carried = edge_stack(id, decoded, None, edge, marked);
    assert(marked.last() == marker);
    if !edge.is_branch_target {
        assert(carried->Ok_0 =~= marked);
    } else if edge.target == handler {
        assert(carried->Ok_0 =~= plain_stack(below).push(Slot::CatchException(decoded.pc)));
    }
}

/// Entering a finally subroutine keeps the top value aside and pushes the return
/// address. `ret` there gives the value back as an ordinary one and names the
/// subroutine that it leaves; on any other two slots it is refused. A hidden slot
/// cannot be kept aside.
pub proof fn lemma_finally_gives_back_what_was_kept_aside(
    id: FunctionTemplateId,
    enters: DecodedInstruction,
    leaving: DecodedInstruction,
    reachable: bool,
    handler: Option<InstructionIndex>,
    instructions: Seq<VerifiedInstruction>,
    edge: EffectiveEdge,
    below: Seq<Slot>,
    top: Slot,
)
    requires
        edge.enters_finally,
        enters.instruction.opcode == FinalOpcode::Gosub,
        leaving.instruction.opcode == FinalOpcode::Ret,
    ensures
        ({
            let entered = edge_stack(id, enters, None, edge, below.push(top));
            if hidden(top) {
                entered.is_err()
            } else {
                &&& entered.is_ok()
                &&& entered->Ok_0.len() == below.len() + 2
                &&& entered->Ok_0.take(below.len() as int) == below
                &&& match stack_transfer(
                    id,
                    leaving,
                    reachable,
                    handler,
                    instructions,
                    entered->Ok_0,
                ) {
                    Ok(Some(outcome)) => outcome.state == plain_stack(below).push(Slot::Ordinary)
                        && outcome.step.transfer.normal_completion
                        && outcome.step.transfer.ret_finalizer == Some(edge.target)
                        && outcome.step.transfer.iteration_branch_value.is_none()
                        && outcome.step.certification == Certification::Ret(edge.target),
                    _ => false,
                }
            }
        }),
{
    let state = below.push(top);
    assert(state.last() == top);
    let entered = edge_stack(id, enters, None, edge, state);
    if !hidden(top) {
        let inside = entered->Ok_0;
        assert(inside.take(below.len() as int) =~= below);
        let outcome = stack_transfer(id, leaving, reachable, handler, instructions, inside);
        assert(outcome->Ok_0.unwrap().state =~= plain_stack(below).push(Slot::Ordinary));
    }
}

/// `ret` without the pair of one and the same finally subroutine on top is
/// refused, but for an empty stack of code that nothing reaches.
pub proof fn lemma_returns_need_their_pair(
    id: FunctionTemplateId,
    decoded: DecodedInstruction,
    reachable: bool,
    handler: Option<InstructionIndex>,
    instructions: Seq<VerifiedInstruction>,
    state: Seq<Slot>,
)
    requires
        decoded.instruction.opcode == FinalOpcode::Ret,
        reachable || state.len() > 0,
        state.len() < 2 || !(state[state.len() - 2] is FinallyPending) || !(state.last()
            is FinallyReturn) || state[state.len() - 2]->FinallyPending_target
            != state.last()->FinallyReturn_target,
    ensures
        stack_transfer(id, decoded, reachable, handler, instructions, state).is_err(),
{
}

/// An unchecked write of a local from the head of an iteration, or from a catch
/// clause, is certified with the local and the place that the iteration started
/// at; the value is gone and the record stays.
pub proof fn lemma_heads_and_clauses_write_certified_locals(
    id: FunctionTemplateId,
    decoded: DecodedInstruction,
    reachable: bool,
    handler: Option<InstructionIndex>,
    instructions: Seq<VerifiedInstruction>,
    below: Seq<Slot>,
    site: BytecodePc,
    local: u16,
)
    requires
        decoded.instruction.opcode == FinalOpcode::PutLoc,
        decoded.instruction.operands == Operands::Loc(local),
    ensures
        ({
            let written = |stack: Seq<Slot>|
                stack_transfer(id, decoded, reachable, handler, instructions, stack);
            let put = Certification::IterationPut(
                CertifiedIterationLocalPut { local: local as u32, cursor_site: site },
            );
            let caught = Certification::CatchPut(CertifiedCatchLocalPut { local: local as u32 });
            &&& certifies(
                written(below + seq![Slot::ForInIterator(site), Slot::ForInHeadKey(site)]),
                plain_stack(below) + seq![Slot::ForInIterator(site)],
                put,
            )
            &&& certifies(
                written(below + active_record(site) + seq![Slot::ForOfHeadValue(site)]),
                plain_stack(below) + active_record(site),
                put,
            )
            &&& certifies(
                written(below.push(Slot::CatchException(site))),
                plain_stack(below),
                caught,
            )
        }),
{
    let first = below + seq![Slot::ForInIterator(site), Slot::ForInHeadKey(site)];
    assert(first.last() == Slot::ForInHeadKey(site));
    assert(first[first.len() - 2] == Slot::ForInIterator(site));
    let outcome = stack_transfer(id, decoded, reachable, handler, instructions, first);
    assert(outcome->Ok_0.unwrap().state =~= plain_stack(below) + seq![Slot::ForInIterator(site)]);
    let second = below + active_record(site) + seq![Slot::ForOfHeadValue(site)];
    let base = below.len() as int;
    assert(second[base] == Slot::ForOfIterator(site));
    assert(second[base + 1] == Slot::ForOfNextMethod(site));
    assert(second[base + 2] == Slot::ForOfCatch(site));
    assert(second.last() == Slot::ForOfHeadValue(site));
    let outcome = stack_transfer(id, decoded, reachable, handler, instructions, second);
    assert(outcome->Ok_0.unwrap().state =~= plain_stack(below) + active_record(site));
    let third = below.push(Slot::CatchException(site));
    assert(third.last() == Slot::CatchException(site));
    let outcome = stack_transfer(id, decoded, reachable, handler, instructions, third);
    assert(outcome->Ok_0.unwrap().state =~= plain_stack(below));
}

/// Whether an instruction leaves `stack`, goes on and certifies something.
pub open spec fn certifies(
    outcome: GroupOutcome,
    stack: Seq<Slot>,
    certification: Certification,
) -> bool {
    match outcome {
        Ok(Some(outcome)) => outcome.state == stack && outcome.step.transfer.normal_completion
            && outcome.step.transfer.iteration_branch_value.is_none()
            && outcome.step.transfer.ret_finalizer.is_none() && outcome.step.certification
            == certification,
        _ => false,
    }
}

} // verus!
