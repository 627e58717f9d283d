//! Which slots instructions use, which heads declare locals, and where handlers
//! and subroutines start.
use crate::bytecode::iteration_puts::{
    IterationBody, certified_put, declaring_puts, head_local_check, head_local_checks,
    iteration_check, put_by_heads, put_check, put_checks, uncertified_put, uncertified_within,
};
use crate::bytecode::model::{BytecodeGraphUsage, CompilerWritePolicy};
use crate::bytecode::operand_use::{
    spec_argument_operand, spec_closure_operand, spec_is_unchecked_local_put, spec_local_operand,
};
use crate::bytecode::protected_regions::{
    ProtectedTargets, no_targets, targets_from, with_targets_of,
};
use crate::checks::lemma_success_means_all;
use crate::control_flow::model::{InstructionIndex, VerifiedInstruction};
use crate::function_graph::FunctionTemplateId;
use crate::instruction::Operands;
use crate::opcode::{FinalOpcode, OperandFormat};
use vstd::prelude::*;

verus! {

/// An instruction names the slot in its operands. Short opcodes for slots zero to
/// three follow one another in the encoding, by which they read, write and write
/// through: their byte, counted from the first of the domain, tells the slot by
/// its remainder by four. Exactly these have a short format.
pub proof fn lemma_slots_are_named(opcode: FinalOpcode, index: u16, short: u8)
    ensures
        spec_local_operand(opcode, Operands::Loc(index)) == Some(index as u32),
        spec_local_operand(opcode, Operands::Loc8(short)) == Some(short as u32),
        spec_argument_operand(opcode, Operands::Arg(index)) == Some(index as u32),
        spec_closure_operand(opcode, Operands::VarRef(index)) == Some(index as u32),
        match spec_local_operand(opcode, Operands::NoneLoc) {
            Some(local) => opcode.spec_metadata().operand_format == OperandFormat::NoneLoc && local
                == (opcode.spec_encoded_byte() - FinalOpcode::GetLoc0.spec_encoded_byte()) % 4,
            None => opcode.spec_metadata().operand_format != OperandFormat::NoneLoc,
        },
        match spec_argument_operand(opcode, Operands::NoneArg) {
            Some(argument) => opcode.spec_metadata().operand_format == OperandFormat::NoneArg
                && argument == (opcode.spec_encoded_byte()
                - FinalOpcode::GetArg0.spec_encoded_byte()) % 4,
            None => opcode.spec_metadata().operand_format != OperandFormat::NoneArg,
        },
        match spec_closure_operand(opcode, Operands::NoneVarRef) {
            Some(closure) => opcode.spec_metadata().operand_format == OperandFormat::NoneVarRef
                && closure == (opcode.spec_encoded_byte()
                - FinalOpcode::GetVarRef0.spec_encoded_byte()) % 4,
            None => opcode.spec_metadata().operand_format != OperandFormat::NoneVarRef,
        },
{
}

/// Operands of one sort of slot name no slot of another sort.
pub proof fn lemma_slots_have_one_sort(opcode: FinalOpcode, operands: Operands)
    ensures
        spec_local_operand(opcode, operands).is_some() ==> operands is Loc || operands is Loc8
            || operands is NoneLoc,
        spec_argument_operand(opcode, operands).is_some() ==> operands is Arg || operands
            is NoneArg,
        spec_closure_operand(opcode, operands).is_some() ==> operands is VarRef || operands
            is NoneVarRef,
{
}

/// A put of a local is unchecked exactly if it takes one value, gives none and
/// names a local, and neither checks the local nor adds to it.
pub proof fn lemma_unchecked_puts_are_these(opcode: FinalOpcode)
    ensures
        spec_is_unchecked_local_put(opcode) <==> {
            let found = opcode.spec_metadata();
            &&& found.operand_format == OperandFormat::Loc || found.operand_format
                == OperandFormat::Loc8 || found.operand_format == OperandFormat::NoneLoc
            &&& found.pops == 1
            &&& found.pushes == 0
            &&& opcode != FinalOpcode::PutLocCheck
            &&& opcode != FinalOpcode::PutLocCheckInit
            &&& opcode != FinalOpcode::AddLoc
        },
{
}

/// Whether instruction `at` puts `local` unchecked.
pub open spec fn puts(body: IterationBody, local: int, at: int) -> bool {
    let found = body.instructions[at].spec_decoded().instruction;
    &&& 0 <= at < body.instructions.len()
    &&& spec_is_unchecked_local_put(found.opcode)
    &&& match spec_local_operand(found.opcode, found.operands) {
        Some(named) => named == local,
        None => false,
    }
}

/// Whether instruction `at` is certified to write from the head of an iteration.
pub open spec fn from_head(body: IterationBody, at: int) -> bool {
    0 <= at < body.puts.len() && body.puts[at].is_some()
}

/// A certified put stays certified exactly if its local is lexical, is put by a
/// certified put and by no other, and is read-only or has both a scope and a cell.
pub proof fn lemma_heads_declare_lexical_locals(body: IterationBody, at: int)
    requires
        0 <= at < body.puts.len(),
    ensures
        declaring_puts(body).len() == body.puts.len(),
        match body.puts[at] {
            None => declaring_puts(body)[at].is_none(),
            Some(certified) => {
                let local = certified.local as int;
                let stays = declaring_puts(body)[at];
                &&& stays.is_some() ==> stays == Some(certified)
                &&& stays.is_some() <==> {
                    &&& local < body.locals.len()
                    &&& body.locals[local].policy.temporal_dead_zone
                    &&& exists|i: int| #[trigger] puts(body, local, i) && from_head(body, i)
                    &&& forall|i: int| #[trigger] puts(body, local, i) ==> from_head(body, i)
                    &&& body.locals[local].policy.writes != CompilerWritePolicy::Mutable || (
                    body.locals[local].has_scope
                        && body.locals[local].variable_reference.is_some())
                }
            },
        },
{
    if let Some(certified) = body.puts[at] {
        let local = certified.local as int;
        let count = body.instructions.len() as int;
        assert forall|i: int| 0 <= i < count implies #[trigger] certified_put(body, local, i) == (
        puts(body, local, i) && from_head(body, i)) by {}
        assert forall|i: int| 0 <= i < count implies #[trigger] uncertified_put(body, local, i)
            == (puts(body, local, i) && !from_head(body, i)) by {}
        if exists|i: int| #[trigger] puts(body, local, i) && from_head(body, i) {
            let i = choose|i: int| #[trigger] puts(body, local, i) && from_head(body, i);
            assert(certified_put(body, local, i));
        }
        if put_by_heads(body, local) {
            let i = choose|i: int| 0 <= i < count && #[trigger] certified_put(body, local, i);
            assert(puts(body, local, i));
        }
        if uncertified_within(body, local, count) {
            let i = choose|i: int| 0 <= i < count && #[trigger] uncertified_put(body, local, i);
            assert(puts(body, local, i));
        } else {
            assert forall|i: int| #[trigger] puts(body, local, i) implies from_head(body, i) by {
                assert(!uncertified_put(body, local, i));
            }
        }
    }
}

/// In an accepted body every unchecked put names one of the function's locals,
/// that which it is certified for. Where heads declare a lexical local, they
/// belong to one iteration.
pub proof fn lemma_heads_put_their_own_local(body: IterationBody, at: int, other: int, local: int)
    requires
        iteration_check(body).is_ok(),
    ensures
        0 <= at < body.instructions.len() && spec_is_unchecked_local_put(
            body.instructions[at].spec_decoded().instruction.opcode,
        ) ==> {
            let found = body.instructions[at].spec_decoded().instruction;
            &&& spec_local_operand(found.opcode, found.operands).is_some()
            &&& spec_local_operand(found.opcode, found.operands).unwrap() < body.locals.len()
            &&& from_head(body, at) ==> spec_local_operand(found.opcode, found.operands) == Some(
                body.puts[at].unwrap().local,
            )
        },
        0 <= local < body.locals.len() && puts(body, local, at) && from_head(body, at) && puts(
            body,
            local,
            other,
        ) && from_head(body, other) && body.locals[local].policy.temporal_dead_zone
            && body.locals[local].policy.writes != CompilerWritePolicy::Mutable
            ==> body.puts[at].unwrap().cursor_site == body.puts[other].unwrap().cursor_site,
{
    lemma_success_means_all(put_checks(body));
    lemma_success_means_all(head_local_checks(body));
    if 0 <= at < body.instructions.len() {
        assert(put_checks(body)[at].is_ok());
        assert(put_check(body, at).is_ok());
    }
    if 0 <= local < body.locals.len() && puts(body, local, at) && from_head(body, at) && puts(
        body,
        local,
        other,
    ) && from_head(body, other) {
        assert(head_local_checks(body)[local].is_ok());
        assert(head_local_check(body, local).is_ok());
        assert(certified_put(body, local, at));
        assert(certified_put(body, local, other));
    }
}

/// Whether instruction `at` of a range installs the handler at `handler`.
pub open(crate) spec fn installs(
    instructions: Seq<VerifiedInstruction>,
    from: int,
    at: int,
    handler: int,
) -> bool {
    &&& from <= at < instructions.len()
    &&& instructions[at].spec_decoded().instruction.opcode == FinalOpcode::Catch
    &&& match instructions[at].spec_successors().spec_branch_target() {
        Some(target) => target.spec_get() == handler,
        None => false,
    }
}

/// Whether instruction `at` of a range calls the subroutine at `target` and goes
/// on with `continuation`.
pub open(crate) spec fn calls_subroutine(
    instructions: Seq<VerifiedInstruction>,
    from: int,
    at: int,
    target: int,
    continuation: InstructionIndex,
) -> bool {
    &&& from <= at < instructions.len()
    &&& instructions[at].spec_decoded().instruction.opcode == FinalOpcode::Gosub
    &&& instructions[at].spec_successors().spec_fallthrough() == Some(continuation)
    &&& match instructions[at].spec_successors().spec_branch_target() {
        Some(found) => found.spec_get() == target,
        None => false,
    }
}

/// Whether a call in a range enters the subroutine at `target`.
pub open(crate) spec fn is_called(
    instructions: Seq<VerifiedInstruction>,
    from: int,
    target: int,
) -> bool {
    exists|at: int, continuation: InstructionIndex| #[trigger]
        calls_subroutine(instructions, from, at, target, continuation)
}

/// Whether a call in a range goes on with `continuation`.
pub open(crate) spec fn is_gone_on_with(
    instructions: Seq<VerifiedInstruction>,
    from: int,
    target: int,
    continuation: InstructionIndex,
) -> bool {
    exists|at: int| #[trigger] calls_subroutine(instructions, from, at, target, continuation)
}

/// Whether a range installs the handler at `handler`.
pub open(crate) spec fn is_installed(
    instructions: Seq<VerifiedInstruction>,
    from: int,
    handler: int,
) -> bool {
    exists|at: int| #[trigger] installs(instructions, from, at, handler)
}

proof fn lemma_one_more(
    instructions: Seq<VerifiedInstruction>,
    from: int,
    place: int,
    continuation: InstructionIndex,
)
    requires
        0 <= from < instructions.len(),
    ensures
        is_installed(instructions, from, place) <==> installs(instructions, from, from, place)
            || is_installed(instructions, from + 1, place),
        is_gone_on_with(instructions, from, place, continuation) <==> calls_subroutine(
            instructions,
            from,
            from,
            place,
            continuation,
        ) || is_gone_on_with(instructions, from + 1, place, continuation),
{
    if is_installed(instructions, from, place) {
        let at = choose|at: int| #[trigger] installs(instructions, from, at, place);
        if at > from {
            assert(installs(instructions, from + 1, at, place));
        }
    }
    if is_installed(instructions, from + 1, place) {
        let at = choose|at: int| #[trigger] installs(instructions, from + 1, at, place);
        assert(installs(instructions, from, at, place));
    }
    if is_gone_on_with(instructions, from, place, continuation) {
        let at = choose|at: int| #[trigger]
            calls_subroutine(instructions, from, at, place, continuation);
        if at > from {
            assert(calls_subroutine(instructions, from + 1, at, place, continuation));
        }
    }
    if is_gone_on_with(instructions, from + 1, place, continuation) {
        let at = choose|at: int| #[trigger]
            calls_subroutine(instructions, from + 1, at, place, continuation);
        assert(calls_subroutine(instructions, from, at, place, continuation));
    }
}

proof fn lemma_targets(
    id: FunctionTemplateId,
    instructions: Seq<VerifiedInstruction>,
    at: int,
    targets: ProtectedTargets,
    limit: u64,
    place: int,
    continuation: InstructionIndex,
)
    requires
        0 <= at <= instructions.len(),
        targets.handlers.len() == instructions.len(),
        targets.subroutines.len() == instructions.len(),
        targets.continuations.len() == instructions.len(),
        0 <= place < instructions.len(),
        targets_from(id, instructions, at, targets, limit).is_ok(),
    ensures
        ({
            let found = targets_from(id, instructions, at, targets, limit)->Ok_0;
            &&& found.handlers[place] == (targets.handlers[place] || is_installed(
                instructions,
                at,
                place,
            ))
            &&& found.continuations[place].contains(continuation) == (
            targets.continuations[place].contains(continuation) || is_gone_on_with(
                instructions,
                at,
                place,
                continuation,
            ))
        }),
    decreases instructions.len() - at,
{
    if at < instructions.len() {
        let next = with_targets_of(id, instructions[at], targets, limit)->Ok_0;
        lemma_targets(id, instructions, at + 1, next, limit, place, continuation);
        lemma_one_more(instructions, at, place, continuation);
        let opcode = instructions[at].spec_decoded().instruction.opcode;
        if opcode == FinalOpcode::Gosub {
            let target = instructions[at].spec_successors().spec_branch_target().unwrap();
            let behind = instructions[at].spec_successors().spec_fallthrough().unwrap();
            let before = targets.continuations[target.0 as int];
            let after = before.push(behind);
            assert(after[before.len() as int] == behind);
            assert(after.contains(continuation) == (before.contains(continuation) || behind
                == continuation)) by {
                if before.contains(continuation) {
                    let k = choose|k: int| 0 <= k < before.len() && before[k] == continuation;
                    assert(after[k] == continuation);
                }
                if after.contains(continuation) {
                    let k = choose|k: int| 0 <= k < after.len() && after[k] == continuation;
                    if k < before.len() {
                        assert(before[k] == continuation);
                    }
                }
            }
        }
    } else {
        if is_installed(instructions, at, place) {
            let k = choose|k: int| #[trigger] installs(instructions, at, k, place);
            assert(installs(instructions, at, k, place));
        }
        if is_gone_on_with(instructions, at, place, continuation) {
            let k = choose|k: int| #[trigger]
                calls_subroutine(instructions, at, k, place, continuation);
            assert(calls_subroutine(instructions, at, k, place, continuation));
        }
    }
}

/// Handlers start exactly where a `catch` branches to, and a subroutine goes on
/// exactly where one of its calls does.
pub proof fn lemma_handlers_and_subroutines_are_found(
    id: FunctionTemplateId,
    instructions: Seq<VerifiedInstruction>,
    usage: BytecodeGraphUsage,
    limit: u64,
    place: int,
    continuation: InstructionIndex,
)
    requires
        0 <= place < instructions.len(),
        targets_from(
            id,
            instructions,
            0,
            no_targets(instructions.len(), usage),
            limit,
        ).is_ok(),
    ensures
        ({
            let found = targets_from(
                id,
                instructions,
                0,
                no_targets(instructions.len(), usage),
                limit,
            )->Ok_0;
            &&& found.handlers[place] == is_installed(instructions, 0, place)
            &&& found.continuations[place].contains(continuation) == is_gone_on_with(
                instructions,
                0,
                place,
                continuation,
            )
        }),
{
    lemma_targets(
        id,
        instructions,
        0,
        no_targets(instructions.len(), usage),
        limit,
        place,
        continuation,
    );
}

proof fn lemma_subroutines(
    id: FunctionTemplateId,
    instructions: Seq<VerifiedInstruction>,
    at: int,
    targets: ProtectedTargets,
    limit: u64,
    place: int,
)
    requires
        0 <= at <= instructions.len(),
        targets.handlers.len() == instructions.len(),
        targets.subroutines.len() == instructions.len(),
        targets.continuations.len() == instructions.len(),
        0 <= place < instructions.len(),
        targets_from(id, instructions, at, targets, limit).is_ok(),
        targets.subroutines[place] == (targets.continuations[place].len() > 0),
    ensures
        ({
            let found = targets_from(id, instructions, at, targets, limit)->Ok_0;
            found.subroutines[place] == (found.continuations[place].len() > 0)
        }),
    decreases instructions.len() - at,
{
    if at < instructions.len() {
        let next = with_targets_of(id, instructions[at], targets, limit)->Ok_0;
        lemma_subroutines(id, instructions, at + 1, next, limit, place);
    }
}

/// A subroutine starts exactly where some call goes on from it.
pub proof fn lemma_subroutines_are_those_called(
    id: FunctionTemplateId,
    instructions: Seq<VerifiedInstruction>,
    usage: BytecodeGraphUsage,
    limit: u64,
    place: int,
)
    requires
        0 <= place < instructions.len(),
        targets_from(
            id,
            instructions,
            0,
            no_targets(instructions.len(), usage),
            limit,
        ).is_ok(),
    ensures
        targets_from(
            id,
            instructions,
            0,
            no_targets(instructions.len(), usage),
            limit,
        )->Ok_0.subroutines[place] == is_called(instructions, 0, place),
{
    let none = no_targets(instructions.len(), usage);
    let found = targets_from(id, instructions, 0, none, limit)->Ok_0;
    lemma_subroutines(id, instructions, 0, none, limit, place);
    if found.continuations[place].len() > 0 {
        let continuation = found.continuations[place][0];
        lemma_targets(id, instructions, 0, none, limit, place, continuation);
        assert(found.continuations[place].contains(continuation));
        let at = choose|at: int| #[trigger]
            calls_subroutine(instructions, 0, at, place, continuation);
        assert(calls_subroutine(instructions, 0, at, place, continuation));
    }
    if is_called(instructions, 0, place) {
        let (at, continuation) = choose|at: int, continuation: InstructionIndex| #[trigger]
            calls_subroutine(instructions, 0, at, place, continuation);
        lemma_targets(id, instructions, 0, none, limit, place, continuation);
        assert(is_gone_on_with(instructions, 0, place, continuation));
        assert(found.continuations[place].contains(continuation));
    }
}

} // verus!
