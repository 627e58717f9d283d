//! What refusals name.
use crate::bytecode::atoms::required_atom_check;
use crate::bytecode::closures::{ClosureContext, closure_check};
use crate::bytecode::error::{
    BindingPolicyViolationReason, BindingSlot, BytecodeVerificationError,
    BytecodeVerificationErrorKind, MetadataAtomField,
};
use crate::bytecode::executable::executable_kind_check;
use crate::bytecode::internal_stack::InternalStackValue as Slot;
use crate::bytecode::internal_step::stack_transfer;
use crate::bytecode::internal_unwind::discarded_check;
use crate::bytecode::model::{
    ClosureVariableDefinition, CompilerExecutableKind, UnverifiedFunctionMetadata,
};
use crate::bytecode::object_provenance::definition_target_check;
use crate::bytecode::provenance::ObjectDefinitionProvenance as Origin;
use crate::bytecode::stack_error::stack_error;
use crate::control_flow::model::{InstructionIndex, VerifiedInstruction};
use crate::function_graph::{CompilerAtom, FunctionTemplateId};
use crate::instruction::DecodedInstruction;
use crate::opcode::FinalOpcode;
use vstd::prelude::*;

verus! {

/// Whether a refusal names a function, and an instruction of it whose stack has
/// the wrong markers.
pub open spec fn names_stack(
    error: BytecodeVerificationError,
    id: FunctionTemplateId,
    decoded: DecodedInstruction,
) -> bool {
    let opcode = decoded.instruction.opcode;
    let pc = decoded.pc;
    &&& error.function == Some(id)
    &&& {
        ||| error.kind == (BytecodeVerificationErrorKind::ForInIteratorStackMismatch { pc, opcode })
        ||| error.kind == (BytecodeVerificationErrorKind::ForOfIteratorStackMismatch { pc, opcode })
        ||| error.kind == (BytecodeVerificationErrorKind::CatchMarkerStackMismatch { pc, opcode })
        ||| error.kind == (BytecodeVerificationErrorKind::FinallyReturnStackMismatch { pc, opcode })
    }
}

/// Whether a stack holds no marker.
pub open spec fn unmarked(stack: Seq<Slot>) -> bool {
    forall|i: int| 0 <= i < stack.len() ==> #[trigger] stack[i] == Slot::Ordinary
}

proof fn lemma_discarded(
    id: FunctionTemplateId,
    decoded: DecodedInstruction,
    stack: Seq<Slot>,
    cursor: int,
    end: int,
    for_of: bool,
)
    ensures
        match discarded_check(id, decoded, stack, cursor, end, for_of) {
            Err(error) => names_stack(error, id, decoded),
            Ok(_) => true,
        },
    decreases end - cursor,
{
    if cursor < end {
        lemma_discarded(id, decoded, stack, cursor + 1, end, for_of);
        if cursor + 1 < end {
            lemma_discarded(id, decoded, stack, cursor + 2, end, for_of);
        }
    }
}

/// A transfer that refuses a stack names its function and its own instruction.
#[verifier::rlimit(80)]
pub proof fn lemma_transfers_name_their_instruction(
    id: FunctionTemplateId,
    decoded: DecodedInstruction,
    reachable: bool,
    catch_handler: Option<InstructionIndex>,
    instructions: Seq<VerifiedInstruction>,
    stack: Seq<Slot>,
)
    ensures
        match stack_transfer(id, decoded, reachable, catch_handler, instructions, stack) {
            Err(error) => names_stack(error, id, decoded),
            Ok(_) => true,
        },
{
    assert forall|cursor: int, end: int, for_of: bool|
        (#[trigger] discarded_check(id, decoded, stack, cursor, end, for_of)).is_err() implies
        names_stack(
        discarded_check(id, decoded, stack, cursor, end, for_of)->Err_0,
        id,
        decoded,
    ) by {
        lemma_discarded(id, decoded, stack, cursor, end, for_of);
    }
}

/// A definition that is refused names its function and its own instruction, and
/// says what it lacks: a class its template, a method, a private field or copied
/// properties their target, an element its key, and what extends an array its
/// array.
pub proof fn lemma_definitions_say_what_they_lack(
    id: FunctionTemplateId,
    atoms: Seq<CompilerAtom>,
    decoded: DecodedInstruction,
    stack: Seq<Origin>,
)
    ensures
        ({
            let opcode = decoded.instruction.opcode;
            let pc = decoded.pc;
            match definition_target_check(id, atoms, decoded, stack) {
                Ok(_) => true,
                Err(error) => error.function == Some(id) && error.kind == match opcode {
                    FinalOpcode::DefineClass =>
                        BytecodeVerificationErrorKind::DefineClassTemplateMismatch { pc },
                    FinalOpcode::DefineMethod
                    | FinalOpcode::DefineMethodComputed
                    | FinalOpcode::DefinePrivateField
                    | FinalOpcode::CopyDataProperties =>
                        BytecodeVerificationErrorKind::DefineMethodTargetMismatch { pc },
                    FinalOpcode::DefineArrayEl =>
                        BytecodeVerificationErrorKind::DefineArrayElementKeyMismatch { pc },
                    _ => BytecodeVerificationErrorKind::AppendOperandStackMismatch { pc, opcode },
                },
            }
        }),
{
}

/// A function that may not be executed as it says is refused for its place if it
/// should be the root and is not, and for its name otherwise.
pub proof fn lemma_kinds_say_what_is_wrong(
    id: FunctionTemplateId,
    root: FunctionTemplateId,
    metadata: UnverifiedFunctionMetadata,
)
    ensures
        match executable_kind_check(id, root, metadata) {
            Ok(_) => true,
            Err(error) => error.function == Some(id) && error.kind
                == match metadata.executable_kind {
                CompilerExecutableKind::GlobalScript => if id != root {
                    BytecodeVerificationErrorKind::GlobalScriptNotRoot
                } else {
                    BytecodeVerificationErrorKind::GlobalScriptHasFunctionName
                },
                CompilerExecutableKind::IndirectEvalScript => if id != root {
                    BytecodeVerificationErrorKind::IndirectEvalScriptNotRoot
                } else {
                    BytecodeVerificationErrorKind::IndirectEvalScriptHasFunctionName
                },
                CompilerExecutableKind::DirectEvalScript => if id != root {
                    BytecodeVerificationErrorKind::DirectEvalScriptNotRoot
                } else {
                    BytecodeVerificationErrorKind::DirectEvalScriptHasFunctionName
                },
                CompilerExecutableKind::DynamicFunctionScript => if id != root {
                    BytecodeVerificationErrorKind::DynamicFunctionScriptNotRoot
                } else {
                    BytecodeVerificationErrorKind::DynamicFunctionScriptHasFunctionName
                },
                CompilerExecutableKind::Module => if id != root {
                    BytecodeVerificationErrorKind::ModuleNotRoot
                } else {
                    BytecodeVerificationErrorKind::ModuleHasFunctionName
                },
                CompilerExecutableKind::OrdinaryArrow | CompilerExecutableKind::AsyncArrow =>
                    BytecodeVerificationErrorKind::OrdinaryArrowHasFunctionName,
                _ => BytecodeVerificationErrorKind::OrdinaryMethodHasFunctionName,
            },
        },
{
}

/// A stack that fits nothing is refused for the construct that the opcode belongs
/// to: calls and returns of subroutines, for-of loops and catches. Without any
/// marker on the stack, every other opcode is refused as one of a for-in loop.
pub proof fn lemma_stacks_are_refused_for_their_construct(
    id: FunctionTemplateId,
    decoded: DecodedInstruction,
    stack: Seq<Slot>,
)
    ensures
        ({
            let opcode = decoded.instruction.opcode;
            let pc = decoded.pc;
            let error = stack_error(id, decoded, stack);
            let calls = opcode == FinalOpcode::Gosub || opcode == FinalOpcode::Ret;
            let iterates = opcode == FinalOpcode::ForOfStart || opcode == FinalOpcode::ForOfNext
                || opcode == FinalOpcode::ForAwaitOfStart || opcode == FinalOpcode::ForAwaitOfNext
                || opcode == FinalOpcode::IteratorGetValueDone || opcode
                == FinalOpcode::IteratorClose || opcode == FinalOpcode::Rot3r;
            let catches = opcode == FinalOpcode::Catch || opcode == FinalOpcode::NipCatch;
            &&& names_stack(error, id, decoded)
            &&& calls ==> error.kind == (
            BytecodeVerificationErrorKind::FinallyReturnStackMismatch { pc, opcode })
            &&& unmarked(stack) && iterates ==> error.kind == (
            BytecodeVerificationErrorKind::ForOfIteratorStackMismatch { pc, opcode })
            &&& unmarked(stack) && catches ==> error.kind == (
            BytecodeVerificationErrorKind::CatchMarkerStackMismatch { pc, opcode })
            &&& unmarked(stack) && !calls && !iterates && !catches ==> error.kind == (
            BytecodeVerificationErrorKind::ForInIteratorStackMismatch { pc, opcode })
        }),
{
}

/// Steps and starts of loops, and ends of subroutines, are refused for the loop or
/// subroutine that they belong to.
#[verifier::rlimit(60)]
pub proof fn lemma_steps_are_refused_for_their_loop(
    id: FunctionTemplateId,
    decoded: DecodedInstruction,
    reachable: bool,
    catch_handler: Option<InstructionIndex>,
    instructions: Seq<VerifiedInstruction>,
    stack: Seq<Slot>,
)
    ensures
        ({
            let opcode = decoded.instruction.opcode;
            let pc = decoded.pc;
            match stack_transfer(id, decoded, reachable, catch_handler, instructions, stack) {
                Err(error) => {
                    &&& opcode == FinalOpcode::ForOfNext || opcode == FinalOpcode::ForAwaitOfNext
                        || opcode == FinalOpcode::IteratorGetValueDone ==> error.kind == (
                    BytecodeVerificationErrorKind::ForOfIteratorStackMismatch { pc, opcode })
                    &&& opcode == FinalOpcode::ForInNext ==> error.kind == (
                    BytecodeVerificationErrorKind::ForInIteratorStackMismatch { pc, opcode })
                    &&& opcode == FinalOpcode::Ret ==> error.kind == (
                    BytecodeVerificationErrorKind::FinallyReturnStackMismatch { pc, opcode })
                },
                Ok(_) => true,
            }
        }),
{
}

/// A closure variable that is refused is named by its function and its number.
/// The reason follows from what it is: a binding of a direct eval outside one, a
/// missing name, a policy, a global outside a script, an initializer or a source.
pub proof fn lemma_refused_closures_are_named(
    context: ClosureContext,
    closure: ClosureVariableDefinition,
    at: int,
)
    requires
        0 <= at <= u32::MAX,
    ensures
        match closure_check(context, closure, at) {
            Ok(_) => true,
            Err(error) => error.function == Some(context.id) && match error.kind {
                BytecodeVerificationErrorKind::DirectEvalBindingSourceRequiresDirectEvalScript {
                    closure: slot,
                } => slot == at && (context.sources[at] is DirectEvalBinding || context.sources[at]
                    is DirectEvalVariable),
                BytecodeVerificationErrorKind::ConstructorRealmGlobalSourceRequiresDynamicFunctionScript {
                    closure: slot,
                } => slot == at && context.sources[at] is ConstructorRealmGlobal,
                BytecodeVerificationErrorKind::RealmGlobalFunctionInitializerMetadataMismatch {
                    closure: slot,
                    constant,
                } => slot == at && constant == closure.function_initializer,
                BytecodeVerificationErrorKind::RealmGlobalFunctionInitializerOpcodeMismatch {
                    closure: slot,
                    constant,
                    ..
                } => slot == at && closure.function_initializer == Some(constant),
                BytecodeVerificationErrorKind::RealmGlobalLexicalInitializerCountMismatch {
                    closure: slot,
                    ..
                } => slot == at,
                BytecodeVerificationErrorKind::ClosureMetadataMismatch {
                    child,
                    closure: slot,
                } => slot == at && child == context.id && closure.source != context.sources[at],
                BytecodeVerificationErrorKind::BindingPolicyViolation { slot, pc, reason } => slot
                    == BindingSlot::Closure(at as u32) && pc.is_none() && reason
                    == BindingPolicyViolationReason::InvalidDeclarationPolicy,
                _ => required_atom_check(
                    context.id,
                    closure.name,
                    MetadataAtomField::ClosureName(at as u32),
                    context.atoms,
                ).is_err(),
            },
        },
{
}

} // verus!
