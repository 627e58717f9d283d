//! Certification of object, class and array definitions.
use crate::bytecode::error::BytecodeVerificationError;
use crate::bytecode::internal_stack::{
    CertifiedNipCatchTransform, InternalStackCertificate, entry_at,
};
use crate::bytecode::internal_verifier::CertificateModel;
use crate::bytecode::model::{
    BytecodeGraphVerificationLimits, ClosureVariableDefinition, CompilerBindingKind,
    CompilerExecutableKind, VariableDefinition, VerifiedFunctionMetadata,
};
use crate::bytecode::operand_use::{
    closure_operand, local_operand, saturated_u32, spec_closure_operand, spec_local_operand,
    usize_to_u32,
};
use crate::bytecode::provenance::{
    ObjectDefinitionProvenance as Origin, any_length_marker, any_linear, any_needs_increment,
    append_cursor_pair_at_top, append_error, append_pair_for_append, append_pair_for_element,
    append_pair_needing_increment_at_top, append_stack_error, below_top,
    checked_append_pair_at_top, class_error, copy_data_properties_target_index,
    define_array_element_key_error, define_class_error, element_key_error, integer_opcode_value,
    is_append_length_finalizer, is_append_provenance, is_linear_append_provenance,
    method_target_error, method_target_matches_enumerability,
    retained_object_definition_provenance, shuffled_object_definition_provenance, slot_below_top,
    spec_any_length_marker, spec_any_linear, spec_any_needs_increment,
    spec_append_cursor_pair_at_top, spec_append_pair_for_append, spec_append_pair_for_element,
    spec_append_pair_needing_increment_at_top, spec_checked_append_pair_at_top,
    spec_copy_data_properties_target_index, spec_integer_opcode_value,
    spec_is_append_length_finalizer, spec_is_append_provenance, spec_is_linear_append_provenance,
    spec_method_target_matches_enumerability, spec_retained_object_definition_provenance,
    spec_shuffled_object_definition_provenance, spec_static_array_index,
    spec_trailing_elision_pair_at_top, static_array_index, target_error,
    trailing_elision_pair_at_top,
};
use crate::bytecode::stack_error::{growth_failure, reserve_slots};
use crate::control_flow::model::VerifiedInstruction;
use crate::function_graph::{CompilerAtom, FunctionTemplateId, VerifiedCompilerFunction};
use crate::instruction::{DecodedInstruction, Operands};
use crate::opcode::FinalOpcode;
use vstd::prelude::*;

verus! {

/// What the certification of a body depends on.
pub struct DefinitionBody {
    /// Function being certified.
    pub id: FunctionTemplateId,
    /// Its instructions.
    pub instructions: Seq<VerifiedInstruction>,
    /// Its atom pool.
    pub atoms: Seq<CompilerAtom>,
    /// Its argument count.
    pub argument_count: u32,
    /// What it is executed as.
    pub executable_kind: CompilerExecutableKind,
    /// Its arguments, then locals.
    pub variables: Seq<VariableDefinition>,
    /// Its closure variables.
    pub closures: Seq<ClosureVariableDefinition>,
    /// Its typed-stack certificate.
    pub certificate: CertificateModel,
    /// Graph-wide limits.
    pub limits: BytecodeGraphVerificationLimits,
    /// Transfers charged before this body.
    pub base: u64,
}

/// The slot `depth` slots from the end, the lowest slot where the stack is
/// shorter.
pub open spec fn clamped_slot(state: Seq<Origin>, depth: int) -> Option<Origin> {
    if state.len() == 0 {
        None
    } else if state.len() < depth {
        Some(state[0])
    } else {
        Some(state[state.len() - depth])
    }
}

fn clamped(state: &[Origin], depth: usize) -> (slot: Option<Origin>)
    requires
        depth > 0,
    ensures
        slot == clamped_slot(state@, depth as int),
{
    if state.len() == 0 {
        None
    } else if state.len() < depth {
        Some(state[0])
    } else {
        Some(state[state.len() - depth])
    }
}

/// The check that an instruction uses arrays under construction only in the
/// steps of the append sequence.
pub open spec fn linear_inputs_check(
    id: FunctionTemplateId,
    atoms: Seq<CompilerAtom>,
    decoded: DecodedInstruction,
    state: Seq<Origin>,
) -> Result<(), BytecodeVerificationError> {
    let operands = decoded.instruction.operands;
    let plain_top = match slot_below_top(state, 0) {
        Some(top) => !spec_is_linear_append_provenance(top),
        None => false,
    };
    let exact = match decoded.instruction.opcode {
        FinalOpcode::Append => spec_append_pair_for_append(state).is_some() && plain_top,
        FinalOpcode::DefineArrayEl => spec_append_pair_for_element(state).is_some() && plain_top,
        FinalOpcode::Inc => spec_append_cursor_pair_at_top(state).is_some(),
        FinalOpcode::Dup1 => spec_trailing_elision_pair_at_top(state).is_some(),
        FinalOpcode::PutField => spec_is_append_length_finalizer(atoms, operands, state),
        FinalOpcode::Drop => spec_checked_append_pair_at_top(state).is_some(),
        FinalOpcode::ForOfStart | FinalOpcode::ForAwaitOfStart | FinalOpcode::ForOfNext => true,
        _ => false,
    };
    if !spec_any_linear(state, 0) || exact {
        Ok(())
    } else if decoded.instruction.opcode == FinalOpcode::NipCatch {
        Err(append_error(id, decoded))
    } else {
        match decoded.instruction.spec_stack_effect() {
            Err(_) => Err(append_error(id, decoded)),
            Ok(effect) => if state.len() < effect.pops || spec_any_linear(
                state,
                state.len() - effect.pops,
            ) {
                Err(append_error(id, decoded))
            } else {
                Ok(())
            },
        }
    }
}

fn verify_linear_append_inputs(
    id: FunctionTemplateId,
    decoded: DecodedInstruction,
    atoms: &[CompilerAtom],
    state: &[Origin],
) -> (checked: Result<(), BytecodeVerificationError>)
    ensures
        checked == linear_inputs_check(id, atoms@, decoded, state@),
{
    if !any_linear(state, 0) {
        return Ok(());
    }
    let operands = decoded.instruction.operands;
    let plain_top: bool = match below_top(state, 0) {
        Some(top) => !is_linear_append_provenance(top),
        None => false,
    };
    let exact: bool = match decoded.instruction.opcode {
        FinalOpcode::Append => append_pair_for_append(state).is_some() && plain_top,
        FinalOpcode::DefineArrayEl => append_pair_for_element(state).is_some() && plain_top,
        FinalOpcode::Inc => append_cursor_pair_at_top(state).is_some(),
        FinalOpcode::Dup1 => trailing_elision_pair_at_top(state).is_some(),
        FinalOpcode::PutField => is_append_length_finalizer(atoms, operands, state),
        FinalOpcode::Drop => checked_append_pair_at_top(state).is_some(),
        FinalOpcode::ForOfStart | FinalOpcode::ForAwaitOfStart | FinalOpcode::ForOfNext => true,
        _ => false,
    };
    if exact {
        return Ok(());
    }
    if matches!(decoded.instruction.opcode, FinalOpcode::NipCatch) {
        return Err(append_stack_error(id, decoded));
    }
    let pops: usize = match decoded.instruction.stack_effect() {
        Ok(effect) => effect.pops as usize,
        Err(_) => {
            return Err(append_stack_error(id, decoded));
        },
    };
    if state.len() < pops || any_linear(state, state.len() - pops) {
        return Err(append_stack_error(id, decoded));
    }
    Ok(())
}

/// Whether an element definition has a certified target and key.
pub open spec fn element_target_certified(state: Seq<Origin>) -> bool {
    match (clamped_slot(state, 3), clamped_slot(state, 2)) {
        (Some(Origin::FreshObject(object)), Some(Origin::ConvertedPropertyKey(key))) => object
            == key,
        (Some(Origin::ClassConstructor(_)), Some(Origin::ConvertedPropertyKey(_))) => true,
        (Some(Origin::ClassConstructor(_)), Some(Origin::ClassFieldKey(_))) => true,
        (Some(Origin::ClassFieldReceiver(_)), Some(Origin::ClassFieldKey(_))) => true,
        _ => false,
    }
}

/// The check that a definition has a certified target.
pub open spec fn definition_target_check(
    id: FunctionTemplateId,
    atoms: Seq<CompilerAtom>,
    decoded: DecodedInstruction,
    state: Seq<Origin>,
) -> Result<(), BytecodeVerificationError> {
    let operands = decoded.instruction.operands;
    match decoded.instruction.opcode {
        FinalOpcode::DefineClass => match operands {
            Operands::AtomU8 { value, .. } => if value <= 3 && (if value & 1 == 0 {
                clamped_slot(state, 2) == Some(Origin::LiteralUndefined)
            } else {
                state.len() >= 3
            }) {
                Ok(())
            } else {
                Err(class_error(id, decoded))
            },
            _ => Err(class_error(id, decoded)),
        },
        FinalOpcode::DefineMethod => match operands {
            Operands::AtomU8 { value, .. } => if spec_method_target_matches_enumerability(
                clamped_slot(state, 2),
                value,
            ) {
                Ok(())
            } else {
                Err(target_error(id, decoded))
            },
            _ => Err(target_error(id, decoded)),
        },
        FinalOpcode::DefineMethodComputed => match operands {
            Operands::U8(flags) => if spec_method_target_matches_enumerability(
                clamped_slot(state, 3),
                flags,
            ) {
                Ok(())
            } else {
                Err(target_error(id, decoded))
            },
            _ => Err(target_error(id, decoded)),
        },
        FinalOpcode::CopyDataProperties => match spec_copy_data_properties_target_index(
            state.len(),
            operands,
        ) {
            Some(target) => if state[target] is FreshObject {
                Ok(())
            } else {
                Err(target_error(id, decoded))
            },
            None => Err(target_error(id, decoded)),
        },
        FinalOpcode::DefineArrayEl => if element_target_certified(state)
            || spec_append_pair_for_element(state).is_some() {
            Ok(())
        } else {
            Err(element_key_error(id, decoded))
        },
        FinalOpcode::DefineField => match clamped_slot(state, 2) {
            Some(Origin::FreshArray { minimum_cursor, .. }) => match spec_static_array_index(
                atoms,
                operands,
            ) {
                Some(index) => if state.len() >= 2 && index >= minimum_cursor {
                    Ok(())
                } else {
                    Err(append_error(id, decoded))
                },
                None => Err(append_error(id, decoded)),
            },
            _ => Ok(()),
        },
        FinalOpcode::DefinePrivateField => match clamped_slot(state, 3) {
            Some(Origin::ClassConstructor(_)) => Ok(()),
            Some(Origin::ClassFieldReceiver(_)) => Ok(()),
            _ => Err(target_error(id, decoded)),
        },
        FinalOpcode::Append => if spec_append_pair_for_append(state).is_some() {
            Ok(())
        } else {
            Err(append_error(id, decoded))
        },
        FinalOpcode::Dup1 => if spec_trailing_elision_pair_at_top(state).is_some() {
            Ok(())
        } else {
            Err(append_error(id, decoded))
        },
        _ => Ok(()),
    }
}

fn verify_definition_target(
    id: FunctionTemplateId,
    atoms: &[CompilerAtom],
    decoded: DecodedInstruction,
    state: &[Origin],
) -> (checked: Result<(), BytecodeVerificationError>)
    ensures
        checked == definition_target_check(id, atoms@, decoded, state@),
{
    let operands = decoded.instruction.operands;
    match decoded.instruction.opcode {
        FinalOpcode::DefineClass => {
            if let Operands::AtomU8 { value, .. } = operands {
                let fits: bool = if value & 1 == 0 {
                    matches!(clamped(state, 2), Some(Origin::LiteralUndefined))
                } else {
                    state.len() >= 3
                };
                if value <= 3 && fits {
                    return Ok(());
                }
            }
            Err(define_class_error(id, decoded))
        },
        FinalOpcode::DefineMethod => {
            if let Operands::AtomU8 { value, .. } = operands {
                if method_target_matches_enumerability(clamped(state, 2), value) {
                    return Ok(());
                }
            }
            Err(method_target_error(id, decoded))
        },
        FinalOpcode::DefineMethodComputed => {
            if let Operands::U8(flags) = operands {
                if method_target_matches_enumerability(clamped(state, 3), flags) {
                    return Ok(());
                }
            }
            Err(method_target_error(id, decoded))
        },
        FinalOpcode::CopyDataProperties => {
            if let Some(target) = copy_data_properties_target_index(state.len(), operands) {
                if matches!(state[target], Origin::FreshObject(_)) {
                    return Ok(());
                }
            }
            Err(method_target_error(id, decoded))
        },
        FinalOpcode::DefineArrayEl => {
            let certified: bool = match (clamped(state, 3), clamped(state, 2)) {
                (Some(Origin::FreshObject(object)), Some(Origin::ConvertedPropertyKey(key))) => object
                    == key,
                (Some(Origin::ClassConstructor(_)), Some(Origin::ConvertedPropertyKey(_))) => true,
                (Some(Origin::ClassConstructor(_)), Some(Origin::ClassFieldKey(_))) => true,
                (Some(Origin::ClassFieldReceiver(_)), Some(Origin::ClassFieldKey(_))) => true,
                _ => false,
            };
            if certified || append_pair_for_element(state).is_some() {
                return Ok(());
            }
            Err(define_array_element_key_error(id, decoded))
        },
        FinalOpcode::DefineField => {
            if let Some(Origin::FreshArray { minimum_cursor, .. }) = clamped(state, 2) {
                return match static_array_index(atoms, operands) {
                    Some(index) => if state.len() >= 2 && index >= minimum_cursor {
                        Ok(())
                    } else {
                        Err(append_stack_error(id, decoded))
                    },
                    None => Err(append_stack_error(id, decoded)),
                };
            }
            Ok(())
        },
        FinalOpcode::DefinePrivateField => match clamped(state, 3) {
            Some(Origin::ClassConstructor(_)) => Ok(()),
            Some(Origin::ClassFieldReceiver(_)) => Ok(()),
            _ => Err(method_target_error(id, decoded)),
        },
        FinalOpcode::Append => {
            if append_pair_for_append(state).is_some() {
                return Ok(());
            }
            Err(append_stack_error(id, decoded))
        },
        FinalOpcode::Dup1 => {
            if trailing_elision_pair_at_top(state).is_some() {
                return Ok(());
            }
            Err(append_stack_error(id, decoded))
        },
        _ => Ok(()),
    }
}

/// The check of an instruction before its transfer: a length about to be set
/// must be set, an increment that is owed must follow, arrays under
/// construction are used linearly, and definitions have certified targets.
pub open spec fn definition_check(
    id: FunctionTemplateId,
    atoms: Seq<CompilerAtom>,
    decoded: DecodedInstruction,
    state: Seq<Origin>,
) -> Result<(), BytecodeVerificationError> {
    let opcode = decoded.instruction.opcode;
    if spec_any_length_marker(state, 0) && (opcode != FinalOpcode::PutField
        || !spec_is_append_length_finalizer(atoms, decoded.instruction.operands, state)) {
        Err(append_error(id, decoded))
    } else if spec_any_needs_increment(state, 0) && (opcode != FinalOpcode::Inc
        || spec_append_pair_needing_increment_at_top(state).is_none()) {
        Err(append_error(id, decoded))
    } else if linear_inputs_check(id, atoms, decoded, state).is_err() {
        linear_inputs_check(id, atoms, decoded, state)
    } else {
        definition_target_check(id, atoms, decoded, state)
    }
}

pub(crate) fn verify_definition(
    id: FunctionTemplateId,
    atoms: &[CompilerAtom],
    decoded: DecodedInstruction,
    state: &[Origin],
) -> (checked: Result<(), BytecodeVerificationError>)
    ensures
        checked == definition_check(id, atoms@, decoded, state@),
{
    let opcode = decoded.instruction.opcode;
    if any_length_marker(state, 0) && (!matches!(opcode, FinalOpcode::PutField)
        || !is_append_length_finalizer(atoms, decoded.instruction.operands, state)) {
        return Err(append_stack_error(id, decoded));
    }
    if any_needs_increment(state, 0) && (!matches!(opcode, FinalOpcode::Inc)
        || append_pair_needing_increment_at_top(state).is_none()) {
        return Err(append_stack_error(id, decoded));
    }
    verify_linear_append_inputs(id, decoded, atoms, state)?;
    verify_definition_target(id, atoms, decoded, state)
}

/// Whether an instruction reads a class-field-key cell.
pub open spec fn reads_field_key(
    decoded: DecodedInstruction,
    argument_count: u32,
    variables: Seq<VariableDefinition>,
    closures: Seq<ClosureVariableDefinition>,
) -> bool {
    let opcode = decoded.instruction.opcode;
    let operands = decoded.instruction.operands;
    match opcode {
        FinalOpcode::GetVarRefCheck => match spec_closure_operand(opcode, operands) {
            Some(slot) => slot < closures.len() && closures[slot as int].spec_policy().kind
                == CompilerBindingKind::ClassFieldKey,
            None => false,
        },
        FinalOpcode::GetLocCheck => match spec_local_operand(opcode, operands) {
            Some(slot) => argument_count + slot < variables.len() && variables[argument_count
                + slot].policy.kind == CompilerBindingKind::ClassFieldKey,
            None => false,
        },
        _ => false,
    }
}

fn is_field_key_read(
    decoded: DecodedInstruction,
    argument_count: u32,
    variables: &[VariableDefinition],
    closures: &[ClosureVariableDefinition],
) -> (reads: bool)
    ensures
        reads == reads_field_key(decoded, argument_count, variables@, closures@),
{
    let opcode = decoded.instruction.opcode;
    let operands = decoded.instruction.operands;
    match opcode {
        FinalOpcode::GetVarRefCheck => match closure_operand(opcode, operands) {
            Some(slot) => {
                let slot: usize = slot as usize;
                slot < closures.len() && matches!(
                    closures[slot].policy().kind,
                    CompilerBindingKind::ClassFieldKey
                )
            },
            None => false,
        },
        FinalOpcode::GetLocCheck => match local_operand(opcode, operands) {
            Some(slot) => {
                let position: u64 = argument_count as u64 + slot as u64;
                position < variables.len() as u64 && matches!(
                    variables[position as usize].policy.kind,
                    CompilerBindingKind::ClassFieldKey
                )
            },
            None => false,
        },
        _ => false,
    }
}

/// The stack with its top `count` slots removed and `pushed` put in their
/// place.
pub open spec fn replaced(state: Seq<Origin>, count: int, pushed: Seq<Origin>) -> Seq<Origin> {
    state.take(state.len() - count) + pushed
}

/// Cursor of the array at the top after an increment.
pub open spec fn incremented(state: Seq<Origin>) -> Option<Origin> {
    match (slot_below_top(state, 1), slot_below_top(state, 0)) {
        (Some(Origin::AppendDestination(site)), Some(Origin::AppendCursorNeedsIncrement(cursor))) => if site
            == cursor {
            Some(Origin::CheckedAppendCursor(site))
        } else {
            None
        },
        (Some(Origin::AppendDestination(site)), Some(Origin::CheckedAppendCursor(cursor))) => if site
            == cursor {
            Some(Origin::AppendCursorAfterElision(site))
        } else {
            None
        },
        (Some(Origin::AppendDestination(site)), Some(Origin::AppendCursorAfterElision(cursor))) => if site
            == cursor {
            Some(Origin::AppendCursorAfterElision(site))
        } else {
            None
        },
        _ => None,
    }
}

/// What a pushed integer is to the array at the top.
pub open spec fn pushed_integer(state: Seq<Origin>, value: i32) -> Origin {
    match slot_below_top(state, 0) {
        Some(Origin::FreshArray { site, minimum_cursor }) => if value >= 0 && value
            >= minimum_cursor {
            Origin::ArrayCursorCandidate { site, value: value as u32 }
        } else {
            Origin::Unknown
        },
        _ => Origin::Unknown,
    }
}

/// What a key is once it was converted for the object below it.
pub open spec fn converted_key(state: Seq<Origin>) -> Origin {
    match slot_below_top(state, 1) {
        Some(Origin::FreshObject(site)) => Origin::ConvertedPropertyKey(site),
        Some(Origin::ClassConstructor(site)) => Origin::ConvertedPropertyKey(site),
        _ => Origin::Unknown,
    }
}

/// Rearrangements of the stack.
pub open spec fn rearranged(opcode: FinalOpcode, state: Seq<Origin>) -> Option<Seq<Origin>> {
    let len = state.len() as int;
    let at = |depth: int| state[len - depth];
    let moved = |depth: int| spec_shuffled_object_definition_provenance(state[len - depth]);
    match opcode {
        FinalOpcode::Dup => Some(
            if spec_is_append_provenance(at(1)) {
                replaced(state, 1, seq![Origin::Unknown, Origin::Unknown])
            } else {
                state.push(moved(1))
            },
        ),
        FinalOpcode::Dup2 => Some(state.push(moved(2)).push(moved(1))),
        FinalOpcode::Insert2 => Some(replaced(state, 2, seq![moved(1), moved(2), moved(1)])),
        FinalOpcode::Insert3 => Some(
            replaced(state, 3, seq![moved(1), moved(3), moved(2), moved(1)]),
        ),
        FinalOpcode::Swap => Some(replaced(state, 2, seq![at(1), at(2)])),
        FinalOpcode::Perm3 => Some(replaced(state, 3, seq![at(2), at(3), at(1)])),
        FinalOpcode::GetField2 => Some(
            replaced(
                state,
                1,
                seq![spec_retained_object_definition_provenance(at(1)), Origin::Unknown],
            ),
        ),
        FinalOpcode::GetArrayEl2 => Some(
            replaced(
                state,
                2,
                seq![spec_retained_object_definition_provenance(at(2)), Origin::Unknown],
            ),
        ),
        FinalOpcode::ToPropKey => Some(replaced(state, 1, seq![converted_key(state)])),
        FinalOpcode::SetNameComputed
        | FinalOpcode::SetHomeObject
        | FinalOpcode::CopyDataProperties => Some(state),
        _ => None,
    }
}

fn rearrange(opcode: FinalOpcode, state: &mut Vec<Origin>) -> (done: bool)
    requires
        old(state)@.len() >= opcode.spec_metadata().pops,
    ensures
        match rearranged(opcode, old(state)@) {
            Some(next) => done && final(state)@ == next,
            None => !done && final(state)@ == old(state)@,
        },
{
    let len: usize = state.len();
    let ghost before = state@;
    match opcode {
        FinalOpcode::Dup => {
            let top = state[len - 1];
            if is_append_provenance(top) {
                state.set(len - 1, Origin::Unknown);
                state.push(Origin::Unknown);
            } else {
                state.push(shuffled_object_definition_provenance(top));
            }
        },
        FinalOpcode::Dup2 => {
            let left = shuffled_object_definition_provenance(state[len - 2]);
            let right = shuffled_object_definition_provenance(state[len - 1]);
            state.push(left);
            state.push(right);
        },
        FinalOpcode::Insert2 => {
            let left = shuffled_object_definition_provenance(state[len - 2]);
            let right = shuffled_object_definition_provenance(state[len - 1]);
            state.set(len - 2, right);
            state.set(len - 1, left);
            state.push(right);
        },
        FinalOpcode::Insert3 => {
            let first = shuffled_object_definition_provenance(state[len - 3]);
            let second = shuffled_object_definition_provenance(state[len - 2]);
            let third = shuffled_object_definition_provenance(state[len - 1]);
            state.set(len - 3, third);
            state.set(len - 2, first);
            state.set(len - 1, second);
            state.push(third);
        },
        FinalOpcode::Swap => {
            let left = state[len - 2];
            let right = state[len - 1];
            state.set(len - 2, right);
            state.set(len - 1, left);
        },
        FinalOpcode::Perm3 => {
            let left = state[len - 3];
            let right = state[len - 2];
            state.set(len - 3, right);
            state.set(len - 2, left);
        },
        FinalOpcode::GetField2 => {
            let base = retained_object_definition_provenance(state[len - 1]);
            state.set(len - 1, base);
            state.push(Origin::Unknown);
        },
        FinalOpcode::GetArrayEl2 => {
            let base = retained_object_definition_provenance(state[len - 2]);
            state.set(len - 2, base);
            state.set(len - 1, Origin::Unknown);
        },
        FinalOpcode::ToPropKey => {
            let converted = match below_top(state, 1) {
                Some(Origin::FreshObject(site)) => Origin::ConvertedPropertyKey(site),
                Some(Origin::ClassConstructor(site)) => Origin::ConvertedPropertyKey(site),
                _ => Origin::Unknown,
            };
            state.set(len - 1, converted);
        },
        FinalOpcode::SetNameComputed
        | FinalOpcode::SetHomeObject
        | FinalOpcode::CopyDataProperties => {},
        _ => {
            return false;
        },
    }
    proof {
        assert(state@ =~= rearranged(opcode, before).unwrap());
    }
    true
}

/// Definitions on objects, classes and arrays under construction.
pub open spec fn defined(
    id: FunctionTemplateId,
    index: int,
    atoms: Seq<CompilerAtom>,
    decoded: DecodedInstruction,
    state: Seq<Origin>,
) -> Result<Option<Seq<Origin>>, BytecodeVerificationError> {
    let len = state.len() as int;
    let operands = decoded.instruction.operands;
    let site = saturated_u32(index);
    let kept = |depth: int| spec_retained_object_definition_provenance(state[len - depth]);
    match decoded.instruction.opcode {
        FinalOpcode::DefineClass => match operands {
            Operands::AtomU8 { value, .. } => if value <= 3 {
                Ok(
                    Some(
                        replaced(
                            state,
                            if value & 1 == 0 {
                                2
                            } else {
                                3
                            },
                            seq![Origin::ClassConstructor(site), Origin::ClassPrototype(site)],
                        ),
                    ),
                )
            } else {
                Err(target_error(id, decoded))
            },
            _ => Err(target_error(id, decoded)),
        },
        FinalOpcode::ArrayFrom => match operands.spec_dynamic_argument_count() {
            Some(count) => Ok(
                Some(
                    replaced(
                        state,
                        count as int,
                        seq![Origin::FreshArray { site, minimum_cursor: count as u32 }],
                    ),
                ),
            ),
            None => Err(append_error(id, decoded)),
        },
        FinalOpcode::Dup1 => match spec_trailing_elision_pair_at_top(state) {
            Some(array) => Ok(
                Some(
                    replaced(
                        state,
                        2,
                        seq![
                            Origin::AppendDestination(array),
                            Origin::AppendLengthTarget(array),
                            Origin::AppendLengthCursor(array),
                        ],
                    ),
                ),
            ),
            None => Err(append_error(id, decoded)),
        },
        FinalOpcode::DefineField => match state[len - 2] {
            Origin::FreshArray { site: array, .. } => match spec_static_array_index(
                atoms,
                operands,
            ) {
                Some(element) => Ok(
                    Some(
                        replaced(
                            state,
                            2,
                            seq![
                                Origin::FreshArray {
                                    site: array,
                                    minimum_cursor: saturated_u32(element + 1),
                                },
                            ],
                        ),
                    ),
                ),
                None => Err(append_error(id, decoded)),
            },
            _ => Ok(Some(replaced(state, 2, seq![kept(2)]))),
        },
        FinalOpcode::SetProto | FinalOpcode::DefineMethod => Ok(
            Some(replaced(state, 2, seq![kept(2)])),
        ),
        FinalOpcode::DefineArrayEl => match spec_append_pair_for_element(state) {
            Some(array) => Ok(
                Some(
                    replaced(
                        state,
                        3,
                        seq![
                            Origin::AppendDestination(array),
                            Origin::AppendCursorNeedsIncrement(array),
                        ],
                    ),
                ),
            ),
            None => Ok(Some(state.drop_last())),
        },
        FinalOpcode::DefinePrivateField | FinalOpcode::DefineMethodComputed => Ok(
            Some(replaced(state, 3, seq![kept(3)])),
        ),
        FinalOpcode::Append => match spec_append_pair_for_append(state) {
            Some(pair) => Ok(
                Some(
                    replaced(
                        state,
                        3,
                        seq![
                            Origin::AppendDestination(pair.site),
                            if pair.pending_elision {
                                Origin::AppendCursorAfterElision(pair.site)
                            } else {
                                Origin::CheckedAppendCursor(pair.site)
                            },
                        ],
                    ),
                ),
            ),
            None => Err(append_error(id, decoded)),
        },
        FinalOpcode::Inc => match incremented(state) {
            Some(next) => Ok(Some(replaced(state, 1, seq![next]))),
            None => Ok(None),
        },
        FinalOpcode::ForOfNext => Ok(
            Some(state.push(Origin::Unknown).push(Origin::Unknown)),
        ),
        FinalOpcode::Drop => if spec_checked_append_pair_at_top(state).is_some() {
            Ok(Some(replaced(state, 2, seq![Origin::Unknown])))
        } else {
            Ok(None)
        },
        FinalOpcode::PutField => if spec_is_append_length_finalizer(atoms, operands, state) {
            Ok(Some(replaced(state, 3, seq![Origin::Unknown])))
        } else {
            Ok(None)
        },
        _ => Ok(None),
    }
}

fn define(
    id: FunctionTemplateId,
    index: usize,
    atoms: &[CompilerAtom],
    decoded: DecodedInstruction,
    state: &mut Vec<Origin>,
) -> (done: Result<bool, BytecodeVerificationError>)
    requires
        match decoded.instruction.spec_stack_effect() {
            Ok(effect) => old(state)@.len() >= effect.pops,
            Err(_) => false,
        },
    ensures
        match defined(id, index as int, atoms@, decoded, old(state)@) {
            Ok(Some(next)) => match done {
                Ok(done) => done && final(state)@ == next,
                Err(error) => decoded.instruction.opcode == FinalOpcode::ForOfNext
                    && growth_failure(id, 0, 2, error),
            },
            Ok(None) => done == Ok::<bool, BytecodeVerificationError>(false) && final(state)@
                == old(state)@,
            Err(error) => done == Err::<bool, BytecodeVerificationError>(error),
        },
{
    let len: usize = state.len();
    let ghost before = state@;
    let operands = decoded.instruction.operands;
    let site: u32 = usize_to_u32(index);
    match decoded.instruction.opcode {
        FinalOpcode::DefineClass => {
            let removed: usize = match operands {
                Operands::AtomU8 { value, .. } => {
                    if value > 3 {
                        return Err(method_target_error(id, decoded));
                    }
                    if value & 1 == 0 {
                        2
                    } else {
                        3
                    }
                },
                _ => {
                    return Err(method_target_error(id, decoded));
                },
            };
            state.truncate(len - removed);
            state.push(Origin::ClassConstructor(site));
            state.push(Origin::ClassPrototype(site));
        },
        FinalOpcode::ArrayFrom => {
            let count: u16 = match operands.dynamic_argument_count() {
                Some(count) => count,
                None => {
                    return Err(append_stack_error(id, decoded));
                },
            };
            state.truncate(len - count as usize);
            state.push(Origin::FreshArray { site, minimum_cursor: count as u32 });
        },
        FinalOpcode::Dup1 => {
            let array: u32 = match trailing_elision_pair_at_top(state) {
                Some(array) => array,
                None => {
                    return Err(append_stack_error(id, decoded));
                },
            };
            state.set(len - 2, Origin::AppendDestination(array));
            state.set(len - 1, Origin::AppendLengthTarget(array));
            state.push(Origin::AppendLengthCursor(array));
        },
        FinalOpcode::DefineField => {
            let base = match state[len - 2] {
                Origin::FreshArray { site: array, .. } => match static_array_index(
                    atoms,
                    operands,
                ) {
                    Some(element) => Origin::FreshArray {
                        site: array,
                        minimum_cursor: element.saturating_add(1),
                    },
                    None => {
                        return Err(append_stack_error(id, decoded));
                    },
                },
                value => retained_object_definition_provenance(value),
            };
            state.truncate(len - 2);
            state.push(base);
        },
        FinalOpcode::SetProto | FinalOpcode::DefineMethod => {
            let base = retained_object_definition_provenance(state[len - 2]);
            state.truncate(len - 2);
            state.push(base);
        },
        FinalOpcode::DefineArrayEl => {
            if let Some(array) = append_pair_for_element(state) {
                state.truncate(len - 3);
                state.push(Origin::AppendDestination(array));
                state.push(Origin::AppendCursorNeedsIncrement(array));
            } else {
                state.truncate(len - 1);
            }
        },
        FinalOpcode::DefinePrivateField | FinalOpcode::DefineMethodComputed => {
            let base = retained_object_definition_provenance(state[len - 3]);
            state.truncate(len - 3);
            state.push(base);
        },
        FinalOpcode::Append => {
            let pair = match append_pair_for_append(state) {
                Some(pair) => pair,
                None => {
                    return Err(append_stack_error(id, decoded));
                },
            };
            state.truncate(len - 3);
            state.push(Origin::AppendDestination(pair.site));
            state.push(
                if pair.pending_elision {
                    Origin::AppendCursorAfterElision(pair.site)
                } else {
                    Origin::CheckedAppendCursor(pair.site)
                },
            );
        },
        FinalOpcode::Inc => {
            let next = match (below_top(state, 1), below_top(state, 0)) {
                (
                    Some(Origin::AppendDestination(array)),
                    Some(Origin::AppendCursorNeedsIncrement(cursor)),
                ) => {
                    if array != cursor {
                        return Ok(false);
                    }
                    Origin::CheckedAppendCursor(array)
                },
                (
                    Some(Origin::AppendDestination(array)),
                    Some(Origin::CheckedAppendCursor(cursor)),
                ) => {
                    if array != cursor {
                        return Ok(false);
                    }
                    Origin::AppendCursorAfterElision(array)
                },
                (
                    Some(Origin::AppendDestination(array)),
                    Some(Origin::AppendCursorAfterElision(cursor)),
                ) => {
                    if array != cursor {
                        return Ok(false);
                    }
                    Origin::AppendCursorAfterElision(array)
                },
                _ => {
                    return Ok(false);
                },
            };
            state.set(len - 1, next);
        },
        FinalOpcode::ForOfNext => {
            reserve_slots(id, state, 2)?;
            state.push(Origin::Unknown);
            state.push(Origin::Unknown);
        },
        FinalOpcode::Drop => {
            if checked_append_pair_at_top(state).is_none() {
                return Ok(false);
            }
            state.truncate(len - 2);
            state.push(Origin::Unknown);
        },
        FinalOpcode::PutField => {
            if !is_append_length_finalizer(atoms, operands, state) {
                return Ok(false);
            }
            state.truncate(len - 3);
            state.push(Origin::Unknown);
        },
        _ => {
            return Ok(false);
        },
    }
    proof {
        assert(state@ =~= defined(id, index as int, atoms@, decoded, before).unwrap().unwrap());
    }
    Ok(true)
}

/// Values that instructions produce.
pub open(crate) spec fn produced(
    body: DefinitionBody,
    index: int,
    decoded: DecodedInstruction,
    state: Seq<Origin>,
) -> Option<Origin> {
    let opcode = decoded.instruction.opcode;
    let site = saturated_u32(index);
    if opcode == FinalOpcode::Undefined {
        Some(Origin::LiteralUndefined)
    } else if opcode == FinalOpcode::Object {
        Some(Origin::FreshObject(site))
    } else if opcode == FinalOpcode::PushThis && body.executable_kind
        == CompilerExecutableKind::ClassConstructor {
        Some(Origin::ClassFieldReceiver(site))
    } else if reads_field_key(decoded, body.argument_count, body.variables, body.closures) {
        Some(Origin::ClassFieldKey(site))
    } else {
        match spec_integer_opcode_value(opcode, decoded.instruction.operands) {
            Some(value) => Some(pushed_integer(state, value)),
            None => None,
        }
    }
}

/// The stack that a `nip_catch` leaves, by its certified rearrangement.
pub open spec fn nipped(
    id: FunctionTemplateId,
    decoded: DecodedInstruction,
    transform: Option<CertifiedNipCatchTransform>,
    state: Seq<Origin>,
) -> Result<Seq<Origin>, BytecodeVerificationError> {
    match transform {
        Some(transform) => if state.len() != transform.input_depth || transform.retained_prefix
            >= transform.input_depth {
            Err(target_error(id, decoded))
        } else {
            Ok(state.take(transform.retained_prefix as int).push(state.last()))
        },
        None => Err(target_error(id, decoded)),
    }
}

/// Provenance transfer of one instruction; none where the stack is too short,
/// as it can be in unreachable code.
pub open(crate) spec fn definition_transfer(
    body: DefinitionBody,
    index: int,
    decoded: DecodedInstruction,
    state: Seq<Origin>,
) -> Result<Option<Seq<Origin>>, BytecodeVerificationError> {
    let id = body.id;
    if decoded.instruction.opcode == FinalOpcode::NipCatch {
        match nipped(id, decoded, entry_at(body.certificate.certificates.nips, index), state) {
            Ok(next) => Ok(Some(next)),
            Err(error) => Err(error),
        }
    } else {
        match decoded.instruction.spec_stack_effect() {
            Err(_) => Err(target_error(id, decoded)),
            Ok(effect) => {
                let kept = state.len() - effect.pops;
                let output_len = kept + effect.pushes;
                if state.len() < effect.pops {
                    Ok(None)
                } else if output_len > usize::MAX {
                    Err(target_error(id, decoded))
                } else {
                    let next = match rearranged(decoded.instruction.opcode, state) {
                        Some(next) => Ok(next),
                        None => match produced(body, index, decoded, state) {
                            Some(value) => Ok(state.push(value)),
                            None => match defined(id, index, body.atoms, decoded, state) {
                                Err(error) => Err(error),
                                Ok(Some(next)) => Ok(next),
                                Ok(None) => Ok(
                                    state.take(kept) + Seq::new(
                                        effect.pushes as nat,
                                        |i: int| Origin::Unknown,
                                    ),
                                ),
                            },
                        },
                    };
                    match next {
                        Err(error) => Err(error),
                        Ok(next) => if next.len() != output_len {
                            Err(target_error(id, decoded))
                        } else {
                            Ok(Some(next))
                        },
                    }
                }
            },
        }
    }
}

/// The executable parts hold exactly the body.
pub(crate) open(crate) spec fn holds_body(
    body: DefinitionBody,
    id: FunctionTemplateId,
    function: &VerifiedCompilerFunction,
    metadata: &VerifiedFunctionMetadata,
    internal_stack: &InternalStackCertificate,
    limits: BytecodeGraphVerificationLimits,
    base: u64,
) -> bool {
    &&& body.id == id
    &&& body.instructions == function.control_flow.instructions@
    &&& body.atoms == function.atoms@
    &&& body.argument_count == function.control_flow.domains.argument_count
    &&& body.executable_kind == metadata.executable_kind
    &&& body.variables == metadata.variables@
    &&& body.closures == metadata.closures@
    &&& body.certificate == internal_stack.model()
    &&& body.limits == limits
    &&& body.base == base
}

fn produce(
    function: &VerifiedCompilerFunction,
    metadata: &VerifiedFunctionMetadata,
    index: usize,
    decoded: DecodedInstruction,
    state: &[Origin],
    Ghost(body): Ghost<DefinitionBody>,
) -> (value: Option<Origin>)
    requires
        body.argument_count == function.control_flow.domains.argument_count,
        body.executable_kind == metadata.executable_kind,
        body.variables == metadata.variables@,
        body.closures == metadata.closures@,
    ensures
        value == produced(body, index as int, decoded, state@),
{
    let opcode = decoded.instruction.opcode;
    let site: u32 = usize_to_u32(index);
    if matches!(opcode, FinalOpcode::Undefined) {
        return Some(Origin::LiteralUndefined);
    }
    if matches!(opcode, FinalOpcode::Object) {
        return Some(Origin::FreshObject(site));
    }
    if matches!(opcode, FinalOpcode::PushThis) && matches!(
        metadata.executable_kind,
        CompilerExecutableKind::ClassConstructor
    ) {
        return Some(Origin::ClassFieldReceiver(site));
    }
    if is_field_key_read(
        decoded,
        function.control_flow.domains.argument_count,
        &metadata.variables,
        &metadata.closures,
    ) {
        return Some(Origin::ClassFieldKey(site));
    }
    match integer_opcode_value(opcode, decoded.instruction.operands) {
        Some(value) => Some(
            match below_top(state, 0) {
                Some(Origin::FreshArray { site, minimum_cursor }) => if value >= 0 && value as u32
                    >= minimum_cursor {
                    Origin::ArrayCursorCandidate { site, value: value as u32 }
                } else {
                    Origin::Unknown
                },
                _ => Origin::Unknown,
            },
        ),
        None => None,
    }
}

/// Whether `error` reports that the slots by which an instruction lengthens a
/// stack of `len` slots could not be reserved. They are reserved once the stack
/// is known to hold the operands.
pub open spec fn transfer_growth_failure(
    id: FunctionTemplateId,
    decoded: DecodedInstruction,
    len: nat,
    error: BytecodeVerificationError,
) -> bool {
    decoded.instruction.opcode != FinalOpcode::NipCatch
        && match decoded.instruction.spec_stack_effect() {
        Ok(effect) => {
            let output = len - effect.pops + effect.pushes;
            len >= effect.pops && output <= usize::MAX && growth_failure(
                id,
                len,
                output as nat,
                error,
            )
        },
        Err(_) => false,
    }
}

pub(crate) fn transfer_object_definition_provenance(
    id: FunctionTemplateId,
    instruction_index: usize,
    decoded: DecodedInstruction,
    nip_catch_transform: Option<CertifiedNipCatchTransform>,
    function: &VerifiedCompilerFunction,
    metadata: &VerifiedFunctionMetadata,
    state: &mut Vec<Origin>,
    Ghost(body): Ghost<DefinitionBody>,
) -> (transferred: Result<bool, BytecodeVerificationError>)
    requires
        body.id == id,
        body.atoms == function.atoms@,
        body.argument_count == function.control_flow.domains.argument_count,
        body.executable_kind == metadata.executable_kind,
        body.variables == metadata.variables@,
        body.closures == metadata.closures@,
        nip_catch_transform == entry_at(
            body.certificate.certificates.nips,
            instruction_index as int,
        ),
    ensures
        ({
            let expected = definition_transfer(
                body,
                instruction_index as int,
                decoded,
                old(state)@,
            );
            match transferred {
                Ok(true) => expected == Ok::<Option<Seq<Origin>>, BytecodeVerificationError>(
                    Some(final(state)@),
                ),
                Ok(false) => expected == Ok::<Option<Seq<Origin>>, BytecodeVerificationError>(None)
                    && final(state)@ == old(state)@,
                Err(error) => expected == Err::<Option<Seq<Origin>>, BytecodeVerificationError>(
                    error,
                ) || transfer_growth_failure(id, decoded, old(state)@.len(), error),
            }
        }),
{
    let len: usize = state.len();
    let ghost before = state@;
    if matches!(decoded.instruction.opcode, FinalOpcode::NipCatch) {
        let transform = match nip_catch_transform {
            Some(transform) => transform,
            None => {
                return Err(method_target_error(id, decoded));
            },
        };
        let retained: usize = transform.retained_prefix as usize;
        if len != transform.input_depth as usize || transform.retained_prefix
            >= transform.input_depth {
            return Err(method_target_error(id, decoded));
        }
        let value = state[len - 1];
        state.truncate(retained);
        state.push(value);
        assert(state@ =~= before.take(retained as int).push(before.last()));
        return Ok(true);
    }
    let effect = match decoded.instruction.stack_effect() {
        Ok(effect) => effect,
        Err(_) => {
            return Err(method_target_error(id, decoded));
        },
    };
    let pops: usize = effect.pops as usize;
    let pushes: usize = effect.pushes as usize;
    if len < pops {
        return Ok(false);
    }
    let kept: usize = len - pops;
    let output_len: usize = match kept.checked_add(pushes) {
        Some(output_len) => output_len,
        None => {
            return Err(method_target_error(id, decoded));
        },
    };
    if output_len > len {
        reserve_slots(id, state, output_len - len)?;
    }
    if !rearrange(decoded.instruction.opcode, state) {
        match produce(function, metadata, instruction_index, decoded, state, Ghost(body)) {
            Some(value) => {
                state.push(value);
            },
            None => {
                if !define(id, instruction_index, &function.atoms, decoded, state)? {
                    state.truncate(kept);
                    state.resize(output_len, Origin::Unknown);
                    assert(state@ =~= before.take(kept as int) + Seq::new(
                        pushes as nat,
                        |i: int| Origin::Unknown,
                    ));
                }
            },
        }
    }
    if state.len() != output_len {
        return Err(method_target_error(id, decoded));
    }
    Ok(true)
}

} // verus!
