//! Validation of instruction operands against the function's index domains.
use crate::control_flow::error::{
    OperandIndexDomain, SecondaryOperandField, UnsupportedVerifierFeature, VerificationError,
    VerificationErrorKind, error_at,
};
use crate::control_flow::layouts::ValidatedCompilerCaptureLayout;
use crate::control_flow::model::{
    CompilerCapturedBinding, CompilerConstantKind, CompilerConstantLayout, FunctionIndexDomains,
};
use crate::control_flow::opcode_semantics::CapabilityProfile;
use crate::instruction::{DecodedInstruction, Instruction, Operands};
use crate::opcode::{FinalOpcode, OperandFormat};
use vstd::prelude::*;

verus! {

/// Constant that a pool-reading instruction names and the kind it needs.
pub open spec fn constant_use(instruction: Instruction) -> Option<(u32, CompilerConstantKind)> {
    match (instruction.opcode, instruction.operands) {
        (FinalOpcode::PushConst, Operands::Const(index)) => Some(
            (index, CompilerConstantKind::Value),
        ),
        (FinalOpcode::PushConst8, Operands::Const8(index)) => Some(
            (index as u32, CompilerConstantKind::Value),
        ),
        (FinalOpcode::FClosure, Operands::Const(index)) => Some(
            (index, CompilerConstantKind::Function),
        ),
        (FinalOpcode::FClosure8, Operands::Const8(index)) => Some(
            (index as u32, CompilerConstantKind::Function),
        ),
        _ => None,
    }
}

/// The check of a pool-reading instruction against the constant kinds: the
/// constant must exist and be of the needed kind. Loading a function template
/// as a value needs raw function slots, which are unsupported.
pub open spec fn compiler_constant_kind_check(
    decoded: DecodedInstruction,
    kinds: Seq<CompilerConstantKind>,
) -> Result<(), VerificationError> {
    match constant_use(decoded.instruction) {
        None => Err(
            error_at(
                decoded,
                VerificationErrorKind::MissingControlFlowOperand {
                    expected: decoded.instruction.opcode.spec_metadata().operand_format,
                },
            ),
        ),
        Some((index, expected)) => if index >= kinds.len() {
            Err(
                error_at(
                    decoded,
                    VerificationErrorKind::IndexOutOfBounds {
                        domain: OperandIndexDomain::ConstantPool,
                        index,
                        len: if kinds.len() > u32::MAX {
                            u32::MAX
                        } else {
                            kinds.len() as u32
                        },
                    },
                ),
            )
        } else if expected == CompilerConstantKind::Value && kinds[index as int]
            == CompilerConstantKind::Function {
            Err(
                error_at(
                    decoded,
                    VerificationErrorKind::UnsupportedOpcodeSemantics {
                        feature: UnsupportedVerifierFeature::RawFunctionStack,
                    },
                ),
            )
        } else if kinds[index as int] != expected {
            Err(
                error_at(
                    decoded,
                    VerificationErrorKind::CompilerConstantKindMismatch {
                        index,
                        expected,
                        actual: kinds[index as int],
                    },
                ),
            )
        } else {
            Ok(())
        },
    }
}

pub(crate) fn validate_compiler_constant_kind(
    decoded: DecodedInstruction,
    constant_layout: &CompilerConstantLayout,
) -> (checked: Result<(), VerificationError>)
    ensures
        checked == compiler_constant_kind_check(decoded, constant_layout.kinds@),
{
    let instruction = decoded.instruction;
    let (index, expected) = match (instruction.opcode, instruction.operands) {
        (FinalOpcode::PushConst, Operands::Const(index)) => (index, CompilerConstantKind::Value),
        (FinalOpcode::PushConst8, Operands::Const8(index)) => (
            index as u32,
            CompilerConstantKind::Value,
        ),
        (FinalOpcode::FClosure, Operands::Const(index)) => (index, CompilerConstantKind::Function),
        (FinalOpcode::FClosure8, Operands::Const8(index)) => (
            index as u32,
            CompilerConstantKind::Function,
        ),
        _ => {
            return Err(
                VerificationError::at_instruction(
                    decoded,
                    VerificationErrorKind::MissingControlFlowOperand {
                        expected: instruction.opcode.metadata().operand_format,
                    },
                ),
            );
        },
    };
    let actual = match constant_layout.kind(index) {
        Some(actual) => actual,
        None => {
            let count: usize = constant_layout.kinds.len();
            let len: u32 = if count as u64 > u32::MAX as u64 {
                u32::MAX
            } else {
                count as u32
            };
            return Err(
                VerificationError::at_instruction(
                    decoded,
                    VerificationErrorKind::IndexOutOfBounds {
                        domain: OperandIndexDomain::ConstantPool,
                        index,
                        len,
                    },
                ),
            );
        },
    };
    if expected == CompilerConstantKind::Value && actual == CompilerConstantKind::Function {
        return Err(
            VerificationError::at_instruction(
                decoded,
                VerificationErrorKind::UnsupportedOpcodeSemantics {
                    feature: UnsupportedVerifierFeature::RawFunctionStack,
                },
            ),
        );
    }
    if actual != expected {
        return Err(
            VerificationError::at_instruction(
                decoded,
                VerificationErrorKind::CompilerConstantKindMismatch { index, expected, actual },
            ),
        );
    }
    Ok(())
}

/// The check that `close_loc` names a captured block-scoped local.
pub open spec fn compiler_close_loc_check(
    decoded: DecodedInstruction,
    bindings: Seq<CompilerCapturedBinding>,
) -> Result<(), VerificationError> {
    match decoded.instruction.operands {
        Operands::Loc(local) => if bindings.contains(
            CompilerCapturedBinding::ScopedLocal(local as u32),
        ) {
            Ok(())
        } else {
            Err(
                error_at(
                    decoded,
                    VerificationErrorKind::CloseLocRequiresScopedCapture { local: local as u32 },
                ),
            )
        },
        _ => Err(
            error_at(
                decoded,
                VerificationErrorKind::MissingControlFlowOperand { expected: OperandFormat::Loc },
            ),
        ),
    }
}

pub(crate) fn validate_compiler_close_loc(
    decoded: DecodedInstruction,
    capture_layout: &ValidatedCompilerCaptureLayout,
) -> (checked: Result<(), VerificationError>)
    requires
        capture_layout.well_formed(),
    ensures
        checked == compiler_close_loc_check(decoded, capture_layout.layout.bindings@),
{
    let local: u32 = match decoded.instruction.operands {
        Operands::Loc(local) => local as u32,
        _ => {
            return Err(
                VerificationError::at_instruction(
                    decoded,
                    VerificationErrorKind::MissingControlFlowOperand {
                        expected: OperandFormat::Loc,
                    },
                ),
            );
        },
    };
    if !capture_layout.is_scoped_local(local) {
        return Err(
            VerificationError::at_instruction(
                decoded,
                VerificationErrorKind::CloseLocRequiresScopedCapture { local },
            ),
        );
    }
    Ok(())
}

/// The check of one index against its domain length.
pub open spec fn index_check(
    decoded: DecodedInstruction,
    domain: OperandIndexDomain,
    index: u32,
    len: u32,
) -> Result<(), VerificationError> {
    if index >= len {
        Err(error_at(decoded, VerificationErrorKind::IndexOutOfBounds { domain, index, len }))
    } else {
        Ok(())
    }
}

fn validate_index(
    decoded: DecodedInstruction,
    domain: OperandIndexDomain,
    index: u32,
    len: u32,
) -> (checked: Result<(), VerificationError>)
    ensures
        checked == index_check(decoded, domain, index, len),
{
    if index >= len {
        return Err(
            VerificationError::at_instruction(
                decoded,
                VerificationErrorKind::IndexOutOfBounds { domain, index, len },
            ),
        );
    }
    Ok(())
}

/// Length of an index domain.
pub open spec fn domain_len(domains: FunctionIndexDomains, domain: OperandIndexDomain) -> u32 {
    match domain {
        OperandIndexDomain::AtomPool => domains.atom_pool_len,
        OperandIndexDomain::ConstantPool => domains.constant_pool_len,
        OperandIndexDomain::Local => domains.local_count,
        OperandIndexDomain::Argument => domains.argument_count,
        OperandIndexDomain::ClosureVariable => domains.closure_var_count,
    }
}

/// Local that a short local opcode implies.
pub open spec fn spec_implied_local_index(opcode: FinalOpcode) -> Option<u32> {
    match opcode {
        FinalOpcode::GetLoc0 | FinalOpcode::PutLoc0 | FinalOpcode::SetLoc0 => Some(0),
        FinalOpcode::GetLoc1 | FinalOpcode::PutLoc1 | FinalOpcode::SetLoc1 => Some(1),
        FinalOpcode::GetLoc2 | FinalOpcode::PutLoc2 | FinalOpcode::SetLoc2 => Some(2),
        FinalOpcode::GetLoc3 | FinalOpcode::PutLoc3 | FinalOpcode::SetLoc3 => Some(3),
        _ => None,
    }
}

/// Returns the local that a short local opcode implies.
#[verifier::when_used_as_spec(spec_implied_local_index)]
pub(crate) fn implied_local_index(opcode: FinalOpcode) -> (index: Option<u32>)
    ensures
        index == spec_implied_local_index(opcode),
{
    match opcode {
        FinalOpcode::GetLoc0 | FinalOpcode::PutLoc0 | FinalOpcode::SetLoc0 => Some(0),
        FinalOpcode::GetLoc1 | FinalOpcode::PutLoc1 | FinalOpcode::SetLoc1 => Some(1),
        FinalOpcode::GetLoc2 | FinalOpcode::PutLoc2 | FinalOpcode::SetLoc2 => Some(2),
        FinalOpcode::GetLoc3 | FinalOpcode::PutLoc3 | FinalOpcode::SetLoc3 => Some(3),
        _ => None,
    }
}

/// Argument that a short argument opcode implies.
pub open spec fn spec_implied_argument_index(opcode: FinalOpcode) -> Option<u32> {
    match opcode {
        FinalOpcode::GetArg0 | FinalOpcode::PutArg0 | FinalOpcode::SetArg0 => Some(0),
        FinalOpcode::GetArg1 | FinalOpcode::PutArg1 | FinalOpcode::SetArg1 => Some(1),
        FinalOpcode::GetArg2 | FinalOpcode::PutArg2 | FinalOpcode::SetArg2 => Some(2),
        FinalOpcode::GetArg3 | FinalOpcode::PutArg3 | FinalOpcode::SetArg3 => Some(3),
        _ => None,
    }
}

/// Returns the argument that a short argument opcode implies.
#[verifier::when_used_as_spec(spec_implied_argument_index)]
pub(crate) fn implied_argument_index(opcode: FinalOpcode) -> (index: Option<u32>)
    ensures
        index == spec_implied_argument_index(opcode),
{
    match opcode {
        FinalOpcode::GetArg0 | FinalOpcode::PutArg0 | FinalOpcode::SetArg0 => Some(0),
        FinalOpcode::GetArg1 | FinalOpcode::PutArg1 | FinalOpcode::SetArg1 => Some(1),
        FinalOpcode::GetArg2 | FinalOpcode::PutArg2 | FinalOpcode::SetArg2 => Some(2),
        FinalOpcode::GetArg3 | FinalOpcode::PutArg3 | FinalOpcode::SetArg3 => Some(3),
        _ => None,
    }
}

/// Closure variable that a short closure-variable opcode implies.
pub open spec fn spec_implied_closure_variable_index(opcode: FinalOpcode) -> Option<u32> {
    match opcode {
        FinalOpcode::GetVarRef0 | FinalOpcode::PutVarRef0 | FinalOpcode::SetVarRef0 => Some(0),
        FinalOpcode::GetVarRef1 | FinalOpcode::PutVarRef1 | FinalOpcode::SetVarRef1 => Some(1),
        FinalOpcode::GetVarRef2 | FinalOpcode::PutVarRef2 | FinalOpcode::SetVarRef2 => Some(2),
        FinalOpcode::GetVarRef3 | FinalOpcode::PutVarRef3 | FinalOpcode::SetVarRef3 => Some(3),
        _ => None,
    }
}

/// Returns the closure variable that a short closure-variable opcode implies.
#[verifier::when_used_as_spec(spec_implied_closure_variable_index)]
pub(crate) fn implied_closure_variable_index(opcode: FinalOpcode) -> (index: Option<u32>)
    ensures
        index == spec_implied_closure_variable_index(opcode),
{
    match opcode {
        FinalOpcode::GetVarRef0 | FinalOpcode::PutVarRef0 | FinalOpcode::SetVarRef0 => Some(0),
        FinalOpcode::GetVarRef1 | FinalOpcode::PutVarRef1 | FinalOpcode::SetVarRef1 => Some(1),
        FinalOpcode::GetVarRef2 | FinalOpcode::PutVarRef2 | FinalOpcode::SetVarRef2 => Some(2),
        FinalOpcode::GetVarRef3 | FinalOpcode::PutVarRef3 | FinalOpcode::SetVarRef3 => Some(3),
        _ => None,
    }
}

/// Domain and index that an instruction uses beside its atom: the index is
/// absent where a short operand form stands on an opcode that implies none.
pub open spec fn operand_index_use(instruction: Instruction) -> Option<
    (OperandIndexDomain, Option<u32>),
> {
    match instruction.operands {
        Operands::Const(index) => Some((OperandIndexDomain::ConstantPool, Some(index))),
        Operands::Const8(index) => Some((OperandIndexDomain::ConstantPool, Some(index as u32))),
        Operands::Loc(index) => Some((OperandIndexDomain::Local, Some(index as u32))),
        Operands::Loc8(index) => Some((OperandIndexDomain::Local, Some(index as u32))),
        Operands::Arg(index) => Some((OperandIndexDomain::Argument, Some(index as u32))),
        Operands::VarRef(index) => Some((OperandIndexDomain::ClosureVariable, Some(index as u32))),
        Operands::AtomU16 { value, .. } => match instruction.opcode {
            FinalOpcode::MakeLocRef => Some((OperandIndexDomain::Local, Some(value as u32))),
            FinalOpcode::MakeArgRef => Some((OperandIndexDomain::Argument, Some(value as u32))),
            FinalOpcode::MakeVarRefRef => Some(
                (OperandIndexDomain::ClosureVariable, Some(value as u32)),
            ),
            _ => None,
        },
        Operands::NoneLoc => Some(
            (OperandIndexDomain::Local, spec_implied_local_index(instruction.opcode)),
        ),
        Operands::NoneArg => Some(
            (OperandIndexDomain::Argument, spec_implied_argument_index(instruction.opcode)),
        ),
        Operands::NoneVarRef => Some(
            (
                OperandIndexDomain::ClosureVariable,
                spec_implied_closure_variable_index(instruction.opcode),
            ),
        ),
        _ => None,
    }
}

/// The check that every index of an instruction lies in its domain, the atom
/// index first.
pub open spec fn operand_indices_check(
    decoded: DecodedInstruction,
    domains: FunctionIndexDomains,
) -> Result<(), VerificationError> {
    let instruction = decoded.instruction;
    let atom = match instruction.operands.spec_atom_pool_index() {
        Some(index) => index_check(
            decoded,
            OperandIndexDomain::AtomPool,
            index.0,
            domains.atom_pool_len,
        ),
        None => Ok(()),
    };
    if atom.is_err() {
        atom
    } else {
        match operand_index_use(instruction) {
            None => Ok(()),
            Some((domain, Some(index))) => index_check(
                decoded,
                domain,
                index,
                domain_len(domains, domain),
            ),
            Some((_, None)) => Err(
                error_at(
                    decoded,
                    VerificationErrorKind::MissingControlFlowOperand {
                        expected: instruction.operands.spec_format(),
                    },
                ),
            ),
        }
    }
}

fn missing_operand(decoded: DecodedInstruction, expected: OperandFormat) -> (checked: Result<
    (),
    VerificationError,
>)
    ensures
        checked == Err::<(), VerificationError>(
            error_at(decoded, VerificationErrorKind::MissingControlFlowOperand { expected }),
        ),
{
    Err(
        VerificationError::at_instruction(
            decoded,
            VerificationErrorKind::MissingControlFlowOperand { expected },
        ),
    )
}

pub(crate) fn validate_operand_indices(
    decoded: DecodedInstruction,
    domains: FunctionIndexDomains,
) -> (checked: Result<(), VerificationError>)
    ensures
        checked == operand_indices_check(decoded, domains),
{
    let instruction = decoded.instruction;
    let operands = instruction.operands;
    if let Some(index) = operands.atom_pool_index() {
        validate_index(decoded, OperandIndexDomain::AtomPool, index.0, domains.atom_pool_len)?;
    }
    match operands {
        Operands::Const(index) => validate_index(
            decoded,
            OperandIndexDomain::ConstantPool,
            index,
            domains.constant_pool_len,
        ),
        Operands::Const8(index) => validate_index(
            decoded,
            OperandIndexDomain::ConstantPool,
            index as u32,
            domains.constant_pool_len,
        ),
        Operands::Loc(index) => validate_index(
            decoded,
            OperandIndexDomain::Local,
            index as u32,
            domains.local_count,
        ),
        Operands::Loc8(index) => validate_index(
            decoded,
            OperandIndexDomain::Local,
            index as u32,
            domains.local_count,
        ),
        Operands::Arg(index) => validate_index(
            decoded,
            OperandIndexDomain::Argument,
            index as u32,
            domains.argument_count,
        ),
        Operands::VarRef(index) => validate_index(
            decoded,
            OperandIndexDomain::ClosureVariable,
            index as u32,
            domains.closure_var_count,
        ),
        Operands::AtomU16 { value, .. } => match instruction.opcode {
            FinalOpcode::MakeLocRef => validate_index(
                decoded,
                OperandIndexDomain::Local,
                value as u32,
                domains.local_count,
            ),
            FinalOpcode::MakeArgRef => validate_index(
                decoded,
                OperandIndexDomain::Argument,
                value as u32,
                domains.argument_count,
            ),
            FinalOpcode::MakeVarRefRef => validate_index(
                decoded,
                OperandIndexDomain::ClosureVariable,
                value as u32,
                domains.closure_var_count,
            ),
            _ => Ok(()),
        },
        Operands::NoneLoc => match implied_local_index(instruction.opcode) {
            Some(index) => validate_index(
                decoded,
                OperandIndexDomain::Local,
                index,
                domains.local_count,
            ),
            None => missing_operand(decoded, OperandFormat::NoneLoc),
        },
        Operands::NoneArg => match implied_argument_index(instruction.opcode) {
            Some(index) => validate_index(
                decoded,
                OperandIndexDomain::Argument,
                index,
                domains.argument_count,
            ),
            None => missing_operand(decoded, OperandFormat::NoneArg),
        },
        Operands::NoneVarRef => match implied_closure_variable_index(instruction.opcode) {
            Some(index) => validate_index(
                decoded,
                OperandIndexDomain::ClosureVariable,
                index,
                domains.closure_var_count,
            ),
            None => missing_operand(decoded, OperandFormat::NoneVarRef),
        },
        _ => Ok(()),
    }
}

/// Largest flags byte of a class definition.
pub open spec fn class_flags_maximum(profile: CapabilityProfile) -> u8 {
    match profile {
        CapabilityProfile::Baseline => 1,
        CapabilityProfile::Extended => 3,
    }
}

/// Instruction-specific field whose value is unknown, with that value.
pub open spec fn secondary_operand_violation(
    profile: CapabilityProfile,
    instruction: Instruction,
    domains: FunctionIndexDomains,
) -> Option<(SecondaryOperandField, u32)> {
    match (instruction.opcode, instruction.operands) {
        (FinalOpcode::SpecialObject, Operands::U8(value)) if value > 6 => Some(
            (SecondaryOperandField::SpecialObjectKind, value as u32),
        ),
        (FinalOpcode::Rest, Operands::U16(value)) if value > domains.argument_count => Some(
            (SecondaryOperandField::RestFirstArgument, value as u32),
        ),
        (FinalOpcode::Apply, Operands::U16(value)) if value > 2 => Some(
            (SecondaryOperandField::ApplyMagic, value as u32),
        ),
        (FinalOpcode::ThrowError, Operands::AtomU8 { value, .. }) if value > 4 => Some(
            (SecondaryOperandField::ThrowErrorKind, value as u32),
        ),
        (FinalOpcode::DefineMethod, Operands::AtomU8 { value, .. }) if invalid_method_flags(
            value,
        ) => Some((SecondaryOperandField::DefineMethodFlags, value as u32)),
        (FinalOpcode::DefineMethodComputed, Operands::U8(value)) if invalid_method_flags(value)
            => Some((SecondaryOperandField::DefineMethodFlags, value as u32)),
        (FinalOpcode::DefinePrivateField, Operands::U8(value)) if profile
            == CapabilityProfile::Extended && value > 3 => Some(
            (SecondaryOperandField::DefinePrivateFieldKind, value as u32),
        ),
        (FinalOpcode::DefineClass, Operands::AtomU8 { value, .. }) if value > class_flags_maximum(
            profile,
        ) => Some((SecondaryOperandField::DefineClassFlags, value as u32)),
        (FinalOpcode::DefineClassComputed, Operands::AtomU8 { value, .. }) if value
            > class_flags_maximum(profile) => Some(
            (SecondaryOperandField::DefineClassFlags, value as u32),
        ),
        (FinalOpcode::WithGetVar, Operands::AtomLabelU8 { value, .. }) if value > 1 => Some(
            (SecondaryOperandField::IsWith, value as u32),
        ),
        (FinalOpcode::WithPutVar, Operands::AtomLabelU8 { value, .. }) if value > 1 => Some(
            (SecondaryOperandField::IsWith, value as u32),
        ),
        (FinalOpcode::WithDeleteVar, Operands::AtomLabelU8 { value, .. }) if value > 1 => Some(
            (SecondaryOperandField::IsWith, value as u32),
        ),
        (FinalOpcode::WithMakeRef, Operands::AtomLabelU8 { value, .. }) if value > 1 => Some(
            (SecondaryOperandField::IsWith, value as u32),
        ),
        (FinalOpcode::WithGetRef, Operands::AtomLabelU8 { value, .. }) if value > 1 => Some(
            (SecondaryOperandField::IsWith, value as u32),
        ),
        (FinalOpcode::IteratorCall, Operands::U8(value)) if value > 2 => Some(
            (SecondaryOperandField::IteratorCallFlags, value as u32),
        ),
        _ => None,
    }
}

/// Method flags hold a kind of at most two in the low bits and the enumerable
/// bit above them; anything else is invalid.
pub open spec fn invalid_method_flags(value: u8) -> bool {
    value & !0b111u8 != 0 || value & 0b11u8 == 0b11u8
}

/// The check of the instruction-specific fields.
pub open spec fn secondary_operands_check(
    profile: CapabilityProfile,
    decoded: DecodedInstruction,
    domains: FunctionIndexDomains,
) -> Result<(), VerificationError> {
    match secondary_operand_violation(profile, decoded.instruction, domains) {
        None => Ok(()),
        Some((field, value)) => Err(
            error_at(decoded, VerificationErrorKind::InvalidSecondaryOperand { field, value }),
        ),
    }
}

pub(crate) fn validate_secondary_operands(
    profile: CapabilityProfile,
    decoded: DecodedInstruction,
    domains: FunctionIndexDomains,
) -> (checked: Result<(), VerificationError>)
    ensures
        checked == secondary_operands_check(profile, decoded, domains),
{
    let instruction = decoded.instruction;
    let class_maximum: u8 = match profile {
        CapabilityProfile::Baseline => 1,
        CapabilityProfile::Extended => 3,
    };
    let extended: bool = matches!(profile, CapabilityProfile::Extended);
    let (field, value) = match (instruction.opcode, instruction.operands) {
        (FinalOpcode::SpecialObject, Operands::U8(value)) if value > 6 => (
            SecondaryOperandField::SpecialObjectKind,
            value as u32,
        ),
        (FinalOpcode::Rest, Operands::U16(value)) if value as u32 > domains.argument_count => (
            SecondaryOperandField::RestFirstArgument,
            value as u32,
        ),
        (FinalOpcode::Apply, Operands::U16(value)) if value > 2 => (
            SecondaryOperandField::ApplyMagic,
            value as u32,
        ),
        (FinalOpcode::ThrowError, Operands::AtomU8 { value, .. }) if value > 4 => (
            SecondaryOperandField::ThrowErrorKind,
            value as u32,
        ),
        (FinalOpcode::DefineMethod, Operands::AtomU8 { value, .. }) if value & !0b111u8 != 0 || value & 0b11u8 == 0b11u8 => (
            SecondaryOperandField::DefineMethodFlags,
            value as u32,
        ),
        (FinalOpcode::DefineMethodComputed, Operands::U8(value)) if value & !0b111u8 != 0 || value & 0b11u8 == 0b11u8 => (
            SecondaryOperandField::DefineMethodFlags,
            value as u32,
        ),
        (FinalOpcode::DefinePrivateField, Operands::U8(value)) if extended && value > 3 => (
            SecondaryOperandField::DefinePrivateFieldKind,
            value as u32,
        ),
        (FinalOpcode::DefineClass, Operands::AtomU8 { value, .. }) if value > class_maximum => (
            SecondaryOperandField::DefineClassFlags,
            value as u32,
        ),
        (FinalOpcode::DefineClassComputed, Operands::AtomU8 { value, .. }) if value > class_maximum => (
            SecondaryOperandField::DefineClassFlags,
            value as u32,
        ),
        (FinalOpcode::WithGetVar, Operands::AtomLabelU8 { value, .. }) if value > 1 => (
            SecondaryOperandField::IsWith,
            value as u32,
        ),
        (FinalOpcode::WithPutVar, Operands::AtomLabelU8 { value, .. }) if value > 1 => (
            SecondaryOperandField::IsWith,
            value as u32,
        ),
        (FinalOpcode::WithDeleteVar, Operands::AtomLabelU8 { value, .. }) if value > 1 => (
            SecondaryOperandField::IsWith,
            value as u32,
        ),
        (FinalOpcode::WithMakeRef, Operands::AtomLabelU8 { value, .. }) if value > 1 => (
            SecondaryOperandField::IsWith,
            value as u32,
        ),
        (FinalOpcode::WithGetRef, Operands::AtomLabelU8 { value, .. }) if value > 1 => (
            SecondaryOperandField::IsWith,
            value as u32,
        ),
        (FinalOpcode::IteratorCall, Operands::U8(value)) if value > 2 => (
            SecondaryOperandField::IteratorCallFlags,
            value as u32,
        ),
        _ => {
            return Ok(());
        },
    };
    Err(
        VerificationError::at_instruction(
            decoded,
            VerificationErrorKind::InvalidSecondaryOperand { field, value },
        ),
    )
}

} // verus!
