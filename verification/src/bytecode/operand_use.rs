//! Bindings that instructions read and write.
use crate::control_flow::operands::{
    implied_argument_index, implied_closure_variable_index, implied_local_index,
    spec_implied_argument_index, spec_implied_closure_variable_index, spec_implied_local_index,
};
use crate::instruction::Operands;
use crate::opcode::FinalOpcode;
use vstd::prelude::*;

verus! {

/// Local that an instruction names, in its operands or by its short opcode.
pub open spec fn spec_local_operand(opcode: FinalOpcode, operands: Operands) -> Option<u32> {
    match operands {
        Operands::Loc(index) => Some(index as u32),
        Operands::Loc8(index) => Some(index as u32),
        Operands::NoneLoc => spec_implied_local_index(opcode),
        _ => None,
    }
}

/// Returns the local that an instruction names.
#[verifier::when_used_as_spec(spec_local_operand)]
pub fn local_operand(opcode: FinalOpcode, operands: Operands) -> (local: Option<u32>)
    ensures
        local == spec_local_operand(opcode, operands),
{
    match operands {
        Operands::Loc(index) => Some(index as u32),
        Operands::Loc8(index) => Some(index as u32),
        Operands::NoneLoc => implied_local_index(opcode),
        _ => None,
    }
}

/// Argument that an instruction names, in its operands or by its short opcode.
pub open spec fn spec_argument_operand(opcode: FinalOpcode, operands: Operands) -> Option<u32> {
    match operands {
        Operands::Arg(index) => Some(index as u32),
        Operands::NoneArg => spec_implied_argument_index(opcode),
        _ => None,
    }
}

/// Returns the argument that an instruction names.
#[verifier::when_used_as_spec(spec_argument_operand)]
pub fn argument_operand(opcode: FinalOpcode, operands: Operands) -> (argument: Option<u32>)
    ensures
        argument == spec_argument_operand(opcode, operands),
{
    match operands {
        Operands::Arg(index) => Some(index as u32),
        Operands::NoneArg => implied_argument_index(opcode),
        _ => None,
    }
}

/// Closure variable that an instruction names, in its operands or by its short
/// opcode.
pub open spec fn spec_closure_operand(opcode: FinalOpcode, operands: Operands) -> Option<u32> {
    match operands {
        Operands::VarRef(index) => Some(index as u32),
        Operands::NoneVarRef => spec_implied_closure_variable_index(opcode),
        _ => None,
    }
}

/// Returns the closure variable that an instruction names.
#[verifier::when_used_as_spec(spec_closure_operand)]
pub fn closure_operand(opcode: FinalOpcode, operands: Operands) -> (closure: Option<u32>)
    ensures
        closure == spec_closure_operand(opcode, operands),
{
    match operands {
        Operands::VarRef(index) => Some(index as u32),
        Operands::NoneVarRef => implied_closure_variable_index(opcode),
        _ => None,
    }
}

/// Whether an opcode pops a value into a local without a dead-zone check.
pub open spec fn spec_is_unchecked_local_put(opcode: FinalOpcode) -> bool {
    match opcode {
        FinalOpcode::PutLoc
        | FinalOpcode::PutLoc8
        | FinalOpcode::PutLoc0
        | FinalOpcode::PutLoc1
        | FinalOpcode::PutLoc2
        | FinalOpcode::PutLoc3 => true,
        _ => false,
    }
}

/// Returns whether an opcode pops a value into a local without a dead-zone
/// check.
#[verifier::when_used_as_spec(spec_is_unchecked_local_put)]
pub fn is_unchecked_local_put(opcode: FinalOpcode) -> (put: bool)
    ensures
        put == spec_is_unchecked_local_put(opcode),
{
    match opcode {
        FinalOpcode::PutLoc
        | FinalOpcode::PutLoc8
        | FinalOpcode::PutLoc0
        | FinalOpcode::PutLoc1
        | FinalOpcode::PutLoc2
        | FinalOpcode::PutLoc3 => true,
        _ => false,
    }
}

/// A count as 32 bits, saturating.
pub open spec fn saturated_u32(value: int) -> u32 {
    if value > u32::MAX {
        u32::MAX
    } else {
        value as u32
    }
}

pub(crate) fn usize_to_u32(value: usize) -> (narrow: u32)
    ensures
        narrow == saturated_u32(value as int),
{
    if value as u64 > u32::MAX as u64 {
        u32::MAX
    } else {
        value as u32
    }
}

} // verus!
