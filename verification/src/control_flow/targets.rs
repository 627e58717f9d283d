//! Resolution of control-flow targets to instructions.
use crate::instruction::{BytecodePc, DecodedInstruction, Operands};
use crate::opcode::{FinalOpcode, OperandFormat};
use crate::control_flow::error::{
    ControlFlowEdge, InvalidControlFlowTargetReason, VerificationError, VerificationErrorKind,
    error_at, root_error,
};
use crate::control_flow::limits::VerificationResource;
use crate::control_flow::model::{InstructionIndex, VerifiedInstruction};
use crate::control_flow::predecode::{
    bitmap_bit, boundary_map, increasing_pcs, is_instruction_start, starts_at,
};
use vstd::prelude::*;

verus! {

/// The decoded instructions of a verified instruction array.
pub(crate) open(crate) spec fn decoded_of(instructions: Seq<VerifiedInstruction>) -> Seq<
    DecodedInstruction,
> {
    instructions.map_values(|verified: VerifiedInstruction| verified.decoded)
}

/// The instruction that starts at `pc`, if one does.
pub open(crate) spec fn index_at(
    instructions: Seq<DecodedInstruction>,
    pc: BytecodePc,
) -> Option<InstructionIndex> {
    if exists|i: int| 0 <= i < instructions.len() && (#[trigger] instructions[i]).pc == pc {
        Some(
            InstructionIndex(
                (choose|i: int|
                    0 <= i < instructions.len() && (#[trigger] instructions[i]).pc == pc) as u32,
            ),
        )
    } else {
        None
    }
}

/// In a body in increasing byte order the instruction at an offset is unique.
pub proof fn lemma_index_at_is_unique(
    instructions: Seq<DecodedInstruction>,
    pc: BytecodePc,
    at: int,
)
    requires
        increasing_pcs(instructions),
        instructions.len() <= u32::MAX,
        0 <= at < instructions.len(),
        instructions[at].pc == pc,
    ensures
        index_at(instructions, pc).is_some(),
        index_at(instructions, pc).unwrap().spec_get() == at,
{
    let found = choose|i: int|
        0 <= i < instructions.len() && (#[trigger] instructions[i]).pc == pc;
    assert(instructions[found].pc == pc);
    if found < at {
        assert(instructions[found].pc.0 < instructions[at].pc.0);
    } else if at < found {
        assert(instructions[at].pc.0 < instructions[found].pc.0);
    }
}

/// The target of an instruction that must encode one.
pub open spec fn encoded_target(
    decoded: DecodedInstruction,
    target: Option<InstructionIndex>,
) -> Result<InstructionIndex, VerificationError> {
    match target {
        Some(target) => Ok(target),
        None => Err(
            error_at(
                decoded,
                VerificationErrorKind::MissingControlFlowOperand {
                    expected: decoded.instruction.opcode.spec_metadata().operand_format,
                },
            ),
        ),
    }
}

pub(crate) fn require_encoded_target(
    decoded: DecodedInstruction,
    target: Option<InstructionIndex>,
) -> (required: Result<InstructionIndex, VerificationError>)
    ensures
        required == encoded_target(decoded, target),
{
    match target {
        Some(target) => Ok(target),
        None => Err(
            VerificationError::at_instruction(
                decoded,
                VerificationErrorKind::MissingControlFlowOperand {
                    expected: decoded.instruction.opcode.metadata().operand_format,
                },
            ),
        ),
    }
}

fn find_decoded(instructions: &[DecodedInstruction], pc: BytecodePc) -> (found: Option<usize>)
    requires
        increasing_pcs(instructions@),
    ensures
        match found {
            Some(i) => i < instructions@.len() && instructions@[i as int].pc == pc,
            None => forall|i: int|
                0 <= i < instructions@.len() ==> (#[trigger] instructions@[i]).pc != pc,
        },
{
    let mut low: usize = 0;
    let mut high: usize = instructions.len();
    while low < high
        invariant
            0 <= low <= high <= instructions@.len(),
            increasing_pcs(instructions@),
            forall|i: int| 0 <= i < low ==> (#[trigger] instructions@[i]).pc.0 < pc.0,
            forall|i: int|
                high <= i < instructions@.len() ==> (#[trigger] instructions@[i]).pc.0 > pc.0,
        decreases high - low,
    {
        let middle: usize = low + (high - low) / 2;
        let candidate: u32 = instructions[middle].pc.0;
        if candidate == pc.0 {
            return Some(middle);
        }
        if candidate < pc.0 {
            low = middle + 1;
        } else {
            high = middle;
        }
    }
    None
}

fn find_verified(instructions: &[VerifiedInstruction], pc: BytecodePc) -> (found: Option<usize>)
    requires
        increasing_pcs(decoded_of(instructions@)),
    ensures
        match found {
            Some(i) => i < instructions@.len() && instructions@[i as int].decoded.pc == pc,
            None => forall|i: int|
                0 <= i < instructions@.len() ==> (#[trigger] instructions@[i]).decoded.pc != pc,
        },
{
    let ghost decoded = decoded_of(instructions@);
    let mut low: usize = 0;
    let mut high: usize = instructions.len();
    while low < high
        invariant
            0 <= low <= high <= instructions@.len(),
            decoded == decoded_of(instructions@),
            increasing_pcs(decoded),
            forall|i: int| 0 <= i < low ==> (#[trigger] instructions@[i]).decoded.pc.0 < pc.0,
            forall|i: int|
                high <= i < instructions@.len() ==> (#[trigger] instructions@[i]).decoded.pc.0
                    > pc.0,
        decreases high - low,
    {
        let middle: usize = low + (high - low) / 2;
        let candidate: u32 = instructions[middle].decoded.pc.0;
        proof {
            assert forall|i: int| 0 <= i < middle implies (
            #[trigger] instructions@[i]).decoded.pc.0 < candidate by {
                assert(decoded[i].pc.0 < decoded[middle as int].pc.0);
            }
            assert forall|i: int| middle < i < instructions@.len() implies (
            #[trigger] instructions@[i]).decoded.pc.0 > candidate by {
                assert(decoded[middle as int].pc.0 < decoded[i].pc.0);
            }
        }
        if candidate == pc.0 {
            return Some(middle);
        }
        if candidate < pc.0 {
            low = middle + 1;
        } else {
            high = middle;
        }
    }
    None
}

fn decoded_instruction_index_at(
    instructions: &[DecodedInstruction],
    bitmap: &[u64],
    bytecode_len: usize,
    pc: BytecodePc,
) -> (index: Option<InstructionIndex>)
    requires
        increasing_pcs(instructions@),
        boundary_map(bitmap@, bytecode_len as nat, instructions@),
        instructions@.len() <= u32::MAX,
    ensures
        index == index_at(instructions@, pc),
        match index {
            Some(index) => index.0 < instructions@.len(),
            None => true,
        },
{
    if !is_instruction_start(bitmap, bytecode_len, pc) {
        proof {
            assert(!(pc.0 < bytecode_len && bitmap_bit(bitmap@, pc.0 as int)));
            assert(!starts_at(instructions@, pc.0));
        }
        return None;
    }
    match find_decoded(instructions, pc) {
        Some(index) => {
            proof {
                lemma_index_at_is_unique(instructions@, pc, index as int);
            }
            Some(InstructionIndex(index as u32))
        },
        None => None,
    }
}

/// Resolves an instruction start in a verified instruction array.
pub(crate) fn instruction_index_at(
    instructions: &[VerifiedInstruction],
    bitmap: &[u64],
    bytecode_len: usize,
    pc: BytecodePc,
) -> (index: Option<InstructionIndex>)
    requires
        increasing_pcs(decoded_of(instructions@)),
        boundary_map(bitmap@, bytecode_len as nat, decoded_of(instructions@)),
        instructions@.len() <= u32::MAX,
    ensures
        index == index_at(decoded_of(instructions@), pc),
        match index {
            Some(index) => index.0 < instructions@.len() && instructions@[index.0 as int].decoded.pc
                == pc,
            None => forall|i: int|
                0 <= i < instructions@.len() ==> (#[trigger] decoded_of(instructions@)[i]).pc != pc,
        },
{
    let ghost decoded = decoded_of(instructions@);
    if !is_instruction_start(bitmap, bytecode_len, pc) {
        proof {
            assert(!(pc.0 < bytecode_len && bitmap_bit(bitmap@, pc.0 as int)));
            assert(!starts_at(decoded, pc.0));
        }
        return None;
    }
    match find_verified(instructions, pc) {
        Some(index) => {
            proof {
                assert(decoded[index as int].pc == pc);
                lemma_index_at_is_unique(decoded, pc, index as int);
            }
            Some(InstructionIndex(index as u32))
        },
        None => {
            proof {
                assert forall|i: int| 0 <= i < decoded.len() implies (#[trigger] decoded[i]).pc
                    != pc by {
                    assert(instructions@[i].decoded.pc != pc);
                }
            }
            None
        },
    }
}

/// Edge that an opcode encodes, the offset from the opcode byte to the base of
/// its displacement, and the operand format that carries the displacement.
pub open spec fn relative_edge(opcode: FinalOpcode) -> Option<
    (ControlFlowEdge, int, OperandFormat),
> {
    match opcode {
        FinalOpcode::IfFalse8 | FinalOpcode::IfTrue8 => Some(
            (ControlFlowEdge::Branch, 1, OperandFormat::Label8),
        ),
        FinalOpcode::IfFalse | FinalOpcode::IfTrue => Some(
            (ControlFlowEdge::Branch, 1, OperandFormat::Label),
        ),
        FinalOpcode::Goto8 => Some((ControlFlowEdge::Jump, 1, OperandFormat::Label8)),
        FinalOpcode::Goto16 => Some((ControlFlowEdge::Jump, 1, OperandFormat::Label16)),
        FinalOpcode::Goto => Some((ControlFlowEdge::Jump, 1, OperandFormat::Label)),
        FinalOpcode::Catch => Some((ControlFlowEdge::CatchHandler, 1, OperandFormat::Label)),
        FinalOpcode::Gosub => Some((ControlFlowEdge::FinallySubroutine, 1, OperandFormat::Label)),
        FinalOpcode::WithGetVar
        | FinalOpcode::WithPutVar
        | FinalOpcode::WithDeleteVar
        | FinalOpcode::WithMakeRef
        | FinalOpcode::WithGetRef => Some(
            (ControlFlowEdge::WithBinding, 5, OperandFormat::AtomLabelU8),
        ),
        _ => None,
    }
}

/// Displacement that label-carrying operands hold.
pub open spec fn displacement(operands: Operands) -> int {
    match operands {
        Operands::Label8(value) => value as int,
        Operands::Label16(value) => value as int,
        Operands::Label(value) => value as int,
        Operands::AtomLabelU8 { label, .. } => label as int,
        _ => 0,
    }
}

/// Edge and byte offset that an instruction branches, jumps or unwinds to.
pub open spec fn relative_target(decoded: DecodedInstruction) -> Result<
    Option<(ControlFlowEdge, int)>,
    VerificationError,
> {
    match relative_edge(decoded.instruction.opcode) {
        None => Ok(None),
        Some((edge, base, expected)) => if decoded.instruction.operands.spec_format() == expected {
            Ok(Some((edge, decoded.pc.0 + base + displacement(decoded.instruction.operands))))
        } else {
            Err(error_at(decoded, VerificationErrorKind::MissingControlFlowOperand { expected }))
        },
    }
}

fn relative_target_spec(decoded: DecodedInstruction) -> (target: Result<
    Option<(ControlFlowEdge, i64, i64)>,
    VerificationError,
>)
    ensures
        match target {
            Ok(None) => relative_target(decoded) == Ok::<
                Option<(ControlFlowEdge, int)>,
                VerificationError,
            >(None),
            Ok(Some((edge, base, offset))) => 0 <= base <= 5 && i32::MIN <= offset <= i32::MAX
                && relative_target(decoded) == Ok::<
                Option<(ControlFlowEdge, int)>,
                VerificationError,
            >(Some((edge, decoded.pc.0 + base + offset))),
            Err(error) => relative_target(decoded) == Err::<
                Option<(ControlFlowEdge, int)>,
                VerificationError,
            >(error),
        },
{
    let operands = decoded.instruction.operands;
    let expected = match decoded.instruction.opcode {
        FinalOpcode::IfFalse8 | FinalOpcode::IfTrue8 => {
            if let Operands::Label8(offset) = operands {
                return Ok(Some((ControlFlowEdge::Branch, 1, offset as i64)));
            }
            OperandFormat::Label8
        },
        FinalOpcode::IfFalse | FinalOpcode::IfTrue => {
            if let Operands::Label(offset) = operands {
                return Ok(Some((ControlFlowEdge::Branch, 1, offset as i64)));
            }
            OperandFormat::Label
        },
        FinalOpcode::Goto8 => {
            if let Operands::Label8(offset) = operands {
                return Ok(Some((ControlFlowEdge::Jump, 1, offset as i64)));
            }
            OperandFormat::Label8
        },
        FinalOpcode::Goto16 => {
            if let Operands::Label16(offset) = operands {
                return Ok(Some((ControlFlowEdge::Jump, 1, offset as i64)));
            }
            OperandFormat::Label16
        },
        FinalOpcode::Goto => {
            if let Operands::Label(offset) = operands {
                return Ok(Some((ControlFlowEdge::Jump, 1, offset as i64)));
            }
            OperandFormat::Label
        },
        FinalOpcode::Catch => {
            if let Operands::Label(offset) = operands {
                return Ok(Some((ControlFlowEdge::CatchHandler, 1, offset as i64)));
            }
            OperandFormat::Label
        },
        FinalOpcode::Gosub => {
            if let Operands::Label(offset) = operands {
                return Ok(Some((ControlFlowEdge::FinallySubroutine, 1, offset as i64)));
            }
            OperandFormat::Label
        },
        FinalOpcode::WithGetVar
        | FinalOpcode::WithPutVar
        | FinalOpcode::WithDeleteVar
        | FinalOpcode::WithMakeRef
        | FinalOpcode::WithGetRef => {
            if let Operands::AtomLabelU8 { label, .. } = operands {
                return Ok(Some((ControlFlowEdge::WithBinding, 5, label as i64)));
            }
            OperandFormat::AtomLabelU8
        },
        _ => {
            return Ok(None);
        },
    };
    Err(
        VerificationError::at_instruction(
            decoded,
            VerificationErrorKind::MissingControlFlowOperand { expected },
        ),
    )
}

/// Resolution of a byte offset to the instruction that starts there.
///
/// The offset must lie inside the bytecode and start an instruction; a `catch`
/// may not name offset zero, which marks iterator unwinding.
pub open(crate) spec fn resolved_target(
    decoded: DecodedInstruction,
    edge: ControlFlowEdge,
    target: int,
    instructions: Seq<DecodedInstruction>,
    bytecode_len: nat,
) -> Result<InstructionIndex, VerificationError> {
    if bytecode_len > u32::MAX {
        Err(
            root_error(
                VerificationErrorKind::LimitExceeded {
                    resource: VerificationResource::BytecodeBytes,
                    limit: u32::MAX as u64,
                    observed: bytecode_len as u64,
                },
            ),
        )
    } else if target < 0 || target >= bytecode_len {
        Err(
            invalid_target(
                decoded,
                edge,
                target,
                bytecode_len,
                InvalidControlFlowTargetReason::OutsideBytecode,
            ),
        )
    } else if decoded.instruction.opcode == FinalOpcode::Catch && target == 0 {
        Err(
            invalid_target(
                decoded,
                edge,
                target,
                bytecode_len,
                InvalidControlFlowTargetReason::CatchTargetZero,
            ),
        )
    } else {
        match index_at(instructions, BytecodePc(target as u32)) {
            Some(index) => Ok(index),
            None => Err(
                invalid_target(
                    decoded,
                    edge,
                    target,
                    bytecode_len,
                    InvalidControlFlowTargetReason::NotInstructionBoundary,
                ),
            ),
        }
    }
}

/// Error for a target that is no valid instruction start.
pub open spec fn invalid_target(
    decoded: DecodedInstruction,
    edge: ControlFlowEdge,
    target: int,
    bytecode_len: nat,
    reason: InvalidControlFlowTargetReason,
) -> VerificationError {
    error_at(
        decoded,
        VerificationErrorKind::InvalidControlFlowTarget {
            edge,
            target: target as i64,
            bytecode_len: bytecode_len as u32,
            reason,
        },
    )
}

fn resolve_target(
    decoded: DecodedInstruction,
    edge: ControlFlowEdge,
    target: i64,
    instructions: &[DecodedInstruction],
    bitmap: &[u64],
    bytecode_len: usize,
) -> (resolved: Result<InstructionIndex, VerificationError>)
    requires
        increasing_pcs(instructions@),
        boundary_map(bitmap@, bytecode_len as nat, instructions@),
        instructions@.len() <= u32::MAX,
    ensures
        resolved == resolved_target(
            decoded,
            edge,
            target as int,
            instructions@,
            bytecode_len as nat,
        ),
        match resolved {
            Ok(index) => index.0 < instructions@.len(),
            Err(_) => true,
        },
{
    if bytecode_len as u64 > u32::MAX as u64 {
        return Err(
            VerificationError::root(
                VerificationErrorKind::LimitExceeded {
                    resource: VerificationResource::BytecodeBytes,
                    limit: u32::MAX as u64,
                    observed: bytecode_len as u64,
                },
            ),
        );
    }
    let bytecode_len_u32: u32 = bytecode_len as u32;
    let reason = if target < 0 || target >= bytecode_len_u32 as i64 {
        InvalidControlFlowTargetReason::OutsideBytecode
    } else if matches!(decoded.instruction.opcode, FinalOpcode::Catch) && target == 0 {
        InvalidControlFlowTargetReason::CatchTargetZero
    } else {
        match decoded_instruction_index_at(
            instructions,
            bitmap,
            bytecode_len,
            BytecodePc(target as u32),
        ) {
            Some(index) => {
                return Ok(index);
            },
            None => InvalidControlFlowTargetReason::NotInstructionBoundary,
        }
    };
    Err(
        VerificationError::at_instruction(
            decoded,
            VerificationErrorKind::InvalidControlFlowTarget {
                edge,
                target,
                bytecode_len: bytecode_len_u32,
                reason,
            },
        ),
    )
}

/// Instruction that a relative edge of `decoded` reaches, if it has one.
pub open(crate) spec fn resolved_relative_target(
    decoded: DecodedInstruction,
    instructions: Seq<DecodedInstruction>,
    bytecode_len: nat,
) -> Result<Option<InstructionIndex>, VerificationError> {
    match relative_target(decoded) {
        Err(error) => Err(error),
        Ok(None) => Ok(None),
        Ok(Some((edge, target))) => match resolved_target(
            decoded,
            edge,
            target,
            instructions,
            bytecode_len,
        ) {
            Ok(index) => Ok(Some(index)),
            Err(error) => Err(error),
        },
    }
}

pub(crate) fn resolve_relative_target(
    decoded: DecodedInstruction,
    instructions: &[DecodedInstruction],
    bitmap: &[u64],
    bytecode_len: usize,
) -> (resolved: Result<Option<InstructionIndex>, VerificationError>)
    requires
        increasing_pcs(instructions@),
        boundary_map(bitmap@, bytecode_len as nat, instructions@),
        instructions@.len() <= u32::MAX,
    ensures
        resolved == resolved_relative_target(decoded, instructions@, bytecode_len as nat),
        match resolved {
            Ok(Some(index)) => index.0 < instructions@.len(),
            _ => true,
        },
{
    match relative_target_spec(decoded)? {
        None => Ok(None),
        Some((edge, base, offset)) => {
            let target: i64 = decoded.pc.0 as i64 + base + offset;
            match resolve_target(decoded, edge, target, instructions, bitmap, bytecode_len) {
                Ok(index) => Ok(Some(index)),
                Err(error) => Err(error),
            }
        },
    }
}

/// Instruction that follows `decoded`, reached over `edge`.
pub open(crate) spec fn following(
    decoded: DecodedInstruction,
    edge: ControlFlowEdge,
    instructions: Seq<DecodedInstruction>,
    bytecode_len: nat,
) -> Result<InstructionIndex, VerificationError> {
    resolved_target(decoded, edge, decoded.next_pc.0 as int, instructions, bytecode_len)
}

/// The check that a `gosub` has an instruction to return to.
pub open(crate) spec fn gosub_continuation_check(
    decoded: DecodedInstruction,
    instructions: Seq<DecodedInstruction>,
    bytecode_len: nat,
) -> Result<(), VerificationError> {
    if decoded.instruction.opcode != FinalOpcode::Gosub {
        Ok(())
    } else {
        match following(decoded, ControlFlowEdge::FinallyContinuation, instructions, bytecode_len) {
            Ok(_) => Ok(()),
            Err(error) => Err(error),
        }
    }
}

pub(crate) fn validate_gosub_continuation(
    decoded: DecodedInstruction,
    instructions: &[DecodedInstruction],
    bitmap: &[u64],
    bytecode_len: usize,
) -> (checked: Result<(), VerificationError>)
    requires
        increasing_pcs(instructions@),
        boundary_map(bitmap@, bytecode_len as nat, instructions@),
        instructions@.len() <= u32::MAX,
    ensures
        checked == gosub_continuation_check(decoded, instructions@, bytecode_len as nat),
{
    if !matches!(decoded.instruction.opcode, FinalOpcode::Gosub) {
        return Ok(());
    }
    resolve_target(
        decoded,
        ControlFlowEdge::FinallyContinuation,
        decoded.next_pc.0 as i64,
        instructions,
        bitmap,
        bytecode_len,
    )?;
    Ok(())
}

pub(crate) fn resolve_fallthrough(
    decoded: DecodedInstruction,
    instructions: &[DecodedInstruction],
    bitmap: &[u64],
    bytecode_len: usize,
) -> (resolved: Result<InstructionIndex, VerificationError>)
    requires
        increasing_pcs(instructions@),
        boundary_map(bitmap@, bytecode_len as nat, instructions@),
        instructions@.len() <= u32::MAX,
    ensures
        resolved == following(
            decoded,
            ControlFlowEdge::Fallthrough,
            instructions@,
            bytecode_len as nat,
        ),
        match resolved {
            Ok(index) => index.0 < instructions@.len(),
            Err(_) => true,
        },
{
    resolve_target(
        decoded,
        ControlFlowEdge::Fallthrough,
        decoded.next_pc.0 as i64,
        instructions,
        bitmap,
        bytecode_len,
    )
}

} // verus!
