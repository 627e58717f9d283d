//! What instructions look like as bytes.
use crate::instruction::{
    BytecodePc, DecodeError, DecodedInstruction, Instruction, Operands, StackEffect,
    StackEffectError, as_i16, as_i32, as_i8, decode_at_spec, le_u16, le_u32, operands_at,
};
use crate::opcode::{FinalOpcode, lemma_opcode_byte_round_trip};
use vstd::prelude::*;

verus! {

/// The low byte of a whole number, in two's complement where it is negative.
pub open spec fn low_byte(value: int) -> u8 {
    (value % 0x100) as u8
}

/// The two bytes of a number, low byte first.
pub open spec fn two_bytes(value: int) -> Seq<u8> {
    seq![low_byte(value), low_byte(value / 0x100)]
}

/// The four bytes of a number, low byte first.
pub open spec fn four_bytes(value: int) -> Seq<u8> {
    seq![
        low_byte(value),
        low_byte(value / 0x100),
        low_byte(value / 0x1_0000),
        low_byte(value / 0x100_0000),
    ]
}

/// The bytes that operands are written as.
pub open spec fn payload(operands: Operands) -> Seq<u8> {
    match operands {
        Operands::Empty
        | Operands::NoneInt
        | Operands::NoneLoc
        | Operands::NoneArg
        | Operands::NoneVarRef
        | Operands::NPopX => Seq::empty(),
        Operands::U8(value) | Operands::Loc8(value) | Operands::Const8(value) => seq![value],
        Operands::I8(value) | Operands::Label8(value) => seq![low_byte(value as int)],
        Operands::U16(value)
        | Operands::Loc(value)
        | Operands::Arg(value)
        | Operands::VarRef(value) => two_bytes(value as int),
        Operands::I16(value) | Operands::Label16(value) => two_bytes(value as int),
        Operands::NPop { argument_count } => two_bytes(argument_count as int),
        Operands::NPopU16 { argument_count, scope_index } => two_bytes(argument_count as int)
            + two_bytes(scope_index as int),
        Operands::U32(value) | Operands::Const(value) => four_bytes(value as int),
        Operands::I32(value) | Operands::Label(value) => four_bytes(value as int),
        Operands::Atom(atom) => four_bytes(atom.0 as int),
        Operands::AtomU8 { atom, value } => four_bytes(atom.0 as int) + seq![value],
        Operands::AtomU16 { atom, value } => four_bytes(atom.0 as int) + two_bytes(value as int),
        Operands::AtomLabelU8 { atom, label, value } => four_bytes(atom.0 as int) + four_bytes(
            label as int,
        ) + seq![value],
        Operands::AtomLabelU16 { atom, label, value } => four_bytes(atom.0 as int) + four_bytes(
            label as int,
        ) + two_bytes(value as int),
        Operands::LabelU16 { label, value } => four_bytes(label as int) + two_bytes(value as int),
    }
}

proof fn lemma_one_byte(bytes: Seq<u8>, at: int, value: i8)
    requires
        bytes[at] == low_byte(value as int),
    ensures
        as_i8(bytes[at]) == value,
{
}

proof fn lemma_two_bytes(bytes: Seq<u8>, at: int, value: int)
    requires
        bytes[at] == two_bytes(value)[0],
        bytes[at + 1] == two_bytes(value)[1],
    ensures
        0 <= value <= u16::MAX ==> le_u16(bytes, at) == value,
        i16::MIN <= value <= i16::MAX ==> as_i16(le_u16(bytes, at)) == value,
{
    let low = value % 0x100;
    let high = (value / 0x100) % 0x100;
    assert(bytes[at] == low && bytes[at + 1] == high);
    assert(le_u16(bytes, at) == low + 0x100 * high);
}

proof fn lemma_four_bytes(bytes: Seq<u8>, at: int, value: int)
    requires
        bytes[at] == four_bytes(value)[0],
        bytes[at + 1] == four_bytes(value)[1],
        bytes[at + 2] == four_bytes(value)[2],
        bytes[at + 3] == four_bytes(value)[3],
    ensures
        0 <= value <= u32::MAX ==> le_u32(bytes, at) == value,
        i32::MIN <= value <= i32::MAX ==> as_i32(le_u32(bytes, at)) == value,
{
    let first = value % 0x100;
    let second = (value / 0x100) % 0x100;
    let third = (value / 0x1_0000) % 0x100;
    let fourth = (value / 0x100_0000) % 0x100;
    assert(bytes[at] == first && bytes[at + 1] == second && bytes[at + 2] == third && bytes[at + 3]
        == fourth);
    assert(le_u32(bytes, at) == first + 0x100 * second + 0x1_0000 * third + 0x100_0000 * fourth);
}

/// Operands are read back from the bytes they are written as, which are as many
/// as their format says.
#[verifier::rlimit(60)]
pub proof fn lemma_operands_are_read_back(before: Seq<u8>, operands: Operands, behind: Seq<u8>)
    ensures
        operands_at(
            operands.spec_format(),
            before + payload(operands) + behind,
            before.len() as int,
        ) == operands,
        payload(operands).len() == operands.spec_format().spec_payload_len(),
{
    let bytes = before + payload(operands) + behind;
    let at = before.len() as int;
    let written = payload(operands);
    assert forall|i: int| 0 <= i < written.len() implies #[trigger] bytes[at + i] == written[i] by {}
    assert(written.len() > 0 ==> bytes[at] == written[0]) by {
        assert(written.len() > 0 ==> bytes[at + 0] == written[0]);
    }
    match operands {
        Operands::I8(value) | Operands::Label8(value) => lemma_one_byte(bytes, at, value),
        Operands::U16(value)
        | Operands::Loc(value)
        | Operands::Arg(value)
        | Operands::VarRef(value) => lemma_two_bytes(bytes, at, value as int),
        Operands::I16(value) | Operands::Label16(value) => lemma_two_bytes(
            bytes,
            at,
            value as int,
        ),
        Operands::NPop { argument_count } => lemma_two_bytes(bytes, at, argument_count as int),
        Operands::NPopU16 { argument_count, scope_index } => {
            lemma_two_bytes(bytes, at, argument_count as int);
            lemma_two_bytes(bytes, at + 2, scope_index as int);
        },
        Operands::U32(value) | Operands::Const(value) => lemma_four_bytes(bytes, at, value as int),
        Operands::I32(value) | Operands::Label(value) => lemma_four_bytes(bytes, at, value as int),
        Operands::Atom(atom) => lemma_four_bytes(bytes, at, atom.0 as int),
        Operands::AtomU8 { atom, .. } => lemma_four_bytes(bytes, at, atom.0 as int),
        Operands::AtomU16 { atom, value } => {
            lemma_four_bytes(bytes, at, atom.0 as int);
            lemma_two_bytes(bytes, at + 4, value as int);
        },
        Operands::AtomLabelU8 { atom, label, .. } => {
            lemma_four_bytes(bytes, at, atom.0 as int);
            lemma_four_bytes(bytes, at + 4, label as int);
        },
        Operands::AtomLabelU16 { atom, label, value } => {
            lemma_four_bytes(bytes, at, atom.0 as int);
            lemma_four_bytes(bytes, at + 4, label as int);
            lemma_two_bytes(bytes, at + 8, value as int);
        },
        Operands::LabelU16 { label, value } => {
            lemma_four_bytes(bytes, at, label as int);
            lemma_two_bytes(bytes, at + 4, value as int);
        },
        _ => {},
    }
}

/// An instruction that stands in a body as its opcode's byte and the bytes of
/// operands of the opcode's format is decoded as itself, and the next instruction
/// starts behind its last byte.
pub proof fn lemma_instructions_are_read_back(
    before: Seq<u8>,
    instruction: Instruction,
    behind: Seq<u8>,
)
    requires
        instruction.opcode != FinalOpcode::Invalid,
        instruction.operands.spec_format() == instruction.opcode.spec_metadata().operand_format,
        before.len() + 1 + payload(instruction.operands).len() <= u32::MAX,
    ensures
        decode_at_spec(
            before + seq![instruction.opcode.spec_encoded_byte()] + payload(instruction.operands)
                + behind,
            BytecodePc(before.len() as u32),
        ) == Ok::<DecodedInstruction, DecodeError>(
            DecodedInstruction {
                pc: BytecodePc(before.len() as u32),
                next_pc: BytecodePc(
                    (before.len() + 1 + payload(instruction.operands).len()) as u32,
                ),
                instruction,
            },
        ),
{
    reveal(decode_at_spec);
    let head = before + seq![instruction.opcode.spec_encoded_byte()];
    lemma_operands_are_read_back(head, instruction.operands, behind);
    lemma_opcode_byte_round_trip(instruction.opcode);
    let bytes = head + payload(instruction.operands) + behind;
    assert(bytes[before.len() as int] == instruction.opcode.spec_encoded_byte());
}

/// A body that ends inside an instruction is refused there, and so is one whose
/// instruction starts behind its last byte.
pub proof fn lemma_cut_instructions_are_refused(
    before: Seq<u8>,
    opcode: FinalOpcode,
    some: Seq<u8>,
    pc: BytecodePc,
)
    requires
        opcode != FinalOpcode::Invalid,
        before.len() <= u32::MAX,
    ensures
        some.len() < opcode.spec_metadata().operand_format.spec_payload_len() ==> decode_at_spec(
            before + seq![opcode.spec_encoded_byte()] + some,
            BytecodePc(before.len() as u32),
        ) == Err::<DecodedInstruction, DecodeError>(
            DecodeError::TruncatedOperands {
                pc: BytecodePc(before.len() as u32),
                opcode,
                required: opcode.spec_metadata().operand_format.spec_payload_len() as usize,
                available: some.len() as usize,
            },
        ),
        decode_at_spec(before, pc).is_ok() ==> pc.0 < before.len(),
{
    reveal(decode_at_spec);
    lemma_opcode_byte_round_trip(opcode);
    let bytes = before + seq![opcode.spec_encoded_byte()] + some;
    assert(bytes[before.len() as int] == opcode.spec_encoded_byte());
    assert(bytes.len() - before.len() - 1 == some.len());
}

/// The values that an instruction takes beyond those its opcode declares: as many
/// as a call names or its opcode counts, one for a class with a heritage, and none
/// otherwise. It gives what its opcode declares. Only a counting format under an
/// opcode that counts nothing leaves this open.
pub proof fn lemma_effects_count_arguments(instruction: Instruction)
    requires
        instruction.operands.spec_format() == instruction.opcode.spec_metadata().operand_format,
    ensures
        ({
            let pops = instruction.opcode.spec_metadata().pops;
            let further = |count: int|
                instruction.spec_stack_effect() == Ok::<StackEffect, StackEffectError>(
                    StackEffect {
                        pops: (pops + count) as u32,
                        pushes: instruction.opcode.spec_metadata().pushes as u32,
                    },
                );
            match instruction.operands {
                Operands::NPop { argument_count } => further(argument_count as int),
                Operands::NPopU16 { argument_count, .. } => further(argument_count as int),
                Operands::NPopX => match instruction.opcode {
                    FinalOpcode::Call0 => further(0),
                    FinalOpcode::Call1 => further(1),
                    FinalOpcode::Call2 => further(2),
                    FinalOpcode::Call3 => further(3),
                    _ => instruction.spec_stack_effect().is_err(),
                },
                Operands::AtomU8 { value, .. } => if instruction.opcode == FinalOpcode::DefineClass
                    && value & 1 != 0 {
                    further(1)
                } else {
                    further(0)
                },
                _ => further(0),
            }
        }),
{
}

} // verus!
