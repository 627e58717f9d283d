//! Instructions, their operands and the checked instruction decoder.
use crate::opcode::{FinalOpcode, FinalOpcodeDecodeError, OperandFormat};
use vstd::prelude::*;

verus! {

/// Byte offset of an instruction in one function's bytecode.
#[derive(Clone, Copy, Debug, PartialEq, Eq, Hash, Structural)]
pub struct BytecodePc(pub u32);

impl BytecodePc {
    /// Creates a program counter.
    pub fn new(offset: u32) -> (pc: Self)
        ensures
            pc == BytecodePc(offset),
    {
        BytecodePc(offset)
    }

    /// Returns the byte offset.
    pub fn get(self) -> (offset: u32)
        ensures
            offset == self.0,
    {
        self.0
    }
}

/// Index into a function-local atom pool.
#[derive(Clone, Copy, Debug, PartialEq, Eq, Hash, Structural)]
pub struct AtomPoolIndex(pub u32);

impl AtomPoolIndex {
    /// Creates an atom-pool index.
    pub fn new(index: u32) -> (atom: Self)
        ensures
            atom == AtomPoolIndex(index),
    {
        AtomPoolIndex(index)
    }

    /// Returns the numeric index.
    pub fn get(self) -> (index: u32)
        ensures
            index == self.0,
    {
        self.0
    }
}

/// Decoded operand payload of one instruction.
#[allow(inconsistent_fields)]
#[derive(Clone, Copy, Debug, PartialEq, Eq, Hash, Structural)]
pub enum Operands {
    Empty,
    NoneInt,
    NoneLoc,
    NoneArg,
    NoneVarRef,
    U8(u8),
    I8(i8),
    Loc8(u8),
    Const8(u8),
    Label8(i8),
    U16(u16),
    I16(i16),
    Label16(i16),
    NPop { argument_count: u16 },
    NPopX,
    NPopU16 { argument_count: u16, scope_index: u16 },
    Loc(u16),
    Arg(u16),
    VarRef(u16),
    U32(u32),
    I32(i32),
    Const(u32),
    Label(i32),
    Atom(AtomPoolIndex),
    AtomU8 { atom: AtomPoolIndex, value: u8 },
    AtomU16 { atom: AtomPoolIndex, value: u16 },
    AtomLabelU8 { atom: AtomPoolIndex, label: i32, value: u8 },
    AtomLabelU16 { atom: AtomPoolIndex, label: i32, value: u16 },
    LabelU16 { label: i32, value: u16 },
}

impl Operands {
    /// Format that these operands are encoded in.
    pub open spec fn spec_format(self) -> OperandFormat {
        match self {
            Operands::Empty => OperandFormat::Empty,
            Operands::NoneInt => OperandFormat::NoneInt,
            Operands::NoneLoc => OperandFormat::NoneLoc,
            Operands::NoneArg => OperandFormat::NoneArg,
            Operands::NoneVarRef => OperandFormat::NoneVarRef,
            Operands::U8(_) => OperandFormat::U8,
            Operands::I8(_) => OperandFormat::I8,
            Operands::Loc8(_) => OperandFormat::Loc8,
            Operands::Const8(_) => OperandFormat::Const8,
            Operands::Label8(_) => OperandFormat::Label8,
            Operands::U16(_) => OperandFormat::U16,
            Operands::I16(_) => OperandFormat::I16,
            Operands::Label16(_) => OperandFormat::Label16,
            Operands::NPop { .. } => OperandFormat::NPop,
            Operands::NPopX => OperandFormat::NPopX,
            Operands::NPopU16 { .. } => OperandFormat::NPopU16,
            Operands::Loc(_) => OperandFormat::Loc,
            Operands::Arg(_) => OperandFormat::Arg,
            Operands::VarRef(_) => OperandFormat::VarRef,
            Operands::U32(_) => OperandFormat::U32,
            Operands::I32(_) => OperandFormat::I32,
            Operands::Const(_) => OperandFormat::Const,
            Operands::Label(_) => OperandFormat::Label,
            Operands::Atom(_) => OperandFormat::Atom,
            Operands::AtomU8 { .. } => OperandFormat::AtomU8,
            Operands::AtomU16 { .. } => OperandFormat::AtomU16,
            Operands::AtomLabelU8 { .. } => OperandFormat::AtomLabelU8,
            Operands::AtomLabelU16 { .. } => OperandFormat::AtomLabelU16,
            Operands::LabelU16 { .. } => OperandFormat::LabelU16,
        }
    }

    /// Atom-pool index carried by the operands.
    pub open spec fn spec_atom_pool_index(self) -> Option<AtomPoolIndex> {
        match self {
            Operands::Atom(atom) => Some(atom),
            Operands::AtomU8 { atom, .. } => Some(atom),
            Operands::AtomU16 { atom, .. } => Some(atom),
            Operands::AtomLabelU8 { atom, .. } => Some(atom),
            Operands::AtomLabelU16 { atom, .. } => Some(atom),
            _ => None,
        }
    }

    /// Returns the atom-pool index carried by the operands.
    #[verifier::when_used_as_spec(spec_atom_pool_index)]
    pub fn atom_pool_index(self) -> (atom: Option<AtomPoolIndex>)
        ensures
            atom == self.spec_atom_pool_index(),
    {
        match self {
            Operands::Atom(atom) => Some(atom),
            Operands::AtomU8 { atom, .. } => Some(atom),
            Operands::AtomU16 { atom, .. } => Some(atom),
            Operands::AtomLabelU8 { atom, .. } => Some(atom),
            Operands::AtomLabelU16 { atom, .. } => Some(atom),
            _ => None,
        }
    }

    /// Argument count encoded in the operands of a variadic instruction.
    pub open spec fn spec_dynamic_argument_count(self) -> Option<u16> {
        match self {
            Operands::NPop { argument_count } => Some(argument_count),
            Operands::NPopU16 { argument_count, .. } => Some(argument_count),
            _ => None,
        }
    }

    /// Returns the argument count encoded in the operands of a variadic
    /// instruction.
    #[verifier::when_used_as_spec(spec_dynamic_argument_count)]
    pub fn dynamic_argument_count(self) -> (count: Option<u16>)
        ensures
            count == self.spec_dynamic_argument_count(),
    {
        match self {
            Operands::NPop { argument_count } => Some(argument_count),
            Operands::NPopU16 { argument_count, .. } => Some(argument_count),
            _ => None,
        }
    }
}

/// Resolved stack effect of one instruction.
#[derive(Clone, Copy, Debug, PartialEq, Eq, Hash, Structural)]
pub struct StackEffect {
    /// Values removed, dynamic arguments included.
    pub pops: u32,
    /// Values pushed.
    pub pushes: u32,
}

impl StackEffect {
    /// Returns the number of values removed.
    pub fn pops(self) -> (pops: u32)
        ensures
            pops == self.pops,
    {
        self.pops
    }

    /// Returns the number of values pushed.
    pub fn pushes(self) -> (pushes: u32)
        ensures
            pushes == self.pushes,
    {
        self.pushes
    }
}

/// Why an instruction has no resolvable stack effect.
#[derive(Clone, Copy, Debug, PartialEq, Eq, Hash, Structural)]
pub enum StackEffectError {
    /// The operands lack the argument count that the opcode's format declares.
    MissingArgumentCount {
        /// Opcode of the instruction.
        opcode: FinalOpcode,
    },
}

/// One opcode with its operands.
#[derive(Clone, Copy, Debug, PartialEq, Eq, Hash, Structural)]
pub struct Instruction {
    /// Opcode of the instruction.
    pub opcode: FinalOpcode,
    /// Operand payload of the instruction.
    pub operands: Operands,
}

/// Argument count that the short call opcodes imply.
pub open spec fn implied_argument_count(opcode: FinalOpcode) -> Option<u16> {
    match opcode {
        FinalOpcode::Call0 => Some(0),
        FinalOpcode::Call1 => Some(1),
        FinalOpcode::Call2 => Some(2),
        FinalOpcode::Call3 => Some(3),
        _ => None,
    }
}

impl Instruction {
    /// Creates an instruction.
    pub fn new(opcode: FinalOpcode, operands: Operands) -> (instruction: Self)
        ensures
            instruction.opcode == opcode,
            instruction.operands == operands,
    {
        Instruction { opcode, operands }
    }

    /// Returns the opcode.
    pub fn opcode(self) -> (opcode: FinalOpcode)
        ensures
            opcode == self.opcode,
    {
        self.opcode
    }

    /// Returns the operands.
    pub fn operands(self) -> (operands: Operands)
        ensures
            operands == self.operands,
    {
        self.operands
    }

    /// Whether a class definition removes its heritage too.
    pub open spec fn has_heritage(self) -> bool {
        match (self.opcode, self.operands) {
            (FinalOpcode::DefineClass, Operands::AtomU8 { value, .. }) => value & 1 != 0,
            _ => false,
        }
    }

    /// Values removed beyond the declared pops: the encoded count of a variadic
    /// opcode, the implied count of a short call, the heritage of a class
    /// definition, none otherwise.
    pub open spec fn spec_argument_count(self) -> Option<u16> {
        match self.opcode.spec_metadata().operand_format {
            OperandFormat::NPop | OperandFormat::NPopU16 =>
                self.operands.spec_dynamic_argument_count(),
            OperandFormat::NPopX => implied_argument_count(self.opcode),
            _ => if self.has_heritage() {
                Some(1)
            } else {
                Some(0)
            },
        }
    }

    /// Resolved stack effect: the declared pops and pushes of the opcode, with
    /// the dynamic arguments added to the pops.
    pub open spec fn spec_stack_effect(self) -> Result<StackEffect, StackEffectError> {
        match self.spec_argument_count() {
            Some(count) => Ok(
                StackEffect {
                    pops: (self.opcode.spec_metadata().pops + count) as u32,
                    pushes: self.opcode.spec_metadata().pushes as u32,
                },
            ),
            None => Err(StackEffectError::MissingArgumentCount { opcode: self.opcode }),
        }
    }

    /// Resolves the stack effect.
    #[verifier::when_used_as_spec(spec_stack_effect)]
    pub fn stack_effect(self) -> (effect: Result<StackEffect, StackEffectError>)
        ensures
            effect == self.spec_stack_effect(),
            match effect {
                Ok(effect) => effect.pops <= 0x1_00ff && effect.pushes <= 0xff,
                Err(_) => true,
            },
    {
        let metadata = self.opcode.metadata();
        let count = match metadata.operand_format {
            OperandFormat::NPop | OperandFormat::NPopU16 => self.operands.dynamic_argument_count(),
            OperandFormat::NPopX => match self.opcode {
                FinalOpcode::Call0 => Some(0u16),
                FinalOpcode::Call1 => Some(1u16),
                FinalOpcode::Call2 => Some(2u16),
                FinalOpcode::Call3 => Some(3u16),
                _ => None,
            },
            _ => match (self.opcode, self.operands) {
                (FinalOpcode::DefineClass, Operands::AtomU8 { value, .. }) => if value & 1 != 0 {
                    Some(1u16)
                } else {
                    Some(0u16)
                },
                _ => Some(0u16),
            },
        };
        match count {
            Some(count) => Ok(
                StackEffect {
                    pops: metadata.pops as u32 + count as u32,
                    pushes: metadata.pushes as u32,
                },
            ),
            None => Err(StackEffectError::MissingArgumentCount { opcode: self.opcode }),
        }
    }
}

/// One instruction with its position in the bytecode.
#[derive(Clone, Copy, Debug, PartialEq, Eq, Hash, Structural)]
pub struct DecodedInstruction {
    /// Offset of the opcode byte.
    pub pc: BytecodePc,
    /// Offset just past the operand payload.
    pub next_pc: BytecodePc,
    /// The decoded instruction.
    pub instruction: Instruction,
}

impl DecodedInstruction {
    /// Returns the offset of the opcode byte.
    pub fn pc(self) -> (pc: BytecodePc)
        ensures
            pc == self.pc,
    {
        self.pc
    }

    /// Returns the offset just past the operand payload.
    pub fn next_pc(self) -> (pc: BytecodePc)
        ensures
            pc == self.next_pc,
    {
        self.next_pc
    }

    /// Returns the decoded instruction.
    pub fn instruction(self) -> (instruction: Instruction)
        ensures
            instruction == self.instruction,
    {
        self.instruction
    }
}

/// Why an instruction cannot be decoded.
#[allow(inconsistent_fields)]
#[derive(Clone, Copy, Debug, PartialEq, Eq, Hash, Structural)]
pub enum DecodeError {
    /// The program counter does not fit the host's address width.
    PcNotRepresentable { pc: BytecodePc },
    /// The program counter is past the end of the bytecode.
    PcOutOfBounds { pc: BytecodePc, bytecode_len: usize },
    /// The bytecode ends where an opcode is expected.
    MissingOpcode { pc: BytecodePc, bytecode_len: usize },
    /// The opcode byte names no executable opcode.
    InvalidOpcode { pc: BytecodePc, opcode_byte: u8, source: FinalOpcodeDecodeError },
    /// The offset just past the instruction is not representable.
    NextPcOverflow { pc: BytecodePc, encoded_len: u8 },
    /// The operand payload runs past the end of the bytecode.
    TruncatedOperands {
        pc: BytecodePc,
        opcode: FinalOpcode,
        required: usize,
        available: usize,
    },
    /// The operand payload is malformed.
    OperandDecoding { pc: BytecodePc, opcode: FinalOpcode },
}

/// Unsigned 16-bit little-endian value at `at`.
pub open spec fn le_u16(bytes: Seq<u8>, at: int) -> u16 {
    (bytes[at] + 0x100 * bytes[at + 1]) as u16
}

/// Unsigned 32-bit little-endian value at `at`.
pub open spec fn le_u32(bytes: Seq<u8>, at: int) -> u32 {
    (bytes[at] + 0x100 * bytes[at + 1] + 0x1_0000 * bytes[at + 2] + 0x100_0000 * bytes[at
        + 3]) as u32
}

fn read_u16(bytes: &[u8], at: usize) -> (value: u16)
    requires
        at + 2 <= bytes@.len(),
    ensures
        value == le_u16(bytes@, at as int),
{
    bytes[at] as u16 + 0x100 * (bytes[at + 1] as u16)
}

fn read_u32(bytes: &[u8], at: usize) -> (value: u32)
    requires
        at + 4 <= bytes@.len(),
    ensures
        value == le_u32(bytes@, at as int),
{
    bytes[at] as u32 + 0x100 * (bytes[at + 1] as u32) + 0x1_0000 * (bytes[at + 2] as u32)
        + 0x100_0000 * (bytes[at + 3] as u32)
}

/// Two's-complement reading of a byte.
pub open spec fn as_i8(value: u8) -> i8 {
    if value < 0x80 {
        value as i8
    } else {
        (value - 0x100) as i8
    }
}

/// Two's-complement reading of a 16-bit value.
pub open spec fn as_i16(value: u16) -> i16 {
    if value < 0x8000 {
        value as i16
    } else {
        (value - 0x1_0000) as i16
    }
}

/// Two's-complement reading of a 32-bit value.
pub open spec fn as_i32(value: u32) -> i32 {
    if value < 0x8000_0000 {
        value as i32
    } else {
        (value - 0x1_0000_0000) as i32
    }
}

fn signed_i8(value: u8) -> (signed: i8)
    ensures
        signed == as_i8(value),
{
    if value < 0x80 {
        value as i8
    } else {
        (value as i16 - 0x100) as i8
    }
}

fn signed_i16(value: u16) -> (signed: i16)
    ensures
        signed == as_i16(value),
{
    if value < 0x8000 {
        value as i16
    } else {
        (value as i32 - 0x1_0000) as i16
    }
}

fn signed_i32(value: u32) -> (signed: i32)
    ensures
        signed == as_i32(value),
{
    if value < 0x8000_0000 {
        value as i32
    } else {
        (value as i64 - 0x1_0000_0000) as i32
    }
}

/// Operands of format `format` encoded at `at`.
pub open spec fn operands_at(format: OperandFormat, bytes: Seq<u8>, at: int) -> Operands {
    match format {
        OperandFormat::Empty => Operands::Empty,
        OperandFormat::NoneInt => Operands::NoneInt,
        OperandFormat::NoneLoc => Operands::NoneLoc,
        OperandFormat::NoneArg => Operands::NoneArg,
        OperandFormat::NoneVarRef => Operands::NoneVarRef,
        OperandFormat::NPopX => Operands::NPopX,
        OperandFormat::U8 => Operands::U8(bytes[at]),
        OperandFormat::I8 => Operands::I8(as_i8(bytes[at])),
        OperandFormat::Loc8 => Operands::Loc8(bytes[at]),
        OperandFormat::Const8 => Operands::Const8(bytes[at]),
        OperandFormat::Label8 => Operands::Label8(as_i8(bytes[at])),
        OperandFormat::U16 => Operands::U16(le_u16(bytes, at)),
        OperandFormat::I16 => Operands::I16(as_i16(le_u16(bytes, at))),
        OperandFormat::Label16 => Operands::Label16(as_i16(le_u16(bytes, at))),
        OperandFormat::NPop => Operands::NPop { argument_count: le_u16(bytes, at) },
        OperandFormat::NPopU16 => Operands::NPopU16 { argument_count: le_u16(bytes, at), scope_index: le_u16(bytes, at + 2) },
        OperandFormat::Loc => Operands::Loc(le_u16(bytes, at)),
        OperandFormat::Arg => Operands::Arg(le_u16(bytes, at)),
        OperandFormat::VarRef => Operands::VarRef(le_u16(bytes, at)),
        OperandFormat::U32 => Operands::U32(le_u32(bytes, at)),
        OperandFormat::I32 => Operands::I32(as_i32(le_u32(bytes, at))),
        OperandFormat::Const => Operands::Const(le_u32(bytes, at)),
        OperandFormat::Label => Operands::Label(as_i32(le_u32(bytes, at))),
        OperandFormat::Atom => Operands::Atom(AtomPoolIndex(le_u32(bytes, at))),
        OperandFormat::AtomU8 => Operands::AtomU8 { atom: AtomPoolIndex(le_u32(bytes, at)), value: bytes[at + 4] },
        OperandFormat::AtomU16 => Operands::AtomU16 { atom: AtomPoolIndex(le_u32(bytes, at)), value: le_u16(bytes, at + 4) },
        OperandFormat::AtomLabelU8 => Operands::AtomLabelU8 {
            atom: AtomPoolIndex(le_u32(bytes, at)),
            label: as_i32(le_u32(bytes, at + 4)),
            value: bytes[at + 8],
        },
        OperandFormat::AtomLabelU16 => Operands::AtomLabelU16 {
            atom: AtomPoolIndex(le_u32(bytes, at)),
            label: as_i32(le_u32(bytes, at + 4)),
            value: le_u16(bytes, at + 8),
        },
        OperandFormat::LabelU16 => Operands::LabelU16 { label: as_i32(le_u32(bytes, at)), value: le_u16(bytes, at + 4) },
    }
}

fn read_operands(format: OperandFormat, bytes: &[u8], at: usize) -> (operands: Operands)
    requires
        at + format.spec_payload_len() <= bytes@.len(),
    ensures
        operands == operands_at(format, bytes@, at as int),
{
    let length: usize = bytes.len();
    assert(at + format.spec_payload_len() <= length);
    match format {
        OperandFormat::Empty => Operands::Empty,
        OperandFormat::NoneInt => Operands::NoneInt,
        OperandFormat::NoneLoc => Operands::NoneLoc,
        OperandFormat::NoneArg => Operands::NoneArg,
        OperandFormat::NoneVarRef => Operands::NoneVarRef,
        OperandFormat::NPopX => Operands::NPopX,
        OperandFormat::U8 => Operands::U8(bytes[at]),
        OperandFormat::I8 => Operands::I8(signed_i8(bytes[at])),
        OperandFormat::Loc8 => Operands::Loc8(bytes[at]),
        OperandFormat::Const8 => Operands::Const8(bytes[at]),
        OperandFormat::Label8 => Operands::Label8(signed_i8(bytes[at])),
        OperandFormat::U16 => Operands::U16(read_u16(bytes, at)),
        OperandFormat::I16 => Operands::I16(signed_i16(read_u16(bytes, at))),
        OperandFormat::Label16 => Operands::Label16(signed_i16(read_u16(bytes, at))),
        OperandFormat::NPop => Operands::NPop { argument_count: read_u16(bytes, at) },
        OperandFormat::NPopU16 => Operands::NPopU16 { argument_count: read_u16(bytes, at), scope_index: read_u16(bytes, at + 2) },
        OperandFormat::Loc => Operands::Loc(read_u16(bytes, at)),
        OperandFormat::Arg => Operands::Arg(read_u16(bytes, at)),
        OperandFormat::VarRef => Operands::VarRef(read_u16(bytes, at)),
        OperandFormat::U32 => Operands::U32(read_u32(bytes, at)),
        OperandFormat::I32 => Operands::I32(signed_i32(read_u32(bytes, at))),
        OperandFormat::Const => Operands::Const(read_u32(bytes, at)),
        OperandFormat::Label => Operands::Label(signed_i32(read_u32(bytes, at))),
        OperandFormat::Atom => Operands::Atom(AtomPoolIndex(read_u32(bytes, at))),
        OperandFormat::AtomU8 => Operands::AtomU8 { atom: AtomPoolIndex(read_u32(bytes, at)), value: bytes[at + 4] },
        OperandFormat::AtomU16 => Operands::AtomU16 { atom: AtomPoolIndex(read_u32(bytes, at)), value: read_u16(bytes, at + 4) },
        OperandFormat::AtomLabelU8 => Operands::AtomLabelU8 {
            atom: AtomPoolIndex(read_u32(bytes, at)),
            label: signed_i32(read_u32(bytes, at + 4)),
            value: bytes[at + 8],
        },
        OperandFormat::AtomLabelU16 => Operands::AtomLabelU16 {
            atom: AtomPoolIndex(read_u32(bytes, at)),
            label: signed_i32(read_u32(bytes, at + 4)),
            value: read_u16(bytes, at + 8),
        },
        OperandFormat::LabelU16 => Operands::LabelU16 { label: signed_i32(read_u32(bytes, at)), value: read_u16(bytes, at + 4) },
    }
}

/// Decoding of the instruction at byte offset `pc`.
///
/// Success needs an executable opcode byte at `pc` whose whole payload lies
/// inside the bytecode and whose end is a representable offset.
#[verifier::opaque]
pub open spec fn decode_at_spec(bytes: Seq<u8>, pc: BytecodePc) -> Result<
    DecodedInstruction,
    DecodeError,
> {
    let at = pc.0 as int;
    if at > bytes.len() {
        Err(DecodeError::PcOutOfBounds { pc, bytecode_len: bytes.len() as usize })
    } else if at == bytes.len() {
        Err(DecodeError::MissingOpcode { pc, bytecode_len: bytes.len() as usize })
    } else {
        match FinalOpcode::spec_decode(bytes[at]) {
            Err(source) => Err(DecodeError::InvalidOpcode { pc, opcode_byte: bytes[at], source }),
            Ok(opcode) => {
                let format = opcode.spec_metadata().operand_format;
                let payload = format.spec_payload_len() as int;
                if at + 1 + payload > bytes.len() {
                    Err(
                        DecodeError::TruncatedOperands {
                            pc,
                            opcode,
                            required: payload as usize,
                            available: (bytes.len() - at - 1) as usize,
                        },
                    )
                } else if at + 1 + payload > u32::MAX {
                    Err(DecodeError::NextPcOverflow { pc, encoded_len: (1 + payload) as u8 })
                } else {
                    Ok(
                        DecodedInstruction {
                            pc,
                            next_pc: BytecodePc((at + 1 + payload) as u32),
                            instruction: Instruction {
                                opcode,
                                operands: operands_at(format, bytes, at + 1),
                            },
                        },
                    )
                }
            },
        }
    }
}

/// Decodes the instruction at byte offset `pc`.
pub fn decode_at(bytes: &[u8], pc: BytecodePc) -> (decoded: Result<DecodedInstruction, DecodeError>)
    ensures
        decoded == decode_at_spec(bytes@, pc),
{
    proof {
        reveal(decode_at_spec);
    }
    let at: usize = pc.0 as usize;
    if at > bytes.len() {
        return Err(DecodeError::PcOutOfBounds { pc, bytecode_len: bytes.len() });
    }
    if at == bytes.len() {
        return Err(DecodeError::MissingOpcode { pc, bytecode_len: bytes.len() });
    }
    let opcode_byte: u8 = bytes[at];
    let opcode = match FinalOpcode::decode(opcode_byte) {
        Ok(opcode) => opcode,
        Err(source) => {
            return Err(DecodeError::InvalidOpcode { pc, opcode_byte, source });
        },
    };
    let format = opcode.metadata().operand_format;
    let payload: u8 = format.payload_len();
    let available: usize = bytes.len() - at - 1;
    if payload as usize > available {
        return Err(
            DecodeError::TruncatedOperands { pc, opcode, required: payload as usize, available },
        );
    }
    let next = match pc.0.checked_add(1 + payload as u32) {
        Some(next) => next,
        None => {
            return Err(DecodeError::NextPcOverflow { pc, encoded_len: 1 + payload });
        },
    };
    let operands = read_operands(format, bytes, at + 1);
    Ok(
        DecodedInstruction {
            pc,
            next_pc: BytecodePc(next),
            instruction: Instruction { opcode, operands },
        },
    )
}

/// Decodes an instruction stream front to back.
///
/// The stream ends after the last byte or after the first error.
pub struct InstructionDecoder<'a> {
    bytecode: &'a [u8],
    next_pc: BytecodePc,
    failed: bool,
}

impl<'a> InstructionDecoder<'a> {
    /// Bytes being decoded.
    pub closed spec fn bytes(&self) -> Seq<u8> {
        self.bytecode@
    }

    /// Offset of the next instruction.
    pub closed spec fn position(&self) -> BytecodePc {
        self.next_pc
    }

    /// Whether an error has ended the stream.
    pub closed spec fn has_failed(&self) -> bool {
        self.failed
    }

    /// Starts at the first byte.
    pub fn new(bytecode: &'a [u8]) -> (decoder: Self)
        ensures
            decoder.bytes() == bytecode@,
            decoder.position() == BytecodePc(0),
            !decoder.has_failed(),
    {
        InstructionDecoder { bytecode, next_pc: BytecodePc(0), failed: false }
    }

    /// Decodes the next instruction, or returns `None` at the end of the
    /// stream.
    pub fn next(&mut self) -> (item: Option<Result<DecodedInstruction, DecodeError>>)
        ensures
            final(self).bytes() == old(self).bytes(),
            item.is_none() <==> (old(self).has_failed() || old(self).position().0 as int
                == old(self).bytes().len()),
            match item {
                None => *final(self) == *old(self),
                Some(decoded) => decoded == decode_at_spec(old(self).bytes(), old(self).position()),
            },
            match item {
                Some(Ok(decoded)) => final(self).position() == decoded.next_pc
                    && !final(self).has_failed(),
                Some(Err(_)) => final(self).has_failed(),
                None => true,
            },
    {
        if self.failed || self.next_pc.0 as usize == self.bytecode.len() {
            return None;
        }
        match decode_at(self.bytecode, self.next_pc) {
            Ok(decoded) => {
                self.next_pc = decoded.next_pc;
                Some(Ok(decoded))
            },
            Err(error) => {
                self.failed = true;
                Some(Err(error))
            },
        }
    }
}

/// A decoded instruction carries operands of its opcode's declared format, so
/// its stack effect is resolvable.
pub proof fn lemma_decoded_operands_match_format(bytes: Seq<u8>, pc: BytecodePc)
    ensures
        match decode_at_spec(bytes, pc) {
            Ok(decoded) => decoded.pc == pc && decoded.pc.0 < decoded.next_pc.0 <= bytes.len()
                && decoded.instruction.operands.spec_format()
                == decoded.instruction.opcode.spec_metadata().operand_format
                && decoded.instruction.spec_stack_effect().is_ok(),
            Err(_) => true,
        },
{
    reveal(decode_at_spec);
}

} // verus!
