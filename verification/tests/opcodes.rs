use quickjs_bytecode::instruction::{
    AtomPoolIndex, BytecodePc, DecodeError, Instruction, InstructionDecoder, Operands, decode_at,
};
use quickjs_bytecode::opcode::{
    FINAL_OPCODE_COUNT, FinalOpcode, FinalOpcodeDecodeError, OperandFormat, all_final_opcodes,
};

#[test]
fn opcode_bytes_round_trip() {
    let opcodes = all_final_opcodes();
    assert_eq!(opcodes.len(), 244);
    assert_eq!(opcodes.len(), FINAL_OPCODE_COUNT as usize);
    for &opcode in &opcodes {
        if opcode != FinalOpcode::Invalid {
            assert_eq!(FinalOpcode::decode(opcode.encoded_byte()), Ok(opcode));
        }
    }
}

#[test]
fn reserved_and_unassigned_opcode_bytes_are_refused() {
    assert_eq!(FinalOpcode::decode(0), Err(FinalOpcodeDecodeError::ReservedInvalid));
    let assigned: Vec<u8> = all_final_opcodes().iter().map(|o| o.encoded_byte()).collect();
    let mut refused = 0;
    for byte in 1..=255u8 {
        if !assigned.contains(&byte) {
            assert_eq!(FinalOpcode::decode(byte), Err(FinalOpcodeDecodeError::Unassigned { byte }));
            refused += 1;
        }
    }
    assert_eq!(refused, 256 - 244);
}

#[test]
fn opcode_metadata_gives_format_and_effect() {
    let metadata = FinalOpcode::PushI32.metadata();
    assert_eq!(metadata.operand_format, OperandFormat::I32);
    assert_eq!((metadata.pops, metadata.pushes), (0, 1));
    assert_eq!(OperandFormat::I32.payload_len(), 4);
    assert_eq!(FinalOpcode::PushI32.mnemonic(), "push_i32");
    assert_eq!(FinalOpcode::ReturnUndef.mnemonic(), "return_undef");
}

#[test]
fn call_effects_count_their_arguments() {
    let call = Instruction::new(FinalOpcode::Call, Operands::NPop { argument_count: 3 });
    let effect = call.stack_effect().unwrap();
    assert_eq!((effect.pops(), effect.pushes()), (4, 1));
    let short = Instruction::new(FinalOpcode::Call2, Operands::NPopX);
    let effect = short.stack_effect().unwrap();
    assert_eq!((effect.pops(), effect.pushes()), (3, 1));
    let wrong = Instruction::new(FinalOpcode::Call, Operands::Empty);
    assert!(wrong.stack_effect().is_err());
}

#[test]
fn operands_are_read_little_endian() {
    let mut bytes = vec![FinalOpcode::PushI32.encoded_byte()];
    bytes.extend_from_slice(&(-2i32).to_le_bytes());
    bytes.push(FinalOpcode::GetLoc.encoded_byte());
    bytes.extend_from_slice(&0x1234u16.to_le_bytes());
    bytes.push(FinalOpcode::PushAtomValue.encoded_byte());
    bytes.extend_from_slice(&7u32.to_le_bytes());
    let mut decoder = InstructionDecoder::new(&bytes);
    let first = decoder.next().unwrap().unwrap();
    assert_eq!(first.pc(), BytecodePc::new(0));
    assert_eq!(first.next_pc(), BytecodePc::new(5));
    assert_eq!(first.instruction().operands(), Operands::I32(-2));
    let second = decoder.next().unwrap().unwrap();
    assert_eq!(second.pc(), BytecodePc::new(5));
    assert_eq!(second.instruction().operands(), Operands::Loc(0x1234));
    let third = decoder.next().unwrap().unwrap();
    assert_eq!(
        third.instruction().operands().atom_pool_index(),
        Some(AtomPoolIndex::new(7))
    );
    assert!(decoder.next().is_none());
}

#[test]
fn decoding_failures_name_their_place() {
    let bytes = vec![FinalOpcode::PushI32.encoded_byte(), 1, 2];
    match decode_at(&bytes, BytecodePc::new(0)) {
        Err(DecodeError::TruncatedOperands { pc, opcode, required, available }) => {
            assert_eq!(pc, BytecodePc::new(0));
            assert_eq!(opcode, FinalOpcode::PushI32);
            assert_eq!((required, available), (4, 2));
        }
        other => panic!("{:?}", other),
    }
    assert!(matches!(
        decode_at(&[0], BytecodePc::new(0)),
        Err(DecodeError::InvalidOpcode { opcode_byte: 0, .. })
    ));
    assert!(decode_at(&bytes, BytecodePc::new(9)).is_err());
}

#[test]
fn a_failing_decoder_stops() {
    let bytes = vec![FinalOpcode::Nop.encoded_byte(), 0, FinalOpcode::Nop.encoded_byte()];
    let mut decoder = InstructionDecoder::new(&bytes);
    assert!(decoder.next().unwrap().is_ok());
    assert!(decoder.next().unwrap().is_err());
    assert!(decoder.next().is_none());
}
