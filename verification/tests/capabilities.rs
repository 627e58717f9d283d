use quickjs_bytecode::control_flow::opcode_semantics::{
    OpcodeSemantics, baseline_opcode_semantics, opcode_semantics,
};
use quickjs_bytecode::opcode::{FinalOpcode, all_final_opcodes};

#[test]
fn verifier_final_opcode_capability_partition_is_exhaustive_and_counted_from_the_table() {
    let mut invalid = 0;
    let mut supported = 0;
    let mut unsupported = 0;

    for &opcode in &all_final_opcodes() {
        match baseline_opcode_semantics(opcode) {
            OpcodeSemantics::Invalid => invalid += 1,
            OpcodeSemantics::Unsupported(_, _) => unsupported += 1,
            OpcodeSemantics::Ordinary
            | OpcodeSemantics::Conditional
            | OpcodeSemantics::Jump
            | OpcodeSemantics::Terminate => supported += 1,
        }
    }

    assert_eq!(invalid, 1);
    assert_eq!(supported, 216);
    assert_eq!(unsupported, 27);
    assert_eq!(invalid + supported + unsupported, all_final_opcodes().len());
    assert_eq!(
        baseline_opcode_semantics(FinalOpcode::Invalid),
        OpcodeSemantics::Invalid
    );
}

#[test]
fn opcode_semantics_final_opcode_capability_partition_is_exhaustive_and_counted_from_the_table() {
    let mut invalid = 0;
    let mut supported = 0;
    let mut unsupported = 0;

    for &opcode in &all_final_opcodes() {
        match opcode_semantics(opcode) {
            OpcodeSemantics::Invalid => invalid += 1,
            OpcodeSemantics::Unsupported(_, _) => unsupported += 1,
            OpcodeSemantics::Ordinary
            | OpcodeSemantics::Conditional
            | OpcodeSemantics::Jump
            | OpcodeSemantics::Terminate => supported += 1,
        }
    }

    assert_eq!(invalid, 1);
    assert_eq!(supported, 221);
    assert_eq!(unsupported, 22);
    assert_eq!(invalid + supported + unsupported, all_final_opcodes().len());
    assert_eq!(
        opcode_semantics(FinalOpcode::Invalid),
        OpcodeSemantics::Invalid
    );
}
