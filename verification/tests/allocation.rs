use quickjs_bytecode::control_flow::error::VerificationErrorKind;
use quickjs_bytecode::control_flow::limits::VerificationResource;
use quickjs_bytecode::control_flow::model::InstructionIndex;
use quickjs_bytecode::control_flow::stack::{
    reserve_worklist_entry, worklist_reservation_outcome,
};
use quickjs_bytecode::instruction::{BytecodePc, InstructionDecoder};
use quickjs_bytecode::opcode::FinalOpcode;
use std::collections::VecDeque;

#[test]
fn worklist_allocation_failure_preserves_exact_resource_and_location() {
    let bytecode = vec![FinalOpcode::ReturnUndef.encoded_byte()];
    let decoded = InstructionDecoder::new(&bytecode)
        .next()
        .expect("test body must contain an instruction")
        .expect("test instruction must decode");

    let reserved = VecDeque::<u64>::new().try_reserve(usize::MAX);
    assert!(reserved.is_err());
    let error = worklist_reservation_outcome(reserved, decoded)
        .expect_err("injected worklist reservation failure must fail closed");
    assert_eq!(error.pc(), Some(BytecodePc::new(0)));
    assert_eq!(error.opcode(), Some(FinalOpcode::ReturnUndef));
    assert_eq!(
        error.kind(),
        &VerificationErrorKind::AllocationFailed {
            resource: VerificationResource::WorklistEntries,
            requested: 1,
        }
    );
}

#[test]
fn worklist_reservation_keeps_the_worklist() {
    let bytecode = vec![FinalOpcode::ReturnUndef.encoded_byte()];
    let decoded = InstructionDecoder::new(&bytecode).next().unwrap().unwrap();
    let mut worklist: VecDeque<InstructionIndex> = VecDeque::new();
    assert!(reserve_worklist_entry(&mut worklist, decoded).is_ok());
    assert!(worklist.is_empty());
    assert!(worklist.capacity() >= 1);
}
