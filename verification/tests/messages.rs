use quickjs_bytecode::control_flow::error::{
    ControlFlowEdge, InvalidControlFlowTargetReason, VerificationErrorKind,
};
use quickjs_bytecode::control_flow::limits::{VerificationLimits, VerificationResource};
use quickjs_bytecode::control_flow::model::{
    CompilerCapturedBinding, FunctionIndexDomains, UnverifiedFunctionBody,
};
use quickjs_bytecode::control_flow::pipeline::verify_control_flow;
use quickjs_bytecode::function::{FunctionBitField, UnverifiedFunctionHeader};
use quickjs_bytecode::opcode::FinalOpcode;

#[test]
fn kinds_have_their_messages() {
    assert_eq!(
        VerificationErrorKind::EmptyBytecode.message(),
        "the bytecode stream is empty"
    );
    assert_eq!(
        VerificationErrorKind::LimitExceeded {
            resource: VerificationResource::AtomPoolEntries,
            limit: 10,
            observed: 18_446_744_073_709_551_615,
        }
        .message(),
        "atom-pool entries limit 10 exceeded by observed value 18446744073709551615"
    );
    assert_eq!(
        VerificationErrorKind::DisallowedFunctionBits {
            field: FunctionBitField::SerializedFlags,
            value: 0x80ff,
            allowed_mask: 0x1fff,
            disallowed_bits: 0x8000,
        }
        .message(),
        "function-flags value 0x80ff contains disallowed bits 0x8000; allowed mask is 0x1fff"
    );
    assert_eq!(
        VerificationErrorKind::InvalidControlFlowTarget {
            edge: ControlFlowEdge::Jump,
            target: -7,
            bytecode_len: 12,
            reason: InvalidControlFlowTargetReason::OutsideBytecode,
        }
        .message(),
        "invalid jump target -7 for bytecode length 12: target is outside the bytecode"
    );
    assert_eq!(
        VerificationErrorKind::ControlFlowTargetOverflow {
            edge: ControlFlowEdge::Branch,
            base: i64::MIN,
            displacement: 0,
        }
        .message(),
        "branch target base -9223372036854775808 plus displacement 0 overflows i64"
    );
    assert_eq!(
        VerificationErrorKind::DuplicateCompilerCapture {
            binding: CompilerCapturedBinding::ScopedLocal(30)
        }
        .message(),
        "compiler capture scoped local 30 names a duplicate frame binding"
    );
}

#[test]
fn errors_name_function_place_and_rule() {
    let body = UnverifiedFunctionBody::new(
        vec![FinalOpcode::Nop.encoded_byte(), FinalOpcode::Drop.encoded_byte()],
        0,
        FunctionIndexDomains::new(0, 0, 0, 0, 0),
        UnverifiedFunctionHeader::new(0, 0, 0, 0),
    );
    let error = verify_control_flow(body, VerificationLimits::untrusted()).err().unwrap();
    assert_eq!(
        error.message(),
        "bytecode verification failed in function <root> at PC 1 (drop): invalid fallthrough \
         target 2 for bytecode length 2: target is outside the bytecode"
    );
}
