use quickjs_bytecode::control_flow::baseline;
use quickjs_bytecode::control_flow::error::{
    ControlFlowEdge, FunctionCountDomain, InvalidControlFlowTargetReason, OperandIndexDomain,
    SecondaryOperandField, UnsupportedVerifierFeature, VerificationError, VerificationErrorKind,
};
use quickjs_bytecode::control_flow::limits::{VerificationLimits, VerificationResource};
use quickjs_bytecode::control_flow::model::{
    CompilerCaptureLayout, CompilerCapturedBinding, CompilerConstantKind, CompilerConstantLayout,
    FunctionIndexDomains, FunctionPath, UnverifiedCompilerFunctionBody, UnverifiedFunctionBody,
    VerifiedControlFlow, VerifiedSuccessorKind,
};
use quickjs_bytecode::control_flow::pipeline::{verify_compiler_control_flow, verify_control_flow};
use quickjs_bytecode::control_flow::predecode::predecode_complete;
use quickjs_bytecode::function::{
    FunctionBitField, FunctionHeaderFlag, FunctionKind, FunctionKindRequirement,
    UnverifiedFunctionHeader,
};
use quickjs_bytecode::instruction::BytecodePc;
use quickjs_bytecode::opcode::FinalOpcode;

fn op(opcode: FinalOpcode) -> u8 {
    opcode.encoded_byte()
}

fn header() -> UnverifiedFunctionHeader {
    UnverifiedFunctionHeader::new(0, 0, 0, 0)
}

fn no_domains() -> FunctionIndexDomains {
    FunctionIndexDomains::new(0, 0, 0, 0, 0)
}

fn verify_with(
    bytecode: Vec<u8>,
    stack: u32,
    domains: FunctionIndexDomains,
    header: UnverifiedFunctionHeader,
    limits: VerificationLimits,
) -> Result<VerifiedControlFlow, VerificationError> {
    verify_control_flow(UnverifiedFunctionBody::new(bytecode, stack, domains, header), limits)
}

fn verify(bytecode: Vec<u8>, stack: u32) -> Result<VerifiedControlFlow, VerificationError> {
    verify_with(bytecode, stack, no_domains(), header(), VerificationLimits::untrusted())
}

fn kind_of(outcome: Result<VerifiedControlFlow, VerificationError>) -> VerificationErrorKind {
    match outcome {
        Ok(_) => panic!("accepted"),
        Err(error) => *error.kind(),
    }
}

#[test]
fn a_conditional_body_is_verified() {
    // 0: push_true, 1: if_false8 +2 -> 4, 3: nop, 4: return_undef
    let bytecode = vec![
        op(FinalOpcode::PushTrue),
        op(FinalOpcode::IfFalse8),
        2,
        op(FinalOpcode::Nop),
        op(FinalOpcode::ReturnUndef),
    ];
    let flow = verify(bytecode.clone(), 1).unwrap();
    assert_eq!(flow.bytecode(), &bytecode[..]);
    assert_eq!(flow.computed_stack_size(), 1);
    assert_eq!(flow.instructions().len(), 4);
    let branch = flow.instructions()[1];
    assert_eq!(branch.entry_stack_depth(), Some(1));
    assert_eq!(branch.successors().kind(), VerifiedSuccessorKind::Branch);
    assert_eq!(branch.successors().branch_target().unwrap().get(), 3);
    assert_eq!(branch.successors().fallthrough().unwrap().get(), 2);
    assert!(flow.is_instruction_start(BytecodePc::new(3)));
    assert!(!flow.is_instruction_start(BytecodePc::new(2)));
    assert_eq!(flow.instruction_index_at(BytecodePc::new(4)).unwrap().get(), 3);
    assert!(flow.instruction_index_at(BytecodePc::new(9)).is_none());
    assert_eq!(flow.transfer_evaluations(), 4);
}

#[test]
fn unreachable_code_has_no_depth() {
    let flow = verify(
        vec![op(FinalOpcode::ReturnUndef), op(FinalOpcode::Nop), op(FinalOpcode::ReturnUndef)],
        0,
    )
    .unwrap();
    assert_eq!(flow.instructions()[0].entry_stack_depth(), Some(0));
    assert_eq!(flow.instructions()[1].entry_stack_depth(), None);
    assert_eq!(flow.transfer_evaluations(), 1);
}

#[test]
fn instructions_cover_the_bytecode_and_fall_through_in_order() {
    let bytecode = vec![
        op(FinalOpcode::PushTrue),
        op(FinalOpcode::IfFalse8),
        2,
        op(FinalOpcode::Nop),
        op(FinalOpcode::ReturnUndef),
    ];
    let flow = verify(bytecode, 1).unwrap();
    let instructions = flow.instructions();
    let mut end: u32 = 0;
    for (i, verified) in instructions.iter().enumerate() {
        assert_eq!(verified.decoded().pc().get(), end);
        end = verified.decoded().next_pc().get();
        if let Some(next) = verified.successors().fallthrough() {
            assert_eq!(next.get() as usize, i + 1);
        }
    }
    assert_eq!(end, 5);
    assert!(
        instructions[0].successors().fallthrough() < instructions[1].successors().branch_target()
    );
}

#[test]
fn errors_point_at_what_they_are_about() {
    let about_the_body = verify(vec![], 0).unwrap_err();
    assert!(about_the_body.function_path().is_root());
    assert_eq!((about_the_body.pc(), about_the_body.opcode()), (None, None));
    let undecodable = verify(vec![op(FinalOpcode::Nop), 0], 0).unwrap_err();
    assert_eq!((undecodable.pc(), undecodable.opcode()), (Some(BytecodePc::new(1)), None));
    assert!(matches!(undecodable.kind(), VerificationErrorKind::Decode(_)));
    let underflow =
        verify(vec![op(FinalOpcode::Drop), op(FinalOpcode::ReturnUndef)], 0).unwrap_err();
    assert_eq!(
        (underflow.pc(), underflow.opcode()),
        (Some(BytecodePc::new(0)), Some(FinalOpcode::Drop))
    );
}

#[test]
fn defaults_are_empty() {
    assert_eq!(FunctionIndexDomains::default(), no_domains());
    assert_eq!(FunctionPath::default(), FunctionPath::root());
    assert!(CompilerCaptureLayout::default().bindings().is_empty());
    assert_eq!(
        CompilerCaptureLayout::default(),
        CompilerCaptureLayout::new(Vec::new().into())
    );
    assert!(CompilerConstantLayout::default().kinds().is_empty());
    assert_ne!(
        CompilerConstantLayout::default(),
        CompilerConstantLayout::new(vec![CompilerConstantKind::Value].into())
    );
}

#[test]
fn certificates_are_cloned_whole() {
    let flow = verify(vec![op(FinalOpcode::PushTrue), op(FinalOpcode::Return)], 1).unwrap();
    let copy = flow.clone();
    assert_eq!(copy, flow);
    assert_eq!(copy.instructions(), flow.instructions());
    assert!(copy.is_instruction_start(BytecodePc::new(1)));
}

#[test]
fn boundaries_take_one_bit_per_byte() {
    let body = predecode_complete(&vec![op(FinalOpcode::Nop); 64], 100).unwrap();
    assert_eq!(body.instruction_start_bitmap, vec![u64::MAX]);
    let body = predecode_complete(&vec![op(FinalOpcode::Nop); 65], 100).unwrap();
    assert_eq!(body.instruction_start_bitmap, vec![u64::MAX, 1]);
}

#[test]
fn empty_bytecode_is_refused() {
    assert_eq!(kind_of(verify(vec![], 0)), VerificationErrorKind::EmptyBytecode);
}

#[test]
fn stack_rules_are_enforced() {
    assert_eq!(
        kind_of(verify(vec![op(FinalOpcode::Drop), op(FinalOpcode::ReturnUndef)], 0)),
        VerificationErrorKind::StackUnderflow { required: 1, available: 0 }
    );
    assert_eq!(
        kind_of(verify(vec![op(FinalOpcode::PushTrue), op(FinalOpcode::Return)], 2)),
        VerificationErrorKind::SerializedStackSizeMismatch { serialized: 2, computed: 1 }
    );
    let limits = VerificationLimits::new(100, 100, 100, 100, 100, 1);
    assert_eq!(
        kind_of(verify_with(
            vec![
                op(FinalOpcode::PushTrue),
                op(FinalOpcode::PushTrue),
                op(FinalOpcode::Drop),
                op(FinalOpcode::Return)
            ],
            1,
            no_domains(),
            header(),
            limits
        )),
        VerificationErrorKind::StackLimitExceeded { depth: 2, limit: 1 }
    );
}

#[test]
fn joins_must_agree_on_depth() {
    // 0: push_true, 1: if_true8 -> 4, 3: push_false, 4: return_undef
    let bytecode = vec![
        op(FinalOpcode::PushTrue),
        op(FinalOpcode::IfTrue8),
        2,
        op(FinalOpcode::PushFalse),
        op(FinalOpcode::ReturnUndef),
    ];
    match kind_of(verify(bytecode, 1)) {
        VerificationErrorKind::InconsistentStackAtJoin { target, .. } => {
            assert_eq!(target, BytecodePc::new(4));
        }
        other => panic!("{:?}", other),
    }
}

#[test]
fn targets_must_be_instructions_of_the_body() {
    // 0: goto8 -> 1 (its own operand)
    assert_eq!(
        kind_of(verify(vec![op(FinalOpcode::Goto8), 0], 0)),
        VerificationErrorKind::InvalidControlFlowTarget {
            edge: ControlFlowEdge::Jump,
            target: 1,
            bytecode_len: 2,
            reason: InvalidControlFlowTargetReason::NotInstructionBoundary,
        }
    );
    assert_eq!(
        kind_of(verify(vec![op(FinalOpcode::Goto8), 50], 0)),
        VerificationErrorKind::InvalidControlFlowTarget {
            edge: ControlFlowEdge::Jump,
            target: 51,
            bytecode_len: 2,
            reason: InvalidControlFlowTargetReason::OutsideBytecode,
        }
    );
    match kind_of(verify(vec![op(FinalOpcode::Nop)], 0)) {
        VerificationErrorKind::InvalidControlFlowTarget { edge, reason, .. } => {
            assert_eq!(edge, ControlFlowEdge::Fallthrough);
            assert_eq!(reason, InvalidControlFlowTargetReason::OutsideBytecode);
        }
        other => panic!("{:?}", other),
    }
}

#[test]
fn operand_indices_stay_in_their_domains() {
    assert_eq!(
        kind_of(verify(
            vec![op(FinalOpcode::GetLoc0), op(FinalOpcode::Return)],
            1
        )),
        VerificationErrorKind::IndexOutOfBounds {
            domain: OperandIndexDomain::Local,
            index: 0,
            len: 0
        }
    );
    assert_eq!(
        kind_of(verify(
            vec![op(FinalOpcode::PushConst8), 4, op(FinalOpcode::Return)],
            1
        )),
        VerificationErrorKind::IndexOutOfBounds {
            domain: OperandIndexDomain::ConstantPool,
            index: 4,
            len: 0
        }
    );
    assert!(verify_with(
        vec![op(FinalOpcode::GetLoc0), op(FinalOpcode::Return)],
        1,
        FunctionIndexDomains::new(0, 0, 0, 1, 0),
        header(),
        VerificationLimits::untrusted()
    )
    .is_ok());
}

#[test]
fn secondary_operands_are_checked() {
    assert_eq!(
        kind_of(verify(
            vec![op(FinalOpcode::SpecialObject), 0xff, op(FinalOpcode::Return)],
            1
        )),
        VerificationErrorKind::InvalidSecondaryOperand {
            field: SecondaryOperandField::SpecialObjectKind,
            value: 0xff
        }
    );
}

#[test]
fn limits_are_enforced() {
    let body = vec![op(FinalOpcode::Nop), op(FinalOpcode::Nop), op(FinalOpcode::ReturnUndef)];
    let tight = VerificationLimits::new(2, 100, 100, 100, 100, 10);
    assert_eq!(
        kind_of(verify_with(body.clone(), 0, no_domains(), header(), tight)),
        VerificationErrorKind::LimitExceeded {
            resource: VerificationResource::BytecodeBytes,
            limit: 2,
            observed: 3
        }
    );
    let tight = VerificationLimits::new(100, 2, 100, 100, 100, 10);
    assert_eq!(
        kind_of(verify_with(body.clone(), 0, no_domains(), header(), tight)),
        VerificationErrorKind::LimitExceeded {
            resource: VerificationResource::Instructions,
            limit: 2,
            observed: 3
        }
    );
    let tight = VerificationLimits::new(100, 100, 100, 100, 2, 10);
    assert_eq!(
        kind_of(verify_with(body, 0, no_domains(), header(), tight)),
        VerificationErrorKind::LimitExceeded {
            resource: VerificationResource::TransferEvaluations,
            limit: 2,
            observed: 3
        }
    );
    let deep = VerificationLimits::new(100, 100, 100, 100, 100, u32::MAX);
    assert!(matches!(
        kind_of(verify_with(
            vec![op(FinalOpcode::ReturnUndef)],
            0,
            no_domains(),
            header(),
            deep
        )),
        VerificationErrorKind::InvalidStackLimit { value: u32::MAX, .. }
    ));
}

#[test]
fn structural_counts_are_bounded() {
    let domains = FunctionIndexDomains::new(0, 0, 0, 70_000, 0);
    assert_eq!(
        kind_of(verify_with(
            vec![op(FinalOpcode::ReturnUndef)],
            0,
            domains,
            header(),
            VerificationLimits::untrusted()
        )),
        VerificationErrorKind::MetadataCountOutOfRange {
            domain: FunctionCountDomain::Locals,
            value: 70_000,
            maximum: 65_534
        }
    );
}

#[test]
fn headers_are_validated() {
    let body = vec![op(FinalOpcode::ReturnUndef)];
    let limits = VerificationLimits::untrusted();
    let outcome = verify_with(
        body.clone(),
        0,
        no_domains(),
        UnverifiedFunctionHeader::new(0x8000, 0, 0, 0),
        limits,
    );
    match kind_of(outcome) {
        VerificationErrorKind::DisallowedFunctionBits { field, value, disallowed_bits, .. } => {
            assert_eq!(field, FunctionBitField::SerializedFlags);
            assert_eq!((value, disallowed_bits), (0x8000, 0x8000));
        }
        other => panic!("{:?}", other),
    }
    assert_eq!(
        kind_of(verify_with(
            body.clone(),
            0,
            no_domains(),
            UnverifiedFunctionHeader::new(0, 0, 1, 0),
            limits
        )),
        VerificationErrorKind::DefinedArgumentCountOutOfRange { defined: 1, argument_count: 0 }
    );
    assert_eq!(
        kind_of(verify_with(
            body.clone(),
            0,
            no_domains(),
            UnverifiedFunctionHeader::new(0, 0, 0, 1),
            limits
        )),
        VerificationErrorKind::VariableReferenceCountOutOfRange {
            variable_references: 1,
            argument_count: 0,
            local_count: 0
        }
    );
    assert_eq!(
        kind_of(verify_with(
            body,
            0,
            no_domains(),
            UnverifiedFunctionHeader::new(0x0011, 0, 0, 0),
            limits
        )),
        VerificationErrorKind::FunctionFlagNotAllowedForKind {
            flag: FunctionHeaderFlag::HasPrototype,
            kind: FunctionKind::Generator,
            requirement: FunctionKindRequirement::Normal
        }
    );
}

#[test]
fn opcodes_must_fit_the_function_kind() {
    let outcome = verify(vec![op(FinalOpcode::InitialYield), op(FinalOpcode::ReturnUndef)], 0);
    match kind_of(outcome) {
        VerificationErrorKind::OpcodeNotAllowedForFunctionKind { kind, .. } => {
            assert_eq!(kind, FunctionKind::Normal);
        }
        other => panic!("{:?}", other),
    }
}

#[test]
fn decode_failures_are_reported_where_they_happen() {
    let error = match verify(vec![op(FinalOpcode::Nop), op(FinalOpcode::PushI32), 1], 0) {
        Ok(_) => panic!("accepted"),
        Err(error) => error,
    };
    assert_eq!(error.pc(), Some(BytecodePc::new(1)));
    assert_eq!(error.opcode(), Some(FinalOpcode::PushI32));
    assert!(matches!(error.kind(), VerificationErrorKind::Decode(_)));
    assert!(error.function_path().is_root());
}

#[test]
fn unsupported_opcodes_name_the_missing_feature() {
    let bytecode = vec![
        op(FinalOpcode::PushTrue),
        op(FinalOpcode::ForOfStart),
        op(FinalOpcode::ReturnUndef),
    ];
    let body = || UnverifiedFunctionBody::new(bytecode.clone(), 3, no_domains(), header());
    assert_eq!(
        kind_of(baseline::verify_control_flow(body(), VerificationLimits::untrusted())),
        VerificationErrorKind::UnsupportedOpcodeSemantics {
            feature: UnsupportedVerifierFeature::IteratorMarkers
        }
    );
    assert!(baseline::verify_compiler_control_flow(
        UnverifiedCompilerFunctionBody::new(
            vec![op(FinalOpcode::ReturnUndef)],
            no_domains(),
            header()
        ),
        VerificationLimits::untrusted()
    )
    .is_ok());
}

#[test]
fn compiler_bodies_exit_with_an_empty_stack() {
    let bytecode = vec![op(FinalOpcode::PushTrue), op(FinalOpcode::ReturnUndef)];
    let body = UnverifiedCompilerFunctionBody::new(bytecode.clone(), no_domains(), header());
    assert_eq!(
        kind_of(verify_compiler_control_flow(body, VerificationLimits::untrusted())),
        VerificationErrorKind::NonEmptyCompilerExitStack { remaining: 1 }
    );
    let serialized = UnverifiedFunctionBody::new(bytecode, 1, no_domains(), header());
    assert!(verify_control_flow(serialized, VerificationLimits::untrusted()).is_ok());
}

#[test]
fn compiler_layouts_must_match_the_header() {
    let limits = VerificationLimits::untrusted();
    let domains = FunctionIndexDomains::new(0, 1, 0, 1, 0);
    let cells = UnverifiedFunctionHeader::new(0, 0, 0, 1);
    let bytecode = vec![op(FinalOpcode::ReturnUndef)];
    let body = UnverifiedCompilerFunctionBody::new(bytecode.clone(), domains, header());
    assert_eq!(
        kind_of(verify_compiler_control_flow(body, limits)),
        VerificationErrorKind::MissingCompilerConstantLayout { constants: 1 }
    );
    let constants = || CompilerConstantLayout::new(vec![CompilerConstantKind::Value].into());
    let body = UnverifiedCompilerFunctionBody::new(bytecode.clone(), domains, cells)
        .with_constant_layout(constants());
    assert_eq!(
        kind_of(verify_compiler_control_flow(body, limits)),
        VerificationErrorKind::MissingCompilerCaptureLayout { variable_references: 1 }
    );
    let body = UnverifiedCompilerFunctionBody::new(bytecode.clone(), domains, cells)
        .with_constant_layout(constants())
        .with_capture_layout(CompilerCaptureLayout::new(
            vec![CompilerCapturedBinding::FunctionLocal(5)].into(),
        ));
    assert_eq!(
        kind_of(verify_compiler_control_flow(body, limits)),
        VerificationErrorKind::CompilerCaptureIndexOutOfBounds {
            binding: CompilerCapturedBinding::FunctionLocal(5),
            len: 1
        }
    );
    let body = UnverifiedCompilerFunctionBody::new(bytecode, domains, cells)
        .with_constant_layout(constants())
        .with_capture_layout(CompilerCaptureLayout::new(
            vec![CompilerCapturedBinding::ScopedLocal(0)].into(),
        ));
    let flow = verify_compiler_control_flow(body, limits).unwrap();
    assert_eq!(
        flow.compiler_capture_layout().unwrap().binding_for_variable_reference(0),
        Some(CompilerCapturedBinding::ScopedLocal(0))
    );
    assert_eq!(
        flow.compiler_constant_layout().unwrap().kind(0),
        Some(CompilerConstantKind::Value)
    );
}

#[test]
fn repeated_captures_are_refused() {
    let domains = FunctionIndexDomains::new(0, 0, 0, 2, 0);
    let body = UnverifiedCompilerFunctionBody::new(
        vec![op(FinalOpcode::ReturnUndef)],
        domains,
        UnverifiedFunctionHeader::new(0, 0, 0, 2),
    )
    .with_capture_layout(CompilerCaptureLayout::new(
        vec![
            CompilerCapturedBinding::FunctionLocal(1),
            CompilerCapturedBinding::ScopedLocal(1),
        ]
        .into(),
    ));
    assert_eq!(
        kind_of(verify_compiler_control_flow(body, VerificationLimits::untrusted())),
        VerificationErrorKind::DuplicateCompilerCapture {
            binding: CompilerCapturedBinding::ScopedLocal(1)
        }
    );
}

#[test]
fn constants_must_have_the_kind_that_an_opcode_reads() {
    let domains = FunctionIndexDomains::new(0, 1, 0, 0, 0);
    let body = UnverifiedCompilerFunctionBody::new(
        vec![op(FinalOpcode::FClosure8), 0, op(FinalOpcode::Return)],
        domains,
        header(),
    )
    .with_constant_layout(CompilerConstantLayout::new(vec![CompilerConstantKind::Value].into()));
    assert_eq!(
        kind_of(verify_compiler_control_flow(body, VerificationLimits::untrusted())),
        VerificationErrorKind::CompilerConstantKindMismatch {
            index: 0,
            expected: CompilerConstantKind::Function,
            actual: CompilerConstantKind::Value
        }
    );
}

#[test]
fn close_loc_needs_a_scoped_capture() {
    let mut bytecode = vec![op(FinalOpcode::CloseLoc)];
    bytecode.extend_from_slice(&0u16.to_le_bytes());
    bytecode.push(op(FinalOpcode::ReturnUndef));
    let domains = FunctionIndexDomains::new(0, 0, 0, 1, 0);
    let body = UnverifiedCompilerFunctionBody::new(
        bytecode,
        domains,
        UnverifiedFunctionHeader::new(0, 0, 0, 1),
    )
    .with_capture_layout(CompilerCaptureLayout::new(
        vec![CompilerCapturedBinding::FunctionLocal(0)].into(),
    ));
    assert_eq!(
        kind_of(verify_compiler_control_flow(body, VerificationLimits::untrusted())),
        VerificationErrorKind::CloseLocRequiresScopedCapture { local: 0 }
    );
}

#[test]
fn layouts_cover_their_declared_counts() {
    let limits = VerificationLimits::untrusted();
    let bytecode = vec![op(FinalOpcode::ReturnUndef)];
    let body = UnverifiedCompilerFunctionBody::new(
        bytecode.clone(),
        FunctionIndexDomains::new(0, 2, 0, 0, 0),
        header(),
    )
    .with_constant_layout(CompilerConstantLayout::new(vec![CompilerConstantKind::Value].into()));
    assert_eq!(
        kind_of(verify_compiler_control_flow(body, limits)),
        VerificationErrorKind::CompilerConstantCountMismatch { declared: 2, entries: 1 }
    );
    let body = UnverifiedCompilerFunctionBody::new(
        bytecode,
        FunctionIndexDomains::new(0, 0, 0, 1, 0),
        header(),
    )
    .with_capture_layout(CompilerCaptureLayout::new(
        vec![CompilerCapturedBinding::FunctionLocal(0)].into(),
    ));
    assert_eq!(
        kind_of(verify_compiler_control_flow(body, limits)),
        VerificationErrorKind::CompilerCaptureCountMismatch {
            variable_references: 0,
            captures: 1
        }
    );
}

#[test]
fn mapped_arguments_ascend_inside_the_arguments() {
    let mapping = |indices: Vec<u32>| {
        let body = UnverifiedCompilerFunctionBody::new(
            vec![op(FinalOpcode::ReturnUndef)],
            FunctionIndexDomains::new(0, 0, 2, 0, 0),
            UnverifiedFunctionHeader::new(0, 0, 2, 0),
        )
        .with_capture_layout(
            CompilerCaptureLayout::new(Vec::new().into()).with_mapped_arguments(indices.into()),
        );
        verify_compiler_control_flow(body, VerificationLimits::untrusted())
    };
    assert_eq!(
        kind_of(mapping(vec![0, 2])),
        VerificationErrorKind::CompilerMappedArgumentIndexOutOfBounds { index: 2, len: 2 }
    );
    assert_eq!(
        kind_of(mapping(vec![1, 0])),
        VerificationErrorKind::CompilerMappedArgumentsNotAscending { previous: 1, index: 0 }
    );
    let flow = mapping(vec![0, 1]).unwrap();
    assert_eq!(
        flow.compiler_capture_layout().unwrap().mapped_arguments(),
        Some(&[0u32, 1][..])
    );
}

#[test]
fn prototypes_and_derived_constructors_conflict() {
    assert_eq!(
        kind_of(verify_with(
            vec![op(FinalOpcode::ReturnUndef)],
            0,
            no_domains(),
            UnverifiedFunctionHeader::new(0x0005, 0, 0, 0),
            VerificationLimits::untrusted()
        )),
        VerificationErrorKind::ConflictingFunctionFlags {
            first: FunctionHeaderFlag::HasPrototype,
            second: FunctionHeaderFlag::DerivedClassConstructor
        }
    );
}
