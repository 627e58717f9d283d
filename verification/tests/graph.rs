use quickjs_bytecode::bytecode::error::{
    BindingPolicyViolationReason, BindingSlot, BytecodeVerificationError,
    BytecodeVerificationErrorKind, MetadataAtomField,
};
use quickjs_bytecode::bytecode::function_metadata::FunctionFindings;
use quickjs_bytecode::bytecode::graph::{
    GraphFindings, verify_compiler_bytecode_graph, verify_compiler_bytecode_graph_with_texts,
};
use quickjs_bytecode::bytecode::model::{
    BytecodeGraphResource, BytecodeGraphVerificationLimits, ClosureVariableDefinition,
    CompilerBindingKind, CompilerBindingPolicy, CompilerExecutableKind,
    CompilerInitializationPolicy, CompilerSource, CompilerWritePolicy, ExecutionRequirement,
    ModuleBindingOrigin, ModuleImportName, ModuleRequestDescriptor, PcSourceSpan, ScopeLink,
    SourceByteSpan, UnverifiedCompilerBytecodeGraph, UnverifiedFunctionMetadata,
    UnverifiedModuleBindingDescriptor, UnverifiedModuleDeclarationRecord, VariableDefinition,
    VerifiedBytecode,
};
use quickjs_bytecode::bytecode::preflight::{
    RetainedTexts, count_first_handles, find_retained_texts,
};
use quickjs_bytecode::control_flow::limits::VerificationLimits;
use quickjs_bytecode::control_flow::model::{
    CompilerCaptureLayout, CompilerCapturedBinding, CompilerConstantKind, CompilerConstantLayout,
    FunctionIndexDomains, UnverifiedCompilerFunctionBody,
};
use quickjs_bytecode::control_flow::pipeline::verify_compiler_control_flow;
use quickjs_bytecode::function::UnverifiedFunctionHeader;
use quickjs_bytecode::function_graph::{
    CompilerAtom, CompilerClosureSource, CompilerConstant, CompilerString, FunctionTemplateId,
    VerifiedCompilerFunction, VerifiedCompilerFunctionGraph,
};
use quickjs_bytecode::instruction::{AtomPoolIndex, BytecodePc};
use quickjs_bytecode::opcode::FinalOpcode;
use std::sync::Arc;

const TEXT: &str = "let répété = 1; function f() {}";

/// What a function of a test graph is made of.
struct Part {
    kind: CompilerExecutableKind,
    flags: u16,
    mode: u8,
    bytecode: Vec<u8>,
    arguments: u32,
    atoms: Vec<&'static str>,
    constants: Vec<CompilerConstant>,
    variables: Vec<VariableDefinition>,
    captures: Vec<CompilerCapturedBinding>,
    closures: Vec<ClosureVariableDefinition>,
    name: Option<u32>,
    defined: Option<u32>,
    reserved_atoms: bool,
}

impl Part {
    fn script(bytecode: Vec<u8>) -> Part {
        Part {
            kind: CompilerExecutableKind::GlobalScript,
            flags: 0x0400,
            mode: 0,
            bytecode,
            arguments: 0,
            atoms: Vec::new(),
            constants: Vec::new(),
            variables: Vec::new(),
            captures: Vec::new(),
            closures: Vec::new(),
            name: None,
            defined: None,
            reserved_atoms: false,
        }
    }

    fn function(bytecode: Vec<u8>) -> Part {
        Part {
            kind: CompilerExecutableKind::OrdinaryFunction,
            flags: 0x0643,
            ..Part::script(bytecode)
        }
    }

    fn starts(&self) -> Vec<u32> {
        let mut starts = Vec::new();
        let mut decoder = quickjs_bytecode::instruction::InstructionDecoder::new(&self.bytecode);
        while let Some(decoded) = decoder.next() {
            starts.push(decoded.unwrap().pc().get());
        }
        starts
    }

    fn source(&self, text: &Arc<str>, display_name: &Arc<str>) -> CompilerSource {
        let span = SourceByteSpan::new(0, text.len() as u32);
        let mappings: Vec<PcSourceSpan> = self
            .starts()
            .iter()
            .map(|&pc| PcSourceSpan::new(BytecodePc::new(pc), span))
            .collect();
        let name_span = self.name.map(|_| SourceByteSpan::new(0, 3));
        CompilerSource::new(display_name.clone(), text.clone(), span, name_span, mappings.into())
    }

    fn metadata(&self, text: &Arc<str>, display_name: &Arc<str>) -> UnverifiedFunctionMetadata {
        UnverifiedFunctionMetadata::new(
            self.name.map(AtomPoolIndex::new),
            self.variables.clone().into(),
            self.closures.clone().into(),
            self.source(text, display_name),
        )
        .with_executable_kind(self.kind)
    }

    fn compiled(&self) -> VerifiedCompilerFunction {
        let locals = self.variables.len() as u32 - self.arguments;
        let domains = FunctionIndexDomains::new(
            self.atoms.len() as u32,
            self.constants.len() as u32,
            self.arguments,
            locals,
            self.closures.len() as u32,
        );
        let header = UnverifiedFunctionHeader::new(
            self.flags,
            self.mode,
            self.defined.unwrap_or(self.arguments),
            self.captures.len() as u32,
        );
        let kinds: Vec<CompilerConstantKind> = self
            .constants
            .iter()
            .map(|constant| match constant {
                CompilerConstant::Value => CompilerConstantKind::Value,
                CompilerConstant::Function(_) => CompilerConstantKind::Function,
            })
            .collect();
        let body = UnverifiedCompilerFunctionBody::new(self.bytecode.clone(), domains, header)
            .with_constant_layout(CompilerConstantLayout::new(kinds.into()))
            .with_capture_layout(CompilerCaptureLayout::new(self.captures.clone().into()));
        let flow = match verify_compiler_control_flow(body, VerificationLimits::untrusted()) {
            Ok(flow) => flow,
            Err(error) => panic!("{}", error.message()),
        };
        let atoms = self
            .atoms
            .iter()
            .map(|text| {
                CompilerAtom::new(
                    CompilerString::new(text.encode_utf16().collect(), false),
                    self.reserved_atoms,
                )
            })
            .collect();
        let sources = self.closures.iter().map(|closure| closure.source()).collect();
        VerifiedCompilerFunction::new(flow, self.constants.clone(), atoms, sources, 0)
    }
}

fn no_findings() -> FunctionFindings {
    FunctionFindings {
        followed_bindings: 0,
        instance_initializer_sequences: Vec::new(),
        binding_opcodes: Ok(()),
        binding_transfers: Ok(0),
        requirements: Vec::new(),
    }
}

fn findings(count: usize) -> GraphFindings {
    GraphFindings {
        functions: (0..count).map(|_| no_findings()).collect(),
        class_field_keys: Ok(()),
        inferred_names: Ok(()),
        method_templates: Ok(()),
    }
}

fn input_of(parts: &[Part]) -> UnverifiedCompilerBytecodeGraph {
    let text: Arc<str> = TEXT.into();
    let display_name: Arc<str> = "script.js".into();
    let graph = VerifiedCompilerFunctionGraph::new(
        FunctionTemplateId::new(0),
        parts.iter().map(|part| part.compiled()).collect(),
        3,
    );
    let metadata: Vec<UnverifiedFunctionMetadata> =
        parts.iter().map(|part| part.metadata(&text, &display_name)).collect();
    UnverifiedCompilerBytecodeGraph::new(Arc::new(graph), metadata.into())
}

fn limits() -> BytecodeGraphVerificationLimits {
    BytecodeGraphVerificationLimits::untrusted()
}

fn verify(parts: &[Part]) -> Result<VerifiedBytecode, BytecodeVerificationError> {
    verify_compiler_bytecode_graph(input_of(parts), limits(), &findings(parts.len()))
}

fn failure(parts: &[Part]) -> (Option<u32>, BytecodeVerificationErrorKind) {
    match verify(parts) {
        Ok(_) => panic!("accepted"),
        Err(error) => (error.function.map(|id| id.get()), error.kind),
    }
}

fn failure_with_metadata(
    part: Part,
    change: fn(UnverifiedFunctionMetadata) -> UnverifiedFunctionMetadata,
) -> BytecodeVerificationErrorKind {
    let text: Arc<str> = TEXT.into();
    let display_name: Arc<str> = "script.js".into();
    let graph = VerifiedCompilerFunctionGraph::new(
        FunctionTemplateId::new(0),
        vec![part.compiled()],
        0,
    );
    let metadata = vec![change(part.metadata(&text, &display_name))];
    let input = UnverifiedCompilerBytecodeGraph::new(Arc::new(graph), metadata.into());
    match verify_compiler_bytecode_graph(input, limits(), &findings(1)) {
        Ok(_) => panic!("accepted"),
        Err(error) => error.kind,
    }
}

fn op(opcode: FinalOpcode) -> u8 {
    opcode.encoded_byte()
}

fn completing() -> Vec<u8> {
    vec![op(FinalOpcode::Undefined), op(FinalOpcode::Return)]
}

fn var_policy() -> CompilerBindingPolicy {
    CompilerBindingPolicy::new(
        CompilerBindingKind::Var,
        CompilerInitializationPolicy::UndefinedAtInstantiation,
        CompilerWritePolicy::Mutable,
        false,
    )
}

fn function_policy() -> CompilerBindingPolicy {
    CompilerBindingPolicy::new(
        CompilerBindingKind::Function,
        CompilerInitializationPolicy::FunctionAtInstantiation,
        CompilerWritePolicy::Mutable,
        false,
    )
}

fn const_policy() -> CompilerBindingPolicy {
    CompilerBindingPolicy::new(
        CompilerBindingKind::Const,
        CompilerInitializationPolicy::AtDeclaration,
        CompilerWritePolicy::Immutable,
        true,
    )
}

fn local(atom: u32, policy: CompilerBindingPolicy, cell: Option<u32>) -> VariableDefinition {
    VariableDefinition::new(Some(AtomPoolIndex::new(atom)), ScopeLink::End, policy, false, cell)
}

#[test]
fn a_script_is_accepted() {
    let bytecode = verify(&[Part::script(completing())]).unwrap_or_else(|e| panic!("{:?}", e));
    assert_eq!(bytecode.root_id(), FunctionTemplateId::new(0));
    assert_eq!(bytecode.functions().len(), 1);
    assert_eq!(
        bytecode.root().metadata().executable_kind(),
        CompilerExecutableKind::GlobalScript
    );
    assert_eq!(bytecode.requirements(), &[ExecutionRequirement::CoreValues]);
    assert!(bytecode.module().is_none());
    assert!(!bytecode.root().lexical_derived_this());
    assert!(bytecode.function(FunctionTemplateId::new(1)).is_none());
    let usage = bytecode.usage();
    assert_eq!(usage.source_bytes(), TEXT.len() as u64 + 9);
    assert_eq!(usage.source_mappings(), 2);
    assert_eq!(usage.variable_definitions(), 0);
    assert!(usage.policy_transfers() >= 3);
    assert_eq!(bytecode.root().metadata().source().display_name(), "script.js");
    assert_eq!(bytecode.root().metadata().source().function_source(), TEXT);
}

#[test]
fn records_must_match_functions() {
    let input = input_of(&[Part::script(completing())]);
    let empty: Vec<UnverifiedFunctionMetadata> = Vec::new();
    let input = UnverifiedCompilerBytecodeGraph::new(input.graph, empty.into());
    let outcome = verify_compiler_bytecode_graph(input, limits(), &findings(1));
    assert_eq!(
        outcome.err().unwrap().kind,
        BytecodeVerificationErrorKind::FunctionMetadataCountMismatch { functions: 1, metadata: 0 }
    );
}

#[test]
fn findings_must_match_functions() {
    let outcome =
        verify_compiler_bytecode_graph(input_of(&[Part::script(completing())]), limits(), &findings(2));
    let error = outcome.err().unwrap();
    assert_eq!(error.function, None);
    assert_eq!(
        error.kind,
        BytecodeVerificationErrorKind::FunctionMetadataCountMismatch { functions: 1, metadata: 2 }
    );
}

#[test]
fn every_function_but_the_root_has_one_owner() {
    let (function, kind) = failure(&[Part::script(completing()), Part::function(completing())]);
    assert_eq!(function, Some(1));
    assert_eq!(
        kind,
        BytecodeVerificationErrorKind::FunctionTemplateOwnershipMismatch {
            child: FunctionTemplateId::new(1),
            incoming: 0
        }
    );
    let mut root = Part::script(completing());
    root.constants = vec![
        CompilerConstant::Function(FunctionTemplateId::new(1)),
        CompilerConstant::Function(FunctionTemplateId::new(1)),
    ];
    let (_, kind) = failure(&[root, Part::function(completing())]);
    assert_eq!(
        kind,
        BytecodeVerificationErrorKind::FunctionTemplateOwnershipMismatch {
            child: FunctionTemplateId::new(1),
            incoming: 2
        }
    );
    let mut root = Part::script(completing());
    root.constants = vec![CompilerConstant::Function(FunctionTemplateId::new(7))];
    let (function, kind) = failure(&[root]);
    assert_eq!(function, Some(7));
    assert_eq!(
        kind,
        BytecodeVerificationErrorKind::FunctionTemplateOwnershipMismatch {
            child: FunctionTemplateId::new(7),
            incoming: 0
        }
    );
}

#[test]
fn a_nested_function_is_accepted() {
    let mut root = Part::script(vec![op(FinalOpcode::FClosure8), 0, op(FinalOpcode::Return)]);
    root.constants = vec![CompilerConstant::Function(FunctionTemplateId::new(1))];
    let bytecode =
        verify(&[root, Part::function(completing())]).unwrap_or_else(|e| panic!("{:?}", e));
    assert_eq!(bytecode.functions().len(), 2);
    assert_eq!(
        bytecode.function(FunctionTemplateId::new(1)).unwrap().metadata().executable_kind(),
        CompilerExecutableKind::OrdinaryFunction
    );
}

#[test]
fn shared_texts_are_charged_once() {
    let nested = || {
        let mut root = Part::script(completing());
        root.constants = vec![CompilerConstant::Function(FunctionTemplateId::new(1))];
        vec![root, Part::function(completing())]
    };
    let shared = verify(&nested()).unwrap_or_else(|e| panic!("{:?}", e));
    assert_eq!(shared.usage().source_bytes(), TEXT.len() as u64 + 9);

    let parts = nested();
    let graph = VerifiedCompilerFunctionGraph::new(
        FunctionTemplateId::new(0),
        parts.iter().map(|part| part.compiled()).collect(),
        3,
    );
    let metadata: Vec<UnverifiedFunctionMetadata> =
        parts.iter().map(|part| part.metadata(&TEXT.into(), &"script.js".into())).collect();
    let input = UnverifiedCompilerBytecodeGraph::new(Arc::new(graph), metadata.into());
    let apart = verify_compiler_bytecode_graph(input, limits(), &findings(2))
        .unwrap_or_else(|e| panic!("{:?}", e));
    assert_eq!(apart.usage().source_bytes(), 2 * (TEXT.len() as u64 + 9));
}

#[test]
fn the_first_handle_of_each_allocation_is_counted() {
    let groups = [0, 1, 0, 2, 1, 0];
    let counted = count_first_handles(6, |j: usize, i: usize| groups[j] == groups[i]).unwrap();
    assert_eq!(counted, vec![true, true, false, true, false, false]);
    let apart = count_first_handles(3, |_: usize, _: usize| false).unwrap();
    assert_eq!(apart, vec![true, true, true]);
    let together = count_first_handles(3, |_: usize, _: usize| true).unwrap();
    assert_eq!(together, vec![true, false, false]);
    assert!(count_first_handles(0, |_: usize, _: usize| true).unwrap().is_empty());
}

#[test]
fn handles_are_told_apart_by_their_allocations() {
    let part = Part::script(completing());
    let text: Arc<str> = TEXT.into();
    let equal: Arc<str> = TEXT.into();
    let name: Arc<str> = "script.js".into();
    let metadata = vec![
        part.metadata(&text, &name),
        part.metadata(&equal, &name),
        part.metadata(&text, &name),
    ];
    let retained = find_retained_texts(&metadata).unwrap_or_else(|e| panic!("{:?}", e));
    assert_eq!(retained.texts, vec![true, true, false]);
    assert_eq!(retained.names, vec![true, false, false]);
}

#[test]
fn verified_bytecode_is_cloned_whole() {
    let bytecode = verify(&[Part::script(completing())]).unwrap_or_else(|e| panic!("{:?}", e));
    let copy = bytecode.clone();
    assert_eq!(copy, bytecode);
    assert_eq!(bytecode.root().metadata().clone(), *bytecode.root().metadata());
    assert_eq!(
        bytecode.root().metadata().source().clone(),
        *bytecode.root().metadata().source()
    );
}

#[test]
fn counted_texts_decide_the_source_bytes() {
    let retained = RetainedTexts { texts: vec![true], names: vec![false] };
    let bytecode = verify_compiler_bytecode_graph_with_texts(
        input_of(&[Part::script(completing())]),
        limits(),
        &findings(1),
        &retained,
    )
    .unwrap_or_else(|e| panic!("{:?}", e));
    assert_eq!(bytecode.usage().source_bytes(), TEXT.len() as u64);
}

#[test]
fn graph_limits_are_enforced() {
    let tight = limits().with_max_source_bytes(4);
    let outcome = verify_compiler_bytecode_graph(
        input_of(&[Part::script(completing())]),
        tight,
        &findings(1),
    );
    assert_eq!(
        outcome.err().unwrap().kind,
        BytecodeVerificationErrorKind::LimitExceeded {
            resource: BytecodeGraphResource::SourceBytes,
            limit: 4,
            observed: TEXT.len() as u64
        }
    );
    let tight = limits().with_max_policy_transfers(2);
    let outcome = verify_compiler_bytecode_graph(
        input_of(&[Part::script(completing())]),
        tight,
        &findings(1),
    );
    assert_eq!(
        outcome.err().unwrap().kind,
        BytecodeVerificationErrorKind::LimitExceeded {
            resource: BytecodeGraphResource::PolicyTransfers,
            limit: 2,
            observed: 3
        }
    );
    let tight = limits().with_max_frame_state_entries(9);
    let mut found = findings(1);
    found.functions[0].followed_bindings = 5;
    let outcome =
        verify_compiler_bytecode_graph(input_of(&[Part::script(completing())]), tight, &found);
    assert_eq!(
        outcome.err().unwrap().kind,
        BytecodeVerificationErrorKind::LimitExceeded {
            resource: BytecodeGraphResource::FrameStateEntries,
            limit: 9,
            observed: 10
        }
    );
}

#[test]
fn findings_of_other_passes_decide() {
    let refusal = BytecodeVerificationError::function(
        FunctionTemplateId::new(0),
        BytecodeVerificationErrorKind::DefineMethodTargetMismatch { pc: BytecodePc::new(1) },
    );
    let run = |found: GraphFindings| {
        verify_compiler_bytecode_graph(input_of(&[Part::script(completing())]), limits(), &found)
    };
    let mut found = findings(1);
    found.functions[0].binding_opcodes = Err(refusal);
    assert_eq!(run(found).err(), Some(refusal));
    let mut found = findings(1);
    found.functions[0].binding_transfers = Err(refusal);
    assert_eq!(run(found).err(), Some(refusal));
    let mut found = findings(1);
    found.class_field_keys = Err(refusal);
    assert_eq!(run(found).err(), Some(refusal));
    let mut found = findings(1);
    found.inferred_names = Err(refusal);
    assert_eq!(run(found).err(), Some(refusal));
    let mut found = findings(1);
    found.method_templates = Err(refusal);
    assert_eq!(run(found).err(), Some(refusal));
    let mut found = findings(1);
    found.functions[0].binding_transfers = Ok(11);
    let before = run(findings(1)).unwrap_or_else(|e| panic!("{:?}", e)).usage();
    let after = run(found).unwrap_or_else(|e| panic!("{:?}", e)).usage();
    assert_eq!(after.policy_transfers(), before.policy_transfers() + 11);
}

#[test]
fn requirements_are_listed_in_order_and_once() {
    let mut found = findings(1);
    found.functions[0].requirements = vec![
        ExecutionRequirement::Calls,
        ExecutionRequirement::Numbers,
        ExecutionRequirement::Calls,
        ExecutionRequirement::CoreValues,
    ];
    let bytecode = verify_compiler_bytecode_graph(
        input_of(&[Part::script(completing())]),
        limits(),
        &found,
    )
    .unwrap_or_else(|e| panic!("{:?}", e));
    assert_eq!(
        bytecode.requirements(),
        &[
            ExecutionRequirement::CoreValues,
            ExecutionRequirement::Numbers,
            ExecutionRequirement::Calls
        ]
    );
}

#[test]
fn sources_are_checked() {
    let script = || Part::script(completing());
    assert_eq!(
        failure_with_metadata(script(), |mut m| {
            m.source.display_name = "".into();
            m
        }),
        BytecodeVerificationErrorKind::EmptySourceDisplayName
    );
    // Byte 6 lies inside the second character of the name.
    let inside = SourceByteSpan::new(6, 8);
    assert_eq!(
        failure_with_metadata(script(), |mut m| {
            m.source.function_span = SourceByteSpan::new(6, 8);
            m
        }),
        BytecodeVerificationErrorKind::InvalidSourceSpan { span: inside }
    );
    assert_eq!(
        failure_with_metadata(script(), |mut m| {
            m.source.name_span = Some(SourceByteSpan::new(0, 3));
            m
        }),
        BytecodeVerificationErrorKind::FunctionNameSourceMismatch
    );
    assert_eq!(
        failure_with_metadata(script(), |mut m| {
            m.source.mappings = vec![m.source.mappings[0]].into();
            m
        }),
        BytecodeVerificationErrorKind::SourceMappingCountMismatch { instructions: 2, mappings: 1 }
    );
    assert_eq!(
        failure_with_metadata(script(), |mut m| {
            m.source.mappings = vec![m.source.mappings[0], m.source.mappings[0]].into();
            m
        }),
        BytecodeVerificationErrorKind::SourcePcMismatch {
            mapping: 1,
            declared: BytecodePc::new(0),
            actual: BytecodePc::new(1)
        }
    );
    assert_eq!(
        failure_with_metadata(script(), |mut m| {
            m.source.function_span = SourceByteSpan::new(0, 3);
            m
        }),
        BytecodeVerificationErrorKind::InstructionSourceOutsideFunction { mapping: 0 }
    );
}

#[test]
fn strict_mode_offsets_are_checked_and_found() {
    let script = || Part::script(completing());
    assert_eq!(
        failure_with_metadata(script(), |mut m| {
            m.source = m
                .source
                .with_strict_mode_pcs(vec![BytecodePc::new(1), BytecodePc::new(0)].into());
            m
        }),
        BytecodeVerificationErrorKind::StrictModePcNotIncreasing {
            index: 1,
            previous: BytecodePc::new(1),
            current: BytecodePc::new(0)
        }
    );
    assert_eq!(
        failure_with_metadata(script(), |mut m| {
            m.source = m.source.with_strict_mode_pcs(vec![BytecodePc::new(5)].into());
            m
        }),
        BytecodeVerificationErrorKind::StrictModePcNotInstruction {
            index: 0,
            pc: BytecodePc::new(5)
        }
    );
    assert_eq!(
        failure_with_metadata(script(), |mut m| {
            m.source = m.source.with_strict_mode_pcs(
                vec![BytecodePc::new(0), BytecodePc::new(1), BytecodePc::new(2)].into(),
            );
            m
        }),
        BytecodeVerificationErrorKind::StrictModeInstructionCountOutOfBounds {
            strict_instructions: 3,
            instructions: 2
        }
    );
    let part = script();
    let graph =
        VerifiedCompilerFunctionGraph::new(FunctionTemplateId::new(0), vec![part.compiled()], 0);
    let mut metadata = part.metadata(&TEXT.into(), &"script.js".into());
    metadata.source = metadata.source.with_strict_mode_pcs(vec![BytecodePc::new(1)].into());
    let input = UnverifiedCompilerBytecodeGraph::new(Arc::new(graph), vec![metadata].into());
    let bytecode = verify_compiler_bytecode_graph(input, limits(), &findings(1))
        .unwrap_or_else(|e| panic!("{:?}", e));
    let root = bytecode.root();
    let source = root.metadata().source();
    assert!(source.is_strict_mode_pc(BytecodePc::new(1)));
    assert!(!source.is_strict_mode_pc(BytecodePc::new(0)));
}

#[test]
fn kinds_and_headers_must_fit() {
    let mut script = Part::script(completing());
    script.flags = 0x0643;
    assert_eq!(failure(&[script]).1, BytecodeVerificationErrorKind::UnsupportedFunctionHeader);
    let mut root = Part::script(completing());
    root.constants = vec![CompilerConstant::Function(FunctionTemplateId::new(1))];
    assert_eq!(
        failure(&[root, Part::script(completing())]).1,
        BytecodeVerificationErrorKind::GlobalScriptNotRoot
    );
    let mut named = Part::script(completing());
    named.atoms = vec!["f"];
    named.name = Some(0);
    assert_eq!(
        failure(&[named]).1,
        BytecodeVerificationErrorKind::GlobalScriptHasFunctionName
    );
}

#[test]
fn variable_policies_are_checked() {
    let mut script = Part::script(completing());
    script.atoms = vec!["x"];
    let bad = CompilerBindingPolicy::new(
        CompilerBindingKind::Var,
        CompilerInitializationPolicy::AtDeclaration,
        CompilerWritePolicy::Mutable,
        false,
    );
    script.variables = vec![local(0, bad, None)];
    assert_eq!(
        failure(&[script]).1,
        BytecodeVerificationErrorKind::BindingPolicyViolation {
            slot: BindingSlot::Local(0),
            pc: None,
            reason: BindingPolicyViolationReason::InvalidDeclarationPolicy
        }
    );
    let mut script = Part::script(completing());
    script.atoms = vec!["x"];
    script.variables = vec![local(9, var_policy(), None)];
    assert_eq!(
        failure(&[script]).1,
        BytecodeVerificationErrorKind::MetadataAtomOutOfBounds {
            field: MetadataAtomField::VariableName(0),
            index: 9,
            len: 1
        }
    );
}

#[test]
fn function_declarations_are_initialized_once_at_entry() {
    let declaring = |bytecode: Vec<u8>| {
        let mut script = Part::script(bytecode);
        script.atoms = vec!["f"];
        script.constants = vec![CompilerConstant::Function(FunctionTemplateId::new(1))];
        script.variables = vec![local(0, function_policy(), None).with_function_initializer(0)];
        let mut child = Part::function(completing());
        child.atoms = vec!["f"];
        child.name = Some(0);
        vec![script, child]
    };
    let entry = vec![op(FinalOpcode::FClosure8), 0, op(FinalOpcode::PutLoc0)];
    let mut good = entry.clone();
    good.extend(completing());
    verify(&declaring(good)).unwrap_or_else(|e| panic!("{:?}", e));

    let mut late = vec![op(FinalOpcode::Nop)];
    late.extend(entry.clone());
    late.extend(completing());
    assert_eq!(
        failure(&declaring(late)).1,
        BytecodeVerificationErrorKind::FunctionInitializerPlacementMismatch {
            definition: 0,
            pc: BytecodePc::new(1)
        }
    );
    assert_eq!(
        failure(&declaring(completing())).1,
        BytecodeVerificationErrorKind::FunctionInitializerOpcodeMismatch {
            definition: 0,
            constant: 0,
            matches: 0
        }
    );
    let mut twice = entry.clone();
    twice.extend(entry);
    twice.extend(completing());
    assert_eq!(
        failure(&declaring(twice)).1,
        BytecodeVerificationErrorKind::FunctionInitializerOpcodeMismatch {
            definition: 0,
            constant: 0,
            matches: 2
        }
    );
}

#[test]
fn initialized_functions_bear_the_names_of_their_bindings() {
    let mut bytecode = vec![op(FinalOpcode::FClosure8), 0, op(FinalOpcode::PutLoc0)];
    bytecode.extend(completing());
    let mut script = Part::script(bytecode);
    script.atoms = vec!["f"];
    script.constants = vec![CompilerConstant::Function(FunctionTemplateId::new(1))];
    script.variables = vec![local(0, function_policy(), None).with_function_initializer(0)];
    let mut child = Part::function(completing());
    child.atoms = vec!["g"];
    child.name = Some(0);
    assert_eq!(
        failure(&[script, child]).1,
        BytecodeVerificationErrorKind::FunctionInitializerMetadataMismatch {
            definition: 0,
            constant: Some(0)
        }
    );
}

fn capturing(name: &'static str) -> Vec<Part> {
    let mut root = Part::script(completing());
    root.atoms = vec!["x"];
    root.constants = vec![CompilerConstant::Function(FunctionTemplateId::new(1))];
    root.variables = vec![local(0, var_policy(), Some(0))];
    root.captures = vec![CompilerCapturedBinding::FunctionLocal(0)];
    let mut child = Part::function(completing());
    child.atoms = vec![name];
    child.closures = vec![ClosureVariableDefinition::new(
        Some(AtomPoolIndex::new(0)),
        var_policy(),
        CompilerClosureSource::ParentVariableReference(0),
    )];
    vec![root, child]
}

#[test]
fn children_close_over_what_parents_hand_on() {
    verify(&capturing("x")).unwrap_or_else(|e| panic!("{:?}", e));
    let (function, kind) = failure(&capturing("y"));
    assert_eq!(function, Some(1));
    assert_eq!(
        kind,
        BytecodeVerificationErrorKind::ClosureMetadataMismatch {
            child: FunctionTemplateId::new(1),
            closure: 0
        }
    );
}

#[test]
fn realm_globals_enter_at_the_root_of_a_script() {
    let global = CompilerBindingPolicy::new(
        CompilerBindingKind::GlobalReference,
        CompilerInitializationPolicy::ConstructorRealmLookup,
        CompilerWritePolicy::Mutable,
        false,
    );
    let closure = ClosureVariableDefinition::realm_global(
        Some(AtomPoolIndex::new(0)),
        global,
        CompilerClosureSource::ConstructorRealmGlobal(AtomPoolIndex::new(0)),
    );
    let mut script = Part::script(completing());
    script.atoms = vec!["x"];
    script.closures = vec![closure];
    verify(&[script]).unwrap_or_else(|e| panic!("{:?}", e));

    let mut root = Part::script(completing());
    root.constants = vec![CompilerConstant::Function(FunctionTemplateId::new(1))];
    let mut child = Part::function(completing());
    child.atoms = vec!["x"];
    child.closures = vec![closure];
    assert_eq!(
        failure(&[root, child]).1,
        BytecodeVerificationErrorKind::ConstructorRealmGlobalSourceRequiresDynamicFunctionScript {
            closure: 0
        }
    );
}

#[test]
fn realm_global_functions_are_initialized_in_order() {
    let mut bytecode = vec![op(FinalOpcode::FClosure8), 0, op(FinalOpcode::PutVar)];
    bytecode.extend_from_slice(&0u16.to_le_bytes());
    bytecode.extend(completing());
    let declaring = |bytecode: Vec<u8>| {
        let mut script = Part::script(bytecode);
        script.atoms = vec!["f"];
        script.constants = vec![CompilerConstant::Function(FunctionTemplateId::new(1))];
        script.closures = vec![ClosureVariableDefinition::realm_global(
            Some(AtomPoolIndex::new(0)),
            function_policy(),
            CompilerClosureSource::ConstructorRealmGlobal(AtomPoolIndex::new(0)),
        )
        .with_function_initializer(0)];
        let mut child = Part::function(completing());
        child.atoms = vec!["f"];
        child.name = Some(0);
        vec![script, child]
    };
    verify(&declaring(bytecode.clone())).unwrap_or_else(|e| panic!("{:?}", e));
    let mut late = vec![op(FinalOpcode::Nop)];
    late.extend(bytecode);
    assert_eq!(
        failure(&declaring(late)).1,
        BytecodeVerificationErrorKind::RealmGlobalFunctionInitializerPlacementMismatch {
            closure: 0,
            pc: BytecodePc::new(1)
        }
    );
    assert_eq!(
        failure(&declaring(completing())).1,
        BytecodeVerificationErrorKind::RealmGlobalFunctionInitializerOpcodeMismatch {
            closure: 0,
            constant: 0,
            matches: 0
        }
    );
}

fn module_input(
    bindings: Vec<UnverifiedModuleBindingDescriptor>,
    closures: Vec<ClosureVariableDefinition>,
) -> UnverifiedCompilerBytecodeGraph {
    let mut root = Part::script(completing());
    root.kind = CompilerExecutableKind::Module;
    root.mode = 1;
    root.atoms = vec!["x", "./lib.js"];
    root.closures = closures;
    let requests = vec![ModuleRequestDescriptor::new(AtomPoolIndex::new(1), false)];
    input_of(&[root]).with_module(Arc::new(UnverifiedModuleDeclarationRecord::new(
        bindings.into(),
        requests.into(),
    )))
}

fn module_cell(policy: CompilerBindingPolicy) -> ClosureVariableDefinition {
    ClosureVariableDefinition::new(
        Some(AtomPoolIndex::new(0)),
        policy,
        CompilerClosureSource::Module { index: 0 },
    )
}

fn module_failure(
    bindings: Vec<UnverifiedModuleBindingDescriptor>,
    closures: Vec<ClosureVariableDefinition>,
) -> BytecodeVerificationErrorKind {
    let outcome =
        verify_compiler_bytecode_graph(module_input(bindings, closures), limits(), &findings(1));
    match outcome {
        Ok(_) => panic!("accepted"),
        Err(error) => error.kind,
    }
}

#[test]
fn module_records_fit_their_root() {
    let name = AtomPoolIndex::new(0);
    let imported = UnverifiedModuleBindingDescriptor::new(
        name,
        0,
        const_policy(),
        ModuleBindingOrigin::Import,
    )
    .with_import(ModuleImportName::named(0, name));
    let bytecode = verify_compiler_bytecode_graph(
        module_input(vec![imported], vec![module_cell(const_policy())]),
        limits(),
        &findings(1),
    )
    .unwrap_or_else(|e| panic!("{:?}", e));
    let module = bytecode.module().unwrap();
    assert_eq!(module.bindings().len(), 1);
    assert_eq!(module.bindings()[0].slot(), 0);
    assert_eq!(module.bindings()[0].import().unwrap().request(), 0);
    assert_eq!(module.requests().len(), 1);
    assert_eq!(
        bytecode.requirements(),
        &[ExecutionRequirement::CoreValues, ExecutionRequirement::ModuleBindings]
    );

    let cell = || vec![module_cell(const_policy())];
    let far = UnverifiedModuleBindingDescriptor { slot: 4, ..imported };
    assert_eq!(
        module_failure(vec![far], cell()),
        BytecodeVerificationErrorKind::ModuleBindingSlotOutOfBounds {
            binding: 0,
            slot: 4,
            closures: 1
        }
    );
    assert_eq!(
        module_failure(vec![imported, imported], cell()),
        BytecodeVerificationErrorKind::ModuleBindingSlotOrder { binding: 1, slot: 0 }
    );
    assert_eq!(
        module_failure(vec![imported], vec![module_cell(var_policy())]),
        BytecodeVerificationErrorKind::ModuleBindingSlotMismatch { binding: 0, slot: 0 }
    );
    let unimported = UnverifiedModuleBindingDescriptor { import: None, ..imported };
    assert_eq!(
        module_failure(vec![unimported], cell()),
        BytecodeVerificationErrorKind::ModuleBindingPolicyMismatch { binding: 0 }
    );
    let initialized = imported.with_initializer(0);
    assert_eq!(
        module_failure(vec![initialized], cell()),
        BytecodeVerificationErrorKind::ModuleBindingInitializerMismatch {
            binding: 0,
            constant: Some(0)
        }
    );
    let requesting = imported.with_import(ModuleImportName::default(3));
    assert_eq!(
        module_failure(vec![requesting], cell()),
        BytecodeVerificationErrorKind::ModuleImportRequestOutOfBounds {
            binding: 0,
            request: 3,
            requests: 1
        }
    );
}

#[test]
fn only_modules_have_records() {
    let mut root = Part::script(completing());
    root.kind = CompilerExecutableKind::Module;
    root.mode = 1;
    assert_eq!(
        failure(&[root]).1,
        BytecodeVerificationErrorKind::ModuleDeclarationRecordMissing
    );
    let empty: Vec<UnverifiedModuleBindingDescriptor> = Vec::new();
    let none: Vec<ModuleRequestDescriptor> = Vec::new();
    let input = input_of(&[Part::script(completing())]).with_module(Arc::new(
        UnverifiedModuleDeclarationRecord::new(empty.into(), none.into()),
    ));
    assert_eq!(
        verify_compiler_bytecode_graph(input, limits(), &findings(1)).err().unwrap().kind,
        BytecodeVerificationErrorKind::ModuleDeclarationRecordUnexpected
    );
}

#[test]
fn iteration_markers_do_not_escape() {
    // 0: undefined, 1: for_in_start, 2: return
    let escaping = vec![
        op(FinalOpcode::Undefined),
        op(FinalOpcode::ForInStart),
        op(FinalOpcode::Return),
    ];
    assert_eq!(
        failure(&[Part::script(escaping)]).1,
        BytecodeVerificationErrorKind::ForInIteratorStackMismatch {
            pc: BytecodePc::new(2),
            opcode: FinalOpcode::Return
        }
    );
    // 0: undefined, 1: for_in_start, 2: goto8 5, 4: drop, 5: for_in_next,
    // 6: if_false8 4, 8: drop, 9: drop, 10: undefined, 11: return
    let looping = vec![
        op(FinalOpcode::Undefined),
        op(FinalOpcode::ForInStart),
        op(FinalOpcode::Goto8),
        2,
        op(FinalOpcode::Drop),
        op(FinalOpcode::ForInNext),
        op(FinalOpcode::IfFalse8),
        0xfd,
        op(FinalOpcode::Drop),
        op(FinalOpcode::Drop),
        op(FinalOpcode::Undefined),
        op(FinalOpcode::Return),
    ];
    let bytecode = verify(&[Part::script(looping)]).unwrap_or_else(|e| panic!("{:?}", e));
    assert!(bytecode.usage().frame_state_entries() > 0);
}

#[test]
fn caught_exceptions_replace_their_marker() {
    // 0: catch 8, 5: drop, 6: undefined, 7: return, 8: drop, 9: undefined, 10: return
    let mut bytecode = vec![op(FinalOpcode::Catch)];
    bytecode.extend_from_slice(&7i32.to_le_bytes());
    bytecode.push(op(FinalOpcode::Drop));
    bytecode.extend(completing());
    bytecode.push(op(FinalOpcode::Drop));
    bytecode.extend(completing());
    verify(&[Part::script(bytecode)]).unwrap_or_else(|e| panic!("{:?}", e));

    // The marker is still there at the exit.
    let mut kept = vec![op(FinalOpcode::Catch)];
    kept.extend_from_slice(&7i32.to_le_bytes());
    kept.push(op(FinalOpcode::Nop));
    kept.push(op(FinalOpcode::Nop));
    kept.push(op(FinalOpcode::Return));
    kept.push(op(FinalOpcode::Drop));
    kept.extend(completing());
    assert_eq!(
        failure(&[Part::script(kept)]).1,
        BytecodeVerificationErrorKind::CatchMarkerStackMismatch {
            pc: BytecodePc::new(7),
            opcode: FinalOpcode::Return
        }
    );
}

fn defining(target: FinalOpcode, flags: u8) -> Vec<Part> {
    let mut bytecode = vec![op(target), op(FinalOpcode::FClosure8), 0];
    bytecode.push(op(FinalOpcode::DefineMethod));
    bytecode.extend_from_slice(&0u32.to_le_bytes());
    bytecode.push(flags);
    bytecode.push(op(FinalOpcode::Return));
    let mut script = Part::script(bytecode);
    script.atoms = vec!["m"];
    script.constants = vec![CompilerConstant::Function(FunctionTemplateId::new(1))];
    let mut method = Part::script(completing());
    method.kind = CompilerExecutableKind::OrdinaryMethod;
    method.flags = 0x0742;
    vec![script, method]
}

#[test]
fn methods_are_defined_on_fresh_objects_only() {
    verify(&defining(FinalOpcode::Object, 4)).unwrap_or_else(|e| panic!("{:?}", e));
    assert_eq!(
        failure(&defining(FinalOpcode::Object, 0)).1,
        BytecodeVerificationErrorKind::DefineMethodTargetMismatch { pc: BytecodePc::new(3) }
    );
    assert_eq!(
        failure(&defining(FinalOpcode::Undefined, 4)).1,
        BytecodeVerificationErrorKind::DefineMethodTargetMismatch { pc: BytecodePc::new(3) }
    );
}

#[test]
fn values_are_appended_to_arrays_only() {
    let bytecode = vec![
        op(FinalOpcode::Undefined),
        op(FinalOpcode::Push0),
        op(FinalOpcode::Undefined),
        op(FinalOpcode::Append),
        op(FinalOpcode::Drop),
        op(FinalOpcode::Return),
    ];
    assert_eq!(
        failure(&[Part::script(bytecode)]).1,
        BytecodeVerificationErrorKind::AppendOperandStackMismatch {
            pc: BytecodePc::new(3),
            opcode: FinalOpcode::Append
        }
    );
}

#[test]
fn finally_subroutines_return_behind_their_calls() {
    // 0: undefined, 1: gosub 7, 6: return, 7: ret
    let mut bytecode = vec![op(FinalOpcode::Undefined), op(FinalOpcode::Gosub)];
    bytecode.extend_from_slice(&5i32.to_le_bytes());
    bytecode.push(op(FinalOpcode::Return));
    bytecode.push(op(FinalOpcode::Ret));
    verify(&[Part::script(bytecode.clone())]).unwrap_or_else(|e| panic!("{:?}", e));

    // The subroutine may not throw its return address away and return itself.
    *bytecode.last_mut().unwrap() = op(FinalOpcode::Return);
    assert_eq!(
        failure(&[Part::script(bytecode)]).1,
        BytecodeVerificationErrorKind::FinallyReturnStackMismatch {
            pc: BytecodePc::new(7),
            opcode: FinalOpcode::Return
        }
    );
}

#[test]
fn arrows_use_the_home_object_of_methods_only() {
    let arrow = || {
        let mut arrow = Part::script(vec![
            op(FinalOpcode::SpecialObject),
            5,
            op(FinalOpcode::Return),
        ]);
        arrow.kind = CompilerExecutableKind::OrdinaryArrow;
        arrow.flags = 0x0442;
        arrow
    };
    let mut root = Part::script(completing());
    root.constants = vec![CompilerConstant::Function(FunctionTemplateId::new(1))];
    let (function, kind) = failure(&[root, arrow()]);
    assert_eq!(function, Some(1));
    assert_eq!(
        kind,
        BytecodeVerificationErrorKind::UnsupportedCompilerOpcode {
            pc: BytecodePc::new(0),
            opcode: FinalOpcode::SpecialObject
        }
    );
    let mut root = Part::script(completing());
    root.constants = vec![CompilerConstant::Function(FunctionTemplateId::new(1))];
    let mut method = Part::script(completing());
    method.kind = CompilerExecutableKind::OrdinaryMethod;
    method.flags = 0x0742;
    method.constants = vec![CompilerConstant::Function(FunctionTemplateId::new(2))];
    let bytecode = verify(&[root, method, arrow()]).unwrap_or_else(|e| panic!("{:?}", e));
    assert!(!bytecode.function(FunctionTemplateId::new(2)).unwrap().lexical_derived_this());
}

#[test]
fn arrows_share_the_derived_this_of_their_constructor_only() {
    let arrow = || {
        let mut arrow = of_kind(CompilerExecutableKind::OrdinaryArrow);
        arrow.flags = 0x0442;
        arrow
    };
    let mut root = Part::script(completing());
    root.constants = vec![CompilerConstant::Function(FunctionTemplateId::new(1))];
    let mut constructor = of_kind(CompilerExecutableKind::ClassConstructor);
    constructor.flags = 0x07ce;
    constructor.mode = 1;
    constructor.constants = vec![CompilerConstant::Function(FunctionTemplateId::new(2))];
    let bytecode = verify(&[root, constructor, arrow()]).unwrap_or_else(|e| panic!("{:?}", e));
    assert!(!bytecode.root().lexical_derived_this());
    assert!(!bytecode.function(FunctionTemplateId::new(1)).unwrap().lexical_derived_this());
    assert!(bytecode.function(FunctionTemplateId::new(2)).unwrap().lexical_derived_this());
    let mut evaluated = of_kind(CompilerExecutableKind::DirectEvalScript);
    evaluated.flags = 0x05c0;
    evaluated.constants = vec![CompilerConstant::Function(FunctionTemplateId::new(1))];
    let bytecode = verify(&[evaluated, arrow()]).unwrap_or_else(|e| panic!("{:?}", e));
    assert!(!bytecode.function(FunctionTemplateId::new(1)).unwrap().lexical_derived_this());
}

#[test]
fn usage_counts_the_records_of_all_functions() {
    let mut root = Part::script(vec![op(FinalOpcode::FClosure8), 0, op(FinalOpcode::Return)]);
    root.constants = vec![CompilerConstant::Function(FunctionTemplateId::new(1))];
    root.atoms = vec!["a"];
    root.variables = vec![local(0, var_policy(), None)];
    let bytecode =
        verify(&[root, Part::function(completing())]).unwrap_or_else(|e| panic!("{:?}", e));
    let usage = bytecode.usage();
    assert_eq!(usage.variable_definitions(), 1);
    assert_eq!(usage.closure_definitions(), 0);
    assert_eq!(usage.source_mappings(), 4);
}

#[test]
fn kinds_default_to_ordinary_functions_and_requirements_are_ordered() {
    assert_eq!(CompilerExecutableKind::default(), CompilerExecutableKind::OrdinaryFunction);
    assert!(ExecutionRequirement::CoreValues < ExecutionRequirement::Numbers);
    assert!(ExecutionRequirement::Numbers < ExecutionRequirement::Strings);
}

fn rooted(child: Part) -> Vec<Part> {
    let mut root = Part::script(completing());
    root.constants = vec![CompilerConstant::Function(FunctionTemplateId::new(1))];
    vec![root, child]
}

fn of_kind(kind: CompilerExecutableKind) -> Part {
    let mut part = Part::script(completing());
    part.kind = kind;
    part.mode = if kind == CompilerExecutableKind::Module { 1 } else { 0 };
    part
}

#[test]
fn scripts_and_modules_are_roots() {
    let cases = [
        (
            CompilerExecutableKind::IndirectEvalScript,
            BytecodeVerificationErrorKind::IndirectEvalScriptNotRoot,
            BytecodeVerificationErrorKind::IndirectEvalScriptHasFunctionName,
        ),
        (
            CompilerExecutableKind::DirectEvalScript,
            BytecodeVerificationErrorKind::DirectEvalScriptNotRoot,
            BytecodeVerificationErrorKind::DirectEvalScriptHasFunctionName,
        ),
        (
            CompilerExecutableKind::DynamicFunctionScript,
            BytecodeVerificationErrorKind::DynamicFunctionScriptNotRoot,
            BytecodeVerificationErrorKind::DynamicFunctionScriptHasFunctionName,
        ),
        (
            CompilerExecutableKind::Module,
            BytecodeVerificationErrorKind::ModuleNotRoot,
            BytecodeVerificationErrorKind::ModuleHasFunctionName,
        ),
    ];
    for (kind, not_root, named) in cases {
        assert_eq!(failure(&rooted(of_kind(kind))), (Some(1), not_root));
        let mut part = of_kind(kind);
        part.atoms = vec!["f"];
        part.name = Some(0);
        assert_eq!(failure(&[part]), (Some(0), named));
    }
}

fn parameter() -> VariableDefinition {
    let policy = CompilerBindingPolicy::new(
        CompilerBindingKind::Parameter,
        CompilerInitializationPolicy::Argument,
        CompilerWritePolicy::Mutable,
        false,
    );
    local(0, policy, None)
}

#[test]
fn scripts_and_modules_take_no_arguments() {
    let cases = [
        (
            CompilerExecutableKind::GlobalScript,
            BytecodeVerificationErrorKind::GlobalScriptHasArguments { defined: 1, arguments: 1 },
        ),
        (
            CompilerExecutableKind::IndirectEvalScript,
            BytecodeVerificationErrorKind::IndirectEvalScriptHasArguments {
                defined: 1,
                arguments: 1,
            },
        ),
        (
            CompilerExecutableKind::DirectEvalScript,
            BytecodeVerificationErrorKind::DirectEvalScriptHasArguments {
                defined: 1,
                arguments: 1,
            },
        ),
        (
            CompilerExecutableKind::DynamicFunctionScript,
            BytecodeVerificationErrorKind::DynamicFunctionScriptHasArguments {
                defined: 1,
                arguments: 1,
            },
        ),
        (
            CompilerExecutableKind::Module,
            BytecodeVerificationErrorKind::ModuleHasArguments { defined: 1, arguments: 1 },
        ),
    ];
    for (kind, expected) in cases {
        let mut part = of_kind(kind);
        part.atoms = vec!["a"];
        part.arguments = 1;
        part.variables = vec![parameter()];
        assert_eq!(failure(&[part]).1, expected);
    }
    let mut function = Part::function(completing());
    function.atoms = vec!["a"];
    function.arguments = 1;
    function.variables = vec![parameter()];
    function.defined = Some(0);
    assert_eq!(
        failure(&rooted(function)).1,
        BytecodeVerificationErrorKind::DefinedArgumentCountMismatch { defined: 0, arguments: 1 }
    );
}

#[test]
fn arrows_and_methods_have_no_names_of_their_own() {
    let mut arrow = of_kind(CompilerExecutableKind::OrdinaryArrow);
    arrow.flags = 0x0442;
    arrow.atoms = vec!["f"];
    arrow.name = Some(0);
    assert_eq!(
        failure(&rooted(arrow)).1,
        BytecodeVerificationErrorKind::OrdinaryArrowHasFunctionName
    );
    let mut method = of_kind(CompilerExecutableKind::OrdinaryMethod);
    method.flags = 0x0742;
    method.atoms = vec!["f"];
    method.name = Some(0);
    assert_eq!(
        failure(&rooted(method)).1,
        BytecodeVerificationErrorKind::OrdinaryMethodHasFunctionName
    );
}

#[test]
fn definitions_cover_the_declared_domains() {
    let mut part = Part::script(completing());
    part.atoms = vec!["x"];
    assert_eq!(
        failure_with_metadata(part, |mut m| {
            m.variables = vec![local(0, var_policy(), None)].into();
            m
        }),
        BytecodeVerificationErrorKind::VariableDefinitionCountMismatch { declared: 0, entries: 1 }
    );
    let mut part = Part::script(completing());
    part.atoms = vec!["x"];
    assert_eq!(
        failure_with_metadata(part, |mut m| {
            m.closures = vec![module_cell(var_policy())].into();
            m
        }),
        BytecodeVerificationErrorKind::ClosureDefinitionCountMismatch { declared: 0, entries: 1 }
    );
}

fn declaring_locals(
    variables: Vec<VariableDefinition>,
    captures: Vec<CompilerCapturedBinding>,
) -> BytecodeVerificationErrorKind {
    let mut part = Part::script(completing());
    part.atoms = vec!["x"];
    part.variables = variables;
    part.captures = captures;
    failure(&[part]).1
}

fn let_policy() -> CompilerBindingPolicy {
    CompilerBindingPolicy::new(
        CompilerBindingKind::Let,
        CompilerInitializationPolicy::AtDeclaration,
        CompilerWritePolicy::Mutable,
        true,
    )
}

fn lexical(link: ScopeLink) -> VariableDefinition {
    VariableDefinition::new(Some(AtomPoolIndex::new(0)), link, let_policy(), true, None)
}

#[test]
fn scope_links_form_chains() {
    assert_eq!(
        declaring_locals(vec![lexical(ScopeLink::ArgumentScopeEnd)], vec![]),
        BytecodeVerificationErrorKind::ArgumentScopeMetadataUnsupported { definition: 0 }
    );
    assert_eq!(
        declaring_locals(
            vec![lexical(ScopeLink::Local(1)), local(0, var_policy(), None)],
            vec![]
        ),
        BytecodeVerificationErrorKind::ScopeLinkKindMismatch { definition: 0, target: 1 }
    );
    assert_eq!(
        declaring_locals(vec![lexical(ScopeLink::Local(7))], vec![]),
        BytecodeVerificationErrorKind::ScopeLinkOutOfBounds {
            definition: 0,
            target: 7,
            locals: 1
        }
    );
    assert_eq!(
        declaring_locals(
            vec![
                lexical(ScopeLink::End),
                lexical(ScopeLink::Local(2)),
                lexical(ScopeLink::Local(1))
            ],
            vec![]
        ),
        BytecodeVerificationErrorKind::ScopeLinkCycle { local: 1 }
    );
    let mut part = Part::script(completing());
    part.atoms = vec!["x"];
    part.variables = vec![lexical(ScopeLink::End), lexical(ScopeLink::Local(0))];
    verify(&[part]).unwrap_or_else(|e| panic!("{:?}", e));
}

#[test]
fn cells_belong_to_one_definition_each() {
    let cell = CompilerCapturedBinding::FunctionLocal(0);
    assert_eq!(
        declaring_locals(vec![local(0, var_policy(), Some(3))], vec![]),
        BytecodeVerificationErrorKind::VariableReferenceOutOfBounds {
            definition: 0,
            reference: 3,
            len: 0
        }
    );
    assert_eq!(
        declaring_locals(
            vec![local(0, var_policy(), Some(0)), local(0, var_policy(), Some(0))],
            vec![cell]
        ),
        BytecodeVerificationErrorKind::DuplicateVariableReference { reference: 0 }
    );
    assert_eq!(
        declaring_locals(vec![local(0, var_policy(), None)], vec![cell]),
        BytecodeVerificationErrorKind::VariableReferenceDomainMismatch { declared: 1, captured: 0 }
    );
    assert_eq!(
        declaring_locals(
            vec![local(0, var_policy(), Some(0)), local(0, var_policy(), None)],
            vec![CompilerCapturedBinding::FunctionLocal(1)]
        ),
        BytecodeVerificationErrorKind::CaptureLayoutMismatch { reference: 0 }
    );
}

#[test]
fn names_and_arguments_objects_are_checked() {
    let mut nameless = local(0, var_policy(), None);
    nameless.name = None;
    assert_eq!(
        declaring_locals(vec![nameless], vec![]),
        BytecodeVerificationErrorKind::MissingMetadataAtom {
            field: MetadataAtomField::VariableName(0)
        }
    );
    assert_eq!(
        declaring_locals(vec![local(0, var_policy(), None).with_arguments_object(true)], vec![]),
        BytecodeVerificationErrorKind::ArgumentsObjectMetadataMismatch {
            definition: Some(0),
            pc: None
        }
    );
    let mut part = Part::script(completing());
    part.atoms = vec!["x"];
    part.variables = vec![local(0, var_policy(), None)];
    part.reserved_atoms = true;
    assert_eq!(
        failure(&[part]).1,
        BytecodeVerificationErrorKind::StaticPropertyOnlyMetadataAtom {
            field: MetadataAtomField::VariableName(0),
            index: 0
        }
    );
}

#[test]
fn constants_initialize_one_declaration_each() {
    let mut part = Part::script(completing());
    part.atoms = vec!["f"];
    part.constants = vec![CompilerConstant::Function(FunctionTemplateId::new(1))];
    part.variables = vec![
        local(0, function_policy(), None).with_function_initializer(0),
        local(0, function_policy(), None).with_function_initializer(0),
    ];
    assert_eq!(
        failure(&[part, Part::function(completing())]).1,
        BytecodeVerificationErrorKind::FunctionInitializerConstantReused {
            constant: 0,
            first: 0,
            duplicate: 1
        }
    );
}

#[test]
fn direct_evals_name_lexical_scopes() {
    let evaluating = |scope: u16| {
        let mut bytecode = vec![op(FinalOpcode::Undefined), op(FinalOpcode::Eval)];
        bytecode.extend_from_slice(&0u16.to_le_bytes());
        bytecode.extend_from_slice(&scope.to_le_bytes());
        bytecode.push(op(FinalOpcode::Return));
        let mut part = Part::script(bytecode);
        part.atoms = vec!["x"];
        part.variables = vec![local(0, var_policy(), None)];
        vec![part]
    };
    assert_eq!(
        failure(&evaluating(9)).1,
        BytecodeVerificationErrorKind::EvalScopeIndexOutOfBounds {
            pc: BytecodePc::new(1),
            scope_index: 9,
            locals: 1
        }
    );
    assert_eq!(
        failure(&evaluating(2)).1,
        BytecodeVerificationErrorKind::EvalScopeHeadNotLexical { pc: BytecodePc::new(1), local: 0 }
    );
}

#[test]
fn closure_variables_fit_their_sources() {
    let closing = |closure: ClosureVariableDefinition| {
        let mut part = Part::script(completing());
        part.atoms = vec!["x"];
        part.closures = vec![closure];
        failure(&[part]).1
    };
    let name = Some(AtomPoolIndex::new(0));
    let global = CompilerClosureSource::ConstructorRealmGlobal(AtomPoolIndex::new(0));
    assert_eq!(
        closing(ClosureVariableDefinition::realm_global(name, function_policy(), global)),
        BytecodeVerificationErrorKind::RealmGlobalFunctionInitializerMetadataMismatch {
            closure: 0,
            constant: None
        }
    );
    assert_eq!(
        closing(ClosureVariableDefinition::realm_global(name, let_policy(), global)),
        BytecodeVerificationErrorKind::RealmGlobalLexicalInitializerCountMismatch {
            closure: 0,
            matches: 0
        }
    );
    assert_eq!(
        closing(ClosureVariableDefinition::new(
            name,
            var_policy(),
            CompilerClosureSource::DirectEvalBinding { index: 0 }
        )),
        BytecodeVerificationErrorKind::DirectEvalBindingSourceRequiresDirectEvalScript {
            closure: 0
        }
    );
    assert_eq!(
        closing(ClosureVariableDefinition::new(name, var_policy(), global)),
        BytecodeVerificationErrorKind::BindingPolicyViolation {
            slot: BindingSlot::Closure(0),
            pc: None,
            reason: BindingPolicyViolationReason::InvalidDeclarationPolicy
        }
    );
}

#[test]
fn names_lie_inside_their_functions() {
    let mut function = Part::function(completing());
    function.atoms = vec!["f"];
    function.name = Some(0);
    let parts = rooted(function);
    let text: Arc<str> = TEXT.into();
    let display_name: Arc<str> = "script.js".into();
    let graph = VerifiedCompilerFunctionGraph::new(
        FunctionTemplateId::new(0),
        parts.iter().map(|part| part.compiled()).collect(),
        0,
    );
    let mut metadata: Vec<UnverifiedFunctionMetadata> =
        parts.iter().map(|part| part.metadata(&text, &display_name)).collect();
    metadata[1].source.function_span = SourceByteSpan::new(4, text.len() as u32);
    let input = UnverifiedCompilerBytecodeGraph::new(Arc::new(graph), metadata.into());
    assert_eq!(
        verify_compiler_bytecode_graph(input, limits(), &findings(2)).err().unwrap().kind,
        BytecodeVerificationErrorKind::FunctionNameOutsideFunction
    );
}

#[test]
fn markers_agree_where_edges_meet() {
    // 0: undefined, 1: gosub 7, 6: push_true, 7: ret
    let mut falling = vec![op(FinalOpcode::Undefined), op(FinalOpcode::Gosub)];
    falling.extend_from_slice(&5i32.to_le_bytes());
    falling.push(op(FinalOpcode::PushTrue));
    falling.push(op(FinalOpcode::Ret));
    assert_eq!(
        failure(&[Part::script(falling)]).1,
        BytecodeVerificationErrorKind::FinallyReturnJoinMismatch {
            target: BytecodePc::new(7),
            incoming_from: BytecodePc::new(6)
        }
    );
    // 0: catch 6, 5: nop, 6: drop, 7: undefined, 8: return
    let mut catching = vec![op(FinalOpcode::Catch)];
    catching.extend_from_slice(&5i32.to_le_bytes());
    catching.push(op(FinalOpcode::Nop));
    catching.push(op(FinalOpcode::Drop));
    catching.extend(completing());
    assert_eq!(
        failure(&[Part::script(catching)]).1,
        BytecodeVerificationErrorKind::CatchMarkerJoinMismatch {
            target: BytecodePc::new(6),
            incoming_from: BytecodePc::new(5)
        }
    );
    // 0: push_true, 1: if_false8 7, 3: undefined, 4: start, 5: goto8 9,
    // 7: undefined, 8: start, 9: drops, undefined, return
    let branching = |start: FinalOpcode, drops: usize| {
        let mut bytecode = vec![
            op(FinalOpcode::PushTrue),
            op(FinalOpcode::IfFalse8),
            5,
            op(FinalOpcode::Undefined),
            op(start),
            op(FinalOpcode::Goto8),
            3,
            op(FinalOpcode::Undefined),
            op(start),
        ];
        for _ in 0..drops {
            bytecode.push(op(FinalOpcode::Drop));
        }
        bytecode.extend(completing());
        vec![Part::script(bytecode)]
    };
    assert!(matches!(
        failure(&branching(FinalOpcode::ForInStart, 1)).1,
        BytecodeVerificationErrorKind::ForInIteratorJoinMismatch { target, .. }
            if target == BytecodePc::new(9)
    ));
    assert!(matches!(
        failure(&branching(FinalOpcode::ForOfStart, 3)).1,
        BytecodeVerificationErrorKind::ForOfIteratorJoinMismatch { target, .. }
            if target == BytecodePc::new(9)
    ));
}

/// A body with a finally subroutine, which leaves exits to the typed pass:
/// 0: undefined, 1: gosub `ret`, 6: drop, 7: `middle`, then `ret`.
fn with_subroutine(middle: &[u8]) -> Vec<Part> {
    let mut bytecode = vec![op(FinalOpcode::Undefined), op(FinalOpcode::Gosub)];
    bytecode.extend_from_slice(&(5 + middle.len() as i32).to_le_bytes());
    bytecode.push(op(FinalOpcode::Drop));
    bytecode.extend_from_slice(middle);
    bytecode.push(op(FinalOpcode::Ret));
    vec![Part::script(bytecode)]
}

#[test]
fn exits_leave_no_markers() {
    // 7: undefined, 8: for_in_start, 9: return_undef
    let for_in = [
        op(FinalOpcode::Undefined),
        op(FinalOpcode::ForInStart),
        op(FinalOpcode::ReturnUndef),
    ];
    assert_eq!(
        failure(&with_subroutine(&for_in)).1,
        BytecodeVerificationErrorKind::ForInIteratorMarkerAtExit { pc: BytecodePc::new(9) }
    );
    let for_of = [
        op(FinalOpcode::Undefined),
        op(FinalOpcode::ForOfStart),
        op(FinalOpcode::ReturnUndef),
    ];
    assert_eq!(
        failure(&with_subroutine(&for_of)).1,
        BytecodeVerificationErrorKind::ForOfIteratorMarkerAtExit { pc: BytecodePc::new(9) }
    );
    // 7: catch 13, 12: return_undef, 13: drop, 14: undefined, 15: return
    let mut catching = vec![op(FinalOpcode::Catch)];
    catching.extend_from_slice(&5i32.to_le_bytes());
    catching.push(op(FinalOpcode::ReturnUndef));
    catching.push(op(FinalOpcode::Drop));
    catching.extend(completing());
    assert_eq!(
        failure(&with_subroutine(&catching)).1,
        BytecodeVerificationErrorKind::CatchMarkerAtExit { pc: BytecodePc::new(12) }
    );
}

#[test]
fn for_of_records_are_closed_whole() {
    let bytecode = vec![
        op(FinalOpcode::Undefined),
        op(FinalOpcode::ForOfStart),
        op(FinalOpcode::Drop),
        op(FinalOpcode::Drop),
        op(FinalOpcode::Return),
    ];
    assert!(matches!(
        failure(&[Part::script(bytecode)]).1,
        BytecodeVerificationErrorKind::ForOfIteratorStackMismatch { .. }
    ));
    let closed = vec![
        op(FinalOpcode::Undefined),
        op(FinalOpcode::ForOfStart),
        op(FinalOpcode::IteratorClose),
        op(FinalOpcode::Undefined),
        op(FinalOpcode::Return),
    ];
    verify(&[Part::script(closed)]).unwrap_or_else(|e| panic!("{:?}", e));
}

#[test]
fn elements_and_classes_need_certified_operands() {
    let bytecode = vec![
        op(FinalOpcode::Undefined),
        op(FinalOpcode::Push0),
        op(FinalOpcode::Undefined),
        op(FinalOpcode::DefineArrayEl),
        op(FinalOpcode::Drop),
        op(FinalOpcode::Return),
    ];
    assert_eq!(
        failure(&[Part::script(bytecode)]).1,
        BytecodeVerificationErrorKind::DefineArrayElementKeyMismatch { pc: BytecodePc::new(3) }
    );
    let mut bytecode = vec![op(FinalOpcode::PushTrue), op(FinalOpcode::FClosure8), 0];
    bytecode.push(op(FinalOpcode::DefineClass));
    bytecode.extend_from_slice(&0u32.to_le_bytes());
    bytecode.push(0);
    bytecode.push(op(FinalOpcode::Drop));
    bytecode.push(op(FinalOpcode::Return));
    let mut script = Part::script(bytecode);
    script.atoms = vec!["C"];
    script.constants = vec![CompilerConstant::Function(FunctionTemplateId::new(1))];
    let mut constructor = of_kind(CompilerExecutableKind::ClassConstructor);
    constructor.flags = 0x074a;
    constructor.mode = 1;
    assert_eq!(
        failure(&[script, constructor]).1,
        BytecodeVerificationErrorKind::DefineClassTemplateMismatch { pc: BytecodePc::new(3) }
    );
}
