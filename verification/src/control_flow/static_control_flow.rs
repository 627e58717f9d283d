//! Static semantics: operands, targets, capabilities and function kinds.
use crate::checks::{first_failure, lemma_first_failure_at, lemma_no_failure};
use crate::control_flow::error::{
    ControlFlowEdge, VerificationError, VerificationErrorKind, error_at,
};
use crate::control_flow::layouts::ValidatedCompilerCaptureLayout;
use crate::control_flow::limits::{VerificationResource, allocation_failure};
use crate::control_flow::model::{
    CompilerCapturedBinding, CompilerConstantKind, CompilerConstantLayout, FunctionIndexDomains,
    InstructionIndex, VerifiedInstruction, VerifiedSuccessors, VerifiedSuccessorsRepr,
    successor_in_range, successors_in_range,
};
use crate::control_flow::opcode_semantics::{
    CapabilityProfile, OpcodeSemantics, SuccessorShape, profile_semantics, spec_profile_semantics,
};
use crate::control_flow::operands::{
    compiler_close_loc_check, compiler_constant_kind_check, operand_indices_check,
    secondary_operands_check, validate_compiler_close_loc, validate_compiler_constant_kind,
    validate_operand_indices, validate_secondary_operands,
};
use crate::control_flow::predecode::{boundary_map, increasing_pcs};
use crate::control_flow::targets::{
    encoded_target, following, gosub_continuation_check, require_encoded_target,
    resolve_fallthrough, resolve_relative_target, resolved_relative_target,
    validate_gosub_continuation,
};
use crate::function::{FunctionKind, FunctionKindRequirement};
use crate::instruction::{DecodeError, DecodedInstruction};
use crate::opcode::{FinalOpcode, FinalOpcodeDecodeError};
use crate::reserve::reserve_vec_exact;
use vstd::prelude::*;

verus! {

/// Everything beside the instructions that static semantics depend on.
pub struct StaticContext {
    /// Opcodes and operand values that are admitted.
    pub profile: CapabilityProfile,
    /// Index domains of the function.
    pub domains: FunctionIndexDomains,
    /// Kind of the function.
    pub function_kind: FunctionKind,
    /// Whether a compiler generated the body.
    pub compiler_generated: bool,
    /// Length of the bytecode.
    pub bytecode_len: nat,
    /// Captured bindings of a compiler capture layout.
    pub bindings: Option<Seq<CompilerCapturedBinding>>,
    /// Constant kinds of a compiler constant layout.
    pub kinds: Option<Seq<CompilerConstantKind>>,
}

/// Function kinds that an opcode is confined to.
pub open spec fn spec_kind_requirement(opcode: FinalOpcode) -> Option<FunctionKindRequirement> {
    match opcode {
        FinalOpcode::TailCall
        | FinalOpcode::TailCallMethod
        | FinalOpcode::Return
        | FinalOpcode::ReturnUndef => Some(FunctionKindRequirement::Normal),
        FinalOpcode::InitialYield | FinalOpcode::Yield => Some(FunctionKindRequirement::Generator),
        FinalOpcode::YieldStar => Some(FunctionKindRequirement::SynchronousGenerator),
        FinalOpcode::AsyncYieldStar => Some(FunctionKindRequirement::AsyncGenerator),
        FinalOpcode::Await => Some(FunctionKindRequirement::Async),
        FinalOpcode::ReturnAsync => Some(FunctionKindRequirement::NonNormal),
        _ => None,
    }
}

/// The check that an opcode may stand in a function of this kind.
pub open spec fn function_kind_check(
    decoded: DecodedInstruction,
    function_kind: FunctionKind,
) -> Result<(), VerificationError> {
    match spec_kind_requirement(decoded.instruction.opcode) {
        Some(requirement) => if requirement.spec_accepts(function_kind) {
            Ok(())
        } else {
            Err(
                error_at(
                    decoded,
                    VerificationErrorKind::OpcodeNotAllowedForFunctionKind {
                        kind: function_kind,
                        requirement,
                    },
                ),
            )
        },
        None => Ok(()),
    }
}

fn validate_function_kind_opcode(
    decoded: DecodedInstruction,
    function_kind: FunctionKind,
) -> (checked: Result<(), VerificationError>)
    ensures
        checked == function_kind_check(decoded, function_kind),
{
    let requirement = match decoded.instruction.opcode {
        FinalOpcode::TailCall
        | FinalOpcode::TailCallMethod
        | FinalOpcode::Return
        | FinalOpcode::ReturnUndef => FunctionKindRequirement::Normal,
        FinalOpcode::InitialYield | FinalOpcode::Yield => FunctionKindRequirement::Generator,
        FinalOpcode::YieldStar => FunctionKindRequirement::SynchronousGenerator,
        FinalOpcode::AsyncYieldStar => FunctionKindRequirement::AsyncGenerator,
        FinalOpcode::Await => FunctionKindRequirement::Async,
        FinalOpcode::ReturnAsync => FunctionKindRequirement::NonNormal,
        _ => {
            return Ok(());
        },
    };
    if !requirement.accepts(function_kind) {
        return Err(
            VerificationError::at_instruction(
                decoded,
                VerificationErrorKind::OpcodeNotAllowedForFunctionKind {
                    kind: function_kind,
                    requirement,
                },
            ),
        );
    }
    Ok(())
}

/// Successors of an instruction of the given semantics whose encoded target,
/// if any, is `target`.
pub(crate) open(crate) spec fn static_successors(
    current: DecodedInstruction,
    semantics: OpcodeSemantics,
    target: Option<InstructionIndex>,
    instructions: Seq<DecodedInstruction>,
    bytecode_len: nat,
) -> Result<VerifiedSuccessors, VerificationError> {
    let next = following(current, ControlFlowEdge::Fallthrough, instructions, bytecode_len);
    match semantics.spec_successor_shape() {
        None => Err(
            error_at(
                current,
                VerificationErrorKind::Decode(
                    DecodeError::InvalidOpcode {
                        pc: current.pc,
                        opcode_byte: FinalOpcode::Invalid.spec_encoded_byte(),
                        source: FinalOpcodeDecodeError::ReservedInvalid,
                    },
                ),
            ),
        ),
        Some(SuccessorShape::Fallthrough) => match next {
            Ok(index) => Ok(VerifiedSuccessors(VerifiedSuccessorsRepr::Fallthrough(index))),
            Err(error) => Err(error),
        },
        Some(SuccessorShape::Branch) => match encoded_target(current, target) {
            Err(error) => Err(error),
            Ok(taken) => match next {
                Ok(not_taken) => Ok(
                    VerifiedSuccessors(VerifiedSuccessorsRepr::Branch { taken, not_taken }),
                ),
                Err(error) => Err(error),
            },
        },
        Some(SuccessorShape::Jump) => match encoded_target(current, target) {
            Ok(index) => Ok(VerifiedSuccessors(VerifiedSuccessorsRepr::Jump(index))),
            Err(error) => Err(error),
        },
        Some(SuccessorShape::Terminate) => Ok(
            VerifiedSuccessors(VerifiedSuccessorsRepr::Terminate),
        ),
    }
}

fn resolve_static_successors(
    current: DecodedInstruction,
    semantics: OpcodeSemantics,
    target: Option<InstructionIndex>,
    instructions: &[DecodedInstruction],
    bitmap: &[u64],
    bytecode_len: usize,
) -> (successors: Result<VerifiedSuccessors, VerificationError>)
    requires
        increasing_pcs(instructions@),
        boundary_map(bitmap@, bytecode_len as nat, instructions@),
        instructions@.len() <= u32::MAX,
        match target {
            Some(index) => index.0 < instructions@.len(),
            None => true,
        },
    ensures
        successors == static_successors(
            current,
            semantics,
            target,
            instructions@,
            bytecode_len as nat,
        ),
        match successors {
            Ok(successors) => successor_in_range(successors, instructions@.len()),
            Err(_) => true,
        },
{
    let shape = match semantics.successor_shape() {
        Some(shape) => shape,
        None => {
            return Err(
                VerificationError::at_instruction(
                    current,
                    VerificationErrorKind::Decode(
                        DecodeError::InvalidOpcode {
                            pc: current.pc,
                            opcode_byte: FinalOpcode::Invalid.encoded_byte(),
                            source: FinalOpcodeDecodeError::ReservedInvalid,
                        },
                    ),
                ),
            );
        },
    };
    match shape {
        SuccessorShape::Fallthrough => {
            let next = resolve_fallthrough(current, instructions, bitmap, bytecode_len)?;
            Ok(VerifiedSuccessors(VerifiedSuccessorsRepr::Fallthrough(next)))
        },
        SuccessorShape::Branch => {
            let taken = require_encoded_target(current, target)?;
            let not_taken = resolve_fallthrough(current, instructions, bitmap, bytecode_len)?;
            Ok(VerifiedSuccessors(VerifiedSuccessorsRepr::Branch { taken, not_taken }))
        },
        SuccessorShape::Jump => {
            let jump = require_encoded_target(current, target)?;
            Ok(VerifiedSuccessors(VerifiedSuccessorsRepr::Jump(jump)))
        },
        SuccessorShape::Terminate => Ok(VerifiedSuccessors(VerifiedSuccessorsRepr::Terminate)),
    }
}

/// Structural verification of one instruction: its operands, its encoded
/// target, the continuation of a `gosub`, and its successors.
pub open(crate) spec fn structural_instruction(
    context: StaticContext,
    instructions: Seq<DecodedInstruction>,
    current: DecodedInstruction,
) -> Result<VerifiedInstruction, VerificationError> {
    let indices = operand_indices_check(current, context.domains);
    let secondary = secondary_operands_check(context.profile, current, context.domains);
    let continuation = gosub_continuation_check(current, instructions, context.bytecode_len);
    if indices.is_err() {
        Err(indices.unwrap_err())
    } else if secondary.is_err() {
        Err(secondary.unwrap_err())
    } else {
        match resolved_relative_target(current, instructions, context.bytecode_len) {
            Err(error) => Err(error),
            Ok(target) => if continuation.is_err() {
                Err(continuation.unwrap_err())
            } else {
                match static_successors(
                    current,
                    spec_profile_semantics(context.profile, current.instruction.opcode),
                    target,
                    instructions,
                    context.bytecode_len,
                ) {
                    Err(error) => Err(error),
                    Ok(successors) => Ok(
                        VerifiedInstruction {
                            decoded: current,
                            entry_stack_depth: None,
                            successors,
                        },
                    ),
                }
            },
        }
    }
}

fn verify_structural_instruction(
    profile: CapabilityProfile,
    domains: FunctionIndexDomains,
    current: DecodedInstruction,
    instructions: &[DecodedInstruction],
    bitmap: &[u64],
    bytecode_len: usize,
    Ghost(context): Ghost<StaticContext>,
) -> (verified: Result<VerifiedInstruction, VerificationError>)
    requires
        increasing_pcs(instructions@),
        boundary_map(bitmap@, bytecode_len as nat, instructions@),
        instructions@.len() <= u32::MAX,
        context.profile == profile,
        context.domains == domains,
        context.bytecode_len == bytecode_len,
    ensures
        verified == structural_instruction(context, instructions@, current),
        match verified {
            Ok(verified) => successor_in_range(verified.successors, instructions@.len()),
            Err(_) => true,
        },
{
    validate_operand_indices(current, domains)?;
    validate_secondary_operands(profile, current, domains)?;
    let target = resolve_relative_target(current, instructions, bitmap, bytecode_len)?;
    validate_gosub_continuation(current, instructions, bitmap, bytecode_len)?;
    let semantics = profile_semantics(profile, current.instruction.opcode);
    let successors = resolve_static_successors(
        current,
        semantics,
        target,
        instructions,
        bitmap,
        bytecode_len,
    )?;
    Ok(VerifiedInstruction { decoded: current, entry_stack_depth: None, successors })
}

/// Opcodes that compiler output may use although a later pass has to prove
/// their semantics.
pub open spec fn spec_deferred_compiler_opcode(
    profile: CapabilityProfile,
    opcode: FinalOpcode,
) -> bool {
    match opcode {
        FinalOpcode::ForOfStart | FinalOpcode::ForOfNext | FinalOpcode::IteratorClose => true,
        FinalOpcode::ForAwaitOfStart
        | FinalOpcode::IteratorNext
        | FinalOpcode::IteratorCall
        | FinalOpcode::CopyDataProperties
        | FinalOpcode::Eval
        | FinalOpcode::ApplyEval => profile == CapabilityProfile::Extended,
        _ => false,
    }
}

fn deferred_compiler_opcode(profile: CapabilityProfile, opcode: FinalOpcode) -> (deferred: bool)
    ensures
        deferred == spec_deferred_compiler_opcode(profile, opcode),
{
    match opcode {
        FinalOpcode::ForOfStart | FinalOpcode::ForOfNext | FinalOpcode::IteratorClose => true,
        FinalOpcode::ForAwaitOfStart
        | FinalOpcode::IteratorNext
        | FinalOpcode::IteratorCall
        | FinalOpcode::CopyDataProperties
        | FinalOpcode::Eval
        | FinalOpcode::ApplyEval => matches!(profile, CapabilityProfile::Extended),
        _ => false,
    }
}

/// The check that an unsupported opcode is authorized: `close_loc` by the
/// capture layout, pool reads by the constant layout, and the deferred
/// opcodes by a compiler having generated the body.
pub open spec fn capability_check(context: StaticContext, decoded: DecodedInstruction) -> Result<
    (),
    VerificationError,
> {
    let opcode = decoded.instruction.opcode;
    match spec_profile_semantics(context.profile, opcode) {
        OpcodeSemantics::Unsupported(feature, _) => {
            let rejected = Err(
                error_at(decoded, VerificationErrorKind::UnsupportedOpcodeSemantics { feature }),
            );
            match opcode {
                FinalOpcode::CloseLoc => match context.bindings {
                    Some(bindings) => compiler_close_loc_check(decoded, bindings),
                    None => rejected,
                },
                FinalOpcode::PushConst
                | FinalOpcode::FClosure
                | FinalOpcode::PushConst8
                | FinalOpcode::FClosure8 => match context.kinds {
                    Some(kinds) => compiler_constant_kind_check(decoded, kinds),
                    None => rejected,
                },
                _ => if context.compiler_generated && spec_deferred_compiler_opcode(
                    context.profile,
                    opcode,
                ) {
                    Ok(())
                } else {
                    rejected
                },
            }
        },
        _ => Ok(()),
    }
}

/// The capability check, then the function-kind check.
pub open spec fn admission_check(context: StaticContext, decoded: DecodedInstruction) -> Result<
    (),
    VerificationError,
> {
    if capability_check(context, decoded).is_err() {
        capability_check(context, decoded)
    } else {
        function_kind_check(decoded, context.function_kind)
    }
}

fn validate_admission(
    profile: CapabilityProfile,
    function_kind: FunctionKind,
    decoded: DecodedInstruction,
    compiler_capture_layout: Option<&ValidatedCompilerCaptureLayout>,
    compiler_constant_layout: Option<&CompilerConstantLayout>,
    compiler_generated: bool,
    Ghost(context): Ghost<StaticContext>,
) -> (checked: Result<(), VerificationError>)
    requires
        context.profile == profile,
        context.function_kind == function_kind,
        context.compiler_generated == compiler_generated,
        context_layouts(context, compiler_capture_layout, compiler_constant_layout),
    ensures
        checked == admission_check(context, decoded),
{
    let opcode = decoded.instruction.opcode;
    if let OpcodeSemantics::Unsupported(feature, _) = profile_semantics(profile, opcode) {
        let rejected = VerificationError::at_instruction(
            decoded,
            VerificationErrorKind::UnsupportedOpcodeSemantics { feature },
        );
        match opcode {
            FinalOpcode::CloseLoc => match compiler_capture_layout {
                Some(layout) => validate_compiler_close_loc(decoded, layout)?,
                None => {
                    return Err(rejected);
                },
            },
            FinalOpcode::PushConst
            | FinalOpcode::FClosure
            | FinalOpcode::PushConst8
            | FinalOpcode::FClosure8 => match compiler_constant_layout {
                Some(layout) => validate_compiler_constant_kind(decoded, layout)?,
                None => {
                    return Err(rejected);
                },
            },
            _ => {
                if !(compiler_generated && deferred_compiler_opcode(profile, opcode)) {
                    return Err(rejected);
                }
            },
        }
    }
    validate_function_kind_opcode(decoded, function_kind)
}

/// The context carries exactly what the layouts hold.
pub(crate) open(crate) spec fn context_layouts(
    context: StaticContext,
    compiler_capture_layout: Option<&ValidatedCompilerCaptureLayout>,
    compiler_constant_layout: Option<&CompilerConstantLayout>,
) -> bool {
    &&& match compiler_capture_layout {
        Some(layout) => layout.well_formed() && context.bindings == Some(layout.layout.bindings@),
        None => context.bindings.is_none(),
    }
    &&& match compiler_constant_layout {
        Some(layout) => context.kinds == Some(layout.kinds@),
        None => context.kinds.is_none(),
    }
}

/// Forgets the value of a successful check.
pub open spec fn outcome<T, E>(result: Result<T, E>) -> Result<(), E> {
    match result {
        Ok(_) => Ok(()),
        Err(error) => Err(error),
    }
}

/// Structural outcome of every instruction, in order.
pub(crate) open(crate) spec fn structural_checks(
    context: StaticContext,
    instructions: Seq<DecodedInstruction>,
) -> Seq<Result<(), VerificationError>> {
    Seq::new(
        instructions.len(),
        |i: int| outcome(structural_instruction(context, instructions, instructions[i])),
    )
}

/// Admission check of every instruction, in order.
pub open spec fn admission_checks(
    context: StaticContext,
    instructions: Seq<DecodedInstruction>,
) -> Seq<Result<(), VerificationError>> {
    Seq::new(instructions.len(), |i: int| admission_check(context, instructions[i]))
}

/// The verified instructions of a body whose every instruction is sound.
pub(crate) open(crate) spec fn structural_instructions(
    context: StaticContext,
    instructions: Seq<DecodedInstruction>,
) -> Seq<VerifiedInstruction> {
    Seq::new(
        instructions.len(),
        |i: int| structural_instruction(context, instructions, instructions[i]).unwrap(),
    )
}

/// Static semantics of a body: every instruction must be structurally sound,
/// and only then every instruction must be admitted; the first failure of the
/// earlier pass decides.
pub(crate) open(crate) spec fn static_semantics(
    context: StaticContext,
    instructions: Seq<DecodedInstruction>,
) -> Result<Seq<VerifiedInstruction>, VerificationError> {
    match first_failure(structural_checks(context, instructions)) {
        Err(error) => Err(error),
        Ok(_) => match first_failure(admission_checks(context, instructions)) {
            Err(error) => Err(error),
            Ok(_) => Ok(structural_instructions(context, instructions)),
        },
    }
}

/// Structurally checked instructions before stack analysis.
pub(crate) struct StructurallyVerifiedControlFlow {
    pub(crate) instructions: Vec<VerifiedInstruction>,
    pub(crate) function_kind: FunctionKind,
}

impl StructurallyVerifiedControlFlow {
    pub(crate) fn into_parts(self) -> (parts: (Vec<VerifiedInstruction>, FunctionKind))
        ensures
            parts.0 == self.instructions,
            parts.1 == self.function_kind,
    {
        (self.instructions, self.function_kind)
    }
}

pub(crate) fn validate_static_semantics(
    profile: CapabilityProfile,
    decoded: &[DecodedInstruction],
    instruction_start_bitmap: &[u64],
    bytecode_len: usize,
    domains: FunctionIndexDomains,
    function_kind: FunctionKind,
    compiler_capture_layout: Option<&ValidatedCompilerCaptureLayout>,
    compiler_constant_layout: Option<&CompilerConstantLayout>,
    compiler_generated: bool,
    Ghost(context): Ghost<StaticContext>,
) -> (validated: Result<StructurallyVerifiedControlFlow, VerificationError>)
    requires
        increasing_pcs(decoded@),
        boundary_map(instruction_start_bitmap@, bytecode_len as nat, decoded@),
        decoded@.len() <= u32::MAX,
        context.profile == profile,
        context.domains == domains,
        context.function_kind == function_kind,
        context.compiler_generated == compiler_generated,
        context.bytecode_len == bytecode_len,
        context_layouts(context, compiler_capture_layout, compiler_constant_layout),
    ensures
        match validated {
            Ok(flow) => static_semantics(context, decoded@) == Ok::<
                Seq<VerifiedInstruction>,
                VerificationError,
            >(flow.instructions@) && flow.function_kind == function_kind && successors_in_range(
                flow.instructions@,
            ) && flow.instructions@.len() == decoded@.len() && forall|i: int|
                0 <= i < decoded@.len() ==> (#[trigger] flow.instructions@[i]).decoded
                    == decoded@[i] && flow.instructions@[i].entry_stack_depth.is_none(),
            Err(error) => static_semantics(context, decoded@) == Err::<
                Seq<VerifiedInstruction>,
                VerificationError,
            >(error) || error == allocation_failure(
                VerificationResource::Instructions,
                decoded@.len() as u64,
            ),
        },
{
    let ghost structural = structural_checks(context, decoded@);
    let ghost admission = admission_checks(context, decoded@);
    let mut verified: Vec<VerifiedInstruction> = Vec::new();
    if reserve_vec_exact(&mut verified, decoded.len()).is_err() {
        return Err(
            VerificationError::root(
                VerificationErrorKind::AllocationFailed {
                    resource: VerificationResource::Instructions,
                    requested: decoded.len() as u64,
                },
            ),
        );
    }
    let mut i: usize = 0;
    while i < decoded.len()
        invariant
            i <= decoded@.len(),
            verified@.len() == i,
            increasing_pcs(decoded@),
            boundary_map(instruction_start_bitmap@, bytecode_len as nat, decoded@),
            decoded@.len() <= u32::MAX,
            context.profile == profile,
            context.domains == domains,
            context.bytecode_len == bytecode_len,
            structural == structural_checks(context, decoded@),
            forall|j: int| 0 <= j < i ==> (#[trigger] structural[j]).is_ok(),
            forall|j: int|
                0 <= j < i ==> structural_instruction(context, decoded@, decoded@[j]) == Ok::<
                    VerifiedInstruction,
                    VerificationError,
                >(#[trigger] verified@[j]),
            forall|j: int|
                0 <= j < i ==> successor_in_range(
                    (#[trigger] verified@[j]).successors,
                    decoded@.len(),
                ),
        decreases decoded@.len() - i,
    {
        let current = decoded[i];
        match verify_structural_instruction(
            profile,
            domains,
            current,
            decoded,
            instruction_start_bitmap,
            bytecode_len,
            Ghost(context),
        ) {
            Ok(instruction) => {
                verified.push(instruction);
            },
            Err(error) => {
                proof {
                    lemma_first_failure_at(structural, i as int);
                }
                return Err(error);
            },
        }
        i = i + 1;
    }
    proof {
        lemma_no_failure(structural);
        assert(verified@ =~= structural_instructions(context, decoded@));
        assert forall|j: int| 0 <= j < decoded@.len() implies (#[trigger] verified@[j]).decoded
            == decoded@[j] && verified@[j].entry_stack_depth.is_none() by {
            assert(structural_instruction(context, decoded@, decoded@[j]) == Ok::<
                VerifiedInstruction,
                VerificationError,
            >(verified@[j]));
        }
    }
    i = 0;
    while i < decoded.len()
        invariant
            i <= decoded@.len(),
            context.profile == profile,
            context.function_kind == function_kind,
            context.compiler_generated == compiler_generated,
            context_layouts(context, compiler_capture_layout, compiler_constant_layout),
            structural == structural_checks(context, decoded@),
            first_failure(structural).is_ok(),
            admission == admission_checks(context, decoded@),
            forall|j: int| 0 <= j < i ==> (#[trigger] admission[j]).is_ok(),
        decreases decoded@.len() - i,
    {
        if let Err(error) = validate_admission(
            profile,
            function_kind,
            decoded[i],
            compiler_capture_layout,
            compiler_constant_layout,
            compiler_generated,
            Ghost(context),
        ) {
            proof {
                lemma_first_failure_at(admission, i as int);
            }
            return Err(error);
        }
        i = i + 1;
    }
    proof {
        lemma_no_failure(admission);
    }
    Ok(StructurallyVerifiedControlFlow { instructions: verified, function_kind })
}

} // verus!
