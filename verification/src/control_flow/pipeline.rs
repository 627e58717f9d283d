//! The complete control-flow verification of one function body.
use crate::checks::first_failure;
use crate::control_flow::body_laws::lemma_accepted_bodies_are_covered;
use crate::control_flow::error::{VerificationError, VerificationErrorKind, root_error};
use crate::control_flow::header::{header_validation, validate_function_header};
use crate::control_flow::layouts::{
    capture_layout_check, capture_table_failure, constant_layout_check,
    validate_compiler_capture_layout, validate_compiler_constant_layout,
};
use crate::control_flow::limits::{
    VerificationLimits, VerificationResource, allocation_failure, limits_and_counts_checks,
    validate_limits_and_counts,
};
use crate::control_flow::model::{
    CompilerCaptureLayout, CompilerConstantLayout, FunctionIndexDomains,
    UnverifiedCompilerFunctionBody, UnverifiedFunctionBody, VerifiedControlFlow,
    VerifiedInstruction, successor_in_range,
};
use crate::control_flow::opcode_semantics::CapabilityProfile;
use crate::control_flow::predecode::{
    boundary_words_failure, instruction_room_failure, lemma_predecode_covers_body, predecode,
    predecode_complete,
};
use crate::control_flow::stack::{
    analyze_ordinary_stack, body_rules, spec_installs_catch_marker, stack_analysis,
    worklist_failure,
};
use crate::control_flow::stack_laws::{lemma_analysis_is_sound, sound_depths};
use crate::control_flow::static_control_flow::{
    StaticContext, static_semantics, validate_static_semantics,
};
use crate::control_flow::targets::decoded_of;
use crate::function::{UnverifiedFunctionHeader, VerifiedFunctionHeader};
use crate::opcode::FinalOpcode;
use vstd::prelude::*;

verus! {

/// Where a body comes from, and so how its stack size is treated.
#[derive(Clone, Copy, Debug, PartialEq, Eq, Hash, Structural)]
pub enum StackVerificationMode {
    /// Serialized bytecode with a stored stack size.
    Serialized {
        /// The stored stack size.
        expected_stack_size: u32,
    },
    /// Compiler output, whose reachable terminals must leave an empty stack, but
    /// for those whose residue is allowed.
    CompilerGenerated,
}

impl StackVerificationMode {
    /// The stored stack size, if there is one.
    pub open spec fn spec_expected_stack_size(self) -> Option<u32> {
        match self {
            StackVerificationMode::Serialized { expected_stack_size } => Some(expected_stack_size),
            StackVerificationMode::CompilerGenerated => None,
        }
    }

    /// Returns the stored stack size, if there is one.
    pub fn expected_stack_size(self) -> (size: Option<u32>)
        ensures
            size == self.spec_expected_stack_size(),
    {
        match self {
            StackVerificationMode::Serialized { expected_stack_size } => Some(expected_stack_size),
            StackVerificationMode::CompilerGenerated => None,
        }
    }

    /// Whether reachable terminals must leave an empty stack, but for those whose
    /// residue is allowed.
    pub open spec fn spec_requires_empty_exits(self) -> bool {
        self == StackVerificationMode::CompilerGenerated
    }

    /// Returns whether reachable terminals must leave an empty stack, but for
    /// those whose residue is allowed.
    pub fn requires_empty_exits(self) -> (required: bool)
        ensures
            required == self.spec_requires_empty_exits(),
    {
        matches!(self, StackVerificationMode::CompilerGenerated)
    }
}

/// What verification finds out about a body.
pub struct FlowVerdict {
    /// Instructions with successors and entry depths.
    pub instructions: Seq<VerifiedInstruction>,
    /// Largest stack depth after any reachable instruction.
    pub computed_stack_size: u32,
    /// Number of reachable instructions evaluated.
    pub transfer_evaluations: nat,
    /// Validated function header.
    pub function_header: VerifiedFunctionHeader,
}

impl VerifiedControlFlow {
    /// What the certificate says about the body.
    pub open(crate) spec fn spec_verdict(&self) -> FlowVerdict {
        FlowVerdict {
            instructions: self.instructions@,
            computed_stack_size: self.computed_stack_size,
            transfer_evaluations: self.transfer_evaluations as nat,
            function_header: self.function_header,
        }
    }
}

/// The check of the capture layout: compiler output with variable-reference
/// cells must supply one, and a supplied one must be sound.
pub open spec fn capture_check(
    mode: StackVerificationMode,
    layout: Option<CompilerCaptureLayout>,
    domains: FunctionIndexDomains,
    header: VerifiedFunctionHeader,
) -> Result<(), VerificationError> {
    match layout {
        Some(layout) => capture_layout_check(layout, domains, header),
        None => if mode.spec_requires_empty_exits() && header.variable_reference_count != 0 {
            Err(
                root_error(
                    VerificationErrorKind::MissingCompilerCaptureLayout {
                        variable_references: header.variable_reference_count,
                    },
                ),
            )
        } else {
            Ok(())
        },
    }
}

/// The check of the constant layout: compiler output with constants must
/// supply one, and a supplied one must cover the pool.
pub open spec fn constant_check(
    mode: StackVerificationMode,
    layout: Option<CompilerConstantLayout>,
    domains: FunctionIndexDomains,
) -> Result<(), VerificationError> {
    match layout {
        Some(layout) => constant_layout_check(layout, domains),
        None => if mode.spec_requires_empty_exits() && domains.constant_pool_len != 0 {
            Err(
                root_error(
                    VerificationErrorKind::MissingCompilerConstantLayout {
                        constants: domains.constant_pool_len,
                    },
                ),
            )
        } else {
            Ok(())
        },
    }
}

/// What static semantics of a body depend on.
pub open spec fn static_context(
    profile: CapabilityProfile,
    bytecode_len: nat,
    domains: FunctionIndexDomains,
    header: VerifiedFunctionHeader,
    mode: StackVerificationMode,
    capture: Option<CompilerCaptureLayout>,
    constants: Option<CompilerConstantLayout>,
) -> StaticContext {
    StaticContext {
        profile,
        domains,
        function_kind: header.kind,
        compiler_generated: mode.spec_requires_empty_exits(),
        bytecode_len,
        bindings: match capture {
            Some(layout) => Some(layout.bindings@),
            None => None,
        },
        kinds: match constants {
            Some(layout) => Some(layout.kinds@),
            None => None,
        },
    }
}

/// Verification of a body: limits and counts, decoding, header, capture
/// layout, constant layout, static semantics and stack depths, in this order;
/// the first failure decides.
pub open(crate) spec fn flow_verdict(
    profile: CapabilityProfile,
    bytecode: Seq<u8>,
    domains: FunctionIndexDomains,
    function_header: UnverifiedFunctionHeader,
    mode: StackVerificationMode,
    capture: Option<CompilerCaptureLayout>,
    constants: Option<CompilerConstantLayout>,
    limits: VerificationLimits,
) -> Result<FlowVerdict, VerificationError> {
    let counts = first_failure(
        limits_and_counts_checks(
            bytecode.len(),
            domains,
            function_header,
            mode.spec_expected_stack_size(),
            limits,
        ),
    );
    if counts.is_err() {
        Err(counts.unwrap_err())
    } else if bytecode.len() == 0 {
        Err(root_error(VerificationErrorKind::EmptyBytecode))
    } else {
        match predecode(bytecode, limits.max_instructions_per_function) {
            Err(error) => Err(error),
            Ok(decoded) => match header_validation(function_header, domains) {
                Err(error) => Err(error),
                Ok(header) => if capture_check(mode, capture, domains, header).is_err() {
                    Err(capture_check(mode, capture, domains, header).unwrap_err())
                } else if constant_check(mode, constants, domains).is_err() {
                    Err(constant_check(mode, constants, domains).unwrap_err())
                } else {
                    match static_semantics(
                        static_context(
                            profile,
                            bytecode.len(),
                            domains,
                            header,
                            mode,
                            capture,
                            constants,
                        ),
                        decoded,
                    ) {
                        Err(error) => Err(error),
                        Ok(instructions) => match stack_analysis(
                            body_rules(
                                profile,
                                header.kind,
                                limits,
                                mode.spec_requires_empty_exits(),
                                instructions,
                            ),
                            instructions,
                        ) {
                            Err(error) => Err(error),
                            Ok(state) => Ok(
                                FlowVerdict {
                                    instructions: state.instructions,
                                    computed_stack_size: state.computed_max,
                                    transfer_evaluations: state.evaluations,
                                    function_header: header,
                                },
                            ),
                        },
                    }
                },
            },
        }
    }
}

/// Whether `error` reports memory that could not be reserved for a body, at a
/// stage that the body reaches: the boundary map and the instructions while it
/// is decoded, the table of captured slots behind its header, the verified
/// instructions behind its layouts, and the worklist behind its static
/// semantics.
pub open(crate) spec fn body_memory_failure(
    profile: CapabilityProfile,
    bytecode: Seq<u8>,
    domains: FunctionIndexDomains,
    function_header: UnverifiedFunctionHeader,
    mode: StackVerificationMode,
    capture: Option<CompilerCaptureLayout>,
    constants: Option<CompilerConstantLayout>,
    limits: VerificationLimits,
    error: VerificationError,
) -> bool {
    &&& bytecode.len() > 0
    &&& first_failure(
        limits_and_counts_checks(
            bytecode.len(),
            domains,
            function_header,
            mode.spec_expected_stack_size(),
            limits,
        ),
    ).is_ok()
    &&& {
        ||| boundary_words_failure(bytecode.len(), error)
        ||| instruction_room_failure(bytecode, error)
        ||| match predecode(bytecode, limits.max_instructions_per_function) {
            Err(_) => false,
            Ok(decoded) => match header_validation(function_header, domains) {
                Err(_) => false,
                Ok(header) => {
                    ||| match capture {
                        Some(layout) => capture_table_failure(layout, domains, header, error),
                        None => false,
                    }
                    ||| {
                        &&& capture_check(mode, capture, domains, header).is_ok()
                        &&& constant_check(mode, constants, domains).is_ok()
                        &&& {
                            ||| error == allocation_failure(
                                VerificationResource::Instructions,
                                decoded.len() as u64,
                            )
                            ||| {
                                &&& static_semantics(
                                    static_context(
                                        profile,
                                        bytecode.len(),
                                        domains,
                                        header,
                                        mode,
                                        capture,
                                        constants,
                                    ),
                                    decoded,
                                ).is_ok()
                                &&& worklist_failure(decoded, error)
                            }
                        }
                    }
                },
            },
        }
    }
}

/// Whether `error` reports memory that could not be reserved for serialized
/// bytecode.
pub open(crate) spec fn serialized_memory_failure(
    profile: CapabilityProfile,
    body: UnverifiedFunctionBody,
    limits: VerificationLimits,
    error: VerificationError,
) -> bool {
    body_memory_failure(
        profile,
        body.bytecode@,
        body.domains,
        body.function_header,
        StackVerificationMode::Serialized { expected_stack_size: body.expected_stack_size },
        None,
        None,
        limits,
        error,
    )
}

/// Whether `error` reports memory that could not be reserved for compiler
/// output.
pub open(crate) spec fn compiler_memory_failure(
    profile: CapabilityProfile,
    body: UnverifiedCompilerFunctionBody,
    limits: VerificationLimits,
    error: VerificationError,
) -> bool {
    body_memory_failure(
        profile,
        body.bytecode@,
        body.domains,
        body.function_header,
        StackVerificationMode::CompilerGenerated,
        body.capture_layout,
        body.constant_layout,
        limits,
        error,
    )
}

/// Verification of compiler output.
pub open(crate) spec fn compiler_verdict(
    profile: CapabilityProfile,
    body: UnverifiedCompilerFunctionBody,
    limits: VerificationLimits,
) -> Result<FlowVerdict, VerificationError> {
    flow_verdict(
        profile,
        body.bytecode@,
        body.domains,
        body.function_header,
        StackVerificationMode::CompilerGenerated,
        body.capture_layout,
        body.constant_layout,
        limits,
    )
}

/// Verification of serialized bytecode: as for any body, and the stored stack
/// size must equal the computed one.
pub open(crate) spec fn serialized_verdict(
    profile: CapabilityProfile,
    body: UnverifiedFunctionBody,
    limits: VerificationLimits,
) -> Result<FlowVerdict, VerificationError> {
    match flow_verdict(
        profile,
        body.bytecode@,
        body.domains,
        body.function_header,
        StackVerificationMode::Serialized { expected_stack_size: body.expected_stack_size },
        None,
        None,
        limits,
    ) {
        Err(error) => Err(error),
        Ok(verdict) => if verdict.computed_stack_size != body.expected_stack_size {
            Err(
                root_error(
                    VerificationErrorKind::SerializedStackSizeMismatch {
                        serialized: body.expected_stack_size,
                        computed: verdict.computed_stack_size,
                    },
                ),
            )
        } else {
            Ok(verdict)
        },
    }
}

proof fn lemma_body_rules_depend_on_opcodes(
    profile: CapabilityProfile,
    function_kind: crate::function::FunctionKind,
    limits: VerificationLimits,
    require_empty_exits: bool,
    left: Seq<VerifiedInstruction>,
    right: Seq<VerifiedInstruction>,
)
    requires
        left.len() == right.len(),
        forall|i: int|
            #![trigger left[i]]
            #![trigger right[i]]
            0 <= i < left.len() ==> left[i].decoded == right[i].decoded,
    ensures
        body_rules(profile, function_kind, limits, require_empty_exits, left) == body_rules(
            profile,
            function_kind,
            limits,
            require_empty_exits,
            right,
        ),
{
    let a = body_rules(profile, function_kind, limits, require_empty_exits, left);
    let b = body_rules(profile, function_kind, limits, require_empty_exits, right);
    if a.has_catch_marker {
        let i = choose|i: int|
            0 <= i < left.len() && spec_installs_catch_marker(
                profile,
                (#[trigger] left[i]).decoded.instruction.opcode,
            );
        assert(right[i].decoded == left[i].decoded);
    }
    if b.has_catch_marker {
        let i = choose|i: int|
            0 <= i < right.len() && spec_installs_catch_marker(
                profile,
                (#[trigger] right[i]).decoded.instruction.opcode,
            );
        assert(right[i].decoded == left[i].decoded);
    }
    if a.has_gosub {
        let i = choose|i: int|
            0 <= i < left.len() && (#[trigger] left[i]).decoded.instruction.opcode
                == FinalOpcode::Gosub;
        assert(right[i].decoded == left[i].decoded);
    }
    if b.has_gosub {
        let i = choose|i: int|
            0 <= i < right.len() && (#[trigger] right[i]).decoded.instruction.opcode
                == FinalOpcode::Gosub;
        assert(right[i].decoded == left[i].decoded);
    }
}

#[verifier::rlimit(80)]
pub(crate) fn verify_control_flow_common(
    profile: CapabilityProfile,
    bytecode: Vec<u8>,
    domains: FunctionIndexDomains,
    function_header: UnverifiedFunctionHeader,
    stack_mode: StackVerificationMode,
    compiler_capture_layout: Option<CompilerCaptureLayout>,
    compiler_constant_layout: Option<CompilerConstantLayout>,
    limits: VerificationLimits,
) -> (verified: Result<VerifiedControlFlow, VerificationError>)
    ensures
        ({
            let verdict = flow_verdict(
                profile,
                bytecode@,
                domains,
                function_header,
                stack_mode,
                compiler_capture_layout,
                compiler_constant_layout,
                limits,
            );
            match verified {
                Ok(flow) => {
                    &&& verdict == Ok::<FlowVerdict, VerificationError>(flow.spec_verdict())
                    &&& flow.bytecode == bytecode
                    &&& flow.domains == domains
                    &&& flow.compiler_capture_layout == compiler_capture_layout
                    &&& flow.compiler_constant_layout == compiler_constant_layout
                    &&& flow.well_formed()
                    &&& sound_depths(
                        body_rules(
                            profile,
                            flow.function_header.kind,
                            limits,
                            stack_mode.spec_requires_empty_exits(),
                            flow.instructions@,
                        ),
                        flow.instructions@,
                        flow.computed_stack_size,
                    )
                },
                Err(error) => verdict == Err::<FlowVerdict, VerificationError>(error) || body_memory_failure(
                    profile,
                    bytecode@,
                    domains,
                    function_header,
                    stack_mode,
                    compiler_capture_layout,
                    compiler_constant_layout,
                    limits,
                    error,
                ),
            }
        }),
{
    validate_limits_and_counts(
        bytecode.len(),
        domains,
        function_header,
        stack_mode.expected_stack_size(),
        limits,
    )?;
    if bytecode.len() == 0 {
        return Err(VerificationError::root(VerificationErrorKind::EmptyBytecode));
    }
    let body = predecode_complete(&bytecode, limits.max_instructions_per_function)?;
    proof {
        lemma_predecode_covers_body(bytecode@, limits.max_instructions_per_function);
    }
    let header = validate_function_header(function_header, domains)?;
    let compiler_generated: bool = stack_mode.requires_empty_exits();
    let capture = match compiler_capture_layout {
        Some(layout) => Some(validate_compiler_capture_layout(layout, domains, &header)?),
        None => {
            if compiler_generated && header.variable_reference_count != 0 {
                return Err(
                    VerificationError::root(
                        VerificationErrorKind::MissingCompilerCaptureLayout {
                            variable_references: header.variable_reference_count,
                        },
                    ),
                );
            }
            None
        },
    };
    let constants = match compiler_constant_layout {
        Some(layout) => Some(validate_compiler_constant_layout(layout, domains)?),
        None => {
            if compiler_generated && domains.constant_pool_len != 0 {
                return Err(
                    VerificationError::root(
                        VerificationErrorKind::MissingCompilerConstantLayout {
                            constants: domains.constant_pool_len,
                        },
                    ),
                );
            }
            None
        },
    };
    let ghost context = static_context(
        profile,
        bytecode@.len(),
        domains,
        header,
        stack_mode,
        compiler_capture_layout,
        compiler_constant_layout,
    );
    let structural = validate_static_semantics(
        profile,
        &body.instructions,
        &body.instruction_start_bitmap,
        bytecode.len(),
        domains,
        header.kind,
        capture.as_ref(),
        constants.as_ref(),
        compiler_generated,
        Ghost(context),
    )?;
    let ghost before = structural.instructions@;
    assert(decoded_of(before) =~= body.instructions@);
    let certificate = analyze_ordinary_stack(structural, profile, limits, compiler_generated)?;
    proof {
        let rules = body_rules(profile, header.kind, limits, compiler_generated, before);
        let end = stack_analysis(rules, before).unwrap();
        lemma_analysis_is_sound(rules, before, end);
        let after = certificate.instructions@;
        lemma_body_rules_depend_on_opcodes(
            profile,
            header.kind,
            limits,
            compiler_generated,
            before,
            after,
        );
        assert(decoded_of(after) =~= body.instructions@);
        lemma_accepted_bodies_are_covered(
            profile,
            bytecode@,
            domains,
            function_header,
            stack_mode,
            compiler_capture_layout,
            compiler_constant_layout,
            limits,
        );
        assert forall|i: int| 0 <= i < after.len() implies successor_in_range(
            (#[trigger] after[i]).successors,
            after.len(),
        ) by {
            assert(successor_in_range(before[i].successors, before.len()));
        }
    }
    Ok(
        VerifiedControlFlow {
            bytecode,
            instructions: certificate.instructions,
            instruction_start_bitmap: body.instruction_start_bitmap,
            computed_stack_size: certificate.computed_stack_size,
            transfer_evaluations: certificate.transfer_evaluations,
            domains,
            function_header: header,
            compiler_capture_layout: match capture {
                Some(validated) => Some(validated.layout),
                None => None,
            },
            compiler_constant_layout: constants,
        },
    )
}

/// Completely predecodes and verifies serialized bytecode.
///
/// Predecoding always consumes the complete instruction stream before opcode
/// capability errors are considered. The returned value is not executable
/// bytecode: whole-function metadata and pool validation remain mandatory.
pub fn verify_control_flow(body: UnverifiedFunctionBody, limits: VerificationLimits) -> (verified: Result<
    VerifiedControlFlow,
    VerificationError,
>)
    ensures
        match verified {
            Ok(flow) => {
                &&& serialized_verdict(CapabilityProfile::Extended, body, limits) == Ok::<FlowVerdict, VerificationError>(flow.spec_verdict())
                &&& flow.spec_bytecode() == body.bytecode@
                &&& flow.spec_domains() == body.domains
                &&& flow.spec_compiler_capture_layout() == None::<CompilerCaptureLayout>
                &&& flow.spec_compiler_constant_layout() == None::<CompilerConstantLayout>
                &&& flow.well_formed()
                &&& flow.spec_computed_stack_size() == body.expected_stack_size
                &&& sound_depths(
                    body_rules(
                        CapabilityProfile::Extended,
                        flow.spec_function_header().kind,
                        limits,
                        false,
                        flow.spec_instructions(),
                    ),
                    flow.spec_instructions(),
                    flow.spec_computed_stack_size(),
                )
            },
            Err(error) => serialized_verdict(CapabilityProfile::Extended, body, limits) == Err::<FlowVerdict, VerificationError>(error)
                || serialized_memory_failure(
                    CapabilityProfile::Extended,
                    body,
                    limits,
                    error,
                ),
        },
{
    let expected_stack_size: u32 = body.expected_stack_size;
    let verified = verify_control_flow_common(
        CapabilityProfile::Extended,
        body.bytecode,
        body.domains,
        body.function_header,
        StackVerificationMode::Serialized { expected_stack_size },
        None,
        None,
        limits,
    )?;
    if verified.computed_stack_size != expected_stack_size {
        return Err(
            VerificationError::root(
                VerificationErrorKind::SerializedStackSizeMismatch {
                    serialized: expected_stack_size,
                    computed: verified.computed_stack_size,
                },
            ),
        );
    }
    Ok(verified)
}

/// Completely predecodes compiler-generated bytecode and derives its exact
/// reachable maximum stack size.
///
/// There is no stored stack size to compare, and every reachable terminal must
/// leave the ordinary value stack empty. Excepted are a throw in a body with
/// catch markers, the return of a finally subroutine, the asynchronous return of
/// a generator, and a return or throw in a body that calls finally subroutines.
/// The returned value remains non-executable staged evidence.
pub fn verify_compiler_control_flow(body: UnverifiedCompilerFunctionBody, limits: VerificationLimits) -> (verified: Result<
    VerifiedControlFlow,
    VerificationError,
>)
    ensures
        match verified {
            Ok(flow) => {
                &&& compiler_verdict(CapabilityProfile::Extended, body, limits) == Ok::<FlowVerdict, VerificationError>(flow.spec_verdict())
                &&& flow.spec_bytecode() == body.bytecode@
                &&& flow.spec_domains() == body.domains
                &&& flow.spec_compiler_capture_layout() == body.capture_layout
                &&& flow.spec_compiler_constant_layout() == body.constant_layout
                &&& flow.well_formed()
                &&& sound_depths(
                    body_rules(
                        CapabilityProfile::Extended,
                        flow.spec_function_header().kind,
                        limits,
                        true,
                        flow.spec_instructions(),
                    ),
                    flow.spec_instructions(),
                    flow.spec_computed_stack_size(),
                )
            },
            Err(error) => compiler_verdict(CapabilityProfile::Extended, body, limits) == Err::<FlowVerdict, VerificationError>(error)
                || compiler_memory_failure(
                    CapabilityProfile::Extended,
                    body,
                    limits,
                    error,
                ),
        },
{
    verify_control_flow_common(
        CapabilityProfile::Extended,
        body.bytecode,
        body.domains,
        body.function_header,
        StackVerificationMode::CompilerGenerated,
        body.capture_layout,
        body.constant_layout,
        limits,
    )
}

} // verus!
