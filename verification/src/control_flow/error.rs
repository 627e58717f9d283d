//! Verifier failures and the places they name.
use crate::function::{FunctionBitField, FunctionHeaderFlag, FunctionKind, FunctionKindRequirement};
use crate::instruction::{BytecodePc, DecodeError, DecodedInstruction, StackEffectError};
use crate::opcode::{FinalOpcode, OperandFormat};
use crate::control_flow::limits::VerificationResource;
use crate::control_flow::model::{CompilerCapturedBinding, CompilerConstantKind, FunctionPath};
use vstd::prelude::*;

verus! {

/// A function metadata count subject to a structural maximum.
#[derive(Clone, Copy, Debug, PartialEq, Eq, Hash, Structural)]
pub enum FunctionCountDomain {
    /// Function arguments.
    Arguments,
    /// Function locals.
    Locals,
    /// Function-owned variable-reference cells.
    VariableReferences,
    /// Closure-variable descriptors.
    ClosureVariables,
    /// Serialized or compiler-declared stack size.
    ExpectedStackSize,
}

/// Operand index namespace used by an out-of-bounds error.
#[derive(Clone, Copy, Debug, PartialEq, Eq, Hash, Structural)]
pub enum OperandIndexDomain {
    /// Function-local atom pool.
    AtomPool,
    /// Function constant pool.
    ConstantPool,
    /// Function local variables.
    Local,
    /// Function arguments.
    Argument,
    /// Function closure-variable table.
    ClosureVariable,
}

/// An instruction-specific secondary operand.
#[derive(Clone, Copy, Debug, PartialEq, Eq, Hash, Structural)]
pub enum SecondaryOperandField {
    /// `special_object` selector.
    SpecialObjectKind,
    /// `rest` first-argument index.
    RestFirstArgument,
    /// `apply` magic.
    ApplyMagic,
    /// `throw_error` kind.
    ThrowErrorKind,
    /// `define_method` kind and flags.
    DefineMethodFlags,
    /// `define_private_field` element kind.
    DefinePrivateFieldKind,
    /// `define_class` flags.
    DefineClassFlags,
    /// `with_*`'s `is_with` byte.
    IsWith,
    /// `iterator_call` flags.
    IteratorCallFlags,
}

/// Kind of control-flow edge being validated.
#[derive(Clone, Copy, Debug, PartialEq, Eq, Hash, Structural)]
pub enum ControlFlowEdge {
    /// Ordinary next-instruction edge.
    Fallthrough,
    /// Conditional taken edge.
    Branch,
    /// Unconditional jump edge.
    Jump,
    /// Exception-handler edge installed by `catch`.
    CatchHandler,
    /// Finally-subroutine edge installed by `gosub`.
    FinallySubroutine,
    /// Return continuation installed by `gosub`.
    FinallyContinuation,
    /// Resolved binding edge used by `with_*`.
    WithBinding,
}

/// Why a computed target is invalid.
#[derive(Clone, Copy, Debug, PartialEq, Eq, Hash, Structural)]
pub enum InvalidControlFlowTargetReason {
    /// The target is negative or at/beyond the bytecode end.
    OutsideBytecode,
    /// The target points into an instruction's operand payload.
    NotInstructionBoundary,
    /// A catch target used reserved PC zero.
    CatchTargetZero,
}

/// Missing semantic component that keeps an opcode fail-closed.
#[derive(Clone, Copy, Debug, PartialEq, Eq, Hash, Structural)]
pub enum UnsupportedVerifierFeature {
    /// Constant kind and nested function verification.
    ConstantPoolTyping,
    /// Raw function stack slots used by class construction.
    RawFunctionStack,
    /// Eval scope chains.
    EvalScopeMetadata,
    /// Captured vardef and closure metadata.
    CapturedBindingMetadata,
    /// Typed catch markers.
    CatchMarkers,
    /// Typed finally return addresses.
    FinallyReturnAddresses,
    /// Split `with` environment transfers.
    WithEnvironmentBranches,
    /// Typed iterator catch markers.
    IteratorMarkers,
    /// Packed stack-relative property-copy offsets.
    PackedStackOffsets,
}

/// A structured control-flow verifier failure.
#[allow(inconsistent_fields)]
#[derive(Clone, Copy, Debug, PartialEq, Eq, Hash, Structural)]
pub enum VerificationErrorKind {
    /// The bytecode stream is empty.
    EmptyBytecode,
    /// A configured resource limit was exceeded.
    LimitExceeded {
        /// Limited resource.
        resource: VerificationResource,
        /// Inclusive configured limit.
        limit: u64,
        /// Observed value.
        observed: u64,
    },
    /// A verifier-owned collection could not reserve capacity.
    AllocationFailed {
        /// Collection resource.
        resource: VerificationResource,
        /// Additional elements requested.
        requested: u64,
    },
    /// A fixed function count exceeded the structural maximum.
    MetadataCountOutOfRange {
        /// Count namespace.
        domain: FunctionCountDomain,
        /// Rejected count.
        value: u32,
        /// Inclusive maximum.
        maximum: u32,
    },
    /// A serialized function field contains disallowed bits.
    DisallowedFunctionBits {
        /// Rejected bit field.
        field: FunctionBitField,
        /// Complete rejected value.
        value: u16,
        /// Mask of bits allowed in this stored field.
        allowed_mask: u16,
        /// Rejected bits outside `allowed_mask`.
        disallowed_bits: u16,
    },
    /// More source arguments were marked defined than the function owns.
    DefinedArgumentCountOutOfRange {
        /// Count of source-defined arguments.
        defined: u32,
        /// Complete function argument count.
        argument_count: u32,
    },
    /// More variable-reference cells were declared than bindings can own.
    VariableReferenceCountOutOfRange {
        /// Declared variable-reference cell count.
        variable_references: u32,
        /// Function argument count.
        argument_count: u32,
        /// Function local count.
        local_count: u32,
    },
    /// The compiler capture table does not define every declared
    /// variable-reference cell exactly once.
    CompilerCaptureCountMismatch {
        /// Variable-reference cells declared by the function header.
        variable_references: u32,
        /// Entries supplied by the compiler capture layout.
        captures: u64,
    },
    /// Compiler output declared variable-reference cells without supplying
    /// their typed capture layout.
    MissingCompilerCaptureLayout {
        /// Variable-reference cells declared by the function header.
        variable_references: u32,
    },
    /// The compiler constant layout does not define every declared
    /// constant-pool entry exactly once.
    CompilerConstantCountMismatch {
        /// Constant-pool length declared by the function domains.
        declared: u32,
        /// Entries supplied by the compiler constant layout.
        entries: u64,
    },
    /// Compiler output declared constants without supplying their type layout.
    MissingCompilerConstantLayout {
        /// Constant-pool length declared by the function domains.
        constants: u32,
    },
    /// A constant-consuming opcode does not match the compiler-declared kind.
    CompilerConstantKindMismatch {
        /// Rejected constant-pool index.
        index: u32,
        /// Kind required by the opcode.
        expected: CompilerConstantKind,
        /// Kind supplied by the compiler layout.
        actual: CompilerConstantKind,
    },
    /// A compiler capture names a binding outside its frame domain.
    CompilerCaptureIndexOutOfBounds {
        /// Rejected binding.
        binding: CompilerCapturedBinding,
        /// Length of the binding's argument or local domain.
        len: u32,
    },
    /// Two variable-reference cells name the same frame binding.
    DuplicateCompilerCapture {
        /// Repeated binding. Function-local and scoped-local variants with the
        /// same index identify the same frame binding.
        binding: CompilerCapturedBinding,
    },
    /// A mapped arguments position is outside the function argument domain.
    CompilerMappedArgumentIndexOutOfBounds {
        /// Rejected formal position.
        index: u32,
        /// Function argument-domain length.
        len: u32,
    },
    /// Mapped arguments positions are not strictly ascending.
    CompilerMappedArgumentsNotAscending {
        /// Earlier position.
        previous: u32,
        /// Repeated or descending position.
        index: u32,
    },
    /// `close_loc` does not name an explicitly scoped captured local.
    CloseLocRequiresScopedCapture {
        /// Rejected local index.
        local: u32,
    },
    /// A packed flag is invalid for the decoded function kind.
    FunctionFlagNotAllowedForKind {
        /// Rejected packed flag.
        flag: FunctionHeaderFlag,
        /// Actual decoded function kind.
        kind: FunctionKind,
        /// Required function-kind family.
        requirement: FunctionKindRequirement,
    },
    /// Two packed function flags cannot describe the same function.
    ConflictingFunctionFlags {
        /// First conflicting flag.
        first: FunctionHeaderFlag,
        /// Second conflicting flag.
        second: FunctionHeaderFlag,
    },
    /// A configured stack limit exceeded the structural maximum.
    InvalidStackLimit {
        /// Rejected limit.
        value: u32,
        /// Structural maximum.
        maximum: u32,
    },
    /// Checked instruction decoding failed.
    Decode(DecodeError),
    /// An operand index is outside its function-local domain.
    IndexOutOfBounds {
        /// Operand namespace.
        domain: OperandIndexDomain,
        /// Rejected index.
        index: u32,
        /// Domain length.
        len: u32,
    },
    /// An instruction-specific field contains an unknown value.
    InvalidSecondaryOperand {
        /// Secondary field.
        field: SecondaryOperandField,
        /// Rejected raw value.
        value: u32,
    },
    /// Relative-target arithmetic overflowed.
    ControlFlowTargetOverflow {
        /// Edge being computed.
        edge: ControlFlowEdge,
        /// Target base.
        base: i64,
        /// Signed displacement.
        displacement: i64,
    },
    /// A control-flow target is outside the valid instruction-start set.
    InvalidControlFlowTarget {
        /// Edge being checked.
        edge: ControlFlowEdge,
        /// Computed signed target.
        target: i64,
        /// Complete bytecode length.
        bytecode_len: u32,
        /// Exact rejection reason.
        reason: InvalidControlFlowTargetReason,
    },
    /// An opcode's declared operand format did not provide its required
    /// control-flow displacement.
    MissingControlFlowOperand {
        /// Required format.
        expected: OperandFormat,
    },
    /// This partial verifier deliberately rejects the opcode.
    UnsupportedOpcodeSemantics {
        /// Semantic component still required.
        feature: UnsupportedVerifierFeature,
    },
    /// An opcode is invalid for the enclosing function kind.
    OpcodeNotAllowedForFunctionKind {
        /// Actual enclosing function kind.
        kind: FunctionKind,
        /// Function-kind family required by the opcode.
        requirement: FunctionKindRequirement,
    },
    /// Resolving the opcode's dynamic stack effect exposed a schema error.
    StackEffect(StackEffectError),
    /// An instruction removes more ordinary values than are available.
    StackUnderflow {
        /// Values required by the instruction.
        required: u32,
        /// Values available at entry.
        available: u32,
    },
    /// An instruction's output depth exceeded the configured limit.
    StackLimitExceeded {
        /// Computed output depth.
        depth: u64,
        /// Inclusive configured limit.
        limit: u32,
    },
    /// Two reachable predecessors supply different ordinary-value depths.
    InconsistentStackAtJoin {
        /// Join instruction PC.
        target: BytecodePc,
        /// Previously established depth.
        established_depth: u32,
        /// New incoming depth.
        incoming_depth: u32,
        /// Instruction that supplied the new edge.
        incoming_from: BytecodePc,
    },
    /// Compiler-generated reachable termination left ordinary values behind.
    NonEmptyCompilerExitStack {
        /// Values remaining after the terminal instruction's stack effect.
        remaining: u32,
    },
    /// The stored maximum does not equal the recomputed reachable maximum.
    SerializedStackSizeMismatch {
        /// Serialized or compiler-declared maximum.
        serialized: u32,
        /// Recomputed maximum.
        computed: u32,
    },
}

/// Verifier error with function and instruction context.
#[derive(Clone, Copy, Debug, PartialEq, Eq, Hash, Structural)]
pub struct VerificationError {
    /// Function that failed.
    pub function_path: FunctionPath,
    /// Offset of the offending instruction, where there is one.
    pub pc: Option<BytecodePc>,
    /// Opcode of the offending instruction, where it was decoded.
    pub opcode: Option<FinalOpcode>,
    /// The violated rule.
    pub kind: VerificationErrorKind,
}

/// Error about the function as a whole.
pub open spec fn root_error(kind: VerificationErrorKind) -> VerificationError {
    VerificationError { function_path: FunctionPath {  }, pc: None, opcode: None, kind }
}

/// Error at one decoded instruction.
pub open spec fn error_at(
    decoded: DecodedInstruction,
    kind: VerificationErrorKind,
) -> VerificationError {
    VerificationError {
        function_path: FunctionPath {  },
        pc: Some(decoded.pc),
        opcode: Some(decoded.instruction.opcode),
        kind,
    }
}

/// Offset and, where it is known, opcode that a decoding error names.
pub open spec fn decode_error_location_spec(error: DecodeError) -> (BytecodePc, Option<FinalOpcode>) {
    match error {
        DecodeError::PcNotRepresentable { pc } => (pc, None),
        DecodeError::PcOutOfBounds { pc, .. } => (pc, None),
        DecodeError::MissingOpcode { pc, .. } => (pc, None),
        DecodeError::InvalidOpcode { pc, .. } => (pc, None),
        DecodeError::NextPcOverflow { pc, .. } => (pc, None),
        DecodeError::TruncatedOperands { pc, opcode, .. } => (pc, Some(opcode)),
        DecodeError::OperandDecoding { pc, opcode } => (pc, Some(opcode)),
    }
}

/// Error that a decoding failure becomes.
pub open spec fn decode_error(source: DecodeError) -> VerificationError {
    VerificationError {
        function_path: FunctionPath {  },
        pc: Some(decode_error_location_spec(source).0),
        opcode: decode_error_location_spec(source).1,
        kind: VerificationErrorKind::Decode(source),
    }
}

fn decode_error_location(error: DecodeError) -> (location: (BytecodePc, Option<FinalOpcode>))
    ensures
        location == decode_error_location_spec(error),
{
    match error {
        DecodeError::PcNotRepresentable { pc } => (pc, None),
        DecodeError::PcOutOfBounds { pc, .. } => (pc, None),
        DecodeError::MissingOpcode { pc, .. } => (pc, None),
        DecodeError::InvalidOpcode { pc, .. } => (pc, None),
        DecodeError::NextPcOverflow { pc, .. } => (pc, None),
        DecodeError::TruncatedOperands { pc, opcode, .. } => (pc, Some(opcode)),
        DecodeError::OperandDecoding { pc, opcode } => (pc, Some(opcode)),
    }
}

impl VerificationError {
    /// Returns the function path.
    pub fn function_path(&self) -> (path: FunctionPath)
        ensures
            path == self.function_path,
    {
        self.function_path
    }

    /// Returns the relevant bytecode PC.
    pub fn pc(&self) -> (pc: Option<BytecodePc>)
        ensures
            pc == self.pc,
    {
        self.pc
    }

    /// Returns the relevant decoded opcode.
    pub fn opcode(&self) -> (opcode: Option<FinalOpcode>)
        ensures
            opcode == self.opcode,
    {
        self.opcode
    }

    /// Returns the exact violated rule.
    pub fn kind(&self) -> (kind: &VerificationErrorKind)
        ensures
            *kind == self.kind,
    {
        &self.kind
    }

    pub(crate) fn root(kind: VerificationErrorKind) -> (error: Self)
        ensures
            error == root_error(kind),
    {
        VerificationError { function_path: FunctionPath {  }, pc: None, opcode: None, kind }
    }

    pub(crate) fn at_instruction(
        decoded: DecodedInstruction,
        kind: VerificationErrorKind,
    ) -> (error: Self)
        ensures
            error == error_at(decoded, kind),
    {
        VerificationError {
            function_path: FunctionPath {  },
            pc: Some(decoded.pc),
            opcode: Some(decoded.instruction.opcode),
            kind,
        }
    }

    pub(crate) fn from_decode(source: DecodeError) -> (error: Self)
        ensures
            error == decode_error(source),
    {
        let (pc, opcode) = decode_error_location(source);
        VerificationError {
            function_path: FunctionPath {  },
            pc: Some(pc),
            opcode,
            kind: VerificationErrorKind::Decode(source),
        }
    }
}

impl FunctionCountDomain {
    /// Words that name the value in messages.
    pub open spec fn spec_label(self) -> Seq<char> {
        match self {
            FunctionCountDomain::Arguments => "argument"@,
            FunctionCountDomain::Locals => "local"@,
            FunctionCountDomain::VariableReferences => "variable-reference"@,
            FunctionCountDomain::ClosureVariables => "closure-variable"@,
            FunctionCountDomain::ExpectedStackSize => "expected stack-size"@,
        }
    }

    /// Returns the words that name the value in messages.
    pub fn label(self) -> (label: &'static str)
        ensures
            label@ == self.spec_label(),
    {
        match self {
            FunctionCountDomain::Arguments => "argument",
            FunctionCountDomain::Locals => "local",
            FunctionCountDomain::VariableReferences => "variable-reference",
            FunctionCountDomain::ClosureVariables => "closure-variable",
            FunctionCountDomain::ExpectedStackSize => "expected stack-size",
        }
    }
}

impl OperandIndexDomain {
    /// Words that name the value in messages.
    pub open spec fn spec_label(self) -> Seq<char> {
        match self {
            OperandIndexDomain::AtomPool => "atom-pool"@,
            OperandIndexDomain::ConstantPool => "constant-pool"@,
            OperandIndexDomain::Local => "local"@,
            OperandIndexDomain::Argument => "argument"@,
            OperandIndexDomain::ClosureVariable => "closure-variable"@,
        }
    }

    /// Returns the words that name the value in messages.
    pub fn label(self) -> (label: &'static str)
        ensures
            label@ == self.spec_label(),
    {
        match self {
            OperandIndexDomain::AtomPool => "atom-pool",
            OperandIndexDomain::ConstantPool => "constant-pool",
            OperandIndexDomain::Local => "local",
            OperandIndexDomain::Argument => "argument",
            OperandIndexDomain::ClosureVariable => "closure-variable",
        }
    }
}

impl SecondaryOperandField {
    /// Words that name the value in messages.
    pub open spec fn spec_label(self) -> Seq<char> {
        match self {
            SecondaryOperandField::SpecialObjectKind => "special-object kind"@,
            SecondaryOperandField::RestFirstArgument => "rest first-argument index"@,
            SecondaryOperandField::ApplyMagic => "apply magic"@,
            SecondaryOperandField::ThrowErrorKind => "throw-error kind"@,
            SecondaryOperandField::DefineMethodFlags => "define-method flags"@,
            SecondaryOperandField::DefinePrivateFieldKind => "define-private-field kind"@,
            SecondaryOperandField::DefineClassFlags => "define-class flags"@,
            SecondaryOperandField::IsWith => "is-with flag"@,
            SecondaryOperandField::IteratorCallFlags => "iterator-call flags"@,
        }
    }

    /// Returns the words that name the value in messages.
    pub fn label(self) -> (label: &'static str)
        ensures
            label@ == self.spec_label(),
    {
        match self {
            SecondaryOperandField::SpecialObjectKind => "special-object kind",
            SecondaryOperandField::RestFirstArgument => "rest first-argument index",
            SecondaryOperandField::ApplyMagic => "apply magic",
            SecondaryOperandField::ThrowErrorKind => "throw-error kind",
            SecondaryOperandField::DefineMethodFlags => "define-method flags",
            SecondaryOperandField::DefinePrivateFieldKind => "define-private-field kind",
            SecondaryOperandField::DefineClassFlags => "define-class flags",
            SecondaryOperandField::IsWith => "is-with flag",
            SecondaryOperandField::IteratorCallFlags => "iterator-call flags",
        }
    }
}

impl ControlFlowEdge {
    /// Words that name the value in messages.
    pub open spec fn spec_label(self) -> Seq<char> {
        match self {
            ControlFlowEdge::Fallthrough => "fallthrough"@,
            ControlFlowEdge::Branch => "branch"@,
            ControlFlowEdge::Jump => "jump"@,
            ControlFlowEdge::CatchHandler => "catch-handler"@,
            ControlFlowEdge::FinallySubroutine => "finally-subroutine"@,
            ControlFlowEdge::FinallyContinuation => "finally-continuation"@,
            ControlFlowEdge::WithBinding => "with-binding"@,
        }
    }

    /// Returns the words that name the value in messages.
    pub fn label(self) -> (label: &'static str)
        ensures
            label@ == self.spec_label(),
    {
        match self {
            ControlFlowEdge::Fallthrough => "fallthrough",
            ControlFlowEdge::Branch => "branch",
            ControlFlowEdge::Jump => "jump",
            ControlFlowEdge::CatchHandler => "catch-handler",
            ControlFlowEdge::FinallySubroutine => "finally-subroutine",
            ControlFlowEdge::FinallyContinuation => "finally-continuation",
            ControlFlowEdge::WithBinding => "with-binding",
        }
    }
}

impl InvalidControlFlowTargetReason {
    /// Words that name the value in messages.
    pub open spec fn spec_label(self) -> Seq<char> {
        match self {
            InvalidControlFlowTargetReason::OutsideBytecode => "target is outside the bytecode"@,
            InvalidControlFlowTargetReason::NotInstructionBoundary => "target is not an instruction boundary"@,
            InvalidControlFlowTargetReason::CatchTargetZero => "PC zero is reserved as an iterator-unwind sentinel"@,
        }
    }

    /// Returns the words that name the value in messages.
    pub fn label(self) -> (label: &'static str)
        ensures
            label@ == self.spec_label(),
    {
        match self {
            InvalidControlFlowTargetReason::OutsideBytecode => "target is outside the bytecode",
            InvalidControlFlowTargetReason::NotInstructionBoundary => "target is not an instruction boundary",
            InvalidControlFlowTargetReason::CatchTargetZero => "PC zero is reserved as an iterator-unwind sentinel",
        }
    }
}

impl UnsupportedVerifierFeature {
    /// Words that name the value in messages.
    pub open spec fn spec_label(self) -> Seq<char> {
        match self {
            UnsupportedVerifierFeature::ConstantPoolTyping => "constant-pool-typing"@,
            UnsupportedVerifierFeature::RawFunctionStack => "raw-function-stack"@,
            UnsupportedVerifierFeature::EvalScopeMetadata => "eval-scope-metadata"@,
            UnsupportedVerifierFeature::CapturedBindingMetadata => "captured-binding-metadata"@,
            UnsupportedVerifierFeature::CatchMarkers => "catch-markers"@,
            UnsupportedVerifierFeature::FinallyReturnAddresses => "finally-return-addresses"@,
            UnsupportedVerifierFeature::WithEnvironmentBranches => "with-environment-branches"@,
            UnsupportedVerifierFeature::IteratorMarkers => "iterator-markers"@,
            UnsupportedVerifierFeature::PackedStackOffsets => "packed-stack-offsets"@,
        }
    }

    /// Returns the words that name the value in messages.
    pub fn label(self) -> (label: &'static str)
        ensures
            label@ == self.spec_label(),
    {
        match self {
            UnsupportedVerifierFeature::ConstantPoolTyping => "constant-pool-typing",
            UnsupportedVerifierFeature::RawFunctionStack => "raw-function-stack",
            UnsupportedVerifierFeature::EvalScopeMetadata => "eval-scope-metadata",
            UnsupportedVerifierFeature::CapturedBindingMetadata => "captured-binding-metadata",
            UnsupportedVerifierFeature::CatchMarkers => "catch-markers",
            UnsupportedVerifierFeature::FinallyReturnAddresses => "finally-return-addresses",
            UnsupportedVerifierFeature::WithEnvironmentBranches => "with-environment-branches",
            UnsupportedVerifierFeature::IteratorMarkers => "iterator-markers",
            UnsupportedVerifierFeature::PackedStackOffsets => "packed-stack-offsets",
        }
    }
}

} // verus!
