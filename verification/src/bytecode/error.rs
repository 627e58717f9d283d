//! Failures of whole-graph verification.
use crate::bytecode::model::{BytecodeGraphResource, SourceByteSpan};
use crate::function_graph::FunctionTemplateId;
use crate::instruction::BytecodePc;
use crate::opcode::FinalOpcode;
use vstd::prelude::*;

verus! {

/// Metadata field that names an atom.
#[derive(Clone, Copy, Debug, PartialEq, Eq, Hash, Structural)]
pub enum MetadataAtomField {
    /// Name of the function.
    FunctionName,
    /// Name of one variable definition.
    VariableName(u32),
    /// Name of one closure definition.
    ClosureName(u32),
    /// Specifier of one module request.
    ModuleRequestSpecifier(u32),
    /// Name of one module binding.
    ModuleBindingName(u32),
    /// Imported name of one module binding.
    ModuleImportName(u32),
}

/// Binding that a policy error is about.
#[derive(Clone, Copy, Debug, PartialEq, Eq, Hash, Structural)]
pub enum BindingSlot {
    /// An argument.
    Argument(u32),
    /// A local.
    Local(u32),
    /// A closure variable.
    Closure(u32),
}

/// How a binding policy is violated.
#[derive(Clone, Copy, Debug, PartialEq, Eq, Hash, Structural)]
pub enum BindingPolicyViolationReason {
    /// The declared policy is not a valid combination.
    InvalidDeclarationPolicy,
    /// An argument is not a plain parameter.
    InvalidArgumentDefinition,
    /// The scope flag contradicts the policy.
    ScopeFlagMismatch,
    /// A lexical binding is initialized at the wrong place.
    InvalidLexicalInitialization,
}

/// A structured whole-graph verification failure.
#[allow(inconsistent_fields)]
#[derive(Clone, Copy, Debug, PartialEq, Eq, Hash, Structural)]
pub enum BytecodeVerificationErrorKind {
    /// A graph-wide resource limit was exceeded.
    LimitExceeded { resource: BytecodeGraphResource, limit: u64, observed: u64 },
    /// A verifier-owned collection could not reserve capacity.
    AllocationFailed { resource: BytecodeGraphResource, requested: u64 },
    /// The metadata records do not match the functions one to one.
    FunctionMetadataCountMismatch { functions: u64, metadata: u64 },
    /// A function template is not owned by exactly one parent.
    FunctionTemplateOwnershipMismatch { child: FunctionTemplateId, incoming: u64 },
    /// A global script is not the root.
    GlobalScriptNotRoot,
    /// A global script carries a function name.
    GlobalScriptHasFunctionName,
    /// An indirect eval script is not the root.
    IndirectEvalScriptNotRoot,
    /// An indirect eval script carries a function name.
    IndirectEvalScriptHasFunctionName,
    /// A direct eval script is not the root.
    DirectEvalScriptNotRoot,
    /// A direct eval script carries a local function name.
    DirectEvalScriptHasFunctionName,
    /// An arrow carries a local function name.
    OrdinaryArrowHasFunctionName,
    /// A method carries a local function name.
    OrdinaryMethodHasFunctionName,
    /// A dynamic function script is not the root.
    DynamicFunctionScriptNotRoot,
    /// A dynamic function script carries a function name.
    DynamicFunctionScriptHasFunctionName,
    /// A module is not the root.
    ModuleNotRoot,
    /// A module carries a function name.
    ModuleHasFunctionName,
    /// The header does not fit the executable kind.
    UnsupportedFunctionHeader,
    /// A global script declares arguments.
    GlobalScriptHasArguments { defined: u32, arguments: u32 },
    /// An indirect eval script declares arguments.
    IndirectEvalScriptHasArguments { defined: u32, arguments: u32 },
    /// A direct eval script declares arguments.
    DirectEvalScriptHasArguments { defined: u32, arguments: u32 },
    /// A dynamic function script declares arguments.
    DynamicFunctionScriptHasArguments { defined: u32, arguments: u32 },
    /// A module declares arguments.
    ModuleHasArguments { defined: u32, arguments: u32 },
    /// The defined arguments do not fit the argument domain.
    DefinedArgumentCountMismatch { defined: u32, arguments: u32 },
    /// The variable definitions do not cover arguments and locals.
    VariableDefinitionCountMismatch { declared: u64, entries: u64 },
    /// The closure definitions do not cover the closure variables.
    ClosureDefinitionCountMismatch { declared: u32, entries: u64 },
    /// The source mappings do not cover the instructions.
    SourceMappingCountMismatch { instructions: u64, mappings: u64 },
    /// The arguments-object binding and its initializer disagree.
    ArgumentsObjectMetadataMismatch { definition: Option<u32>, pc: Option<BytecodePc> },
    /// A function initializer does not fit its definition.
    FunctionInitializerMetadataMismatch { definition: u32, constant: Option<u32> },
    /// A local ends in the argument scope.
    ArgumentScopeMetadataUnsupported { definition: u32 },
    /// A scope link joins a lexical and a function-scoped local.
    ScopeLinkKindMismatch { definition: u32, target: u32 },
    /// A scope link leaves the local domain.
    ScopeLinkOutOfBounds { definition: u32, target: u32, locals: u32 },
    /// Scope links form a cycle.
    ScopeLinkCycle { local: u32 },
    /// A definition names no declared variable-reference cell.
    VariableReferenceOutOfBounds { definition: u32, reference: u32, len: u32 },
    /// Two definitions name one variable-reference cell.
    DuplicateVariableReference { reference: u32 },
    /// Two definitions are initialized by one constant.
    FunctionInitializerConstantReused { constant: u32, first: u32, duplicate: u32 },
    /// The captured definitions do not cover the declared cells.
    VariableReferenceDomainMismatch { declared: u32, captured: u32 },
    /// A definition and the capture layout disagree about a cell.
    CaptureLayoutMismatch { reference: u32 },
    /// A direct eval names no local as its scope head.
    EvalScopeIndexOutOfBounds { pc: BytecodePc, scope_index: u16, locals: u32 },
    /// A direct eval names a local without scope as its scope head.
    EvalScopeHeadNotLexical { pc: BytecodePc, local: u32 },
    /// A function initializer stands at the wrong place.
    FunctionInitializerPlacementMismatch { definition: u32, pc: BytecodePc },
    /// A definition is not initialized by exactly one instruction pair.
    FunctionInitializerOpcodeMismatch { definition: u32, constant: u32, matches: u32 },
    /// A closure's function initializer does not fit it.
    RealmGlobalFunctionInitializerMetadataMismatch { closure: u32, constant: Option<u32> },
    /// A closure is not initialized by exactly one instruction pair.
    RealmGlobalFunctionInitializerOpcodeMismatch { closure: u32, constant: u32, matches: u32 },
    /// A closure's function initializer stands at the wrong place.
    RealmGlobalFunctionInitializerPlacementMismatch { closure: u32, pc: BytecodePc },
    /// A global lexical binding is not initialized where it is declared.
    RealmGlobalLexicalInitializerCountMismatch { closure: u32, matches: u32 },
    /// Only the root of a direct eval may bind its caller's variables.
    DirectEvalBindingSourceRequiresDirectEvalScript { closure: u32 },
    /// Only a root script may bind realm globals.
    ConstructorRealmGlobalSourceRequiresDynamicFunctionScript { closure: u32 },
    /// A closure definition and its source disagree.
    ClosureMetadataMismatch { child: FunctionTemplateId, closure: u32 },
    /// A required metadata atom is absent.
    MissingMetadataAtom { field: MetadataAtomField },
    /// A metadata atom lies outside the atom pool.
    MetadataAtomOutOfBounds { field: MetadataAtomField, index: u32, len: u32 },
    /// A metadata atom is reserved for static properties.
    StaticPropertyOnlyMetadataAtom { field: MetadataAtomField, index: u32 },
    /// The source has no display name.
    EmptySourceDisplayName,
    /// The function name and its span do not occur together.
    FunctionNameSourceMismatch,
    /// The name span lies outside the function span.
    FunctionNameOutsideFunction,
    /// There are more strict-mode offsets than instructions.
    StrictModeInstructionCountOutOfBounds { strict_instructions: u64, instructions: u64 },
    /// Strict-mode offsets do not increase.
    StrictModePcNotIncreasing { index: u32, previous: BytecodePc, current: BytecodePc },
    /// A strict-mode offset starts no instruction.
    StrictModePcNotInstruction { index: u32, pc: BytecodePc },
    /// A source mapping names another offset than its instruction.
    SourcePcMismatch { mapping: u32, declared: BytecodePc, actual: BytecodePc },
    /// A source mapping lies outside the function span.
    InstructionSourceOutsideFunction { mapping: u32 },
    /// A span is not a range of whole characters of the source.
    InvalidSourceSpan { span: SourceByteSpan },
    /// A module has no declaration record.
    ModuleDeclarationRecordMissing,
    /// A declaration record belongs to no module.
    ModuleDeclarationRecordUnexpected,
    /// A module binding names no root closure.
    ModuleBindingSlotOutOfBounds { binding: u32, slot: u32, closures: u32 },
    /// Two module bindings name one root closure.
    ModuleBindingSlotOrder { binding: u32, slot: u32 },
    /// A module binding and its root closure disagree.
    ModuleBindingSlotMismatch { binding: u32, slot: u32 },
    /// A module binding's policy or import does not fit its origin.
    ModuleBindingPolicyMismatch { binding: u32 },
    /// A module binding initialized elsewhere has an initializer.
    ModuleBindingInitializerMismatch { binding: u32, constant: Option<u32> },
    /// An import names no module request.
    ModuleImportRequestOutOfBounds { binding: u32, request: u32, requests: u32 },
    /// An opcode is not admitted in this kind of function.
    UnsupportedCompilerOpcode { pc: BytecodePc, opcode: FinalOpcode },
    /// A function enters finally subroutines at too many places.
    GosubSiteCountOutOfRange { sites: u64, maximum: u32 },
    /// Finally markers disagree where edges meet.
    FinallyReturnJoinMismatch { target: BytecodePc, incoming_from: BytecodePc },
    /// Catch markers disagree where edges meet.
    CatchMarkerJoinMismatch { target: BytecodePc, incoming_from: BytecodePc },
    /// For-in markers disagree where edges meet.
    ForInIteratorJoinMismatch { target: BytecodePc, incoming_from: BytecodePc },
    /// For-of markers disagree where edges meet.
    ForOfIteratorJoinMismatch { target: BytecodePc, incoming_from: BytecodePc },
    /// An instruction misuses a finally marker.
    FinallyReturnStackMismatch { pc: BytecodePc, opcode: FinalOpcode },
    /// An instruction misuses a catch marker.
    CatchMarkerStackMismatch { pc: BytecodePc, opcode: FinalOpcode },
    /// An instruction misuses a for-in marker.
    ForInIteratorStackMismatch { pc: BytecodePc, opcode: FinalOpcode },
    /// An instruction misuses a for-of marker.
    ForOfIteratorStackMismatch { pc: BytecodePc, opcode: FinalOpcode },
    /// A terminal leaves a finally marker.
    FinallyReturnMarkerAtExit { pc: BytecodePc },
    /// A terminal leaves a catch marker.
    CatchMarkerAtExit { pc: BytecodePc },
    /// A terminal leaves a for-in marker.
    ForInIteratorMarkerAtExit { pc: BytecodePc },
    /// A terminal leaves a for-of marker.
    ForOfIteratorMarkerAtExit { pc: BytecodePc },
    /// An instruction misuses an array under construction.
    AppendOperandStackMismatch { pc: BytecodePc, opcode: FinalOpcode },
    /// A terminal leaves an array under construction.
    AppendMarkerAtExit { pc: BytecodePc },
    /// Arrays under construction disagree where edges meet.
    AppendProvenanceJoinMismatch { target: BytecodePc, incoming_from: BytecodePc },
    /// A definition has no certified target.
    DefineMethodTargetMismatch { pc: BytecodePc },
    /// An element definition has no certified target and key.
    DefineArrayElementKeyMismatch { pc: BytecodePc },
    /// A class definition has the wrong operands.
    DefineClassTemplateMismatch { pc: BytecodePc },
    /// A binding is declared or used against its policy.
    BindingPolicyViolation { slot: BindingSlot, pc: Option<BytecodePc>, reason: BindingPolicyViolationReason },
}

/// Whole-graph verification failure with the function it concerns.
#[derive(Clone, Copy, Debug, PartialEq, Eq, Hash, Structural)]
pub struct BytecodeVerificationError {
    /// Function that failed, absent for the graph as a whole.
    pub function: Option<FunctionTemplateId>,
    /// The violated rule.
    pub kind: BytecodeVerificationErrorKind,
}

/// Error about the graph as a whole.
pub open spec fn graph_error(kind: BytecodeVerificationErrorKind) -> BytecodeVerificationError {
    BytecodeVerificationError { function: None, kind }
}

/// Error about one function.
pub open spec fn function_error(
    id: FunctionTemplateId,
    kind: BytecodeVerificationErrorKind,
) -> BytecodeVerificationError {
    BytecodeVerificationError { function: Some(id), kind }
}

impl BytecodeVerificationError {
    /// Creates an error about the graph as a whole.
    pub fn graph(kind: BytecodeVerificationErrorKind) -> (error: Self)
        ensures
            error == graph_error(kind),
    {
        BytecodeVerificationError { function: None, kind }
    }

    /// Creates an error about one function.
    pub fn function(id: FunctionTemplateId, kind: BytecodeVerificationErrorKind) -> (error: Self)
        ensures
            error == function_error(id, kind),
    {
        BytecodeVerificationError { function: Some(id), kind }
    }

    /// Returns the violated rule.
    pub fn kind(&self) -> (kind: &BytecodeVerificationErrorKind)
        ensures
            *kind == self.kind,
    {
        &self.kind
    }
}

/// Violation of a binding policy.
pub open spec fn spec_policy_error(
    id: FunctionTemplateId,
    slot: BindingSlot,
    pc: Option<BytecodePc>,
    reason: BindingPolicyViolationReason,
) -> BytecodeVerificationError {
    function_error(id, BytecodeVerificationErrorKind::BindingPolicyViolation { slot, pc, reason })
}

pub(crate) fn policy_error(
    id: FunctionTemplateId,
    slot: BindingSlot,
    pc: Option<BytecodePc>,
    reason: BindingPolicyViolationReason,
) -> (error: BytecodeVerificationError)
    ensures
        error == spec_policy_error(id, slot, pc, reason),
{
    BytecodeVerificationError::function(
        id,
        BytecodeVerificationErrorKind::BindingPolicyViolation { slot, pc, reason },
    )
}

} // verus!
