//! Compiler metadata, verified records and graph-wide budgets.
use crate::bytecode::internal_stack::InternalStackCertificate;
use crate::bytecode::internal_verifier::CertificateModel;
use crate::bytecode::lexical_environment::derived_this_flags;
use crate::bytecode::ownership::template_parents;
use crate::function_graph::{
    CompilerClosureSource, FunctionTemplateId, VerifiedCompilerFunction,
    VerifiedCompilerFunctionGraph,
};
use crate::instruction::{AtomPoolIndex, BytecodePc};
use std::sync::Arc;
use vstd::prelude::*;
use vstd::string::StringSliceAdditionalSpecFns;
use vstd::utf8::{is_char_boundary, is_char_boundary_iff_not_is_continuation_byte};

verus! {

/// Default of a graph-wide limit.
pub const DEFAULT_MAX_VARIABLE_DEFINITIONS: u64 = 1_048_576;

/// Default of a graph-wide limit.
pub const DEFAULT_MAX_CLOSURE_DEFINITIONS: u64 = 1_048_576;

/// Default of a graph-wide limit.
pub const DEFAULT_MAX_SOURCE_BYTES: u64 = 64 * 1024 * 1024;

/// Default of a graph-wide limit.
pub const DEFAULT_MAX_SOURCE_MAPPINGS: u64 = 8_388_608;

/// Default of a graph-wide limit.
pub const DEFAULT_MAX_FRAME_STATE_ENTRIES: u64 = 33_554_432;

/// Default of a graph-wide limit.
pub const DEFAULT_MAX_POLICY_TRANSFERS: u64 = 33_554_432;

/// Maximum `gosub` sites accepted in one function by the compatibility
/// profile.
pub const MAX_GOSUB_SITES_PER_FUNCTION: u32 = 65_534;

/// Source declaration category retained by executable compiler metadata.
#[derive(Clone, Copy, Debug, PartialEq, Eq, Hash, Structural)]
pub enum CompilerBindingKind {
    /// A simple formal parameter.
    Parameter,
    /// A function-scoped `var`.
    Var,
    /// A lexical mutable binding.
    Let,
    /// A lexical immutable binding.
    Const,
    /// The immutable inner binding created for a named class definition.
    ClassName,
    /// The compiler-created immutable class-scope cell for one evaluated
    /// computed public field key.
    ClassFieldKey,
    /// The compiler-created immutable class-scope cell holding the hidden
    /// instance-element initializer method.
    ClassInstanceInitializer,
    /// The compiler-created immutable class-scope cell for one fresh private
    /// instance-field name.
    ClassPrivateName,
    /// The compiler-created immutable class-scope receiver cell used by
    /// static field initializers that lexically observe `this` or resolve a
    /// `super` property.
    ClassStaticReceiver,
    /// The compiler-created immutable cell holding an active Object
    /// Environment Record's binding object for a sloppy `with` statement.
    ///
    /// This is not an ECMAScript declarative binding. Its distinct metadata
    /// kind lets direct eval reconstruct the intervening dynamic environment
    /// without exposing the compiler's hidden cell name to source code.
    WithObject,
    /// A function declaration.
    Function,
    /// A named function-expression self binding.
    FunctionName,
    /// A catch-clause parameter.
    Catch,
    /// An unresolved name looked up in the constructor realm's global
    /// environment each time a global opcode executes.
    GlobalReference,
}

/// When a compiler binding receives its first language-visible value.
#[derive(Clone, Copy, Debug, PartialEq, Eq, Hash, Structural)]
pub enum CompilerInitializationPolicy {
    /// Copied from the corresponding call argument.
    Argument,
    /// Initialized to `undefined` when the function frame is created.
    UndefinedAtInstantiation,
    /// Initialized by executing its declaration.
    AtDeclaration,
    /// Initialized with a closure during function instantiation.
    FunctionAtInstantiation,
    /// Initialized with a closure when its lexical scope is entered.
    FunctionAtScopeEntry,
    /// Initialized to the newly created named function object.
    FunctionName,
    /// Initialized when a catch clause is entered.
    Catch,
    /// Resolved against the constructor realm rather than initialized in a
    /// function frame.
    ConstructorRealmLookup,
}

/// Assignment behavior after a compiler binding is initialized.
#[derive(Clone, Copy, Debug, PartialEq, Eq, Hash, Structural)]
pub enum CompilerWritePolicy {
    /// Ordinary writes are permitted.
    Mutable,
    /// Every source write is rejected.
    Immutable,
    /// Sloppy writes are ignored while strict writes are rejected.
    ImmutableInStrictCode,
}

/// Complete compiler declaration policy needed by frame and closure checks.
#[derive(Clone, Copy, Debug, PartialEq, Eq, Hash, Structural)]
pub struct CompilerBindingPolicy {
    pub kind: CompilerBindingKind,
    pub initialization: CompilerInitializationPolicy,
    pub writes: CompilerWritePolicy,
    pub temporal_dead_zone: bool,
}

impl CompilerBindingPolicy {
    /// Creates an unverified compiler declaration policy.
    pub fn new(kind: CompilerBindingKind, initialization: CompilerInitializationPolicy, writes: CompilerWritePolicy, temporal_dead_zone: bool) -> (value: Self)
        ensures
            value == (CompilerBindingPolicy { kind, initialization, writes, temporal_dead_zone }),
    {
        CompilerBindingPolicy { kind, initialization, writes, temporal_dead_zone }
    }

    /// Returns the declaration category.
    pub fn kind(self) -> (value: CompilerBindingKind)
        ensures
            value == self.kind,
    {
        self.kind
    }

    /// Returns the initialization point.
    pub fn initialization(self) -> (value: CompilerInitializationPolicy)
        ensures
            value == self.initialization,
    {
        self.initialization
    }

    /// Returns the post-initialization write policy.
    pub fn writes(self) -> (value: CompilerWritePolicy)
        ensures
            value == self.writes,
    {
        self.writes
    }

    /// Returns whether reads must preserve temporal-dead-zone behavior.
    pub fn has_temporal_dead_zone(self) -> (value: bool)
        ensures
            value == self.temporal_dead_zone,
    {
        self.temporal_dead_zone
    }

    /// Whether the binding lives in a lexical scope.
    pub open spec fn spec_has_scope(self) -> bool {
        match self.kind {
            CompilerBindingKind::Let
            | CompilerBindingKind::Const
            | CompilerBindingKind::ClassName
            | CompilerBindingKind::ClassFieldKey
            | CompilerBindingKind::ClassInstanceInitializer
            | CompilerBindingKind::ClassPrivateName
            | CompilerBindingKind::ClassStaticReceiver
            | CompilerBindingKind::WithObject
            | CompilerBindingKind::Catch => true,
            _ => self.initialization == CompilerInitializationPolicy::FunctionAtScopeEntry,
        }
    }

    pub(crate) fn has_scope(self) -> (value: bool)
        ensures
            value == self.spec_has_scope(),
    {
        matches!(
            self.kind,
            CompilerBindingKind::Let
            | CompilerBindingKind::Const
            | CompilerBindingKind::ClassName
            | CompilerBindingKind::ClassFieldKey
            | CompilerBindingKind::ClassInstanceInitializer
            | CompilerBindingKind::ClassPrivateName
            | CompilerBindingKind::ClassStaticReceiver
            | CompilerBindingKind::WithObject
            | CompilerBindingKind::Catch
        ) || matches!(self.initialization, CompilerInitializationPolicy::FunctionAtScopeEntry)
    }

    /// Whether initialization, writes and temporal dead zone fit the kind.
    pub open spec fn spec_is_valid(self) -> bool {
        let mutable = self.writes == CompilerWritePolicy::Mutable;
        let immutable = self.writes == CompilerWritePolicy::Immutable;
        match self.kind {
            CompilerBindingKind::Parameter => self.initialization
                == CompilerInitializationPolicy::Argument && mutable,
            CompilerBindingKind::Var => self.initialization
                == CompilerInitializationPolicy::UndefinedAtInstantiation && mutable
                && !self.temporal_dead_zone,
            CompilerBindingKind::Let => self.initialization
                == CompilerInitializationPolicy::AtDeclaration && mutable
                && self.temporal_dead_zone,
            CompilerBindingKind::Const
            | CompilerBindingKind::ClassName
            | CompilerBindingKind::ClassFieldKey
            | CompilerBindingKind::ClassInstanceInitializer
            | CompilerBindingKind::ClassPrivateName
            | CompilerBindingKind::ClassStaticReceiver
            | CompilerBindingKind::WithObject => self.initialization
                == CompilerInitializationPolicy::AtDeclaration && immutable
                && self.temporal_dead_zone,
            CompilerBindingKind::Function => (self.initialization
                == CompilerInitializationPolicy::FunctionAtInstantiation || self.initialization
                == CompilerInitializationPolicy::FunctionAtScopeEntry) && mutable
                && !self.temporal_dead_zone,
            CompilerBindingKind::FunctionName => self.initialization
                == CompilerInitializationPolicy::FunctionName && !mutable
                && !self.temporal_dead_zone,
            CompilerBindingKind::Catch => self.initialization
                == CompilerInitializationPolicy::Catch && mutable,
            CompilerBindingKind::GlobalReference => self.initialization
                == CompilerInitializationPolicy::ConstructorRealmLookup && mutable
                && !self.temporal_dead_zone,
        }
    }

    pub(crate) fn is_valid(self) -> (value: bool)
        ensures
            value == self.spec_is_valid(),
    {
        let mutable: bool = matches!(self.writes, CompilerWritePolicy::Mutable);
        match self.kind {
            CompilerBindingKind::Parameter => matches!(
                self.initialization,
                CompilerInitializationPolicy::Argument
            ) && mutable,
            CompilerBindingKind::Var => matches!(
                self.initialization,
                CompilerInitializationPolicy::UndefinedAtInstantiation
            ) && mutable && !self.temporal_dead_zone,
            CompilerBindingKind::Let => matches!(
                self.initialization,
                CompilerInitializationPolicy::AtDeclaration
            ) && mutable && self.temporal_dead_zone,
            CompilerBindingKind::Const
            | CompilerBindingKind::ClassName
            | CompilerBindingKind::ClassFieldKey
            | CompilerBindingKind::ClassInstanceInitializer
            | CompilerBindingKind::ClassPrivateName
            | CompilerBindingKind::ClassStaticReceiver
            | CompilerBindingKind::WithObject => matches!(
                self.initialization,
                CompilerInitializationPolicy::AtDeclaration
            ) && matches!(self.writes, CompilerWritePolicy::Immutable) && self.temporal_dead_zone,
            CompilerBindingKind::Function => matches!(
                self.initialization,
                CompilerInitializationPolicy::FunctionAtInstantiation
                | CompilerInitializationPolicy::FunctionAtScopeEntry
            ) && mutable && !self.temporal_dead_zone,
            CompilerBindingKind::FunctionName => matches!(
                self.initialization,
                CompilerInitializationPolicy::FunctionName
            ) && !mutable && !self.temporal_dead_zone,
            CompilerBindingKind::Catch => matches!(
                self.initialization,
                CompilerInitializationPolicy::Catch
            ) && mutable,
            CompilerBindingKind::GlobalReference => matches!(
                self.initialization,
                CompilerInitializationPolicy::ConstructorRealmLookup
            ) && mutable && !self.temporal_dead_zone,
        }
    }

    /// Whether the policy is valid for a variable of a function: no global
    /// reference, and a function's own name immutable as its strictness says.
    pub open spec fn spec_is_valid_for_function(self, strict: bool) -> bool {
        self.spec_is_valid() && self.kind != CompilerBindingKind::GlobalReference && (self.kind
            == CompilerBindingKind::FunctionName ==> self.writes == if strict {
            CompilerWritePolicy::Immutable
        } else {
            CompilerWritePolicy::ImmutableInStrictCode
        })
    }

    pub(crate) fn is_valid_for_function(self, strict: bool) -> (value: bool)
        ensures
            value == self.spec_is_valid_for_function(strict),
    {
        if !self.is_valid() || matches!(self.kind, CompilerBindingKind::GlobalReference) {
            return false;
        }
        match self.kind {
            CompilerBindingKind::FunctionName => if strict {
                matches!(self.writes, CompilerWritePolicy::Immutable)
            } else {
                matches!(self.writes, CompilerWritePolicy::ImmutableInStrictCode)
            },
            _ => true,
        }
    }
}

/// Link to the next local in the same or enclosing lexical scope.
#[derive(Clone, Copy, Debug, PartialEq, Eq, Hash, Structural)]
pub enum ScopeLink {
    /// End of an ordinary scope chain (`QuickJS` sentinel `-1`).
    End,
    /// End of a parameter-expression scope (`QuickJS` sentinel `-2`).
    ArgumentScopeEnd,
    /// Another local-variable slot.
    Local(u32),
}

/// One ordered argument or local compiler-metadata record.
///
/// Public construction is unverified; the same record is exposed through
/// [`VerifiedFunctionMetadata`] only after the complete graph check succeeds.
#[derive(Clone, Copy, Debug, PartialEq, Eq, Hash, Structural)]
pub struct VariableDefinition {
    pub name: Option<AtomPoolIndex>,
    pub scope_next: ScopeLink,
    pub policy: CompilerBindingPolicy,
    pub has_scope: bool,
    pub arguments_object: bool,
    pub variable_reference: Option<u32>,
    pub function_initializer: Option<u32>,
}

impl VariableDefinition {
    /// Creates an unverified variable definition.
    pub fn new(name: Option<AtomPoolIndex>, scope_next: ScopeLink, policy: CompilerBindingPolicy, has_scope: bool, variable_reference: Option<u32>) -> (value: Self)
        ensures
            value == (VariableDefinition { name, scope_next, policy, has_scope, arguments_object: false, variable_reference, function_initializer: None }),
    {
        VariableDefinition { name, scope_next, policy, has_scope, arguments_object: false, variable_reference, function_initializer: None }
    }

    /// Marks the compiler-synthesized function `arguments` object binding.
    pub fn with_arguments_object(self, arguments_object: bool) -> (value: Self)
        ensures
            value == (VariableDefinition { arguments_object: arguments_object, ..self }),
    {
        VariableDefinition { arguments_object: arguments_object, ..self }
    }

    /// Attaches the function-template constant that initializes this binding.
    pub fn with_function_initializer(self, constant: u32) -> (value: Self)
        ensures
            value == (VariableDefinition { function_initializer: Some(constant), ..self }),
    {
        VariableDefinition { function_initializer: Some(constant), ..self }
    }

    /// Returns the optional function-local name atom.
    pub fn name(&self) -> (value: Option<AtomPoolIndex>)
        ensures
            value == self.name,
    {
        self.name
    }

    /// Returns the lexical scope-chain link.
    pub fn scope_next(&self) -> (value: ScopeLink)
        ensures
            value == self.scope_next,
    {
        self.scope_next
    }

    /// Returns the declaration policy.
    pub fn policy(&self) -> (value: CompilerBindingPolicy)
        ensures
            value == self.policy,
    {
        self.policy
    }

    /// Returns whether the binding belongs to a non-function lexical scope.
    pub fn has_scope(&self) -> (value: bool)
        ensures
            value == self.has_scope,
    {
        self.has_scope
    }

    /// Returns whether this is the compiler-synthesized `arguments` object.
    pub fn is_arguments_object(&self) -> (value: bool)
        ensures
            value == self.arguments_object,
    {
        self.arguments_object
    }

    /// Returns the dense own variable-reference index when captured.
    pub fn variable_reference(&self) -> (value: Option<u32>)
        ensures
            value == self.variable_reference,
    {
        self.variable_reference
    }

    /// Returns the function-template constant used for declaration initialization.
    pub fn function_initializer(&self) -> (value: Option<u32>)
        ensures
            value == self.function_initializer,
    {
        self.function_initializer
    }
}

/// Storage origin retained for one closure-domain slot.
///
/// Realm-global bindings use the same final closure-slot operand domain as
/// captured cells, matching the `QuickJS` opcode contract, but remain
/// explicitly typed so installation and execution never infer their origin
/// from a declaration policy.
#[derive(Clone, Copy, Debug, PartialEq, Eq, Hash, Structural)]
pub enum CompilerClosureBinding {
    /// A cell imported from an enclosing function activation.
    Captured(CompilerBindingPolicy),
    /// An unresolved lookup or configurable indirect-eval `var` owned by the
    /// constructor realm. Evaluation-local lexical declarations never use
    /// this origin.
    RealmGlobal(CompilerBindingPolicy),
}

impl CompilerClosureBinding {
    /// Policy of the binding, wherever it is stored.
    pub open spec fn spec_policy(self) -> CompilerBindingPolicy {
        match self {
            CompilerClosureBinding::Captured(policy) => policy,
            CompilerClosureBinding::RealmGlobal(policy) => policy,
        }
    }

    /// Returns the policy of the binding, wherever it is stored.
    #[verifier::when_used_as_spec(spec_policy)]
    pub fn policy(self) -> (value: CompilerBindingPolicy)
        ensures
            value == self.spec_policy(),
    {
        match self {
            CompilerClosureBinding::Captured(policy) => policy,
            CompilerClosureBinding::RealmGlobal(policy) => policy,
        }
    }

    /// Returns whether the binding is a global of the realm.
    pub fn is_realm_global(self) -> (value: bool)
        ensures
            value == (self is RealmGlobal),
    {
        matches!(self, CompilerClosureBinding::RealmGlobal(_))
    }
}

/// One ordered imported closure compiler-metadata record.
///
/// Public construction is unverified; the same record is exposed through
/// [`VerifiedFunctionMetadata`] only after parent-edge checks succeed.
#[derive(Clone, Copy, Debug, PartialEq, Eq, Hash, Structural)]
pub struct ClosureVariableDefinition {
    pub name: Option<AtomPoolIndex>,
    pub binding: CompilerClosureBinding,
    pub source: CompilerClosureSource,
    pub arguments_object: bool,
    pub deletable_eval_variable: bool,
    pub function_initializer: Option<u32>,
}

impl ClosureVariableDefinition {
    /// Creates an unverified closure descriptor.
    pub fn new(name: Option<AtomPoolIndex>, policy: CompilerBindingPolicy, source: CompilerClosureSource) -> (value: Self)
        ensures
            value == (ClosureVariableDefinition { name, binding: CompilerClosureBinding::Captured(policy), source, arguments_object: false, deletable_eval_variable: false, function_initializer: None }),
    {
        ClosureVariableDefinition { name, binding: CompilerClosureBinding::Captured(policy), source, arguments_object: false, deletable_eval_variable: false, function_initializer: None }
    }

    /// Creates an unverified constructor-realm unresolved-name or
    /// indirect-eval `var` descriptor.
    pub fn realm_global(name: Option<AtomPoolIndex>, policy: CompilerBindingPolicy, source: CompilerClosureSource) -> (value: Self)
        ensures
            value == (ClosureVariableDefinition { name, binding: CompilerClosureBinding::RealmGlobal(policy), source, arguments_object: false, deletable_eval_variable: false, function_initializer: None }),
    {
        ClosureVariableDefinition { name, binding: CompilerClosureBinding::RealmGlobal(policy), source, arguments_object: false, deletable_eval_variable: false, function_initializer: None }
    }

    /// Marks a captured compiler-synthesized `arguments` object binding.
    pub fn with_arguments_object(self, arguments_object: bool) -> (value: Self)
        ensures
            value == (ClosureVariableDefinition { arguments_object: arguments_object, ..self }),
    {
        ClosureVariableDefinition { arguments_object: arguments_object, ..self }
    }

    /// Marks a captured binding created by sloppy direct eval. Such bindings
    /// remain dynamically name-resolved because `DeleteBinding` may remove
    /// them from the caller's variable environment.
    pub fn with_deletable_eval_variable(self, deletable: bool) -> (value: Self)
        ensures
            value == (ClosureVariableDefinition { deletable_eval_variable: deletable, ..self }),
    {
        ClosureVariableDefinition { deletable_eval_variable: deletable, ..self }
    }

    /// Attaches the function-template constant that initializes a
    /// constructor-realm global function declaration.
    pub fn with_function_initializer(self, constant: u32) -> (value: Self)
        ensures
            value == (ClosureVariableDefinition { function_initializer: Some(constant), ..self }),
    {
        ClosureVariableDefinition { function_initializer: Some(constant), ..self }
    }

    /// Returns the optional function-local name atom.
    pub fn name(&self) -> (value: Option<AtomPoolIndex>)
        ensures
            value == self.name,
    {
        self.name
    }

    /// Policy of the closure variable.
    pub open spec fn spec_policy(&self) -> CompilerBindingPolicy {
        self.binding.spec_policy()
    }

    /// Returns the policy of the closure variable.
    pub fn policy(&self) -> (value: CompilerBindingPolicy)
        ensures
            value == self.spec_policy(),
    {
        self.binding.policy()
    }

    /// Returns the verified storage origin and its declaration policy.
    pub fn binding(&self) -> (value: CompilerClosureBinding)
        ensures
            value == self.binding,
    {
        self.binding
    }

    /// Returns the immediate-parent closure source.
    pub fn source(&self) -> (value: CompilerClosureSource)
        ensures
            value == self.source,
    {
        self.source
    }

    /// Returns whether this capture originates at a synthesized `arguments`
    /// object binding.
    pub fn is_arguments_object(&self) -> (value: bool)
        ensures
            value == self.arguments_object,
    {
        self.arguments_object
    }

    /// Returns whether sloppy direct eval created this deletable binding.
    pub fn is_deletable_eval_variable(&self) -> (value: bool)
        ensures
            value == self.deletable_eval_variable,
    {
        self.deletable_eval_variable
    }

    /// Returns the function-template constant used for a constructor-realm
    /// global function declaration.
    pub fn function_initializer(&self) -> (value: Option<u32>)
        ensures
            value == self.function_initializer,
    {
        self.function_initializer
    }
}

/// Half-open UTF-8 byte span in one retained source artifact.
#[derive(Clone, Copy, Debug, PartialEq, Eq, Hash, Structural)]
pub struct SourceByteSpan {
    pub start: u32,
    pub end: u32,
}

impl SourceByteSpan {
    /// Creates an unverified half-open source span.
    pub fn new(start: u32, end: u32) -> (value: Self)
        ensures
            value == (SourceByteSpan { start, end }),
    {
        SourceByteSpan { start, end }
    }

    /// Returns the inclusive start byte.
    pub fn start(self) -> (value: u32)
        ensures
            value == self.start,
    {
        self.start
    }

    /// Returns the exclusive end byte.
    pub fn end(self) -> (value: u32)
        ensures
            value == self.end,
    {
        self.end
    }
}

/// One final instruction PC mapped to an exact source span.
#[derive(Clone, Copy, Debug, PartialEq, Eq, Hash, Structural)]
pub struct PcSourceSpan {
    pub pc: BytecodePc,
    pub span: SourceByteSpan,
}

impl PcSourceSpan {
    /// Creates an unverified PC-to-source mapping.
    pub fn new(pc: BytecodePc, span: SourceByteSpan) -> (value: Self)
        ensures
            value == (PcSourceSpan { pc, span }),
    {
        PcSourceSpan { pc, span }
    }

    /// Returns the final instruction PC.
    pub fn pc(self) -> (value: BytecodePc)
        ensures
            value == self.pc,
    {
        self.pc
    }

    /// Returns the mapped source span.
    pub fn span(self) -> (value: SourceByteSpan)
        ensures
            value == self.span,
    {
        self.span
    }
}

/// Owned source identity, text, function range, and final instruction map.
#[derive(Clone, Debug, PartialEq, Eq)]
pub struct CompilerSource {
    pub display_name: Arc<str>,
    pub text: Arc<str>,
    pub function_span: SourceByteSpan,
    pub name_span: Option<SourceByteSpan>,
    pub mappings: Arc<[PcSourceSpan]>,
    pub strict_mode_pcs: Option<Arc<[BytecodePc]>>,
}

impl CompilerSource {
    /// Creates an unverified compiler source record.
    pub fn new(display_name: Arc<str>, text: Arc<str>, function_span: SourceByteSpan, name_span: Option<SourceByteSpan>, mappings: Arc<[PcSourceSpan]>) -> (value: Self)
        ensures
            value == (CompilerSource { display_name, text, function_span, name_span, mappings, strict_mode_pcs: None }),
    {
        CompilerSource { display_name, text, function_span, name_span, mappings, strict_mode_pcs: None }
    }

    /// Attaches the offsets of instructions that run in strict mode; an empty
    /// list attaches nothing.
    pub fn with_strict_mode_pcs(self, strict_mode_pcs: Arc<[BytecodePc]>) -> (value: Self)
        ensures
            value == (CompilerSource {
                strict_mode_pcs: if strict_mode_pcs@.len() == 0 {
                    None
                } else {
                    Some(strict_mode_pcs)
                },
                ..self
            }),
    {
        if strict_mode_pcs.len() == 0 {
            CompilerSource { strict_mode_pcs: None, ..self }
        } else {
            CompilerSource { strict_mode_pcs: Some(strict_mode_pcs), ..self }
        }
    }
}

/// Compiler-owned execution role assigned to one function-graph record.
#[derive(Clone, Copy, Debug, PartialEq, Eq, Hash, Structural)]
pub enum CompilerExecutableKind {
    /// A host-loaded ECMAScript Global Script.
    GlobalScript,
    /// A Script compiled for an indirect invocation of `%eval%`.
    IndirectEvalScript,
    /// A Script compiled for a direct invocation of the caller's `%eval%`.
    DirectEvalScript,
    /// An ordinary callable JavaScript function.
    OrdinaryFunction,
    /// A synchronous lexical-this arrow function.
    OrdinaryArrow,
    /// An asynchronous lexical-this arrow function.
    AsyncArrow,
    /// A nonconstructable ordinary object-literal method, getter, or setter.
    OrdinaryMethod,
    /// The hidden strict method that initializes one class's instance
    /// elements. It is retained only in a compiler-owned class-scope cell.
    ClassInstanceInitializer,
    /// A strict constructable base-class constructor. Its public prototype
    /// object is installed by the paired `define_class` instruction.
    ClassConstructor,
    /// A nonconstructable synchronous generator function.
    GeneratorFunction,
    /// A synchronous generator object-literal method.
    GeneratorMethod,
    /// A nonconstructable asynchronous function.
    AsyncFunction,
    /// An asynchronous object-literal method.
    AsyncMethod,
    /// A nonconstructable asynchronous generator function.
    AsyncGeneratorFunction,
    /// An asynchronous generator object-literal method.
    AsyncGeneratorMethod,
    /// The constructor-realm global Script produced for dynamic `Function`.
    DynamicFunctionScript,
    /// An ECMAScript Module root body.
    ///
    /// The module root owns a module environment of cells materialized by the
    /// runtime linker; its top-level bindings are module-local or imported
    /// cells and never touch the realm global environment.
    Module,
}

impl Default for CompilerExecutableKind {
    fn default() -> (kind: Self)
        ensures
            kind == CompilerExecutableKind::OrdinaryFunction,
    {
        CompilerExecutableKind::OrdinaryFunction
    }
}

/// One complete function metadata record awaiting final verification.
#[derive(Clone, Debug, PartialEq, Eq)]
pub struct UnverifiedFunctionMetadata {
    pub executable_kind: CompilerExecutableKind,
    pub function_name: Option<AtomPoolIndex>,
    pub variables: Arc<[VariableDefinition]>,
    pub closures: Arc<[ClosureVariableDefinition]>,
    pub source: CompilerSource,
}

impl UnverifiedFunctionMetadata {
    /// Creates one unverified metadata record.
    pub fn new(function_name: Option<AtomPoolIndex>, variables: Arc<[VariableDefinition]>, closures: Arc<[ClosureVariableDefinition]>, source: CompilerSource) -> (value: Self)
        ensures
            value == (UnverifiedFunctionMetadata { executable_kind: CompilerExecutableKind::OrdinaryFunction, function_name, variables, closures, source }),
    {
        UnverifiedFunctionMetadata { executable_kind: CompilerExecutableKind::OrdinaryFunction, function_name, variables, closures, source }
    }

    /// Selects the compiler-owned execution role for this record.
    pub fn with_executable_kind(self, executable_kind: CompilerExecutableKind) -> (value: Self)
        ensures
            value == (UnverifiedFunctionMetadata { executable_kind: executable_kind, ..self }),
    {
        UnverifiedFunctionMetadata { executable_kind: executable_kind, ..self }
    }

    /// Returns the requested compiler-owned execution role.
    pub fn executable_kind(&self) -> (value: CompilerExecutableKind)
        ensures
            value == self.executable_kind,
    {
        self.executable_kind
    }
}

/// One static module request retained for the runtime linker.
#[derive(Clone, Copy, Debug, PartialEq, Eq, Hash, Structural)]
pub struct ModuleRequestDescriptor {
    pub specifier: AtomPoolIndex,
    pub has_assertions: bool,
}

impl ModuleRequestDescriptor {
    /// Creates one module request descriptor.
    pub fn new(specifier: AtomPoolIndex, has_assertions: bool) -> (value: Self)
        ensures
            value == (ModuleRequestDescriptor { specifier, has_assertions }),
    {
        ModuleRequestDescriptor { specifier, has_assertions }
    }

    /// Returns the module specifier atom.
    pub fn specifier(self) -> (value: AtomPoolIndex)
        ensures
            value == self.specifier,
    {
        self.specifier
    }

    /// Returns whether the request carries import attributes.
    pub fn has_assertions(self) -> (value: bool)
        ensures
            value == self.has_assertions,
    {
        self.has_assertions
    }
}

/// The origin category of one module-environment binding.
#[derive(Clone, Copy, Debug, PartialEq, Eq, Hash, Structural)]
pub enum ModuleBindingOrigin {
    /// A module-local declaration cell.
    Local,
    /// A named or default live import cell.
    Import,
    /// A namespace import cell holding a module namespace object.
    Namespace,
}

/// The import-side name carried by a module import binding.
#[derive(Clone, Copy, Debug, PartialEq, Eq, Hash, Structural)]
pub struct ModuleImportName {
    pub request: u32,
    pub kind: ModuleImportNameKind,
}

/// Kind of an imported name.
#[derive(Clone, Copy, Debug, PartialEq, Eq, Hash, Structural)]
pub enum ModuleImportNameKind {
    Named(AtomPoolIndex),
    Default,
    Namespace,
}

impl ModuleImportName {
    /// Creates a named import binding descriptor.
    pub fn named(request: u32, name: AtomPoolIndex) -> (value: Self)
        ensures
            value == (ModuleImportName { request, kind: ModuleImportNameKind::Named(name) }),
    {
        ModuleImportName { request, kind: ModuleImportNameKind::Named(name) }
    }

    /// Creates a default import binding descriptor.
    pub fn default(request: u32) -> (value: Self)
        ensures
            value == (ModuleImportName { request, kind: ModuleImportNameKind::Default }),
    {
        ModuleImportName { request, kind: ModuleImportNameKind::Default }
    }

    /// Creates a namespace import binding descriptor.
    pub fn namespace(request: u32) -> (value: Self)
        ensures
            value == (ModuleImportName { request, kind: ModuleImportNameKind::Namespace }),
    {
        ModuleImportName { request, kind: ModuleImportNameKind::Namespace }
    }

    /// Returns the static module request index.
    pub fn request(&self) -> (value: u32)
        ensures
            value == self.request,
    {
        self.request
    }

    /// Atom of a named import.
    pub open spec fn spec_named_atom(&self) -> Option<AtomPoolIndex> {
        match self.kind {
            ModuleImportNameKind::Named(atom) => Some(atom),
            _ => None,
        }
    }

    /// Returns the atom of a named import.
    pub fn named_atom(&self) -> (value: Option<AtomPoolIndex>)
        ensures
            value == self.spec_named_atom(),
    {
        match self.kind {
            ModuleImportNameKind::Named(atom) => Some(atom),
            _ => None,
        }
    }

    /// Returns whether the default export is imported.
    pub fn is_default(&self) -> (value: bool)
        ensures
            value == (self.kind is Default),
    {
        matches!(self.kind, ModuleImportNameKind::Default)
    }

    /// Returns whether the namespace object is imported.
    pub fn is_namespace(&self) -> (value: bool)
        ensures
            value == (self.kind is Namespace),
    {
        matches!(self.kind, ModuleImportNameKind::Namespace)
    }
}

/// One module-environment binding descriptor awaiting final verification.
#[derive(Clone, Copy, Debug, PartialEq, Eq, Hash, Structural)]
pub struct UnverifiedModuleBindingDescriptor {
    pub name: AtomPoolIndex,
    pub slot: u32,
    pub policy: CompilerBindingPolicy,
    pub origin: ModuleBindingOrigin,
    pub initializer: Option<u32>,
    pub import: Option<ModuleImportName>,
}

impl UnverifiedModuleBindingDescriptor {
    /// Creates one unverified module binding descriptor.
    pub fn new(name: AtomPoolIndex, slot: u32, policy: CompilerBindingPolicy, origin: ModuleBindingOrigin) -> (value: Self)
        ensures
            value == (UnverifiedModuleBindingDescriptor { name, slot, policy, origin, initializer: None, import: None }),
    {
        UnverifiedModuleBindingDescriptor { name, slot, policy, origin, initializer: None, import: None }
    }

    /// Attaches the function-template constant that initializes a hoisted
    /// module-level function declaration at instantiation.
    pub fn with_initializer(self, constant: u32) -> (value: Self)
        ensures
            value == (UnverifiedModuleBindingDescriptor { initializer: Some(constant), ..self }),
    {
        UnverifiedModuleBindingDescriptor { initializer: Some(constant), ..self }
    }

    /// Attaches the import-side name for an imported binding.
    pub fn with_import(self, import: ModuleImportName) -> (value: Self)
        ensures
            value == (UnverifiedModuleBindingDescriptor { import: Some(import), ..self }),
    {
        UnverifiedModuleBindingDescriptor { import: Some(import), ..self }
    }
}

/// Complete module instantiation metadata awaiting final verification.
#[derive(Clone, Debug, PartialEq, Eq)]
pub struct UnverifiedModuleDeclarationRecord {
    pub bindings: Arc<[UnverifiedModuleBindingDescriptor]>,
    pub requests: Arc<[ModuleRequestDescriptor]>,
}

impl UnverifiedModuleDeclarationRecord {
    /// Creates unverified module instantiation metadata.
    pub fn new(bindings: Arc<[UnverifiedModuleBindingDescriptor]>, requests: Arc<[ModuleRequestDescriptor]>) -> (value: Self)
        ensures
            value == (UnverifiedModuleDeclarationRecord { bindings, requests }),
    {
        UnverifiedModuleDeclarationRecord { bindings, requests }
    }
}

/// One verified module-environment binding descriptor.
#[derive(Clone, Copy, Debug, PartialEq, Eq, Hash, Structural)]
pub struct ModuleBindingDescriptor {
    pub(crate) name: AtomPoolIndex,
    pub(crate) slot: u32,
    pub(crate) policy: CompilerBindingPolicy,
    pub(crate) origin: ModuleBindingOrigin,
    pub(crate) initializer: Option<u32>,
    pub(crate) import: Option<ModuleImportName>,
}

impl ModuleBindingDescriptor {
    /// The value that `name` returns.
    pub open(crate) spec fn spec_name(&self) -> AtomPoolIndex {
        self.name
    }

    /// Returns the binding-name atom in the module root's atom pool.
    pub fn name(&self) -> (value: AtomPoolIndex)
        ensures
            value == self.spec_name(),
    {
        self.name
    }

    /// The value that `slot` returns.
    pub open(crate) spec fn spec_slot(&self) -> u32 {
        self.slot
    }

    /// Returns the closure-domain slot index in the module root.
    pub fn slot(&self) -> (value: u32)
        ensures
            value == self.spec_slot(),
    {
        self.slot
    }

    /// The value that `policy` returns.
    pub open(crate) spec fn spec_policy(&self) -> CompilerBindingPolicy {
        self.policy
    }

    /// Returns the verified declaration policy.
    pub fn policy(&self) -> (value: CompilerBindingPolicy)
        ensures
            value == self.spec_policy(),
    {
        self.policy
    }

    /// The value that `origin` returns.
    pub open(crate) spec fn spec_origin(&self) -> ModuleBindingOrigin {
        self.origin
    }

    /// Returns the module binding origin category.
    pub fn origin(&self) -> (value: ModuleBindingOrigin)
        ensures
            value == self.spec_origin(),
    {
        self.origin
    }

    /// The value that `initializer` returns.
    pub open(crate) spec fn spec_initializer(&self) -> Option<u32> {
        self.initializer
    }

    /// Returns the function-template constant for a hoisted function, when
    /// present.
    pub fn initializer(&self) -> (value: Option<u32>)
        ensures
            value == self.spec_initializer(),
    {
        self.initializer
    }

    /// The import that fills the binding.
    pub open(crate) spec fn spec_import(&self) -> Option<ModuleImportName> {
        self.import
    }

    /// Returns the import that fills the binding.
    pub fn import(&self) -> (value: Option<&ModuleImportName>)
        ensures
            match value {
                Some(value) => self.spec_import() == Some(*value),
                None => self.spec_import().is_none(),
            },
    {
        self.import.as_ref()
    }
}

/// Verified module instantiation metadata retained for the runtime linker.
#[derive(Clone, Debug, PartialEq, Eq)]
pub struct ModuleDeclarationRecord {
    pub(crate) bindings: Arc<Vec<ModuleBindingDescriptor>>,
    pub(crate) requests: Arc<[ModuleRequestDescriptor]>,
}

impl ModuleDeclarationRecord {
    /// The entries that `bindings` returns.
    pub open(crate) spec fn spec_bindings(&self) -> Seq<ModuleBindingDescriptor> {
        self.bindings@
    }

    /// Returns the verified module-environment binding descriptors in
    /// declaration order.
    pub fn bindings(&self) -> (value: &[ModuleBindingDescriptor])
        ensures
            value@ == self.spec_bindings(),
    {
        &self.bindings
    }

    /// The entries that `requests` returns.
    pub open(crate) spec fn spec_requests(&self) -> Seq<ModuleRequestDescriptor> {
        self.requests@
    }

    /// Returns the static module requests in source order.
    pub fn requests(&self) -> (value: &[ModuleRequestDescriptor])
        ensures
            value@ == self.spec_requests(),
    {
        &self.requests
    }
}

/// A staged compiler graph paired with complete parallel metadata.
#[derive(Clone, Debug, PartialEq, Eq)]
pub struct UnverifiedCompilerBytecodeGraph {
    pub graph: Arc<VerifiedCompilerFunctionGraph>,
    pub metadata: Arc<[UnverifiedFunctionMetadata]>,
    pub module: Option<Arc<UnverifiedModuleDeclarationRecord>>,
}

impl UnverifiedCompilerBytecodeGraph {
    /// Creates final-verifier input.
    pub fn new(graph: Arc<VerifiedCompilerFunctionGraph>, metadata: Arc<[UnverifiedFunctionMetadata]>) -> (value: Self)
        ensures
            value == (UnverifiedCompilerBytecodeGraph { graph, metadata, module: None }),
    {
        UnverifiedCompilerBytecodeGraph { graph, metadata, module: None }
    }

    /// Attaches the module instantiation metadata required by a Module root.
    pub fn with_module(self, module: Arc<UnverifiedModuleDeclarationRecord>) -> (value: Self)
        ensures
            value == (UnverifiedCompilerBytecodeGraph { module: Some(module), ..self }),
    {
        UnverifiedCompilerBytecodeGraph { module: Some(module), ..self }
    }
}

/// Runtime implementation family referenced by one verified compiler graph.
///
/// These conservative families select runtime modules; they are not a
/// whole-program value-type proof or a substitute for realm and environment
/// materialization.
#[derive(Clone, Copy, Debug, PartialEq, Eq, PartialOrd, Ord, Hash, Structural)]
pub enum ExecutionRequirement {
    /// Primitive values, branches, and ordinary returns.
    CoreValues,
    /// ECMAScript Number constants or compact literals.
    Numbers,
    /// ECMAScript String constants or atoms.
    Strings,
    /// Compact `BigInt` values or operators.
    BigInts,
    /// Nested function templates and closure environments.
    Closures,
    /// Dense ordinary array construction.
    Arrays,
    /// Synchronous iterator acquisition, stepping, closing, and append.
    Iterators,
    /// Ordinary objects, static property access, and own data properties.
    OrdinaryObjects,
    /// Runtime conversion and lookup of computed property keys.
    DynamicPropertyKeys,
    /// Ordinary JavaScript calls, including receiver-aware method calls.
    Calls,
    /// Explicit JavaScript abrupt completions.
    AbruptCompletions,
    /// Lexical initialization, TDZ, or captured scoped locals.
    LexicalBindings,
    /// Constructor-realm unresolved lookup or indirect-eval `var` bindings.
    RealmGlobalBindings,
    /// Module-environment cells materialized and linked by the module linker.
    ModuleBindings,
    /// `in` or `instanceof` object semantics.
    ObjectOperators,
    /// Full dynamic coercion and mixed-type operator semantics.
    DynamicOperators,
}

/// Number of conservative runtime implementation families selectable by the
/// whole-graph compiler authority.
pub const EXECUTION_REQUIREMENT_COUNT: usize = 16;

/// Explicit resource limits for final compiler-bytecode verification.
#[derive(Clone, Copy, Debug, PartialEq, Eq, Hash, Structural)]
pub struct BytecodeGraphVerificationLimits {
    pub max_variable_definitions: u64,
    pub max_closure_definitions: u64,
    pub max_source_bytes: u64,
    pub max_source_mappings: u64,
    pub max_frame_state_entries: u64,
    pub max_policy_transfers: u64,
}

impl BytecodeGraphVerificationLimits {
    /// Creates an explicit final-verification profile.
    pub fn new(max_variable_definitions: u64, max_closure_definitions: u64, max_source_bytes: u64, max_source_mappings: u64, max_frame_state_entries: u64, max_policy_transfers: u64) -> (value: Self)
        ensures
            value == (BytecodeGraphVerificationLimits { max_variable_definitions, max_closure_definitions, max_source_bytes, max_source_mappings, max_frame_state_entries, max_policy_transfers }),
    {
        BytecodeGraphVerificationLimits { max_variable_definitions, max_closure_definitions, max_source_bytes, max_source_mappings, max_frame_state_entries, max_policy_transfers }
    }

    /// Returns a copy with another variable-definition maximum.
    pub fn with_max_variable_definitions(self, maximum: u64) -> (value: Self)
        ensures
            value == (BytecodeGraphVerificationLimits { max_variable_definitions: maximum, ..self }),
    {
        BytecodeGraphVerificationLimits { max_variable_definitions: maximum, ..self }
    }

    /// Returns a copy with another closure-definition maximum.
    pub fn with_max_closure_definitions(self, maximum: u64) -> (value: Self)
        ensures
            value == (BytecodeGraphVerificationLimits { max_closure_definitions: maximum, ..self }),
    {
        BytecodeGraphVerificationLimits { max_closure_definitions: maximum, ..self }
    }

    /// Returns a copy with another retained source-byte maximum.
    pub fn with_max_source_bytes(self, maximum: u64) -> (value: Self)
        ensures
            value == (BytecodeGraphVerificationLimits { max_source_bytes: maximum, ..self }),
    {
        BytecodeGraphVerificationLimits { max_source_bytes: maximum, ..self }
    }

    /// Returns a copy with another source-mapping maximum.
    pub fn with_max_source_mappings(self, maximum: u64) -> (value: Self)
        ensures
            value == (BytecodeGraphVerificationLimits { max_source_mappings: maximum, ..self }),
    {
        BytecodeGraphVerificationLimits { max_source_mappings: maximum, ..self }
    }

    /// Returns a copy with another binding, method-target, and typed operand
    /// stack abstract-state entry maximum.
    pub fn with_max_frame_state_entries(self, maximum: u64) -> (value: Self)
        ensures
            value == (BytecodeGraphVerificationLimits { max_frame_state_entries: maximum, ..self }),
    {
        BytecodeGraphVerificationLimits { max_frame_state_entries: maximum, ..self }
    }

    /// Returns a copy with another binding-policy, method-target, and typed
    /// operand-stack transfer maximum.
    pub fn with_max_policy_transfers(self, maximum: u64) -> (value: Self)
        ensures
            value == (BytecodeGraphVerificationLimits { max_policy_transfers: maximum, ..self }),
    {
        BytecodeGraphVerificationLimits { max_policy_transfers: maximum, ..self }
    }

    /// Returns the aggregate argument-and-local definition maximum.
    pub fn max_variable_definitions(self) -> (value: u64)
        ensures
            value == self.max_variable_definitions,
    {
        self.max_variable_definitions
    }

    /// Returns the aggregate imported-closure definition maximum.
    pub fn max_closure_definitions(self) -> (value: u64)
        ensures
            value == self.max_closure_definitions,
    {
        self.max_closure_definitions
    }

    /// Returns the unique retained source-byte maximum.
    pub fn max_source_bytes(self) -> (value: u64)
        ensures
            value == self.max_source_bytes,
    {
        self.max_source_bytes
    }

    /// Returns the aggregate final PC-to-source mapping maximum.
    pub fn max_source_mappings(self) -> (value: u64)
        ensures
            value == self.max_source_mappings,
    {
        self.max_source_mappings
    }

    /// Returns the conservative binding, method-target, and typed operand-stack
    /// abstract-state cell maximum.
    pub fn max_frame_state_entries(self) -> (value: u64)
        ensures
            value == self.max_frame_state_entries,
    {
        self.max_frame_state_entries
    }

    /// Returns the aggregate binding-policy, method-target, and typed
    /// operand-stack state-cell visit maximum.
    pub fn max_policy_transfers(self) -> (value: u64)
        ensures
            value == self.max_policy_transfers,
    {
        self.max_policy_transfers
    }
}

/// Aggregate resource usage retained by [`VerifiedBytecode`].
#[derive(Clone, Copy, Debug, PartialEq, Eq, Hash, Structural)]
pub struct BytecodeGraphUsage {
    pub variable_definitions: u64,
    pub closure_definitions: u64,
    pub source_bytes: u64,
    pub source_mappings: u64,
    pub frame_state_entries: u64,
    pub policy_transfers: u64,
}

impl BytecodeGraphUsage {
    /// Returns total argument and local definitions.
    pub fn variable_definitions(self) -> (value: u64)
        ensures
            value == self.variable_definitions,
    {
        self.variable_definitions
    }

    /// Returns total imported closure definitions.
    pub fn closure_definitions(self) -> (value: u64)
        ensures
            value == self.closure_definitions,
    {
        self.closure_definitions
    }

    /// Returns unique retained source and display-name bytes.
    pub fn source_bytes(self) -> (value: u64)
        ensures
            value == self.source_bytes,
    {
        self.source_bytes
    }

    /// Returns total final PC-to-source mappings.
    pub fn source_mappings(self) -> (value: u64)
        ensures
            value == self.source_mappings,
    {
        self.source_mappings
    }

    /// Returns allocated binding, method-target, and typed operand-stack
    /// abstract-state entries.
    pub fn frame_state_entries(self) -> (value: u64)
        ensures
            value == self.frame_state_entries,
    {
        self.frame_state_entries
    }

    /// Returns evaluated binding-policy, method-target, and typed operand-stack
    /// transfers.
    pub fn policy_transfers(self) -> (value: u64)
        ensures
            value == self.policy_transfers,
    {
        self.policy_transfers
    }
}

/// Resource governed by final bytecode graph limits.
#[derive(Clone, Copy, Debug, PartialEq, Eq, Hash, Structural)]
pub enum BytecodeGraphResource {
    /// Argument and local definitions.
    VariableDefinitions,
    /// Imported closure definitions.
    ClosureDefinitions,
    /// Unique retained source and display-name bytes.
    SourceBytes,
    /// Final PC-to-source mappings.
    SourceMappings,
    /// Binding, method-target, and typed operand-stack abstract-state entries.
    FrameStateEntries,
    /// Binding-policy, method-target, and typed operand-stack evaluations.
    PolicyTransfers,
    /// Frozen verified metadata records.
    VerifiedMetadata,
}

impl BytecodeGraphVerificationLimits {
    /// Limits for untrusted compiler output.
    pub open spec fn spec_untrusted() -> BytecodeGraphVerificationLimits {
        BytecodeGraphVerificationLimits {
            max_variable_definitions: DEFAULT_MAX_VARIABLE_DEFINITIONS,
            max_closure_definitions: DEFAULT_MAX_CLOSURE_DEFINITIONS,
            max_source_bytes: DEFAULT_MAX_SOURCE_BYTES,
            max_source_mappings: DEFAULT_MAX_SOURCE_MAPPINGS,
            max_frame_state_entries: DEFAULT_MAX_FRAME_STATE_ENTRIES,
            max_policy_transfers: DEFAULT_MAX_POLICY_TRANSFERS,
        }
    }

    /// Returns the limits for untrusted compiler output.
    pub fn untrusted() -> (limits: Self)
        ensures
            limits == Self::spec_untrusted(),
    {
        BytecodeGraphVerificationLimits::new(
            DEFAULT_MAX_VARIABLE_DEFINITIONS,
            DEFAULT_MAX_CLOSURE_DEFINITIONS,
            DEFAULT_MAX_SOURCE_BYTES,
            DEFAULT_MAX_SOURCE_MAPPINGS,
            DEFAULT_MAX_FRAME_STATE_ENTRIES,
            DEFAULT_MAX_POLICY_TRANSFERS,
        )
    }
}

impl Default for BytecodeGraphVerificationLimits {
    fn default() -> (limits: Self)
        ensures
            limits == BytecodeGraphVerificationLimits::spec_untrusted(),
    {
        BytecodeGraphVerificationLimits::untrusted()
    }
}

impl Default for BytecodeGraphUsage {
    fn default() -> (usage: Self)
        ensures
            usage == no_usage(),
    {
        BytecodeGraphUsage {
            variable_definitions: 0,
            closure_definitions: 0,
            source_bytes: 0,
            source_mappings: 0,
            frame_state_entries: 0,
            policy_transfers: 0,
        }
    }
}

/// Nothing charged yet.
pub open spec fn no_usage() -> BytecodeGraphUsage {
    BytecodeGraphUsage {
        variable_definitions: 0,
        closure_definitions: 0,
        source_bytes: 0,
        source_mappings: 0,
        frame_state_entries: 0,
        policy_transfers: 0,
    }
}

impl BytecodeGraphResource {
    /// Words that name the resource in messages.
    pub open spec fn spec_label(self) -> Seq<char> {
        match self {
            BytecodeGraphResource::VariableDefinitions => "variable definitions"@,
            BytecodeGraphResource::ClosureDefinitions => "closure definitions"@,
            BytecodeGraphResource::SourceBytes => "source bytes"@,
            BytecodeGraphResource::SourceMappings => "source mappings"@,
            BytecodeGraphResource::FrameStateEntries => "frame-state entries"@,
            BytecodeGraphResource::PolicyTransfers =>
                "policy, method-target, and typed-stack transfers"@,
            BytecodeGraphResource::VerifiedMetadata => "verified metadata records"@,
        }
    }

    /// Returns the words that name the resource in messages.
    pub fn label(self) -> (label: &'static str)
        ensures
            label@ == self.spec_label(),
    {
        match self {
            BytecodeGraphResource::VariableDefinitions => "variable definitions",
            BytecodeGraphResource::ClosureDefinitions => "closure definitions",
            BytecodeGraphResource::SourceBytes => "source bytes",
            BytecodeGraphResource::SourceMappings => "source mappings",
            BytecodeGraphResource::FrameStateEntries => "frame-state entries",
            BytecodeGraphResource::PolicyTransfers =>
                "policy, method-target, and typed-stack transfers",
            BytecodeGraphResource::VerifiedMetadata => "verified metadata records",
        }
    }
}

impl ExecutionRequirement {
    /// Position of the requirement in the fixed order.
    pub open spec fn spec_ordinal(self) -> usize {
        match self {
            ExecutionRequirement::CoreValues => 0,
            ExecutionRequirement::Numbers => 1,
            ExecutionRequirement::Strings => 2,
            ExecutionRequirement::BigInts => 3,
            ExecutionRequirement::Closures => 4,
            ExecutionRequirement::Arrays => 5,
            ExecutionRequirement::Iterators => 6,
            ExecutionRequirement::OrdinaryObjects => 7,
            ExecutionRequirement::DynamicPropertyKeys => 8,
            ExecutionRequirement::Calls => 9,
            ExecutionRequirement::AbruptCompletions => 10,
            ExecutionRequirement::LexicalBindings => 11,
            ExecutionRequirement::RealmGlobalBindings => 12,
            ExecutionRequirement::ModuleBindings => 13,
            ExecutionRequirement::ObjectOperators => 14,
            ExecutionRequirement::DynamicOperators => 15,
        }
    }

    /// Returns the position of the requirement in the fixed order.
    #[verifier::when_used_as_spec(spec_ordinal)]
    pub fn ordinal(self) -> (position: usize)
        ensures
            position == self.spec_ordinal(),
            position < EXECUTION_REQUIREMENT_COUNT,
    {
        match self {
            ExecutionRequirement::CoreValues => 0,
            ExecutionRequirement::Numbers => 1,
            ExecutionRequirement::Strings => 2,
            ExecutionRequirement::BigInts => 3,
            ExecutionRequirement::Closures => 4,
            ExecutionRequirement::Arrays => 5,
            ExecutionRequirement::Iterators => 6,
            ExecutionRequirement::OrdinaryObjects => 7,
            ExecutionRequirement::DynamicPropertyKeys => 8,
            ExecutionRequirement::Calls => 9,
            ExecutionRequirement::AbruptCompletions => 10,
            ExecutionRequirement::LexicalBindings => 11,
            ExecutionRequirement::RealmGlobalBindings => 12,
            ExecutionRequirement::ModuleBindings => 13,
            ExecutionRequirement::ObjectOperators => 14,
            ExecutionRequirement::DynamicOperators => 15,
        }
    }
}

/// Positions identify requirements, and the last one is the count less one.
pub proof fn lemma_requirement_positions(left: ExecutionRequirement, right: ExecutionRequirement)
    ensures
        left.spec_ordinal() == right.spec_ordinal() ==> left == right,
        left.spec_ordinal() < EXECUTION_REQUIREMENT_COUNT,
        ExecutionRequirement::DynamicOperators.spec_ordinal() + 1 == EXECUTION_REQUIREMENT_COUNT,
{
}

/// Whether `span` is a range of whole characters of a text with these bytes.
pub open spec fn span_of_text(bytes: Seq<u8>, span: SourceByteSpan) -> bool {
    &&& span.start <= span.end
    &&& span.end <= bytes.len()
    &&& is_char_boundary(bytes, span.start as int)
    &&& is_char_boundary(bytes, span.end as int)
}

/// Offsets strictly increase.
pub open spec fn strictly_increasing(pcs: Seq<BytecodePc>) -> bool {
    forall|i: int, j: int|
        0 <= i < j < pcs.len() ==> (#[trigger] pcs[i]).0 < (#[trigger] pcs[j]).0
}

/// Source evidence of a verified function.
#[derive(Debug, PartialEq, Eq)]
pub struct VerifiedCompilerSource {
    pub(crate) display_name: Arc<str>,
    pub(crate) text: Arc<str>,
    pub(crate) function_span: SourceByteSpan,
    pub(crate) name_span: Option<SourceByteSpan>,
    pub(crate) mappings: Arc<[PcSourceSpan]>,
    pub(crate) strict_mode_pcs: Option<Arc<[BytecodePc]>>,
}

impl Clone for VerifiedCompilerSource {
    fn clone(&self) -> (copy: Self)
        ensures
            copy == *self,
    {
        proof {
            use_type_invariant(self);
        }
        VerifiedCompilerSource {
            display_name: Arc::clone(&self.display_name),
            text: Arc::clone(&self.text),
            function_span: self.function_span,
            name_span: self.name_span,
            mappings: Arc::clone(&self.mappings),
            strict_mode_pcs: match &self.strict_mode_pcs {
                Some(pcs) => Some(Arc::clone(pcs)),
                None => None,
            },
        }
    }
}

impl VerifiedCompilerSource {
    /// The function span is a range of the text, and strict-mode offsets
    /// increase.
    pub open(crate) spec fn well_formed(&self) -> bool {
        &&& span_of_text(self.text.spec_bytes(), self.function_span)
        &&& match self.strict_mode_pcs {
            Some(pcs) => strictly_increasing(pcs@),
            None => true,
        }
    }

    #[verifier::type_invariant]
    pub(crate) open(crate) spec fn evidence_holds(&self) -> bool {
        self.well_formed()
    }

    /// Text shown as the source's name.
    pub open(crate) spec fn spec_display_name(&self) -> Seq<char> {
        self.display_name@
    }

    /// Returns the text shown as the source's name.
    pub fn display_name(&self) -> (value: &str)
        ensures
            value@ == self.spec_display_name(),
    {
        &self.display_name
    }

    /// Returns a shared handle on the display name.
    pub fn display_name_arc(&self) -> (value: Arc<str>)
        ensures
            value@ == self.spec_display_name(),
    {
        Arc::clone(&self.display_name)
    }

    /// The complete source text.
    pub open(crate) spec fn spec_text(&self) -> Seq<char> {
        self.text@
    }

    /// Bytes of the complete source text.
    pub open(crate) spec fn spec_text_bytes(&self) -> Seq<u8> {
        self.text.spec_bytes()
    }

    /// Returns the complete source text.
    pub fn text(&self) -> (value: &str)
        ensures
            value@ == self.spec_text(),
    {
        &self.text
    }

    /// Returns a shared handle on the source text.
    pub fn text_arc(&self) -> (value: Arc<str>)
        ensures
            value@ == self.spec_text(),
    {
        Arc::clone(&self.text)
    }

    /// Byte range of the complete function.
    pub open(crate) spec fn spec_function_span(&self) -> SourceByteSpan {
        self.function_span
    }

    /// Returns the byte range of the complete function.
    pub fn function_span(&self) -> (value: SourceByteSpan)
        ensures
            value == self.spec_function_span(),
    {
        self.function_span
    }

    /// Byte range of the function's name.
    pub open(crate) spec fn spec_name_span(&self) -> Option<SourceByteSpan> {
        self.name_span
    }

    /// Returns the byte range of the function's name.
    pub fn name_span(&self) -> (value: Option<SourceByteSpan>)
        ensures
            value == self.spec_name_span(),
    {
        self.name_span
    }

    /// Returns the source text of the function.
    pub fn function_source(&self) -> (value: &str)
        ensures
            value.spec_bytes() == self.spec_text_bytes().subrange(
                self.spec_function_span().start as int,
                self.spec_function_span().end as int,
            ),
    {
        proof {
            use_type_invariant(self);
        }
        text_range(&self.text, self.function_span)
    }

    /// Source range of each instruction.
    pub open(crate) spec fn spec_mappings(&self) -> Seq<PcSourceSpan> {
        self.mappings@
    }

    /// Returns the source range of each instruction.
    pub fn mappings(&self) -> (value: &[PcSourceSpan])
        ensures
            value@ == self.spec_mappings(),
    {
        &self.mappings
    }

    /// Offsets of the instructions that run in strict mode.
    pub open(crate) spec fn spec_strict_mode_pcs(&self) -> Seq<BytecodePc> {
        match self.strict_mode_pcs {
            Some(pcs) => pcs@,
            None => Seq::empty(),
        }
    }

    /// Returns whether the instruction at `pc` runs in strict mode.
    pub fn is_strict_mode_pc(&self, pc: BytecodePc) -> (strict: bool)
        ensures
            strict == self.spec_strict_mode_pcs().contains(pc),
    {
        proof {
            use_type_invariant(self);
        }
        match &self.strict_mode_pcs {
            Some(pcs) => contains_pc(pcs, pc),
            None => false,
        }
    }
}

fn text_range(text: &str, span: SourceByteSpan) -> (range: &str)
    requires
        span_of_text(text.spec_bytes(), span),
    ensures
        range.spec_bytes() == text.spec_bytes().subrange(span.start as int, span.end as int),
{
    let (head, _) = text.split_at(span.end as usize);
    proof {
        vstd::utf8::encode_utf8_valid_utf8(text@);
        vstd::utf8::encode_utf8_valid_utf8(head@);
        assert(is_char_boundary(head.spec_bytes(), span.start as int)) by {
            vstd::utf8::is_char_boundary_start_end_of_seq(head.spec_bytes());
            if span.start < span.end {
                is_char_boundary_iff_not_is_continuation_byte(
                    text.spec_bytes(),
                    span.start as int,
                );
                is_char_boundary_iff_not_is_continuation_byte(
                    head.spec_bytes(),
                    span.start as int,
                );
            }
        }
    }
    let (_, range) = head.split_at(span.start as usize);
    proof {
        assert(range.spec_bytes() =~= text.spec_bytes().subrange(
            span.start as int,
            span.end as int,
        ));
    }
    range
}

fn contains_pc(pcs: &[BytecodePc], pc: BytecodePc) -> (found: bool)
    requires
        strictly_increasing(pcs@),
    ensures
        found == pcs@.contains(pc),
{
    let mut low: usize = 0;
    let mut high: usize = pcs.len();
    while low < high
        invariant
            0 <= low <= high <= pcs@.len(),
            strictly_increasing(pcs@),
            forall|i: int| 0 <= i < low ==> (#[trigger] pcs@[i]).0 < pc.0,
            forall|i: int| high <= i < pcs@.len() ==> (#[trigger] pcs@[i]).0 > pc.0,
        decreases high - low,
    {
        let middle: usize = low + (high - low) / 2;
        let candidate: u32 = pcs[middle].0;
        if candidate == pc.0 {
            assert(pcs@[middle as int] == pc);
            return true;
        }
        if candidate < pc.0 {
            low = middle + 1;
        } else {
            high = middle;
        }
    }
    false
}

/// Verified compiler metadata of one function.
#[derive(Debug, PartialEq, Eq)]
pub struct VerifiedFunctionMetadata {
    pub(crate) executable_kind: CompilerExecutableKind,
    pub(crate) function_name: Option<AtomPoolIndex>,
    pub(crate) variables: Arc<[VariableDefinition]>,
    pub(crate) closures: Arc<[ClosureVariableDefinition]>,
    pub(crate) source: VerifiedCompilerSource,
    pub(crate) internal_stack: InternalStackCertificate,
}

impl Clone for VerifiedFunctionMetadata {
    fn clone(&self) -> (copy: Self)
        ensures
            copy.record() == self.record(),
            copy.spec_source() == self.spec_source(),
            copy.spec_certificate() == self.spec_certificate(),
    {
        VerifiedFunctionMetadata {
            executable_kind: self.executable_kind,
            function_name: self.function_name,
            variables: Arc::clone(&self.variables),
            closures: Arc::clone(&self.closures),
            source: self.source.clone(),
            internal_stack: self.internal_stack.clone(),
        }
    }
}

impl VerifiedFunctionMetadata {
    /// What the typed operand-stack analysis proves of the function.
    pub open(crate) spec fn spec_certificate(&self) -> CertificateModel {
        self.internal_stack.model()
    }

    /// What the function is executed as.
    pub open(crate) spec fn spec_executable_kind(&self) -> CompilerExecutableKind {
        self.executable_kind
    }

    /// Returns what the function is executed as.
    pub fn executable_kind(&self) -> (value: CompilerExecutableKind)
        ensures
            value == self.spec_executable_kind(),
    {
        self.executable_kind
    }

    /// Atom of the function's name.
    pub open(crate) spec fn spec_function_name(&self) -> Option<AtomPoolIndex> {
        self.function_name
    }

    /// Returns the atom of the function's name.
    pub fn function_name(&self) -> (value: Option<AtomPoolIndex>)
        ensures
            value == self.spec_function_name(),
    {
        self.function_name
    }

    /// Arguments, then locals.
    pub open(crate) spec fn spec_variables(&self) -> Seq<VariableDefinition> {
        self.variables@
    }

    /// Returns arguments, then locals.
    pub fn variables(&self) -> (value: &[VariableDefinition])
        ensures
            value@ == self.spec_variables(),
    {
        &self.variables
    }

    /// Closure variables.
    pub open(crate) spec fn spec_closures(&self) -> Seq<ClosureVariableDefinition> {
        self.closures@
    }

    /// Returns the closure variables.
    pub fn closures(&self) -> (value: &[ClosureVariableDefinition])
        ensures
            value@ == self.spec_closures(),
    {
        &self.closures
    }

    /// Source evidence.
    pub open(crate) spec fn spec_source(&self) -> VerifiedCompilerSource {
        self.source
    }

    /// Returns the source evidence.
    pub fn source(&self) -> (value: &VerifiedCompilerSource)
        ensures
            *value == self.spec_source(),
    {
        &self.source
    }
}

/// What a metadata record says of its function, but for its source.
pub struct FunctionRecord {
    /// What the function is executed as.
    pub executable_kind: CompilerExecutableKind,
    /// Atom of its name.
    pub function_name: Option<AtomPoolIndex>,
    /// Its arguments, then locals.
    pub variables: Seq<VariableDefinition>,
    /// Its closure variables.
    pub closures: Seq<ClosureVariableDefinition>,
}

impl UnverifiedFunctionMetadata {
    /// What the record says.
    pub open spec fn record(&self) -> FunctionRecord {
        FunctionRecord {
            executable_kind: self.executable_kind,
            function_name: self.function_name,
            variables: self.variables@,
            closures: self.closures@,
        }
    }
}

impl VerifiedFunctionMetadata {
    /// What the record says.
    pub open(crate) spec fn record(&self) -> FunctionRecord {
        FunctionRecord {
            executable_kind: self.executable_kind,
            function_name: self.function_name,
            variables: self.variables@,
            closures: self.closures@,
        }
    }
}

/// What verified records say.
pub open spec fn records_of(metadata: Seq<VerifiedFunctionMetadata>) -> Seq<FunctionRecord> {
    Seq::new(metadata.len(), |i: int| metadata[i].record())
}

/// What unverified records say.
pub open spec fn declared_records(metadata: Seq<UnverifiedFunctionMetadata>) -> Seq<
    FunctionRecord,
> {
    Seq::new(metadata.len(), |i: int| metadata[i].record())
}

/// One function of verified bytecode.
#[derive(Clone, Copy, Debug)]
pub struct VerifiedBytecodeFunction<'graph> {
    pub(crate) function: &'graph VerifiedCompilerFunction,
    pub(crate) metadata: &'graph VerifiedFunctionMetadata,
    pub(crate) lexical_derived_this: bool,
}

impl<'graph> VerifiedBytecodeFunction<'graph> {
    /// The compiled function.
    pub open(crate) spec fn spec_function(self) -> VerifiedCompilerFunction {
        *self.function
    }

    /// Returns the compiled function.
    pub fn function(self) -> (value: &'graph VerifiedCompilerFunction)
        ensures
            *value == self.spec_function(),
    {
        self.function
    }

    /// The verified metadata.
    pub open(crate) spec fn spec_metadata(self) -> VerifiedFunctionMetadata {
        *self.metadata
    }

    /// Returns the verified metadata.
    pub fn metadata(self) -> (value: &'graph VerifiedFunctionMetadata)
        ensures
            *value == self.spec_metadata(),
    {
        self.metadata
    }

    /// Whether the function is an arrow whose nearest ancestor that is no arrow is
    /// a derived class constructor, so that it shares the derived `this`.
    pub open(crate) spec fn spec_lexical_derived_this(self) -> bool {
        self.lexical_derived_this
    }

    /// Returns whether the function is an arrow whose nearest ancestor that is no
    /// arrow is a derived class constructor, so that it shares the derived `this`.
    pub fn lexical_derived_this(self) -> (value: bool)
        ensures
            value == self.spec_lexical_derived_this(),
    {
        self.lexical_derived_this
    }
}

/// Immutable code and metadata that an execution engine may run.
#[derive(Debug, PartialEq, Eq)]
pub struct VerifiedBytecode {
    pub(crate) graph: Arc<VerifiedCompilerFunctionGraph>,
    pub(crate) metadata: Arc<Vec<VerifiedFunctionMetadata>>,
    pub(crate) lexical_derived_this: Arc<Vec<bool>>,
    pub(crate) requirements: Arc<Vec<ExecutionRequirement>>,
    pub(crate) usage: BytecodeGraphUsage,
    pub(crate) module: Option<Arc<ModuleDeclarationRecord>>,
}

impl Clone for VerifiedBytecode {
    fn clone(&self) -> (copy: Self)
        ensures
            copy == *self,
    {
        proof {
            use_type_invariant(self);
        }
        VerifiedBytecode {
            graph: Arc::clone(&self.graph),
            metadata: Arc::clone(&self.metadata),
            lexical_derived_this: Arc::clone(&self.lexical_derived_this),
            requirements: Arc::clone(&self.requirements),
            usage: self.usage,
            module: match &self.module {
                Some(module) => Some(Arc::clone(module)),
                None => None,
            },
        }
    }
}

impl VerifiedBytecode {
    /// Functions, metadata and derived-`this` flags correspond one to one, the
    /// root is one of the functions, and the flags are those of the arrows below
    /// derived class constructors.
    pub open(crate) spec fn well_formed(&self) -> bool {
        &&& self.metadata@.len() == self.graph.functions@.len()
        &&& self.lexical_derived_this@ == derived_this_flags(
            self.graph.functions@,
            records_of(self.metadata@),
            template_parents(self.graph.functions@),
        )
        &&& self.graph.root_id.0 < self.graph.functions@.len()
    }

    #[verifier::type_invariant]
    pub(crate) open(crate) spec fn records_correspond(&self) -> bool {
        self.well_formed()
    }

    /// The function graph.
    pub open(crate) spec fn spec_graph(&self) -> VerifiedCompilerFunctionGraph {
        *self.graph
    }

    /// Verified metadata by function position.
    pub open(crate) spec fn spec_metadata(&self) -> Seq<VerifiedFunctionMetadata> {
        self.metadata@
    }

    /// Derived-`this` flags by function position.
    pub open(crate) spec fn spec_lexical_derived_this(&self) -> Seq<bool> {
        self.lexical_derived_this@
    }

    /// Whether `view` is the function at `position` of this bytecode.
    pub open(crate) spec fn is_function_at(
        &self,
        view: VerifiedBytecodeFunction,
        position: int,
    ) -> bool {
        &&& 0 <= position < self.graph.functions@.len()
        &&& *view.function == self.graph.functions@[position]
        &&& *view.metadata == self.metadata@[position]
        &&& view.lexical_derived_this == self.lexical_derived_this@[position]
        &&& view.lexical_derived_this == derived_this_flags(
            self.graph.functions@,
            records_of(self.metadata@),
            template_parents(self.graph.functions@),
        )[position]
    }

    /// Returns the identity of the root function.
    pub fn root_id(&self) -> (value: FunctionTemplateId)
        ensures
            value == self.spec_graph().root_id,
    {
        self.graph.root_id
    }

    /// Returns the root function.
    pub fn root(&self) -> (value: VerifiedBytecodeFunction<'_>)
        ensures
            self.is_function_at(value, self.spec_graph().root_id.0 as int),
    {
        proof {
            use_type_invariant(self);
        }
        let index: usize = self.graph.root_id.0 as usize;
        VerifiedBytecodeFunction {
            function: &self.graph.functions[index],
            metadata: &self.metadata[index],
            lexical_derived_this: self.lexical_derived_this[index],
        }
    }

    /// Returns the function graph.
    pub fn compiler_graph(&self) -> (value: &Arc<VerifiedCompilerFunctionGraph>)
        ensures
            **value == self.spec_graph(),
    {
        &self.graph
    }

    /// Returns one function.
    pub fn function(&self, id: FunctionTemplateId) -> (value: Option<VerifiedBytecodeFunction<'_>>)
        ensures
            match value {
                Some(value) => self.is_function_at(value, id.0 as int),
                None => id.0 >= self.spec_graph().functions@.len(),
            },
    {
        proof {
            use_type_invariant(self);
        }
        let index: usize = id.0 as usize;
        if index < self.graph.functions.len() {
            Some(
                VerifiedBytecodeFunction {
                    function: &self.graph.functions[index],
                    metadata: &self.metadata[index],
                    lexical_derived_this: self.lexical_derived_this[index],
                },
            )
        } else {
            None
        }
    }

    /// Returns every function by position.
    pub fn functions(&self) -> (value: Vec<VerifiedBytecodeFunction<'_>>)
        ensures
            value@.len() == self.spec_graph().functions@.len(),
            forall|i: int|
                0 <= i < value@.len() ==> self.is_function_at(#[trigger] value@[i], i),
    {
        proof {
            use_type_invariant(self);
        }
        let mut functions: Vec<VerifiedBytecodeFunction<'_>> = Vec::new();
        let mut index: usize = 0;
        while index < self.graph.functions.len()
            invariant
                index <= self.graph.functions@.len(),
                self.well_formed(),
                functions@.len() == index,
                forall|i: int|
                    0 <= i < index ==> self.is_function_at(#[trigger] functions@[i], i),
            decreases self.graph.functions@.len() - index,
        {
            functions.push(
                VerifiedBytecodeFunction {
                    function: &self.graph.functions[index],
                    metadata: &self.metadata[index],
                    lexical_derived_this: self.lexical_derived_this[index],
                },
            );
            index = index + 1;
        }
        functions
    }

    /// Returns the verified metadata by function position.
    pub fn metadata(&self) -> (value: &[VerifiedFunctionMetadata])
        ensures
            value@ == self.spec_metadata(),
    {
        &self.metadata
    }

    /// What an engine must implement to run the bytecode.
    pub open(crate) spec fn spec_requirements(&self) -> Seq<ExecutionRequirement> {
        self.requirements@
    }

    /// Returns what an engine must implement to run the bytecode.
    pub fn requirements(&self) -> (value: &[ExecutionRequirement])
        ensures
            value@ == self.spec_requirements(),
    {
        &self.requirements
    }

    /// Resources that verification charged.
    pub open(crate) spec fn spec_usage(&self) -> BytecodeGraphUsage {
        self.usage
    }

    /// Returns the resources that verification charged.
    pub fn usage(&self) -> (value: BytecodeGraphUsage)
        ensures
            value == self.spec_usage(),
    {
        self.usage
    }

    /// The declaration record of a module.
    pub open(crate) spec fn spec_module(&self) -> Option<Arc<ModuleDeclarationRecord>> {
        self.module
    }

    /// Returns the declaration record of a module.
    pub fn module(&self) -> (value: Option<&ModuleDeclarationRecord>)
        ensures
            match value {
                Some(value) => self.spec_module().is_some() && *value
                    == *self.spec_module().unwrap(),
                None => self.spec_module().is_none(),
            },
    {
        match &self.module {
            Some(module) => Some(module),
            None => None,
        }
    }
}

} // verus!
