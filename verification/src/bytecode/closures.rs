//! Closure variables of a function against their sources.
use crate::bytecode::atoms::{
    arguments_name, arguments_units, atom_contents, atom_units, required_atom_check,
    verify_required_atom,
};
use crate::bytecode::error::{
    BindingPolicyViolationReason, BindingSlot, BytecodeVerificationError,
    BytecodeVerificationErrorKind, MetadataAtomField, function_error, policy_error,
    spec_policy_error,
};
use crate::bytecode::initializer_pairs::{closure_constant, saturated_count, spec_closure_constant};
use crate::bytecode::model::{
    ClosureVariableDefinition, CompilerBindingKind, CompilerBindingPolicy, CompilerClosureBinding,
    CompilerExecutableKind, CompilerInitializationPolicy, CompilerWritePolicy,
};
use crate::bytecode::operand_use::{saturated_u32, usize_to_u32};
use crate::bytecode::provenance::same_units;
use crate::bytecode::variables::{is_function_constant, names_function_constant};
use crate::checks::{
    first_failure, lemma_first_failure_at, lemma_no_failure, lemma_success_means_all,
};
use crate::control_flow::model::VerifiedInstruction;
use crate::function_graph::{
    CompilerAtom, CompilerClosureSource, CompilerConstant, FunctionTemplateId,
    VerifiedCompilerFunction,
};
use crate::instruction::{Instruction, Operands};
use crate::opcode::FinalOpcode;
use vstd::prelude::*;

verus! {

/// Whether an authority runs as a script.
pub open spec fn spec_is_script_authority_kind(kind: CompilerExecutableKind) -> bool {
    kind == CompilerExecutableKind::GlobalScript || kind
        == CompilerExecutableKind::IndirectEvalScript || kind
        == CompilerExecutableKind::DirectEvalScript || kind
        == CompilerExecutableKind::DynamicFunctionScript
}

/// Returns whether an authority runs as a script.
#[verifier::when_used_as_spec(spec_is_script_authority_kind)]
pub fn is_script_authority_kind(kind: CompilerExecutableKind) -> (script: bool)
    ensures
        script == spec_is_script_authority_kind(kind),
{
    matches!(
        kind,
        CompilerExecutableKind::GlobalScript
        | CompilerExecutableKind::IndirectEvalScript
        | CompilerExecutableKind::DirectEvalScript
        | CompilerExecutableKind::DynamicFunctionScript
    )
}

/// Whether a realm global may have the policy: its kind is one that a script
/// declares or looks up, and the rest of the policy fits the kind.
pub open spec fn spec_realm_global_policy_supported(policy: CompilerBindingPolicy) -> bool {
    let plain = policy.writes == CompilerWritePolicy::Mutable && !policy.temporal_dead_zone;
    match policy.kind {
        CompilerBindingKind::GlobalReference => policy.initialization
            == CompilerInitializationPolicy::ConstructorRealmLookup && plain,
        CompilerBindingKind::Var => policy.initialization
            == CompilerInitializationPolicy::UndefinedAtInstantiation && plain,
        CompilerBindingKind::Function => policy.initialization
            == CompilerInitializationPolicy::FunctionAtInstantiation && plain,
        CompilerBindingKind::Let => policy.initialization
            == CompilerInitializationPolicy::AtDeclaration && policy.writes
            == CompilerWritePolicy::Mutable && policy.temporal_dead_zone,
        CompilerBindingKind::Const => policy.initialization
            == CompilerInitializationPolicy::AtDeclaration && policy.writes
            == CompilerWritePolicy::Immutable && policy.temporal_dead_zone,
        _ => false,
    }
}

/// Returns whether a realm global may have the policy.
#[verifier::when_used_as_spec(spec_realm_global_policy_supported)]
pub fn realm_global_policy_supported(policy: CompilerBindingPolicy) -> (supported: bool)
    ensures
        supported == spec_realm_global_policy_supported(policy),
{
    let mutable: bool = matches!(policy.writes, CompilerWritePolicy::Mutable);
    match policy.kind {
        CompilerBindingKind::GlobalReference => matches!(
            policy.initialization,
            CompilerInitializationPolicy::ConstructorRealmLookup
        ) && mutable && !policy.temporal_dead_zone,
        CompilerBindingKind::Var => matches!(
            policy.initialization,
            CompilerInitializationPolicy::UndefinedAtInstantiation
        ) && mutable && !policy.temporal_dead_zone,
        CompilerBindingKind::Function => matches!(
            policy.initialization,
            CompilerInitializationPolicy::FunctionAtInstantiation
        ) && mutable && !policy.temporal_dead_zone,
        CompilerBindingKind::Let => matches!(
            policy.initialization,
            CompilerInitializationPolicy::AtDeclaration
        ) && mutable && policy.temporal_dead_zone,
        CompilerBindingKind::Const => matches!(
            policy.initialization,
            CompilerInitializationPolicy::AtDeclaration
        ) && matches!(policy.writes, CompilerWritePolicy::Immutable) && policy.temporal_dead_zone,
        _ => false,
    }
}

/// A policy that a realm global may have is a valid policy.
pub proof fn lemma_realm_global_policies_are_valid(policy: CompilerBindingPolicy)
    requires
        spec_realm_global_policy_supported(policy),
    ensures
        policy.spec_is_valid(),
{
}

/// What closure variables are checked against.
pub struct ClosureContext {
    /// Function being checked.
    pub id: FunctionTemplateId,
    /// Root of the graph.
    pub root: FunctionTemplateId,
    /// Executable kind of the root.
    pub authority: CompilerExecutableKind,
    /// Instructions of the function.
    pub instructions: Seq<VerifiedInstruction>,
    /// Constant pool of the function.
    pub constants: Seq<CompilerConstant>,
    /// Atom pool of the function.
    pub atoms: Seq<CompilerAtom>,
    /// Source of each closure variable, as the graph was built with.
    pub sources: Seq<CompilerClosureSource>,
}

/// The context of a function.
pub open(crate) spec fn closure_context(
    id: FunctionTemplateId,
    root: FunctionTemplateId,
    authority: CompilerExecutableKind,
    function: VerifiedCompilerFunction,
) -> ClosureContext {
    ClosureContext {
        id,
        root,
        authority,
        instructions: function.control_flow.instructions@,
        constants: function.constants@,
        atoms: function.atoms@,
        sources: function.closure_sources@,
    }
}

/// Whether a closure variable may hold the synthesized `arguments` object.
pub open spec fn closes_over_arguments_object(
    closure: ClosureVariableDefinition,
    atoms: Seq<CompilerAtom>,
) -> bool {
    let policy = closure.spec_policy();
    atom_units(closure.name, atoms) == Some(arguments_units()) && policy.kind
        == CompilerBindingKind::Var && policy.initialization
        == CompilerInitializationPolicy::UndefinedAtInstantiation && policy.writes
        == CompilerWritePolicy::Mutable && !policy.temporal_dead_zone
}

/// Whether the deletable mark fits the source: always on an eval variable, and
/// otherwise only on what may be one of the parent's or of a module.
pub open spec fn deletable_mark_fits(
    closure: ClosureVariableDefinition,
    source: CompilerClosureSource,
) -> bool {
    match source {
        CompilerClosureSource::DirectEvalVariable { .. } => closure.deletable_eval_variable,
        CompilerClosureSource::ParentClosure(_) | CompilerClosureSource::Module { .. } => true,
        CompilerClosureSource::ParentVariableReference(_)
        | CompilerClosureSource::ConstructorRealmGlobal(_)
        | CompilerClosureSource::DirectEvalBinding { .. } => !closure.deletable_eval_variable,
    }
}

/// Whether a closure variable is a function declaration of a module.
pub open spec fn declares_module_function(
    closure: ClosureVariableDefinition,
    source: CompilerClosureSource,
) -> bool {
    source is Module && closure.binding is Captured && closure.spec_policy().kind
        == CompilerBindingKind::Function && closure.spec_policy().initialization
        == CompilerInitializationPolicy::FunctionAtInstantiation
}

/// Whether a captured closure variable fits its source.
pub open spec fn captured_fits(
    context: ClosureContext,
    closure: ClosureVariableDefinition,
    source: CompilerClosureSource,
) -> bool {
    let policy = closure.spec_policy();
    &&& policy.spec_is_valid()
    &&& closure.arguments_object ==> closes_over_arguments_object(closure, context.atoms)
    &&& deletable_mark_fits(closure, source)
    &&& source is Module ==> context.id == context.root && context.authority
        == CompilerExecutableKind::Module && !closure.arguments_object
    &&& policy.kind != CompilerBindingKind::GlobalReference
    &&& closure.function_initializer.is_some() ==> declares_module_function(closure, source)
    &&& !(source is ConstructorRealmGlobal)
    &&& source is DirectEvalVariable ==> (policy.kind == CompilerBindingKind::Var || policy.kind
        == CompilerBindingKind::Function) && closure.name.is_some()
}

/// Whether the marks and the policy of a realm global are in order.
pub open spec fn realm_global_fits(
    context: ClosureContext,
    closure: ClosureVariableDefinition,
) -> bool {
    let policy = closure.spec_policy();
    &&& !closure.arguments_object
    &&& !closure.deletable_eval_variable
    &&& spec_realm_global_policy_supported(policy)
    &&& policy.kind == CompilerBindingKind::Let || policy.kind == CompilerBindingKind::Const
        ==> context.authority == CompilerExecutableKind::GlobalScript
}

/// The check of a closure variable's binding against its source. A realm global
/// enters the graph at the root of a script, by its own name, and is handed on
/// from parent to child.
pub open spec fn closure_binding_check(
    context: ClosureContext,
    closure: ClosureVariableDefinition,
    source: CompilerClosureSource,
    at: int,
) -> Result<(), BytecodeVerificationError> {
    let refused = Err(
        spec_policy_error(
            context.id,
            BindingSlot::Closure(saturated_u32(at)),
            None,
            BindingPolicyViolationReason::InvalidDeclarationPolicy,
        ),
    );
    match closure.binding {
        CompilerClosureBinding::Captured(_) => if captured_fits(context, closure, source) {
            Ok(())
        } else {
            refused
        },
        CompilerClosureBinding::RealmGlobal(_) => if !realm_global_fits(context, closure) {
            refused
        } else {
            match source {
                CompilerClosureSource::ConstructorRealmGlobal(atom) => if context.id
                    != context.root || !spec_is_script_authority_kind(context.authority) {
                    Err(
                        function_error(
                            context.id,
                            BytecodeVerificationErrorKind::ConstructorRealmGlobalSourceRequiresDynamicFunctionScript {
                                closure: saturated_u32(at),
                            },
                        ),
                    )
                } else if closure.name == Some(atom) {
                    Ok(())
                } else {
                    refused
                },
                CompilerClosureSource::ParentClosure(_) => if context.id != context.root {
                    Ok(())
                } else {
                    refused
                },
                _ => refused,
            }
        },
    }
}

/// Whether a closure variable's function initializer fits: a function template
/// on a module's function and on a global function where it enters the graph,
/// and none elsewhere.
pub open spec fn closure_initializer_fits(
    context: ClosureContext,
    closure: ClosureVariableDefinition,
    source: CompilerClosureSource,
) -> bool {
    let global_function = closure.binding is RealmGlobal && closure.spec_policy().kind
        == CompilerBindingKind::Function;
    let wanted = declares_module_function(closure, source) || (global_function
        && source is ConstructorRealmGlobal);
    match closure.function_initializer {
        Some(constant) => wanted && is_function_constant(context.constants, constant),
        None => !wanted,
    }
}

/// Whether a closure of `constant` and a put of closure variable `slot` stand at
/// `at`.
pub open(crate) spec fn module_pair(
    instructions: Seq<VerifiedInstruction>,
    constant: u32,
    slot: u32,
    at: int,
) -> bool {
    0 <= at && at + 1 < instructions.len() && ({
        let closure = instructions[at].decoded.instruction;
        let put = instructions[at + 1].decoded.instruction;
        spec_closure_constant(closure.opcode, closure.operands) == Some(constant) && put.opcode
            == FinalOpcode::PutVarRef && (match put.operands {
            Operands::VarRef(found) => found == slot,
            _ => false,
        })
    })
}

/// Pairs among the first `count` instructions.
pub open(crate) spec fn module_pairs_before(
    instructions: Seq<VerifiedInstruction>,
    constant: u32,
    slot: u32,
    count: int,
) -> nat
    decreases count,
{
    if count <= 0 {
        0
    } else {
        module_pairs_before(instructions, constant, slot, count - 1) + if module_pair(
            instructions,
            constant,
            slot,
            count - 1,
        ) {
            1nat
        } else {
            0nat
        }
    }
}

/// The check that exactly one pair initializes a module's function.
pub open(crate) spec fn module_initializer_check(
    id: FunctionTemplateId,
    instructions: Seq<VerifiedInstruction>,
    closure: ClosureVariableDefinition,
    slot: u32,
) -> Result<(), BytecodeVerificationError> {
    match closure.function_initializer {
        Some(constant) => {
            let pairs = module_pairs_before(
                instructions,
                constant,
                slot,
                instructions.len() as int,
            );
            if pairs == 1 {
                Ok(())
            } else {
                Err(
                    function_error(
                        id,
                        BytecodeVerificationErrorKind::RealmGlobalFunctionInitializerOpcodeMismatch {
                            closure: slot,
                            constant,
                            matches: saturated_count(pairs),
                        },
                    ),
                )
            }
        },
        None => Ok(()),
    }
}

/// Whether an instruction initializes the lexical realm global `slot`.
pub open(crate) spec fn initializes_lexical(instruction: Instruction, slot: u32) -> bool {
    instruction.opcode == FinalOpcode::PutVarInit && match instruction.operands {
        Operands::VarRef(found) => found == slot,
        _ => false,
    }
}

/// Initializations of a lexical realm global among the first `count`
/// instructions.
pub open(crate) spec fn lexical_initializations(
    instructions: Seq<VerifiedInstruction>,
    slot: u32,
    count: int,
) -> nat
    decreases count,
{
    if count <= 0 {
        0
    } else {
        lexical_initializations(instructions, slot, count - 1) + if initializes_lexical(
            instructions[count - 1].decoded.instruction,
            slot,
        ) {
            1nat
        } else {
            0nat
        }
    }
}

/// The check that a lexical realm global is initialized once where it enters
/// the graph, and nowhere else.
pub open(crate) spec fn lexical_initializer_check(
    id: FunctionTemplateId,
    instructions: Seq<VerifiedInstruction>,
    closure: ClosureVariableDefinition,
    source: CompilerClosureSource,
    slot: u32,
) -> Result<(), BytecodeVerificationError> {
    let kind = closure.spec_policy().kind;
    let found = lexical_initializations(instructions, slot, instructions.len() as int);
    let expected = if source is ConstructorRealmGlobal {
        1nat
    } else {
        0nat
    };
    if !(closure.binding is RealmGlobal && (kind == CompilerBindingKind::Let || kind
        == CompilerBindingKind::Const)) || found == expected {
        Ok(())
    } else {
        Err(
            function_error(
                id,
                BytecodeVerificationErrorKind::RealmGlobalLexicalInitializerCountMismatch {
                    closure: slot,
                    matches: saturated_u32(found as int),
                },
            ),
        )
    }
}

/// The checks of one closure variable, in order.
pub open(crate) spec fn closure_check(
    context: ClosureContext,
    closure: ClosureVariableDefinition,
    at: int,
) -> Result<(), BytecodeVerificationError> {
    let source = context.sources[at];
    let slot = saturated_u32(at);
    let name = required_atom_check(
        context.id,
        closure.name,
        MetadataAtomField::ClosureName(slot),
        context.atoms,
    );
    let binding = closure_binding_check(context, closure, source, at);
    let module = if declares_module_function(closure, source) {
        module_initializer_check(context.id, context.instructions, closure, slot)
    } else {
        Ok(())
    };
    let lexical = lexical_initializer_check(
        context.id,
        context.instructions,
        closure,
        source,
        slot,
    );
    if (source is DirectEvalBinding || source is DirectEvalVariable) && (context.id != context.root
        || context.authority != CompilerExecutableKind::DirectEvalScript) {
        Err(
            function_error(
                context.id,
                BytecodeVerificationErrorKind::DirectEvalBindingSourceRequiresDirectEvalScript {
                    closure: slot,
                },
            ),
        )
    } else if name.is_err() {
        name
    } else if binding.is_err() {
        binding
    } else if !closure_initializer_fits(context, closure, source) {
        Err(
            function_error(
                context.id,
                BytecodeVerificationErrorKind::RealmGlobalFunctionInitializerMetadataMismatch {
                    closure: slot,
                    constant: closure.function_initializer,
                },
            ),
        )
    } else if module.is_err() {
        module
    } else if lexical.is_err() {
        lexical
    } else if closure.source != source {
        Err(
            function_error(
                context.id,
                BytecodeVerificationErrorKind::ClosureMetadataMismatch {
                    child: context.id,
                    closure: slot,
                },
            ),
        )
    } else {
        Ok(())
    }
}

/// The checks of all closure variables that have a source.
pub open(crate) spec fn closure_checks(
    context: ClosureContext,
    closures: Seq<ClosureVariableDefinition>,
) -> Seq<Result<(), BytecodeVerificationError>> {
    Seq::new(
        if closures.len() < context.sources.len() {
            closures.len()
        } else {
            context.sources.len()
        },
        |i: int| closure_check(context, closures[i], i),
    )
}

/// Accepted closure variables of a module's root are no realm globals, and
/// lexical realm globals are those of a global script.
pub proof fn lemma_realm_globals_belong_to_scripts(
    context: ClosureContext,
    closures: Seq<ClosureVariableDefinition>,
    at: int,
)
    requires
        first_failure(closure_checks(context, closures)).is_ok(),
        0 <= at < closures.len(),
        at < context.sources.len(),
    ensures
        context.id == context.root && !spec_is_script_authority_kind(context.authority)
            ==> closures[at].binding is Captured,
        closures[at].binding is RealmGlobal && (closures[at].spec_policy().kind
            == CompilerBindingKind::Let || closures[at].spec_policy().kind
            == CompilerBindingKind::Const) ==> context.authority
            == CompilerExecutableKind::GlobalScript,
        closures[at].source == context.sources[at],
{
    let checks = closure_checks(context, closures);
    lemma_success_means_all(checks);
    assert(checks[at].is_ok());
}

fn holds_arguments(closure: ClosureVariableDefinition, atoms: &[CompilerAtom]) -> (holds: bool)
    ensures
        holds == closes_over_arguments_object(closure, atoms@),
{
    let policy = closure.policy();
    let named: bool = match atom_contents(closure.name, atoms) {
        Some(name) => same_units(name.code_units(), &arguments_name()),
        None => false,
    };
    named && matches!(policy.kind, CompilerBindingKind::Var) && matches!(
        policy.initialization,
        CompilerInitializationPolicy::UndefinedAtInstantiation
    ) && matches!(policy.writes, CompilerWritePolicy::Mutable) && !policy.temporal_dead_zone
}

fn deletable_mark_is_valid(
    closure: ClosureVariableDefinition,
    source: CompilerClosureSource,
) -> (fits: bool)
    ensures
        fits == deletable_mark_fits(closure, source),
{
    match source {
        CompilerClosureSource::DirectEvalVariable { .. } => closure.deletable_eval_variable,
        CompilerClosureSource::ParentClosure(_) | CompilerClosureSource::Module { .. } => true,
        CompilerClosureSource::ParentVariableReference(_)
        | CompilerClosureSource::ConstructorRealmGlobal(_)
        | CompilerClosureSource::DirectEvalBinding { .. } => !closure.deletable_eval_variable,
    }
}

fn is_module_function(
    closure: ClosureVariableDefinition,
    source: CompilerClosureSource,
) -> (declares: bool)
    ensures
        declares == declares_module_function(closure, source),
{
    let policy = closure.policy();
    matches!(source, CompilerClosureSource::Module { .. }) && matches!(
        closure.binding,
        CompilerClosureBinding::Captured(_)
    ) && matches!(policy.kind, CompilerBindingKind::Function) && matches!(
        policy.initialization,
        CompilerInitializationPolicy::FunctionAtInstantiation
    )
}

fn captured_is_valid(
    id: FunctionTemplateId,
    root: FunctionTemplateId,
    authority: CompilerExecutableKind,
    atoms: &[CompilerAtom],
    closure: ClosureVariableDefinition,
    source: CompilerClosureSource,
    Ghost(context): Ghost<ClosureContext>,
) -> (fits: bool)
    requires
        context.id == id,
        context.root == root,
        context.authority == authority,
        context.atoms == atoms@,
    ensures
        fits == captured_fits(context, closure, source),
{
    let policy = closure.policy();
    let module: bool = matches!(source, CompilerClosureSource::Module { .. });
    let module_valid: bool = id.0 == root.0 && matches!(authority, CompilerExecutableKind::Module)
        && !closure.arguments_object;
    let eval_variable: bool = matches!(source, CompilerClosureSource::DirectEvalVariable { .. });
    let eval_variable_valid: bool = matches!(
        policy.kind,
        CompilerBindingKind::Var | CompilerBindingKind::Function
    ) && closure.name.is_some();
    policy.is_valid() && (!closure.arguments_object || holds_arguments(closure, atoms))
        && deletable_mark_is_valid(closure, source) && (!module || module_valid) && !matches!(
        policy.kind,
        CompilerBindingKind::GlobalReference
    ) && (closure.function_initializer.is_none() || is_module_function(closure, source))
        && !matches!(source, CompilerClosureSource::ConstructorRealmGlobal(_)) && (!eval_variable
        || eval_variable_valid)
}

fn verify_closure_binding(
    id: FunctionTemplateId,
    root: FunctionTemplateId,
    authority: CompilerExecutableKind,
    atoms: &[CompilerAtom],
    closure: ClosureVariableDefinition,
    source: CompilerClosureSource,
    at: usize,
    Ghost(context): Ghost<ClosureContext>,
) -> (checked: Result<(), BytecodeVerificationError>)
    requires
        context.id == id,
        context.root == root,
        context.authority == authority,
        context.atoms == atoms@,
    ensures
        checked == closure_binding_check(context, closure, source, at as int),
{
    let valid: bool = match closure.binding {
        CompilerClosureBinding::Captured(_) => captured_is_valid(
            id,
            root,
            authority,
            atoms,
            closure,
            source,
            Ghost(context),
        ),
        CompilerClosureBinding::RealmGlobal(policy) => {
            let lexical: bool = matches!(
                policy.kind,
                CompilerBindingKind::Let | CompilerBindingKind::Const
            );
            if closure.arguments_object || closure.deletable_eval_variable
                || !realm_global_policy_supported(policy) || (lexical && !matches!(
                authority,
                CompilerExecutableKind::GlobalScript
            )) {
                false
            } else {
                match source {
                    CompilerClosureSource::ConstructorRealmGlobal(atom) => {
                        if id.0 != root.0 || !is_script_authority_kind(authority) {
                            return Err(
                                BytecodeVerificationError::function(
                                    id,
                                    BytecodeVerificationErrorKind::ConstructorRealmGlobalSourceRequiresDynamicFunctionScript {
                                        closure: usize_to_u32(at),
                                    },
                                ),
                            );
                        }
                        match closure.name {
                            Some(name) => name.0 == atom.0,
                            None => false,
                        }
                    },
                    CompilerClosureSource::ParentClosure(_) => id.0 != root.0,
                    _ => false,
                }
            }
        },
    };
    if valid {
        Ok(())
    } else {
        Err(
            policy_error(
                id,
                BindingSlot::Closure(usize_to_u32(at)),
                None,
                BindingPolicyViolationReason::InvalidDeclarationPolicy,
            ),
        )
    }
}

fn closure_initializer_is_valid(
    constants: &[CompilerConstant],
    closure: ClosureVariableDefinition,
    source: CompilerClosureSource,
    Ghost(context): Ghost<ClosureContext>,
) -> (fits: bool)
    requires
        context.constants == constants@,
    ensures
        fits == closure_initializer_fits(context, closure, source),
{
    let realm_global_function: bool = match closure.binding {
        CompilerClosureBinding::RealmGlobal(policy) => matches!(
            policy.kind,
            CompilerBindingKind::Function
        ),
        CompilerClosureBinding::Captured(_) => false,
    };
    let wanted: bool = is_module_function(closure, source) || (realm_global_function && matches!(
        source,
        CompilerClosureSource::ConstructorRealmGlobal(_)
    ));
    match closure.function_initializer {
        Some(constant) => wanted && names_function_constant(constants, constant),
        None => !wanted,
    }
}

/// Checks that a hoisted function declaration of a module is initialized by
/// exactly one closure/put pair.
fn verify_module_function_initializers(
    id: FunctionTemplateId,
    slot: u32,
    instructions: &[VerifiedInstruction],
    closure: ClosureVariableDefinition,
) -> (checked: Result<(), BytecodeVerificationError>)
    ensures
        checked == module_initializer_check(id, instructions@, closure, slot),
{
    let constant: u32 = match closure.function_initializer {
        Some(constant) => constant,
        None => {
            return Ok(());
        },
    };
    let mut matched: u32 = 0;
    let mut at: usize = 0;
    while at < instructions.len()
        invariant
            at <= instructions@.len(),
            matched == saturated_count(
                module_pairs_before(instructions@, constant, slot, at as int),
            ),
        decreases instructions@.len() - at,
    {
        if at < instructions.len() - 1 {
            let first = instructions[at].decoded.instruction;
            let put = instructions[at + 1].decoded.instruction;
            let instantiated: bool = match closure_constant(first.opcode, first.operands) {
                Some(found) => found == constant,
                None => false,
            };
            let stored: bool = match (put.opcode, put.operands) {
                (FinalOpcode::PutVarRef, Operands::VarRef(found)) => found as u32 == slot,
                _ => false,
            };
            if instantiated && stored {
                matched = matched.saturating_add(1);
            }
        }
        at = at + 1;
    }
    if matched != 1 {
        return Err(
            BytecodeVerificationError::function(
                id,
                BytecodeVerificationErrorKind::RealmGlobalFunctionInitializerOpcodeMismatch {
                    closure: slot,
                    constant,
                    matches: matched,
                },
            ),
        );
    }
    Ok(())
}

fn verify_realm_global_lexical_initializer_sites(
    id: FunctionTemplateId,
    slot: u32,
    instructions: &[VerifiedInstruction],
    closure: ClosureVariableDefinition,
    source: CompilerClosureSource,
) -> (checked: Result<(), BytecodeVerificationError>)
    ensures
        checked == lexical_initializer_check(id, instructions@, closure, source, slot),
{
    let lexical: bool = match closure.binding {
        CompilerClosureBinding::RealmGlobal(policy) => matches!(
            policy.kind,
            CompilerBindingKind::Let | CompilerBindingKind::Const
        ),
        CompilerClosureBinding::Captured(_) => false,
    };
    if !lexical {
        return Ok(());
    }
    let mut found: usize = 0;
    let mut at: usize = 0;
    while at < instructions.len()
        invariant
            found <= at <= instructions@.len(),
            found == lexical_initializations(instructions@, slot, at as int),
        decreases instructions@.len() - at,
    {
        let instruction = instructions[at].decoded.instruction;
        let initializes: bool = match (instruction.opcode, instruction.operands) {
            (FinalOpcode::PutVarInit, Operands::VarRef(local)) => local as u32 == slot,
            _ => false,
        };
        if initializes {
            found = found + 1;
        }
        at = at + 1;
    }
    let expected: usize = if matches!(source, CompilerClosureSource::ConstructorRealmGlobal(_)) {
        1
    } else {
        0
    };
    if found != expected {
        return Err(
            BytecodeVerificationError::function(
                id,
                BytecodeVerificationErrorKind::RealmGlobalLexicalInitializerCountMismatch {
                    closure: slot,
                    matches: usize_to_u32(found),
                },
            ),
        );
    }
    Ok(())
}

fn verify_closure(
    id: FunctionTemplateId,
    root: FunctionTemplateId,
    authority: CompilerExecutableKind,
    function: &VerifiedCompilerFunction,
    closure: ClosureVariableDefinition,
    at: usize,
    Ghost(context): Ghost<ClosureContext>,
) -> (checked: Result<(), BytecodeVerificationError>)
    requires
        context == closure_context(id, root, authority, *function),
        at < function.closure_sources@.len(),
    ensures
        checked == closure_check(context, closure, at as int),
{
    let source = function.closure_sources()[at];
    let slot: u32 = usize_to_u32(at);
    let atoms = function.atoms();
    let instructions = function.control_flow().instructions();
    if matches!(
        source,
        CompilerClosureSource::DirectEvalBinding { .. }
        | CompilerClosureSource::DirectEvalVariable { .. }
    ) && (id.0 != root.0 || !matches!(authority, CompilerExecutableKind::DirectEvalScript)) {
        return Err(
            BytecodeVerificationError::function(
                id,
                BytecodeVerificationErrorKind::DirectEvalBindingSourceRequiresDirectEvalScript {
                    closure: slot,
                },
            ),
        );
    }
    verify_required_atom(id, closure.name, MetadataAtomField::ClosureName(slot), atoms)?;
    verify_closure_binding(id, root, authority, atoms, closure, source, at, Ghost(context))?;
    if !closure_initializer_is_valid(function.constants(), closure, source, Ghost(context)) {
        return Err(
            BytecodeVerificationError::function(
                id,
                BytecodeVerificationErrorKind::RealmGlobalFunctionInitializerMetadataMismatch {
                    closure: slot,
                    constant: closure.function_initializer,
                },
            ),
        );
    }
    if is_module_function(closure, source) {
        verify_module_function_initializers(id, slot, instructions, closure)?;
    }
    verify_realm_global_lexical_initializer_sites(id, slot, instructions, closure, source)?;
    if closure.source != source {
        return Err(
            BytecodeVerificationError::function(
                id,
                BytecodeVerificationErrorKind::ClosureMetadataMismatch { child: id, closure: slot },
            ),
        );
    }
    Ok(())
}

/// Checks the closure variables of a function: their names, policies, sources
/// and initializers.
pub fn verify_closures(
    id: FunctionTemplateId,
    root: FunctionTemplateId,
    authority_kind: CompilerExecutableKind,
    function: &VerifiedCompilerFunction,
    closures: &[ClosureVariableDefinition],
) -> (checked: Result<(), BytecodeVerificationError>)
    ensures
        checked == first_failure(
            closure_checks(closure_context(id, root, authority_kind, *function), closures@),
        ),
{
    let ghost context = closure_context(id, root, authority_kind, *function);
    let ghost checks = closure_checks(context, closures@);
    let sources: usize = function.closure_sources().len();
    let mut at: usize = 0;
    while at < closures.len() && at < sources
        invariant
            at <= closures@.len(),
            at <= sources,
            sources == function.closure_sources@.len(),
            context == closure_context(id, root, authority_kind, *function),
            checks == closure_checks(context, closures@),
            forall|i: int| 0 <= i < at ==> (#[trigger] checks[i]).is_ok(),
        decreases closures@.len() - at,
    {
        let checked = verify_closure(
            id,
            root,
            authority_kind,
            function,
            closures[at],
            at,
            Ghost(context),
        );
        assert(checks[at as int] == checked);
        if checked.is_err() {
            proof {
                lemma_first_failure_at(checks, at as int);
            }
            return checked;
        }
        at = at + 1;
    }
    proof {
        lemma_no_failure(checks);
    }
    Ok(())
}

} // verus!
