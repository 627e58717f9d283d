//! Which bindings a graph may declare, close over and import.
use crate::bytecode::atoms::arguments_units;
use crate::bytecode::closures::{
    ClosureContext, closure_check, lexical_initializations, module_pair, module_pairs_before,
};
use crate::bytecode::model::{
    ClosureVariableDefinition, CompilerBindingKind, CompilerBindingPolicy, CompilerClosureBinding,
    CompilerExecutableKind, CompilerInitializationPolicy, CompilerWritePolicy, ModuleBindingOrigin,
    ModuleImportNameKind, ScopeLink, UnverifiedModuleBindingDescriptor,
    UnverifiedModuleDeclarationRecord, VariableDefinition,
};
use crate::bytecode::module_record::{
    ModuleContext, binding_check, binding_checks, record_check, request_checks,
};
use crate::bytecode::variables::{VariableContext, variable_check};
use crate::checks::{lemma_no_failure, lemma_success_means_all};
use crate::control_flow::model::VerifiedInstruction;
use crate::function_graph::{CompilerAtom, CompilerClosureSource, CompilerConstant};
use crate::instruction::{AtomPoolIndex, Operands};
use crate::opcode::FinalOpcode;
use vstd::prelude::*;

verus! {

/// The policy of a kind, spelled out.
pub open spec fn policy(
    kind: CompilerBindingKind,
    initialization: CompilerInitializationPolicy,
    writes: CompilerWritePolicy,
    temporal_dead_zone: bool,
) -> CompilerBindingPolicy {
    CompilerBindingPolicy { kind, initialization, writes, temporal_dead_zone }
}

/// The policy of a `var`.
pub open spec fn var_policy() -> CompilerBindingPolicy {
    policy(
        CompilerBindingKind::Var,
        CompilerInitializationPolicy::UndefinedAtInstantiation,
        CompilerWritePolicy::Mutable,
        false,
    )
}

/// The policy of a `let`.
pub open spec fn let_policy() -> CompilerBindingPolicy {
    policy(
        CompilerBindingKind::Let,
        CompilerInitializationPolicy::AtDeclaration,
        CompilerWritePolicy::Mutable,
        true,
    )
}

/// The policy of a `const`, and of what else a declaration makes once and for
/// all.
pub open spec fn constant_policy(kind: CompilerBindingKind) -> CompilerBindingPolicy {
    policy(
        kind,
        CompilerInitializationPolicy::AtDeclaration,
        CompilerWritePolicy::Immutable,
        true,
    )
}

/// The policy of a function declaration.
pub open spec fn function_policy(
    initialization: CompilerInitializationPolicy,
) -> CompilerBindingPolicy {
    policy(CompilerBindingKind::Function, initialization, CompilerWritePolicy::Mutable, false)
}

/// The policy of a name looked up in the realm.
pub open spec fn lookup_policy() -> CompilerBindingPolicy {
    policy(
        CompilerBindingKind::GlobalReference,
        CompilerInitializationPolicy::ConstructorRealmLookup,
        CompilerWritePolicy::Mutable,
        false,
    )
}

/// The valid policies, one by one. Only parameters and caught exceptions may or
/// may not have a dead zone, and only the name of a function is immutable in
/// strict code alone.
pub proof fn lemma_valid_policies_are_these(found: CompilerBindingPolicy)
    ensures
        found.spec_is_valid() <==> {
            ||| found == policy(
                CompilerBindingKind::Parameter,
                CompilerInitializationPolicy::Argument,
                CompilerWritePolicy::Mutable,
                found.temporal_dead_zone,
            )
            ||| found == policy(
                CompilerBindingKind::Catch,
                CompilerInitializationPolicy::Catch,
                CompilerWritePolicy::Mutable,
                found.temporal_dead_zone,
            )
            ||| found == var_policy()
            ||| found == let_policy()
            ||| found == constant_policy(CompilerBindingKind::Const)
            ||| found == constant_policy(CompilerBindingKind::ClassName)
            ||| found == constant_policy(CompilerBindingKind::ClassFieldKey)
            ||| found == constant_policy(CompilerBindingKind::ClassInstanceInitializer)
            ||| found == constant_policy(CompilerBindingKind::ClassPrivateName)
            ||| found == constant_policy(CompilerBindingKind::ClassStaticReceiver)
            ||| found == constant_policy(CompilerBindingKind::WithObject)
            ||| found == function_policy(CompilerInitializationPolicy::FunctionAtInstantiation)
            ||| found == function_policy(CompilerInitializationPolicy::FunctionAtScopeEntry)
            ||| found == policy(
                CompilerBindingKind::FunctionName,
                CompilerInitializationPolicy::FunctionName,
                CompilerWritePolicy::Immutable,
                false,
            )
            ||| found == policy(
                CompilerBindingKind::FunctionName,
                CompilerInitializationPolicy::FunctionName,
                CompilerWritePolicy::ImmutableInStrictCode,
                false,
            )
            ||| found == lookup_policy()
        },
{
}

/// Whether the pool has an atom that names something.
pub open spec fn names_in(atoms: Seq<CompilerAtom>, atom: AtomPoolIndex) -> bool {
    atom.0 < atoms.len() && !atoms[atom.0 as int].static_property_only
}

/// Whether a constant of the pool is a function template.
pub open spec fn function_in(constants: Seq<CompilerConstant>, constant: u32) -> bool {
    constant < constants.len() && constants[constant as int] is Function
}

/// Number of instructions that initialize the lexical global `slot`.
pub open spec fn lexical_puts(instructions: Seq<VerifiedInstruction>, slot: u32) -> nat {
    instructions.filter(
        |verified: VerifiedInstruction|
            verified.spec_decoded().instruction.opcode == FinalOpcode::PutVarInit && match
                verified.spec_decoded().instruction.operands {
                Operands::VarRef(found) => found == slot,
                _ => false,
            },
    ).len()
}

proof fn lemma_lexical_puts(instructions: Seq<VerifiedInstruction>, slot: u32, count: int)
    requires
        0 <= count <= instructions.len(),
    ensures
        lexical_puts(instructions.take(count), slot)
            == lexical_initializations(instructions, slot, count),
    decreases count,
{
    reveal(Seq::filter);
    if count > 0 {
        lemma_lexical_puts(instructions, slot, count - 1);
        assert(instructions.take(count).drop_last() =~= instructions.take(count - 1));
        assert(instructions.take(count).last() == instructions[count - 1]);
    }
}

/// A closure variable bound to a realm global is accepted exactly if it is named
/// by the pool and is one of these: a name looked up, a `var`, a function
/// initialized at instantiation, or, in a global script, a `let` or a `const`.
/// It enters the graph at the root of a script under its own name, or comes from
/// the parent anywhere below. Where a function enters it names a function
/// template, and nothing else does. A `let` or a `const` is initialized by
/// exactly one instruction where it enters, and by none below.
pub proof fn lemma_realm_globals_are_these(
    context: ClosureContext,
    closure: ClosureVariableDefinition,
    at: int,
    found: CompilerBindingPolicy,
)
    requires
        0 <= at < context.sources.len(),
        at <= u32::MAX,
        context.atoms.len() <= u32::MAX,
        closure.binding == CompilerClosureBinding::RealmGlobal(found),
    ensures
        ({
            let source = context.sources[at];
            let enters = source is ConstructorRealmGlobal;
            let lexical = found == let_policy() || found == constant_policy(
                CompilerBindingKind::Const,
            );
            let function = found == function_policy(
                CompilerInitializationPolicy::FunctionAtInstantiation,
            );
            closure_check(context, closure, at).is_ok() <==> {
                &&& match closure.name {
                    Some(name) => names_in(context.atoms, name),
                    None => false,
                }
                &&& !closure.arguments_object
                &&& !closure.deletable_eval_variable
                &&& found == lookup_policy() || found == var_policy() || function || (lexical
                    && context.authority == CompilerExecutableKind::GlobalScript)
                &&& match source {
                    CompilerClosureSource::ConstructorRealmGlobal(name) => context.id
                        == context.root && closure.name == Some(name) && (context.authority
                        == CompilerExecutableKind::GlobalScript || context.authority
                        == CompilerExecutableKind::IndirectEvalScript || context.authority
                        == CompilerExecutableKind::DirectEvalScript || context.authority
                        == CompilerExecutableKind::DynamicFunctionScript),
                    CompilerClosureSource::ParentClosure(_) => context.id != context.root,
                    _ => false,
                }
                &&& match closure.function_initializer {
                    Some(constant) => function && enters && function_in(
                        context.constants,
                        constant,
                    ),
                    None => !(function && enters),
                }
                &&& lexical ==> lexical_puts(context.instructions, at as u32) == if enters {
                    1nat
                } else {
                    0nat
                }
                &&& closure.source == source
            }
        }),
{
    lemma_lexical_puts(context.instructions, at as u32, context.instructions.len() as int);
    assert(context.instructions.take(context.instructions.len() as int) =~= context.instructions);
}

/// Code units of the name `arguments`.
pub open spec fn spells_arguments(units: Seq<u16>) -> bool {
    &&& units.len() == 9
    &&& units[0] == 97 && units[1] == 114 && units[2] == 103
    &&& units[3] == 117 && units[4] == 109 && units[5] == 101
    &&& units[6] == 110 && units[7] == 116 && units[8] == 115
}

/// A captured closure variable that is no function of a module is accepted
/// exactly if it is named by the pool, its policy is valid and no lookup in the
/// realm, and it initializes no function. It comes from a cell or a closure
/// variable of the parent, from a module cell at the root of a module, or from a
/// direct eval's surroundings at the root of that eval. The `arguments` object is
/// a `var` of that name, and a variable that the eval itself adds is a deletable
/// `var` or function.
pub proof fn lemma_captured_bindings_are_these(
    context: ClosureContext,
    closure: ClosureVariableDefinition,
    at: int,
    found: CompilerBindingPolicy,
)
    requires
        0 <= at < context.sources.len(),
        at <= u32::MAX,
        context.atoms.len() <= u32::MAX,
        closure.binding == CompilerClosureBinding::Captured(found),
        !(context.sources[at] is Module && found == function_policy(
            CompilerInitializationPolicy::FunctionAtInstantiation,
        )),
    ensures
        ({
            let source = context.sources[at];
            closure_check(context, closure, at).is_ok() <==> {
                &&& match closure.name {
                    Some(name) => names_in(context.atoms, name) && (closure.arguments_object
                        ==> found == var_policy() && spells_arguments(
                        context.atoms[name.0 as int].string.units@,
                    )),
                    None => false,
                }
                &&& found.spec_is_valid()
                &&& found != lookup_policy()
                &&& closure.function_initializer.is_none()
                &&& closure.source == source
                &&& match source {
                    CompilerClosureSource::ParentVariableReference(_) => {
                        !closure.deletable_eval_variable
                    },
                    CompilerClosureSource::ParentClosure(_) => true,
                    CompilerClosureSource::ConstructorRealmGlobal(_) => false,
                    CompilerClosureSource::Module { .. } => context.id == context.root
                        && context.authority == CompilerExecutableKind::Module
                        && !closure.arguments_object,
                    CompilerClosureSource::DirectEvalBinding { .. } => {
                        !closure.deletable_eval_variable && context.id == context.root
                            && context.authority == CompilerExecutableKind::DirectEvalScript
                    },
                    CompilerClosureSource::DirectEvalVariable { .. } => {
                        closure.deletable_eval_variable && context.id == context.root
                            && context.authority == CompilerExecutableKind::DirectEvalScript && (
                        found.kind == CompilerBindingKind::Var || found.kind
                            == CompilerBindingKind::Function)
                    },
                }
            }
        }),
{
    if let Some(name) = closure.name {
        if name.0 < context.atoms.len() {
            let units = context.atoms[name.0 as int].string.units@;
            lemma_spelling(units);
        }
    }
}

proof fn lemma_spelling(units: Seq<u16>)
    ensures
        units == arguments_units() <==> spells_arguments(units),
{
    if spells_arguments(units) {
        assert(units =~= arguments_units());
    }
}

/// A module function is accepted exactly if it is named by the pool, unmarked,
/// at the root of a module, and names a function template that exactly one
/// closure, put into its cell right behind it, is made of.
pub proof fn lemma_module_functions_are_these(
    context: ClosureContext,
    closure: ClosureVariableDefinition,
    at: int,
)
    requires
        0 <= at < context.sources.len(),
        at <= u32::MAX,
        context.atoms.len() <= u32::MAX,
        closure.binding == CompilerClosureBinding::Captured(
            function_policy(CompilerInitializationPolicy::FunctionAtInstantiation),
        ),
        context.sources[at] is Module,
    ensures
        closure_check(context, closure, at).is_ok() <==> {
            &&& match closure.name {
                Some(name) => names_in(context.atoms, name),
                None => false,
            }
            &&& !closure.arguments_object
            &&& context.id == context.root
            &&& context.authority == CompilerExecutableKind::Module
            &&& closure.source == context.sources[at]
            &&& match closure.function_initializer {
                Some(constant) => function_in(context.constants, constant) && one_module_pair(
                    context.instructions,
                    constant,
                    at as u32,
                ),
                None => false,
            }
        },
{
    if let Some(constant) = closure.function_initializer {
        lemma_one_module_pair(context.instructions, constant, at as u32);
    }
}

/// Whether a closure of `constant` stands at `at` with a put into cell `slot`
/// right behind it.
pub open spec fn closes_and_puts(
    instructions: Seq<VerifiedInstruction>,
    constant: u32,
    slot: u32,
    at: int,
) -> bool {
    let closes = instructions[at].spec_decoded().instruction;
    let puts = instructions[at + 1].spec_decoded().instruction;
    &&& 0 <= at && at + 1 < instructions.len()
    &&& match closes.operands {
        Operands::Const(found) => closes.opcode == FinalOpcode::FClosure && found == constant,
        Operands::Const8(found) => closes.opcode == FinalOpcode::FClosure8 && found == constant,
        _ => false,
    }
    &&& puts.opcode == FinalOpcode::PutVarRef
    &&& match puts.operands {
        Operands::VarRef(found) => found == slot,
        _ => false,
    }
}

/// Whether exactly one closure of `constant` is put into cell `slot`.
pub open spec fn one_module_pair(
    instructions: Seq<VerifiedInstruction>,
    constant: u32,
    slot: u32,
) -> bool {
    exists|at: int|
        #[trigger] closes_and_puts(instructions, constant, slot, at) && forall|other: int|
            #[trigger] closes_and_puts(instructions, constant, slot, other) ==> other == at
}

proof fn lemma_module_pairs(
    instructions: Seq<VerifiedInstruction>,
    constant: u32,
    slot: u32,
    count: int,
)
    requires
        0 <= count,
    ensures
        ({
            let pairs = module_pairs_before(
                instructions,
                constant,
                slot,
                count,
            );
            &&& pairs == 0 <==> forall|at: int|
                at < count ==> !#[trigger] closes_and_puts(instructions, constant, slot, at)
            &&& pairs == 1 <==> exists|at: int|
                at < count && #[trigger] closes_and_puts(instructions, constant, slot, at)
                    && forall|other: int|
                    other < count && #[trigger] closes_and_puts(
                        instructions,
                        constant,
                        slot,
                        other,
                    ) ==> other == at
        }),
    decreases count,
{
    if count > 0 {
        lemma_module_pairs(instructions, constant, slot, count - 1);
        let last = count - 1;
        assert(module_pair(instructions, constant, slot, last)
            == closes_and_puts(instructions, constant, slot, last));
        let before = module_pairs_before(
            instructions,
            constant,
            slot,
            last,
        );
        if closes_and_puts(instructions, constant, slot, last) {
            if before == 0 {
                assert(forall|other: int|
                    other < count && #[trigger] closes_and_puts(
                        instructions,
                        constant,
                        slot,
                        other,
                    ) ==> other == last);
            } else {
                let other = choose|at: int|
                    at < last && #[trigger] closes_and_puts(instructions, constant, slot, at);
                assert(other != last);
            }
        } else if before == 1 {
            let one = choose|at: int|
                at < last && #[trigger] closes_and_puts(instructions, constant, slot, at)
                    && forall|other: int|
                    other < last && #[trigger] closes_and_puts(
                        instructions,
                        constant,
                        slot,
                        other,
                    ) ==> other == at;
            assert(closes_and_puts(instructions, constant, slot, one));
        }
    }
}

proof fn lemma_one_module_pair(
    instructions: Seq<VerifiedInstruction>,
    constant: u32,
    slot: u32,
)
    ensures
        one_module_pair(instructions, constant, slot)
            == (module_pairs_before(
            instructions,
            constant,
            slot,
            instructions.len() as int,
        ) == 1),
{
    let count = instructions.len() as int;
    lemma_module_pairs(instructions, constant, slot, count);
    assert(forall|at: int| #[trigger]
        closes_and_puts(instructions, constant, slot, at) ==> at < count);
}

/// A binding of a module's declaration record is accepted exactly if its name is
/// in the pool, its slot is a closure variable of the root that no earlier
/// binding has, and that variable is the module cell at the binding's own
/// position with the same policy. A local binding is a `var`, a `let`, a `const`
/// or a function, and imports nothing. An imported one is constant with a dead
/// zone, initializes nothing, and imports from one of the requests, under a name
/// of the pool where it names one.
pub proof fn lemma_module_bindings_are_these(
    context: ModuleContext,
    bindings: Seq<UnverifiedModuleBindingDescriptor>,
    at: int,
)
    requires
        0 <= at < bindings.len(),
        at <= u32::MAX,
        context.atoms.len() <= u32::MAX,
    ensures
        ({
            let binding = bindings[at];
            let kind = binding.policy.kind;
            binding_check(context, bindings, at).is_ok() <==> {
                &&& names_in(context.atoms, binding.name)
                &&& binding.slot < context.closures.len()
                &&& forall|j: int| 0 <= j < at ==> (#[trigger] bindings[j]).slot != binding.slot
                &&& context.closures[binding.slot as int].source
                    == (CompilerClosureSource::Module { index: at as u32 })
                &&& context.closures[binding.slot as int].binding
                    == CompilerClosureBinding::Captured(binding.policy)
                &&& match binding.origin {
                    ModuleBindingOrigin::Local => binding.import.is_none() && (kind
                        == CompilerBindingKind::Var || kind == CompilerBindingKind::Let || kind
                        == CompilerBindingKind::Const || kind == CompilerBindingKind::Function),
                    _ => kind == CompilerBindingKind::Const && binding.policy.writes
                        == CompilerWritePolicy::Immutable && binding.policy.temporal_dead_zone
                        && binding.initializer.is_none() && match binding.import {
                        Some(import) => import.request < context.requests && match import.kind {
                            ModuleImportNameKind::Named(name) => names_in(context.atoms, name),
                            _ => true,
                        },
                        None => false,
                    },
                }
            }
        }),
{
}

/// A declaration record is accepted exactly if every request names its module by
/// the pool and every binding is accepted.
pub proof fn lemma_module_records_are_these(
    context: ModuleContext,
    record: UnverifiedModuleDeclarationRecord,
)
    requires
        context.atoms.len() <= u32::MAX,
        context.closures.len() <= u32::MAX,
        record.requests@.len() <= u32::MAX,
    ensures
        record_check(context, record).is_ok() <==> {
            &&& forall|i: int|
                0 <= i < record.requests@.len() ==> names_in(
                    context.atoms,
                    (#[trigger] record.requests@[i]).specifier,
                )
            &&& forall|i: int|
                0 <= i < record.bindings@.len() ==> #[trigger] binding_check(
                    context,
                    record.bindings@,
                    i,
                ).is_ok()
        },
{
    let requests = request_checks(context.root, context.atoms, record.requests@);
    let bindings = binding_checks(context, record.bindings@);
    if record_check(context, record).is_ok() {
        lemma_success_means_all(requests);
        lemma_success_means_all(bindings);
        assert forall|i: int| 0 <= i < record.requests@.len() implies names_in(
            context.atoms,
            (#[trigger] record.requests@[i]).specifier,
        ) by {
            assert(requests[i].is_ok());
        }
        assert forall|i: int| 0 <= i < record.bindings@.len() implies #[trigger] binding_check(
            context,
            record.bindings@,
            i,
        ).is_ok() by {
            assert(bindings[i].is_ok());
        }
    }
    if (forall|i: int|
        0 <= i < record.requests@.len() ==> names_in(
            context.atoms,
            (#[trigger] record.requests@[i]).specifier,
        )) && (forall|i: int|
        0 <= i < record.bindings@.len() ==> #[trigger] binding_check(
            context,
            record.bindings@,
            i,
        ).is_ok()) {
        assert forall|i: int| 0 <= i < requests.len() implies (#[trigger] requests[i]).is_ok() by {
            assert(names_in(context.atoms, record.requests@[i].specifier));
        }
        lemma_no_failure(requests);
        lemma_no_failure(bindings);
    }
}

/// A variable definition is accepted exactly if it is named by the pool and has a
/// policy that is valid for its function. An argument is a parameter without dead
/// zone and scope. A local is scoped as its policy says and ends its chain or
/// links to a local of the same sort. A function declaration, and a parameter at
/// will, names a function template. A cell is one of the function's and no
/// earlier definition's. The `arguments` object is the first of its kind, a local
/// `var` of that name.
pub proof fn lemma_variables_are_these(
    context: VariableContext,
    variables: Seq<VariableDefinition>,
    at: int,
)
    requires
        0 <= at < variables.len(),
        context.atoms.len() <= u32::MAX,
    ensures
        ({
            let definition = variables[at];
            let found = definition.policy;
            let declares = found.initialization
                == CompilerInitializationPolicy::FunctionAtInstantiation || found.initialization
                == CompilerInitializationPolicy::FunctionAtScopeEntry;
            variable_check(context, variables, at).is_ok() <==> {
                &&& match definition.name {
                    Some(name) => names_in(context.atoms, name) && (definition.arguments_object ==> {
                        &&& at >= context.arguments
                        &&& found == var_policy()
                        &&& !definition.has_scope
                        &&& spells_arguments(context.atoms[name.0 as int].string.units@)
                        &&& forall|j: int|
                            0 <= j < at ==> !(#[trigger] variables[j]).arguments_object
                    }),
                    None => false,
                }
                &&& found.spec_is_valid()
                &&& found.kind != CompilerBindingKind::GlobalReference
                &&& found.kind == CompilerBindingKind::FunctionName ==> (found.writes
                    == CompilerWritePolicy::Immutable) == context.strict
                &&& match definition.function_initializer {
                    Some(constant) => (declares || found.kind == CompilerBindingKind::Parameter)
                        && function_in(context.constants, constant),
                    None => !declares,
                }
                &&& if at < context.arguments {
                    found.kind == CompilerBindingKind::Parameter && !found.temporal_dead_zone
                        && !definition.has_scope && definition.scope_next == ScopeLink::End
                } else {
                    &&& definition.has_scope == (found.kind != CompilerBindingKind::Parameter
                        && found.kind != CompilerBindingKind::Var && found.kind
                        != CompilerBindingKind::FunctionName && found.initialization
                        != CompilerInitializationPolicy::FunctionAtInstantiation)
                    &&& match definition.scope_next {
                        ScopeLink::End => true,
                        ScopeLink::ArgumentScopeEnd => false,
                        ScopeLink::Local(next) => next < context.locals && variables[
                        context.arguments + next].has_scope == definition.has_scope,
                    }
                }
                &&& match definition.variable_reference {
                    Some(cell) => cell < context.references && forall|j: int|
                        0 <= j < at ==> (#[trigger] variables[j]).variable_reference != Some(cell),
                    None => true,
                }
            }
        }),
{
    let definition = variables[at];
    if let Some(name) = definition.name {
        if name.0 < context.atoms.len() {
            lemma_spelling(context.atoms[name.0 as int].string.units@);
        }
    }
}

} // verus!
