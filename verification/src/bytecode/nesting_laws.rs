//! How the functions of a graph hang together: who owns whom, what a parent hands
//! on, and what arrows find around them.
use crate::bytecode::atoms::{default_units, starred_default_units};
use crate::bytecode::closure_metadata::{
    child_checks, child_closure_checks, closure_initializer_checks, is_handed_on, names_agree,
    parent_checks,
    referenced_variable, variable_initializer_checks,
};
use crate::bytecode::function_initializers::prefix_behind;
use crate::bytecode::initializer_pairs::{
    InitializerBody, body_incoming, claim_site, flows_on, pair_definition, pairs_before,
};
use crate::bytecode::lexical_environment::{
    arrow_boundary, arrow_check, boundary_of, calls_super, derived_this_flags,
    first_home_object_use, first_super_call, has_receiver_cell, uses_home_object,
};
use crate::bytecode::model::{
    ClosureVariableDefinition, CompilerBindingKind, CompilerClosureBinding, CompilerExecutableKind,
    CompilerInitializationPolicy, FunctionRecord,
};
use crate::bytecode::ownership::{
    owner_checks, ownership_check, pool_checks, pool_references, reference_checks, references,
    template_parent, template_parents, template_references,
};
use crate::checks::{first_failure, lemma_no_failure, lemma_success_means_all};
use crate::function_graph::{
    CompilerAtom, CompilerClosureSource, CompilerConstant, FunctionTemplateId,
    VerifiedCompilerFunction,
};
use crate::instruction::{AtomPoolIndex, Operands};
use crate::opcode::FinalOpcode;
use vstd::prelude::*;

verus! {

/// Whether a constant holds the function at `child`.
pub open spec fn is_child(constant: CompilerConstant, child: int) -> bool {
    match constant {
        CompilerConstant::Function(id) => id.0 == child,
        CompilerConstant::Value => false,
    }
}

/// Whether constant `at` of function `parent` holds the function at `child`.
pub open spec fn holds_child(
    functions: Seq<VerifiedCompilerFunction>,
    parent: int,
    at: int,
    child: int,
) -> bool {
    &&& 0 <= parent < functions.len()
    &&& 0 <= at < functions[parent].constants@.len()
    &&& is_child(functions[parent].constants@[at], child)
}

proof fn lemma_pool(constants: Seq<CompilerConstant>, child: int, count: int)
    requires
        0 <= count <= constants.len(),
    ensures
        pool_references(constants, child, count) == 0 <==> forall|at: int|
            0 <= at < count ==> !#[trigger] is_child(constants[at], child),
    decreases count,
{
    if count > 0 {
        lemma_pool(constants, child, count - 1);
        assert(is_child(constants[count - 1], child) == references(constants[count - 1], child));
    }
}

proof fn lemma_templates(functions: Seq<VerifiedCompilerFunction>, child: int, count: int)
    requires
        0 <= count <= functions.len(),
    ensures
        template_references(functions, child, count) == 0 <==> forall|parent: int, at: int|
            parent < count ==> !#[trigger] holds_child(functions, parent, at, child),
    decreases count,
{
    if count > 0 {
        lemma_templates(functions, child, count - 1);
        let constants = functions[count - 1].constants@;
        lemma_pool(constants, child, constants.len() as int);
        if template_references(functions, child, count) == 0 {
            assert forall|parent: int, at: int| parent < count implies !#[trigger] holds_child(
                functions,
                parent,
                at,
                child,
            ) by {
                if parent == count - 1 && 0 <= at < constants.len() {
                    assert(!is_child(constants[at], child));
                }
            }
        } else if forall|parent: int, at: int|
            parent < count ==> !#[trigger] holds_child(functions, parent, at, child) {
            assert forall|at: int| 0 <= at < constants.len() implies !#[trigger] is_child(
                constants[at],
                child,
            ) by {
                assert(!holds_child(functions, count - 1, at, child));
            }
        }
    }
}

/// In an owned graph every constant that holds a function holds one of the graph,
/// nothing holds the root, and something holds every other function.
pub proof fn lemma_every_function_but_the_root_is_held(
    functions: Seq<VerifiedCompilerFunction>,
    root: FunctionTemplateId,
    child: int,
    parent: int,
    at: int,
)
    requires
        ownership_check(functions, root).is_ok(),
        0 <= child < functions.len(),
    ensures
        child == root.0 ==> !holds_child(functions, parent, at, child),
        child != root.0 ==> exists|parent: int, at: int| #[trigger]
            holds_child(functions, parent, at, child),
        0 <= parent < functions.len() && 0 <= at < functions[parent].constants@.len() ==> match
            functions[parent].constants@[at] {
            CompilerConstant::Function(id) => id.0 < functions.len(),
            CompilerConstant::Value => true,
        },
{
    let pools = pool_checks(functions);
    let owners = owner_checks(functions, root);
    lemma_success_means_all(pools);
    lemma_success_means_all(owners);
    assert(owners[child].is_ok());
    lemma_templates(functions, child, functions.len() as int);
    if 0 <= parent < functions.len() && 0 <= at < functions[parent].constants@.len() {
        assert(pools[parent].is_ok());
        let checks = reference_checks(
            functions[parent].constants@,
            functions.len() as int,
        );
        lemma_success_means_all(checks);
        assert(checks[at].is_ok());
    }
}

proof fn lemma_parent_holds(functions: Seq<VerifiedCompilerFunction>, child: int, count: int)
    requires
        0 <= count <= functions.len() <= u32::MAX,
    ensures
        match template_parent(functions, child, count) {
            Some(parent) => parent.0 < count && exists|at: int| #[trigger]
                holds_child(functions, parent.0 as int, at, child),
            None => forall|parent: int, at: int|
                parent < count ==> !#[trigger] holds_child(functions, parent, at, child),
        },
    decreases count,
{
    if count > 0 {
        let constants = functions[count - 1].constants@;
        lemma_pool(constants, child, constants.len() as int);
        if pool_references(constants, child, constants.len() as int) > 0 {
            let at = choose|at: int|
                0 <= at < constants.len() && #[trigger] is_child(constants[at], child);
            assert(holds_child(functions, count - 1, at, child));
        } else {
            lemma_parent_holds(functions, child, count - 1);
            if template_parent(functions, child, count - 1).is_none() {
                assert forall|parent: int, at: int| parent < count implies !#[trigger] holds_child(
                    functions,
                    parent,
                    at,
                    child,
                ) by {
                    if parent == count - 1 && 0 <= at < constants.len() {
                        assert(!is_child(constants[at], child));
                    }
                }
            }
        }
    }
}

/// The parent of a function holds it, and a function without a parent is held by
/// none.
pub proof fn lemma_parents_hold_their_children(
    functions: Seq<VerifiedCompilerFunction>,
    child: int,
)
    requires
        0 <= child < functions.len() <= u32::MAX,
    ensures
        match template_parents(functions)[child] {
            Some(parent) => exists|at: int| #[trigger]
                holds_child(functions, parent.0 as int, at, child),
            None => forall|parent: int, at: int|
                !#[trigger] holds_child(functions, parent, at, child),
        },
{
    lemma_parent_holds(functions, child, functions.len() as int);
    if template_parents(functions)[child].is_none() {
        assert forall|parent: int, at: int| !#[trigger] holds_child(
            functions,
            parent,
            at,
            child,
        ) by {
            if parent < functions.len() {
                assert(!holds_child(functions, parent, at, child));
            }
        }
    }
}

/// A graph of one root and children that it holds one each, and that hold
/// nothing, is owned.
pub proof fn lemma_flat_graphs_are_owned(
    functions: Seq<VerifiedCompilerFunction>,
    root: FunctionTemplateId,
)
    requires
        root.0 == 0,
        0 < functions.len() <= u32::MAX,
        functions[0].constants@.len() == functions.len() - 1,
        forall|i: int|
            0 <= i < functions.len() - 1 ==> #[trigger] functions[0].constants@[i]
                == CompilerConstant::Function(FunctionTemplateId((i + 1) as u32)),
        forall|i: int|
            0 < i < functions.len() ==> (#[trigger] functions[i]).constants@.len() == 0,
    ensures
        ownership_check(functions, root).is_ok(),
{
    let pools = pool_checks(functions);
    let owners = owner_checks(functions, root);
    assert forall|i: int| 0 <= i < pools.len() implies (#[trigger] pools[i]).is_ok() by {
        let checks = reference_checks(
            functions[i].constants@,
            functions.len() as int,
        );
        assert forall|k: int| 0 <= k < checks.len() implies (#[trigger] checks[k]).is_ok() by {
            if i == 0 {
                assert(functions[0].constants@[k] == CompilerConstant::Function(
                    FunctionTemplateId((k + 1) as u32),
                ));
            } else {
                assert(functions[i].constants@.len() == 0);
            }
        }
        lemma_no_failure(checks);
    }
    lemma_no_failure(pools);
    assert forall|i: int| 0 <= i < owners.len() implies (#[trigger] owners[i]).is_ok() by {
        lemma_flat_pool(functions[0].constants@, i, functions.len() - 1);
        lemma_flat_references(functions, i, functions.len() as int);
    }
    lemma_no_failure(owners);
}

proof fn lemma_flat_pool(constants: Seq<CompilerConstant>, child: int, count: int)
    requires
        0 <= count <= constants.len() <= u32::MAX,
        forall|i: int|
            0 <= i < constants.len() ==> #[trigger] constants[i] == CompilerConstant::Function(
                FunctionTemplateId((i + 1) as u32),
            ),
    ensures
        pool_references(constants, child, count) == if 1 <= child
            <= count {
            1nat
        } else {
            0nat
        },
    decreases count,
{
    if count > 0 {
        lemma_flat_pool(constants, child, count - 1);
        assert(constants[count - 1] == CompilerConstant::Function(
            FunctionTemplateId(count as u32),
        ));
    }
}

proof fn lemma_flat_references(
    functions: Seq<VerifiedCompilerFunction>,
    child: int,
    count: int,
)
    requires
        0 < count <= functions.len(),
        forall|i: int|
            0 < i < functions.len() ==> (#[trigger] functions[i]).constants@.len() == 0,
    ensures
        template_references(functions, child, count)
            == pool_references(
            functions[0].constants@,
            child,
            functions[0].constants@.len() as int,
        ),
    decreases count,
{
    if count > 1 {
        lemma_flat_references(functions, child, count - 1);
        assert(functions[count - 1].constants@.len() == 0);
    } else {
        assert(template_references(functions, child, 0) == 0);
    }
}

/// Code units of the atom that names something, if the pool has it.
pub open spec fn spelling(
    atom: Option<AtomPoolIndex>,
    atoms: Seq<CompilerAtom>,
) -> Option<Seq<u16>> {
    match atom {
        Some(atom) if atom.0 < atoms.len() => Some(atoms[atom.0 as int].string.units@),
        _ => None,
    }
}

/// Whether code units spell a text.
pub open spec fn spells(units: Option<Seq<u16>>, text: Seq<char>) -> bool {
    match units {
        Some(units) => units.len() == text.len() && forall|i: int|
            0 <= i < text.len() ==> #[trigger] units[i] == text[i] as int,
        None => false,
    }
}

/// Whether constant `constant` of a parent is a function of the graph that may be
/// bound to a name: it bears the name itself, or `default` where the binding is
/// that of a default export.
pub open(crate) spec fn bears_name(
    functions: Seq<VerifiedCompilerFunction>,
    metadata: Seq<FunctionRecord>,
    parent: int,
    name: Option<AtomPoolIndex>,
    constant: u32,
) -> bool {
    let constants = functions[parent].constants@;
    &&& constant < constants.len()
    &&& match constants[constant as int] {
        CompilerConstant::Function(child) => {
            let bound = spelling(name, functions[parent].atoms@);
            let named = spelling(
                metadata[child.0 as int].function_name,
                functions[child.0 as int].atoms@,
            );
            &&& child.0 < functions.len()
            &&& bound == named || (spells(bound, "*default*"@) && spells(named, "default"@))
        },
        CompilerConstant::Value => false,
    }
}

proof fn lemma_default_is_spelled(bound: Option<Seq<u16>>, named: Option<Seq<u16>>)
    ensures
        bound == Some(starred_default_units()) <==> spells(bound, "*default*"@),
        named == Some(default_units()) <==> spells(named, "default"@),
{
    reveal_strlit("*default*");
    reveal_strlit("default");
    if spells(bound, "*default*"@) {
        assert(bound.unwrap() =~= starred_default_units());
    }
    if spells(named, "default"@) {
        assert(named.unwrap() =~= default_units());
    }
}

/// What initializes a variable or closure variable is a function that may be bound
/// to its name. A definition without initializer needs none.
pub proof fn lemma_initializers_bear_the_names_they_are_bound_to(
    functions: Seq<VerifiedCompilerFunction>,
    metadata: Seq<FunctionRecord>,
    parent: int,
    at: int,
)
    ensures
        0 <= at < metadata[parent].variables.len() ==> (variable_initializer_checks(
            functions,
            metadata,
            parent,
        )[at].is_ok() <==> match metadata[parent].variables[at].function_initializer {
            Some(constant) => bears_name(
                functions,
                metadata,
                parent,
                metadata[parent].variables[at].name,
                constant,
            ),
            None => true,
        }),
        0 <= at < metadata[parent].closures.len() ==> (closure_initializer_checks(
            functions,
            metadata,
            parent,
        )[at].is_ok() <==> match metadata[parent].closures[at].function_initializer {
            Some(constant) => bears_name(
                functions,
                metadata,
                parent,
                metadata[parent].closures[at].name,
                constant,
            ),
            None => true,
        }),
{
    assert forall|bound: Option<Seq<u16>>, named: Option<Seq<u16>>| #[trigger]
        names_agree(bound, named) == (bound == named || (spells(bound, "*default*"@) && spells(
            named,
            "default"@,
        ))) by {
        lemma_default_is_spelled(bound, named);
    }
}

/// What a parent hands on. A closure variable from the parent's closure variable
/// has its binding, its marks and its spelling. One from a cell of the parent
/// captures the definition that owns the cell, with its policy, its arguments
/// mark and its spelling, and is no variable that an eval added. Other sources
/// hand on nothing.
pub proof fn lemma_children_get_what_parents_have(
    parent: FunctionRecord,
    parent_atoms: Seq<CompilerAtom>,
    source: CompilerClosureSource,
    closure: ClosureVariableDefinition,
    atoms: Seq<CompilerAtom>,
    owner: int,
)
    ensures
        ({
            let handed = is_handed_on(parent, parent_atoms, source, closure, atoms);
            match source {
                CompilerClosureSource::ParentClosure(index) => if index < parent.closures.len() {
                    let outer = parent.closures[index as int];
                    handed <==> {
                        &&& closure.binding == outer.binding
                        &&& closure.arguments_object == outer.arguments_object
                        &&& closure.deletable_eval_variable == outer.deletable_eval_variable
                        &&& spelling(closure.name, atoms) == spelling(outer.name, parent_atoms)
                    }
                } else {
                    !handed
                },
                CompilerClosureSource::ParentVariableReference(cell) => {
                    &&& (forall|i: int|
                        0 <= i < parent.variables.len() ==> (
                        #[trigger] parent.variables[i]).variable_reference != Some(cell))
                        ==> !handed
                    &&& 0 <= owner < parent.variables.len()
                        && parent.variables[owner].variable_reference == Some(cell) && (forall|
                        i: int,
                    |
                        0 <= i < owner ==> (#[trigger] parent.variables[i]).variable_reference
                            != Some(cell)) ==> (handed <==> {
                        let outer = parent.variables[owner];
                        &&& closure.binding == CompilerClosureBinding::Captured(outer.policy)
                        &&& closure.arguments_object == outer.arguments_object
                        &&& !closure.deletable_eval_variable
                        &&& spelling(closure.name, atoms) == spelling(outer.name, parent_atoms)
                    })
                },
                _ => !handed,
            }
        }),
{
    if let CompilerClosureSource::ParentVariableReference(cell) = source {
        if forall|i: int|
            0 <= i < parent.variables.len() ==> (#[trigger] parent.variables[i]).variable_reference
                != Some(cell) {
            lemma_no_owner(parent, cell, 0);
        }
        if 0 <= owner < parent.variables.len() && parent.variables[owner].variable_reference
            == Some(cell) && (forall|i: int|
            0 <= i < owner ==> (#[trigger] parent.variables[i]).variable_reference != Some(cell)) {
            lemma_first_owner(parent, cell, 0, owner);
        }
    }
}

proof fn lemma_no_owner(parent: FunctionRecord, cell: u32, from: int)
    requires
        0 <= from,
        forall|i: int|
            0 <= i < parent.variables.len() ==> (#[trigger] parent.variables[i]).variable_reference
                != Some(cell),
    ensures
        referenced_variable(
            parent.variables,
            cell,
            from,
        ).is_none(),
    decreases parent.variables.len() - from,
{
    if from < parent.variables.len() {
        lemma_no_owner(parent, cell, from + 1);
    }
}

proof fn lemma_first_owner(parent: FunctionRecord, cell: u32, from: int, owner: int)
    requires
        0 <= from <= owner < parent.variables.len(),
        parent.variables[owner].variable_reference == Some(cell),
        forall|i: int|
            0 <= i < owner ==> (#[trigger] parent.variables[i]).variable_reference != Some(cell),
    ensures
        referenced_variable(parent.variables, cell, from)
            == referenced_variable(
            parent.variables,
            cell,
            owner,
        ),
    decreases owner - from,
{
    if from < owner {
        assert(parent.variables[from].variable_reference != Some(cell));
        lemma_first_owner(parent, cell, from + 1, owner);
    }
}

/// Children that close over nothing, of parents that initialize no functions,
/// pass the check of closures.
pub proof fn lemma_closed_functions_pass(
    functions: Seq<VerifiedCompilerFunction>,
    metadata: Seq<FunctionRecord>,
)
    requires
        functions.len() == metadata.len(),
        functions.len() <= u32::MAX,
        forall|i: int|
            0 <= i < metadata.len() ==> (#[trigger] metadata[i]).closures.len() == 0
                && forall|k: int|
                0 <= k < metadata[i].variables.len() ==> (
                #[trigger] metadata[i].variables[k]).function_initializer.is_none(),
        forall|parent: int, at: int, child: int|
            #[trigger] holds_child(functions, parent, at, child) ==> child < functions.len(),
    ensures
        first_failure(parent_checks(functions, metadata)).is_ok(),
{
    let checks = parent_checks(functions, metadata);
    assert forall|i: int| 0 <= i < checks.len() implies (#[trigger] checks[i]).is_ok() by {
        let variables = variable_initializer_checks(
            functions,
            metadata,
            i,
        );
        let closures = closure_initializer_checks(
            functions,
            metadata,
            i,
        );
        let children = child_checks(functions, metadata, i);
        assert(metadata[i].closures.len() == 0);
        assert forall|k: int| 0 <= k < variables.len() implies (
        #[trigger] variables[k]).is_ok() by {
            assert(metadata[i].variables[k].function_initializer.is_none());
        }
        lemma_no_failure(variables);
        lemma_no_failure(closures);
        assert forall|k: int| 0 <= k < children.len() implies (#[trigger] children[k]).is_ok() by {
            if let CompilerConstant::Function(child) = functions[i].constants@[k] {
                assert(holds_child(functions, i, k, child.0 as int));
                assert(metadata[child.0 as int].closures.len() == 0);
                lemma_no_failure(
                    child_closure_checks(
                        functions,
                        metadata,
                        i,
                        child,
                    ),
                );
            }
        }
        lemma_no_failure(children);
    }
    lemma_no_failure(checks);
}

/// Whether climbing from `at` goes through arrows to the function `end`, which is
/// none.
pub open spec fn climbs_to(
    metadata: Seq<FunctionRecord>,
    parents: Seq<Option<FunctionTemplateId>>,
    path: Seq<int>,
) -> bool {
    &&& path.len() >= 2
    &&& path.len() <= parents.len() + 1
    &&& forall|i: int|
        0 <= i < path.len() ==> 0 <= #[trigger] path[i] < metadata.len() && path[i] < parents.len()
    &&& forall|i: int, j: int|
        0 <= i && j == i + 1 && j < path.len() ==> parents[#[trigger] path[i]] == Some(
            FunctionTemplateId(#[trigger] path[j] as u32),
        ) && path[j] <= u32::MAX
    &&& forall|i: int|
        0 < i < path.len() - 1 ==> metadata[#[trigger] path[i]].executable_kind
            == CompilerExecutableKind::OrdinaryArrow
    &&& metadata[path.last()].executable_kind != CompilerExecutableKind::OrdinaryArrow
}

proof fn lemma_boundary_on_path(
    metadata: Seq<FunctionRecord>,
    parents: Seq<Option<FunctionTemplateId>>,
    path: Seq<int>,
    at: int,
    steps: nat,
)
    requires
        climbs_to(metadata, parents, path),
        0 <= at < path.len() - 1,
        steps + at >= path.len() - 1,
    ensures
        arrow_boundary(metadata, parents, path[at], steps)
            == Some(
            (
                FunctionTemplateId(path.last() as u32),
                metadata[path.last()].executable_kind,
            ),
        ),
    decreases path.len() - at,
{
    assert(parents[path[at]] == Some(FunctionTemplateId(path[at + 1] as u32)));
    if at + 1 < path.len() - 1 {
        assert(metadata[path[at + 1]].executable_kind == CompilerExecutableKind::OrdinaryArrow);
        lemma_boundary_on_path(metadata, parents, path, at + 1, (steps - 1) as nat);
    } else {
        assert(path[at + 1] == path.last());
    }
}

/// What an arrow may use is decided by the first function above it that is no
/// arrow. It may name the active constructor, to call super, exactly below a
/// derived class constructor or a direct eval that may call super. It may name
/// the home object, or read and write super properties, exactly below a method,
/// an initializer, a constructor or a direct eval that may use super; where it
/// has a cell for the receiver of static fields, super properties need none of
/// these. It shares a derived `this` exactly below a derived class constructor.
pub proof fn lemma_arrows_use_what_is_around_them(
    functions: Seq<VerifiedCompilerFunction>,
    metadata: Seq<FunctionRecord>,
    parents: Seq<Option<FunctionTemplateId>>,
    path: Seq<int>,
)
    requires
        climbs_to(metadata, parents, path),
        functions.len() == metadata.len(),
        metadata[path[0]].executable_kind == CompilerExecutableKind::OrdinaryArrow,
        path[0] <= u32::MAX,
    ensures
        ({
            let arrow = path[0];
            let around = metadata[path.last()].executable_kind;
            let bits = functions[path.last()].control_flow.spec_function_header().flags.0;
            let evaluates = around == CompilerExecutableKind::DirectEvalScript;
            let derived = around == CompilerExecutableKind::ClassConstructor && bits & 4 != 0;
            let home = around == CompilerExecutableKind::OrdinaryMethod || around
                == CompilerExecutableKind::ClassInstanceInitializer || around
                == CompilerExecutableKind::GeneratorMethod || around
                == CompilerExecutableKind::AsyncMethod || around
                == CompilerExecutableKind::AsyncGeneratorMethod || around
                == CompilerExecutableKind::ClassConstructor || (evaluates && bits & 0x100 != 0);
            let receiver = receives_fields(metadata[arrow]);
            &&& arrow_check(functions, metadata, parents, arrow).is_ok() <==> {
                &&& (exists|i: int| #[trigger] names_object(functions[arrow], i, 4)) ==> derived || (
                evaluates && bits & 0x80 != 0)
                &&& (exists|i: int| #[trigger] names_object(functions[arrow], i, 5)) ==> home
                &&& !receiver && (exists|i: int| #[trigger] uses_super(functions[arrow], i))
                    ==> home
            }
            &&& derived_this_flags(functions, metadata, parents)[arrow] == derived
        }),
{
    let arrow = path[0];
    lemma_boundary_on_path(metadata, parents, path, 0, parents.len());
    let function = functions[arrow];
    let instructions = function.control_flow.instructions@;
    let receiver = has_receiver_cell(metadata[arrow]);
    lemma_first_super_call(function, 0);
    lemma_first_home_use(function, receiver, 0);
    assert(receiver == receives_fields(metadata[arrow]));
    let flags = functions[path.last()].control_flow.function_header.flags;
    let id = FunctionTemplateId(path.last() as u32);
    let below = path[path.len() - 2];
    assert(id.0 == path.last()) by {
        assert(parents[below] == Some(FunctionTemplateId(path[path.len() - 1] as u32)));
    }
    assert(flags.spec_is_derived_class_constructor() == (flags.0 & 4 != 0));
    assert(flags.spec_super_call_allowed() == (flags.0 & 0x80 != 0));
    assert(flags.spec_super_allowed() == (flags.0 & 0x100 != 0));
    assert(boundary_of(metadata, parents, arrow) == Some(
        (id, metadata[path.last()].executable_kind),
    ));
    assert(first_super_call(instructions, 0).is_some() == exists|i: int| #[trigger]
        names_object(function, i, 4));
    assert((exists|i: int| 0 <= i && #[trigger] names_object(function, i, 5)) == exists|i: int|
     #[trigger]
        names_object(function, i, 5));
    assert((exists|i: int| 0 <= i && #[trigger] uses_super(function, i)) == exists|i: int|
     #[trigger]
        uses_super(function, i));
}

/// Whether a function has a variable or closure variable for the receiver of
/// static fields.
pub open spec fn receives_fields(record: FunctionRecord) -> bool {
    ||| exists|i: int|
        0 <= i < record.variables.len() && (#[trigger] record.variables[i]).policy.kind
            == CompilerBindingKind::ClassStaticReceiver
    ||| exists|i: int|
        0 <= i < record.closures.len() && (#[trigger] record.closures[i]).spec_policy().kind
            == CompilerBindingKind::ClassStaticReceiver
}

/// Whether instruction `at` names the special object `selector`.
pub open spec fn names_object(
    function: VerifiedCompilerFunction,
    at: int,
    selector: u8,
) -> bool {
    let instructions = function.control_flow.spec_instructions();
    0 <= at < instructions.len() && instructions[at].spec_decoded().instruction.opcode
        == FinalOpcode::SpecialObject && instructions[at].spec_decoded().instruction.operands
        == Operands::U8(selector)
}

/// Whether instruction `at` uses a super property.
pub open spec fn uses_super(function: VerifiedCompilerFunction, at: int) -> bool {
    let instructions = function.control_flow.spec_instructions();
    0 <= at < instructions.len() && (instructions[at].spec_decoded().instruction.opcode
        == FinalOpcode::GetSuper || instructions[at].spec_decoded().instruction.opcode
        == FinalOpcode::GetSuperValue || instructions[at].spec_decoded().instruction.opcode
        == FinalOpcode::PutSuperValue)
}

proof fn lemma_first_super_call(function: VerifiedCompilerFunction, from: int)
    requires
        0 <= from <= function.control_flow.instructions@.len(),
    ensures
        first_super_call(
            function.control_flow.instructions@,
            from,
        ).is_some() <==> exists|i: int| from <= i && #[trigger] names_object(function, i, 4),
    decreases function.control_flow.instructions@.len() - from,
{
    let instructions = function.control_flow.instructions@;
    if from < instructions.len() {
        lemma_first_super_call(function, from + 1);
        assert(names_object(function, from, 4) == calls_super(
            instructions[from].decoded,
        ));
    }
}

proof fn lemma_first_home_use(function: VerifiedCompilerFunction, receiver: bool, from: int)
    requires
        0 <= from <= function.control_flow.instructions@.len(),
    ensures
        first_home_object_use(
            function.control_flow.instructions@,
            receiver,
            from,
        ).is_some() <==> {
            ||| exists|i: int| from <= i && #[trigger] names_object(function, i, 5)
            ||| !receiver && exists|i: int| from <= i && #[trigger] uses_super(function, i)
        },
    decreases function.control_flow.instructions@.len() - from,
{
    let instructions = function.control_flow.instructions@;
    if from < instructions.len() {
        lemma_first_home_use(function, receiver, from + 1);
        assert((names_object(function, from, 5) || (!receiver && uses_super(function, from)))
            == uses_home_object(
            instructions[from].decoded,
            receiver,
        ));
    }
}

/// A pair initializes a definition exactly if a closure of the definition's own
/// constant is directly followed by the unchecked put of that definition, control
/// goes from the one to the other, and nothing else leads there. Arguments come
/// first among the definitions, and locals behind them.
pub proof fn lemma_pairs_close_and_put(body: InitializerBody, at: int, definition: int)
    requires
        0 <= at,
        at + 1 < body.instructions.len(),
        0 <= definition < body.variables.len(),
    ensures
        ({
            let closes = body.instructions[at].spec_decoded().instruction;
            let puts = body.instructions[at + 1].spec_decoded().instruction;
            let local = definition - body.argument_count;
            pair_definition(body, at) == Some(definition) <==> {
                &&& match closes.operands {
                    Operands::Const(constant) => closes.opcode == FinalOpcode::FClosure
                        && body.variables[definition].function_initializer == Some(constant),
                    Operands::Const8(constant) => closes.opcode == FinalOpcode::FClosure8
                        && body.variables[definition].function_initializer == Some(
                        constant as u32,
                    ),
                    _ => false,
                }
                &&& match puts.operands {
                    Operands::Arg(index) => puts_argument(puts.opcode) && index == definition,
                    Operands::NoneArg => (puts.opcode == FinalOpcode::PutArg0 && definition == 0)
                        || (puts.opcode == FinalOpcode::PutArg1 && definition == 1) || (puts.opcode
                        == FinalOpcode::PutArg2 && definition == 2) || (puts.opcode
                        == FinalOpcode::PutArg3 && definition == 3),
                    Operands::Loc(index) => puts_local(puts.opcode) && index == local,
                    Operands::Loc8(index) => puts_local(puts.opcode) && index == local,
                    Operands::NoneLoc => (puts.opcode == FinalOpcode::PutLoc0 && local == 0) || (
                    puts.opcode == FinalOpcode::PutLoc1 && local == 1) || (puts.opcode
                        == FinalOpcode::PutLoc2 && local == 2) || (puts.opcode
                        == FinalOpcode::PutLoc3 && local == 3),
                    _ => false,
                }
                &&& flows_on(body, at)
                &&& body_incoming(body, at + 1) == 1
            }
        }),
{
}

/// Whether an opcode writes an argument.
pub open spec fn puts_argument(opcode: FinalOpcode) -> bool {
    opcode == FinalOpcode::PutArg || opcode == FinalOpcode::PutArg0 || opcode
        == FinalOpcode::PutArg1 || opcode == FinalOpcode::PutArg2 || opcode == FinalOpcode::PutArg3
}

/// Whether an opcode writes a local without a check.
pub open spec fn puts_local(opcode: FinalOpcode) -> bool {
    opcode == FinalOpcode::PutLoc || opcode == FinalOpcode::PutLoc8 || opcode
        == FinalOpcode::PutLoc0 || opcode == FinalOpcode::PutLoc1 || opcode == FinalOpcode::PutLoc2
        || opcode == FinalOpcode::PutLoc3
}

/// Whether the only pair that initializes a definition stands at `site`.
pub open(crate) spec fn only_pair(body: InitializerBody, definition: int, site: int) -> bool {
    &&& pair_definition(body, site) == Some(definition)
    &&& forall|other: int| #[trigger]
        pair_definition(body, other) == Some(definition) ==> other == site
}

/// A function declaration with exactly one pair is accepted at the end of the
/// entry prefix, which then ends behind the pair: nothing leads to the first pair
/// of all, and one way to each later one. Anywhere else it is refused, unless its
/// scope initializes it. A declaration without a function is nothing to the
/// prefix, and one without a pair is refused.
pub proof fn lemma_declarations_extend_the_prefix(
    body: InitializerBody,
    definition: int,
    site: int,
    prefix: int,
)
    requires
        0 <= definition < body.variables.len(),
        0 <= prefix,
    ensures
        ({
            let variable = body.variables[definition];
            let behind = prefix_behind(body, definition, prefix);
            let scoped = variable.policy.initialization
                == CompilerInitializationPolicy::FunctionAtScopeEntry;
            let entering: nat = if prefix == 0 {
                0
            } else {
                1
            };
            &&& variable.function_initializer.is_none() ==> behind.is_ok() && behind->Ok_0
                == prefix
            &&& variable.function_initializer.is_some() && (forall|other: int| #[trigger]
                pair_definition(body, other) != Some(definition)) ==> behind.is_err()
            &&& variable.function_initializer.is_some() && only_pair(body, definition, site)
                ==> if scoped {
                behind.is_ok() && behind->Ok_0 == prefix
            } else if site == prefix && body_incoming(body, site) == entering {
                behind.is_ok() && behind->Ok_0 == prefix + 2
            } else {
                behind.is_err()
            }
        }),
{
    let count = body.instructions.len() as int;
    if forall|other: int| #[trigger] pair_definition(body, other) != Some(definition) {
        lemma_pairs_none(body, definition, count);
    }
    if only_pair(body, definition, site) {
        lemma_pairs_one(body, definition, site, count);
        lemma_pairs_one(body, definition, site, site);
        lemma_claim_one(body, definition, site, 0);
    }
}

proof fn lemma_pairs_none(body: InitializerBody, definition: int, count: int)
    requires
        forall|other: int| #[trigger] pair_definition(body, other) != Some(definition),
    ensures
        pairs_before(body, definition, count) == 0,
    decreases count,
{
    if count > 0 {
        lemma_pairs_none(body, definition, count - 1);
        assert(pair_definition(body, count - 1) != Some(definition));
    }
}

proof fn lemma_pairs_one(body: InitializerBody, definition: int, site: int, count: int)
    requires
        only_pair(body, definition, site),
    ensures
        pairs_before(body, definition, count) == if count
            > site {
            1nat
        } else {
            0nat
        },
    decreases count,
{
    if count > 0 {
        lemma_pairs_one(body, definition, site, count - 1);
        assert(pair_definition(body, count - 1) == Some(definition) ==> count - 1 == site);
    }
}

proof fn lemma_claim_one(body: InitializerBody, definition: int, site: int, from: int)
    requires
        only_pair(body, definition, site),
        0 <= from <= site,
        pairs_before(body, definition, site) == 0,
    ensures
        claim_site(body, definition, from) == Some(site),
    decreases site - from,
{
    if from < site {
        assert(pair_definition(body, from) != Some(definition));
        lemma_claim_one(body, definition, site, from + 1);
    }
}

} // verus!
