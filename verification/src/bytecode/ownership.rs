//! Ownership of function templates: every one but the root has one parent.
use crate::bytecode::error::{
    BytecodeVerificationError, BytecodeVerificationErrorKind, function_error, graph_error,
};
use crate::bytecode::model::BytecodeGraphResource;
use crate::bytecode::stack_error::{reservation_failure, try_filled_vec};
use crate::checks::{
    first_failure, lemma_first_failure_at, lemma_no_failure, lemma_success_means_all,
};
use crate::function_graph::{
    CompilerConstant, FunctionTemplateId, VerifiedCompilerFunction, VerifiedCompilerFunctionGraph,
};
use vstd::prelude::*;

verus! {

/// A position that is too large for a function identity.
pub open spec fn identity_overflow(position: int) -> BytecodeVerificationError {
    graph_error(
        BytecodeVerificationErrorKind::LimitExceeded {
            resource: BytecodeGraphResource::VerifiedMetadata,
            limit: 0xffff_ffff,
            observed: position as u64,
        },
    )
}

/// Identity of the function at a position.
pub open spec fn spec_function_id(position: int) -> Result<
    FunctionTemplateId,
    BytecodeVerificationError,
> {
    if position > u32::MAX {
        Err(identity_overflow(position))
    } else {
        Ok(FunctionTemplateId(position as u32))
    }
}

/// Returns the identity of the function at a position.
pub(crate) fn function_id(position: usize) -> (id: Result<
    FunctionTemplateId,
    BytecodeVerificationError,
>)
    ensures
        id == spec_function_id(position as int),
{
    if position > 0xffff_ffff {
        Err(
            BytecodeVerificationError::graph(
                BytecodeVerificationErrorKind::LimitExceeded {
                    resource: BytecodeGraphResource::VerifiedMetadata,
                    limit: 0xffff_ffff,
                    observed: position as u64,
                },
            ),
        )
    } else {
        Ok(FunctionTemplateId(position as u32))
    }
}

/// A function template is not owned by exactly one parent.
pub open spec fn ownership_error(child: FunctionTemplateId, incoming: u64) ->
    BytecodeVerificationError {
    function_error(
        child,
        BytecodeVerificationErrorKind::FunctionTemplateOwnershipMismatch { child, incoming },
    )
}

fn function_template_ownership_error(child: FunctionTemplateId, incoming: u64) -> (error:
    BytecodeVerificationError)
    ensures
        error == ownership_error(child, incoming),
{
    BytecodeVerificationError::function(
        child,
        BytecodeVerificationErrorKind::FunctionTemplateOwnershipMismatch { child, incoming },
    )
}

/// Whether a constant is the function template `child`.
pub open spec fn references(constant: CompilerConstant, child: int) -> bool {
    match constant {
        CompilerConstant::Function(id) => id.0 == child,
        CompilerConstant::Value => false,
    }
}

/// References to a template among the first `count` constants of a pool.
pub open spec fn pool_references(
    constants: Seq<CompilerConstant>,
    child: int,
    count: int,
) -> nat
    decreases count,
{
    if count <= 0 {
        0
    } else {
        pool_references(constants, child, count - 1) + if references(
            constants[count - 1],
            child,
        ) {
            1nat
        } else {
            0nat
        }
    }
}

/// References to a template from the pools of the first `count` functions.
pub open spec fn template_references(
    functions: Seq<VerifiedCompilerFunction>,
    child: int,
    count: int,
) -> nat
    decreases count,
{
    if count <= 0 {
        0
    } else {
        let constants = functions[count - 1].constants@;
        template_references(functions, child, count - 1) + pool_references(
            constants,
            child,
            constants.len() as int,
        )
    }
}

/// The last of the first `count` functions that references a template.
pub open spec fn template_parent(
    functions: Seq<VerifiedCompilerFunction>,
    child: int,
    count: int,
) -> Option<FunctionTemplateId>
    decreases count,
{
    if count <= 0 {
        None
    } else {
        let constants = functions[count - 1].constants@;
        if pool_references(constants, child, constants.len() as int) > 0 {
            Some(FunctionTemplateId((count - 1) as u32))
        } else {
            template_parent(functions, child, count - 1)
        }
    }
}

/// The checks that the templates in a pool are functions of the graph.
pub open spec fn reference_checks(constants: Seq<CompilerConstant>, functions: int) -> Seq<
    Result<(), BytecodeVerificationError>,
> {
    Seq::new(
        constants.len(),
        |i: int|
            match constants[i] {
                CompilerConstant::Function(child) => if child.0 >= functions {
                    Err(ownership_error(child, 0))
                } else {
                    Ok(())
                },
                CompilerConstant::Value => Ok(()),
            },
    )
}

/// The checks of the pools of all functions.
pub open spec fn pool_checks(functions: Seq<VerifiedCompilerFunction>) -> Seq<
    Result<(), BytecodeVerificationError>,
> {
    Seq::new(
        functions.len(),
        |i: int|
            if i > u32::MAX {
                Err(identity_overflow(i))
            } else {
                first_failure(reference_checks(functions[i].constants@, functions.len() as int))
            },
    )
}

/// A count of references as 64 bits, saturating.
pub open spec fn saturated_references(count: nat) -> u64 {
    if count > u64::MAX {
        u64::MAX
    } else {
        count as u64
    }
}

/// The checks that the root is referenced nowhere, and every other function
/// once.
pub open spec fn owner_checks(
    functions: Seq<VerifiedCompilerFunction>,
    root: FunctionTemplateId,
) -> Seq<Result<(), BytecodeVerificationError>> {
    Seq::new(
        functions.len(),
        |i: int|
            {
                let incoming = template_references(functions, i, functions.len() as int);
                let expected = if i == root.0 {
                    0nat
                } else {
                    1nat
                };
                if i > u32::MAX {
                    Err(identity_overflow(i))
                } else if incoming != expected {
                    Err(
                        ownership_error(
                            FunctionTemplateId(i as u32),
                            saturated_references(incoming),
                        ),
                    )
                } else {
                    Ok(())
                }
            },
    )
}

/// The check that the functions of a graph are owned as a tree is.
pub open spec fn ownership_check(
    functions: Seq<VerifiedCompilerFunction>,
    root: FunctionTemplateId,
) -> Result<(), BytecodeVerificationError> {
    if first_failure(pool_checks(functions)).is_err() {
        first_failure(pool_checks(functions))
    } else {
        first_failure(owner_checks(functions, root))
    }
}

/// Parents of all functions.
pub open spec fn template_parents(functions: Seq<VerifiedCompilerFunction>) -> Seq<
    Option<FunctionTemplateId>,
> {
    Seq::new(
        functions.len(),
        |i: int| template_parent(functions, i, functions.len() as int),
    )
}

proof fn lemma_pool_references_grow(
    constants: Seq<CompilerConstant>,
    child: int,
    at: int,
    count: int,
)
    requires
        0 <= at <= count,
    ensures
        pool_references(constants, child, at) <= pool_references(constants, child, count),
    decreases count - at,
{
    if at < count {
        lemma_pool_references_grow(constants, child, at, count - 1);
    }
}

proof fn lemma_template_references_grow(
    functions: Seq<VerifiedCompilerFunction>,
    child: int,
    at: int,
    count: int,
)
    requires
        0 <= at <= count,
    ensures
        template_references(functions, child, at) <= template_references(functions, child, count),
    decreases count - at,
{
    if at < count {
        lemma_template_references_grow(functions, child, at, count - 1);
    }
}

/// In an owned graph no two constants, of one function or of two, hold the same
/// function template.
pub proof fn lemma_templates_have_one_owner(
    functions: Seq<VerifiedCompilerFunction>,
    root: FunctionTemplateId,
    child: int,
    parent: int,
    constant: int,
    other_parent: int,
    other_constant: int,
)
    requires
        ownership_check(functions, root).is_ok(),
        0 <= parent < functions.len(),
        0 <= constant < functions[parent].constants@.len(),
        references(functions[parent].constants@[constant], child),
        0 <= other_parent < functions.len(),
        0 <= other_constant < functions[other_parent].constants@.len(),
        references(functions[other_parent].constants@[other_constant], child),
    ensures
        parent == other_parent,
        constant == other_constant,
{
    if parent == other_parent {
        if constant < other_constant {
            lemma_two_references(functions, root, child, parent, constant, parent, other_constant);
        } else if other_constant < constant {
            lemma_two_references(functions, root, child, parent, other_constant, parent, constant);
        }
    } else if parent < other_parent {
        lemma_two_references(
            functions,
            root,
            child,
            parent,
            constant,
            other_parent,
            other_constant,
        );
    } else {
        lemma_two_references(
            functions,
            root,
            child,
            other_parent,
            other_constant,
            parent,
            constant,
        );
    }
}

proof fn lemma_two_references(
    functions: Seq<VerifiedCompilerFunction>,
    root: FunctionTemplateId,
    child: int,
    parent: int,
    constant: int,
    other_parent: int,
    other_constant: int,
)
    requires
        ownership_check(functions, root).is_ok(),
        0 <= parent <= other_parent < functions.len(),
        0 <= constant < functions[parent].constants@.len(),
        references(functions[parent].constants@[constant], child),
        0 <= other_constant < functions[other_parent].constants@.len(),
        parent == other_parent ==> constant < other_constant,
    ensures
        !references(functions[other_parent].constants@[other_constant], child),
{
    if references(functions[other_parent].constants@[other_constant], child) {
        lemma_success_means_all(pool_checks(functions));
        lemma_success_means_all(owner_checks(functions, root));
        let pool = functions[parent].constants@;
        let other = functions[other_parent].constants@;
        assert(pool_checks(functions)[parent].is_ok());
        lemma_success_means_all(reference_checks(pool, functions.len() as int));
        assert(reference_checks(pool, functions.len() as int)[constant].is_ok());
        assert(owner_checks(functions, root)[child].is_ok());
        assert(pool_references(pool, child, constant + 1) >= 1);
        lemma_pool_references_grow(pool, child, constant + 1, pool.len() as int);
        assert(pool_references(other, child, other_constant + 1) == pool_references(
            other,
            child,
            other_constant,
        ) + 1);
        lemma_pool_references_grow(other, child, other_constant + 1, other.len() as int);
        if parent == other_parent {
            lemma_pool_references_grow(pool, child, constant + 1, other_constant);
        } else {
            assert(template_references(functions, child, parent + 1) >= 1);
            lemma_template_references_grow(functions, child, parent + 1, other_parent);
        }
        assert(template_references(functions, child, other_parent + 1) >= 2);
        lemma_template_references_grow(
            functions,
            child,
            other_parent + 1,
            functions.len() as int,
        );
    }
}

/// In an owned graph the root alone has no parent.
pub proof fn lemma_root_alone_has_no_parent(
    functions: Seq<VerifiedCompilerFunction>,
    root: FunctionTemplateId,
    child: int,
)
    requires
        ownership_check(functions, root).is_ok(),
        0 <= child < functions.len(),
    ensures
        template_parents(functions)[child].is_none() == (child == root.0),
{
    lemma_success_means_all(owner_checks(functions, root));
    assert(owner_checks(functions, root)[child].is_ok());
    lemma_parent_of_referenced(functions, child, functions.len() as int);
}

proof fn lemma_parent_of_referenced(
    functions: Seq<VerifiedCompilerFunction>,
    child: int,
    count: int,
)
    requires
        0 <= count,
    ensures
        template_parent(functions, child, count).is_some() == (template_references(
            functions,
            child,
            count,
        ) > 0),
    decreases count,
{
    if count > 0 {
        lemma_parent_of_referenced(functions, child, count - 1);
    }
}

/// Counts so far and parents so far are those of the first functions and of
/// part of the next pool.
spec fn ownership_so_far(
    functions: Seq<VerifiedCompilerFunction>,
    parent: int,
    constant: int,
    incoming: Seq<u64>,
    parents: Seq<Option<FunctionTemplateId>>,
) -> bool {
    &&& incoming.len() == functions.len()
    &&& parents.len() == functions.len()
    &&& forall|c: int|
        0 <= c < functions.len() ==> #[trigger] incoming[c] == saturated_references(
            template_references(functions, c, parent) + pool_references(
                functions[parent].constants@,
                c,
                constant,
            ),
        )
    &&& forall|c: int|
        0 <= c < functions.len() ==> #[trigger] parents[c] == if pool_references(
            functions[parent].constants@,
            c,
            constant,
        ) > 0 {
            Some(FunctionTemplateId(parent as u32))
        } else {
            template_parent(functions, c, parent)
        }
}

spec fn ownership_before(
    functions: Seq<VerifiedCompilerFunction>,
    parent: int,
    incoming: Seq<u64>,
    parents: Seq<Option<FunctionTemplateId>>,
) -> bool {
    &&& incoming.len() == functions.len()
    &&& parents.len() == functions.len()
    &&& forall|c: int|
        0 <= c < functions.len() ==> #[trigger] incoming[c] == saturated_references(
            template_references(functions, c, parent),
        )
    &&& forall|c: int|
        0 <= c < functions.len() ==> #[trigger] parents[c] == template_parent(
            functions,
            c,
            parent,
        )
}

fn count_references(
    functions: &[VerifiedCompilerFunction],
    at: usize,
    id: FunctionTemplateId,
    incoming: &mut Vec<u64>,
    parents: &mut Vec<Option<FunctionTemplateId>>,
) -> (checked: Result<(), BytecodeVerificationError>)
    requires
        at < functions@.len(),
        id.0 == at,
        ownership_before(functions@, at as int, old(incoming)@, old(parents)@),
    ensures
        checked == first_failure(
            reference_checks(functions@[at as int].constants@, functions@.len() as int),
        ),
        checked.is_ok() ==> ownership_before(
            functions@,
            at + 1,
            final(incoming)@,
            final(parents)@,
        ),
{
    let constants = functions[at].constants();
    let ghost checks = reference_checks(constants@, functions@.len() as int);
    let mut position: usize = 0;
    while position < constants.len()
        invariant
            at < functions@.len(),
            id.0 == at,
            constants@ == functions@[at as int].constants@,
            position <= constants@.len(),
            checks == reference_checks(constants@, functions@.len() as int),
            forall|i: int| 0 <= i < position ==> (#[trigger] checks[i]).is_ok(),
            ownership_so_far(functions@, at as int, position as int, incoming@, parents@),
        decreases constants@.len() - position,
    {
        if let CompilerConstant::Function(child) = constants[position] {
            let index: usize = child.0 as usize;
            if index >= incoming.len() {
                proof {
                    lemma_first_failure_at(checks, position as int);
                }
                return Err(function_template_ownership_error(child, 0));
            }
            let count: u64 = incoming[index];
            incoming.set(index, count.saturating_add(1));
            parents.set(index, Some(id));
        }
        assert(checks[position as int].is_ok());
        position = position + 1;
    }
    proof {
        lemma_no_failure(checks);
    }
    Ok(())
}

/// Checks that the root is referenced by no constant pool and every other
/// function by exactly one constant, and returns the parent of each function.
pub fn verify_function_tree_ownership(graph: &VerifiedCompilerFunctionGraph) -> (parents: Result<
    Vec<Option<FunctionTemplateId>>,
    BytecodeVerificationError,
>)
    ensures
        match parents {
            Ok(parents) => ownership_check(graph.functions@, graph.root_id).is_ok() && parents@
                == template_parents(graph.functions@),
            Err(error) => ownership_check(graph.functions@, graph.root_id) == Err::<
                (),
                BytecodeVerificationError,
            >(error) || error == reservation_failure(
                graph.root_id,
                BytecodeGraphResource::VerifiedMetadata,
                graph.functions@.len() as u64,
            ),
        },
{
    let functions = graph.functions();
    let root = graph.root_id();
    let mut incoming = try_filled_vec(
        root,
        functions.len(),
        0u64,
        BytecodeGraphResource::VerifiedMetadata,
    )?;
    let mut parents = try_filled_vec(
        root,
        functions.len(),
        None::<FunctionTemplateId>,
        BytecodeGraphResource::VerifiedMetadata,
    )?;
    let ghost checks = pool_checks(functions@);
    let mut at: usize = 0;
    while at < functions.len()
        invariant
            at <= functions@.len(),
            functions@ == graph.functions@,
            root == graph.root_id,
            checks == pool_checks(functions@),
            forall|i: int| 0 <= i < at ==> (#[trigger] checks[i]).is_ok(),
            ownership_before(functions@, at as int, incoming@, parents@),
        decreases functions@.len() - at,
    {
        proof {
            if checks[at as int].is_err() {
                lemma_first_failure_at(checks, at as int);
            }
        }
        let id = function_id(at)?;
        count_references(functions, at, id, &mut incoming, &mut parents)?;
        at = at + 1;
    }
    proof {
        lemma_no_failure(checks);
    }
    let ghost owners = owner_checks(functions@, root);
    let mut child: usize = 0;
    while child < functions.len()
        invariant
            child <= functions@.len(),
            functions@ == graph.functions@,
            root == graph.root_id,
            first_failure(pool_checks(functions@)).is_ok(),
            owners == owner_checks(functions@, root),
            forall|i: int| 0 <= i < child ==> (#[trigger] owners[i]).is_ok(),
            ownership_before(functions@, functions@.len() as int, incoming@, parents@),
        decreases functions@.len() - child,
    {
        proof {
            if owners[child as int].is_err() {
                lemma_first_failure_at(owners, child as int);
            }
            assert(incoming@[child as int] == saturated_references(
                template_references(functions@, child as int, functions@.len() as int),
            ));
        }
        let id = function_id(child)?;
        let expected: u64 = if id.0 == root.0 {
            0
        } else {
            1
        };
        if incoming[child] != expected {
            return Err(function_template_ownership_error(id, incoming[child]));
        }
        child = child + 1;
    }
    proof {
        lemma_no_failure(owners);
        assert(parents@ =~= template_parents(functions@));
    }
    Ok(parents)
}

} // verus!
