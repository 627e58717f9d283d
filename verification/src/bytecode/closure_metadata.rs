//! Closure variables of children against what their parents hand on.
use crate::bytecode::atoms::{
    atom_contents, atom_units, default_name, default_units, starred_default_name,
    starred_default_units,
};
use crate::bytecode::error::{
    BytecodeVerificationError, BytecodeVerificationErrorKind, function_error,
};
use crate::bytecode::model::{
    ClosureVariableDefinition, CompilerClosureBinding, VariableDefinition,
    FunctionRecord, VerifiedFunctionMetadata, records_of,
};
use crate::bytecode::operand_use::{saturated_u32, usize_to_u32};
use crate::bytecode::ownership::{function_id, spec_function_id};
use crate::bytecode::provenance::same_units;
use crate::checks::{
    first_failure, lemma_first_failure_at, lemma_no_failure, lemma_success_means_all,
};
use crate::function_graph::{
    CompilerAtom, CompilerClosureSource, CompilerConstant, CompilerString, FunctionTemplateId,
    VerifiedCompilerFunction, VerifiedCompilerFunctionGraph,
};
use crate::instruction::AtomPoolIndex;
use vstd::prelude::*;

verus! {

/// Whether a binding may hold a function of that name: the names are the same,
/// but for the binding of a default export.
pub open spec fn names_agree(binding: Option<Seq<u16>>, function: Option<Seq<u16>>) -> bool {
    binding == function || (binding == Some(starred_default_units()) && function == Some(
        default_units(),
    ))
}

/// Whether a constant of a parent is a function of the graph whose name agrees
/// with that of the binding that it initializes.
pub open(crate) spec fn initializer_is_named(
    functions: Seq<VerifiedCompilerFunction>,
    metadata: Seq<FunctionRecord>,
    parent: int,
    name: Option<AtomPoolIndex>,
    constant: u32,
) -> bool {
    let constants = functions[parent].constants@;
    constant < constants.len() && match constants[constant as int] {
        CompilerConstant::Function(child) => child.0 < functions.len() && names_agree(
            atom_units(name, functions[parent].atoms@),
            atom_units(
                metadata[child.0 as int].function_name,
                functions[child.0 as int].atoms@,
            ),
        ),
        CompilerConstant::Value => false,
    }
}

/// The checks of the function initializers of a parent's variables.
pub open(crate) spec fn variable_initializer_checks(
    functions: Seq<VerifiedCompilerFunction>,
    metadata: Seq<FunctionRecord>,
    parent: int,
) -> Seq<Result<(), BytecodeVerificationError>> {
    let variables = metadata[parent].variables;
    Seq::new(
        variables.len(),
        |i: int|
            match variables[i].function_initializer {
                Some(constant) => if initializer_is_named(
                    functions,
                    metadata,
                    parent,
                    variables[i].name,
                    constant,
                ) {
                    Ok(())
                } else {
                    Err(
                        function_error(
                            FunctionTemplateId(parent as u32),
                            BytecodeVerificationErrorKind::FunctionInitializerMetadataMismatch {
                                definition: saturated_u32(i),
                                constant: Some(constant),
                            },
                        ),
                    )
                },
                None => Ok(()),
            },
    )
}

/// The checks of the function initializers of a parent's closure variables.
pub open(crate) spec fn closure_initializer_checks(
    functions: Seq<VerifiedCompilerFunction>,
    metadata: Seq<FunctionRecord>,
    parent: int,
) -> Seq<Result<(), BytecodeVerificationError>> {
    let closures = metadata[parent].closures;
    Seq::new(
        closures.len(),
        |i: int|
            match closures[i].function_initializer {
                Some(constant) => if initializer_is_named(
                    functions,
                    metadata,
                    parent,
                    closures[i].name,
                    constant,
                ) {
                    Ok(())
                } else {
                    Err(
                        function_error(
                            FunctionTemplateId(parent as u32),
                            BytecodeVerificationErrorKind::RealmGlobalFunctionInitializerMetadataMismatch {
                                closure: saturated_u32(i),
                                constant: Some(constant),
                            },
                        ),
                    )
                },
                None => Ok(()),
            },
    )
}

/// What a parent hands on to a closure variable of a child.
#[derive(Clone, Copy)]
pub struct ParentClosureDefinition {
    /// Name in the parent's atom pool.
    pub name: Option<AtomPoolIndex>,
    /// Storage and policy.
    pub binding: CompilerClosureBinding,
    /// Whether the cell holds the `arguments` object.
    pub arguments_object: bool,
    /// Whether the cell is a deletable eval variable.
    pub deletable_eval_variable: bool,
}

/// The first variable from `from` on that has a variable-reference cell.
pub open spec fn referenced_variable(
    variables: Seq<VariableDefinition>,
    reference: u32,
    from: int,
) -> Option<ParentClosureDefinition>
    decreases variables.len() - from,
{
    if from >= variables.len() {
        None
    } else if variables[from].variable_reference == Some(reference) {
        Some(
            ParentClosureDefinition {
                name: variables[from].name,
                binding: CompilerClosureBinding::Captured(variables[from].policy),
                arguments_object: variables[from].arguments_object,
                deletable_eval_variable: false,
            },
        )
    } else {
        referenced_variable(variables, reference, from + 1)
    }
}

/// What a parent hands on to a source.
pub open(crate) spec fn handed_on(
    parent: FunctionRecord,
    source: CompilerClosureSource,
) -> Option<ParentClosureDefinition> {
    match source {
        CompilerClosureSource::ParentVariableReference(reference) => referenced_variable(
            parent.variables,
            reference,
            0,
        ),
        CompilerClosureSource::ParentClosure(index) => if index < parent.closures.len() {
            let closure = parent.closures[index as int];
            Some(
                ParentClosureDefinition {
                    name: closure.name,
                    binding: closure.binding,
                    arguments_object: closure.arguments_object,
                    deletable_eval_variable: closure.deletable_eval_variable,
                },
            )
        } else {
            None
        },
        _ => None,
    }
}

/// Whether a closure variable is what a parent hands on to it.
pub open(crate) spec fn is_handed_on(
    parent: FunctionRecord,
    parent_atoms: Seq<CompilerAtom>,
    source: CompilerClosureSource,
    closure: ClosureVariableDefinition,
    atoms: Seq<CompilerAtom>,
) -> bool {
    match handed_on(parent, source) {
        Some(expected) => expected.binding == closure.binding && expected.arguments_object
            == closure.arguments_object && expected.deletable_eval_variable
            == closure.deletable_eval_variable && atom_units(expected.name, parent_atoms)
            == atom_units(closure.name, atoms),
        None => false,
    }
}

/// A closure variable is not what its parent hands on.
pub open spec fn closure_mismatch(child: FunctionTemplateId, closure: int) ->
    BytecodeVerificationError {
    function_error(
        child,
        BytecodeVerificationErrorKind::ClosureMetadataMismatch {
            child,
            closure: saturated_u32(closure),
        },
    )
}

/// The checks of a child's closure variables against a parent.
pub open(crate) spec fn child_closure_checks(
    functions: Seq<VerifiedCompilerFunction>,
    metadata: Seq<FunctionRecord>,
    parent: int,
    child: FunctionTemplateId,
) -> Seq<Result<(), BytecodeVerificationError>> {
    let closures = metadata[child.0 as int].closures;
    let sources = functions[child.0 as int].closure_sources@;
    Seq::new(
        if closures.len() < sources.len() {
            closures.len()
        } else {
            sources.len()
        },
        |i: int|
            if is_handed_on(
                metadata[parent],
                functions[parent].atoms@,
                sources[i],
                closures[i],
                functions[child.0 as int].atoms@,
            ) {
                Ok(())
            } else {
                Err(closure_mismatch(child, i))
            },
    )
}

/// The checks of the children of a parent.
pub open(crate) spec fn child_checks(
    functions: Seq<VerifiedCompilerFunction>,
    metadata: Seq<FunctionRecord>,
    parent: int,
) -> Seq<Result<(), BytecodeVerificationError>> {
    let constants = functions[parent].constants@;
    Seq::new(
        constants.len(),
        |i: int|
            match constants[i] {
                CompilerConstant::Function(child) => if child.0 >= functions.len() {
                    Err(closure_mismatch(child, 0))
                } else {
                    first_failure(child_closure_checks(functions, metadata, parent, child))
                },
                CompilerConstant::Value => Ok(()),
            },
    )
}

/// The checks of one parent.
pub open(crate) spec fn parent_check(
    functions: Seq<VerifiedCompilerFunction>,
    metadata: Seq<FunctionRecord>,
    parent: int,
) -> Result<(), BytecodeVerificationError> {
    let variables = first_failure(variable_initializer_checks(functions, metadata, parent));
    let closures = first_failure(closure_initializer_checks(functions, metadata, parent));
    if spec_function_id(parent).is_err() {
        Err(spec_function_id(parent)->Err_0)
    } else if variables.is_err() {
        variables
    } else if closures.is_err() {
        closures
    } else {
        first_failure(child_checks(functions, metadata, parent))
    }
}

/// The checks of all parents.
pub open(crate) spec fn parent_checks(
    functions: Seq<VerifiedCompilerFunction>,
    metadata: Seq<FunctionRecord>,
) -> Seq<Result<(), BytecodeVerificationError>> {
    Seq::new(functions.len(), |i: int| parent_check(functions, metadata, i))
}

/// In accepted metadata every closure variable of a child has the binding and
/// the name of what its parent hands on to it.
pub proof fn lemma_children_close_over_their_parents(
    functions: Seq<VerifiedCompilerFunction>,
    metadata: Seq<FunctionRecord>,
    parent: int,
    constant: int,
    child: FunctionTemplateId,
    closure: int,
)
    requires
        first_failure(parent_checks(functions, metadata)).is_ok(),
        0 <= parent < functions.len(),
        0 <= constant < functions[parent].constants@.len(),
        functions[parent].constants@[constant] == CompilerConstant::Function(child),
        0 <= closure < metadata[child.0 as int].closures.len(),
        closure < functions[child.0 as int].closure_sources@.len(),
    ensures
        child.0 < functions.len(),
        is_handed_on(
            metadata[parent],
            functions[parent].atoms@,
            functions[child.0 as int].closure_sources@[closure],
            metadata[child.0 as int].closures[closure],
            functions[child.0 as int].atoms@,
        ),
{
    lemma_success_means_all(parent_checks(functions, metadata));
    assert(parent_checks(functions, metadata)[parent].is_ok());
    lemma_success_means_all(child_checks(functions, metadata, parent));
    assert(child_checks(functions, metadata, parent)[constant].is_ok());
    lemma_success_means_all(child_closure_checks(functions, metadata, parent, child));
    assert(child_closure_checks(functions, metadata, parent, child)[closure].is_ok());
}

fn same_text(left: Option<&CompilerString>, right: Option<&CompilerString>) -> (same: bool)
    ensures
        same == match (left, right) {
            (Some(left), Some(right)) => left.units@ == right.units@,
            (None, None) => true,
            _ => false,
        },
{
    match (left, right) {
        (Some(left), Some(right)) => same_units(left.code_units(), right.code_units()),
        (None, None) => true,
        _ => false,
    }
}

fn verify_initializer_name(
    graph: &VerifiedCompilerFunctionGraph,
    metadata: &[VerifiedFunctionMetadata],
    parent: &VerifiedCompilerFunction,
    name: Option<AtomPoolIndex>,
    constant: u32,
    Ghost(at): Ghost<int>,
) -> (named: bool)
    requires
        metadata@.len() == graph.functions@.len(),
        0 <= at < graph.functions@.len(),
        *parent == graph.functions@[at],
    ensures
        named == initializer_is_named(graph.functions@, records_of(metadata@), at, name, constant),
{
    let constants = parent.constants();
    let position: usize = constant as usize;
    if position >= constants.len() {
        return false;
    }
    let child_id = match constants[position] {
        CompilerConstant::Function(child) => child,
        CompilerConstant::Value => {
            return false;
        },
    };
    let child_index: usize = child_id.0 as usize;
    let functions = graph.functions();
    if child_index >= functions.len() {
        return false;
    }
    let binding_name = atom_contents(name, parent.atoms());
    let function_name = atom_contents(
        metadata[child_index].function_name,
        functions[child_index].atoms(),
    );
    if same_text(binding_name, function_name) {
        return true;
    }
    match (binding_name, function_name) {
        (Some(binding_name), Some(function_name)) => same_units(
            binding_name.code_units(),
            &starred_default_name(),
        ) && same_units(function_name.code_units(), &default_name()),
        _ => false,
    }
}

fn verify_variable_initializers(
    graph: &VerifiedCompilerFunctionGraph,
    metadata: &[VerifiedFunctionMetadata],
    at: usize,
    id: FunctionTemplateId,
) -> (checked: Result<(), BytecodeVerificationError>)
    requires
        metadata@.len() == graph.functions@.len(),
        at < graph.functions@.len(),
        id.0 == at,
    ensures
        checked == first_failure(
            variable_initializer_checks(graph.functions@, records_of(metadata@), at as int),
        ),
{
    let parent = &graph.functions()[at];
    let variables = metadata[at].variables();
    let ghost checks = variable_initializer_checks(graph.functions@, records_of(metadata@), at as int);
    let mut definition: usize = 0;
    while definition < variables.len()
        invariant
            metadata@.len() == graph.functions@.len(),
            at < graph.functions@.len(),
            id.0 == at,
            *parent == graph.functions@[at as int],
            variables@ == records_of(metadata@)[at as int].variables,
            definition <= variables@.len(),
            checks == variable_initializer_checks(graph.functions@, records_of(metadata@), at as int),
            forall|i: int| 0 <= i < definition ==> (#[trigger] checks[i]).is_ok(),
        decreases variables@.len() - definition,
    {
        let variable = variables[definition];
        if let Some(constant) = variable.function_initializer {
            if !verify_initializer_name(
                graph,
                metadata,
                parent,
                variable.name,
                constant,
                Ghost(at as int),
            ) {
                proof {
                    lemma_first_failure_at(checks, definition as int);
                }
                return Err(
                    BytecodeVerificationError::function(
                        id,
                        BytecodeVerificationErrorKind::FunctionInitializerMetadataMismatch {
                            definition: usize_to_u32(definition),
                            constant: Some(constant),
                        },
                    ),
                );
            }
        }
        assert(checks[definition as int].is_ok());
        definition = definition + 1;
    }
    proof {
        lemma_no_failure(checks);
    }
    Ok(())
}

fn verify_closure_initializers(
    graph: &VerifiedCompilerFunctionGraph,
    metadata: &[VerifiedFunctionMetadata],
    at: usize,
    id: FunctionTemplateId,
) -> (checked: Result<(), BytecodeVerificationError>)
    requires
        metadata@.len() == graph.functions@.len(),
        at < graph.functions@.len(),
        id.0 == at,
    ensures
        checked == first_failure(
            closure_initializer_checks(graph.functions@, records_of(metadata@), at as int),
        ),
{
    let parent = &graph.functions()[at];
    let closures = metadata[at].closures();
    let ghost checks = closure_initializer_checks(graph.functions@, records_of(metadata@), at as int);
    let mut closure: usize = 0;
    while closure < closures.len()
        invariant
            metadata@.len() == graph.functions@.len(),
            at < graph.functions@.len(),
            id.0 == at,
            *parent == graph.functions@[at as int],
            closures@ == records_of(metadata@)[at as int].closures,
            closure <= closures@.len(),
            checks == closure_initializer_checks(graph.functions@, records_of(metadata@), at as int),
            forall|i: int| 0 <= i < closure ==> (#[trigger] checks[i]).is_ok(),
        decreases closures@.len() - closure,
    {
        let definition = closures[closure];
        if let Some(constant) = definition.function_initializer {
            if !verify_initializer_name(
                graph,
                metadata,
                parent,
                definition.name,
                constant,
                Ghost(at as int),
            ) {
                proof {
                    lemma_first_failure_at(checks, closure as int);
                }
                return Err(
                    BytecodeVerificationError::function(
                        id,
                        BytecodeVerificationErrorKind::RealmGlobalFunctionInitializerMetadataMismatch {
                            closure: usize_to_u32(closure),
                            constant: Some(constant),
                        },
                    ),
                );
            }
        }
        assert(checks[closure as int].is_ok());
        closure = closure + 1;
    }
    proof {
        lemma_no_failure(checks);
    }
    Ok(())
}

fn parent_definition_for_reference(
    variables: &[VariableDefinition],
    reference: u32,
) -> (definition: Option<ParentClosureDefinition>)
    ensures
        definition == referenced_variable(variables@, reference, 0),
{
    let mut at: usize = 0;
    while at < variables.len()
        invariant
            at <= variables@.len(),
            referenced_variable(variables@, reference, 0) == referenced_variable(
                variables@,
                reference,
                at as int,
            ),
        decreases variables@.len() - at,
    {
        let variable = variables[at];
        let found: bool = match variable.variable_reference {
            Some(cell) => cell == reference,
            None => false,
        };
        if found {
            return Some(
                ParentClosureDefinition {
                    name: variable.name,
                    binding: CompilerClosureBinding::Captured(variable.policy),
                    arguments_object: variable.arguments_object,
                    deletable_eval_variable: false,
                },
            );
        }
        at = at + 1;
    }
    None
}

fn parent_definition(
    parent: &VerifiedFunctionMetadata,
    source: CompilerClosureSource,
) -> (definition: Option<ParentClosureDefinition>)
    ensures
        definition == handed_on(parent.record(), source),
{
    match source {
        CompilerClosureSource::ParentVariableReference(
            reference,
        ) => parent_definition_for_reference(parent.variables(), reference),
        CompilerClosureSource::ParentClosure(index) => {
            let closures = parent.closures();
            let position: usize = index as usize;
            if position >= closures.len() {
                return None;
            }
            let closure = closures[position];
            Some(
                ParentClosureDefinition {
                    name: closure.name,
                    binding: closure.binding,
                    arguments_object: closure.arguments_object,
                    deletable_eval_variable: closure.deletable_eval_variable,
                },
            )
        },
        _ => None,
    }
}

fn verify_child_closures(
    graph: &VerifiedCompilerFunctionGraph,
    metadata: &[VerifiedFunctionMetadata],
    at: usize,
    child: FunctionTemplateId,
) -> (checked: Result<(), BytecodeVerificationError>)
    requires
        metadata@.len() == graph.functions@.len(),
        at < graph.functions@.len(),
        child.0 < graph.functions@.len(),
    ensures
        checked == first_failure(
            child_closure_checks(graph.functions@, records_of(metadata@), at as int, child),
        ),
{
    let functions = graph.functions();
    let child_index: usize = child.0 as usize;
    let closures = metadata[child_index].closures();
    let sources = functions[child_index].closure_sources();
    let ghost checks = child_closure_checks(graph.functions@, records_of(metadata@), at as int, child);
    let mut closure: usize = 0;
    while closure < closures.len() && closure < sources.len()
        invariant
            metadata@.len() == graph.functions@.len(),
            functions@ == graph.functions@,
            at < graph.functions@.len(),
            child_index == child.0,
            child_index < graph.functions@.len(),
            closures@ == records_of(metadata@)[child.0 as int].closures,
            sources@ == graph.functions@[child.0 as int].closure_sources@,
            closure <= closures@.len(),
            closure <= sources@.len(),
            checks == child_closure_checks(graph.functions@, records_of(metadata@), at as int, child),
            forall|i: int| 0 <= i < closure ==> (#[trigger] checks[i]).is_ok(),
        decreases closures@.len() - closure,
    {
        let definition = closures[closure];
        let matching: bool = match parent_definition(&metadata[at], sources[closure]) {
            Some(expected) => expected.binding == definition.binding && expected.arguments_object
                == definition.arguments_object && expected.deletable_eval_variable
                == definition.deletable_eval_variable && same_text(
                atom_contents(expected.name, functions[at].atoms()),
                atom_contents(definition.name, functions[child_index].atoms()),
            ),
            None => false,
        };
        if !matching {
            proof {
                lemma_first_failure_at(checks, closure as int);
            }
            return Err(
                BytecodeVerificationError::function(
                    child,
                    BytecodeVerificationErrorKind::ClosureMetadataMismatch {
                        child,
                        closure: usize_to_u32(closure),
                    },
                ),
            );
        }
        assert(checks[closure as int].is_ok());
        closure = closure + 1;
    }
    proof {
        lemma_no_failure(checks);
    }
    Ok(())
}

fn verify_children(
    graph: &VerifiedCompilerFunctionGraph,
    metadata: &[VerifiedFunctionMetadata],
    at: usize,
) -> (checked: Result<(), BytecodeVerificationError>)
    requires
        metadata@.len() == graph.functions@.len(),
        at < graph.functions@.len(),
    ensures
        checked == first_failure(child_checks(graph.functions@, records_of(metadata@), at as int)),
{
    let functions = graph.functions();
    let constants = functions[at].constants();
    let ghost checks = child_checks(graph.functions@, records_of(metadata@), at as int);
    let mut position: usize = 0;
    while position < constants.len()
        invariant
            metadata@.len() == graph.functions@.len(),
            functions@ == graph.functions@,
            at < graph.functions@.len(),
            constants@ == graph.functions@[at as int].constants@,
            position <= constants@.len(),
            checks == child_checks(graph.functions@, records_of(metadata@), at as int),
            forall|i: int| 0 <= i < position ==> (#[trigger] checks[i]).is_ok(),
        decreases constants@.len() - position,
    {
        proof {
            if checks[position as int].is_err() {
                lemma_first_failure_at(checks, position as int);
            }
        }
        if let CompilerConstant::Function(child) = constants[position] {
            if child.0 as usize >= functions.len() {
                return Err(
                    BytecodeVerificationError::function(
                        child,
                        BytecodeVerificationErrorKind::ClosureMetadataMismatch { child, closure: 0 },
                    ),
                );
            }
            verify_child_closures(graph, metadata, at, child)?;
        }
        position = position + 1;
    }
    proof {
        lemma_no_failure(checks);
    }
    Ok(())
}

/// Checks that functions initialize bindings of their own names, and that every
/// closure variable of a child is what its parent hands on.
pub fn verify_closure_metadata(
    graph: &VerifiedCompilerFunctionGraph,
    metadata: &[VerifiedFunctionMetadata],
) -> (checked: Result<(), BytecodeVerificationError>)
    requires
        metadata@.len() == graph.functions@.len(),
    ensures
        checked == first_failure(parent_checks(graph.functions@, records_of(metadata@))),
{
    let ghost checks = parent_checks(graph.functions@, records_of(metadata@));
    let mut at: usize = 0;
    while at < graph.functions().len()
        invariant
            metadata@.len() == graph.functions@.len(),
            at <= graph.functions@.len(),
            checks == parent_checks(graph.functions@, records_of(metadata@)),
            forall|i: int| 0 <= i < at ==> (#[trigger] checks[i]).is_ok(),
        decreases graph.functions@.len() - at,
    {
        assert(checks[at as int] == parent_check(graph.functions@, records_of(metadata@), at as int));
        proof {
            if checks[at as int].is_err() {
                lemma_first_failure_at(checks, at as int);
            }
        }
        let id = function_id(at)?;
        verify_variable_initializers(graph, metadata, at, id)?;
        verify_closure_initializers(graph, metadata, at, id)?;
        verify_children(graph, metadata, at)?;
        at = at + 1;
    }
    proof {
        lemma_no_failure(checks);
    }
    Ok(())
}

} // verus!
