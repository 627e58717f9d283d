//! Variable definitions of a function against its body and capture layout.
use crate::bytecode::atoms::{
    arguments_name, arguments_units, atom_contents, atom_units, required_atom_check,
    verify_required_atom,
};
use crate::bytecode::error::{
    BindingPolicyViolationReason, BindingSlot, BytecodeVerificationError,
    BytecodeVerificationErrorKind, MetadataAtomField, function_error, policy_error,
    spec_policy_error,
};
use crate::bytecode::model::{
    BytecodeGraphResource, CompilerBindingKind, CompilerInitializationPolicy, CompilerWritePolicy,
    ScopeLink, VariableDefinition,
};
use crate::bytecode::operand_use::{saturated_u32, usize_to_u32};
use crate::bytecode::provenance::same_units;
use crate::bytecode::scope_links::{scope_walks_from, verify_scope_links};
use crate::bytecode::stack_error::{allocation_error, reservation_failure, try_filled_vec};
use crate::checks::{
    first_failure, lemma_first_failure_at, lemma_no_failure, lemma_success_means_all,
};
use crate::control_flow::model::{
    CompilerCaptureLayout, CompilerCapturedBinding, VerifiedControlFlow,
};
use crate::function_graph::{
    CompilerAtom, CompilerConstant, FunctionTemplateId, VerifiedCompilerFunction,
};
use crate::instruction::{DecodedInstruction, Operands};
use crate::opcode::FinalOpcode;
use crate::reserve::reserve_map;
use std::collections::HashMap;
use vstd::prelude::*;
use vstd::slice::slice_subrange;

verus! {

/// What variable definitions are checked against.
pub struct VariableContext {
    /// Function that owns them.
    pub id: FunctionTemplateId,
    /// Its atom pool.
    pub atoms: Seq<CompilerAtom>,
    /// Its constant pool.
    pub constants: Seq<CompilerConstant>,
    /// Its argument count.
    pub arguments: u32,
    /// Its local count.
    pub locals: u32,
    /// Whether it is strict-mode code.
    pub strict: bool,
    /// Its variable-reference cells.
    pub references: u32,
}

/// The context of a function.
pub open(crate) spec fn variable_context(
    id: FunctionTemplateId,
    function: VerifiedCompilerFunction,
) -> VariableContext {
    VariableContext {
        id,
        atoms: function.atoms@,
        constants: function.constants@,
        arguments: function.control_flow.domains.argument_count,
        locals: function.control_flow.domains.local_count,
        strict: function.control_flow.function_header.mode.spec_is_strict(),
        references: function.control_flow.function_header.variable_reference_count,
    }
}

/// Slot of definition `at`: arguments first, then locals.
pub open spec fn slot_of(arguments: u32, at: int) -> BindingSlot {
    if at < arguments {
        BindingSlot::Argument(saturated_u32(at))
    } else {
        BindingSlot::Local(saturated_u32(at - arguments))
    }
}

/// Whether definition `at` may hold the arguments object: the first local that
/// does, named `arguments`, and an ordinary function-scoped variable.
pub open spec fn holds_arguments_object(
    context: VariableContext,
    variables: Seq<VariableDefinition>,
    at: int,
) -> bool {
    let definition = variables[at];
    &&& at >= context.arguments
    &&& forall|j: int| 0 <= j < at ==> !(#[trigger] variables[j]).arguments_object
    &&& atom_units(definition.name, context.atoms) == Some(arguments_units())
    &&& definition.policy.kind == CompilerBindingKind::Var
    &&& definition.policy.initialization == CompilerInitializationPolicy::UndefinedAtInstantiation
    &&& definition.policy.writes == CompilerWritePolicy::Mutable
    &&& !definition.policy.temporal_dead_zone
    &&& !definition.has_scope
}

/// Whether a constant is a function template.
pub open spec fn is_function_constant(constants: Seq<CompilerConstant>, constant: u32) -> bool {
    constant < constants.len() && constants[constant as int] is Function
}

pub(crate) fn names_function_constant(constants: &[CompilerConstant], constant: u32) -> (names: bool)
    ensures
        names == is_function_constant(constants@, constant),
{
    let position: usize = constant as usize;
    position < constants.len() && matches!(constants[position], CompilerConstant::Function(_))
}

/// Whether the policy asks for a function initializer.
pub open spec fn needs_initializer(definition: VariableDefinition) -> bool {
    definition.policy.initialization == CompilerInitializationPolicy::FunctionAtInstantiation
        || definition.policy.initialization == CompilerInitializationPolicy::FunctionAtScopeEntry
}

/// The check of a definition's function initializer: there where the policy
/// asks for it, otherwise only on parameters, and always a function template.
pub open spec fn initializer_metadata_check(
    context: VariableContext,
    definition: VariableDefinition,
    at: int,
) -> Result<(), BytecodeVerificationError> {
    let mismatch = |constant: Option<u32>|
        Err::<(), BytecodeVerificationError>(
            function_error(
                context.id,
                BytecodeVerificationErrorKind::FunctionInitializerMetadataMismatch {
                    definition: saturated_u32(at),
                    constant,
                },
            ),
        );
    match definition.function_initializer {
        None => if needs_initializer(definition) {
            mismatch(None)
        } else {
            Ok(())
        },
        Some(constant) => if (!needs_initializer(definition) && definition.policy.kind
            != CompilerBindingKind::Parameter) || !is_function_constant(
            context.constants,
            constant,
        ) {
            mismatch(Some(constant))
        } else {
            Ok(())
        },
    }
}

/// The check of a definition's place: arguments are plain parameters without
/// scope, locals have the scope of their policy and link to locals of the same
/// sort.
pub open spec fn placement_check(
    context: VariableContext,
    variables: Seq<VariableDefinition>,
    at: int,
) -> Result<(), BytecodeVerificationError> {
    let definition = variables[at];
    let violated = |reason: BindingPolicyViolationReason|
        Err::<(), BytecodeVerificationError>(
            spec_policy_error(context.id, slot_of(context.arguments, at), None, reason),
        );
    if at < context.arguments {
        if definition.policy.kind != CompilerBindingKind::Parameter
            || definition.policy.temporal_dead_zone || definition.has_scope
            || definition.scope_next != ScopeLink::End {
            violated(BindingPolicyViolationReason::InvalidArgumentDefinition)
        } else {
            Ok(())
        }
    } else if definition.has_scope != definition.policy.spec_has_scope() {
        violated(BindingPolicyViolationReason::ScopeFlagMismatch)
    } else {
        match definition.scope_next {
            ScopeLink::End => Ok(()),
            ScopeLink::ArgumentScopeEnd => Err(
                function_error(
                    context.id,
                    BytecodeVerificationErrorKind::ArgumentScopeMetadataUnsupported {
                        definition: saturated_u32(at),
                    },
                ),
            ),
            ScopeLink::Local(target) => if target >= context.locals {
                Err(
                    function_error(
                        context.id,
                        BytecodeVerificationErrorKind::ScopeLinkOutOfBounds {
                            definition: saturated_u32(at),
                            target,
                            locals: context.locals,
                        },
                    ),
                )
            } else if definition.has_scope != variables[context.arguments + target].has_scope {
                Err(
                    function_error(
                        context.id,
                        BytecodeVerificationErrorKind::ScopeLinkKindMismatch {
                            definition: saturated_u32(at),
                            target,
                        },
                    ),
                )
            } else {
                Ok(())
            },
        }
    }
}

/// Whether one of the first `count` definitions owns the cell.
pub open spec fn owns_cell(variables: Seq<VariableDefinition>, count: int, cell: u32) -> bool {
    exists|j: int|
        0 <= j < count && (#[trigger] variables[j]).variable_reference == Some(cell)
}

/// The check of a definition's variable-reference cell: declared, and owned by
/// no earlier definition.
pub open spec fn reference_check(
    context: VariableContext,
    variables: Seq<VariableDefinition>,
    at: int,
) -> Result<(), BytecodeVerificationError> {
    match variables[at].variable_reference {
        None => Ok(()),
        Some(reference) => if reference >= context.references {
            Err(
                function_error(
                    context.id,
                    BytecodeVerificationErrorKind::VariableReferenceOutOfBounds {
                        definition: saturated_u32(at),
                        reference,
                        len: context.references,
                    },
                ),
            )
        } else if owns_cell(variables, at, reference) {
            Err(
                function_error(
                    context.id,
                    BytecodeVerificationErrorKind::DuplicateVariableReference { reference },
                ),
            )
        } else {
            Ok(())
        },
    }
}

/// The check of definition `at`: name, arguments object, policy, initializer,
/// place and cell.
pub open spec fn variable_check(
    context: VariableContext,
    variables: Seq<VariableDefinition>,
    at: int,
) -> Result<(), BytecodeVerificationError> {
    let definition = variables[at];
    let name = required_atom_check(
        context.id,
        definition.name,
        MetadataAtomField::VariableName(saturated_u32(at)),
        context.atoms,
    );
    if name.is_err() {
        name
    } else if definition.arguments_object && !holds_arguments_object(context, variables, at) {
        Err(
            function_error(
                context.id,
                BytecodeVerificationErrorKind::ArgumentsObjectMetadataMismatch {
                    definition: Some(saturated_u32(at)),
                    pc: None,
                },
            ),
        )
    } else if !definition.policy.spec_is_valid_for_function(context.strict) {
        Err(
            spec_policy_error(
                context.id,
                slot_of(context.arguments, at),
                None,
                BindingPolicyViolationReason::InvalidDeclarationPolicy,
            ),
        )
    } else if initializer_metadata_check(context, definition, at).is_err() {
        initializer_metadata_check(context, definition, at)
    } else if placement_check(context, variables, at).is_err() {
        placement_check(context, variables, at)
    } else {
        reference_check(context, variables, at)
    }
}

/// Checks of all definitions, in order.
pub open spec fn variable_checks(
    context: VariableContext,
    variables: Seq<VariableDefinition>,
) -> Seq<Result<(), BytecodeVerificationError>> {
    Seq::new(variables.len(), |i: int| variable_check(context, variables, i))
}

/// First definition from `from` on, below `end`, that the constant initializes.
pub open spec fn initialized_from(
    variables: Seq<VariableDefinition>,
    constant: u32,
    from: int,
    end: int,
) -> Option<int>
    decreases end - from,
{
    if from >= end {
        None
    } else if variables[from].function_initializer == Some(constant) {
        Some(from)
    } else {
        initialized_from(variables, constant, from + 1, end)
    }
}

/// First two of the definitions below `end` that the constant initializes.
pub open spec fn initialized_twice(
    variables: Seq<VariableDefinition>,
    constant: u32,
    end: int,
) -> Option<(int, int)> {
    match initialized_from(variables, constant, 0, end) {
        None => None,
        Some(first) => match initialized_from(variables, constant, first + 1, end) {
            None => None,
            Some(second) => Some((first, second)),
        },
    }
}

/// The check that no constant from `constant` on, below `count`, initializes two
/// definitions.
pub open spec fn reuse_check_from(
    id: FunctionTemplateId,
    variables: Seq<VariableDefinition>,
    constant: int,
    count: int,
) -> Result<(), BytecodeVerificationError>
    decreases count - constant,
{
    if constant >= count {
        Ok(())
    } else {
        match initialized_twice(variables, constant as u32, variables.len() as int) {
            Some((first, duplicate)) => Err(
                function_error(
                    id,
                    BytecodeVerificationErrorKind::FunctionInitializerConstantReused {
                        constant: constant as u32,
                        first: saturated_u32(first),
                        duplicate: saturated_u32(duplicate),
                    },
                ),
            ),
            None => reuse_check_from(id, variables, constant + 1, count),
        }
    }
}

/// Number of cells below `count` that some definition owns.
pub open spec fn owned_cells(variables: Seq<VariableDefinition>, count: int) -> nat
    decreases count,
{
    if count <= 0 {
        0
    } else {
        owned_cells(variables, count - 1) + if owns_cell(
            variables,
            variables.len() as int,
            (count - 1) as u32,
        ) {
            1nat
        } else {
            0nat
        }
    }
}

/// The check that definitions own all declared cells.
pub open spec fn cell_coverage_check(
    context: VariableContext,
    variables: Seq<VariableDefinition>,
) -> Result<(), BytecodeVerificationError> {
    let captured = owned_cells(variables, context.references as int);
    if captured != context.references {
        Err(
            function_error(
                context.id,
                BytecodeVerificationErrorKind::VariableReferenceDomainMismatch {
                    declared: context.references,
                    captured: captured as u32,
                },
            ),
        )
    } else {
        Ok(())
    }
}

/// Binding that the capture layout must hold for definition `at`.
pub open spec fn expected_binding(
    arguments: u32,
    variables: Seq<VariableDefinition>,
    at: int,
) -> CompilerCapturedBinding {
    if at < arguments {
        CompilerCapturedBinding::Argument(saturated_u32(at))
    } else if variables[at].has_scope {
        CompilerCapturedBinding::ScopedLocal(saturated_u32(at - arguments))
    } else {
        CompilerCapturedBinding::FunctionLocal(saturated_u32(at - arguments))
    }
}

/// The check of definition `at` against the capture layout.
pub open spec fn capture_entry_check(
    context: VariableContext,
    variables: Seq<VariableDefinition>,
    layout: CompilerCaptureLayout,
    at: int,
) -> Result<(), BytecodeVerificationError> {
    match variables[at].variable_reference {
        None => Ok(()),
        Some(reference) => if layout.spec_binding_for_variable_reference(reference) != Some(
            expected_binding(context.arguments, variables, at),
        ) {
            Err(
                function_error(
                    context.id,
                    BytecodeVerificationErrorKind::CaptureLayoutMismatch { reference },
                ),
            )
        } else {
            Ok(())
        },
    }
}

/// The check of all definitions against the capture layout, which must be
/// there.
pub open spec fn capture_layout_entries_check(
    context: VariableContext,
    variables: Seq<VariableDefinition>,
    layout: Option<CompilerCaptureLayout>,
) -> Result<(), BytecodeVerificationError> {
    match layout {
        None => Err(
            function_error(
                context.id,
                BytecodeVerificationErrorKind::VariableReferenceDomainMismatch {
                    declared: context.references,
                    captured: 0,
                },
            ),
        ),
        Some(layout) => first_failure(
            Seq::new(
                variables.len(),
                |i: int| capture_entry_check(context, variables, layout, i),
            ),
        ),
    }
}

/// Whether `error` reports that the check of the definitions could not reserve
/// memory: for the cells and for one initializer per definition first, and for
/// the locals once every definition is in order and no constant initializes two
/// of them.
pub open spec fn variables_memory_failure(
    context: VariableContext,
    variables: Seq<VariableDefinition>,
    error: BytecodeVerificationError,
) -> bool {
    let resource = BytecodeGraphResource::VariableDefinitions;
    let definitions = first_failure(variable_checks(context, variables));
    let reuse = reuse_check_from(context.id, variables, 0, 0x1_0000_0000);
    ||| error == reservation_failure(context.id, resource, context.references as u64)
    ||| error == reservation_failure(context.id, resource, variables.len() as u64)
    ||| definitions.is_ok() && reuse.is_ok() && error == reservation_failure(
        context.id,
        resource,
        context.locals as u64,
    )
}

/// The check of all variable definitions of a function.
pub open spec fn variables_check(
    context: VariableContext,
    variables: Seq<VariableDefinition>,
    layout: Option<CompilerCaptureLayout>,
) -> Result<(), BytecodeVerificationError> {
    let definitions = first_failure(variable_checks(context, variables));
    let reuse = reuse_check_from(context.id, variables, 0, 0x1_0000_0000);
    let links = scope_walks_from(context.id, variables.skip(context.arguments as int), 0);
    let cells = cell_coverage_check(context, variables);
    if definitions.is_err() {
        definitions
    } else if reuse.is_err() {
        reuse
    } else if links.is_err() {
        links
    } else if cells.is_err() {
        cells
    } else {
        capture_layout_entries_check(context, variables, layout)
    }
}

fn slot(arguments: usize, at: usize) -> (slot: BindingSlot)
    requires
        arguments <= u32::MAX,
    ensures
        slot == slot_of(arguments as u32, at as int),
{
    if at < arguments {
        BindingSlot::Argument(usize_to_u32(at))
    } else {
        BindingSlot::Local(usize_to_u32(at - arguments))
    }
}

fn metadata_mismatch(id: FunctionTemplateId, at: usize, constant: Option<u32>) -> (error:
    BytecodeVerificationError)
    ensures
        error == function_error(
            id,
            BytecodeVerificationErrorKind::FunctionInitializerMetadataMismatch {
                definition: saturated_u32(at as int),
                constant,
            },
        ),
{
    BytecodeVerificationError::function(
        id,
        BytecodeVerificationErrorKind::FunctionInitializerMetadataMismatch {
            definition: usize_to_u32(at),
            constant,
        },
    )
}

fn verify_initializer_metadata(
    id: FunctionTemplateId,
    constants: &[CompilerConstant],
    definition: VariableDefinition,
    at: usize,
    Ghost(context): Ghost<VariableContext>,
) -> (checked: Result<(), BytecodeVerificationError>)
    requires
        context.id == id,
        context.constants == constants@,
    ensures
        checked == initializer_metadata_check(context, definition, at as int),
{
    let required: bool = matches!(
        definition.policy.initialization,
        CompilerInitializationPolicy::FunctionAtInstantiation
        | CompilerInitializationPolicy::FunctionAtScopeEntry
    );
    match definition.function_initializer {
        None => {
            if required {
                return Err(metadata_mismatch(id, at, None));
            }
            Ok(())
        },
        Some(constant) => {
            if (!required && !matches!(definition.policy.kind, CompilerBindingKind::Parameter))
                || !names_function_constant(constants, constant) {
                return Err(metadata_mismatch(id, at, Some(constant)));
            }
            Ok(())
        },
    }
}

fn verify_placement(
    id: FunctionTemplateId,
    arguments: usize,
    locals: u32,
    variables: &[VariableDefinition],
    at: usize,
    Ghost(context): Ghost<VariableContext>,
) -> (checked: Result<(), BytecodeVerificationError>)
    requires
        context.id == id,
        context.arguments == arguments,
        context.locals == locals,
        variables@.len() == arguments + locals,
        at < variables@.len(),
    ensures
        checked == placement_check(context, variables@, at as int),
{
    let definition = variables[at];
    if at < arguments {
        if !matches!(definition.policy.kind, CompilerBindingKind::Parameter)
            || definition.policy.temporal_dead_zone || definition.has_scope || !matches!(
            definition.scope_next,
            ScopeLink::End
        ) {
            return Err(
                policy_error(
                    id,
                    slot(arguments, at),
                    None,
                    BindingPolicyViolationReason::InvalidArgumentDefinition,
                ),
            );
        }
        return Ok(());
    }
    if definition.has_scope != definition.policy.has_scope() {
        return Err(
            policy_error(
                id,
                slot(arguments, at),
                None,
                BindingPolicyViolationReason::ScopeFlagMismatch,
            ),
        );
    }
    match definition.scope_next {
        ScopeLink::End => Ok(()),
        ScopeLink::ArgumentScopeEnd => Err(
            BytecodeVerificationError::function(
                id,
                BytecodeVerificationErrorKind::ArgumentScopeMetadataUnsupported {
                    definition: usize_to_u32(at),
                },
            ),
        ),
        ScopeLink::Local(target) => {
            if target >= locals {
                return Err(
                    BytecodeVerificationError::function(
                        id,
                        BytecodeVerificationErrorKind::ScopeLinkOutOfBounds {
                            definition: usize_to_u32(at),
                            target,
                            locals,
                        },
                    ),
                );
            }
            let count: usize = variables.len();
            assert(arguments + target < count);
            if definition.has_scope != variables[arguments + target as usize].has_scope {
                return Err(
                    BytecodeVerificationError::function(
                        id,
                        BytecodeVerificationErrorKind::ScopeLinkKindMismatch {
                            definition: usize_to_u32(at),
                            target,
                        },
                    ),
                );
            }
            Ok(())
        },
    }
}

fn verify_arguments_object(
    arguments: usize,
    atoms: &[CompilerAtom],
    variables: &[VariableDefinition],
    at: usize,
    earlier: bool,
    Ghost(context): Ghost<VariableContext>,
) -> (valid: bool)
    requires
        context.arguments == arguments,
        context.atoms == atoms@,
        at < variables@.len(),
        earlier == exists|j: int| 0 <= j < at && (#[trigger] variables@[j]).arguments_object,
    ensures
        valid == holds_arguments_object(context, variables@, at as int),
{
    let definition = variables[at];
    let named: bool = match atom_contents(definition.name, atoms) {
        Some(name) => same_units(name.code_units(), &arguments_name()),
        None => false,
    };
    at >= arguments && !earlier && named && matches!(
        definition.policy.kind,
        CompilerBindingKind::Var
    ) && matches!(
        definition.policy.initialization,
        CompilerInitializationPolicy::UndefinedAtInstantiation
    ) && matches!(definition.policy.writes, CompilerWritePolicy::Mutable)
        && !definition.policy.temporal_dead_zone && !definition.has_scope
}

/// Cells seen so far are exactly those that the first `count` definitions own.
spec fn seen_cells(seen: Seq<bool>, variables: Seq<VariableDefinition>, count: int) -> bool {
    forall|cell: u32|
        cell < seen.len() ==> #[trigger] seen[cell as int] == owns_cell(variables, count, cell)
}

proof fn lemma_owns_cell_step(variables: Seq<VariableDefinition>, count: int, cell: u32)
    requires
        0 <= count < variables.len(),
    ensures
        owns_cell(variables, count + 1, cell) <==> (owns_cell(variables, count, cell)
            || variables[count].variable_reference == Some(cell)),
{
    if owns_cell(variables, count + 1, cell) {
        let j = choose|j: int|
            0 <= j < count + 1 && (#[trigger] variables[j]).variable_reference == Some(cell);
        if j < count {
            assert(owns_cell(variables, count, cell));
        }
    }
    if owns_cell(variables, count, cell) {
        let j = choose|j: int|
            0 <= j < count && (#[trigger] variables[j]).variable_reference == Some(cell);
        assert(variables[j].variable_reference == Some(cell));
    }
    if variables[count].variable_reference == Some(cell) {
        assert(owns_cell(variables, count + 1, cell));
    }
}

fn verify_definitions(
    id: FunctionTemplateId,
    function: &VerifiedCompilerFunction,
    variables: &[VariableDefinition],
    seen: &mut Vec<bool>,
    Ghost(context): Ghost<VariableContext>,
) -> (checked: Result<(), BytecodeVerificationError>)
    requires
        context == variable_context(id, *function),
        variables@.len() == context.arguments + context.locals,
        old(seen)@ == Seq::new(context.references as nat, |i: int| false),
    ensures
        checked == first_failure(variable_checks(context, variables@)),
        checked.is_ok() ==> final(seen)@.len() == context.references && seen_cells(
            final(seen)@,
            variables@,
            variables@.len() as int,
        ),
{
    let arguments: usize = function.control_flow.domains.argument_count as usize;
    let locals: u32 = function.control_flow.domains.local_count;
    let strict: bool = function.control_flow.function_header.mode.is_strict();
    let references: u32 = function.control_flow.function_header.variable_reference_count;
    let atoms = function.atoms();
    let constants = function.constants();
    let ghost checks = variable_checks(context, variables@);
    let mut arguments_object: bool = false;
    let mut at: usize = 0;
    while at < variables.len()
        invariant
            at <= variables@.len(),
            context == variable_context(id, *function),
            arguments == context.arguments,
            locals == context.locals,
            strict == context.strict,
            references == context.references,
            atoms@ == context.atoms,
            constants@ == context.constants,
            variables@.len() == context.arguments + context.locals,
            checks == variable_checks(context, variables@),
            forall|j: int| 0 <= j < at ==> (#[trigger] checks[j]).is_ok(),
            arguments_object == exists|j: int|
                0 <= j < at && (#[trigger] variables@[j]).arguments_object,
            seen@.len() == references,
            seen_cells(seen@, variables@, at as int),
        decreases variables@.len() - at,
    {
        let definition = variables[at];
        let ghost expected = variable_check(context, variables@, at as int);
        proof {
            assert(checks[at as int] == expected);
            if expected.is_err() {
                lemma_first_failure_at(checks, at as int);
            }
        }
        verify_required_atom(
            id,
            definition.name,
            MetadataAtomField::VariableName(usize_to_u32(at)),
            atoms,
        )?;
        if definition.arguments_object {
            if !verify_arguments_object(
                arguments,
                atoms,
                variables,
                at,
                arguments_object,
                Ghost(context),
            ) {
                return Err(
                    BytecodeVerificationError::function(
                        id,
                        BytecodeVerificationErrorKind::ArgumentsObjectMetadataMismatch {
                            definition: Some(usize_to_u32(at)),
                            pc: None,
                        },
                    ),
                );
            }
        }
        if !definition.policy.is_valid_for_function(strict) {
            return Err(
                policy_error(
                    id,
                    slot(arguments, at),
                    None,
                    BindingPolicyViolationReason::InvalidDeclarationPolicy,
                ),
            );
        }
        verify_initializer_metadata(id, constants, definition, at, Ghost(context))?;
        verify_placement(id, arguments, locals, variables, at, Ghost(context))?;
        let ghost before = seen@;
        if let Some(reference) = definition.variable_reference {
            if reference >= references {
                return Err(
                    BytecodeVerificationError::function(
                        id,
                        BytecodeVerificationErrorKind::VariableReferenceOutOfBounds {
                            definition: usize_to_u32(at),
                            reference,
                            len: references,
                        },
                    ),
                );
            }
            if seen[reference as usize] {
                return Err(
                    BytecodeVerificationError::function(
                        id,
                        BytecodeVerificationErrorKind::DuplicateVariableReference { reference },
                    ),
                );
            }
            seen.set(reference as usize, true);
        }
        proof {
            assert forall|cell: u32| cell < seen@.len() implies #[trigger] seen@[cell as int]
                == owns_cell(variables@, at + 1, cell) by {
                lemma_owns_cell_step(variables@, at as int, cell);
                assert(before[cell as int] == owns_cell(variables@, at as int, cell));
            }
            if definition.arguments_object {
                assert(variables@[at as int].arguments_object);
            }
        }
        if definition.arguments_object {
            arguments_object = true;
        }
        at = at + 1;
    }
    proof {
        lemma_no_failure(checks);
    }
    Ok(())
}

/// Nothing below `end` is initialized by the constant from `from` on.
proof fn lemma_initialized_extends(
    variables: Seq<VariableDefinition>,
    constant: u32,
    from: int,
    end: int,
)
    requires
        0 <= from <= end < variables.len(),
    ensures
        initialized_from(variables, constant, from, end + 1) == match initialized_from(
            variables,
            constant,
            from,
            end,
        ) {
            Some(found) => Some(found),
            None => if variables[end].function_initializer == Some(constant) {
                Some(end)
            } else {
                None
            },
        },
        match initialized_from(variables, constant, from, end) {
            Some(found) => from <= found < end,
            None => true,
        },
    decreases end - from,
{
    if from < end {
        lemma_initialized_extends(variables, constant, from + 1, end);
    } else {
        assert(initialized_from(variables, constant, from + 1, end + 1).is_none());
    }
}

proof fn lemma_reuse_at(
    id: FunctionTemplateId,
    variables: Seq<VariableDefinition>,
    from: int,
    constant: int,
    count: int,
)
    requires
        0 <= from <= constant < count <= 0x1_0000_0000,
        initialized_twice(variables, constant as u32, variables.len() as int).is_some(),
        forall|c: u32|
            from <= c < constant ==> (#[trigger] initialized_twice(
                variables,
                c,
                variables.len() as int,
            )).is_none(),
    ensures
        reuse_check_from(id, variables, from, count) == reuse_check_from(
            id,
            variables,
            constant,
            count,
        ),
    decreases constant - from,
{
    if from < constant {
        assert(initialized_twice(variables, from as u32, variables.len() as int).is_none());
        lemma_reuse_at(id, variables, from + 1, constant, count);
    }
}

proof fn lemma_no_reuse(
    id: FunctionTemplateId,
    variables: Seq<VariableDefinition>,
    from: int,
    count: int,
)
    requires
        0 <= from,
        count <= 0x1_0000_0000,
        forall|c: u32|
            (#[trigger] initialized_twice(variables, c, variables.len() as int)).is_none(),
    ensures
        reuse_check_from(id, variables, from, count) == Ok::<(), BytecodeVerificationError>(()),
    decreases count - from,
{
    if from < count {
        assert(initialized_twice(variables, from as u32, variables.len() as int).is_none());
        lemma_no_reuse(id, variables, from + 1, count);
    }
}

/// The table holds the first definition below `end` of each constant that
/// initializes one.
spec fn first_definitions(
    table: Map<u64, usize>,
    variables: Seq<VariableDefinition>,
    end: int,
) -> bool {
    forall|c: u32| #[trigger]
        initialized_from(variables, c, 0, end) == if table.contains_key(c as u64) {
            Some(table[c as u64] as int)
        } else {
            None
        }
}

/// The reuse with the smallest constant below `end`, if there is one.
spec fn smallest_reuse(
    variables: Seq<VariableDefinition>,
    end: int,
    best: Option<(u32, usize, usize)>,
) -> bool {
    match best {
        Some((constant, first, duplicate)) => initialized_twice(variables, constant, end) == Some(
            (first as int, duplicate as int),
        ) && forall|c: u32|
            c < constant ==> (#[trigger] initialized_twice(variables, c, end)).is_none(),
        None => forall|c: u32| (#[trigger] initialized_twice(variables, c, end)).is_none(),
    }
}

proof fn lemma_twice_extends(variables: Seq<VariableDefinition>, constant: u32, end: int)
    requires
        0 <= end < variables.len(),
    ensures
        initialized_twice(variables, constant, end + 1) == match initialized_twice(
            variables,
            constant,
            end,
        ) {
            Some(pair) => Some(pair),
            None => match initialized_from(variables, constant, 0, end) {
                Some(first) => if variables[end].function_initializer == Some(constant) {
                    Some((first, end))
                } else {
                    None
                },
                None => None,
            },
        },
{
    lemma_initialized_extends(variables, constant, 0, end);
    match initialized_from(variables, constant, 0, end) {
        Some(first) => {
            lemma_initialized_extends(variables, constant, first + 1, end);
        },
        None => {
            if variables[end].function_initializer == Some(constant) {
                assert(initialized_from(variables, constant, end + 1, end + 1).is_none());
            }
        },
    }
}

fn verify_initializer_reuse(
    id: FunctionTemplateId,
    variables: &[VariableDefinition],
    room: HashMap<u64, usize>,
) -> (checked: Result<(), BytecodeVerificationError>)
    requires
        room@ == Map::<u64, usize>::empty(),
    ensures
        checked == reuse_check_from(id, variables@, 0, 0x1_0000_0000),
{
    let mut table = room;
    let mut best: Option<(u32, usize, usize)> = None;
    let mut at: usize = 0;
    proof {
        broadcast use vstd::std_specs::hash::group_hash_axioms;

        assert forall|c: u32| (#[trigger] initialized_twice(variables@, c, 0)).is_none() by {
        }
    }
    while at < variables.len()
        invariant
            at <= variables@.len(),
            first_definitions(table@, variables@, at as int),
            smallest_reuse(variables@, at as int, best),
        decreases variables@.len() - at,
    {
        let ghost before = table@;
        let ghost earlier = best;
        let initializer = variables[at].function_initializer;
        if let Some(constant) = initializer {
            let key: u64 = constant as u64;
            proof {
                broadcast use vstd::std_specs::hash::group_hash_axioms;

                lemma_initialized_extends(variables@, constant, 0, at as int);
                lemma_twice_extends(variables@, constant, at as int);
            }
            assert(first_definitions(before, variables@, at as int));
            let known = match table.get(&key) {
                Some(first) => Some(*first),
                None => None,
            };
            match known {
                None => {
                    table.insert(key, at);
                },
                Some(first) => {
                    let smaller: bool = match best {
                        Some((current, _, _)) => constant < current,
                        None => true,
                    };
                    if smaller {
                        best = Some((constant, first, at));
                    }
                },
            }
        }
        proof {
            assert forall|c: u32| #[trigger]
                initialized_from(variables@, c, 0, at + 1) == if table@.contains_key(c as u64) {
                    Some(table@[c as u64] as int)
                } else {
                    None
                } by {
                lemma_initialized_extends(variables@, c, 0, at as int);
                assert(initialized_from(variables@, c, 0, at as int) == if before.contains_key(
                    c as u64,
                ) {
                    Some(before[c as u64] as int)
                } else {
                    None
                });
            }
            assert(smallest_reuse(variables@, at + 1, best)) by {
                if let Some((constant, first, duplicate)) = best {
                    lemma_twice_extends(variables@, constant, at as int);
                    assert forall|c: u32| c < constant implies (#[trigger] initialized_twice(
                        variables@,
                        c,
                        at + 1,
                    )).is_none() by {
                        lemma_twice_extends(variables@, c, at as int);
                        lemma_initialized_extends(variables@, c, 0, at as int);
                        assert(initialized_twice(variables@, c, at as int).is_none());
                    }
                } else {
                    assert forall|c: u32| (#[trigger] initialized_twice(
                        variables@,
                        c,
                        at + 1,
                    )).is_none() by {
                        lemma_twice_extends(variables@, c, at as int);
                        lemma_initialized_extends(variables@, c, 0, at as int);
                        assert(initialized_twice(variables@, c, at as int).is_none());
                    }
                }
            }
        }
        at = at + 1;
    }
    match best {
        Some((constant, first, duplicate)) => {
            proof {
                lemma_reuse_at(id, variables@, 0, constant as int, 0x1_0000_0000);
            }
            Err(
                BytecodeVerificationError::function(
                    id,
                    BytecodeVerificationErrorKind::FunctionInitializerConstantReused {
                        constant,
                        first: usize_to_u32(first),
                        duplicate: usize_to_u32(duplicate),
                    },
                ),
            )
        },
        None => {
            proof {
                lemma_no_reuse(id, variables@, 0, 0x1_0000_0000);
            }
            Ok(())
        },
    }
}

fn count_owned_cells(seen: &Vec<bool>, variables: &[VariableDefinition]) -> (count: u32)
    requires
        seen@.len() <= u32::MAX,
        seen_cells(seen@, variables@, variables@.len() as int),
    ensures
        count == owned_cells(variables@, seen@.len() as int),
{
    let mut count: u32 = 0;
    let mut cell: usize = 0;
    while cell < seen.len()
        invariant
            cell <= seen@.len(),
            seen@.len() <= u32::MAX,
            seen_cells(seen@, variables@, variables@.len() as int),
            count <= cell,
            count == owned_cells(variables@, cell as int),
        decreases seen@.len() - cell,
    {
        assert(seen@[(cell as u32) as int] == owns_cell(
            variables@,
            variables@.len() as int,
            cell as u32,
        ));
        if seen[cell] {
            count = count + 1;
        }
        cell = cell + 1;
    }
    count
}

fn verify_capture_layout(
    id: FunctionTemplateId,
    function: &VerifiedCompilerFunction,
    variables: &[VariableDefinition],
    arguments: usize,
    Ghost(context): Ghost<VariableContext>,
) -> (checked: Result<(), BytecodeVerificationError>)
    requires
        context == variable_context(id, *function),
        arguments == context.arguments,
    ensures
        checked == capture_layout_entries_check(
            context,
            variables@,
            function.control_flow.compiler_capture_layout,
        ),
{
    let layout = match &function.control_flow.compiler_capture_layout {
        Some(layout) => layout,
        None => {
            return Err(
                BytecodeVerificationError::function(
                    id,
                    BytecodeVerificationErrorKind::VariableReferenceDomainMismatch {
                        declared: function.control_flow.function_header.variable_reference_count,
                        captured: 0,
                    },
                ),
            );
        },
    };
    let ghost checks = Seq::new(
        variables@.len(),
        |i: int| capture_entry_check(context, variables@, *layout, i),
    );
    let mut at: usize = 0;
    while at < variables.len()
        invariant
            at <= variables@.len(),
            context.id == id,
            arguments == context.arguments,
            function.control_flow.compiler_capture_layout == Some(*layout),
            checks == Seq::new(
                variables@.len(),
                |i: int| capture_entry_check(context, variables@, *layout, i),
            ),
            forall|j: int| 0 <= j < at ==> (#[trigger] checks[j]).is_ok(),
        decreases variables@.len() - at,
    {
        let definition = variables[at];
        if let Some(reference) = definition.variable_reference {
            let expected = if at < arguments {
                CompilerCapturedBinding::Argument(usize_to_u32(at))
            } else if definition.has_scope {
                CompilerCapturedBinding::ScopedLocal(usize_to_u32(at - arguments))
            } else {
                CompilerCapturedBinding::FunctionLocal(usize_to_u32(at - arguments))
            };
            let matching: bool = match layout.binding_for_variable_reference(reference) {
                Some(binding) => binding == expected,
                None => false,
            };
            if !matching {
                proof {
                    lemma_first_failure_at(checks, at as int);
                }
                return Err(
                    BytecodeVerificationError::function(
                        id,
                        BytecodeVerificationErrorKind::CaptureLayoutMismatch { reference },
                    ),
                );
            }
        }
        at = at + 1;
    }
    proof {
        lemma_no_failure(checks);
    }
    Ok(())
}

/// Checks all variable definitions of a function.
pub(crate) fn verify_variables(
    id: FunctionTemplateId,
    function: &VerifiedCompilerFunction,
    variables: &[VariableDefinition],
) -> (checked: Result<(), BytecodeVerificationError>)
    requires
        variables@.len() == function.control_flow.domains.argument_count
            + function.control_flow.domains.local_count,
    ensures
        ({
            let expected = variables_check(
                variable_context(id, *function),
                variables@,
                function.control_flow.compiler_capture_layout,
            );
            match checked {
                Ok(_) => expected.is_ok(),
                Err(error) => expected == Err::<(), BytecodeVerificationError>(error)
                    || variables_memory_failure(
                    variable_context(id, *function),
                    variables@,
                    error,
                ),
            }
        }),
{
    let ghost context = variable_context(id, *function);
    let arguments: usize = function.control_flow.domains.argument_count as usize;
    let references: u32 = function.control_flow.function_header.variable_reference_count;
    let mut seen = try_filled_vec(
        id,
        references as usize,
        false,
        BytecodeGraphResource::VariableDefinitions,
    )?;
    let mut initializers: HashMap<u64, usize> = HashMap::new();
    if reserve_map(&mut initializers, variables.len()).is_err() {
        return Err(
            allocation_error(id, BytecodeGraphResource::VariableDefinitions, variables.len()),
        );
    }
    verify_definitions(id, function, variables, &mut seen, Ghost(context))?;
    let ghost checks = variable_checks(context, variables@);
    proof {
        lemma_success_means_all(checks);
    }
    verify_initializer_reuse(id, variables, initializers)?;
    let count: usize = variables.len();
    let locals = slice_subrange(variables, arguments, count);
    proof {
        assert(locals@ =~= variables@.skip(arguments as int));
        assert forall|i: int| 0 <= i < locals@.len() implies match (
        #[trigger] locals@[i]).scope_next {
            ScopeLink::Local(next) => next < locals@.len(),
            _ => true,
        } by {
            assert(checks[arguments + i].is_ok());
        }
    }
    verify_scope_links(id, locals)?;
    let captured: u32 = count_owned_cells(&seen, variables);
    if captured != references {
        return Err(
            BytecodeVerificationError::function(
                id,
                BytecodeVerificationErrorKind::VariableReferenceDomainMismatch {
                    declared: references,
                    captured,
                },
            ),
        );
    }
    verify_capture_layout(id, function, variables, arguments, Ghost(context))
}

/// Local that a direct eval names as its scope head: the scope operand less
/// two, where it is at least two.
pub open spec fn eval_scope_head(decoded: DecodedInstruction) -> Option<(u16, u32)> {
    let scope = match (decoded.instruction.opcode, decoded.instruction.operands) {
        (FinalOpcode::Eval, Operands::NPopU16 { scope_index, .. }) => Some(scope_index),
        (FinalOpcode::ApplyEval, Operands::U16(scope_index)) => Some(scope_index),
        _ => None,
    };
    match scope {
        Some(scope_index) => if scope_index >= 2 {
            Some((scope_index, (scope_index - 2) as u32))
        } else {
            None
        },
        None => None,
    }
}

/// The check that a direct eval names a lexical local as its scope head.
pub open spec fn eval_scope_check(
    id: FunctionTemplateId,
    decoded: DecodedInstruction,
    locals: Seq<VariableDefinition>,
) -> Result<(), BytecodeVerificationError> {
    match eval_scope_head(decoded) {
        None => Ok(()),
        Some((scope_index, local)) => if local >= locals.len() {
            Err(
                function_error(
                    id,
                    BytecodeVerificationErrorKind::EvalScopeIndexOutOfBounds {
                        pc: decoded.pc,
                        scope_index,
                        locals: saturated_u32(locals.len() as int),
                    },
                ),
            )
        } else if !locals[local as int].has_scope {
            Err(
                function_error(
                    id,
                    BytecodeVerificationErrorKind::EvalScopeHeadNotLexical {
                        pc: decoded.pc,
                        local,
                    },
                ),
            )
        } else {
            Ok(())
        },
    }
}

/// Scope checks of all instructions, in order.
pub open(crate) spec fn eval_scope_checks(
    id: FunctionTemplateId,
    flow: VerifiedControlFlow,
    variables: Seq<VariableDefinition>,
) -> Seq<Result<(), BytecodeVerificationError>> {
    Seq::new(
        flow.instructions@.len(),
        |i: int|
            eval_scope_check(
                id,
                flow.instructions@[i].decoded,
                variables.skip(flow.domains.argument_count as int),
            ),
    )
}

/// Checks the scope operands of direct evals.
///
/// Operand zero ends in the argument scope and one is the ordinary end; every
/// larger value is a local index plus two.
pub(crate) fn verify_eval_scope_operands(
    id: FunctionTemplateId,
    flow: &VerifiedControlFlow,
    variables: &[VariableDefinition],
) -> (checked: Result<(), BytecodeVerificationError>)
    requires
        flow.domains.argument_count <= variables@.len(),
    ensures
        checked == first_failure(eval_scope_checks(id, *flow, variables@)),
{
    let arguments: usize = flow.domains.argument_count as usize;
    let count: usize = variables.len();
    let locals = slice_subrange(variables, arguments, count);
    assert(locals@ =~= variables@.skip(arguments as int));
    let instructions = flow.instructions();
    let ghost checks = eval_scope_checks(id, *flow, variables@);
    let mut at: usize = 0;
    while at < instructions.len()
        invariant
            at <= instructions@.len(),
            instructions@ == flow.instructions@,
            locals@ == variables@.skip(flow.domains.argument_count as int),
            checks == eval_scope_checks(id, *flow, variables@),
            forall|j: int| 0 <= j < at ==> (#[trigger] checks[j]).is_ok(),
        decreases instructions@.len() - at,
    {
        let decoded = instructions[at].decoded;
        proof {
            assert(checks[at as int] == eval_scope_check(id, decoded, locals@));
            if checks[at as int].is_err() {
                lemma_first_failure_at(checks, at as int);
            }
        }
        let scope: Option<u16> = match (decoded.instruction.opcode, decoded.instruction.operands) {
            (FinalOpcode::Eval, Operands::NPopU16 { scope_index, .. }) => Some(scope_index),
            (FinalOpcode::ApplyEval, Operands::U16(scope_index)) => Some(scope_index),
            _ => None,
        };
        if let Some(scope_index) = scope {
            if scope_index >= 2 {
                let local: u32 = (scope_index - 2) as u32;
                if local as usize >= locals.len() {
                    return Err(
                        BytecodeVerificationError::function(
                            id,
                            BytecodeVerificationErrorKind::EvalScopeIndexOutOfBounds {
                                pc: decoded.pc,
                                scope_index,
                                locals: usize_to_u32(locals.len()),
                            },
                        ),
                    );
                }
                if !locals[local as usize].has_scope {
                    return Err(
                        BytecodeVerificationError::function(
                            id,
                            BytecodeVerificationErrorKind::EvalScopeHeadNotLexical {
                                pc: decoded.pc,
                                local,
                            },
                        ),
                    );
                }
            }
        }
        at = at + 1;
    }
    proof {
        lemma_no_failure(checks);
    }
    Ok(())
}

} // verus!
