//! What the variable definitions of a function and its captures agree on.
use crate::bytecode::model::VariableDefinition;
use crate::bytecode::scope_links::scope_walks_from;
use crate::bytecode::variables::{
    VariableContext, capture_entry_check, eval_scope_check, initialized_from, initialized_twice,
    owned_cells, owns_cell, reuse_check_from, variable_check, variable_checks, variables_check,
};
use crate::checks::{first_failure, lemma_no_failure, lemma_success_means_all};
use crate::control_flow::layouts::{
    binding_bounds_checks, capture_layout_check, constant_layout_check, distinct_slot_checks,
    mapped_argument_checks,
};
use crate::control_flow::model::{
    CompilerCaptureLayout, CompilerCapturedBinding, CompilerConstantLayout, FunctionIndexDomains,
};
use crate::function::VerifiedFunctionHeader;
use crate::function_graph::FunctionTemplateId;
use crate::instruction::{DecodedInstruction, Operands};
use crate::opcode::FinalOpcode;
use vstd::prelude::*;

verus! {

/// Whether two captured bindings lie in the same slot of the frame. A local is the
/// same slot whether or not it has a scope.
pub open spec fn same_slot(a: CompilerCapturedBinding, b: CompilerCapturedBinding) -> bool {
    match (a, b) {
        (CompilerCapturedBinding::Argument(i), CompilerCapturedBinding::Argument(j)) => i == j,
        (CompilerCapturedBinding::Argument(_), _) => false,
        (_, CompilerCapturedBinding::Argument(_)) => false,
        (CompilerCapturedBinding::FunctionLocal(i), CompilerCapturedBinding::FunctionLocal(j)) => i
            == j,
        (CompilerCapturedBinding::FunctionLocal(i), CompilerCapturedBinding::ScopedLocal(j)) => i
            == j,
        (CompilerCapturedBinding::ScopedLocal(i), CompilerCapturedBinding::FunctionLocal(j)) => i
            == j,
        (CompilerCapturedBinding::ScopedLocal(i), CompilerCapturedBinding::ScopedLocal(j)) => i
            == j,
    }
}

/// Whether a captured binding lies in the frame.
pub open spec fn in_frame(
    binding: CompilerCapturedBinding,
    domains: FunctionIndexDomains,
) -> bool {
    match binding {
        CompilerCapturedBinding::Argument(index) => index < domains.argument_count,
        CompilerCapturedBinding::FunctionLocal(index) => index < domains.local_count,
        CompilerCapturedBinding::ScopedLocal(index) => index < domains.local_count,
    }
}

/// A capture layout is accepted exactly if it has one binding for each declared
/// cell, all in the frame and no two in one slot, and if mapped arguments rise
/// strictly within the arguments. A constant layout is accepted exactly if it is
/// as long as the pool.
pub proof fn lemma_layouts_fit_the_frame(
    layout: CompilerCaptureLayout,
    constants: CompilerConstantLayout,
    domains: FunctionIndexDomains,
    header: VerifiedFunctionHeader,
)
    ensures
        capture_layout_check(layout, domains, header).is_ok() <==> {
            let bindings = layout.bindings@;
            &&& bindings.len() == header.variable_reference_count
            &&& forall|i: int| 0 <= i < bindings.len() ==> in_frame(#[trigger] bindings[i], domains)
            &&& forall|i: int, j: int|
                0 <= i < j < bindings.len() ==> !same_slot(
                    #[trigger] bindings[i],
                    #[trigger] bindings[j],
                )
            &&& match layout.mapped_arguments {
                Some(mapped) => {
                    &&& forall|i: int|
                        0 <= i < mapped@.len() ==> #[trigger] mapped@[i] < domains.argument_count
                    &&& forall|i: int, j: int|
                        0 <= i && j == i + 1 && j < mapped@.len() ==> #[trigger] mapped@[i]
                            < #[trigger] mapped@[j]
                },
                None => true,
            }
        },
        constant_layout_check(constants, domains).is_ok() <==> constants.kinds@.len()
            == domains.constant_pool_len,
{
    let bindings = layout.bindings@;
    let bounds = binding_bounds_checks(bindings, domains);
    let distinct = distinct_slot_checks(bindings);
    if first_failure(bounds).is_ok() {
        lemma_success_means_all(bounds);
        assert forall|i: int| 0 <= i < bindings.len() implies in_frame(
            #[trigger] bindings[i],
            domains,
        ) by {
            assert(bounds[i].is_ok());
        }
    }
    if forall|i: int| 0 <= i < bindings.len() ==> in_frame(#[trigger] bindings[i], domains) {
        assert forall|i: int| 0 <= i < bounds.len() implies (#[trigger] bounds[i]).is_ok() by {
            assert(in_frame(bindings[i], domains));
        }
        lemma_no_failure(bounds);
    }
    if first_failure(distinct).is_ok() {
        lemma_success_means_all(distinct);
        assert forall|i: int, j: int| 0 <= i < j < bindings.len() implies !same_slot(
            #[trigger] bindings[i],
            #[trigger] bindings[j],
        ) by {
            assert(distinct[j].is_ok());
            assert(bindings[i].spec_identity() != bindings[j].spec_identity());
        }
    }
    if forall|i: int, j: int|
        0 <= i < j < bindings.len() ==> !same_slot(#[trigger] bindings[i], #[trigger] bindings[j]) {
        assert forall|j: int| 0 <= j < distinct.len() implies (#[trigger] distinct[j]).is_ok() by {
            assert forall|i: int| 0 <= i < j implies (#[trigger] bindings[i]).spec_identity()
                != bindings[j].spec_identity() by {
                assert(!same_slot(bindings[i], bindings[j]));
            }
        }
        lemma_no_failure(distinct);
    }
    if let Some(indices) = layout.mapped_arguments {
        let mapped = indices@;
        let checks = mapped_argument_checks(mapped, domains);
        if first_failure(checks).is_ok() {
            lemma_success_means_all(checks);
            assert forall|i: int| 0 <= i < mapped.len() implies #[trigger] mapped[i]
                < domains.argument_count by {
                assert(checks[i].is_ok());
            }
            assert forall|i: int, j: int|
                0 <= i && j == i + 1 && j < mapped.len() implies #[trigger] mapped[i]
                < #[trigger] mapped[j] by {
                assert(checks[j].is_ok());
            }
        }
        if (forall|i: int| 0 <= i < mapped.len() ==> #[trigger] mapped[i] < domains.argument_count)
            && (forall|i: int, j: int|
            0 <= i && j == i + 1 && j < mapped.len() ==> #[trigger] mapped[i]
                < #[trigger] mapped[j]) {
            assert forall|j: int| 0 <= j < checks.len() implies (#[trigger] checks[j]).is_ok() by {
                if j > 0 {
                    assert(mapped[j - 1] < mapped[j]);
                }
            }
            lemma_no_failure(checks);
        }
    }
}

/// A direct eval that names a scope, by its number less two, needs a local with a
/// scope there. Scope numbers below two name none, and other instructions need
/// nothing.
pub proof fn lemma_evals_name_scoped_locals(
    id: FunctionTemplateId,
    decoded: DecodedInstruction,
    locals: Seq<VariableDefinition>,
)
    ensures
        ({
            let accepted = eval_scope_check(id, decoded, locals).is_ok();
            let names = |scope: u16|
                accepted <==> scope >= 2 ==> (scope - 2 < locals.len() && locals[scope
                    - 2].has_scope);
            match decoded.instruction.operands {
                Operands::NPopU16 { scope_index, .. } => if decoded.instruction.opcode
                    == FinalOpcode::Eval {
                    names(scope_index)
                } else {
                    accepted
                },
                Operands::U16(scope_index) => if decoded.instruction.opcode
                    == FinalOpcode::ApplyEval {
                    names(scope_index)
                } else {
                    accepted
                },
                _ => accepted,
            }
        }),
{
}

/// Whether definition `at` lies where the layout captures its cell from.
pub open spec fn captured_from(
    context: VariableContext,
    variables: Seq<VariableDefinition>,
    bindings: Seq<CompilerCapturedBinding>,
    at: int,
) -> bool {
    match variables[at].variable_reference {
        Some(cell) => cell < bindings.len() && bindings[cell as int] == if at < context.arguments {
            CompilerCapturedBinding::Argument(at as u32)
        } else if variables[at].has_scope {
            CompilerCapturedBinding::ScopedLocal((at - context.arguments) as u32)
        } else {
            CompilerCapturedBinding::FunctionLocal((at - context.arguments) as u32)
        },
        None => true,
    }
}

proof fn lemma_initialized_from(
    variables: Seq<VariableDefinition>,
    constant: u32,
    from: int,
    end: int,
)
    requires
        0 <= from <= end <= variables.len(),
    ensures
        match initialized_from(variables, constant, from, end) {
            Some(at) => from <= at < end && variables[at].function_initializer == Some(constant)
                && forall|i: int|
                from <= i < at ==> (#[trigger] variables[i]).function_initializer != Some(constant),
            None => forall|i: int|
                from <= i < end ==> (#[trigger] variables[i]).function_initializer != Some(
                    constant,
                ),
        },
    decreases end - from,
{
    if from < end && variables[from].function_initializer != Some(constant) {
        lemma_initialized_from(variables, constant, from + 1, end);
    }
}

proof fn lemma_reuse(
    id: FunctionTemplateId,
    variables: Seq<VariableDefinition>,
    constant: int,
    count: int,
)
    requires
        0 <= constant <= count <= 0x1_0000_0000,
    ensures
        reuse_check_from(id, variables, constant, count).is_ok() <==> forall|i: int, j: int|
            0 <= i < j < variables.len() ==> !#[trigger] initialized_alike(
                variables,
                i,
                j,
                constant,
                count,
            ),
    decreases count - constant,
{
    if constant < count {
        let end = variables.len() as int;
        lemma_reuse(id, variables, constant + 1, count);
        lemma_initialized_from(variables, constant as u32, 0, end);
        let first = initialized_from(variables, constant as u32, 0, end);
        if first.is_some() {
            lemma_initialized_from(variables, constant as u32, first.unwrap() + 1, end);
        }
        match initialized_twice(variables, constant as u32, end) {
            Some((i, j)) => {
                assert(initialized_alike(variables, i, j, constant, count));
            },
            None => {
                assert forall|i: int, j: int| 0 <= i < j < end implies initialized_alike(
                    variables,
                    i,
                    j,
                    constant,
                    count,
                ) == #[trigger] initialized_alike(variables, i, j, constant + 1, count) by {
                    if variables[i].function_initializer == Some(constant as u32)
                        && variables[j].function_initializer == Some(constant as u32) {
                        assert(first.is_some());
                        assert(first.unwrap() <= i);
                    }
                }
                assert forall|i: int, j: int| 0 <= i < j < end implies #[trigger]
                initialized_alike(variables, i, j, constant, count) == initialized_alike(
                    variables,
                    i,
                    j,
                    constant + 1,
                    count,
                ) by {
                    let again = initialized_alike(variables, i, j, constant + 1, count);
                }
            },
        }
    }
}

/// Whether one constant of a range initializes both definitions.
pub open spec fn initialized_alike(
    variables: Seq<VariableDefinition>,
    i: int,
    j: int,
    from: int,
    end: int,
) -> bool {
    match variables[i].function_initializer {
        Some(constant) => from <= constant < end && variables[j].function_initializer == Some(
            constant,
        ),
        None => false,
    }
}

proof fn lemma_owned(variables: Seq<VariableDefinition>, count: int)
    requires
        0 <= count <= u32::MAX,
    ensures
        owned_cells(variables, count) <= count,
        owned_cells(variables, count) == count <==> forall|cell: u32|
            cell < count ==> #[trigger] owns_cell(variables, variables.len() as int, cell),
    decreases count,
{
    if count > 0 {
        lemma_owned(variables, count - 1);
        let last = (count - 1) as u32;
        if forall|cell: u32|
            cell < count - 1 ==> #[trigger] owns_cell(variables, variables.len() as int, cell) {
            if owns_cell(variables, variables.len() as int, last) {
                assert forall|cell: u32| cell < count implies #[trigger] owns_cell(
                    variables,
                    variables.len() as int,
                    cell,
                ) by {
                    if cell >= count - 1 {
                        assert(cell == last);
                    }
                }
            }
        }
    }
}

/// The definitions of a function are accepted exactly if each of them is, no
/// function initializes two of them, the scope chains of the locals end, each
/// declared cell belongs to one of them, and the capture layout takes each cell
/// from the definition it belongs to.
pub proof fn lemma_definitions_are_accepted_together(
    context: VariableContext,
    variables: Seq<VariableDefinition>,
    layout: Option<CompilerCaptureLayout>,
)
    requires
        variables.len() <= u32::MAX,
    ensures
        variables_check(context, variables, layout).is_ok() <==> {
            &&& forall|i: int|
                0 <= i < variables.len() ==> (#[trigger] variable_check(
                    context,
                    variables,
                    i,
                )).is_ok()
            &&& forall|i: int, j: int|
                0 <= i < j < variables.len() && (
                #[trigger] variables[i]).function_initializer.is_some() ==> (
                #[trigger] variables[j]).function_initializer != variables[i].function_initializer
            &&& scope_walks_from(
                context.id,
                variables.skip(context.arguments as int),
                0,
            ).is_ok()
            &&& forall|cell: u32|
                cell < context.references ==> #[trigger] owns_cell(
                    variables,
                    variables.len() as int,
                    cell,
                )
            &&& match layout {
                Some(layout) => forall|i: int|
                    0 <= i < variables.len() ==> #[trigger] captured_from(
                        context,
                        variables,
                        layout.bindings@,
                        i,
                    ),
                None => false,
            }
        },
{
    let checks = variable_checks(context, variables);
    let end = variables.len() as int;
    if first_failure(checks).is_ok() {
        lemma_success_means_all(checks);
        assert forall|i: int| 0 <= i < end implies (#[trigger] variable_check(
            context,
            variables,
            i,
        )).is_ok() by {
            assert(checks[i].is_ok());
        }
    }
    if forall|i: int|
        0 <= i < end ==> (#[trigger] variable_check(context, variables, i)).is_ok() {
        lemma_no_failure(checks);
    }
    lemma_reuse(context.id, variables, 0, 0x1_0000_0000);
    assert forall|i: int, j: int| 0 <= i < j < end implies #[trigger] initialized_alike(
        variables,
        i,
        j,
        0,
        0x1_0000_0000,
    ) == (variables[i].function_initializer.is_some() && variables[j].function_initializer
        == variables[i].function_initializer) by {}
    let unlike = forall|i: int, j: int|
        0 <= i < j < end && (#[trigger] variables[i]).function_initializer.is_some() ==> (
        #[trigger] variables[j]).function_initializer != variables[i].function_initializer;
    if reuse_check_from(context.id, variables, 0, 0x1_0000_0000).is_ok() {
        assert forall|i: int, j: int|
            0 <= i < j < end && (#[trigger] variables[i]).function_initializer.is_some() implies (
        #[trigger] variables[j]).function_initializer != variables[i].function_initializer by {
            assert(!initialized_alike(variables, i, j, 0, 0x1_0000_0000));
        }
    }
    assert(unlike == reuse_check_from(context.id, variables, 0, 0x1_0000_0000).is_ok());
    lemma_owned(variables, context.references as int);
    if let Some(layout) = layout {
        let entries = Seq::new(
            variables.len(),
            |i: int| capture_entry_check(context, variables, layout, i),
        );
        assert forall|i: int| 0 <= i < end implies (#[trigger] entries[i]).is_ok()
            == captured_from(context, variables, layout.bindings@, i) by {}
        if first_failure(entries).is_ok() {
            lemma_success_means_all(entries);
            assert forall|i: int| 0 <= i < end implies #[trigger] captured_from(
                context,
                variables,
                layout.bindings@,
                i,
            ) by {
                assert(entries[i].is_ok());
            }
        }
        if forall|i: int|
            0 <= i < end ==> #[trigger] captured_from(context, variables, layout.bindings@, i) {
            lemma_no_failure(entries);
        }
    }
}

} // verus!
