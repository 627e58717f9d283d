//! Function-environment capabilities that arrows inherit.
use crate::bytecode::error::{
    BytecodeVerificationError, BytecodeVerificationErrorKind, function_error,
};
use crate::bytecode::model::{
    BytecodeGraphResource, ClosureVariableDefinition, CompilerBindingKind, CompilerExecutableKind,
    VariableDefinition, FunctionRecord, VerifiedFunctionMetadata, records_of,
};
use crate::bytecode::ownership::{function_id, ownership_error, spec_function_id};
use crate::bytecode::stack_error::{reservation_failure, try_filled_vec};
use crate::checks::{
    first_failure, lemma_first_failure_at, lemma_no_failure, lemma_success_means_all,
};
use crate::control_flow::model::VerifiedInstruction;
use crate::function_graph::{
    FunctionTemplateId, VerifiedCompilerFunction, VerifiedCompilerFunctionGraph,
};
use crate::instruction::{DecodedInstruction, Operands};
use crate::opcode::FinalOpcode;
use vstd::prelude::*;

verus! {

/// The nearest ancestor that is no arrow, within `steps` steps. A path of as
/// many steps as there are functions that meets arrows only goes round in a
/// circle and has no such ancestor.
pub open(crate) spec fn arrow_boundary(
    metadata: Seq<FunctionRecord>,
    parents: Seq<Option<FunctionTemplateId>>,
    at: int,
    steps: nat,
) -> Option<(FunctionTemplateId, CompilerExecutableKind)>
    decreases steps,
{
    if steps == 0 || at >= parents.len() {
        None
    } else {
        match parents[at] {
            Some(parent) => if parent.0 >= metadata.len() {
                None
            } else {
                let kind = metadata[parent.0 as int].executable_kind;
                if kind == CompilerExecutableKind::OrdinaryArrow {
                    arrow_boundary(metadata, parents, parent.0 as int, (steps - 1) as nat)
                } else {
                    Some((parent, kind))
                }
            },
            None => None,
        }
    }
}

/// The nearest ancestor of a function that is no arrow.
pub open(crate) spec fn boundary_of(
    metadata: Seq<FunctionRecord>,
    parents: Seq<Option<FunctionTemplateId>>,
    at: int,
) -> Option<(FunctionTemplateId, CompilerExecutableKind)> {
    arrow_boundary(metadata, parents, at, parents.len())
}

/// Whether an instruction needs the home object. In a static field arrow the
/// class receiver stands for it in super property accesses.
pub open spec fn uses_home_object(decoded: DecodedInstruction, static_field_super: bool) -> bool {
    let opcode = decoded.instruction.opcode;
    (opcode == FinalOpcode::SpecialObject && decoded.instruction.operands == Operands::U8(5)) || (
    !static_field_super && (opcode == FinalOpcode::GetSuper || opcode == FinalOpcode::GetSuperValue
        || opcode == FinalOpcode::PutSuperValue))
}

/// Whether an instruction calls the superclass constructor.
pub open spec fn calls_super(decoded: DecodedInstruction) -> bool {
    decoded.instruction.opcode == FinalOpcode::SpecialObject && decoded.instruction.operands
        == Operands::U8(4)
}

/// The first instruction from `from` on that needs the home object.
pub open(crate) spec fn first_home_object_use(
    instructions: Seq<VerifiedInstruction>,
    static_field_super: bool,
    from: int,
) -> Option<DecodedInstruction>
    decreases instructions.len() - from,
{
    if from >= instructions.len() {
        None
    } else if uses_home_object(instructions[from].decoded, static_field_super) {
        Some(instructions[from].decoded)
    } else {
        first_home_object_use(instructions, static_field_super, from + 1)
    }
}

/// The first instruction from `from` on that calls the superclass constructor.
pub open(crate) spec fn first_super_call(
    instructions: Seq<VerifiedInstruction>,
    from: int,
) -> Option<DecodedInstruction>
    decreases instructions.len() - from,
{
    if from >= instructions.len() {
        None
    } else if calls_super(instructions[from].decoded) {
        Some(instructions[from].decoded)
    } else {
        first_super_call(instructions, from + 1)
    }
}

/// Whether a variable or closure variable holds the receiver of static fields.
pub open(crate) spec fn has_receiver_cell(record: FunctionRecord) -> bool {
    (exists|i: int|
        0 <= i < record.variables.len() && (#[trigger] record.variables[i]).policy.kind
            == CompilerBindingKind::ClassStaticReceiver) || (exists|i: int|
        0 <= i < record.closures.len() && (#[trigger] record.closures[i]).spec_policy().kind
            == CompilerBindingKind::ClassStaticReceiver)
}

/// Whether a boundary lends its derived `this` to the arrows below it: a derived
/// class constructor does.
pub open(crate) spec fn lends_derived_this(
    functions: Seq<VerifiedCompilerFunction>,
    boundary: Option<(FunctionTemplateId, CompilerExecutableKind)>,
) -> bool {
    match boundary {
        Some((id, kind)) => id.0 < functions.len() && ({
            let flags = functions[id.0 as int].control_flow.function_header.flags;
            kind == CompilerExecutableKind::ClassConstructor
                && flags.spec_is_derived_class_constructor()
        }),
        None => false,
    }
}

/// Whether a boundary permits the arrows below it to call the superclass
/// constructor: it lends its derived `this`, or is a direct eval that may make
/// the call itself.
pub open(crate) spec fn permits_super_call(
    functions: Seq<VerifiedCompilerFunction>,
    boundary: Option<(FunctionTemplateId, CompilerExecutableKind)>,
) -> bool {
    lends_derived_this(functions, boundary) || match boundary {
        Some((id, kind)) => kind == CompilerExecutableKind::DirectEvalScript && id.0
            < functions.len() && functions[id.0
            as int].control_flow.function_header.flags.spec_super_call_allowed(),
        None => false,
    }
}

/// Whether a boundary lends its home object to the arrows below it: a method or
/// constructor, or a direct eval that may use super properties.
pub open(crate) spec fn lends_home_object(
    functions: Seq<VerifiedCompilerFunction>,
    boundary: Option<(FunctionTemplateId, CompilerExecutableKind)>,
) -> bool {
    match boundary {
        Some((id, kind)) => match kind {
            CompilerExecutableKind::OrdinaryMethod
            | CompilerExecutableKind::ClassInstanceInitializer
            | CompilerExecutableKind::GeneratorMethod
            | CompilerExecutableKind::AsyncMethod
            | CompilerExecutableKind::AsyncGeneratorMethod
            | CompilerExecutableKind::ClassConstructor => true,
            CompilerExecutableKind::DirectEvalScript => id.0 < functions.len() && functions[id.0
                as int].control_flow.function_header.flags.spec_super_allowed(),
            _ => false,
        },
        None => false,
    }
}

/// An instruction uses what its function was not lent.
pub open spec fn unlent_error(
    id: FunctionTemplateId,
    decoded: DecodedInstruction,
) -> BytecodeVerificationError {
    function_error(
        id,
        BytecodeVerificationErrorKind::UnsupportedCompilerOpcode {
            pc: decoded.pc,
            opcode: decoded.instruction.opcode,
        },
    )
}

fn unlent_use(id: FunctionTemplateId, decoded: DecodedInstruction) -> (error:
    BytecodeVerificationError)
    ensures
        error == unlent_error(id, decoded),
{
    BytecodeVerificationError::function(
        id,
        BytecodeVerificationErrorKind::UnsupportedCompilerOpcode {
            pc: decoded.pc,
            opcode: decoded.instruction.opcode,
        },
    )
}

/// The check of one arrow: it calls the superclass constructor and uses super
/// properties only where its boundary lends it what these need.
pub open(crate) spec fn arrow_check(
    functions: Seq<VerifiedCompilerFunction>,
    metadata: Seq<FunctionRecord>,
    parents: Seq<Option<FunctionTemplateId>>,
    at: int,
) -> Result<(), BytecodeVerificationError> {
    let id = FunctionTemplateId(at as u32);
    let boundary = boundary_of(metadata, parents, at);
    let instructions = functions[at].control_flow.instructions@;
    let super_call = first_super_call(instructions, 0);
    let home_object = first_home_object_use(instructions, has_receiver_cell(metadata[at]), 0);
    if spec_function_id(at).is_err() {
        Err(spec_function_id(at)->Err_0)
    } else if at >= functions.len() {
        Err(ownership_error(id, 0))
    } else if super_call.is_some() && !permits_super_call(functions, boundary) {
        Err(unlent_error(id, super_call.unwrap()))
    } else if home_object.is_some() && !lends_home_object(functions, boundary) {
        Err(unlent_error(id, home_object.unwrap()))
    } else {
        Ok(())
    }
}

/// The checks of all functions; only arrows are in question.
pub open(crate) spec fn arrow_checks(
    functions: Seq<VerifiedCompilerFunction>,
    metadata: Seq<FunctionRecord>,
    parents: Seq<Option<FunctionTemplateId>>,
) -> Seq<Result<(), BytecodeVerificationError>> {
    Seq::new(
        metadata.len(),
        |i: int|
            if metadata[i].executable_kind == CompilerExecutableKind::OrdinaryArrow {
                arrow_check(functions, metadata, parents, i)
            } else {
                Ok(())
            },
    )
}

/// Which functions are arrows that share a derived `this`.
pub open(crate) spec fn derived_this_flags(
    functions: Seq<VerifiedCompilerFunction>,
    metadata: Seq<FunctionRecord>,
    parents: Seq<Option<FunctionTemplateId>>,
) -> Seq<bool> {
    Seq::new(
        metadata.len(),
        |i: int|
            metadata[i].executable_kind == CompilerExecutableKind::OrdinaryArrow
                && lends_derived_this(functions, boundary_of(metadata, parents, i)),
    )
}

/// The ancestor that `steps` steps through arrows lead to.
spec fn climbed(
    metadata: Seq<FunctionRecord>,
    parents: Seq<Option<FunctionTemplateId>>,
    at: int,
    steps: nat,
) -> Option<int>
    decreases steps,
{
    if steps == 0 {
        Some(at)
    } else {
        match climbed(metadata, parents, at, (steps - 1) as nat) {
            Some(below) => next_arrow(metadata, parents, below),
            None => None,
        }
    }
}

/// The parent of a function, where it is an arrow.
spec fn next_arrow(
    metadata: Seq<FunctionRecord>,
    parents: Seq<Option<FunctionTemplateId>>,
    at: int,
) -> Option<int> {
    if 0 <= at < parents.len() {
        match parents[at] {
            Some(parent) => if parent.0 < metadata.len() && metadata[parent.0
                as int].executable_kind == CompilerExecutableKind::OrdinaryArrow {
                Some(parent.0 as int)
            } else {
                None
            },
            None => None,
        }
    } else {
        None
    }
}

/// A boundary is found at the end of a climb through arrows.
proof fn lemma_climb_to_boundary(
    metadata: Seq<FunctionRecord>,
    parents: Seq<Option<FunctionTemplateId>>,
    start: int,
    climbed_steps: nat,
    at: int,
    steps: nat,
) -> (last: nat)
    requires
        0 <= at,
        climbed(metadata, parents, start, climbed_steps) == Some(at),
        arrow_boundary(metadata, parents, at, steps).is_some(),
    ensures
        climbed_steps <= last < climbed_steps + steps,
        climbed(metadata, parents, start, last).is_some(),
        0 <= climbed(metadata, parents, start, last).unwrap() < parents.len(),
        climbed(metadata, parents, start, last + 1).is_none(),
        forall|more: nat|
            last < climbed_steps + more ==> #[trigger] arrow_boundary(
                metadata,
                parents,
                at,
                more,
            ) == arrow_boundary(metadata, parents, at, steps),
    decreases steps,
{
    let parent = parents[at].unwrap();
    if metadata[parent.0 as int].executable_kind == CompilerExecutableKind::OrdinaryArrow {
        let last = lemma_climb_to_boundary(
            metadata,
            parents,
            start,
            climbed_steps + 1,
            parent.0 as int,
            (steps - 1) as nat,
        );
        assert forall|more: nat| last < climbed_steps + more implies #[trigger] arrow_boundary(
            metadata,
            parents,
            at,
            more,
        ) == arrow_boundary(metadata, parents, at, steps) by {
            let fewer = (more - 1) as nat;
            assert(arrow_boundary(metadata, parents, parent.0 as int, fewer) == arrow_boundary(
                metadata,
                parents,
                parent.0 as int,
                (steps - 1) as nat,
            ));
        }
        last
    } else {
        assert(next_arrow(metadata, parents, at).is_none());
        climbed_steps
    }
}

/// Climbs that meet go on alike.
proof fn lemma_climbs_meet(
    metadata: Seq<FunctionRecord>,
    parents: Seq<Option<FunctionTemplateId>>,
    at: int,
    left: nat,
    right: nat,
    more: nat,
)
    requires
        climbed(metadata, parents, at, left) == climbed(metadata, parents, at, right),
    ensures
        climbed(metadata, parents, at, left + more) == climbed(
            metadata,
            parents,
            at,
            right + more,
        ),
    decreases more,
{
    if more > 0 {
        lemma_climbs_meet(metadata, parents, at, left, right, (more - 1) as nat);
    }
}

proof fn lemma_climb_began(
    metadata: Seq<FunctionRecord>,
    parents: Seq<Option<FunctionTemplateId>>,
    at: int,
    steps: nat,
    end: nat,
)
    requires
        steps <= end,
        climbed(metadata, parents, at, end).is_some(),
    ensures
        climbed(metadata, parents, at, steps).is_some(),
        steps < end ==> 0 <= climbed(metadata, parents, at, steps).unwrap() < parents.len(),
    decreases end - steps,
{
    if steps < end {
        lemma_climb_began(metadata, parents, at, steps + 1, end);
    }
}

/// A boundary that any number of steps finds is found within as many steps as
/// there are functions: arrows that are nested without end have none.
pub proof fn lemma_boundaries_are_near(
    metadata: Seq<FunctionRecord>,
    parents: Seq<Option<FunctionTemplateId>>,
    at: int,
    steps: nat,
)
    requires
        0 <= at,
        arrow_boundary(metadata, parents, at, steps).is_some(),
    ensures
        boundary_of(metadata, parents, at) == arrow_boundary(metadata, parents, at, steps),
{
    assert(climbed(metadata, parents, at, 0) == Some(at));
    let last = lemma_climb_to_boundary(metadata, parents, at, 0, at, steps);
    let path = Seq::new(
        last + 1,
        |k: int| climbed(metadata, parents, at, k as nat).unwrap(),
    );
    assert forall|j: int, k: int| 0 <= j < k <= last implies path[j] != path[k] by {
        lemma_climb_began(metadata, parents, at, j as nat, last);
        lemma_climb_began(metadata, parents, at, k as nat, last);
        if path[j] == path[k] {
            let more = (last - k) as nat;
            lemma_climbs_meet(metadata, parents, at, j as nat, k as nat, more + 1);
            lemma_climb_began(metadata, parents, at, (j + more + 1) as nat, last);
        }
    }
    assert(path.no_duplicates());
    assert forall|k: int| 0 <= k < path.len() implies 0 <= #[trigger] path[k] < parents.len() by {
        lemma_climb_began(metadata, parents, at, k as nat, last);
    }
    path.unique_seq_to_set();
    vstd::set_lib::lemma_int_range(0, parents.len() as int);
    assert(path.to_set().subset_of(vstd::set_lib::set_int_range(0, parents.len() as int)));
    vstd::set_lib::lemma_len_subset(
        path.to_set(),
        vstd::set_lib::set_int_range(0, parents.len() as int),
    );
    assert(last < parents.len());
}

proof fn lemma_home_object_use_is_found(
    instructions: Seq<VerifiedInstruction>,
    static_field_super: bool,
    from: int,
    at: int,
)
    requires
        0 <= from <= at < instructions.len(),
        uses_home_object(instructions[at].decoded, static_field_super),
    ensures
        first_home_object_use(instructions, static_field_super, from).is_some(),
    decreases at - from,
{
    if from < at {
        lemma_home_object_use_is_found(instructions, static_field_super, from + 1, at);
    }
}

proof fn lemma_super_call_is_found(
    instructions: Seq<VerifiedInstruction>,
    from: int,
    at: int,
)
    requires
        0 <= from <= at < instructions.len(),
        calls_super(instructions[at].decoded),
    ensures
        first_super_call(instructions, from).is_some(),
    decreases at - from,
{
    if from < at {
        lemma_super_call_is_found(instructions, from + 1, at);
    }
}

/// An accepted arrow that needs a home object has a method, a constructor or a
/// direct eval with super properties as its nearest ancestor that is no arrow,
/// and one that calls the superclass constructor a derived constructor or a
/// direct eval that may make the call.
pub proof fn lemma_arrows_use_what_they_are_lent(
    functions: Seq<VerifiedCompilerFunction>,
    metadata: Seq<FunctionRecord>,
    parents: Seq<Option<FunctionTemplateId>>,
    arrow: int,
    at: int,
)
    requires
        first_failure(arrow_checks(functions, metadata, parents)).is_ok(),
        0 <= arrow < metadata.len(),
        metadata[arrow].executable_kind == CompilerExecutableKind::OrdinaryArrow,
        0 <= at < functions[arrow].control_flow.spec_instructions().len(),
    ensures
        ({
            let decoded = functions[arrow].control_flow.spec_instructions()[at].spec_decoded();
            let boundary = boundary_of(metadata, parents, arrow);
            &&& uses_home_object(decoded, has_receiver_cell(metadata[arrow]))
                ==> lends_home_object(functions, boundary)
            &&& calls_super(decoded) ==> permits_super_call(functions, boundary)
        }),
{
    let checks = arrow_checks(functions, metadata, parents);
    lemma_success_means_all(checks);
    assert(checks[arrow].is_ok());
    let instructions = functions[arrow].control_flow.instructions@;
    let decoded = instructions[at].decoded;
    if uses_home_object(decoded, has_receiver_cell(metadata[arrow])) {
        lemma_home_object_use_is_found(instructions, has_receiver_cell(metadata[arrow]), 0, at);
    }
    if calls_super(decoded) {
        lemma_super_call_is_found(instructions, 0, at);
    }
}

fn lexical_arrow_boundary(
    id: FunctionTemplateId,
    metadata: &[VerifiedFunctionMetadata],
    parents: &[Option<FunctionTemplateId>],
) -> (boundary: Option<(FunctionTemplateId, CompilerExecutableKind)>)
    ensures
        boundary == boundary_of(records_of(metadata@), parents@, id.0 as int),
{
    let mut ancestor: usize = id.0 as usize;
    let mut steps: usize = parents.len();
    while steps > 0
        invariant
            steps <= parents@.len(),
            boundary_of(records_of(metadata@), parents@, id.0 as int) == arrow_boundary(
                records_of(metadata@),
                parents@,
                ancestor as int,
                steps as nat,
            ),
        decreases steps,
    {
        if ancestor >= parents.len() {
            return None;
        }
        match parents[ancestor] {
            Some(parent) => {
                let position: usize = parent.0 as usize;
                if position >= metadata.len() {
                    return None;
                }
                let kind = metadata[position].executable_kind;
                if !matches!(kind, CompilerExecutableKind::OrdinaryArrow) {
                    return Some((parent, kind));
                }
                ancestor = position;
            },
            None => {
                return None;
            },
        }
        steps = steps - 1;
    }
    None
}

fn lexical_arrow_uses(
    instructions: &[VerifiedInstruction],
    static_field_super: bool,
) -> (uses: (Option<DecodedInstruction>, Option<DecodedInstruction>))
    ensures
        uses.0 == first_home_object_use(instructions@, static_field_super, 0),
        uses.1 == first_super_call(instructions@, 0),
{
    let mut home_object: Option<DecodedInstruction> = None;
    let mut super_call: Option<DecodedInstruction> = None;
    let mut at: usize = 0;
    while at < instructions.len()
        invariant
            at <= instructions@.len(),
            first_home_object_use(instructions@, static_field_super, 0) == if home_object.is_some() {
                home_object
            } else {
                first_home_object_use(instructions@, static_field_super, at as int)
            },
            first_super_call(instructions@, 0) == if super_call.is_some() {
                super_call
            } else {
                first_super_call(instructions@, at as int)
            },
        decreases instructions@.len() - at,
    {
        let decoded = instructions[at].decoded;
        let instruction = decoded.instruction;
        let special: Option<u8> = match (instruction.opcode, instruction.operands) {
            (FinalOpcode::SpecialObject, Operands::U8(kind)) => Some(kind),
            _ => None,
        };
        let super_property: bool = !static_field_super && matches!(
            instruction.opcode,
            FinalOpcode::GetSuper | FinalOpcode::GetSuperValue | FinalOpcode::PutSuperValue
        );
        if home_object.is_none() && (special == Some(5u8) || super_property) {
            home_object = Some(decoded);
        }
        if super_call.is_none() && special == Some(4u8) {
            super_call = Some(decoded);
        }
        at = at + 1;
    }
    (home_object, super_call)
}

fn has_variable_receiver(variables: &[VariableDefinition]) -> (found: bool)
    ensures
        found == exists|i: int|
            0 <= i < variables@.len() && (#[trigger] variables@[i]).policy.kind
                == CompilerBindingKind::ClassStaticReceiver,
{
    let mut at: usize = 0;
    while at < variables.len()
        invariant
            at <= variables@.len(),
            forall|i: int|
                0 <= i < at ==> (#[trigger] variables@[i]).policy.kind
                    != CompilerBindingKind::ClassStaticReceiver,
        decreases variables@.len() - at,
    {
        if matches!(variables[at].policy.kind, CompilerBindingKind::ClassStaticReceiver) {
            assert(variables@[at as int].policy.kind == CompilerBindingKind::ClassStaticReceiver);
            return true;
        }
        at = at + 1;
    }
    false
}

fn has_closure_receiver(closures: &[ClosureVariableDefinition]) -> (found: bool)
    ensures
        found == exists|i: int|
            0 <= i < closures@.len() && (#[trigger] closures@[i]).spec_policy().kind
                == CompilerBindingKind::ClassStaticReceiver,
{
    let mut at: usize = 0;
    while at < closures.len()
        invariant
            at <= closures@.len(),
            forall|i: int|
                0 <= i < at ==> (#[trigger] closures@[i]).spec_policy().kind
                    != CompilerBindingKind::ClassStaticReceiver,
        decreases closures@.len() - at,
    {
        if matches!(closures[at].policy().kind, CompilerBindingKind::ClassStaticReceiver) {
            assert(closures@[at as int].spec_policy().kind
                == CompilerBindingKind::ClassStaticReceiver);
            return true;
        }
        at = at + 1;
    }
    false
}

fn boundary_lends(
    graph: &VerifiedCompilerFunctionGraph,
    boundary: Option<(FunctionTemplateId, CompilerExecutableKind)>,
) -> (lends: (bool, bool, bool))
    ensures
        lends.0 == lends_derived_this(graph.functions@, boundary),
        lends.1 == permits_super_call(graph.functions@, boundary),
        lends.2 == lends_home_object(graph.functions@, boundary),
{
    let (id, kind) = match boundary {
        Some(boundary) => boundary,
        None => {
            return (false, false, false);
        },
    };
    let (derived, super_call, super_property): (bool, bool, bool) = match graph.function(id) {
        Some(function) => {
            let flags = function.control_flow().function_header().flags();
            (
                flags.is_derived_class_constructor(),
                flags.super_call_allowed(),
                flags.super_allowed(),
            )
        },
        None => (false, false, false),
    };
    let derived_this: bool = matches!(kind, CompilerExecutableKind::ClassConstructor) && derived;
    let super_permitted: bool = derived_this || (matches!(
        kind,
        CompilerExecutableKind::DirectEvalScript
    ) && super_call);
    let home_object: bool = match kind {
        CompilerExecutableKind::OrdinaryMethod
        | CompilerExecutableKind::ClassInstanceInitializer
        | CompilerExecutableKind::GeneratorMethod
        | CompilerExecutableKind::AsyncMethod
        | CompilerExecutableKind::AsyncGeneratorMethod
        | CompilerExecutableKind::ClassConstructor => true,
        CompilerExecutableKind::DirectEvalScript => super_property,
        _ => false,
    };
    (derived_this, super_permitted, home_object)
}

fn verify_arrow(
    graph: &VerifiedCompilerFunctionGraph,
    metadata: &[VerifiedFunctionMetadata],
    parents: &[Option<FunctionTemplateId>],
    at: usize,
) -> (derived_this: Result<bool, BytecodeVerificationError>)
    requires
        at < metadata@.len(),
    ensures
        match derived_this {
            Ok(derived_this) => arrow_check(
                graph.functions@,
                records_of(metadata@),
                parents@,
                at as int,
            ).is_ok() && derived_this == lends_derived_this(
                graph.functions@,
                boundary_of(records_of(metadata@), parents@, at as int),
            ),
            Err(error) => arrow_check(graph.functions@, records_of(metadata@), parents@, at as int) == Err::<
                (),
                BytecodeVerificationError,
            >(error),
        },
{
    let id = function_id(at)?;
    let flow = match graph.function(id) {
        Some(function) => function.control_flow(),
        None => {
            return Err(
                BytecodeVerificationError::function(
                    id,
                    BytecodeVerificationErrorKind::FunctionTemplateOwnershipMismatch {
                        child: id,
                        incoming: 0,
                    },
                ),
            );
        },
    };
    let static_field_super: bool = has_variable_receiver(&metadata[at].variables)
        || has_closure_receiver(&metadata[at].closures);
    let (home_object_use, super_call) = lexical_arrow_uses(flow.instructions(), static_field_super);
    let boundary = lexical_arrow_boundary(id, metadata, parents);
    let (derived_this, super_permitted, home_object) = boundary_lends(graph, boundary);
    if let Some(offending) = super_call {
        if !super_permitted {
            return Err(unlent_use(id, offending));
        }
    }
    if let Some(offending) = home_object_use {
        if !home_object {
            return Err(unlent_use(id, offending));
        }
    }
    Ok(derived_this)
}

/// Checks the function-environment capabilities that arrows inherit, and returns
/// which functions are arrows that share the `this` of a derived constructor.
/// Home objects pass through arrows below methods and constructors; the derived
/// `this` passes through arrows below a derived constructor.
pub fn verify_lexical_arrow_environments(
    graph: &VerifiedCompilerFunctionGraph,
    metadata: &[VerifiedFunctionMetadata],
    parents: &[Option<FunctionTemplateId>],
) -> (flags: Result<Vec<bool>, BytecodeVerificationError>)
    ensures
        match flags {
            Ok(flags) => first_failure(
                arrow_checks(graph.functions@, records_of(metadata@), parents@),
            ).is_ok() && flags@ == derived_this_flags(graph.functions@, records_of(metadata@), parents@),
            Err(error) => first_failure(arrow_checks(graph.functions@, records_of(metadata@), parents@))
                == Err::<(), BytecodeVerificationError>(error) || error == reservation_failure(
                graph.root_id,
                BytecodeGraphResource::VerifiedMetadata,
                metadata@.len() as u64,
            ),
        },
{
    let mut lexical_derived_this = try_filled_vec(
        graph.root_id(),
        metadata.len(),
        false,
        BytecodeGraphResource::VerifiedMetadata,
    )?;
    let ghost checks = arrow_checks(graph.functions@, records_of(metadata@), parents@);
    let ghost flags = derived_this_flags(graph.functions@, records_of(metadata@), parents@);
    let mut at: usize = 0;
    while at < metadata.len()
        invariant
            at <= metadata@.len(),
            checks == arrow_checks(graph.functions@, records_of(metadata@), parents@),
            flags == derived_this_flags(graph.functions@, records_of(metadata@), parents@),
            forall|i: int| 0 <= i < at ==> (#[trigger] checks[i]).is_ok(),
            lexical_derived_this@.len() == metadata@.len(),
            forall|i: int|
                0 <= i < at ==> #[trigger] lexical_derived_this@[i] == flags[i],
            forall|i: int|
                at <= i < metadata@.len() ==> !(#[trigger] lexical_derived_this@[i]),
        decreases metadata@.len() - at,
    {
        if matches!(metadata[at].executable_kind, CompilerExecutableKind::OrdinaryArrow) {
            match verify_arrow(graph, metadata, parents, at) {
                Ok(derived_this) => {
                    lexical_derived_this.set(at, derived_this);
                },
                Err(error) => {
                    proof {
                        lemma_first_failure_at(checks, at as int);
                    }
                    return Err(error);
                },
            }
        }
        assert(checks[at as int].is_ok());
        at = at + 1;
    }
    proof {
        lemma_no_failure(checks);
        assert(lexical_derived_this@ =~= flags);
    }
    Ok(lexical_derived_this)
}

} // verus!
