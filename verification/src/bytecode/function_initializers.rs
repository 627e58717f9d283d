//! Placement of function initializers of variables.
use crate::bytecode::error::{
    BindingPolicyViolationReason, BindingSlot, BytecodeVerificationError,
    BytecodeVerificationErrorKind, function_error, policy_error, spec_policy_error,
};
use crate::bytecode::initializer_pairs::{
    InitializerBody, PairTable, body_incoming, claim_site, claimed, count_incoming_edges,
    edges_out, find_pairs, flows_on, pairs_before, position_of, saturated_count,
};
use crate::bytecode::internal_stack::InternalStackCertificate;
use crate::bytecode::internal_verifier::CertificateModel;
use crate::bytecode::model::{
    BytecodeGraphResource, CompilerInitializationPolicy, VariableDefinition,
};
use crate::bytecode::operand_use::{
    local_operand, saturated_u32, spec_local_operand, usize_to_u32,
};
use crate::bytecode::stack_error::{initializer_failure, try_filled_vec};
use crate::control_flow::model::VerifiedInstruction;
use crate::function_graph::{FunctionTemplateId, VerifiedCompilerFunction};
use crate::instruction::BytecodePc;
use crate::opcode::FinalOpcode;
use vstd::prelude::*;

verus! {

/// An initializer stands at the wrong place.
pub open spec fn placement_error(
    id: FunctionTemplateId,
    definition: int,
    pc: BytecodePc,
) -> BytecodeVerificationError {
    function_error(
        id,
        BytecodeVerificationErrorKind::FunctionInitializerPlacementMismatch {
            definition: saturated_u32(definition),
            pc,
        },
    )
}

fn function_initializer_placement_error(
    id: FunctionTemplateId,
    definition: usize,
    pc: BytecodePc,
) -> (error: BytecodeVerificationError)
    ensures
        error == placement_error(id, definition as int, pc),
{
    BytecodeVerificationError::function(
        id,
        BytecodeVerificationErrorKind::FunctionInitializerPlacementMismatch {
            definition: usize_to_u32(definition),
            pc,
        },
    )
}

/// Whether an instruction opens the dead zone of a local.
pub open(crate) spec fn opens_dead_zone(instructions: Seq<VerifiedInstruction>, at: int) -> bool {
    0 <= at < instructions.len() && instructions[at].decoded.instruction.opcode
        == FinalOpcode::SetLocUninitialized
}

fn is_dead_zone_opening(instructions: &[VerifiedInstruction], at: usize) -> (opens: bool)
    ensures
        opens == opens_dead_zone(instructions@, at as int),
{
    at < instructions.len() && matches!(
        instructions[at].decoded.instruction.opcode,
        FinalOpcode::SetLocUninitialized
    )
}

/// End of the run of dead-zone openings from `at` on.
pub open(crate) spec fn openings_end(instructions: Seq<VerifiedInstruction>, at: int) -> int
    decreases instructions.len() - at,
{
    if opens_dead_zone(instructions, at) {
        openings_end(instructions, at + 1)
    } else {
        at
    }
}

/// Whether a definition is initialized on entry of its scope.
pub open spec fn at_scope_entry(definition: VariableDefinition) -> bool {
    definition.policy.initialization == CompilerInitializationPolicy::FunctionAtScopeEntry
}

/// Whether the first pair of a scope-entry definition stands at `at`.
pub open(crate) spec fn scope_pair(body: InitializerBody, at: int) -> bool {
    at + 1 < body.instructions.len() && match claimed(body, at) {
        Some(definition) => at_scope_entry(body.variables[definition]),
        None => false,
    }
}

/// End of the scope-entry pairs from `at` on.
pub open(crate) spec fn scope_pairs_end(body: InitializerBody, at: int) -> int
    decreases body.instructions.len() - at,
{
    if scope_pair(body, at) {
        scope_pairs_end(body, at + 2)
    } else {
        at
    }
}

/// Whether an opening from `from` up to `end` is that of a scope-entry
/// definition.
pub open(crate) spec fn activated(
    body: InitializerBody,
    from: int,
    end: int,
    definition: int,
) -> bool {
    exists|i: int|
        from <= i < end && #[trigger] opened_definition(body, i) == Some(definition)
}

/// Scope-entry definition whose dead zone the instruction opens.
pub open(crate) spec fn opened_definition(body: InitializerBody, at: int) -> Option<int> {
    let instruction = body.instructions[at].decoded.instruction;
    match spec_local_operand(instruction.opcode, instruction.operands) {
        Some(local) => {
            let definition = body.argument_count + local;
            if definition < body.variables.len() && at_scope_entry(body.variables[definition]) {
                Some(definition)
            } else {
                None
            }
        },
        None => None,
    }
}

/// The check that the pairs from `pair` up to `end` initialize definitions that
/// the openings before them activated.
pub open(crate) spec fn activation_check(
    body: InitializerBody,
    start: int,
    openings: int,
    pair: int,
    end: int,
) -> Result<(), BytecodeVerificationError>
    decreases
            if pair < end {
                end - pair
            } else {
                0
            },
{
    if pair >= end {
        Ok(())
    } else {
        let definition = claimed(body, pair).unwrap();
        if !activated(body, start, openings, definition) {
            Err(placement_error(body.id, definition, body.instructions[pair].decoded.pc))
        } else {
            activation_check(body, start, openings, pair + 2, end)
        }
    }
}

/// The check that a group from `at` up to `end` runs straight: nothing else
/// enters it behind its start, and each instruction flows into the next.
pub open(crate) spec fn straight_check(
    body: InitializerBody,
    start: int,
    at: int,
    end: int,
    error: BytecodeVerificationError,
) -> Result<(), BytecodeVerificationError>
    decreases end - at,
{
    if at >= end {
        Ok(())
    } else if (at != start && body_incoming(body, at) != 1) || (at + 1 < end && !flows_on(
        body,
        at,
    )) {
        Err(error)
    } else {
        straight_check(body, start, at + 1, end, error)
    }
}

/// The check of one group of openings and pairs.
pub open(crate) spec fn group_check(
    body: InitializerBody,
    start: int,
    openings: int,
    end: int,
) -> Result<(), BytecodeVerificationError> {
    if activation_check(body, start, openings, openings, end).is_err() {
        activation_check(body, start, openings, openings, end)
    } else {
        straight_check(
            body,
            start,
            start,
            end,
            placement_error(
                body.id,
                claimed(body, openings).unwrap(),
                body.instructions[openings].decoded.pc,
            ),
        )
    }
}

proof fn lemma_openings_end(instructions: Seq<VerifiedInstruction>, at: int)
    requires
        0 <= at,
    ensures
        at <= openings_end(instructions, at),
        at <= instructions.len() ==> openings_end(instructions, at) <= instructions.len(),
        opens_dead_zone(instructions, at) ==> at < openings_end(instructions, at),
    decreases instructions.len() - at,
{
    if opens_dead_zone(instructions, at) {
        lemma_openings_end(instructions, at + 1);
    }
}

proof fn lemma_scope_pairs_end(body: InitializerBody, at: int)
    requires
        0 <= at,
    ensures
        at <= scope_pairs_end(body, at),
        at <= body.instructions.len() ==> scope_pairs_end(body, at) <= body.instructions.len(),
    decreases body.instructions.len() - at,
{
    if scope_pair(body, at) {
        lemma_scope_pairs_end(body, at + 2);
    }
}

/// The checks of all groups from `at` on.
pub open(crate) spec fn groups_check(body: InitializerBody, at: int) -> Result<
    (),
    BytecodeVerificationError,
>
    decreases body.instructions.len() - at via groups_check_decreases
{
    let openings = openings_end(body.instructions, at);
    let end = scope_pairs_end(body, openings);
    if at < 0 || at >= body.instructions.len() {
        Ok(())
    } else if !opens_dead_zone(body.instructions, at) {
        groups_check(body, at + 1)
    } else if end == openings {
        groups_check(body, openings)
    } else if group_check(body, at, openings, end).is_err() {
        group_check(body, at, openings, end)
    } else {
        groups_check(body, end)
    }
}

#[via_fn]
proof fn groups_check_decreases(body: InitializerBody, at: int) {
    if 0 <= at {
        lemma_openings_end(body.instructions, at);
        lemma_scope_pairs_end(body, openings_end(body.instructions, at));
    }
}

/// Whether the scan of groups from `at` on puts `pair` among the pairs of a
/// group.
pub open(crate) spec fn grouped(body: InitializerBody, at: int, pair: int) -> bool
    decreases body.instructions.len() - at via grouped_decreases
{
    let openings = openings_end(body.instructions, at);
    let end = scope_pairs_end(body, openings);
    if at < 0 || at >= body.instructions.len() {
        false
    } else if !opens_dead_zone(body.instructions, at) {
        grouped(body, at + 1, pair)
    } else if end == openings {
        grouped(body, openings, pair)
    } else {
        (openings <= pair < end && (pair - openings) % 2 == 0) || grouped(body, end, pair)
    }
}

#[via_fn]
proof fn grouped_decreases(body: InitializerBody, at: int, pair: int) {
    if 0 <= at {
        lemma_openings_end(body.instructions, at);
        lemma_scope_pairs_end(body, openings_end(body.instructions, at));
    }
}

/// The check that a scope-entry definition is initialized in a group.
pub open(crate) spec fn grouping_check(body: InitializerBody, definition: int) -> Result<
    (),
    BytecodeVerificationError,
> {
    let variable = body.variables[definition];
    if !at_scope_entry(variable) || variable.function_initializer.is_none() {
        Ok(())
    } else {
        match claim_site(body, definition, 0) {
            Some(site) => if grouped(body, 0, site) {
                Ok(())
            } else {
                Err(placement_error(body.id, definition, body.instructions[site].decoded.pc))
            },
            None => Err(placement_error(body.id, definition, BytecodePc(0))),
        }
    }
}

/// The grouping checks of the definitions from `definition` on.
pub open(crate) spec fn groupings_check(body: InitializerBody, definition: int) -> Result<
    (),
    BytecodeVerificationError,
>
    decreases body.variables.len() - definition,
{
    if definition >= body.variables.len() {
        Ok(())
    } else if grouping_check(body, definition).is_err() {
        grouping_check(body, definition)
    } else {
        groupings_check(body, definition + 1)
    }
}

/// The check of all scope-entry initializers.
pub open(crate) spec fn scope_groups_check(body: InitializerBody) -> Result<
    (),
    BytecodeVerificationError,
> {
    if groups_check(body, 0).is_err() {
        groups_check(body, 0)
    } else {
        groupings_check(body, 0)
    }
}

fn find_openings_end(instructions: &[VerifiedInstruction], at: usize) -> (end: usize)
    requires
        at <= instructions@.len(),
    ensures
        end == openings_end(instructions@, at as int),
        at <= end <= instructions@.len(),
{
    let count: usize = instructions.len();
    let mut end: usize = at;
    while is_dead_zone_opening(instructions, end)
        invariant
            at <= end <= instructions@.len(),
            count == instructions@.len(),
            openings_end(instructions@, at as int) == openings_end(instructions@, end as int),
        decreases instructions@.len() - end,
    {
        end = end + 1;
    }
    end
}

fn is_scope_pair(
    instructions: &[VerifiedInstruction],
    variables: &[VariableDefinition],
    table: &PairTable,
    at: usize,
    Ghost(body): Ghost<InitializerBody>,
) -> (found: bool)
    requires
        body.instructions == instructions@,
        body.variables == variables@,
        table.holds(body),
        at <= instructions@.len(),
    ensures
        found == scope_pair(body, at as int),
{
    if at >= instructions.len() || at + 1 >= instructions.len() {
        return false;
    }
    assert(position_of(table.closure_definitions@[at as int]) == claimed(body, at as int));
    match table.closure_definitions[at] {
        Some(definition) => matches!(
            variables[definition].policy.initialization,
            CompilerInitializationPolicy::FunctionAtScopeEntry
        ),
        None => false,
    }
}

fn find_scope_pairs_end(
    instructions: &[VerifiedInstruction],
    variables: &[VariableDefinition],
    table: &PairTable,
    at: usize,
    Ghost(body): Ghost<InitializerBody>,
) -> (end: usize)
    requires
        body.instructions == instructions@,
        body.variables == variables@,
        table.holds(body),
        at <= instructions@.len(),
    ensures
        end == scope_pairs_end(body, at as int),
        at <= end <= instructions@.len(),
        (end - at) % 2 == 0,
        forall|i: int|
            at <= i < end && (i - at) % 2 == 0 ==> #[trigger] scope_pair(body, i),
{
    let count: usize = instructions.len();
    let mut end: usize = at;
    while is_scope_pair(instructions, variables, table, end, Ghost(body))
        invariant
            at <= end <= instructions@.len(),
            count == instructions@.len(),
            (end - at) % 2 == 0,
            body.instructions == instructions@,
            body.variables == variables@,
            table.holds(body),
            scope_pairs_end(body, at as int) == scope_pairs_end(body, end as int),
            forall|i: int|
                at <= i < end && (i - at) % 2 == 0 ==> #[trigger] scope_pair(body, i),
        decreases instructions@.len() - end,
    {
        end = end + 2;
    }
    end
}

/// Marks the definitions that the openings from `start` up to `openings`
/// activate with `epoch`.
fn mark_activations(
    instructions: &[VerifiedInstruction],
    variables: &[VariableDefinition],
    argument_count: u32,
    start: usize,
    openings: usize,
    epochs: &mut Vec<usize>,
    epoch: usize,
    Ghost(body): Ghost<InitializerBody>,
)
    requires
        body.instructions == instructions@,
        body.variables == variables@,
        body.argument_count == argument_count,
        start <= openings <= instructions@.len(),
        old(epochs)@.len() == variables@.len(),
        forall|d: int| 0 <= d < variables@.len() ==> #[trigger] old(epochs)@[d] < epoch,
    ensures
        final(epochs)@.len() == variables@.len(),
        forall|d: int| 0 <= d < variables@.len() ==> #[trigger] final(epochs)@[d] <= epoch,
        forall|d: int|
            0 <= d < variables@.len() ==> (#[trigger] final(epochs)@[d] == epoch) == activated(
                body,
                start as int,
                openings as int,
                d,
            ),
{
    let mut at: usize = start;
    while at < openings
        invariant
            body.instructions == instructions@,
            body.variables == variables@,
            body.argument_count == argument_count,
            start <= at <= openings <= instructions@.len(),
            epochs@.len() == variables@.len(),
            forall|d: int| 0 <= d < variables@.len() ==> #[trigger] epochs@[d] <= epoch,
            forall|d: int|
                0 <= d < variables@.len() ==> (#[trigger] epochs@[d] == epoch) == activated(
                    body,
                    start as int,
                    at as int,
                    d,
                ),
        decreases openings - at,
    {
        let instruction = instructions[at].decoded.instruction;
        let ghost before = epochs@;
        let mut marked: Option<usize> = None;
        if let Some(local) = local_operand(instruction.opcode, instruction.operands) {
            let definition: u64 = argument_count as u64 + local as u64;
            if definition < variables.len() as u64 {
                let position: usize = definition as usize;
                if matches!(
                    variables[position].policy.initialization,
                    CompilerInitializationPolicy::FunctionAtScopeEntry
                ) {
                    epochs.set(position, epoch);
                    marked = Some(position);
                }
            }
        }
        proof {
            assert(position_of(marked) == opened_definition(body, at as int));
            assert forall|d: int| 0 <= d < variables@.len() implies (#[trigger] epochs@[d] == epoch)
                == activated(body, start as int, at + 1, d) by {
                assert((before[d] == epoch) == activated(body, start as int, at as int, d));
                if activated(body, start as int, at as int, d) {
                    let i = choose|i: int|
                        start <= i < at && #[trigger] opened_definition(body, i) == Some(d);
                    assert(opened_definition(body, i) == Some(d));
                }
                if activated(body, start as int, at + 1, d) {
                    let i = choose|i: int|
                        start <= i < at + 1 && #[trigger] opened_definition(body, i) == Some(d);
                    if i < at {
                        assert(activated(body, start as int, at as int, d));
                    }
                }
            }
        }
        at = at + 1;
    }
}

/// Whether a pair among some is the first of a definition.
spec fn claimed_among(body: InitializerBody, pairs: Set<int>, definition: int) -> bool {
    exists|pair: int| #[trigger]
        pairs.contains(pair) && claimed(body, pair) == Some(definition)
}

/// Definitions marked so far are those whose pair stands in a group scanned so
/// far.
spec fn marked_sites(
    body: InitializerBody,
    verified: Seq<bool>,
    scanned: Set<int>,
    at: int,
) -> bool {
    &&& verified.len() == body.variables.len()
    &&& forall|pair: int|
        0 <= pair < body.instructions.len() ==> (#[trigger] grouped(body, 0, pair)) == (
        scanned.contains(pair) || grouped(body, at, pair))
    &&& forall|d: int|
        0 <= d < verified.len() ==> (#[trigger] verified[d]) == claimed_among(body, scanned, d)
    &&& forall|pair: int|
        #[trigger] scanned.contains(pair) ==> 0 <= pair < body.instructions.len()
}

fn verify_group(
    id: FunctionTemplateId,
    instructions: &[VerifiedInstruction],
    counts: &Vec<u32>,
    table: &PairTable,
    internal_stack: &InternalStackCertificate,
    start: usize,
    openings: usize,
    end: usize,
    epochs: &Vec<usize>,
    epoch: usize,
    verified: &mut Vec<bool>,
    Ghost(body): Ghost<InitializerBody>,
    Ghost(scanned): Ghost<Set<int>>,
) -> (checked: Result<Ghost<Set<int>>, BytecodeVerificationError>)
    requires
        body.id == id,
        body.instructions == instructions@,
        body.certificate == internal_stack.model(),
        table.holds(body),
        counts@.len() == instructions@.len(),
        forall|t: int|
            0 <= t < counts@.len() ==> #[trigger] counts@[t] == saturated_count(
                body_incoming(body, t),
            ),
        start < openings < end <= instructions@.len(),
        (end - openings) % 2 == 0,
        forall|i: int|
            openings <= i < end && (i - openings) % 2 == 0 ==> #[trigger] scope_pair(body, i),
        epochs@.len() == body.variables.len(),
        forall|d: int|
            0 <= d < body.variables.len() ==> (#[trigger] epochs@[d] == epoch) == activated(
                body,
                start as int,
                openings as int,
                d,
            ),
        old(verified)@.len() == body.variables.len(),
        forall|d: int|
            0 <= d < old(verified)@.len() ==> (#[trigger] old(verified)@[d]) == claimed_among(body, scanned, d),
    ensures
        match checked {
            Ok(next) => group_check(body, start as int, openings as int, end as int).is_ok()
                && final(verified)@.len() == body.variables.len() && (forall|d: int|
                0 <= d < final(verified)@.len() ==> (#[trigger] final(verified)@[d]) == claimed_among(body, next@, d)) && (forall|
                pair: int,
            | #[trigger]
                next@.contains(pair) == (scanned.contains(pair) || (openings <= pair < end && (pair
                    - openings) % 2 == 0))),
            Err(error) => group_check(body, start as int, openings as int, end as int) == Err::<
                (),
                BytecodeVerificationError,
            >(error),
        },
{
    let ghost mut grown = scanned;
    let mut pair: usize = openings;
    while pair < end
        invariant
            body.id == id,
            body.instructions == instructions@,
            table.holds(body),
            start < openings <= pair <= end <= instructions@.len(),
            (end - openings) % 2 == 0,
            (pair - openings) % 2 == 0,
            forall|i: int|
                openings <= i < end && (i - openings) % 2 == 0 ==> #[trigger] scope_pair(body, i),
            epochs@.len() == body.variables.len(),
            forall|d: int|
                0 <= d < body.variables.len() ==> (#[trigger] epochs@[d] == epoch) == activated(
                    body,
                    start as int,
                    openings as int,
                    d,
                ),
            verified@.len() == body.variables.len(),
            forall|d: int|
                0 <= d < verified@.len() ==> (#[trigger] verified@[d]) == claimed_among(body, grown, d),
            forall|p: int| #[trigger]
                grown.contains(p) == (scanned.contains(p) || (openings <= p < pair && (p - openings)
                    % 2 == 0)),
            activation_check(
                body,
                start as int,
                openings as int,
                openings as int,
                end as int,
            ) == activation_check(
                body,
                start as int,
                openings as int,
                pair as int,
                end as int,
            ),
        decreases end - pair,
    {
        assert(scope_pair(body, pair as int));
        assert(position_of(table.closure_definitions@[pair as int]) == claimed(body, pair as int));
        if let Some(definition) = table.closure_definitions[pair] {
            if epochs[definition] != epoch {
                return Err(
                    function_initializer_placement_error(
                        id,
                        definition,
                        instructions[pair].decoded.pc,
                    ),
                );
            }
            let ghost before = verified@;
            let ghost smaller = grown;
            verified.set(definition, true);
            proof {
                grown = grown.insert(pair as int);
                assert forall|d: int| 0 <= d < verified@.len() implies (#[trigger] verified@[d])
                    == claimed_among(body, grown, d) by {
                    if d == definition {
                        assert(grown.contains(pair as int) && claimed(body, pair as int) == Some(
                            d,
                        ));
                    } else {
                        if before[d] {
                            let p = choose|p: int| #[trigger]
                                smaller.contains(p) && claimed(body, p) == Some(d);
                            assert(grown.contains(p));
                        }
                        if claimed_among(body, grown, d) {
                            let p = choose|p: int| #[trigger]
                                grown.contains(p) && claimed(body, p) == Some(d);
                            assert(smaller.contains(p));
                        }
                    }
                }
            }
        }
        pair = pair + 2;
    }
    assert(pair == end);
    assert(forall|p: int| #[trigger]
        grown.contains(p) == (scanned.contains(p) || (openings <= p < end && (p - openings) % 2
            == 0)));
    assert(scope_pair(body, openings as int));
    assert(position_of(table.closure_definitions@[openings as int]) == claimed(
        body,
        openings as int,
    ));
    let first: usize = match table.closure_definitions[openings] {
        Some(definition) => definition,
        None => 0,
    };
    let ghost expected = placement_error(
        id,
        first as int,
        instructions@[openings as int].decoded.pc,
    );
    let mut at: usize = start;
    while at < end
        invariant
            body.id == id,
            body.instructions == instructions@,
            body.certificate == internal_stack.model(),
            counts@.len() == instructions@.len(),
            forall|t: int|
                0 <= t < counts@.len() ==> #[trigger] counts@[t] == saturated_count(
                    body_incoming(body, t),
                ),
            start <= at <= end <= instructions@.len(),
            openings < instructions@.len(),
            expected == placement_error(
                id,
                first as int,
                instructions@[openings as int].decoded.pc,
            ),
            Some(first as int) == claimed(body, openings as int),
            activation_check(
                body,
                start as int,
                openings as int,
                openings as int,
                end as int,
            ).is_ok(),
            straight_check(body, start as int, start as int, end as int, expected)
                == straight_check(body, start as int, at as int, end as int, expected),
        decreases end - at,
    {
        assert(counts@[at as int] == saturated_count(body_incoming(body, at as int)));
        let entered: bool = at != start && counts[at] != 1;
        let broken: bool = at < end - 1 && !flows_to_next(
            instructions,
            internal_stack,
            at,
            Ghost(body),
        );
        if entered || broken {
            return Err(
                function_initializer_placement_error(
                    id,
                    first,
                    instructions[openings].decoded.pc,
                ),
            );
        }
        at = at + 1;
    }
    assert(group_check(body, start as int, openings as int, end as int).is_ok());
    Ok(Ghost(grown))
}

/// Returns whether an effective edge leads to the next instruction.
pub(crate) fn flows_to_next(
    instructions: &[VerifiedInstruction],
    internal_stack: &InternalStackCertificate,
    at: usize,
    Ghost(body): Ghost<InitializerBody>,
) -> (flows: bool)
    requires
        at < instructions@.len(),
        body.instructions == instructions@,
        body.certificate == internal_stack.model(),
    ensures
        flows == flows_on(body, at as int),
{
    let count: usize = instructions.len();
    assert(at + 1 <= count);
    let flows: bool = internal_stack.has_effective_successor(
        instructions,
        at,
        usize_to_u32(at + 1),
    );
    proof {
        let edges = edges_out(body.certificate, body.instructions, at as int);
        assert(edges == internal_stack.spec_effective_successors(instructions@, at as int));
        if flows {
            let i = choose|i: int|
                0 <= i < edges.len() && (#[trigger] internal_stack.spec_effective_successors(
                    instructions@,
                    at as int,
                )[i]).target.spec_get() == saturated_u32(at + 1);
            assert(edges[i].target.spec_get() == saturated_u32(at + 1));
        }
        if flows_on(body, at as int) {
            let i = choose|i: int|
                0 <= i < edges.len() && (#[trigger] edges_out(
                    body.certificate,
                    body.instructions,
                    at as int,
                )[i]).target.spec_get() == saturated_u32(at + 1);
            assert(internal_stack.spec_effective_successors(
                instructions@,
                at as int,
            )[i].target.spec_get() == saturated_u32(at + 1));
        }
    }
    flows
}

/// A scan from `at` on groups nothing below `at`.
proof fn lemma_grouped_is_ahead(body: InitializerBody, at: int, pair: int)
    requires
        0 <= at,
        grouped(body, at, pair),
    ensures
        at <= pair < body.instructions.len(),
    decreases body.instructions.len() - at,
{
    let openings = openings_end(body.instructions, at);
    let end = scope_pairs_end(body, openings);
    lemma_openings_end(body.instructions, at);
    lemma_scope_pairs_end(body, openings);
    if at < body.instructions.len() {
        if !opens_dead_zone(body.instructions, at) {
            lemma_grouped_is_ahead(body, at + 1, pair);
        } else if end == openings {
            lemma_grouped_is_ahead(body, openings, pair);
        } else if !(openings <= pair < end && (pair - openings) % 2 == 0) {
            lemma_grouped_is_ahead(body, end, pair);
        }
    }
}

fn verify_scope_function_initializer_groups(
    id: FunctionTemplateId,
    variables: &[VariableDefinition],
    instructions: &[VerifiedInstruction],
    counts: &Vec<u32>,
    table: &PairTable,
    argument_count: u32,
    internal_stack: &InternalStackCertificate,
    Ghost(body): Ghost<InitializerBody>,
) -> (checked: Result<(), BytecodeVerificationError>)
    requires
        body.id == id,
        body.instructions == instructions@,
        body.variables == variables@,
        body.argument_count == argument_count,
        body.certificate == internal_stack.model(),
        table.holds(body),
        counts@.len() == instructions@.len(),
        forall|t: int|
            0 <= t < counts@.len() ==> #[trigger] counts@[t] == saturated_count(
                body_incoming(body, t),
            ),
    ensures
        match checked {
            Ok(_) => scope_groups_check(body).is_ok(),
            Err(error) => scope_groups_check(body) == Err::<(), BytecodeVerificationError>(error)
                || initializer_failure(id, variables@.len(), instructions@.len(), error),
        },
{
    let mut epochs = try_filled_vec(
        id,
        variables.len(),
        0usize,
        BytecodeGraphResource::VariableDefinitions,
    )?;
    let mut verified = try_filled_vec(
        id,
        variables.len(),
        false,
        BytecodeGraphResource::VariableDefinitions,
    )?;
    let ghost mut scanned = Set::<int>::empty();
    let mut epoch: usize = 0;
    let mut at: usize = 0;
    while at < instructions.len()
        invariant
            at <= instructions@.len(),
            epoch <= at,
            body.id == id,
            body.instructions == instructions@,
            body.variables == variables@,
            body.argument_count == argument_count,
            body.certificate == internal_stack.model(),
            table.holds(body),
            counts@.len() == instructions@.len(),
            forall|t: int|
                0 <= t < counts@.len() ==> #[trigger] counts@[t] == saturated_count(
                    body_incoming(body, t),
                ),
            epochs@.len() == variables@.len(),
            forall|d: int| 0 <= d < variables@.len() ==> #[trigger] epochs@[d] <= epoch,
            marked_sites(body, verified@, scanned, at as int),
            groups_check(body, 0) == groups_check(body, at as int),
        decreases instructions@.len() - at,
    {
        if !is_dead_zone_opening(instructions, at) {
            at = at + 1;
        } else {
            let start: usize = at;
            let openings: usize = find_openings_end(instructions, start);
            proof {
                lemma_openings_end(instructions@, start as int);
            }
            let end: usize = find_scope_pairs_end(
                instructions,
                variables,
                table,
                openings,
                Ghost(body),
            );
            if end == openings {
                at = openings;
            } else {
                epoch = epoch + 1;
                mark_activations(
                    instructions,
                    variables,
                    argument_count,
                    start,
                    openings,
                    &mut epochs,
                    epoch,
                    Ghost(body),
                );
                let grown = verify_group(
                    id,
                    instructions,
                    counts,
                    table,
                    internal_stack,
                    start,
                    openings,
                    end,
                    &epochs,
                    epoch,
                    &mut verified,
                    Ghost(body),
                    Ghost(scanned),
                )?;
                proof {
                    assert forall|pair: int| 0 <= pair < body.instructions.len() implies (
                    #[trigger] grouped(body, 0, pair)) == (grown@.contains(pair) || grouped(
                        body,
                        end as int,
                        pair,
                    )) by {
                        assert(grouped(body, 0, pair) == (scanned.contains(pair) || grouped(
                            body,
                            start as int,
                            pair,
                        )));
                        assert(grown@.contains(pair) == (scanned.contains(pair) || (openings <= pair
                            < end && (pair - openings) % 2 == 0)));
                    }
                    scanned = grown@;
                }
                at = end;
            }
        }
    }
    let ghost all = scanned;
    let mut definition: usize = 0;
    while definition < variables.len()
        invariant
            definition <= variables@.len(),
            body.id == id,
            body.instructions == instructions@,
            body.variables == variables@,
            table.holds(body),
            marked_sites(body, verified@, all, instructions@.len() as int),
            groups_check(body, 0).is_ok(),
            groupings_check(body, 0) == groupings_check(body, definition as int),
        decreases variables@.len() - definition,
    {
        let variable = variables[definition];
        assert(position_of(table.sites@[definition as int]) == claim_site(
            body,
            definition as int,
            0,
        ));
        proof {
            lemma_marked_iff_grouped(body, verified@, all, definition as int);
        }
        if matches!(
            variable.policy.initialization,
            CompilerInitializationPolicy::FunctionAtScopeEntry
        ) && variable.function_initializer.is_some() && !verified[definition] {
            proof {
                if table.sites@[definition as int].is_some() {
                    lemma_claim_site_is_claim(body, definition as int, 0);
                }
            }
            let pc = match table.sites[definition] {
                Some(site) => instructions[site].decoded.pc,
                None => BytecodePc(0),
            };
            return Err(function_initializer_placement_error(id, definition, pc));
        }
        definition = definition + 1;
    }
    Ok(())
}

/// A claim site is a claim of its definition.
proof fn lemma_claim_site_is_claim(body: InitializerBody, definition: int, from: int)
    requires
        0 <= from,
    ensures
        match claim_site(body, definition, from) {
            Some(site) => from <= site < body.instructions.len() && claimed(body, site) == Some(
                definition,
            ),
            None => forall|i: int|
                from <= i < body.instructions.len() ==> claimed(body, i) != Some(definition),
        },
    decreases body.instructions.len() - from,
{
    if from < body.instructions.len() && claimed(body, from) != Some(definition) {
        lemma_claim_site_is_claim(body, definition, from + 1);
        if claim_site(body, definition, from + 1).is_none() {
            assert forall|i: int| from <= i < body.instructions.len() implies claimed(body, i)
                != Some(definition) by {
            }
        }
    }
}

/// No two instructions claim one definition.
proof fn lemma_claim_is_unique(body: InitializerBody, definition: int, left: int, right: int)
    requires
        0 <= left < right,
        claimed(body, left) == Some(definition),
    ensures
        claimed(body, right) != Some(definition),
{
    lemma_counted(body, definition, left, right);
}

proof fn lemma_counted(body: InitializerBody, definition: int, site: int, end: int)
    requires
        0 <= site < end,
        claimed(body, site) == Some(definition),
    ensures
        pairs_before(body, definition, end) > 0,
    decreases end - site,
{
    if site + 1 < end {
        lemma_counted(body, definition, site, end - 1);
    }
}

proof fn lemma_marked_iff_grouped(
    body: InitializerBody,
    verified: Seq<bool>,
    scanned: Set<int>,
    definition: int,
)
    requires
        marked_sites(body, verified, scanned, body.instructions.len() as int),
        0 <= definition < verified.len(),
    ensures
        verified[definition] == match claim_site(body, definition, 0) {
            Some(site) => grouped(body, 0, site),
            None => false,
        },
{
    lemma_claim_site_is_claim(body, definition, 0);
    if verified[definition] {
        let pair = choose|pair: int| #[trigger]
            scanned.contains(pair) && claimed(body, pair) == Some(definition);
        assert(grouped(body, 0, pair));
        match claim_site(body, definition, 0) {
            Some(site) => {
                if site < pair {
                    lemma_claim_is_unique(body, definition, site, pair);
                } else if pair < site {
                    lemma_claim_is_unique(body, definition, pair, site);
                }
            },
            None => {},
        }
    }
    if let Some(site) = claim_site(body, definition, 0) {
        if grouped(body, 0, site) {
            if grouped(body, body.instructions.len() as int, site) {
                lemma_grouped_is_ahead(body, body.instructions.len() as int, site);
            }
            assert(scanned.contains(site));
        }
    }
}

/// First definition from `from` on that has an initializer and is not
/// initialized on entry of its scope.
pub open(crate) spec fn first_instantiated(
    variables: Seq<VariableDefinition>,
    from: int,
) -> Option<int>
    decreases variables.len() - from,
{
    if from >= variables.len() {
        None
    } else if variables[from].function_initializer.is_some() && !at_scope_entry(variables[from]) {
        Some(from)
    } else {
        first_instantiated(variables, from + 1)
    }
}

fn find_instantiated(variables: &[VariableDefinition]) -> (first: Option<usize>)
    ensures
        position_of(first) == first_instantiated(variables@, 0),
{
    let mut at: usize = 0;
    while at < variables.len()
        invariant
            at <= variables@.len(),
            first_instantiated(variables@, 0) == first_instantiated(variables@, at as int),
        decreases variables@.len() - at,
    {
        let variable = variables[at];
        if variable.function_initializer.is_some() && !matches!(
            variable.policy.initialization,
            CompilerInitializationPolicy::FunctionAtScopeEntry
        ) {
            return Some(at);
        }
        at = at + 1;
    }
    None
}

/// Edges that lead into an instruction of the entry prefix.
pub open spec fn entry_edges(at: int) -> nat {
    if at == 0 {
        0
    } else {
        1
    }
}

/// End of the dead-zone openings from `at` on, each entered from the one before
/// it and flowing on.
pub open(crate) spec fn entry_openings(
    body: InitializerBody,
    first: Option<int>,
    at: int,
) -> Result<int, BytecodeVerificationError>
    decreases body.instructions.len() - at,
{
    if !opens_dead_zone(body.instructions, at) {
        Ok(at)
    } else if body_incoming(body, at) != entry_edges(at) || !flows_on(body, at) {
        let decoded = body.instructions[at].decoded;
        Err(
            match first {
                Some(definition) => placement_error(body.id, definition, decoded.pc),
                None => spec_policy_error(
                    body.id,
                    BindingSlot::Local(
                        match spec_local_operand(
                            decoded.instruction.opcode,
                            decoded.instruction.operands,
                        ) {
                            Some(local) => local,
                            None => 0,
                        },
                    ),
                    Some(decoded.pc),
                    BindingPolicyViolationReason::InvalidLexicalInitialization,
                ),
            },
        )
    } else {
        entry_openings(body, first, at + 1)
    }
}

/// The prefix behind the initializer of one definition.
pub open(crate) spec fn prefix_behind(
    body: InitializerBody,
    definition: int,
    prefix: int,
) -> Result<int, BytecodeVerificationError> {
    let variable = body.variables[definition];
    let matches = pairs_before(body, definition, body.instructions.len() as int);
    match (variable.function_initializer, claim_site(body, definition, 0)) {
        (None, _) => Ok(prefix),
        (Some(constant), Some(site)) if matches == 1 => if at_scope_entry(variable) {
            Ok(prefix)
        } else if site != prefix || body_incoming(body, site) != entry_edges(prefix) {
            Err(placement_error(body.id, definition, body.instructions[site].decoded.pc))
        } else {
            Ok(prefix + 2)
        },
        (Some(constant), _) => Err(
            function_error(
                body.id,
                BytecodeVerificationErrorKind::FunctionInitializerOpcodeMismatch {
                    definition: saturated_u32(definition),
                    constant,
                    matches: saturated_count(matches),
                },
            ),
        ),
    }
}

/// The prefix behind the initializers of the definitions from `definition` on.
pub open(crate) spec fn prefix_behind_all(
    body: InitializerBody,
    definition: int,
    prefix: int,
) -> Result<int, BytecodeVerificationError>
    decreases body.variables.len() - definition,
{
    if definition >= body.variables.len() {
        Ok(prefix)
    } else {
        match prefix_behind(body, definition, prefix) {
            Ok(next) => prefix_behind_all(body, definition + 1, next),
            Err(error) => Err(error),
        }
    }
}

/// End of the entry prefix that starts with `entry_prefix` instructions, where
/// every function initializer stands at its place.
pub open(crate) spec fn entry_prefix_verdict(body: InitializerBody, entry_prefix: int) -> Result<
    int,
    BytecodeVerificationError,
> {
    let first = first_instantiated(body.variables, 0);
    let opened = if first.is_some() || entry_prefix != 0 {
        entry_openings(body, first, entry_prefix)
    } else {
        Ok(entry_prefix)
    };
    match (scope_groups_check(body), opened) {
        (Err(error), _) => Err(error),
        (Ok(_), Err(error)) => Err(error),
        (Ok(_), Ok(prefix)) => prefix_behind_all(body, 0, prefix),
    }
}

proof fn lemma_prefix_needs_one_pair(
    body: InitializerBody,
    from: int,
    prefix: int,
    definition: int,
)
    requires
        0 <= from <= definition < body.variables.len(),
        body.variables[definition].function_initializer.is_some(),
        prefix_behind_all(body, from, prefix).is_ok(),
    ensures
        pairs_before(body, definition, body.instructions.len() as int) == 1,
        claim_site(body, definition, 0).is_some(),
    decreases definition - from,
{
    if from < definition {
        let next = prefix_behind(body, from, prefix)->Ok_0;
        lemma_prefix_needs_one_pair(body, from + 1, next, definition);
    }
}

proof fn lemma_groupings_hold(body: InitializerBody, from: int, definition: int)
    requires
        0 <= from <= definition < body.variables.len(),
        groupings_check(body, from).is_ok(),
    ensures
        grouping_check(body, definition).is_ok(),
    decreases definition - from,
{
    if from < definition {
        lemma_groupings_hold(body, from + 1, definition);
    }
}

/// In an accepted body each function declaration is initialized by exactly one
/// closure/put pair, and one that is initialized on entry of its scope has its
/// pair in a group behind the opening of its dead zone.
pub proof fn lemma_declarations_are_initialized_once(
    body: InitializerBody,
    entry_prefix: int,
    definition: int,
)
    requires
        entry_prefix_verdict(body, entry_prefix).is_ok(),
        0 <= definition < body.variables.len(),
        body.variables[definition].function_initializer.is_some(),
    ensures
        pairs_before(body, definition, body.instructions.len() as int) == 1,
        claim_site(body, definition, 0).is_some(),
        at_scope_entry(body.variables[definition]) ==> grouped(
            body,
            0,
            claim_site(body, definition, 0).unwrap(),
        ),
{
    let first = first_instantiated(body.variables, 0);
    let opened = if first.is_some() || entry_prefix != 0 {
        entry_openings(body, first, entry_prefix)
    } else {
        Ok(entry_prefix)
    };
    lemma_prefix_needs_one_pair(body, 0, opened->Ok_0, definition);
    lemma_groupings_hold(body, 0, definition);
}

/// Definition that the second instruction of a pair initializes.
pub open(crate) spec fn put_claimed(body: InitializerBody, at: int) -> Option<int> {
    if at <= 0 {
        None
    } else {
        claimed(body, at - 1)
    }
}

/// Function initializers of a verified function.
pub struct VerifiedFunctionInitializers {
    /// Definition that each instruction initializes, where it is the put of an
    /// initializer.
    pub put_definitions: Vec<Option<usize>>,
    /// End of the entry prefix.
    pub entry_prefix_end: usize,
}

/// The body that a function's initializers are looked for in.
pub open(crate) spec fn initializer_body(
    id: FunctionTemplateId,
    function: VerifiedCompilerFunction,
    variables: Seq<VariableDefinition>,
    certificate: CertificateModel,
) -> InitializerBody {
    let flow = function.control_flow;
    InitializerBody {
        id,
        instructions: flow.instructions@,
        variables,
        argument_count: flow.domains.argument_count,
        certificate,
    }
}

fn verify_entry_openings(
    id: FunctionTemplateId,
    instructions: &[VerifiedInstruction],
    counts: &Vec<u32>,
    internal_stack: &InternalStackCertificate,
    first: Option<usize>,
    entry_prefix: usize,
    Ghost(body): Ghost<InitializerBody>,
) -> (end: Result<usize, BytecodeVerificationError>)
    requires
        body.id == id,
        body.instructions == instructions@,
        body.certificate == internal_stack.model(),
        counts@.len() == instructions@.len(),
        forall|t: int|
            0 <= t < counts@.len() ==> #[trigger] counts@[t] == saturated_count(
                body_incoming(body, t),
            ),
    ensures
        match (end, entry_openings(body, position_of(first), entry_prefix as int)) {
            (Ok(end), Ok(expected)) => end == expected,
            (Err(error), Err(expected)) => error == expected,
            _ => false,
        },
{
    let count: usize = instructions.len();
    let mut at: usize = entry_prefix;
    while is_dead_zone_opening(instructions, at)
        invariant
            body.id == id,
            body.instructions == instructions@,
            body.certificate == internal_stack.model(),
            counts@.len() == instructions@.len(),
            count == instructions@.len(),
            forall|t: int|
                0 <= t < counts@.len() ==> #[trigger] counts@[t] == saturated_count(
                    body_incoming(body, t),
                ),
            entry_openings(body, position_of(first), entry_prefix as int) == entry_openings(
                body,
                position_of(first),
                at as int,
            ),
        decreases instructions@.len() - at,
    {
        assert(counts@[at as int] == saturated_count(body_incoming(body, at as int)));
        let expected: u32 = if at == 0 { 0 } else { 1 };
        if counts[at] != expected || !flows_to_next(
            instructions,
            internal_stack,
            at,
            Ghost(body),
        ) {
            let decoded = instructions[at].decoded;
            return match first {
                Some(definition) => Err(
                    function_initializer_placement_error(id, definition, decoded.pc),
                ),
                None => {
                    let local: u32 = match local_operand(
                        decoded.instruction.opcode,
                        decoded.instruction.operands,
                    ) {
                        Some(local) => local,
                        None => 0,
                    };
                    Err(
                        policy_error(
                            id,
                            BindingSlot::Local(local),
                            Some(decoded.pc),
                            BindingPolicyViolationReason::InvalidLexicalInitialization,
                        ),
                    )
                },
            };
        }
        at = at + 1;
    }
    Ok(at)
}

fn verify_initializer_order(
    id: FunctionTemplateId,
    variables: &[VariableDefinition],
    instructions: &[VerifiedInstruction],
    counts: &Vec<u32>,
    table: &PairTable,
    opened: usize,
    Ghost(body): Ghost<InitializerBody>,
) -> (end: Result<usize, BytecodeVerificationError>)
    requires
        body.id == id,
        body.instructions == instructions@,
        body.variables == variables@,
        table.holds(body),
        counts@.len() == instructions@.len(),
        forall|t: int|
            0 <= t < counts@.len() ==> #[trigger] counts@[t] == saturated_count(
                body_incoming(body, t),
            ),
    ensures
        match (end, prefix_behind_all(body, 0, opened as int)) {
            (Ok(end), Ok(expected)) => end == expected,
            (Err(error), Err(expected)) => error == expected,
            _ => false,
        },
{
    let instruction_count: usize = instructions.len();
    let mut prefix: usize = opened;
    let mut definition: usize = 0;
    while definition < variables.len()
        invariant
            definition <= variables@.len(),
            body.id == id,
            body.instructions == instructions@,
            body.variables == variables@,
            instruction_count == instructions@.len(),
            table.holds(body),
            counts@.len() == instructions@.len(),
            forall|t: int|
                0 <= t < counts@.len() ==> #[trigger] counts@[t] == saturated_count(
                    body_incoming(body, t),
                ),
            prefix_behind_all(body, 0, opened as int) == prefix_behind_all(
                body,
                definition as int,
                prefix as int,
            ),
        decreases variables@.len() - definition,
    {
        let variable = variables[definition];
        if let Some(constant) = variable.function_initializer {
            assert(table.matches@[definition as int] == saturated_count(
                pairs_before(body, definition as int, body.instructions.len() as int),
            ));
            assert(position_of(table.sites@[definition as int]) == claim_site(
                body,
                definition as int,
                0,
            ));
            proof {
                lemma_claim_site_is_claim(body, definition as int, 0);
            }
            match (table.matches[definition], table.sites[definition]) {
                (1, Some(site)) => {
                    if !matches!(
                        variable.policy.initialization,
                        CompilerInitializationPolicy::FunctionAtScopeEntry
                    ) {
                        assert(counts@[site as int] == saturated_count(
                            body_incoming(body, site as int),
                        ));
                        let expected: u32 = if prefix == 0 { 0 } else { 1 };
                        if site != prefix || counts[site] != expected {
                            return Err(
                                function_initializer_placement_error(
                                    id,
                                    definition,
                                    instructions[site].decoded.pc,
                                ),
                            );
                        }
                        prefix = prefix + 2;
                    }
                },
                (matches, _) => {
                    return Err(
                        BytecodeVerificationError::function(
                            id,
                            BytecodeVerificationErrorKind::FunctionInitializerOpcodeMismatch {
                                definition: usize_to_u32(definition),
                                constant,
                                matches,
                            },
                        ),
                    );
                },
            }
        }
        definition = definition + 1;
    }
    Ok(prefix)
}

/// Checks that every function declaration is initialized by exactly one
/// closure/put pair, at the place that its policy gives it.
pub fn verify_function_initializers(
    id: FunctionTemplateId,
    function: &VerifiedCompilerFunction,
    variables: &[VariableDefinition],
    entry_prefix: usize,
    internal_stack: &InternalStackCertificate,
) -> (verified: Result<VerifiedFunctionInitializers, BytecodeVerificationError>)
    ensures
        ({
            let body = initializer_body(id, *function, variables@, internal_stack.model());
            match verified {
                Ok(initializers) => entry_prefix_verdict(body, entry_prefix as int) == Ok::<
                    int,
                    BytecodeVerificationError,
                >(initializers.entry_prefix_end as int) && initializers.put_definitions@.len()
                    == body.instructions.len() && (forall|i: int|
                    0 <= i < body.instructions.len() ==> position_of(
                        #[trigger] initializers.put_definitions@[i],
                    ) == put_claimed(body, i)),
                Err(error) => entry_prefix_verdict(body, entry_prefix as int) == Err::<
                    int,
                    BytecodeVerificationError,
                >(error) || initializer_failure(
                    id,
                    variables@.len(),
                    body.instructions.len(),
                    error,
                ),
            }
        }),
{
    let flow = function.control_flow();
    let instructions = flow.instructions();
    let argument_count: u32 = flow.domains().argument_count();
    let ghost body = initializer_body(id, *function, variables@, internal_stack.model());
    let counts = count_incoming_edges(id, instructions, internal_stack)?;
    let table = find_pairs(
        id,
        instructions,
        variables,
        argument_count,
        internal_stack,
        &counts,
        Ghost(body),
    )?;
    let mut put_definitions = try_filled_vec(
        id,
        instructions.len(),
        None::<usize>,
        BytecodeGraphResource::SourceMappings,
    )?;
    let mut at: usize = 1;
    while at < instructions.len()
        invariant
            1 <= at,
            instructions@.len() == body.instructions.len(),
            table.holds(body),
            put_definitions@.len() == instructions@.len(),
            forall|i: int|
                0 <= i < at && i < instructions@.len() ==> position_of(
                    #[trigger] put_definitions@[i],
                ) == put_claimed(body, i),
        decreases instructions@.len() - at,
    {
        assert(position_of(table.closure_definitions@[at - 1]) == claimed(body, at - 1));
        put_definitions.set(at, table.closure_definitions[at - 1]);
        at = at + 1;
    }
    verify_scope_function_initializer_groups(
        id,
        variables,
        instructions,
        &counts,
        &table,
        argument_count,
        internal_stack,
        Ghost(body),
    )?;
    let first = find_instantiated(variables);
    let opened: usize = if first.is_some() || entry_prefix != 0 {
        verify_entry_openings(
            id,
            instructions,
            &counts,
            internal_stack,
            first,
            entry_prefix,
            Ghost(body),
        )?
    } else {
        entry_prefix
    };
    let entry_prefix_end: usize = verify_initializer_order(
        id,
        variables,
        instructions,
        &counts,
        &table,
        opened,
        Ghost(body),
    )?;
    Ok(VerifiedFunctionInitializers { put_definitions, entry_prefix_end })
}

} // verus!
