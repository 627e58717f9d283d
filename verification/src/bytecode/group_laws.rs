//! Where functions are initialized on entry of their scope.
use crate::bytecode::error::BytecodeVerificationError;
use crate::bytecode::function_initializers::{
    activated, activation_check, entry_openings, entry_prefix_verdict, group_check, grouped,
    groups_check, lemma_declarations_are_initialized_once, opened_definition, openings_end,
    opens_dead_zone, placement_error, scope_pair, scope_pairs_end, straight_check,
};
use crate::bytecode::initializer_pairs::{
    InitializerBody, body_incoming, claim_site, claimed, flows_on, pair_definition,
};
use crate::bytecode::model::CompilerInitializationPolicy;
use crate::bytecode::operand_use::spec_local_operand;
use crate::control_flow::model::VerifiedInstruction;
use crate::opcode::FinalOpcode;
use vstd::prelude::*;

verus! {

/// Whether the pairs from `openings` up to `end` initialize locals that
/// instructions from `start` up to `openings` opened.
pub open(crate) spec fn all_opened(
    body: InitializerBody,
    start: int,
    openings: int,
    from: int,
    end: int,
) -> bool {
    forall|pair: int|
        from <= pair < end && (pair - openings) % 2 == 0 ==> opens_local(
            body,
            start,
            openings,
            (#[trigger] claimed(body, pair)).unwrap(),
        )
}

/// Whether an instruction of a range names the local of a definition that is
/// initialized on entry of its scope.
pub open(crate) spec fn opens_local(
    body: InitializerBody,
    start: int,
    end: int,
    definition: int,
) -> bool {
    &&& definition < body.variables.len()
    &&& body.variables[definition].policy.initialization
        == CompilerInitializationPolicy::FunctionAtScopeEntry
    &&& exists|i: int|
        start <= i < end && #[trigger] names_local(
            body.instructions[i],
            definition - body.argument_count,
        )
}

/// Whether an instruction names a local by its number.
pub open spec fn names_local(instruction: VerifiedInstruction, local: int) -> bool {
    let found = instruction.spec_decoded().instruction;
    match spec_local_operand(found.opcode, found.operands) {
        Some(index) => index == local,
        None => false,
    }
}

proof fn lemma_activated(body: InitializerBody, start: int, end: int, definition: int)
    ensures
        activated(body, start, end, definition) <==> opens_local(body, start, end, definition),
{
    if activated(body, start, end, definition) {
        let i = choose|i: int|
            start <= i < end && #[trigger] opened_definition(body, i) == Some(definition);
        assert(names_local(body.instructions[i], definition - body.argument_count));
    }
    if opens_local(body, start, end, definition) {
        let i = choose|i: int|
            start <= i < end && #[trigger] names_local(
                body.instructions[i],
                definition - body.argument_count,
            );
        assert(opened_definition(body, i) == Some(definition));
    }
}

proof fn lemma_activation(
    body: InitializerBody,
    start: int,
    openings: int,
    pair: int,
    end: int,
)
    requires
        openings <= pair,
        (pair - openings) % 2 == 0,
    ensures
        activation_check(body, start, openings, pair, end).is_ok() <==> all_opened(
            body,
            start,
            openings,
            pair,
            end,
        ),
    decreases
            if pair < end {
                end - pair
            } else {
                0
            },
{
    if pair < end {
        lemma_activation(body, start, openings, pair + 2, end);
        let definition = claimed(body, pair).unwrap();
        lemma_activated(body, start, openings, definition);
        if all_opened(body, start, openings, pair, end) {
            assert(opens_local(body, start, openings, claimed(body, pair).unwrap()));
            assert(all_opened(body, start, openings, pair + 2, end));
        }
        if all_opened(body, start, openings, pair + 2, end) && opens_local(
            body,
            start,
            openings,
            definition,
        ) {
            assert forall|other: int|
                pair <= other < end && (other - openings) % 2 == 0 implies opens_local(
                body,
                start,
                openings,
                (#[trigger] claimed(body, other)).unwrap(),
            ) by {
                if other < pair + 2 {
                    assert(other == pair);
                }
            }
        }
    }
}

/// Whether instructions from `at` up to `end` run one into the next, and are
/// entered nowhere else behind `start`.
pub open(crate) spec fn runs_straight(
    body: InitializerBody,
    start: int,
    at: int,
    end: int,
) -> bool {
    &&& forall|i: int|
        at <= i < end && i != start ==> #[trigger] body_incoming(body, i) == 1
    &&& forall|i: int| at <= i && i + 1 < end ==> #[trigger] flows_on(body, i)
}

proof fn lemma_straight(
    body: InitializerBody,
    start: int,
    at: int,
    end: int,
    error: BytecodeVerificationError,
)
    ensures
        straight_check(body, start, at, end, error).is_ok() <==> runs_straight(
            body,
            start,
            at,
            end,
        ),
    decreases end - at,
{
    if at < end {
        lemma_straight(body, start, at + 1, end, error);
        if runs_straight(body, start, at, end) {
            assert(at != start ==> body_incoming(body, at) == 1);
            assert(at + 1 < end ==> flows_on(body, at));
        }
    }
}

/// A group of openings and pairs is accepted exactly if its pairs initialize
/// locals that its openings opened, and it runs straight from its first
/// instruction to its last.
pub proof fn lemma_groups_open_what_they_initialize(
    body: InitializerBody,
    start: int,
    openings: int,
    end: int,
)
    ensures
        group_check(body, start, openings, end).is_ok() <==> {
            &&& all_opened(body, start, openings, openings, end)
            &&& runs_straight(body, start, start, end)
        },
{
    lemma_activation(body, start, openings, openings, end);
    lemma_straight(
        body,
        start,
        start,
        end,
        placement_error(
            body.id,
            claimed(body, openings).unwrap(),
            body.instructions[openings].decoded.pc,
        ),
    );
}

/// Whether a run of openings of dead zones goes from `start` up to `end`.
pub open spec fn opens_throughout(
    instructions: Seq<VerifiedInstruction>,
    start: int,
    end: int,
) -> bool {
    forall|i: int|
        start <= i < end ==> 0 <= i < instructions.len() && (
        #[trigger] instructions[i]).spec_decoded().instruction.opcode
            == FinalOpcode::SetLocUninitialized
}

proof fn lemma_openings(instructions: Seq<VerifiedInstruction>, at: int)
    ensures
        at <= openings_end(instructions, at),
        at <= instructions.len() ==> openings_end(instructions, at) <= instructions.len(),
        opens_throughout(instructions, at, openings_end(instructions, at)),
        !opens_dead_zone(instructions, openings_end(instructions, at)),
    decreases instructions.len() - at,
{
    if opens_dead_zone(instructions, at) {
        lemma_openings(instructions, at + 1);
    }
}

proof fn lemma_grouped(body: InitializerBody, at: int, pair: int)
    requires
        grouped(body, at, pair),
        groups_check(body, at).is_ok(),
    ensures
        exists|start: int, openings: int, end: int| #[trigger]
            group_holds(body, start, openings, end, pair),
    decreases body.instructions.len() - at,
{
    let openings = openings_end(body.instructions, at);
    let end = scope_pairs_end(body, openings);
    lemma_openings(body.instructions, at);
    if !opens_dead_zone(body.instructions, at) {
        lemma_grouped(body, at + 1, pair);
    } else {
        lemma_openings(body.instructions, at + 1);
        lemma_pairs_end(body, openings);
        assert(openings == openings_end(body.instructions, at + 1));
        if end == openings {
            lemma_grouped(body, openings, pair);
        } else if openings <= pair < end && (pair - openings) % 2 == 0 {
            lemma_groups_open_what_they_initialize(body, at, openings, end);
            assert(group_holds(body, at, openings, end, pair));
        } else if end < body.instructions.len() {
            lemma_grouped(body, end, pair);
        } else {
            assert(!grouped(body, end, pair));
        }
    }
}

proof fn lemma_pairs_end(body: InitializerBody, at: int)
    ensures
        at <= scope_pairs_end(body, at),
    decreases body.instructions.len() - at,
{
    if scope_pair(body, at) {
        lemma_pairs_end(body, at + 2);
    }
}

/// Whether a pair stands in a group: behind openings only, of which one opens its
/// local, with which it runs straight.
pub open(crate) spec fn group_holds(
    body: InitializerBody,
    start: int,
    openings: int,
    end: int,
    pair: int,
) -> bool {
    &&& start < openings <= pair < end
    &&& opens_throughout(body.instructions, start, openings)
    &&& all_opened(body, start, openings, openings, end)
    &&& runs_straight(body, start, start, end)
    &&& (pair - openings) % 2 == 0
}

/// A declaration that is initialized on entry of its scope has its pair in a group
/// that starts with openings of dead zones, among them its own, and that nothing
/// enters on the way.
pub proof fn lemma_scoped_functions_follow_their_openings(
    body: InitializerBody,
    entry_prefix: int,
    definition: int,
)
    requires
        entry_prefix_verdict(body, entry_prefix).is_ok(),
        0 <= definition < body.variables.len(),
        body.variables[definition].function_initializer.is_some(),
        body.variables[definition].policy.initialization
            == CompilerInitializationPolicy::FunctionAtScopeEntry,
    ensures
        exists|start: int, openings: int, end: int, pair: int|
            pair_definition(body, pair) == Some(definition) && #[trigger] group_holds(
                body,
                start,
                openings,
                end,
                pair,
            ) && opens_local(body, start, openings, definition),
{
    lemma_declarations_are_initialized_once(body, entry_prefix, definition);
    let pair = claim_site(body, definition, 0).unwrap();
    lemma_site(body, definition, 0);
    lemma_grouped(body, 0, pair);
    let (start, openings, end) = choose|start: int, openings: int, end: int| #[trigger]
        group_holds(body, start, openings, end, pair);
    assert(opens_local(body, start, openings, claimed(body, pair).unwrap()));
    assert(pair_definition(body, pair) == Some(definition));
}

proof fn lemma_site(body: InitializerBody, definition: int, from: int)
    requires
        claim_site(body, definition, from).is_some(),
    ensures
        claimed(body, claim_site(body, definition, from).unwrap()) == Some(definition),
    decreases body.instructions.len() - from,
{
    if claimed(body, from) != Some(definition) {
        lemma_site(body, definition, from + 1);
    }
}

/// Whether an instruction leads to the next one and is entered as in the entry
/// prefix: the first of the body from nowhere, any other one way.
pub open(crate) spec fn runs_in_prefix(body: InitializerBody, at: int) -> bool {
    &&& flows_on(body, at)
    &&& at == 0 ==> body_incoming(body, at) == 0
    &&& at != 0 ==> body_incoming(body, at) == 1
}

/// The openings at the end of the entry prefix are passed exactly if each leads to
/// the next, nothing leads to the first instruction of the body, and one way to
/// each other. The prefix then ends behind them.
pub proof fn lemma_entry_openings_run_straight(
    body: InitializerBody,
    first: Option<int>,
    at: int,
)
    requires
        0 <= at,
    ensures
        ({
            let passed = entry_openings(body, first, at);
            let end = openings_end(body.instructions, at);
            &&& passed.is_ok() <==> forall|i: int|
                at <= i < end ==> #[trigger] runs_in_prefix(body, i)
            &&& passed.is_ok() ==> passed->Ok_0 == end
            &&& opens_throughout(body.instructions, at, end)
            &&& 0 <= end < body.instructions.len()
                ==> body.instructions[end].spec_decoded().instruction.opcode
                != FinalOpcode::SetLocUninitialized
        }),
    decreases body.instructions.len() - at,
{
    lemma_openings(body.instructions, at);
    if opens_dead_zone(body.instructions, at) {
        lemma_entry_openings_run_straight(body, first, at + 1);
        lemma_openings(body.instructions, at + 1);
        let end = openings_end(body.instructions, at);
        assert(end == openings_end(body.instructions, at + 1));
        assert(entry_openings(body, first, at).is_ok() == (runs_in_prefix(body, at)
            && entry_openings(body, first, at + 1).is_ok()));
        if (forall|i: int| at + 1 <= i < end ==> #[trigger] runs_in_prefix(body, i))
            && runs_in_prefix(body, at) {
            assert forall|i: int| at <= i < end implies #[trigger] runs_in_prefix(body, i) by {}
        }
    }
}

} // verus!
