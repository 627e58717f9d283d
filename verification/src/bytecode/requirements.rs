//! What an engine must implement to run a graph.
use crate::bytecode::function_metadata::FunctionFindings;
use crate::bytecode::model::{
    EXECUTION_REQUIREMENT_COUNT, ExecutionRequirement, lemma_requirement_positions,
};
use vstd::prelude::*;

verus! {

/// Whether a graph needs a requirement: every graph needs core values, a module
/// needs module bindings, and the rest follows from the functions.
pub open spec fn is_required(
    findings: Seq<FunctionFindings>,
    module: bool,
    requirement: ExecutionRequirement,
) -> bool {
    requirement == ExecutionRequirement::CoreValues || (module && requirement
        == ExecutionRequirement::ModuleBindings) || exists|i: int|
        0 <= i < findings.len() && (#[trigger] findings[i]).requirements@.contains(requirement)
}

/// Whether requirements stand in their fixed order, each once.
pub open spec fn in_fixed_order(requirements: Seq<ExecutionRequirement>) -> bool {
    forall|i: int, j: int|
        0 <= i < j < requirements.len() ==> (#[trigger] requirements[i]).spec_ordinal() < (
        #[trigger] requirements[j]).spec_ordinal()
}

/// Whether a list holds what a graph needs, and nothing else, in the fixed order.
pub open spec fn lists_requirements(
    requirements: Seq<ExecutionRequirement>,
    findings: Seq<FunctionFindings>,
    module: bool,
) -> bool {
    in_fixed_order(requirements) && forall|requirement: ExecutionRequirement|
        #[trigger] requirements.contains(requirement) == is_required(
            findings,
            module,
            requirement,
        )
}

/// Two lists of what one graph needs are the same.
pub proof fn lemma_requirements_are_unique(
    left: Seq<ExecutionRequirement>,
    right: Seq<ExecutionRequirement>,
)
    requires
        in_fixed_order(left),
        in_fixed_order(right),
        forall|requirement: ExecutionRequirement|
            #[trigger] left.contains(requirement) == right.contains(requirement),
    ensures
        left == right,
    decreases left.len(),
{
    if left.len() == 0 {
        if right.len() > 0 {
            assert(right.contains(right[0]));
            assert(left.contains(right[0]));
        }
        assert(left =~= right);
    } else {
        assert(left.contains(left.last()));
        assert(right.contains(left.last()));
        let at = choose|i: int| 0 <= i < right.len() && right[i] == left.last();
        assert(right.contains(right.last()));
        assert(left.contains(right.last()));
        let other = choose|i: int| 0 <= i < left.len() && left[i] == right.last();
        if at < right.len() - 1 {
            assert(right[at].spec_ordinal() < right.last().spec_ordinal());
            if other < left.len() - 1 {
                assert(left[other].spec_ordinal() < left.last().spec_ordinal());
            }
        }
        assert(left.last() == right.last());
        let shorter = left.drop_last();
        let other_shorter = right.drop_last();
        assert forall|requirement: ExecutionRequirement|
            #[trigger] shorter.contains(requirement) == other_shorter.contains(requirement) by {
            lemma_all_but_last(left, requirement);
            lemma_all_but_last(right, requirement);
            assert(left.contains(requirement) == right.contains(requirement));
        }
        lemma_requirements_are_unique(shorter, other_shorter);
        assert(left =~= shorter.push(left.last()));
        assert(right =~= other_shorter.push(right.last()));
    }
}

proof fn lemma_all_but_last(
    requirements: Seq<ExecutionRequirement>,
    requirement: ExecutionRequirement,
)
    requires
        requirements.len() > 0,
        in_fixed_order(requirements),
    ensures
        requirements.drop_last().contains(requirement) == (requirements.contains(requirement)
            && requirement != requirements.last()),
{
    let shorter = requirements.drop_last();
    if shorter.contains(requirement) {
        let i = choose|i: int| 0 <= i < shorter.len() && shorter[i] == requirement;
        assert(requirements[i] == requirement);
        assert(requirements[i].spec_ordinal() < requirements.last().spec_ordinal());
    }
    if requirements.contains(requirement) && requirement != requirements.last() {
        let i = choose|i: int| 0 <= i < requirements.len() && requirements[i] == requirement;
        assert(shorter[i] == requirement);
    }
}

/// Requirement at each position of the fixed order.
pub open spec fn requirement_order() -> Seq<ExecutionRequirement> {
    seq![
        ExecutionRequirement::CoreValues,
        ExecutionRequirement::Numbers,
        ExecutionRequirement::Strings,
        ExecutionRequirement::BigInts,
        ExecutionRequirement::Closures,
        ExecutionRequirement::Arrays,
        ExecutionRequirement::Iterators,
        ExecutionRequirement::OrdinaryObjects,
        ExecutionRequirement::DynamicPropertyKeys,
        ExecutionRequirement::Calls,
        ExecutionRequirement::AbruptCompletions,
        ExecutionRequirement::LexicalBindings,
        ExecutionRequirement::RealmGlobalBindings,
        ExecutionRequirement::ModuleBindings,
        ExecutionRequirement::ObjectOperators,
        ExecutionRequirement::DynamicOperators,
    ]
}

fn all_requirements() -> (order: Vec<ExecutionRequirement>)
    ensures
        order@ == requirement_order(),
{
    let order: Vec<ExecutionRequirement> = vec![
        ExecutionRequirement::CoreValues,
        ExecutionRequirement::Numbers,
        ExecutionRequirement::Strings,
        ExecutionRequirement::BigInts,
        ExecutionRequirement::Closures,
        ExecutionRequirement::Arrays,
        ExecutionRequirement::Iterators,
        ExecutionRequirement::OrdinaryObjects,
        ExecutionRequirement::DynamicPropertyKeys,
        ExecutionRequirement::Calls,
        ExecutionRequirement::AbruptCompletions,
        ExecutionRequirement::LexicalBindings,
        ExecutionRequirement::RealmGlobalBindings,
        ExecutionRequirement::ModuleBindings,
        ExecutionRequirement::ObjectOperators,
        ExecutionRequirement::DynamicOperators,
    ];
    assert(order@ =~= requirement_order());
    order
}

/// A flag for each requirement, set where it is among those found so far.
spec fn flags_found(
    flags: Seq<bool>,
    found: spec_fn(ExecutionRequirement) -> bool,
) -> bool {
    &&& flags.len() == EXECUTION_REQUIREMENT_COUNT
    &&& forall|requirement: ExecutionRequirement|
        flags[#[trigger] requirement.spec_ordinal() as int] == found(requirement)
}

fn flag(flags: &mut Vec<bool>, requirement: ExecutionRequirement, Ghost(found): Ghost<
    spec_fn(ExecutionRequirement) -> bool,
>)
    requires
        flags_found(old(flags)@, found),
    ensures
        flags_found(final(flags)@, |r: ExecutionRequirement| found(r) || r == requirement),
{
    let ghost before = flags@;
    let position: usize = requirement.ordinal();
    flags.set(position, true);
    proof {
        assert forall|r: ExecutionRequirement|
            flags@[#[trigger] r.spec_ordinal() as int] == (found(r) || r == requirement) by {
            lemma_requirement_positions(r, requirement);
            assert(before[r.spec_ordinal() as int] == found(r));
        }
    }
}

fn flag_all(
    flags: &mut Vec<bool>,
    requirements: &[ExecutionRequirement],
    Ghost(found): Ghost<spec_fn(ExecutionRequirement) -> bool>,
)
    requires
        flags_found(old(flags)@, found),
    ensures
        flags_found(
            final(flags)@,
            |r: ExecutionRequirement| found(r) || requirements@.contains(r),
        ),
{
    let ghost so_far = |count: int|
        |r: ExecutionRequirement| found(r) || requirements@.take(count).contains(r);
    let mut at: usize = 0;
    proof {
        assert forall|r: ExecutionRequirement|
            flags@[#[trigger] r.spec_ordinal() as int] == so_far(0)(r) by {
            assert(!requirements@.take(0).contains(r));
        }
    }
    while at < requirements.len()
        invariant
            at <= requirements@.len(),
            so_far == (|count: int|
                |r: ExecutionRequirement| found(r) || requirements@.take(count).contains(r)),
            flags_found(flags@, so_far(at as int)),
        decreases requirements@.len() - at,
    {
        let ghost earlier = so_far(at as int);
        flag(flags, requirements[at], Ghost(earlier));
        proof {
            let taken = requirements@.take(at as int);
            let more = requirements@.take(at + 1);
            assert(more =~= taken.push(requirements@[at as int]));
            assert forall|r: ExecutionRequirement|
                flags@[#[trigger] r.spec_ordinal() as int] == so_far(at + 1)(r) by {
                assert(flags@[r.spec_ordinal() as int] == (earlier(r) || r
                    == requirements@[at as int]));
                if taken.contains(r) {
                    let i = choose|i: int| 0 <= i < taken.len() && taken[i] == r;
                    assert(more[i] == r);
                }
                if r == requirements@[at as int] {
                    assert(more[at as int] == r);
                }
                if more.contains(r) {
                    let i = choose|i: int| 0 <= i < more.len() && more[i] == r;
                    if i < at {
                        assert(taken[i] == r);
                    }
                }
            }
        }
        at = at + 1;
    }
    assert(requirements@.take(at as int) =~= requirements@);
}

fn list_flagged(flags: &Vec<bool>, requirements: &mut Vec<ExecutionRequirement>)
    requires
        flags@.len() == EXECUTION_REQUIREMENT_COUNT,
        old(requirements)@.len() == 0,
    ensures
        in_fixed_order(final(requirements)@),
        forall|requirement: ExecutionRequirement|
            #[trigger] final(requirements)@.contains(requirement)
                == flags@[requirement.spec_ordinal() as int],
{
    let order = all_requirements();
    let mut at: usize = 0;
    assert forall|i: int| 0 <= i < EXECUTION_REQUIREMENT_COUNT implies (
    #[trigger] requirement_order()[i]).spec_ordinal() == i by {}
    while at < EXECUTION_REQUIREMENT_COUNT
        invariant
            at <= EXECUTION_REQUIREMENT_COUNT,
            order@ == requirement_order(),
            flags@.len() == EXECUTION_REQUIREMENT_COUNT,
            forall|i: int|
                0 <= i < EXECUTION_REQUIREMENT_COUNT ==> (
                #[trigger] requirement_order()[i]).spec_ordinal() == i,
            in_fixed_order(requirements@),
            forall|i: int|
                0 <= i < requirements@.len() ==> (#[trigger] requirements@[i]).spec_ordinal() < at
                    && flags@[requirements@[i].spec_ordinal() as int],
            forall|requirement: ExecutionRequirement|
                #[trigger] requirement.spec_ordinal() < at
                    && flags@[requirement.spec_ordinal() as int] ==> requirements@.contains(
                    requirement,
                ),
        decreases EXECUTION_REQUIREMENT_COUNT - at,
    {
        assert(requirement_order()[at as int].spec_ordinal() == at);
        let ghost before = requirements@;
        if flags[at] {
            requirements.push(order[at]);
        }
        proof {
            assert forall|requirement: ExecutionRequirement|
                #[trigger] requirement.spec_ordinal() < at + 1
                    && flags@[requirement.spec_ordinal() as int] implies requirements@.contains(
                requirement,
            ) by {
                if requirement.spec_ordinal() == at {
                    lemma_requirement_positions(requirement, order@[at as int]);
                    assert(requirements@.last() == requirement);
                } else {
                    assert(before.contains(requirement));
                    let i = choose|i: int| 0 <= i < before.len() && before[i] == requirement;
                    assert(requirements@[i] == requirement);
                }
            }
        }
        at = at + 1;
    }
    proof {
        assert forall|requirement: ExecutionRequirement|
            #[trigger] requirements@.contains(requirement)
                == flags@[requirement.spec_ordinal() as int] by {
            lemma_requirement_positions(requirement, requirement);
            if requirements@.contains(requirement) {
                let i = choose|i: int|
                    0 <= i < requirements@.len() && requirements@[i] == requirement;
                assert(flags@[requirements@[i].spec_ordinal() as int]);
            }
        }
    }
}

/// Whether one of the first `count` functions needs a requirement.
spec fn required_by(
    findings: Seq<FunctionFindings>,
    module: bool,
    count: int,
    requirement: ExecutionRequirement,
) -> bool {
    is_required(findings.take(count), module, requirement)
}

/// Lists what an engine must implement to run a graph, in the fixed order.
pub(crate) fn collect_requirements(
    findings: &[FunctionFindings],
    module: bool,
    requirements: &mut Vec<ExecutionRequirement>,
)
    requires
        old(requirements)@.len() == 0,
    ensures
        lists_requirements(final(requirements)@, findings@, module),
{
    let mut flags: Vec<bool> = Vec::new();
    while flags.len() < EXECUTION_REQUIREMENT_COUNT
        invariant
            flags@.len() <= EXECUTION_REQUIREMENT_COUNT,
            forall|i: int| 0 <= i < flags@.len() ==> !(#[trigger] flags@[i]),
        decreases EXECUTION_REQUIREMENT_COUNT - flags@.len(),
    {
        flags.push(false);
    }
    let ghost nothing = |r: ExecutionRequirement| false;
    proof {
        assert forall|r: ExecutionRequirement|
            flags@[#[trigger] r.spec_ordinal() as int] == nothing(r) by {
            lemma_requirement_positions(r, r);
        }
    }
    flag(&mut flags, ExecutionRequirement::CoreValues, Ghost(nothing));
    if module {
        let ghost core = |r: ExecutionRequirement|
            nothing(r) || r == ExecutionRequirement::CoreValues;
        flag(&mut flags, ExecutionRequirement::ModuleBindings, Ghost(core));
    }
    let mut at: usize = 0;
    proof {
        assert forall|r: ExecutionRequirement|
            flags@[#[trigger] r.spec_ordinal() as int] == required_by(findings@, module, 0, r) by {
            assert(findings@.take(0).len() == 0);
        }
    }
    while at < findings.len()
        invariant
            at <= findings@.len(),
            flags_found(
                flags@,
                |r: ExecutionRequirement| required_by(findings@, module, at as int, r),
            ),
        decreases findings@.len() - at,
    {
        let ghost earlier = |r: ExecutionRequirement|
            required_by(findings@, module, at as int, r);
        flag_all(&mut flags, &findings[at].requirements, Ghost(earlier));
        proof {
            let taken = findings@.take(at as int);
            let more = findings@.take(at + 1);
            assert forall|r: ExecutionRequirement|
                flags@[#[trigger] r.spec_ordinal() as int] == required_by(
                    findings@,
                    module,
                    at + 1,
                    r,
                ) by {
                assert(flags@[r.spec_ordinal() as int] == (earlier(r)
                    || findings@[at as int].requirements@.contains(r)));
                if exists|i: int|
                    0 <= i < taken.len() && (#[trigger] taken[i]).requirements@.contains(r) {
                    let i = choose|i: int|
                        0 <= i < taken.len() && (#[trigger] taken[i]).requirements@.contains(r);
                    assert(more[i].requirements@.contains(r));
                }
                if findings@[at as int].requirements@.contains(r) {
                    assert(more[at as int].requirements@.contains(r));
                }
                if exists|i: int|
                    0 <= i < more.len() && (#[trigger] more[i]).requirements@.contains(r) {
                    let i = choose|i: int|
                        0 <= i < more.len() && (#[trigger] more[i]).requirements@.contains(r);
                    if i < at {
                        assert(taken[i].requirements@.contains(r));
                    }
                }
            }
        }
        at = at + 1;
    }
    list_flagged(&flags, requirements);
    proof {
        assert(findings@.take(at as int) =~= findings@);
        assert forall|requirement: ExecutionRequirement|
            #[trigger] requirements@.contains(requirement) == is_required(
                findings@,
                module,
                requirement,
            ) by {
            assert(flags@[requirement.spec_ordinal() as int] == required_by(
                findings@,
                module,
                at as int,
                requirement,
            ));
        }
    }
}

} // verus!
