//! What a finished depth analysis guarantees of every execution path.
use crate::control_flow::error::VerificationError;
use crate::control_flow::model::{
    InstructionIndex, VerifiedInstruction, VerifiedSuccessorKind, VerifiedSuccessors,
    VerifiedSuccessorsRepr,
};
use crate::control_flow::stack::{
    DepthState, DepthTransfer, StackRules, analyzed_from, depth_transfer, evaluated, exit_check,
    initial_state, larger, propagated, propagated_to_successors, stack_analysis,
};
use crate::instruction::DecodedInstruction;
use vstd::prelude::*;

verus! {

/// Whether control may pass from an instruction with these successors to
/// instruction `next`.
pub open spec fn leads_to(successors: VerifiedSuccessors, next: int) -> bool {
    ||| match successors.spec_fallthrough() {
        Some(index) => index.spec_get() == next,
        None => false,
    }
    ||| match successors.spec_branch_target() {
        Some(index) => index.spec_get() == next,
        None => false,
    }
    ||| match successors.spec_jump_target() {
        Some(index) => index.spec_get() == next,
        None => false,
    }
}

/// A path of control: it starts at the first instruction and follows
/// successors.
pub open spec fn is_path(instructions: Seq<VerifiedInstruction>, path: Seq<int>) -> bool {
    &&& path.len() > 0
    &&& path[0] == 0
    &&& forall|k: int|
        0 <= k < path.len() ==> 0 <= #[trigger] path[k] < instructions.len()
    &&& forall|k: int, l: int|
        0 <= k < path.len() && l == k + 1 && l < path.len() ==> leads_to(
            instructions[#[trigger] path[k]].spec_successors(),
            #[trigger] path[l],
        )
}

/// Whether some path of control ends at instruction `at`.
pub open spec fn reachable(instructions: Seq<VerifiedInstruction>, at: int) -> bool {
    exists|path: Seq<int>| #[trigger] is_path(instructions, path) && path.last() == at
}

/// The recorded depths agree at instruction `at`: entered at its recorded
/// depth it does not underflow or exceed the limit, its successors record the
/// depths it leaves, a terminal leaves no forbidden residue, and no depth is
/// above the computed maximum.
pub open spec fn settled(
    rules: StackRules,
    instructions: Seq<VerifiedInstruction>,
    computed_max: u32,
    at: int,
) -> bool {
    let current = instructions[at];
    match current.spec_entry_stack_depth() {
        None => true,
        Some(depth) => match depth_transfer(rules, current.spec_decoded(), depth) {
            Err(_) => false,
            Ok(transfer) => {
                &&& match current.spec_successors().spec_fallthrough() {
                    Some(next) => instructions[next.spec_get() as int].spec_entry_stack_depth()
                        == Some(transfer.output_depth) && next.spec_get() < instructions.len(),
                    None => true,
                }
                &&& match current.spec_successors().spec_jump_target() {
                    Some(next) => instructions[next.spec_get() as int].spec_entry_stack_depth()
                        == Some(transfer.output_depth) && next.spec_get() < instructions.len(),
                    None => true,
                }
                &&& match current.spec_successors().spec_branch_target() {
                    Some(next) => instructions[next.spec_get() as int].spec_entry_stack_depth()
                        == Some(transfer.taken_depth) && next.spec_get() < instructions.len(),
                    None => true,
                }
                &&& current.spec_successors().spec_kind() == VerifiedSuccessorKind::Terminate
                    ==> exit_check(rules, current.spec_decoded(), transfer.output_depth).is_ok()
                &&& transfer.output_depth <= computed_max
                &&& transfer.taken_depth <= computed_max
            },
        },
    }
}

/// Whether the depth `computed_max` occurs after instruction `at`.
pub open spec fn attains(
    rules: StackRules,
    instructions: Seq<VerifiedInstruction>,
    computed_max: u32,
    at: int,
) -> bool {
    match instructions[at].spec_entry_stack_depth() {
        None => false,
        Some(depth) => match depth_transfer(rules, instructions[at].spec_decoded(), depth) {
            Err(_) => false,
            Ok(transfer) => larger(transfer.output_depth, transfer.taken_depth) == computed_max,
        },
    }
}

/// Depths of a verified body: the entry is at depth zero, depths agree at every
/// instruction, exactly the reachable instructions record one, and the
/// computed maximum is within the limit and attained.
pub open spec fn sound_depths(
    rules: StackRules,
    instructions: Seq<VerifiedInstruction>,
    computed_max: u32,
) -> bool {
    &&& instructions.len() > 0
    &&& instructions[0].spec_entry_stack_depth() == Some(0u32)
    &&& forall|i: int|
        0 <= i < instructions.len() ==> settled(rules, instructions, computed_max, i)
    &&& forall|i: int|
        0 <= i < instructions.len() ==> ((
        #[trigger] instructions[i]).spec_entry_stack_depth().is_some() <==> reachable(
            instructions,
            i,
        ))
    &&& computed_max <= rules.limits.max_stack_depth
    &&& computed_max > 0 ==> exists|i: int|
        0 <= i < instructions.len() && #[trigger] attains(rules, instructions, computed_max, i)
}

/// On every path of control, each instruction is entered at its recorded
/// depth, holds the values it removes, and leaves a depth within the computed
/// maximum.
pub proof fn lemma_paths_are_stack_safe(
    rules: StackRules,
    instructions: Seq<VerifiedInstruction>,
    computed_max: u32,
    path: Seq<int>,
)
    requires
        forall|i: int|
            0 <= i < instructions.len() ==> settled(rules, instructions, computed_max, i),
        instructions.len() > 0,
        instructions[0].spec_entry_stack_depth() == Some(0u32),
        is_path(instructions, path),
    ensures
        match instructions[path.last()].spec_entry_stack_depth() {
            None => false,
            Some(depth) => match instructions[path.last()].spec_decoded().instruction.spec_stack_effect() {
                Err(_) => false,
                Ok(effect) => effect.pops <= depth && depth - effect.pops + effect.pushes
                    <= computed_max,
            },
        },
    decreases path.len(),
{
    let last = path.last();
    assert(path[path.len() - 1] == last);
    assert(0 <= last < instructions.len());
    if path.len() > 1 {
        let shorter = path.drop_last();
        assert(is_path(instructions, shorter)) by {
            assert forall|k: int, l: int|
                0 <= k < shorter.len() && l == k + 1 && l < shorter.len() implies leads_to(
                instructions[#[trigger] shorter[k]].spec_successors(),
                #[trigger] shorter[l],
            ) by {
                assert(shorter[k] == path[k] && shorter[l] == path[l]);
            }
            assert forall|k: int| 0 <= k < shorter.len() implies 0 <= #[trigger] shorter[k]
                < instructions.len() by {
                assert(shorter[k] == path[k]);
            }
        }
        lemma_paths_are_stack_safe(rules, instructions, computed_max, shorter);
        let before = shorter.last();
        assert(before == path[path.len() - 2]);
        assert(leads_to(instructions[before].spec_successors(), last));
        assert(settled(rules, instructions, computed_max, before));
    }
    assert(settled(rules, instructions, computed_max, last));
}

/// `after` records at least the depths of `before`, on the same instructions.
spec fn grows(before: Seq<VerifiedInstruction>, after: Seq<VerifiedInstruction>) -> bool {
    &&& before.len() == after.len()
    &&& forall|i: int|
        #![trigger after[i]]
        #![trigger before[i]]
        0 <= i < before.len() ==> after[i].decoded == before[i].decoded && after[i].successors
            == before[i].successors && (before[i].entry_stack_depth.is_some()
            ==> after[i].entry_stack_depth == before[i].entry_stack_depth)
}

/// Whether instruction `at` is queued.
spec fn is_queued(worklist: Seq<InstructionIndex>, at: int) -> bool {
    exists|k: int| 0 <= k < worklist.len() && (#[trigger] worklist[k]).0 == at
}

proof fn lemma_push_path(instructions: Seq<VerifiedInstruction>, at: int, next: int)
    requires
        reachable(instructions, at),
        leads_to(instructions[at].successors, next),
        0 <= next < instructions.len(),
    ensures
        reachable(instructions, next),
{
    let path = choose|path: Seq<int>| #[trigger]
        is_path(instructions, path) && path.last() == at;
    let longer = path.push(next);
    assert forall|k: int, l: int|
        0 <= k < longer.len() && l == k + 1 && l < longer.len() implies leads_to(
        instructions[#[trigger] longer[k]].spec_successors(),
        #[trigger] longer[l],
    ) by {
        if l < path.len() {
            assert(longer[k] == path[k] && longer[l] == path[l]);
        } else {
            assert(longer[k] == path.last());
        }
    }
    assert(longer[0] == path[0]);
    assert(is_path(instructions, longer));
    assert(longer.last() == next);
}

proof fn lemma_paths_grow(
    before: Seq<VerifiedInstruction>,
    after: Seq<VerifiedInstruction>,
    at: int,
)
    requires
        grows(before, after),
    ensures
        reachable(before, at) <==> reachable(after, at),
{
    if reachable(before, at) {
        let path = choose|path: Seq<int>| #[trigger]
            is_path(before, path) && path.last() == at;
        assert(is_path(after, path)) by {
            assert forall|k: int, l: int|
                0 <= k < path.len() && l == k + 1 && l < path.len() implies leads_to(
                after[#[trigger] path[k]].spec_successors(),
                #[trigger] path[l],
            ) by {
                assert(after[path[k]].successors == before[path[k]].successors);
            }
        }
    }
    if reachable(after, at) {
        let path = choose|path: Seq<int>| #[trigger]
            is_path(after, path) && path.last() == at;
        assert(is_path(before, path)) by {
            assert forall|k: int, l: int|
                0 <= k < path.len() && l == k + 1 && l < path.len() implies leads_to(
                before[#[trigger] path[k]].spec_successors(),
                #[trigger] path[l],
            ) by {
                assert(after[path[k]].successors == before[path[k]].successors);
            }
        }
    }
}

/// What holds between evaluations.
spec fn depth_invariant(rules: StackRules, state: DepthState) -> bool {
    let instructions = state.instructions;
    &&& instructions.len() > 0
    &&& instructions[0].entry_stack_depth == Some(0u32)
    &&& forall|k: int|
        0 <= k < state.worklist.len() ==> (#[trigger] state.worklist[k]).0 < instructions.len()
            && instructions[state.worklist[k].0 as int].entry_stack_depth.is_some()
    &&& forall|i: int|
        #![trigger instructions[i]]
        0 <= i < instructions.len() && !is_queued(state.worklist, i) ==> settled(
            rules,
            instructions,
            state.computed_max,
            i,
        )
    &&& forall|i: int|
        0 <= i < instructions.len() && (#[trigger] instructions[i]).entry_stack_depth.is_some()
            ==> reachable(instructions, i)
    &&& state.computed_max <= rules.limits.max_stack_depth
    &&& state.computed_max > 0 ==> exists|i: int|
        0 <= i < instructions.len() && #[trigger] attains(
            rules,
            instructions,
            state.computed_max,
            i,
        )
}

proof fn lemma_propagated(
    state: DepthState,
    target: InstructionIndex,
    depth: u32,
    source: DecodedInstruction,
)
    ensures
        match propagated(state, target, depth, source) {
            Err(_) => true,
            Ok(next) => {
                &&& grows(state.instructions, next.instructions)
                &&& target.0 < next.instructions.len()
                &&& next.instructions[target.0 as int].entry_stack_depth == Some(depth)
                &&& next.computed_max == state.computed_max
                &&& next.evaluations == state.evaluations
                &&& forall|i: int| is_queued(state.worklist, i) ==> is_queued(next.worklist, i)
                &&& forall|k: int|
                    0 <= k < next.worklist.len() ==> (#[trigger] next.worklist[k] == target
                        || state.worklist.contains(next.worklist[k]))
                &&& forall|i: int|
                    0 <= i < next.instructions.len() && (
                    #[trigger] next.instructions[i]).entry_stack_depth.is_some() ==> (
                    state.instructions[i].entry_stack_depth.is_some() || (i == target.0
                        && is_queued(next.worklist, i)))
            },
        },
{
    if let Ok(next) = propagated(state, target, depth, source) {
        let at = target.0 as int;
        if state.instructions[at].entry_stack_depth.is_none() {
            assert(next.worklist[next.worklist.len() - 1] == target);
            assert(is_queued(next.worklist, at));
            assert forall|i: int| is_queued(state.worklist, i) implies is_queued(
                next.worklist,
                i,
            ) by {
                let k = choose|k: int|
                    0 <= k < state.worklist.len() && (#[trigger] state.worklist[k]).0 == i;
                assert(next.worklist[k].0 == i);
            }
            assert forall|k: int| 0 <= k < next.worklist.len() implies (
            #[trigger] next.worklist[k] == target || state.worklist.contains(
                next.worklist[k],
            )) by {
                if k < state.worklist.len() {
                    assert(next.worklist[k] == state.worklist[k]);
                }
            }
        }
    }
}

/// Composition of growth.
proof fn lemma_grows_transitive(
    first: Seq<VerifiedInstruction>,
    second: Seq<VerifiedInstruction>,
    third: Seq<VerifiedInstruction>,
)
    requires
        grows(first, second),
        grows(second, third),
    ensures
        grows(first, third),
{
    assert forall|i: int|
        #![trigger third[i]]
        #![trigger first[i]]
        0 <= i < first.len() implies third[i].decoded == first[i].decoded && third[i].successors
        == first[i].successors && (first[i].entry_stack_depth.is_some()
        ==> third[i].entry_stack_depth == first[i].entry_stack_depth) by {
        assert(second[i].decoded == first[i].decoded);
        assert(third[i].decoded == second[i].decoded);
    }
}

/// Effect of propagating to all successors of the evaluated instruction.
proof fn lemma_propagated_to_successors(
    rules: StackRules,
    state: DepthState,
    current: VerifiedInstruction,
    transfer: DepthTransfer,
)
    ensures
        match propagated_to_successors(rules, state, current, transfer) {
            Err(_) => true,
            Ok(next) => {
                &&& grows(state.instructions, next.instructions)
                &&& next.computed_max == state.computed_max
                &&& next.evaluations == state.evaluations
                &&& forall|i: int| is_queued(state.worklist, i) ==> is_queued(next.worklist, i)
                &&& forall|k: int|
                    0 <= k < next.worklist.len() ==> ((leads_to(
                        current.successors,
                        (#[trigger] next.worklist[k]).0 as int,
                    ) && next.worklist[k].0 < next.instructions.len()
                        && next.instructions[next.worklist[k].0 as int].entry_stack_depth.is_some())
                        || state.worklist.contains(next.worklist[k]))
                &&& forall|i: int|
                    0 <= i < next.instructions.len() && (
                    #[trigger] next.instructions[i]).entry_stack_depth.is_some() ==> (
                    state.instructions[i].entry_stack_depth.is_some() || (leads_to(
                        current.successors,
                        i,
                    ) && is_queued(next.worklist, i)))
                &&& match current.successors.spec_fallthrough() {
                    Some(index) => index.0 < next.instructions.len()
                        && next.instructions[index.0 as int].entry_stack_depth == Some(
                        transfer.output_depth,
                    ),
                    None => true,
                }
                &&& match current.successors.spec_jump_target() {
                    Some(index) => index.0 < next.instructions.len()
                        && next.instructions[index.0 as int].entry_stack_depth == Some(
                        transfer.output_depth,
                    ),
                    None => true,
                }
                &&& match current.successors.spec_branch_target() {
                    Some(index) => index.0 < next.instructions.len()
                        && next.instructions[index.0 as int].entry_stack_depth == Some(
                        transfer.taken_depth,
                    ),
                    None => true,
                }
                &&& current.successors.spec_kind() == VerifiedSuccessorKind::Terminate
                    ==> exit_check(rules, current.decoded, transfer.output_depth).is_ok()
            },
        },
{
    match current.successors.0 {
        VerifiedSuccessorsRepr::Fallthrough(successor) => {
            lemma_propagated(state, successor, transfer.output_depth, current.decoded);
        },
        VerifiedSuccessorsRepr::Jump(successor) => {
            lemma_propagated(state, successor, transfer.output_depth, current.decoded);
        },
        VerifiedSuccessorsRepr::Branch { taken, not_taken } => {
            lemma_propagated(state, taken, transfer.taken_depth, current.decoded);
            if let Ok(middle) = propagated(state, taken, transfer.taken_depth, current.decoded) {
                lemma_propagated(middle, not_taken, transfer.output_depth, current.decoded);
                if let Ok(next) = propagated(
                    middle,
                    not_taken,
                    transfer.output_depth,
                    current.decoded,
                ) {
                    lemma_grows_transitive(
                        state.instructions,
                        middle.instructions,
                        next.instructions,
                    );
                    assert(next.instructions[taken.0 as int].entry_stack_depth == Some(
                        transfer.taken_depth,
                    )) by {
                        assert(middle.instructions[taken.0 as int].entry_stack_depth.is_some());
                    }
                    assert forall|k: int| 0 <= k < next.worklist.len() implies ((leads_to(
                        current.successors,
                        (#[trigger] next.worklist[k]).0 as int,
                    ) && next.worklist[k].0 < next.instructions.len()
                        && next.instructions[next.worklist[k].0 as int].entry_stack_depth.is_some())
                        || state.worklist.contains(next.worklist[k])) by {
                        if next.worklist[k] != not_taken {
                            let j = middle.worklist.index_of(next.worklist[k]);
                            assert(middle.worklist.contains(next.worklist[k]));
                            assert(middle.worklist[j] == next.worklist[k]);
                        }
                    }
                    assert forall|i: int|
                        0 <= i < next.instructions.len() && (
                        #[trigger] next.instructions[i]).entry_stack_depth.is_some() implies (
                    state.instructions[i].entry_stack_depth.is_some() || (leads_to(
                        current.successors,
                        i,
                    ) && is_queued(next.worklist, i))) by {
                        assert(middle.instructions[i].decoded == state.instructions[i].decoded);
                    }
                }
            }
        },
        VerifiedSuccessorsRepr::Terminate => {
            assert(grows(state.instructions, state.instructions));
        },
    }
}

proof fn lemma_evaluated_keeps_invariant(rules: StackRules, state: DepthState)
    requires
        depth_invariant(rules, state),
        state.worklist.len() > 0,
    ensures
        match evaluated(rules, state) {
            Ok(next) => depth_invariant(rules, next) && grows(
                state.instructions,
                next.instructions,
            ),
            Err(_) => true,
        },
{
    let at = state.worklist[0].0 as int;
    let current = state.instructions[at];
    let depth = current.entry_stack_depth.unwrap();
    if let Ok(next) = evaluated(rules, state) {
        let transfer = depth_transfer(rules, current.decoded, depth).unwrap();
        let popped = DepthState {
            instructions: state.instructions,
            worklist: state.worklist.skip(1),
            computed_max: larger(
                state.computed_max,
                larger(transfer.output_depth, transfer.taken_depth),
            ),
            evaluations: state.evaluations + 1,
        };
        lemma_propagated_to_successors(rules, popped, current, transfer);
        let before = state.instructions;
        let after = next.instructions;
        assert forall|i: int|
            #![trigger after[i]]
            0 <= i < after.len() && !is_queued(next.worklist, i) implies settled(
            rules,
            after,
            next.computed_max,
            i,
        ) by {
            if after[i].entry_stack_depth.is_some() {
                assert(before[i].entry_stack_depth.is_some());
                if i != at {
                    if is_queued(state.worklist, i) {
                        let k = choose|k: int|
                            0 <= k < state.worklist.len() && (#[trigger] state.worklist[k]).0 == i;
                        assert(k > 0);
                        assert(popped.worklist[k - 1].0 == i);
                        assert(is_queued(popped.worklist, i));
                    }
                    assert(settled(rules, before, state.computed_max, i));
                    lemma_settled_grows(
                        rules,
                        before,
                        state.computed_max,
                        after,
                        next.computed_max,
                        i,
                    );
                }
            }
        }
        assert forall|k: int| 0 <= k < next.worklist.len() implies (
        #[trigger] next.worklist[k]).0 < after.len()
            && after[next.worklist[k].0 as int].entry_stack_depth.is_some() by {
            if popped.worklist.contains(next.worklist[k]) {
                let j = popped.worklist.index_of(next.worklist[k]);
                assert(popped.worklist[j] == state.worklist[j + 1]);
                assert(before[state.worklist[j + 1].0 as int].entry_stack_depth.is_some());
            }
        }
        assert forall|i: int|
            0 <= i < after.len() && (#[trigger] after[i]).entry_stack_depth.is_some() implies reachable(
            after,
            i,
        ) by {
            if before[i].entry_stack_depth.is_some() {
                lemma_paths_grow(before, after, i);
            } else {
                lemma_push_path(before, at, i);
                lemma_paths_grow(before, after, i);
            }
        }
        if next.computed_max > 0 {
            if next.computed_max == state.computed_max {
                let i = choose|i: int|
                    0 <= i < before.len() && #[trigger] attains(
                        rules,
                        before,
                        state.computed_max,
                        i,
                    );
                assert(after[i].decoded == before[i].decoded);
                assert(attains(rules, after, next.computed_max, i));
            } else {
                assert(after[at].decoded == before[at].decoded);
                assert(attains(rules, after, next.computed_max, at));
            }
        }
        assert(after[0].decoded == before[0].decoded);
    }
}

proof fn lemma_settled_grows(
    rules: StackRules,
    before: Seq<VerifiedInstruction>,
    before_max: u32,
    after: Seq<VerifiedInstruction>,
    after_max: u32,
    at: int,
)
    requires
        grows(before, after),
        before_max <= after_max,
        0 <= at < before.len(),
        before[at].entry_stack_depth.is_some(),
        settled(rules, before, before_max, at),
    ensures
        settled(rules, after, after_max, at),
{
    let successors = before[at].successors;
    assert(after[at].decoded == before[at].decoded);
    if let Some(index) = successors.spec_fallthrough() {
        assert(after[index.0 as int].decoded == before[index.0 as int].decoded);
    }
    if let Some(index) = successors.spec_jump_target() {
        assert(after[index.0 as int].decoded == before[index.0 as int].decoded);
    }
    if let Some(index) = successors.spec_branch_target() {
        assert(after[index.0 as int].decoded == before[index.0 as int].decoded);
    }
}

proof fn lemma_analyzed_keeps_invariant(rules: StackRules, state: DepthState)
    requires
        depth_invariant(rules, state),
    ensures
        match analyzed_from(rules, state) {
            Ok(end) => depth_invariant(rules, end) && grows(state.instructions, end.instructions),
            Err(_) => true,
        },
    decreases state.instructions.len() - state.evaluations,
{
    if state.worklist.len() == 0 || state.evaluations >= state.instructions.len() {
        assert(grows(state.instructions, state.instructions));
    } else {
        lemma_evaluated_keeps_invariant(rules, state);
        if let Ok(next) = evaluated(rules, state) {
            lemma_evaluated_evaluations(rules, state);
            lemma_analyzed_keeps_invariant(rules, next);
            if let Ok(end) = analyzed_from(rules, next) {
                lemma_grows_transitive(state.instructions, next.instructions, end.instructions);
            }
        }
    }
}

proof fn lemma_evaluated_evaluations(rules: StackRules, state: DepthState)
    ensures
        match evaluated(rules, state) {
            Ok(next) => next.evaluations == state.evaluations + 1,
            Err(_) => true,
        },
{
}

/// A successful analysis whose queue has run empty records sound depths and
/// leaves the instructions and their successors as they were.
pub(crate) proof fn lemma_analysis_is_sound(
    rules: StackRules,
    instructions: Seq<VerifiedInstruction>,
    end: DepthState,
)
    requires
        stack_analysis(rules, instructions) == Ok::<DepthState, VerificationError>(end),
        end.worklist.len() == 0,
        forall|i: int|
            0 <= i < instructions.len() ==> (
            #[trigger] instructions[i]).entry_stack_depth.is_none(),
    ensures
        sound_depths(rules, end.instructions, end.computed_max),
        end.instructions.len() == instructions.len(),
        forall|i: int|
            0 <= i < instructions.len() ==> (#[trigger] end.instructions[i]).decoded
                == instructions[i].decoded && end.instructions[i].successors
                == instructions[i].successors,
{
    let start = initial_state(instructions);
    assert(depth_invariant(rules, start)) by {
        assert(start.worklist[0].0 == 0);
        assert(is_queued(start.worklist, 0));
        let path = seq![0int];
        assert(is_path(start.instructions, path));
        assert(path.last() == 0);
        assert(reachable(start.instructions, 0));
    }
    lemma_analyzed_keeps_invariant(rules, start);
    let after = end.instructions;
    assert forall|i: int| 0 <= i < after.len() implies settled(
        rules,
        after,
        end.computed_max,
        i,
    ) by {
        assert(!is_queued(end.worklist, i));
        assert(after[i] == after[i]);
    }
    assert forall|i: int| 0 <= i < after.len() implies ((
    #[trigger] after[i]).spec_entry_stack_depth().is_some() <==> reachable(after, i)) by {
        if reachable(after, i) {
            let path = choose|path: Seq<int>| #[trigger] is_path(after, path) && path.last() == i;
            lemma_paths_are_stack_safe(rules, after, end.computed_max, path);
        }
    }
    assert forall|i: int| 0 <= i < instructions.len() implies (#[trigger] after[i]).decoded
        == instructions[i].decoded && after[i].successors == instructions[i].successors by {
        assert(start.instructions[i].decoded == instructions[i].decoded);
    }
}

} // verus!
