//! Chains of scope links between the locals of a function.
use crate::bytecode::error::{
    BytecodeVerificationError, BytecodeVerificationErrorKind, function_error,
};
use crate::bytecode::model::{BytecodeGraphResource, ScopeLink, VariableDefinition};
use crate::bytecode::operand_use::{saturated_u32, usize_to_u32};
use crate::bytecode::stack_error::{allocation_error, reservation_failure, try_filled_vec};
use crate::function_graph::FunctionTemplateId;
use crate::reserve::reserve_vec_exact;
use vstd::prelude::*;

verus! {

/// The walk along scope links from `current`, behind the locals `walked`: it
/// must end, and not come back to a local it has passed.
pub open spec fn scope_walk(
    id: FunctionTemplateId,
    locals: Seq<VariableDefinition>,
    current: int,
    walked: Seq<int>,
) -> Result<(), BytecodeVerificationError>
    decreases locals.len() + 1 - walked.len(),
{
    if walked.len() > locals.len() {
        Ok(())
    } else if walked.contains(current) {
        Err(
            function_error(
                id,
                BytecodeVerificationErrorKind::ScopeLinkCycle { local: saturated_u32(current) },
            ),
        )
    } else {
        match locals[current].scope_next {
            ScopeLink::End => Ok(()),
            ScopeLink::ArgumentScopeEnd => Err(
                function_error(
                    id,
                    BytecodeVerificationErrorKind::ArgumentScopeMetadataUnsupported {
                        definition: saturated_u32(current),
                    },
                ),
            ),
            ScopeLink::Local(next) => scope_walk(id, locals, next as int, walked.push(current)),
        }
    }
}

/// The walks from `start` on; the first one that fails decides.
pub open spec fn scope_walks_from(
    id: FunctionTemplateId,
    locals: Seq<VariableDefinition>,
    start: int,
) -> Result<(), BytecodeVerificationError>
    decreases locals.len() - start,
{
    if start >= locals.len() {
        Ok(())
    } else if scope_walk(id, locals, start, Seq::empty()).is_err() {
        scope_walk(id, locals, start, Seq::empty())
    } else {
        scope_walks_from(id, locals, start + 1)
    }
}

/// Every link names a local.
pub open spec fn links_in_range(locals: Seq<VariableDefinition>) -> bool {
    forall|i: int|
        0 <= i < locals.len() ==> match (#[trigger] locals[i]).scope_next {
            ScopeLink::Local(next) => next < locals.len(),
            _ => true,
        }
}

/// How far the walk over a local has come.
#[derive(Clone, Copy, Debug, PartialEq, Eq, Hash, Structural)]
enum WalkState {
    Unwalked,
    Walking,
    Finished,
}

/// A finished local ends, or links to a finished local of lower rank.
spec fn rank_falls(
    locals: Seq<VariableDefinition>,
    states: Seq<WalkState>,
    ranks: Seq<nat>,
    at: int,
) -> bool {
    states[at] == WalkState::Finished ==> match locals[at].scope_next {
        ScopeLink::End => true,
        ScopeLink::ArgumentScopeEnd => false,
        ScopeLink::Local(next) => next < locals.len() && states[next as int] == WalkState::Finished
            && ranks[next as int] < ranks[at],
    }
}

/// Ranks fall along the links of finished locals.
spec fn ranked(locals: Seq<VariableDefinition>, states: Seq<WalkState>, ranks: Seq<nat>) -> bool {
    &&& states.len() == locals.len()
    &&& ranks.len() == locals.len()
    &&& forall|i: int| 0 <= i < locals.len() ==> #[trigger] rank_falls(locals, states, ranks, i)
}

/// A walk that reaches a finished local ends.
proof fn lemma_finished_walk_ends(
    id: FunctionTemplateId,
    locals: Seq<VariableDefinition>,
    states: Seq<WalkState>,
    ranks: Seq<nat>,
    current: int,
    walked: Seq<int>,
)
    requires
        ranked(locals, states, ranks),
        0 <= current < locals.len(),
        states[current] == WalkState::Finished,
        forall|k: int|
            0 <= k < walked.len() ==> 0 <= #[trigger] walked[k] < locals.len() && (
            states[walked[k]] == WalkState::Finished ==> ranks[walked[k]] > ranks[current]),
    ensures
        scope_walk(id, locals, current, walked).is_ok(),
    decreases locals.len() + 1 - walked.len(),
{
    assert(rank_falls(locals, states, ranks, current));
    if walked.len() <= locals.len() {
        if walked.contains(current) {
            let k = walked.index_of(current);
            assert(walked[k] == current);
        }
        if let ScopeLink::Local(next) = locals[current].scope_next {
            let longer = walked.push(current);
            assert forall|k: int| 0 <= k < longer.len() implies 0 <= #[trigger] longer[k]
                < locals.len() && (states[longer[k]] == WalkState::Finished ==> ranks[longer[k]] > ranks[next as int]) by {
                if k < walked.len() {
                    assert(longer[k] == walked[k]);
                }
            }
            lemma_finished_walk_ends(id, locals, states, ranks, next as int, longer);
        }
    }
}

/// Number of locals not yet walked.
spec fn unwalked(states: Seq<WalkState>) -> nat
    decreases states.len(),
{
    if states.len() == 0 {
        0
    } else {
        unwalked(states.drop_last()) + if states.last() == WalkState::Unwalked {
            1nat
        } else {
            0nat
        }
    }
}

proof fn lemma_unwalked_bound(states: Seq<WalkState>)
    ensures
        unwalked(states) <= states.len(),
    decreases states.len(),
{
    if states.len() > 0 {
        lemma_unwalked_bound(states.drop_last());
    }
}

proof fn lemma_unwalked_update(states: Seq<WalkState>, at: int, value: WalkState)
    requires
        0 <= at < states.len(),
        states[at] == WalkState::Unwalked,
        value != WalkState::Unwalked,
    ensures
        unwalked(states.update(at, value)) + 1 == unwalked(states),
    decreases states.len(),
{
    let updated = states.update(at, value);
    if at == states.len() - 1 {
        assert(updated.drop_last() =~= states.drop_last());
    } else {
        assert(updated.drop_last() =~= states.drop_last().update(at, value));
        lemma_unwalked_update(states.drop_last(), at, value);
    }
}

/// The walked part of a chain: distinct locals in state one, each linking to
/// the next.
spec fn on_path(locals: Seq<VariableDefinition>, states: Seq<WalkState>, path: Seq<usize>) -> bool {
    &&& forall|k: int|
        0 <= k < path.len() ==> (#[trigger] path[k]) < locals.len() && states[path[k] as int]
            == WalkState::Walking
    &&& forall|k: int, l: int| 0 <= k < l < path.len() ==> path[k] != path[l]
    &&& forall|k: int, l: int|
        0 <= k < path.len() && l == k + 1 && l < path.len() ==> locals[(
        #[trigger] path[k]) as int].scope_next == ScopeLink::Local((#[trigger] path[l]) as u32)
    &&& forall|i: int|
        0 <= i < states.len() && #[trigger] states[i] == WalkState::Walking ==> path.contains(i as usize)
}

/// The states once a whole path is finished.
spec fn finished(states: Seq<WalkState>) -> Seq<WalkState> {
    states.map_values(
        |state: WalkState|
            if state == WalkState::Walking {
                WalkState::Finished
            } else {
                state
            },
    )
}

/// Ranks that fall along the path, above the rank of the finished local that it
/// ends in.
spec fn path_ranks(
    states: Seq<WalkState>,
    path: Seq<usize>,
    ranks: Seq<nat>,
    base: nat,
) -> Seq<nat> {
    Seq::new(
        ranks.len(),
        |i: int|
            if states[i] == WalkState::Walking {
                (base + (path.len() - path.index_of(i as usize))) as nat
            } else {
                ranks[i]
            },
    )
}

proof fn lemma_path_ranks(
    locals: Seq<VariableDefinition>,
    states: Seq<WalkState>,
    path: Seq<usize>,
    ranks: Seq<nat>,
    current: int,
    base: nat,
)
    requires
        locals.len() <= u32::MAX,
        ranked(locals, states, ranks),
        on_path(locals, states, path),
        path.len() > 0 ==> (locals[path.last() as int].scope_next == ScopeLink::End || (
        locals[path.last() as int].scope_next == ScopeLink::Local(current as u32) && 0 <= current
            < locals.len() && states[current] == WalkState::Finished && base > ranks[current])),
    ensures
        ranked(locals, finished(states), path_ranks(states, path, ranks, base)),
{
    let after = finished(states);
    let ranking = path_ranks(states, path, ranks, base);
    assert forall|i: int| 0 <= i < locals.len() implies #[trigger] rank_falls(
        locals,
        after,
        ranking,
        i,
    ) by {
        assert(rank_falls(locals, states, ranks, i));
        if states[i] == WalkState::Walking {
            assert(path.contains(i as usize));
            let k = path.index_of(i as usize);
            assert(path[k] == i);
            if k + 1 < path.len() {
                let l = k + 1;
                let next = path[l];
                assert(locals[path[k] as int].scope_next == ScopeLink::Local(path[l] as u32));
                lemma_position(path, l);
            } else {
                assert(path.last() == i);
            }
        }
    }
}

/// In a path of distinct locals each has one position.
proof fn lemma_position(path: Seq<usize>, at: int)
    requires
        0 <= at < path.len(),
        forall|k: int, l: int| 0 <= k < l < path.len() ==> path[k] != path[l],
    ensures
        path.index_of(path[at]) == at,
{
    assert(path.contains(path[at]));
    let found = path.index_of(path[at]);
    assert(path[found] == path[at]);
}

fn walk_scope(
    id: FunctionTemplateId,
    locals: &[VariableDefinition],
    start: usize,
    states: &mut Vec<WalkState>,
    path: &mut Vec<usize>,
    Ghost(ranks): Ghost<Seq<nat>>,
) -> (walked: Result<Ghost<Seq<nat>>, BytecodeVerificationError>)
    requires
        links_in_range(locals@),
        locals@.len() <= u32::MAX,
        start < locals@.len(),
        old(states)@.len() == locals@.len(),
        ranked(locals@, old(states)@, ranks),
        old(path)@.len() == 0,
        forall|i: int| 0 <= i < old(states)@.len() ==> #[trigger] old(states)@[i]
            != WalkState::Walking,
    ensures
        match walked {
            Ok(next) => scope_walk(id, locals@, start as int, Seq::empty()).is_ok() && ranked(
                locals@,
                final(states)@,
                next@,
            ) && final(path)@.len() == 0 && final(states)@.len() == locals@.len() && (forall|
                i: int,
            |
                0 <= i < final(states)@.len() ==> #[trigger] final(states)@[i]
                    != WalkState::Walking),
            Err(error) => scope_walk(id, locals@, start as int, Seq::empty()) == Err::<
                (),
                BytecodeVerificationError,
            >(error),
        },
{
    let mut current: usize = start;
    let mut walking: bool = true;
    let ghost first = scope_walk(id, locals@, start as int, Seq::empty());
    let ghost trail = |path: Seq<usize>| path.map_values(|local: usize| local as int);
    proof {
        assert(trail(path@) =~= Seq::<int>::empty());
        lemma_unwalked_bound(states@);
    }
    while walking
        invariant
            links_in_range(locals@),
            locals@.len() <= u32::MAX,
            current < locals@.len(),
            states@.len() == locals@.len(),
            ranked(locals@, states@, ranks),
            on_path(locals@, states@, path@),
            path@.len() <= locals@.len(),
            unwalked(states@) + path@.len() <= locals@.len(),
            trail == (|path: Seq<usize>| path.map_values(|local: usize| local as int)),
            walking ==> first == scope_walk(id, locals@, current as int, trail(path@)),
            walking && path@.len() > 0 ==> locals@[path@.last() as int].scope_next
                == ScopeLink::Local(current as u32),
            !walking ==> first.is_ok(),
            !walking && path@.len() > 0 ==> (locals@[path@.last() as int].scope_next
                == ScopeLink::End || (locals@[path@.last() as int].scope_next == ScopeLink::Local(
                current as u32,
            ) && states@[current as int] == WalkState::Finished)),
            first == scope_walk(id, locals@, start as int, Seq::empty()),
        decreases
                unwalked(states@) + if walking {
                    1int
                } else {
                    0int
                },
    {
        let ghost walked = trail(path@);
        if matches!(states[current], WalkState::Finished) {
            proof {
                assert forall|k: int| 0 <= k < walked.len() implies 0 <= #[trigger] walked[k]
                    < locals@.len() && (states@[walked[k]] == WalkState::Finished ==> ranks[walked[k]]
                    > ranks[current as int]) by {
                    assert(walked[k] == path@[k] as int);
                }
                lemma_finished_walk_ends(
                    id,
                    locals@,
                    states@,
                    ranks,
                    current as int,
                    walked,
                );
            }
            walking = false;
        } else if matches!(states[current], WalkState::Walking) {
            proof {
                assert(path@.contains(current));
                let k = path@.index_of(current);
                assert(walked[k] == current as int);
                assert(walked.contains(current as int));
            }
            return Err(
                BytecodeVerificationError::function(
                    id,
                    BytecodeVerificationErrorKind::ScopeLinkCycle { local: usize_to_u32(current) },
                ),
            );
        } else {
            proof {
                if walked.contains(current as int) {
                    let k = walked.index_of(current as int);
                    assert(path@[k] == current);
                }
                lemma_unwalked_update(states@, current as int, WalkState::Walking);
            }
            let ghost before = states@;
            let ghost shorter = path@;
            states.set(current, WalkState::Walking);
            path.push(current);
            proof {
                assert(trail(path@) =~= walked.push(current as int));
                assert(on_path(locals@, states@, path@)) by {
                    assert forall|i: int|
                        0 <= i < states@.len() && #[trigger] states@[i] == WalkState::Walking implies path@.contains(
                        i as usize,
                    ) by {
                        if i == current {
                            assert(path@[path@.len() - 1] == current);
                        } else {
                            assert(before[i] == WalkState::Walking);
                            let k = shorter.index_of(i as usize);
                            assert(path@[k] == i as usize);
                        }
                    }
                }
                assert forall|i: int| 0 <= i < locals@.len() implies #[trigger] rank_falls(
                    locals@,
                    states@,
                    ranks,
                    i,
                ) by {
                    assert(rank_falls(locals@, before, ranks, i));
                }
            }
            match locals[current].scope_next {
                ScopeLink::End => {
                    walking = false;
                },
                ScopeLink::ArgumentScopeEnd => {
                    return Err(
                        BytecodeVerificationError::function(
                            id,
                            BytecodeVerificationErrorKind::ArgumentScopeMetadataUnsupported {
                                definition: usize_to_u32(current),
                            },
                        ),
                    );
                },
                ScopeLink::Local(next) => {
                    current = next as usize;
                },
            }
        }
    }
    let ghost mut ranking = ranks;
    let ghost whole = path@;
    let ghost walked_states = states@;
    proof {
        let base = if whole.len() > 0 && locals@[whole.last() as int].scope_next
            == ScopeLink::Local(current as u32) {
            ranks[current as int] + 1
        } else {
            0nat
        };
        ranking = path_ranks(walked_states, whole, ranks, base);
        lemma_path_ranks(locals@, walked_states, whole, ranks, current as int, base);
    }
    while path.len() > 0
        invariant
            locals@.len() <= u32::MAX,
            states@.len() == locals@.len(),
            walked_states.len() == locals@.len(),
            path@ == whole.take(path@.len() as int),
            path@.len() <= whole.len(),
            on_path(locals@, walked_states, whole),
            forall|i: int|
                0 <= i < states@.len() ==> #[trigger] states@[i] == if walked_states[i]
                    == WalkState::Walking && whole.index_of(i as usize) >= path@.len() {
                    WalkState::Finished
                } else {
                    walked_states[i]
                },
        decreases path@.len(),
    {
        let ghost count = path@.len() as int;
        if let Some(local) = path.pop() {
            proof {
                assert(local == whole[count - 1]);
                lemma_position(whole, count - 1);
                assert(path@ =~= whole.take(count - 1));
            }
            states.set(local, WalkState::Finished);
            proof {
                assert forall|i: int| 0 <= i < states@.len() implies #[trigger] states@[i]
                    == if walked_states[i] == WalkState::Walking && whole.index_of(i as usize)
                    >= count - 1 {
                    WalkState::Finished
                } else {
                    walked_states[i]
                } by {
                    if walked_states[i] == WalkState::Walking && i != local {
                        assert(whole.contains(i as usize));
                        assert(whole[whole.index_of(i as usize)] == i);
                    }
                }
            }
        }
    }
    proof {
        assert forall|i: int| 0 <= i < states@.len() implies #[trigger] states@[i]
            == finished(walked_states)[i] by {
            if walked_states[i] == WalkState::Walking {
                assert(whole.contains(i as usize));
            }
        }
        assert(states@ =~= finished(walked_states));
    }
    Ok(Ghost(ranking))
}

/// Checks that every chain of scope links between locals ends.
pub(crate) fn verify_scope_links(id: FunctionTemplateId, locals: &[VariableDefinition]) -> (
checked: Result<(), BytecodeVerificationError>)
    requires
        links_in_range(locals@),
        locals@.len() <= u32::MAX,
    ensures
        match checked {
            Ok(_) => scope_walks_from(id, locals@, 0).is_ok(),
            Err(error) => scope_walks_from(id, locals@, 0) == Err::<(), BytecodeVerificationError>(
                error,
            ) || error == reservation_failure(
                id,
                BytecodeGraphResource::VariableDefinitions,
                locals@.len() as u64,
            ),
        },
{
    let mut states = try_filled_vec(
        id,
        locals.len(),
        WalkState::Unwalked,
        BytecodeGraphResource::VariableDefinitions,
    )?;
    let mut path: Vec<usize> = Vec::new();
    if reserve_vec_exact(&mut path, locals.len()).is_err() {
        return Err(
            allocation_error(id, BytecodeGraphResource::VariableDefinitions, locals.len()),
        );
    }
    let ghost mut ranks = Seq::new(locals@.len(), |i: int| 0nat);
    let mut start: usize = 0;
    while start < locals.len()
        invariant
            start <= locals@.len(),
            links_in_range(locals@),
            locals@.len() <= u32::MAX,
            states@.len() == locals@.len(),
            ranked(locals@, states@, ranks),
            path@.len() == 0,
            forall|i: int|
                0 <= i < states@.len() ==> #[trigger] states@[i] != WalkState::Walking,
            scope_walks_from(id, locals@, 0) == scope_walks_from(id, locals@, start as int),
        decreases locals@.len() - start,
    {
        let next = walk_scope(id, locals, start, &mut states, &mut path, Ghost(ranks))?;
        proof {
            ranks = next@;
        }
        start = start + 1;
    }
    Ok(())
}

/// Where every walk ends, following links from any local ends.
pub proof fn lemma_scope_chains_end(
    id: FunctionTemplateId,
    locals: Seq<VariableDefinition>,
    start: int,
)
    requires
        scope_walks_from(id, locals, 0).is_ok(),
        0 <= start < locals.len(),
    ensures
        scope_walk(id, locals, start, Seq::empty()).is_ok(),
{
    lemma_walks_cover(id, locals, 0, start);
}

proof fn lemma_walks_cover(
    id: FunctionTemplateId,
    locals: Seq<VariableDefinition>,
    from: int,
    start: int,
)
    requires
        scope_walks_from(id, locals, from).is_ok(),
        0 <= from <= start < locals.len(),
    ensures
        scope_walk(id, locals, start, Seq::empty()).is_ok(),
    decreases start - from,
{
    if from < start {
        lemma_walks_cover(id, locals, from + 1, start);
    }
}

} // verus!
