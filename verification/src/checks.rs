//! Ordered checks: the first failing one decides.
use vstd::prelude::*;

verus! {

/// The first failing check of a sequence, success when none fails.
pub open spec fn first_failure<E>(checks: Seq<Result<(), E>>) -> Result<(), E>
    decreases checks.len(),
{
    if checks.len() == 0 {
        Ok(())
    } else if checks[0].is_err() {
        checks[0]
    } else {
        first_failure(checks.skip(1))
    }
}

/// A failing check with only passing ones before it decides the sequence.
pub proof fn lemma_first_failure_at<E>(checks: Seq<Result<(), E>>, at: int)
    requires
        0 <= at < checks.len(),
        checks[at].is_err(),
        forall|i: int| 0 <= i < at ==> (#[trigger] checks[i]).is_ok(),
    ensures
        first_failure(checks) == checks[at],
    decreases checks.len(),
{
    if at > 0 {
        assert(checks[0].is_ok());
        let rest = checks.skip(1);
        assert forall|i: int| 0 <= i < at - 1 implies (#[trigger] rest[i]).is_ok() by {
            assert(rest[i] == checks[i + 1]);
        }
        lemma_first_failure_at(rest, at - 1);
    }
}

/// A sequence of passing checks passes.
pub proof fn lemma_no_failure<E>(checks: Seq<Result<(), E>>)
    requires
        forall|i: int| 0 <= i < checks.len() ==> (#[trigger] checks[i]).is_ok(),
    ensures
        first_failure(checks) == Ok::<(), E>(()),
    decreases checks.len(),
{
    if checks.len() > 0 {
        assert(checks[0].is_ok());
        let rest = checks.skip(1);
        assert forall|i: int| 0 <= i < rest.len() implies (#[trigger] rest[i]).is_ok() by {
            assert(rest[i] == checks[i + 1]);
        }
        lemma_no_failure(rest);
    }
}

/// A sequence passes only where each of its checks does.
pub proof fn lemma_success_means_all<E>(checks: Seq<Result<(), E>>)
    requires
        first_failure(checks).is_ok(),
    ensures
        forall|i: int| 0 <= i < checks.len() ==> (#[trigger] checks[i]).is_ok(),
{
    if exists|i: int| 0 <= i < checks.len() && (#[trigger] checks[i]).is_err() {
        let i = choose|i: int| 0 <= i < checks.len() && (#[trigger] checks[i]).is_err();
        lemma_some_failure(checks, i);
    }
}

proof fn lemma_some_failure<E>(checks: Seq<Result<(), E>>, at: int)
    requires
        0 <= at < checks.len(),
        checks[at].is_err(),
    ensures
        first_failure(checks).is_err(),
    decreases checks.len(),
{
    if checks[0].is_ok() {
        assert(checks.skip(1)[at - 1] == checks[at]);
        lemma_some_failure(checks.skip(1), at - 1);
    }
}

/// The failure of a sequence is the failure of one of its checks.
pub proof fn lemma_failure_is_of_a_check<E>(checks: Seq<Result<(), E>>)
    ensures
        first_failure(checks).is_err() ==> exists|i: int|
            0 <= i < checks.len() && #[trigger] checks[i] == first_failure(checks),
    decreases checks.len(),
{
    if checks.len() > 0 {
        assert(checks[0] == checks[0]);
        let rest = checks.skip(1);
        lemma_failure_is_of_a_check(rest);
        if checks[0].is_ok() && first_failure(rest).is_err() {
            let i = choose|i: int| 0 <= i < rest.len() && #[trigger] rest[i] == first_failure(rest);
            assert(checks[i + 1] == rest[i]);
        }
    }
}

/// Checks put behind others are reached only when those pass.
pub proof fn lemma_first_failure_concat<E>(first: Seq<Result<(), E>>, second: Seq<Result<(), E>>)
    ensures
        first_failure(first + second) == if first_failure(first).is_err() {
            first_failure(first)
        } else {
            first_failure(second)
        },
    decreases first.len(),
{
    if first.len() == 0 {
        assert(first + second =~= second);
    } else {
        assert((first + second).skip(1) =~= first.skip(1) + second);
        lemma_first_failure_concat(first.skip(1), second);
    }
}

} // verus!
