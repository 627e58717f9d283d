//! Fallible reservation of memory for std collections.
use std::collections::{HashMap, TryReserveError, VecDeque};
use vstd::prelude::*;

verus! {

/// Calls `Vec::try_reserve_exact`, which reserves room or reports that it
/// could not; either way the elements stay as they are. Whether it succeeds
/// rests on the host's memory and is left open.
#[verifier::external_body]
pub(crate) fn reserve_vec_exact<T>(vec: &mut Vec<T>, additional: usize) -> (reserved: Result<
    (),
    TryReserveError,
>)
    ensures
        final(vec)@ == old(vec)@,
{
    vec.try_reserve_exact(additional)
}

/// Calls `VecDeque::try_reserve`, which reserves room or reports that it could
/// not; either way the elements stay as they are. Whether it succeeds rests on
/// the host's memory and is left open.
#[verifier::external_body]
pub(crate) fn reserve_queue<T>(queue: &mut VecDeque<T>, additional: usize) -> (reserved: Result<
    (),
    TryReserveError,
>)
    ensures
        final(queue)@ == old(queue)@,
{
    queue.try_reserve(additional)
}

/// Calls `VecDeque::try_reserve_exact`, which reserves room or reports that it
/// could not; either way the elements stay as they are. Whether it succeeds
/// rests on the host's memory and is left open.
#[verifier::external_body]
pub(crate) fn reserve_queue_exact<T>(queue: &mut VecDeque<T>, additional: usize) -> (reserved:
    Result<(), TryReserveError>)
    ensures
        final(queue)@ == old(queue)@,
{
    queue.try_reserve_exact(additional)
}

/// Calls `HashMap::try_reserve`, which reserves room or reports that it could
/// not; either way the entries stay as they are. Whether it succeeds rests on
/// the host's memory and is left open.
#[verifier::external_body]
pub(crate) fn reserve_map<V>(map: &mut HashMap<u64, V>, additional: usize) -> (reserved: Result<
    (),
    TryReserveError,
>)
    ensures
        final(map)@ == old(map)@,
{
    map.try_reserve(additional)
}

} // verus!
