//! Copies of vectors.
use vstd::prelude::*;

verus! {

/// Returns a vector with the same items.
pub(crate) fn copied<T: Copy>(items: &Vec<T>) -> (copy: Vec<T>)
    ensures
        copy@ == items@,
{
    let mut copy: Vec<T> = Vec::with_capacity(items.len());
    let mut at: usize = 0;
    while at < items.len()
        invariant
            at <= items@.len(),
            copy@ == items@.take(at as int),
        decreases items@.len() - at,
    {
        copy.push(items[at]);
        at = at + 1;
        assert(items@.take(at as int) =~= items@.take(at - 1).push(items@[at - 1]));
    }
    assert(items@.take(at as int) =~= items@);
    copy
}

} // verus!
