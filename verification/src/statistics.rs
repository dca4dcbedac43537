//! Statistics over months: the order in which a trend lists its months.

use vstd::prelude::*;

verus! {

/// The items in the opposite order: a trend collected from the latest month back comes
/// out oldest first.
pub fn chronological<T>(newest_first: Vec<T>) -> (oldest_first: Vec<T>)
    ensures
        oldest_first@ == newest_first@.reverse(),
{
    let ghost original = newest_first@;
    let mut rest = newest_first;
    let mut out: Vec<T> = Vec::new();
    while rest.len() > 0
        invariant
            rest@ == original.subrange(0, rest@.len() as int),
            rest@.len() + out@.len() == original.len(),
            forall|i: int| 0 <= i < out@.len() ==> out@[i] == original[original.len() - 1 - i],
        decreases rest@.len(),
    {
        let item = rest.pop().unwrap();
        out.push(item);
    }
    assert(out@ =~= original.reverse());
    out
}

} // verus!
