//! Which places of a sequence are picked, and in what order.

use vstd::prelude::*;

verus! {

/// Whether `places` are all the places below `len` that are wanted, each once and in order.
pub open spec fn are_places(places: Seq<int>, len: nat, wanted: spec_fn(int) -> bool) -> bool {
    &&& forall|k: int|
        0 <= k < places.len() ==> 0 <= #[trigger] places[k] < len && wanted(places[k])
    &&& forall|j: int, k: int|
        0 <= j < k < places.len() ==> #[trigger] places[j] < #[trigger] places[k]
    &&& forall|i: int| 0 <= i < len && #[trigger] wanted(i) ==> places.contains(i)
}

/// There is no place below zero.
pub proof fn no_places(wanted: spec_fn(int) -> bool)
    ensures
        are_places(Seq::empty(), 0, wanted),
{
}

/// The place `len` comes last of those below `len + 1`, where it is wanted.
pub proof fn next_place(places: Seq<int>, len: nat, wanted: spec_fn(int) -> bool) -> (next: Seq<
    int,
>)
    requires
        are_places(places, len, wanted),
    ensures
        next == (if wanted(len as int) {
            places.push(len as int)
        } else {
            places
        }),
        are_places(next, len + 1, wanted),
{
    let next = if wanted(len as int) {
        places.push(len as int)
    } else {
        places
    };
    assert forall|i: int| 0 <= i < len + 1 && #[trigger] wanted(i) implies next.contains(i) by {
        if i < len {
            assert(places.contains(i));
            let k = places.index_of(i);
            assert(next[k] == i);
        } else {
            assert(next[places.len() as int] == i);
        }
    }
    next
}

} // verus!
