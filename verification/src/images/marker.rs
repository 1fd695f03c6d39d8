//! Searching a byte sequence for a two-byte marker.

use vstd::prelude::*;

verus! {

/// The bytes `first` and `second` stand at positions `at` and `at + 1` of
/// `data`.
pub open spec fn marker_at(data: Seq<u8>, first: u8, second: u8, at: int) -> bool {
    &&& 0 <= at
    &&& at + 1 < data.len()
    &&& data[at] == first
    &&& data[at + 1] == second
}

/// The marker stands at `at` and nowhere before it.
pub open spec fn first_marker_at(data: Seq<u8>, first: u8, second: u8, at: int) -> bool {
    &&& marker_at(data, first, second, at)
    &&& forall|earlier: int| 0 <= earlier < at ==> !marker_at(data, first, second, earlier)
}

/// Position of the first occurrence of the marker in `data`, if it occurs.
pub open spec fn first_marker(data: Seq<u8>, first: u8, second: u8) -> Option<int> {
    if exists|at: int| first_marker_at(data, first, second, at) {
        Some(choose|at: int| first_marker_at(data, first, second, at))
    } else {
        None
    }
}

/// A first occurrence is the only one: whoever knows that the marker stands
/// at `at` and nowhere before knows what `first_marker` is.
pub proof fn lemma_first_marker_is(data: Seq<u8>, first: u8, second: u8, at: int)
    requires
        first_marker_at(data, first, second, at),
    ensures
        first_marker(data, first, second) == Some(at),
{
    let chosen = choose|c: int| first_marker_at(data, first, second, c);
    assert(first_marker_at(data, first, second, chosen));
    if chosen < at {
        assert(!marker_at(data, first, second, chosen));
    }
    if at < chosen {
        assert(!marker_at(data, first, second, at));
    }
}

/// Where the marker stands nowhere, there is no first occurrence.
pub proof fn lemma_first_marker_none(data: Seq<u8>, first: u8, second: u8)
    requires
        forall|at: int| !marker_at(data, first, second, at),
    ensures
        first_marker(data, first, second) is None,
{
}

/// A marker that stands somewhere stands somewhere first, and not behind the
/// place where it is known to stand.
pub proof fn lemma_marker_has_first(data: Seq<u8>, first: u8, second: u8, at: int)
    requires
        marker_at(data, first, second, at),
    ensures
        first_marker(data, first, second) matches Some(earliest) && earliest <= at,
    decreases at,
{
    if exists|earlier: int| 0 <= earlier < at && marker_at(data, first, second, earlier) {
        let earlier = choose|earlier: int|
            0 <= earlier < at && marker_at(data, first, second, earlier);
        lemma_marker_has_first(data, first, second, earlier);
    } else {
        assert(first_marker_at(data, first, second, at));
        lemma_first_marker_is(data, first, second, at);
    }
}

/// Finds the first occurrence of the two bytes `first`, `second` in `data`.
pub fn find_marker(data: &[u8], first: u8, second: u8) -> (found: Option<usize>)
    ensures
        match found {
            Some(at) => first_marker(data@, first, second) == Some(at as int),
            None => first_marker(data@, first, second) is None,
        },
{
    if data.len() < 2 {
        proof {
            lemma_first_marker_none(data@, first, second);
        }
        return None;
    }
    let last: usize = data.len() - 1;
    let mut at: usize = 0;
    while at < last
        invariant
            last == data.len() - 1,
            at <= last,
            forall|earlier: int| 0 <= earlier < at ==> !marker_at(data@, first, second, earlier),
        decreases last - at,
    {
        if data[at] == first && data[at + 1] == second {
            proof {
                lemma_first_marker_is(data@, first, second, at as int);
            }
            return Some(at);
        }
        at += 1;
    }
    proof {
        lemma_first_marker_none(data@, first, second);
    }
    None
}

} // verus!
