//! Searching sequences.

use vstd::prelude::*;

verus! {

/// The index of the first element of `s` that equals `x`, or the length of `s` if there is none.
pub open spec fn first_index_of<A>(s: Seq<A>, x: A) -> int
    decreases s.len(),
{
    if s.len() == 0 {
        0
    } else if s[0] == x {
        0
    } else {
        1 + first_index_of(s.drop_first(), x)
    }
}

/// `s` without the first of its elements that equals `x`; `s` itself if there is none.
pub open spec fn without_first<A>(s: Seq<A>, x: A) -> Seq<A> {
    let i = first_index_of(s, x);
    if i < s.len() {
        s.remove(i)
    } else {
        s
    }
}

} // verus!
