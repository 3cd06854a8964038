//! Small declaration-processing utilities.

use vstd::prelude::*;
use vstd::std_specs::cmp::PartialEqSpec;

verus! {

/// Whether `search` occurs in `src` as a contiguous run starting at
/// position `i`, element equality taken from the type's own `==`.
pub open spec fn spec_matches_at<T: PartialEqSpec>(src: Seq<T>, search: Seq<T>, i: int) -> bool {
    forall|k: int| 0 <= k < search.len() ==> (#[trigger] src[i + k]).eq_spec(&search[k])
}

/// Whether `search` occurs somewhere in `src` as a contiguous run.
pub open spec fn spec_is_subsequence<T: PartialEqSpec>(src: Seq<T>, search: Seq<T>) -> bool {
    &&& search.len() <= src.len()
    &&& exists|i: int|
        0 <= i <= src.len() - search.len() && spec_matches_at(src, search, i)
}

/// Search for `search` as a contiguous run of elements of `src`.
pub fn is_subsequence<T: PartialEq + PartialEqSpec>(src: &[T], search: &[T]) -> (r: bool)
    requires
        T::obeys_eq_spec(),
    ensures
        r == spec_is_subsequence(src@, search@),
{
    if search.len() > src.len() {
        return false;
    }
    let mut i: usize = 0;
    while i <= src.len() - search.len()
        invariant
            T::obeys_eq_spec(),
            src@.len() <= usize::MAX,
            search@.len() <= src@.len(),
            i <= src@.len() - search@.len() + 1,
            forall|p: int| 0 <= p < i ==> !spec_matches_at(src@, search@, p),
        decreases src@.len() - search@.len() + 1 - i,
    {
        let mut matches = true;
        let mut k: usize = 0;
        while k < search.len()
            invariant
                T::obeys_eq_spec(),
                src@.len() <= usize::MAX,
                search@.len() <= src@.len(),
                i <= src@.len() - search@.len(),
                k <= search@.len(),
                matches == (forall|t: int|
                    0 <= t < k ==> (#[trigger] src@[i + t]).eq_spec(&search@[t])),
            decreases search@.len() - k,
        {
            if !(src[i + k] == search[k]) {
                matches = false;
            }
            k = k + 1;
        }
        if matches {
            assert(spec_matches_at(src@, search@, i as int));
            return true;
        }
        i = i + 1;
    }
    false
}

} // verus!
