//! Finding the first item of a sequence that meets a condition.
use vstd::prelude::*;

verus! {

/// The index of the first item of `s` that meets `wanted`, or the length
/// of `s` where none does.
pub open spec fn first_index<T>(s: Seq<T>, wanted: spec_fn(T) -> bool) -> int
    decreases s.len(),
{
    if s.len() == 0 {
        0
    } else if wanted(s[0]) {
        0
    } else {
        1 + first_index(s.drop_first(), wanted)
    }
}

/// `first_index` is in range, points at a match where there is one, and
/// nothing before it matches.
pub proof fn lemma_first_index<T>(s: Seq<T>, wanted: spec_fn(T) -> bool)
    ensures
        0 <= first_index(s, wanted) <= s.len(),
        first_index(s, wanted) < s.len() ==> wanted(s[first_index(s, wanted)]),
        forall|k: int| 0 <= k < first_index(s, wanted) ==> !wanted(#[trigger] s[k]),
    decreases s.len(),
{
    if s.len() > 0 && !wanted(s[0]) {
        lemma_first_index(s.drop_first(), wanted);
        let rest = first_index(s.drop_first(), wanted);
        assert forall|k: int| 0 <= k < 1 + rest implies !wanted(#[trigger] s[k]) by {
            if k > 0 {
                assert(s.drop_first()[k - 1] == s[k]);
            }
        }
    }
}

/// An index that nothing matches before, and that is the end or a match,
/// is the `first_index`.
pub proof fn lemma_first_index_is<T>(s: Seq<T>, wanted: spec_fn(T) -> bool, i: int)
    requires
        0 <= i <= s.len(),
        forall|k: int| 0 <= k < i ==> !wanted(#[trigger] s[k]),
        i < s.len() ==> wanted(s[i]),
    ensures
        first_index(s, wanted) == i,
{
    lemma_first_index(s, wanted);
}

} // verus!
