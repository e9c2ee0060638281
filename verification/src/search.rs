//! The first element of a sequence that satisfies a condition.

use vstd::prelude::*;

verus! {

/// The least index at or after `start` whose element satisfies `wanted`, if
/// there is one.
pub open spec fn first_from<A>(s: Seq<A>, wanted: spec_fn(A) -> bool, start: int) -> Option<int>
    decreases s.len() - start,
{
    if start < 0 || start >= s.len() {
        None
    } else if wanted(s[start]) {
        Some(start)
    } else {
        first_from(s, wanted, start + 1)
    }
}

/// The least index whose element satisfies `wanted`, if there is one.
pub open spec fn first_index<A>(s: Seq<A>, wanted: spec_fn(A) -> bool) -> Option<int> {
    first_from(s, wanted, 0)
}

/// `first_from` finds an element that satisfies the condition and has none
/// that does between `start` and it; it finds nothing only when no element
/// from `start` on satisfies the condition.
pub proof fn lemma_first_from<A>(s: Seq<A>, wanted: spec_fn(A) -> bool, start: int)
    requires
        0 <= start,
    ensures
        match first_from(s, wanted, start) {
            Some(i) => start <= i < s.len() && wanted(s[i]) && forall|j: int|
                start <= j < i ==> !wanted(#[trigger] s[j]),
            None => forall|j: int| start <= j < s.len() ==> !wanted(#[trigger] s[j]),
        },
    decreases s.len() - start,
{
    if start < s.len() && !wanted(s[start]) {
        lemma_first_from(s, wanted, start + 1);
    }
}

/// An index is the first match exactly when its element satisfies the
/// condition and none before it does.
pub proof fn lemma_first_index<A>(s: Seq<A>, wanted: spec_fn(A) -> bool, i: int)
    ensures
        first_index(s, wanted) == Some(i) <==> (0 <= i < s.len() && wanted(s[i]) && forall|j: int|
            0 <= j < i ==> !wanted(#[trigger] s[j])),
        first_index(s, wanted) is None <==> forall|j: int|
            0 <= j < s.len() ==> !wanted(#[trigger] s[j]),
{
    lemma_first_from(s, wanted, 0);
}

} // verus!
