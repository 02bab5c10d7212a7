//! The first index below a bound at which a predicate holds.

use vstd::prelude::*;

verus! {

/// `i` is the least index below `n` that satisfies `p`.
pub open spec fn is_first(n: int, p: spec_fn(int) -> bool, i: int) -> bool {
    &&& 0 <= i < n
    &&& p(i)
    &&& forall|j: int| 0 <= j < i ==> !#[trigger] p(j)
}

/// No index below `n` satisfies `p`.
pub open spec fn none_satisfies(n: int, p: spec_fn(int) -> bool) -> bool {
    forall|j: int| 0 <= j < n ==> !#[trigger] p(j)
}

/// The least index below `n` that satisfies `p`, if there is one.
pub open spec fn first_index(n: int, p: spec_fn(int) -> bool) -> Option<int> {
    if exists|i: int| is_first(n, p, i) {
        Some(choose|i: int| is_first(n, p, i))
    } else {
        None
    }
}

/// A result held in machine integers, read as an index.
pub open spec fn as_index(r: Option<u32>) -> Option<int> {
    match r {
        Some(i) => Some(i as int),
        None => None,
    }
}

/// A least satisfying index is the value of `first_index`.
pub proof fn lemma_first_index_some(n: int, p: spec_fn(int) -> bool, i: int)
    requires
        is_first(n, p, i),
    ensures
        first_index(n, p) == Some(i),
{
    let k = choose|k: int| is_first(n, p, k);
    assert(is_first(n, p, k));
    if k < i {
        assert(!p(k));
    }
    if i < k {
        assert(!p(i));
    }
}

/// Where nothing satisfies `p`, `first_index` is `None`.
pub proof fn lemma_first_index_none(n: int, p: spec_fn(int) -> bool)
    requires
        none_satisfies(n, p),
    ensures
        first_index(n, p) is None,
{
    if exists|i: int| is_first(n, p, i) {
        let k = choose|k: int| is_first(n, p, k);
        assert(!p(k));
    }
}

/// Below any satisfying index there is a least one.
pub proof fn lemma_least_exists(n: int, p: spec_fn(int) -> bool, j: int)
    requires
        0 <= j < n,
        p(j),
    ensures
        exists|i: int| is_first(n, p, i),
    decreases j,
{
    if exists|k: int| 0 <= k < j && #[trigger] p(k) {
        let k = choose|k: int| 0 <= k < j && #[trigger] p(k);
        lemma_least_exists(n, p, k);
    } else {
        assert(is_first(n, p, j));
    }
}

/// What `first_index` returns is a least satisfying index; where it returns
/// nothing, nothing satisfies.
pub proof fn lemma_first_index_sound(n: int, p: spec_fn(int) -> bool)
    ensures
        match first_index(n, p) {
            Some(i) => is_first(n, p, i),
            None => none_satisfies(n, p),
        },
{
    if exists|i: int| is_first(n, p, i) {
    } else {
        assert forall|j: int| 0 <= j < n implies !#[trigger] p(j) by {
            if p(j) {
                lemma_least_exists(n, p, j);
            }
        }
    }
}

} // verus!
