//! Searching a sequence for the first item that meets a condition.

use vstd::prelude::*;

verus! {

/// The position of the first item of `s` that meets `p`, if there is one.
pub open spec fn first_index<T>(s: Seq<T>, p: spec_fn(T) -> bool) -> Option<int>
    decreases s.len(),
{
    if s.len() == 0 {
        None
    } else if p(s.last()) && first_index(s.drop_last(), p) is None {
        Some(s.len() - 1)
    } else {
        first_index(s.drop_last(), p)
    }
}

/// Whether `i` is the position of the first item of `s` that meets `p`.
pub open spec fn is_first<T>(s: Seq<T>, p: spec_fn(T) -> bool, i: int) -> bool {
    &&& 0 <= i < s.len()
    &&& p(s[i])
    &&& forall|j: int| 0 <= j < i ==> !p(#[trigger] s[j])
}

/// `first_index` is the position of the first match, and `None` exactly when
/// nothing matches.
pub proof fn lemma_first_index<T>(s: Seq<T>, p: spec_fn(T) -> bool)
    ensures
        match first_index(s, p) {
            Some(i) => is_first(s, p, i),
            None => forall|j: int| 0 <= j < s.len() ==> !p(#[trigger] s[j]),
        },
    decreases s.len(),
{
    if s.len() > 0 {
        lemma_first_index(s.drop_last(), p);
        let t = s.drop_last();
        assert(forall|j: int| 0 <= j < t.len() ==> t[j] == s[j]);
    }
}

/// The first match is unique: whoever is first is what `first_index` gives.
pub proof fn lemma_first_index_is<T>(s: Seq<T>, p: spec_fn(T) -> bool, i: int)
    requires
        is_first(s, p, i),
    ensures
        first_index(s, p) == Some(i),
{
    lemma_first_index(s, p);
    match first_index(s, p) {
        Some(k) => {
            if k < i {
                assert(p(s[k]));
            } else if i < k {
                assert(p(s[i]));
            }
        },
        None => {
            assert(p(s[i]));
        },
    }
}

/// Nothing matching means no first match.
pub proof fn lemma_first_index_none<T>(s: Seq<T>, p: spec_fn(T) -> bool)
    requires
        forall|j: int| 0 <= j < s.len() ==> !p(#[trigger] s[j]),
    ensures
        first_index(s, p) is None,
{
    lemma_first_index(s, p);
    if let Some(k) = first_index(s, p) {
        assert(p(s[k]));
    }
}

/// Replacing an item by one that meets the condition exactly when the old
/// one did leaves the first match where it was.
pub proof fn lemma_first_index_update<T>(s: Seq<T>, p: spec_fn(T) -> bool, i: int, x: T)
    requires
        0 <= i < s.len(),
        p(x) == p(s[i]),
    ensures
        first_index(s.update(i, x), p) == first_index(s, p),
{
    let t = s.update(i, x);
    lemma_first_index(s, p);
    assert forall|j: int| 0 <= j < t.len() implies p(#[trigger] t[j]) == p(s[j]) by {
        if j == i {
        } else {
        }
    }
    match first_index(s, p) {
        Some(k) => {
            assert forall|j: int| 0 <= j < k implies !p(#[trigger] t[j]) by {
                assert(p(t[j]) == p(s[j]));
            }
            assert(p(t[k]) == p(s[k]));
            lemma_first_index_is(t, p, k);
        },
        None => {
            assert forall|j: int| 0 <= j < t.len() implies !p(#[trigger] t[j]) by {
                assert(p(t[j]) == p(s[j]));
            }
            lemma_first_index_none(t, p);
        },
    }
}

} // verus!
