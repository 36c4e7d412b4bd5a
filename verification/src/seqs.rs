//! Facts about sequences that several modules use.

use vstd::prelude::*;

verus! {

/// Filtering a sequence with one more element at its end keeps that
/// element, at the end, exactly when it passes.
pub proof fn lemma_filter_push<A>(s: Seq<A>, p: spec_fn(A) -> bool, x: A)
    ensures
        s.push(x).filter(p) == if p(x) {
            s.filter(p).push(x)
        } else {
            s.filter(p)
        },
{
    reveal(Seq::filter);
    assert(s.push(x).drop_last() =~= s);
}

/// Inserting an element that fails the predicate leaves the filtered
/// sequence as it was.
pub proof fn lemma_filter_insert_failing<A>(s: Seq<A>, i: int, x: A, p: spec_fn(A) -> bool)
    requires
        0 <= i <= s.len(),
        !p(x),
    ensures
        s.insert(i, x).filter(p) == s.filter(p),
{
    assert(s.insert(i, x) =~= s.take(i).push(x) + s.skip(i));
    assert(s =~= s.take(i) + s.skip(i));
    Seq::filter_distributes_over_add(s.take(i).push(x), s.skip(i), p);
    Seq::filter_distributes_over_add(s.take(i), s.skip(i), p);
    lemma_filter_push(s.take(i), p, x);
}

/// Inserting a passing element before only failing ones puts it at the end
/// of the filtered sequence.
pub proof fn lemma_filter_insert_last<A>(s: Seq<A>, i: int, x: A, p: spec_fn(A) -> bool)
    requires
        0 <= i <= s.len(),
        p(x),
        forall|k: int| i <= k < s.len() ==> !p(#[trigger] s[k]),
    ensures
        s.insert(i, x).filter(p) == s.filter(p).push(x),
{
    let rest = s.skip(i);
    assert(s.insert(i, x) =~= s.take(i).push(x) + rest);
    assert(s =~= s.take(i) + rest);
    Seq::filter_distributes_over_add(s.take(i).push(x), rest, p);
    Seq::filter_distributes_over_add(s.take(i), rest, p);
    lemma_filter_push(s.take(i), p, x);
    assert(rest.filter(p) =~= Seq::<A>::empty()) by {
        assert forall|k: int| 0 <= k < rest.len() implies !p(#[trigger] rest[k]) by {
            assert(rest[k] == s[i + k]);
        }
        lemma_filter_none::<A>(rest, p);
    }
    assert(s.take(i).filter(p).push(x) + rest.filter(p) =~= (s.take(i).filter(p) + rest.filter(p)).push(x));
}

/// A sequence none of whose elements passes filters to nothing.
pub proof fn lemma_filter_none<A>(s: Seq<A>, p: spec_fn(A) -> bool)
    requires
        forall|k: int| 0 <= k < s.len() ==> !p(#[trigger] s[k]),
    ensures
        s.filter(p).len() == 0,
    decreases s.len(),
{
    reveal(Seq::filter);
    if s.len() > 0 {
        assert forall|k: int| 0 <= k < s.drop_last().len() implies !p(#[trigger] s.drop_last()[k]) by {
            assert(s.drop_last()[k] == s[k]);
        }
        lemma_filter_none(s.drop_last(), p);
        assert(!p(s[s.len() - 1]));
    }
}

} // verus!
