//! Association lists: sequences of key and value pairs, read by the first
//! entry with a key, and the facts about them that the registries use.

use vstd::prelude::*;

use crate::ui::split_pane::PaneId;

verus! {

/// The value stored under `k` in an association list (the first entry
/// with that key).
pub open spec fn find<K, V>(s: Seq<(K, V)>, k: K) -> Option<V>
    decreases s.len(),
{
    if s.len() == 0 {
        None
    } else if s[0].0 == k {
        Some(s[0].1)
    } else {
        find(s.drop_first(), k)
    }
}

/// The keys of an association list.
pub open spec fn keys<K, V>(s: Seq<(K, V)>) -> Seq<K> {
    s.map_values(|e: (K, V)| e.0)
}

pub proof fn lemma_find_push<K, V>(s: Seq<(K, V)>, k: K, v: V, j: K)
    requires
        forall|i: int| 0 <= i < s.len() ==> s[i].0 != k,
    ensures
        find(s.push((k, v)), j) == if j == k {
            Some(v)
        } else {
            find(s, j)
        },
    decreases s.len(),
{
    if s.len() > 0 {
        assert(s.push((k, v)).drop_first() =~= s.drop_first().push((k, v)));
        assert forall|i: int| 0 <= i < s.drop_first().len() implies s.drop_first()[i].0 != k by {
            assert(s.drop_first()[i] == s[i + 1]);
        }
        lemma_find_push(s.drop_first(), k, v, j);
        assert(s.push((k, v))[0] == s[0]);
        assert(s[0].0 != k);
    } else {
        assert(s.push((k, v)).drop_first() =~= Seq::<(K, V)>::empty());
        assert(s.push((k, v))[0] == (k, v));
        assert(find(Seq::<(K, V)>::empty(), j) is None);
    }
}

/// The entries of `s` whose key is not `k`.
pub open spec fn without<K, V>(s: Seq<(K, V)>, k: K) -> Seq<(K, V)> {
    s.filter(|e: (K, V)| e.0 != k)
}

pub proof fn lemma_find_without<K, V>(s: Seq<(K, V)>, k: K, j: K)
    ensures
        find(without(s, k), j) == if j == k {
            None
        } else {
            find(s, j)
        },
        forall|i: int| 0 <= i < without(s, k).len() ==> (#[trigger] without(s, k)[i]).0 != k,
    decreases s.len(),
{
    let p = |e: (K, V)| e.0 != k;
    assert forall|i: int| 0 <= i < without(s, k).len() implies (#[trigger] without(s, k)[i]).0 != k by {
        s.lemma_filter_pred(p, i);
    }
    if s.len() > 0 {
        let rest = s.drop_first();
        lemma_find_without(rest, k, j);
        rest.lemma_filter_prepend(s[0], p);
        assert(s =~= seq![s[0]] + rest);
        let w = without(rest, k);
        assert(without(s, k) == (if p(s[0]) {
            seq![s[0]]
        } else {
            Seq::<(K, V)>::empty()
        }) + w);
        if p(s[0]) {
            assert((seq![s[0]] + w).drop_first() =~= w);
            assert((seq![s[0]] + w)[0] == s[0]);
        } else {
            assert(Seq::<(K, V)>::empty() + w =~= w);
        }
    }
}

pub proof fn lemma_find_absent<K, V>(s: Seq<(K, V)>, k: K)
    requires
        forall|i: int| 0 <= i < s.len() ==> s[i].0 != k,
    ensures
        find(s, k) is None,
    decreases s.len(),
{
    if s.len() > 0 {
        assert forall|i: int| 0 <= i < s.drop_first().len() implies s.drop_first()[i].0 != k by {
            assert(s.drop_first()[i] == s[i + 1]);
        }
        lemma_find_absent(s.drop_first(), k);
    }
}

pub proof fn lemma_find_unique<K, V>(s: Seq<(K, V)>, i: int)
    requires
        0 <= i < s.len(),
        keys(s).no_duplicates(),
    ensures
        find(s, s[i].0) == Some(s[i].1),
    decreases s.len(),
{
    if i > 0 {
        assert(keys(s)[0] != keys(s)[i]);
        assert(keys(s.drop_first()) =~= keys(s).drop_first());
        lemma_find_unique(s.drop_first(), i - 1);
    }
}

pub proof fn lemma_unique_remove<K, V>(s: Seq<(K, V)>, i: int, k: K)
    requires
        0 <= i < s.len(),
        s[i].0 == k,
        keys(s).no_duplicates(),
    ensures
        s.remove(i) == without(s, k),
    decreases s.len(),
{
    let p = |e: (K, V)| e.0 != k;
    reveal(Seq::filter);
    if s.len() > 0 {
        if i == s.len() - 1 {
            assert forall|j: int| 0 <= j < s.drop_last().len() implies s.drop_last()[j].0 != k by {
                assert(keys(s)[j] != keys(s)[i]);
            }
            lemma_filter_all(s.drop_last(), k);
            assert(s.remove(i) =~= s.drop_last());
        } else {
            assert(keys(s.drop_last()) =~= keys(s).drop_last());
            lemma_unique_remove(s.drop_last(), i, k);
            assert(s.last().0 != k) by {
                assert(keys(s)[s.len() - 1] != keys(s)[i]);
            }
            assert(s.remove(i) =~= s.drop_last().remove(i).push(s.last()));
        }
    }
}

pub proof fn lemma_filter_all<K, V>(s: Seq<(K, V)>, k: K)
    requires
        forall|j: int| 0 <= j < s.len() ==> s[j].0 != k,
    ensures
        without(s, k) == s,
    decreases s.len(),
{
    reveal(Seq::filter);
    if s.len() > 0 {
        lemma_filter_all(s.drop_last(), k);
        assert(s.drop_last().push(s.last()) =~= s);
    }
}

pub proof fn lemma_keys_remove_unique<K, V>(s: Seq<(K, V)>, i: int)
    requires
        0 <= i < s.len(),
        keys(s).no_duplicates(),
    ensures
        keys(s.remove(i)).no_duplicates(),
{
    let r = s.remove(i);
    assert forall|a: int, b: int| 0 <= a < keys(r).len() && 0 <= b < keys(r).len() && a != b implies keys(r)[a]
        != keys(r)[b] by {
        let a2 = if a < i { a } else { a + 1 };
        let b2 = if b < i { b } else { b + 1 };
        assert(keys(r)[a] == keys(s)[a2]);
        assert(keys(r)[b] == keys(s)[b2]);
    }
}


/// The place of `pane_id` in a list of panes.
pub fn pane_index<T>(panes: &Vec<(PaneId, T)>, pane_id: PaneId) -> (r: Option<usize>)
    ensures
        match r {
            Some(i) => i < panes@.len() && panes@[i as int].0 == pane_id,
            None => forall|i: int| 0 <= i < panes@.len() ==> panes@[i].0 != pane_id,
        },
{
    let mut i: usize = 0;
    while i < panes.len()
        invariant
            0 <= i <= panes@.len(),
            forall|k: int| 0 <= k < i ==> panes@[k].0 != pane_id,
        decreases panes@.len() - i,
    {
        if panes[i].0 == pane_id {
            return Some(i);
        }
        i = i + 1;
    }
    None
}

/// The list without the entry of `pane_id`.
pub fn drop_pane<T>(panes: Vec<(PaneId, T)>, pane_id: PaneId) -> (r: Vec<(PaneId, T)>)
    requires
        keys(panes@).no_duplicates(),
    ensures
        keys(r@).no_duplicates(),
        forall|i: int| 0 <= i < r@.len() ==> (#[trigger] r@[i]).0 != pane_id,
        forall|p: PaneId| #[trigger] find(r@, p) == if p == pane_id {
            None
        } else {
            find(panes@, p)
        },
{
    let mut panes = panes;
    match pane_index(&panes, pane_id) {
        None => {
            proof {
                assert forall|p: PaneId| #[trigger] find(panes@, p) == if p == pane_id {
                    None
                } else {
                    find(panes@, p)
                } by {
                    if p == pane_id {
                        lemma_find_absent(panes@, p);
                    }
                }
            }
            panes
        },
        Some(i) => {
            let ghost before = panes@;
            panes.remove(i);
            proof {
                lemma_unique_remove(before, i as int, pane_id);
                assert forall|p: PaneId| #[trigger] find(panes@, p) == if p == pane_id {
                    None
                } else {
                    find(before, p)
                } by {
                    lemma_find_without(before, pane_id, p);
                }
                lemma_find_without(before, pane_id, pane_id);
                lemma_keys_remove_unique(before, i as int);
            }
            panes
        },
    }
}

/// The list with `view` as the entry of `pane_id`.
pub fn set_pane<T>(panes: Vec<(PaneId, T)>, pane_id: PaneId, view: T) -> (r: Vec<(PaneId, T)>)
    requires
        keys(panes@).no_duplicates(),
    ensures
        keys(r@).no_duplicates(),
        forall|p: PaneId| #[trigger] find(r@, p) == if p == pane_id {
            Some(view)
        } else {
            find(panes@, p)
        },
{
    let mut rest = drop_pane(panes, pane_id);
    let ghost before = rest@;
    rest.push((pane_id, view));
    proof {
        assert forall|p: PaneId| #[trigger] find(rest@, p) == if p == pane_id {
            Some(view)
        } else {
            find(before, p)
        } by {
            lemma_find_push(before, pane_id, view, p);
        }
        assert(keys(rest@) =~= keys(before).push(pane_id));
        assert(!keys(before).contains(pane_id)) by {
            if keys(before).contains(pane_id) {
                let k = choose|k: int| 0 <= k < keys(before).len() && keys(before)[k] == pane_id;
                assert(before[k].0 == pane_id);
            }
        }
    }
    rest
}

} // verus!
