//! Association lists as maps: the common theory behind the header map
//! and the route table.  A list of key-value pairs denotes the map in
//! which later pairs shadow earlier ones with the same key; when keys
//! are pairwise distinct, updating a pair in place or appending a fresh
//! one is exactly a map insert.

use vstd::prelude::*;

verus! {

/// The map denoted by a pair list: later pairs shadow earlier ones.
pub open spec fn map_of_pairs<K, V>(es: Seq<(K, V)>) -> Map<K, V>
    decreases es.len(),
{
    if es.len() == 0 {
        Map::empty()
    } else {
        map_of_pairs(es.drop_last()).insert(es.last().0, es.last().1)
    }
}

/// The position of the first pair keyed `k`, or the length of the list
/// if no pair is.
pub open spec fn key_index<K, V>(es: Seq<(K, V)>, k: K) -> int
    decreases es.len(),
{
    if es.len() == 0 {
        0
    } else if es[0].0 == k {
        0
    } else {
        1 + key_index(es.drop_first(), k)
    }
}

/// Every pair's key is in the map.
pub proof fn lemma_map_of_pairs_covers<K, V>(es: Seq<(K, V)>, i: int)
    requires
        0 <= i < es.len(),
    ensures
        map_of_pairs(es).contains_key(es[i].0),
    decreases es.len(),
{
    if i < es.len() - 1 {
        assert(es.drop_last()[i] == es[i]);
        lemma_map_of_pairs_covers(es.drop_last(), i);
    }
}

/// A key no pair carries is not in the map.
pub proof fn lemma_map_of_pairs_absent<K, V>(es: Seq<(K, V)>, k: K)
    requires
        forall|i: int| 0 <= i < es.len() ==> es[i].0 != k,
    ensures
        !map_of_pairs(es).contains_key(k),
    decreases es.len(),
{
    if es.len() > 0 {
        assert forall|i: int| 0 <= i < es.len() - 1 implies es.drop_last()[i].0 != k by {
            assert(es.drop_last()[i] == es[i]);
        }
        lemma_map_of_pairs_absent(es.drop_last(), k);
    }
}

/// With pairwise-distinct keys, each pair's key maps to its value.
pub proof fn lemma_map_of_pairs_get<K, V>(es: Seq<(K, V)>, i: int)
    requires
        0 <= i < es.len(),
        forall|p: int, q: int| 0 <= p < q < es.len() ==> es[p].0 != es[q].0,
    ensures
        map_of_pairs(es).contains_key(es[i].0),
        map_of_pairs(es)[es[i].0] == es[i].1,
    decreases es.len(),
{
    lemma_map_of_pairs_covers(es, i);
    if i < es.len() - 1 {
        assert(es[i].0 != es.last().0);
        assert(es.drop_last()[i] == es[i]);
        lemma_map_of_pairs_get(es.drop_last(), i);
    }
}

/// With pairwise-distinct keys, overwriting the value of pair `i` in
/// place is exactly a map insert on its key.
pub proof fn lemma_map_of_pairs_update<K, V>(es: Seq<(K, V)>, i: int, v: V)
    requires
        0 <= i < es.len(),
        forall|p: int, q: int| 0 <= p < q < es.len() ==> es[p].0 != es[q].0,
    ensures
        map_of_pairs(es.update(i, (es[i].0, v))) == map_of_pairs(es).insert(es[i].0, v),
    decreases es.len(),
{
    let es2 = es.update(i, (es[i].0, v));
    if i == es.len() - 1 {
        assert(es2.drop_last() =~= es.drop_last());
        assert(map_of_pairs(es2) =~= map_of_pairs(es).insert(es[i].0, v));
    } else {
        assert(es2.drop_last() =~= es.drop_last().update(i, (es[i].0, v)));
        assert forall|p: int, q: int|
            0 <= p < q < es.drop_last().len() implies es.drop_last()[p].0
            != es.drop_last()[q].0 by {
            assert(es.drop_last()[p] == es[p]);
            assert(es.drop_last()[q] == es[q]);
        }
        assert(es.drop_last()[i] == es[i]);
        lemma_map_of_pairs_update(es.drop_last(), i, v);
        assert(es[i].0 != es.last().0);
        assert(map_of_pairs(es2) =~= map_of_pairs(es).insert(es[i].0, v));
    }
}

/// The position the first pair keyed `k` actually has.
pub proof fn lemma_key_index_is<K, V>(es: Seq<(K, V)>, k: K, i: int)
    requires
        0 <= i <= es.len(),
        forall|j: int| 0 <= j < i ==> es[j].0 != k,
        i < es.len() ==> es[i].0 == k,
    ensures
        key_index(es, k) == i,
    decreases es.len(),
{
    if es.len() > 0 && es[0].0 != k {
        assert(i >= 1);
        let t = es.drop_first();
        assert forall|j: int| 0 <= j < i - 1 implies t[j].0 != k by {
            assert(t[j] == es[j + 1]);
        }
        if i - 1 < t.len() {
            assert(t[i - 1] == es[i]);
        }
        lemma_key_index_is(t, k, i - 1);
    }
}

} // verus!
