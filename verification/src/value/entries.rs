//! Association lists: the mathematical model of the insertion-ordered string maps used
//! throughout the library (pkl mappings, evaluator properties, external readers).
use vstd::prelude::*;

verus! {

/// Index of the first entry whose key is `k`, or `-1` when no entry has that key.
pub open spec fn key_index<K, V>(e: Seq<(K, V)>, k: K) -> int
    decreases e.len(),
{
    if e.len() == 0 {
        -1
    } else if e[0].0 == k {
        0
    } else {
        let r = key_index(e.drop_first(), k);
        if r < 0 {
            -1
        } else {
            r + 1
        }
    }
}

/// Inserting a key: an existing key keeps its place and takes the new value,
/// a new key is appended last.
pub open spec fn entries_insert<K, V>(e: Seq<(K, V)>, k: K, v: V) -> Seq<(K, V)> {
    let i = key_index(e, k);
    if i >= 0 {
        e.update(i, (k, v))
    } else {
        e.push((k, v))
    }
}

/// The value stored under `k`, if any.
pub open spec fn entries_get<K, V>(e: Seq<(K, V)>, k: K) -> Option<V> {
    let i = key_index(e, k);
    if i >= 0 {
        Some(e[i].1)
    } else {
        None
    }
}

/// No key occurs twice.
pub open spec fn keys_unique<K, V>(e: Seq<(K, V)>) -> bool {
    forall|i: int, j: int| 0 <= i < j < e.len() ==> #[trigger] e[i].0 != #[trigger] e[j].0
}

/// The keys, in order.
pub open spec fn entries_keys<K, V>(e: Seq<(K, V)>) -> Seq<K> {
    Seq::new(e.len(), |i: int| e[i].0)
}

/// Inserting every pair of `pairs`, in order, into `e`.
pub open spec fn entries_insert_all<K, V>(e: Seq<(K, V)>, pairs: Seq<(K, V)>) -> Seq<(K, V)>
    decreases pairs.len(),
{
    if pairs.len() == 0 {
        e
    } else {
        entries_insert(entries_insert_all(e, pairs.drop_last()), pairs.last().0, pairs.last().1)
    }
}

pub proof fn lemma_key_index<K, V>(e: Seq<(K, V)>, k: K)
    ensures
        -1 <= key_index(e, k) < e.len(),
        key_index(e, k) >= 0 ==> e[key_index(e, k)].0 == k,
        forall|j: int| 0 <= j < key_index(e, k) ==> e[j].0 != k,
        key_index(e, k) == -1 ==> forall|j: int| 0 <= j < e.len() ==> e[j].0 != k,
    decreases e.len(),
{
    if e.len() > 0 && e[0].0 != k {
        lemma_key_index(e.drop_first(), k);
        assert forall|j: int| 1 <= j < e.len() implies e[j] == e.drop_first()[j - 1] by {}
    }
}

/// An entry at index `i` with key `k`, preceded by none with that key, is the first one.
pub proof fn lemma_key_index_at<K, V>(e: Seq<(K, V)>, k: K, i: int)
    requires
        0 <= i < e.len(),
        e[i].0 == k,
        forall|j: int| 0 <= j < i ==> e[j].0 != k,
    ensures
        key_index(e, k) == i,
{
    lemma_key_index(e, k);
}

/// Reading a key just inserted gives the inserted value; other keys keep theirs.
pub proof fn lemma_insert_get<K, V>(e: Seq<(K, V)>, k: K, v: V, k2: K)
    ensures
        entries_get(entries_insert(e, k, v), k) == Some(v),
        k2 != k ==> entries_get(entries_insert(e, k, v), k2) == entries_get(e, k2),
{
    let n = entries_insert(e, k, v);
    lemma_key_index(e, k);
    lemma_key_index(e, k2);
    lemma_key_index(n, k);
    lemma_key_index(n, k2);
    let i = key_index(e, k);
    if i >= 0 {
        assert(n[i].0 == k);
        lemma_key_index_at(n, k, i);
        if k2 != k {
            let j = key_index(e, k2);
            if j >= 0 {
                assert(n[j] == e[j]);
                lemma_key_index_at(n, k2, j);
            }
        }
    } else {
        lemma_key_index_at(n, k, e.len() as int);
        if k2 != k {
            let j = key_index(e, k2);
            if j >= 0 {
                assert(n[j] == e[j]);
                lemma_key_index_at(n, k2, j);
            }
        }
    }
}

/// Inserting keeps keys unique; the map grows by one entry exactly when the key is new.
pub proof fn lemma_insert_unique<K, V>(e: Seq<(K, V)>, k: K, v: V)
    requires
        keys_unique(e),
    ensures
        keys_unique(entries_insert(e, k, v)),
        entries_insert(e, k, v).len() == e.len() + (if key_index(e, k) >= 0 { 0int } else { 1int }),
{
    lemma_key_index(e, k);
    let n = entries_insert(e, k, v);
    assert forall|i: int, j: int| 0 <= i < j < n.len() implies #[trigger] n[i].0 != #[trigger] n[j].0 by {
        if key_index(e, k) < 0 && j == e.len() {
            assert(n[i] == e[i]);
        }
    }
}

/// Inserting an existing key keeps the keys; a new key is appended to them.
pub proof fn law_insert_keeps_key_order<K, V>(e: Seq<(K, V)>, k: K, v: V)
    ensures
        key_index(e, k) >= 0 ==> entries_keys(entries_insert(e, k, v)) == entries_keys(e),
        key_index(e, k) < 0 ==> entries_keys(entries_insert(e, k, v)) == entries_keys(e).push(k),
{
    lemma_key_index(e, k);
    let n = entries_insert(e, k, v);
    if key_index(e, k) >= 0 {
        assert(entries_keys(n) =~= entries_keys(e));
    } else {
        assert(entries_keys(n) =~= entries_keys(e).push(k));
    }
}

/// The value paired with the last occurrence of `k` among `pairs`.
pub open spec fn last_value<K, V>(pairs: Seq<(K, V)>, k: K) -> Option<V>
    decreases pairs.len(),
{
    if pairs.len() == 0 {
        None
    } else if pairs.last().0 == k {
        Some(pairs.last().1)
    } else {
        last_value(pairs.drop_last(), k)
    }
}

/// Inserting pairs one after another never makes a key occur twice.
pub proof fn law_insert_all_unique<K, V>(e: Seq<(K, V)>, pairs: Seq<(K, V)>)
    requires
        keys_unique(e),
    ensures
        keys_unique(entries_insert_all(e, pairs)),
    decreases pairs.len(),
{
    if pairs.len() > 0 {
        law_insert_all_unique(e, pairs.drop_last());
        lemma_insert_unique(entries_insert_all(e, pairs.drop_last()), pairs.last().0, pairs.last().1);
    }
}

/// After inserting pairs one after another, a key holds the value of its last pair, or
/// the value it held before when no pair has it.
pub proof fn law_insert_all_get<K, V>(e: Seq<(K, V)>, pairs: Seq<(K, V)>, k: K)
    ensures
        entries_get(entries_insert_all(e, pairs), k) == match last_value(pairs, k) {
            Some(v) => Some(v),
            None => entries_get(e, k),
        },
    decreases pairs.len(),
{
    if pairs.len() > 0 {
        law_insert_all_get(e, pairs.drop_last(), k);
        lemma_insert_get(entries_insert_all(e, pairs.drop_last()), pairs.last().0, pairs.last().1, k);
    }
}

} // verus!
