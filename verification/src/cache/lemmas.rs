//! Facts about maps that are filled from lists of entries.

use vstd::prelude::*;
use crate::cache::model::with_entries;

verus! {

/// Whether some entry of `entries` has the key `k`.
pub open spec fn has_key<K, V>(entries: Seq<(K, V)>, k: K) -> bool {
    exists|i: int| 0 <= i < entries.len() && (#[trigger] entries[i]).0 == k
}

/// Whether entry `i` of `entries` is the last one with its key.
pub open spec fn is_last_with_key<K, V>(entries: Seq<(K, V)>, i: int) -> bool {
    &&& 0 <= i < entries.len()
    &&& forall|j: int| i < j < entries.len() ==> (#[trigger] entries[j]).0 != entries[i].0
}

/// Whether no two entries of `entries` have the same key.
pub open spec fn distinct_keys<K, V>(entries: Seq<(K, V)>) -> bool {
    forall|i: int, j: int|
        0 <= i < j < entries.len() ==> (#[trigger] entries[i]).0 != (#[trigger] entries[j]).0
}

/// Whether `entries` lists the entries of `m`, each of them once.
pub open spec fn enumerates<K, V>(entries: Seq<(K, V)>, m: Map<K, V>) -> bool {
    &&& distinct_keys(entries)
    &&& forall|i: int|
        0 <= i < entries.len() ==> m.contains_pair(
            (#[trigger] entries[i]).0,
            entries[i].1,
        )
    &&& forall|k: K| #[trigger] m.contains_key(k) ==> has_key(entries, k)
}

/// An index at which `entries` has the key `k`.
pub proof fn key_index<K, V>(entries: Seq<(K, V)>, k: K) -> (i: int)
    requires
        has_key(entries, k),
    ensures
        0 <= i < entries.len(),
        entries[i].0 == k,
{
    choose|i: int| 0 <= i < entries.len() && (#[trigger] entries[i]).0 == k
}

/// Inserting one more entry of a list extends the map that the entries before it gave.
pub proof fn lemma_with_entries_step<K, V>(m: Map<K, V>, entries: Seq<(K, V)>, i: int)
    requires
        0 <= i < entries.len(),
    ensures
        with_entries(m, entries.take(i + 1)) == with_entries(m, entries.take(i)).insert(
            entries[i].0,
            entries[i].1,
        ),
{
    assert(entries.take(i + 1).drop_last() =~= entries.take(i));
}

/// The keys of a filled map are the keys it had and the keys of the entries.
pub proof fn lemma_with_entries_dom<K, V>(m: Map<K, V>, entries: Seq<(K, V)>)
    ensures
        forall|k: K| #[trigger]
            with_entries(m, entries).contains_key(k) <==> m.contains_key(k) || has_key(entries, k),
    decreases entries.len(),
{
    if entries.len() > 0 {
        let init = entries.drop_last();
        lemma_with_entries_dom(m, init);
        assert forall|k: K| #[trigger]
            with_entries(m, entries).contains_key(k) <==> m.contains_key(k) || has_key(
                entries,
                k,
            ) by {
            assert(with_entries(m, init).contains_key(k) <==> m.contains_key(k) || has_key(
                init,
                k,
            ));
            if has_key(init, k) {
                let i = key_index(init, k);
                assert(entries[i].0 == k);
            }
            if has_key(entries, k) {
                let i = key_index(entries, k);
                if i < init.len() {
                    assert(init[i].0 == k);
                }
            }
            if entries.last().0 == k {
                assert(entries[entries.len() - 1].0 == k);
            }
        }
    }
}

/// Whether every value of `m` stands under the key that `key_of` gives for it.
pub open spec fn keyed<K, V>(m: Map<K, V>, key_of: spec_fn(V) -> K) -> bool {
    forall|k: K| #[trigger] m.contains_key(k) ==> key_of(m[k]) == k
}

/// A finite map whose values stand under their own keys stays so when it is
/// filled from entries that hold each value under its own key.
pub proof fn lemma_with_entries_keyed<K, V>(
    m: Map<K, V>,
    entries: Seq<(K, V)>,
    key_of: spec_fn(V) -> K,
)
    requires
        m.dom().finite(),
        keyed(m, key_of),
        forall|i: int| 0 <= i < entries.len() ==> key_of((#[trigger] entries[i]).1) == entries[i].0,
    ensures
        with_entries(m, entries).dom().finite(),
        keyed(with_entries(m, entries), key_of),
    decreases entries.len(),
{
    if entries.len() > 0 {
        let init = entries.drop_last();
        assert forall|i: int| 0 <= i < init.len() implies key_of((#[trigger] init[i]).1)
            == init[i].0 by {
            assert(init[i] == entries[i]);
        }
        lemma_with_entries_keyed(m, init, key_of);
        assert(key_of(entries[entries.len() - 1].1) == entries[entries.len() - 1].0);
    }
}

/// Under the key of an entry that is the last with its key, a filled map holds
/// that entry's value.
pub proof fn lemma_with_entries_last<K, V>(m: Map<K, V>, entries: Seq<(K, V)>, i: int)
    requires
        is_last_with_key(entries, i),
    ensures
        with_entries(m, entries).contains_pair(entries[i].0, entries[i].1),
    decreases entries.len(),
{
    if i < entries.len() - 1 {
        let init = entries.drop_last();
        assert(entries[entries.len() - 1].0 != entries[i].0);
        assert forall|j: int| i < j < init.len() implies (#[trigger] init[j]).0 != init[i].0 by {
            assert(entries[j].0 != entries[i].0);
        }
        lemma_with_entries_last(m, init, i);
    }
}

/// Under a key that no entry has, a filled map holds what the map held before.
pub proof fn lemma_with_entries_other<K, V>(m: Map<K, V>, entries: Seq<(K, V)>, k: K)
    requires
        !has_key(entries, k),
    ensures
        with_entries(m, entries).contains_key(k) == m.contains_key(k),
        with_entries(m, entries)[k] == m[k],
    decreases entries.len(),
{
    if entries.len() > 0 {
        let init = entries.drop_last();
        assert(entries[entries.len() - 1].0 != k);
        assert(!has_key(init, k)) by {
            if has_key(init, k) {
                let i = key_index(init, k);
                assert(entries[i].0 == k);
            }
        }
        lemma_with_entries_other(m, init, k);
    }
}

/// Among the entries with a given key, one is the last.
pub proof fn lemma_last_with_key_exists<K, V>(entries: Seq<(K, V)>, k: K) -> (i: int)
    requires
        has_key(entries, k),
    ensures
        is_last_with_key(entries, i),
        entries[i].0 == k,
    decreases entries.len(),
{
    let last = entries.len() - 1;
    if entries[last].0 == k {
        last
    } else {
        let init = entries.drop_last();
        let w = key_index(entries, k);
        assert(init[w].0 == k);
        let i = lemma_last_with_key_exists(init, k);
        assert forall|j: int| i < j < entries.len() implies (#[trigger] entries[j]).0
            != entries[i].0 by {
            if j < last {
                assert(init[j].0 != init[i].0);
            }
        }
        i
    }
}

/// Filling a map twice from the same entries gives what filling it once gives.
pub proof fn lemma_with_entries_twice<K, V>(m: Map<K, V>, entries: Seq<(K, V)>)
    ensures
        with_entries(with_entries(m, entries), entries) == with_entries(m, entries),
{
    let once = with_entries(m, entries);
    let twice = with_entries(once, entries);
    lemma_with_entries_dom(m, entries);
    lemma_with_entries_dom(once, entries);
    assert forall|k: K| once.contains_key(k) implies #[trigger] twice[k] == once[k] by {
        if has_key(entries, k) {
            let i = lemma_last_with_key_exists(entries, k);
            lemma_with_entries_last(m, entries, i);
            lemma_with_entries_last(once, entries, i);
        } else {
            lemma_with_entries_other(once, entries, k);
        }
    }
    assert(twice =~= once);
}

/// A map filled from entries with distinct keys, which cover the keys it had,
/// has as many entries as the list.
pub proof fn lemma_with_entries_len<K, V>(m: Map<K, V>, entries: Seq<(K, V)>)
    requires
        distinct_keys(entries),
        forall|k: K| #[trigger] m.contains_key(k) ==> has_key(entries, k),
    ensures
        with_entries(m, entries).dom().finite(),
        with_entries(m, entries).len() == entries.len(),
{
    let keys = entries.map_values(|e: (K, V)| e.0);
    lemma_with_entries_dom(m, entries);
    assert(keys.no_duplicates()) by {
        assert forall|i: int, j: int| 0 <= i < keys.len() && 0 <= j < keys.len() && i != j implies keys[i] != keys[j] by {
            if i < j {
                assert(entries[i].0 != entries[j].0);
            } else {
                assert(entries[j].0 != entries[i].0);
            }
        }
    }
    assert(with_entries(m, entries).dom() =~= keys.to_set()) by {
        assert forall|k: K| with_entries(m, entries).dom().contains(k) <==> keys.to_set().contains(
            k,
        ) by {
            if has_key(entries, k) {
                let i = key_index(entries, k);
                assert(keys[i] == k);
            }
            if keys.to_set().contains(k) {
                let i = choose|i: int| 0 <= i < keys.len() && keys[i] == k;
                assert(entries[i].0 == k);
            }
        }
    }
    keys.unique_seq_to_set();
}

/// Filling an empty map from a list of all the entries of a map gives that map.
pub proof fn lemma_enumeration_rebuilds<K, V>(entries: Seq<(K, V)>, m: Map<K, V>)
    requires
        enumerates(entries, m),
    ensures
        with_entries(Map::empty(), entries) == m,
{
    let built = with_entries(Map::<K, V>::empty(), entries);
    lemma_with_entries_dom(Map::<K, V>::empty(), entries);
    assert forall|k: K| built.contains_key(k) <==> m.contains_key(k) by {
        if has_key(entries, k) {
            let i = key_index(entries, k);
            assert(m.contains_pair(entries[i].0, entries[i].1));
        }
    }
    assert forall|k: K| built.contains_key(k) implies #[trigger] built[k] == m[k] by {
        let i = lemma_last_with_key_exists(entries, k);
        lemma_with_entries_last(Map::<K, V>::empty(), entries, i);
        assert(m.contains_pair(entries[i].0, entries[i].1));
    }
    assert(built =~= m);
}

} // verus!
