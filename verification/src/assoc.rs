//! Association lists read as maps: a sequence of key/value pairs describes
//! the mapping in which the latest entry for a key wins.

use vstd::prelude::*;

verus! {

/// The mapping described by an association list, later entries winning.
pub open spec fn as_map<K, V>(entries: Seq<(K, V)>) -> Map<K, V>
    decreases entries.len(),
{
    if entries.len() == 0 {
        Map::empty()
    } else {
        as_map(entries.drop_last()).insert(entries.last().0, entries.last().1)
    }
}

/// No two entries share a key.
pub open spec fn unique_keys<K, V>(entries: Seq<(K, V)>) -> bool {
    forall|i: int, j: int| 0 <= i < j < entries.len() ==> entries[i].0 != entries[j].0
}

pub proof fn lemma_as_map_index<K, V>(entries: Seq<(K, V)>, i: int)
    requires
        unique_keys(entries),
        0 <= i < entries.len(),
    ensures
        as_map(entries).contains_key(entries[i].0),
        as_map(entries)[entries[i].0] == entries[i].1,
    decreases entries.len(),
{
    if i == entries.len() - 1 {
    } else {
        assert(unique_keys(entries.drop_last()));
        assert(entries.drop_last()[i] == entries[i]);
        lemma_as_map_index(entries.drop_last(), i);
        assert(entries[i].0 != entries.last().0);
    }
}

pub proof fn lemma_as_map_not_contains<K, V>(entries: Seq<(K, V)>, k: K)
    requires
        forall|i: int| 0 <= i < entries.len() ==> entries[i].0 != k,
    ensures
        !as_map(entries).contains_key(k),
    decreases entries.len(),
{
    if entries.len() > 0 {
        assert(forall|i: int|
            0 <= i < entries.drop_last().len() ==> entries.drop_last()[i].0 != k);
        lemma_as_map_not_contains(entries.drop_last(), k);
    }
}

pub proof fn lemma_as_map_update<K, V>(entries: Seq<(K, V)>, i: int, v: V)
    requires
        unique_keys(entries),
        0 <= i < entries.len(),
    ensures
        as_map(entries.update(i, (entries[i].0, v))) == as_map(entries).insert(entries[i].0, v),
    decreases entries.len(),
{
    let u = entries.update(i, (entries[i].0, v));
    if i == entries.len() - 1 {
        assert(u.drop_last() =~= entries.drop_last());
        assert(as_map(u) =~= as_map(entries).insert(entries[i].0, v));
    } else {
        assert(unique_keys(entries.drop_last()));
        assert(entries.drop_last()[i] == entries[i]);
        lemma_as_map_update(entries.drop_last(), i, v);
        assert(u.drop_last() =~= entries.drop_last().update(i, (entries[i].0, v)));
        assert(u.last() == entries.last());
        assert(entries[i].0 != entries.last().0);
        assert(as_map(u) == as_map(entries.drop_last()).insert(entries[i].0, v).insert(
            entries.last().0,
            entries.last().1,
        ));
        assert(as_map(entries.drop_last()).insert(entries[i].0, v).insert(
            entries.last().0,
            entries.last().1,
        ) =~= as_map(entries).insert(entries[i].0, v));
    }
}

} // verus!
