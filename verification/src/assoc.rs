//! Association lists: sequences of key/value pairs read as maps, the last entry for a key winning.

use vstd::prelude::*;

verus! {

/// The map that a list of key/value pairs denotes; a later pair overrides an earlier one
/// with the same key.
pub open spec fn assoc_map<V>(entries: Seq<(Seq<char>, V)>) -> Map<Seq<char>, V>
    decreases entries.len(),
{
    if entries.len() == 0 {
        Map::empty()
    } else {
        assoc_map(entries.drop_last()).insert(entries.last().0, entries.last().1)
    }
}

/// The keys of a list of pairs form a finite set.
pub proof fn lemma_assoc_map_finite<V>(entries: Seq<(Seq<char>, V)>)
    ensures
        assoc_map(entries).dom().finite(),
    decreases entries.len(),
{
    if entries.len() > 0 {
        lemma_assoc_map_finite(entries.drop_last());
    }
}

/// The value of a key is that of its last entry.
pub proof fn lemma_assoc_map_last<V>(entries: Seq<(Seq<char>, V)>, i: int)
    requires
        0 <= i < entries.len(),
        forall|j: int| i < j < entries.len() ==> entries[j].0 != entries[i].0,
    ensures
        assoc_map(entries).contains_key(entries[i].0),
        assoc_map(entries)[entries[i].0] == entries[i].1,
    decreases entries.len(),
{
    if i < entries.len() - 1 {
        lemma_assoc_map_last(entries.drop_last(), i);
    }
}

/// A key with no entry is not in the map.
pub proof fn lemma_assoc_map_absent<V>(entries: Seq<(Seq<char>, V)>, k: Seq<char>)
    requires
        forall|j: int| 0 <= j < entries.len() ==> entries[j].0 != k,
    ensures
        !assoc_map(entries).contains_key(k),
    decreases entries.len(),
{
    if entries.len() > 0 {
        lemma_assoc_map_absent(entries.drop_last(), k);
    }
}

/// A key in the map has an entry in the list.
pub proof fn lemma_assoc_map_key_index<V>(entries: Seq<(Seq<char>, V)>, k: Seq<char>)
    requires
        assoc_map(entries).contains_key(k),
    ensures
        exists|i: int| 0 <= i < entries.len() && entries[i].0 == k,
    decreases entries.len(),
{
    if entries.len() > 0 {
        if entries.last().0 == k {
            assert(entries[entries.len() - 1].0 == k);
        } else {
            lemma_assoc_map_key_index(entries.drop_last(), k);
            let i = choose|i: int|
                0 <= i < entries.drop_last().len() && entries.drop_last()[i].0 == k;
            assert(entries[i].0 == k);
        }
    }
}

/// Appending a pair inserts it into the map.
pub proof fn lemma_assoc_map_push<V>(entries: Seq<(Seq<char>, V)>, k: Seq<char>, v: V)
    ensures
        assoc_map(entries.push((k, v))) == assoc_map(entries).insert(k, v),
{
    assert(entries.push((k, v)).drop_last() =~= entries);
}

} // verus!
