//! Entries looked up by name, as a map built from them in order: a later
//! entry of a name replaces an earlier one.

use vstd::prelude::*;

verus! {

/// The value of the last entry named `key`, if any.
pub open spec fn lookup<V>(entries: Seq<(Seq<char>, V)>, key: Seq<char>) -> Option<V>
    decreases entries.len(),
{
    if entries.len() == 0 {
        None
    } else if entries.last().0 == key {
        Some(entries.last().1)
    } else {
        lookup(entries.drop_last(), key)
    }
}

/// Whether entry `i` is the last entry of its name.
pub open spec fn is_last<V>(entries: Seq<(Seq<char>, V)>, i: int) -> bool {
    forall|j: int| i < j < entries.len() ==> entries[j].0 != entries[i].0
}

/// Looking up among the first `i` entries: entry `i - 1` answers when it
/// has the name, else the entries before it do.
pub proof fn lemma_lookup_take<V>(entries: Seq<(Seq<char>, V)>, key: Seq<char>, i: int)
    requires
        0 < i <= entries.len(),
    ensures
        lookup(entries.take(i), key) == if entries[i - 1].0 == key {
            Some(entries[i - 1].1)
        } else {
            lookup(entries.take(i - 1), key)
        },
{
    assert(entries.take(i).drop_last() =~= entries.take(i - 1));
}

/// Looking up among all entries, and among none.
pub proof fn lemma_lookup_ends<V>(entries: Seq<(Seq<char>, V)>, key: Seq<char>)
    ensures
        lookup(entries.take(entries.len() as int), key) == lookup(entries, key),
        lookup(entries.take(0), key) is None,
{
    assert(entries.take(entries.len() as int) =~= entries);
    assert(entries.take(0) =~= Seq::<(Seq<char>, V)>::empty());
}

/// A name is found exactly when some entry has it, and what is found is
/// the value of the last such entry.
pub proof fn lemma_lookup_found<V>(entries: Seq<(Seq<char>, V)>, key: Seq<char>)
    ensures
        lookup(entries, key) is Some <==> exists|i: int| 0 <= i < entries.len() && entries[i].0 == key,
        lookup(entries, key) is Some ==> exists|i: int|
            0 <= i < entries.len() && entries[i].0 == key && lookup(entries, key) == Some(entries[i].1)
                && forall|j: int| i < j < entries.len() ==> entries[j].0 != key,
    decreases entries.len(),
{
    if entries.len() > 0 {
        let n = entries.len() - 1;
        let rest = entries.drop_last();
        lemma_lookup_found(rest, key);
        if entries[n].0 != key {
            if exists|i: int| 0 <= i < entries.len() && entries[i].0 == key {
                let i = choose|i: int| 0 <= i < entries.len() && entries[i].0 == key;
                assert(rest[i].0 == key);
            }
            if lookup(entries, key) is Some {
                let i = choose|i: int|
                    0 <= i < rest.len() && rest[i].0 == key && lookup(rest, key) == Some(rest[i].1)
                        && forall|j: int| i < j < rest.len() ==> rest[j].0 != key;
                assert(entries[i] == rest[i]);
                assert forall|j: int| i < j < entries.len() implies entries[j].0 != key by {
                    if j < n {
                        assert(entries[j] == rest[j]);
                    }
                }
            }
        }
    }
}

/// The last entry of a name is what looking the name up finds.
pub proof fn lemma_lookup_last<V>(entries: Seq<(Seq<char>, V)>, i: int)
    requires
        0 <= i < entries.len(),
        is_last(entries, i),
    ensures
        lookup(entries, entries[i].0) == Some(entries[i].1),
{
    let key = entries[i].0;
    lemma_lookup_found(entries, key);
    let f = choose|f: int|
        0 <= f < entries.len() && entries[f].0 == key && lookup(entries, key) == Some(entries[f].1)
            && forall|j: int| f < j < entries.len() ==> entries[j].0 != key;
    if f < i {
        assert(entries[i].0 == key);
    } else if i < f {
        assert(entries[f].0 != entries[i].0);
    }
}

/// When no name occurs twice, the entries behave as a map: a name is
/// found with a value exactly when an entry pairs them.
pub proof fn lookup_is_map_when_names_distinct<V>(entries: Seq<(Seq<char>, V)>, key: Seq<char>, value: V)
    requires
        forall|i: int, j: int| 0 <= i < j < entries.len() ==> entries[i].0 != entries[j].0,
    ensures
        lookup(entries, key) == Some(value) <==> entries.contains((key, value)),
{
    lemma_lookup_found(entries, key);
    if entries.contains((key, value)) {
        let i = choose|i: int| 0 <= i < entries.len() && entries[i] == (key, value);
        lemma_lookup_last(entries, i);
    }
    if lookup(entries, key) == Some(value) {
        let f = choose|f: int|
            0 <= f < entries.len() && entries[f].0 == key && lookup(entries, key) == Some(entries[f].1)
                && forall|j: int| f < j < entries.len() ==> entries[j].0 != key;
        assert(entries[f] == (key, value));
    }
}

} // verus!
