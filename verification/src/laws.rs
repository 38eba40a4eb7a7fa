//! Laws of the table's lookup, stated over [`lookup_spec`] and proved once
//! for every table and key.

use vstd::prelude::*;
use vstd::std_specs::cmp::PartialEqSpec;

use crate::lookup_spec;

verus! {

/// Size correctness, empty case: a table with no entries answers every
/// lookup with `None`.
pub proof fn lemma_lookup_empty<K: PartialEq, V>(entries: Seq<(K, V)>, key: K)
    requires
        entries.len() == 0,
    ensures
        lookup_spec(entries, key) is None,
{
}

/// Absence: when no entry's key compares equal to `key`, the lookup
/// returns `None`.
pub proof fn lemma_lookup_absent<K: PartialEq, V>(entries: Seq<(K, V)>, key: K)
    requires
        forall|i: int| 0 <= i < entries.len() ==> !(#[trigger] entries[i].0.eq_spec(&key)),
    ensures
        lookup_spec(entries, key) is None,
    decreases entries.len(),
{
    if entries.len() > 0 {
        assert forall|i: int|
            0 <= i < entries.drop_first().len() implies !(#[trigger] entries.drop_first()[i].0.eq_spec(
            &key,
        )) by {
            assert(entries.drop_first()[i] == entries[i + 1]);
        }
        lemma_lookup_absent(entries.drop_first(), key);
    }
}

/// First match wins: when entry `i` is the first whose key compares equal to
/// `key`, the lookup returns exactly that entry's value — under duplicate
/// keys, a later duplicate is never the one returned.
pub proof fn lemma_lookup_first_match<K: PartialEq, V>(entries: Seq<(K, V)>, key: K, i: int)
    requires
        0 <= i < entries.len(),
        entries[i].0.eq_spec(&key),
        forall|j: int| 0 <= j < i ==> !(#[trigger] entries[j].0.eq_spec(&key)),
    ensures
        lookup_spec(entries, key) == Some(entries[i].1),
    decreases i,
{
    if i > 0 {
        assert(!entries[0].0.eq_spec(&key));
        assert(entries.drop_first()[i - 1] == entries[i]);
        assert forall|j: int|
            0 <= j < i - 1 implies !(#[trigger] entries.drop_first()[j].0.eq_spec(&key)) by {
            assert(entries.drop_first()[j] == entries[j + 1]);
        }
        lemma_lookup_first_match(entries.drop_first(), key, i - 1);
    }
}

/// A lookup succeeds exactly when some entry's key compares equal to `key`:
/// `Some` and "a matching entry exists" coincide, `None` and "no entry
/// matches" coincide.
pub proof fn lemma_lookup_found_iff<K: PartialEq, V>(entries: Seq<(K, V)>, key: K)
    ensures
        lookup_spec(entries, key) is Some <==> exists|i: int|
            0 <= i < entries.len() && (#[trigger] entries[i].0.eq_spec(&key)),
    decreases entries.len(),
{
    if entries.len() > 0 && !entries[0].0.eq_spec(&key) {
        lemma_lookup_found_iff(entries.drop_first(), key);
        if lookup_spec(entries, key) is Some {
            let i = choose|i: int|
                0 <= i < entries.drop_first().len() && (#[trigger] entries.drop_first()[i].0.eq_spec(
                    &key,
                ));
            assert(entries.drop_first()[i] == entries[i + 1]);
            assert(entries[i + 1].0.eq_spec(&key));
        }
        if exists|i: int| 0 <= i < entries.len() && (#[trigger] entries[i].0.eq_spec(&key)) {
            let i = choose|i: int| 0 <= i < entries.len() && (#[trigger] entries[i].0.eq_spec(&key));
            assert(entries.drop_first()[i - 1] == entries[i]);
        }
    }
}

/// Every matching entry has a first matching entry at or before it.
proof fn lemma_first_witness<K: PartialEq, V>(entries: Seq<(K, V)>, key: K, i: int)
    requires
        0 <= i < entries.len(),
        entries[i].0.eq_spec(&key),
    ensures
        exists|j: int|
            {
                &&& 0 <= j <= i
                &&& (#[trigger] entries[j].0.eq_spec(&key))
                &&& forall|l: int| 0 <= l < j ==> !(#[trigger] entries[l].0.eq_spec(&key))
            },
    decreases i,
{
    if exists|l: int| 0 <= l < i && (#[trigger] entries[l].0.eq_spec(&key)) {
        let l = choose|l: int| 0 <= l < i && (#[trigger] entries[l].0.eq_spec(&key));
        lemma_first_witness(entries, key, l);
    } else {
        assert(entries[i].0.eq_spec(&key) && forall|l: int|
            0 <= l < i ==> !(#[trigger] entries[l].0.eq_spec(&key)));
    }
}

/// Containment: looking up the key of entry `i`, for a key type whose
/// equality is reflexive, returns `Some` of the value of the first entry
/// whose key compares equal to it — entry `i`'s own value when no earlier
/// entry's key matches, else that first earlier entry's value.
pub proof fn lemma_lookup_containment<K: PartialEq, V>(entries: Seq<(K, V)>, i: int)
    requires
        0 <= i < entries.len(),
        forall|x: K| #[trigger] x.eq_spec(&x),
    ensures
        exists|j: int|
            {
                &&& 0 <= j <= i
                &&& (#[trigger] entries[j].0.eq_spec(&entries[i].0))
                &&& forall|l: int| 0 <= l < j ==> !(#[trigger] entries[l].0.eq_spec(&entries[i].0))
                &&& lookup_spec(entries, entries[i].0) == Some(entries[j].1)
            },
{
    assert(entries[i].0.eq_spec(&entries[i].0));
    lemma_first_witness(entries, entries[i].0, i);
    let j = choose|j: int|
        {
            &&& 0 <= j <= i
            &&& (#[trigger] entries[j].0.eq_spec(&entries[i].0))
            &&& forall|l: int| 0 <= l < j ==> !(#[trigger] entries[l].0.eq_spec(&entries[i].0))
        };
    lemma_lookup_first_match(entries, entries[i].0, j);
}

/// Determinism: the lookup's result is a function of the table and the key
/// alone, so any two results of looking the same key up in the same table
/// are identical.
pub proof fn lemma_lookup_deterministic<K: PartialEq, V>(
    entries: Seq<(K, V)>,
    key: K,
    r1: Option<V>,
    r2: Option<V>,
)
    requires
        r1 == lookup_spec(entries, key),
        r2 == lookup_spec(entries, key),
    ensures
        r1 == r2,
{
}

} // verus!
