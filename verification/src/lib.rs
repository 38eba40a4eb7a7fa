//! A small, fixed key-to-value association table with a first-match lookup.
//!
//! A [`ConstMap`] is built once from an ordered list of key/value pairs and is
//! never changed afterwards: no entry can be added, removed or reordered. The
//! order of the entries is significant, because [`ConstMap::lookup`] scans the
//! table from the front and stops at the first entry whose key compares equal
//! to the key asked for. Keys need not be unique: under duplicate keys the
//! earliest entry is authoritative, and later duplicates still occupy slots
//! and count towards the table's length.

use vstd::prelude::*;
use vstd::std_specs::cmp::PartialEqSpec;

pub mod laws;

verus! {

/// What a front-to-back scan of `entries` returns for `key`: `Some` of the
/// value of the first entry whose key compares equal to `key` (by the key
/// type's own equality), `None` when no entry's key does.
pub open spec fn lookup_spec<K: PartialEq, V>(entries: Seq<(K, V)>, key: K) -> Option<V>
    decreases entries.len(),
{
    if entries.len() == 0 {
        None
    } else if entries[0].0.eq_spec(&key) {
        Some(entries[0].1)
    } else {
        lookup_spec(entries.drop_first(), key)
    }
}

/// An immutable association table: an ordered, fixed-length sequence of
/// key/value pairs, with a linear first-match-wins lookup.
pub struct ConstMap<K, V> {
    entries: Vec<(K, V)>,
}

impl<K, V> View for ConstMap<K, V> {
    type V = Seq<(K, V)>;

    closed spec fn view(&self) -> Seq<(K, V)> {
        self.entries@
    }
}

impl<K: PartialEq + Copy, V: Copy> ConstMap<K, V> {
    /// Builds the table from the supplied pairs, keeping their order exactly.
    pub fn new(entries: Vec<(K, V)>) -> (m: Self)
        ensures
            m@ == entries@,
    {
        ConstMap { entries }
    }

    /// The number of entries supplied when the table was built.
    pub fn len(&self) -> (n: usize)
        ensures
            n == self@.len(),
    {
        self.entries.len()
    }

    /// Scans the table from the first entry and returns the value of the
    /// first entry whose key equals `key`, or `None` when none does.
    pub fn lookup(&self, key: K) -> (r: Option<V>)
        requires
            K::obeys_eq_spec(),
        ensures
            r == lookup_spec(self@, key),
    {
        proof {
            assert(self.entries@.skip(0) =~= self.entries@);
        }
        find(&self.entries, key, 0)
    }
}

/// The recursive scan behind [`ConstMap::lookup`]: examines `pairs[n..]` one
/// entry at a time, so that the search needs no mutable loop state.
fn find<K: PartialEq + Copy, V: Copy>(pairs: &Vec<(K, V)>, key: K, n: usize) -> (r: Option<V>)
    requires
        K::obeys_eq_spec(),
        n <= pairs@.len(),
    ensures
        r == lookup_spec(pairs@.skip(n as int), key),
    decreases pairs@.len() - n,
{
    if n >= pairs.len() {
        return None;
    }
    let (k, v) = pairs[n];
    if k == key {
        proof {
            assert(pairs@.skip(n as int)[0] == pairs@[n as int]);
        }
        Some(v)
    } else {
        proof {
            assert(pairs@.skip(n as int).drop_first() =~= pairs@.skip(n as int + 1));
        }
        find(pairs, key, n + 1)
    }
}

/// A lookup whose caller stakes a further value on the result: it may only
/// be called where the key is known to be present in the table, so asking
/// for an absent key is rejected when the program is checked, before it can
/// ever run — the caller need not handle `None` at run time.
pub fn test_generic_const_panic<K: PartialEq + Copy, V: Copy>(map: &ConstMap<K, V>, key: K) -> (v: V)
    requires
        K::obeys_eq_spec(),
        lookup_spec(map@, key) is Some,
    ensures
        Some(v) == lookup_spec(map@, key),
{
    map.lookup(key).unwrap()
}

} // verus!
