//! A small map from text keys to values that keeps its entries in insertion
//! order, with at most one entry per key.
use vstd::prelude::*;

use crate::text::{chars_of, eq_lit};

verus! {

/// The first index at or after `i` whose entry has key `k`, or the length.
pub open spec fn key_index<V>(s: Seq<(Seq<char>, V)>, k: Seq<char>, i: int) -> int
    decreases s.len() - i,
{
    if i < 0 || i >= s.len() {
        s.len() as int
    } else if s[i].0 == k {
        i
    } else {
        key_index(s, k, i + 1)
    }
}

/// The value stored under `k`, if any.
pub open spec fn lookup<V>(s: Seq<(Seq<char>, V)>, k: Seq<char>) -> Option<V> {
    let i = key_index(s, k, 0);
    if i < s.len() {
        Some(s[i].1)
    } else {
        None
    }
}

/// The entries after storing `v` under `k`: an entry with that key gets the
/// new value in place, otherwise the entry goes at the end.
pub open spec fn inserted<V>(s: Seq<(Seq<char>, V)>, k: Seq<char>, v: V) -> Seq<(Seq<char>, V)> {
    let i = key_index(s, k, 0);
    if i < s.len() {
        s.update(i, (k, v))
    } else {
        s.push((k, v))
    }
}

/// No two entries share a key.
pub open spec fn keys_distinct<V>(s: Seq<(Seq<char>, V)>) -> bool {
    forall|i: int, j: int| 0 <= i < j < s.len() ==> s[i].0 != s[j].0
}

pub proof fn lemma_key_index<V>(s: Seq<(Seq<char>, V)>, k: Seq<char>, i: int)
    requires
        0 <= i <= s.len(),
    ensures
        i <= key_index(s, k, i) <= s.len(),
        key_index(s, k, i) < s.len() ==> s[key_index(s, k, i)].0 == k,
        forall|j: int| i <= j < key_index(s, k, i) ==> s[j].0 != k,
    decreases s.len() - i,
{
    if i < s.len() && s[i].0 != k {
        lemma_key_index(s, k, i + 1);
    }
}

/// Storing a value keeps the keys distinct.
pub proof fn lemma_inserted_distinct<V>(s: Seq<(Seq<char>, V)>, k: Seq<char>, v: V)
    requires
        keys_distinct(s),
    ensures
        keys_distinct(inserted(s, k, v)),
{
    lemma_key_index(s, k, 0);
}

/// Entries keyed by text, in insertion order.
#[derive(Debug, Clone)]
pub struct StrMap<V> {
    entries: Vec<(String, V)>,
}

/// Header names mapped to header values.
pub type Headers = StrMap<String>;

impl<V: View> StrMap<V> {
    /// The entries in insertion order, keys as characters.
    pub closed spec fn spec_entries(&self) -> Seq<(Seq<char>, V::V)> {
        self.entries@.map_values(|e: (String, V)| (e.0@, e.1@))
    }

    /// An empty map.
    pub fn new() -> (r: StrMap<V>)
        ensures
            r.spec_entries() == Seq::<(Seq<char>, V::V)>::empty(),
    {
        let r = StrMap { entries: Vec::new() };
        assert(r.spec_entries() =~= Seq::<(Seq<char>, V::V)>::empty());
        r
    }

    /// The number of entries.
    pub fn len(&self) -> (r: usize)
        ensures
            r == self.spec_entries().len(),
    {
        self.entries.len()
    }

    fn index_of(&self, k: &str) -> (r: usize)
        ensures
            r == key_index(self.spec_entries(), k@, 0),
    {
        let mut i: usize = 0;
        while i < self.entries.len()
            invariant
                i <= self.entries.len(),
                key_index(self.spec_entries(), k@, 0) == key_index(self.spec_entries(), k@, i as int),
            decreases self.entries.len() - i,
        {
            let key = chars_of(self.entries[i].0.as_str());
            if eq_lit(&key, k) {
                return i;
            }
            i = i + 1;
        }
        i
    }

    /// Whether some entry has key `k`.
    pub fn contains_key(&self, k: &str) -> (r: bool)
        ensures
            r == lookup(self.spec_entries(), k@) is Some,
    {
        self.index_of(k) < self.entries.len()
    }

    /// The value stored under `k`.
    pub fn get(&self, k: &str) -> (r: Option<&V>)
        ensures
            r matches Some(v) ==> lookup(self.spec_entries(), k@) == Some(v@),
            r is None ==> lookup(self.spec_entries(), k@) is None,
    {
        let i = self.index_of(k);
        if i < self.entries.len() {
            Some(&self.entries[i].1)
        } else {
            None
        }
    }

    /// The key of entry `i`.
    pub fn key_at(&self, i: usize) -> (r: &String)
        requires
            i < self.spec_entries().len(),
        ensures
            r@ == self.spec_entries()[i as int].0,
    {
        &self.entries[i].0
    }

    /// The value of entry `i`.
    pub fn value_at(&self, i: usize) -> (r: &V)
        requires
            i < self.spec_entries().len(),
        ensures
            r@ == self.spec_entries()[i as int].1,
    {
        &self.entries[i].1
    }

    /// Stores `v` under `k`, in place of any value that `k` had.
    pub fn insert(&mut self, k: String, v: V)
        ensures
            keys_distinct(old(self).spec_entries()) ==> keys_distinct(final(self).spec_entries()),
            final(self).spec_entries() == inserted(old(self).spec_entries(), k@, v@),
    {
        let i = self.index_of(k.as_str());
        let ghost vv = v@;
        proof {
            lemma_key_index(old(self).spec_entries(), k@, 0);
            if keys_distinct(old(self).spec_entries()) {
                lemma_inserted_distinct(old(self).spec_entries(), k@, vv);
            }
        }
        if i < self.entries.len() {
            self.entries.set(i, (k, v));
            assert(self.spec_entries() =~= inserted(old(self).spec_entries(), k@, vv));
        } else {
            self.entries.push((k, v));
            assert(self.spec_entries() =~= inserted(old(self).spec_entries(), k@, vv));
        }
    }
}

} // verus!
