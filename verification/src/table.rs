//! String-keyed association tables with last-write-wins semantics.
//!
//! A `Table` backs both handler registries and the per-denomination cap
//! configuration.  Registering a second value under the same key shadows the
//! first, which is exactly the overwrite semantics the registration API
//! promises.

use vstd::prelude::*;

verus! {

/// An association list from string keys to values.  Later entries shadow
/// earlier ones, so `insert` is a plain push and the abstract value is the
/// map obtained by folding the entries left to right.
pub struct Table<V> {
    /// The registrations in order; later entries shadow earlier ones.
    pub entries: Vec<(String, V)>,
}

/// The map denoted by an entry sequence: each entry overrides whatever the
/// earlier entries said about its key.
pub open spec fn assoc_map<V: View>(entries: Seq<(String, V)>) -> Map<Seq<char>, V::V>
    decreases entries.len(),
{
    if entries.len() == 0 {
        Map::empty()
    } else {
        assoc_map(entries.drop_last()).insert(entries.last().0@, entries.last().1@)
    }
}

impl<V: View> View for Table<V> {
    type V = Map<Seq<char>, V::V>;

    open spec fn view(&self) -> Map<Seq<char>, V::V> {
        assoc_map(self.entries@)
    }
}

proof fn lemma_assoc_map_no_match<V: View>(entries: Seq<(String, V)>, key: Seq<char>)
    requires
        forall|j: int| 0 <= j < entries.len() ==> entries[j].0@ != key,
    ensures
        !assoc_map(entries).contains_key(key),
    decreases entries.len(),
{
    if entries.len() > 0 {
        lemma_assoc_map_no_match(entries.drop_last(), key);
    }
}

proof fn lemma_assoc_map_last_match<V: View>(entries: Seq<(String, V)>, key: Seq<char>, i: int)
    requires
        0 <= i < entries.len(),
        entries[i].0@ == key,
        forall|j: int| i < j < entries.len() ==> entries[j].0@ != key,
    ensures
        assoc_map(entries).contains_key(key),
        assoc_map(entries)[key] == entries[i].1@,
    decreases entries.len(),
{
    if i < entries.len() - 1 {
        lemma_assoc_map_last_match(entries.drop_last(), key, i);
    }
}

impl<V: View> Table<V> {
    /// An empty table.
    pub fn new() -> (t: Table<V>)
        ensures
            t@ == Map::<Seq<char>, V::V>::empty(),
    {
        Table { entries: Vec::new() }
    }

    /// Inserts `value` under `key`, replacing whatever was there before.
    pub fn insert(&mut self, key: String, value: V)
        ensures
            final(self)@ == old(self)@.insert(key@, value@),
    {
        self.entries.push((key, value));
        proof {
            assert(self.entries@.drop_last() =~= old(self).entries@);
        }
    }

    /// Looks the key up; a pure read.  The newest entry for the key wins.
    pub fn get(&self, key: &String) -> (r: Option<&V>)
        ensures
            match r {
                Some(v) => self@.contains_key(key@) && v@ == self@[key@],
                None => !self@.contains_key(key@),
            },
    {
        let n = self.entries.len();
        let mut i: usize = n;
        while i > 0
            invariant
                i <= n,
                n == self.entries.len(),
                forall|j: int| i <= j < n ==> self.entries@[j].0@ != key@,
            decreases i,
        {
            i = i - 1;
            if self.entries[i].0 == *key {
                proof {
                    lemma_assoc_map_last_match(self.entries@, key@, i as int);
                }
                return Some(&self.entries[i].1);
            }
        }
        proof {
            lemma_assoc_map_no_match(self.entries@, key@);
        }
        None
    }

}

impl<V: View + Copy> Table<V> {
    /// An entry-for-entry copy of this table, for copyable values.
    pub fn duplicate(&self) -> (t: Table<V>)
        ensures
            t@ == self@,
    {
        let mut entries: Vec<(String, V)> = Vec::new();
        let mut i: usize = 0;
        while i < self.entries.len()
            invariant
                i <= self.entries.len(),
                entries@ == self.entries@.take(i as int),
            decreases self.entries.len() - i,
        {
            entries.push((self.entries[i].0.clone(), self.entries[i].1));
            proof {
                assert(entries@ =~= self.entries@.take(i as int + 1));
            }
            i = i + 1;
        }
        proof {
            assert(self.entries@.take(self.entries@.len() as int) =~= self.entries@);
        }
        Table { entries }
    }
}

} // verus!
