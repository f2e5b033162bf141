//! A small map from strings to values that remembers the order in which its
//! keys were first inserted.

use vstd::prelude::*;

verus! {

/// The map that a list of entries spells: a later entry replaces an earlier
/// one with the same key.
pub open spec fn map_of<V>(entries: Seq<(String, V)>) -> Map<Seq<char>, V>
    decreases entries.len(),
{
    if entries.len() == 0 {
        Map::empty()
    } else {
        map_of(entries.drop_last()).insert(entries.last().0@, entries.last().1)
    }
}

/// No two entries have the same key.
pub open spec fn distinct_keys<V>(entries: Seq<(String, V)>) -> bool {
    forall|i: int, j: int|
        0 <= i < j < entries.len() ==> (#[trigger] entries[i]).0@ != (#[trigger] entries[j]).0@
}

/// Some entry has the key `key`.
pub open spec fn has_key<V>(entries: Seq<(String, V)>, key: Seq<char>) -> bool {
    exists|i: int| 0 <= i < entries.len() && (#[trigger] entries[i]).0@ == key
}

/// The entries with `value` under `key`: in the place of the entry with
/// that key where there is one, else behind all the others.
pub open spec fn put<V>(entries: Seq<(String, V)>, key: String, value: V) -> Seq<(String, V)> {
    if has_key(entries, key@) {
        let i = choose|i: int| 0 <= i < entries.len() && (#[trigger] entries[i]).0@ == key@;
        entries.update(i, (key, value))
    } else {
        entries.push((key, value))
    }
}

/// The keys of `map_of` are the keys of the entries, and there are finitely
/// many of them.
pub proof fn lemma_map_of_keys<V>(entries: Seq<(String, V)>)
    ensures
        map_of(entries).dom().finite(),
        forall|key: Seq<char>| #[trigger] map_of(entries).contains_key(key) <==> has_key(entries, key),
    decreases entries.len(),
{
    if entries.len() > 0 {
        let init = entries.drop_last();
        lemma_map_of_keys(init);
        assert forall|key: Seq<char>| #[trigger]
            map_of(entries).contains_key(key) <==> has_key(entries, key) by {
            if has_key(entries, key) {
                let i = choose|i: int| 0 <= i < entries.len() && (#[trigger] entries[i]).0@ == key;
                if i < init.len() {
                    assert(init[i].0@ == key);
                }
            }
        }
    }
}

/// The map holds, under a key, the value of the last entry with that key.
pub proof fn lemma_map_of_last_wins<V>(entries: Seq<(String, V)>, i: int)
    requires
        0 <= i < entries.len(),
        forall|j: int| i < j < entries.len() ==> (#[trigger] entries[j]).0@ != entries[i].0@,
    ensures
        map_of(entries).contains_key(entries[i].0@),
        map_of(entries)[entries[i].0@] == entries[i].1,
    decreases entries.len(),
{
    let init = entries.drop_last();
    if i < entries.len() - 1 {
        lemma_map_of_last_wins(init, i);
    }
}

/// Where the keys are distinct, every entry is what the map holds under its key.
pub proof fn lemma_map_of_entry<V>(entries: Seq<(String, V)>, i: int)
    requires
        distinct_keys(entries),
        0 <= i < entries.len(),
    ensures
        map_of(entries).contains_key(entries[i].0@),
        map_of(entries)[entries[i].0@] == entries[i].1,
    decreases entries.len(),
{
    let init = entries.drop_last();
    if i < entries.len() - 1 {
        lemma_map_of_entry(init, i);
    }
}

/// Where the keys are distinct, the map has as many keys as there are entries.
pub proof fn lemma_map_of_len<V>(entries: Seq<(String, V)>)
    requires
        distinct_keys(entries),
    ensures
        map_of(entries).dom().finite(),
        map_of(entries).len() == entries.len(),
    decreases entries.len(),
{
    if entries.len() > 0 {
        let init = entries.drop_last();
        lemma_map_of_len(init);
        lemma_map_of_keys(init);
        let key = entries.last().0@;
        assert(!map_of(init).contains_key(key));
    }
}

/// Where the keys are distinct, putting a new value in the place of an entry
/// is inserting that value under the entry's key.
pub proof fn lemma_map_of_replace<V>(entries: Seq<(String, V)>, i: int, key: String, value: V)
    requires
        distinct_keys(entries),
        0 <= i < entries.len(),
        key@ == entries[i].0@,
    ensures
        distinct_keys(entries.update(i, (key, value))),
        map_of(entries.update(i, (key, value))) == map_of(entries).insert(key@, value),
    decreases entries.len(),
{
    let replaced = entries.update(i, (key, value));
    let init = entries.drop_last();
    if i == entries.len() - 1 {
        assert(replaced.drop_last() =~= init);
    } else {
        lemma_map_of_replace(init, i, key, value);
        assert(replaced.drop_last() =~= init.update(i, (key, value)));
    }
}

/// A map from strings to values, kept as a list of entries with distinct keys.
#[derive(Debug, PartialEq, Eq)]
pub struct StringMap<V> {
    entries: Vec<(String, V)>,
}

impl<V> View for StringMap<V> {
    type V = Map<Seq<char>, V>;

    closed spec fn view(&self) -> Map<Seq<char>, V> {
        map_of(self.entries@)
    }
}

impl<V> StringMap<V> {
    #[verifier::type_invariant]
    spec fn keys_are_distinct(self) -> bool {
        distinct_keys(self.entries@)
    }

    /// The entries in the order in which their keys were first inserted.
    pub closed spec fn spec_entries(&self) -> Seq<(String, V)> {
        self.entries@
    }

    /// The map with no entry.
    pub fn new() -> (map: Self)
        ensures
            map@ == Map::<Seq<char>, V>::empty(),
            map.spec_entries().len() == 0,
    {
        StringMap { entries: Vec::new() }
    }

    /// Puts `value` under `key`, in the place of what was there, if anything.
    pub fn insert(&mut self, key: String, value: V)
        ensures
            final(self)@ == old(self)@.insert(key@, value),
            final(self).spec_entries() == put(old(self).spec_entries(), key, value),
    {
        proof {
            use_type_invariant(&*self);
        }
        let mut entries: Vec<(String, V)> = Vec::new();
        core::mem::swap(&mut self.entries, &mut entries);
        let n = entries.len();
        let mut i: usize = 0;
        let mut at: Option<usize> = None;
        while i < n && at.is_none()
            invariant
                n == entries@.len(),
                i <= n,
                at is None ==> forall|j: int| 0 <= j < i ==> (#[trigger] entries@[j]).0@ != key@,
                at matches Some(k) ==> k < n && entries@[k as int].0@ == key@,
            decreases n - i + (if at is None { 1int } else { 0int }),
        {
            if entries[i].0 == key {
                at = Some(i);
            } else {
                i = i + 1;
            }
        }
        match at {
            Some(k) => {
                proof {
                    lemma_map_of_replace(entries@, k as int, key, value);
                    let i = choose|i: int|
                        0 <= i < entries@.len() && (#[trigger] entries@[i]).0@ == key@;
                }
                entries.set(k, (key, value));
            },
            None => {
                proof {
                    if has_key(entries@, key@) {
                        let i = choose|i: int|
                            0 <= i < entries@.len() && (#[trigger] entries@[i]).0@ == key@;
                    }
                    let grown = entries@.push((key, value));
                    assert(grown.drop_last() =~= entries@);
                    assert(distinct_keys(grown));
                }
                entries.push((key, value));
            },
        }
        core::mem::swap(&mut self.entries, &mut entries);
    }

    /// The number of keys.
    pub fn len(&self) -> (n: usize)
        ensures
            self@.dom().finite(),
            n == self@.len(),
            n == self.spec_entries().len(),
    {
        proof {
            use_type_invariant(self);
            lemma_map_of_len(self.entries@);
        }
        self.entries.len()
    }

    /// Whether the map has no key.
    pub fn is_empty(&self) -> (empty: bool)
        ensures
            empty == (self@ == Map::<Seq<char>, V>::empty()),
    {
        proof {
            use_type_invariant(self);
            lemma_map_of_len(self.entries@);
        }
        self.entries.len() == 0
    }

    /// What the map holds under `key`.
    pub fn get(&self, key: &String) -> (value: Option<&V>)
        ensures
            value is Some <==> self@.contains_key(key@),
            value is Some ==> *value->Some_0 == self@[key@],
    {
        proof {
            use_type_invariant(self);
            lemma_map_of_keys(self.entries@);
        }
        let n = self.entries.len();
        let mut i: usize = 0;
        while i < n
            invariant
                n == self.entries@.len(),
                i <= n,
                distinct_keys(self.entries@),
                forall|j: int| 0 <= j < i ==> (#[trigger] self.entries@[j]).0@ != key@,
            decreases n - i,
        {
            if self.entries[i].0 == *key {
                proof {
                    lemma_map_of_entry(self.entries@, i as int);
                }
                return Some(&self.entries[i].1);
            }
            i = i + 1;
        }
        proof {
            if has_key(self.entries@, key@) {
                let j = choose|j: int| 0 <= j < self.entries@.len() && (#[trigger] self.entries@[j]).0@ == key@;
            }
        }
        None
    }

    /// The entries in the order in which their keys were first inserted: no
    /// key comes twice, and together they spell this map.
    pub fn entries(&self) -> (entries: &Vec<(String, V)>)
        ensures
            entries@ == self.spec_entries(),
            distinct_keys(entries@),
            map_of(entries@) == self@,
    {
        proof {
            use_type_invariant(self);
        }
        &self.entries
    }

    /// The entries, as `entries` gives them, by value.
    pub fn into_entries(self) -> (entries: Vec<(String, V)>)
        ensures
            entries@ == self.spec_entries(),
            distinct_keys(entries@),
            map_of(entries@) == self@,
    {
        proof {
            use_type_invariant(&self);
        }
        self.entries
    }
}

} // verus!
