//! An insertion-ordered mapping from string keys to string values.

use vstd::prelude::*;
use crate::text::Text;

verus! {

/// The entries of a mapping in the order in which their keys first came in.
pub type Entries = Seq<(Text, Text)>;

/// No key occurs twice.
pub open spec fn distinct_keys(entries: Entries) -> bool {
    forall|i: int, j: int|
        0 <= i < j < entries.len() ==> (#[trigger] entries[i]).0 != (#[trigger] entries[j]).0
}

/// Some entry has the key.
pub open spec fn has_key(entries: Entries, key: Text) -> bool {
    exists|i: int| 0 <= i < entries.len() && (#[trigger] entries[i]).0 == key
}

/// Where the entry with the key stands, if there is one.
pub open spec fn position(entries: Entries, key: Text) -> int {
    choose|i: int| 0 <= i < entries.len() && (#[trigger] entries[i]).0 == key
}

/// The value under the key.
pub open spec fn lookup(entries: Entries, key: Text) -> Option<Text> {
    if has_key(entries, key) {
        Some(entries[position(entries, key)].1)
    } else {
        None
    }
}

/// The entries after `value` is stored under `key`: an entry with that key keeps
/// its place and takes the new value; a new key goes to the end.
pub open spec fn put(entries: Entries, key: Text, value: Text) -> Entries {
    if has_key(entries, key) {
        entries.update(position(entries, key), (key, value))
    } else {
        entries.push((key, value))
    }
}

/// The entries as a finite map, the order forgotten.
pub open spec fn as_map(entries: Entries) -> Map<Text, Text> {
    Map::new(|key: Text| has_key(entries, key), |key: Text| lookup(entries, key)->0)
}

/// With distinct keys, the entry at `i` is the one that `position` finds for its key.
pub proof fn lemma_position_of_entry(entries: Entries, i: int)
    requires
        distinct_keys(entries),
        0 <= i < entries.len(),
    ensures
        has_key(entries, entries[i].0),
        position(entries, entries[i].0) == i,
        lookup(entries, entries[i].0) == Some(entries[i].1),
{
    let key = entries[i].0;
    let p = position(entries, key);
    assert(0 <= p < entries.len() && entries[p].0 == key);
    if p < i {
        assert(entries[p].0 != entries[i].0);
    } else if i < p {
        assert(entries[i].0 != entries[p].0);
    }
}

/// Storing under a key that is present overwrites in place: the number of entries
/// and their keys stay as they were, no key occurs twice, the key now leads to the
/// new value, and every other entry is untouched.
pub proof fn lemma_put_present(entries: Entries, key: Text, value: Text)
    requires
        distinct_keys(entries),
        has_key(entries, key),
    ensures
        put(entries, key, value).len() == entries.len(),
        distinct_keys(put(entries, key, value)),
        forall|i: int|
            0 <= i < entries.len() ==> (#[trigger] put(entries, key, value)[i]).0 == entries[i].0,
        forall|i: int|
            0 <= i < entries.len() && entries[i].0 != key ==> #[trigger] put(entries, key, value)[i]
                == entries[i],
        lookup(put(entries, key, value), key) == Some(value),
        as_map(put(entries, key, value)) == as_map(entries).insert(key, value),
{
    let p = position(entries, key);
    let after = put(entries, key, value);
    assert(0 <= p < entries.len() && entries[p].0 == key);
    assert(after[p] == (key, value));
    lemma_put_as_map(entries, key, value);
    lemma_position_of_entry(after, p);
}

/// Storing under a key that is absent appends one entry and touches no other.
pub proof fn lemma_put_absent(entries: Entries, key: Text, value: Text)
    requires
        distinct_keys(entries),
        !has_key(entries, key),
    ensures
        put(entries, key, value) == entries.push((key, value)),
        distinct_keys(put(entries, key, value)),
        lookup(put(entries, key, value), key) == Some(value),
        as_map(put(entries, key, value)) == as_map(entries).insert(key, value),
{
    let after = put(entries, key, value);
    lemma_put_as_map(entries, key, value);
    lemma_position_of_entry(after, entries.len() as int);
}

/// Storing keeps the keys distinct and agrees with insertion into the map.
pub proof fn lemma_put_as_map(entries: Entries, key: Text, value: Text)
    requires
        distinct_keys(entries),
    ensures
        distinct_keys(put(entries, key, value)),
        as_map(put(entries, key, value)) == as_map(entries).insert(key, value),
{
    let after = put(entries, key, value);
    let p = if has_key(entries, key) {
        position(entries, key)
    } else {
        entries.len() as int
    };
    assert(after[p] == (key, value));
    assert forall|i: int, j: int| 0 <= i < j < after.len() implies (#[trigger] after[i]).0 != (
    #[trigger] after[j]).0 by {
        if j < entries.len() {
            assert(entries[i].0 != entries[j].0);
        } else {
            assert(entries[i].0 != key);
        }
    }
    assert forall|k: Text| has_key(after, k) <==> (k == key || has_key(entries, k)) by {
        if has_key(after, k) {
            let i = position(after, k);
            if i != p {
                assert(entries[i].0 == k);
            }
        }
        if k == key {
            assert(after[p].0 == k);
        }
        if has_key(entries, k) && k != key {
            let i = position(entries, k);
            assert(after[i].0 == k);
        }
    }
    assert forall|k: Text| has_key(after, k) implies lookup(after, k)->0 == (if k == key {
        value
    } else {
        lookup(entries, k)->0
    }) by {
        let i = position(after, k);
        lemma_position_of_entry(after, i);
        if k == key {
            lemma_position_of_entry(after, p);
        } else {
            assert(i != p);
            assert(entries[i].0 == k);
            lemma_position_of_entry(entries, i);
        }
    }
    assert(as_map(after) =~= as_map(entries).insert(key, value));
}

/// An insertion-ordered mapping from string keys to string values. A key occurs
/// once; storing under a key that is present overwrites its value in place.
#[derive(Debug)]
pub struct Pairs {
    entries: Vec<(String, String)>,
}

impl View for Pairs {
    type V = Entries;

    closed spec fn view(&self) -> Entries {
        Seq::new(self.entries@.len(), |i: int| (self.entries@[i].0@, self.entries@[i].1@))
    }
}

impl Pairs {
    /// The invariant of the type: no key occurs twice.
    pub open spec fn wf(&self) -> bool {
        distinct_keys(self@)
    }

    /// The empty mapping.
    pub fn new() -> (pairs: Pairs)
        ensures
            pairs@ == Seq::<(Text, Text)>::empty(),
            pairs.wf(),
    {
        Pairs { entries: Vec::new() }
    }

    /// The number of entries.
    pub fn len(&self) -> (n: usize)
        ensures
            n == self@.len(),
    {
        self.entries.len()
    }

    /// Whether there is no entry.
    pub fn is_empty(&self) -> (yes: bool)
        ensures
            yes == (self@.len() == 0),
    {
        self.entries.len() == 0
    }

    /// The key of the entry at `index`, counted in order of insertion.
    pub fn key_at(&self, index: usize) -> (key: Option<&String>)
        ensures
            index < self@.len() ==> key is Some && key->0@ == self@[index as int].0,
            index >= self@.len() ==> key is None,
    {
        if index < self.entries.len() {
            Some(&self.entries[index].0)
        } else {
            None
        }
    }

    /// The value of the entry at `index`, counted in order of insertion.
    pub fn value_at(&self, index: usize) -> (value: Option<&String>)
        ensures
            index < self@.len() ==> value is Some && value->0@ == self@[index as int].1,
            index >= self@.len() ==> value is None,
    {
        if index < self.entries.len() {
            Some(&self.entries[index].1)
        } else {
            None
        }
    }

    /// Where the entry with the key stands, if there is one.
    fn find(&self, key: &String) -> (found: Option<usize>)
        ensures
            match found {
                Some(index) => index < self@.len() && self@[index as int].0 == key@,
                None => !has_key(self@, key@),
            },
    {
        let mut index: usize = 0;
        while index < self.entries.len()
            invariant
                index <= self.entries.len(),
                forall|i: int| 0 <= i < index ==> (#[trigger] self@[i]).0 != key@,
            decreases self.entries.len() - index,
        {
            if self.entries[index].0 == *key {
                return Some(index);
            }
            index += 1;
        }
        None
    }

    /// Whether some entry has the key.
    pub fn contains_key(&self, key: &String) -> (yes: bool)
        ensures
            yes == has_key(self@, key@),
    {
        self.find(key).is_some()
    }

    /// The value under the key.
    pub fn get(&self, key: &String) -> (value: Option<&String>)
        requires
            self.wf(),
        ensures
            value is Some == has_key(self@, key@),
            value matches Some(text) ==> Some(text@) == lookup(self@, key@),
    {
        match self.find(key) {
            Some(index) => {
                proof {
                    lemma_position_of_entry(self@, index as int);
                }
                Some(&self.entries[index].1)
            },
            None => None,
        }
    }

    /// Stores `value` under `key`: an entry with that key keeps its place and takes
    /// the new value; a new key goes to the end.
    pub fn insert(&mut self, key: String, value: String)
        requires
            old(self).wf(),
        ensures
            final(self)@ == put(old(self)@, key@, value@),
            final(self).wf(),
            final(self)@.len() == old(self)@.len() + (if has_key(old(self)@, key@) {
                0int
            } else {
                1int
            }),
    {
        proof {
            lemma_put_as_map(self@, key@, value@);
        }
        match self.find(&key) {
            Some(index) => {
                proof {
                    lemma_position_of_entry(self@, index as int);
                }
                self.entries.set(index, (key, value));
                assert(self@ =~= put(old(self)@, key@, value@));
            },
            None => {
                self.entries.push((key, value));
                assert(self@ =~= put(old(self)@, key@, value@));
            },
        }
    }
}

} // verus!
