//! A map keyed by text, kept as a list in which no key occurs twice.

use crate::text::str_eq;
use vstd::prelude::*;

verus! {

/// One key of a [`Table`] with what it stands for.
#[derive(Debug, Clone, PartialEq, Eq)]
struct Entry<V> {
    key: String,
    value: V,
}

/// A map from text to values of `V`.
#[derive(Debug, Clone, PartialEq, Eq)]
pub struct Table<V> {
    entries: Vec<Entry<V>>,
}

/// Whether some entry of the list has the key.
spec fn has_key<V>(entries: Seq<Entry<V>>, key: Seq<char>) -> bool {
    exists|i: int| 0 <= i < entries.len() && #[trigger] entries[i].key@ == key
}

/// The place of an entry with the key, where there is one.
spec fn place_of<V>(entries: Seq<Entry<V>>, key: Seq<char>) -> int {
    choose|i: int| 0 <= i < entries.len() && #[trigger] entries[i].key@ == key
}

/// Whether no key occurs twice in the list.
spec fn distinct_keys<V>(entries: Seq<Entry<V>>) -> bool {
    forall|i: int, j: int|
        0 <= i < j < entries.len() ==> #[trigger] entries[i].key@ != #[trigger] entries[j].key@
}

/// The map that a list of entries with distinct keys stands for.
spec fn map_of<V>(entries: Seq<Entry<V>>) -> Map<Seq<char>, V> {
    Map::new(
        |key: Seq<char>| has_key(entries, key),
        |key: Seq<char>| entries[place_of(entries, key)].value,
    )
}

/// In a list with distinct keys, the entry at any place is what the map
/// gives for its key.
proof fn lemma_entry_in_map<V>(entries: Seq<Entry<V>>, i: int)
    requires
        distinct_keys(entries),
        0 <= i < entries.len(),
    ensures
        map_of(entries).contains_key(entries[i].key@),
        map_of(entries)[entries[i].key@] == entries[i].value,
        place_of(entries, entries[i].key@) == i,
{
    let key = entries[i].key@;
    assert(has_key(entries, key));
    let j = place_of(entries, key);
    assert(0 <= j < entries.len() && entries[j].key@ == key);
    if j < i {
        assert(entries[j].key@ != entries[i].key@);
    } else if i < j {
        assert(entries[i].key@ != entries[j].key@);
    }
}

impl<V> View for Table<V> {
    type V = Map<Seq<char>, V>;

    closed spec fn view(&self) -> Map<Seq<char>, V> {
        map_of(self.entries@)
    }
}

impl<V> Table<V> {
    /// The invariant of the table: no key occurs twice.
    pub closed spec fn wf(&self) -> bool {
        distinct_keys(self.entries@)
    }

    /// The keys in the order in which they were first put in.
    pub closed spec fn keys(&self) -> Seq<Seq<char>> {
        self.entries@.map_values(|e: Entry<V>| e.key@)
    }

    /// The keys are those of the map, each once.
    pub proof fn lemma_keys(&self)
        requires
            self.wf(),
        ensures
            self.keys().no_duplicates(),
            forall|key: Seq<char>| self.keys().contains(key) <==> self@.contains_key(key),
            forall|i: int| 0 <= i < self.keys().len() ==> self@.contains_key(#[trigger] self.keys()[i]),
    {
        let keys = self.keys();
        assert forall|i: int, j: int| 0 <= i < keys.len() && 0 <= j < keys.len() && i != j implies keys[i]
            != keys[j] by {
            if i < j {
                assert(self.entries@[i].key@ != self.entries@[j].key@);
            } else {
                assert(self.entries@[j].key@ != self.entries@[i].key@);
            }
        }
        assert forall|key: Seq<char>| keys.contains(key) <==> self@.contains_key(key) by {
            if keys.contains(key) {
                let i = choose|i: int| 0 <= i < keys.len() && keys[i] == key;
                assert(self.entries@[i].key@ == key);
            }
            if self@.contains_key(key) {
                let i = place_of(self.entries@, key);
                assert(keys[i] == key);
            }
        }
        assert forall|i: int| 0 <= i < keys.len() implies self@.contains_key(#[trigger] keys[i]) by {
            assert(self.entries@[i].key@ == keys[i]);
        }
    }

    /// A table with nothing in it.
    pub fn new() -> (table: Self)
        ensures
            table.wf(),
            table@ == Map::<Seq<char>, V>::empty(),
            table.keys().len() == 0,
    {
        let table = Table { entries: Vec::new() };
        assert(table@ =~= Map::<Seq<char>, V>::empty());
        table
    }

    /// The number of keys.
    pub fn len(&self) -> (len: usize)
        ensures
            len == self.keys().len(),
    {
        self.entries.len()
    }

    /// The key at a place in the order of `keys`.
    pub(crate) fn key_at(&self, i: usize) -> (key: &String)
        requires
            i < self.keys().len(),
        ensures
            key@ == self.keys()[i as int],
    {
        &self.entries[i].key
    }

    /// The value of the key at a place in the order of `keys`.
    pub(crate) fn value_at(&self, i: usize) -> (value: &V)
        requires
            self.wf(),
            i < self.keys().len(),
        ensures
            self@.contains_key(self.keys()[i as int]),
            *value == self@[self.keys()[i as int]],
    {
        proof {
            lemma_entry_in_map(self.entries@, i as int);
        }
        &self.entries[i].value
    }

    fn find(&self, key: &str) -> (found: Option<usize>)
        ensures
            match found {
                Some(i) => i < self.entries@.len() && self.entries@[i as int].key@ == key@,
                None => !has_key(self.entries@, key@),
            },
    {
        let mut i: usize = 0;
        while i < self.entries.len()
            invariant
                i <= self.entries@.len(),
                forall|j: int| 0 <= j < i ==> self.entries@[j].key@ != key@,
            decreases self.entries@.len() - i,
        {
            if str_eq(self.entries[i].key.as_str(), key) {
                return Some(i);
            }
            i += 1;
        }
        None
    }

    /// Whether the key is in the table.
    pub fn contains_key(&self, key: &str) -> (found: bool)
        ensures
            found == self@.contains_key(key@),
    {
        self.find(key).is_some()
    }

    /// What the key stands for, if it is in the table.
    pub fn get(&self, key: &str) -> (value: Option<&V>)
        requires
            self.wf(),
        ensures
            match value {
                Some(value) => self@.contains_key(key@) && *value == self@[key@],
                None => !self@.contains_key(key@),
            },
    {
        match self.find(key) {
            Some(i) => {
                proof {
                    lemma_entry_in_map(self.entries@, i as int);
                }
                Some(&self.entries[i].value)
            },
            None => None,
        }
    }

    /// Puts the key in the table, in place of what it stood for before.
    pub fn insert(&mut self, key: String, value: V)
        requires
            old(self).wf(),
        ensures
            final(self).wf(),
            final(self)@ == old(self)@.insert(key@, value),
            final(self).keys() == if old(self)@.contains_key(key@) {
                old(self).keys()
            } else {
                old(self).keys().push(key@)
            },
    {
        let ghost before = self.entries@;
        let found = self.find(key.as_str());
        let ghost at: int = match found {
            Some(i) => i as int,
            None => before.len() as int,
        };
        match found {
            Some(i) => {
                self.entries.set(i, Entry { key, value });
            },
            None => {
                self.entries.push(Entry { key, value });
            },
        }
        proof {
            let after = self.entries@;
            assert(after[at].key@ == key@ && after[at].value == value);
            assert forall|j: int| 0 <= j < after.len() && j != at implies after[j] == before[j] by {}
            assert(distinct_keys(after)) by {
                assert forall|i: int, j: int| 0 <= i < j < after.len() implies #[trigger] after[i].key@
                    != #[trigger] after[j].key@ by {
                    if i != at && j != at {
                        assert(before[i].key@ != before[j].key@);
                    } else if found is Some {
                        if i == at {
                            assert(before[i].key@ != before[j].key@);
                        } else {
                            assert(before[i].key@ != before[j].key@);
                        }
                    } else {
                        assert(before[i].key@ != key@);
                    }
                }
            }
            assert forall|k: Seq<char>| has_key(after, k) <==> (k == key@ || has_key(before, k)) by {
                if has_key(after, k) {
                    let j = place_of(after, k);
                    if j != at {
                        assert(before[j].key@ == k);
                    }
                }
                if k == key@ {
                    assert(after[at].key@ == k);
                } else if has_key(before, k) {
                    let j = place_of(before, k);
                    assert(after[j].key@ == k);
                }
            }
            assert forall|k: Seq<char>| has_key(after, k) implies map_of(after)[k] == old(
                self,
            )@.insert(key@, value)[k] by {
                let j = place_of(after, k);
                lemma_entry_in_map(after, j);
                if k != key@ {
                    assert(j != at);
                    assert(before[j].key@ == k);
                    lemma_entry_in_map(before, j);
                } else {
                    lemma_entry_in_map(after, at);
                }
            }
            assert(self@ =~= old(self)@.insert(key@, value));
            if found is Some {
                assert(before[at].key@ == key@);
                assert(self.keys() =~= old(self).keys());
            } else {
                assert(self.keys() =~= old(self).keys().push(key@));
            }
        }
    }

    /// Takes the key out of the table, if it is there.
    pub fn remove(&mut self, key: &str)
        requires
            old(self).wf(),
        ensures
            final(self).wf(),
            final(self)@ == old(self)@.remove(key@),
    {
        let ghost before = self.entries@;
        match self.find(key) {
            Some(i) => {
                let _ = self.entries.remove(i);
                proof {
                    let after = self.entries@;
                    let at = i as int;
                    assert forall|j: int| 0 <= j < after.len() implies after[j] == (if j < at {
                        before[j]
                    } else {
                        before[j + 1]
                    }) by {}
                    assert(distinct_keys(after)) by {
                        assert forall|a: int, b: int| 0 <= a < b < after.len() implies #[trigger] after[a].key@
                            != #[trigger] after[b].key@ by {
                            let a0 = if a < at { a } else { a + 1 };
                            let b0 = if b < at { b } else { b + 1 };
                            assert(before[a0].key@ != before[b0].key@);
                        }
                    }
                    assert forall|k: Seq<char>| has_key(after, k) <==> (k != key@ && has_key(before, k)) by {
                        if has_key(after, k) {
                            let j = place_of(after, k);
                            let j0 = if j < at { j } else { j + 1 };
                            assert(before[j0].key@ == k);
                            if j0 < at {
                                assert(before[j0].key@ != before[at].key@);
                            } else {
                                assert(before[at].key@ != before[j0].key@);
                            }
                        }
                        if k != key@ && has_key(before, k) {
                            let j0 = place_of(before, k);
                            let j = if j0 < at { j0 } else { j0 - 1 };
                            assert(after[j].key@ == k);
                        }
                    }
                    assert forall|k: Seq<char>| has_key(after, k) implies map_of(after)[k] == old(
                        self,
                    )@.remove(key@)[k] by {
                        let j = place_of(after, k);
                        lemma_entry_in_map(after, j);
                        let j0 = if j < at { j } else { j + 1 };
                        lemma_entry_in_map(before, j0);
                    }
                    assert(self@ =~= old(self)@.remove(key@));
                }
            },
            None => {
                assert(self@ =~= old(self)@.remove(key@));
            },
        }
    }
}

} // verus!
