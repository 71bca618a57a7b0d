//! A small map keyed by identifier strings.
//!
//! Weapons and cooldown entries are found by their identifier. The table keeps
//! its entries in a vector, in insertion order, and never holds one identifier
//! twice; its view is the finite map from identifier to value.

use vstd::prelude::*;

verus! {

/// One identifier with the value stored under it.
#[derive(Clone, Debug)]
pub struct Entry<V> {
    pub key: String,
    pub value: V,
}

/// A map from identifier to value in which every identifier occurs at most once.
#[derive(Debug)]
pub struct IdTable<V> {
    entries: Vec<Entry<V>>,
}

/// No identifier occurs at two positions of `entries`.
pub open spec fn distinct_keys<V>(entries: Seq<Entry<V>>) -> bool {
    forall|i: int, j: int|
        0 <= i < entries.len() && 0 <= j < entries.len() && i != j ==> entries[i].key@
            != entries[j].key@
}

/// `key` is stored at position `i` of `entries`.
pub open spec fn key_at<V>(entries: Seq<Entry<V>>, key: Seq<char>, i: int) -> bool {
    0 <= i < entries.len() && entries[i].key@ == key
}

/// The map that a sequence of entries stands for.
pub open spec fn entries_map<V>(entries: Seq<Entry<V>>) -> Map<Seq<char>, V> {
    Map::new(
        |key: Seq<char>| exists|i: int| key_at(entries, key, i),
        |key: Seq<char>| entries[choose|i: int| key_at(entries, key, i)].value,
    )
}

/// With distinct identifiers, each entry is what the map holds under its identifier.
pub proof fn lemma_entry_in_map<V>(entries: Seq<Entry<V>>, i: int)
    requires
        distinct_keys(entries),
        0 <= i < entries.len(),
    ensures
        entries_map(entries).contains_key(entries[i].key@),
        entries_map(entries)[entries[i].key@] == entries[i].value,
{
    let key = entries[i].key@;
    assert(key_at(entries, key, i));
    let j = choose|j: int| key_at(entries, key, j);
    assert(j == i);
}

impl<V> View for IdTable<V> {
    type V = Map<Seq<char>, V>;

    closed spec fn view(&self) -> Map<Seq<char>, V> {
        entries_map(self.entries@)
    }
}

impl<V: Clone> Clone for IdTable<V> {
    /// Copies the table entry by entry; the copy holds the same identifiers.
    fn clone(&self) -> (copy: Self)
        ensures
            copy@.dom() == self@.dom(),
    {
        proof {
            use_type_invariant(self);
        }
        let mut entries: Vec<Entry<V>> = Vec::new();
        let mut i: usize = 0;
        while i < self.entries.len()
            invariant
                i <= self.entries.len(),
                entries@.len() == i,
                forall|j: int| 0 <= j < i ==> entries@[j].key@ == self.entries@[j].key@,
            decreases self.entries.len() - i,
        {
            let entry = &self.entries[i];
            entries.push(Entry { key: entry.key.clone(), value: entry.value.clone() });
            i += 1;
        }
        proof {
            assert forall|k: Seq<char>|
                entries_map(entries@).contains_key(k) <==> entries_map(self.entries@).contains_key(
                    k,
                ) by {
                if entries_map(entries@).contains_key(k) {
                    let j = choose|j: int| key_at(entries@, k, j);
                    assert(key_at(self.entries@, k, j));
                }
                if entries_map(self.entries@).contains_key(k) {
                    let j = choose|j: int| key_at(self.entries@, k, j);
                    assert(key_at(entries@, k, j));
                }
            }
            assert(entries_map(entries@).dom() =~= entries_map(self.entries@).dom());
        }
        IdTable { entries }
    }
}

impl<V> IdTable<V> {
    #[verifier::type_invariant]
    spec fn distinct(&self) -> bool {
        distinct_keys(self.entries@)
    }

    /// The empty table.
    pub fn new() -> (table: Self)
        ensures
            table@ == Map::<Seq<char>, V>::empty(),
    {
        let table = IdTable { entries: Vec::new() };
        assert(table@ =~= Map::<Seq<char>, V>::empty());
        table
    }

    /// Moves the entries out and leaves the table empty.
    fn take_entries(&mut self) -> (entries: Vec<Entry<V>>)
        ensures
            entries == old(self).entries,
            final(self).entries@.len() == 0,
    {
        let mut taken = IdTable { entries: Vec::new() };
        std::mem::swap(self, &mut taken);
        let IdTable { entries } = taken;
        entries
    }

    /// Position of `key` among the entries, if it is stored.
    fn position(&self, key: &String) -> (found: Option<usize>)
        ensures
            match found {
                Some(i) => key_at(self.entries@, key@, i as int),
                None => forall|i: int| !key_at(self.entries@, key@, i),
            },
    {
        let mut i: usize = 0;
        while i < self.entries.len()
            invariant
                i <= self.entries.len(),
                forall|j: int| 0 <= j < i ==> self.entries@[j].key@ != key@,
            decreases self.entries.len() - i,
        {
            if self.entries[i].key == *key {
                return Some(i);
            }
            i += 1;
        }
        None
    }

    /// Looks up the value stored under `key`.
    pub fn get(&self, key: &String) -> (found: Option<&V>)
        ensures
            match found {
                Some(value) => self@.contains_key(key@) && *value == self@[key@],
                None => !self@.contains_key(key@),
            },
    {
        proof {
            use_type_invariant(self);
        }
        match self.position(key) {
            Some(i) => {
                proof {
                    lemma_entry_in_map(self.entries@, i as int);
                }
                Some(&self.entries[i].value)
            },
            None => None,
        }
    }

    /// Says whether a value is stored under `key`.
    pub fn contains_key(&self, key: &String) -> (present: bool)
        ensures
            present == self@.contains_key(key@),
    {
        self.position(key).is_some()
    }

    /// Stores `value` under `key` and hands back the value that it replaces.
    pub fn insert(&mut self, key: String, value: V) -> (previous: Option<V>)
        ensures
            final(self)@ == old(self)@.insert(key@, value),
            match previous {
                Some(before) => old(self)@.contains_key(key@) && before == old(self)@[key@],
                None => !old(self)@.contains_key(key@),
            },
    {
        proof {
            use_type_invariant(&*self);
        }
        let ghost before = self.entries@;
        let found = self.position(&key);
        let mut entries = self.take_entries();
        match found {
            Some(i) => {
                proof {
                    lemma_entry_in_map(before, i as int);
                }
                let ghost id = key@;
                let mut entry = Entry { key, value };
                std::mem::swap(&mut entries[i], &mut entry);
                proof {
                    let after = entries@;
                    assert(after == before.update(i as int, Entry { key: after[i as int].key, value }));
                    assert(forall|j: int| 0 <= j < after.len() ==> after[j].key@ == before[j].key@);
                    assert(distinct_keys(after));
                    assert forall|k: Seq<char>|
                        entries_map(after).contains_key(k) <==> entries_map(before).insert(
                            id,
                            value,
                        ).contains_key(k) by {
                        if entries_map(after).contains_key(k) {
                            let j = choose|j: int| key_at(after, k, j);
                            assert(key_at(before, k, j));
                        }
                        if entries_map(before).contains_key(k) {
                            let j = choose|j: int| key_at(before, k, j);
                            assert(key_at(after, k, j));
                        }
                        if k == id {
                            assert(key_at(after, k, i as int));
                        }
                    }
                    assert forall|k: Seq<char>| entries_map(after).contains_key(k) implies entries_map(
                        after,
                    )[k] == entries_map(before).insert(id, value)[k] by {
                        let j = choose|j: int| key_at(after, k, j);
                        lemma_entry_in_map(after, j);
                        lemma_entry_in_map(before, j);
                    }
                    assert(entries_map(after) =~= entries_map(before).insert(id, value));
                }
                self.entries = entries;
                Some(entry.value)
            },
            None => {
                let ghost id = key@;
                entries.push(Entry { key, value });
                proof {
                    let after = entries@;
                    let last = before.len() as int;
                    assert(forall|j: int| 0 <= j < last ==> after[j] == before[j]);
                    assert(after[last].key@ == id);
                    assert forall|a: int, b: int|
                        0 <= a < after.len() && 0 <= b < after.len() && a != b implies after[a].key@
                        != after[b].key@ by {
                        if a == last {
                            assert(!key_at(before, id, b));
                        } else if b == last {
                            assert(!key_at(before, id, a));
                        }
                    }
                    assert forall|k: Seq<char>|
                        entries_map(after).contains_key(k) <==> entries_map(before).insert(
                            id,
                            value,
                        ).contains_key(k) by {
                        if entries_map(after).contains_key(k) {
                            let j = choose|j: int| key_at(after, k, j);
                            if j != last {
                                assert(key_at(before, k, j));
                            }
                        }
                        if entries_map(before).contains_key(k) {
                            let j = choose|j: int| key_at(before, k, j);
                            assert(key_at(after, k, j));
                        }
                        if k == id {
                            assert(key_at(after, k, last));
                        }
                    }
                    assert forall|k: Seq<char>| entries_map(after).contains_key(k) implies entries_map(
                        after,
                    )[k] == entries_map(before).insert(id, value)[k] by {
                        let j = choose|j: int| key_at(after, k, j);
                        lemma_entry_in_map(after, j);
                        if j != last {
                            lemma_entry_in_map(before, j);
                        }
                    }
                    assert(entries_map(after) =~= entries_map(before).insert(id, value));
                }
                self.entries = entries;
                None
            },
        }
    }

    /// Takes out the entry stored under `key` and hands back its value.
    pub fn remove(&mut self, key: &String) -> (previous: Option<V>)
        ensures
            final(self)@ == old(self)@.remove(key@),
            match previous {
                Some(before) => old(self)@.contains_key(key@) && before == old(self)@[key@],
                None => !old(self)@.contains_key(key@),
            },
    {
        proof {
            use_type_invariant(&*self);
        }
        let ghost before = self.entries@;
        match self.position(key) {
            Some(i) => {
                proof {
                    lemma_entry_in_map(before, i as int);
                }
                let mut entries = self.take_entries();
                let entry = entries.remove(i);
                proof {
                    let after = entries@;
                    let at = i as int;
                    assert(after == before.remove(at));
                    assert(forall|j: int| 0 <= j < at ==> after[j] == before[j]);
                    assert(forall|j: int| at <= j < after.len() ==> after[j] == before[j + 1]);
                    assert(distinct_keys(after));
                    assert forall|k: Seq<char>|
                        entries_map(after).contains_key(k) <==> entries_map(before).remove(
                            key@,
                        ).contains_key(k) by {
                        if entries_map(after).contains_key(k) {
                            let j = choose|j: int| key_at(after, k, j);
                            if j < at {
                                assert(key_at(before, k, j));
                            } else {
                                assert(key_at(before, k, j + 1));
                            }
                        }
                        if entries_map(before).contains_key(k) && k != key@ {
                            let j = choose|j: int| key_at(before, k, j);
                            if j < at {
                                assert(key_at(after, k, j));
                            } else {
                                assert(key_at(after, k, j - 1));
                            }
                        }
                    }
                    assert forall|k: Seq<char>| entries_map(after).contains_key(k) implies entries_map(
                        after,
                    )[k] == entries_map(before).remove(key@)[k] by {
                        let j = choose|j: int| key_at(after, k, j);
                        lemma_entry_in_map(after, j);
                        if j < at {
                            lemma_entry_in_map(before, j);
                        } else {
                            lemma_entry_in_map(before, j + 1);
                        }
                    }
                    assert(entries_map(after) =~= entries_map(before).remove(key@));
                }
                self.entries = entries;
                Some(entry.value)
            },
            None => {
                assert(self@ =~= old(self)@.remove(key@));
                None
            },
        }
    }

    /// Takes the table apart into its entries: each identifier once, with its value.
    pub fn into_entries(self) -> (entries: Vec<Entry<V>>)
        ensures
            distinct_keys(entries@),
            entries_map(entries@) == self@,
    {
        proof {
            use_type_invariant(&self);
        }
        let IdTable { entries } = self;
        entries
    }

    /// The entries in insertion order: each identifier once, with its value.
    pub fn entries(&self) -> (entries: &Vec<Entry<V>>)
        ensures
            distinct_keys(entries@),
            entries_map(entries@) == self@,
    {
        proof {
            use_type_invariant(self);
        }
        &self.entries
    }
}

} // verus!
