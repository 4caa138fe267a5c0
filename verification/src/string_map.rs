//! A small map keyed by strings, kept as a list of entries with distinct keys.
//!
//! A hash map keyed by strings would rest every lookup on how strings are
//! hashed and compared, of which nothing can be proved here. The list is
//! searched by comparing strings, and that is all its proofs need.

use vstd::prelude::*;

verus! {

/// One key of a [`StringMap`] with its value.
pub struct Entry<V> {
    pub key: String,
    pub value: V,
}

/// Whether some entry of `entries` has the key `key`.
pub open spec fn has_key<V>(entries: Seq<Entry<V>>, key: Seq<char>) -> bool {
    exists|i: int| 0 <= i < entries.len() && (#[trigger] entries[i]).key@ == key
}

/// The position of an entry with the key `key`.
pub open spec fn index_of<V>(entries: Seq<Entry<V>>, key: Seq<char>) -> int {
    choose|i: int| 0 <= i < entries.len() && (#[trigger] entries[i]).key@ == key
}

/// No two entries share a key.
pub open spec fn distinct_keys<V>(entries: Seq<Entry<V>>) -> bool {
    forall|i: int, j: int|
        0 <= i < j < entries.len() ==> (#[trigger] entries[i]).key@ != (#[trigger] entries[j]).key@
}

/// The map that a list of entries stands for.
pub open spec fn entries_map<V>(entries: Seq<Entry<V>>) -> Map<Seq<char>, V> {
    Map::new(
        |key: Seq<char>| has_key(entries, key),
        |key: Seq<char>| entries[index_of(entries, key)].value,
    )
}

/// With distinct keys, the map holds each entry under its key.
pub proof fn lemma_entry_lookup<V>(entries: Seq<Entry<V>>, i: int)
    requires
        distinct_keys(entries),
        0 <= i < entries.len(),
    ensures
        entries_map(entries).contains_key(entries[i].key@),
        entries_map(entries)[entries[i].key@] == entries[i].value,
        index_of(entries, entries[i].key@) == i,
{
    let key = entries[i].key@;
    assert(has_key(entries, key));
    let j = index_of(entries, key);
    assert(0 <= j < entries.len() && entries[j].key@ == key);
    if j != i {
        if j < i {
            assert(entries[j].key@ != entries[i].key@);
        } else {
            assert(entries[i].key@ != entries[j].key@);
        }
    }
}

/// Appending an entry under a new key inserts it into the map.
pub proof fn lemma_push_entry<V>(entries: Seq<Entry<V>>, entry: Entry<V>)
    requires
        distinct_keys(entries),
        !has_key(entries, entry.key@),
    ensures
        distinct_keys(entries.push(entry)),
        entries_map(entries.push(entry)) == entries_map(entries).insert(entry.key@, entry.value),
{
    let after = entries.push(entry);
    assert forall|i: int, j: int| 0 <= i < j < after.len() implies (#[trigger] after[i]).key@ != (
    #[trigger] after[j]).key@ by {
        if j < entries.len() {
            assert(entries[i].key@ != entries[j].key@);
        } else {
            assert(entries[i] == after[i]);
        }
    }
    let expected = entries_map(entries).insert(entry.key@, entry.value);
    assert forall|key: Seq<char>| entries_map(after).contains_key(key) == expected.contains_key(
        key,
    ) by {
        if has_key(after, key) {
            let i = index_of(after, key);
            if i < entries.len() {
                assert(entries[i] == after[i]);
            }
        }
        if has_key(entries, key) {
            let i = index_of(entries, key);
            assert(after[i] == entries[i]);
        }
        if key == entry.key@ {
            assert(after[entries.len() as int] == entry);
        }
    }
    assert forall|key: Seq<char>| expected.contains_key(key) implies entries_map(after)[key]
        == expected[key] by {
        if key == entry.key@ {
            assert(after[entries.len() as int] == entry);
            lemma_entry_lookup(after, entries.len() as int);
        } else {
            let i = index_of(entries, key);
            assert(after[i] == entries[i]);
            lemma_entry_lookup(after, i);
        }
    }
    assert(entries_map(after) =~= expected);
}

/// Replacing the value of an entry replaces it in the map.
pub proof fn lemma_update_entry<V>(entries: Seq<Entry<V>>, i: int, entry: Entry<V>)
    requires
        distinct_keys(entries),
        0 <= i < entries.len(),
        entry.key@ == entries[i].key@,
    ensures
        distinct_keys(entries.update(i, entry)),
        entries_map(entries.update(i, entry)) == entries_map(entries).insert(
            entry.key@,
            entry.value,
        ),
{
    let after = entries.update(i, entry);
    assert forall|a: int, b: int| 0 <= a < b < after.len() implies (#[trigger] after[a]).key@ != (
    #[trigger] after[b]).key@ by {
        assert(entries[a].key@ != entries[b].key@);
    }
    let expected = entries_map(entries).insert(entry.key@, entry.value);
    assert forall|key: Seq<char>| entries_map(after).contains_key(key) == expected.contains_key(
        key,
    ) by {
        if has_key(after, key) {
            let j = index_of(after, key);
            assert(entries[j].key@ == key);
        }
        if has_key(entries, key) {
            let j = index_of(entries, key);
            assert(after[j].key@ == key);
        }
        if key == entry.key@ {
            assert(after[i].key@ == key);
        }
    }
    assert forall|key: Seq<char>| expected.contains_key(key) implies entries_map(after)[key]
        == expected[key] by {
        if key == entry.key@ {
            lemma_entry_lookup(after, i);
        } else {
            let j = index_of(entries, key);
            assert(after[j] == entries[j]);
            lemma_entry_lookup(after, j);
        }
    }
    assert(entries_map(after) =~= expected);
}

/// Taking an entry out removes its key from the map.
pub proof fn lemma_remove_entry<V>(entries: Seq<Entry<V>>, i: int)
    requires
        distinct_keys(entries),
        0 <= i < entries.len(),
    ensures
        distinct_keys(entries.remove(i)),
        entries_map(entries.remove(i)) == entries_map(entries).remove(entries[i].key@),
{
    let after = entries.remove(i);
    let gone = entries[i].key@;
    assert forall|a: int, b: int| 0 <= a < b < after.len() implies (#[trigger] after[a]).key@ != (
    #[trigger] after[b]).key@ by {
        let a0 = if a < i { a } else { a + 1 };
        let b0 = if b < i { b } else { b + 1 };
        assert(after[a] == entries[a0]);
        assert(after[b] == entries[b0]);
        assert(entries[a0].key@ != entries[b0].key@);
    }
    let expected = entries_map(entries).remove(gone);
    assert forall|key: Seq<char>| entries_map(after).contains_key(key) == expected.contains_key(
        key,
    ) by {
        if has_key(after, key) {
            let j = index_of(after, key);
            let j0 = if j < i { j } else { j + 1 };
            assert(after[j] == entries[j0]);
            assert(has_key(entries, key));
            if key == gone {
                if j0 < i {
                    assert(entries[j0].key@ != entries[i].key@);
                } else {
                    assert(entries[i].key@ != entries[j0].key@);
                }
            }
        }
        if has_key(entries, key) && key != gone {
            let j = index_of(entries, key);
            let j1 = if j < i { j } else { j - 1 };
            assert(after[j1] == entries[j]);
        }
    }
    assert forall|key: Seq<char>| expected.contains_key(key) implies entries_map(after)[key]
        == expected[key] by {
        let j = index_of(entries, key);
        let j1 = if j < i { j } else { j - 1 };
        assert(after[j1] == entries[j]);
        lemma_entry_lookup(after, j1);
    }
    assert(entries_map(after) =~= expected);
}

/// With distinct keys, the map has as many keys as there are entries.
pub proof fn lemma_entries_count<V>(entries: Seq<Entry<V>>)
    requires
        distinct_keys(entries),
    ensures
        entries_map(entries).dom().finite(),
        entries_map(entries).dom().len() == entries.len(),
    decreases entries.len(),
{
    if entries.len() == 0 {
        assert(entries_map(entries).dom() =~= Set::<Seq<char>>::empty());
    } else {
        let rest = entries.drop_last();
        let last = entries.last();
        assert forall|i: int, j: int| 0 <= i < j < rest.len() implies (#[trigger] rest[i]).key@ != (
        #[trigger] rest[j]).key@ by {
            assert(rest[i] == entries[i] && rest[j] == entries[j]);
        }
        assert(!has_key(rest, last.key@)) by {
            if has_key(rest, last.key@) {
                let i = index_of(rest, last.key@);
                assert(rest[i] == entries[i]);
                assert(entries[i].key@ != entries[entries.len() - 1].key@);
            }
        }
        lemma_entries_count(rest);
        lemma_push_entry(rest, last);
        assert(rest.push(last) =~= entries);
        assert(entries_map(entries).dom() =~= entries_map(rest).dom().insert(last.key@));
    }
}

/// A map from strings to values of type `V`.
pub struct StringMap<V> {
    entries: Vec<Entry<V>>,
}

impl<V> StringMap<V> {
    #[verifier::type_invariant]
    spec fn distinct(&self) -> bool {
        distinct_keys(self.entries@)
    }

    /// The map from each key, as a sequence of characters, to its value.
    pub closed spec fn view(&self) -> Map<Seq<char>, V> {
        entries_map(self.entries@)
    }

    /// An empty map.
    pub fn new() -> (map: Self)
        ensures
            map@ == Map::<Seq<char>, V>::empty(),
    {
        let map = StringMap { entries: Vec::new() };
        assert(map@ =~= Map::<Seq<char>, V>::empty());
        map
    }

    /// The number of keys.
    pub fn len(&self) -> (n: usize)
        ensures
            self@.dom().finite(),
            n == self@.dom().len(),
    {
        proof {
            use_type_invariant(self);
            lemma_entries_count(self.entries@);
        }
        self.entries.len()
    }

    fn position(&self, key: &String) -> (found: Option<usize>)
        ensures
            match found {
                Some(i) => i < self.entries.len() && self.entries[i as int].key@ == key@,
                None => !has_key(self.entries@, key@),
            },
    {
        let mut i: usize = 0;
        while i < self.entries.len()
            invariant
                i <= self.entries.len(),
                forall|j: int| 0 <= j < i ==> (#[trigger] self.entries[j]).key@ != key@,
            decreases self.entries.len() - i,
        {
            if self.entries[i].key == *key {
                return Some(i);
            }
            i = i + 1;
        }
        None
    }

    /// Whether `key` has a value.
    pub fn contains_key(&self, key: &String) -> (found: bool)
        ensures
            found == self@.contains_key(key@),
    {
        let found = self.position(key);
        proof {
            use_type_invariant(self);
            if let Some(i) = found {
                lemma_entry_lookup(self.entries@, i as int);
            }
        }
        found.is_some()
    }

    /// The value of `key`, if it has one.
    pub fn get(&self, key: &String) -> (value: Option<&V>)
        ensures
            match value {
                Some(v) => self@.contains_key(key@) && self@[key@] == *v,
                None => !self@.contains_key(key@),
            },
    {
        proof {
            use_type_invariant(self);
        }
        match self.position(key) {
            Some(i) => {
                proof {
                    lemma_entry_lookup(self.entries@, i as int);
                }
                Some(&self.entries[i].value)
            },
            None => None,
        }
    }

    /// Gives `key` the value `value`, in place of the one it had, if any.
    pub fn insert(&mut self, key: String, value: V)
        ensures
            final(self)@ == old(self)@.insert(key@, value),
    {
        proof {
            use_type_invariant(&*self);
        }
        let entry = Entry { key, value };
        let found = self.position(&entry.key);
        let mut entries: Vec<Entry<V>> = Vec::new();
        core::mem::swap(&mut self.entries, &mut entries);
        match found {
            Some(i) => {
                proof {
                    lemma_update_entry(entries@, i as int, entry);
                }
                entries.set(i, entry);
            },
            None => {
                proof {
                    lemma_push_entry(entries@, entry);
                }
                entries.push(entry);
            },
        }
        core::mem::swap(&mut self.entries, &mut entries);
    }

    /// Takes `key` and its value out, if it is there.
    pub fn remove(&mut self, key: &String)
        ensures
            final(self)@ == old(self)@.remove(key@),
    {
        proof {
            use_type_invariant(&*self);
        }
        let found = self.position(key);
        let mut entries: Vec<Entry<V>> = Vec::new();
        core::mem::swap(&mut self.entries, &mut entries);
        match found {
            Some(i) => {
                proof {
                    lemma_remove_entry(entries@, i as int);
                }
                entries.remove(i);
            },
            None => {
                assert(entries_map(entries@) =~= entries_map(entries@).remove(key@));
            },
        }
        core::mem::swap(&mut self.entries, &mut entries);
    }

    /// Takes every key out.
    pub fn clear(&mut self)
        ensures
            final(self)@ == Map::<Seq<char>, V>::empty(),
    {
        let mut entries: Vec<Entry<V>> = Vec::new();
        core::mem::swap(&mut self.entries, &mut entries);
        assert(self@ =~= Map::<Seq<char>, V>::empty());
    }

    /// The keys, each of them once.
    pub fn keys(&self) -> (keys: Vec<String>)
        ensures
            self@.dom().finite(),
            keys.len() == self@.dom().len(),
            forall|i: int| 0 <= i < keys.len() ==> self@.contains_key(#[trigger] keys[i]@),
            forall|key: Seq<char>|
                self@.contains_key(key) ==> exists|i: int|
                    0 <= i < keys.len() && (#[trigger] keys[i])@ == key,
            forall|i: int, j: int|
                0 <= i < j < keys.len() ==> (#[trigger] keys[i])@ != (#[trigger] keys[j])@,
    {
        proof {
            use_type_invariant(self);
        }
        let mut keys: Vec<String> = Vec::new();
        let mut i: usize = 0;
        while i < self.entries.len()
            invariant
                i <= self.entries.len(),
                keys.len() == i,
                forall|j: int| 0 <= j < i ==> (#[trigger] keys[j])@ == self.entries[j].key@,
            decreases self.entries.len() - i,
        {
            keys.push(self.entries[i].key.clone());
            i = i + 1;
        }
        proof {
            lemma_entries_count(self.entries@);
            assert forall|j: int| 0 <= j < keys.len() implies self@.contains_key(
                #[trigger] keys[j]@,
            ) by {
                lemma_entry_lookup(self.entries@, j);
            }
            assert forall|key: Seq<char>| self@.contains_key(key) implies exists|j: int|
                0 <= j < keys.len() && (#[trigger] keys[j])@ == key by {
                let j = index_of(self.entries@, key);
                assert(keys[j]@ == key);
            }
            assert forall|a: int, b: int| 0 <= a < b < keys.len() implies (#[trigger] keys[a])@ != (
            #[trigger] keys[b])@ by {
                assert(self.entries[a].key@ != self.entries[b].key@);
            }
        }
        keys
    }
}

} // verus!
