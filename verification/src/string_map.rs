//! A map keyed by strings, kept as a list of entries in the order in which
//! their keys first came. No key occurs twice.

use vstd::prelude::*;

verus! {

/// The map that a list of keys and a list of values of the same length
/// stand for: each key goes to the value at the key's place.
pub open spec fn assoc<T>(keys: Seq<Seq<char>>, values: Seq<T>) -> Map<Seq<char>, T> {
    Map::new(|k: Seq<char>| keys.contains(k), |k: Seq<char>| values[keys.index_of(k)])
}

/// In a list without duplicates the entry at a place is what its key maps to.
pub proof fn lemma_assoc_at<T>(keys: Seq<Seq<char>>, values: Seq<T>, i: int)
    requires
        keys.no_duplicates(),
        0 <= i < keys.len(),
    ensures
        assoc(keys, values).contains_key(keys[i]),
        assoc(keys, values)[keys[i]] == values[i],
{
    assert(keys.contains(keys[i]));
    let j = keys.index_of(keys[i]);
    assert(0 <= j < keys.len() && keys[j] == keys[i]);
}

/// Appending an entry under a fresh key inserts it.
pub proof fn lemma_assoc_push<T>(keys: Seq<Seq<char>>, values: Seq<T>, key: Seq<char>, value: T)
    requires
        keys.no_duplicates(),
        keys.len() == values.len(),
        !keys.contains(key),
    ensures
        keys.push(key).no_duplicates(),
        assoc(keys.push(key), values.push(value)) == assoc(keys, values).insert(key, value),
{
    let keys2 = keys.push(key);
    let values2 = values.push(value);
    assert forall|i: int, j: int| 0 <= i < keys2.len() && 0 <= j < keys2.len() && i != j implies keys2[i]
        != keys2[j] by {
        if i < keys.len() && j < keys.len() {
        } else if i < keys.len() {
            assert(keys.contains(keys[i]));
        } else {
            assert(keys.contains(keys[j]));
        }
    }
    assert forall|k: Seq<char>| #[trigger] keys2.contains(k) <==> (keys.contains(k) || k == key) by {
        if keys.contains(k) {
            let i = keys.index_of(k);
            assert(keys2[i] == k);
        }
        if k == key {
            assert(keys2[keys.len() as int] == k);
        }
        if keys2.contains(k) {
            let i = keys2.index_of(k);
            if i < keys.len() {
                assert(keys[i] == k);
            }
        }
    }
    assert forall|k: Seq<char>| keys2.contains(k) implies #[trigger] assoc(keys2, values2)[k] == assoc(
        keys,
        values,
    ).insert(key, value)[k] by {
        let i = keys2.index_of(k);
        lemma_assoc_at(keys2, values2, i);
        if i < keys.len() {
            lemma_assoc_at(keys, values, i);
        }
    }
    assert(assoc(keys2, values2) =~= assoc(keys, values).insert(key, value));
}

/// Replacing the value at a place replaces what the key at that place maps to.
pub proof fn lemma_assoc_update<T>(keys: Seq<Seq<char>>, values: Seq<T>, i: int, value: T)
    requires
        keys.no_duplicates(),
        keys.len() == values.len(),
        0 <= i < keys.len(),
    ensures
        assoc(keys, values.update(i, value)) == assoc(keys, values).insert(keys[i], value),
{
    let values2 = values.update(i, value);
    assert(keys.contains(keys[i]));
    assert forall|k: Seq<char>| keys.contains(k) implies #[trigger] assoc(keys, values2)[k] == assoc(
        keys,
        values,
    ).insert(keys[i], value)[k] by {
        let j = keys.index_of(k);
        lemma_assoc_at(keys, values2, j);
        lemma_assoc_at(keys, values, j);
    }
    assert(assoc(keys, values2) =~= assoc(keys, values).insert(keys[i], value));
}

/// A map from strings to `V`. Its view maps each key's characters to the
/// view of the value stored under it.
pub struct StringMap<V> {
    keys: Vec<String>,
    values: Vec<V>,
}

impl<V: View> View for StringMap<V> {
    type V = Map<Seq<char>, V::V>;

    closed spec fn view(&self) -> Map<Seq<char>, V::V> {
        assoc(self.spec_keys(), self.spec_values())
    }
}

impl<V: View> StringMap<V> {
    /// The keys, in the order in which they were first inserted.
    pub closed spec fn spec_keys(&self) -> Seq<Seq<char>> {
        Seq::new(self.keys@.len(), |i: int| self.keys@[i]@)
    }

    /// The values, each at the place of its key in `spec_keys`.
    pub closed spec fn spec_values(&self) -> Seq<V::V> {
        Seq::new(self.values@.len(), |i: int| self.values@[i]@)
    }

    /// Every key has one value, and no key occurs twice.
    pub closed spec fn wf(&self) -> bool {
        &&& self.keys@.len() == self.values@.len()
        &&& self.spec_keys().no_duplicates()
    }

    /// The view is exactly the entries: the keys are its domain, and each
    /// maps to the value at its place.
    pub proof fn lemma_view_is_entries(&self)
        requires
            self.wf(),
        ensures
            self.spec_keys().len() == self.spec_values().len(),
            self.spec_keys().no_duplicates(),
            self@ == assoc(self.spec_keys(), self.spec_values()),
            forall|k: Seq<char>| self@.contains_key(k) <==> self.spec_keys().contains(k),
            forall|i: int|
                0 <= i < self.spec_keys().len() ==> self@.contains_key(#[trigger] self.spec_keys()[i])
                    && self@[self.spec_keys()[i]] == self.spec_values()[i],
            self@.dom().finite(),
            self@.len() == self.spec_keys().len(),
    {
        assert(self@.dom() =~= self.spec_keys().to_set());
        vstd::seq_lib::seq_to_set_is_finite(self.spec_keys());
        self.spec_keys().unique_seq_to_set();
        assert forall|i: int| 0 <= i < self.spec_keys().len() implies self@.contains_key(
            #[trigger] self.spec_keys()[i],
        ) && self@[self.spec_keys()[i]] == self.spec_values()[i] by {
            lemma_assoc_at(self.spec_keys(), self.spec_values(), i);
        }
    }

    /// The empty map.
    pub fn new() -> (map: Self)
        ensures
            map.wf(),
            map@ == Map::<Seq<char>, V::V>::empty(),
            map.spec_keys() == Seq::<Seq<char>>::empty(),
            map.spec_values() == Seq::<V::V>::empty(),
    {
        let map = StringMap { keys: Vec::new(), values: Vec::new() };
        assert(map.spec_keys() =~= Seq::<Seq<char>>::empty());
        assert(map.spec_values() =~= Seq::<V::V>::empty());
        assert(map@ =~= Map::<Seq<char>, V::V>::empty());
        map
    }

    /// The number of entries.
    pub fn len(&self) -> (n: usize)
        ensures
            n == self.spec_keys().len(),
    {
        self.keys.len()
    }

    /// The place of `key` among the entries, if it has one.
    pub fn position(&self, key: &String) -> (found: Option<usize>)
        ensures
            match found {
                Some(i) => i < self.spec_keys().len() && self.spec_keys()[i as int] == key@,
                None => !self@.contains_key(key@),
            },
    {
        let n = self.keys.len();
        let mut i: usize = 0;
        while i < n
            invariant
                n == self.keys@.len(),
                i <= n,
                forall|j: int| 0 <= j < i ==> self.spec_keys()[j] != key@,
            decreases n - i,
        {
            if self.keys[i] == *key {
                return Some(i);
            }
            i += 1;
        }
        assert(!self.spec_keys().contains(key@));
        None
    }

    /// Whether `key` has an entry.
    pub fn contains_key(&self, key: &String) -> (found: bool)
        ensures
            found == self@.contains_key(key@),
    {
        match self.position(key) {
            Some(i) => {
                assert(self.spec_keys().contains(self.spec_keys()[i as int]));
                true
            },
            None => false,
        }
    }

    /// The value stored under `key`.
    pub fn get(&self, key: &String) -> (found: Option<&V>)
        requires
            self.wf(),
        ensures
            match found {
                Some(value) => self@.contains_key(key@) && self@[key@] == value@,
                None => !self@.contains_key(key@),
            },
    {
        match self.position(key) {
            Some(i) => {
                proof {
                    self.lemma_view_is_entries();
                    assert(self@.contains_key(self.spec_keys()[i as int]));
                }
                Some(&self.values[i])
            },
            None => None,
        }
    }

    /// Stores `value` under `key`. A key that is there keeps its place and
    /// gets the new value; a new key goes to the end.
    pub fn insert(&mut self, key: String, value: V)
        requires
            old(self).wf(),
        ensures
            final(self).wf(),
            final(self)@ == old(self)@.insert(key@, value@),
            final(self).spec_keys() == if old(self)@.contains_key(key@) {
                old(self).spec_keys()
            } else {
                old(self).spec_keys().push(key@)
            },
            final(self).spec_values() == if old(self)@.contains_key(key@) {
                old(self).spec_values().update(old(self).spec_keys().index_of(key@), value@)
            } else {
                old(self).spec_values().push(value@)
            },
    {
        let ghost keys0 = self.spec_keys();
        let ghost values0 = self.spec_values();
        match self.position(&key) {
            Some(i) => {
                proof {
                    self.lemma_view_is_entries();
                    assert(self@.contains_key(self.spec_keys()[i as int]));
                }
                self.values.set(i, value);
                proof {
                    assert(keys0.index_of(key@) == i);
                    assert(self.spec_keys() =~= keys0);
                    assert(self.spec_values() =~= values0.update(i as int, value@));
                    lemma_assoc_update(keys0, values0, i as int, value@);
                }
            },
            None => {
                let ghost k = key@;
                self.keys.push(key);
                self.values.push(value);
                proof {
                    assert(self.spec_keys() =~= keys0.push(k));
                    assert(self.spec_values() =~= values0.push(value@));
                    lemma_assoc_push(keys0, values0, k, value@);
                }
            },
        }
    }

    /// The key of the entry at place `i`.
    pub fn key_at(&self, i: usize) -> (key: &String)
        requires
            i < self.spec_keys().len(),
        ensures
            key@ == self.spec_keys()[i as int],
    {
        &self.keys[i]
    }

    /// The value of the entry at place `i`.
    pub fn value_at(&self, i: usize) -> (value: &V)
        requires
            self.wf(),
            i < self.spec_keys().len(),
        ensures
            value@ == self.spec_values()[i as int],
    {
        &self.values[i]
    }
}

} // verus!
