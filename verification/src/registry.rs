//! A map keyed by text that keeps its entries in the order they first came in.
//!
//! The registries of the fabric (publishers, subscribers, callbacks, node
//! states, plugins) are all of this kind: one writer at a time, a key occurs
//! at most once, and writing under a key that is there replaces the value.
use crate::text::same_text;
use vstd::prelude::*;

verus! {

/// A map from text to `V`. Entries keep the position at which their key was
/// first inserted.
pub struct Registry<V> {
    keys: Vec<String>,
    values: Vec<V>,
}

/// Where `key` stands in `keys`, if it stands there.
pub open spec fn slot_of(keys: Seq<Seq<char>>, key: Seq<char>) -> Option<int> {
    if keys.contains(key) {
        Some(keys.index_of(key))
    } else {
        None
    }
}

/// In a list without repeats, the key at position `i` is found at `i`.
pub proof fn lemma_slot_of_position(keys: Seq<Seq<char>>, i: int)
    requires
        keys.no_duplicates(),
        0 <= i < keys.len(),
    ensures
        keys.contains(keys[i]),
        slot_of(keys, keys[i]) == Some(i),
{
    assert(keys.contains(keys[i]));
    let j = keys.index_of(keys[i]);
    assert(0 <= j < keys.len() && keys[j] == keys[i]);
}

/// A key that is found is found at a position that holds it.
pub proof fn lemma_slot_of_found(keys: Seq<Seq<char>>, key: Seq<char>)
    requires
        keys.contains(key),
    ensures
        0 <= keys.index_of(key) < keys.len(),
        keys[keys.index_of(key)] == key,
{
}

/// The map that holds, for each key of `keys`, the value at the key's
/// position in `values`.
pub open spec fn assoc<V>(keys: Seq<Seq<char>>, values: Seq<V>) -> Map<Seq<char>, V> {
    Map::new(|k: Seq<char>| keys.contains(k), |k: Seq<char>| values[keys.index_of(k)])
}

/// Writing a value at the position of its key is inserting it in the map.
pub proof fn lemma_assoc_update<V>(keys: Seq<Seq<char>>, values: Seq<V>, i: int, value: V)
    requires
        keys.no_duplicates(),
        keys.len() == values.len(),
        0 <= i < keys.len(),
    ensures
        assoc(keys, values.update(i, value)) == assoc(keys, values).insert(keys[i], value),
{
    lemma_slot_of_position(keys, i);
    assert forall|k: Seq<char>| keys.contains(k) implies #[trigger] assoc(
        keys,
        values.update(i, value),
    )[k] == assoc(keys, values).insert(keys[i], value)[k] by {
        lemma_slot_of_found(keys, k);
    }
    assert(assoc(keys, values.update(i, value)) =~= assoc(keys, values).insert(keys[i], value));
}

/// Appending a new key with its value is inserting it in the map, and keeps
/// the keys free of repeats.
pub proof fn lemma_assoc_push<V>(keys: Seq<Seq<char>>, values: Seq<V>, key: Seq<char>, value: V)
    requires
        keys.no_duplicates(),
        keys.len() == values.len(),
        !keys.contains(key),
    ensures
        keys.push(key).no_duplicates(),
        assoc(keys.push(key), values.push(value)) == assoc(keys, values).insert(key, value),
{
    let n = keys.len() as int;
    let more = keys.push(key);
    assert forall|a: int, b: int|
        0 <= a < more.len() && 0 <= b < more.len() && a != b implies more[a] != more[b] by {
        if a < n && b < n {
        } else if a == n {
            assert(keys[b] != key);
        } else {
            assert(keys[a] != key);
        }
    }
    assert(more[n] == key);
    assert forall|k: Seq<char>| more.contains(k) <==> (keys.contains(k) || k == key) by {
        if keys.contains(k) {
            let j = keys.index_of(k);
            assert(more[j] == k);
        }
        if more.contains(k) {
            let j = more.index_of(k);
            if j < n {
                assert(keys[j] == k);
            }
        }
    }
    assert forall|k: Seq<char>| more.contains(k) implies #[trigger] assoc(
        more,
        values.push(value),
    )[k] == assoc(keys, values).insert(key, value)[k] by {
        let j = more.index_of(k);
        lemma_slot_of_position(more, j);
        if k == key {
            lemma_slot_of_position(more, n);
        } else {
            let b = keys.index_of(k);
            assert(more[b] == k);
            lemma_slot_of_position(more, b);
        }
    }
    assert(assoc(more, values.push(value)) =~= assoc(keys, values).insert(key, value));
}

/// A map made of a key list holds exactly the keys of the list, each with
/// the value at its position.
pub proof fn lemma_assoc_entries<V>(keys: Seq<Seq<char>>, values: Seq<V>)
    requires
        keys.no_duplicates(),
        keys.len() == values.len(),
    ensures
        forall|i: int| 0 <= i < keys.len() ==> assoc(keys, values).contains_key(#[trigger] keys[i]),
        forall|i: int| 0 <= i < keys.len() ==> assoc(keys, values)[#[trigger] keys[i]] == values[i],
        forall|k: Seq<char>| #[trigger] assoc(keys, values).contains_key(k) <==> keys.contains(k),
{
    assert forall|i: int| 0 <= i < keys.len() implies assoc(keys, values).contains_key(
        #[trigger] keys[i],
    ) && assoc(keys, values)[keys[i]] == values[i] by {
        lemma_slot_of_position(keys, i);
    }
}

impl<V> Registry<V> {
    /// The keys, in the order they first came in.
    pub closed spec fn keys(&self) -> Seq<Seq<char>> {
        self.keys@.map_values(|k: String| k@)
    }

    /// The values, each at the position of its key.
    pub closed spec fn values(&self) -> Seq<V> {
        self.values@
    }

    /// Every key has its value, and no key occurs twice.
    pub open spec fn wf(&self) -> bool {
        &&& self.keys().len() == self.values().len()
        &&& self.keys().no_duplicates()
    }

    /// The position of `key`, if it is there.
    pub open spec fn slot(&self, key: Seq<char>) -> Option<int> {
        slot_of(self.keys(), key)
    }

    /// The registry as a map.
    pub open spec fn map(&self) -> Map<Seq<char>, V> {
        assoc(self.keys(), self.values())
    }

    /// An empty registry.
    pub fn new() -> (registry: Self)
        ensures
            registry.wf(),
            registry.keys().len() == 0,
            registry.values().len() == 0,
            registry.map() == Map::<Seq<char>, V>::empty(),
    {
        let registry = Registry { keys: Vec::new(), values: Vec::new() };
        assert(registry.map() =~= Map::<Seq<char>, V>::empty());
        registry
    }

    /// The number of entries.
    pub fn len(&self) -> (n: usize)
        requires
            self.wf(),
        ensures
            n == self.keys().len(),
    {
        self.keys.len()
    }

    /// Whether there is no entry.
    pub fn is_empty(&self) -> (empty: bool)
        requires
            self.wf(),
        ensures
            empty == (self.keys().len() == 0),
    {
        self.keys.len() == 0
    }

    /// The key at position `i`.
    pub fn key_at(&self, i: usize) -> (key: &String)
        requires
            self.wf(),
            i < self.keys().len(),
        ensures
            key@ == self.keys()[i as int],
    {
        &self.keys[i]
    }

    /// The value at position `i`.
    pub fn value_at(&self, i: usize) -> (value: &V)
        requires
            self.wf(),
            i < self.keys().len(),
        ensures
            *value == self.values()[i as int],
    {
        &self.values[i]
    }

    /// The position of `key`, if it is there.
    pub fn position(&self, key: &str) -> (found: Option<usize>)
        requires
            self.wf(),
        ensures
            match found {
                Some(i) => self.slot(key@) == Some(i as int) && i < self.keys().len(),
                None => self.slot(key@) is None,
            },
    {
        let mut at: usize = 0;
        while at < self.keys.len()
            invariant
                self.wf(),
                0 <= at <= self.keys().len(),
                forall|j: int| 0 <= j < at ==> self.keys()[j] != key@,
            decreases self.keys.len() - at,
        {
            assert(self.keys()[at as int] == self.keys@[at as int]@);
            if same_text(self.keys[at].as_str(), key) {
                proof {
                    lemma_slot_of_position(self.keys(), at as int);
                }
                return Some(at);
            }
            at = at + 1;
        }
        None
    }

    /// Whether `key` has an entry.
    pub fn contains_key(&self, key: &str) -> (has: bool)
        requires
            self.wf(),
        ensures
            has == self.map().contains_key(key@),
            has == self.slot(key@) is Some,
    {
        self.position(key).is_some()
    }

    /// The value under `key`, if there is one.
    pub fn get(&self, key: &str) -> (found: Option<&V>)
        requires
            self.wf(),
        ensures
            match found {
                Some(value) => {
                    &&& self.map().contains_key(key@)
                    &&& *value == self.map()[key@]
                    &&& self.slot(key@) is Some
                    &&& *value == self.values()[self.slot(key@)->0]
                },
                None => !self.map().contains_key(key@) && self.slot(key@) is None,
            },
    {
        match self.position(key) {
            Some(i) => Some(&self.values[i]),
            None => None,
        }
    }

    /// Puts `value` under `key`. A value that was there is replaced, at the
    /// same position, and handed back; a new key goes to the end.
    pub fn insert(&mut self, key: String, value: V) -> (previous: Option<V>)
        requires
            old(self).wf(),
        ensures
            final(self).wf(),
            final(self).map() == old(self).map().insert(key@, value),
            match old(self).slot(key@) {
                Some(i) => {
                    &&& previous == Some(old(self).values()[i])
                    &&& final(self).keys() == old(self).keys()
                    &&& final(self).values() == old(self).values().update(i, value)
                },
                None => {
                    &&& previous is None
                    &&& final(self).keys() == old(self).keys().push(key@)
                    &&& final(self).values() == old(self).values().push(value)
                },
            },
    {
        let ghost before = *self;
        match self.position(key.as_str()) {
            Some(i) => {
                let previous = self.values.remove(i);
                self.values.insert(i, value);
                proof {
                    assert(self.values() =~= before.values().update(i as int, value));
                    lemma_slot_of_found(before.keys(), key@);
                    lemma_assoc_update(before.keys(), before.values(), i as int, value);
                }
                Some(previous)
            },
            None => {
                self.keys.push(key);
                self.values.push(value);
                proof {
                    assert(self.keys() =~= before.keys().push(key@));
                    assert(self.values() =~= before.values().push(value));
                    lemma_assoc_push(before.keys(), before.values(), key@, value);
                }
                None
            },
        }
    }

    /// Takes the entry under `key` out and hands its value back. The entries
    /// behind it move up by one.
    pub fn remove(&mut self, key: &str) -> (removed: Option<V>)
        requires
            old(self).wf(),
        ensures
            final(self).wf(),
            final(self).map() == old(self).map().remove(key@),
            match old(self).slot(key@) {
                Some(i) => {
                    &&& removed == Some(old(self).values()[i])
                    &&& final(self).keys() == old(self).keys().remove(i)
                    &&& final(self).values() == old(self).values().remove(i)
                },
                None => {
                    &&& removed is None
                    &&& final(self).keys() == old(self).keys()
                    &&& final(self).values() == old(self).values()
                },
            },
    {
        let ghost before = *self;
        match self.position(key) {
            Some(i) => {
                self.keys.remove(i);
                let removed = self.values.remove(i);
                proof {
                    let at = i as int;
                    assert(self.keys() =~= before.keys().remove(at));
                    assert(self.values() =~= before.values().remove(at));
                    lemma_slot_of_position(before.keys(), at);
                    assert forall|a: int, b: int|
                        0 <= a < self.keys().len() && 0 <= b < self.keys().len() && a
                            != b implies self.keys()[a] != self.keys()[b] by {
                        let a0 = if a < at {
                            a
                        } else {
                            a + 1
                        };
                        let b0 = if b < at {
                            b
                        } else {
                            b + 1
                        };
                        assert(self.keys()[a] == before.keys()[a0]);
                        assert(self.keys()[b] == before.keys()[b0]);
                    }
                    assert forall|k: Seq<char>|
                        self.keys().contains(k) <==> (before.keys().contains(k) && k != key@) by {
                        if before.keys().contains(k) && k != key@ {
                            let j = before.keys().index_of(k);
                            if j < at {
                                assert(self.keys()[j] == k);
                            } else {
                                assert(self.keys()[j - 1] == k);
                            }
                        }
                        if self.keys().contains(k) {
                            let j = self.keys().index_of(k);
                            let j0 = if j < at {
                                j
                            } else {
                                j + 1
                            };
                            assert(before.keys()[j0] == k);
                        }
                    }
                    assert forall|k: Seq<char>| self.map().contains_key(k) implies (
                    #[trigger] self.map()[k]) == before.map().remove(key@)[k] by {
                        let j = self.keys().index_of(k);
                        let j0 = if j < at {
                            j
                        } else {
                            j + 1
                        };
                        assert(before.keys()[j0] == k);
                        lemma_slot_of_position(before.keys(), j0);
                    }
                    assert(self.map() =~= before.map().remove(key@));
                }
                Some(removed)
            },
            None => {
                proof {
                    assert(self.map() =~= before.map().remove(key@));
                }
                None
            },
        }
    }

    /// Puts `value` at position `i`, under the key that stands there, and
    /// hands back the value that was there.
    pub fn replace_at(&mut self, i: usize, value: V) -> (previous: V)
        requires
            old(self).wf(),
            i < old(self).keys().len(),
        ensures
            final(self).wf(),
            previous == old(self).values()[i as int],
            final(self).keys() == old(self).keys(),
            final(self).values() == old(self).values().update(i as int, value),
    {
        let previous = self.values.remove(i);
        self.values.insert(i, value);
        assert(self.values() =~= old(self).values().update(i as int, value));
        previous
    }

    /// Empties the registry and hands back what it held, keys and values in
    /// the order of the entries.
    pub fn drain(&mut self) -> (held: (Vec<String>, Vec<V>))
        requires
            old(self).wf(),
        ensures
            final(self).wf(),
            final(self).keys().len() == 0,
            final(self).values().len() == 0,
            held.0@.map_values(|k: String| k@) == old(self).keys(),
            held.1@ == old(self).values(),
    {
        let mut keys: Vec<String> = Vec::new();
        let mut values: Vec<V> = Vec::new();
        core::mem::swap(&mut self.keys, &mut keys);
        core::mem::swap(&mut self.values, &mut values);
        (keys, values)
    }
}

} // verus!
