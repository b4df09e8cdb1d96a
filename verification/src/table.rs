//! A table that maps byte strings to values.

use crate::bytes::bytes_eq;
use vstd::prelude::*;

verus! {

/// A table that holds at most one value for each byte string.
#[derive(Debug)]
pub struct Table<V> {
    entries: Vec<(Vec<u8>, V)>,
}

/// Whether no key occurs in two entries.
spec fn distinct<V>(entries: Seq<(Vec<u8>, V)>) -> bool {
    forall|i: int, j: int|
        0 <= i < j < entries.len() ==> #[trigger] entries[i].0@ != #[trigger] entries[j].0@
}

/// Whether the entry at `i` is that of `key`.
spec fn entry_of<V>(entries: Seq<(Vec<u8>, V)>, i: int, key: Seq<u8>) -> bool {
    0 <= i < entries.len() && entries[i].0@ == key
}

/// The values of the entries, by key.
spec fn values<V>(entries: Seq<(Vec<u8>, V)>) -> Map<Seq<u8>, V> {
    Map::new(
        |key: Seq<u8>| exists|i: int| entry_of(entries, i, key),
        |key: Seq<u8>| entries[choose|i: int| entry_of(entries, i, key)].1,
    )
}

impl<V> View for Table<V> {
    type V = Map<Seq<u8>, V>;

    closed spec fn view(&self) -> Map<Seq<u8>, V> {
        values(self.entries@)
    }
}

/// An entry's value is the one that its key has.
proof fn values_has<V>(entries: Seq<(Vec<u8>, V)>, i: int)
    requires
        distinct(entries),
        0 <= i < entries.len(),
    ensures
        values(entries).dom().contains(entries[i].0@),
        values(entries)[entries[i].0@] == entries[i].1,
{
    let key = entries[i].0@;
    assert(entry_of(entries, i, key));
    let j = choose|j: int| entry_of(entries, j, key);
    assert(entry_of(entries, j, key));
    if j < i {
        assert(entries[j].0@ != entries[i].0@);
    } else if i < j {
        assert(entries[i].0@ != entries[j].0@);
    }
}

/// A list whose entries hold exactly what a map says has that map as its values.
proof fn values_are<V>(entries: Seq<(Vec<u8>, V)>, map: Map<Seq<u8>, V>)
    requires
        distinct(entries),
        forall|i: int|
            #![trigger entries[i]]
            0 <= i < entries.len() ==> map.dom().contains(entries[i].0@) && map[entries[i].0@]
                == entries[i].1,
        forall|key: Seq<u8>| #[trigger]
            map.dom().contains(key) ==> exists|i: int| entry_of(entries, i, key),
    ensures
        values(entries) == map,
{
    assert forall|key: Seq<u8>| #[trigger]
        values(entries).dom().contains(key) implies map.dom().contains(key)
        && values(entries)[key] == map[key] by {
        let i = choose|i: int| entry_of(entries, i, key);
        values_has(entries, i);
    }
    assert(values(entries).dom() =~= map.dom());
    assert(values(entries) =~= map);
}

/// As many keys have a value as there are entries.
proof fn values_len<V>(entries: Seq<(Vec<u8>, V)>)
    requires
        distinct(entries),
    ensures
        values(entries).dom().finite(),
        values(entries).dom().len() == entries.len(),
{
    let keys = entries.map_values(|e: (Vec<u8>, V)| e.0@);
    assert(keys.no_duplicates()) by {
        assert forall|i: int, j: int|
            0 <= i < keys.len() && 0 <= j < keys.len() && i != j implies keys[i] != keys[j] by {
            if i < j {
                assert(entries[i].0@ != entries[j].0@);
            } else {
                assert(entries[j].0@ != entries[i].0@);
            }
        }
    }
    keys.unique_seq_to_set();
    assert forall|key: Seq<u8>| values(entries).dom().contains(key) implies keys.contains(key) by {
        let i = choose|i: int| entry_of(entries, i, key);
        assert(keys[i] == key);
    }
    assert forall|key: Seq<u8>| keys.contains(key) implies values(entries).dom().contains(key) by {
        let i = choose|i: int| 0 <= i < keys.len() && keys[i] == key;
        assert(entry_of(entries, i, key));
    }
    assert(values(entries).dom() =~= keys.to_set());
}

impl<V> Table<V> {
    #[verifier::type_invariant]
    spec fn inv(self) -> bool {
        distinct(self.entries@)
    }

    /// A table without entries.
    pub fn new() -> (table: Self)
        ensures
            table@ == Map::<Seq<u8>, V>::empty(),
    {
        let table = Table { entries: Vec::new() };
        proof {
            values_are(table.entries@, Map::<Seq<u8>, V>::empty());
        }
        table
    }

    /// The place of a key among the entries.
    fn position(&self, key: &[u8]) -> (place: Option<usize>)
        ensures
            place is Some <==> self@.dom().contains(key@),
            place matches Some(i) ==> entry_of(self.entries@, i as int, key@) && self@[key@]
                == self.entries@[i as int].1,
    {
        proof {
            use_type_invariant(self);
        }
        let mut i: usize = 0;
        while i < self.entries.len()
            invariant
                i <= self.entries@.len(),
                distinct(self.entries@),
                forall|j: int| 0 <= j < i ==> self.entries@[j].0@ != key@,
            decreases self.entries@.len() - i,
        {
            if bytes_eq(self.entries[i].0.as_slice(), key) {
                proof {
                    values_has(self.entries@, i as int);
                }
                return Some(i);
            }
            i = i + 1;
        }
        assert(forall|j: int| !entry_of(self.entries@, j, key@));
        None
    }

    /// Whether the key has a value.
    pub fn contains(&self, key: &[u8]) -> (found: bool)
        ensures
            found == self@.contains_key(key@),
    {
        match self.position(key) {
            Some(_) => true,
            None => false,
        }
    }

    /// The value of a key.
    pub fn get(&self, key: &[u8]) -> (value: Option<&V>)
        ensures
            value is Some <==> self@.contains_key(key@),
            value matches Some(v) ==> *v == self@[key@],
    {
        match self.position(key) {
            Some(i) => Some(&self.entries[i].1),
            None => None,
        }
    }

    /// Gives a key a value, in place of the one it had.
    pub fn insert(&mut self, key: Vec<u8>, value: V)
        ensures
            final(self)@ == old(self)@.insert(key@, value),
    {
        let _ = self.remove(key.as_slice());
        proof {
            use_type_invariant(&*self);
        }
        let ghost before = self.entries@;
        let ghost removed = self@;
        let mut entries: Vec<(Vec<u8>, V)> = Vec::new();
        std::mem::swap(&mut entries, &mut self.entries);
        entries.push((key, value));
        proof {
            assert forall|i: int, j: int|
                0 <= i < j < entries@.len() implies #[trigger] entries@[i].0@
                != #[trigger] entries@[j].0@ by {
                if j == before.len() {
                    values_has(before, i);
                }
            }
            let map = removed.insert(key@, value);
            assert forall|i: int|
                #![trigger entries@[i]]
                0 <= i < entries@.len() implies map.dom().contains(entries@[i].0@)
                && map[entries@[i].0@] == entries@[i].1 by {
                if i < before.len() {
                    values_has(before, i);
                }
            }
            assert forall|k: Seq<u8>| #[trigger] map.dom().contains(k) implies exists|i: int|
                entry_of(entries@, i, k) by {
                if k == key@ {
                    assert(entry_of(entries@, before.len() as int, k));
                } else {
                    let i = choose|i: int| entry_of(before, i, k);
                    assert(entry_of(entries@, i, k));
                }
            }
            values_are(entries@, map);
            assert(map =~= old(self)@.insert(key@, value));
        }
        self.entries = entries;
    }

    /// Takes the value of a key out of the table.
    pub fn remove(&mut self, key: &[u8]) -> (value: Option<V>)
        ensures
            final(self)@ == old(self)@.remove(key@),
            value is Some <==> old(self)@.contains_key(key@),
            value matches Some(v) ==> v == old(self)@[key@],
    {
        let place = self.position(key);
        proof {
            use_type_invariant(&*self);
        }
        match place {
            None => {
                assert(self@.remove(key@) =~= self@);
                None
            },
            Some(at) => {
                let ghost before = self.entries@;
                let mut entries: Vec<(Vec<u8>, V)> = Vec::new();
                std::mem::swap(&mut entries, &mut self.entries);
                let (_, value) = entries.remove(at);
                proof {
                    let map = values(before).remove(key@);
                    assert forall|i: int, j: int|
                        0 <= i < j < entries@.len() implies #[trigger] entries@[i].0@
                        != #[trigger] entries@[j].0@ by {
                        let bi = if i < at { i } else { i + 1 };
                        let bj = if j < at { j } else { j + 1 };
                        assert(before[bi].0@ != before[bj].0@);
                    }
                    assert forall|i: int|
                        #![trigger entries@[i]]
                        0 <= i < entries@.len() implies map.dom().contains(entries@[i].0@)
                        && map[entries@[i].0@] == entries@[i].1 by {
                        let bi = if i < at { i } else { i + 1 };
                        values_has(before, bi);
                        if bi < at {
                            assert(before[bi].0@ != before[at as int].0@);
                        } else {
                            assert(before[at as int].0@ != before[bi].0@);
                        }
                    }
                    assert forall|k: Seq<u8>| #[trigger]
                        map.dom().contains(k) implies exists|i: int|
                        entry_of(entries@, i, k) by {
                        let bi = choose|i: int| entry_of(before, i, k);
                        let i = if bi < at { bi } else { bi - 1 };
                        assert(entry_of(entries@, i, k));
                    }
                    values_are(entries@, map);
                }
                self.entries = entries;
                Some(value)
            },
        }
    }

    /// The number of keys that have a value.
    pub fn len(&self) -> (count: usize)
        ensures
            self@.dom().finite(),
            count == self@.len(),
    {
        proof {
            use_type_invariant(self);
            values_len(self.entries@);
        }
        self.entries.len()
    }
}

impl<V: Clone> Clone for Table<V> {
    fn clone(&self) -> (table: Self)
        ensures
            table@.dom() == self@.dom(),
            forall|key: Seq<u8>|
                #![trigger table@[key]]
                self@.contains_key(key) ==> cloned(self@[key], table@[key]),
    {
        proof {
            use_type_invariant(self);
        }
        let mut entries: Vec<(Vec<u8>, V)> = Vec::new();
        let mut i: usize = 0;
        while i < self.entries.len()
            invariant
                i <= self.entries@.len(),
                entries@.len() == i,
                distinct(self.entries@),
                forall|j: int|
                    #![trigger entries@[j]]
                    0 <= j < i ==> entries@[j].0@ == self.entries@[j].0@ && cloned(
                        self.entries@[j].1,
                        entries@[j].1,
                    ),
            decreases self.entries@.len() - i,
        {
            let value = self.entries[i].1.clone();
            entries.push((self.entries[i].0.clone(), value));
            i = i + 1;
        }
        proof {
            assert forall|a: int, b: int|
                0 <= a < b < entries@.len() implies #[trigger] entries@[a].0@
                != #[trigger] entries@[b].0@ by {
                assert(self.entries@[a].0@ != self.entries@[b].0@);
            }
            assert forall|key: Seq<u8>| #[trigger]
                values(entries@).dom().contains(key) implies values(
                self.entries@,
            ).dom().contains(key) by {
                let k = choose|k: int| entry_of(entries@, k, key);
                values_has(self.entries@, k);
            }
            assert forall|key: Seq<u8>| #[trigger] values(self.entries@).dom().contains(
                key,
            ) implies values(entries@).dom().contains(key) && cloned(
                values(self.entries@)[key],
                values(entries@)[key],
            ) by {
                let k = choose|k: int| entry_of(self.entries@, k, key);
                values_has(self.entries@, k);
                assert(entries@[k].0@ == key);
                values_has(entries@, k);
            }
            assert(values(entries@).dom() =~= values(self.entries@).dom());
        }
        Table { entries }
    }
}

} // verus!
