//! Append-only registries that give every named resource a stable integer handle.
//!
//! The names are kept in an `indexmap::IndexMap`, which remembers insertion
//! order; the resources themselves sit in a vector at the position the map
//! records for their name.

use indexmap::IndexMap;
use std::collections::hash_map::RandomState;
use vstd::prelude::*;

verus! {

/// `indexmap::IndexMap`, opaque to the verifier.
#[verifier::external_type_specification]
#[verifier::external_body]
#[verifier::reject_recursive_types(K)]
#[verifier::reject_recursive_types(V)]
#[verifier::reject_recursive_types(S)]
pub struct ExIndexMap<K, V, S>(IndexMap<K, V, S>);

/// The key-value pairs that a name index holds, in insertion order.
pub uninterp spec fn index_entries(m: IndexMap<String, usize, RandomState>) -> Seq<(Seq<char>, usize)>;

/// `IndexMap::new`: a fresh map holds no pairs.
#[verifier::external_body]
fn index_new() -> (m: IndexMap<String, usize, RandomState>)
    ensures
        index_entries(m) == Seq::<(Seq<char>, usize)>::empty(),
{
    IndexMap::new()
}

/// `IndexMap::insert`: where the key is already present its pair keeps its
/// place, takes the new value and the old value is returned; otherwise the
/// pair is added last and `None` is returned.
#[verifier::external_body]
fn index_insert(m: &mut IndexMap<String, usize, RandomState>, key: String, value: usize) -> (previous: Option<usize>)
    ensures
        match previous {
            Some(v) => exists|i: int|
                0 <= i < index_entries(*old(m)).len() && index_entries(*old(m))[i] == (key@, v)
                    && index_entries(*final(m)) == index_entries(*old(m)).update(i, (key@, value)),
            None => (forall|i: int| 0 <= i < index_entries(*old(m)).len() ==> index_entries(*old(m))[i].0 != key@)
                && index_entries(*final(m)) == index_entries(*old(m)).push((key@, value)),
        },
{
    m.insert(key, value)
}

/// `IndexMap::get_index_of`: the position of the pair with this key, if there is one.
#[verifier::external_body]
fn index_get_index_of(m: &IndexMap<String, usize, RandomState>, key: &str) -> (r: Option<usize>)
    ensures
        match r {
            Some(i) => i < index_entries(*m).len() && index_entries(*m)[i as int].0 == key@,
            None => forall|i: int| 0 <= i < index_entries(*m).len() ==> index_entries(*m)[i].0 != key@,
        },
{
    m.get_index_of(key)
}

/// `IndexMap::get`: the value stored for this key, if there is one.
#[verifier::external_body]
fn index_get(m: &IndexMap<String, usize, RandomState>, key: &str) -> (r: Option<usize>)
    ensures
        match r {
            Some(v) => exists|i: int| 0 <= i < index_entries(*m).len() && index_entries(*m)[i] == (key@, v),
            None => forall|i: int| 0 <= i < index_entries(*m).len() ==> index_entries(*m)[i].0 != key@,
        },
{
    m.get(key).copied()
}

/// `IndexMap::get_index`: the key at a position, if the position is in range.
#[verifier::external_body]
fn index_key_at(m: &IndexMap<String, usize, RandomState>, index: usize) -> (r: Option<&String>)
    ensures
        match r {
            Some(k) => index < index_entries(*m).len() && k@ == index_entries(*m)[index as int].0,
            None => index >= index_entries(*m).len(),
        },
{
    m.get_index(index).map(|pair| pair.0)
}

/// The handle of `key` among `keys`: the position at which it stands, if it stands anywhere.
pub open spec fn index_in(keys: Seq<Seq<char>>, key: Seq<char>) -> Option<int> {
    if exists|i: int| 0 <= i < keys.len() && keys[i] == key {
        Some(choose|i: int| 0 <= i < keys.len() && keys[i] == key)
    } else {
        None
    }
}

/// The names of a table after `key` has been inserted: a new name goes last, a known one changes nothing.
pub open spec fn keys_after_insert(keys: Seq<Seq<char>>, key: Seq<char>) -> Seq<Seq<char>> {
    if index_in(keys, key) is Some {
        keys
    } else {
        keys.push(key)
    }
}

/// The names of a table after each of `more` has been inserted in turn.
pub open spec fn keys_after_inserts(keys: Seq<Seq<char>>, more: Seq<Seq<char>>) -> Seq<Seq<char>>
    decreases more.len(),
{
    if more.len() == 0 {
        keys
    } else {
        keys_after_insert(keys_after_inserts(keys, more.drop_last()), more.last())
    }
}

/// Among names that do not repeat, a name found at a position has that position as its handle.
pub proof fn lemma_index_in_unique(keys: Seq<Seq<char>>, i: int)
    requires
        keys.no_duplicates(),
        0 <= i < keys.len(),
    ensures
        index_in(keys, keys[i]) == Some(i),
{
}

/// Inserting a name keeps the names free of repetition.
pub proof fn lemma_insert_keeps_distinct(keys: Seq<Seq<char>>, key: Seq<char>)
    requires
        keys.no_duplicates(),
    ensures
        keys_after_insert(keys, key).no_duplicates(),
        index_in(keys_after_insert(keys, key), key) is Some,
{
    let after = keys_after_insert(keys, key);
    if index_in(keys, key) is None {
        assert(after[keys.len() as int] == key);
    }
}

/// A name that has a handle keeps that handle when any name is inserted.
pub proof fn lemma_insert_keeps_index(keys: Seq<Seq<char>>, key: Seq<char>, known: Seq<char>)
    requires
        keys.no_duplicates(),
        index_in(keys, known) is Some,
    ensures
        index_in(keys_after_insert(keys, key), known) == index_in(keys, known),
{
    let i = index_in(keys, known)->0;
    let after = keys_after_insert(keys, key);
    lemma_insert_keeps_distinct(keys, key);
    assert(after[i] == known);
    lemma_index_in_unique(after, i);
}

/// Handles are stable: a name that has a handle keeps it through any run of
/// later insertions, whether of new names or of names already present.
pub proof fn lemma_index_stable(keys: Seq<Seq<char>>, more: Seq<Seq<char>>, known: Seq<char>)
    requires
        keys.no_duplicates(),
        index_in(keys, known) is Some,
    ensures
        keys_after_inserts(keys, more).no_duplicates(),
        index_in(keys_after_inserts(keys, more), known) == index_in(keys, known),
    decreases more.len(),
{
    if more.len() > 0 {
        lemma_index_stable(keys, more.drop_last(), known);
        let before = keys_after_inserts(keys, more.drop_last());
        lemma_insert_keeps_distinct(before, more.last());
        lemma_insert_keeps_index(before, more.last(), known);
    }
}

/// The place of the last occurrence of `key` among `names`, if there is one.
pub open spec fn latest(names: Seq<Seq<char>>, key: Seq<char>) -> Option<int>
    decreases names.len(),
{
    if names.len() == 0 {
        None
    } else if names.last() == key {
        Some(names.len() - 1)
    } else {
        latest(names.drop_last(), key)
    }
}

/// `latest` is a place of the key, and no later place holds it.
pub proof fn lemma_latest(names: Seq<Seq<char>>, key: Seq<char>)
    ensures
        match latest(names, key) {
            Some(k) => 0 <= k < names.len() && names[k] == key && forall|j: int|
                k < j < names.len() ==> names[j] != key,
            None => forall|j: int| 0 <= j < names.len() ==> names[j] != key,
        },
    decreases names.len(),
{
    if names.len() > 0 && names.last() != key {
        lemma_latest(names.drop_last(), key);
        match latest(names.drop_last(), key) {
            Some(k) => {
                assert forall|j: int| k < j < names.len() implies names[j] != key by {
                    if j < names.len() - 1 {
                        assert(names.drop_last()[j] == names[j]);
                    }
                }
            },
            None => {
                assert forall|j: int| 0 <= j < names.len() implies names[j] != key by {
                    if j < names.len() - 1 {
                        assert(names.drop_last()[j] == names[j]);
                    }
                }
            },
        }
    }
}

/// An ordered registry from names to values. A name's handle is the position
/// at which it was first inserted, and it never changes.
pub struct ResourceTable<V> {
    names: IndexMap<String, usize, RandomState>,
    items: Vec<V>,
}

impl<V> ResourceTable<V> {
    /// The registry's invariant: every name is recorded with the position of
    /// its value, and no name occurs twice.
    pub closed spec fn wf(&self) -> bool {
        let entries = index_entries(self.names);
        &&& entries.len() == self.items@.len()
        &&& forall|i: int| 0 <= i < entries.len() ==> (#[trigger] entries[i]).1 == i
        &&& forall|i: int, j: int| 0 <= i < j < entries.len() ==> (#[trigger] entries[i]).0 != (#[trigger] entries[j]).0
    }

    /// The names, by handle.
    pub closed spec fn keys(&self) -> Seq<Seq<char>> {
        Seq::new(self.items@.len(), |i: int| index_entries(self.names)[i].0)
    }

    /// The values, by handle.
    pub closed spec fn values(&self) -> Seq<V> {
        self.items@
    }

    /// Whether `after` is the table `before` after one value for each of
    /// `names` has been inserted, in order, where `is` tells whether a value
    /// is the one that an item of `described` describes. The names stand as
    /// after inserting `names` in order. Under a name of `names` stands the
    /// value inserted for its last occurrence; every other name that was
    /// known keeps its handle and its value.
    pub open spec fn filled_from<D>(
        before: Self,
        after: Self,
        names: Seq<Seq<char>>,
        described: Seq<D>,
        is: spec_fn(V, D) -> bool,
    ) -> bool {
        &&& after.wf()
        &&& names.len() == described.len()
        &&& after.keys() == keys_after_inserts(before.keys(), names)
        &&& forall|key: Seq<char>|
            #![trigger latest(names, key)]
            match latest(names, key) {
                Some(k) => {
                    &&& index_in(after.keys(), key) matches Some(i)
                    &&& 0 <= i < after.values().len()
                    &&& is(after.values()[i], described[k])
                },
                None => index_in(before.keys(), key) is Some ==> {
                    let i = index_in(before.keys(), key)->0;
                    &&& index_in(after.keys(), key) == Some(i)
                    &&& 0 <= i < after.values().len()
                    &&& i < before.values().len()
                    &&& after.values()[i] == before.values()[i]
                },
            }
    }

    /// A table is itself with nothing inserted.
    pub proof fn lemma_filled_start<D>(before: Self, is: spec_fn(V, D) -> bool)
        requires
            before.wf(),
        ensures
            Self::filled_from(before, before, Seq::<Seq<char>>::empty(), Seq::<D>::empty(), is),
    {
        before.lemma_keys_distinct();
    }

    /// One more insertion: where `middle` is `before` filled from `names`,
    /// and `after` is `middle` with a value that `d` describes inserted
    /// under `name`, `after` is `before` filled from `names` and `name`.
    pub proof fn lemma_filled_step<D>(
        before: Self,
        middle: Self,
        after: Self,
        names: Seq<Seq<char>>,
        described: Seq<D>,
        is: spec_fn(V, D) -> bool,
        name: Seq<char>,
        d: D,
        at: int,
    )
        requires
            before.wf(),
            middle.wf(),
            Self::filled_from(before, middle, names, described, is),
            after.wf(),
            after.keys() == keys_after_insert(middle.keys(), name),
            index_in(after.keys(), name) == Some(at),
            0 <= at < after.values().len(),
            is(after.values()[at], d),
            forall|i: int| 0 <= i < middle.values().len() && i != at ==> after.values()[i] == middle.values()[i],
            middle.values().len() <= after.values().len(),
        ensures
            Self::filled_from(before, after, names.push(name), described.push(d), is),
    {
        let more = names.push(name);
        let more_described = described.push(d);
        assert(more.drop_last() =~= names);
        before.lemma_keys_distinct();
        middle.lemma_keys_distinct();
        after.lemma_keys_distinct();
        assert(after.keys()[at] == name);
        assert forall|key: Seq<char>| #![trigger latest(more, key)] match latest(more, key) {
            Some(k) => {
                &&& index_in(after.keys(), key) matches Some(i)
                &&& 0 <= i < after.values().len()
                &&& is(after.values()[i], more_described[k])
            },
            None => index_in(before.keys(), key) is Some ==> {
                let i = index_in(before.keys(), key)->0;
                &&& index_in(after.keys(), key) == Some(i)
                &&& 0 <= i < after.values().len()
                &&& i < before.values().len()
                &&& after.values()[i] == before.values()[i]
            },
        } by {
            if key != name {
                assert(latest(more, key) == latest(names, key));
                lemma_latest(names, key);
                match latest(names, key) {
                    Some(k) => {
                        let i = index_in(middle.keys(), key)->0;
                        lemma_insert_keeps_index(middle.keys(), name, key);
                        assert(after.keys()[i] == key);
                        assert(i != at);
                    },
                    None => {
                        if index_in(before.keys(), key) is Some {
                            let i = index_in(before.keys(), key)->0;
                            lemma_insert_keeps_index(middle.keys(), name, key);
                            assert(after.keys()[i] == key);
                            assert(i != at);
                        }
                    },
                }
            }
        }
    }

    /// In a well-formed table there is one name per value, no name
    /// repeats, and every handle fits the machine word.
    pub proof fn lemma_keys_distinct(&self)
        requires
            self.wf(),
        ensures
            self.keys().len() == self.values().len(),
            self.keys().no_duplicates(),
            self.values().len() <= usize::MAX,
    {
        let n = self.items.len();
    }

    /// An empty table.
    pub fn new() -> (table: Self)
        ensures
            table.wf(),
            table.keys() == Seq::<Seq<char>>::empty(),
            table.values() == Seq::<V>::empty(),
            forall|key: Seq<char>| index_in(table.keys(), key) is None,
    {
        let table = ResourceTable { names: index_new(), items: Vec::new() };
        assert(table.keys() =~= Seq::<Seq<char>>::empty());
        table
    }

    /// The number of names.
    pub fn len(&self) -> (n: usize)
        ensures
            n == self.values().len(),
    {
        self.items.len()
    }

    /// Stores `value` under `key` and returns the name's handle. A new name
    /// is appended and gets the next handle; a known name keeps its handle
    /// and only its value is replaced. No other name's handle or value
    /// changes.
    pub fn insert_full(&mut self, key: String, value: V) -> (index: usize)
        requires
            old(self).wf(),
        ensures
            final(self).wf(),
            final(self).keys() == keys_after_insert(old(self).keys(), key@),
            final(self).keys().len() == final(self).values().len(),
            final(self).keys().no_duplicates(),
            index < final(self).values().len(),
            index_in(final(self).keys(), key@) == Some(index as int),
            final(self).values()[index as int] == value,
            old(self).values().len() <= final(self).values().len(),
            forall|i: int|
                0 <= i < old(self).values().len() && i != index ==> final(self).values()[i] == old(self).values()[i],
            match index_in(old(self).keys(), key@) {
                Some(i) => i == index && 0 <= i < old(self).values().len() && final(self).values() == old(self).values().update(i, value),
                None => index == old(self).values().len() && final(self).values() == old(self).values().push(value),
            },
            forall|known: Seq<char>| index_in(old(self).keys(), known) is Some
                ==> index_in(final(self).keys(), known) == index_in(old(self).keys(), known),
    {
        proof {
            self.lemma_keys_distinct();
        }
        let ghost before = self.keys();
        let found = index_get_index_of(&self.names, key.as_str());
        let index = match found {
            Some(i) => {
                proof {
                    assert(before[i as int] == key@);
                    lemma_index_in_unique(before, i as int);
                }
                self.items.set(i, value);
                assert(self.keys() =~= before);
                i
            },
            None => {
                assert(index_in(before, key@) is None);
                let slot = self.items.len();
                let previous = index_insert(&mut self.names, key, slot);
                self.items.push(value);
                assert(previous is None);
                assert(self.keys() =~= before.push(key@));
                slot
            },
        };
        proof {
            lemma_insert_keeps_distinct(before, key@);
            assert(self.keys()[index as int] == key@);
            lemma_index_in_unique(self.keys(), index as int);
            assert forall|known: Seq<char>| index_in(before, known) is Some implies index_in(
                self.keys(),
                known,
            ) == index_in(before, known) by {
                lemma_insert_keeps_index(before, key@, known);
            }
        }
        index
    }

    /// Stores `value` under `key`. A new name is appended and gets the next
    /// handle; a known name keeps its handle and only its value is replaced.
    /// No other name's handle or value changes.
    pub fn insert(&mut self, key: String, value: V)
        requires
            old(self).wf(),
        ensures
            final(self).wf(),
            final(self).keys() == keys_after_insert(old(self).keys(), key@),
            final(self).keys().len() == final(self).values().len(),
            final(self).keys().no_duplicates(),
            match index_in(old(self).keys(), key@) {
                Some(i) => 0 <= i < old(self).values().len() && final(self).values() == old(self).values().update(
                    i,
                    value,
                ),
                None => final(self).values() == old(self).values().push(value),
            },
            forall|known: Seq<char>| index_in(old(self).keys(), known) is Some
                ==> index_in(final(self).keys(), known) == index_in(old(self).keys(), known),
    {
        self.insert_full(key, value);
    }

    /// The handle of `key`, if the table knows the name.
    pub fn index_of(&self, key: &str) -> (r: Option<usize>)
        requires
            self.wf(),
        ensures
            match index_in(self.keys(), key@) {
                Some(i) => r matches Some(index) && index == i && 0 <= i < self.values().len(),
                None => r is None,
            },
    {
        proof {
            self.lemma_keys_distinct();
        }
        let r = index_get_index_of(&self.names, key);
        proof {
            if let Some(i) = r {
                assert(self.keys()[i as int] == key@);
                lemma_index_in_unique(self.keys(), i as int);
            }
        }
        r
    }

    /// The value stored under `key`, if the table knows the name.
    pub fn get(&self, key: &str) -> (r: Option<&V>)
        requires
            self.wf(),
        ensures
            match index_in(self.keys(), key@) {
                Some(i) => 0 <= i < self.values().len() && r == Some(&self.values()[i]),
                None => r is None,
            },
    {
        proof {
            self.lemma_keys_distinct();
        }
        match index_get(&self.names, key) {
            Some(slot) => {
                proof {
                    let i = choose|i: int|
                        0 <= i < index_entries(self.names).len() && index_entries(self.names)[i] == (key@, slot);
                    assert(self.keys()[i] == key@);
                    lemma_index_in_unique(self.keys(), i);
                }
                Some(&self.items[slot])
            },
            None => None,
        }
    }

    /// The name and the value behind a handle, if the handle is in range.
    pub fn get_index(&self, index: usize) -> (r: Option<(&String, &V)>)
        requires
            self.wf(),
        ensures
            match r {
                Some((key, value)) => index < self.values().len() && key@ == self.keys()[index as int]
                    && *value == self.values()[index as int],
                None => index >= self.values().len(),
            },
    {
        match index_key_at(&self.names, index) {
            Some(key) => Some((key, &self.items[index])),
            None => None,
        }
    }

    /// Mutable access to the value behind a handle. The names stay as they are.
    pub fn get_index_mut(&mut self, index: usize) -> (r: &mut V)
        requires
            old(self).wf(),
            index < old(self).values().len(),
        ensures
            *r == old(self).values()[index as int],
            final(self).wf(),
            final(self).keys() == old(self).keys(),
            final(self).keys().len() == final(self).values().len(),
            final(self).values() == old(self).values().update(index as int, *final(r)),
    {
        &mut self.items[index]
    }
}

} // verus!
