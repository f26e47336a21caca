//! Tables keyed by name that remember the order of insertion.
//!
//! A [`NameTable`] keeps its names and values in two vectors, in the order
//! in which the names first arrived, and finds a name through a hash index.
//! Walking the table is therefore deterministic, which the hash map alone
//! would not give, while a lookup stays a single probe.
//!
//! The model of a table is the sequence of its entries, each a name with
//! its value. The functions at the top of this module are the vocabulary
//! for such sequences.

use vstd::prelude::*;
use crate::name_index::{NameIndex, name_index_entries, name_index_get, name_index_insert, name_index_new};

verus! {

/// Whether some entry has the name `name`.
pub open spec fn has_key<V>(entries: Seq<(Seq<char>, V)>, name: Seq<char>) -> bool {
    exists|i: int| 0 <= i < entries.len() && (#[trigger] entries[i]).0 == name
}

/// The position of an entry named `name`; meaningful only where there is one.
pub open spec fn key_index<V>(entries: Seq<(Seq<char>, V)>, name: Seq<char>) -> int {
    choose|i: int| 0 <= i < entries.len() && (#[trigger] entries[i]).0 == name
}

/// No two entries share a name.
pub open spec fn distinct_keys<V>(entries: Seq<(Seq<char>, V)>) -> bool {
    forall|i: int, j: int|
        0 <= i < entries.len() && 0 <= j < entries.len() && i != j ==> (#[trigger] entries[i]).0
            != (#[trigger] entries[j]).0
}

/// The value of the entry named `name`, if there is one.
pub open spec fn value_of<V>(entries: Seq<(Seq<char>, V)>, name: Seq<char>) -> Option<V> {
    if has_key(entries, name) {
        Some(entries[key_index(entries, name)].1)
    } else {
        None
    }
}

/// The entries after `value` is stored under `name`: an entry of that name
/// keeps its place and takes the value, a new name is appended.
pub open spec fn upsert<V>(entries: Seq<(Seq<char>, V)>, name: Seq<char>, value: V) -> Seq<
    (Seq<char>, V),
> {
    if has_key(entries, name) {
        entries.update(key_index(entries, name), (name, value))
    } else {
        entries.push((name, value))
    }
}

/// Where names are distinct, the entry at `i` is the one its name finds.
pub proof fn lemma_key_index<V>(entries: Seq<(Seq<char>, V)>, i: int)
    requires
        distinct_keys(entries),
        0 <= i < entries.len(),
    ensures
        has_key(entries, entries[i].0),
        key_index(entries, entries[i].0) == i,
        value_of(entries, entries[i].0) == Some(entries[i].1),
{
    let name = entries[i].0;
    let j = key_index(entries, name);
    assert(0 <= j < entries.len() && entries[j].0 == name);
}

/// Storing a value keeps names distinct, and the name then finds that value.
pub proof fn lemma_upsert<V>(entries: Seq<(Seq<char>, V)>, name: Seq<char>, value: V)
    requires
        distinct_keys(entries),
    ensures
        distinct_keys(upsert(entries, name, value)),
        has_key(upsert(entries, name, value), name),
        value_of(upsert(entries, name, value), name) == Some(value),
        forall|other: Seq<char>|
            other != name ==> has_key(upsert(entries, name, value), other) == has_key(
                entries,
                other,
            ) && value_of(upsert(entries, name, value), other) == value_of(entries, other),
{
    let after = upsert(entries, name, value);
    let at = if has_key(entries, name) {
        key_index(entries, name)
    } else {
        entries.len() as int
    };
    assert(0 <= at < after.len() && after[at] == (name, value));
    assert(distinct_keys(after)) by {
        assert forall|i: int, j: int|
            0 <= i < after.len() && 0 <= j < after.len() && i != j implies (#[trigger] after[i]).0
            != (#[trigger] after[j]).0 by {
            if i != at && j != at {
                assert(after[i] == entries[i] && after[j] == entries[j]);
            } else if i == at {
                assert(after[j] == entries[j]);
            } else {
                assert(after[i] == entries[i]);
            }
        }
    }
    lemma_key_index(after, at);
    assert forall|other: Seq<char>| other != name implies has_key(after, other) == has_key(
        entries,
        other,
    ) && value_of(after, other) == value_of(entries, other) by {
        if has_key(entries, other) {
            let k = key_index(entries, other);
            assert(after[k] == entries[k]);
            lemma_key_index(after, k);
            lemma_key_index(entries, k);
        }
        if has_key(after, other) {
            let k = key_index(after, other);
            assert(k != at);
            assert(after[k] == entries[k]);
        }
    }
}

/// Overwriting the entry that a store has just made is storing the later value.
pub proof fn lemma_upsert_again<V>(
    entries: Seq<(Seq<char>, V)>,
    name: Seq<char>,
    first: V,
    second: V,
)
    requires
        distinct_keys(entries),
    ensures
        has_key(upsert(entries, name, first), name),
        upsert(entries, name, first).update(
            key_index(upsert(entries, name, first), name),
            (name, second),
        ) == upsert(entries, name, second),
{
    let once = upsert(entries, name, first);
    lemma_upsert(entries, name, first);
    let at = if has_key(entries, name) {
        key_index(entries, name)
    } else {
        entries.len() as int
    };
    assert(once[at] == (name, first));
    lemma_key_index(once, at);
    assert(once.update(at, (name, second)) =~= upsert(entries, name, second));
}

/// The entries with `f` applied to each value; names and order stay.
pub open spec fn map_entries<T, V>(entries: Seq<(Seq<char>, T)>, f: spec_fn(T) -> V) -> Seq<
    (Seq<char>, V),
> {
    Seq::new(entries.len(), |i: int| (entries[i].0, f(entries[i].1)))
}

/// Mapping the values changes neither which names there are nor where.
pub proof fn lemma_map_entries<T, V>(entries: Seq<(Seq<char>, T)>, f: spec_fn(T) -> V)
    requires
        distinct_keys(entries),
    ensures
        distinct_keys(map_entries(entries, f)),
        forall|name: Seq<char>| #[trigger]
            has_key(map_entries(entries, f), name) == has_key(entries, name),
        forall|name: Seq<char>|
            has_key(entries, name) ==> #[trigger] key_index(map_entries(entries, f), name)
                == key_index(entries, name),
{
    let mapped = map_entries(entries, f);
    assert forall|name: Seq<char>| #[trigger]
        has_key(mapped, name) == has_key(entries, name) by {
        if has_key(mapped, name) {
            let i = key_index(mapped, name);
            assert(entries[i].0 == name);
        }
        if has_key(entries, name) {
            let i = key_index(entries, name);
            assert(mapped[i].0 == name);
        }
    }
    assert forall|name: Seq<char>| has_key(entries, name) implies #[trigger] key_index(
        mapped,
        name,
    ) == key_index(entries, name) by {
        let i = key_index(entries, name);
        assert(mapped[i].0 == name);
        let j = key_index(mapped, name);
        assert(entries[j].0 == name);
    }
}

/// Storing a value and then mapping is mapping and then storing the mapped value.
pub proof fn lemma_map_upsert<T, V>(
    entries: Seq<(Seq<char>, T)>,
    name: Seq<char>,
    value: T,
    f: spec_fn(T) -> V,
)
    requires
        distinct_keys(entries),
    ensures
        map_entries(upsert(entries, name, value), f) == upsert(
            map_entries(entries, f),
            name,
            f(value),
        ),
{
    lemma_map_entries(entries, f);
    assert(map_entries(upsert(entries, name, value), f) =~= upsert(
        map_entries(entries, f),
        name,
        f(value),
    ));
}

/// An insertion-ordered map from names to values of type `T`.
pub struct NameTable<T> {
    names: Vec<&'static str>,
    values: Vec<T>,
    index: NameIndex,
}

impl<T> NameTable<T> {
    /// The entries of the table, in order of first insertion.
    pub closed spec fn entries(&self) -> Seq<(Seq<char>, T)> {
        Seq::new(self.names@.len(), |i: int| (self.names@[i]@, self.values@[i]))
    }

    /// One value per name, and the hash index maps exactly the table's
    /// names, each to its position.
    pub closed spec fn indexed(&self) -> bool {
        let found = name_index_entries(self.index);
        &&& self.names@.len() == self.values@.len()
        &&& forall|i: int|
            0 <= i < self.names@.len() ==> found.contains_key(#[trigger] self.names@[i]@)
                && found[self.names@[i]@] == i
        &&& forall|name: Seq<char>| #[trigger]
            found.contains_key(name) ==> found[name] < self.names@.len()
                && self.names@[found[name] as int]@ == name
    }

    /// Well-formedness: no name twice, and the index in step with the entries.
    pub open spec fn wf(&self) -> bool {
        &&& distinct_keys(self.entries())
        &&& self.indexed()
    }

    /// An empty table.
    pub fn new() -> (table: Self)
        ensures
            table.wf(),
            table.entries() == Seq::<(Seq<char>, T)>::empty(),
    {
        let table = NameTable { names: Vec::new(), values: Vec::new(), index: name_index_new() };
        assert(table.entries() =~= Seq::<(Seq<char>, T)>::empty());
        table
    }

    /// The number of entries.
    pub fn len(&self) -> (n: usize)
        requires
            self.wf(),
        ensures
            n == self.entries().len(),
    {
        self.names.len()
    }

    /// The position of `name` in the table, or `None` where it has no entry.
    pub fn find(&self, name: &str) -> (found: Option<usize>)
        requires
            self.wf(),
        ensures
            found is Some == has_key(self.entries(), name@),
            found is Some ==> found->0 == key_index(self.entries(), name@),
            found is Some ==> found->0 < self.entries().len(),
    {
        let found = name_index_get(&self.index, name);
        proof {
            match found {
                Some(i) => {
                    assert(self.entries()[i as int].0 == name@);
                    lemma_key_index(self.entries(), i as int);
                },
                None => {
                    if has_key(self.entries(), name@) {
                        let j = key_index(self.entries(), name@);
                        assert(self.entries()[j].0 == name@);
                        assert(self.names@[j]@ == name@);
                    }
                },
            }
        }
        found
    }

    /// The name at position `i`.
    pub fn name(&self, i: usize) -> (name: &'static str)
        requires
            self.wf(),
            i < self.entries().len(),
        ensures
            name@ == self.entries()[i as int].0,
    {
        self.names[i]
    }

    /// The value at position `i`.
    pub fn get(&self, i: usize) -> (value: &T)
        requires
            self.wf(),
            i < self.entries().len(),
        ensures
            *value == self.entries()[i as int].1,
    {
        &self.values[i]
    }

    /// The value at position `i`, to be changed in place. The names stay as
    /// they are, so the table is well-formed whatever is written.
    pub fn get_mut(&mut self, i: usize) -> (value: &mut T)
        requires
            old(self).wf(),
            i < old(self).entries().len(),
        ensures
            *value == old(self).entries()[i as int].1,
            final(self).entries() == old(self).entries().update(
                i as int,
                (old(self).entries()[i as int].0, *final(value)),
            ),
            final(self).wf(),
    {
        &mut self.values[i]
    }

    /// Stores `value` under `name` and returns its position. A name that the
    /// table already has keeps its position and gets the new value; a new
    /// name goes to the end.
    pub fn insert(&mut self, name: &'static str, value: T) -> (at: usize)
        requires
            old(self).wf(),
        ensures
            final(self).wf(),
            final(self).entries() == upsert(old(self).entries(), name@, value),
            at < final(self).entries().len(),
            final(self).entries()[at as int] == (name@, value),
    {
        proof {
            lemma_upsert(self.entries(), name@, value);
        }
        match self.find(name) {
            Some(i) => {
                self.values[i] = value;
                assert(self.entries() =~= upsert(old(self).entries(), name@, value));
                i
            },
            None => {
                let at = self.names.len();
                self.names.push(name);
                self.values.push(value);
                let _ = name_index_insert(&mut self.index, name, at);
                proof {
                    assert(self.entries() =~= upsert(old(self).entries(), name@, value));
                    assert forall|i: int| 0 <= i < self.names@.len() implies name_index_entries(
                        self.index,
                    ).contains_key(#[trigger] self.names@[i]@) && name_index_entries(
                        self.index,
                    )[self.names@[i]@] == i by {
                        if i < at {
                            assert(old(self).names@[i]@ == self.names@[i]@);
                            assert(old(self).entries()[i].0 == old(self).names@[i]@);
                        }
                    }
                }
                at
            },
        }
    }
}

} // verus!
