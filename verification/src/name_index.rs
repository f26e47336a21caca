//! The hash index behind every name table.
//!
//! Lookups by name go through a `bevy::utils::HashMap`. The map itself is
//! not verified: this module states what its three operations do to the
//! entries it holds, and the rest of the crate is proved against those
//! statements.

use vstd::prelude::*;

verus! {

/// A hash map from names to positions.
///
/// Holds a `bevy::utils::HashMap<&'static str, usize>`, which is hashbrown's
/// map with the hasher Bevy chooses. Its entries are known to the verifier
/// only through [`name_index_entries`].
#[verifier::external_body]
pub struct NameIndex {
    map: bevy::utils::HashMap<&'static str, usize>,
}

/// The entries that a [`NameIndex`] holds, keyed by the characters of the name.
pub uninterp spec fn name_index_entries(index: NameIndex) -> Map<Seq<char>, usize>;

/// The map without entries.
pub open spec fn no_entries() -> Map<Seq<char>, usize> {
    Map::empty()
}

/// What a lookup of `name` finds among `entries`.
pub open spec fn entry_at(entries: Map<Seq<char>, usize>, name: Seq<char>) -> Option<usize> {
    if entries.contains_key(name) {
        Some(entries[name])
    } else {
        None
    }
}

/// `HashMap::default`: a new map holds no entry.
#[verifier::external_body]
pub(crate) fn name_index_new() -> (index: NameIndex)
    ensures
        name_index_entries(index) == no_entries(),
{
    NameIndex { map: bevy::utils::HashMap::default() }
}

/// `HashMap::insert`: afterwards `name` maps to `position` and every other
/// entry is as before; the call returns what `name` mapped to before, if
/// anything. Two keys are the same entry when their characters are equal.
#[verifier::external_body]
pub(crate) fn name_index_insert(index: &mut NameIndex, name: &'static str, position: usize) -> (previous: Option<usize>)
    ensures
        name_index_entries(*final(index)) == name_index_entries(*old(index)).insert(name@, position),
        previous == entry_at(name_index_entries(*old(index)), name@),
{
    index.map.insert(name, position)
}

/// `HashMap::get`: the position that `name` maps to, if it has an entry.
#[verifier::external_body]
pub(crate) fn name_index_get(index: &NameIndex, name: &str) -> (position: Option<usize>)
    ensures
        position == entry_at(name_index_entries(*index), name@),
{
    index.map.get(name).copied()
}

} // verus!
