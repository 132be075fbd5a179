//! Hash indices from a key to the slot where a table keeps that key's record.
//!
//! The indices are `hashbrown` maps. Verus does not look inside them: what an
//! index holds is named by [`name_slots`] and [`id_slots`], and the few map
//! operations the tables need are stated over those names.

use vstd::prelude::*;

verus! {

/// An index from a name to a slot, kept in a `hashbrown::HashMap<String, usize>`.
#[verifier::external_body]
#[derive(Debug)]
pub struct NameIndex {
    inner: hashbrown::HashMap<String, usize>,
}

/// An index from a numeric identifier to a slot, kept in a
/// `hashbrown::HashMap<i32, usize>`.
#[verifier::external_body]
#[derive(Debug)]
pub struct IdIndex {
    inner: hashbrown::HashMap<i32, usize>,
}

/// The key-to-slot pairs that a [`NameIndex`] holds.
pub uninterp spec fn name_slots(index: NameIndex) -> Map<Seq<char>, usize>;

/// The key-to-slot pairs that an [`IdIndex`] holds.
pub uninterp spec fn id_slots(index: IdIndex) -> Map<i32, usize>;

pub open spec fn no_name_slots() -> Map<Seq<char>, usize> {
    Map::empty()
}

pub open spec fn no_id_slots() -> Map<i32, usize> {
    Map::empty()
}

impl NameIndex {
    /// `hashbrown::HashMap::new`: a map that holds no pair.
    #[verifier::external_body]
    pub(crate) fn new() -> (index: NameIndex)
        ensures
            name_slots(index) == no_name_slots(),
    {
        NameIndex { inner: hashbrown::HashMap::new() }
    }

    /// `hashbrown::HashMap::get`: the slot stored under `name`, if the map
    /// holds that key. Two keys are the same key when they hold the same
    /// characters.
    #[verifier::external_body]
    pub(crate) fn lookup(&self, name: &str) -> (slot: Option<usize>)
        ensures
            slot == (if name_slots(*self).dom().contains(name@) {
                Some(name_slots(*self)[name@])
            } else {
                None
            }),
    {
        self.inner.get(name).copied()
    }

    /// `hashbrown::HashMap::insert`: afterwards the map holds `slot` under
    /// `name`, in place of what it held under that key before, and every
    /// other pair as before.
    #[verifier::external_body]
    pub(crate) fn record(&mut self, name: String, slot: usize)
        ensures
            name_slots(*final(self)) == name_slots(*old(self)).insert(name@, slot),
    {
        self.inner.insert(name, slot);
    }
}

impl IdIndex {
    /// `hashbrown::HashMap::new`: a map that holds no pair.
    #[verifier::external_body]
    pub(crate) fn new() -> (index: IdIndex)
        ensures
            id_slots(index) == no_id_slots(),
    {
        IdIndex { inner: hashbrown::HashMap::new() }
    }

    /// `hashbrown::HashMap::get`: the slot stored under `id`, if the map
    /// holds that key.
    #[verifier::external_body]
    pub(crate) fn lookup(&self, id: i32) -> (slot: Option<usize>)
        ensures
            slot == (if id_slots(*self).dom().contains(id) {
                Some(id_slots(*self)[id])
            } else {
                None
            }),
    {
        self.inner.get(&id).copied()
    }

    /// `hashbrown::HashMap::insert`: afterwards the map holds `slot` under
    /// `id`, in place of what it held under that key before, and every other
    /// pair as before.
    #[verifier::external_body]
    pub(crate) fn record(&mut self, id: i32, slot: usize)
        ensures
            id_slots(*final(self)) == id_slots(*old(self)).insert(id, slot),
    {
        self.inner.insert(id, slot);
    }
}

} // verus!
