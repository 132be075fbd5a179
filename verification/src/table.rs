//! Keyed tables: records kept in the order in which their keys were first
//! seen, with a hash index for lookup by key.

use vstd::prelude::*;
use crate::index::{IdIndex, NameIndex, id_slots, name_slots};

verus! {

/// Records keyed by a numeric identifier, each identifier at most once.
#[derive(Debug)]
pub struct IdTable<T> {
    items: Vec<(i32, T)>,
    index: IdIndex,
}

impl<T: View> IdTable<T> {
    /// The index and the records agree: every record is indexed at its own
    /// slot, and the index holds nothing else.
    pub closed spec fn wf(&self) -> bool {
        &&& forall|i: int|
            0 <= i < self.items@.len() ==> {
                &&& id_slots(self.index).dom().contains((#[trigger] self.items@[i]).0)
                &&& id_slots(self.index)[self.items@[i].0] == i
            }
        &&& forall|k: i32| #[trigger]
            id_slots(self.index).dom().contains(k) ==> {
                &&& 0 <= id_slots(self.index)[k] < self.items@.len()
                &&& self.items@[id_slots(self.index)[k] as int].0 == k
            }
    }

    /// The records with their identifiers, in order of first appearance.
    pub closed spec fn entries(&self) -> Seq<(i32, T)> {
        self.items@
    }

    /// Whether a record is kept under `id`.
    pub open spec fn has(&self, id: i32) -> bool {
        exists|i: int| 0 <= i < self.entries().len() && (#[trigger] self.entries()[i]).0 == id
    }

    /// In a well-formed table no identifier occurs twice.
    pub proof fn lemma_ids_distinct(&self)
        requires
            self.wf(),
        ensures
            forall|i: int, j: int|
                0 <= i < self.entries().len() && 0 <= j < self.entries().len() && (
                #[trigger] self.entries()[i]).0 == (#[trigger] self.entries()[j]).0 ==> i == j,
    {
    }

    pub fn new() -> (table: Self)
        ensures
            table.wf(),
            table.entries() == Seq::<(i32, T)>::empty(),
            table@ == Seq::<(i32, T::V)>::empty(),
    {
        IdTable { items: Vec::new(), index: IdIndex::new() }
    }

    pub fn len(&self) -> (n: usize)
        ensures
            n == self.entries().len(),
    {
        self.items.len()
    }

    /// The slot of the record kept under `id`.
    pub fn find(&self, id: i32) -> (slot: Option<usize>)
        requires
            self.wf(),
        ensures
            match slot {
                Some(i) => i < self.entries().len() && self.entries()[i as int].0 == id,
                None => !self.has(id),
            },
            match slot {
                Some(i) => id_known(self@, id) && i == id_slot(self@, id),
                None => !id_known(self@, id),
            },
    {
        proof {
            self.lemma_view();
        }
        let slot = self.index.lookup(id);
        proof {
            if let Some(i) = slot {
                assert(self@[i as int].0 == id);
            }
        }
        slot
    }

    pub fn id_at(&self, slot: usize) -> (id: i32)
        requires
            slot < self.entries().len(),
        ensures
            id == self.entries()[slot as int].0,
            id == self@[slot as int].0,
    {
        self.items[slot].0
    }

    pub fn get(&self, slot: usize) -> (record: &T)
        requires
            slot < self.entries().len(),
        ensures
            *record == self.entries()[slot as int].1,
            record@ == self@[slot as int].1,
    {
        &self.items[slot].1
    }

    /// Mutable access to the record in `slot`; its identifier stays.
    pub fn get_mut(&mut self, slot: usize) -> (record: &mut T)
        requires
            slot < old(self).entries().len(),
        ensures
            *record == old(self).entries()[slot as int].1,
            final(self).entries() == old(self).entries().update(
                slot as int,
                (old(self).entries()[slot as int].0, *final(record)),
            ),
            final(self)@ == old(self)@.update(
                slot as int,
                (old(self)@[slot as int].0, final(record)@),
            ),
            old(self).wf() ==> final(self).wf(),
    {
        proof {
            let before = self.entries();
            let id = before[slot as int].0;
            assert forall|r: T| #[trigger]
                id_rows(before.update(slot as int, (id, r))) == id_rows(before).update(
                    slot as int,
                    (id, r@),
                ) by {
                assert(id_rows(before.update(slot as int, (id, r))) =~= id_rows(before).update(
                    slot as int,
                    (id, r@),
                ));
            }
        }
        &mut self.items[slot].1
    }

    /// Appends a record under `id`, unless the table holds one under that
    /// identifier already: then the table stays as it is.
    pub fn insert(&mut self, id: i32, record: T) -> (added: bool)
        requires
            old(self).wf(),
        ensures
            final(self).wf(),
            added == !id_known(old(self)@, id),
            added ==> final(self).entries() == old(self).entries().push((id, record)),
            added ==> final(self)@ == old(self)@.push((id, record@)),
            !added ==> final(self).entries() == old(self).entries() && final(self)@ == old(self)@,
    {
        match self.find(id) {
            Some(_) => false,
            None => {
                self.insert_new(id, record);
                true
            },
        }
    }

    /// Appends a record under an identifier that the table does not hold yet.
    pub fn insert_new(&mut self, id: i32, record: T)
        requires
            old(self).wf(),
            !old(self).has(id),
        ensures
            final(self).wf(),
            final(self).entries() == old(self).entries().push((id, record)),
            final(self)@ == old(self)@.push((id, record@)),
    {
        proof {
            if id_slots(self.index).dom().contains(id) {
                let held = id_slots(self.index)[id] as int;
                assert(self.entries()[held].0 == id);
            }
        }
        let slot = self.items.len();
        self.items.push((id, record));
        self.index.record(id, slot);
        proof {
            assert(self@ =~= old(self)@.push((id, record@)));
        }
    }
}

impl<T: View> View for IdTable<T> {
    type V = Seq<(i32, T::V)>;

    /// The identifiers with the views of their records, in order of first
    /// appearance.
    open spec fn view(&self) -> Seq<(i32, T::V)> {
        id_rows(self.entries())
    }
}

/// The identifiers in `entries` with the views of their records.
pub open spec fn id_rows<T: View>(entries: Seq<(i32, T)>) -> Seq<(i32, T::V)> {
    entries.map_values(|e: (i32, T)| (e.0, e.1@))
}

/// The names in `entries` with the views of their records.
pub open spec fn name_rows<T: View>(entries: Seq<(String, T)>) -> Seq<(Seq<char>, T::V)> {
    entries.map_values(|e: (String, T)| (e.0@, e.1@))
}

/// Whether `rows` holds a record under `id`.
pub open spec fn id_known<V>(rows: Seq<(i32, V)>, id: i32) -> bool {
    exists|i: int| 0 <= i < rows.len() && (#[trigger] rows[i]).0 == id
}

/// The slot of the record that `rows` holds under `id`.
pub open spec fn id_slot<V>(rows: Seq<(i32, V)>, id: i32) -> int {
    choose|i: int| 0 <= i < rows.len() && (#[trigger] rows[i]).0 == id
}

/// No identifier occurs twice in `rows`.
pub open spec fn ids_distinct<V>(rows: Seq<(i32, V)>) -> bool {
    forall|i: int, j: int|
        0 <= i < rows.len() && 0 <= j < rows.len() && (#[trigger] rows[i]).0 == (
        #[trigger] rows[j]).0 ==> i == j
}

/// Whether `rows` holds a record under `name`.
pub open spec fn name_known<V>(rows: Seq<(Seq<char>, V)>, name: Seq<char>) -> bool {
    exists|i: int| 0 <= i < rows.len() && (#[trigger] rows[i]).0 == name
}

/// The slot of the record that `rows` holds under `name`.
pub open spec fn name_slot<V>(rows: Seq<(Seq<char>, V)>, name: Seq<char>) -> int {
    choose|i: int| 0 <= i < rows.len() && (#[trigger] rows[i]).0 == name
}

/// No name occurs twice in `rows`.
pub open spec fn names_distinct<V>(rows: Seq<(Seq<char>, V)>) -> bool {
    forall|i: int, j: int|
        0 <= i < rows.len() && 0 <= j < rows.len() && (#[trigger] rows[i]).0 == (
        #[trigger] rows[j]).0 ==> i == j
}

impl<T: View> IdTable<T> {
    /// What a well-formed table and its view have in common.
    pub proof fn lemma_view(&self)
        requires
            self.wf(),
        ensures
            self@.len() == self.entries().len(),
            forall|i: int|
                0 <= i < self.entries().len() ==> (#[trigger] self@[i]) == (
                    self.entries()[i].0,
                    self.entries()[i].1@,
                ),
            ids_distinct(self@),
            forall|id: i32| self.has(id) == #[trigger] id_known(self@, id),
            forall|i: int|
                0 <= i < self@.len() ==> id_slot(self@, (#[trigger] self@[i]).0) == i,
    {
        self.lemma_ids_distinct();
        assert forall|id: i32| self.has(id) == #[trigger] id_known(self@, id) by {
            if self.has(id) {
                let i = choose|i: int|
                    0 <= i < self.entries().len() && (#[trigger] self.entries()[i]).0 == id;
                assert(self@[i].0 == id);
            }
            if id_known(self@, id) {
                let i = choose|i: int| 0 <= i < self@.len() && (#[trigger] self@[i]).0 == id;
                assert(self.entries()[i].0 == id);
            }
        }
        assert forall|i: int| 0 <= i < self@.len() implies id_slot(
            self@,
            (#[trigger] self@[i]).0,
        ) == i by {
            let j = id_slot(self@, self@[i].0);
            assert(self@[j].0 == self@[i].0);
            assert(self.entries()[j].0 == self.entries()[i].0);
        }
    }
}

impl<T: View> View for NameTable<T> {
    type V = Seq<(Seq<char>, T::V)>;

    /// The names with the views of their records, in order of first
    /// appearance.
    open spec fn view(&self) -> Seq<(Seq<char>, T::V)> {
        name_rows(self.entries())
    }
}

impl<T: View> NameTable<T> {
    /// What a well-formed table and its view have in common.
    pub proof fn lemma_view(&self)
        requires
            self.wf(),
        ensures
            self@.len() == self.entries().len(),
            forall|i: int|
                0 <= i < self.entries().len() ==> (#[trigger] self@[i]) == (
                    self.entries()[i].0@,
                    self.entries()[i].1@,
                ),
            names_distinct(self@),
            forall|name: Seq<char>| self.has(name) == #[trigger] name_known(self@, name),
            forall|i: int|
                0 <= i < self@.len() ==> name_slot(self@, (#[trigger] self@[i]).0) == i,
    {
        self.lemma_names_distinct();
        assert forall|name: Seq<char>| self.has(name) == #[trigger] name_known(self@, name) by {
            if self.has(name) {
                let i = choose|i: int|
                    0 <= i < self.entries().len() && (#[trigger] self.entries()[i]).0@ == name;
                assert(self@[i].0 == name);
            }
            if name_known(self@, name) {
                let i = choose|i: int| 0 <= i < self@.len() && (#[trigger] self@[i]).0 == name;
                assert(self.entries()[i].0@ == name);
            }
        }
        assert forall|i: int| 0 <= i < self@.len() implies name_slot(
            self@,
            (#[trigger] self@[i]).0,
        ) == i by {
            let j = name_slot(self@, self@[i].0);
            assert(self@[j].0 == self@[i].0);
            assert(self.entries()[j].0@ == self.entries()[i].0@);
        }
    }
}

/// Records keyed by a name, each name at most once.
#[derive(Debug)]
pub struct NameTable<T> {
    items: Vec<(String, T)>,
    index: NameIndex,
}

impl<T: View> NameTable<T> {
    /// The index and the records agree: every record is indexed at its own
    /// slot, and the index holds nothing else.
    pub closed spec fn wf(&self) -> bool {
        &&& forall|i: int|
            0 <= i < self.items@.len() ==> {
                &&& name_slots(self.index).dom().contains((#[trigger] self.items@[i]).0@)
                &&& name_slots(self.index)[self.items@[i].0@] == i
            }
        &&& forall|k: Seq<char>| #[trigger]
            name_slots(self.index).dom().contains(k) ==> {
                &&& 0 <= name_slots(self.index)[k] < self.items@.len()
                &&& self.items@[name_slots(self.index)[k] as int].0@ == k
            }
    }

    /// The records with their names, in order of first appearance.
    pub closed spec fn entries(&self) -> Seq<(String, T)> {
        self.items@
    }

    /// Whether a record is kept under `name`.
    pub open spec fn has(&self, name: Seq<char>) -> bool {
        exists|i: int| 0 <= i < self.entries().len() && (#[trigger] self.entries()[i]).0@ == name
    }

    /// In a well-formed table no name occurs twice.
    pub proof fn lemma_names_distinct(&self)
        requires
            self.wf(),
        ensures
            forall|i: int, j: int|
                0 <= i < self.entries().len() && 0 <= j < self.entries().len() && (
                #[trigger] self.entries()[i]).0@ == (#[trigger] self.entries()[j]).0@ ==> i == j,
    {
    }

    pub fn new() -> (table: Self)
        ensures
            table.wf(),
            table.entries() == Seq::<(String, T)>::empty(),
            table@ == Seq::<(Seq<char>, T::V)>::empty(),
    {
        NameTable { items: Vec::new(), index: NameIndex::new() }
    }

    pub fn len(&self) -> (n: usize)
        ensures
            n == self.entries().len(),
    {
        self.items.len()
    }

    /// The slot of the record kept under `name`.
    pub fn find(&self, name: &str) -> (slot: Option<usize>)
        requires
            self.wf(),
        ensures
            match slot {
                Some(i) => i < self.entries().len() && self.entries()[i as int].0@ == name@,
                None => !self.has(name@),
            },
            match slot {
                Some(i) => name_known(self@, name@) && i == name_slot(self@, name@),
                None => !name_known(self@, name@),
            },
    {
        proof {
            self.lemma_view();
        }
        let slot = self.index.lookup(name);
        proof {
            if let Some(i) = slot {
                assert(self@[i as int].0 == name@);
            }
        }
        slot
    }

    pub fn name_at(&self, slot: usize) -> (name: &String)
        requires
            slot < self.entries().len(),
        ensures
            *name == self.entries()[slot as int].0,
            name@ == self@[slot as int].0,
    {
        &self.items[slot].0
    }

    pub fn get(&self, slot: usize) -> (record: &T)
        requires
            slot < self.entries().len(),
        ensures
            *record == self.entries()[slot as int].1,
            record@ == self@[slot as int].1,
    {
        &self.items[slot].1
    }

    /// Mutable access to the record in `slot`; its name stays.
    pub fn get_mut(&mut self, slot: usize) -> (record: &mut T)
        requires
            slot < old(self).entries().len(),
        ensures
            *record == old(self).entries()[slot as int].1,
            final(self).entries() == old(self).entries().update(
                slot as int,
                (old(self).entries()[slot as int].0, *final(record)),
            ),
            final(self)@ == old(self)@.update(
                slot as int,
                (old(self)@[slot as int].0, final(record)@),
            ),
            old(self).wf() ==> final(self).wf(),
    {
        proof {
            let before = self.entries();
            let name = before[slot as int].0;
            assert forall|r: T| #[trigger]
                name_rows(before.update(slot as int, (name, r))) == name_rows(before).update(
                    slot as int,
                    (name@, r@),
                ) by {
                assert(name_rows(before.update(slot as int, (name, r))) =~= name_rows(
                    before,
                ).update(slot as int, (name@, r@)));
            }
        }
        &mut self.items[slot].1
    }

    /// Appends a record under `name`, unless the table holds one under that
    /// name already: then the table stays as it is.
    pub fn insert(&mut self, name: String, record: T) -> (added: bool)
        requires
            old(self).wf(),
        ensures
            final(self).wf(),
            added == !name_known(old(self)@, name@),
            added ==> final(self).entries() == old(self).entries().push((name, record)),
            added ==> final(self)@ == old(self)@.push((name@, record@)),
            !added ==> final(self).entries() == old(self).entries() && final(self)@ == old(self)@,
    {
        match self.find(name.as_str()) {
            Some(_) => false,
            None => {
                self.insert_new(name, record);
                true
            },
        }
    }

    /// Appends a record under a name that the table does not hold yet.
    pub fn insert_new(&mut self, name: String, record: T)
        requires
            old(self).wf(),
            !old(self).has(name@),
        ensures
            final(self).wf(),
            final(self).entries() == old(self).entries().push((name, record)),
            final(self)@ == old(self)@.push((name@, record@)),
    {
        proof {
            if name_slots(self.index).dom().contains(name@) {
                let held = name_slots(self.index)[name@] as int;
                assert(self.entries()[held].0@ == name@);
            }
        }
        let slot = self.items.len();
        let key = name.clone();
        self.items.push((name, record));
        self.index.record(key, slot);
        proof {
            assert(self@ =~= old(self)@.push((name@, record@)));
        }
    }
}

} // verus!
