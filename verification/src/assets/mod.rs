//! Lazily filled tables of loaded resources.
//!
//! A resource is loaded the first time its identifier is requested and kept
//! for the rest of the run. Loading itself is the caller's business: a table
//! is handed a loader with each request and calls it only when the identifier
//! is new.

pub mod ident;
pub mod index;

use vstd::prelude::*;

use crate::assets::ident::smol_new;
use crate::assets::index::{index_entries, index_get, index_insert, index_new, NameIndex};
use crate::refs::each_mut;

verus! {

/// Mathematical state of a [`ResourceMap`]: the identifiers in the order in
/// which they were first requested, and the resource loaded for each.
pub struct ResourceMapView<T> {
    /// Identifier of each slot.
    pub names: Seq<Seq<char>>,
    /// Resource in each slot.
    pub resources: Seq<T>,
}

impl<T> ResourceMapView<T> {
    /// Every slot has an identifier and a resource, and no identifier has two
    /// slots.
    pub open spec fn wf(self) -> bool {
        &&& self.names.len() == self.resources.len()
        &&& self.names.no_duplicates()
    }

    /// Whether a resource is loaded for the identifier.
    pub open spec fn contains(self, name: Seq<char>) -> bool {
        self.names.contains(name)
    }

    /// Slot of an identifier that a resource is loaded for.
    pub open spec fn slot_of(self, name: Seq<char>) -> int {
        self.names.index_of(name)
    }

    /// Resource loaded for an identifier.
    pub open spec fn resource_of(self, name: Seq<char>) -> T {
        self.resources[self.slot_of(name)]
    }

    /// The table as a map from identifiers to resources.
    pub open spec fn as_map(self) -> Map<Seq<char>, T> {
        Map::new(|name: Seq<char>| self.contains(name), |name: Seq<char>| self.resource_of(name))
    }

    /// State after a request for `name`, if the loader would hand out
    /// `loaded`: a table that has the identifier stays as it is, any other
    /// gets a new last slot with the loaded resource.
    pub open spec fn request(self, name: Seq<char>, loaded: T) -> ResourceMapView<T> {
        if self.contains(name) {
            self
        } else {
            ResourceMapView {
                names: self.names.push(name),
                resources: self.resources.push(loaded),
            }
        }
    }
}

/// Table of loaded resources by identifier.
///
/// Entries are never removed or replaced, so the slot of a resource names it
/// for the rest of the run.
pub struct ResourceMap<T> {
    /// Slot of each identifier.
    index: NameIndex,
    /// Resource in each slot.
    resources: Vec<T>,
    /// Identifier of each slot.
    names: Ghost<Seq<Seq<char>>>,
}

impl<T> View for ResourceMap<T> {
    type V = ResourceMapView<T>;

    closed spec fn view(&self) -> ResourceMapView<T> {
        ResourceMapView { names: self.names@, resources: self.resources@ }
    }
}

impl<T> ResourceMap<T> {
    /// The index leads from each identifier to its slot, and holds nothing
    /// else.
    pub closed spec fn wf(&self) -> bool {
        let entries = index_entries(self.index);
        &&& self@.wf()
        &&& forall|name: Seq<char>| #[trigger]
            entries.dom().contains(name) <==> self.names@.contains(name)
        &&& forall|slot: int|
            0 <= slot < self.names@.len() ==> #[trigger] entries[self.names@[slot]] == slot
    }

    /// A well-formed table has a well-formed state.
    pub proof fn lemma_wf_view(&self)
        requires
            self.wf(),
        ensures
            self@.wf(),
    {
    }

    /// Table without any resource.
    pub fn new() -> (table: Self)
        ensures
            table.wf(),
            table@.names == Seq::<Seq<char>>::empty(),
            table@.resources == Seq::<T>::empty(),
    {
        ResourceMap { index: index_new(), resources: Vec::new(), names: Ghost(Seq::empty()) }
    }

    /// Number of resources loaded.
    pub fn len(&self) -> (len: usize)
        requires
            self.wf(),
        ensures
            len == self@.resources.len(),
            len == self@.names.len(),
    {
        self.resources.len()
    }

    /// Slot of the resource loaded for an identifier, if there is one.
    pub fn slot(&self, name: &str) -> (slot: Option<usize>)
        requires
            self.wf(),
        ensures
            slot.is_some() == self@.contains(name@),
            slot.is_some() ==> slot.unwrap() == self@.slot_of(name@),
            slot.is_some() ==> slot.unwrap() < self@.resources.len(),
    {
        let slot = index_get(&self.index, name);
        proof {
            if slot.is_some() {
                let found = self.names@.index_of(name@);
                assert(self.names@[found] == name@);
            }
        }
        slot
    }

    /// Whether a resource is loaded for an identifier.
    pub fn contains_key(&self, name: &str) -> (loaded: bool)
        requires
            self.wf(),
        ensures
            loaded == self@.contains(name@),
    {
        self.slot(name).is_some()
    }

    /// The resource loaded for an identifier, if there is one.
    pub fn get(&self, name: &str) -> (resource: Option<&T>)
        requires
            self.wf(),
        ensures
            resource.is_some() == self@.contains(name@),
            resource.is_some() ==> *resource.unwrap() == self@.resource_of(name@),
    {
        match self.slot(name) {
            Some(slot) => Some(&self.resources[slot]),
            None => None,
        }
    }

    /// The resource in a slot.
    pub fn resource(&self, slot: usize) -> (resource: &T)
        requires
            self.wf(),
            slot < self@.resources.len(),
        ensures
            *resource == self@.resources[slot as int],
    {
        &self.resources[slot]
    }

    /// A mutable reference to every resource of the table, in the order of the
    /// slots.
    ///
    /// Resources can be changed through the references. Which identifiers
    /// there are and which slot each has cannot.
    pub fn each_mut(&mut self) -> (each: Vec<&mut T>)
        requires
            old(self).wf(),
        ensures
            final(self).wf(),
            final(self)@.names == old(self)@.names,
            each@.len() == old(self)@.resources.len(),
            forall|i: int|
                0 <= i < each@.len() ==> *(#[trigger] each@[i]) == old(self)@.resources[i],
            final(self)@.resources.len() == each@.len(),
            forall|i: int|
                0 <= i < each@.len() ==> final(self)@.resources[i] == *final(#[trigger] each@[i]),
    {
        each_mut(self.resources.as_mut_slice())
    }

    /// Request the resource of an identifier, loading it if this is the first
    /// request.
    ///
    /// When a resource is loaded for the identifier already, the result is its
    /// slot, the loader is not called and nothing changes. Otherwise the
    /// loader is called once. What it loads goes into a new last slot, which
    /// is the result. If it fails, its error is the result and nothing
    /// changes.
    pub fn get_or_load<E, F: FnOnce(&str) -> Result<T, E>>(&mut self, name: &str, load: F) -> (slot:
        Result<usize, E>)
        requires
            old(self).wf(),
            !old(self)@.contains(name@) ==> load.requires((name,)),
        ensures
            final(self).wf(),
            match slot {
                Ok(slot) => {
                    &&& final(self)@.contains(name@)
                    &&& slot == final(self)@.slot_of(name@)
                    &&& slot < final(self)@.resources.len()
                    &&& final(self)@ == old(self)@.request(
                        name@,
                        final(self)@.resources[slot as int],
                    )
                    &&& !old(self)@.contains(name@) ==> load.ensures(
                        (name,),
                        Ok(final(self)@.resources[slot as int]),
                    )
                },
                Err(error) => {
                    &&& !old(self)@.contains(name@)
                    &&& load.ensures((name,), Err(error))
                    &&& final(self)@ == old(self)@
                },
            },
    {
        match self.slot(name) {
            Some(slot) => Ok(slot),
            None => {
                match load(name) {
                    Ok(resource) => {
                        let slot: usize = self.resources.len();
                        index_insert(&mut self.index, smol_new(name), slot);
                        self.resources.push(resource);
                        self.names = Ghost(self.names@.push(name@));
                        proof {
                            let names = self.names@;
                            let before = old(self).names@;
                            assert(names.no_duplicates()) by {
                                assert forall|i: int, j: int|
                                    0 <= i < names.len() && 0 <= j < names.len() && i
                                        != j implies names[i] != names[j] by {
                                    if i < before.len() {
                                        assert(before.contains(before[i]));
                                    }
                                    if j < before.len() {
                                        assert(before.contains(before[j]));
                                    }
                                }
                            }
                            assert forall|other: Seq<char>| #[trigger]
                                index_entries(self.index).dom().contains(other)
                                    <==> names.contains(other) by {
                                if before.contains(other) {
                                    let at = before.index_of(other);
                                    assert(names[at] == other);
                                }
                                if names.contains(other) && other != name@ {
                                    let at = names.index_of(other);
                                    assert(before[at] == other);
                                }
                                assert(names[slot as int] == name@);
                            }
                            assert forall|at: int| 0 <= at < names.len() implies #[trigger]
                                index_entries(self.index)[names[at]] == at by {
                                if at < before.len() {
                                    assert(before.contains(before[at]));
                                }
                            }
                            assert(self@.resources == old(self)@.resources.push(
                                self@.resources[slot as int],
                            ));
                            assert(names[slot as int] == name@);
                            assert(names[names.index_of(name@)] == name@);
                        }
                        Ok(slot)
                    },
                    Err(error) => Err(error),
                }
            },
        }
    }
}

/// Resource cache: a second request for an identifier finds the resource of
/// the first request in the same slot and changes nothing, whatever a loader
/// would hand out by then. Only the first request of an identifier ever uses
/// what is loaded.
pub proof fn lemma_request_is_idempotent<T>(
    table: ResourceMapView<T>,
    name: Seq<char>,
    first: T,
    second: T,
)
    requires
        table.wf(),
    ensures
        ({
            let once = table.request(name, first);
            let twice = once.request(name, second);
            &&& once.wf()
            &&& once.contains(name)
            &&& twice == once
            &&& twice.slot_of(name) == once.slot_of(name)
            &&& !table.contains(name) ==> once.resource_of(name) == first
            &&& table.contains(name) ==> once.resource_of(name) == table.resource_of(name)
        }),
{
    let once = table.request(name, first);
    if !table.contains(name) {
        let last = table.names.len() as int;
        assert(once.names[last] == name);
        assert(once.names.no_duplicates()) by {
            assert forall|i: int, j: int|
                0 <= i < once.names.len() && 0 <= j < once.names.len() && i != j implies once.names[i]
                != once.names[j] by {
                if i < last {
                    assert(table.names.contains(table.names[i]));
                }
                if j < last {
                    assert(table.names.contains(table.names[j]));
                }
            }
        }
        let found = once.names.index_of(name);
        assert(once.names[found] == name);
        assert(found == last);
    }
}

/// As a map, a table that is requested a new identifier gains the entry of
/// that identifier with what was loaded, and a table that is requested an
/// identifier that it has stays the same map.
pub proof fn lemma_request_as_map<T>(table: ResourceMapView<T>, name: Seq<char>, loaded: T)
    requires
        table.wf(),
    ensures
        table.contains(name) ==> table.request(name, loaded).as_map() == table.as_map(),
        !table.contains(name) ==> table.request(name, loaded).as_map() == table.as_map().insert(
            name,
            loaded,
        ),
{
    let after = table.request(name, loaded);
    lemma_request_is_idempotent(table, name, loaded, loaded);
    if !table.contains(name) {
        assert forall|other: Seq<char>| after.contains(other) <==> (other == name
            || table.contains(other)) by {
            if table.contains(other) {
                let slot = table.names.index_of(other);
                assert(after.names[slot] == other);
            }
            if after.contains(other) && other != name {
                let slot = after.names.index_of(other);
                assert(table.names[slot] == other);
            }
        }
        assert forall|other: Seq<char>| table.contains(other) implies after.resource_of(other)
            == table.resource_of(other) by {
            let slot = table.names.index_of(other);
            assert(after.names[slot] == other);
            assert(after.names[after.names.index_of(other)] == other);
        }
        assert(after.as_map() =~= table.as_map().insert(name, loaded));
    }
}

/// A table only grows: a request keeps every resource that was loaded before
/// it in its slot.
pub proof fn lemma_request_keeps_resources<T>(
    table: ResourceMapView<T>,
    name: Seq<char>,
    loaded: T,
    slot: int,
)
    requires
        table.wf(),
        0 <= slot < table.resources.len(),
    ensures
        table.request(name, loaded).names[slot] == table.names[slot],
        table.request(name, loaded).resources[slot] == table.resources[slot],
        table.request(name, loaded).resources.len() >= table.resources.len(),
{
}

} // verus!
