//! The devices that a session has brought to life.

use std::collections::HashSet;
use vstd::prelude::*;

verus! {

broadcast use vstd::std_specs::hash::group_hash_axioms;

/// The identifiers of the devices that exist on this client. The server
/// assigns them, and none occurs twice.
pub struct Registry {
    ids: HashSet<u64>,
}

impl View for Registry {
    type V = Set<u64>;

    closed spec fn view(&self) -> Set<u64> {
        self.ids@
    }
}

impl Registry {
    /// A registry without devices.
    pub fn new() -> (registry: Registry)
        ensures
            registry@ == Set::<u64>::empty(),
    {
        Registry { ids: HashSet::new() }
    }

    /// Registers `id` and tells whether it was new. An identifier that is
    /// already registered stays registered once.
    pub fn insert(&mut self, id: u64) -> (fresh: bool)
        ensures
            final(self)@ == old(self)@.insert(id),
            fresh == !old(self)@.contains(id),
    {
        self.ids.insert(id)
    }

    /// Takes `id` out and tells whether it was registered. Other identifiers
    /// stay as they are.
    pub fn remove(&mut self, id: u64) -> (present: bool)
        ensures
            final(self)@ == old(self)@.remove(id),
            present == old(self)@.contains(id),
    {
        self.ids.remove(&id)
    }

    /// Whether `id` is registered.
    pub fn contains(&self, id: u64) -> (present: bool)
        ensures
            present == self@.contains(id),
    {
        self.ids.contains(&id)
    }

    /// Forgets every device.
    pub fn clear(&mut self)
        ensures
            final(self)@ == Set::<u64>::empty(),
    {
        self.ids.clear()
    }

    /// The number of devices.
    pub fn len(&self) -> (count: usize)
        ensures
            count == self@.len(),
    {
        self.ids.len()
    }

    /// Whether there is no device.
    pub fn is_empty(&self) -> (empty: bool)
        ensures
            empty == self@.is_empty(),
    {
        self.ids.is_empty()
    }
}

} // verus!
