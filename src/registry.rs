//! The process-wide tables that map a native identifier (a session or a
//! tracker) back to the wrapper state kept for it, so that a native event,
//! which carries only the raw identifier, can reach the right wrapper.
use vstd::prelude::*;

verus! {

use std::collections::HashMap;

broadcast use vstd::std_specs::hash::group_hash_axioms;

/// A table from native identifiers to wrapper state. Entries are inserted
/// when a session or tracker opens and removed when it closes.
pub struct Registry<V> {
    entries: HashMap<u64, V>,
}

impl<V> View for Registry<V> {
    type V = Map<u64, V>;

    closed spec fn view(&self) -> Map<u64, V> {
        self.entries@
    }
}

impl<V> Registry<V> {
    /// An empty table.
    pub fn new() -> (r: Self)
        ensures
            r@ == Map::<u64, V>::empty(),
    {
        Registry { entries: HashMap::new() }
    }

    /// Records the state for `id`, replacing any earlier entry.
    pub fn insert(&mut self, id: u64, value: V)
        ensures
            final(self)@ == old(self)@.insert(id, value),
    {
        self.entries.insert(id, value);
    }

    /// Forgets `id`, handing back what was recorded for it.
    pub fn remove(&mut self, id: u64) -> (r: Option<V>)
        ensures
            final(self)@ == old(self)@.remove(id),
            match r {
                Some(v) => old(self)@.contains_key(id) && v == old(self)@[id],
                None => !old(self)@.contains_key(id),
            },
    {
        self.entries.remove(&id)
    }

    /// The state recorded for `id`, if any.
    pub fn lookup(&self, id: u64) -> (r: Option<&V>)
        ensures
            match r {
                Some(v) => self@.contains_key(id) && *v == self@[id],
                None => !self@.contains_key(id),
            },
    {
        self.entries.get(&id)
    }

    /// Whether `id` has an entry.
    pub fn contains(&self, id: u64) -> (r: bool)
        ensures
            r == self@.contains_key(id),
    {
        self.entries.contains_key(&id)
    }
}

} // verus!
