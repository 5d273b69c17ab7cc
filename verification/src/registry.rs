//! Registry of workers and the generator of their IDs.

use vstd::prelude::*;

use crate::window::track::{next_counter, Id, Workers};

verus! {

/// Registry of workers.
pub struct Registry(pub Workers);

impl Registry {
    /// Creates an empty registry.
    pub fn new() -> (registry: Self)
        ensures
            registry.0.entries().is_empty(),
    {
        let workers = Workers::new();
        assert(workers.entries() =~= Map::empty());
        Registry(workers)
    }
}

/// Generator of worker IDs.
#[derive(Debug)]
pub struct IdGenerator(pub usize);

impl IdGenerator {
    /// Creates the generator, starting at `0`.
    pub fn init() -> (generator: Self)
        ensures
            generator.0 == 0,
    {
        IdGenerator(0)
    }

    /// Returns the next ID.
    pub fn next(&mut self) -> (id: Id)
        ensures
            id.0 == old(self).0,
            final(self).0 == next_counter(old(self).0),
    {
        let id = self.0;
        self.0 = self.0.wrapping_add(1);
        Id(id)
    }
}

} // verus!
