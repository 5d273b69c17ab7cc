//! Thread builder: the name given to the spawned thread.

use vstd::prelude::*;

use crate::thread::global::ThreadError;

verus! {

/// See `std::thread::Builder`.
#[derive(Debug)]
pub struct Builder {
    /// Name of the thread.
    pub name: Option<String>,
}

impl Builder {
    /// See `std::thread::Builder::new()`.
    pub fn new() -> (builder: Self)
        ensures
            builder.name is None,
    {
        Builder { name: None }
    }

    /// See `std::thread::Builder::name()`.
    pub fn name(self, name: String) -> (builder: Self)
        ensures
            builder.name == Some(name),
    {
        Builder { name: Some(name) }
    }

    /// Spawning without the atomics target feature: not supported.
    pub fn spawn_without_atomics<E>(self) -> (result: Result<(), ThreadError<E>>)
        ensures
            result matches Err(ThreadError::NoAtomics),
    {
        Err(ThreadError::NoAtomics)
    }
}

} // verus!
