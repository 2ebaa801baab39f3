//! The `QueuePair` handle.

use vstd::prelude::*;

verus! {

/// A queue pair (`IND2QueuePair`), held through the owned interface
/// reference `H`.
#[derive(Clone)]
pub struct QueuePair<H> {
    handle: H,
}

impl<H> QueuePair<H> {
    /// The interface reference this value holds.
    pub closed spec fn spec_handle(&self) -> H {
        self.handle
    }

    /// Takes ownership of an interface reference.
    pub fn from(handle: H) -> (r: Self)
        ensures
            r.spec_handle() == handle,
    {
        QueuePair { handle }
    }

    /// The interface reference.
    pub fn handle(&self) -> (r: &H)
        ensures
            *r == self.spec_handle(),
    {
        &self.handle
    }
}

} // verus!
