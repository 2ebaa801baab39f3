//! The `MemoryWindow` handle.

use vstd::prelude::*;

verus! {

/// A memory window (`IND2MemoryWindow`), held through the owned interface
/// reference `H`.
#[derive(Clone)]
pub struct MemoryWindow<H> {
    handle: H,
}

impl<H> MemoryWindow<H> {
    /// The interface reference this value holds.
    pub closed spec fn spec_handle(&self) -> H {
        self.handle
    }

    /// Takes ownership of an interface reference.
    pub fn from(handle: H) -> (r: Self)
        ensures
            r.spec_handle() == handle,
    {
        MemoryWindow { handle }
    }

    /// The interface reference.
    pub fn handle(&self) -> (r: &H)
        ensures
            *r == self.spec_handle(),
    {
        &self.handle
    }
}

} // verus!
