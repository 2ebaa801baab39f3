//! The `Adapter` handle.

use vstd::prelude::*;

verus! {

/// An opened NetworkDirect adapter (`IND2Adapter`). `H` is the owned
/// interface reference: cloning the adapter clones it, dropping the adapter
/// drops it.
#[derive(Clone)]
pub struct Adapter<H> {
    handle: H,
}

impl<H> Adapter<H> {
    /// The interface reference this value holds.
    pub closed spec fn spec_handle(&self) -> H {
        self.handle
    }

    /// Takes ownership of an interface reference.
    pub fn from(handle: H) -> (r: Self)
        ensures
            r.spec_handle() == handle,
    {
        Adapter { handle }
    }

    /// The interface reference.
    pub fn handle(&self) -> (r: &H)
        ensures
            *r == self.spec_handle(),
    {
        &self.handle
    }
}

} // verus!
