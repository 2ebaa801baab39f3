//! The `Listener` handle.

use vstd::prelude::*;

verus! {

/// A listener for incoming connections (`IND2Listener`), held through the
/// owned interface reference `H`.
#[derive(Clone)]
pub struct Listener<H> {
    handle: H,
}

impl<H> Listener<H> {
    /// The interface reference this value holds.
    pub closed spec fn spec_handle(&self) -> H {
        self.handle
    }

    /// Takes ownership of an interface reference.
    pub fn from(handle: H) -> (r: Self)
        ensures
            r.spec_handle() == handle,
    {
        Listener { handle }
    }

    /// The interface reference.
    pub fn handle(&self) -> (r: &H)
        ensures
            *r == self.spec_handle(),
    {
        &self.handle
    }
}

} // verus!
