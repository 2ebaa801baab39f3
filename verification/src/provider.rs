//! NetworkDirect providers.

use vstd::prelude::*;

verus! {

/// A NetworkDirect provider (`IND2Provider`), held through the interface
/// reference `H`.
#[derive(Debug)]
pub struct Provider<H> {
    handle: H,
}

impl<H> Provider<H> {
    /// The interface reference this value holds.
    pub closed spec fn spec_handle(&self) -> H {
        self.handle
    }

    /// Takes the interface reference of a provider.
    pub fn from(handle: H) -> (r: Self)
        ensures
            r.spec_handle() == handle,
    {
        Provider { handle }
    }

    /// The interface reference.
    pub fn handle(&self) -> (r: &H)
        ensures
            *r == self.spec_handle(),
    {
        &self.handle
    }
}

} // verus!
