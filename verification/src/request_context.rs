//! The context value that identifies a work request in its completion.

use vstd::prelude::*;

verus! {

/// The context of a work request, returned with its completion.
#[derive(Debug, Clone, Copy, PartialEq, Eq, Structural)]
pub struct RequestContext(pub u128);

impl Default for RequestContext {
    /// The context 0.
    fn default() -> (r: Self)
        ensures
            r.0 == 0,
    {
        RequestContext(0)
    }
}

impl RequestContext {
    /// The pointer-sized value handed to the provider as the request
    /// context: the context truncated to the width of an address.
    pub fn as_ptr(&self) -> (r: usize)
        ensures
            r == self.0 as usize,
    {
        self.0 as usize
    }
}

} // verus!
