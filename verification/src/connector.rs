//! Connectors and the read limits of a connection.

use vstd::prelude::*;

verus! {

/// The numbers of RDMA reads a connection allows in each direction.
#[derive(Debug, Clone, PartialEq, Eq, Structural)]
pub struct ReadLimits {
    pub inbound_read_limit: u32,
    pub outbound_read_limit: u32,
}

impl Default for ReadLimits {
    /// No read in either direction.
    fn default() -> (r: Self)
        ensures
            r.inbound_read_limit == 0,
            r.outbound_read_limit == 0,
    {
        ReadLimits { inbound_read_limit: 0, outbound_read_limit: 0 }
    }
}

/// A connector (`IND2Connector`), held through the owned interface
/// reference `H`.
#[derive(Clone)]
pub struct Connector<H> {
    handle: H,
}

impl<H> Connector<H> {
    /// The interface reference this value holds.
    pub closed spec fn spec_handle(&self) -> H {
        self.handle
    }

    /// Takes ownership of an interface reference.
    pub fn from(handle: H) -> (r: Self)
        ensures
            r.spec_handle() == handle,
    {
        Connector { handle }
    }

    /// The interface reference.
    pub fn handle(&self) -> (r: &H)
        ensures
            *r == self.spec_handle(),
    {
        &self.handle
    }
}

} // verus!
