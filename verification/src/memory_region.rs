//! Memory regions, the buffers they register and their tokens.

use vstd::prelude::*;

verus! {

/// The token by which a peer reaches a registered region or bound window.
#[derive(Debug, Clone, Copy, PartialEq, Eq, Structural)]
pub struct RemoteToken(pub u32);

/// The token by which local requests refer to a registered region.
#[derive(Debug, Clone, Copy, PartialEq, Eq, Structural)]
pub struct LocalToken(pub u32);

/// Memory that a region registers: its first byte and its length.
pub trait Buffer {
    /// The address of the first byte.
    fn as_ptr(&self) -> usize;

    /// The number of bytes.
    fn byte_len(&self) -> usize;
}

/// A memory region (`IND2MemoryRegion`) with the buffer it registers, held
/// through the owned interface reference `H`.
pub struct MemoryRegion<H, T: Buffer> {
    handle: H,
    pub buffer: T,
}

impl<H, T: Buffer> MemoryRegion<H, T> {
    /// The interface reference this value holds.
    pub closed spec fn spec_handle(&self) -> H {
        self.handle
    }

    /// The buffer this region registers.
    pub closed spec fn spec_buffer(&self) -> T {
        self.buffer
    }

    /// Takes ownership of an interface reference and of the buffer to register.
    pub fn from(handle: H, buffer: T) -> (r: Self)
        ensures
            r.spec_handle() == handle,
            r.spec_buffer() == buffer,
    {
        MemoryRegion { handle, buffer }
    }

    /// The interface reference.
    pub fn handle(&self) -> (r: &H)
        ensures
            *r == self.spec_handle(),
    {
        &self.handle
    }
}

} // verus!
