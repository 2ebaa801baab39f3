//! Flag sets of the memory-registration and work-request calls.
//!
//! Each set is a `u32` of `ND_MR_FLAG_*` or `ND_OP_FLAG_*` bits; the bits
//! that its flags define are its known bits. As with `bitflags`, a set may
//! be built from any bits (`from_bits_retain`), from known bits only
//! (`from_bits`), or from the known part of any bits (`from_bits_truncate`).

use vstd::prelude::*;

verus! {

/// `ND_MR_FLAG_ALLOW_LOCAL_WRITE`.
pub const ND_MR_FLAG_ALLOW_LOCAL_WRITE: u32 = 0x1;

/// `ND_MR_FLAG_ALLOW_REMOTE_READ`.
pub const ND_MR_FLAG_ALLOW_REMOTE_READ: u32 = 0x2;

/// `ND_MR_FLAG_ALLOW_REMOTE_WRITE` (remote write includes local write).
pub const ND_MR_FLAG_ALLOW_REMOTE_WRITE: u32 = 0x5;

/// `ND_MR_FLAG_RDMA_READ_SINK`.
pub const ND_MR_FLAG_RDMA_READ_SINK: u32 = 0x8;

/// `ND_MR_FLAG_DO_NOT_SECURE_VM`.
pub const ND_MR_FLAG_DO_NOT_SECURE_VM: u32 = 0x80000000;

/// `ND_OP_FLAG_SILENT_SUCCESS`.
pub const ND_OP_FLAG_SILENT_SUCCESS: u32 = 0x1;

/// `ND_OP_FLAG_READ_FENCE`.
pub const ND_OP_FLAG_READ_FENCE: u32 = 0x2;

/// `ND_OP_FLAG_SEND_AND_SOLICIT_EVENT`.
pub const ND_OP_FLAG_SEND_AND_SOLICIT_EVENT: u32 = 0x4;

/// `ND_OP_FLAG_ALLOW_READ`.
pub const ND_OP_FLAG_ALLOW_READ: u32 = 0x8;

/// `ND_OP_FLAG_ALLOW_WRITE`.
pub const ND_OP_FLAG_ALLOW_WRITE: u32 = 0x10;

/// `ND_OP_FLAG_INLINE`.
pub const ND_OP_FLAG_INLINE: u32 = 0x20;

/// The operations of a flag set, given its bits and its known bits.
pub trait FlagSet: Sized {
    /// The bits of all flags the set defines.
    spec fn spec_known() -> u32;

    /// The bits of this value.
    spec fn spec_bits(&self) -> u32;

    /// See `spec_known`.
    fn known() -> (m: u32)
        ensures
            m == Self::spec_known(),
    ;

    /// The bits of this value.
    fn bits(&self) -> (b: u32)
        ensures
            b == self.spec_bits(),
    ;

    /// A value with exactly these bits, known or not.
    fn from_bits_retain(bits: u32) -> (s: Self)
        ensures
            s.spec_bits() == bits,
    ;

    /// No flag.
    fn empty() -> (s: Self)
        ensures
            s.spec_bits() == 0,
    {
        Self::from_bits_retain(0)
    }

    /// Every flag the set defines.
    fn all() -> (s: Self)
        ensures
            s.spec_bits() == Self::spec_known(),
    {
        Self::from_bits_retain(Self::known())
    }

    /// The value with these bits, if they are all known.
    fn from_bits(bits: u32) -> (r: Option<Self>)
        ensures
            r is Some <==> bits & Self::spec_known() == bits,
            r matches Some(s) ==> s.spec_bits() == bits,
    {
        if bits & Self::known() == bits {
            Some(Self::from_bits_retain(bits))
        } else {
            None
        }
    }

    /// The value with the known part of these bits.
    fn from_bits_truncate(bits: u32) -> (s: Self)
        ensures
            s.spec_bits() == bits & Self::spec_known(),
    {
        Self::from_bits_retain(bits & Self::known())
    }

    /// Whether no bit is set.
    fn is_empty(&self) -> (r: bool)
        ensures
            r == (self.spec_bits() == 0),
    {
        self.bits() == 0
    }

    /// Whether every bit of `other` is set here.
    fn contains(&self, other: &Self) -> (r: bool)
        ensures
            r == (self.spec_bits() & other.spec_bits() == other.spec_bits()),
    {
        self.bits() & other.bits() == other.bits()
    }

    /// Whether some bit of `other` is set here.
    fn intersects(&self, other: &Self) -> (r: bool)
        ensures
            r == (self.spec_bits() & other.spec_bits() != 0),
    {
        self.bits() & other.bits() != 0
    }

    /// The bits of either.
    fn union(&self, other: &Self) -> (s: Self)
        ensures
            s.spec_bits() == self.spec_bits() | other.spec_bits(),
    {
        Self::from_bits_retain(self.bits() | other.bits())
    }

    /// The bits of both.
    fn intersection(&self, other: &Self) -> (s: Self)
        ensures
            s.spec_bits() == self.spec_bits() & other.spec_bits(),
    {
        Self::from_bits_retain(self.bits() & other.bits())
    }

    /// The bits of this value that `other` does not have.
    fn difference(&self, other: &Self) -> (s: Self)
        ensures
            s.spec_bits() == self.spec_bits() & !other.spec_bits(),
    {
        Self::from_bits_retain(self.bits() & !other.bits())
    }

    /// Sets the bits of `other`.
    fn insert(&mut self, other: &Self)
        ensures
            final(self).spec_bits() == old(self).spec_bits() | other.spec_bits(),
    {
        *self = Self::from_bits_retain(self.bits() | other.bits());
    }

    /// Clears the bits of `other`.
    fn remove(&mut self, other: &Self)
        ensures
            final(self).spec_bits() == old(self).spec_bits() & !other.spec_bits(),
    {
        *self = Self::from_bits_retain(self.bits() & !other.bits());
    }
}

/// What the operations of every flag set keep: a union contains both of its
/// operands and an intersection is contained in both; a difference shares no
/// bit with what was taken away; a set contains itself and the empty set;
/// truncation changes nothing the second time; union and intersection do not
/// depend on the order of their operands.
pub proof fn lemma_flag_set_laws<F: FlagSet>(x: F, y: F)
    ensures
        (x.spec_bits() | y.spec_bits()) & x.spec_bits() == x.spec_bits(),
        (x.spec_bits() | y.spec_bits()) & y.spec_bits() == y.spec_bits(),
        x.spec_bits() & (x.spec_bits() & y.spec_bits()) == x.spec_bits() & y.spec_bits(),
        y.spec_bits() & (x.spec_bits() & y.spec_bits()) == x.spec_bits() & y.spec_bits(),
        (x.spec_bits() & !y.spec_bits()) & y.spec_bits() == 0,
        x.spec_bits() & x.spec_bits() == x.spec_bits(),
        x.spec_bits() & 0 == 0,
        (x.spec_bits() & F::spec_known()) & F::spec_known() == x.spec_bits() & F::spec_known(),
        x.spec_bits() | y.spec_bits() == y.spec_bits() | x.spec_bits(),
        x.spec_bits() & y.spec_bits() == y.spec_bits() & x.spec_bits(),
{
    let a = x.spec_bits();
    let b = y.spec_bits();
    let known = F::spec_known();
    assert((a | b) & a == a) by (bit_vector);
    assert((a | b) & b == b) by (bit_vector);
    assert(a & (a & b) == a & b) by (bit_vector);
    assert(b & (a & b) == a & b) by (bit_vector);
    assert((a & !b) & b == 0) by (bit_vector);
    assert(a & a == a) by (bit_vector);
    assert(a & 0 == 0) by (bit_vector);
    assert((a & known) & known == a & known) by (bit_vector);
    assert(a | b == b | a) by (bit_vector);
    assert(a & b == b & a) by (bit_vector);
}

/// Access that a memory region is registered with
/// (`IND2MemoryRegion::Register`): `ND_MR_FLAG_*` bits.
#[derive(Debug, Clone, Copy, PartialEq, Eq, Structural)]
pub struct RegisterFlags {
    bits: u32,
}

impl FlagSet for RegisterFlags {
    open spec fn spec_known() -> u32 {
        0x8000000f
    }

    closed spec fn spec_bits(&self) -> u32 {
        self.bits
    }

    fn known() -> (m: u32) {
        0x8000000f
    }

    fn bits(&self) -> (b: u32) {
        self.bits
    }

    fn from_bits_retain(bits: u32) -> (s: Self) {
        RegisterFlags { bits }
    }
}

/// Options of a send request (`IND2QueuePair::Send`): silent success,
/// read fence, solicited event, inline data.
#[derive(Debug, Clone, Copy, PartialEq, Eq, Structural)]
pub struct SendFlags {
    bits: u32,
}

impl FlagSet for SendFlags {
    open spec fn spec_known() -> u32 {
        0x27
    }

    closed spec fn spec_bits(&self) -> u32 {
        self.bits
    }

    fn known() -> (m: u32) {
        0x27
    }

    fn bits(&self) -> (b: u32) {
        self.bits
    }

    fn from_bits_retain(bits: u32) -> (s: Self) {
        SendFlags { bits }
    }
}

/// Options of a memory-window bind (`IND2QueuePair::Bind`): silent
/// success, read fence, remote read and remote write access.
#[derive(Debug, Clone, Copy, PartialEq, Eq, Structural)]
pub struct BindFlags {
    bits: u32,
}

impl FlagSet for BindFlags {
    open spec fn spec_known() -> u32 {
        0x1b
    }

    closed spec fn spec_bits(&self) -> u32 {
        self.bits
    }

    fn known() -> (m: u32) {
        0x1b
    }

    fn bits(&self) -> (b: u32) {
        self.bits
    }

    fn from_bits_retain(bits: u32) -> (s: Self) {
        BindFlags { bits }
    }
}

/// Options of a memory-window invalidation (`IND2QueuePair::Invalidate`):
/// silent success, read fence.
#[derive(Debug, Clone, Copy, PartialEq, Eq, Structural)]
pub struct InvalidateFlags {
    bits: u32,
}

impl FlagSet for InvalidateFlags {
    open spec fn spec_known() -> u32 {
        0x3
    }

    closed spec fn spec_bits(&self) -> u32 {
        self.bits
    }

    fn known() -> (m: u32) {
        0x3
    }

    fn bits(&self) -> (b: u32) {
        self.bits
    }

    fn from_bits_retain(bits: u32) -> (s: Self) {
        InvalidateFlags { bits }
    }
}

/// Options of an RDMA read (`IND2QueuePair::Read`): silent success, read
/// fence.
#[derive(Debug, Clone, Copy, PartialEq, Eq, Structural)]
pub struct ReadFlags {
    bits: u32,
}

impl FlagSet for ReadFlags {
    open spec fn spec_known() -> u32 {
        0x3
    }

    closed spec fn spec_bits(&self) -> u32 {
        self.bits
    }

    fn known() -> (m: u32) {
        0x3
    }

    fn bits(&self) -> (b: u32) {
        self.bits
    }

    fn from_bits_retain(bits: u32) -> (s: Self) {
        ReadFlags { bits }
    }
}

/// Options of an RDMA write (`IND2QueuePair::Write`): silent success, read
/// fence, inline data.
#[derive(Debug, Clone, Copy, PartialEq, Eq, Structural)]
pub struct WriteFlags {
    bits: u32,
}

impl FlagSet for WriteFlags {
    open spec fn spec_known() -> u32 {
        0x23
    }

    closed spec fn spec_bits(&self) -> u32 {
        self.bits
    }

    fn known() -> (m: u32) {
        0x23
    }

    fn bits(&self) -> (b: u32) {
        self.bits
    }

    fn from_bits_retain(bits: u32) -> (s: Self) {
        WriteFlags { bits }
    }
}

} // verus!
