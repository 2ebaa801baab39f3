//! Socket addresses and their Windows `SOCKADDR` images.
//!
//! NetworkDirect takes and returns addresses as `SOCKADDR_IN` /
//! `SOCKADDR_IN6` structures. Their layout on Windows (a little-endian
//! platform) is:
//!
//! * `SOCKADDR_IN`, 16 bytes: family (`AF_INET` = 2, little-endian),
//!   port (big-endian), IPv4 address (big-endian), 8 zero bytes.
//! * `SOCKADDR_IN6`, 28 bytes: family (`AF_INET6` = 23, little-endian),
//!   port (big-endian), flow information, IPv6 address (16 bytes,
//!   big-endian), scope identifier (little-endian).
//!
//! An outgoing address is written into a `SOCKADDR_INET` (28 bytes) with the
//! flow information in network order, as `windows` converts a
//! `std::net::SocketAddr`. An incoming address is read with the flow
//! information taken as it lies in memory (host order).

use vstd::prelude::*;

verus! {

/// `AF_INET`.
pub const AF_INET: u16 = 2;

/// `AF_INET6` (Windows value).
pub const AF_INET6: u16 = 23;

/// `size_of::<SOCKADDR_IN>()`.
pub const SOCKADDR_IN_LEN: u32 = 16;

/// `size_of::<SOCKADDR_IN6>()`.
pub const SOCKADDR_IN6_LEN: u32 = 28;

/// `size_of::<SOCKADDR_INET>()`: the buffer that holds either structure.
pub const SOCKADDR_INET_LEN: usize = 28;

/// An IP address; an IPv4 address is its 32-bit value and an IPv6 address
/// its 128-bit value, both read most significant byte first.
#[derive(Debug, Clone, Copy, PartialEq, Eq, Structural)]
pub enum IpAddress {
    V4(u32),
    V6(u128),
}

/// An IP address with a port (and, for IPv6, flow information and scope).
#[allow(inconsistent_fields)]
#[derive(Debug, Clone, Copy, PartialEq, Eq, Structural)]
pub enum SocketAddress {
    V4 { ip: u32, port: u16 },
    V6 { ip: u128, port: u16, flowinfo: u32, scope_id: u32 },
}

impl SocketAddress {
    pub open spec fn spec_ip(self) -> IpAddress {
        match self {
            SocketAddress::V4 { ip, .. } => IpAddress::V4(ip),
            SocketAddress::V6 { ip, .. } => IpAddress::V6(ip),
        }
    }

    pub open spec fn spec_port(self) -> u16 {
        match self {
            SocketAddress::V4 { port, .. } => port,
            SocketAddress::V6 { port, .. } => port,
        }
    }

    /// The IP address.
    pub fn ip(&self) -> (r: IpAddress)
        ensures
            r == self.spec_ip(),
    {
        match self {
            SocketAddress::V4 { ip, .. } => IpAddress::V4(*ip),
            SocketAddress::V6 { ip, .. } => IpAddress::V6(*ip),
        }
    }

    /// The port.
    pub fn port(&self) -> (r: u16)
        ensures
            r == self.spec_port(),
    {
        match self {
            SocketAddress::V4 { port, .. } => *port,
            SocketAddress::V6 { port, .. } => *port,
        }
    }
}

// Byte images of integers.

pub open spec fn be16(x: u16) -> Seq<u8> {
    seq![(x >> 8) as u8, (x & 0xff) as u8]
}

pub open spec fn le32(x: u32) -> Seq<u8> {
    seq![(x & 0xff) as u8, ((x >> 8) & 0xff) as u8, ((x >> 16) & 0xff) as u8, (x >> 24) as u8]
}

pub open spec fn be32(x: u32) -> Seq<u8> {
    seq![(x >> 24) as u8, ((x >> 16) & 0xff) as u8, ((x >> 8) & 0xff) as u8, (x & 0xff) as u8]
}

pub open spec fn be128(x: u128) -> Seq<u8> {
    seq![
        (x >> 120) as u8,
        ((x >> 112) & 0xff) as u8,
        ((x >> 104) & 0xff) as u8,
        ((x >> 96) & 0xff) as u8,
        ((x >> 88) & 0xff) as u8,
        ((x >> 80) & 0xff) as u8,
        ((x >> 72) & 0xff) as u8,
        ((x >> 64) & 0xff) as u8,
        ((x >> 56) & 0xff) as u8,
        ((x >> 48) & 0xff) as u8,
        ((x >> 40) & 0xff) as u8,
        ((x >> 32) & 0xff) as u8,
        ((x >> 24) & 0xff) as u8,
        ((x >> 16) & 0xff) as u8,
        ((x >> 8) & 0xff) as u8,
        (x & 0xff) as u8,
    ]
}

// Integers read from bytes.

pub open spec fn from_le16(b0: u8, b1: u8) -> u16 {
    (b0 as u16) | ((b1 as u16) << 8)
}

pub open spec fn from_be16(b0: u8, b1: u8) -> u16 {
    ((b0 as u16) << 8) | (b1 as u16)
}

pub open spec fn from_le32(b0: u8, b1: u8, b2: u8, b3: u8) -> u32 {
    (b0 as u32) | ((b1 as u32) << 8) | ((b2 as u32) << 16) | ((b3 as u32) << 24)
}

pub open spec fn from_be32(b0: u8, b1: u8, b2: u8, b3: u8) -> u32 {
    ((b0 as u32) << 24) | ((b1 as u32) << 16) | ((b2 as u32) << 8) | (b3 as u32)
}

/// The 16 bytes of `s` from `at` on, most significant first.
pub open spec fn from_be128(s: Seq<u8>, at: int) -> u128 {
    ((s[at] as u128) << 120) | ((s[at + 1] as u128) << 112) | ((s[at + 2] as u128) << 104)
        | ((s[at + 3] as u128) << 96) | ((s[at + 4] as u128) << 88) | ((s[at + 5] as u128)
        << 80) | ((s[at + 6] as u128) << 72) | ((s[at + 7] as u128) << 64) | ((s[at + 8] as u128)
        << 56) | ((s[at + 9] as u128) << 48) | ((s[at + 10] as u128) << 40) | ((s[at
        + 11] as u128) << 32) | ((s[at + 12] as u128) << 24) | ((s[at + 13] as u128) << 16) | ((
    s[at + 14] as u128) << 8) | (s[at + 15] as u128)
}

/// `u32::swap_bytes`.
pub open spec fn swap_bytes_u32(x: u32) -> u32 {
    ((x & 0xff) << 24) | (((x >> 8) & 0xff) << 16) | (((x >> 16) & 0xff) << 8) | (x >> 24)
}

/// The `SOCKADDR_INET` image of an address: 28 bytes, of which the first
/// `sockaddr_len(a)` form the `SOCKADDR_IN` or `SOCKADDR_IN6`.
pub open spec fn sockaddr_image(a: SocketAddress) -> Seq<u8> {
    match a {
        SocketAddress::V4 { ip, port } => seq![2u8, 0u8] + be16(port) + be32(ip) + Seq::new(
            20,
            |i: int| 0u8,
        ),
        SocketAddress::V6 { ip, port, flowinfo, scope_id } => seq![23u8, 0u8] + be16(port) + be32(
            flowinfo,
        ) + be128(ip) + le32(scope_id),
    }
}

/// The length handed over with the image: that of the structure of its family.
pub open spec fn sockaddr_len(a: SocketAddress) -> u32 {
    match a {
        SocketAddress::V4 { .. } => SOCKADDR_IN_LEN,
        SocketAddress::V6 { .. } => SOCKADDR_IN6_LEN,
    }
}

/// The address a `SOCKADDR` buffer holds: `None` for a family other than
/// `AF_INET` and `AF_INET6`, and for a buffer shorter than the structure of
/// its family.
pub open spec fn parse_sockaddr(b: Seq<u8>) -> Option<SocketAddress> {
    if b.len() < 2 {
        None
    } else {
        let family = from_le16(b[0], b[1]);
        if family == AF_INET && b.len() >= SOCKADDR_IN_LEN {
            Some(
                SocketAddress::V4 {
                    ip: from_be32(b[4], b[5], b[6], b[7]),
                    port: from_be16(b[2], b[3]),
                },
            )
        } else if family == AF_INET6 && b.len() >= SOCKADDR_IN6_LEN {
            Some(
                SocketAddress::V6 {
                    ip: from_be128(b, 8),
                    port: from_be16(b[2], b[3]),
                    flowinfo: from_le32(b[4], b[5], b[6], b[7]),
                    scope_id: from_le32(b[24], b[25], b[26], b[27]),
                },
            )
        } else {
            None
        }
    }
}

/// The address that the image of `a` reads back as: `a` itself, but for the
/// IPv6 flow information, which is written in network order and read in host
/// order, so that it comes back with its bytes swapped.
pub open spec fn read_back(a: SocketAddress) -> SocketAddress {
    match a {
        SocketAddress::V4 { .. } => a,
        SocketAddress::V6 { ip, port, flowinfo, scope_id } => SocketAddress::V6 {
            ip,
            port,
            flowinfo: swap_bytes_u32(flowinfo),
            scope_id,
        },
    }
}

proof fn lemma_u16_bytes(x: u16)
    ensures
        from_be16((x >> 8) as u8, (x & 0xff) as u8) == x,
        from_le16(2u8, 0u8) == AF_INET,
        from_le16(23u8, 0u8) == AF_INET6,
{
    assert(((((x >> 8) as u8) as u16) << 8) | (((x & 0xff) as u8) as u16) == x) by (bit_vector);
    assert(((2u8 as u16) | ((0u8 as u16) << 8)) == 2u16) by (bit_vector);
    assert(((23u8 as u16) | ((0u8 as u16) << 8)) == 23u16) by (bit_vector);
}

proof fn lemma_u32_bytes(x: u32)
    ensures
        from_be32(be32(x)[0], be32(x)[1], be32(x)[2], be32(x)[3]) == x,
        from_le32(be32(x)[0], be32(x)[1], be32(x)[2], be32(x)[3]) == swap_bytes_u32(x),
        from_le32(le32(x)[0], le32(x)[1], le32(x)[2], le32(x)[3]) == x,
{
    let b0 = (x >> 24) as u8;
    let b1 = ((x >> 16) & 0xff) as u8;
    let b2 = ((x >> 8) & 0xff) as u8;
    let b3 = (x & 0xff) as u8;
    assert(((b0 as u32) << 24) | ((b1 as u32) << 16) | ((b2 as u32) << 8) | (b3 as u32) == x)
        by (bit_vector)
        requires
            b0 == (x >> 24) as u8,
            b1 == ((x >> 16) & 0xff) as u8,
            b2 == ((x >> 8) & 0xff) as u8,
            b3 == (x & 0xff) as u8,
    ;
    assert((b0 as u32) | ((b1 as u32) << 8) | ((b2 as u32) << 16) | ((b3 as u32) << 24)
        == ((x & 0xff) << 24) | (((x >> 8) & 0xff) << 16) | (((x >> 16) & 0xff) << 8) | (x >> 24))
        by (bit_vector)
        requires
            b0 == (x >> 24) as u8,
            b1 == ((x >> 16) & 0xff) as u8,
            b2 == ((x >> 8) & 0xff) as u8,
            b3 == (x & 0xff) as u8,
    ;
    assert((b3 as u32) | ((b2 as u32) << 8) | ((b1 as u32) << 16) | ((b0 as u32) << 24) == x)
        by (bit_vector)
        requires
            b0 == (x >> 24) as u8,
            b1 == ((x >> 16) & 0xff) as u8,
            b2 == ((x >> 8) & 0xff) as u8,
            b3 == (x & 0xff) as u8,
    ;
}

proof fn lemma_u128_bytes(x: u128, s: Seq<u8>, at: int)
    requires
        0 <= at,
        at + 16 <= s.len(),
        forall|i: int| 0 <= i < 16 ==> s[at + i] == #[trigger] be128(x)[i],
    ensures
        from_be128(s, at) == x,
{
    let e = be128(x);
    assert(s[at] == e[0] && s[at + 1] == e[1] && s[at + 2] == e[2] && s[at + 3] == e[3]);
    assert(s[at + 4] == e[4] && s[at + 5] == e[5] && s[at + 6] == e[6] && s[at + 7] == e[7]);
    assert(s[at + 8] == e[8] && s[at + 9] == e[9] && s[at + 10] == e[10] && s[at + 11] == e[11]);
    assert(s[at + 12] == e[12] && s[at + 13] == e[13] && s[at + 14] == e[14] && s[at + 15]
        == e[15]);
    let b0 = (x >> 120) as u8;
    let b1 = ((x >> 112) & 0xff) as u8;
    let b2 = ((x >> 104) & 0xff) as u8;
    let b3 = ((x >> 96) & 0xff) as u8;
    let b4 = ((x >> 88) & 0xff) as u8;
    let b5 = ((x >> 80) & 0xff) as u8;
    let b6 = ((x >> 72) & 0xff) as u8;
    let b7 = ((x >> 64) & 0xff) as u8;
    let b8 = ((x >> 56) & 0xff) as u8;
    let b9 = ((x >> 48) & 0xff) as u8;
    let b10 = ((x >> 40) & 0xff) as u8;
    let b11 = ((x >> 32) & 0xff) as u8;
    let b12 = ((x >> 24) & 0xff) as u8;
    let b13 = ((x >> 16) & 0xff) as u8;
    let b14 = ((x >> 8) & 0xff) as u8;
    let b15 = (x & 0xff) as u8;
    assert(((b0 as u128) << 120) | ((b1 as u128) << 112) | ((b2 as u128) << 104) | ((b3 as u128)
        << 96) | ((b4 as u128) << 88) | ((b5 as u128) << 80) | ((b6 as u128) << 72) | ((
    b7 as u128) << 64) | ((b8 as u128) << 56) | ((b9 as u128) << 48) | ((b10 as u128) << 40) | ((
    b11 as u128) << 32) | ((b12 as u128) << 24) | ((b13 as u128) << 16) | ((b14 as u128) << 8) | (
    b15 as u128) == x) by (bit_vector)
        requires
            b0 == (x >> 120) as u8,
            b1 == ((x >> 112) & 0xff) as u8,
            b2 == ((x >> 104) & 0xff) as u8,
            b3 == ((x >> 96) & 0xff) as u8,
            b4 == ((x >> 88) & 0xff) as u8,
            b5 == ((x >> 80) & 0xff) as u8,
            b6 == ((x >> 72) & 0xff) as u8,
            b7 == ((x >> 64) & 0xff) as u8,
            b8 == ((x >> 56) & 0xff) as u8,
            b9 == ((x >> 48) & 0xff) as u8,
            b10 == ((x >> 40) & 0xff) as u8,
            b11 == ((x >> 32) & 0xff) as u8,
            b12 == ((x >> 24) & 0xff) as u8,
            b13 == ((x >> 16) & 0xff) as u8,
            b14 == ((x >> 8) & 0xff) as u8,
            b15 == (x & 0xff) as u8,
    ;
}

/// Reading back what was written: the image of an address is 28 bytes, its
/// structure fits in them, and both the structure alone and the whole image
/// read back as `read_back(a)`, which is `a` for IPv4 addresses and for IPv6
/// addresses whose flow information is the same in either byte order.
pub proof fn lemma_decode_of_encode(a: SocketAddress)
    ensures
        sockaddr_image(a).len() == SOCKADDR_INET_LEN,
        sockaddr_len(a) <= SOCKADDR_INET_LEN,
        parse_sockaddr(sockaddr_image(a).take(sockaddr_len(a) as int)) == Some(read_back(a)),
        parse_sockaddr(sockaddr_image(a)) == Some(read_back(a)),
        (a is V4 || swap_bytes_u32(a->flowinfo) == a->flowinfo) ==> parse_sockaddr(
            sockaddr_image(a),
        ) == Some(a),
{
    let img = sockaddr_image(a);
    let part = img.take(sockaddr_len(a) as int);
    lemma_u16_bytes(a.spec_port());
    match a {
        SocketAddress::V4 { ip, port } => {
            lemma_u32_bytes(ip);
            assert(img.len() == 28);
            assert(img[0] == 2u8 && img[1] == 0u8);
            assert(img[2] == be16(port)[0] && img[3] == be16(port)[1]);
            assert(img[4] == be32(ip)[0] && img[5] == be32(ip)[1] && img[6] == be32(ip)[2] && img[7]
                == be32(ip)[3]);
        },
        SocketAddress::V6 { ip, port, flowinfo, scope_id } => {
            lemma_u32_bytes(flowinfo);
            lemma_u32_bytes(scope_id);
            assert(img.len() == 28);
            assert(img[0] == 23u8 && img[1] == 0u8);
            assert(img[2] == be16(port)[0] && img[3] == be16(port)[1]);
            assert(img[4] == be32(flowinfo)[0] && img[5] == be32(flowinfo)[1] && img[6] == be32(
                flowinfo,
            )[2] && img[7] == be32(flowinfo)[3]);
            assert(img[24] == le32(scope_id)[0] && img[25] == le32(scope_id)[1] && img[26] == le32(
                scope_id,
            )[2] && img[27] == le32(scope_id)[3]);
            assert forall|i: int| 0 <= i < 16 implies img[8 + i] == #[trigger] be128(ip)[i] by {}
            lemma_u128_bytes(ip, img, 8);
            assert forall|i: int| 0 <= i < 16 implies part[8 + i] == #[trigger] be128(ip)[i] by {}
            lemma_u128_bytes(ip, part, 8);
        },
    }
}

/// Decoding reads a `SOCKADDR` by its family whatever follows it: once a
/// buffer holds a whole `SOCKADDR_IN` or `SOCKADDR_IN6`, any bytes after it
/// (the rest of a `SOCKADDR_STORAGE`, say) change nothing.
pub proof fn lemma_decode_ignores_trailing_bytes(b: Seq<u8>, e: Seq<u8>)
    requires
        parse_sockaddr(b) is Some,
    ensures
        parse_sockaddr(b + e) == parse_sockaddr(b),
{
    let c = b + e;
    assert forall|i: int| 0 <= i < b.len() implies #[trigger] c[i] == b[i] by {}
    assert(c[0] == b[0] && c[1] == b[1] && c[2] == b[2] && c[3] == b[3]);
    assert(c[4] == b[4] && c[5] == b[5] && c[6] == b[6] && c[7] == b[7]);
    if b.len() >= 28 {
        assert(c[8] == b[8] && c[9] == b[9] && c[10] == b[10] && c[11] == b[11]);
        assert(c[12] == b[12] && c[13] == b[13] && c[14] == b[14] && c[15] == b[15]);
        assert(c[16] == b[16] && c[17] == b[17] && c[18] == b[18] && c[19] == b[19]);
        assert(c[20] == b[20] && c[21] == b[21] && c[22] == b[22] && c[23] == b[23]);
        assert(c[24] == b[24] && c[25] == b[25] && c[26] == b[26] && c[27] == b[27]);
        assert(from_be128(c, 8) == from_be128(b, 8));
    }
}

/// An address written as its structure and followed by any bytes at all
/// (as in a `SOCKADDR_STORAGE`) reads back as `read_back(a)`: an IPv4
/// address as itself, an IPv6 address with its flow information
/// byte-swapped and everything else unchanged.
pub proof fn lemma_decode_of_encode_in_larger_buffer(a: SocketAddress, e: Seq<u8>)
    ensures
        parse_sockaddr(sockaddr_image(a).take(sockaddr_len(a) as int) + e) == Some(read_back(a)),
        parse_sockaddr(sockaddr_image(a) + e) == Some(read_back(a)),
        read_back(a).spec_ip() == a.spec_ip(),
        read_back(a).spec_port() == a.spec_port(),
        a is V4 ==> read_back(a) == a,
        a is V6 ==> (read_back(a) is V6 && read_back(a)->scope_id == a->scope_id
            && read_back(a)->flowinfo == swap_bytes_u32(a->flowinfo)),
{
    lemma_decode_of_encode(a);
    lemma_decode_ignores_trailing_bytes(sockaddr_image(a).take(sockaddr_len(a) as int), e);
    lemma_decode_ignores_trailing_bytes(sockaddr_image(a), e);
}

/// Writes an address as the `SOCKADDR_INET` that NetworkDirect takes, and
/// gives the length of the structure within it.
pub fn encode_socket_address(addr: &SocketAddress) -> (r: (Vec<u8>, u32))
    ensures
        r.0@ == sockaddr_image(*addr),
        r.1 == sockaddr_len(*addr),
{
    match addr {
        SocketAddress::V4 { ip, port } => {
            let ip = *ip;
            let port = *port;
            let v = vec![
                2u8,
                0u8,
                (port >> 8) as u8,
                (port & 0xff) as u8,
                (ip >> 24) as u8,
                ((ip >> 16) & 0xff) as u8,
                ((ip >> 8) & 0xff) as u8,
                (ip & 0xff) as u8,
                0u8,
                0u8,
                0u8,
                0u8,
                0u8,
                0u8,
                0u8,
                0u8,
                0u8,
                0u8,
                0u8,
                0u8,
                0u8,
                0u8,
                0u8,
                0u8,
                0u8,
                0u8,
                0u8,
                0u8,
            ];
            assert(v@ =~= sockaddr_image(*addr));
            (v, SOCKADDR_IN_LEN)
        },
        SocketAddress::V6 { ip, port, flowinfo, scope_id } => {
            let ip = *ip;
            let port = *port;
            let f = *flowinfo;
            let s = *scope_id;
            let v = vec![
                23u8,
                0u8,
                (port >> 8) as u8,
                (port & 0xff) as u8,
                (f >> 24) as u8,
                ((f >> 16) & 0xff) as u8,
                ((f >> 8) & 0xff) as u8,
                (f & 0xff) as u8,
                (ip >> 120) as u8,
                ((ip >> 112) & 0xff) as u8,
                ((ip >> 104) & 0xff) as u8,
                ((ip >> 96) & 0xff) as u8,
                ((ip >> 88) & 0xff) as u8,
                ((ip >> 80) & 0xff) as u8,
                ((ip >> 72) & 0xff) as u8,
                ((ip >> 64) & 0xff) as u8,
                ((ip >> 56) & 0xff) as u8,
                ((ip >> 48) & 0xff) as u8,
                ((ip >> 40) & 0xff) as u8,
                ((ip >> 32) & 0xff) as u8,
                ((ip >> 24) & 0xff) as u8,
                ((ip >> 16) & 0xff) as u8,
                ((ip >> 8) & 0xff) as u8,
                (ip & 0xff) as u8,
                (s & 0xff) as u8,
                ((s >> 8) & 0xff) as u8,
                ((s >> 16) & 0xff) as u8,
                (s >> 24) as u8,
            ];
            assert(v@ =~= sockaddr_image(*addr));
            (v, SOCKADDR_IN6_LEN)
        },
    }
}

/// Reads the address that a `SOCKADDR` buffer returned by a provider holds.
pub fn decode_socket_address(b: &[u8]) -> (r: Option<SocketAddress>)
    ensures
        r == parse_sockaddr(b@),
{
    if b.len() < 2 {
        return None;
    }
    let family: u16 = (b[0] as u16) | ((b[1] as u16) << 8);
    if family == AF_INET && b.len() >= 16 {
        Some(
            SocketAddress::V4 {
                ip: ((b[4] as u32) << 24) | ((b[5] as u32) << 16) | ((b[6] as u32) << 8) | (
                b[7] as u32),
                port: ((b[2] as u16) << 8) | (b[3] as u16),
            },
        )
    } else if family == AF_INET6 && b.len() >= 28 {
        let ip: u128 = ((b[8] as u128) << 120) | ((b[9] as u128) << 112) | ((b[10] as u128)
            << 104) | ((b[11] as u128) << 96) | ((b[12] as u128) << 88) | ((b[13] as u128) << 80)
            | ((b[14] as u128) << 72) | ((b[15] as u128) << 64) | ((b[16] as u128) << 56) | ((
        b[17] as u128) << 48) | ((b[18] as u128) << 40) | ((b[19] as u128) << 32) | ((b[20] as u128)
            << 24) | ((b[21] as u128) << 16) | ((b[22] as u128) << 8) | (b[23] as u128);
        Some(
            SocketAddress::V6 {
                ip,
                port: ((b[2] as u16) << 8) | (b[3] as u16),
                flowinfo: (b[4] as u32) | ((b[5] as u32) << 8) | ((b[6] as u32) << 16) | ((
                b[7] as u32) << 24),
                scope_id: (b[24] as u32) | ((b[25] as u32) << 8) | ((b[26] as u32) << 16) | ((
                b[27] as u32) << 24),
            },
        )
    } else {
        None
    }
}

} // verus!
