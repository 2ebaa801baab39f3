use network_direct::address::{
    AF_INET, AF_INET6, SOCKADDR_IN6_LEN, SOCKADDR_INET_LEN, SOCKADDR_IN_LEN,
};
use network_direct::{decode_socket_address, encode_socket_address, IpAddress, SocketAddress};

#[test]
fn encode_ipv4_layout() {
    let a = SocketAddress::V4 { ip: 0xC0A8_0101, port: 0x1F90 };
    let (bytes, len) = encode_socket_address(&a);
    assert_eq!(len, SOCKADDR_IN_LEN);
    assert_eq!(len, 16);
    assert_eq!(bytes.len(), SOCKADDR_INET_LEN);
    assert_eq!(&bytes[0..8], &[2, 0, 0x1F, 0x90, 192, 168, 1, 1]);
    assert!(bytes[8..].iter().all(|b| *b == 0));
}

#[test]
fn encode_ipv6_layout() {
    let ip: u128 = 0xfe80_0000_0000_0000_0000_0000_0000_0001;
    let a = SocketAddress::V6 { ip, port: 443, flowinfo: 0x0102_0304, scope_id: 0x0A0B_0C0D };
    let (bytes, len) = encode_socket_address(&a);
    assert_eq!(len, SOCKADDR_IN6_LEN);
    assert_eq!(len, 28);
    assert_eq!(bytes.len(), 28);
    assert_eq!(&bytes[0..4], &[23, 0, 0x01, 0xBB]);
    // flow information in network order
    assert_eq!(&bytes[4..8], &[1, 2, 3, 4]);
    assert_eq!(&bytes[8..24], &ip.to_be_bytes());
    // scope identifier in host (little-endian) order
    assert_eq!(&bytes[24..28], &[0x0D, 0x0C, 0x0B, 0x0A]);
}

#[test]
fn decode_ipv4() {
    let mut b = [0u8; 16];
    b[0] = 2;
    b[2] = 0x00;
    b[3] = 0x50;
    b[4..8].copy_from_slice(&[10, 0, 0, 7]);
    assert_eq!(
        decode_socket_address(&b),
        Some(SocketAddress::V4 { ip: 0x0A00_0007, port: 80 })
    );
}

#[test]
fn decode_ipv6() {
    let mut b = [0u8; 28];
    b[0] = 23;
    b[2] = 0x12;
    b[3] = 0x34;
    b[4..8].copy_from_slice(&[1, 0, 0, 0]);
    b[23] = 1;
    b[24..28].copy_from_slice(&[5, 0, 0, 0]);
    assert_eq!(
        decode_socket_address(&b),
        Some(SocketAddress::V6 { ip: 1, port: 0x1234, flowinfo: 1, scope_id: 5 })
    );
}

#[test]
fn decode_unknown_family() {
    let mut b = [0u8; 28];
    b[0] = 1;
    assert_eq!(decode_socket_address(&b), None);
    assert_eq!(decode_socket_address(&[0u8; 16]), None);
}

#[test]
fn decode_short_buffers() {
    assert_eq!(decode_socket_address(&[]), None);
    assert_eq!(decode_socket_address(&[2]), None);
    // an AF_INET buffer shorter than SOCKADDR_IN
    assert_eq!(decode_socket_address(&[2, 0, 0, 80, 1, 2, 3, 4]), None);
    // an AF_INET6 buffer of SOCKADDR_IN size only
    let mut b = [0u8; 16];
    b[0] = 23;
    assert_eq!(decode_socket_address(&b), None);
}

#[test]
fn round_trip_ipv4() {
    let a = SocketAddress::V4 { ip: 0x7F00_0001, port: 65535 };
    let (bytes, len) = encode_socket_address(&a);
    assert_eq!(decode_socket_address(&bytes), Some(a));
    assert_eq!(decode_socket_address(&bytes[..len as usize]), Some(a));
}

#[test]
fn round_trip_ipv6_swaps_flow_information() {
    let a = SocketAddress::V6 { ip: u128::MAX - 7, port: 1, flowinfo: 1, scope_id: 9 };
    let (bytes, len) = encode_socket_address(&a);
    let back = SocketAddress::V6 { ip: u128::MAX - 7, port: 1, flowinfo: 1u32.swap_bytes(), scope_id: 9 };
    assert_eq!(decode_socket_address(&bytes), Some(back));
    assert_eq!(decode_socket_address(&bytes[..len as usize]), Some(back));
    let c = SocketAddress::V6 { ip: 42, port: 7, flowinfo: 0, scope_id: 3 };
    let (bytes, _) = encode_socket_address(&c);
    assert_eq!(decode_socket_address(&bytes), Some(c));
}

#[test]
fn address_parts() {
    let a = SocketAddress::V6 { ip: 5, port: 6, flowinfo: 0, scope_id: 0 };
    assert_eq!(a.ip(), IpAddress::V6(5));
    assert_eq!(a.port(), 6);
    let b = SocketAddress::V4 { ip: 5, port: 8 };
    assert_eq!(b.ip(), IpAddress::V4(5));
    assert_eq!(b.port(), 8);
    assert_eq!(AF_INET, 2);
    assert_eq!(AF_INET6, 23);
}
