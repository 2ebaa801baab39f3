use network_direct::framework::{
    check_protocol_count, network_direct_protocols, protocol_capacity, ND_VERSION_2, WSAENOBUFS,
};
use network_direct::{AdapterSearch, EnumerationError, Framework, IpAddress, Provider};

#[test]
fn capacity_from_size_query() {
    assert_eq!(protocol_capacity(-1, WSAENOBUFS, 628 * 5, 628), Ok(5));
    assert_eq!(protocol_capacity(-1, WSAENOBUFS, 0, 628), Ok(0));
    assert_eq!(protocol_capacity(-1, 10014, 628, 628), Err(EnumerationError::Probe(10014)));
    assert_eq!(protocol_capacity(3, WSAENOBUFS, 628, 628), Err(EnumerationError::Probe(WSAENOBUFS)));
    assert_eq!(protocol_capacity(-1, WSAENOBUFS, 629, 628), Err(EnumerationError::UnevenBuffer));
}

#[test]
fn count_check() {
    assert_eq!(check_protocol_count(5, 5), Ok(()));
    assert_eq!(check_protocol_count(4, 5), Err(EnumerationError::Count { expected: 5, got: 4 }));
    assert_eq!(
        check_protocol_count(-1, 5),
        Err(EnumerationError::Count { expected: 5, got: u32::MAX })
    );
}

#[test]
fn selects_version_two_protocols() {
    assert_eq!(network_direct_protocols(&vec![2, ND_VERSION_2, 0, ND_VERSION_2]), vec![1, 3]);
    assert_eq!(network_direct_protocols(&vec![]), Vec::<usize>::new());
    assert_eq!(network_direct_protocols(&vec![0x10000]), Vec::<usize>::new());
    assert_eq!(ND_VERSION_2, 0x20000);
}

fn framework(n: usize) -> Framework<u32> {
    Framework { providers: (0..n as u32).map(Provider::from).collect() }
}

#[test]
fn search_visits_providers_in_order() {
    let ip = IpAddress::V4(0xC0A8_0001);
    let other = IpAddress::V4(0xC0A8_0002);
    let fw = framework(3);
    assert_eq!(fw.open_adapter_start(), AdapterSearch::Query(0));
    assert_eq!(fw.open_adapter_step(0, &vec![other], ip), AdapterSearch::Query(1));
    assert_eq!(fw.open_adapter_step(1, &vec![other, ip], ip), AdapterSearch::Open(1));
    assert_eq!(fw.open_adapter_step(2, &vec![], ip), AdapterSearch::NotFound);
    assert_eq!(fw.open_adapter_step(2, &vec![ip], ip), AdapterSearch::Open(2));
    assert_eq!(framework(0).open_adapter_start(), AdapterSearch::NotFound);
    assert_eq!(*fw.providers[2].handle(), 2);
}

#[test]
fn search_tells_address_families_apart() {
    let fw = framework(1);
    assert_eq!(
        fw.open_adapter_step(0, &vec![IpAddress::V6(0xC0A8_0001)], IpAddress::V4(0xC0A8_0001)),
        AdapterSearch::NotFound
    );
}
