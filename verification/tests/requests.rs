use network_direct::status::{E_NOTIMPL, ND_BUFFER_OVERFLOW, ND_PENDING, ND_SUCCESS, STATUS_BUFFER_TOO_SMALL};
use network_direct::{
    address_probe_reply, address_reply, after_issue, after_overlapped, check_hresult,
    encode_socket_address, ip_addresses, private_data_probe, private_data_reply, probe_reply,
    IpAddress, NdError, Operation, RequestStep, SocketAddress,
};

#[test]
fn hresult_success_and_failure() {
    assert_eq!(check_hresult(ND_SUCCESS), Ok(()));
    assert_eq!(check_hresult(1), Ok(()));
    assert_eq!(check_hresult(ND_PENDING), Ok(()));
    assert_eq!(check_hresult(-5), Err(NdError { code: -5 }));
    assert_eq!(check_hresult(i32::MIN), Err(NdError { code: i32::MIN }));
    assert_eq!(check_hresult(E_NOTIMPL), Err(NdError { code: E_NOTIMPL }));
}

#[test]
fn status_values() {
    assert_eq!(ND_PENDING, 0x103);
    assert_eq!(ND_BUFFER_OVERFLOW as u32, 0x8000_0005);
    assert_eq!(STATUS_BUFFER_TOO_SMALL as u32, 0xC000_0023);
    assert_eq!(E_NOTIMPL as u32, 0x8000_4001);
}

#[test]
fn pending_requests_wait_by_operation() {
    for (op, wait) in [
        (Operation::Connect, true),
        (Operation::CompleteConnect, true),
        (Operation::Accept, false),
        (Operation::NotifyDisconnect, false),
        (Operation::Disconnect, true),
        (Operation::GetConnectionRequest, true),
        (Operation::Register, true),
        (Operation::Deregister, true),
        (Operation::Notify, false),
    ] {
        assert_eq!(op.waits(), wait);
        match after_issue(op, ND_PENDING) {
            RequestStep::AwaitOverlapped { wait: w } => assert_eq!(w, wait),
            other => panic!("unexpected {:?}", other),
        }
    }
}

#[test]
fn immediate_statuses_are_final() {
    assert!(matches!(after_issue(Operation::Connect, ND_SUCCESS), RequestStep::Finished(Ok(()))));
    assert!(matches!(
        after_issue(Operation::Accept, -7),
        RequestStep::Finished(Err(NdError { code: -7 }))
    ));
    assert!(matches!(
        after_issue(Operation::Register, ND_BUFFER_OVERFLOW),
        RequestStep::Finished(Err(NdError { code: ND_BUFFER_OVERFLOW }))
    ));
    assert_eq!(after_overlapped(0), Ok(()));
    assert_eq!(after_overlapped(-1), Err(NdError { code: -1 }));
}

#[test]
fn probes() {
    assert_eq!(probe_reply(ND_BUFFER_OVERFLOW), Ok(()));
    assert_eq!(probe_reply(ND_SUCCESS), Ok(()));
    assert_eq!(probe_reply(STATUS_BUFFER_TOO_SMALL), Err(NdError { code: STATUS_BUFFER_TOO_SMALL }));
    assert_eq!(address_probe_reply(STATUS_BUFFER_TOO_SMALL), Ok(()));
    assert_eq!(address_probe_reply(ND_BUFFER_OVERFLOW), Ok(()));
    assert_eq!(address_probe_reply(-9), Err(NdError { code: -9 }));
}

#[test]
fn address_replies() {
    let a = SocketAddress::V4 { ip: 0x0102_0304, port: 9 };
    let (bytes, _) = encode_socket_address(&a);
    assert_eq!(address_reply(ND_SUCCESS, &bytes), Ok(a));
    assert_eq!(address_reply(-3, &bytes), Err(NdError { code: -3 }));
    assert_eq!(address_reply(ND_SUCCESS, &[0u8; 16]), Err(NdError { code: E_NOTIMPL }));
    assert_eq!(address_reply(ND_SUCCESS, &[]), Err(NdError { code: E_NOTIMPL }));
}

#[test]
fn private_data_steps() {
    assert_eq!(private_data_probe(ND_BUFFER_OVERFLOW, 12), Ok(Some(12)));
    assert_eq!(private_data_probe(ND_SUCCESS, 0), Ok(None));
    assert_eq!(private_data_probe(ND_BUFFER_OVERFLOW, 0), Ok(None));
    assert_eq!(private_data_probe(STATUS_BUFFER_TOO_SMALL, 4), Err(NdError { code: STATUS_BUFFER_TOO_SMALL }));
    assert_eq!(private_data_reply(ND_SUCCESS, vec![1, 2, 3]), Ok(vec![1, 2, 3]));
    assert_eq!(private_data_reply(-2, vec![1]), Err(NdError { code: -2 }));
}

#[test]
fn address_list_ips() {
    let v4 = encode_socket_address(&SocketAddress::V4 { ip: 0x0A00_0001, port: 0 }).0;
    let v6 = encode_socket_address(&SocketAddress::V6 { ip: 77, port: 0, flowinfo: 0, scope_id: 2 }).0;
    let bad = vec![9u8; 28];
    let entries = vec![v4.clone(), bad, v6, vec![], v4[..16].to_vec()];
    assert_eq!(
        ip_addresses(&entries),
        vec![IpAddress::V4(0x0A00_0001), IpAddress::V6(77), IpAddress::V4(0x0A00_0001)]
    );
    assert_eq!(ip_addresses(&vec![]), vec![]);
}
