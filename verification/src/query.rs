//! Queries that return a variable amount of data.
//!
//! Such a query is made twice: first with no buffer, which reports the size
//! needed (with `ND_BUFFER_OVERFLOW`), then with a buffer of that size. This
//! module decides what each reply means; the calls are the caller's.

use vstd::prelude::*;
use crate::address::{
    parse_sockaddr,
    IpAddress,
    SocketAddress,
    decode_socket_address,
    sockaddr_image,
    sockaddr_len,
    read_back,
    lemma_decode_of_encode_in_larger_buffer,
};
use crate::status::{
    check_hresult,
    hresult_result,
    NdError,
    E_NOTIMPL,
    ND_BUFFER_OVERFLOW,
    STATUS_BUFFER_TOO_SMALL,
};

verus! {

/// The first reply to a size query of private data or of an address list:
/// `ND_BUFFER_OVERFLOW` asks for the second call, any other status stands
/// for itself.
pub open spec fn spec_probe(status: i32) -> Result<(), NdError> {
    if status == ND_BUFFER_OVERFLOW {
        Ok(())
    } else {
        hresult_result(status)
    }
}

/// The first reply to an address query (`GetLocalAddress`,
/// `GetPeerAddress`): `ND_BUFFER_OVERFLOW` and `STATUS_BUFFER_TOO_SMALL` both
/// ask for the second call.
pub open spec fn spec_address_probe(status: i32) -> Result<(), NdError> {
    if status == ND_BUFFER_OVERFLOW || status == STATUS_BUFFER_TOO_SMALL {
        Ok(())
    } else {
        hresult_result(status)
    }
}

/// The address that the second reply to an address query gives: the
/// failure of the call, or the address in its buffer, or `E_NOTIMPL` where
/// the buffer holds no address of a known family.
pub open spec fn spec_address_reply(status: i32, data: Seq<u8>) -> Result<
    SocketAddress,
    NdError,
> {
    match hresult_result(status) {
        Err(e) => Err(e),
        Ok(()) => match parse_sockaddr(data) {
            Some(a) => Ok(a),
            None => Err(NdError { code: E_NOTIMPL }),
        },
    }
}

/// See `spec_probe`.
pub fn probe_reply(status: i32) -> (r: Result<(), NdError>)
    ensures
        r == spec_probe(status),
        (r is Ok) <==> (status == ND_BUFFER_OVERFLOW || status >= 0),
        status != ND_BUFFER_OVERFLOW && status < 0 ==> (r == Err::<(), NdError>(
            NdError { code: status },
        )),
{
    if status == ND_BUFFER_OVERFLOW {
        Ok(())
    } else {
        check_hresult(status)
    }
}

/// See `spec_address_probe`.
pub fn address_probe_reply(status: i32) -> (r: Result<(), NdError>)
    ensures
        r == spec_address_probe(status),
        (r is Ok) <==> (status == ND_BUFFER_OVERFLOW || status == STATUS_BUFFER_TOO_SMALL
            || status >= 0),
        status != ND_BUFFER_OVERFLOW && status != STATUS_BUFFER_TOO_SMALL && status < 0 ==> (r
            == Err::<(), NdError>(NdError { code: status })),
{
    if status == ND_BUFFER_OVERFLOW || status == STATUS_BUFFER_TOO_SMALL {
        Ok(())
    } else {
        check_hresult(status)
    }
}

/// See `spec_address_reply`; `data` is the buffer handed to the second call.
pub fn address_reply(status: i32, data: &[u8]) -> (r: Result<SocketAddress, NdError>)
    ensures
        r == spec_address_reply(status, data@),
        status < 0 ==> (r == Err::<SocketAddress, NdError>(NdError { code: status })),
        status >= 0 && parse_sockaddr(data@) is Some ==> (r == Ok::<SocketAddress, NdError>(
            parse_sockaddr(data@).unwrap(),
        )),
        status >= 0 && parse_sockaddr(data@) is None ==> (r == Err::<SocketAddress, NdError>(
            NdError { code: E_NOTIMPL },
        )),
{
    check_hresult(status)?;
    match decode_socket_address(data) {
        Some(a) => Ok(a),
        None => Err(NdError { code: E_NOTIMPL }),
    }
}

/// After the first reply to a private-data query with the size `size` it
/// reported: the failure, or the size of the buffer to fetch into, or `None`
/// where there is nothing to fetch (the data is empty).
pub fn private_data_probe(status: i32, size: u32) -> (r: Result<Option<u32>, NdError>)
    ensures
        status != ND_BUFFER_OVERFLOW && status < 0 ==> (r == Err::<Option<u32>, NdError>(
            NdError { code: status },
        )),
        (status == ND_BUFFER_OVERFLOW || status >= 0) ==> (r == Ok::<Option<u32>, NdError>(
            if size > 0 {
                Some(size)
            } else {
                None
            },
        )),
        r == match spec_probe(status) {
            Err(e) => Err(e),
            Ok(()) => if size > 0 {
                Ok(Some(size))
            } else {
                Ok(None)
            },
        },
{
    probe_reply(status)?;
    if size > 0 {
        Ok(Some(size))
    } else {
        Ok(None)
    }
}

/// The private data, from the second reply and the buffer it filled.
pub fn private_data_reply(status: i32, data: Vec<u8>) -> (r: Result<Vec<u8>, NdError>)
    ensures
        match hresult_result(status) {
            Err(e) => r == Err::<Vec<u8>, NdError>(e),
            Ok(()) => r matches Ok(d) && d@ == data@,
        },
{
    check_hresult(status)?;
    Ok(data)
}

/// The IP addresses of the entries of an address list, in order, leaving out
/// the entries that hold no address of a known family.
pub open spec fn list_ips(entries: Seq<Seq<u8>>) -> Seq<IpAddress>
    decreases entries.len(),
{
    if entries.len() == 0 {
        Seq::empty()
    } else {
        let rest = list_ips(entries.drop_last());
        match parse_sockaddr(entries.last()) {
            Some(a) => rest.push(a.spec_ip()),
            None => rest,
        }
    }
}

/// The IP addresses that a provider's address list holds; `entries` are the
/// `SOCKADDR` buffers that its entries point to.
pub fn ip_addresses(entries: &Vec<Vec<u8>>) -> (r: Vec<IpAddress>)
    ensures
        r@ == list_ips(entries@.map_values(|e: Vec<u8>| e@)),
{
    let ghost views = entries@.map_values(|e: Vec<u8>| e@);
    let mut r: Vec<IpAddress> = Vec::new();
    let mut i: usize = 0;
    while i < entries.len()
        invariant
            i <= entries.len(),
            views == entries@.map_values(|e: Vec<u8>| e@),
            r@ == list_ips(views.take(i as int)),
        decreases entries.len() - i,
    {
        assert(views.take(i + 1).drop_last() =~= views.take(i as int));
        assert(views.take(i + 1).last() == entries[i as int]@);
        match decode_socket_address(entries[i].as_slice()) {
            Some(a) => r.push(a.ip()),
            None => {},
        }
        i = i + 1;
    }
    assert(views.take(entries.len() as int) =~= views);
    r
}

/// The first reply of a size query goes on to the second call only on
/// `ND_BUFFER_OVERFLOW` or a success code; every other negative status is a
/// failure carrying that status. An address query also goes on after
/// `STATUS_BUFFER_TOO_SMALL`.
pub proof fn lemma_probe_fails_on_failure_codes(status: i32)
    ensures
        (spec_probe(status) is Ok) <==> (status == ND_BUFFER_OVERFLOW || status >= 0),
        status != ND_BUFFER_OVERFLOW && status < 0 ==> spec_probe(status) == Err::<(), NdError>(
            NdError { code: status },
        ),
        (spec_address_probe(status) is Ok) <==> (status == ND_BUFFER_OVERFLOW || status
            == STATUS_BUFFER_TOO_SMALL || status >= 0),
        status != ND_BUFFER_OVERFLOW && status != STATUS_BUFFER_TOO_SMALL && status < 0
            ==> spec_address_probe(status) == Err::<(), NdError>(NdError { code: status }),
        spec_probe(E_NOTIMPL) == Err::<(), NdError>(NdError { code: E_NOTIMPL }),
        spec_probe(STATUS_BUFFER_TOO_SMALL) == Err::<(), NdError>(
            NdError { code: STATUS_BUFFER_TOO_SMALL },
        ),
{
}

/// A successful reply to an address query gives the address its buffer
/// holds, of either family: for any address written as its structure and
/// followed by any bytes, the reply is that address as it reads back (an
/// IPv6 address with its flow information byte-swapped). `E_NOTIMPL` comes
/// only from a successful reply whose buffer holds no address, and a failed
/// reply gives its own status.
pub proof fn lemma_address_reply_gives_the_address(
    status: i32,
    a: SocketAddress,
    e: Seq<u8>,
    data: Seq<u8>,
)
    ensures
        status >= 0 ==> spec_address_reply(
            status,
            sockaddr_image(a).take(sockaddr_len(a) as int) + e,
        ) == Ok::<SocketAddress, NdError>(read_back(a)),
        status >= 0 ==> spec_address_reply(status, sockaddr_image(a) + e) == Ok::<
            SocketAddress,
            NdError,
        >(read_back(a)),
        status < 0 ==> spec_address_reply(status, data) == Err::<SocketAddress, NdError>(
            NdError { code: status },
        ),
        status >= 0 && spec_address_reply(status, data) == Err::<SocketAddress, NdError>(
            NdError { code: E_NOTIMPL },
        ) ==> parse_sockaddr(data) is None,
        status >= 0 && parse_sockaddr(data) is Some ==> spec_address_reply(status, data) == Ok::<
            SocketAddress,
            NdError,
        >(parse_sockaddr(data).unwrap()),
{
    lemma_decode_of_encode_in_larger_buffer(a, e);
}

} // verus!
