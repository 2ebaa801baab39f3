//! The set of installed NetworkDirect providers: which protocols of the
//! Winsock catalog are NetworkDirect providers, and which provider serves an
//! address.

use vstd::prelude::*;
use crate::address::IpAddress;
use crate::provider::Provider;

verus! {

/// `ND_VERSION_2`: the protocol version of a NetworkDirect v2 provider.
pub const ND_VERSION_2: i32 = 0x20000;

/// `WSAENOBUFS`: the error of a catalog query whose buffer is too small.
pub const WSAENOBUFS: i32 = 10055;

/// Why the protocol catalog could not be read.
#[derive(Debug, Clone, Copy, PartialEq, Eq, Structural)]
pub enum EnumerationError {
    /// The size query of `WSCEnumProtocols` did not report `WSAENOBUFS` with
    /// a count of -1; holds the error it reported.
    Probe(i32),
    /// The buffer size reported is not a whole number of `WSAPROTOCOL_INFOW`.
    UnevenBuffer,
    /// The catalog query returned another number of protocols than the
    /// buffer holds.
    Count { expected: u32, got: u32 },
}

/// The number of protocols that the catalog holds, from the size query of
/// `WSCEnumProtocols`: its return value `count`, its error, the buffer size
/// it asked for, and the size of one `WSAPROTOCOL_INFOW`.
pub fn protocol_capacity(count: i32, error: i32, buffer_size: u32, info_size: u32) -> (r: Result<
    u32,
    EnumerationError,
>)
    requires
        info_size > 0,
    ensures
        r == (if !(error == WSAENOBUFS && count == -1) {
            Err(EnumerationError::Probe(error))
        } else if buffer_size % info_size != 0 {
            Err(EnumerationError::UnevenBuffer)
        } else {
            Ok(buffer_size / info_size)
        }),
{
    if !(error == WSAENOBUFS && count == -1) {
        Err(EnumerationError::Probe(error))
    } else if buffer_size % info_size != 0 {
        Err(EnumerationError::UnevenBuffer)
    } else {
        Ok(buffer_size / info_size)
    }
}

/// Checks the return value of the catalog query against the number of
/// protocols its buffer holds; the value is compared as an unsigned number.
pub fn check_protocol_count(count: i32, expected: u32) -> (r: Result<(), EnumerationError>)
    ensures
        r == (if count as u32 == expected {
            Ok(())
        } else {
            Err(EnumerationError::Count { expected, got: count as u32 })
        }),
{
    let got = count as u32;
    if got == expected {
        Ok(())
    } else {
        Err(EnumerationError::Count { expected, got })
    }
}

/// The positions, in order, of the protocols of version `ND_VERSION_2`.
pub open spec fn nd_positions(versions: Seq<i32>) -> Seq<usize>
    decreases versions.len(),
{
    if versions.len() == 0 {
        Seq::empty()
    } else {
        let rest = nd_positions(versions.drop_last());
        if versions.last() == ND_VERSION_2 {
            rest.push((versions.len() - 1) as usize)
        } else {
            rest
        }
    }
}

/// Every protocol of the catalog is selected exactly when its version is
/// `ND_VERSION_2`: each selected position is a position of the catalog, the
/// positions come in increasing order, and a position is among them if and
/// only if its protocol has that version.
pub proof fn lemma_selects_exactly_version_two(versions: Seq<i32>)
    requires
        versions.len() <= usize::MAX,
    ensures
        forall|j: int|
            0 <= j < nd_positions(versions).len() ==> (#[trigger] nd_positions(versions)[j] as int)
                < versions.len(),
        forall|j: int, k: int|
            0 <= j < k < nd_positions(versions).len() ==> #[trigger] nd_positions(versions)[j]
                < #[trigger] nd_positions(versions)[k],
        forall|i: int|
            0 <= i < versions.len() ==> (#[trigger] versions[i] == ND_VERSION_2
                <==> nd_positions(versions).contains(i as usize)),
    decreases versions.len(),
{
    if versions.len() > 0 {
        let init = versions.drop_last();
        let rest = nd_positions(init);
        let n = versions.len() - 1;
        lemma_selects_exactly_version_two(init);
        assert forall|i: int| 0 <= i < n implies versions[i] == init[i] by {}
        let pos = nd_positions(versions);
        assert(versions.last() == versions[n]);
        if versions[n] == ND_VERSION_2 {
            assert(pos == rest.push(n as usize));
        } else {
            assert(pos == rest);
        }
        assert forall|i: int|
            0 <= i < versions.len() implies (#[trigger] versions[i] == ND_VERSION_2
                <==> pos.contains(i as usize)) by {
            if i < n {
                assert(versions[i] == init[i]);
                if rest.contains(i as usize) {
                    let j = choose|j: int| 0 <= j < rest.len() && rest[j] == i as usize;
                    assert(pos[j] == rest[j]);
                }
                if pos.contains(i as usize) {
                    let j = choose|j: int| 0 <= j < pos.len() && pos[j] == i as usize;
                    if j < rest.len() {
                        assert(rest[j] == pos[j]);
                    } else {
                        assert(pos[j] == n as usize);
                    }
                }
            } else {
                assert(i == n);
                if versions[i] == ND_VERSION_2 {
                    assert(pos[rest.len() as int] == n as usize);
                }
                if pos.contains(i as usize) {
                    let j = choose|j: int| 0 <= j < pos.len() && pos[j] == i as usize;
                    if j < rest.len() {
                        assert(rest[j] == pos[j]);
                        assert((rest[j] as int) < init.len());
                    }
                }
            }
        }
        assert forall|j: int| 0 <= j < pos.len() implies (#[trigger] pos[j] as int) < versions.len() by {
            if j < rest.len() {
                assert(pos[j] == rest[j]);
            }
        }
        assert forall|j: int, k: int| 0 <= j < k < pos.len() implies #[trigger] pos[j] < #[trigger] pos[k] by {
            if k < rest.len() {
                assert(pos[j] == rest[j] && pos[k] == rest[k]);
            } else {
                assert(pos[j] == rest[j]);
                assert((rest[j] as int) < init.len());
            }
        }
    }
}

/// Which protocols of the catalog are NetworkDirect v2 providers, given the
/// version of each.
pub fn network_direct_protocols(versions: &Vec<i32>) -> (r: Vec<usize>)
    ensures
        r@ == nd_positions(versions@),
        forall|i: int|
            0 <= i < versions.len() ==> (#[trigger] versions@[i] == ND_VERSION_2 <==> r@.contains(
                i as usize,
            )),
        forall|j: int| 0 <= j < r.len() ==> (#[trigger] r@[j] as int) < versions.len(),
        forall|j: int, k: int| 0 <= j < k < r.len() ==> #[trigger] r@[j] < #[trigger] r@[k],
{
    proof {
        assert(versions@.len() == versions.len());
        lemma_selects_exactly_version_two(versions@);
    }
    let mut r: Vec<usize> = Vec::new();
    let mut i: usize = 0;
    while i < versions.len()
        invariant
            i <= versions.len(),
            r@ == nd_positions(versions@.take(i as int)),
        decreases versions.len() - i,
    {
        assert(versions@.take(i + 1).drop_last() =~= versions@.take(i as int));
        if versions[i] == ND_VERSION_2 {
            r.push(i);
        }
        i = i + 1;
    }
    assert(versions@.take(versions.len() as int) =~= versions@);
    r
}

/// The step of the search for the provider that serves an address.
#[derive(Debug, Clone, Copy, PartialEq, Eq, Structural)]
pub enum AdapterSearch {
    /// Ask this provider for its addresses.
    Query(usize),
    /// This provider serves the address: resolve it and open the adapter.
    Open(usize),
    /// No provider serves the address.
    NotFound,
}

/// The first provider from `from` on whose address list holds `ip`.
pub open spec fn first_serving(lists: Seq<Seq<IpAddress>>, ip: IpAddress, from: int) -> Option<
    int,
>
    decreases lists.len() - from,
{
    if from < 0 || from >= lists.len() {
        None
    } else if lists[from].contains(ip) {
        Some(from)
    } else {
        first_serving(lists, ip, from + 1)
    }
}

/// The step after provider `index` of `count` reported `list`.
pub open spec fn spec_search_step(index: int, count: int, list: Seq<IpAddress>, ip: IpAddress) -> AdapterSearch {
    if list.contains(ip) {
        AdapterSearch::Open(index as usize)
    } else if index + 1 < count {
        AdapterSearch::Query((index + 1) as usize)
    } else {
        AdapterSearch::NotFound
    }
}

/// The installed NetworkDirect providers.
pub struct Framework<H> {
    pub providers: Vec<Provider<H>>,
}

impl<H> Framework<H> {
    /// The first step of the search: the first provider, if there is one.
    pub fn open_adapter_start(&self) -> (r: AdapterSearch)
        ensures
            r == (if self.providers.len() == 0 {
                AdapterSearch::NotFound
            } else {
                AdapterSearch::Query(0)
            }),
    {
        if self.providers.len() == 0 {
            AdapterSearch::NotFound
        } else {
            AdapterSearch::Query(0)
        }
    }

    /// The step after provider `index` reported the addresses `list`, in the
    /// search for the provider of `ip`.
    pub fn open_adapter_step(&self, index: usize, list: &Vec<IpAddress>, ip: IpAddress) -> (r:
        AdapterSearch)
        requires
            index < self.providers.len(),
        ensures
            r == spec_search_step(index as int, self.providers.len() as int, list@, ip),
    {
        let mut i: usize = 0;
        while i < list.len()
            invariant
                i <= list.len(),
                forall|j: int| 0 <= j < i ==> list@[j] != ip,
            decreases list.len() - i,
        {
            if list[i] == ip {
                assert(list@.contains(ip));
                return AdapterSearch::Open(index);
            }
            i = i + 1;
        }
        if index + 1 < self.providers.len() {
            AdapterSearch::Query(index + 1)
        } else {
            AdapterSearch::NotFound
        }
    }
}

/// The search finds the first provider whose address list holds the
/// address: each step keeps the answer `first_serving` gives from the
/// provider it is at, it opens a provider only where that provider is the
/// answer, and it ends without one only where no provider from there on is.
/// Starting at provider 0 (or at no provider, where there is none, and then
/// `first_serving` is `None`), it therefore opens `first_serving(lists, ip, 0)`.
pub proof fn lemma_search_finds_first(lists: Seq<Seq<IpAddress>>, ip: IpAddress, index: int)
    requires
        0 <= index < lists.len(),
    ensures
        spec_search_step(index, lists.len() as int, lists[index], ip) == AdapterSearch::Open(
            index as usize,
        ) ==> first_serving(lists, ip, index) == Some(index),
        spec_search_step(index, lists.len() as int, lists[index], ip) == AdapterSearch::Query(
            (index + 1) as usize,
        ) ==> first_serving(lists, ip, index) == first_serving(lists, ip, index + 1),
        spec_search_step(index, lists.len() as int, lists[index], ip) == AdapterSearch::NotFound
            ==> first_serving(lists, ip, index) is None,
{
    if !lists[index].contains(ip) && index + 1 >= lists.len() {
        assert(first_serving(lists, ip, index + 1) is None);
    }
}

} // verus!
