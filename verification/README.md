# network_direct

A binding to NetworkDirect, the RDMA interface of Windows, split in two.

* `src/` is the verified library (Verus). It holds what the binding decides
  and computes: the `SOCKADDR` images of socket addresses and their decoding,
  the success test on HRESULTs and the completion of overlapped requests, the
  two-call size queries (addresses, private data, address lists), the flag
  sets of the registration and work-request calls, the selection of
  NetworkDirect providers from the Winsock catalog and the search for the
  provider that serves an address, and the typed handles of the NetworkDirect
  objects.
* `app/` is the Windows side: the COM interfaces of the NetworkDirect SPI and
  the calls through them, which hand their results to the library. It exists
  on Windows only.

`tests/` exercises the library on concrete values.
