//! Verified core of a NetworkDirect (RDMA) binding: status handling,
//! socket-address images, request completion, flag sets and the
//! provider search, with the COM calls themselves left to the caller.

pub mod adapter;
pub mod address;
pub mod completion_queue;
pub mod connector;
pub mod flags;
pub mod framework;
pub mod listener;
pub mod memory_region;
pub mod memory_window;
pub mod provider;
pub mod query;
pub mod queue_pair;
pub mod request;
pub mod request_context;
pub mod status;

pub use adapter::Adapter;
pub use address::{decode_socket_address, encode_socket_address, IpAddress, SocketAddress};
pub use completion_queue::{CompletionQueue, NotifyType};
pub use connector::{Connector, ReadLimits};
pub use flags::{BindFlags, FlagSet, InvalidateFlags, ReadFlags, RegisterFlags, SendFlags, WriteFlags};
pub use framework::{AdapterSearch, EnumerationError, Framework};
pub use listener::Listener;
pub use memory_region::{Buffer, LocalToken, MemoryRegion, RemoteToken};
pub use memory_window::MemoryWindow;
pub use provider::Provider;
pub use query::{
    address_probe_reply, address_reply, ip_addresses, private_data_probe, private_data_reply,
    probe_reply,
};
pub use queue_pair::QueuePair;
pub use request::{after_issue, after_overlapped, Operation, RequestStep};
pub use request_context::RequestContext;
pub use status::{check_hresult, NdError};
