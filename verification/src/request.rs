//! How an overlapped NetworkDirect request is completed.
//!
//! A request that returns `ND_PENDING` completes through its overlapped
//! structure: the caller then asks `IND2Overlapped::GetOverlappedResult`,
//! waiting for it or not according to the operation. Any other status is
//! final and stands for itself.

use vstd::prelude::*;
use crate::status::{check_hresult, hresult_result, NdError, ND_PENDING};

verus! {

/// The overlapped requests of the binding.
#[derive(Debug, Clone, Copy, PartialEq, Eq, Structural)]
pub enum Operation {
    /// `IND2Connector::Connect`.
    Connect,
    /// `IND2Connector::CompleteConnect`.
    CompleteConnect,
    /// `IND2Connector::Accept`.
    Accept,
    /// `IND2Connector::NotifyDisconnect`.
    NotifyDisconnect,
    /// `IND2Connector::Disconnect`.
    Disconnect,
    /// `IND2Listener::GetConnectionRequest`.
    GetConnectionRequest,
    /// `IND2MemoryRegion::Register`.
    Register,
    /// `IND2MemoryRegion::Deregister`.
    Deregister,
    /// `IND2CompletionQueue::Notify`.
    Notify,
}

impl Operation {
    /// Whether a pending request of this kind is waited for: the connection
    /// set-up and tear-down requests, the connection request of a listener and
    /// the registration requests are; `Accept`, `NotifyDisconnect` and
    /// `Notify` only poll their result.
    pub open spec fn spec_waits(self) -> bool {
        match self {
            Operation::Accept | Operation::NotifyDisconnect | Operation::Notify => false,
            _ => true,
        }
    }

    /// See `spec_waits`.
    pub fn waits(self) -> (r: bool)
        ensures
            r == self.spec_waits(),
    {
        match self {
            Operation::Accept | Operation::NotifyDisconnect | Operation::Notify => false,
            _ => true,
        }
    }
}

/// What follows the status that a request returned.
#[derive(Debug, Clone, Copy)]
pub enum RequestStep {
    /// Ask for the overlapped result, waiting for it if `wait`.
    AwaitOverlapped { wait: bool },
    /// The request is over, with this result.
    Finished(Result<(), NdError>),
}

pub open spec fn spec_after_issue(op: Operation, status: i32) -> RequestStep {
    if status == ND_PENDING {
        RequestStep::AwaitOverlapped { wait: op.spec_waits() }
    } else {
        RequestStep::Finished(hresult_result(status))
    }
}

/// The step after a request of kind `op` returned `status`.
pub fn after_issue(op: Operation, status: i32) -> (r: RequestStep)
    ensures
        r == spec_after_issue(op, status),
        status == ND_PENDING ==> (r == RequestStep::AwaitOverlapped { wait: op.spec_waits() }),
        status != ND_PENDING && status >= 0 ==> (r == RequestStep::Finished(Ok(()))),
        status < 0 ==> (r == RequestStep::Finished(Err(NdError { code: status }))),
{
    if status == ND_PENDING {
        RequestStep::AwaitOverlapped { wait: op.waits() }
    } else {
        RequestStep::Finished(check_hresult(status))
    }
}

/// The result of a request whose overlapped result was `status`.
pub fn after_overlapped(status: i32) -> (r: Result<(), NdError>)
    ensures
        r == hresult_result(status),
        (r is Ok) <==> status >= 0,
        status < 0 ==> (r == Err::<(), NdError>(NdError { code: status })),
{
    check_hresult(status)
}

/// A request succeeds at once exactly when its status is a success code
/// other than `ND_PENDING`; a pending request always goes on to its
/// overlapped result, and a failure code always ends it with that code.
pub proof fn lemma_request_outcomes(op: Operation, status: i32)
    ensures
        spec_after_issue(op, status) == RequestStep::Finished(Ok(())) <==> (status >= 0 && status
            != ND_PENDING),
        spec_after_issue(op, status) is AwaitOverlapped <==> status == ND_PENDING,
        status < 0 ==> spec_after_issue(op, status) == RequestStep::Finished(
            Err(NdError { code: status }),
        ),
{
}

} // verus!
