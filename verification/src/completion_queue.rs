//! Completion queues and the kinds of completion they notify about.

use vstd::prelude::*;

verus! {

/// `ND_CQ_NOTIFY_ERRORS`.
pub const ND_CQ_NOTIFY_ERRORS: u32 = 0;

/// `ND_CQ_NOTIFY_ANY`.
pub const ND_CQ_NOTIFY_ANY: u32 = 1;

/// `ND_CQ_NOTIFY_SOLICITED`.
pub const ND_CQ_NOTIFY_SOLICITED: u32 = 2;

/// Which completions a notification request waits for.
#[derive(Debug, Clone, Copy, PartialEq, Eq, Structural)]
pub enum NotifyType {
    /// Completions with an error.
    Errors,
    /// Any completion.
    Any,
    /// Solicited completions.
    Solicited,
}

impl NotifyType {
    pub open spec fn spec_to_u32(self) -> u32 {
        match self {
            NotifyType::Errors => ND_CQ_NOTIFY_ERRORS,
            NotifyType::Any => ND_CQ_NOTIFY_ANY,
            NotifyType::Solicited => ND_CQ_NOTIFY_SOLICITED,
        }
    }

    /// The `ND_CQ_NOTIFY_*` value handed to `IND2CompletionQueue::Notify`.
    pub fn to_u32(self) -> (r: u32)
        ensures
            r == self.spec_to_u32(),
    {
        match self {
            NotifyType::Errors => ND_CQ_NOTIFY_ERRORS,
            NotifyType::Any => ND_CQ_NOTIFY_ANY,
            NotifyType::Solicited => ND_CQ_NOTIFY_SOLICITED,
        }
    }
}

/// Distinct kinds are handed over as distinct values, each below 3.
pub proof fn lemma_notify_values_distinct(a: NotifyType, b: NotifyType)
    ensures
        a.spec_to_u32() == b.spec_to_u32() <==> a == b,
        a.spec_to_u32() < 3,
{
}

/// A completion queue (`IND2CompletionQueue`), held through the owned
/// interface reference `H`.
#[derive(Clone)]
pub struct CompletionQueue<H> {
    handle: H,
}

impl<H> CompletionQueue<H> {
    /// The interface reference this value holds.
    pub closed spec fn spec_handle(&self) -> H {
        self.handle
    }

    /// Takes ownership of an interface reference.
    pub fn from(handle: H) -> (r: Self)
        ensures
            r.spec_handle() == handle,
    {
        CompletionQueue { handle }
    }

    /// The interface reference.
    pub fn handle(&self) -> (r: &H)
        ensures
            *r == self.spec_handle(),
    {
        &self.handle
    }
}

/// Whether polling is over: `GetResults` into a one-entry buffer reported
/// `count` results, and polling notifies and asks again while that is none.
pub fn poll_has_result(count: u32) -> (r: bool)
    ensures
        r == (count != 0),
{
    count != 0
}

} // verus!
