//! The cancellation token: a tri-state flag that the user interface raises
//! and the orchestrator honours.
//!
//! The token is plain owned state. Callers that share it between threads keep
//! it behind one lock and call these functions with the lock held, so every
//! access is serialised.

use vstd::prelude::*;

verus! {

/// Where a cancellation stands.
#[derive(Debug, Clone, Copy, PartialEq, Eq, Structural)]
pub enum CancelStatus {
    /// Normal operation.
    NoStatus,
    /// The user asked to stop and the pipeline has not yet answered.
    CancelRequested,
    /// The pipeline has unwound in answer to a request.
    Cancelled,
}

/// The cancellation token.
pub struct CancelContainer {
    pub status: CancelStatus,
}

impl CancelContainer {
    /// The token after a cancellation was requested.
    pub open spec fn after_request(self) -> Self {
        CancelContainer { status: CancelStatus::CancelRequested }
    }

    /// The token after the pipeline honoured a cancellation.
    pub open spec fn after_cancelled(self) -> Self {
        CancelContainer { status: CancelStatus::Cancelled }
    }

    /// The token after a reset.
    pub open spec fn after_reset(self) -> Self {
        CancelContainer { status: CancelStatus::NoStatus }
    }

    /// A token in normal operation.
    pub fn new() -> (token: Self)
        ensures
            token.status == CancelStatus::NoStatus,
    {
        CancelContainer { status: CancelStatus::NoStatus }
    }
}

/// Asks the pipeline to stop. Only the user interface calls this.
pub fn set_request_cancel(token: &mut CancelContainer)
    ensures
        *final(token) == old(token).after_request(),
{
    token.status = CancelStatus::CancelRequested;
}

/// Records that the pipeline has stopped in answer to a request. Only the
/// orchestrator calls this.
pub fn set_task_cancelled(token: &mut CancelContainer)
    ensures
        *final(token) == old(token).after_cancelled(),
{
    token.status = CancelStatus::Cancelled;
}

/// Returns the token to normal operation. Called once a run has unwound, never
/// while one is executing.
pub fn reset_cancel_status(token: &mut CancelContainer)
    ensures
        *final(token) == old(token).after_reset(),
{
    token.status = CancelStatus::NoStatus;
}

/// Whether a cancellation was requested and is still unanswered.
pub fn is_cancel_requested(token: &CancelContainer) -> (requested: bool)
    ensures
        requested == (token.status == CancelStatus::CancelRequested),
{
    token.status == CancelStatus::CancelRequested
}

/// Requesting a cancellation twice before it is observed leaves the token as
/// one request does.
pub proof fn lemma_request_cancel_idempotent(token: CancelContainer)
    ensures
        token.after_request().after_request() == token.after_request(),
        token.after_request().status == CancelStatus::CancelRequested,
{
}

} // verus!
