//! The session-refresh exchange: a credentialed GET to a fixed endpoint whose
//! JSON reply carries a `status` of `"success"` when the credential was renewed.

use vstd::prelude::*;
use crate::text::{join2, lower_of, lowercase};

verus! {

/// Path of the refresh endpoint, relative to the backend's base URL.
pub const REFRESH_PATH: &'static str = "api/auth/refresh";

/// Reason given when the refresh reply could not be had at all.
pub const REFRESH_TRANSPORT_FAILED: &'static str = "Failed to authenticate";

/// The refresh endpoint's reply.
#[derive(Debug, Clone)]
pub struct RefreshResponse {
    pub status: String,
    pub message: String,
}

pub enum RefreshStatus {
    NotStarted,
    InProgress,
    Success,
    Failed(String),
}

pub enum RefreshStatusView {
    NotStarted,
    InProgress,
    Success,
    Failed(Seq<char>),
}

impl View for RefreshStatus {
    type V = RefreshStatusView;

    open spec fn view(&self) -> RefreshStatusView {
        match self {
            RefreshStatus::NotStarted => RefreshStatusView::NotStarted,
            RefreshStatus::InProgress => RefreshStatusView::InProgress,
            RefreshStatus::Success => RefreshStatusView::Success,
            RefreshStatus::Failed(m) => RefreshStatusView::Failed(m@),
        }
    }
}

/// What a poll of an outstanding refresh found.
pub enum RefreshPoll {
    /// No reply yet, or no refresh outstanding.
    NotReady,
    /// The reply arrived and was decoded.
    Ready(RefreshResponse),
    /// The exchange failed before a reply could be decoded.
    Error(String),
}

/// A reply `status` that reports success, compared without regard to case.
pub open spec fn is_success_status(status: Seq<char>) -> bool {
    lower_of(status) == "success"@
}

pub fn status_is_success(status: &str) -> (r: bool)
    ensures
        r == is_success_status(status@),
{
    let lowered = lowercase(status);
    lowered == "success".to_owned()
}

/// The status of the refresh, given whether one is outstanding and what its
/// poll found.
pub open spec fn refresh_outcome(pending: bool, poll: RefreshPoll) -> RefreshStatusView {
    if !pending {
        RefreshStatusView::NotStarted
    } else {
        match poll {
            RefreshPoll::NotReady => RefreshStatusView::InProgress,
            RefreshPoll::Ready(resp) => if is_success_status(resp.status@) {
                RefreshStatusView::Success
            } else {
                RefreshStatusView::Failed(resp.message@)
            },
            RefreshPoll::Error(_) => RefreshStatusView::Failed(REFRESH_TRANSPORT_FAILED@),
        }
    }
}

/// Polls the refresh tracked by `pending`, which is cleared once it has
/// resolved.
pub fn check_refresh_promise(pending: &mut bool, poll: RefreshPoll) -> (r: RefreshStatus)
    ensures
        r@ == refresh_outcome(*old(pending), poll),
        *final(pending) == (*old(pending) && poll is NotReady),
{
    if !*pending {
        return RefreshStatus::NotStarted;
    }
    match poll {
        RefreshPoll::NotReady => RefreshStatus::InProgress,
        RefreshPoll::Ready(resp) => {
            *pending = false;
            if status_is_success(resp.status.as_str()) {
                RefreshStatus::Success
            } else {
                RefreshStatus::Failed(resp.message)
            }
        },
        RefreshPoll::Error(_) => {
            *pending = false;
            RefreshStatus::Failed(REFRESH_TRANSPORT_FAILED.to_owned())
        },
    }
}

/// The URL of the refresh endpoint of the backend at `base`.
pub fn refresh_url(base: &str) -> (r: String)
    ensures
        r@ == base@ + REFRESH_PATH@,
{
    join2(base, REFRESH_PATH)
}

} // verus!
