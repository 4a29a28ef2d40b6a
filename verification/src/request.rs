//! How an incoming transfer request is dealt with: the cases, the change to
//! the registry, and the answer.

use crate::events::{ServerEvent, ServerEventView};
use crate::registry::{approved_from, pending_from, ServerStateView};
use crate::types::{AppErrorView, TransferRequestView, TransferResponse, TransferResponseView};
use vstd::prelude::*;

verus! {

/// How an incoming transfer request is dealt with.
pub enum RequestCase {
    /// The request is not well formed.
    Malformed,
    /// The transfer is approved already, and the request comes from the
    /// address that asked for it; the sender is told its token.
    Approved,
    /// The transfer ended without success.
    Rejected,
    /// The transfer waits for approval, or is approved for a sender at
    /// another address, who alone is told the token; nothing changes.
    Waiting,
    /// The sender is trusted; the transfer is approved without asking.
    AutoAccept,
    /// The transfer is put on the pending list.
    Enqueue,
}

/// Model of a [`RequestOutcome`].
pub struct RequestOutcomeView {
    pub status: u16,
    pub response: TransferResponseView,
    pub event: Option<ServerEventView>,
}

/// What is answered to a transfer request, and what is emitted for it.
#[derive(Debug)]
pub struct RequestOutcome {
    /// The HTTP status of the answer.
    pub status: u16,
    /// The body of the answer.
    pub response: TransferResponse,
    /// The event to emit once the answer is decided.
    pub event: Option<ServerEvent>,
}

impl View for RequestOutcome {
    type V = RequestOutcomeView;

    open spec fn view(&self) -> RequestOutcomeView {
        RequestOutcomeView {
            status: self.status,
            response: self.response@,
            event: self.event.deep_view(),
        }
    }
}

/// The answer to a request that is turned down with a message.
pub open spec fn refusal(message: Seq<char>) -> TransferResponseView {
    TransferResponseView { accepted: false, message: Some(message), token: None }
}

/// The answer to a request whose transfer is approved.
pub open spec fn approval(message: Option<Seq<char>>, token: Seq<char>) -> TransferResponseView {
    TransferResponseView { accepted: true, message, token: Some(token) }
}

impl ServerStateView {
    /// Whether requests from `source_ip` are approved without asking.
    pub open spec fn trusts(self, source_ip: Seq<char>) -> bool {
        !self.settings.receive_only && self.settings.trusted_hosts.contains(source_ip)
    }

    /// How a request from `source_ip` is dealt with.
    pub open spec fn request_case(self, req: TransferRequestView, source_ip: Seq<char>) -> RequestCase {
        if !req.well_formed() {
            RequestCase::Malformed
        } else if self.is_approved(req.transfer_id) {
            if self.approved[self.approved_index(req.transfer_id)].source_ip == source_ip {
                RequestCase::Approved
            } else {
                RequestCase::Waiting
            }
        } else if self.is_rejected(req.transfer_id) {
            RequestCase::Rejected
        } else if self.is_pending(req.transfer_id) {
            RequestCase::Waiting
        } else if self.trusts(source_ip) {
            RequestCase::AutoAccept
        } else {
            RequestCase::Enqueue
        }
    }

    /// The registry after a request was dealt with. `token` is the token
    /// for a transfer approved without asking, `now` the time of arrival.
    pub open spec fn after_request(
        self,
        req: TransferRequestView,
        source_ip: Seq<char>,
        token: Seq<char>,
        now: i64,
    ) -> ServerStateView {
        match self.request_case(req, source_ip) {
            RequestCase::AutoAccept => self.with_approved(
                approved_from(pending_from(req, source_ip, now), token, now),
            ),
            RequestCase::Enqueue => self.with_pending(pending_from(req, source_ip, now)),
            _ => self,
        }
    }

    /// What is answered to a request, and what is emitted for it.
    pub open spec fn request_outcome(
        self,
        req: TransferRequestView,
        source_ip: Seq<char>,
        token: Seq<char>,
        now: i64,
    ) -> RequestOutcomeView {
        match self.request_case(req, source_ip) {
            RequestCase::Malformed => RequestOutcomeView {
                status: 400,
                response: refusal("malformed transfer request"@),
                event: None,
            },
            RequestCase::Approved => RequestOutcomeView {
                status: 200,
                response: approval(None, self.approved[self.approved_index(req.transfer_id)].token),
                event: None,
            },
            RequestCase::Rejected => RequestOutcomeView {
                status: 503,
                response: refusal(self.rejected[self.rejected_index(req.transfer_id)].reason),
                event: None,
            },
            RequestCase::Waiting => RequestOutcomeView {
                status: 200,
                response: refusal("awaiting approval"@),
                event: None,
            },
            RequestCase::AutoAccept => RequestOutcomeView {
                status: 200,
                response: approval(Some("auto-accepted from trusted host"@), token),
                event: None,
            },
            RequestCase::Enqueue => RequestOutcomeView {
                status: 200,
                response: refusal("awaiting approval"@),
                event: Some(
                    ServerEventView::TransferRequest {
                        transfer: pending_from(req, source_ip, now),
                    },
                ),
            },
        }
    }
}

/// The error for an identifier that no pending transfer has.
pub open spec fn transfer_not_found(id: Seq<char>) -> AppErrorView {
    AppErrorView::InvalidConfig("Transfer not found: "@ + id)
}

} // verus!
