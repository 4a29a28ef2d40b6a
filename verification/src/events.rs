//! Lifecycle events of the engine, the names under which they are handed
//! on, and the notifications shown for them.

use crate::text::u64_to_text;
use crate::text::decimal;
use crate::types::{
    PendingTransfer, PendingTransferView, TransferProgress, TransferProgressView,
};
use vstd::prelude::*;
use vstd::string::*;

verus! {

/// The number of events that the bus holds for a subscriber that lags.
pub const EVENT_BUS_CAPACITY: usize = 100;

/// The seconds between two heartbeats on an event stream.
pub const HEARTBEAT_SECS: u64 = 15;

/// The seconds given to open connections when the listener moves or
/// stops.
pub const DRAIN_DEADLINE_SECS: u64 = 5;

/// Whether a text has no line break in it.
pub open spec fn single_line(s: Seq<char>) -> bool {
    forall|i: int| 0 <= i < s.len() ==> s[i] != '\n' && s[i] != '\r'
}

/// The frame of an event stream that carries `payload`.
pub open spec fn sse_frame_of(payload: Seq<char>) -> Seq<char> {
    "data: "@ + payload + "\n\n"@
}

/// Frames one event for an event stream; `None` for a payload with a line
/// break, which one frame cannot carry.
pub fn sse_frame(payload: &str) -> (r: Option<String>)
    ensures
        match r {
            Some(frame) => single_line(payload@) && frame@ == sse_frame_of(payload@),
            None => !single_line(payload@),
        },
{
    let n: usize = payload.unicode_len();
    let mut i: usize = 0;
    while i < n
        invariant
            i <= n,
            n == payload@.len(),
            forall|j: int| 0 <= j < i ==> payload@[j] != '\n' && payload@[j] != '\r',
        decreases n - i,
    {
        let c = payload.get_char(i);
        if c == '\n' || c == '\r' {
            return None;
        }
        i = i + 1;
    }
    Some("data: ".to_string().concat(payload).concat("\n\n"))
}

/// The frame that keeps an idle event stream open: a comment.
pub fn sse_heartbeat() -> (r: &'static str)
    ensures
        r@ == ": heartbeat\n\n"@,
{
    ": heartbeat\n\n"
}

/// Model of a [`ServerEvent`].
pub enum ServerEventView {
    TransferRequest { transfer: PendingTransferView },
    Progress { progress: TransferProgressView },
    TransferComplete { transfer_id: Seq<char> },
    TransferFailed { transfer_id: Seq<char>, error: Seq<char> },
    TransferRetry { transfer_id: Seq<char>, attempt: u32, max_attempts: u32, error: Seq<char> },
    ServerStarted { port: u16 },
    ServerStopped,
    PortChanged { old_port: u16, new_port: u16 },
}

/// Events emitted by the engine.
#[derive(Debug)]
pub enum ServerEvent {
    /// A new transfer request was received and waits for approval.
    TransferRequest { transfer: PendingTransfer },
    /// Progress of a transfer.
    Progress { progress: TransferProgress },
    /// A transfer completed successfully.
    TransferComplete { transfer_id: String },
    /// A transfer failed.
    TransferFailed { transfer_id: String, error: String },
    /// A step of a transfer failed and is tried again.
    TransferRetry { transfer_id: String, attempt: u32, max_attempts: u32, error: String },
    /// The server listens on a port.
    ServerStarted { port: u16 },
    /// The server no longer listens.
    ServerStopped,
    /// The server moved from one port to another.
    PortChanged { old_port: u16, new_port: u16 },
}

impl View for ServerEvent {
    type V = ServerEventView;

    open spec fn view(&self) -> ServerEventView {
        match self {
            ServerEvent::TransferRequest { transfer } => ServerEventView::TransferRequest {
                transfer: transfer@,
            },
            ServerEvent::Progress { progress } => ServerEventView::Progress {
                progress: progress@,
            },
            ServerEvent::TransferComplete { transfer_id } => ServerEventView::TransferComplete {
                transfer_id: transfer_id@,
            },
            ServerEvent::TransferFailed { transfer_id, error } => ServerEventView::TransferFailed {
                transfer_id: transfer_id@,
                error: error@,
            },
            ServerEvent::TransferRetry {
                transfer_id,
                attempt,
                max_attempts,
                error,
            } => ServerEventView::TransferRetry {
                transfer_id: transfer_id@,
                attempt: *attempt,
                max_attempts: *max_attempts,
                error: error@,
            },
            ServerEvent::ServerStarted { port } => ServerEventView::ServerStarted { port: *port },
            ServerEvent::ServerStopped => ServerEventView::ServerStopped,
            ServerEvent::PortChanged { old_port, new_port } => ServerEventView::PortChanged {
                old_port: *old_port,
                new_port: *new_port,
            },
        }
    }
}

impl DeepView for ServerEvent {
    type V = ServerEventView;

    open spec fn deep_view(&self) -> ServerEventView {
        self@
    }
}

impl Clone for ServerEvent {
    fn clone(&self) -> (r: Self)
        ensures
            r@ == self@,
    {
        match self {
            ServerEvent::TransferRequest { transfer } => ServerEvent::TransferRequest {
                transfer: transfer.clone(),
            },
            ServerEvent::Progress { progress } => ServerEvent::Progress {
                progress: progress.clone(),
            },
            ServerEvent::TransferComplete { transfer_id } => ServerEvent::TransferComplete {
                transfer_id: transfer_id.clone(),
            },
            ServerEvent::TransferFailed { transfer_id, error } => ServerEvent::TransferFailed {
                transfer_id: transfer_id.clone(),
                error: error.clone(),
            },
            ServerEvent::TransferRetry {
                transfer_id,
                attempt,
                max_attempts,
                error,
            } => ServerEvent::TransferRetry {
                transfer_id: transfer_id.clone(),
                attempt: *attempt,
                max_attempts: *max_attempts,
                error: error.clone(),
            },
            ServerEvent::ServerStarted { port } => ServerEvent::ServerStarted { port: *port },
            ServerEvent::ServerStopped => ServerEvent::ServerStopped,
            ServerEvent::PortChanged { old_port, new_port } => ServerEvent::PortChanged {
                old_port: *old_port,
                new_port: *new_port,
            },
        }
    }
}

impl ServerEventView {
    /// The transfer that an event is about, where it is about one.
    pub open spec fn transfer_id(self) -> Option<Seq<char>> {
        match self {
            ServerEventView::TransferRequest { transfer } => Some(transfer.id),
            ServerEventView::Progress { progress } => Some(progress.transfer_id),
            ServerEventView::TransferComplete { transfer_id } => Some(transfer_id),
            ServerEventView::TransferFailed { transfer_id, .. } => Some(transfer_id),
            ServerEventView::TransferRetry { transfer_id, .. } => Some(transfer_id),
            ServerEventView::ServerStarted { .. } => None,
            ServerEventView::ServerStopped => None,
            ServerEventView::PortChanged { .. } => None,
        }
    }

    /// The value of the `type` field of an event on the wire.
    pub open spec fn type_tag(self) -> Seq<char> {
        match self {
            ServerEventView::TransferRequest { .. } => "transferRequest"@,
            ServerEventView::Progress { .. } => "progress"@,
            ServerEventView::TransferComplete { .. } => "transferComplete"@,
            ServerEventView::TransferFailed { .. } => "transferFailed"@,
            ServerEventView::TransferRetry { .. } => "transferRetry"@,
            ServerEventView::ServerStarted { .. } => "serverStarted"@,
            ServerEventView::ServerStopped => "serverStopped"@,
            ServerEventView::PortChanged { .. } => "portChanged"@,
        }
    }

    /// The name under which an event is handed to the user interface.
    pub open spec fn event_name(self) -> Seq<char> {
        match self {
            ServerEventView::TransferRequest { .. } => "transfer-request"@,
            ServerEventView::Progress { .. } => "transfer-progress"@,
            ServerEventView::TransferComplete { .. } => "transfer-complete"@,
            ServerEventView::TransferFailed { .. } => "transfer-failed"@,
            ServerEventView::TransferRetry { .. } => "transfer-retry"@,
            ServerEventView::ServerStarted { .. } => "server-started"@,
            ServerEventView::ServerStopped => "server-stopped"@,
            ServerEventView::PortChanged { .. } => "port-changed"@,
        }
    }

    /// The notification shown for an event, where notifications are on:
    /// one for an incoming request and one for a completed transfer.
    pub open spec fn notification(self, notifications_enabled: bool) -> Option<NotificationView> {
        if !notifications_enabled {
            None
        } else {
            match self {
                ServerEventView::TransferRequest { transfer } => Some(
                    NotificationView {
                        title: "Incoming Transfer"@,
                        body: request_body(transfer.sender_name, transfer.files.len()),
                    },
                ),
                ServerEventView::TransferComplete { .. } => Some(
                    NotificationView {
                        title: "Transfer Complete"@,
                        body: "Files received successfully"@,
                    },
                ),
                _ => None,
            }
        }
    }
}

/// The text of the notification for a request with `count` files.
pub open spec fn request_body(sender_name: Option<Seq<char>>, count: nat) -> Seq<char> {
    let sender = match sender_name {
        Some(s) => s,
        None => "Unknown Device"@,
    };
    if count == 1 {
        sender + " wants to send you a file"@
    } else {
        sender + " wants to send you "@ + decimal(count) + " files"@
    }
}

/// Model of a [`Notification`].
pub struct NotificationView {
    pub title: Seq<char>,
    pub body: Seq<char>,
}

/// A system notification.
#[derive(Debug)]
pub struct Notification {
    pub title: String,
    pub body: String,
}

impl View for Notification {
    type V = NotificationView;

    open spec fn view(&self) -> NotificationView {
        NotificationView { title: self.title@, body: self.body@ }
    }
}

impl DeepView for Notification {
    type V = NotificationView;

    open spec fn deep_view(&self) -> NotificationView {
        self@
    }
}

impl ServerEvent {
    /// The value of the `type` field of this event on the wire.
    pub fn type_tag(&self) -> (r: &'static str)
        ensures
            r@ == self@.type_tag(),
    {
        match self {
            ServerEvent::TransferRequest { .. } => "transferRequest",
            ServerEvent::Progress { .. } => "progress",
            ServerEvent::TransferComplete { .. } => "transferComplete",
            ServerEvent::TransferFailed { .. } => "transferFailed",
            ServerEvent::TransferRetry { .. } => "transferRetry",
            ServerEvent::ServerStarted { .. } => "serverStarted",
            ServerEvent::ServerStopped => "serverStopped",
            ServerEvent::PortChanged { .. } => "portChanged",
        }
    }

    /// The name under which this event is handed to the user interface.
    pub fn event_name(&self) -> (r: &'static str)
        ensures
            r@ == self@.event_name(),
    {
        match self {
            ServerEvent::TransferRequest { .. } => "transfer-request",
            ServerEvent::Progress { .. } => "transfer-progress",
            ServerEvent::TransferComplete { .. } => "transfer-complete",
            ServerEvent::TransferFailed { .. } => "transfer-failed",
            ServerEvent::TransferRetry { .. } => "transfer-retry",
            ServerEvent::ServerStarted { .. } => "server-started",
            ServerEvent::ServerStopped => "server-stopped",
            ServerEvent::PortChanged { .. } => "port-changed",
        }
    }

    /// The notification to show for this event, if any.
    pub fn notification(&self, notifications_enabled: bool) -> (r: Option<Notification>)
        ensures
            r.deep_view() == self@.notification(notifications_enabled),
    {
        if !notifications_enabled {
            return None;
        }
        match self {
            ServerEvent::TransferRequest { transfer } => {
                let sender = match &transfer.sender_name {
                    Some(s) => s.clone(),
                    None => "Unknown Device".to_string(),
                };
                let count: usize = transfer.files.len();
                let body = if count == 1 {
                    sender.concat(" wants to send you a file")
                } else {
                    sender.concat(" wants to send you ").concat(
                        u64_to_text(count as u64).as_str(),
                    ).concat(" files")
                };
                Some(Notification { title: "Incoming Transfer".to_string(), body })
            },
            ServerEvent::TransferComplete { .. } => Some(
                Notification {
                    title: "Transfer Complete".to_string(),
                    body: "Files received successfully".to_string(),
                },
            ),
            _ => None,
        }
    }
}

} // verus!
