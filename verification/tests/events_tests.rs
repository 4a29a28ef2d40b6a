use gosh_transfer::events::{
    sse_frame, sse_heartbeat, ServerEvent, DRAIN_DEADLINE_SECS, EVENT_BUS_CAPACITY, HEARTBEAT_SECS,
};
use gosh_transfer::types::{PendingTransfer, TransferFile, TransferProgress};

fn pending(sender: Option<&str>, files: usize) -> PendingTransfer {
    PendingTransfer {
        id: "t1".to_string(),
        source_ip: "10.0.0.9".to_string(),
        sender_name: sender.map(|s| s.to_string()),
        files: (0..files)
            .map(|i| TransferFile {
                name: format!("f{}.bin", i),
                size: 1,
                mime_type: None,
                id: format!("id{}", i),
            })
            .collect(),
        total_size: files as u64,
        received_at: 0,
    }
}

fn all_events() -> Vec<ServerEvent> {
    vec![
        ServerEvent::TransferRequest { transfer: pending(Some("Den"), 1) },
        ServerEvent::Progress {
            progress: TransferProgress {
                transfer_id: "t1".to_string(),
                current_file: None,
                bytes_transferred: 1,
                total_bytes: 2,
                speed_bps: 3,
            },
        },
        ServerEvent::TransferComplete { transfer_id: "t1".to_string() },
        ServerEvent::TransferFailed { transfer_id: "t1".to_string(), error: "e".to_string() },
        ServerEvent::TransferRetry {
            transfer_id: "t1".to_string(),
            attempt: 1,
            max_attempts: 3,
            error: "e".to_string(),
        },
        ServerEvent::ServerStarted { port: 53317 },
        ServerEvent::ServerStopped,
        ServerEvent::PortChanged { old_port: 1, new_port: 2 },
    ]
}

#[test]
fn wire_tags_are_camel_case() {
    let tags: Vec<&str> = all_events().iter().map(|e| e.type_tag()).collect();
    assert_eq!(
        tags,
        vec![
            "transferRequest",
            "progress",
            "transferComplete",
            "transferFailed",
            "transferRetry",
            "serverStarted",
            "serverStopped",
            "portChanged",
        ]
    );
}

#[test]
fn event_names_are_kebab_case() {
    let names: Vec<&str> = all_events().iter().map(|e| e.event_name()).collect();
    assert_eq!(
        names,
        vec![
            "transfer-request",
            "transfer-progress",
            "transfer-complete",
            "transfer-failed",
            "transfer-retry",
            "server-started",
            "server-stopped",
            "port-changed",
        ]
    );
}

#[test]
fn request_notification_counts_the_files() {
    let one = ServerEvent::TransferRequest { transfer: pending(Some("Den PC"), 1) };
    let n = one.notification(true).unwrap();
    assert_eq!(n.title, "Incoming Transfer");
    assert_eq!(n.body, "Den PC wants to send you a file");
    let many = ServerEvent::TransferRequest { transfer: pending(None, 12) };
    assert_eq!(many.notification(true).unwrap().body, "Unknown Device wants to send you 12 files");
    let none = ServerEvent::TransferRequest { transfer: pending(Some("X"), 0) };
    assert_eq!(none.notification(true).unwrap().body, "X wants to send you 0 files");
    assert!(one.notification(false).is_none());
}

#[test]
fn only_requests_and_completions_notify() {
    let events = all_events();
    let shown: Vec<bool> = events.iter().map(|e| e.notification(true).is_some()).collect();
    assert_eq!(shown, vec![true, false, true, false, false, false, false, false]);
    let done = events[2].notification(true).unwrap();
    assert_eq!(done.title, "Transfer Complete");
    assert_eq!(done.body, "Files received successfully");
    assert!(events.iter().all(|e| e.notification(false).is_none()));
    let copy = events[4].clone();
    match copy {
        ServerEvent::TransferRetry { attempt, max_attempts, .. } => {
            assert_eq!(attempt, 1);
            assert_eq!(max_attempts, 3);
        }
        _ => panic!("clone changed the variant"),
    }
}

#[test]
fn stream_frames_are_exact() {
    assert_eq!(
        sse_frame("{\"type\":\"serverStopped\"}").as_deref(),
        Some("data: {\"type\":\"serverStopped\"}\n\n")
    );
    assert_eq!(sse_frame("").as_deref(), Some("data: \n\n"));
    assert!(sse_frame("a\nb").is_none());
    assert!(sse_frame("a\r").is_none());
    assert_eq!(sse_heartbeat(), ": heartbeat\n\n");
    assert!(EVENT_BUS_CAPACITY >= 100);
    assert_eq!(HEARTBEAT_SECS, 15);
    assert_eq!(DRAIN_DEADLINE_SECS, 5);
}
