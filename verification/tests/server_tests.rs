use gosh_transfer::events::ServerEvent;
use gosh_transfer::chunk::{ChunkError, ChunkParams, ChunkTicket};
use gosh_transfer::client::ErrorKind;
use gosh_transfer::progress::{ChunkReceiver, DataStep};
use gosh_transfer::registry::FilePhase;
use gosh_transfer::request::RequestOutcome;
use gosh_transfer::server::{fresh_token, ServerState};
use gosh_transfer::settings::default_settings_from;
use gosh_transfer::types::{AppError, AppSettings, TransferFile, TransferRequest};

fn settings() -> AppSettings {
    default_settings_from(Some("/srv/downloads".to_string()), Some("receiver".to_string()))
}

fn file(id: &str, name: &str, size: u64) -> TransferFile {
    TransferFile { name: name.to_string(), size, mime_type: None, id: id.to_string() }
}

fn request(transfer_id: &str, files: Vec<TransferFile>) -> TransferRequest {
    let total_size = files.iter().map(|f| f.size).sum();
    TransferRequest {
        transfer_id: transfer_id.to_string(),
        sender_name: Some("sender".to_string()),
        files,
        total_size,
    }
}

fn params(transfer_id: &str, file_id: &str, token: &str) -> ChunkParams {
    ChunkParams::new(transfer_id.to_string(), file_id.to_string(), token.to_string())
}

fn post(state: &mut ServerState, req: TransferRequest) -> RequestOutcome {
    state.handle_transfer_request(req, "192.168.1.50")
}

fn approved(state: &mut ServerState, transfer_id: &str, files: Vec<TransferFile>) -> String {
    let outcome = post(state, request(transfer_id, files));
    assert_eq!(outcome.status, 200);
    state.accept_transfer(transfer_id).unwrap()
}

fn begin(state: &mut ServerState, transfer_id: &str, file_id: &str, token: &str) -> ChunkTicket {
    state.begin_chunk(&params(transfer_id, file_id, token), &Vec::new()).unwrap()
}

#[test]
fn new_request_waits_for_approval_and_is_announced() {
    let mut state = ServerState::new(settings());
    let outcome = post(&mut state, request("t1", vec![file("f1", "a.bin", 1048576)]));
    assert_eq!(outcome.status, 200);
    assert!(!outcome.response.accepted);
    assert_eq!(outcome.response.message.as_deref(), Some("awaiting approval"));
    assert!(outcome.response.token.is_none());
    match outcome.event {
        Some(ServerEvent::TransferRequest { transfer }) => {
            assert_eq!(transfer.id, "t1");
            assert_eq!(transfer.source_ip, "192.168.1.50");
            assert_eq!(transfer.sender_name.as_deref(), Some("sender"));
            assert_eq!(transfer.total_size, 1048576);
            assert_eq!(transfer.files.len(), 1);
            assert!(transfer.received_at > 1_600_000_000_000);
        }
        _ => panic!("expected a TransferRequest event"),
    }
    let pending = state.list_pending();
    assert_eq!(pending.len(), 1);
    assert_eq!(pending[0].id, "t1");
}

#[test]
fn repeated_request_changes_nothing_while_pending() {
    let mut state = ServerState::new(settings());
    post(&mut state, request("t1", vec![file("f1", "a.bin", 3)]));
    let again = post(&mut state, request("t1", vec![file("f1", "a.bin", 3)]));
    assert_eq!(again.status, 200);
    assert!(!again.response.accepted);
    assert!(again.event.is_none());
    assert_eq!(state.list_pending().len(), 1);
}

#[test]
fn happy_path_one_file_of_one_mebibyte() {
    let mut state = ServerState::new(settings());
    post(&mut state, request("t1", vec![file("f1", "a.bin", 1048576)]));
    let token = state.accept_transfer("t1").unwrap();
    assert_eq!(token.len(), 72);
    assert!(state.list_pending().is_empty());

    let repost = post(&mut state, request("t1", vec![file("f1", "a.bin", 1048576)]));
    assert!(repost.response.accepted);
    assert_eq!(repost.response.token.as_deref(), Some(token.as_str()));
    assert!(repost.event.is_none());

    let ticket = begin(&mut state, "t1", "f1", &token);
    assert_eq!(ticket.target_name, "a.bin");
    assert_eq!(ticket.path, "/srv/downloads/a.bin");
    assert_eq!(ticket.size, 1048576);
    assert_eq!(ticket.total_size, 1048576);
    assert_eq!(ticket.base_bytes, 0);
    assert_eq!(ticket.file_index, 0);
    assert_eq!(state.approved_transfer("t1").unwrap().phases, vec![FilePhase::Receiving]);

    let outcome = state.complete_chunk(&ticket, 1048576);
    assert_eq!(outcome.status, 200);
    assert_eq!(outcome.file, "a.bin");
    assert_eq!(outcome.bytes_received, 1048576);
    assert!(outcome.error.is_none());
    assert!(outcome.delete.is_empty());
    assert_eq!(outcome.events.len(), 1);
    match &outcome.events[0] {
        ServerEvent::TransferComplete { transfer_id } => assert_eq!(transfer_id, "t1"),
        _ => panic!("expected TransferComplete"),
    }
    assert!(state.approved_transfer("t1").is_none());
    assert!(state.rejection_reason("t1").is_none());
}

#[test]
fn rejection_is_terminal_and_answered_with_503() {
    let mut state = ServerState::new(settings());
    post(&mut state, request("t1", vec![file("f1", "a.bin", 3)]));
    match state.reject_transfer("t1").unwrap() {
        ServerEvent::TransferFailed { transfer_id, error } => {
            assert_eq!(transfer_id, "t1");
            assert_eq!(error, "rejected");
        }
        _ => panic!("expected TransferFailed"),
    }
    assert!(state.list_pending().is_empty());
    assert_eq!(state.rejection_reason("t1").as_deref(), Some("rejected"));
    let again = post(&mut state, request("t1", vec![file("f1", "a.bin", 3)]));
    assert_eq!(again.status, 503);
    assert!(!again.response.accepted);
    assert_eq!(again.response.message.as_deref(), Some("rejected"));
    assert!(again.response.token.is_none());
    assert!(again.event.is_none());
    match state.begin_chunk(&params("t1", "f1", "anything"), &Vec::new()) {
        Err(ChunkError::Unauthorized) => {}
        _ => panic!("expected Unauthorized"),
    }
    match state.accept_transfer("t1") {
        Err(AppError::InvalidConfig(m)) => assert_eq!(m, "Transfer not found: t1"),
        _ => panic!("expected an error"),
    }
}

#[test]
fn bad_token_is_unauthorized_and_leaves_the_approval_alone() {
    let mut state = ServerState::new(settings());
    let token = approved(&mut state, "t1", vec![file("f1", "a.bin", 3)]);
    let e = state.begin_chunk(&params("t1", "f1", "wrong"), &Vec::new()).unwrap_err();
    assert_eq!(e, ChunkError::Unauthorized);
    assert_eq!(e.status(), 401);
    assert_eq!(e.message(), "Invalid or expired token");
    let mut close = token.clone();
    close.pop();
    close.push(if token.ends_with('0') { '1' } else { '0' });
    assert_eq!(
        state.begin_chunk(&params("t1", "f1", &close), &Vec::new()).unwrap_err(),
        ChunkError::Unauthorized
    );
    assert_eq!(
        state.begin_chunk(&params("t1", "f1", ""), &Vec::new()).unwrap_err(),
        ChunkError::Unauthorized
    );
    assert_eq!(
        state.begin_chunk(&params("unknown", "f1", &token), &Vec::new()).unwrap_err(),
        ChunkError::Unauthorized
    );
    let record = state.approved_transfer("t1").unwrap();
    assert_eq!(record.token, token);
    assert_eq!(record.phases, vec![FilePhase::Waiting]);
    assert!(begin(&mut state, "t1", "f1", &token).path.ends_with("/a.bin"));
}

#[test]
fn unknown_file_is_not_found() {
    let mut state = ServerState::new(settings());
    let token = approved(&mut state, "t1", vec![file("f1", "a.bin", 3)]);
    let e = state.begin_chunk(&params("t1", "f9", &token), &Vec::new()).unwrap_err();
    assert_eq!(e, ChunkError::FileNotFound);
    assert_eq!(e.status(), 404);
    assert_eq!(e.message(), "File not found in transfer");
}

#[test]
fn second_upload_of_the_same_file_is_refused() {
    let mut state = ServerState::new(settings());
    let token = approved(&mut state, "t1", vec![file("f1", "a.bin", 3), file("f2", "b.bin", 4)]);
    let ticket = begin(&mut state, "t1", "f1", &token);
    let e = state.begin_chunk(&params("t1", "f1", &token), &Vec::new()).unwrap_err();
    assert_eq!(e, ChunkError::NotWaiting);
    assert_eq!(e.status(), 400);
    let done = state.complete_chunk(&ticket, 3);
    assert_eq!(done.status, 200);
    assert!(done.events.is_empty());
    assert_eq!(
        state.begin_chunk(&params("t1", "f1", &token), &Vec::new()).unwrap_err(),
        ChunkError::NotWaiting
    );
    let record = state.approved_transfer("t1").unwrap();
    assert_eq!(record.bytes_transferred, 3);
    assert_eq!(record.phases, vec![FilePhase::Done, FilePhase::Waiting]);
}

#[test]
fn collision_between_two_transfers() {
    let mut state = ServerState::new(settings());
    let token1 = approved(&mut state, "t1", vec![file("f1", "report.pdf", 10)]);
    let token2 = approved(&mut state, "t2", vec![file("f1", "report.pdf", 10)]);
    let first = begin(&mut state, "t1", "f1", &token1);
    let second = begin(&mut state, "t2", "f1", &token2);
    assert_eq!(first.path, "/srv/downloads/report.pdf");
    assert_eq!(second.path, "/srv/downloads/report (1).pdf");
    assert_eq!(state.complete_chunk(&first, 10).status, 200);
    assert_eq!(state.complete_chunk(&second, 10).status, 200);
    assert_eq!(state.complete_chunk(&second, 10).bytes_received, 10);
}

#[test]
fn collision_with_files_on_disk_takes_the_smallest_free_number() {
    let mut state = ServerState::new(settings());
    let token = approved(&mut state, "t1", vec![file("f1", "report.pdf", 10)]);
    let on_disk = vec![
        "report.pdf".to_string(),
        "report (1).pdf".to_string(),
        "report (3).pdf".to_string(),
    ];
    let ticket = state.begin_chunk(&params("t1", "f1", &token), &on_disk).unwrap();
    assert_eq!(ticket.target_name, "report (2).pdf");
    assert_eq!(ticket.file_name, "report.pdf");
}

#[test]
fn duplicate_names_in_one_transfer_go_to_distinct_targets() {
    let mut state = ServerState::new(settings());
    let token = approved(
        &mut state,
        "t1",
        vec![file("f1", "notes.txt", 1), file("f2", "notes.txt", 2), file("f3", "notes.txt", 3)],
    );
    let a = begin(&mut state, "t1", "f1", &token);
    assert_eq!(state.complete_chunk(&a, 1).status, 200);
    let b = begin(&mut state, "t1", "f2", &token);
    assert_eq!(state.complete_chunk(&b, 2).status, 200);
    let c = begin(&mut state, "t1", "f3", &token);
    assert_eq!(a.target_name, "notes.txt");
    assert_eq!(b.target_name, "notes (1).txt");
    assert_eq!(c.target_name, "notes (2).txt");
    assert_eq!(c.base_bytes, 3);
    let last = state.complete_chunk(&c, 3);
    assert_eq!(last.events.len(), 1);
}

#[test]
fn size_mismatch_fails_the_transfer_and_deletes_the_partial_file() {
    let mut state = ServerState::new(settings());
    let token = approved(&mut state, "t1", vec![file("f1", "a.bin", 100)]);
    let ticket = begin(&mut state, "t1", "f1", &token);
    let outcome = state.complete_chunk(&ticket, 99);
    assert_eq!(outcome.status, 500);
    assert_eq!(outcome.bytes_received, 99);
    assert_eq!(
        outcome.error.as_deref(),
        Some("size mismatch: expected 100 bytes, received 99")
    );
    assert_eq!(outcome.delete, vec!["/srv/downloads/a.bin".to_string()]);
    assert_eq!(outcome.events.len(), 1);
    match &outcome.events[0] {
        ServerEvent::TransferFailed { transfer_id, error } => {
            assert_eq!(transfer_id, "t1");
            assert_eq!(error, "size mismatch: expected 100 bytes, received 99");
        }
        _ => panic!("expected TransferFailed"),
    }
    assert!(state.approved_transfer("t1").is_none());
    assert!(state.rejection_reason("t1").unwrap().starts_with("size mismatch"));
    assert_eq!(
        state.begin_chunk(&params("t1", "f1", &token), &Vec::new()).unwrap_err(),
        ChunkError::Unauthorized
    );
}

#[test]
fn failure_deletes_every_file_written_for_the_transfer() {
    let mut state = ServerState::new(settings());
    let token = approved(&mut state, "t1", vec![file("f1", "a.bin", 5), file("f2", "b.bin", 6)]);
    let other = approved(&mut state, "t2", vec![file("f1", "c.bin", 7)]);
    let a = begin(&mut state, "t1", "f1", &token);
    assert_eq!(state.complete_chunk(&a, 5).status, 200);
    let c = begin(&mut state, "t2", "f1", &other);
    let b = begin(&mut state, "t1", "f2", &token);
    let outcome = state.fail_chunk(&b, 2, "connection reset");
    assert_eq!(outcome.status, 500);
    assert_eq!(outcome.error.as_deref(), Some("connection reset"));
    assert_eq!(
        outcome.delete,
        vec!["/srv/downloads/a.bin".to_string(), "/srv/downloads/b.bin".to_string()]
    );
    assert_eq!(state.rejection_reason("t1").as_deref(), Some("connection reset"));
    assert_eq!(state.complete_chunk(&c, 7).status, 200);
    let stale = state.fail_chunk(&b, 2, "again");
    assert_eq!(stale.status, 500);
    assert!(stale.events.is_empty());
    assert_eq!(stale.delete, vec!["/srv/downloads/b.bin".to_string()]);
    assert_eq!(stale.error.as_deref(), Some("transfer is no longer active"));
}

#[test]
fn cancellation_mid_file_leaves_no_partial_file() {
    let mut state = ServerState::new(settings());
    let token = approved(&mut state, "t1", vec![file("f1", "big.iso", 1000)]);
    let ticket = begin(&mut state, "t1", "f1", &token);
    assert!(!state.is_cancelled("t1"));
    state.cancel_transfer("t1").unwrap();
    assert!(state.is_cancelled("t1"));
    let outcome = state.complete_chunk(&ticket, 1000);
    assert_eq!(outcome.status, 500);
    assert_eq!(outcome.error.as_deref(), Some("cancelled"));
    assert_eq!(outcome.delete, vec!["/srv/downloads/big.iso".to_string()]);
    match &outcome.events[0] {
        ServerEvent::TransferFailed { error, .. } => assert_eq!(error, "cancelled"),
        _ => panic!("expected TransferFailed"),
    }
    assert!(!state.is_cancelled("t1"));
    assert!(state.cancel_transfer("t1").is_err());
}

#[test]
fn empty_file_transfers_successfully() {
    let mut state = ServerState::new(settings());
    let token = approved(&mut state, "t1", vec![file("f1", "empty.txt", 0)]);
    let ticket = begin(&mut state, "t1", "f1", &token);
    assert_eq!(ticket.size, 0);
    let outcome = state.complete_chunk(&ticket, 0);
    assert_eq!(outcome.status, 200);
    assert_eq!(outcome.bytes_received, 0);
    assert_eq!(outcome.events.len(), 1);
}

#[test]
fn transfer_without_files_is_accepted_and_stays_approved() {
    let mut state = ServerState::new(settings());
    let token = approved(&mut state, "t0", vec![]);
    assert_eq!(state.approved_transfer("t0").unwrap().token, token);
    assert_eq!(
        state.begin_chunk(&params("t0", "f1", &token), &Vec::new()).unwrap_err(),
        ChunkError::FileNotFound
    );
}

#[test]
fn non_ascii_name_is_kept_as_it_is() {
    let mut state = ServerState::new(settings());
    let name = "r\u{e9}sum\u{e9} \u{65e5}\u{672c}\u{8a9e}.pdf";
    let token = approved(&mut state, "t1", vec![file("f1", name, 4)]);
    let ticket = begin(&mut state, "t1", "f1", &token);
    assert_eq!(ticket.target_name, name);
    assert_eq!(ticket.target_name.as_bytes(), name.as_bytes());
    assert_eq!(ticket.path, format!("/srv/downloads/{}", name));
    let taken = vec![name.to_string()];
    let token2 = approved(&mut state, "t2", vec![file("f1", name, 4)]);
    let second = state.begin_chunk(&params("t2", "f1", &token2), &taken).unwrap();
    assert_eq!(second.target_name, "r\u{e9}sum\u{e9} \u{65e5}\u{672c}\u{8a9e} (1).pdf");
}

#[test]
fn path_traversal_cannot_leave_the_download_directory() {
    let mut state = ServerState::new(settings());
    let token = approved(
        &mut state,
        "t1",
        vec![
            file("f1", "../../etc/passwd", 1),
            file("f2", "..", 1),
            file("f3", "dir/", 1),
            file("f4", "C:\\Windows\\system.ini", 1),
            file("f5", ".", 1),
            file("f6", "", 1),
        ],
    );
    let a = begin(&mut state, "t1", "f1", &token);
    assert_eq!(a.path, "/srv/downloads/passwd");
    for id in ["f2", "f3", "f5", "f6"] {
        let e = state.begin_chunk(&params("t1", id, &token), &Vec::new()).unwrap_err();
        assert_eq!(e, ChunkError::UnsafeName);
        assert_eq!(e.status(), 400);
        assert_eq!(e.message(), "Invalid file name");
    }
    let d = begin(&mut state, "t1", "f4", &token);
    assert_eq!(d.path, "/srv/downloads/system.ini");
    assert!(d.path.starts_with("/srv/downloads/"));
}

#[test]
fn malformed_requests_are_refused_with_400() {
    let mut state = ServerState::new(settings());
    let mut wrong_total = request("t1", vec![file("f1", "a", 10), file("f2", "b", 5)]);
    wrong_total.total_size = 16;
    let outcome = post(&mut state, wrong_total);
    assert_eq!(outcome.status, 400);
    assert!(!outcome.response.accepted);
    assert_eq!(outcome.response.message.as_deref(), Some("malformed transfer request"));
    assert!(outcome.event.is_none());

    let duplicate_ids = request("t2", vec![file("f1", "a", 10), file("f1", "b", 5)]);
    assert_eq!(post(&mut state, duplicate_ids).status, 400);

    let mut overflow = request("t3", vec![file("f1", "a", 1)]);
    overflow.files.push(file("f2", "b", u64::MAX));
    overflow.total_size = 0;
    assert_eq!(post(&mut state, overflow).status, 400);
    assert!(state.list_pending().is_empty());
}

#[test]
fn trusted_host_is_accepted_without_asking() {
    let mut s = settings();
    s.add_trusted_host("192.168.1.50".to_string());
    let mut state = ServerState::new(s);
    let outcome = post(&mut state, request("t1", vec![file("f1", "a.bin", 3)]));
    assert_eq!(outcome.status, 200);
    assert!(outcome.response.accepted);
    assert_eq!(outcome.response.message.as_deref(), Some("auto-accepted from trusted host"));
    let token = outcome.response.token.unwrap();
    assert_eq!(token.len(), 72);
    assert!(outcome.event.is_none());
    assert!(state.list_pending().is_empty());
    assert_eq!(state.approved_transfer("t1").unwrap().token, token);
    let other = state.handle_transfer_request(request("t2", vec![]), "10.9.9.9");
    assert!(!other.response.accepted);
    assert_eq!(state.list_pending().len(), 1);
}

#[test]
fn receive_only_mode_never_accepts_without_asking() {
    let mut s = settings();
    s.add_trusted_host("192.168.1.50".to_string());
    s.receive_only = true;
    let mut state = ServerState::new(s);
    let outcome = post(&mut state, request("t1", vec![file("f1", "a.bin", 3)]));
    assert!(!outcome.response.accepted);
    assert!(outcome.event.is_some());
}

#[test]
fn fixed_token_and_time_are_stored_as_given() {
    let mut state = ServerState::new(settings());
    let req = request("t1", vec![file("f1", "a.bin", 3)]);
    let outcome =
        state.handle_transfer_request_with(req, "10.0.0.1", "unused".to_string(), 42);
    match outcome.event {
        Some(ServerEvent::TransferRequest { transfer }) => assert_eq!(transfer.received_at, 42),
        _ => panic!("expected a TransferRequest event"),
    }
    let token = state.accept_transfer_with("t1", "secret-token".to_string(), 77).unwrap();
    assert_eq!(token, "secret-token");
    let record = state.approved_transfer("t1").unwrap();
    assert_eq!(record.token, "secret-token");
    assert_eq!(record.started_at, 77);
    assert_eq!(record.source_ip, "10.0.0.1");
    assert_eq!(record.bytes_transferred, 0);
    assert!(!record.cancelled);
}

#[test]
fn accept_all_and_reject_all_take_the_pending_list_as_it_stands() {
    let mut state = ServerState::new(settings());
    post(&mut state, request("a", vec![file("f1", "x", 1)]));
    post(&mut state, request("b", vec![file("f1", "y", 2)]));
    let pairs = state.accept_all();
    assert_eq!(pairs.len(), 2);
    assert_eq!(pairs[0].0, "a");
    assert_eq!(pairs[1].0, "b");
    assert_ne!(pairs[0].1, pairs[1].1);
    assert_eq!(state.approved_transfer("a").unwrap().token, pairs[0].1);
    assert_eq!(state.approved_transfer("b").unwrap().token, pairs[1].1);
    assert!(state.list_pending().is_empty());
    assert!(state.accept_all().is_empty());

    post(&mut state, request("c", vec![]));
    post(&mut state, request("d", vec![]));
    let events = state.reject_all();
    assert_eq!(events.len(), 2);
    match (&events[0], &events[1]) {
        (
            ServerEvent::TransferFailed { transfer_id: c, error: e1 },
            ServerEvent::TransferFailed { transfer_id: d, error: e2 },
        ) => {
            assert_eq!(c, "c");
            assert_eq!(d, "d");
            assert_eq!(e1, "rejected");
            assert_eq!(e2, "rejected");
        }
        _ => panic!("expected two TransferFailed events"),
    }
    assert!(state.list_pending().is_empty());
    assert_eq!(state.rejection_reason("d").as_deref(), Some("rejected"));
    assert!(state.approved_transfer("a").is_some());
}

#[test]
fn port_change_is_announced_only_while_listening() {
    let mut state = ServerState::new(settings());
    let mut moved = settings();
    moved.port = 6000;
    assert!(state.update_config(moved).is_none());
    assert_eq!(state.settings().port, 6000);

    match state.start_server() {
        Some(ServerEvent::ServerStarted { port }) => assert_eq!(port, 6000),
        _ => panic!("expected ServerStarted"),
    }
    assert!(state.is_running());
    assert!(state.start_server().is_none());

    let mut again = settings();
    again.port = 7000;
    again.device_name = "renamed".to_string();
    match state.update_config(again) {
        Some(ServerEvent::PortChanged { old_port, new_port }) => {
            assert_eq!(old_port, 6000);
            assert_eq!(new_port, 7000);
        }
        _ => panic!("expected PortChanged"),
    }
    assert_eq!(state.settings().device_name, "renamed");
    let mut same = settings();
    same.port = 7000;
    assert!(state.update_config(same).is_none());

    match state.stop_server() {
        Some(ServerEvent::ServerStopped) => {}
        _ => panic!("expected ServerStopped"),
    }
    assert!(!state.is_running());
    assert!(state.stop_server().is_none());
}

#[test]
fn download_directory_is_captured_when_the_upload_begins() {
    let mut state = ServerState::new(settings());
    let token = approved(&mut state, "t1", vec![file("f1", "a.bin", 3), file("f2", "b.bin", 3)]);
    let first = begin(&mut state, "t1", "f1", &token);
    let mut moved = settings();
    moved.download_dir = "/mnt/other".to_string();
    state.update_config(moved);
    let second = begin(&mut state, "t1", "f2", &token);
    assert_eq!(first.path, "/srv/downloads/a.bin");
    assert_eq!(second.path, "/mnt/other/b.bin");
    assert_eq!(state.complete_chunk(&first, 3).status, 200);
}

fn lists_holding(state: &ServerState, id: &str) -> usize {
    let pending = state.list_pending().iter().filter(|p| p.id == id).count();
    let approved = usize::from(state.approved_transfer(id).is_some());
    let rejected = usize::from(state.rejection_reason(id).is_some());
    pending + approved + rejected
}

#[test]
fn a_transfer_is_in_one_list_at_a_time() {
    let mut state = ServerState::new(settings());
    assert_eq!(lists_holding(&state, "t1"), 0);
    post(&mut state, request("t1", vec![file("f1", "a.bin", 3)]));
    post(&mut state, request("t1", vec![file("f1", "a.bin", 3)]));
    assert_eq!(lists_holding(&state, "t1"), 1);
    let token = state.accept_transfer("t1").unwrap();
    post(&mut state, request("t1", vec![file("f1", "a.bin", 3)]));
    assert_eq!(lists_holding(&state, "t1"), 1);
    assert!(state.reject_transfer("t1").is_err());
    let ticket = begin(&mut state, "t1", "f1", &token);
    state.fail_chunk(&ticket, 1, "reset");
    assert_eq!(lists_holding(&state, "t1"), 1);
    post(&mut state, request("t1", vec![file("f1", "a.bin", 3)]));
    assert!(state.accept_transfer("t1").is_err());
    assert_eq!(lists_holding(&state, "t1"), 1);
    post(&mut state, request("t2", vec![file("f1", "a.bin", 3)]));
    state.reject_transfer("t2").unwrap();
    post(&mut state, request("t2", vec![file("f1", "a.bin", 3)]));
    assert_eq!(lists_holding(&state, "t2"), 1);
    let t3 = approved(&mut state, "t3", vec![file("f1", "a.bin", 3)]);
    let ticket = begin(&mut state, "t3", "f1", &t3);
    state.complete_chunk(&ticket, 3);
    assert_eq!(lists_holding(&state, "t3"), 0);
}

#[test]
fn events_of_a_transfer_come_in_order() {
    let mut state = ServerState::new(settings());
    let mut seen: Vec<&'static str> = Vec::new();
    let outcome = post(&mut state, request("t1", vec![file("f1", "a.bin", 3), file("f2", "b.bin", 4)]));
    seen.extend(outcome.event.iter().map(|e| e.type_tag()));
    let again = post(&mut state, request("t1", vec![file("f1", "a.bin", 3), file("f2", "b.bin", 4)]));
    seen.extend(again.event.iter().map(|e| e.type_tag()));
    let token = state.accept_transfer("t1").unwrap();
    for (id, size) in [("f1", 3), ("f2", 4)] {
        let ticket = begin(&mut state, "t1", id, &token);
        let mut receiver = ChunkReceiver::new(&ticket, 0);
        if let DataStep::Progress(p) = receiver.on_data(size, 1) {
            assert_eq!(p.total_bytes, 7);
            assert!(p.bytes_transferred <= p.total_bytes);
            seen.push("progress");
        }
        let outcome = state.complete_chunk(&ticket, receiver.received());
        seen.extend(outcome.events.iter().map(|e| e.type_tag()));
    }
    let late = state.complete_chunk(
        &ChunkTicket {
            transfer_id: "t1".to_string(),
            file_id: "f2".to_string(),
            file_index: 1,
            file_name: "b.bin".to_string(),
            target_name: "b.bin".to_string(),
            path: "/srv/downloads/b.bin".to_string(),
            size: 4,
            total_size: 7,
            base_bytes: 3,
        },
        4,
    );
    seen.extend(late.events.iter().map(|e| e.type_tag()));
    assert_eq!(seen, vec!["transferRequest", "progress", "progress", "transferComplete"]);
}

#[test]
fn more_bytes_than_declared_are_answered_with_413() {
    let mut state = ServerState::new(settings());
    let token = approved(&mut state, "t1", vec![file("f1", "a.bin", 100)]);
    let ticket = begin(&mut state, "t1", "f1", &token);
    let outcome = state.refuse_oversized(&ticket, 100);
    assert_eq!(outcome.status, 413);
    assert_eq!(
        outcome.error.as_deref(),
        Some("size mismatch: more than 100 bytes received")
    );
    assert_eq!(outcome.delete, vec!["/srv/downloads/a.bin".to_string()]);
    assert_eq!(outcome.events.len(), 1);
    assert!(state.approved_transfer("t1").is_none());
    assert!(state.rejection_reason("t1").is_some());
    state.clear_rejected();
    assert!(state.rejection_reason("t1").is_none());
    let again = post(&mut state, request("t1", vec![file("f1", "a.bin", 100)]));
    assert_eq!(again.status, 200);
    assert!(again.event.is_some());
}

#[test]
fn token_is_told_only_to_the_address_that_asked() {
    let mut state = ServerState::new(settings());
    let token = approved(&mut state, "t1", vec![file("f1", "a.bin", 3)]);
    let other = state.handle_transfer_request(request("t1", vec![file("f1", "a.bin", 3)]), "10.6.6.6");
    assert_eq!(other.status, 200);
    assert!(!other.response.accepted);
    assert!(other.response.token.is_none());
    assert!(other.event.is_none());
    let same = post(&mut state, request("t1", vec![file("f1", "a.bin", 3)]));
    assert_eq!(same.response.token.as_deref(), Some(token.as_str()));
}

#[test]
fn refusals_have_the_kind_that_their_status_stands_for() {
    for e in [
        ChunkError::Unauthorized,
        ChunkError::FileNotFound,
        ChunkError::UnsafeName,
        ChunkError::NotWaiting,
    ] {
        assert_eq!(e.kind().status_code(), Some(e.status()));
        assert!(!e.kind().is_retryable());
    }
    assert_eq!(ChunkError::Unauthorized.kind(), ErrorKind::Authorization);
    assert_eq!(ChunkError::FileNotFound.kind(), ErrorKind::NotFound);
}

#[test]
fn health_and_info_answers() {
    let state = ServerState::new(settings());
    let health = ServerState::health("1.2.3");
    assert_eq!(health.status, "ok");
    assert_eq!(health.app, "gosh-transfer");
    assert_eq!(health.version, "1.2.3");
    let info = state.info("1.2.3");
    assert_eq!(info.name, "receiver");
    assert_eq!(info.version, "1.2.3");
    assert_eq!(info.app, "gosh-transfer");
}

#[test]
fn forged_ticket_is_stale() {
    let mut state = ServerState::new(settings());
    let token = approved(&mut state, "t1", vec![file("f1", "a.bin", 3)]);
    let real = begin(&mut state, "t1", "f1", &token);
    let forged = ChunkTicket {
        transfer_id: "t1".to_string(),
        file_id: "f1".to_string(),
        file_index: 0,
        file_name: "a.bin".to_string(),
        target_name: "a.bin".to_string(),
        path: "/etc/passwd".to_string(),
        size: 3,
        total_size: 3,
        base_bytes: 0,
    };
    let outcome = state.complete_chunk(&forged, 3);
    assert_eq!(outcome.status, 500);
    assert!(outcome.events.is_empty());
    assert_eq!(state.complete_chunk(&real, 3).status, 200);
}

#[test]
fn tokens_are_two_fresh_uuids() {
    let a = fresh_token();
    let b = fresh_token();
    assert_ne!(a, b);
    assert_eq!(a.len(), 72);
    assert_ne!(a[..36], a[36..]);
    for half in [&a[..36], &a[36..]] {
        for (i, c) in half.chars().enumerate() {
            if i == 8 || i == 13 || i == 18 || i == 23 {
                assert_eq!(c, '-');
            } else {
                assert!(c.is_ascii_digit() || ('a'..='f').contains(&c));
            }
        }
    }
}

#[test]
fn upload_seen_to_be_cancelled_is_aborted() {
    let mut state = ServerState::new(settings());
    let token = approved(&mut state, "t1", vec![file("f1", "a.bin", 10), file("f2", "b.bin", 10)]);
    let first = begin(&mut state, "t1", "f1", &token);
    assert_eq!(state.complete_chunk(&first, 10).status, 200);
    let second = begin(&mut state, "t1", "f2", &token);
    state.cancel_transfer("t1").unwrap();
    let outcome = state.abort_cancelled(&second, 4);
    assert_eq!(outcome.status, 500);
    assert_eq!(outcome.bytes_received, 4);
    assert_eq!(outcome.error.as_deref(), Some("cancelled"));
    assert_eq!(
        outcome.delete,
        vec!["/srv/downloads/a.bin".to_string(), "/srv/downloads/b.bin".to_string()]
    );
    assert_eq!(outcome.events.len(), 1);
    assert_eq!(state.rejection_reason("t1").as_deref(), Some("cancelled"));
}
