use gosh_transfer::client::RequestFailure;
use gosh_transfer::commands::{
    accept_all_transfers, accept_transfer, add_favorite, cancel_transfer, reject_all_transfers, add_trusted_host, check_peer, clear_transfer_history,
    delete_favorite, forward_event, get_interfaces, get_pending_transfers, get_server_status,
    get_settings, get_transfer_history, init_app_state, list_favorites, reject_transfer,
    remove_trusted_host, resolve_hostname, send_files, server_status_with, update_favorite,
    update_settings, AppState,
};
use gosh_transfer::events::ServerEvent;
use gosh_transfer::favorites::FavoritesStore;
use gosh_transfer::chunk::ChunkParams;
use gosh_transfer::history::HistoryStore;
use gosh_transfer::send::ActiveSends;
use gosh_transfer::settings::{default_settings_from, SettingsStore};
use gosh_transfer::types::{TransferFile, TransferRequest};

fn app() -> AppState {
    let settings = default_settings_from(Some("/dl".to_string()), Some("den".to_string()));
    init_app_state(
        SettingsStore::new("settings.json".to_string(), Some(settings)),
        FavoritesStore::new("favorites.json".to_string(), Vec::new()),
        HistoryStore::new("history.json".to_string(), Vec::new()),
    )
}

fn request(id: &str) -> TransferRequest {
    TransferRequest {
        transfer_id: id.to_string(),
        sender_name: None,
        files: vec![TransferFile {
            name: "a.bin".to_string(),
            size: 5,
            mime_type: None,
            id: "f1".to_string(),
        }],
        total_size: 5,
    }
}

#[test]
fn state_starts_from_the_stored_settings() {
    let state = app();
    assert_eq!(get_settings(&state).unwrap().device_name, "den");
    assert_eq!(state.engine.settings().download_dir, "/dl");
    assert!(!state.engine.is_running());
    assert!(!state.client.is_receive_only());
    assert!(get_pending_transfers(&state).unwrap().is_empty());
    assert!(get_transfer_history(&state).unwrap().is_empty());
    assert!(list_favorites(&state).unwrap().is_empty());
    let status = get_server_status(&state).unwrap();
    assert!(!status.running);
    assert_eq!(status.port, 53317);
    assert_eq!(status.device_name, "den");
    let fixed = server_status_with(&state, Vec::new());
    assert!(fixed.interfaces.is_empty());
    assert!(get_interfaces().is_ok());
}

#[test]
fn favorite_commands_report_errors_as_text() {
    let mut state = app();
    let f = add_favorite(&mut state, "NAS".to_string(), "nas.local".to_string()).unwrap();
    let g = update_favorite(&mut state, &f.id, Some("Big NAS".to_string()), None).unwrap();
    assert_eq!(g.name, "Big NAS");
    assert_eq!(g.address, "nas.local");
    assert!(g.last_used.is_some());
    assert_eq!(
        update_favorite(&mut state, "x", None, None).unwrap_err(),
        "Invalid configuration: Favorite not found: x"
    );
    assert_eq!(
        delete_favorite(&mut state, "x").unwrap_err(),
        "Invalid configuration: Favorite not found: x"
    );
    delete_favorite(&mut state, &f.id).unwrap();
    assert!(list_favorites(&state).unwrap().is_empty());
}

#[test]
fn accept_and_reject_commands() {
    let mut state = app();
    state.engine.handle_transfer_request(request("a"), "10.0.0.1");
    state.engine.handle_transfer_request(request("b"), "10.0.0.1");
    assert_eq!(get_pending_transfers(&state).unwrap().len(), 2);
    let token = accept_transfer(&mut state, "a").unwrap();
    assert_eq!(token.len(), 72);
    match reject_transfer(&mut state, "b").unwrap() {
        ServerEvent::TransferFailed { transfer_id, error } => {
            assert_eq!(transfer_id, "b");
            assert_eq!(error, "rejected");
        }
        _ => panic!("expected TransferFailed"),
    }
    assert_eq!(
        accept_transfer(&mut state, "b").unwrap_err(),
        "Invalid configuration: Transfer not found: b"
    );
    assert_eq!(
        reject_transfer(&mut state, "zzz").unwrap_err(),
        "Invalid configuration: Transfer not found: zzz"
    );
    assert!(get_pending_transfers(&state).unwrap().is_empty());
}

#[test]
fn settings_reach_store_state_engine_and_client() {
    let mut state = app();
    state.engine.start_server();
    let mut s = get_settings(&state).unwrap();
    s.port = 6000;
    s.receive_only = true;
    s.device_name = "attic".to_string();
    match update_settings(&mut state, s).unwrap() {
        Some(ServerEvent::PortChanged { old_port, new_port }) => {
            assert_eq!(old_port, 53317);
            assert_eq!(new_port, 6000);
        }
        _ => panic!("expected PortChanged"),
    }
    assert_eq!(state.settings.port, 6000);
    assert_eq!(state.settings_store.get().port, 6000);
    assert_eq!(state.engine.settings().device_name, "attic");
    assert!(state.client.is_receive_only());
    let unchanged = get_settings(&state).unwrap();
    assert!(update_settings(&mut state, unchanged).unwrap().is_none());
}

#[test]
fn trusted_hosts_are_kept_in_step() {
    let mut state = app();
    add_trusted_host(&mut state, "10.0.0.1".to_string()).unwrap();
    add_trusted_host(&mut state, "10.0.0.1".to_string()).unwrap();
    add_trusted_host(&mut state, "10.0.0.2".to_string()).unwrap();
    assert_eq!(state.settings.trusted_hosts, vec!["10.0.0.1", "10.0.0.2"]);
    assert_eq!(state.engine.settings().trusted_hosts, vec!["10.0.0.1", "10.0.0.2"]);
    let outcome = state.engine.handle_transfer_request(request("t"), "10.0.0.2");
    assert!(outcome.response.accepted);
    remove_trusted_host(&mut state, "10.0.0.2").unwrap();
    assert_eq!(state.settings.trusted_hosts, vec!["10.0.0.1"]);
    assert_eq!(state.engine.settings().trusted_hosts, vec!["10.0.0.1"]);
    let outcome = state.engine.handle_transfer_request(request("u"), "10.0.0.2");
    assert!(!outcome.response.accepted);
}

#[test]
fn send_command_describes_the_files_or_says_why_not() {
    let mut state = app();
    let session = send_files(
        &state,
        "10.0.0.5",
        53317,
        vec!["/home/me/a.png".to_string(), "/home/me/notes.txt".to_string()],
        vec![Ok(10), Ok(20)],
    )
    .ok()
    .unwrap();
    let req = session.request();
    assert_eq!(req.total_size, 30);
    assert_eq!(req.files[0].name, "a.png");
    assert_eq!(req.files[0].mime_type.as_deref(), Some("image/png"));
    assert_eq!(req.files[1].name, "notes.txt");
    assert_eq!(req.files[1].size, 20);
    assert_ne!(req.files[0].id, req.files[1].id);
    assert_eq!(req.sender_name.as_deref(), Some("den"));

    let e = send_files(&state, "h", 1, vec!["/a".to_string()], vec![]).err().unwrap();
    assert_eq!(e, "One size is needed for each path");
    let e = send_files(&state, "h", 1, vec!["/a".to_string(), "/dir/".to_string()], vec![Ok(1), Ok(2)])
        .err()
        .unwrap();
    assert_eq!(e, "File I/O error: Invalid file path");
    let e = send_files(&state, "h", 1, vec!["/a".to_string(), "/b".to_string()], vec![Ok(u64::MAX), Ok(1)])
        .err()
        .unwrap();
    assert_eq!(e, "Invalid configuration: Total size of the files is too large");

    let mut s = get_settings(&state).unwrap();
    s.receive_only = true;
    update_settings(&mut state, s).unwrap();
    let e = send_files(&state, "h", 1, vec!["/dir/".to_string()], vec![]).err().unwrap();
    assert_eq!(e, "Invalid configuration: Sending is disabled in receive-only mode");
}

#[test]
fn events_are_forwarded_under_their_names() {
    let mut state = app();
    let outcome = state.engine.handle_transfer_request(request("t"), "10.0.0.1");
    let event = outcome.event.unwrap();
    let f = forward_event(&state, &event);
    assert_eq!(f.event_name, "transfer-request");
    assert_eq!(f.type_tag, "transferRequest");
    let n = f.notification.unwrap();
    assert_eq!(n.title, "Incoming Transfer");
    assert_eq!(n.body, "Unknown Device wants to send you a file");
    let mut s = get_settings(&state).unwrap();
    s.notifications_enabled = false;
    update_settings(&mut state, s).unwrap();
    assert!(forward_event(&state, &event).notification.is_none());
    let stopped = forward_event(&state, &ServerEvent::ServerStopped);
    assert_eq!(stopped.event_name, "server-stopped");
    assert_eq!(stopped.type_tag, "serverStopped");
}

#[test]
fn network_commands() {
    let r = resolve_hostname("nas", None, Ok(vec!["10.0.0.5".to_string()])).unwrap();
    assert!(r.success);
    assert_eq!(check_peer("h", 1, Ok(200)), Ok(true));
    assert_eq!(
        check_peer("h", 1, Err(RequestFailure::Connect("refused".to_string()))).unwrap_err(),
        "Connection refused: Cannot connect to h:1 - refused"
    );
    let mut state = app();
    assert!(clear_transfer_history(&mut state).is_ok());
}

#[test]
fn cancel_reaches_incoming_and_outgoing_transfers() {
    let mut state = app();
    state.engine.handle_transfer_request(request("in"), "10.0.0.1");
    let token = accept_transfer(&mut state, "in").unwrap();
    assert!(state.sends.begin("out"));
    assert!(!state.sends.begin("out"));
    assert!(!state.sends.is_cancelled("out"));
    cancel_transfer(&mut state, "out").unwrap();
    assert!(state.sends.is_cancelled("out"));
    assert!(!state.engine.is_cancelled("in"));
    cancel_transfer(&mut state, "in").unwrap();
    assert!(state.engine.is_cancelled("in"));
    assert_eq!(
        cancel_transfer(&mut state, "nowhere").unwrap_err(),
        "Invalid configuration: Transfer not found: nowhere"
    );
    state.sends.finish("out");
    assert!(!state.sends.is_cancelled("out"));
    assert!(cancel_transfer(&mut state, "out").is_err());
    state.sends.finish("out");
    let params = ChunkParams::new("in".to_string(), "f1".to_string(), token);
    assert!(state.engine.begin_chunk(&params, &Vec::new()).is_ok());
}

#[test]
fn active_sends_keep_their_flags_apart() {
    let mut sends = ActiveSends::new();
    assert!(sends.begin("a"));
    assert!(sends.begin("b"));
    assert!(sends.begin("c"));
    sends.cancel("b").unwrap();
    assert!(!sends.is_cancelled("a"));
    assert!(sends.is_cancelled("b"));
    assert!(!sends.is_cancelled("c"));
    sends.finish("a");
    assert!(sends.is_cancelled("b"));
    assert!(sends.begin("a"));
    assert!(!sends.is_cancelled("a"));
    match sends.cancel("zzz") {
        Err(e) => assert_eq!(e.message(), "Invalid configuration: Transfer not found: zzz"),
        Ok(()) => panic!("expected an error"),
    }
}

#[test]
fn bulk_commands_take_every_pending_transfer() {
    let mut state = app();
    state.engine.handle_transfer_request(request("a"), "10.0.0.1");
    state.engine.handle_transfer_request(request("b"), "10.0.0.1");
    let pairs = accept_all_transfers(&mut state).unwrap();
    assert_eq!(pairs.len(), 2);
    assert_eq!(pairs[0].0, "a");
    assert_eq!(pairs[1].0, "b");
    assert!(get_pending_transfers(&state).unwrap().is_empty());
    state.engine.handle_transfer_request(request("c"), "10.0.0.1");
    let events = reject_all_transfers(&mut state).unwrap();
    assert_eq!(events.len(), 1);
    assert_eq!(events[0].type_tag(), "transferFailed");
    assert!(reject_all_transfers(&mut state).unwrap().is_empty());
}

#[test]
fn a_file_that_cannot_be_sent_stops_the_send_before_it_starts() {
    let state = app();
    let e = send_files(
        &state,
        "h",
        1,
        vec!["/a".to_string(), "/gone".to_string(), "/dir/".to_string()],
        vec![Ok(1), Err("No such file or directory".to_string()), Ok(3)],
    )
    .err()
    .unwrap();
    assert_eq!(e, "File I/O error: Failed to get file info: No such file or directory");
    let e = send_files(
        &state,
        "h",
        1,
        vec!["..".to_string(), "/gone".to_string()],
        vec![Ok(1), Err("denied".to_string())],
    )
    .err()
    .unwrap();
    assert_eq!(e, "File I/O error: Invalid file path");
    let e = send_files(&state, "h", 1, vec!["/".to_string()], vec![Ok(0)]).err().unwrap();
    assert_eq!(e, "File I/O error: Invalid file path");
    let e = send_files(&state, "h", 1, vec!["..".to_string()], vec![Err("x".to_string())])
        .err()
        .unwrap();
    assert_eq!(e, "File I/O error: Failed to get file info: x");
}
