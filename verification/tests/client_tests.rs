use gosh_transfer::client::{
    build_request, chunk_url, classify_status, describe_file, describe_file_with,
    first_reachable, get_network_interfaces, health_url, info_url, interfaces_from, transfer_url,
    request_error, upload_error, ErrorKind, FileStep, InfoOutcome, PeerInfo, PostOutcome,
    RequestFailure, TransferClient, UploadOutcome,
    CONNECT_TIMEOUT_SECS, REQUEST_TIMEOUT_SECS,
};
use gosh_transfer::settings::default_settings_from;
use gosh_transfer::types::{AppError, TransferFile, TransferResponse};

fn file(id: &str, name: &str, size: u64) -> TransferFile {
    TransferFile { name: name.to_string(), size, mime_type: None, id: id.to_string() }
}

#[test]
fn literal_address_is_its_own_sole_ip() {
    let r = TransferClient::resolve_address(
        "192.168.1.20",
        Some("192.168.1.20".to_string()),
        Err("never asked".to_string()),
    );
    assert!(r.success);
    assert_eq!(r.hostname, "192.168.1.20");
    assert_eq!(r.ips, vec!["192.168.1.20".to_string()]);
    assert!(r.error.is_none());
    let v6 = TransferClient::resolve_address("0:0:0:0:0:0:0:1", Some("::1".to_string()), Ok(vec![]));
    assert_eq!(v6.ips, vec!["::1".to_string()]);
    assert_eq!(v6.hostname, "0:0:0:0:0:0:0:1");
}

#[test]
fn name_resolves_to_all_addresses_in_order() {
    let r = TransferClient::resolve_address(
        "nas.local",
        None,
        Ok(vec!["10.0.0.5".to_string(), "fd00::5".to_string(), "100.64.0.5".to_string()]),
    );
    assert!(r.success);
    assert_eq!(r.ips, vec!["10.0.0.5", "fd00::5", "100.64.0.5"]);
    assert!(r.error.is_none());
}

#[test]
fn empty_or_failed_resolution_is_a_failure() {
    let empty = TransferClient::resolve_address("ghost.local", None, Ok(vec![]));
    assert!(!empty.success);
    assert!(empty.ips.is_empty());
    assert_eq!(empty.error.as_deref(), Some("No IP addresses found"));
    let failed =
        TransferClient::resolve_address("ghost.local", None, Err("lookup timed out".to_string()));
    assert!(!failed.success);
    assert!(failed.ips.is_empty());
    assert_eq!(failed.hostname, "ghost.local");
    assert_eq!(failed.error.as_deref(), Some("DNS resolution failed: lookup timed out"));
}

#[test]
fn urls_are_exact() {
    assert_eq!(health_url("10.0.0.5", 53317), "http://10.0.0.5:53317/health");
    assert_eq!(info_url("nas.local", 80), "http://nas.local:80/info");
    assert_eq!(transfer_url("10.0.0.5", 65535), "http://10.0.0.5:65535/transfer");
    assert_eq!(
        chunk_url("10.0.0.5", 53317, "tid", "fid", "tok"),
        "http://10.0.0.5:53317/chunk?transfer_id=tid&file_id=fid&token=tok"
    );
    assert_eq!(health_url("h", 0), "http://h:0/health");
    assert_eq!(health_url("::1", 53317), "http://[::1]:53317/health");
    assert_eq!(
        chunk_url("fd00::5", 80, "t", "f", "k"),
        "http://[fd00::5]:80/chunk?transfer_id=t&file_id=f&token=k"
    );
}

#[test]
fn peer_check_tells_reachable_refused_timeout_and_other() {
    assert_eq!(TransferClient::check_peer("10.0.0.5", 53317, Ok(200)).unwrap(), true);
    assert_eq!(TransferClient::check_peer("10.0.0.5", 53317, Ok(299)).unwrap(), true);
    match TransferClient::check_peer("10.0.0.5", 53317, Ok(404)) {
        Err(AppError::Network(m)) => assert_eq!(m, "Peer returned status 404"),
        _ => panic!("expected Network"),
    }
    match TransferClient::check_peer("10.0.0.5", 53317, Ok(199)) {
        Err(AppError::Network(m)) => assert_eq!(m, "Peer returned status 199"),
        _ => panic!("expected Network"),
    }
    match TransferClient::check_peer(
        "10.0.0.5",
        53317,
        Err(RequestFailure::Connect("connection refused".to_string())),
    ) {
        Err(AppError::ConnectionRefused(m)) => {
            assert_eq!(m, "Cannot connect to 10.0.0.5:53317 - connection refused")
        }
        _ => panic!("expected ConnectionRefused"),
    }
    match TransferClient::check_peer(
        "10.0.0.5",
        53317,
        Err(RequestFailure::Timeout("deadline".to_string())),
    ) {
        Err(AppError::Network(m)) => assert_eq!(m, "Connection timed out to 10.0.0.5:53317"),
        _ => panic!("expected Network"),
    }
    match TransferClient::check_peer("h", 1, Err(RequestFailure::Other("broken pipe".to_string())))
    {
        Err(e) => assert_eq!(e.message(), "Network error: Request failed: broken pipe"),
        _ => panic!("expected Network"),
    }
}

#[test]
fn peer_info_outcomes() {
    let info = PeerInfo {
        name: "Den".to_string(),
        version: "1.0.0".to_string(),
        app: "gosh-transfer".to_string(),
    };
    assert_eq!(TransferClient::get_peer_info(InfoOutcome::Info(info)).unwrap().name, "Den");
    match TransferClient::get_peer_info(InfoOutcome::SendFailed("reset".to_string())) {
        Err(AppError::Network(m)) => assert_eq!(m, "Failed to get peer info: reset"),
        _ => panic!("expected Network"),
    }
    match TransferClient::get_peer_info(InfoOutcome::ParseFailed("eof".to_string())) {
        Err(AppError::Serialization(m)) => assert_eq!(m, "Failed to parse peer info: eof"),
        _ => panic!("expected Serialization"),
    }
}

#[test]
fn request_total_is_the_sum_of_the_sizes() {
    let files = vec![file("a", "a.bin", 10), file("b", "b.bin", 0), file("c", "c.bin", 1048576)];
    let req = build_request("tid".to_string(), files, Some("me".to_string())).unwrap();
    assert_eq!(req.transfer_id, "tid");
    assert_eq!(req.total_size, 1048586);
    assert_eq!(req.files.len(), 3);
    assert_eq!(req.sender_name.as_deref(), Some("me"));
    assert!(req.is_well_formed());
    let empty = build_request("e".to_string(), vec![], None).unwrap();
    assert_eq!(empty.total_size, 0);
    let fresh = TransferClient::request_transfer(vec![file("a", "a", 7)], None).unwrap();
    assert_eq!(fresh.transfer_id.len(), 36);
    assert_eq!(fresh.total_size, 7);
}

#[test]
fn request_whose_sizes_overflow_is_an_error() {
    let files = vec![file("a", "a.bin", u64::MAX), file("b", "b.bin", 1)];
    match build_request("tid".to_string(), files, None) {
        Err(AppError::InvalidConfig(m)) => assert_eq!(m, "Total size of the files is too large"),
        _ => panic!("expected InvalidConfig"),
    }
    let fits = vec![file("a", "a.bin", u64::MAX - 1), file("b", "b.bin", 1)];
    assert_eq!(build_request("tid".to_string(), fits, None).unwrap().total_size, u64::MAX);
}

#[test]
fn file_descriptor_has_leaf_name_fresh_id_and_guessed_type() {
    let f = describe_file("/home/alice/pictures/photo.png", 2048).unwrap();
    assert_eq!(f.name, "photo.png");
    assert_eq!(f.size, 2048);
    assert_eq!(f.mime_type.as_deref(), Some("image/png"));
    assert_eq!(f.id.len(), 36);
    let g = describe_file("report.PDF", 1).unwrap();
    assert_eq!(g.mime_type.as_deref(), Some("application/pdf"));
    assert_ne!(g.id, f.id);
    let unknown = describe_file("data.zzunknown", 1).unwrap();
    assert!(unknown.mime_type.is_none());
    let none = describe_file("Makefile", 1).unwrap();
    assert!(none.mime_type.is_none());
}

#[test]
fn path_that_names_no_file_is_invalid() {
    for bad in ["", "/", "dir/", "..", "/tmp/..", "."] {
        match describe_file(bad, 1) {
            Err(AppError::FileIo(m)) => assert_eq!(m, "Invalid file path"),
            _ => panic!("expected FileIo"),
        }
    }
    let f = describe_file_with("a/b/c.txt", 9, "id-1".to_string(), Some("text/plain".to_string()))
        .unwrap();
    assert_eq!(f.name, "c.txt");
    assert_eq!(f.id, "id-1");
    assert_eq!(f.size, 9);
    assert_eq!(f.mime_type.as_deref(), Some("text/plain"));
    assert!(describe_file_with("a/", 9, "id".to_string(), None).is_err());
}

#[test]
fn transfer_response_outcomes() {
    let accepted = TransferResponse {
        accepted: true,
        message: None,
        token: Some("tok".to_string()),
    };
    let r = TransferClient::transfer_response("h", 1, PostOutcome::Answer(accepted)).unwrap();
    assert!(r.accepted);
    assert_eq!(r.token.as_deref(), Some("tok"));
    match TransferClient::transfer_response("h", 1, PostOutcome::Refused(503, "no".to_string())) {
        Err(AppError::TransferRejected) => {}
        _ => panic!("expected TransferRejected"),
    }
    match TransferClient::transfer_response("h", 1, PostOutcome::Refused(400, "bad".to_string())) {
        Err(AppError::Network(m)) => assert_eq!(m, "Transfer request failed: bad"),
        _ => panic!("expected Network"),
    }
    match TransferClient::transfer_response(
        "10.0.0.5",
        53317,
        PostOutcome::Failed(RequestFailure::Connect("refused".to_string())),
    ) {
        Err(AppError::ConnectionRefused(m)) => {
            assert_eq!(m, "Cannot connect to 10.0.0.5:53317 - refused")
        }
        _ => panic!("expected ConnectionRefused"),
    }
    match TransferClient::transfer_response(
        "h",
        1,
        PostOutcome::Failed(RequestFailure::Timeout("slow".to_string())),
    ) {
        Err(AppError::Network(m)) => assert_eq!(m, "Transfer request failed: slow"),
        _ => panic!("expected Network"),
    }
    match TransferClient::transfer_response("h", 1, PostOutcome::ParseFailed("eof".to_string())) {
        Err(AppError::Serialization(m)) => assert_eq!(m, "Failed to parse response: eof"),
        _ => panic!("expected Serialization"),
    }
}

#[test]
fn upload_outcomes() {
    let f = file("f1", "a.bin", 77);
    let p = TransferClient::send_file("tid", &f, UploadOutcome::Answer(200, String::new())).unwrap();
    assert_eq!(p.transfer_id, "tid");
    assert_eq!(p.current_file.as_deref(), Some("a.bin"));
    assert_eq!(p.bytes_transferred, 77);
    assert_eq!(p.total_bytes, 77);
    assert_eq!(p.speed_bps, 0);
    match TransferClient::send_file("tid", &f, UploadOutcome::Answer(401, "bad token".to_string()))
    {
        Err(AppError::Network(m)) => assert_eq!(m, "Server returned error: bad token"),
        _ => panic!("expected Network"),
    }
    match TransferClient::send_file("tid", &f, UploadOutcome::Failed("reset".to_string())) {
        Err(AppError::Network(m)) => assert_eq!(m, "Failed to send file: reset"),
        _ => panic!("expected Network"),
    }
}

#[test]
fn statuses_map_back_to_kinds() {
    assert_eq!(classify_status(200), None);
    assert_eq!(classify_status(204), None);
    assert_eq!(classify_status(401), Some(ErrorKind::Authorization));
    assert_eq!(classify_status(404), Some(ErrorKind::NotFound));
    assert_eq!(classify_status(400), Some(ErrorKind::Validation));
    assert_eq!(classify_status(413), Some(ErrorKind::Validation));
    assert_eq!(classify_status(500), Some(ErrorKind::Resource));
    assert_eq!(classify_status(503), Some(ErrorKind::Rejected));
    assert_eq!(classify_status(502), Some(ErrorKind::Network));
    assert_eq!(classify_status(300), Some(ErrorKind::Network));
    for kind in [
        ErrorKind::Authorization,
        ErrorKind::NotFound,
        ErrorKind::Validation,
        ErrorKind::Resource,
        ErrorKind::Rejected,
    ] {
        assert_eq!(classify_status(kind.status_code().unwrap()), Some(kind));
    }
    assert_eq!(ErrorKind::Network.status_code(), None);
    assert_eq!(ErrorKind::Cancelled.status_code(), None);
    assert!(ErrorKind::Network.is_retryable());
    assert!(ErrorKind::Resource.is_retryable());
    for kind in [
        ErrorKind::Authorization,
        ErrorKind::NotFound,
        ErrorKind::Validation,
        ErrorKind::Rejected,
        ErrorKind::Cancelled,
    ] {
        assert!(!kind.is_retryable());
    }
}

#[test]
fn receive_only_mode_refuses_to_send() {
    let mut settings = default_settings_from(None, Some("me".to_string()));
    settings.receive_only = true;
    let client = TransferClient::new(&settings);
    assert!(client.is_receive_only());
    match client.send_files("10.0.0.5", 53317, vec![file("f", "a", 1)], vec!["/a".to_string()]) {
        Err(AppError::InvalidConfig(m)) => {
            assert_eq!(m, "Sending is disabled in receive-only mode")
        }
        _ => panic!("expected InvalidConfig"),
    }
    settings.receive_only = false;
    let open = TransferClient::new(&settings);
    let session = open
        .send_files("10.0.0.5", 53317, vec![file("f", "a", 1)], vec!["/a".to_string()])
        .ok()
        .unwrap();
    assert_eq!(session.transfer_id().len(), 36);
    assert_eq!(session.request().sender_name.as_deref(), Some("me"));
    match open.send_files("h", 1, vec![file("f", "a", 1)], vec![]) {
        Err(AppError::InvalidConfig(m)) => assert_eq!(m, "One path is needed for each file"),
        _ => panic!("expected InvalidConfig"),
    }
}

#[test]
fn the_first_address_that_answers_is_used() {
    assert_eq!(first_reachable(&vec![false, true, true]), Some(1));
    assert_eq!(first_reachable(&vec![true]), Some(0));
    assert_eq!(first_reachable(&vec![false, false]), None);
    assert_eq!(first_reachable(&vec![]), None);
    assert_eq!(CONNECT_TIMEOUT_SECS, 10);
    assert_eq!(REQUEST_TIMEOUT_SECS, 30);
}

#[test]
fn interfaces_are_handed_on_as_listed() {
    let listed = vec![
        ("lo".to_string(), "127.0.0.1".to_string(), true),
        ("eth0".to_string(), "192.168.1.7".to_string(), false),
        ("eth0".to_string(), "fe80::1".to_string(), false),
    ];
    let out = interfaces_from(Some(listed));
    assert_eq!(out.len(), 3);
    assert_eq!(out[0].name, "lo");
    assert_eq!(out[0].ip, "127.0.0.1");
    assert!(out[0].is_loopback);
    assert_eq!(out[2].name, "eth0");
    assert_eq!(out[2].ip, "fe80::1");
    assert!(!out[2].is_loopback);
    assert!(interfaces_from(None).is_empty());
    for iface in get_network_interfaces() {
        assert!(!iface.ip.is_empty());
        if iface.ip == "127.0.0.1" || iface.ip == "::1" {
            assert!(iface.is_loopback);
        }
    }
}

#[test]
fn a_file_that_cannot_be_read_is_a_file_error() {
    let f = file("f1", "a.bin", 77);
    let cases = [
        (FileStep::Open, "Failed to open file: denied"),
        (FileStep::Metadata, "Failed to get file metadata: denied"),
        (FileStep::Read, "Failed to read file: denied"),
    ];
    for (step, text) in cases {
        match TransferClient::send_file("tid", &f, UploadOutcome::Unreadable(step, "denied".to_string())) {
            Err(AppError::FileIo(m)) => assert_eq!(m, text),
            _ => panic!("expected FileIo"),
        }
        match upload_error(&UploadOutcome::Unreadable(step, "denied".to_string())) {
            Some(AppError::FileIo(m)) => assert_eq!(m, text),
            _ => panic!("expected FileIo"),
        }
    }
    assert!(upload_error(&UploadOutcome::Answer(204, String::new())).is_none());
    match upload_error(&UploadOutcome::Answer(500, "disk full".to_string())) {
        Some(AppError::Network(m)) => assert_eq!(m, "Server returned error: disk full"),
        _ => panic!("expected Network"),
    }
}

#[test]
fn request_errors_by_outcome() {
    let accepted = TransferResponse { accepted: false, message: None, token: None };
    assert!(request_error("h", 1, &PostOutcome::Answer(accepted)).is_none());
    match request_error("h", 1, &PostOutcome::Refused(503, "rejected".to_string())) {
        Some(AppError::TransferRejected) => {}
        _ => panic!("expected TransferRejected"),
    }
    match request_error("fd00::5", 9, &PostOutcome::Failed(RequestFailure::Connect("refused".to_string()))) {
        Some(AppError::ConnectionRefused(m)) => assert_eq!(m, "Cannot connect to fd00::5:9 - refused"),
        _ => panic!("expected ConnectionRefused"),
    }
}
