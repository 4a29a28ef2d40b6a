use gosh_transfer::types::{
    clone_files, clone_opt_string, clone_strings, AppError, TransferDirection, TransferFile,
    TransferRequest, TransferStatus,
};
use gosh_transfer::validate::{file_ids_distinct, find_file, total_size_of};

fn file(id: &str, name: &str, size: u64) -> TransferFile {
    TransferFile {
        name: name.to_string(),
        size,
        mime_type: Some("text/plain".to_string()),
        id: id.to_string(),
    }
}

#[test]
fn every_error_has_its_text() {
    let cases = vec![
        (AppError::Network("down".to_string()), "Network error: down"),
        (AppError::DnsResolution("no such host".to_string()), "DNS resolution failed: no such host"),
        (AppError::ConnectionRefused("10.0.0.1:1".to_string()), "Connection refused: 10.0.0.1:1"),
        (AppError::TransferRejected, "Transfer rejected by peer"),
        (AppError::FileIo("denied".to_string()), "File I/O error: denied"),
        (AppError::Serialization("eof".to_string()), "Serialization error: eof"),
        (AppError::ServerNotRunning, "Server not running"),
        (AppError::InvalidConfig("port".to_string()), "Invalid configuration: port"),
    ];
    for (error, text) in cases {
        assert_eq!(error.message(), text);
        assert_eq!(error.clone().message(), text);
    }
    assert_eq!(AppError::Network(String::new()).message(), "Network error: ");
}

#[test]
fn copies_hold_the_same_values() {
    let files = vec![file("a", "x.txt", 1), file("b", "y.txt", 2)];
    let copy = clone_files(&files);
    assert_eq!(copy.len(), 2);
    assert_eq!(copy[1].id, "b");
    assert_eq!(copy[1].name, "y.txt");
    assert_eq!(copy[1].size, 2);
    assert_eq!(copy[1].mime_type.as_deref(), Some("text/plain"));
    assert_eq!(clone_opt_string(&Some("s".to_string())).as_deref(), Some("s"));
    assert_eq!(clone_opt_string(&None), None);
    assert_eq!(clone_strings(&vec!["a".to_string(), "".to_string()]), vec!["a", ""]);
    let req = TransferRequest {
        transfer_id: "t".to_string(),
        sender_name: Some("me".to_string()),
        files,
        total_size: 3,
    };
    let again = req.clone();
    assert_eq!(again.transfer_id, "t");
    assert_eq!(again.sender_name.as_deref(), Some("me"));
    assert_eq!(again.files.len(), 2);
    assert_eq!(again.total_size, 3);
    assert_eq!(TransferDirection::Sent.clone(), TransferDirection::Sent);
    assert_ne!(TransferStatus::Pending, TransferStatus::InProgress);
}

#[test]
fn request_validation() {
    let files = vec![file("a", "x", 5), file("b", "y", 7), file("c", "z", 0)];
    assert_eq!(total_size_of(&files), Some(12));
    assert_eq!(total_size_of(&vec![]), Some(0));
    assert_eq!(total_size_of(&vec![file("a", "x", u64::MAX), file("b", "y", 1)]), None);
    assert_eq!(total_size_of(&vec![file("a", "x", u64::MAX), file("b", "y", 0)]), Some(u64::MAX));
    assert!(file_ids_distinct(&files));
    assert!(file_ids_distinct(&vec![]));
    assert!(!file_ids_distinct(&vec![file("a", "x", 1), file("b", "y", 1), file("a", "z", 1)]));
    assert_eq!(find_file(&files, "b"), Some(1));
    assert_eq!(find_file(&files, "nope"), None);
    let mut req = TransferRequest {
        transfer_id: "t".to_string(),
        sender_name: None,
        files,
        total_size: 12,
    };
    assert!(req.is_well_formed());
    req.total_size = 11;
    assert!(!req.is_well_formed());
}
