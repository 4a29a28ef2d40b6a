use gosh_transfer::client::{FileStep, PostOutcome, RequestFailure, UploadOutcome};
use gosh_transfer::events::ServerEvent;
use gosh_transfer::send::{
    backoff_delay, SendAction, SendPhase, SendSession, SendStep, APPROVAL_CAP_MS,
    MAX_APPROVAL_ATTEMPTS, MAX_FILE_ATTEMPTS,
};
use gosh_transfer::types::{AppError, TransferFile, TransferResponse};

fn file(id: &str, name: &str, size: u64) -> TransferFile {
    TransferFile { name: name.to_string(), size, mime_type: None, id: id.to_string() }
}

fn session(files: Vec<TransferFile>) -> SendSession {
    let paths = files.iter().map(|f| format!("/src/{}", f.name)).collect();
    SendSession::new("tid".to_string(), "10.0.0.5".to_string(), 53317, files, paths, None)
        .ok()
        .unwrap()
}

fn accept(token: &str) -> PostOutcome {
    PostOutcome::Answer(TransferResponse {
        accepted: true,
        message: None,
        token: Some(token.to_string()),
    })
}

fn not_yet() -> PostOutcome {
    PostOutcome::Answer(TransferResponse {
        accepted: false,
        message: Some("awaiting approval".to_string()),
        token: None,
    })
}

fn ok() -> UploadOutcome {
    UploadOutcome::Answer(200, String::new())
}

fn failed_with(step: &SendStep, expected: &str) {
    assert_eq!(step.action, SendAction::Stop);
    assert_eq!(step.events.len(), 1);
    match &step.events[0] {
        ServerEvent::TransferFailed { transfer_id, error } => {
            assert_eq!(transfer_id, "tid");
            assert_eq!(error, expected);
        }
        _ => panic!("expected TransferFailed"),
    }
}

#[test]
fn backoff_doubles_from_one_second_up_to_ten() {
    assert_eq!(backoff_delay(0), 1000);
    assert_eq!(backoff_delay(1), 2000);
    assert_eq!(backoff_delay(2), 4000);
    assert_eq!(backoff_delay(3), 8000);
    assert_eq!(backoff_delay(4), 10000);
    assert_eq!(backoff_delay(5), 10000);
    assert_eq!(backoff_delay(u32::MAX), 10000);
    assert_eq!(MAX_FILE_ATTEMPTS, 3);
    assert_eq!(APPROVAL_CAP_MS, 300000);
    let total: u64 = (0..MAX_APPROVAL_ATTEMPTS).map(backoff_delay).sum();
    assert_eq!(total, 295000);
    assert!(total + backoff_delay(MAX_APPROVAL_ATTEMPTS) > APPROVAL_CAP_MS);
}

#[test]
fn request_uses_the_identifier_of_the_session_throughout() {
    let mut s = session(vec![file("f1", "a.bin", 5), file("f2", "b.bin", 6)]);
    let req = s.request();
    assert_eq!(req.transfer_id, "tid");
    assert_eq!(req.total_size, 11);
    assert_eq!(req.files.len(), 2);
    assert!(s.upload_target().is_none());
    let step = s.on_response(accept("tok"));
    assert!(step.events.is_empty());
    assert_eq!(step.action, SendAction::Upload { delay_ms: 0, index: 0 });
    assert_eq!(s.phase(), SendPhase::Uploading);
    let (path, url) = s.upload_target().unwrap();
    assert_eq!(path, "/src/a.bin");
    assert_eq!(url, "http://10.0.0.5:53317/chunk?transfer_id=tid&file_id=f1&token=tok");
}

#[test]
fn files_are_uploaded_in_order_and_completion_is_announced_once() {
    let mut s = session(vec![file("f1", "a.bin", 5), file("f2", "b.bin", 6)]);
    s.on_response(accept("tok"));
    let first = s.on_upload(ok());
    assert_eq!(first.action, SendAction::Upload { delay_ms: 0, index: 1 });
    assert_eq!(first.events.len(), 1);
    match &first.events[0] {
        ServerEvent::Progress { progress } => {
            assert_eq!(progress.transfer_id, "tid");
            assert_eq!(progress.current_file.as_deref(), Some("a.bin"));
            assert_eq!(progress.bytes_transferred, 5);
            assert_eq!(progress.total_bytes, 11);
        }
        _ => panic!("expected Progress"),
    }
    assert_eq!(s.upload_target().unwrap().0, "/src/b.bin");
    assert!(s.upload_target().unwrap().1.contains("file_id=f2"));
    let second = s.on_upload(ok());
    assert_eq!(second.action, SendAction::Stop);
    assert_eq!(second.events.len(), 2);
    match (&second.events[0], &second.events[1]) {
        (ServerEvent::Progress { progress }, ServerEvent::TransferComplete { transfer_id }) => {
            assert_eq!(progress.bytes_transferred, 11);
            assert_eq!(progress.total_bytes, 11);
            assert_eq!(transfer_id, "tid");
        }
        _ => panic!("expected Progress then TransferComplete"),
    }
    assert_eq!(s.phase(), SendPhase::Complete);
    let after = s.on_upload(ok());
    assert!(after.events.is_empty());
    assert_eq!(after.action, SendAction::Stop);
    assert!(s.on_response(accept("tok")).events.is_empty());
    assert!(s.upload_target().is_none());
}

#[test]
fn transfer_without_files_completes_on_approval() {
    let mut s = session(vec![]);
    let step = s.on_response(accept("tok"));
    assert_eq!(step.action, SendAction::Stop);
    match &step.events[0] {
        ServerEvent::TransferComplete { transfer_id } => assert_eq!(transfer_id, "tid"),
        _ => panic!("expected TransferComplete"),
    }
    assert_eq!(s.phase(), SendPhase::Complete);
}

#[test]
fn waiting_for_approval_backs_off_and_gives_up_at_the_cap() {
    let mut s = session(vec![file("f1", "a.bin", 5)]);
    let mut waited: u64 = 0;
    let mut attempts: u32 = 0;
    loop {
        let step = s.on_response(not_yet());
        match step.action {
            SendAction::Post { delay_ms } => {
                assert_eq!(delay_ms, backoff_delay(attempts));
                attempts += 1;
                waited += delay_ms;
                assert!(waited <= 300000);
                match &step.events[0] {
                    ServerEvent::TransferRetry { transfer_id, attempt, max_attempts, error } => {
                        assert_eq!(transfer_id, "tid");
                        assert_eq!(*attempt, attempts);
                        assert_eq!(*max_attempts, 32);
                        assert_eq!(error, "awaiting approval");
                    }
                    _ => panic!("expected TransferRetry"),
                }
            }
            SendAction::Stop => {
                failed_with(&step, "rejected");
                break;
            }
            _ => panic!("unexpected action"),
        }
    }
    assert_eq!(attempts, 32);
    assert_eq!(waited, 295000);
    assert_eq!(s.phase(), SendPhase::Failed);
    match s.result() {
        Some(Err(AppError::TransferRejected)) => {}
        _ => panic!("expected TransferRejected"),
    }
    assert!(s.on_response(accept("late")).events.is_empty());
}

#[test]
fn approval_after_some_waiting_starts_the_uploads() {
    let mut s = session(vec![file("f1", "a.bin", 5)]);
    assert_eq!(s.on_response(not_yet()).action, SendAction::Post { delay_ms: 1000 });
    assert_eq!(s.on_response(not_yet()).action, SendAction::Post { delay_ms: 2000 });
    let step = s.on_response(accept("tok"));
    assert_eq!(step.action, SendAction::Upload { delay_ms: 0, index: 0 });
    let retry = s.on_upload(UploadOutcome::Failed("reset".to_string()));
    assert_eq!(retry.action, SendAction::Upload { delay_ms: 1000, index: 0 });
}

#[test]
fn explicit_rejection_ends_the_transfer() {
    let mut s = session(vec![file("f1", "a.bin", 5)]);
    let step = s.on_response(PostOutcome::Refused(503, "rejected".to_string()));
    failed_with(&step, "rejected");
    assert_eq!(s.phase(), SendPhase::Failed);
    match s.result() {
        Some(Err(AppError::TransferRejected)) => {}
        _ => panic!("expected TransferRejected"),
    }
}

#[test]
fn request_errors_that_cannot_be_mended_end_the_transfer() {
    let mut s = session(vec![file("f1", "a.bin", 5)]);
    let step = s.on_response(PostOutcome::Refused(400, "malformed transfer request".to_string()));
    failed_with(&step, "malformed transfer request");
    let mut t = session(vec![file("f1", "a.bin", 5)]);
    let step = t.on_response(PostOutcome::ParseFailed("eof".to_string()));
    failed_with(&step, "Failed to parse response: eof");
    let mut u = session(vec![file("f1", "a.bin", 5)]);
    let step = u.on_response(PostOutcome::Answer(TransferResponse {
        accepted: true,
        message: None,
        token: None,
    }));
    failed_with(&step, "No token received");
}

#[test]
fn network_errors_on_the_request_are_retried() {
    let mut s = session(vec![file("f1", "a.bin", 5)]);
    let step = s.on_response(PostOutcome::Failed(RequestFailure::Timeout("timed out".to_string())));
    assert_eq!(step.action, SendAction::Post { delay_ms: 1000 });
    match &step.events[0] {
        ServerEvent::TransferRetry { attempt, error, .. } => {
            assert_eq!(*attempt, 1);
            assert_eq!(error, "timed out");
        }
        _ => panic!("expected TransferRetry"),
    }
    let step = s.on_response(PostOutcome::Refused(500, "disk full".to_string()));
    assert_eq!(step.action, SendAction::Post { delay_ms: 2000 });
    let step = s.on_response(PostOutcome::Refused(502, "bad gateway".to_string()));
    assert_eq!(step.action, SendAction::Post { delay_ms: 4000 });
}

#[test]
fn a_file_is_tried_three_times_then_the_transfer_is_aborted() {
    let mut s = session(vec![file("f1", "a.bin", 5), file("f2", "b.bin", 6)]);
    s.on_response(accept("tok"));
    let one = s.on_upload(UploadOutcome::Answer(500, "disk full".to_string()));
    assert_eq!(one.action, SendAction::Upload { delay_ms: 1000, index: 0 });
    match &one.events[0] {
        ServerEvent::TransferRetry { attempt, max_attempts, error, .. } => {
            assert_eq!(*attempt, 1);
            assert_eq!(*max_attempts, 3);
            assert_eq!(error, "disk full");
        }
        _ => panic!("expected TransferRetry"),
    }
    let two = s.on_upload(UploadOutcome::Failed("reset".to_string()));
    assert_eq!(two.action, SendAction::Upload { delay_ms: 2000, index: 0 });
    let three = s.on_upload(UploadOutcome::Failed("reset again".to_string()));
    failed_with(&three, "reset again");
    assert_eq!(s.phase(), SendPhase::Failed);
    assert!(s.on_upload(ok()).events.is_empty());
}

#[test]
fn retries_are_counted_for_each_file_anew() {
    let mut s = session(vec![file("f1", "a.bin", 5), file("f2", "b.bin", 6)]);
    s.on_response(accept("tok"));
    s.on_upload(UploadOutcome::Failed("x".to_string()));
    s.on_upload(UploadOutcome::Failed("x".to_string()));
    assert_eq!(s.on_upload(ok()).action, SendAction::Upload { delay_ms: 0, index: 1 });
    let retry = s.on_upload(UploadOutcome::Failed("y".to_string()));
    assert_eq!(retry.action, SendAction::Upload { delay_ms: 1000, index: 1 });
}

#[test]
fn authorization_and_validation_errors_are_never_retried() {
    for (status, text) in [(401, "Invalid or expired token"), (404, "File not found"), (400, "bad"), (413, "too large"), (503, "rejected")] {
        let mut s = session(vec![file("f1", "a.bin", 5)]);
        s.on_response(accept("tok"));
        let step = s.on_upload(UploadOutcome::Answer(status, text.to_string()));
        failed_with(&step, text);
    }
}

#[test]
fn cancellation_is_seen_at_the_next_report() {
    let mut s = session(vec![file("f1", "a.bin", 5), file("f2", "b.bin", 6)]);
    s.on_response(accept("tok"));
    s.on_upload(ok());
    s.cancel();
    let step = s.on_upload(ok());
    failed_with(&step, "cancelled");
    assert_eq!(s.phase(), SendPhase::Failed);
    let mut waiting = session(vec![file("f1", "a.bin", 5)]);
    waiting.cancel();
    let step = waiting.on_response(accept("tok"));
    failed_with(&step, "cancelled");
}

#[test]
fn session_needs_one_path_for_each_file_and_a_total_that_fits() {
    let r = SendSession::new(
        "t".to_string(),
        "h".to_string(),
        1,
        vec![file("f1", "a", 1)],
        vec![],
        None,
    );
    match r {
        Err(AppError::InvalidConfig(m)) => assert_eq!(m, "One path is needed for each file"),
        _ => panic!("expected InvalidConfig"),
    }
    let r = SendSession::new(
        "t".to_string(),
        "h".to_string(),
        1,
        vec![file("f1", "a", u64::MAX), file("f2", "b", 1)],
        vec!["/a".to_string(), "/b".to_string()],
        None,
    );
    match r {
        Err(AppError::InvalidConfig(m)) => assert_eq!(m, "Total size of the files is too large"),
        _ => panic!("expected InvalidConfig"),
    }
}

#[test]
fn result_is_there_once_the_send_has_ended() {
    let mut s = session(vec![file("f1", "a.bin", 5)]);
    assert!(s.result().is_none());
    s.on_response(not_yet());
    assert!(s.result().is_none());
    s.on_response(accept("tok"));
    assert!(s.result().is_none());
    s.on_upload(UploadOutcome::Failed("reset".to_string()));
    assert!(s.result().is_none());
    s.on_upload(ok());
    match s.result() {
        Some(Ok(id)) => assert_eq!(id, "tid"),
        _ => panic!("expected Ok"),
    }
}

#[test]
fn errors_that_end_a_send_are_returned() {
    let mut s = session(vec![file("f1", "a.bin", 5)]);
    s.on_response(accept("tok"));
    s.on_upload(UploadOutcome::Failed("a".to_string()));
    s.on_upload(UploadOutcome::Failed("b".to_string()));
    s.on_upload(UploadOutcome::Answer(500, "disk full".to_string()));
    match s.result() {
        Some(Err(AppError::Network(m))) => assert_eq!(m, "Server returned error: disk full"),
        _ => panic!("expected Network"),
    }
    let mut t = session(vec![file("f1", "a.bin", 5)]);
    t.on_response(PostOutcome::Refused(400, "malformed transfer request".to_string()));
    match t.result() {
        Some(Err(AppError::Network(m))) => {
            assert_eq!(m, "Transfer request failed: malformed transfer request")
        }
        _ => panic!("expected Network"),
    }
    let mut u = session(vec![file("f1", "a.bin", 5)]);
    u.on_response(PostOutcome::ParseFailed("eof".to_string()));
    match u.result() {
        Some(Err(AppError::Serialization(m))) => assert_eq!(m, "Failed to parse response: eof"),
        _ => panic!("expected Serialization"),
    }
    let mut v = session(vec![file("f1", "a.bin", 5)]);
    v.cancel();
    v.on_response(accept("tok"));
    match v.result() {
        Some(Err(AppError::Network(m))) => assert_eq!(m, "Transfer cancelled"),
        _ => panic!("expected Network"),
    }
    let mut w = session(vec![file("f1", "a.bin", 5)]);
    w.on_response(PostOutcome::Answer(TransferResponse {
        accepted: true,
        message: None,
        token: None,
    }));
    match w.result() {
        Some(Err(AppError::Network(m))) => assert_eq!(m, "No token received"),
        _ => panic!("expected Network"),
    }
}

#[test]
fn a_file_that_cannot_be_read_ends_the_send_without_retry() {
    let mut s = session(vec![file("f1", "a.bin", 5), file("f2", "b.bin", 6)]);
    s.on_response(accept("tok"));
    let step = s.on_upload(UploadOutcome::Unreadable(FileStep::Open, "No such file".to_string()));
    failed_with(&step, "Failed to open file: No such file");
    assert_eq!(s.phase(), SendPhase::Failed);
    match s.result() {
        Some(Err(AppError::FileIo(m))) => assert_eq!(m, "Failed to open file: No such file"),
        _ => panic!("expected FileIo"),
    }
}
