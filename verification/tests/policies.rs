use dgit::blob::{DownloadCommand, DownloadEvent, DownloadMachine, Source, UploadCommand,
    UploadEvent, UploadMachine};
use dgit::ipfs::interpret_add_response;
use dgit::retry::{is_recoverable_submission_error, validate_batch, ReceiptStatus, WriteCommand,
    WriteEvent, WriteKind, WriteMachine};
use dgit::Error;

#[test]
fn recoverable_submission_errors_are_the_closed_set() {
    assert!(is_recoverable_submission_error("rpc said: nonce too low, retry"));
    assert!(is_recoverable_submission_error("gas price too low"));
    assert!(is_recoverable_submission_error("replacement transaction underpriced"));
    assert!(!is_recoverable_submission_error("insufficient funds"));
    assert!(!is_recoverable_submission_error(""));
}

fn refs_batch() -> (Vec<String>, Vec<Vec<u8>>) {
    (
        vec!["refs/heads/main".to_string()],
        vec![b"0123456789abcdef0123456789abcdef01234567".to_vec()],
    )
}

#[test]
fn write_succeeds_on_third_attempt() {
    let (names, data) = refs_batch();
    let (m, c) = WriteMachine::start(WriteKind::Refs, names.clone(), data.clone());
    match c {
        WriteCommand::Submit { items, data: rows } => {
            assert_eq!(items, names);
            assert_eq!(rows, data);
        }
        other => panic!("expected a submission, got {:?}", other),
    }
    let (m, c) = m.step(WriteEvent::SubmittedErr { message: "nonce too low".to_string() });
    match c {
        WriteCommand::SleepThenSubmit { millis, items, data: rows } => {
            assert_eq!(millis, 500);
            assert_eq!(items, names);
            assert_eq!(rows, data);
        }
        other => panic!("expected a retry, got {:?}", other),
    }
    let (m, c) = m.step(WriteEvent::SubmittedErr { message: "gas price too low".to_string() });
    match c {
        WriteCommand::SleepThenSubmit { millis, items, data: rows } => {
            assert_eq!(millis, 1000);
            assert_eq!(items, names);
            assert_eq!(rows, data);
        }
        other => panic!("expected a retry, got {:?}", other),
    }
    assert_eq!(m.attempt, 3);
    let (m, c) = m.step(WriteEvent::SubmittedOk);
    assert!(matches!(c, WriteCommand::PollReceipt));
    let (_, c) = m.step(WriteEvent::Receipt { status: ReceiptStatus::Confirmed });
    assert!(matches!(c, WriteCommand::Succeed));
}

#[test]
fn write_gives_up_after_three_recoverable_failures() {
    let (names, data) = refs_batch();
    let (m, _) = WriteMachine::start(WriteKind::Refs, names, data);
    let (m, _) = m.step(WriteEvent::SubmittedErr { message: "nonce too low".to_string() });
    let (m, _) = m.step(WriteEvent::SubmittedErr { message: "nonce too low".to_string() });
    let (_, c) = m.step(WriteEvent::SubmittedErr { message: "nonce too low".to_string() });
    match c {
        WriteCommand::Fail { error } => {
            assert_eq!(error.message(), "Failed to add refs after 3 retries");
        }
        other => panic!("expected failure, got {:?}", other),
    }
}

#[test]
fn write_final_unrecoverable_failure_carries_the_transport_words() {
    let (names, data) = refs_batch();
    let (m, _) = WriteMachine::start(WriteKind::Objects, names, data);
    let (m, _) = m.step(WriteEvent::SubmittedErr { message: "nonce too low".to_string() });
    let (m, _) = m.step(WriteEvent::SubmittedErr { message: "nonce too low".to_string() });
    let (_, c) = m.step(WriteEvent::SubmittedErr { message: "insufficient funds".to_string() });
    match c {
        WriteCommand::Fail { error } => {
            assert_eq!(error.message(), "Failed to add objects: insufficient funds");
        }
        other => panic!("expected failure, got {:?}", other),
    }
}

#[test]
fn write_missing_receipt_is_optimistic_success() {
    let (names, data) = refs_batch();
    let (m, _) = WriteMachine::start(WriteKind::Refs, names, data);
    let (m, _) = m.step(WriteEvent::SubmittedOk);
    let (_, c) = m.step(WriteEvent::Receipt { status: ReceiptStatus::Missing });
    assert!(matches!(c, WriteCommand::Succeed));
}

#[test]
fn write_rejected_receipt_retries_with_backoff() {
    let (names, data) = refs_batch();
    let (m, _) = WriteMachine::start(WriteKind::Refs, names, data);
    let (m, _) = m.step(WriteEvent::SubmittedOk);
    let (m, c) = m.step(WriteEvent::Receipt { status: ReceiptStatus::Rejected });
    assert!(matches!(c, WriteCommand::SleepThenSubmit { millis: 500, .. }));
    assert_eq!(m.attempt, 2);
}

#[test]
fn empty_or_mismatched_batches_are_refused() {
    let (_, c) = WriteMachine::start(WriteKind::Objects, Vec::new(), Vec::new());
    match c {
        WriteCommand::Fail { error } => {
            assert_eq!(error.message(), "Invalid objects data: mismatched lengths");
        }
        other => panic!("expected a refusal, got {:?}", other),
    }
    let (names, data) = refs_batch();
    let mut long_data = data;
    long_data.push(b"extra".to_vec());
    let (_, c) = WriteMachine::start(WriteKind::Refs, names, long_data);
    match c {
        WriteCommand::Fail { error } => {
            assert_eq!(error.message(), "Invalid refs data: mismatched lengths");
        }
        other => panic!("expected a refusal, got {:?}", other),
    }
    assert!(validate_batch(WriteKind::Objects, 2, 2).is_ok());
    let err = validate_batch(WriteKind::Refs, 1, 2).unwrap_err();
    assert_eq!(err.message(), "Invalid refs data: mismatched lengths");
}

#[test]
fn upload_posts_payload_unchanged_on_every_attempt() {
    let payload = b"\x00raw git bytes\xff".to_vec();
    let (m, c) = UploadMachine::start(payload.clone());
    match c {
        UploadCommand::Post { content } => assert_eq!(content, payload),
        other => panic!("expected a post, got {:?}", other),
    }
    let (m, c) = m.step(UploadEvent::Refused { message: "502".to_string() });
    match c {
        UploadCommand::SleepThenPost { millis, content } => {
            assert_eq!(millis, 1000);
            assert_eq!(content, payload);
        },
        other => panic!("expected a retry, got {:?}", other),
    }
    let (_, c) = m.step(UploadEvent::Accepted { cid: "QmX".to_string() });
    assert!(matches!(c, UploadCommand::Succeed { .. }));
}

#[test]
fn upload_gives_up_after_three_attempts() {
    let (m, _) = UploadMachine::start(b"x".to_vec());
    let (m, c) = m.step(UploadEvent::Refused { message: "a".to_string() });
    assert!(matches!(c, UploadCommand::SleepThenPost { millis: 1000, .. }));
    let (m, c) = m.step(UploadEvent::Refused { message: "b".to_string() });
    assert!(matches!(c, UploadCommand::SleepThenPost { millis: 2000, .. }));
    let (_, c) = m.step(UploadEvent::Refused { message: "c".to_string() });
    match c {
        UploadCommand::Fail { error } => assert_eq!(
            error.message(),
            "Failed to upload file to IPFS after 3 attempts: c"
        ),
        other => panic!("expected failure, got {:?}", other),
    }
}

#[test]
fn download_block_miss_falls_to_cat_within_first_round() {
    let (m, c) = DownloadMachine::start(false);
    assert!(matches!(c, DownloadCommand::Fetch { source: Source::Block }));
    let (m, c) = m.step(DownloadEvent::Miss);
    assert!(matches!(c, DownloadCommand::Fetch { source: Source::Cat }));
    assert_eq!(m.round, 1);
    let served = b"X".to_vec();
    let (m, c) = m.step(DownloadEvent::Delivered { content: served.clone() });
    match c {
        DownloadCommand::Write { content } => assert_eq!(content, served),
        other => panic!("expected a write, got {:?}", other),
    }
    assert_eq!(m.round, 1);
}

#[test]
fn download_skips_gateway_when_none_is_configured() {
    let (m, _) = DownloadMachine::start(false);
    let (m, _) = m.step(DownloadEvent::Miss);
    let (m, c) = m.step(DownloadEvent::Miss);
    assert!(matches!(
        c,
        DownloadCommand::SleepThenFetch { millis: 1000, source: Source::Block }
    ));
    assert_eq!(m.round, 2);
}

#[test]
fn download_tries_gateway_then_backs_off_then_fails() {
    let (m, _) = DownloadMachine::start(true);
    let (m, _) = m.step(DownloadEvent::Miss);
    let (m, c) = m.step(DownloadEvent::Miss);
    assert!(matches!(c, DownloadCommand::Fetch { source: Source::Gateway }));
    let (m, c) = m.step(DownloadEvent::Miss);
    assert!(matches!(
        c,
        DownloadCommand::SleepThenFetch { millis: 1000, source: Source::Block }
    ));
    let (m, _) = m.step(DownloadEvent::Miss);
    let (m, _) = m.step(DownloadEvent::Miss);
    let (m, c) = m.step(DownloadEvent::Miss);
    assert!(matches!(
        c,
        DownloadCommand::SleepThenFetch { millis: 2000, source: Source::Block }
    ));
    assert_eq!(m.round, 3);
    let (m, _) = m.step(DownloadEvent::Miss);
    let (m, _) = m.step(DownloadEvent::Miss);
    let (_, c) = m.step(DownloadEvent::Miss);
    match c {
        DownloadCommand::Fail { error } => {
            assert_eq!(error.message(), "Failed to download from IPFS after all attempts");
        },
        other => panic!("expected failure, got {:?}", other),
    }
}

#[test]
fn blob_content_round_trips_through_the_policies() {
    let payload = b"\x78\x01compressed loose object".to_vec();
    let (_, c) = UploadMachine::start(payload.clone());
    let posted = match c {
        UploadCommand::Post { content } => content,
        other => panic!("expected a post, got {:?}", other),
    };
    let (m, _) = DownloadMachine::start(true);
    let (_, c) = m.step(DownloadEvent::Delivered { content: posted });
    match c {
        DownloadCommand::Write { content } => assert_eq!(content, payload),
        other => panic!("expected a write, got {:?}", other),
    }
}

#[test]
fn add_response_with_hash_is_accepted() {
    let body = "{\"Name\":\"obj\",\"Hash\":\"QmAbc123\",\"Size\":\"17\"}";
    assert_eq!(interpret_add_response(true, body).unwrap(), "QmAbc123");
}

#[test]
fn add_response_with_error_status_carries_the_body() {
    let err = interpret_add_response(false, "over quota").unwrap_err();
    assert_eq!(err.message(), "Failed to upload to IPFS: over quota");
}

#[test]
fn add_response_without_hash_is_refused() {
    let err = interpret_add_response(true, "{\"Name\":\"obj\"}").unwrap_err();
    assert_eq!(err.message(), "Invalid response from IPFS: no hash returned");
    let err = interpret_add_response(true, "{\"Hash\":\"\"}").unwrap_err();
    assert_eq!(err.message(), "Invalid response from IPFS: no hash returned");
    let err = interpret_add_response(true, "{\"Hash\":7}").unwrap_err();
    assert_eq!(err.message(), "Invalid response from IPFS: no hash returned");
}

#[test]
fn add_response_that_is_not_json_is_refused() {
    let err = interpret_add_response(true, "<html>gateway error</html>").unwrap_err();
    match err {
        Error::UploadFailed { message } => {
            assert!(message.starts_with("Failed to parse IPFS response: "));
        },
        other => panic!("expected an upload failure, got {:?}", other),
    }
}
