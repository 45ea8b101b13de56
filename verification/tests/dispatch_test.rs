use deployer::dispatch::{
    classify_extraction, classify_message, decode_key, extract_record, fetch_failure,
    interpret_metadata, should_delete_message, BatchTracker, ExtractOutcome, MessageDisposition,
};
use deployer::errors::ProcessFileError;
use deployer::test_event::TestEvent;
use deployer::types::DeployMeta;

#[test]
fn batch_with_one_successful_record() {
    // One record: bucket and key present, key decodes, processing succeeds.
    let record = extract_record(
        Some("storipress".to_owned()),
        Some("releases/site%2Done.tar.br".to_owned()),
    );
    let (_bucket, raw_key) = record.unwrap();
    let key = decode_key(&raw_key).unwrap();
    assert_eq!(key, "releases/site-one.tar.br");

    let mut tracker = BatchTracker::new();
    tracker.record_success(key.clone());
    let response = tracker.into_response().unwrap();
    assert_eq!(response.processed, vec![key]);

    // The queue message itself is deleted once dispatch returned cleanly.
    let disposition = classify_message(true, &None);
    assert_eq!(disposition, MessageDisposition::HandleBatch);
    assert!(should_delete_message(disposition, true));
}

#[test]
fn absent_object_is_success_no_op() {
    // The object was already claimed by a racing worker: no error, and the
    // key does not appear among the failures.
    assert!(fetch_failure(true).is_none());

    let mut tracker = BatchTracker::new();
    tracker.record_success("already-gone".to_owned());
    let response = tracker.into_response().unwrap();
    assert_eq!(response.processed, vec!["already-gone".to_owned()]);
}

#[test]
fn other_fetch_errors_fail_the_item() {
    assert!(matches!(
        fetch_failure(false),
        Some(ProcessFileError::S3Error)
    ));
}

#[test]
fn failed_key_surfaces_in_batch_result() {
    let mut tracker = BatchTracker::new();
    tracker.record_success("good".to_owned());
    tracker.record_failure("bad".to_owned());
    let failure = tracker.into_response().unwrap_err();
    assert_eq!(failure.success, vec!["good".to_owned()]);
    assert_eq!(failure.failed, vec!["bad".to_owned()]);
}

#[test]
fn record_without_bucket_or_key_is_skipped() {
    assert!(extract_record(None, Some("k".to_owned())).is_none());
    assert!(extract_record(Some("b".to_owned()), None).is_none());
    assert!(extract_record(None, None).is_none());
}

#[test]
fn key_decoding_rejects_invalid_utf8() {
    assert_eq!(decode_key("a%20b").unwrap(), "a b");
    assert_eq!(decode_key("plain").unwrap(), "plain");
    assert_eq!(decode_key("%41%62c").unwrap(), "Abc");
    // A stray percent sign passes through undecoded.
    assert_eq!(decode_key("100%").unwrap(), "100%");
    assert_eq!(decode_key("%zz").unwrap(), "%zz");
    // %FF decodes to a byte that is not valid UTF-8.
    assert!(decode_key("%FF").is_err());
}

#[test]
fn metadata_chain_classifies_each_failure() {
    assert!(matches!(
        interpret_metadata(false, None, None),
        Err(ProcessFileError::EmptyMeta)
    ));
    assert!(matches!(
        interpret_metadata(true, None, None),
        Err(ProcessFileError::NoMeta)
    ));
    let err = interpret_metadata(true, Some("{broken".to_owned()), None).unwrap_err();
    match err {
        ProcessFileError::InvalidMeta { meta } => assert_eq!(meta, "{broken"),
        other => panic!("wrong error: {:?}", other),
    }
    let meta = DeployMeta {
        release_id: "r9".to_owned(),
        ..Default::default()
    };
    let ok = interpret_metadata(true, Some("{}".to_owned()), Some(meta)).unwrap();
    assert_eq!(ok.release_id, "r9");
}

#[test]
fn extraction_outcomes_classify() {
    assert!(classify_extraction(ExtractOutcome::Completed).is_ok());
    assert!(matches!(
        classify_extraction(ExtractOutcome::IoFailed("disk full".to_owned())),
        Err(ProcessFileError::Io(m)) if m == "disk full"
    ));
    assert!(matches!(
        classify_extraction(ExtractOutcome::JoinFailed),
        Err(ProcessFileError::JoinError)
    ));
}

#[test]
fn test_event_recognition() {
    let event = TestEvent {
        service: "Amazon S3".to_owned(),
        event: "s3:TestEvent".to_owned(),
        bucket: Some("storipress".to_owned()),
    };
    assert!(event.is_storipress_bucket());

    let other_bucket = TestEvent {
        service: "Amazon S3".to_owned(),
        event: "s3:TestEvent".to_owned(),
        bucket: Some("elsewhere".to_owned()),
    };
    assert!(!other_bucket.is_storipress_bucket());

    let no_bucket = TestEvent {
        service: "Amazon S3".to_owned(),
        event: "s3:TestEvent".to_owned(),
        bucket: None,
    };
    assert!(!no_bucket.is_storipress_bucket());

    let wrong_service = TestEvent {
        service: "Somewhere".to_owned(),
        event: "s3:TestEvent".to_owned(),
        bucket: Some("storipress".to_owned()),
    };
    assert!(!wrong_service.is_storipress_bucket());
}

#[test]
fn message_classification_and_deletion() {
    let ping = TestEvent {
        service: "Amazon S3".to_owned(),
        event: "s3:TestEvent".to_owned(),
        bucket: Some("storipress".to_owned()),
    };
    let disposition = classify_message(false, &Some(ping));
    assert_eq!(disposition, MessageDisposition::TestPing);
    assert!(should_delete_message(disposition, false));

    let stranger = TestEvent {
        service: "Amazon S3".to_owned(),
        event: "s3:TestEvent".to_owned(),
        bucket: Some("elsewhere".to_owned()),
    };
    let disposition = classify_message(false, &Some(stranger));
    assert_eq!(disposition, MessageDisposition::UnknownEvent);
    assert!(!should_delete_message(disposition, true));

    let disposition = classify_message(false, &None);
    assert_eq!(disposition, MessageDisposition::Unparsable);
    assert!(!should_delete_message(disposition, true));

    // A batch whose dispatch call itself errored keeps the message.
    assert!(!should_delete_message(MessageDisposition::HandleBatch, false));
}
