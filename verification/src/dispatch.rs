//! Decoding and bookkeeping of one queue-delivered notification batch.
//!
//! Records are handled strictly one after another; succeeded and failed
//! keys are tracked separately, and the batch succeeds only when no key
//! failed.  A record whose object has already vanished was claimed by a
//! racing worker and counts as success.

use vstd::prelude::*;
use crate::encoding::{pct_decoded, percent_decode, string_from_utf8};
use crate::errors::ProcessFileError;
use crate::test_event::TestEvent;
use crate::types::DeployMeta;

verus! {

use vstd::string::StringSliceAdditionalSpecFns;

/// The keys a fully successful batch processed.
#[derive(Debug)]
pub struct SuccessResponse {
    pub processed: Vec<String>,
}

/// A batch with at least one failed key: both lists, for the caller's
/// report.
#[derive(Debug)]
pub struct FailureResponse {
    pub success: Vec<String>,
    pub failed: Vec<String>,
}

/// The bucket and key a record carries, or nothing when either is missing.
pub open spec fn extracted_record(bucket: Option<String>, key: Option<String>) -> Option<
    (String, String),
> {
    match (bucket, key) {
        (Some(b), Some(k)) => Some((b, k)),
        _ => None,
    }
}

/// Read the bucket and key off one notification record; a record missing
/// either carries no work and is skipped.
pub fn extract_record(bucket: Option<String>, key: Option<String>) -> (r: Option<(String, String)>)
    ensures
        r == extracted_record(bucket, key),
{
    match (bucket, key) {
        (Some(b), Some(k)) => Some((b, k)),
        _ => None,
    }
}

/// Percent-decode an object key into text.  Fails exactly when the decoded
/// bytes are not valid UTF-8.
pub fn decode_key(raw: &str) -> (r: Result<String, ()>)
    ensures
        r is Ok <==> vstd::utf8::valid_utf8(pct_decoded(raw.spec_bytes())),
        r matches Ok(k) ==> k@ == vstd::utf8::decode_utf8(pct_decoded(raw.spec_bytes())),
{
    let bytes = percent_decode(raw.as_bytes());
    string_from_utf8(bytes)
}

/// Classify a failed object fetch: a missing key means another worker
/// already claimed the item and is no error at all.
pub fn fetch_failure(no_such_key: bool) -> (r: Option<ProcessFileError>)
    ensures
        r == if no_such_key {
            Option::<ProcessFileError>::None
        } else {
            Some(ProcessFileError::S3Error)
        },
{
    if no_such_key {
        None
    } else {
        Some(ProcessFileError::S3Error)
    }
}

/// The verdict on a fetched object's metadata: the job descriptor must be
/// present under its key and must have parsed.
pub open spec fn metadata_decision(
    has_metadata: bool,
    sp_deploy: Option<String>,
    parsed: Option<DeployMeta>,
) -> Result<DeployMeta, ProcessFileError> {
    if !has_metadata {
        Err(ProcessFileError::EmptyMeta)
    } else {
        match sp_deploy {
            None => Err(ProcessFileError::NoMeta),
            Some(v) => match parsed {
                Some(m) => Ok(m),
                None => Err(ProcessFileError::InvalidMeta { meta: v }),
            },
        }
    }
}

/// Judge the metadata attached to a fetched object.
pub fn interpret_metadata(
    has_metadata: bool,
    sp_deploy: Option<String>,
    parsed: Option<DeployMeta>,
) -> (r: Result<DeployMeta, ProcessFileError>)
    ensures
        r == metadata_decision(has_metadata, sp_deploy, parsed),
{
    if !has_metadata {
        return Err(ProcessFileError::EmptyMeta);
    }
    let value = match sp_deploy {
        Some(v) => v,
        None => {
            return Err(ProcessFileError::NoMeta);
        },
    };
    match parsed {
        Some(m) => Ok(m),
        None => Err(ProcessFileError::InvalidMeta { meta: value }),
    }
}

/// What happened to the blocking unpack task.
#[derive(Debug)]
pub enum ExtractOutcome {
    /// The archive unpacked completely.
    Completed,
    /// Reading or writing failed mid-unpack; the partial tree is discarded
    /// with the scratch directory.
    IoFailed(String),
    /// The task itself did not complete cleanly.
    JoinFailed,
}

/// The error, if any, an unpack outcome amounts to.
pub open spec fn extraction_decision(outcome: ExtractOutcome) -> Result<(), ProcessFileError> {
    match outcome {
        ExtractOutcome::Completed => Ok(()),
        ExtractOutcome::IoFailed(m) => Err(ProcessFileError::Io(m)),
        ExtractOutcome::JoinFailed => Err(ProcessFileError::JoinError),
    }
}

/// Classify the unpack task's outcome.
pub fn classify_extraction(outcome: ExtractOutcome) -> (r: Result<(), ProcessFileError>)
    ensures
        r == extraction_decision(outcome),
{
    match outcome {
        ExtractOutcome::Completed => Ok(()),
        ExtractOutcome::IoFailed(m) => Err(ProcessFileError::Io(m)),
        ExtractOutcome::JoinFailed => Err(ProcessFileError::JoinError),
    }
}

/// Per-batch bookkeeping of succeeded and failed keys.
#[derive(Debug)]
pub struct BatchTracker {
    pub processed: Vec<String>,
    pub failed: Vec<String>,
}

impl BatchTracker {
    /// Start a batch with nothing seen yet.
    pub fn new() -> (t: Self)
        ensures
            t.processed@ == Seq::<String>::empty(),
            t.failed@ == Seq::<String>::empty(),
    {
        BatchTracker { processed: Vec::new(), failed: Vec::new() }
    }

    /// One record's job finished; its staging object is to be deleted.
    pub fn record_success(&mut self, key: String)
        ensures
            final(self).processed@ == old(self).processed@.push(key),
            final(self).failed@ == old(self).failed@,
    {
        self.processed.push(key);
    }

    /// One record's job failed; the failure was reported through the
    /// release state, and the key is surfaced in the batch result.
    pub fn record_failure(&mut self, key: String)
        ensures
            final(self).failed@ == old(self).failed@.push(key),
            final(self).processed@ == old(self).processed@,
    {
        self.failed.push(key);
    }

    /// Close the batch: success exactly when no key failed.
    pub fn into_response(self) -> (r: Result<SuccessResponse, FailureResponse>)
        ensures
            self.failed@.len() == 0 ==> (r matches Ok(s) && s.processed@ == self.processed@),
            self.failed@.len() != 0 ==> (r matches Err(f) && f.success@ == self.processed@
                && f.failed@ == self.failed@),
    {
        if self.failed.is_empty() {
            Ok(SuccessResponse { processed: self.processed })
        } else {
            Err(FailureResponse { success: self.processed, failed: self.failed })
        }
    }
}

/// What one queue message turned out to be.
#[derive(Debug, PartialEq, Eq, Copy, Clone, Structural)]
pub enum MessageDisposition {
    /// A notification batch: dispatch it.
    HandleBatch,
    /// The object store's test event for this worker's bucket: acknowledge
    /// it.
    TestPing,
    /// A test event for some other bucket: leave it and log.
    UnknownEvent,
    /// Neither a batch nor a test event: leave it and log.
    Unparsable,
}

/// What one queue message turns out to be, from what its body parsed as.
pub open spec fn message_disposition(is_batch: bool, test_event: Option<TestEvent>) -> MessageDisposition {
    if is_batch {
        MessageDisposition::HandleBatch
    } else {
        match test_event {
            Some(t) => if t.spec_is_storipress_bucket() {
                MessageDisposition::TestPing
            } else {
                MessageDisposition::UnknownEvent
            },
            None => MessageDisposition::Unparsable,
        }
    }
}

/// Classify one queue message from what its body parsed as.
pub fn classify_message(is_batch: bool, test_event: &Option<TestEvent>) -> (r: MessageDisposition)
    ensures
        r == message_disposition(is_batch, *test_event),
{
    if is_batch {
        MessageDisposition::HandleBatch
    } else {
        match test_event {
            Some(t) => {
                if t.is_storipress_bucket() {
                    MessageDisposition::TestPing
                } else {
                    MessageDisposition::UnknownEvent
                }
            },
            None => MessageDisposition::Unparsable,
        }
    }
}

/// Whether the queue message is deleted: after a batch whose dispatch call
/// returned without a framework-level error, and for the acknowledged test
/// ping.  Per-item deploy failures never hold the message back.
pub fn should_delete_message(disposition: MessageDisposition, dispatch_returned: bool) -> (r: bool)
    ensures
        r == (disposition == MessageDisposition::HandleBatch && dispatch_returned || disposition
            == MessageDisposition::TestPing),
{
    match disposition {
        MessageDisposition::HandleBatch => dispatch_returned,
        MessageDisposition::TestPing => true,
        _ => false,
    }
}

} // verus!
