//! The synthetic event the object store sends when notifications are first
//! configured on a bucket.  It carries no work and is simply acknowledged.

use vstd::prelude::*;
use crate::strutil::str_eq;

verus! {

/// A decoded bucket-notification test event.
#[derive(Debug)]
pub struct TestEvent {
    pub service: String,
    pub event: String,
    pub bucket: Option<String>,
}

impl TestEvent {
    /// True when this is the object store's own test event for the bucket
    /// this worker serves.
    pub open spec fn spec_is_storipress_bucket(&self) -> bool {
        &&& self.service@ == "Amazon S3"@
        &&& self.event@ == "s3:TestEvent"@
        &&& match self.bucket {
            Some(b) => b@ == "storipress"@,
            None => false,
        }
    }

    /// See [`Self::spec_is_storipress_bucket`].
    pub fn is_storipress_bucket(&self) -> (r: bool)
        ensures
            r == self.spec_is_storipress_bucket(),
    {
        let bucket_ok = match &self.bucket {
            Some(b) => str_eq(b.as_str(), "storipress"),
            None => false,
        };
        str_eq(self.service.as_str(), "Amazon S3") && str_eq(self.event.as_str(), "s3:TestEvent")
            && bucket_ok
    }
}

} // verus!
