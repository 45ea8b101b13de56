//! Waiting for the deployed page to serve the fresh release: the address
//! probed and the match decision.  The probing itself, with its backoff,
//! is the surrounding process's work.

use vstd::prelude::*;
use crate::strutil::{lower_of, str_eq};
use crate::types::DeployMeta;

verus! {

use vstd::string::StringExecFns;

/// One version probe: where to ask, and which release to expect.
#[derive(Debug)]
pub struct CheckVersion {
    pub url: String,
    pub release_id: String,
}

impl CheckVersion {
    /// The deployed page's version endpoint for one job.
    pub fn new(meta: &DeployMeta) -> (c: Self)
        ensures
            c.url@ == "https://"@ + lower_of(meta.client_id@) + "."@ + meta.page_id@
                + ".pages.dev"@ + "/api/_storipress/version"@,
            c.release_id@ == meta.release_id@,
    {
        let mut url = meta.cloudflare_page_url();
        url.append("/api/_storipress/version");
        CheckVersion { url, release_id: meta.release_id.clone() }
    }

    /// True when the release identifier the page reports is the one this
    /// job deployed.
    pub fn version_matches(&self, reported: &str) -> (r: bool)
        ensures
            r == (reported@ == self.release_id@),
    {
        str_eq(reported, self.release_id.as_str())
    }
}

} // verus!
