//! Data carried to and from the release-state collaborator.
//!
//! The collaborator itself (an HTTP GraphQL endpoint) lives outside the
//! library; here are the operation payloads, their responses, and the rule
//! for when reporting is skipped.

use vstd::prelude::*;
use crate::types::DeployMeta;

verus! {

/// Protocol states of a release.  This worker only ever emits `Uploading`
/// followed by `Done` or `Error`.
#[derive(Debug, Clone, Copy, PartialEq, Eq, Structural)]
pub enum ReleaseState {
    Done,
    Aborted,
    Canceled,
    Queued,
    Error,
    Preparing,
    Generating,
    Compressing,
    Uploading,
}

/// Reporting is a silent no-op when the job carries no release identifier.
pub fn should_report(release_id: &str) -> (r: bool)
    ensures
        r == (release_id@.len() != 0),
{
    !release_id.is_empty()
}

/// The site lookup operation; it has no variables.
#[derive(Debug)]
pub struct GetSite;

impl GetSite {
    pub fn new() -> (r: Self) {
        GetSite
    }

    /// The operation name on the wire.
    pub fn name(&self) -> (r: &'static str)
        ensures
            r@ == "getSite"@,
    {
        "getSite"
    }
}

/// The site addresses the lookup returns.
#[derive(Debug)]
pub struct GetSiteResponseInner {
    pub customer_site_domain: String,
    pub customer_site_storipress_url: String,
}

/// The lookup response wrapper.
#[derive(Debug)]
pub struct GetSiteResponse {
    site: GetSiteResponseInner,
}

impl GetSiteResponse {
    pub fn new(site: GetSiteResponseInner) -> (r: Self)
        ensures
            r.site_view() == site,
    {
        GetSiteResponse { site }
    }

    pub closed spec fn site_view(&self) -> GetSiteResponseInner {
        self.site
    }

    pub fn customer_site_storipress_url(&self) -> (r: &str)
        ensures
            r@ == self.site_view().customer_site_storipress_url@,
    {
        self.site.customer_site_storipress_url.as_str()
    }

    pub fn customer_site_domain(&self) -> (r: &str)
        ensures
            r@ == self.site_view().customer_site_domain@,
    {
        self.site.customer_site_domain.as_str()
    }
}

/// The state-update operation.
#[derive(Debug)]
pub struct UpdateRelease {
    state: ReleaseState,
}

impl UpdateRelease {
    pub fn new(state: ReleaseState) -> (r: Self)
        ensures
            r.state_view() == state,
    {
        UpdateRelease { state }
    }

    pub closed spec fn state_view(&self) -> ReleaseState {
        self.state
    }

    /// The operation name on the wire.
    pub fn name(&self) -> (r: &'static str)
        ensures
            r@ == "updateRelease"@,
    {
        "updateRelease"
    }

    /// Build the operation's variables for one job.
    pub fn request(&self, meta: &DeployMeta) -> (v: UpdateReleaseVariables)
        ensures
            v.input.id@ == meta.release_id@,
            v.input.state == self.state_view(),
    {
        UpdateReleaseVariables {
            input: UpdateReleaseInput { id: meta.release_id.clone(), state: self.state },
        }
    }
}

/// The state update's input object.
#[derive(Debug)]
pub struct UpdateReleaseInput {
    pub id: String,
    pub state: ReleaseState,
}

/// The variables object of the state update.
#[derive(Debug)]
pub struct UpdateReleaseVariables {
    pub input: UpdateReleaseInput,
}

/// The updated release as the collaborator reports it back.
#[derive(Debug)]
pub struct UpdateReleaseResponseInner {
    pub id: String,
    pub state: ReleaseState,
}

/// The state update's response wrapper.
#[derive(Debug)]
pub struct UpdateReleaseResponse {
    pub update_release: UpdateReleaseResponseInner,
}

} // verus!
