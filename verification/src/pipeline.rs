//! The per-job pipeline: a linear stage machine with the variant and path
//! decisions taken along the way.
//!
//! Stages run strictly in order; any failure moves to the terminal `Error`
//! stage.  A completion guard makes the error report fire exactly once, and
//! never after a normal completion.

use vstd::prelude::*;
use crate::api::ReleaseState;
use crate::nuxt_variant::{guessed_public_path, MarkerProbe, NuxtVariant};
use crate::types::{is_next_gen_source, DeployMeta, DeployType, FileSummary};

verus! {

/// The stages of one job, in the order they are reached.
#[derive(Debug, PartialEq, Eq, Copy, Clone, Structural)]
pub enum PipelineStage {
    Start,
    Uploading,
    ExtractDone,
    CleanDone,
    PublishDone,
    PublishSkipped,
    DeployDone,
    Done,
    Error,
}

/// True for the stages nothing may leave.
pub open spec fn is_terminal(stage: PipelineStage) -> bool {
    stage == PipelineStage::Done || stage == PipelineStage::Error
}

/// The deploy path for one job, relative to the scratch root; the empty
/// string names the scratch root itself.
///
/// An explicit output path always wins.  Without one, a static site
/// deploys the scratch root, and an edge-function site deploys the public
/// subpath its marker file selects.
pub open spec fn resolved_deploy_path(
    deploy_type: DeployType,
    output_path: Option<String>,
    probe: MarkerProbe,
) -> Seq<char> {
    match output_path {
        Some(p) => p@,
        None => match deploy_type {
            DeployType::Static => Seq::<char>::empty(),
            DeployType::CloudflareFunction => guessed_public_path(probe),
        },
    }
}

/// Decide the deploy path (relative to the scratch root, which is always
/// the site root) for one job.
pub fn resolve_deploy_path(
    deploy_type: DeployType,
    output_path: &Option<String>,
    probe: MarkerProbe,
) -> (r: String)
    ensures
        r@ == resolved_deploy_path(deploy_type, *output_path, probe),
{
    match output_path {
        Some(p) => p.clone(),
        None => match deploy_type {
            DeployType::Static => String::new(),
            DeployType::CloudflareFunction => NuxtVariant::guess_public_path(probe).to_owned(),
        },
    }
}

/// One job's progress through the pipeline.
#[derive(Debug)]
pub struct Pipeline {
    pub stage: PipelineStage,
    pub meta: DeployMeta,
    pub summary: Option<FileSummary>,
}

impl Pipeline {
    /// Take over one decoded job.  The deploy variant is derived from the
    /// declared source generator before anything else happens.
    pub fn start(meta: DeployMeta) -> (p: Self)
        ensures
            p.stage == PipelineStage::Start,
            p.summary is None,
            p.meta.deploy_type == if is_next_gen_source(meta.source) {
                DeployType::CloudflareFunction
            } else {
                meta.deploy_type
            },
            p.meta.page_id == meta.page_id,
            p.meta.client_id == meta.client_id,
            p.meta.release_id == meta.release_id,
            p.meta.source == meta.source,
            p.meta.output_path == meta.output_path,
            p.meta.token == meta.token,
    {
        let mut meta = meta;
        meta.derive_deploy_type_from_source();
        Pipeline { stage: PipelineStage::Start, meta, summary: None }
    }

    /// Enter the uploading stage; the returned state is reported to the
    /// release-state collaborator.
    pub fn begin(&mut self) -> (st: ReleaseState)
        requires
            old(self).stage == PipelineStage::Start,
        ensures
            final(self).stage == PipelineStage::Uploading,
            final(self).meta == old(self).meta,
            final(self).summary == old(self).summary,
            st == ReleaseState::Uploading,
    {
        self.stage = PipelineStage::Uploading;
        ReleaseState::Uploading
    }

    /// The archive is fully unpacked into the scratch directory.
    pub fn mark_extracted(&mut self)
        requires
            old(self).stage == PipelineStage::Uploading,
        ensures
            final(self).stage == PipelineStage::ExtractDone,
            final(self).meta == old(self).meta,
            final(self).summary == old(self).summary,
    {
        self.stage = PipelineStage::ExtractDone;
    }

    /// The cleaner ran; its summary is kept for the metrics record.
    pub fn mark_cleaned(&mut self, summary: FileSummary)
        requires
            old(self).stage == PipelineStage::ExtractDone,
        ensures
            final(self).stage == PipelineStage::CleanDone,
            final(self).meta == old(self).meta,
            final(self).summary == Some(summary),
    {
        self.stage = PipelineStage::CleanDone;
        self.summary = Some(summary);
    }

    /// Whether the asset subfolder must be published to object storage:
    /// static sites self-host their assets and skip the step.
    pub fn needs_publish(&self) -> (r: bool)
        ensures
            r == (self.meta.deploy_type != DeployType::Static),
    {
        !self.meta.is_static()
    }

    /// The assets were published.
    pub fn mark_published(&mut self)
        requires
            old(self).stage == PipelineStage::CleanDone,
            old(self).meta.deploy_type != DeployType::Static,
        ensures
            final(self).stage == PipelineStage::PublishDone,
            final(self).meta == old(self).meta,
            final(self).summary == old(self).summary,
    {
        self.stage = PipelineStage::PublishDone;
    }

    /// Publishing was skipped, as the static variant allows.
    pub fn skip_publish(&mut self)
        requires
            old(self).stage == PipelineStage::CleanDone,
            old(self).meta.deploy_type == DeployType::Static,
        ensures
            final(self).stage == PipelineStage::PublishSkipped,
            final(self).meta == old(self).meta,
            final(self).summary == old(self).summary,
    {
        self.stage = PipelineStage::PublishSkipped;
    }

    /// The deploy tool ran to success.
    pub fn mark_deployed(&mut self)
        requires
            old(self).stage == PipelineStage::PublishDone || old(self).stage
                == PipelineStage::PublishSkipped,
        ensures
            final(self).stage == PipelineStage::DeployDone,
            final(self).meta == old(self).meta,
            final(self).summary == old(self).summary,
    {
        self.stage = PipelineStage::DeployDone;
    }

    /// Complete the job; the returned state is reported to the
    /// release-state collaborator.
    pub fn finish(&mut self) -> (st: ReleaseState)
        requires
            old(self).stage == PipelineStage::DeployDone,
        ensures
            final(self).stage == PipelineStage::Done,
            final(self).meta == old(self).meta,
            final(self).summary == old(self).summary,
            st == ReleaseState::Done,
    {
        self.stage = PipelineStage::Done;
        ReleaseState::Done
    }

    /// A stage failed: the job halts in the terminal error stage, and the
    /// returned state is reported.
    pub fn fail(&mut self) -> (st: ReleaseState)
        requires
            !is_terminal(old(self).stage),
        ensures
            final(self).stage == PipelineStage::Error,
            final(self).meta == old(self).meta,
            final(self).summary == old(self).summary,
            st == ReleaseState::Error,
    {
        self.stage = PipelineStage::Error;
        ReleaseState::Error
    }
}

/// The cancel-on-success guard around one job: an error report is owed
/// only while the job has neither completed nor already been reported.
#[derive(Debug, PartialEq, Eq, Copy, Clone, Structural)]
pub struct CompletionGuard {
    pub completed: bool,
    pub error_reported: bool,
}

impl CompletionGuard {
    /// Acquire the pending marker before the pipeline begins.
    pub fn new() -> (g: Self)
        ensures
            !g.completed,
            !g.error_reported,
    {
        CompletionGuard { completed: false, error_reported: false }
    }

    /// Mark the job completed on the success path, cancelling any future
    /// error report.
    pub fn mark_completed(&mut self)
        ensures
            final(self).completed,
            final(self).error_reported == old(self).error_reported,
    {
        self.completed = true;
    }

    /// Ask once whether the error report must fire now; asking consumes
    /// the claim.
    pub fn take_error_report(&mut self) -> (r: bool)
        ensures
            r == (!old(self).completed && !old(self).error_reported),
            final(self).completed == old(self).completed,
            final(self).error_reported == (old(self).error_reported || r),
    {
        let r = !self.completed && !self.error_reported;
        if r {
            self.error_reported = true;
        }
        r
    }
}

/// Law: the error report fires at most once, and never once the job has
/// completed — two consecutive claims can never both be granted, and a
/// completed guard grants none.
pub proof fn lemma_error_reported_at_most_once(g: CompletionGuard)
    ensures
        ({
            let first = !g.completed && !g.error_reported;
            let g1 = CompletionGuard { error_reported: g.error_reported || first, ..g };
            let second = !g1.completed && !g1.error_reported;
            &&& !(first && second)
            &&& g.completed ==> !first && !second
        }),
{
}

} // verus!
