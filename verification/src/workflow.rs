//! The repost orchestrator: a state machine driving one repost attempt.
//!
//! The orchestrator never performs version-control or hosting-platform calls
//! itself. At every non-terminal phase, `pending_action` names the one
//! gateway operation to perform next; the caller performs it and hands the
//! result back through `step`. Every gateway failure aborts the attempt with
//! the error recorded verbatim; a merge conflict is not a failure but the
//! reported outcome `ConflictsRequireManualIntervention`.

use vstd::prelude::*;

use crate::model::BranchLookup;
use crate::model::CreatedPullRequest;
use crate::model::FailureReason;
use crate::model::MergeAttemptResult;
use crate::model::PlatformError;
use crate::model::PullRequestMetadata;
use crate::model::RepostConfig;
use crate::model::RepostOutcome;
use crate::model::VcsError;
use crate::model::WorkingCopy;
use crate::text::build_repost_body;
use crate::text::build_repost_title;
use crate::text::contains_seq;
use crate::text::decimal_digits;
use crate::text::integration_branch;
use crate::text::integration_branch_name;
use crate::text::lemma_publish_branch_injective;
use crate::text::lemma_repost_body_provenance;
use crate::text::publish_branch;
use crate::text::publish_branch_name;
use crate::text::repost_body;
use crate::text::repost_title;

verus! {

/// The remote a branch is looked up under. `Origin` is the base repository;
/// `Source` is the fork the pull request's head lives in, when it is one.
#[derive(Clone, Copy, Debug, PartialEq, Eq, Structural)]
pub enum RemoteName {
    Origin,
    Source,
}

/// The one gateway operation the caller must perform next.
#[derive(Debug)]
pub enum Action {
    /// Ask the hosting platform for the pull request's metadata.
    FetchPullRequest { number: u64 },
    /// Clone `repository` to `destination`, destroying anything already
    /// standing at `destination` first.
    SetUpWorkingCopy { repository: String, destination: String },
    /// Configure a `source` remote pointing at `repository` (a no-op if one
    /// is already present).
    AddSourceRemote { repository: String },
    /// Fetch all branches of the `source` remote.
    FetchSourceBranches,
    /// Look `branch` up under `remote`; report the commit it points at, or
    /// that it is missing.
    LookUpBranch { remote: RemoteName, branch: String },
    /// Create `name` at `from_commit` and check it out; `force` recreates a
    /// branch left behind by an earlier attempt.
    CreateIntegrationBranch { name: String, from_commit: String, force: bool },
    /// Merge `head_commit` into the checked-out integration branch. On
    /// conflict, fully back the merge out before reporting it.
    MergeHead { head_commit: String },
    /// Push `local_branch` to `remote_branch` on the base repository,
    /// overwriting what an earlier attempt for this number pushed.
    PushMerged { local_branch: String, remote_branch: String },
    /// Open the new pull request.
    OpenPullRequest { title: String, head_branch: String, base_branch: String, body: String },
}

/// The result of the pending action, handed back by the caller.
#[derive(Debug)]
pub enum Event {
    MetadataFetched { result: Result<PullRequestMetadata, PlatformError> },
    WorkingCopySetUp { result: Result<(), VcsError> },
    RemoteAdded { result: Result<(), VcsError> },
    BranchesFetched { result: Result<(), VcsError> },
    BranchLookedUp { result: Result<BranchLookup, VcsError> },
    BranchCreated { result: Result<(), VcsError> },
    MergeAttempted { result: Result<MergeAttemptResult, VcsError> },
    Pushed { result: Result<(), VcsError> },
    PullRequestOpened { result: Result<CreatedPullRequest, PlatformError> },
}

/// Where the attempt stands. The workflow runs the phases top to bottom;
/// the two source phases are entered only for forks, and the two
/// `...OnSource` lookups only as fallbacks.
#[derive(Debug)]
pub enum Phase {
    Start,
    SettingUpWorkingCopy,
    AddingSourceRemote,
    FetchingSourceBranches,
    ResolvingHeadOnOrigin,
    ResolvingHeadOnSource,
    ResolvingBaseOnOrigin { head_commit: String },
    ResolvingBaseOnSource { head_commit: String },
    CreatingIntegrationBranch { head_commit: String, base_commit: String },
    MergingBase { head_commit: String },
    PushingMergedBranch,
    OpeningPullRequest,
    Done { outcome: RepostOutcome },
}

/// One repost attempt.
#[verifier::ext_equal]
pub struct RepostWorkflow {
    /// The attempt's configuration; never changes.
    pub cfg: RepostConfig,
    /// The pull request's snapshot, once fetched; never changes after that.
    pub meta: Option<PullRequestMetadata>,
    /// The local working copy's state, once cloned.
    pub working_copy: Option<WorkingCopy>,
    /// The current phase.
    pub phase: Phase,
}

impl RepostWorkflow {
    /// The resolved pull request comes from a fork.
    pub open spec fn from_fork(&self) -> bool {
        self.meta matches Some(m) && m.spec_is_fork(&self.cfg)
    }

    /// The state a repost attempt starts in.
    pub open spec fn spec_init(cfg: RepostConfig) -> RepostWorkflow {
        RepostWorkflow { cfg, meta: None, working_copy: None, phase: Phase::Start }
    }

    /// Starts a repost attempt for the pull request `cfg` names.
    pub fn init(cfg: RepostConfig) -> (w: RepostWorkflow)
        ensures
            w == RepostWorkflow::spec_init(cfg),
    {
        RepostWorkflow { cfg, meta: None, working_copy: None, phase: Phase::Start }
    }

    /// The attempt aborted at the current phase with `reason`.
    pub open spec fn spec_fail(self, reason: FailureReason) -> RepostWorkflow {
        RepostWorkflow {
            phase: Phase::Done { outcome: RepostOutcome::Failed { reason } },
            ..self
        }
    }

    /// What one `step` does: the full transition relation of the workflow.
    /// An event that does not answer the current phase leaves the attempt
    /// unchanged.
    pub open spec fn spec_step(self, event: Event) -> RepostWorkflow {
        match (self.phase, event) {
            (Phase::Start, Event::MetadataFetched { result }) => match result {
                Ok(m) => RepostWorkflow {
                    meta: Some(m),
                    phase: Phase::SettingUpWorkingCopy,
                    ..self
                },
                Err(error) => self.spec_fail(FailureReason::PullRequestLookup { error }),
            },
            (Phase::SettingUpWorkingCopy, Event::WorkingCopySetUp { result }) => match result {
                Ok(_) => RepostWorkflow {
                    working_copy: Some(WorkingCopy::spec_fresh()),
                    phase: if self.from_fork() {
                        Phase::AddingSourceRemote
                    } else {
                        Phase::ResolvingHeadOnOrigin
                    },
                    ..self
                },
                Err(error) => self.spec_fail(FailureReason::WorkingCopySetup { error }),
            },
            (Phase::AddingSourceRemote, Event::RemoteAdded { result }) => match result {
                Ok(_) => RepostWorkflow {
                    working_copy: match self.working_copy {
                        Some(wc) => Some(WorkingCopy { has_source_remote: true, ..wc }),
                        None => None,
                    },
                    phase: Phase::FetchingSourceBranches,
                    ..self
                },
                Err(error) => self.spec_fail(FailureReason::SourceRemoteSetup { error }),
            },
            (Phase::FetchingSourceBranches, Event::BranchesFetched { result }) => match result {
                Ok(_) => RepostWorkflow {
                    working_copy: match self.working_copy {
                        Some(wc) => Some(WorkingCopy { source_fetched: true, ..wc }),
                        None => None,
                    },
                    phase: Phase::ResolvingHeadOnOrigin,
                    ..self
                },
                Err(error) => self.spec_fail(FailureReason::SourceFetch { error }),
            },
            (Phase::ResolvingHeadOnOrigin, Event::BranchLookedUp { result }) => match result {
                Ok(BranchLookup::Found { commit }) => RepostWorkflow {
                    phase: Phase::ResolvingBaseOnOrigin { head_commit: commit },
                    ..self
                },
                Ok(BranchLookup::Missing) => if self.from_fork() {
                    RepostWorkflow { phase: Phase::ResolvingHeadOnSource, ..self }
                } else {
                    self.spec_fail(FailureReason::HeadBranchNotFound)
                },
                Err(error) => self.spec_fail(FailureReason::BranchLookup { error }),
            },
            (Phase::ResolvingHeadOnSource, Event::BranchLookedUp { result }) => match result {
                Ok(BranchLookup::Found { commit }) => RepostWorkflow {
                    phase: Phase::ResolvingBaseOnOrigin { head_commit: commit },
                    ..self
                },
                Ok(BranchLookup::Missing) => self.spec_fail(FailureReason::HeadBranchNotFound),
                Err(error) => self.spec_fail(FailureReason::BranchLookup { error }),
            },
            (Phase::ResolvingBaseOnOrigin { head_commit }, Event::BranchLookedUp { result }) => match result {
                Ok(BranchLookup::Found { commit }) => RepostWorkflow {
                    phase: Phase::CreatingIntegrationBranch { head_commit, base_commit: commit },
                    ..self
                },
                Ok(BranchLookup::Missing) => if self.from_fork() {
                    RepostWorkflow { phase: Phase::ResolvingBaseOnSource { head_commit }, ..self }
                } else {
                    self.spec_fail(FailureReason::BaseBranchNotFound)
                },
                Err(error) => self.spec_fail(FailureReason::BranchLookup { error }),
            },
            (Phase::ResolvingBaseOnSource { head_commit }, Event::BranchLookedUp { result }) => match result {
                Ok(BranchLookup::Found { commit }) => RepostWorkflow {
                    phase: Phase::CreatingIntegrationBranch { head_commit, base_commit: commit },
                    ..self
                },
                Ok(BranchLookup::Missing) => self.spec_fail(FailureReason::BaseBranchNotFound),
                Err(error) => self.spec_fail(FailureReason::BranchLookup { error }),
            },
            (Phase::CreatingIntegrationBranch { head_commit, .. }, Event::BranchCreated { result }) => match result {
                Ok(_) => RepostWorkflow {
                    working_copy: match self.working_copy {
                        Some(wc) => Some(WorkingCopy { merge_in_progress: true, ..wc }),
                        None => None,
                    },
                    phase: Phase::MergingBase { head_commit },
                    ..self
                },
                Err(error) => self.spec_fail(FailureReason::IntegrationBranchCreation { error }),
            },
            (Phase::MergingBase { .. }, Event::MergeAttempted { result }) => match result {
                Ok(MergeAttemptResult::Merged) => RepostWorkflow {
                    working_copy: match self.working_copy {
                        Some(wc) => Some(WorkingCopy { merge_in_progress: false, ..wc }),
                        None => None,
                    },
                    phase: Phase::PushingMergedBranch,
                    ..self
                },
                Ok(MergeAttemptResult::Conflict { .. }) => RepostWorkflow {
                    working_copy: match self.working_copy {
                        Some(wc) => Some(WorkingCopy { merge_in_progress: false, ..wc }),
                        None => None,
                    },
                    phase: Phase::Done {
                        outcome: RepostOutcome::ConflictsRequireManualIntervention,
                    },
                    ..self
                },
                Err(error) => self.spec_fail(FailureReason::MergeExecution { error }),
            },
            (Phase::PushingMergedBranch, Event::Pushed { result }) => match result {
                Ok(_) => RepostWorkflow { phase: Phase::OpeningPullRequest, ..self },
                Err(error) => self.spec_fail(FailureReason::Publish { error }),
            },
            (Phase::OpeningPullRequest, Event::PullRequestOpened { result }) => match result {
                Ok(created) => RepostWorkflow {
                    phase: Phase::Done {
                        outcome: RepostOutcome::Published { new_pr_url: created.url },
                    },
                    ..self
                },
                Err(error) => self.spec_fail(FailureReason::PullRequestCreation { error }),
            },
            _ => self,
        }
    }

    /// Consumes the result of the pending action and moves the attempt on.
    pub fn step(self, event: Event) -> (next: RepostWorkflow)
        ensures
            next == self.spec_step(event),
    {
        let ghost orig = self;
        let RepostWorkflow { cfg, meta, working_copy, phase } = self;
        match (phase, event) {
            (Phase::Start, Event::MetadataFetched { result }) => match result {
                Ok(m) => RepostWorkflow {
                    cfg,
                    meta: Some(m),
                    working_copy,
                    phase: Phase::SettingUpWorkingCopy,
                },
                Err(error) => RepostWorkflow {
                    cfg,
                    meta,
                    working_copy,
                    phase: Phase::Done {
                        outcome: RepostOutcome::Failed {
                            reason: FailureReason::PullRequestLookup { error },
                        },
                    },
                },
            },
            (Phase::SettingUpWorkingCopy, Event::WorkingCopySetUp { result }) => match result {
                Ok(_) => {
                    let fork = match &meta {
                        Some(m) => m.is_fork(&cfg),
                        None => false,
                    };
                    RepostWorkflow {
                        cfg,
                        meta,
                        working_copy: Some(WorkingCopy::fresh()),
                        phase: if fork {
                            Phase::AddingSourceRemote
                        } else {
                            Phase::ResolvingHeadOnOrigin
                        },
                    }
                },
                Err(error) => RepostWorkflow {
                    cfg,
                    meta,
                    working_copy,
                    phase: Phase::Done {
                        outcome: RepostOutcome::Failed {
                            reason: FailureReason::WorkingCopySetup { error },
                        },
                    },
                },
            },
            (Phase::AddingSourceRemote, Event::RemoteAdded { result }) => match result {
                Ok(_) => RepostWorkflow {
                    cfg,
                    meta,
                    working_copy: match working_copy {
                        Some(wc) => Some(WorkingCopy { has_source_remote: true, ..wc }),
                        None => None,
                    },
                    phase: Phase::FetchingSourceBranches,
                },
                Err(error) => RepostWorkflow {
                    cfg,
                    meta,
                    working_copy,
                    phase: Phase::Done {
                        outcome: RepostOutcome::Failed {
                            reason: FailureReason::SourceRemoteSetup { error },
                        },
                    },
                },
            },
            (Phase::FetchingSourceBranches, Event::BranchesFetched { result }) => match result {
                Ok(_) => RepostWorkflow {
                    cfg,
                    meta,
                    working_copy: match working_copy {
                        Some(wc) => Some(WorkingCopy { source_fetched: true, ..wc }),
                        None => None,
                    },
                    phase: Phase::ResolvingHeadOnOrigin,
                },
                Err(error) => RepostWorkflow {
                    cfg,
                    meta,
                    working_copy,
                    phase: Phase::Done {
                        outcome: RepostOutcome::Failed {
                            reason: FailureReason::SourceFetch { error },
                        },
                    },
                },
            },
            (Phase::ResolvingHeadOnOrigin, Event::BranchLookedUp { result }) => match result {
                Ok(BranchLookup::Found { commit }) => RepostWorkflow {
                    cfg,
                    meta,
                    working_copy,
                    phase: Phase::ResolvingBaseOnOrigin { head_commit: commit },
                },
                Ok(BranchLookup::Missing) => {
                    let fork = match &meta {
                        Some(m) => m.is_fork(&cfg),
                        None => false,
                    };
                    if fork {
                        RepostWorkflow {
                            cfg,
                            meta,
                            working_copy,
                            phase: Phase::ResolvingHeadOnSource,
                        }
                    } else {
                        RepostWorkflow {
                            cfg,
                            meta,
                            working_copy,
                            phase: Phase::Done {
                                outcome: RepostOutcome::Failed {
                                    reason: FailureReason::HeadBranchNotFound,
                                },
                            },
                        }
                    }
                },
                Err(error) => RepostWorkflow {
                    cfg,
                    meta,
                    working_copy,
                    phase: Phase::Done {
                        outcome: RepostOutcome::Failed {
                            reason: FailureReason::BranchLookup { error },
                        },
                    },
                },
            },
            (Phase::ResolvingHeadOnSource, Event::BranchLookedUp { result }) => match result {
                Ok(BranchLookup::Found { commit }) => RepostWorkflow {
                    cfg,
                    meta,
                    working_copy,
                    phase: Phase::ResolvingBaseOnOrigin { head_commit: commit },
                },
                Ok(BranchLookup::Missing) => RepostWorkflow {
                    cfg,
                    meta,
                    working_copy,
                    phase: Phase::Done {
                        outcome: RepostOutcome::Failed {
                            reason: FailureReason::HeadBranchNotFound,
                        },
                    },
                },
                Err(error) => RepostWorkflow {
                    cfg,
                    meta,
                    working_copy,
                    phase: Phase::Done {
                        outcome: RepostOutcome::Failed {
                            reason: FailureReason::BranchLookup { error },
                        },
                    },
                },
            },
            (Phase::ResolvingBaseOnOrigin { head_commit }, Event::BranchLookedUp { result }) => match result {
                Ok(BranchLookup::Found { commit }) => RepostWorkflow {
                    cfg,
                    meta,
                    working_copy,
                    phase: Phase::CreatingIntegrationBranch { head_commit, base_commit: commit },
                },
                Ok(BranchLookup::Missing) => {
                    let fork = match &meta {
                        Some(m) => m.is_fork(&cfg),
                        None => false,
                    };
                    if fork {
                        RepostWorkflow {
                            cfg,
                            meta,
                            working_copy,
                            phase: Phase::ResolvingBaseOnSource { head_commit },
                        }
                    } else {
                        RepostWorkflow {
                            cfg,
                            meta,
                            working_copy,
                            phase: Phase::Done {
                                outcome: RepostOutcome::Failed {
                                    reason: FailureReason::BaseBranchNotFound,
                                },
                            },
                        }
                    }
                },
                Err(error) => RepostWorkflow {
                    cfg,
                    meta,
                    working_copy,
                    phase: Phase::Done {
                        outcome: RepostOutcome::Failed {
                            reason: FailureReason::BranchLookup { error },
                        },
                    },
                },
            },
            (Phase::ResolvingBaseOnSource { head_commit }, Event::BranchLookedUp { result }) => match result {
                Ok(BranchLookup::Found { commit }) => RepostWorkflow {
                    cfg,
                    meta,
                    working_copy,
                    phase: Phase::CreatingIntegrationBranch { head_commit, base_commit: commit },
                },
                Ok(BranchLookup::Missing) => RepostWorkflow {
                    cfg,
                    meta,
                    working_copy,
                    phase: Phase::Done {
                        outcome: RepostOutcome::Failed {
                            reason: FailureReason::BaseBranchNotFound,
                        },
                    },
                },
                Err(error) => RepostWorkflow {
                    cfg,
                    meta,
                    working_copy,
                    phase: Phase::Done {
                        outcome: RepostOutcome::Failed {
                            reason: FailureReason::BranchLookup { error },
                        },
                    },
                },
            },
            (Phase::CreatingIntegrationBranch { head_commit, .. }, Event::BranchCreated { result }) => match result {
                Ok(_) => RepostWorkflow {
                    cfg,
                    meta,
                    working_copy: match working_copy {
                        Some(wc) => Some(WorkingCopy { merge_in_progress: true, ..wc }),
                        None => None,
                    },
                    phase: Phase::MergingBase { head_commit },
                },
                Err(error) => RepostWorkflow {
                    cfg,
                    meta,
                    working_copy,
                    phase: Phase::Done {
                        outcome: RepostOutcome::Failed {
                            reason: FailureReason::IntegrationBranchCreation { error },
                        },
                    },
                },
            },
            (Phase::MergingBase { .. }, Event::MergeAttempted { result }) => match result {
                Ok(MergeAttemptResult::Merged) => RepostWorkflow {
                    cfg,
                    meta,
                    working_copy: match working_copy {
                        Some(wc) => Some(WorkingCopy { merge_in_progress: false, ..wc }),
                        None => None,
                    },
                    phase: Phase::PushingMergedBranch,
                },
                Ok(MergeAttemptResult::Conflict { .. }) => RepostWorkflow {
                    cfg,
                    meta,
                    working_copy: match working_copy {
                        Some(wc) => Some(WorkingCopy { merge_in_progress: false, ..wc }),
                        None => None,
                    },
                    phase: Phase::Done {
                        outcome: RepostOutcome::ConflictsRequireManualIntervention,
                    },
                },
                Err(error) => RepostWorkflow {
                    cfg,
                    meta,
                    working_copy,
                    phase: Phase::Done {
                        outcome: RepostOutcome::Failed {
                            reason: FailureReason::MergeExecution { error },
                        },
                    },
                },
            },
            (Phase::PushingMergedBranch, Event::Pushed { result }) => match result {
                Ok(_) => RepostWorkflow { cfg, meta, working_copy, phase: Phase::OpeningPullRequest },
                Err(error) => RepostWorkflow {
                    cfg,
                    meta,
                    working_copy,
                    phase: Phase::Done {
                        outcome: RepostOutcome::Failed {
                            reason: FailureReason::Publish { error },
                        },
                    },
                },
            },
            (Phase::OpeningPullRequest, Event::PullRequestOpened { result }) => match result {
                Ok(created) => RepostWorkflow {
                    cfg,
                    meta,
                    working_copy,
                    phase: Phase::Done {
                        outcome: RepostOutcome::Published { new_pr_url: created.url },
                    },
                },
                Err(error) => RepostWorkflow {
                    cfg,
                    meta,
                    working_copy,
                    phase: Phase::Done {
                        outcome: RepostOutcome::Failed {
                            reason: FailureReason::PullRequestCreation { error },
                        },
                    },
                },
            },
            (ph, _) => {
                let unchanged = RepostWorkflow { cfg, meta, working_copy, phase: ph };
                proof {
                    assert(unchanged =~= orig);
                }
                unchanged
            },
        }
    }

    /// Well-formedness of an attempt: what is resolved when, and the remote
    /// topology of the working copy. In particular, once the working copy is
    /// set up, a `source` remote is configured if and only if the pull
    /// request comes from a fork (and the remote-setup step has run).
    pub open spec fn wf(&self) -> bool {
        match self.phase {
            Phase::Start => self.meta is None && self.working_copy is None,
            Phase::SettingUpWorkingCopy => self.meta is Some && self.working_copy is None,
            Phase::AddingSourceRemote => {
                &&& self.from_fork()
                &&& self.working_copy == Some(WorkingCopy::spec_fresh())
            },
            Phase::FetchingSourceBranches => {
                &&& self.from_fork()
                &&& self.working_copy matches Some(wc) && wc.has_source_remote
                    && !wc.source_fetched && !wc.merge_in_progress
            },
            Phase::ResolvingHeadOnOrigin
            | Phase::ResolvingBaseOnOrigin { .. }
            | Phase::CreatingIntegrationBranch { .. } => {
                &&& self.meta is Some
                &&& self.working_copy matches Some(wc) && wc.has_source_remote == self.from_fork()
                    && wc.source_fetched == self.from_fork() && !wc.merge_in_progress
            },
            Phase::ResolvingHeadOnSource | Phase::ResolvingBaseOnSource { .. } => {
                &&& self.from_fork()
                &&& self.working_copy matches Some(wc) && wc.has_source_remote
                    && wc.source_fetched && !wc.merge_in_progress
            },
            Phase::MergingBase { .. } => {
                &&& self.meta is Some
                &&& self.working_copy matches Some(wc) && wc.has_source_remote == self.from_fork()
                    && wc.source_fetched == self.from_fork() && wc.merge_in_progress
            },
            Phase::PushingMergedBranch | Phase::OpeningPullRequest => {
                &&& self.meta is Some
                &&& self.working_copy matches Some(wc) && wc.has_source_remote == self.from_fork()
                    && wc.source_fetched == self.from_fork() && !wc.merge_in_progress
            },
            Phase::Done { .. } => true,
        }
    }

    /// Every step preserves well-formedness, whatever event comes back.
    pub proof fn lemma_step_preserves_wf(self, event: Event)
        requires
            self.wf(),
        ensures
            self.spec_step(event).wf(),
    {
    }

    /// What the pending action must be, phase by phase.
    pub open spec fn is_pending_action(&self, a: Action) -> bool {
        match self.phase {
            Phase::Start => a == (Action::FetchPullRequest { number: self.cfg.pr_number }),
            Phase::SettingUpWorkingCopy => {
                &&& a matches Action::SetUpWorkingCopy { repository, destination }
                &&& repository@ == self.cfg.spec_base_repo_full()
                &&& destination@ == self.cfg.destination@
            },
            Phase::AddingSourceRemote => {
                &&& a matches Action::AddSourceRemote { repository }
                &&& self.meta matches Some(m)
                &&& m.head_repo matches Some(r)
                &&& repository@ == r@
            },
            Phase::FetchingSourceBranches => a == Action::FetchSourceBranches,
            Phase::ResolvingHeadOnOrigin => {
                &&& a matches Action::LookUpBranch { remote, branch }
                &&& remote == RemoteName::Origin
                &&& self.meta matches Some(m)
                &&& branch@ == m.head_branch@
            },
            Phase::ResolvingHeadOnSource => {
                &&& a matches Action::LookUpBranch { remote, branch }
                &&& remote == RemoteName::Source
                &&& self.meta matches Some(m)
                &&& branch@ == m.head_branch@
            },
            Phase::ResolvingBaseOnOrigin { .. } => {
                &&& a matches Action::LookUpBranch { remote, branch }
                &&& remote == RemoteName::Origin
                &&& branch@ == self.cfg.base_branch@
            },
            Phase::ResolvingBaseOnSource { .. } => {
                &&& a matches Action::LookUpBranch { remote, branch }
                &&& remote == RemoteName::Source
                &&& branch@ == self.cfg.base_branch@
            },
            Phase::CreatingIntegrationBranch { base_commit, .. } => {
                &&& a matches Action::CreateIntegrationBranch { name, from_commit, force }
                &&& name@ == integration_branch_name(self.cfg.pr_number as nat)
                &&& from_commit@ == base_commit@
                &&& force
            },
            Phase::MergingBase { head_commit } => {
                &&& a matches Action::MergeHead { head_commit: h }
                &&& h@ == head_commit@
            },
            Phase::PushingMergedBranch => {
                &&& a matches Action::PushMerged { local_branch, remote_branch }
                &&& local_branch@ == integration_branch_name(self.cfg.pr_number as nat)
                &&& remote_branch@ == publish_branch_name(self.cfg.pr_number as nat)
            },
            Phase::OpeningPullRequest => {
                &&& a matches Action::OpenPullRequest { title, head_branch, base_branch, body }
                &&& self.meta matches Some(m)
                &&& title@ == repost_title(m.title@)
                &&& head_branch@ == publish_branch_name(self.cfg.pr_number as nat)
                &&& base_branch@ == self.cfg.base_branch@
                &&& body@ == repost_body(m.author@, self.cfg.pr_number as nat, m.body@)
            },
            Phase::Done { .. } => false,
        }
    }

    /// Names the gateway operation the caller must perform next, or `None`
    /// once the attempt reached its terminal phase.
    pub fn pending_action(&self) -> (a: Option<Action>)
        ensures
            self.phase is Done ==> a is None,
            self.wf() ==> match a {
                Some(act) => !(self.phase is Done) && self.is_pending_action(act),
                None => self.phase is Done,
            },
    {
        match &self.phase {
            Phase::Start => Some(Action::FetchPullRequest { number: self.cfg.pr_number }),
            Phase::SettingUpWorkingCopy => Some(
                Action::SetUpWorkingCopy {
                    repository: self.cfg.base_repo_full(),
                    destination: self.cfg.destination.clone(),
                },
            ),
            Phase::AddingSourceRemote => match &self.meta {
                Some(m) => match &m.head_repo {
                    Some(r) => Some(Action::AddSourceRemote { repository: r.clone() }),
                    None => None,
                },
                None => None,
            },
            Phase::FetchingSourceBranches => Some(Action::FetchSourceBranches),
            Phase::ResolvingHeadOnOrigin => match &self.meta {
                Some(m) => Some(
                    Action::LookUpBranch {
                        remote: RemoteName::Origin,
                        branch: m.head_branch.clone(),
                    },
                ),
                None => None,
            },
            Phase::ResolvingHeadOnSource => match &self.meta {
                Some(m) => Some(
                    Action::LookUpBranch {
                        remote: RemoteName::Source,
                        branch: m.head_branch.clone(),
                    },
                ),
                None => None,
            },
            Phase::ResolvingBaseOnOrigin { .. } => Some(
                Action::LookUpBranch {
                    remote: RemoteName::Origin,
                    branch: self.cfg.base_branch.clone(),
                },
            ),
            Phase::ResolvingBaseOnSource { .. } => Some(
                Action::LookUpBranch {
                    remote: RemoteName::Source,
                    branch: self.cfg.base_branch.clone(),
                },
            ),
            Phase::CreatingIntegrationBranch { base_commit, .. } => Some(
                Action::CreateIntegrationBranch {
                    name: integration_branch(self.cfg.pr_number),
                    from_commit: base_commit.clone(),
                    force: true,
                },
            ),
            Phase::MergingBase { head_commit } => Some(
                Action::MergeHead { head_commit: head_commit.clone() },
            ),
            Phase::PushingMergedBranch => Some(
                Action::PushMerged {
                    local_branch: integration_branch(self.cfg.pr_number),
                    remote_branch: publish_branch(self.cfg.pr_number),
                },
            ),
            Phase::OpeningPullRequest => match &self.meta {
                Some(m) => Some(
                    Action::OpenPullRequest {
                        title: build_repost_title(&m.title),
                        head_branch: publish_branch(self.cfg.pr_number),
                        base_branch: self.cfg.base_branch.clone(),
                        body: build_repost_body(&m.author, self.cfg.pr_number, &m.body),
                    },
                ),
                None => None,
            },
            Phase::Done { .. } => None,
        }
    }
}

/// The state after feeding `events` to `w`, first to last.
pub open spec fn run(w: RepostWorkflow, events: Seq<Event>) -> RepostWorkflow
    decreases events.len(),
{
    if events.len() == 0 {
        w
    } else {
        run(w.spec_step(events[0]), events.drop_first())
    }
}

/// Feeding a split trace is feeding its halves in turn.
pub proof fn lemma_run_concat(w: RepostWorkflow, first: Seq<Event>, second: Seq<Event>)
    ensures
        run(w, first + second) == run(run(w, first), second),
    decreases first.len(),
{
    if first.len() == 0 {
        assert(first + second =~= second);
    } else {
        assert((first + second)[0] == first[0]);
        assert((first + second).drop_first() =~= first.drop_first() + second);
        lemma_run_concat(w.spec_step(first[0]), first.drop_first(), second);
    }
}

/// Every run keeps the attempt well-formed.
pub proof fn lemma_run_preserves_wf(w: RepostWorkflow, events: Seq<Event>)
    requires
        w.wf(),
    ensures
        run(w, events).wf(),
    decreases events.len(),
{
    if events.len() > 0 {
        w.lemma_step_preserves_wf(events[0]);
        lemma_run_preserves_wf(w.spec_step(events[0]), events.drop_first());
    }
}

/// A terminal attempt never moves again, whatever is fed to it.
pub proof fn lemma_done_is_terminal(w: RepostWorkflow, events: Seq<Event>)
    requires
        w.phase is Done,
    ensures
        run(w, events) == w,
    decreases events.len(),
{
    if events.len() > 0 {
        lemma_done_is_terminal(w.spec_step(events[0]), events.drop_first());
    }
}

/// A same-repository attempt has no trace of a `source` remote: not in the
/// working copy and not in the phase it stands in.
pub open spec fn untouched_by_source_remote(w: RepostWorkflow) -> bool {
    &&& w.phase is Start ==> w.meta is None && w.working_copy is None
    &&& !w.from_fork() ==> {
        &&& !(w.phase is AddingSourceRemote)
        &&& !(w.phase is FetchingSourceBranches)
        &&& !(w.phase is ResolvingHeadOnSource)
        &&& !(w.phase is ResolvingBaseOnSource)
        &&& (w.working_copy matches Some(wc) ==> !wc.has_source_remote)
    }
}

#[verifier::rlimit(50)]
proof fn lemma_step_keeps_source_untouched(w: RepostWorkflow, event: Event)
    requires
        untouched_by_source_remote(w),
    ensures
        untouched_by_source_remote(w.spec_step(event)),
{
    let post = w.spec_step(event);
    match w.phase {
        Phase::Start => {
            assert(untouched_by_source_remote(post));
        },
        Phase::SettingUpWorkingCopy => {
            assert(untouched_by_source_remote(post));
        },
        Phase::AddingSourceRemote => {
            assert(untouched_by_source_remote(post));
        },
        Phase::FetchingSourceBranches => {
            assert(untouched_by_source_remote(post));
        },
        Phase::ResolvingHeadOnOrigin => {
            assert(untouched_by_source_remote(post));
        },
        Phase::ResolvingHeadOnSource => {
            assert(untouched_by_source_remote(post));
        },
        Phase::ResolvingBaseOnOrigin { .. } => {
            assert(untouched_by_source_remote(post));
        },
        Phase::ResolvingBaseOnSource { .. } => {
            assert(untouched_by_source_remote(post));
        },
        Phase::CreatingIntegrationBranch { .. } => {
            assert(untouched_by_source_remote(post));
        },
        Phase::MergingBase { .. } => {
            assert(untouched_by_source_remote(post));
        },
        Phase::PushingMergedBranch => {
            assert(untouched_by_source_remote(post));
        },
        Phase::OpeningPullRequest => {
            assert(untouched_by_source_remote(post));
        },
        Phase::Done { .. } => {
            assert(untouched_by_source_remote(post));
        },
    }
}

proof fn lemma_run_keeps_source_untouched(w: RepostWorkflow, events: Seq<Event>)
    requires
        untouched_by_source_remote(w),
    ensures
        untouched_by_source_remote(run(w, events)),
    decreases events.len(),
{
    if events.len() > 0 {
        lemma_step_keeps_source_untouched(w, events[0]);
        lemma_run_keeps_source_untouched(w.spec_step(events[0]), events.drop_first());
    }
}

/// For a pull request on a same-repository branch no `source` remote is ever
/// created: along every run from the start, the working copy never records
/// one and adding one is never the pending action.
pub proof fn lemma_same_repo_never_creates_source_remote(cfg: RepostConfig, events: Seq<Event>)
    ensures
        ({
            let w = run(RepostWorkflow::spec_init(cfg), events);
            !w.from_fork() ==> {
                &&& (w.working_copy matches Some(wc) ==> !wc.has_source_remote)
                &&& forall|a: Action| w.is_pending_action(a) ==> !(a is AddSourceRemote)
            }
        }),
{
    lemma_run_keeps_source_untouched(RepostWorkflow::spec_init(cfg), events);
}

/// For a pull request from a fork, whenever a branch lookup is the pending
/// action — that is, whenever branch resolution is attempted — the `source`
/// remote has already been created and its branches fetched.
pub proof fn lemma_fork_fetches_source_before_lookups(
    cfg: RepostConfig,
    events: Seq<Event>,
    a: Action,
)
    requires
        ({
            let w = run(RepostWorkflow::spec_init(cfg), events);
            &&& w.from_fork()
            &&& w.is_pending_action(a)
            &&& a is LookUpBranch
        }),
    ensures
        ({
            let w = run(RepostWorkflow::spec_init(cfg), events);
            &&& w.working_copy matches Some(wc)
            &&& wc.has_source_remote
            &&& wc.source_fetched
        }),
{
    lemma_run_preserves_wf(RepostWorkflow::spec_init(cfg), events);
}

/// The event trace of an attempt in which every gateway call succeeds and
/// the merge is clean. A fork takes two more steps: adding and fetching the
/// `source` remote.
pub open spec fn clean_merge_trace(
    meta: PullRequestMetadata,
    fork: bool,
    head_commit: String,
    base_commit: String,
    created: CreatedPullRequest,
) -> Seq<Event> {
    let shared = seq![
        Event::BranchLookedUp { result: Ok(BranchLookup::Found { commit: head_commit }) },
        Event::BranchLookedUp { result: Ok(BranchLookup::Found { commit: base_commit }) },
        Event::BranchCreated { result: Ok(()) },
        Event::MergeAttempted { result: Ok(MergeAttemptResult::Merged) },
        Event::Pushed { result: Ok(()) },
        Event::PullRequestOpened { result: Ok(created) },
    ];
    if fork {
        seq![
            Event::MetadataFetched { result: Ok(meta) },
            Event::WorkingCopySetUp { result: Ok(()) },
            Event::RemoteAdded { result: Ok(()) },
            Event::BranchesFetched { result: Ok(()) },
        ] + shared
    } else {
        seq![
            Event::MetadataFetched { result: Ok(meta) },
            Event::WorkingCopySetUp { result: Ok(()) },
        ] + shared
    }
}

proof fn lemma_run_advance(w: RepostWorkflow, events: Seq<Event>, i: int)
    requires
        0 <= i < events.len(),
    ensures
        run(w, events.skip(i)) == run(w.spec_step(events[i]), events.skip(i + 1)),
{
    assert(events.skip(i)[0] == events[i]);
    assert(events.skip(i).drop_first() =~= events.skip(i + 1));
}

/// On a clean merge the workflow always ends in `Published`, carrying the
/// new pull request's address; and the pull request it opened on the way
/// asked for the templated title and a body holding the original author's
/// handle and the original pull-request number verbatim.
pub proof fn lemma_clean_merge_always_publishes(
    cfg: RepostConfig,
    meta: PullRequestMetadata,
    head_commit: String,
    base_commit: String,
    created: CreatedPullRequest,
)
    ensures
        ({
            let t = clean_merge_trace(
                meta,
                meta.spec_is_fork(&cfg),
                head_commit,
                base_commit,
                created,
            );
            let w = run(RepostWorkflow::spec_init(cfg), t);
            let before = run(RepostWorkflow::spec_init(cfg), t.drop_last());
            &&& w.phase == (Phase::Done {
                outcome: RepostOutcome::Published { new_pr_url: created.url },
            })
            &&& before.phase is OpeningPullRequest
            &&& forall|a: Action|
                before.is_pending_action(a) ==> {
                    &&& a matches Action::OpenPullRequest { title, body, .. }
                    &&& title@ == repost_title(meta.title@)
                    &&& contains_seq(body@, meta.author@)
                    &&& contains_seq(body@, decimal_digits(cfg.pr_number as nat))
                }
        }),
{
    let s0 = RepostWorkflow::spec_init(cfg);
    let fork = meta.spec_is_fork(&cfg);
    let t = clean_merge_trace(meta, fork, head_commit, base_commit, created);
    let td = t.drop_last();
    lemma_repost_body_provenance(meta.author@, cfg.pr_number as nat, meta.body@);
    if fork {
        assert(t.len() == 10);
        assert(td =~= t.skip(0).drop_last());
        let s1 = s0.spec_step(t[0]);
        let s2 = s1.spec_step(t[1]);
        let s3 = s2.spec_step(t[2]);
        let s4 = s3.spec_step(t[3]);
        let s5 = s4.spec_step(t[4]);
        let s6 = s5.spec_step(t[5]);
        let s7 = s6.spec_step(t[6]);
        let s8 = s7.spec_step(t[7]);
        let s9 = s8.spec_step(t[8]);
        assert(td =~= td.skip(0));
        lemma_run_advance(s0, td, 0);
        lemma_run_advance(s1, td, 1);
        lemma_run_advance(s2, td, 2);
        lemma_run_advance(s3, td, 3);
        lemma_run_advance(s4, td, 4);
        lemma_run_advance(s5, td, 5);
        lemma_run_advance(s6, td, 6);
        lemma_run_advance(s7, td, 7);
        lemma_run_advance(s8, td, 8);
        assert(td.skip(9).len() == 0);
        assert(run(s0, td) == s9);
        assert(t =~= td + seq![t[9]]);
        lemma_run_concat(s0, td, seq![t[9]]);
        let s10 = s9.spec_step(t[9]);
        assert(seq![t[9]][0] == t[9]);
        assert(seq![t[9]].drop_first().len() == 0);
        assert(run(s10, seq![t[9]].drop_first()) == s10);
        assert(run(s9, seq![t[9]]) == s10);
        assert(s9.phase is OpeningPullRequest);
        assert(s10.phase == (Phase::Done {
            outcome: RepostOutcome::Published { new_pr_url: created.url },
        }));
    } else {
        assert(t.len() == 8);
        let s1 = s0.spec_step(t[0]);
        let s2 = s1.spec_step(t[1]);
        let s3 = s2.spec_step(t[2]);
        let s4 = s3.spec_step(t[3]);
        let s5 = s4.spec_step(t[4]);
        let s6 = s5.spec_step(t[5]);
        let s7 = s6.spec_step(t[6]);
        assert(td =~= td.skip(0));
        lemma_run_advance(s0, td, 0);
        lemma_run_advance(s1, td, 1);
        lemma_run_advance(s2, td, 2);
        lemma_run_advance(s3, td, 3);
        lemma_run_advance(s4, td, 4);
        lemma_run_advance(s5, td, 5);
        lemma_run_advance(s6, td, 6);
        assert(td.skip(7).len() == 0);
        assert(run(s0, td) == s7);
        assert(t =~= td + seq![t[7]]);
        lemma_run_concat(s0, td, seq![t[7]]);
        let s8 = s7.spec_step(t[7]);
        assert(seq![t[7]][0] == t[7]);
        assert(seq![t[7]].drop_first().len() == 0);
        assert(run(s8, seq![t[7]].drop_first()) == s8);
        assert(run(s7, seq![t[7]]) == s8);
        assert(s7.phase is OpeningPullRequest);
        assert(s8.phase == (Phase::Done {
            outcome: RepostOutcome::Published { new_pr_url: created.url },
        }));
    }
}

/// On a conflicting merge the workflow always ends in
/// `ConflictsRequireManualIntervention` — never in `Published`, whatever is
/// fed to the attempt afterwards — and the working copy is left in a
/// non-merging state.
pub proof fn lemma_conflict_always_aborts(
    cfg: RepostConfig,
    reached: Seq<Event>,
    detail: String,
    later: Seq<Event>,
)
    requires
        run(RepostWorkflow::spec_init(cfg), reached).phase is MergingBase,
    ensures
        ({
            let conflict = Event::MergeAttempted {
                result: Ok(MergeAttemptResult::Conflict { detail }),
            };
            let w = run(RepostWorkflow::spec_init(cfg), reached + seq![conflict] + later);
            &&& w.phase == (Phase::Done {
                outcome: RepostOutcome::ConflictsRequireManualIntervention,
            })
            &&& w.working_copy matches Some(wc)
            &&& !wc.merge_in_progress
        }),
{
    let s0 = RepostWorkflow::spec_init(cfg);
    let conflict = Event::MergeAttempted { result: Ok(MergeAttemptResult::Conflict { detail }) };
    let sm = run(s0, reached);
    lemma_run_preserves_wf(s0, reached);
    let sc = sm.spec_step(conflict);
    assert(sc.phase == (Phase::Done {
        outcome: RepostOutcome::ConflictsRequireManualIntervention,
    }));
    assert(sc.working_copy matches Some(wc) && !wc.merge_in_progress);
    assert(reached + seq![conflict] + later =~= reached + (seq![conflict] + later));
    lemma_run_concat(s0, reached, seq![conflict] + later);
    lemma_run_concat(sm, seq![conflict], later);
    assert(seq![conflict][0] == conflict);
    assert(seq![conflict].drop_first().len() == 0);
    assert(run(sc, seq![conflict].drop_first()) == sc);
    assert(run(sm, seq![conflict]) == sc);
    lemma_done_is_terminal(sc, later);
}

/// Rerunning the workflow for one and the same pull-request number pushes to
/// one and the same derived branch name — the second run overwrites the
/// first — while distinct numbers never share a publish branch.
pub proof fn lemma_rerun_targets_same_branch(
    w1: RepostWorkflow,
    w2: RepostWorkflow,
    a1: Action,
    a2: Action,
)
    requires
        w1.phase is PushingMergedBranch,
        w2.phase is PushingMergedBranch,
        w1.is_pending_action(a1),
        w2.is_pending_action(a2),
    ensures
        ({
            &&& a1 matches Action::PushMerged { remote_branch: r1, .. }
            &&& a2 matches Action::PushMerged { remote_branch: r2, .. }
            &&& w1.cfg.pr_number == w2.cfg.pr_number ==> r1@ == r2@
            &&& w1.cfg.pr_number != w2.cfg.pr_number ==> r1@ != r2@
        }),
{
    if w1.cfg.pr_number != w2.cfg.pr_number {
        lemma_publish_branch_injective(w1.cfg.pr_number as nat, w2.cfg.pr_number as nat);
    }
}

/// Setting the working copy up is insensitive to leftovers of earlier runs:
/// whatever working-copy state an attempt records, the setup step replaces
/// it with one and the same fresh state.
pub proof fn lemma_setup_yields_fresh_working_copy(w: RepostWorkflow)
    requires
        w.phase is SettingUpWorkingCopy,
    ensures
        w.spec_step(Event::WorkingCopySetUp { result: Ok(()) }).working_copy == Some(
            WorkingCopy::spec_fresh(),
        ),
{
}

} // verus!
