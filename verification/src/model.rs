//! Data model of a repost attempt: the configuration the front end resolves,
//! the pull-request snapshot taken from the hosting platform, the local
//! working-copy state the orchestrator tracks, and the error and outcome
//! taxonomy.

use vstd::prelude::*;
use vstd::string::StringExecFns;

verus! {

/// Configuration of one repost attempt, resolved by the caller before the
/// workflow starts (command line and environment).
pub struct RepostConfig {
    /// Number of the pull request to repost.
    pub pr_number: u64,
    /// Owner of the base repository.
    pub base_owner: String,
    /// Name of the base repository.
    pub base_repo: String,
    /// Branch the new pull request targets.
    pub base_branch: String,
    /// Path the disposable working copy is cloned to.
    pub destination: String,
}

impl RepostConfig {
    /// Full name of the base repository, `owner/name`.
    pub open spec fn spec_base_repo_full(&self) -> Seq<char> {
        self.base_owner@ + "/"@ + self.base_repo@
    }

    /// Builds the full name of the base repository.
    pub fn base_repo_full(&self) -> (s: String)
        ensures
            s@ == self.spec_base_repo_full(),
    {
        let mut s = self.base_owner.clone();
        s.append("/");
        s.append(self.base_repo.as_str());
        s
    }
}

/// Read-only snapshot of the pull request being reposted, taken from the
/// hosting platform at the start of the attempt.
#[derive(Debug)]
pub struct PullRequestMetadata {
    /// Login of the original author.
    pub author: String,
    /// Title of the original pull request.
    pub title: String,
    /// Body text of the original pull request.
    pub body: String,
    /// Branch holding the proposed changes.
    pub head_branch: String,
    /// Full name of the repository the head branch lives in; `None` when the
    /// platform returned no repository information.
    pub head_repo: Option<String>,
}

impl PullRequestMetadata {
    /// The pull request comes from a fork: its head repository is known and
    /// differs from the base repository. Absent head-repository metadata is
    /// treated as same-repository.
    pub open spec fn spec_is_fork(&self, cfg: &RepostConfig) -> bool {
        match self.head_repo {
            Some(h) => h@ != cfg.spec_base_repo_full(),
            None => false,
        }
    }

    /// Decides whether the pull request comes from a fork.
    pub fn is_fork(&self, cfg: &RepostConfig) -> (b: bool)
        ensures
            b == self.spec_is_fork(cfg),
    {
        match &self.head_repo {
            None => false,
            Some(h) => {
                let full = cfg.base_repo_full();
                !(*h == full)
            },
        }
    }
}

/// Local state of the disposable working copy, as the orchestrator tracks
/// it. Invariant of the workflow: `has_source_remote` holds if and only if
/// the pull request comes from a fork and the remote-setup step has run.
#[derive(Clone, Copy, Debug, PartialEq, Eq, Structural)]
pub struct WorkingCopy {
    /// A `source` remote pointing at the head repository is configured.
    pub has_source_remote: bool,
    /// The `source` remote's branches have been fetched.
    pub source_fetched: bool,
    /// A merge is being attempted on the working tree. After a reported
    /// conflict this is false again: the attempt is fully backed out before
    /// the result is reported.
    pub merge_in_progress: bool,
}

impl WorkingCopy {
    /// State of a freshly cloned working copy: only the `origin` remote and
    /// no merge in progress.
    pub open spec fn spec_fresh() -> WorkingCopy {
        WorkingCopy { has_source_remote: false, source_fetched: false, merge_in_progress: false }
    }

    /// Builds the state of a freshly cloned working copy.
    pub fn fresh() -> (wc: WorkingCopy)
        ensures
            wc == WorkingCopy::spec_fresh(),
    {
        WorkingCopy { has_source_remote: false, source_fetched: false, merge_in_progress: false }
    }
}

/// Errors of the hosting-platform gateway.
#[derive(Clone, Copy, Debug, PartialEq, Eq, Structural)]
pub enum PlatformError {
    /// The pull request number does not exist.
    NotFound,
    /// Credentials were rejected; retrying is pointless.
    AuthenticationRejected,
    /// The call failed transiently and a whole new attempt may be retried.
    TransientNetwork,
    /// The platform rejected the request as invalid.
    Validation,
}

/// Errors of the version-control gateway.
#[derive(Clone, Copy, Debug, PartialEq, Eq, Structural)]
pub enum VcsError {
    /// The remote could not be reached.
    RemoteUnreachable,
    /// Credentials were rejected; retrying is pointless.
    AuthenticationRejected,
    /// The remote rejected the operation (branch protection, permissions).
    RemoteRejected,
}

/// Result of merging the base branch into the pull request's changes.
#[derive(Clone, Debug, PartialEq, Eq)]
pub enum MergeAttemptResult {
    /// The merge completed cleanly.
    Merged,
    /// The merge conflicted; the working tree was restored to a non-merging
    /// state before this was reported.
    Conflict { detail: String },
}

/// Result of looking a branch up under one remote.
#[derive(Clone, Debug, PartialEq, Eq)]
pub enum BranchLookup {
    /// The branch exists; `commit` is the commit it points at.
    Found { commit: String },
    /// The remote has no branch of that name.
    Missing,
}

/// What the hosting platform returned for a created pull request.
#[derive(Clone, Debug, PartialEq, Eq)]
pub struct CreatedPullRequest {
    /// Address of the new pull request.
    pub url: String,
    /// Number of the new pull request.
    pub number: u64,
}

/// Why a repost attempt failed. Each variant names the step that failed and
/// carries the gateway's error verbatim where one was reported.
#[derive(Clone, Copy, Debug, PartialEq, Eq)]
pub enum FailureReason {
    /// Fetching the pull request's metadata failed.
    PullRequestLookup { error: PlatformError },
    /// Cloning the base repository failed.
    WorkingCopySetup { error: VcsError },
    /// Adding the `source` remote failed.
    SourceRemoteSetup { error: VcsError },
    /// Fetching the `source` remote's branches failed.
    SourceFetch { error: VcsError },
    /// A branch lookup failed outright (not merely a missing branch).
    BranchLookup { error: VcsError },
    /// The pull request's head branch exists under no configured remote.
    HeadBranchNotFound,
    /// The base branch exists under no configured remote.
    BaseBranchNotFound,
    /// Creating the integration branch failed.
    IntegrationBranchCreation { error: VcsError },
    /// The merge failed outright (not a conflict, which is an outcome).
    MergeExecution { error: VcsError },
    /// Pushing the merged branch was rejected or failed; the merge itself
    /// succeeded locally.
    Publish { error: VcsError },
    /// Creating the new pull request failed.
    PullRequestCreation { error: PlatformError },
}

/// Terminal result of a repost attempt.
#[derive(Clone, Debug, PartialEq, Eq)]
pub enum RepostOutcome {
    /// The merged changes were pushed and a new pull request was created.
    Published { new_pr_url: String },
    /// The merge conflicted; an operator must resolve it outside this
    /// workflow. Detection of a conflict is a reported outcome, not an
    /// error.
    ConflictsRequireManualIntervention,
    /// A gateway call failed; the attempt was abandoned at that step.
    Failed { reason: FailureReason },
}

impl PlatformError {
    /// One-line description of the error.
    pub open spec fn spec_describe(&self) -> Seq<char> {
        match self {
            PlatformError::NotFound => "pull request not found"@,
            PlatformError::AuthenticationRejected => "platform credentials rejected"@,
            PlatformError::TransientNetwork => "transient network error talking to the platform"@,
            PlatformError::Validation => "platform rejected the request as invalid"@,
        }
    }

    /// Describes the error in one line.
    pub fn describe(&self) -> (s: String)
        ensures
            s@ == self.spec_describe(),
    {
        match self {
            PlatformError::NotFound => String::from_str("pull request not found"),
            PlatformError::AuthenticationRejected => String::from_str(
                "platform credentials rejected",
            ),
            PlatformError::TransientNetwork => String::from_str(
                "transient network error talking to the platform",
            ),
            PlatformError::Validation => String::from_str(
                "platform rejected the request as invalid",
            ),
        }
    }
}

impl VcsError {
    /// One-line description of the error.
    pub open spec fn spec_describe(&self) -> Seq<char> {
        match self {
            VcsError::RemoteUnreachable => "remote unreachable"@,
            VcsError::AuthenticationRejected => "version-control credentials rejected"@,
            VcsError::RemoteRejected => "remote rejected the operation"@,
        }
    }

    /// Describes the error in one line.
    pub fn describe(&self) -> (s: String)
        ensures
            s@ == self.spec_describe(),
    {
        match self {
            VcsError::RemoteUnreachable => String::from_str("remote unreachable"),
            VcsError::AuthenticationRejected => String::from_str(
                "version-control credentials rejected",
            ),
            VcsError::RemoteRejected => String::from_str("remote rejected the operation"),
        }
    }
}

impl FailureReason {
    /// One-line description: the failed step, then the gateway's error.
    pub open spec fn spec_describe(&self) -> Seq<char> {
        match self {
            FailureReason::PullRequestLookup { error } => "fetching pull request metadata: "@
                + error.spec_describe(),
            FailureReason::WorkingCopySetup { error } => "cloning the base repository: "@
                + error.spec_describe(),
            FailureReason::SourceRemoteSetup { error } => "adding the source remote: "@
                + error.spec_describe(),
            FailureReason::SourceFetch { error } => "fetching the source remote: "@
                + error.spec_describe(),
            FailureReason::BranchLookup { error } => "looking up a branch: "@
                + error.spec_describe(),
            FailureReason::HeadBranchNotFound => "head branch not found under any remote"@,
            FailureReason::BaseBranchNotFound => "base branch not found under any remote"@,
            FailureReason::IntegrationBranchCreation { error } => {
                "creating the integration branch: "@ + error.spec_describe()
            },
            FailureReason::MergeExecution { error } => "running the merge: "@
                + error.spec_describe(),
            FailureReason::Publish { error } => "pushing the merged branch: "@
                + error.spec_describe(),
            FailureReason::PullRequestCreation { error } => "creating the new pull request: "@
                + error.spec_describe(),
        }
    }

    /// Describes the failure in one line.
    pub fn describe(&self) -> (s: String)
        ensures
            s@ == self.spec_describe(),
    {
        match self {
            FailureReason::PullRequestLookup { error } => {
                let mut s = String::from_str("fetching pull request metadata: ");
                let e = error.describe();
                s.append(e.as_str());
                s
            },
            FailureReason::WorkingCopySetup { error } => {
                let mut s = String::from_str("cloning the base repository: ");
                let e = error.describe();
                s.append(e.as_str());
                s
            },
            FailureReason::SourceRemoteSetup { error } => {
                let mut s = String::from_str("adding the source remote: ");
                let e = error.describe();
                s.append(e.as_str());
                s
            },
            FailureReason::SourceFetch { error } => {
                let mut s = String::from_str("fetching the source remote: ");
                let e = error.describe();
                s.append(e.as_str());
                s
            },
            FailureReason::BranchLookup { error } => {
                let mut s = String::from_str("looking up a branch: ");
                let e = error.describe();
                s.append(e.as_str());
                s
            },
            FailureReason::HeadBranchNotFound => String::from_str(
                "head branch not found under any remote",
            ),
            FailureReason::BaseBranchNotFound => String::from_str(
                "base branch not found under any remote",
            ),
            FailureReason::IntegrationBranchCreation { error } => {
                let mut s = String::from_str("creating the integration branch: ");
                let e = error.describe();
                s.append(e.as_str());
                s
            },
            FailureReason::MergeExecution { error } => {
                let mut s = String::from_str("running the merge: ");
                let e = error.describe();
                s.append(e.as_str());
                s
            },
            FailureReason::Publish { error } => {
                let mut s = String::from_str("pushing the merged branch: ");
                let e = error.describe();
                s.append(e.as_str());
                s
            },
            FailureReason::PullRequestCreation { error } => {
                let mut s = String::from_str("creating the new pull request: ");
                let e = error.describe();
                s.append(e.as_str());
                s
            },
        }
    }
}

impl RepostOutcome {
    /// The single human-readable result line for this outcome.
    pub open spec fn spec_describe(&self) -> Seq<char> {
        match self {
            RepostOutcome::Published { new_pr_url } => "published new pull request at "@
                + new_pr_url@,
            RepostOutcome::ConflictsRequireManualIntervention => {
                "merge conflicts require manual intervention"@
            },
            RepostOutcome::Failed { reason } => "failed: "@ + reason.spec_describe(),
        }
    }

    /// Describes the outcome in one line.
    pub fn describe(&self) -> (s: String)
        ensures
            s@ == self.spec_describe(),
    {
        match self {
            RepostOutcome::Published { new_pr_url } => {
                let mut s = String::from_str("published new pull request at ");
                s.append(new_pr_url.as_str());
                s
            },
            RepostOutcome::ConflictsRequireManualIntervention => String::from_str(
                "merge conflicts require manual intervention",
            ),
            RepostOutcome::Failed { reason } => {
                let mut s = String::from_str("failed: ");
                let r = reason.describe();
                s.append(r.as_str());
                s
            },
        }
    }
}

} // verus!
