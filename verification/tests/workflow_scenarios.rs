use repost::model::BranchLookup;
use repost::model::CreatedPullRequest;
use repost::model::FailureReason;
use repost::model::MergeAttemptResult;
use repost::model::PullRequestMetadata;
use repost::model::RepostConfig;
use repost::model::RepostOutcome;
use repost::model::WorkingCopy;
use repost::workflow::Action;
use repost::workflow::Event;
use repost::workflow::Phase;
use repost::workflow::RemoteName;
use repost::workflow::RepostWorkflow;

fn config(pr_number: u64) -> RepostConfig {
    RepostConfig {
        pr_number,
        base_owner: String::from("octo"),
        base_repo: String::from("repo"),
        base_branch: String::from("develop"),
        destination: String::from("/tmp/repost-work"),
    }
}

fn same_repo_meta(head_branch: &str) -> PullRequestMetadata {
    PullRequestMetadata {
        author: String::from("alice"),
        title: String::from("Add feature X"),
        body: String::from("Original body"),
        head_branch: String::from(head_branch),
        head_repo: Some(String::from("octo/repo")),
    }
}

fn fork_meta(head_branch: &str) -> PullRequestMetadata {
    PullRequestMetadata {
        author: String::from("carol"),
        title: String::from("Fix parser"),
        body: String::from("Fork body"),
        head_branch: String::from(head_branch),
        head_repo: Some(String::from("contributor/repo")),
    }
}

fn found(commit: &str) -> Event {
    Event::BranchLookedUp { result: Ok(BranchLookup::Found { commit: String::from(commit) }) }
}

#[test]
fn same_repo_clean_merge_publishes() {
    // PR #42, same-repository branch `feature-x`, base `develop`, clean merge.
    let mut wf = RepostWorkflow::init(config(42));
    assert!(matches!(
        wf.pending_action(),
        Some(Action::FetchPullRequest { number: 42 })
    ));
    wf = wf.step(Event::MetadataFetched { result: Ok(same_repo_meta("feature-x")) });

    match wf.pending_action() {
        Some(Action::SetUpWorkingCopy { repository, destination }) => {
            assert_eq!(repository, "octo/repo");
            assert_eq!(destination, "/tmp/repost-work");
        }
        other => panic!("expected working-copy setup, got {:?}", other),
    }
    wf = wf.step(Event::WorkingCopySetUp { result: Ok(()) });

    // No source remote for a same-repository branch: head lookup comes next.
    match wf.pending_action() {
        Some(Action::LookUpBranch { remote, branch }) => {
            assert_eq!(remote, RemoteName::Origin);
            assert_eq!(branch, "feature-x");
        }
        other => panic!("expected head lookup on origin, got {:?}", other),
    }
    wf = wf.step(found("abc123"));

    match wf.pending_action() {
        Some(Action::LookUpBranch { remote, branch }) => {
            assert_eq!(remote, RemoteName::Origin);
            assert_eq!(branch, "develop");
        }
        other => panic!("expected base lookup on origin, got {:?}", other),
    }
    wf = wf.step(found("base456"));

    match wf.pending_action() {
        Some(Action::CreateIntegrationBranch { name, from_commit, force }) => {
            assert_eq!(name, "repost-integration-42");
            assert_eq!(from_commit, "base456");
            assert!(force);
        }
        other => panic!("expected integration branch creation, got {:?}", other),
    }
    wf = wf.step(Event::BranchCreated { result: Ok(()) });

    match wf.pending_action() {
        Some(Action::MergeHead { head_commit }) => assert_eq!(head_commit, "abc123"),
        other => panic!("expected merge, got {:?}", other),
    }
    wf = wf.step(Event::MergeAttempted { result: Ok(MergeAttemptResult::Merged) });

    match wf.pending_action() {
        Some(Action::PushMerged { local_branch, remote_branch }) => {
            assert_eq!(local_branch, "repost-integration-42");
            assert_eq!(remote_branch, "repost-pr-42");
        }
        other => panic!("expected push, got {:?}", other),
    }
    wf = wf.step(Event::Pushed { result: Ok(()) });

    match wf.pending_action() {
        Some(Action::OpenPullRequest { title, head_branch, base_branch, body }) => {
            assert_eq!(title, "[Repost] Add feature X");
            assert_eq!(head_branch, "repost-pr-42");
            assert_eq!(base_branch, "develop");
            assert!(body.starts_with("This is a reposted PR originally created by @alice"));
            assert_eq!(
                body,
                "This is a reposted PR originally created by @alice in pull request #42.\n\nOriginal body"
            );
        }
        other => panic!("expected pull-request creation, got {:?}", other),
    }
    wf = wf.step(Event::PullRequestOpened {
        result: Ok(CreatedPullRequest { url: String::from("https://example.test/pr/101"), number: 101 }),
    });

    assert!(wf.pending_action().is_none());
    match &wf.phase {
        Phase::Done { outcome } => assert_eq!(
            *outcome,
            RepostOutcome::Published { new_pr_url: String::from("https://example.test/pr/101") }
        ),
        other => panic!("expected terminal phase, got {:?}", other),
    }
}

#[test]
fn same_repo_run_never_asks_for_source_remote() {
    let mut wf = RepostWorkflow::init(config(42));
    let events = vec![
        Event::MetadataFetched { result: Ok(same_repo_meta("feature-x")) },
        Event::WorkingCopySetUp { result: Ok(()) },
        found("abc123"),
        found("base456"),
        Event::BranchCreated { result: Ok(()) },
        Event::MergeAttempted { result: Ok(MergeAttemptResult::Merged) },
        Event::Pushed { result: Ok(()) },
        Event::PullRequestOpened {
            result: Ok(CreatedPullRequest { url: String::from("u"), number: 1 }),
        },
    ];
    for event in events {
        assert!(!matches!(wf.pending_action(), Some(Action::AddSourceRemote { .. })));
        assert!(!matches!(wf.pending_action(), Some(Action::FetchSourceBranches)));
        if let Some(wc) = &wf.working_copy {
            assert!(!wc.has_source_remote);
        }
        wf = wf.step(event);
    }
    if let Some(wc) = &wf.working_copy {
        assert!(!wc.has_source_remote);
    }
    assert!(matches!(&wf.phase, Phase::Done { .. }));
}

#[test]
fn fork_adds_and_fetches_source_before_lookups() {
    // PR #7: the head lives on fork `contributor/repo`, and the base branch
    // resolves only through the `source` remote.
    let mut wf = RepostWorkflow::init(config(7));
    wf = wf.step(Event::MetadataFetched { result: Ok(fork_meta("fix-parser")) });
    wf = wf.step(Event::WorkingCopySetUp { result: Ok(()) });

    match wf.pending_action() {
        Some(Action::AddSourceRemote { repository }) => assert_eq!(repository, "contributor/repo"),
        other => panic!("expected source remote setup, got {:?}", other),
    }
    wf = wf.step(Event::RemoteAdded { result: Ok(()) });

    assert!(matches!(wf.pending_action(), Some(Action::FetchSourceBranches)));
    wf = wf.step(Event::BranchesFetched { result: Ok(()) });

    let wc = wf.working_copy.expect("working copy is set up");
    assert!(wc.has_source_remote);
    assert!(wc.source_fetched);

    // Head branch found on origin (it was fetched into the clone's refs).
    match wf.pending_action() {
        Some(Action::LookUpBranch { remote, branch }) => {
            assert_eq!(remote, RemoteName::Origin);
            assert_eq!(branch, "fix-parser");
        }
        other => panic!("expected head lookup, got {:?}", other),
    }
    wf = wf.step(found("headcafe"));

    // Base branch missing under origin: resolution falls back to `source`.
    wf = wf.step(Event::BranchLookedUp { result: Ok(BranchLookup::Missing) });
    match wf.pending_action() {
        Some(Action::LookUpBranch { remote, branch }) => {
            assert_eq!(remote, RemoteName::Source);
            assert_eq!(branch, "develop");
        }
        other => panic!("expected base lookup on source, got {:?}", other),
    }
    wf = wf.step(found("basecafe"));

    match wf.pending_action() {
        Some(Action::CreateIntegrationBranch { name, from_commit, force }) => {
            assert_eq!(name, "repost-integration-7");
            assert_eq!(from_commit, "basecafe");
            assert!(force);
        }
        other => panic!("expected integration branch creation, got {:?}", other),
    }
}

#[test]
fn fork_head_can_fall_back_to_source_remote() {
    let mut wf = RepostWorkflow::init(config(7));
    wf = wf.step(Event::MetadataFetched { result: Ok(fork_meta("fix-parser")) });
    wf = wf.step(Event::WorkingCopySetUp { result: Ok(()) });
    wf = wf.step(Event::RemoteAdded { result: Ok(()) });
    wf = wf.step(Event::BranchesFetched { result: Ok(()) });
    wf = wf.step(Event::BranchLookedUp { result: Ok(BranchLookup::Missing) });
    match wf.pending_action() {
        Some(Action::LookUpBranch { remote, branch }) => {
            assert_eq!(remote, RemoteName::Source);
            assert_eq!(branch, "fix-parser");
        }
        other => panic!("expected head lookup on source, got {:?}", other),
    }
}

#[test]
fn conflicting_merge_reports_and_stops() {
    // PR #99 with conflicting changes against `develop`: the outcome is the
    // conflict report, no push happens, no pull request is created.
    let mut wf = RepostWorkflow::init(config(99));
    wf = wf.step(Event::MetadataFetched { result: Ok(same_repo_meta("risky-change")) });
    wf = wf.step(Event::WorkingCopySetUp { result: Ok(()) });
    wf = wf.step(found("headbeef"));
    wf = wf.step(found("basebeef"));
    wf = wf.step(Event::BranchCreated { result: Ok(()) });

    let wc = wf.working_copy.expect("working copy is set up");
    assert!(wc.merge_in_progress);

    wf = wf.step(Event::MergeAttempted {
        result: Ok(MergeAttemptResult::Conflict { detail: String::from("both modified: src/a") }),
    });

    match &wf.phase {
        Phase::Done { outcome } => {
            assert_eq!(*outcome, RepostOutcome::ConflictsRequireManualIntervention)
        }
        other => panic!("expected terminal phase, got {:?}", other),
    }
    // No further action: nothing is pushed, no pull request is opened.
    assert!(wf.pending_action().is_none());
    // The working copy is left in a non-merging state.
    let wc = wf.working_copy.expect("working copy is still tracked");
    assert!(!wc.merge_in_progress);
}

fn drive_to_push(pr_number: u64) -> Option<Action> {
    let mut wf = RepostWorkflow::init(config(pr_number));
    wf = wf.step(Event::MetadataFetched { result: Ok(same_repo_meta("feature-x")) });
    wf = wf.step(Event::WorkingCopySetUp { result: Ok(()) });
    wf = wf.step(found("abc123"));
    wf = wf.step(found("base456"));
    wf = wf.step(Event::BranchCreated { result: Ok(()) });
    wf = wf.step(Event::MergeAttempted { result: Ok(MergeAttemptResult::Merged) });
    wf.pending_action()
}

#[test]
fn rerun_pushes_to_the_same_branch() {
    let first = drive_to_push(42);
    let second = drive_to_push(42);
    let first_target = match first {
        Some(Action::PushMerged { remote_branch, .. }) => remote_branch,
        other => panic!("expected push, got {:?}", other),
    };
    let second_target = match second {
        Some(Action::PushMerged { remote_branch, .. }) => remote_branch,
        other => panic!("expected push, got {:?}", other),
    };
    assert_eq!(first_target, second_target);
    assert_eq!(first_target, "repost-pr-42");

    let unrelated = match drive_to_push(43) {
        Some(Action::PushMerged { remote_branch, .. }) => remote_branch,
        other => panic!("expected push, got {:?}", other),
    };
    assert_ne!(first_target, unrelated);
}

#[test]
fn setup_replaces_any_leftover_working_copy() {
    // However the working copy looked after an earlier run, setting up
    // again yields the same fresh state.
    let leftover = WorkingCopy {
        has_source_remote: true,
        source_fetched: true,
        merge_in_progress: true,
    };
    let stale = RepostWorkflow {
        cfg: config(42),
        meta: Some(same_repo_meta("feature-x")),
        working_copy: Some(leftover),
        phase: Phase::SettingUpWorkingCopy,
    };
    let after_stale = stale.step(Event::WorkingCopySetUp { result: Ok(()) });

    let mut clean = RepostWorkflow::init(config(42));
    clean = clean.step(Event::MetadataFetched { result: Ok(same_repo_meta("feature-x")) });
    let after_clean = clean.step(Event::WorkingCopySetUp { result: Ok(()) });

    assert_eq!(after_stale.working_copy, after_clean.working_copy);
    assert_eq!(after_stale.working_copy, Some(WorkingCopy::fresh()));
}

#[test]
fn absent_head_repository_counts_as_same_repository() {
    let meta = PullRequestMetadata {
        author: String::from("dave"),
        title: String::from("T"),
        body: String::from("B"),
        head_branch: String::from("b"),
        head_repo: None,
    };
    let mut wf = RepostWorkflow::init(config(5));
    wf = wf.step(Event::MetadataFetched { result: Ok(meta) });
    wf = wf.step(Event::WorkingCopySetUp { result: Ok(()) });
    // Straight to head resolution: no source remote is set up.
    assert!(matches!(
        wf.pending_action(),
        Some(Action::LookUpBranch { remote: RemoteName::Origin, .. })
    ));
}

#[test]
fn missing_head_branch_fails_same_repo_attempt() {
    let mut wf = RepostWorkflow::init(config(5));
    wf = wf.step(Event::MetadataFetched { result: Ok(same_repo_meta("gone")) });
    wf = wf.step(Event::WorkingCopySetUp { result: Ok(()) });
    wf = wf.step(Event::BranchLookedUp { result: Ok(BranchLookup::Missing) });
    match &wf.phase {
        Phase::Done { outcome } => assert_eq!(
            *outcome,
            RepostOutcome::Failed { reason: FailureReason::HeadBranchNotFound }
        ),
        other => panic!("expected terminal phase, got {:?}", other),
    }
}

#[test]
fn missing_base_branch_everywhere_fails_fork_attempt() {
    let mut wf = RepostWorkflow::init(config(7));
    wf = wf.step(Event::MetadataFetched { result: Ok(fork_meta("fix-parser")) });
    wf = wf.step(Event::WorkingCopySetUp { result: Ok(()) });
    wf = wf.step(Event::RemoteAdded { result: Ok(()) });
    wf = wf.step(Event::BranchesFetched { result: Ok(()) });
    wf = wf.step(found("headcafe"));
    wf = wf.step(Event::BranchLookedUp { result: Ok(BranchLookup::Missing) });
    wf = wf.step(Event::BranchLookedUp { result: Ok(BranchLookup::Missing) });
    match &wf.phase {
        Phase::Done { outcome } => assert_eq!(
            *outcome,
            RepostOutcome::Failed { reason: FailureReason::BaseBranchNotFound }
        ),
        other => panic!("expected terminal phase, got {:?}", other),
    }
}
