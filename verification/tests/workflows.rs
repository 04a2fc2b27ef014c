use my_git_helper::commands::{advance, Commands};
use my_git_helper::dialogue::{Fault, Reply, Request, Session, Step, WorkflowError, WorkflowOutcome};
use my_git_helper::messages::{FailureKind, Message, NoticeKind, PromptKind};
use my_git_helper::recovery::{
    handle_conflict_and_offer_new_branch, handle_uncommitted_changes_before_action, prompt_and_push_optional,
};
use my_git_helper::runner::{CommandError, GitCommand, GitOperation};
use my_git_helper::workflows::{
    BranchArgs, CopyArgs, CreateArgs, DeleteArgs, MergeArgs, SaveArgs, SwitchArgs, TreeArgs,
};

/// Runs a command to its end against a scripted world and hands back
/// what was asked, in order, and the outcome.
fn drive(command: Commands, mut world: impl FnMut(&Request) -> Reply) -> (Vec<Request>, WorkflowOutcome) {
    let mut replies: Vec<Reply> = Vec::new();
    let mut asked: Vec<Request> = Vec::new();
    loop {
        match advance(command.clone(), &replies) {
            Step::Ask(request) => {
                replies.push(world(&request));
                asked.push(request);
            }
            Step::Settled(outcome) => return (asked, outcome),
        }
        assert!(asked.len() < 500, "the workflow does not end");
    }
}

fn no_remote() -> Reply {
    Reply::Failed(Fault::Command(CommandError::NonZeroExit {
        operation: GitOperation::RemoteGetUrl,
        code: 2,
        stderr: "error: No such remote 'origin'".to_string(),
        stdout: String::new(),
    }))
}

fn runs(asked: &[Request]) -> Vec<Vec<String>> {
    asked
        .iter()
        .filter_map(|r| match r {
            Request::Run(inv) => Some(inv.args.clone()),
            _ => None,
        })
        .collect()
}

fn notices(asked: &[Request]) -> Vec<NoticeKind> {
    asked
        .iter()
        .filter_map(|r| match r {
            Request::Say(n) => Some(n.kind),
            _ => None,
        })
        .collect()
}

fn questions(asked: &[Request]) -> Vec<PromptKind> {
    asked
        .iter()
        .filter_map(|r| match r {
            Request::Input(p) | Request::Confirm(p) => Some(p.kind),
            Request::FuzzySelect(p, _) | Request::Select(p, _, _) => Some(p.kind),
            _ => None,
        })
        .collect()
}

fn args(words: &[&str]) -> Vec<String> {
    words.iter().map(|w| w.to_string()).collect()
}

fn rejection(kind: FailureKind, subjects: &[&str]) -> WorkflowOutcome {
    WorkflowOutcome::Fail(WorkflowError::Validation(Message { kind, subjects: args(subjects) }))
}

#[test]
fn create_without_remote_creates_and_does_not_offer_a_push() {
    let (asked, outcome) = drive(Commands::Create(CreateArgs {}), |request| match request {
        Request::Input(p) if p.kind == PromptKind::NewBranchName => Reply::Text("feature-x".to_string()),
        Request::Run(inv) => match inv.operation {
            GitOperation::RevParseVerify => Reply::Flag(false),
            GitOperation::BranchCreate => Reply::Done,
            GitOperation::RemoteGetUrl => no_remote(),
            _ => panic!("unexpected run {:?}", inv),
        },
        Request::Say(_) => Reply::Done,
        other => panic!("unexpected request {:?}", other),
    });
    assert_eq!(outcome, WorkflowOutcome::Continue);
    assert_eq!(outcome.exit_code(), 0);
    assert_eq!(
        runs(&asked),
        vec![
            args(&["rev-parse", "--verify", "--quiet", "feature-x"]),
            args(&["branch", "feature-x"]),
            args(&["remote", "get-url", "origin"]),
        ]
    );
    assert_eq!(questions(&asked), vec![PromptKind::NewBranchName]);
    assert_eq!(
        notices(&asked),
        vec![NoticeKind::CreatedLocalBranch, NoticeKind::RemoteLookupFailedPushSkipped]
    );
}

#[test]
fn create_with_an_unset_remote_address_skips_the_push_too() {
    let (asked, outcome) = drive(Commands::Create(CreateArgs {}), |request| match request {
        Request::Input(_) => Reply::Text("feature-x".to_string()),
        Request::Run(inv) => match inv.operation {
            GitOperation::RevParseVerify => Reply::Flag(false),
            GitOperation::RemoteGetUrl => Reply::Text(String::new()),
            _ => Reply::Done,
        },
        Request::Say(_) => Reply::Done,
        other => panic!("unexpected request {:?}", other),
    });
    assert_eq!(outcome, WorkflowOutcome::Continue);
    assert_eq!(questions(&asked), vec![PromptKind::NewBranchName]);
    assert_eq!(notices(&asked), vec![NoticeKind::CreatedLocalBranch, NoticeKind::RemoteUnsetPushSkipped]);
}

#[test]
fn create_refuses_an_empty_name_and_a_name_that_exists() {
    let (asked, outcome) = drive(Commands::Create(CreateArgs {}), |request| match request {
        Request::Input(_) => Reply::Text(String::new()),
        other => panic!("unexpected request {:?}", other),
    });
    assert_eq!(outcome, rejection(FailureKind::EmptyBranchName, &[]));
    assert_eq!(outcome.exit_code(), 1);
    assert!(runs(&asked).is_empty());

    let (asked, outcome) = drive(Commands::Create(CreateArgs {}), |request| match request {
        Request::Input(_) => Reply::Text("main".to_string()),
        Request::Run(inv) if inv.operation == GitOperation::RevParseVerify => Reply::Flag(true),
        other => panic!("unexpected request {:?}", other),
    });
    assert_eq!(outcome, rejection(FailureKind::AlreadyExists, &["branch", "main"]));
    assert_eq!(runs(&asked), vec![args(&["rev-parse", "--verify", "--quiet", "main"])]);
}

#[test]
fn create_with_a_remote_pushes_after_confirmation() {
    let (asked, outcome) = drive(Commands::Create(CreateArgs {}), |request| match request {
        Request::Input(_) => Reply::Text("topic".to_string()),
        Request::Confirm(p) if p.kind == PromptKind::PushAndTrack => {
            assert_eq!(p.subjects, args(&["create", "topic"]));
            Reply::Flag(true)
        }
        Request::Run(inv) => match inv.operation {
            GitOperation::RevParseVerify => Reply::Flag(false),
            GitOperation::RemoteGetUrl => Reply::Text("git@example.com:me/repo.git".to_string()),
            _ => Reply::Done,
        },
        Request::Say(_) => Reply::Done,
        other => panic!("unexpected request {:?}", other),
    });
    assert_eq!(outcome, WorkflowOutcome::Continue);
    assert_eq!(
        runs(&asked),
        vec![
            args(&["rev-parse", "--verify", "--quiet", "topic"]),
            args(&["branch", "topic"]),
            args(&["remote", "get-url", "origin"]),
            args(&["checkout", "topic"]),
            args(&["push", "-u", "origin", "topic"]),
        ]
    );
    assert_eq!(notices(&asked), vec![NoticeKind::CreatedLocalBranch, NoticeKind::PushedAndTracking]);
}

fn merge_world(keep: bool) -> impl FnMut(&Request) -> Reply {
    move |request| match request {
        Request::Run(inv) => match inv.operation {
            GitOperation::StatusPorcelain => Reply::Text(String::new()),
            GitOperation::SymbolicRefHead => Reply::Text("main".to_string()),
            GitOperation::BranchListLocal => Reply::Text("* main\n  feature".to_string()),
            GitOperation::BranchListAll => {
                Reply::Text("* main\n  feature\n  remotes/origin/main".to_string())
            }
            GitOperation::RevParseVerify => Reply::Flag(inv.args[3] == "feature"),
            GitOperation::Merge => Reply::Flag(false),
            GitOperation::CheckoutNew => Reply::Done,
            _ => panic!("unexpected run {:?}", inv),
        },
        Request::FuzzySelect(p, items) => {
            assert_eq!(p.kind, PromptKind::MergeSource);
            assert_eq!(p.subjects, args(&["main"]));
            assert_eq!(items, &args(&["feature (local)"]));
            Reply::Choice(Some(0))
        }
        Request::Confirm(p) if p.kind == PromptKind::KeepOnNewBranch => Reply::Flag(keep),
        Request::Input(p) if p.kind == PromptKind::NewBranchName => Reply::Text("wip-salvage".to_string()),
        Request::Say(_) => Reply::Done,
        other => panic!("unexpected request {:?}", other),
    }
}

#[test]
fn failed_merge_declined_recovery_fails_with_manual_resolution() {
    let (asked, outcome) = drive(Commands::Merge(MergeArgs {}), merge_world(false));
    assert_eq!(outcome, rejection(FailureKind::ConflictLeftUnresolved, &[]));
    assert_eq!(outcome.exit_code(), 1);
    assert_eq!(notices(&asked), vec![NoticeKind::ConflictWarning]);
    assert_eq!(runs(&asked).last().unwrap(), &args(&["merge", "feature"]));
}

#[test]
fn failed_merge_accepted_recovery_creates_the_salvage_branch() {
    let (asked, outcome) = drive(Commands::Merge(MergeArgs {}), merge_world(true));
    assert_eq!(outcome, WorkflowOutcome::Continue);
    assert_eq!(outcome.exit_code(), 0);
    let ran = runs(&asked);
    assert_eq!(
        &ran[ran.len() - 3..],
        &[
            args(&["merge", "feature"]),
            args(&["rev-parse", "--verify", "--quiet", "wip-salvage"]),
            args(&["checkout", "-b", "wip-salvage"]),
        ]
    );
    assert_eq!(
        notices(&asked),
        vec![NoticeKind::ConflictWarning, NoticeKind::SalvageBranchCreated, NoticeKind::ResolveAndRetry]
    );
}

#[test]
fn merge_offers_neither_the_current_branch_nor_its_counterpart() {
    let (asked, outcome) = drive(Commands::Merge(MergeArgs {}), |request| match request {
        Request::Run(inv) => match inv.operation {
            GitOperation::StatusPorcelain => Reply::Text(String::new()),
            GitOperation::SymbolicRefHead => Reply::Text("main".to_string()),
            GitOperation::BranchListLocal => Reply::Text("* main\n  main2".to_string()),
            GitOperation::BranchListAll => {
                Reply::Text("* main\n  main2\n  remotes/origin/main\n  remotes/origin/main2".to_string())
            }
            _ => panic!("unexpected run {:?}", inv),
        },
        Request::FuzzySelect(_, items) => {
            assert_eq!(items, &args(&["main2 (local)", "main2 (origin)"]));
            Reply::Choice(None)
        }
        Request::Say(_) => Reply::Done,
        other => panic!("unexpected request {:?}", other),
    });
    assert_eq!(outcome, WorkflowOutcome::Abort);
    assert_eq!(outcome.exit_code(), 0);
    assert_eq!(notices(&asked), vec![NoticeKind::SelectionCancelled]);
}

#[test]
fn merge_without_a_current_branch_fails() {
    let (_, outcome) = drive(Commands::Merge(MergeArgs {}), |request| match request {
        Request::Run(inv) => match inv.operation {
            GitOperation::StatusPorcelain => Reply::Text(String::new()),
            GitOperation::SymbolicRefHead => Reply::Text("HEAD".to_string()),
            _ => panic!("unexpected run {:?}", inv),
        },
        other => panic!("unexpected request {:?}", other),
    });
    assert_eq!(outcome, rejection(FailureKind::CurrentBranchUnknown, &[]));
}

#[test]
fn successful_merge_offers_to_delete_the_source() {
    let (asked, outcome) = drive(Commands::Merge(MergeArgs {}), |request| match request {
        Request::Run(inv) => match inv.operation {
            GitOperation::StatusPorcelain => Reply::Text(String::new()),
            GitOperation::SymbolicRefHead => Reply::Text("main".to_string()),
            GitOperation::BranchListLocal => Reply::Text("* main\n  feature".to_string()),
            GitOperation::BranchListAll => Reply::Text("* main\n  feature".to_string()),
            GitOperation::RevParseVerify => Reply::Flag(true),
            GitOperation::Merge => Reply::Flag(true),
            GitOperation::BranchDelete => Reply::Done,
            _ => panic!("unexpected run {:?}", inv),
        },
        Request::FuzzySelect(_, _) => Reply::Choice(Some(0)),
        Request::Confirm(p) if p.kind == PromptKind::DeleteMergedBranch => Reply::Flag(true),
        Request::Say(_) => Reply::Done,
        other => panic!("unexpected request {:?}", other),
    });
    assert_eq!(outcome, WorkflowOutcome::Continue);
    assert_eq!(runs(&asked).last().unwrap(), &args(&["branch", "-d", "feature"]));
    assert_eq!(notices(&asked), vec![NoticeKind::MergeSucceeded, NoticeKind::DeletedLocalBranch]);
}

fn delete_world(listing_local: &'static str, listing_all: &'static str, pick: usize, current: &'static str,
    exists: fn(&str) -> bool, confirm: bool) -> impl FnMut(&Request) -> Reply {
    move |request| match request {
        Request::Run(inv) => match inv.operation {
            GitOperation::BranchListLocal => Reply::Text(listing_local.to_string()),
            GitOperation::BranchListAll => Reply::Text(listing_all.to_string()),
            GitOperation::RevParseVerify => Reply::Flag(exists(&inv.args[3])),
            GitOperation::SymbolicRefHead => Reply::Text(current.to_string()),
            GitOperation::RemoteGetUrl => Reply::Text("https://example.com/repo.git".to_string()),
            GitOperation::BranchDelete | GitOperation::PushDelete => Reply::Done,
            _ => panic!("unexpected run {:?}", inv),
        },
        Request::FuzzySelect(p, _) => {
            assert_eq!(p.kind, PromptKind::DeleteTarget);
            Reply::Choice(Some(pick))
        }
        Request::Confirm(_) => Reply::Flag(confirm),
        Request::Say(_) => Reply::Done,
        other => panic!("unexpected request {:?}", other),
    }
}

#[test]
fn delete_of_a_remote_only_branch_asks_only_for_the_remote_deletion() {
    let (asked, outcome) = drive(
        Commands::Delete(DeleteArgs {}),
        delete_world(
            "* main",
            "* main\n  remotes/origin/stale-branch",
            1,
            "main",
            |name| name == "origin/stale-branch",
            false,
        ),
    );
    assert_eq!(outcome, WorkflowOutcome::Continue);
    assert_eq!(outcome.exit_code(), 0);
    assert_eq!(questions(&asked), vec![PromptKind::DeleteTarget, PromptKind::DeleteRemoteBranch]);
    assert_eq!(notices(&asked), vec![NoticeKind::NoDeletionPerformed]);
    assert!(runs(&asked).iter().all(|a| a[0] != "push" && !(a[0] == "branch" && a[1] == "-d")));
    // the local candidate is not probed for a name with the remote prefix
    assert!(!runs(&asked).contains(&args(&["rev-parse", "--verify", "--quiet", "stale-branch"])));
}

#[test]
fn delete_of_a_remote_only_branch_confirmed_deletes_on_the_remote() {
    let (asked, outcome) = drive(
        Commands::Delete(DeleteArgs {}),
        delete_world(
            "* main",
            "* main\n  remotes/origin/stale-branch",
            1,
            "main",
            |name| name == "origin/stale-branch",
            true,
        ),
    );
    assert_eq!(outcome, WorkflowOutcome::Continue);
    assert_eq!(runs(&asked).last().unwrap(), &args(&["push", "origin", "--delete", "stale-branch"]));
    assert_eq!(notices(&asked), vec![NoticeKind::RemoteDeletionRequested]);
}

#[test]
fn delete_refuses_the_checked_out_branch_before_any_deletion() {
    let (asked, outcome) = drive(
        Commands::Delete(DeleteArgs {}),
        delete_world("* main\n  other", "* main\n  other\n  remotes/origin/main", 0, "main", |_| true, true),
    );
    assert_eq!(outcome, rejection(FailureKind::CannotDeleteCurrentBranch, &["main"]));
    assert_eq!(outcome.exit_code(), 1);
    assert_eq!(questions(&asked), vec![PromptKind::DeleteTarget]);
    for run in runs(&asked) {
        assert!(run[0] != "push", "a deletion on the remote ran: {:?}", run);
        assert!(!(run[0] == "branch" && run[1] == "-d"), "a local deletion ran: {:?}", run);
    }
}

#[test]
fn delete_of_another_branch_deletes_locally_and_on_the_remote() {
    let (asked, outcome) = drive(
        Commands::Delete(DeleteArgs {}),
        delete_world("* main\n  other", "* main\n  other\n  remotes/origin/other", 1, "main", |_| true, true),
    );
    assert_eq!(outcome, WorkflowOutcome::Continue);
    let ran = runs(&asked);
    assert!(ran.contains(&args(&["branch", "-d", "other"])));
    assert!(ran.contains(&args(&["push", "origin", "--delete", "other"])));
    assert_eq!(notices(&asked), vec![NoticeKind::DeletedLocalBranch, NoticeKind::RemoteDeletionRequested]);
}

#[test]
fn delete_of_a_branch_that_vanished_fails_after_saying_so() {
    let (asked, outcome) = drive(
        Commands::Delete(DeleteArgs {}),
        delete_world("* main\n  gone", "* main\n  gone", 0, "main", |_| false, true),
    );
    assert_eq!(outcome, rejection(FailureKind::SelectedBranchVanished, &["gone"]));
    assert_eq!(notices(&asked), vec![NoticeKind::NoDeletionPerformed]);
}

#[test]
fn delete_with_nothing_to_pick_ends_without_error() {
    let (asked, outcome) = drive(Commands::Delete(DeleteArgs {}), |request| match request {
        Request::Run(_) => Reply::Text(String::new()),
        Request::Say(_) => Reply::Done,
        other => panic!("unexpected request {:?}", other),
    });
    assert_eq!(outcome, WorkflowOutcome::Abort);
    assert_eq!(notices(&asked), vec![NoticeKind::NothingToDelete]);
    assert!(questions(&asked).is_empty());
}

#[test]
fn guard_on_a_clean_tree_continues_without_a_prompt() {
    let replies = vec![Reply::Text(String::new())];
    let mut session = Session::replay(&replies);
    assert_eq!(handle_uncommitted_changes_before_action("switch", &mut session), Ok(true));
    assert_eq!(session.at, 1);

    // a second run in the same state behaves the same
    let replies = vec![Reply::Text(String::new()), Reply::Text(String::new())];
    let mut session = Session::replay(&replies);
    assert_eq!(handle_uncommitted_changes_before_action("switch", &mut session), Ok(true));
    assert_eq!(handle_uncommitted_changes_before_action("merge", &mut session), Ok(true));
    assert_eq!(session.at, 2);

    // and what it asks for first is the state of the working tree
    let replies = vec![];
    let mut session = Session::replay(&replies);
    assert_eq!(
        handle_uncommitted_changes_before_action("switch", &mut session),
        Err(Step::Ask(Request::Run(GitCommand::status_porcelain_v1())))
    );
}

fn guard_with(pick: Option<usize>, rest: Vec<Reply>) -> (Result<bool, Step>, usize) {
    let mut replies = vec![Reply::Text(" M src/lib.rs".to_string()), Reply::Done, Reply::Choice(pick)];
    replies.extend(rest);
    let mut session = Session::replay(&replies);
    let r = handle_uncommitted_changes_before_action("switch", &mut session);
    (r, session.at)
}

#[test]
fn guard_on_a_dirty_tree_offers_four_ways_out() {
    let replies = vec![Reply::Text(" M src/lib.rs".to_string()), Reply::Done];
    let mut session = Session::replay(&replies);
    match handle_uncommitted_changes_before_action("switch", &mut session) {
        Err(Step::Ask(Request::Select(prompt, items, preselected))) => {
            assert_eq!(prompt.kind, PromptKind::UncommittedRemedy);
            assert_eq!(items.len(), 4);
            assert_eq!(preselected, 3);
        }
        other => panic!("unexpected {:?}", other),
    }
}

#[test]
fn guard_save_commits_and_continues() {
    let (r, at) = guard_with(
        Some(0),
        vec![Reply::Done, Reply::Text("wip".to_string()), Reply::Done, Reply::Done, Reply::Done],
    );
    assert_eq!(r, Ok(true));
    assert_eq!(at, 8);

    let (r, _) = guard_with(Some(0), vec![Reply::Done, Reply::Text("wip".to_string()), Reply::Done]);
    assert_eq!(r, Err(Step::Ask(Request::Run(GitCommand::commit("wip")))));

    let (r, _) = guard_with(Some(0), vec![Reply::Done, Reply::Text(String::new())]);
    assert_eq!(
        r,
        Err(Step::Settled(rejection(FailureKind::EmptyCommitMessage, &[])))
    );
}

#[test]
fn guard_create_carries_the_changes_and_aborts() {
    let (r, _) = guard_with(
        Some(1),
        vec![Reply::Done, Reply::Text("carry".to_string()), Reply::Flag(false), Reply::Done, Reply::Done],
    );
    assert_eq!(r, Ok(false));

    let (r, _) = guard_with(Some(1), vec![Reply::Done, Reply::Text("carry".to_string()), Reply::Flag(false)]);
    assert_eq!(r, Err(Step::Ask(Request::Run(GitCommand::branch_create_local("carry")))));

    let (r, _) = guard_with(Some(1), vec![Reply::Done, Reply::Text("carry".to_string()), Reply::Flag(true)]);
    assert_eq!(r, Err(Step::Settled(rejection(FailureKind::AlreadyExists, &["branch", "carry"]))));
}

#[test]
fn guard_discard_needs_a_second_confirmation() {
    let (r, _) = guard_with(Some(2), vec![Reply::Done]);
    assert_eq!(r, Err(Step::Ask(Request::Confirm(Message::plain(PromptKind::DiscardChanges)))));

    let (r, _) = guard_with(Some(2), vec![Reply::Done, Reply::Flag(true)]);
    assert_eq!(r, Err(Step::Ask(Request::Run(GitCommand::reset_hard_head()))));

    let (r, _) = guard_with(Some(2), vec![Reply::Done, Reply::Flag(true), Reply::Done, Reply::Done]);
    assert_eq!(r, Ok(true));

    let (r, at) = guard_with(Some(2), vec![Reply::Done, Reply::Flag(false), Reply::Done]);
    assert_eq!(r, Ok(false));
    assert_eq!(at, 6);
}

#[test]
fn guard_cancel_and_no_selection_abort_without_side_effects() {
    for pick in [Some(3), None] {
        let (r, _) = guard_with(pick, vec![]);
        assert_eq!(
            r,
            Err(Step::Ask(Request::Say(Message::about(NoticeKind::ActionCancelled, "switch"))))
        );
        let (r, at) = guard_with(pick, vec![Reply::Done]);
        assert_eq!(r, Ok(false));
        assert_eq!(at, 4);
    }
    let (r, _) = guard_with(Some(4), vec![]);
    assert_eq!(r, Err(Step::Settled(WorkflowOutcome::Fail(WorkflowError::Protocol))));
}

#[test]
fn switch_on_a_dirty_tree_cancelled_aborts_before_listing_branches() {
    let (asked, outcome) = drive(Commands::Switch(SwitchArgs {}), |request| match request {
        Request::Run(inv) if inv.operation == GitOperation::StatusPorcelain => Reply::Text("?? new".to_string()),
        Request::Select(_, _, _) => Reply::Choice(None),
        Request::Say(_) => Reply::Done,
        other => panic!("unexpected request {:?}", other),
    });
    assert_eq!(outcome, WorkflowOutcome::Abort);
    assert_eq!(runs(&asked), vec![args(&["status", "--porcelain"])]);
    assert_eq!(notices(&asked), vec![NoticeKind::UncommittedWarning, NoticeKind::ActionCancelled]);
}

fn switch_world(pick: usize, exists: fn(&str) -> bool, confirm: bool) -> impl FnMut(&Request) -> Reply {
    move |request| match request {
        Request::Run(inv) => match inv.operation {
            GitOperation::StatusPorcelain => Reply::Text(String::new()),
            GitOperation::BranchListLocal => Reply::Text("* main\n  dev".to_string()),
            GitOperation::BranchListAll => Reply::Text(
                "* main\n  dev\n  remotes/origin/HEAD -> origin/main\n  remotes/origin/main\n  remotes/origin/topic"
                    .to_string(),
            ),
            GitOperation::RevParseVerify => Reply::Flag(exists(&inv.args[3])),
            GitOperation::Checkout => Reply::Done,
            _ => panic!("unexpected run {:?}", inv),
        },
        Request::FuzzySelect(p, items) => {
            assert_eq!(p.kind, PromptKind::SwitchTarget);
            assert_eq!(
                items,
                &args(&["dev (local)", "main (local)", "main (origin)", "topic (origin)"])
            );
            Reply::Choice(Some(pick))
        }
        Request::Confirm(p) if p.kind == PromptKind::CreateFromRemote => Reply::Flag(confirm),
        Request::Say(_) => Reply::Done,
        other => panic!("unexpected request {:?}", other),
    }
}

#[test]
fn switch_to_a_local_branch_checks_it_out() {
    let (asked, outcome) = drive(Commands::Switch(SwitchArgs {}), switch_world(0, |_| true, false));
    assert_eq!(outcome, WorkflowOutcome::Continue);
    assert_eq!(runs(&asked).last().unwrap(), &args(&["checkout", "dev"]));
    assert_eq!(notices(&asked), vec![NoticeKind::SwitchedTo]);
}

#[test]
fn switch_to_a_remote_only_branch_offers_to_create_it() {
    let (asked, outcome) =
        drive(Commands::Switch(SwitchArgs {}), switch_world(3, |name| name == "origin/topic", true));
    assert_eq!(outcome, WorkflowOutcome::Continue);
    assert_eq!(runs(&asked).last().unwrap(), &args(&["checkout", "topic"]));
    assert_eq!(notices(&asked), vec![NoticeKind::CreatedAndSwitched]);

    let (asked, outcome) =
        drive(Commands::Switch(SwitchArgs {}), switch_world(3, |name| name == "origin/topic", false));
    assert_eq!(outcome, WorkflowOutcome::Abort);
    assert!(runs(&asked).iter().all(|a| a[0] != "checkout"));
    assert_eq!(notices(&asked), vec![NoticeKind::OperationCancelled]);
}

#[test]
fn switch_to_a_branch_that_is_nowhere_fails_as_not_found() {
    let (_, outcome) = drive(Commands::Switch(SwitchArgs {}), switch_world(0, |_| false, false));
    assert_eq!(outcome, rejection(FailureKind::NoSuchBranch, &["dev"]));
}

#[test]
fn save_commits_pushes_and_pulls() {
    let (asked, outcome) = drive(Commands::Save(SaveArgs {}), |request| match request {
        Request::Run(inv) => match inv.operation {
            GitOperation::Add | GitOperation::Commit | GitOperation::PushUpstream => Reply::Done,
            GitOperation::SymbolicRefHead => Reply::Text("main".to_string()),
            GitOperation::RemoteGetUrl => Reply::Text("ssh://host/repo".to_string()),
            GitOperation::Pull => Reply::Flag(true),
            _ => panic!("unexpected run {:?}", inv),
        },
        Request::Input(p) if p.kind == PromptKind::CommitMessage => Reply::Text("fix the parser".to_string()),
        Request::Confirm(_) => Reply::Flag(true),
        Request::Say(_) => Reply::Done,
        other => panic!("unexpected request {:?}", other),
    });
    assert_eq!(outcome, WorkflowOutcome::Continue);
    assert_eq!(
        runs(&asked),
        vec![
            args(&["add", "."]),
            args(&["commit", "-m", "fix the parser"]),
            args(&["symbolic-ref", "--short", "-q", "HEAD"]),
            args(&["remote", "get-url", "origin"]),
            args(&["push", "-u", "origin", "main"]),
            args(&["pull", "origin", "main"]),
        ]
    );
    assert_eq!(
        notices(&asked),
        vec![
            NoticeKind::CommittedLocally,
            NoticeKind::PushedToRemote,
            NoticeKind::PullSucceeded,
            NoticeKind::SaveFinished
        ]
    );
}

#[test]
fn save_requires_a_commit_message() {
    let (asked, outcome) = drive(Commands::Save(SaveArgs {}), |request| match request {
        Request::Run(inv) if inv.operation == GitOperation::Add => Reply::Done,
        Request::Input(_) => Reply::Text(String::new()),
        other => panic!("unexpected request {:?}", other),
    });
    assert_eq!(outcome, rejection(FailureKind::EmptyCommitMessage, &[]));
    assert_eq!(runs(&asked), vec![args(&["add", "."])]);
}

#[test]
fn save_with_a_failing_pull_enters_conflict_recovery() {
    let (asked, outcome) = drive(Commands::Save(SaveArgs {}), |request| match request {
        Request::Run(inv) => match inv.operation {
            GitOperation::SymbolicRefHead => Reply::Text("main".to_string()),
            GitOperation::RemoteGetUrl => Reply::Text("ssh://host/repo".to_string()),
            GitOperation::Pull => Reply::Flag(false),
            _ => Reply::Done,
        },
        Request::Input(_) => Reply::Text("message".to_string()),
        Request::Confirm(p) => Reply::Flag(p.kind != PromptKind::KeepOnNewBranch),
        Request::Say(_) => Reply::Done,
        other => panic!("unexpected request {:?}", other),
    });
    assert_eq!(outcome, rejection(FailureKind::ConflictLeftUnresolved, &[]));
    assert_eq!(notices(&asked).last(), Some(&NoticeKind::ConflictWarning));
}

#[test]
fn save_propagates_a_failure_of_the_external_tool() {
    let failure = CommandError::SpawnFailed {
        operation: GitOperation::Add,
        reason: "No such file or directory".to_string(),
    };
    let reply = Reply::Failed(Fault::Command(failure.clone()));
    let (asked, outcome) = drive(Commands::Save(SaveArgs {}), move |_| reply.clone());
    assert_eq!(outcome, WorkflowOutcome::Fail(WorkflowError::Command(failure)));
    assert_eq!(outcome.exit_code(), 1);
    assert_eq!(asked.len(), 1);
}

#[test]
fn save_without_a_remote_skips_the_push() {
    let (asked, outcome) = drive(Commands::Save(SaveArgs {}), |request| match request {
        Request::Run(inv) => match inv.operation {
            GitOperation::SymbolicRefHead => Reply::Text("main".to_string()),
            GitOperation::RemoteGetUrl => no_remote(),
            _ => Reply::Done,
        },
        Request::Input(_) => Reply::Text("message".to_string()),
        Request::Say(_) => Reply::Done,
        other => panic!("unexpected request {:?}", other),
    });
    assert_eq!(outcome, WorkflowOutcome::Continue);
    assert_eq!(questions(&asked), vec![PromptKind::CommitMessage]);
    assert_eq!(
        notices(&asked),
        vec![NoticeKind::CommittedLocally, NoticeKind::RemoteUnavailable, NoticeKind::SaveFinished]
    );
}

#[test]
fn copy_creates_the_new_branch_from_the_source() {
    let (asked, outcome) = drive(Commands::Copy(CopyArgs {}), |request| match request {
        Request::Run(inv) => match inv.operation {
            GitOperation::BranchListLocal => Reply::Text("* main".to_string()),
            GitOperation::BranchListAll => Reply::Text("* main".to_string()),
            GitOperation::RevParseVerify => Reply::Flag(false),
            GitOperation::BranchCreateFrom => Reply::Done,
            GitOperation::RemoteGetUrl => no_remote(),
            _ => panic!("unexpected run {:?}", inv),
        },
        Request::FuzzySelect(p, _) if p.kind == PromptKind::CopySource => Reply::Choice(Some(0)),
        Request::Input(_) => Reply::Text("main-copy".to_string()),
        Request::Say(_) => Reply::Done,
        other => panic!("unexpected request {:?}", other),
    });
    assert_eq!(outcome, WorkflowOutcome::Continue);
    assert!(runs(&asked).contains(&args(&["branch", "main-copy", "main"])));
    assert_eq!(notices(&asked), vec![NoticeKind::CopiedBranch, NoticeKind::RemoteLookupFailedPushSkipped]);
}

#[test]
fn tree_shows_what_the_tool_printed() {
    let (asked, outcome) = drive(Commands::Tree(TreeArgs {}), |request| match request {
        Request::Run(inv) if inv.operation == GitOperation::ShowBranchTree => {
            Reply::Text("* [main] first".to_string())
        }
        Request::Say(_) => Reply::Done,
        other => panic!("unexpected request {:?}", other),
    });
    assert_eq!(outcome, WorkflowOutcome::Continue);
    assert_eq!(
        asked.last().unwrap(),
        &Request::Say(Message::about(NoticeKind::Output, "* [main] first"))
    );
}

#[test]
fn branch_listing_classifies_each_local_branch() {
    let (asked, outcome) = drive(Commands::Branch(BranchArgs {}), |request| match request {
        Request::Run(inv) => match inv.operation {
            GitOperation::RemoteGetUrl => Reply::Text("ssh://host/repo".to_string()),
            GitOperation::FetchPrune => Reply::Done,
            GitOperation::BranchListAll => Reply::Text(
                "  ahead\n* main\n  solo\n  remotes/origin/HEAD -> origin/main\n  remotes/origin/ahead\n  remotes/origin/main\n  remotes/origin/far"
                    .to_string(),
            ),
            GitOperation::StatusPorcelain => Reply::Text(" M file".to_string()),
            GitOperation::RevParseVerify => Reply::Flag(inv.args[3] != "origin/solo"),
            GitOperation::RevParseCommitId => Reply::Text(match inv.args[1].as_str() {
                "ahead" => "a2",
                "origin/ahead" => "a1",
                "main" | "origin/main" => "m1",
                "solo" => "s1",
                other => panic!("unexpected ref {}", other),
            }.to_string()),
            GitOperation::MergeBase => {
                assert_eq!(inv.args, args(&["merge-base", "a2", "a1"]));
                Reply::Text("a1".to_string())
            }
            _ => panic!("unexpected run {:?}", inv),
        },
        Request::Say(_) => Reply::Done,
        other => panic!("unexpected request {:?}", other),
    });
    assert_eq!(outcome, WorkflowOutcome::Continue);
    let said: Vec<Message<NoticeKind>> = asked
        .iter()
        .filter_map(|r| match r {
            Request::Say(n) => Some(n.clone()),
            _ => None,
        })
        .collect();
    assert_eq!(
        said,
        vec![
            Message::plain(NoticeKind::BranchListWithRemote),
            Message::about2(NoticeKind::UnsyncedBranch, "ahead", "needs push"),
            Message::about2(NoticeKind::CurrentBranchDirty, "main", ""),
            Message::about2(NoticeKind::UnsyncedBranch, "solo", ""),
            Message::about(NoticeKind::RemoteOnlyBranch, "far"),
        ]
    );
}

#[test]
fn push_offer_is_skipped_without_checkout_when_declined() {
    let replies = vec![Reply::Text("url".to_string()), Reply::Flag(false)];
    let mut session = Session::replay(&replies);
    assert_eq!(prompt_and_push_optional("topic", "create", &mut session, true), Ok(()));
    assert_eq!(session.at, 2);

    let replies = vec![Reply::Text("url".to_string()), Reply::Flag(true)];
    let mut session = Session::replay(&replies);
    assert_eq!(
        prompt_and_push_optional("topic", "create", &mut session, false),
        Err(Step::Ask(Request::Run(GitCommand::push_u("origin", "topic"))))
    );
}

#[test]
fn conflict_recovery_refuses_a_name_that_is_taken() {
    let replies =
        vec![Reply::Done, Reply::Flag(true), Reply::Text("main".to_string()), Reply::Flag(true)];
    let mut session = Session::replay(&replies);
    assert_eq!(
        handle_conflict_and_offer_new_branch("merge", &mut session),
        Err(Step::Settled(rejection(FailureKind::AlreadyExists, &["branch", "main"])))
    );
}

#[test]
fn a_reply_of_the_wrong_shape_is_a_protocol_failure() {
    let replies = vec![Reply::Flag(true)];
    assert_eq!(
        advance(Commands::Tree(TreeArgs {}), &replies),
        Step::Settled(WorkflowOutcome::Fail(WorkflowError::Protocol))
    );
}
