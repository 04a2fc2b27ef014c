use my_git_helper::dialogue::{Fault, Reply, Request, Session, Step, WorkflowError, WorkflowOutcome};
use my_git_helper::messages::{FailureKind, Message, NoticeKind, PromptKind};
use my_git_helper::options::SelectOption;
use my_git_helper::recovery::prompt_and_execute_pull;
use my_git_helper::runner::{CommandError, GitCommand, GitOperation};
use my_git_helper::steps::{
    ensure_branch_exists, ensure_branch_not_exists, get_branch_display_info, get_branch_select_options_for_fuzzy,
    get_current_branch_name, get_origin_url, prompt_confirm, prompt_fuzzy_select, prompt_input,
    prompt_non_empty_input, unwrap_or_default,
};
use my_git_helper::dialogue::Attempt;

fn text(s: &str) -> Reply {
    Reply::Text(s.to_string())
}

fn rejected(kind: FailureKind, subjects: &[&str]) -> Step {
    Step::Settled(WorkflowOutcome::Fail(WorkflowError::Validation(Message {
        kind,
        subjects: subjects.iter().map(|s| s.to_string()).collect(),
    })))
}

fn io_fault() -> Fault {
    Fault::Io("broken pipe".to_string())
}

#[test]
fn input_hands_back_what_was_typed() {
    let replies = vec![text("hello")];
    let mut session = Session::replay(&replies);
    assert_eq!(prompt_input(Message::plain(PromptKind::CommitMessage), &mut session), Ok("hello".to_string()));

    let replies = vec![];
    let mut session = Session::replay(&replies);
    assert_eq!(
        prompt_input(Message::plain(PromptKind::CommitMessage), &mut session),
        Err(Step::Ask(Request::Input(Message::plain(PromptKind::CommitMessage))))
    );
}

#[test]
fn empty_input_is_a_validation_failure_of_the_given_kind() {
    let replies = vec![text("")];
    let mut session = Session::replay(&replies);
    assert_eq!(
        prompt_non_empty_input(Message::plain(PromptKind::RemoteUrlToAdd), FailureKind::EmptyRemoteUrl, &mut session),
        Err(rejected(FailureKind::EmptyRemoteUrl, &[]))
    );
    let replies = vec![text(" ")];
    let mut session = Session::replay(&replies);
    assert_eq!(
        prompt_non_empty_input(Message::plain(PromptKind::RemoteUrlToAdd), FailureKind::EmptyRemoteUrl, &mut session),
        Ok(" ".to_string())
    );
}

#[test]
fn a_failing_terminal_ends_the_workflow() {
    let replies = vec![Reply::Failed(io_fault())];
    let mut session = Session::replay(&replies);
    assert_eq!(
        prompt_confirm(Message::plain(PromptKind::PullAfterPush), &mut session),
        Err(Step::Settled(WorkflowOutcome::Fail(WorkflowError::Io("broken pipe".to_string()))))
    );
}

#[test]
fn selection_hands_back_the_value_of_the_pick() {
    let options = vec![
        SelectOption { display: "a (local)".to_string(), value: "a".to_string() },
        SelectOption { display: "b (origin)".to_string(), value: "origin/b".to_string() },
    ];
    let prompt = || Message::plain(PromptKind::SwitchTarget);
    let pick = |reply: Reply| {
        let replies = vec![reply];
        let mut session = Session::replay(&replies);
        prompt_fuzzy_select(prompt(), &options, &mut session).map(|value| value.cloned())
    };
    assert_eq!(pick(Reply::Choice(Some(1))), Ok(Some("origin/b".to_string())));
    assert_eq!(pick(Reply::Choice(Some(0))), Ok(Some("a".to_string())));
    assert_eq!(pick(Reply::Choice(None)), Ok(None));
    assert_eq!(pick(Reply::Choice(Some(2))), Err(Step::Settled(WorkflowOutcome::Fail(WorkflowError::Protocol))));
    assert_eq!(pick(Reply::Done), Err(Step::Settled(WorkflowOutcome::Fail(WorkflowError::Protocol))));

    let replies = vec![];
    let mut session = Session::replay(&replies);
    assert_eq!(
        prompt_fuzzy_select(prompt(), &options, &mut session).map(|value| value.cloned()),
        Err(Step::Ask(Request::FuzzySelect(
            prompt(),
            vec!["a (local)".to_string(), "b (origin)".to_string()]
        )))
    );
}

#[test]
fn selection_works_for_values_of_any_kind() {
    let options = vec![
        SelectOption { display: "one".to_string(), value: 1u32 },
        SelectOption { display: "two".to_string(), value: 2u32 },
    ];
    let replies = vec![Reply::Choice(Some(1))];
    let mut session = Session::replay(&replies);
    assert_eq!(
        prompt_fuzzy_select(Message::plain(PromptKind::RepoAction), &options, &mut session),
        Ok(Some(&2u32))
    );
}

#[test]
fn options_come_from_both_listings() {
    let replies = vec![text("* main"), text("* main\n  remotes/origin/main\n  remotes/origin/dev")];
    let mut session = Session::replay(&replies);
    let options = get_branch_select_options_for_fuzzy(&mut session).unwrap();
    let values: Vec<&str> = options.iter().map(|o| o.value.as_str()).collect();
    assert_eq!(values, vec!["origin/dev", "main", "origin/main"]);

    let replies = vec![text("* main")];
    let mut session = Session::replay(&replies);
    assert_eq!(
        get_branch_select_options_for_fuzzy(&mut session),
        Err(Step::Ask(Request::Run(GitCommand::branch_list_all_str())))
    );
}

#[test]
fn the_current_branch_is_empty_when_detached() {
    let replies = vec![text("HEAD")];
    let mut session = Session::replay(&replies);
    assert_eq!(get_current_branch_name(&mut session), Ok(String::new()));
    let replies = vec![text("feature/x")];
    let mut session = Session::replay(&replies);
    assert_eq!(get_current_branch_name(&mut session), Ok("feature/x".to_string()));
}

#[test]
fn a_missing_remote_is_left_to_the_caller() {
    let replies = vec![Reply::Failed(io_fault())];
    let mut session = Session::replay(&replies);
    let attempt = get_origin_url(&mut session).unwrap();
    assert_eq!(attempt, Attempt::Failed(io_fault()));
    assert_eq!(unwrap_or_default(attempt), "");
    assert_eq!(unwrap_or_default(Attempt::Succeeded("u".to_string())), "u");
}

#[test]
fn existence_checks_reject_with_the_role_and_the_name() {
    let replies = vec![Reply::Flag(false)];
    let mut session = Session::replay(&replies);
    assert_eq!(
        ensure_branch_exists("gone", &mut session, "source"),
        Err(rejected(FailureKind::BranchNotFound, &["source", "gone"]))
    );
    let mut session = Session::replay(&replies);
    assert_eq!(ensure_branch_not_exists("gone", &mut session, "branch"), Ok(()));

    let replies = vec![Reply::Flag(true)];
    let mut session = Session::replay(&replies);
    assert_eq!(ensure_branch_exists("here", &mut session, "source"), Ok(()));
    let mut session = Session::replay(&replies);
    assert_eq!(
        ensure_branch_not_exists("here", &mut session, "branch"),
        Err(rejected(FailureKind::AlreadyExists, &["branch", "here"]))
    );
}

#[test]
fn a_branch_line_shows_how_the_branch_stands() {
    let line = |replies: Vec<Reply>, is_current: bool, dirty: bool, url: &str| {
        let mut session = Session::replay(&replies);
        get_branch_display_info("dev", is_current, dirty, url, &mut session)
    };
    // in step with the remote
    assert_eq!(
        line(vec![text("c1"), Reply::Flag(true), text("c1")], false, false, "url"),
        Ok(Message::about2(NoticeKind::SyncedBranch, "dev", ""))
    );
    // behind the remote
    assert_eq!(
        line(vec![text("c1"), Reply::Flag(true), text("c2"), text("c1")], false, true, "url"),
        Ok(Message::about2(NoticeKind::UnsyncedBranch, "dev", "needs pull"))
    );
    // diverged, and checked out with changes
    assert_eq!(
        line(vec![text("c1"), Reply::Flag(true), text("c2"), text("c0")], true, true, "url"),
        Ok(Message::about2(NoticeKind::CurrentBranchDirty, "dev", "diverged"))
    );
    // without a remote nothing but the commit is asked for
    assert_eq!(
        line(vec![text("c1")], true, false, ""),
        Ok(Message::about2(NoticeKind::CurrentBranch, "dev", ""))
    );
    // a branch without a commit is not classified
    assert_eq!(
        line(vec![text("")], false, false, "url"),
        Ok(Message::about2(NoticeKind::UnsyncedBranch, "dev", ""))
    );
    assert_eq!(
        line(vec![], false, false, "url"),
        Err(Step::Ask(Request::Run(GitCommand::rev_parse_commit_id("dev"))))
    );
}

fn pull_on(replies: Vec<Reply>) -> (Result<(), Step>, usize) {
    let mut session = Session::replay(&replies);
    let r = prompt_and_execute_pull("origin", "dev", &mut session);
    (r, session.at)
}

#[test]
fn pull_is_offered_only_with_a_remote() {
    assert_eq!(pull_on(vec![]).0, Err(Step::Ask(Request::Run(GitCommand::remote_get_url("origin")))));
    assert_eq!(pull_on(vec![text("")]), (Ok(()), 1));
    assert_eq!(pull_on(vec![Reply::Failed(io_fault())]), (Ok(()), 1));
    assert_eq!(
        pull_on(vec![text("url")]).0,
        Err(Step::Ask(Request::Confirm(Message::about2(PromptKind::PullFromRemote, "dev", "origin"))))
    );
}

#[test]
fn pull_reports_how_it_went_and_never_fails() {
    assert_eq!(
        pull_on(vec![text("url"), Reply::Flag(false)]).0,
        Err(Step::Ask(Request::Say(Message::plain(NoticeKind::PullSkipped))))
    );
    assert_eq!(pull_on(vec![text("url"), Reply::Flag(false), Reply::Done]), (Ok(()), 3));
    assert_eq!(
        pull_on(vec![text("url"), Reply::Flag(true), Reply::Done]).0,
        Err(Step::Ask(Request::Run(GitCommand::pull("origin", "dev"))))
    );
    assert_eq!(
        pull_on(vec![text("url"), Reply::Flag(true), Reply::Done, Reply::Flag(true)]).0,
        Err(Step::Ask(Request::Say(Message::plain(NoticeKind::PullSucceeded))))
    );
    assert_eq!(
        pull_on(vec![text("url"), Reply::Flag(true), Reply::Done, Reply::Flag(false)]).0,
        Err(Step::Ask(Request::Say(Message::plain(NoticeKind::PullFailedResolveManually))))
    );
    let spawn = Fault::Command(CommandError::SpawnFailed {
        operation: GitOperation::Pull,
        reason: "git: not found".to_string(),
    });
    assert_eq!(
        pull_on(vec![text("url"), Reply::Flag(true), Reply::Done, Reply::Failed(spawn.clone())]).0,
        Err(Step::Ask(Request::Say(Message::about(NoticeKind::PullErrored, "git: not found"))))
    );
    assert_eq!(
        pull_on(vec![text("url"), Reply::Flag(true), Reply::Done, Reply::Failed(spawn), Reply::Done]),
        (Ok(()), 5)
    );
}
