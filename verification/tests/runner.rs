use my_git_helper::dialogue::{Fault, Reply};
use my_git_helper::runner::{CommandError, GitCommand, GitInvocation, GitOperation, ProcessOutput, RunMode};

fn words(inv: &GitInvocation) -> Vec<&str> {
    inv.args.iter().map(|a| a.as_str()).collect()
}

fn output(code: Option<i32>, stdout: &str, stderr: &str) -> Result<ProcessOutput, String> {
    Ok(ProcessOutput { code, stdout: stdout.to_string(), stderr: stderr.to_string() })
}

#[test]
fn captured_success_hands_back_trimmed_output() {
    let r = GitCommand::execute_git_command_internal(
        GitOperation::RevParseCommitId,
        true,
        output(Some(0), "  0123abc\n", "warning: ignored\n"),
    );
    assert_eq!(r, Ok("0123abc".to_string()));
    assert_eq!(
        GitCommand::run_stdout(GitOperation::StatusPorcelain, output(Some(0), "\n \t\n", "")),
        Ok(String::new())
    );
}

#[test]
fn interactive_success_hands_back_nothing() {
    let r = GitCommand::execute_git_command_internal(GitOperation::Commit, false, output(Some(0), "text", ""));
    assert_eq!(r, Ok(String::new()));
    assert_eq!(GitCommand::run_interactive(GitOperation::Commit, output(Some(0), "text", "")), Ok(()));
}

#[test]
fn non_zero_exit_is_an_error_with_code_and_streams() {
    let r = GitCommand::execute_git_command_internal(
        GitOperation::BranchListAll,
        true,
        output(Some(128), " partial \n", "fatal: not a git repository\n"),
    );
    assert_eq!(
        r,
        Err(CommandError::NonZeroExit {
            operation: GitOperation::BranchListAll,
            code: 128,
            stderr: "fatal: not a git repository".to_string(),
            stdout: "partial".to_string(),
        })
    );
    // standard output counts only where it was captured
    let r = GitCommand::execute_git_command_internal(GitOperation::Commit, false, output(Some(1), "noise", "  "));
    assert_eq!(
        r,
        Err(CommandError::NonZeroExit {
            operation: GitOperation::Commit,
            code: 1,
            stderr: String::new(),
            stdout: String::new(),
        })
    );
}

#[test]
fn a_process_ended_by_a_signal_has_code_minus_one() {
    let r = GitCommand::run_interactive(GitOperation::PushUpstream, output(None, "", "killed"));
    assert_eq!(
        r,
        Err(CommandError::NonZeroExit {
            operation: GitOperation::PushUpstream,
            code: -1,
            stderr: "killed".to_string(),
            stdout: String::new(),
        })
    );
}

#[test]
fn a_process_that_cannot_start_is_spawn_failed_in_every_mode() {
    let spawn = |operation| CommandError::SpawnFailed { operation, reason: "not found".to_string() };
    assert_eq!(
        GitCommand::run_stdout(GitOperation::MergeBase, Err("not found".to_string())),
        Err(spawn(GitOperation::MergeBase))
    );
    assert_eq!(
        GitCommand::run_interactive(GitOperation::Init, Err("not found".to_string())),
        Err(spawn(GitOperation::Init))
    );
    assert_eq!(
        GitCommand::run_check_exit_code_zero(GitOperation::Merge, Err("not found".to_string())),
        Err(spawn(GitOperation::Merge))
    );
}

#[test]
fn exit_code_only_never_reports_a_non_zero_exit_as_an_error() {
    assert_eq!(GitCommand::run_check_exit_code_zero(GitOperation::Merge, output(Some(0), "", "")), Ok(true));
    assert_eq!(GitCommand::run_check_exit_code_zero(GitOperation::Merge, output(Some(1), "", "CONFLICT")), Ok(false));
    assert_eq!(GitCommand::run_check_exit_code_zero(GitOperation::Pull, output(None, "", "")), Ok(false));
    assert_eq!(
        GitCommand::run_check_exit_code_zero(GitOperation::RevParseVerify, output(Some(128), "", "")),
        Ok(false)
    );
}

#[test]
fn replies_follow_the_mode_of_the_invocation() {
    assert_eq!(
        GitCommand::status_porcelain_v1().reply(output(Some(0), " M a\n", "")),
        Reply::Text("M a".to_string())
    );
    assert_eq!(GitCommand::checkout("dev").reply(output(Some(0), "", "")), Reply::Done);
    assert_eq!(GitCommand::merge("dev").reply(output(Some(1), "", "")), Reply::Flag(false));
    assert_eq!(GitCommand::rev_parse_verify("dev").reply(output(Some(0), "", "")), Reply::Flag(true));
    assert_eq!(
        GitCommand::checkout("dev").reply(output(Some(1), "", "error: pathspec\n")),
        Reply::Failed(Fault::Command(CommandError::NonZeroExit {
            operation: GitOperation::Checkout,
            code: 1,
            stderr: "error: pathspec".to_string(),
            stdout: String::new(),
        }))
    );
    assert_eq!(
        GitCommand::pull("origin", "dev").reply(Err("no git".to_string())),
        Reply::Failed(Fault::Command(CommandError::SpawnFailed {
            operation: GitOperation::Pull,
            reason: "no git".to_string(),
        }))
    );
}

#[test]
fn detached_head_is_no_branch() {
    assert_eq!(GitCommand::branch_from_symbolic_ref("HEAD".to_string()), "");
    assert_eq!(GitCommand::branch_from_symbolic_ref("main".to_string()), "main");
    assert_eq!(GitCommand::branch_from_symbolic_ref("HEADS".to_string()), "HEADS");
    assert_eq!(GitCommand::branch_from_symbolic_ref(String::new()), "");
}

#[test]
fn every_operation_has_its_argument_vector_and_mode() {
    let cases: Vec<(GitInvocation, GitOperation, Vec<&str>, RunMode)> = vec![
        (GitCommand::init(), GitOperation::Init, vec!["init"], RunMode::Interactive),
        (
            GitCommand::remote_add("origin", "u"),
            GitOperation::RemoteAdd,
            vec!["remote", "add", "origin", "u"],
            RunMode::Interactive,
        ),
        (
            GitCommand::remote_set_url("origin", "u"),
            GitOperation::RemoteSetUrl,
            vec!["remote", "set-url", "origin", "u"],
            RunMode::Interactive,
        ),
        (
            GitCommand::remote_remove("origin"),
            GitOperation::RemoteRemove,
            vec!["remote", "remove", "origin"],
            RunMode::Interactive,
        ),
        (
            GitCommand::remote_get_url("origin"),
            GitOperation::RemoteGetUrl,
            vec!["remote", "get-url", "origin"],
            RunMode::Captured,
        ),
        (GitCommand::add("."), GitOperation::Add, vec!["add", "."], RunMode::Interactive),
        (GitCommand::commit("m s g"), GitOperation::Commit, vec!["commit", "-m", "m s g"], RunMode::Interactive),
        (
            GitCommand::push_u("origin", "b"),
            GitOperation::PushUpstream,
            vec!["push", "-u", "origin", "b"],
            RunMode::Interactive,
        ),
        (
            GitCommand::push_delete("origin", "b"),
            GitOperation::PushDelete,
            vec!["push", "origin", "--delete", "b"],
            RunMode::Interactive,
        ),
        (
            GitCommand::branch_list_all_str(),
            GitOperation::BranchListAll,
            vec!["branch", "--all", "--no-color"],
            RunMode::Captured,
        ),
        (
            GitCommand::branch_list_local_str(),
            GitOperation::BranchListLocal,
            vec!["branch", "--no-color"],
            RunMode::Captured,
        ),
        (GitCommand::branch_create_local("n"), GitOperation::BranchCreate, vec!["branch", "n"], RunMode::Interactive),
        (
            GitCommand::branch_create_local_from("n", "s"),
            GitOperation::BranchCreateFrom,
            vec!["branch", "n", "s"],
            RunMode::Interactive,
        ),
        (
            GitCommand::branch_delete_local_d("b"),
            GitOperation::BranchDelete,
            vec!["branch", "-d", "b"],
            RunMode::Interactive,
        ),
        (GitCommand::checkout("b"), GitOperation::Checkout, vec!["checkout", "b"], RunMode::Interactive),
        (GitCommand::checkout_b("b"), GitOperation::CheckoutNew, vec!["checkout", "-b", "b"], RunMode::Interactive),
        (GitCommand::merge("b"), GitOperation::Merge, vec!["merge", "b"], RunMode::ExitCodeOnly),
        (GitCommand::pull("origin", "b"), GitOperation::Pull, vec!["pull", "origin", "b"], RunMode::ExitCodeOnly),
        (
            GitCommand::fetch_prune("origin"),
            GitOperation::FetchPrune,
            vec!["fetch", "origin", "--prune"],
            RunMode::Interactive,
        ),
        (
            GitCommand::symbolic_ref_head(),
            GitOperation::SymbolicRefHead,
            vec!["symbolic-ref", "--short", "-q", "HEAD"],
            RunMode::Captured,
        ),
        (
            GitCommand::rev_parse_verify("r"),
            GitOperation::RevParseVerify,
            vec!["rev-parse", "--verify", "--quiet", "r"],
            RunMode::ExitCodeOnly,
        ),
        (
            GitCommand::rev_parse_commit_id("r"),
            GitOperation::RevParseCommitId,
            vec!["rev-parse", "r"],
            RunMode::Captured,
        ),
        (
            GitCommand::status_porcelain_v1(),
            GitOperation::StatusPorcelain,
            vec!["status", "--porcelain"],
            RunMode::Captured,
        ),
        (
            GitCommand::merge_base("a", "b"),
            GitOperation::MergeBase,
            vec!["merge-base", "a", "b"],
            RunMode::Captured,
        ),
        (
            GitCommand::show_branch_tree(),
            GitOperation::ShowBranchTree,
            vec!["show-branch", "--list", "--topo-order"],
            RunMode::Captured,
        ),
        (GitCommand::reset_head(None), GitOperation::ResetHead, vec!["reset", "HEAD~"], RunMode::Interactive),
        (
            GitCommand::reset_head(Some("--soft")),
            GitOperation::ResetHead,
            vec!["reset", "--soft", "HEAD~"],
            RunMode::Interactive,
        ),
        (
            GitCommand::reset_hard_head(),
            GitOperation::ResetHardHead,
            vec!["reset", "--hard", "HEAD"],
            RunMode::Interactive,
        ),
    ];
    for (inv, operation, expected, mode) in cases {
        assert_eq!(inv.operation, operation);
        assert_eq!(words(&inv), expected, "{:?}", operation);
        assert_eq!(inv.mode, mode, "{:?}", operation);
        assert_eq!(operation.mode(), mode);
        assert!(operation.description().starts_with("git "));
    }
    assert_eq!(GitOperation::Pull.description(), "git pull (check)");
    assert_eq!(GitOperation::BranchCreateFrom.description(), "git branch <name> <source>");
}
