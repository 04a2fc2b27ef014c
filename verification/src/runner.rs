//! The command runner's pure half: which argument vector stands for which
//! operation of the external tool, and what the outcome of a finished
//! process means in each run mode.

use vstd::prelude::*;
use crate::text::{same, texts1, texts2, texts3, texts4, trim, trimmed};

verus! {

/// How the external tool is run for one invocation.
#[derive(Clone, Copy, Debug, PartialEq, Eq, Structural)]
pub enum RunMode {
    /// Standard output is captured and handed back trimmed; a non-zero exit
    /// is an error.
    Captured,
    /// The child inherits the terminal and nothing is captured; a non-zero
    /// exit is an error.
    Interactive,
    /// Both streams are discarded and the answer is whether the exit status
    /// was zero; a non-zero exit is an answer, not an error.
    ExitCodeOnly,
}

/// The operations of the external tool that the workflows use.
#[derive(Clone, Copy, Debug, PartialEq, Eq, Structural)]
pub enum GitOperation {
    Init,
    RemoteAdd,
    RemoteSetUrl,
    RemoteRemove,
    RemoteGetUrl,
    Add,
    Commit,
    PushUpstream,
    PushDelete,
    BranchListAll,
    BranchListLocal,
    BranchCreate,
    BranchCreateFrom,
    BranchDelete,
    Checkout,
    CheckoutNew,
    Merge,
    Pull,
    FetchPrune,
    SymbolicRefHead,
    RevParseVerify,
    RevParseCommitId,
    StatusPorcelain,
    MergeBase,
    ShowBranchTree,
    ResetHead,
    ResetHardHead,
}

/// The run mode that belongs to each operation.
pub open spec fn mode_of(op: GitOperation) -> RunMode {
    match op {
        GitOperation::RemoteGetUrl
        | GitOperation::BranchListAll
        | GitOperation::BranchListLocal
        | GitOperation::SymbolicRefHead
        | GitOperation::RevParseCommitId
        | GitOperation::StatusPorcelain
        | GitOperation::MergeBase
        | GitOperation::ShowBranchTree => RunMode::Captured,
        GitOperation::Merge | GitOperation::Pull | GitOperation::RevParseVerify => RunMode::ExitCodeOnly,
        _ => RunMode::Interactive,
    }
}

/// The argument vector of operation `op` on the operands `x`.
pub open spec fn arguments(op: GitOperation, x: Seq<Seq<char>>) -> Seq<Seq<char>> {
    match op {
        GitOperation::Init => seq!["init"@],
        GitOperation::RemoteAdd => seq!["remote"@, "add"@, x[0], x[1]],
        GitOperation::RemoteSetUrl => seq!["remote"@, "set-url"@, x[0], x[1]],
        GitOperation::RemoteRemove => seq!["remote"@, "remove"@, x[0]],
        GitOperation::RemoteGetUrl => seq!["remote"@, "get-url"@, x[0]],
        GitOperation::Add => seq!["add"@, x[0]],
        GitOperation::Commit => seq!["commit"@, "-m"@, x[0]],
        GitOperation::PushUpstream => seq!["push"@, "-u"@, x[0], x[1]],
        GitOperation::PushDelete => seq!["push"@, x[0], "--delete"@, x[1]],
        GitOperation::BranchListAll => seq!["branch"@, "--all"@, "--no-color"@],
        GitOperation::BranchListLocal => seq!["branch"@, "--no-color"@],
        GitOperation::BranchCreate => seq!["branch"@, x[0]],
        GitOperation::BranchCreateFrom => seq!["branch"@, x[0], x[1]],
        GitOperation::BranchDelete => seq!["branch"@, "-d"@, x[0]],
        GitOperation::Checkout => seq!["checkout"@, x[0]],
        GitOperation::CheckoutNew => seq!["checkout"@, "-b"@, x[0]],
        GitOperation::Merge => seq!["merge"@, x[0]],
        GitOperation::Pull => seq!["pull"@, x[0], x[1]],
        GitOperation::FetchPrune => seq!["fetch"@, x[0], "--prune"@],
        GitOperation::SymbolicRefHead => seq!["symbolic-ref"@, "--short"@, "-q"@, "HEAD"@],
        GitOperation::RevParseVerify => seq!["rev-parse"@, "--verify"@, "--quiet"@, x[0]],
        GitOperation::RevParseCommitId => seq!["rev-parse"@, x[0]],
        GitOperation::StatusPorcelain => seq!["status"@, "--porcelain"@],
        GitOperation::MergeBase => seq!["merge-base"@, x[0], x[1]],
        GitOperation::ShowBranchTree => seq!["show-branch"@, "--list"@, "--topo-order"@],
        GitOperation::ResetHead => if x.len() > 0 {
            seq!["reset"@, x[0], "HEAD~"@]
        } else {
            seq!["reset"@, "HEAD~"@]
        },
        GitOperation::ResetHardHead => seq!["reset"@, "--hard"@, "HEAD"@],
    }
}

/// The short text that names operation `op` in reports.
pub open spec fn description_of(op: GitOperation) -> Seq<char> {
    match op {
        GitOperation::Init => "git init"@,
        GitOperation::RemoteAdd => "git remote add"@,
        GitOperation::RemoteSetUrl => "git remote set-url"@,
        GitOperation::RemoteRemove => "git remote remove"@,
        GitOperation::RemoteGetUrl => "git remote get-url"@,
        GitOperation::Add => "git add"@,
        GitOperation::Commit => "git commit"@,
        GitOperation::PushUpstream => "git push -u"@,
        GitOperation::PushDelete => "git push --delete"@,
        GitOperation::BranchListAll => "git branch --all"@,
        GitOperation::BranchListLocal => "git branch"@,
        GitOperation::BranchCreate => "git branch <name>"@,
        GitOperation::BranchCreateFrom => "git branch <name> <source>"@,
        GitOperation::BranchDelete => "git branch -d"@,
        GitOperation::Checkout => "git checkout"@,
        GitOperation::CheckoutNew => "git checkout -b"@,
        GitOperation::Merge => "git merge"@,
        GitOperation::Pull => "git pull (check)"@,
        GitOperation::FetchPrune => "git fetch --prune"@,
        GitOperation::SymbolicRefHead => "git symbolic-ref --short HEAD"@,
        GitOperation::RevParseVerify => "git rev-parse --verify"@,
        GitOperation::RevParseCommitId => "git rev-parse"@,
        GitOperation::StatusPorcelain => "git status --porcelain"@,
        GitOperation::MergeBase => "git merge-base"@,
        GitOperation::ShowBranchTree => "git show-branch --list --topo-order"@,
        GitOperation::ResetHead => "git reset HEAD~"@,
        GitOperation::ResetHardHead => "git reset --hard HEAD"@,
    }
}

impl GitOperation {
    /// The run mode that belongs to this operation.
    pub fn mode(self) -> (m: RunMode)
        ensures
            m == mode_of(self),
    {
        match self {
            GitOperation::RemoteGetUrl
            | GitOperation::BranchListAll
            | GitOperation::BranchListLocal
            | GitOperation::SymbolicRefHead
            | GitOperation::RevParseCommitId
            | GitOperation::StatusPorcelain
            | GitOperation::MergeBase
            | GitOperation::ShowBranchTree => RunMode::Captured,
            GitOperation::Merge | GitOperation::Pull | GitOperation::RevParseVerify => RunMode::ExitCodeOnly,
            _ => RunMode::Interactive,
        }
    }

    /// The short text that names this operation in reports.
    pub fn description(self) -> (r: &'static str)
        ensures
            r@ == description_of(self),
    {
        match self {
            GitOperation::Init => "git init",
            GitOperation::RemoteAdd => "git remote add",
            GitOperation::RemoteSetUrl => "git remote set-url",
            GitOperation::RemoteRemove => "git remote remove",
            GitOperation::RemoteGetUrl => "git remote get-url",
            GitOperation::Add => "git add",
            GitOperation::Commit => "git commit",
            GitOperation::PushUpstream => "git push -u",
            GitOperation::PushDelete => "git push --delete",
            GitOperation::BranchListAll => "git branch --all",
            GitOperation::BranchListLocal => "git branch",
            GitOperation::BranchCreate => "git branch <name>",
            GitOperation::BranchCreateFrom => "git branch <name> <source>",
            GitOperation::BranchDelete => "git branch -d",
            GitOperation::Checkout => "git checkout",
            GitOperation::CheckoutNew => "git checkout -b",
            GitOperation::Merge => "git merge",
            GitOperation::Pull => "git pull (check)",
            GitOperation::FetchPrune => "git fetch --prune",
            GitOperation::SymbolicRefHead => "git symbolic-ref --short HEAD",
            GitOperation::RevParseVerify => "git rev-parse --verify",
            GitOperation::RevParseCommitId => "git rev-parse",
            GitOperation::StatusPorcelain => "git status --porcelain",
            GitOperation::MergeBase => "git merge-base",
            GitOperation::ShowBranchTree => "git show-branch --list --topo-order",
            GitOperation::ResetHead => "git reset HEAD~",
            GitOperation::ResetHardHead => "git reset --hard HEAD",
        }
    }
}

/// One invocation of the external tool: the operation, its argument vector
/// and the mode it is run in.
#[derive(Clone, Debug, PartialEq, Eq)]
pub struct GitInvocation {
    pub operation: GitOperation,
    pub args: Vec<String>,
    pub mode: RunMode,
}

/// The mathematical content of a [`GitInvocation`].
pub ghost struct GitInvocationView {
    pub operation: GitOperation,
    pub args: Seq<Seq<char>>,
    pub mode: RunMode,
}

impl DeepView for GitInvocation {
    type V = GitInvocationView;

    open spec fn deep_view(&self) -> GitInvocationView {
        GitInvocationView {
            operation: self.operation,
            args: self.args.deep_view(),
            mode: self.mode,
        }
    }
}

/// The invocation that stands for operation `op` on the operands `x`.
pub open spec fn invocation(op: GitOperation, x: Seq<Seq<char>>) -> GitInvocationView {
    GitInvocationView { operation: op, args: arguments(op, x), mode: mode_of(op) }
}

/// What a finished child process left behind. `code` is `None` when the
/// process was ended by a signal.
#[derive(Clone, Debug, PartialEq, Eq)]
pub struct ProcessOutput {
    pub code: Option<i32>,
    pub stdout: String,
    pub stderr: String,
}

/// Why an invocation did not yield its result.
#[derive(Clone, Debug, PartialEq, Eq)]
pub enum CommandError {
    /// The external tool could not be started.
    SpawnFailed { operation: GitOperation, reason: String },
    /// The external tool ran and exited with a status other than zero in a
    /// mode that expects success. `code` is -1 when there was no exit code.
    NonZeroExit { operation: GitOperation, code: i32, stderr: String, stdout: String },
}

/// The mathematical content of a [`CommandError`].
pub ghost enum CommandErrorView {
    SpawnFailed { operation: GitOperation, reason: Seq<char> },
    NonZeroExit { operation: GitOperation, code: i32, stderr: Seq<char>, stdout: Seq<char> },
}

impl DeepView for CommandError {
    type V = CommandErrorView;

    open spec fn deep_view(&self) -> CommandErrorView {
        match self {
            CommandError::SpawnFailed { operation, reason } => CommandErrorView::SpawnFailed {
                operation: *operation,
                reason: reason@,
            },
            CommandError::NonZeroExit { operation, code, stderr, stdout } => CommandErrorView::NonZeroExit {
                operation: *operation,
                code: *code,
                stderr: stderr@,
                stdout: stdout@,
            },
        }
    }
}

/// Whether the process ended with exit status zero.
pub open spec fn succeeded(code: Option<i32>) -> bool {
    code == Some(0i32)
}

/// The failure that a process which ended with `code` amounts to, where
/// success was expected. Standard output counts only where it was captured.
pub open spec fn exit_failure(
    op: GitOperation,
    capture_stdout: bool,
    code: Option<i32>,
    stdout: Seq<char>,
    stderr: Seq<char>,
) -> CommandErrorView {
    CommandErrorView::NonZeroExit {
        operation: op,
        code: match code {
            Some(c) => c,
            None => -1i32,
        },
        stderr: trimmed(stderr),
        stdout: if capture_stdout {
            trimmed(stdout)
        } else {
            Seq::empty()
        },
    }
}

/// What a launch of operation `op` means where success is expected: the
/// trimmed standard output (empty where it was not captured), or the error.
pub open spec fn execution_result(
    op: GitOperation,
    capture_stdout: bool,
    launched: Result<ProcessOutput, String>,
) -> Result<Seq<char>, CommandErrorView> {
    match launched {
        Err(reason) => Err(CommandErrorView::SpawnFailed { operation: op, reason: reason@ }),
        Ok(out) => if succeeded(out.code) {
            Ok(
                if capture_stdout {
                    trimmed(out.stdout@)
                } else {
                    Seq::empty()
                },
            )
        } else {
            Err(exit_failure(op, capture_stdout, out.code, out.stdout@, out.stderr@))
        },
    }
}

/// Whether `r` is the result `expected`, value for value.
pub open spec fn same_result<T: DeepView>(
    r: Result<T, CommandError>,
    expected: Result<T::V, CommandErrorView>,
) -> bool {
    match (r, expected) {
        (Ok(v), Ok(w)) => v.deep_view() == w,
        (Err(e), Err(f)) => e.deep_view() == f,
        _ => false,
    }
}

/// The gateway to the external tool. It builds invocations and reads what
/// a finished process means; it runs nothing itself.
pub struct GitCommand;

impl GitCommand {
    /// Reads the outcome of a launch where success is expected. A process
    /// that could not be started is `SpawnFailed`; one that exited with a
    /// status other than zero is `NonZeroExit`; otherwise the result is the
    /// trimmed standard output, or the empty text where it was not captured.
    pub fn execute_git_command_internal(
        operation: GitOperation,
        capture_stdout: bool,
        launched: Result<ProcessOutput, String>,
    ) -> (r: Result<String, CommandError>)
        ensures
            same_result(r, execution_result(operation, capture_stdout, launched)),
    {
        match launched {
            Ok(output) => {
                let success = match output.code {
                    Some(c) => c == 0,
                    None => false,
                };
                if success {
                    if capture_stdout {
                        Ok(trim(output.stdout.as_str()))
                    } else {
                        Ok(String::new())
                    }
                } else {
                    let code: i32 = match output.code {
                        Some(c) => c,
                        None => -1,
                    };
                    let stdout = if capture_stdout {
                        trim(output.stdout.as_str())
                    } else {
                        String::new()
                    };
                    Err(
                        CommandError::NonZeroExit {
                            operation,
                            code,
                            stderr: trim(output.stderr.as_str()),
                            stdout,
                        },
                    )
                }
            },
            Err(reason) => Err(CommandError::SpawnFailed { operation, reason }),
        }
    }

    /// Reads the outcome of a launch in interactive mode.
    pub fn run_interactive(operation: GitOperation, launched: Result<ProcessOutput, String>) -> (r: Result<
        (),
        CommandError,
    >)
        ensures
            match execution_result(operation, false, launched) {
                Ok(_) => r is Ok,
                Err(e) => r is Err && r->Err_0.deep_view() == e,
            },
    {
        match Self::execute_git_command_internal(operation, false, launched) {
            Ok(_) => Ok(()),
            Err(e) => Err(e),
        }
    }

    /// Reads the outcome of a launch in captured mode.
    pub fn run_stdout(operation: GitOperation, launched: Result<ProcessOutput, String>) -> (r: Result<
        String,
        CommandError,
    >)
        ensures
            same_result(r, execution_result(operation, true, launched)),
    {
        Self::execute_git_command_internal(operation, true, launched)
    }

    /// Reads the outcome of a launch in exit-code-only mode: whether the
    /// exit status was zero. Only a process that could not be started is an
    /// error.
    pub fn run_check_exit_code_zero(operation: GitOperation, launched: Result<ProcessOutput, String>) -> (r:
        Result<bool, CommandError>)
        ensures
            match launched {
                Ok(out) => r == Ok::<bool, CommandError>(succeeded(out.code)),
                Err(reason) => r is Err && r->Err_0.deep_view() == (CommandErrorView::SpawnFailed {
                    operation,
                    reason: reason@,
                }),
            },
    {
        match launched {
            Ok(output) => Ok(
                match output.code {
                    Some(c) => c == 0,
                    None => false,
                },
            ),
            Err(reason) => Err(CommandError::SpawnFailed { operation, reason }),
        }
    }

    /// The current branch as `symbolic-ref` printed it: the text `HEAD`
    /// stands for no branch and becomes the empty text.
    pub fn branch_from_symbolic_ref(output: String) -> (r: String)
        ensures
            r@ == current_branch_of(output@),
    {
        if same(output.as_str(), "HEAD") {
            String::new()
        } else {
            output
        }
    }

    /// Creates a repository in the current directory.
    pub fn init() -> (inv: GitInvocation)
        ensures
            inv.deep_view() == invocation(GitOperation::Init, Seq::empty()),
    {
        GitInvocation {
            operation: GitOperation::Init,
            args: texts1("init"),
            mode: RunMode::Interactive,
        }
    }

    /// Adds the remote `remote` with address `url`.
    pub fn remote_add(remote: &str, url: &str) -> (inv: GitInvocation)
        ensures
            inv.deep_view() == invocation(GitOperation::RemoteAdd, seq![remote@, url@]),
    {
        GitInvocation {
            operation: GitOperation::RemoteAdd,
            args: texts4("remote", "add", remote, url),
            mode: RunMode::Interactive,
        }
    }

    /// Changes the address of the remote `remote` to `url`.
    pub fn remote_set_url(remote: &str, url: &str) -> (inv: GitInvocation)
        ensures
            inv.deep_view() == invocation(GitOperation::RemoteSetUrl, seq![remote@, url@]),
    {
        GitInvocation {
            operation: GitOperation::RemoteSetUrl,
            args: texts4("remote", "set-url", remote, url),
            mode: RunMode::Interactive,
        }
    }

    /// Removes the remote `remote`.
    pub fn remote_remove(remote: &str) -> (inv: GitInvocation)
        ensures
            inv.deep_view() == invocation(GitOperation::RemoteRemove, seq![remote@]),
    {
        GitInvocation {
            operation: GitOperation::RemoteRemove,
            args: texts3("remote", "remove", remote),
            mode: RunMode::Interactive,
        }
    }

    /// Asks for the address of the remote `remote`.
    pub fn remote_get_url(remote: &str) -> (inv: GitInvocation)
        ensures
            inv.deep_view() == invocation(GitOperation::RemoteGetUrl, seq![remote@]),
    {
        GitInvocation {
            operation: GitOperation::RemoteGetUrl,
            args: texts3("remote", "get-url", remote),
            mode: RunMode::Captured,
        }
    }

    /// Stages `files`.
    pub fn add(files: &str) -> (inv: GitInvocation)
        ensures
            inv.deep_view() == invocation(GitOperation::Add, seq![files@]),
    {
        GitInvocation {
            operation: GitOperation::Add,
            args: texts2("add", files),
            mode: RunMode::Interactive,
        }
    }

    /// Commits what is staged with the message `message`.
    pub fn commit(message: &str) -> (inv: GitInvocation)
        ensures
            inv.deep_view() == invocation(GitOperation::Commit, seq![message@]),
    {
        GitInvocation {
            operation: GitOperation::Commit,
            args: texts3("commit", "-m", message),
            mode: RunMode::Interactive,
        }
    }

    /// Pushes `branch` to `remote` and sets it as upstream.
    pub fn push_u(remote: &str, branch: &str) -> (inv: GitInvocation)
        ensures
            inv.deep_view() == invocation(GitOperation::PushUpstream, seq![remote@, branch@]),
    {
        GitInvocation {
            operation: GitOperation::PushUpstream,
            args: texts4("push", "-u", remote, branch),
            mode: RunMode::Interactive,
        }
    }

    /// Deletes `branch` on `remote`.
    pub fn push_delete(remote: &str, branch: &str) -> (inv: GitInvocation)
        ensures
            inv.deep_view() == invocation(GitOperation::PushDelete, seq![remote@, branch@]),
    {
        GitInvocation {
            operation: GitOperation::PushDelete,
            args: texts4("push", remote, "--delete", branch),
            mode: RunMode::Interactive,
        }
    }

    /// Lists all branches, remote-tracking ones included.
    pub fn branch_list_all_str() -> (inv: GitInvocation)
        ensures
            inv.deep_view() == invocation(GitOperation::BranchListAll, Seq::empty()),
    {
        GitInvocation {
            operation: GitOperation::BranchListAll,
            args: texts3("branch", "--all", "--no-color"),
            mode: RunMode::Captured,
        }
    }

    /// Lists the local branches.
    pub fn branch_list_local_str() -> (inv: GitInvocation)
        ensures
            inv.deep_view() == invocation(GitOperation::BranchListLocal, Seq::empty()),
    {
        GitInvocation {
            operation: GitOperation::BranchListLocal,
            args: texts2("branch", "--no-color"),
            mode: RunMode::Captured,
        }
    }

    /// Creates the local branch `name` at the current commit.
    pub fn branch_create_local(name: &str) -> (inv: GitInvocation)
        ensures
            inv.deep_view() == invocation(GitOperation::BranchCreate, seq![name@]),
    {
        GitInvocation {
            operation: GitOperation::BranchCreate,
            args: texts2("branch", name),
            mode: RunMode::Interactive,
        }
    }

    /// Creates the local branch `name` at the tip of `source`.
    pub fn branch_create_local_from(name: &str, source: &str) -> (inv: GitInvocation)
        ensures
            inv.deep_view() == invocation(GitOperation::BranchCreateFrom, seq![name@, source@]),
    {
        GitInvocation {
            operation: GitOperation::BranchCreateFrom,
            args: texts3("branch", name, source),
            mode: RunMode::Interactive,
        }
    }

    /// Deletes the local branch `branch` if it is merged.
    pub fn branch_delete_local_d(branch: &str) -> (inv: GitInvocation)
        ensures
            inv.deep_view() == invocation(GitOperation::BranchDelete, seq![branch@]),
    {
        GitInvocation {
            operation: GitOperation::BranchDelete,
            args: texts3("branch", "-d", branch),
            mode: RunMode::Interactive,
        }
    }

    /// Switches to `branch`.
    pub fn checkout(branch: &str) -> (inv: GitInvocation)
        ensures
            inv.deep_view() == invocation(GitOperation::Checkout, seq![branch@]),
    {
        GitInvocation {
            operation: GitOperation::Checkout,
            args: texts2("checkout", branch),
            mode: RunMode::Interactive,
        }
    }

    /// Creates `branch` from the current state and switches to it.
    pub fn checkout_b(branch: &str) -> (inv: GitInvocation)
        ensures
            inv.deep_view() == invocation(GitOperation::CheckoutNew, seq![branch@]),
    {
        GitInvocation {
            operation: GitOperation::CheckoutNew,
            args: texts3("checkout", "-b", branch),
            mode: RunMode::Interactive,
        }
    }

    /// Merges `branch` into the current branch; the answer is whether it succeeded.
    pub fn merge(branch: &str) -> (inv: GitInvocation)
        ensures
            inv.deep_view() == invocation(GitOperation::Merge, seq![branch@]),
    {
        GitInvocation {
            operation: GitOperation::Merge,
            args: texts2("merge", branch),
            mode: RunMode::ExitCodeOnly,
        }
    }

    /// Pulls `branch` from `remote`; the answer is whether it succeeded.
    pub fn pull(remote: &str, branch: &str) -> (inv: GitInvocation)
        ensures
            inv.deep_view() == invocation(GitOperation::Pull, seq![remote@, branch@]),
    {
        GitInvocation {
            operation: GitOperation::Pull,
            args: texts3("pull", remote, branch),
            mode: RunMode::ExitCodeOnly,
        }
    }

    /// Fetches from `remote` and drops remote-tracking branches that are gone.
    pub fn fetch_prune(remote: &str) -> (inv: GitInvocation)
        ensures
            inv.deep_view() == invocation(GitOperation::FetchPrune, seq![remote@]),
    {
        GitInvocation {
            operation: GitOperation::FetchPrune,
            args: texts3("fetch", remote, "--prune"),
            mode: RunMode::Interactive,
        }
    }

    /// Asks for the short name of the current branch.
    pub fn symbolic_ref_head() -> (inv: GitInvocation)
        ensures
            inv.deep_view() == invocation(GitOperation::SymbolicRefHead, Seq::empty()),
    {
        GitInvocation {
            operation: GitOperation::SymbolicRefHead,
            args: texts4("symbolic-ref", "--short", "-q", "HEAD"),
            mode: RunMode::Captured,
        }
    }

    /// Asks, quietly, whether `ref_name` resolves; the answer is a flag.
    pub fn rev_parse_verify(ref_name: &str) -> (inv: GitInvocation)
        ensures
            inv.deep_view() == invocation(GitOperation::RevParseVerify, seq![ref_name@]),
    {
        GitInvocation {
            operation: GitOperation::RevParseVerify,
            args: texts4("rev-parse", "--verify", "--quiet", ref_name),
            mode: RunMode::ExitCodeOnly,
        }
    }

    /// Asks for the commit that `ref_name` resolves to.
    pub fn rev_parse_commit_id(ref_name: &str) -> (inv: GitInvocation)
        ensures
            inv.deep_view() == invocation(GitOperation::RevParseCommitId, seq![ref_name@]),
    {
        GitInvocation {
            operation: GitOperation::RevParseCommitId,
            args: texts2("rev-parse", ref_name),
            mode: RunMode::Captured,
        }
    }

    /// Asks for the state of the working tree in machine-readable form.
    pub fn status_porcelain_v1() -> (inv: GitInvocation)
        ensures
            inv.deep_view() == invocation(GitOperation::StatusPorcelain, Seq::empty()),
    {
        GitInvocation {
            operation: GitOperation::StatusPorcelain,
            args: texts2("status", "--porcelain"),
            mode: RunMode::Captured,
        }
    }

    /// Asks for the best common ancestor of `commit1` and `commit2`.
    pub fn merge_base(commit1: &str, commit2: &str) -> (inv: GitInvocation)
        ensures
            inv.deep_view() == invocation(GitOperation::MergeBase, seq![commit1@, commit2@]),
    {
        GitInvocation {
            operation: GitOperation::MergeBase,
            args: texts3("merge-base", commit1, commit2),
            mode: RunMode::Captured,
        }
    }

    /// Renders the commit graph of the branches in topological order.
    pub fn show_branch_tree() -> (inv: GitInvocation)
        ensures
            inv.deep_view() == invocation(GitOperation::ShowBranchTree, Seq::empty()),
    {
        GitInvocation {
            operation: GitOperation::ShowBranchTree,
            args: texts3("show-branch", "--list", "--topo-order"),
            mode: RunMode::Captured,
        }
    }

    /// Discards every uncommitted change.
    pub fn reset_hard_head() -> (inv: GitInvocation)
        ensures
            inv.deep_view() == invocation(GitOperation::ResetHardHead, Seq::empty()),
    {
        GitInvocation {
            operation: GitOperation::ResetHardHead,
            args: texts3("reset", "--hard", "HEAD"),
            mode: RunMode::Interactive,
        }
    }

    /// Undoes the last commit, in the given reset mode if there is one.
    pub fn reset_head(mode: Option<&str>) -> (inv: GitInvocation)
        ensures
            inv.deep_view() == invocation(
                GitOperation::ResetHead,
                match mode {
                    Some(m) => seq![m@],
                    None => Seq::empty(),
                },
            ),
    {
        let args = match mode {
            Some(m) => texts3("reset", m, "HEAD~"),
            None => texts2("reset", "HEAD~"),
        };
        GitInvocation { operation: GitOperation::ResetHead, args, mode: RunMode::Interactive }
    }
}

/// The branch that the output of `symbolic-ref` names; empty when detached.
pub open spec fn current_branch_of(output: Seq<char>) -> Seq<char> {
    if output == "HEAD"@ {
        Seq::empty()
    } else {
        output
    }
}

} // verus!
