//! The entry of the engine: which workflow a command stands for, the step
//! it has reached on the replies so far, and how a finished run of the
//! external tool becomes a reply.

use vstd::prelude::*;
use crate::deletion::{delete, git_delete};
use crate::dialogue::{
    Fault, FaultView, Flow, Reply, ReplyView, Session, Step, StepView, WorkflowOutcome, WorkflowOutcomeView,
};
use crate::listing::{branch_listing, git_branch};
use crate::navigation::{git_merge, git_switch, merge, switch};
use crate::repo::{handle_repo_command, repo, RepoArgsCli};
use crate::runner::{
    execution_result, succeeded, CommandErrorView, GitCommand, GitInvocation, ProcessOutput, RunMode,
};
use crate::workflows::{
    copy, create, git_copy, git_create, git_save, git_tree, save, tree, BranchArgs, CopyArgs, CreateArgs,
    DeleteArgs, MergeArgs, SaveArgs, SwitchArgs, TreeArgs,
};

verus! {

/// The commands of the tool.
#[derive(Clone, Debug, PartialEq, Eq)]
pub enum Commands {
    /// Record the changes and, if wanted, push and pull.
    Save(SaveArgs),
    /// List the branches with how they stand to the remote.
    Branch(BranchArgs),
    /// Switch to a branch.
    Switch(SwitchArgs),
    /// Merge a branch into the current one.
    Merge(MergeArgs),
    /// Copy a branch to a new local branch.
    Copy(CopyArgs),
    /// Delete a branch, locally and on the remote.
    Delete(DeleteArgs),
    /// Create a local branch.
    Create(CreateArgs),
    /// Show the commit graph.
    Tree(TreeArgs),
    /// Manage the repository and its remote.
    Repo(RepoArgsCli),
}

/// The workflow that `command` stands for.
pub open spec fn workflow(command: Commands, replies: Seq<Reply>, at: int) -> Flow<()> {
    match command {
        Commands::Save(_) => save(replies, at),
        Commands::Branch(_) => branch_listing(replies, at),
        Commands::Switch(_) => switch(replies, at),
        Commands::Merge(_) => merge(replies, at),
        Commands::Copy(_) => copy(replies, at),
        Commands::Delete(_) => delete(replies, at),
        Commands::Create(_) => create(replies, at),
        Commands::Tree(_) => tree(replies, at),
        Commands::Repo(args) => repo(replies, at, args.command),
    }
}

/// The step that a workflow has reached: the one it halts with, or, where
/// it came through, its completion.
pub open spec fn step_of(flow: Flow<()>) -> StepView {
    match flow {
        Flow::Next(_, _) => StepView::Settled(WorkflowOutcomeView::Continue),
        Flow::Halt(s) => s,
    }
}

/// The exit status that goes with an outcome: 0 where the workflow came
/// to its end or was given up without error, 1 where it failed.
pub open spec fn exit_status(outcome: WorkflowOutcomeView) -> i32 {
    match outcome {
        WorkflowOutcomeView::Fail(_) => 1,
        _ => 0,
    }
}

impl GitInvocation {
    /// Turns the outcome of launching this invocation into the reply for
    /// the workflow that asked for it.
    pub fn reply(&self, launched: Result<ProcessOutput, String>) -> (r: Reply)
        ensures
            match self.mode {
                RunMode::Captured => match execution_result(self.operation, true, launched) {
                    Ok(t) => r.deep_view() == ReplyView::Text(t),
                    Err(e) => r.deep_view() == ReplyView::Failed(FaultView::Command(e)),
                },
                RunMode::Interactive => match execution_result(self.operation, false, launched) {
                    Ok(_) => r.deep_view() == ReplyView::Done,
                    Err(e) => r.deep_view() == ReplyView::Failed(FaultView::Command(e)),
                },
                RunMode::ExitCodeOnly => match launched {
                    Ok(out) => r.deep_view() == ReplyView::Flag(succeeded(out.code)),
                    Err(reason) => r.deep_view() == ReplyView::Failed(
                        FaultView::Command(
                            CommandErrorView::SpawnFailed { operation: self.operation, reason: reason@ },
                        ),
                    ),
                },
            },
    {
        match self.mode {
            RunMode::Captured => match GitCommand::run_stdout(self.operation, launched) {
                Ok(t) => Reply::Text(t),
                Err(e) => Reply::Failed(Fault::Command(e)),
            },
            RunMode::Interactive => match GitCommand::run_interactive(self.operation, launched) {
                Ok(_) => Reply::Done,
                Err(e) => Reply::Failed(Fault::Command(e)),
            },
            RunMode::ExitCodeOnly => match GitCommand::run_check_exit_code_zero(self.operation, launched) {
                Ok(b) => Reply::Flag(b),
                Err(e) => Reply::Failed(Fault::Command(e)),
            },
        }
    }
}

impl WorkflowOutcome {
    /// The exit status that goes with this outcome.
    pub fn exit_code(&self) -> (code: i32)
        ensures
            code == exit_status(self.deep_view()),
    {
        match self {
            WorkflowOutcome::Fail(_) => 1,
            _ => 0,
        }
    }
}

/// The step that the workflow of `command` has reached on the replies
/// recorded so far: its next request, or its outcome.
pub fn advance(command: Commands, replies: &Vec<Reply>) -> (step: Step)
    ensures
        step.deep_view() == step_of(workflow(command, replies@, 0)),
{
    let mut session = Session::replay(replies);
    let run = match command {
        Commands::Save(args) => git_save(args, &mut session),
        Commands::Branch(args) => git_branch(args, &mut session),
        Commands::Switch(args) => git_switch(args, &mut session),
        Commands::Merge(args) => git_merge(args, &mut session),
        Commands::Copy(args) => git_copy(args, &mut session),
        Commands::Delete(args) => git_delete(args, &mut session),
        Commands::Create(args) => git_create(args, &mut session),
        Commands::Tree(args) => git_tree(args, &mut session),
        Commands::Repo(args) => handle_repo_command(args, &mut session),
    };
    match run {
        Ok(_) => Step::Settled(WorkflowOutcome::Continue),
        Err(step) => step,
    }
}

} // verus!
