//! The operations of the external tool as steps of a workflow: each asks
//! for one run and hands back what the run brought.

use vstd::prelude::*;
use crate::dialogue::{
    agrees, attempt_done, attempt_flag, attempt_text, expect_done, expect_flag, expect_text, Attempt, Flow, Reply,
    Request, RequestView, Session, Step,
};
use crate::runner::{current_branch_of, invocation, GitCommand, GitOperation};

verus! {

/// The request to run operation `op` on the operands `x`.
pub open spec fn git(op: GitOperation, x: Seq<Seq<char>>) -> RequestView {
    RequestView::Run(invocation(op, x))
}

/// Asking for the current branch: the text that the external tool prints,
/// with `HEAD`, which stands for no branch, turned into the empty text.
pub open spec fn current_branch(replies: Seq<Reply>, at: int) -> Flow<Seq<char>> {
    match expect_text(replies, at, git(GitOperation::SymbolicRefHead, Seq::empty())) {
        Flow::Halt(s) => Flow::Halt(s),
        Flow::Next(t, p) => Flow::Next(current_branch_of(t), p),
    }
}

impl<'a> Session<'a> {
    /// Creates a repository in the current directory.
    pub fn init(&mut self) -> (r: Result<(), Step>)
        ensures
            agrees(
                *old(self),
                *final(self),
                r,
                expect_done(old(self).log(), old(self).pos(), git(GitOperation::Init, Seq::empty())),
            ),
    {
        self.done(Request::Run(GitCommand::init()))
    }

    /// Adds the remote `remote` with address `url`.
    pub fn remote_add(&mut self, remote: &str, url: &str) -> (r: Result<(), Step>)
        ensures
            agrees(
                *old(self),
                *final(self),
                r,
                expect_done(old(self).log(), old(self).pos(), git(GitOperation::RemoteAdd, seq![remote@, url@])),
            ),
    {
        self.done(Request::Run(GitCommand::remote_add(remote, url)))
    }

    /// Changes the address of the remote `remote` to `url`.
    pub fn remote_set_url(&mut self, remote: &str, url: &str) -> (r: Result<(), Step>)
        ensures
            agrees(
                *old(self),
                *final(self),
                r,
                expect_done(old(self).log(), old(self).pos(), git(GitOperation::RemoteSetUrl, seq![remote@, url@])),
            ),
    {
        self.done(Request::Run(GitCommand::remote_set_url(remote, url)))
    }

    /// Removes the remote `remote`.
    pub fn remote_remove(&mut self, remote: &str) -> (r: Result<(), Step>)
        ensures
            agrees(
                *old(self),
                *final(self),
                r,
                expect_done(old(self).log(), old(self).pos(), git(GitOperation::RemoteRemove, seq![remote@])),
            ),
    {
        self.done(Request::Run(GitCommand::remote_remove(remote)))
    }

    /// Asks for the address of the remote `remote`.
    pub fn remote_get_url(&mut self, remote: &str) -> (r: Result<String, Step>)
        ensures
            agrees(
                *old(self),
                *final(self),
                r,
                expect_text(old(self).log(), old(self).pos(), git(GitOperation::RemoteGetUrl, seq![remote@])),
            ),
    {
        self.text(Request::Run(GitCommand::remote_get_url(remote)))
    }

    /// Stages `files`.
    pub fn add(&mut self, files: &str) -> (r: Result<(), Step>)
        ensures
            agrees(
                *old(self),
                *final(self),
                r,
                expect_done(old(self).log(), old(self).pos(), git(GitOperation::Add, seq![files@])),
            ),
    {
        self.done(Request::Run(GitCommand::add(files)))
    }

    /// Commits what is staged with the message `message`.
    pub fn commit(&mut self, message: &str) -> (r: Result<(), Step>)
        ensures
            agrees(
                *old(self),
                *final(self),
                r,
                expect_done(old(self).log(), old(self).pos(), git(GitOperation::Commit, seq![message@])),
            ),
    {
        self.done(Request::Run(GitCommand::commit(message)))
    }

    /// Pushes `branch` to `remote` and sets it as upstream.
    pub fn push_u(&mut self, remote: &str, branch: &str) -> (r: Result<(), Step>)
        ensures
            agrees(
                *old(self),
                *final(self),
                r,
                expect_done(old(self).log(), old(self).pos(), git(GitOperation::PushUpstream, seq![remote@, branch@])),
            ),
    {
        self.done(Request::Run(GitCommand::push_u(remote, branch)))
    }

    /// Deletes `branch` on `remote`.
    pub fn push_delete(&mut self, remote: &str, branch: &str) -> (r: Result<(), Step>)
        ensures
            agrees(
                *old(self),
                *final(self),
                r,
                expect_done(old(self).log(), old(self).pos(), git(GitOperation::PushDelete, seq![remote@, branch@])),
            ),
    {
        self.done(Request::Run(GitCommand::push_delete(remote, branch)))
    }

    /// Lists all branches, remote-tracking ones included.
    pub fn branch_list_all_str(&mut self) -> (r: Result<String, Step>)
        ensures
            agrees(
                *old(self),
                *final(self),
                r,
                expect_text(old(self).log(), old(self).pos(), git(GitOperation::BranchListAll, Seq::empty())),
            ),
    {
        self.text(Request::Run(GitCommand::branch_list_all_str()))
    }

    /// Lists the local branches.
    pub fn branch_list_local_str(&mut self) -> (r: Result<String, Step>)
        ensures
            agrees(
                *old(self),
                *final(self),
                r,
                expect_text(old(self).log(), old(self).pos(), git(GitOperation::BranchListLocal, Seq::empty())),
            ),
    {
        self.text(Request::Run(GitCommand::branch_list_local_str()))
    }

    /// Creates the local branch `name` at the current commit.
    pub fn branch_create_local(&mut self, name: &str) -> (r: Result<(), Step>)
        ensures
            agrees(
                *old(self),
                *final(self),
                r,
                expect_done(old(self).log(), old(self).pos(), git(GitOperation::BranchCreate, seq![name@])),
            ),
    {
        self.done(Request::Run(GitCommand::branch_create_local(name)))
    }

    /// Creates the local branch `name` at the tip of `source`.
    pub fn branch_create_local_from(&mut self, name: &str, source: &str) -> (r: Result<(), Step>)
        ensures
            agrees(
                *old(self),
                *final(self),
                r,
                expect_done(old(self).log(), old(self).pos(), git(GitOperation::BranchCreateFrom, seq![name@, source@])),
            ),
    {
        self.done(Request::Run(GitCommand::branch_create_local_from(name, source)))
    }

    /// Deletes the local branch `branch` if it is merged.
    pub fn branch_delete_local_d(&mut self, branch: &str) -> (r: Result<(), Step>)
        ensures
            agrees(
                *old(self),
                *final(self),
                r,
                expect_done(old(self).log(), old(self).pos(), git(GitOperation::BranchDelete, seq![branch@])),
            ),
    {
        self.done(Request::Run(GitCommand::branch_delete_local_d(branch)))
    }

    /// Switches to `branch`.
    pub fn checkout(&mut self, branch: &str) -> (r: Result<(), Step>)
        ensures
            agrees(
                *old(self),
                *final(self),
                r,
                expect_done(old(self).log(), old(self).pos(), git(GitOperation::Checkout, seq![branch@])),
            ),
    {
        self.done(Request::Run(GitCommand::checkout(branch)))
    }

    /// Creates `branch` from the current state and switches to it.
    pub fn checkout_b(&mut self, branch: &str) -> (r: Result<(), Step>)
        ensures
            agrees(
                *old(self),
                *final(self),
                r,
                expect_done(old(self).log(), old(self).pos(), git(GitOperation::CheckoutNew, seq![branch@])),
            ),
    {
        self.done(Request::Run(GitCommand::checkout_b(branch)))
    }

    /// Merges `branch` into the current branch and tells whether that succeeded.
    pub fn merge(&mut self, branch: &str) -> (r: Result<bool, Step>)
        ensures
            agrees(
                *old(self),
                *final(self),
                r,
                expect_flag(old(self).log(), old(self).pos(), git(GitOperation::Merge, seq![branch@])),
            ),
    {
        self.flag(Request::Run(GitCommand::merge(branch)))
    }

    /// Pulls `branch` from `remote` and tells whether that succeeded.
    pub fn pull(&mut self, remote: &str, branch: &str) -> (r: Result<bool, Step>)
        ensures
            agrees(
                *old(self),
                *final(self),
                r,
                expect_flag(old(self).log(), old(self).pos(), git(GitOperation::Pull, seq![remote@, branch@])),
            ),
    {
        self.flag(Request::Run(GitCommand::pull(remote, branch)))
    }

    /// Fetches from `remote` and drops remote-tracking branches that are gone.
    pub fn fetch_prune(&mut self, remote: &str) -> (r: Result<(), Step>)
        ensures
            agrees(
                *old(self),
                *final(self),
                r,
                expect_done(old(self).log(), old(self).pos(), git(GitOperation::FetchPrune, seq![remote@])),
            ),
    {
        self.done(Request::Run(GitCommand::fetch_prune(remote)))
    }

    /// Tells whether `ref_name` resolves.
    pub fn rev_parse_verify(&mut self, ref_name: &str) -> (r: Result<bool, Step>)
        ensures
            agrees(
                *old(self),
                *final(self),
                r,
                expect_flag(old(self).log(), old(self).pos(), git(GitOperation::RevParseVerify, seq![ref_name@])),
            ),
    {
        self.flag(Request::Run(GitCommand::rev_parse_verify(ref_name)))
    }

    /// Asks for the commit that `ref_name` resolves to.
    pub fn rev_parse_commit_id(&mut self, ref_name: &str) -> (r: Result<String, Step>)
        ensures
            agrees(
                *old(self),
                *final(self),
                r,
                expect_text(old(self).log(), old(self).pos(), git(GitOperation::RevParseCommitId, seq![ref_name@])),
            ),
    {
        self.text(Request::Run(GitCommand::rev_parse_commit_id(ref_name)))
    }

    /// Asks for the state of the working tree; empty when it is clean.
    pub fn status_porcelain_v1(&mut self) -> (r: Result<String, Step>)
        ensures
            agrees(
                *old(self),
                *final(self),
                r,
                expect_text(old(self).log(), old(self).pos(), git(GitOperation::StatusPorcelain, Seq::empty())),
            ),
    {
        self.text(Request::Run(GitCommand::status_porcelain_v1()))
    }

    /// Asks for the best common ancestor of `commit1` and `commit2`.
    pub fn merge_base(&mut self, commit1: &str, commit2: &str) -> (r: Result<String, Step>)
        ensures
            agrees(
                *old(self),
                *final(self),
                r,
                expect_text(old(self).log(), old(self).pos(), git(GitOperation::MergeBase, seq![commit1@, commit2@])),
            ),
    {
        self.text(Request::Run(GitCommand::merge_base(commit1, commit2)))
    }

    /// Renders the commit graph of the branches in topological order.
    pub fn show_branch_tree(&mut self) -> (r: Result<String, Step>)
        ensures
            agrees(
                *old(self),
                *final(self),
                r,
                expect_text(old(self).log(), old(self).pos(), git(GitOperation::ShowBranchTree, Seq::empty())),
            ),
    {
        self.text(Request::Run(GitCommand::show_branch_tree()))
    }

    /// Discards every uncommitted change.
    pub fn reset_hard_head(&mut self) -> (r: Result<(), Step>)
        ensures
            agrees(
                *old(self),
                *final(self),
                r,
                expect_done(old(self).log(), old(self).pos(), git(GitOperation::ResetHardHead, Seq::empty())),
            ),
    {
        self.done(Request::Run(GitCommand::reset_hard_head()))
    }

    /// Asks for the short name of the current branch; it is empty when no
    /// branch is checked out.
    pub fn symbolic_ref_head(&mut self) -> (r: Result<String, Step>)
        ensures
            agrees(*old(self), *final(self), r, current_branch(old(self).log(), old(self).pos())),
    {
        let printed = self.text(Request::Run(GitCommand::symbolic_ref_head()))?;
        Ok(GitCommand::branch_from_symbolic_ref(printed))
    }

    /// Asks for the address of the remote `remote` and leaves a failure to
    /// the caller.
    pub fn try_remote_get_url(&mut self, remote: &str) -> (r: Result<Attempt<String>, Step>)
        ensures
            agrees(
                *old(self),
                *final(self),
                r,
                attempt_text(old(self).log(), old(self).pos(), git(GitOperation::RemoteGetUrl, seq![remote@])),
            ),
    {
        self.attempt_text(Request::Run(GitCommand::remote_get_url(remote)))
    }

    /// Asks for the best common ancestor of `commit1` and `commit2` and
    /// leaves a failure to the caller.
    pub fn try_merge_base(&mut self, commit1: &str, commit2: &str) -> (r: Result<Attempt<String>, Step>)
        ensures
            agrees(
                *old(self),
                *final(self),
                r,
                attempt_text(
                    old(self).log(),
                    old(self).pos(),
                    git(GitOperation::MergeBase, seq![commit1@, commit2@]),
                ),
            ),
    {
        self.attempt_text(Request::Run(GitCommand::merge_base(commit1, commit2)))
    }

    /// Pulls `branch` from `remote` and leaves a failure to the caller.
    pub fn try_pull(&mut self, remote: &str, branch: &str) -> (r: Result<Attempt<bool>, Step>)
        ensures
            agrees(
                *old(self),
                *final(self),
                r,
                attempt_flag(old(self).log(), old(self).pos(), git(GitOperation::Pull, seq![remote@, branch@])),
            ),
    {
        self.attempt_flag(Request::Run(GitCommand::pull(remote, branch)))
    }

    /// Creates a repository in the current directory and leaves a failure
    /// to the caller.
    pub fn try_init(&mut self) -> (r: Result<Attempt<()>, Step>)
        ensures
            agrees(
                *old(self),
                *final(self),
                r,
                attempt_done(old(self).log(), old(self).pos(), git(GitOperation::Init, Seq::empty())),
            ),
    {
        self.attempt_done(Request::Run(GitCommand::init()))
    }
}

} // verus!
