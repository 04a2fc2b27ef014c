//! The workflows: save, list, switch, merge, copy, delete, create, tree.
//!
//! Each is a procedure on a [`Session`]: run on the replies recorded so
//! far it comes through when it is complete, and otherwise halts with the
//! next request or with its outcome.

use vstd::prelude::*;
use crate::dialogue::{aborted, agrees, expect_done, expect_flag, expect_text, say, Flow, Reply, Session, Step};
use crate::git::{current_branch, git};
use crate::messages::{about, about2, plain, FailureKind, Message, NoticeKind, PromptKind};
use crate::recovery::{
    branch_entity, conflict_recovery, handle_conflict_and_offer_new_branch, prompt_and_push_optional, push_optional,
};
use crate::runner::GitOperation;
use crate::steps::{
    branch_is_new, confirm, ensure_branch_not_exists, fuzzy_select, get_branch_select_options_for_fuzzy,
    get_current_branch_name, get_origin_url, non_empty_input, origin, origin_url, prompt_confirm,
    prompt_fuzzy_select, prompt_non_empty_input, select_options, unwrap_or_default, url_or_empty,
};

verus! {

/// The arguments of `save`; it takes none.
#[derive(Clone, Copy, Debug, PartialEq, Eq, Default)]
pub struct SaveArgs {}

/// The arguments of `branch`; it takes none.
#[derive(Clone, Copy, Debug, PartialEq, Eq, Default)]
pub struct BranchArgs {}

/// The arguments of `switch`; it takes none.
#[derive(Clone, Copy, Debug, PartialEq, Eq, Default)]
pub struct SwitchArgs {}

/// The arguments of `merge`; it takes none.
#[derive(Clone, Copy, Debug, PartialEq, Eq, Default)]
pub struct MergeArgs {}

/// The arguments of `copy`; it takes none.
#[derive(Clone, Copy, Debug, PartialEq, Eq, Default)]
pub struct CopyArgs {}

/// The arguments of `delete`; it takes none.
#[derive(Clone, Copy, Debug, PartialEq, Eq, Default)]
pub struct DeleteArgs {}

/// The arguments of `create`; it takes none.
#[derive(Clone, Copy, Debug, PartialEq, Eq, Default)]
pub struct CreateArgs {}

/// The arguments of `tree`; it takes none.
#[derive(Clone, Copy, Debug, PartialEq, Eq, Default)]
pub struct TreeArgs {}

/// What `save` calls a pull in its messages.
pub open spec fn pull_operation() -> Seq<char> {
    "pull"@
}

/// What `merge` calls itself in its messages.
pub open spec fn merge_operation() -> Seq<char> {
    "merge"@
}

/// The end of `save`.
pub open spec fn save_finish(replies: Seq<Reply>, at: int) -> Flow<()> {
    say(replies, at, plain(NoticeKind::SaveFinished))
}

/// `save` after the push: the user may pull; a pull that fails leads to
/// conflict recovery.
pub open spec fn save_pull(replies: Seq<Reply>, at: int, branch: Seq<char>) -> Flow<()> {
    match confirm(replies, at, plain(PromptKind::PullAfterPush)) {
        Flow::Halt(s) => Flow::Halt(s),
        Flow::Next(false, p) => save_finish(replies, p),
        Flow::Next(true, p) => match expect_flag(replies, p, git(GitOperation::Pull, seq![origin(), branch])) {
            Flow::Halt(s) => Flow::Halt(s),
            Flow::Next(true, q) => match say(replies, q, plain(NoticeKind::PullSucceeded)) {
                Flow::Halt(s) => Flow::Halt(s),
                Flow::Next(_, u) => save_finish(replies, u),
            },
            Flow::Next(false, q) => match conflict_recovery(replies, q, pull_operation()) {
                Flow::Halt(s) => Flow::Halt(s),
                Flow::Next(_, u) => save_finish(replies, u),
            },
        },
    }
}

/// `save` with a remote configured: the user may push the branch with
/// upstream tracking.
pub open spec fn save_push(replies: Seq<Reply>, at: int, branch: Seq<char>) -> Flow<()> {
    match confirm(replies, at, about(PromptKind::PushToRemote, branch)) {
        Flow::Halt(s) => Flow::Halt(s),
        Flow::Next(false, p) => match say(replies, p, plain(NoticeKind::PushSkipped)) {
            Flow::Halt(s) => Flow::Halt(s),
            Flow::Next(_, q) => save_finish(replies, q),
        },
        Flow::Next(true, p) => match expect_done(replies, p, git(GitOperation::PushUpstream, seq![origin(), branch])) {
            Flow::Halt(s) => Flow::Halt(s),
            Flow::Next(_, q) => match say(replies, q, about(NoticeKind::PushedToRemote, branch)) {
                Flow::Halt(s) => Flow::Halt(s),
                Flow::Next(_, u) => save_pull(replies, u, branch),
            },
        },
    }
}

/// `save` after the commit: without a current branch the push is skipped;
/// without a remote it is skipped too.
pub open spec fn save_publish(replies: Seq<Reply>, at: int) -> Flow<()> {
    match current_branch(replies, at) {
        Flow::Halt(s) => Flow::Halt(s),
        Flow::Next(branch, p) => if branch.len() == 0 {
            say(replies, p, plain(NoticeKind::CurrentBranchUnknown))
        } else {
            match origin_url(replies, p) {
                Flow::Halt(s) => Flow::Halt(s),
                Flow::Next(attempt, q) => if url_or_empty(attempt).len() > 0 {
                    save_push(replies, q, branch)
                } else {
                    match say(replies, q, plain(NoticeKind::RemoteUnavailable)) {
                        Flow::Halt(s) => Flow::Halt(s),
                        Flow::Next(_, u) => save_finish(replies, u),
                    }
                },
            }
        },
    }
}

/// `save`: everything is staged, a commit message is asked for and must
/// not be empty, and the commit is made; then the result may be pushed
/// and pulled.
pub open spec fn save(replies: Seq<Reply>, at: int) -> Flow<()> {
    match expect_done(replies, at, git(GitOperation::Add, seq!["."@])) {
        Flow::Halt(s) => Flow::Halt(s),
        Flow::Next(_, p) => match non_empty_input(
            replies,
            p,
            plain(PromptKind::CommitMessage),
            FailureKind::EmptyCommitMessage,
        ) {
            Flow::Halt(s) => Flow::Halt(s),
            Flow::Next(message, q) => match expect_done(replies, q, git(GitOperation::Commit, seq![message])) {
                Flow::Halt(s) => Flow::Halt(s),
                Flow::Next(_, u) => match say(replies, u, plain(NoticeKind::CommittedLocally)) {
                    Flow::Halt(s) => Flow::Halt(s),
                    Flow::Next(_, v) => save_publish(replies, v),
                },
            },
        },
    }
}

/// What `create` calls itself when it offers the push.
pub open spec fn create_verb() -> Seq<char> {
    "create"@
}

/// What `copy` calls itself when it offers the push.
pub open spec fn copy_verb() -> Seq<char> {
    "copy"@
}

/// `create`: a name is asked for, must not be empty and must not exist;
/// the branch is created and may be pushed.
pub open spec fn create(replies: Seq<Reply>, at: int) -> Flow<()> {
    match non_empty_input(replies, at, plain(PromptKind::NewBranchName), FailureKind::EmptyBranchName) {
        Flow::Halt(s) => Flow::Halt(s),
        Flow::Next(name, p) => match branch_is_new(replies, p, name, branch_entity()) {
            Flow::Halt(s) => Flow::Halt(s),
            Flow::Next(_, q) => match expect_done(replies, q, git(GitOperation::BranchCreate, seq![name])) {
                Flow::Halt(s) => Flow::Halt(s),
                Flow::Next(_, u) => match say(replies, u, about(NoticeKind::CreatedLocalBranch, name)) {
                    Flow::Halt(s) => Flow::Halt(s),
                    Flow::Next(_, v) => push_optional(replies, v, name, create_verb(), true),
                },
            },
        },
    }
}

/// `tree`: the commit graph is asked for and shown.
pub open spec fn tree(replies: Seq<Reply>, at: int) -> Flow<()> {
    match expect_text(replies, at, git(GitOperation::ShowBranchTree, Seq::empty())) {
        Flow::Halt(s) => Flow::Halt(s),
        Flow::Next(output, p) => say(replies, p, about(NoticeKind::Output, output)),
    }
}

/// `copy` once the source is picked: a new name is asked for, must not be
/// empty and must not exist; the branch is created at the tip of the
/// source and may be pushed.
pub open spec fn copy_from(replies: Seq<Reply>, at: int, source: Seq<char>) -> Flow<()> {
    match non_empty_input(replies, at, plain(PromptKind::NewBranchName), FailureKind::EmptyBranchName) {
        Flow::Halt(s) => Flow::Halt(s),
        Flow::Next(name, p) => match branch_is_new(replies, p, name, branch_entity()) {
            Flow::Halt(s) => Flow::Halt(s),
            Flow::Next(_, q) => match expect_done(replies, q, git(GitOperation::BranchCreateFrom, seq![name, source])) {
                Flow::Halt(s) => Flow::Halt(s),
                Flow::Next(_, u) => match say(replies, u, about2(NoticeKind::CopiedBranch, name, source)) {
                    Flow::Halt(s) => Flow::Halt(s),
                    Flow::Next(_, v) => push_optional(replies, v, name, copy_verb(), true),
                },
            },
        },
    }
}

/// Saying why nothing happens and ending the workflow without error.
pub open spec fn abort_with<T>(replies: Seq<Reply>, at: int, notice: NoticeKind) -> Flow<T> {
    match say(replies, at, plain(notice)) {
        Flow::Halt(s) => Flow::Halt(s),
        Flow::Next(_, _) => Flow::Halt(aborted()),
    }
}

/// `copy`: the user picks the source among the branches there are. With
/// no branch to pick, or no pick, the workflow ends without error.
pub open spec fn copy(replies: Seq<Reply>, at: int) -> Flow<()> {
    match select_options(replies, at) {
        Flow::Halt(s) => Flow::Halt(s),
        Flow::Next(options, p) => if options.len() == 0 {
            abort_with(replies, p, NoticeKind::NothingToCopy)
        } else {
            match fuzzy_select(replies, p, plain(PromptKind::CopySource), options) {
                Flow::Halt(s) => Flow::Halt(s),
                Flow::Next(None, q) => abort_with(replies, q, NoticeKind::SelectionCancelled),
                Flow::Next(Some(source), q) => copy_from(replies, q, source),
            }
        },
    }
}

/// Says why nothing happens and ends the workflow without error.
pub fn abort_after(notice: NoticeKind, session: &mut Session) -> (r: Result<(), Step>)
    ensures
        agrees(*old(session), *final(session), r, abort_with::<()>(old(session).log(), old(session).pos(), notice)),
{
    session.say(Message::plain(notice))?;
    Err(Step::aborted())
}

/// Records the changes in a commit and offers to push and to pull.
pub fn git_save(_args: SaveArgs, session: &mut Session) -> (r: Result<(), Step>)
    ensures
        agrees(*old(session), *final(session), r, save(old(session).log(), old(session).pos())),
{
    session.add(".")?;
    let msg = prompt_non_empty_input(
        Message::plain(PromptKind::CommitMessage),
        FailureKind::EmptyCommitMessage,
        session,
    )?;
    session.commit(msg.as_str())?;
    session.say(Message::plain(NoticeKind::CommittedLocally))?;
    let current_branch = get_current_branch_name(session)?;
    if current_branch.as_str().unicode_len() == 0 {
        session.say(Message::plain(NoticeKind::CurrentBranchUnknown))?;
        return Ok(());
    }
    let remote_url = unwrap_or_default(get_origin_url(session)?);
    if remote_url.as_str().unicode_len() > 0 {
        if prompt_confirm(Message::about(PromptKind::PushToRemote, current_branch.as_str()), session)? {
            session.push_u("origin", current_branch.as_str())?;
            session.say(Message::about(NoticeKind::PushedToRemote, current_branch.as_str()))?;
            if prompt_confirm(Message::plain(PromptKind::PullAfterPush), session)? {
                if session.pull("origin", current_branch.as_str())? {
                    session.say(Message::plain(NoticeKind::PullSucceeded))?;
                } else {
                    handle_conflict_and_offer_new_branch("pull", session)?;
                }
            }
        } else {
            session.say(Message::plain(NoticeKind::PushSkipped))?;
        }
    } else {
        session.say(Message::plain(NoticeKind::RemoteUnavailable))?;
    }
    session.say(Message::plain(NoticeKind::SaveFinished))?;
    Ok(())
}

/// Creates a local branch under a new name and offers to push it.
pub fn git_create(_args: CreateArgs, session: &mut Session) -> (r: Result<(), Step>)
    ensures
        agrees(*old(session), *final(session), r, create(old(session).log(), old(session).pos())),
{
    let name = prompt_non_empty_input(
        Message::plain(PromptKind::NewBranchName),
        FailureKind::EmptyBranchName,
        session,
    )?;
    ensure_branch_not_exists(name.as_str(), session, "branch")?;
    session.branch_create_local(name.as_str())?;
    session.say(Message::about(NoticeKind::CreatedLocalBranch, name.as_str()))?;
    prompt_and_push_optional(name.as_str(), "create", session, true)
}

/// Shows the commit graph of the branches.
pub fn git_tree(_args: TreeArgs, session: &mut Session) -> (r: Result<(), Step>)
    ensures
        agrees(*old(session), *final(session), r, tree(old(session).log(), old(session).pos())),
{
    let output = session.show_branch_tree()?;
    session.say(Message::about(NoticeKind::Output, output.as_str()))
}

/// Copies a branch that the user picks to a new local branch and offers
/// to push it.
pub fn git_copy(_args: CopyArgs, session: &mut Session) -> (r: Result<(), Step>)
    ensures
        agrees(*old(session), *final(session), r, copy(old(session).log(), old(session).pos())),
{
    let source_options = get_branch_select_options_for_fuzzy(session)?;
    if source_options.len() == 0 {
        return abort_after(NoticeKind::NothingToCopy, session);
    }
    let source = match prompt_fuzzy_select(Message::plain(PromptKind::CopySource), &source_options, session)? {
        Some(selection) => selection.clone(),
        None => {
            return abort_after(NoticeKind::SelectionCancelled, session);
        },
    };
    let new_name = prompt_non_empty_input(
        Message::plain(PromptKind::NewBranchName),
        FailureKind::EmptyBranchName,
        session,
    )?;
    ensure_branch_not_exists(new_name.as_str(), session, "branch")?;
    session.branch_create_local_from(new_name.as_str(), source.as_str())?;
    session.say(Message::about2(NoticeKind::CopiedBranch, new_name.as_str(), source.as_str()))?;
    prompt_and_push_optional(new_name.as_str(), "copy", session, true)
}

} // verus!
