//! The delete workflow. It never deletes the branch that is checked out.

use vstd::prelude::*;
use crate::branch::{resolution, resolve_branch_input, ResolvedBranchInfo, ResolvedBranchView};
use crate::dialogue::{
    agrees, expect_done, rejected, say, Flow, Reply, RequestView, Session, Step, StepView,
};
use crate::git::{current_branch, git};
use crate::messages::{about, plain, FailureKind, Message, NoticeKind, PromptKind};
use crate::runner::{arguments, GitOperation};
use crate::steps::{
    confirm, fuzzy_select, get_branch_select_options_for_fuzzy, get_current_branch_name, get_origin_url, origin,
    origin_url, prompt_confirm, prompt_fuzzy_select, select_options, unwrap_or_default, url_or_empty,
};
use crate::text::same;
use crate::workflows::{abort_after, abort_with, DeleteArgs};

verus! {

/// The local half of `delete`: whether the local branch was deleted.
/// There is nothing to do where it does not exist. The branch that is
/// checked out is refused before anything is asked or run. Otherwise the
/// user decides.
pub open spec fn delete_local(replies: Seq<Reply>, at: int, resolved: ResolvedBranchView, current: Seq<char>) -> Flow<
    bool,
> {
    let local = resolved.local_candidate_name;
    if !resolved.local_exists {
        Flow::Next(false, at)
    } else if current == local {
        Flow::Halt(rejected(about(FailureKind::CannotDeleteCurrentBranch, local)))
    } else {
        match confirm(replies, at, about(PromptKind::DeleteLocalBranch, local)) {
            Flow::Halt(s) => Flow::Halt(s),
            Flow::Next(false, p) => Flow::Next(false, p),
            Flow::Next(true, p) => match expect_done(replies, p, git(GitOperation::BranchDelete, seq![local])) {
                Flow::Halt(s) => Flow::Halt(s),
                Flow::Next(_, q) => match say(replies, q, about(NoticeKind::DeletedLocalBranch, local)) {
                    Flow::Halt(s) => Flow::Halt(s),
                    Flow::Next(_, u) => Flow::Next(true, u),
                },
            },
        }
    }
}

/// The remote half of `delete`: whether the deletion on the remote was
/// asked for. There is nothing to do where the remote-tracking branch
/// does not exist or no remote is configured. Otherwise the user decides.
pub open spec fn delete_remote(replies: Seq<Reply>, at: int, resolved: ResolvedBranchView, remote_url: Seq<char>) -> Flow<
    bool,
> {
    let local = resolved.local_candidate_name;
    let remote = resolved.remote_tracking_candidate_name;
    if !(resolved.remote_tracking_exists && remote_url.len() > 0) {
        Flow::Next(false, at)
    } else {
        match confirm(replies, at, about(PromptKind::DeleteRemoteBranch, remote)) {
            Flow::Halt(s) => Flow::Halt(s),
            Flow::Next(false, p) => Flow::Next(false, p),
            Flow::Next(true, p) => match expect_done(replies, p, git(GitOperation::PushDelete, seq![origin(), local])) {
                Flow::Halt(s) => Flow::Halt(s),
                Flow::Next(_, q) => match say(replies, q, about(NoticeKind::RemoteDeletionRequested, remote)) {
                    Flow::Halt(s) => Flow::Halt(s),
                    Flow::Next(_, u) => Flow::Next(true, u),
                },
            },
        }
    }
}

/// `delete` once the pick is resolved and the current branch and the
/// remote's address are known: the local and the remote deletion are
/// offered one after the other, each with its own confirmation. Where
/// neither took place that is said, and it is a failure only where the
/// pick is neither a local nor a remote-tracking branch.
pub open spec fn delete_resolved(
    replies: Seq<Reply>,
    at: int,
    target: Seq<char>,
    resolved: ResolvedBranchView,
    current: Seq<char>,
    remote_url: Seq<char>,
) -> Flow<()> {
    match delete_local(replies, at, resolved, current) {
        Flow::Halt(s) => Flow::Halt(s),
        Flow::Next(local_done, p) => match delete_remote(replies, p, resolved, remote_url) {
            Flow::Halt(s) => Flow::Halt(s),
            Flow::Next(remote_done, q) => if local_done || remote_done {
                Flow::Next((), q)
            } else {
                match say(replies, q, plain(NoticeKind::NoDeletionPerformed)) {
                    Flow::Halt(s) => Flow::Halt(s),
                    Flow::Next(_, u) => if !resolved.local_exists && !resolved.remote_tracking_exists {
                        Flow::Halt(rejected(about(FailureKind::SelectedBranchVanished, target)))
                    } else {
                        Flow::Next((), u)
                    },
                }
            },
        },
    }
}

/// `delete` once a branch is picked: the pick is resolved, and the
/// current branch and the remote's address are asked for.
pub open spec fn delete_picked(replies: Seq<Reply>, at: int, target: Seq<char>) -> Flow<()> {
    match resolution(replies, at, target) {
        Flow::Halt(s) => Flow::Halt(s),
        Flow::Next(resolved, p) => match current_branch(replies, p) {
            Flow::Halt(s) => Flow::Halt(s),
            Flow::Next(current, q) => match origin_url(replies, q) {
                Flow::Halt(s) => Flow::Halt(s),
                Flow::Next(attempt, u) => delete_resolved(
                    replies,
                    u,
                    target,
                    resolved,
                    current,
                    url_or_empty(attempt),
                ),
            },
        },
    }
}

/// `delete`: the user picks among the branches there are. With no branch
/// to pick, or no pick, the workflow ends without error.
pub open spec fn delete(replies: Seq<Reply>, at: int) -> Flow<()> {
    match select_options(replies, at) {
        Flow::Halt(s) => Flow::Halt(s),
        Flow::Next(options, p) => if options.len() == 0 {
            abort_with(replies, p, NoticeKind::NothingToDelete)
        } else {
            match fuzzy_select(replies, p, plain(PromptKind::DeleteTarget), options) {
                Flow::Halt(s) => Flow::Halt(s),
                Flow::Next(None, q) => abort_with(replies, q, NoticeKind::SelectionCancelled),
                Flow::Next(Some(target), q) => delete_picked(replies, q, target),
            }
        },
    }
}

/// Offers to delete the local branch that the pick resolved to.
pub fn delete_local_branch(resolved: &ResolvedBranchInfo, current_branch_name: &str, session: &mut Session) -> (r:
    Result<bool, Step>)
    ensures
        agrees(
            *old(session),
            *final(session),
            r,
            delete_local(old(session).log(), old(session).pos(), resolved.deep_view(), current_branch_name@),
        ),
{
    let local = resolved.local_candidate_name.as_str();
    if !resolved.local_exists {
        return Ok(false);
    }
    if same(current_branch_name, local) {
        return Err(Step::rejected(Message::about(FailureKind::CannotDeleteCurrentBranch, local)));
    }
    if prompt_confirm(Message::about(PromptKind::DeleteLocalBranch, local), session)? {
        session.branch_delete_local_d(local)?;
        session.say(Message::about(NoticeKind::DeletedLocalBranch, local))?;
        Ok(true)
    } else {
        Ok(false)
    }
}

/// Offers to delete, on the remote, the branch that the pick resolved to.
pub fn delete_remote_branch(resolved: &ResolvedBranchInfo, remote_url: &str, session: &mut Session) -> (r: Result<
    bool,
    Step,
>)
    ensures
        agrees(
            *old(session),
            *final(session),
            r,
            delete_remote(old(session).log(), old(session).pos(), resolved.deep_view(), remote_url@),
        ),
{
    let local = resolved.local_candidate_name.as_str();
    let remote = resolved.remote_tracking_candidate_name.as_str();
    if !(resolved.remote_tracking_exists && remote_url.unicode_len() > 0) {
        return Ok(false);
    }
    if prompt_confirm(Message::about(PromptKind::DeleteRemoteBranch, remote), session)? {
        session.push_delete("origin", local)?;
        session.say(Message::about(NoticeKind::RemoteDeletionRequested, remote))?;
        Ok(true)
    } else {
        Ok(false)
    }
}

/// Offers the deletions that the resolved pick allows, given the branch
/// that is checked out and the address of the remote.
pub fn delete_resolved_branch(
    target_input: &str,
    resolved: &ResolvedBranchInfo,
    current_branch_name: &str,
    remote_url: &str,
    session: &mut Session,
) -> (r: Result<(), Step>)
    ensures
        agrees(
            *old(session),
            *final(session),
            r,
            delete_resolved(
                old(session).log(),
                old(session).pos(),
                target_input@,
                resolved.deep_view(),
                current_branch_name@,
                remote_url@,
            ),
        ),
{
    let local_done = delete_local_branch(resolved, current_branch_name, session)?;
    let remote_done = delete_remote_branch(resolved, remote_url, session)?;
    if !(local_done || remote_done) {
        session.say(Message::plain(NoticeKind::NoDeletionPerformed))?;
        if !resolved.local_exists && !resolved.remote_tracking_exists {
            return Err(Step::rejected(Message::about(FailureKind::SelectedBranchVanished, target_input)));
        }
    }
    Ok(())
}

/// Deletes a branch that the user picks, locally and on the remote, each
/// after its own confirmation.
pub fn git_delete(_args: DeleteArgs, session: &mut Session) -> (r: Result<(), Step>)
    ensures
        agrees(*old(session), *final(session), r, delete(old(session).log(), old(session).pos())),
{
    let branch_options = get_branch_select_options_for_fuzzy(session)?;
    if branch_options.len() == 0 {
        return abort_after(NoticeKind::NothingToDelete, session);
    }
    let target_input = match prompt_fuzzy_select(Message::plain(PromptKind::DeleteTarget), &branch_options, session)? {
        Some(selection) => selection.clone(),
        None => {
            return abort_after(NoticeKind::SelectionCancelled, session);
        },
    };
    let resolved = resolve_branch_input(target_input.as_str(), session)?;
    let current_branch_name = get_current_branch_name(session)?;
    let remote_url = unwrap_or_default(get_origin_url(session)?);
    delete_resolved_branch(
        target_input.as_str(),
        &resolved,
        current_branch_name.as_str(),
        remote_url.as_str(),
        session,
    )
}

/// Where the pick resolves to the local branch that is checked out, the
/// deletion ends at once with a validation failure: whatever replies
/// are recorded, nothing is asked of the user and nothing is run.
pub proof fn lemma_checked_out_branch_is_refused(
    replies: Seq<Reply>,
    at: int,
    target: Seq<char>,
    resolved: ResolvedBranchView,
    current: Seq<char>,
    remote_url: Seq<char>,
)
    requires
        resolved.local_exists,
        current == resolved.local_candidate_name,
    ensures
        delete_resolved(replies, at, target, resolved, current, remote_url) == Flow::<()>::Halt(
            rejected(about(FailureKind::CannotDeleteCurrentBranch, current)),
        ),
{
}

/// Whenever the deletion asks to delete a local branch, that branch is
/// the one that the pick resolved to, it exists, and it is not the branch
/// that is checked out.
pub proof fn lemma_only_other_branches_are_deleted(
    replies: Seq<Reply>,
    at: int,
    target: Seq<char>,
    resolved: ResolvedBranchView,
    current: Seq<char>,
    remote_url: Seq<char>,
)
    ensures
        match delete_resolved(replies, at, target, resolved, current, remote_url) {
            Flow::Halt(StepView::Ask(RequestView::Run(inv))) => inv.operation == GitOperation::BranchDelete ==> {
                &&& inv.args == arguments(GitOperation::BranchDelete, seq![resolved.local_candidate_name])
                &&& resolved.local_exists
                &&& resolved.local_candidate_name != current
            },
            _ => true,
        },
{
}

/// From the pick on, whatever replies are recorded: when the workflow
/// asks to delete a local branch, the pick has been resolved and the
/// current branch has been asked for, and the branch to delete is the
/// local branch that the pick resolved to, which exists and is not the one
/// checked out.
pub proof fn lemma_delete_spares_the_checked_out_branch(replies: Seq<Reply>, at: int, target: Seq<char>)
    ensures
        match delete_picked(replies, at, target) {
            Flow::Halt(StepView::Ask(RequestView::Run(inv))) => inv.operation == GitOperation::BranchDelete ==> {
                &&& resolution(replies, at, target) matches Flow::Next(resolved, p)
                &&& current_branch(replies, p) matches Flow::Next(current, _)
                &&& inv.args == arguments(GitOperation::BranchDelete, seq![resolved.local_candidate_name])
                &&& resolved.local_exists
                &&& resolved.local_candidate_name != current
            },
            _ => true,
        },
{
    match resolution(replies, at, target) {
        Flow::Next(resolved, p) => match current_branch(replies, p) {
            Flow::Next(current, q) => match origin_url(replies, q) {
                Flow::Next(attempt, u) => {
                    lemma_only_other_branches_are_deleted(replies, u, target, resolved, current, url_or_empty(attempt));
                },
                Flow::Halt(_) => {},
            },
            Flow::Halt(_) => {},
        },
        Flow::Halt(_) => {},
    }
}

/// The delete workflow as a whole, whatever replies are recorded: when
/// it asks to delete a local branch, the user has picked a branch, the
/// pick has been resolved and the current branch has been asked for, and
/// the branch to delete is the local branch that the pick resolved to,
/// which exists and is not the one checked out.
pub proof fn lemma_delete_never_removes_the_checked_out_branch(replies: Seq<Reply>, at: int)
    ensures
        match delete(replies, at) {
            Flow::Halt(StepView::Ask(RequestView::Run(inv))) => inv.operation == GitOperation::BranchDelete ==> {
                &&& select_options(replies, at) matches Flow::Next(options, p)
                &&& fuzzy_select(replies, p, plain(PromptKind::DeleteTarget), options) matches Flow::Next(
                    Some(target),
                    q,
                )
                &&& resolution(replies, q, target) matches Flow::Next(resolved, u)
                &&& current_branch(replies, u) matches Flow::Next(current, _)
                &&& inv.args == arguments(GitOperation::BranchDelete, seq![resolved.local_candidate_name])
                &&& resolved.local_exists
                &&& resolved.local_candidate_name != current
            },
            _ => true,
        },
{
    match select_options(replies, at) {
        Flow::Next(options, p) => {
            if options.len() > 0 {
                match fuzzy_select(replies, p, plain(PromptKind::DeleteTarget), options) {
                    Flow::Next(Some(target), q) => {
                        lemma_delete_spares_the_checked_out_branch(replies, q, target);
                    },
                    _ => {},
                }
            }
        },
        Flow::Halt(_) => {},
    }
}

} // verus!
