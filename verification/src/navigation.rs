//! The workflows that move between branches: switch and merge. Both
//! change the working tree, so both start with the guard against losing
//! uncommitted changes.

use vstd::prelude::*;
use crate::branch::{
    has_remote_prefix, is_remote_name, remote_tracking, remote_tracking_name, resolution, resolve_branch_input,
    ResolvedBranchInfo, ResolvedBranchView,
};
use crate::dialogue::{aborted, agrees, expect_done, expect_flag, rejected, say, Flow, Reply, Session, Step};
use crate::git::{current_branch, git};
use crate::messages::{about, about2, plain, FailureKind, Message, NoticeKind, PromptKind};
use crate::options::{BranchOption, SelectOption};
use crate::recovery::{
    conflict_recovery, handle_conflict_and_offer_new_branch, handle_uncommitted_changes_before_action,
    uncommitted_guard,
};
use crate::runner::GitOperation;
use crate::steps::{
    branch_exists, confirm, ensure_branch_exists, fuzzy_select, get_branch_select_options_for_fuzzy,
    get_current_branch_name, prompt_confirm, prompt_fuzzy_select, select_options,
};
use crate::text::same;
use crate::workflows::{abort_after, abort_with, merge_operation, MergeArgs, SwitchArgs};

verus! {

/// The guard before `action`: the workflow goes on only where the guard
/// lets it, and ends without error where it does not.
pub open spec fn guarded(replies: Seq<Reply>, at: int, action: Seq<char>) -> Flow<()> {
    match uncommitted_guard(replies, at, action) {
        Flow::Halt(s) => Flow::Halt(s),
        Flow::Next(true, p) => Flow::Next((), p),
        Flow::Next(false, _) => Flow::Halt(aborted()),
    }
}

/// `switch` once the pick is resolved: a pick that is an existing local
/// branch is checked out; else, if its remote-tracking branch exists, the
/// user may have a local branch made from it and checked out; else the
/// pick is not found.
pub open spec fn switch_to(replies: Seq<Reply>, at: int, target: Seq<char>, resolved: ResolvedBranchView) -> Flow<()> {
    let local = resolved.local_candidate_name;
    let remote = resolved.remote_tracking_candidate_name;
    if resolved.local_exists && local == target {
        match expect_done(replies, at, git(GitOperation::Checkout, seq![local])) {
            Flow::Halt(s) => Flow::Halt(s),
            Flow::Next(_, p) => say(replies, p, about(NoticeKind::SwitchedTo, local)),
        }
    } else if resolved.remote_tracking_exists {
        match confirm(replies, at, about2(PromptKind::CreateFromRemote, local, remote)) {
            Flow::Halt(s) => Flow::Halt(s),
            Flow::Next(false, p) => abort_with(replies, p, NoticeKind::OperationCancelled),
            Flow::Next(true, p) => match expect_done(replies, p, git(GitOperation::Checkout, seq![local])) {
                Flow::Halt(s) => Flow::Halt(s),
                Flow::Next(_, q) => say(replies, q, about2(NoticeKind::CreatedAndSwitched, local, remote)),
            },
        }
    } else {
        Flow::Halt(rejected(about(FailureKind::NoSuchBranch, target)))
    }
}

/// What `switch` calls itself in the guard's messages.
pub open spec fn switch_action() -> Seq<char> {
    "switch"@
}

/// `switch`: after the guard, the user picks among the local and the
/// remote-tracking branches, and the pick is resolved and switched to.
pub open spec fn switch(replies: Seq<Reply>, at: int) -> Flow<()> {
    match guarded(replies, at, switch_action()) {
        Flow::Halt(s) => Flow::Halt(s),
        Flow::Next(_, p) => match select_options(replies, p) {
            Flow::Halt(s) => Flow::Halt(s),
            Flow::Next(options, q) => match fuzzy_select(replies, q, plain(PromptKind::SwitchTarget), options) {
                Flow::Halt(s) => Flow::Halt(s),
                Flow::Next(None, u) => abort_with(replies, u, NoticeKind::SelectionCancelled),
                Flow::Next(Some(target), u) => match resolution(replies, u, target) {
                    Flow::Halt(s) => Flow::Halt(s),
                    Flow::Next(resolved, v) => switch_to(replies, v, target, resolved),
                },
            },
        },
    }
}

/// Whether `option` may be merged into `current`: it is neither the
/// current branch nor its remote-tracking counterpart.
pub open spec fn mergeable(option: BranchOption, current: Seq<char>) -> bool {
    option.value != current && option.value != remote_tracking_name(current)
}

/// The options that may be merged into `current`, in their order.
pub open spec fn merge_candidates(options: Seq<BranchOption>, current: Seq<char>) -> Seq<BranchOption>
    decreases options.len(),
{
    if options.len() == 0 {
        options
    } else if mergeable(options.last(), current) {
        merge_candidates(options.drop_last(), current).push(options.last())
    } else {
        merge_candidates(options.drop_last(), current)
    }
}

/// `merge` after it succeeded: a remote-tracking branch is only reported
/// as merged; for a local branch the user may have it deleted.
pub open spec fn merged(replies: Seq<Reply>, at: int, target: Seq<char>) -> Flow<()> {
    match say(replies, at, plain(NoticeKind::MergeSucceeded)) {
        Flow::Halt(s) => Flow::Halt(s),
        Flow::Next(_, p) => if is_remote_name(target) {
            say(replies, p, about(NoticeKind::MergedRemoteBranch, target))
        } else {
            match confirm(replies, p, about(PromptKind::DeleteMergedBranch, target)) {
                Flow::Halt(s) => Flow::Halt(s),
                Flow::Next(false, q) => Flow::Next((), q),
                Flow::Next(true, q) => match expect_done(replies, q, git(GitOperation::BranchDelete, seq![target])) {
                    Flow::Halt(s) => Flow::Halt(s),
                    Flow::Next(_, u) => say(replies, u, about(NoticeKind::DeletedLocalBranch, target)),
                },
            }
        },
    }
}

/// `merge` once the source is picked: it must exist; the merge is tried,
/// and where it fails, conflict recovery takes over.
pub open spec fn merge_from(replies: Seq<Reply>, at: int, target: Seq<char>) -> Flow<()> {
    match branch_exists(replies, at, target, ""@) {
        Flow::Halt(s) => Flow::Halt(s),
        Flow::Next(_, p) => match expect_flag(replies, p, git(GitOperation::Merge, seq![target])) {
            Flow::Halt(s) => Flow::Halt(s),
            Flow::Next(true, q) => merged(replies, q, target),
            Flow::Next(false, q) => conflict_recovery(replies, q, merge_operation()),
        },
    }
}

/// `merge` once the current branch is known: the user picks the source
/// among the branches other than the current one and its counterpart.
pub open spec fn merge_into(replies: Seq<Reply>, at: int, current: Seq<char>) -> Flow<()> {
    match select_options(replies, at) {
        Flow::Halt(s) => Flow::Halt(s),
        Flow::Next(options, p) => {
            let candidates = merge_candidates(options, current);
            if candidates.len() == 0 {
                abort_with(replies, p, NoticeKind::NothingToMerge)
            } else {
                match fuzzy_select(replies, p, about(PromptKind::MergeSource, current), candidates) {
                    Flow::Halt(s) => Flow::Halt(s),
                    Flow::Next(None, q) => abort_with(replies, q, NoticeKind::SelectionCancelled),
                    Flow::Next(Some(target), q) => merge_from(replies, q, target),
                }
            }
        },
    }
}

/// `merge`: after the guard, the current branch is asked for; without
/// one the workflow fails.
pub open spec fn merge(replies: Seq<Reply>, at: int) -> Flow<()> {
    match guarded(replies, at, merge_operation()) {
        Flow::Halt(s) => Flow::Halt(s),
        Flow::Next(_, p) => match current_branch(replies, p) {
            Flow::Halt(s) => Flow::Halt(s),
            Flow::Next(current, q) => if current.len() == 0 {
                Flow::Halt(rejected(plain(FailureKind::CurrentBranchUnknown)))
            } else {
                merge_into(replies, q, current)
            },
        },
    }
}

/// Runs the guard before `action_name` and ends the workflow without
/// error where the guard does not let it go on.
pub fn pass_guard(action_name: &str, session: &mut Session) -> (r: Result<(), Step>)
    ensures
        agrees(*old(session), *final(session), r, guarded(old(session).log(), old(session).pos(), action_name@)),
{
    if handle_uncommitted_changes_before_action(action_name, session)? {
        Ok(())
    } else {
        Err(Step::aborted())
    }
}

/// Switches to the branch that `target_input` resolved to.
pub fn switch_to_resolved(target_input: &str, resolved: &ResolvedBranchInfo, session: &mut Session) -> (r: Result<
    (),
    Step,
>)
    ensures
        agrees(
            *old(session),
            *final(session),
            r,
            switch_to(old(session).log(), old(session).pos(), target_input@, resolved.deep_view()),
        ),
{
    let local = resolved.local_candidate_name.as_str();
    let remote = resolved.remote_tracking_candidate_name.as_str();
    if resolved.local_exists && same(local, target_input) {
        session.checkout(local)?;
        session.say(Message::about(NoticeKind::SwitchedTo, local))
    } else if resolved.remote_tracking_exists {
        if prompt_confirm(Message::about2(PromptKind::CreateFromRemote, local, remote), session)? {
            session.checkout(local)?;
            session.say(Message::about2(NoticeKind::CreatedAndSwitched, local, remote))
        } else {
            abort_after(NoticeKind::OperationCancelled, session)
        }
    } else {
        Err(Step::rejected(Message::about(FailureKind::NoSuchBranch, target_input)))
    }
}

/// Switches to a branch that the user picks, making a local branch from
/// the remote-tracking one where only that exists.
pub fn git_switch(_args: SwitchArgs, session: &mut Session) -> (r: Result<(), Step>)
    ensures
        agrees(*old(session), *final(session), r, switch(old(session).log(), old(session).pos())),
{
    pass_guard("switch", session)?;
    let branch_options = get_branch_select_options_for_fuzzy(session)?;
    let target_input = match prompt_fuzzy_select(Message::plain(PromptKind::SwitchTarget), &branch_options, session)? {
        Some(selection) => selection.clone(),
        None => {
            return abort_after(NoticeKind::SelectionCancelled, session);
        },
    };
    let resolved = resolve_branch_input(target_input.as_str(), session)?;
    switch_to_resolved(target_input.as_str(), &resolved, session)
}

/// The options that may be merged into `current`, in their order.
pub fn merge_options(options: &Vec<SelectOption<String>>, current: &str) -> (r: Vec<SelectOption<String>>)
    ensures
        r.deep_view() == merge_candidates(options.deep_view(), current@),
{
    let counterpart = remote_tracking(current);
    let mut r: Vec<SelectOption<String>> = Vec::new();
    let mut i: usize = 0;
    assert(r.deep_view() =~= merge_candidates(options.deep_view().take(0), current@));
    while i < options.len()
        invariant
            i <= options.len(),
            counterpart@ == remote_tracking_name(current@),
            r.deep_view() == merge_candidates(options.deep_view().take(i as int), current@),
        decreases options.len() - i,
    {
        let ghost before = r.deep_view();
        proof {
            let next = options.deep_view().take(i + 1);
            assert(next.drop_last() =~= options.deep_view().take(i as int));
            assert(next.last() == options[i as int].deep_view());
        }
        let value = options[i].value.as_str();
        if !same(value, current) && !same(value, counterpart.as_str()) {
            let o = SelectOption { display: options[i].display.clone(), value: options[i].value.clone() };
            r.push(o);
            assert(r.deep_view() =~= before.push(o.deep_view()));
        }
        i = i + 1;
    }
    assert(options.deep_view().take(i as int) =~= options.deep_view());
    r
}

/// Finishes a merge of `target` that succeeded.
pub fn after_merge(target: &str, session: &mut Session) -> (r: Result<(), Step>)
    ensures
        agrees(*old(session), *final(session), r, merged(old(session).log(), old(session).pos(), target@)),
{
    session.say(Message::plain(NoticeKind::MergeSucceeded))?;
    if has_remote_prefix(target) {
        session.say(Message::about(NoticeKind::MergedRemoteBranch, target))
    } else if prompt_confirm(Message::about(PromptKind::DeleteMergedBranch, target), session)? {
        session.branch_delete_local_d(target)?;
        session.say(Message::about(NoticeKind::DeletedLocalBranch, target))
    } else {
        Ok(())
    }
}

/// Merges a branch that the user picks into the current one.
pub fn git_merge(_args: MergeArgs, session: &mut Session) -> (r: Result<(), Step>)
    ensures
        agrees(*old(session), *final(session), r, merge(old(session).log(), old(session).pos())),
{
    pass_guard("merge", session)?;
    let cur_b = get_current_branch_name(session)?;
    if cur_b.as_str().unicode_len() == 0 {
        return Err(Step::rejected(Message::plain(FailureKind::CurrentBranchUnknown)));
    }
    let all_options = get_branch_select_options_for_fuzzy(session)?;
    let branch_options = merge_options(&all_options, cur_b.as_str());
    if branch_options.len() == 0 {
        return abort_after(NoticeKind::NothingToMerge, session);
    }
    let target = match prompt_fuzzy_select(
        Message::about(PromptKind::MergeSource, cur_b.as_str()),
        &branch_options,
        session,
    )? {
        Some(selection) => selection.clone(),
        None => {
            return abort_after(NoticeKind::SelectionCancelled, session);
        },
    };
    ensure_branch_exists(target.as_str(), session, "")?;
    if session.merge(target.as_str())? {
        after_merge(target.as_str(), session)
    } else {
        handle_conflict_and_offer_new_branch("merge", session)
    }
}

} // verus!
