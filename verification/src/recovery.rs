//! What the workflows do around their core operation: offer to push a new
//! branch, offer to pull, keep the state of a failed merge or pull on a
//! new branch, and deal with uncommitted changes before they could be
//! lost.

use vstd::prelude::*;
use crate::dialogue::{
    agrees, attempt_flag, attempt_text, expect_choice, expect_done, expect_text, failed, rejected, say, Attempt,
    AttemptView, Fault, FaultView, Flow, Reply, Request, RequestView, Session, Step, StepView, WorkflowError,
    WorkflowErrorView,
};
use crate::git::git;
use crate::messages::{about, about2, plain, FailureKind, Message, NoticeKind, PromptKind};
use crate::runner::{CommandError, CommandErrorView, GitOperation};
use crate::steps::{
    branch_is_new, confirm, ensure_branch_not_exists, get_origin_url, non_empty_input, origin, origin_url,
    prompt_confirm, prompt_non_empty_input,
};
use crate::text::texts4;

verus! {

/// What a new name is called in a validation failure.
pub open spec fn branch_entity() -> Seq<char> {
    "branch"@
}

/// Pushing `branch` with upstream tracking, after switching to it where
/// that is asked for, and saying so.
pub open spec fn push_and_track(replies: Seq<Reply>, at: int, branch: Seq<char>, needs_checkout: bool) -> Flow<()> {
    let switched = if needs_checkout {
        expect_done(replies, at, git(GitOperation::Checkout, seq![branch]))
    } else {
        Flow::Next((), at)
    };
    match switched {
        Flow::Halt(s) => Flow::Halt(s),
        Flow::Next(_, p) => match expect_done(replies, p, git(GitOperation::PushUpstream, seq![origin(), branch])) {
            Flow::Halt(s) => Flow::Halt(s),
            Flow::Next(_, q) => say(replies, q, about(NoticeKind::PushedAndTracking, branch)),
        },
    }
}

/// Offering to push the new branch `branch`. Where no remote is
/// configured, or its address cannot be had, nothing is asked and the
/// push is skipped with a notice; else the user decides.
pub open spec fn push_optional(
    replies: Seq<Reply>,
    at: int,
    branch: Seq<char>,
    verb: Seq<char>,
    needs_checkout: bool,
) -> Flow<()> {
    match origin_url(replies, at) {
        Flow::Halt(s) => Flow::Halt(s),
        Flow::Next(AttemptView::Failed(_), p) => say(replies, p, plain(NoticeKind::RemoteLookupFailedPushSkipped)),
        Flow::Next(AttemptView::Succeeded(url), p) => if url.len() == 0 {
            say(replies, p, plain(NoticeKind::RemoteUnsetPushSkipped))
        } else {
            match confirm(replies, p, about2(PromptKind::PushAndTrack, verb, branch)) {
                Flow::Halt(s) => Flow::Halt(s),
                Flow::Next(false, q) => Flow::Next((), q),
                Flow::Next(true, q) => push_and_track(replies, q, branch, needs_checkout),
            }
        },
    }
}

/// The text that says why the driver failed.
pub open spec fn reason_of(f: FaultView) -> Seq<char> {
    match f {
        FaultView::Io(reason) => reason,
        FaultView::Command(CommandErrorView::SpawnFailed { reason, .. }) => reason,
        FaultView::Command(CommandErrorView::NonZeroExit { stderr, .. }) => stderr,
    }
}

/// Pulling `branch` from `remote` and saying how it went. Neither a pull
/// that fails nor one that cannot be run ends the workflow.
pub open spec fn pull_and_report(replies: Seq<Reply>, at: int, remote: Seq<char>, branch: Seq<char>) -> Flow<()> {
    match say(replies, at, plain(NoticeKind::Pulling)) {
        Flow::Halt(s) => Flow::Halt(s),
        Flow::Next(_, p) => match attempt_flag(replies, p, git(GitOperation::Pull, seq![remote, branch])) {
            Flow::Halt(s) => Flow::Halt(s),
            Flow::Next(AttemptView::Succeeded(true), q) => say(replies, q, plain(NoticeKind::PullSucceeded)),
            Flow::Next(AttemptView::Succeeded(false), q) => say(
                replies,
                q,
                plain(NoticeKind::PullFailedResolveManually),
            ),
            Flow::Next(AttemptView::Failed(f), q) => say(replies, q, about(NoticeKind::PullErrored, reason_of(f))),
        },
    }
}

/// Offering to pull `branch` from `remote`. Where the remote has no
/// address, or it cannot be had, nothing is asked and nothing is done.
pub open spec fn pull_optional(replies: Seq<Reply>, at: int, remote: Seq<char>, branch: Seq<char>) -> Flow<()> {
    match attempt_text(replies, at, git(GitOperation::RemoteGetUrl, seq![remote])) {
        Flow::Halt(s) => Flow::Halt(s),
        Flow::Next(AttemptView::Failed(_), p) => Flow::Next((), p),
        Flow::Next(AttemptView::Succeeded(url), p) => if url.len() == 0 {
            Flow::Next((), p)
        } else {
            match confirm(replies, p, about2(PromptKind::PullFromRemote, branch, remote)) {
                Flow::Halt(s) => Flow::Halt(s),
                Flow::Next(false, q) => say(replies, q, plain(NoticeKind::PullSkipped)),
                Flow::Next(true, q) => pull_and_report(replies, q, remote, branch),
            }
        },
    }
}

/// Keeping the current state on a new branch: the name is asked for, must
/// not be empty and must not exist; the branch is created from the
/// current state and switched to.
pub open spec fn salvage(replies: Seq<Reply>, at: int, operation: Seq<char>) -> Flow<()> {
    match non_empty_input(replies, at, plain(PromptKind::NewBranchName), FailureKind::EmptyBranchName) {
        Flow::Halt(s) => Flow::Halt(s),
        Flow::Next(name, p) => match branch_is_new(replies, p, name, branch_entity()) {
            Flow::Halt(s) => Flow::Halt(s),
            Flow::Next(_, q) => match expect_done(replies, q, git(GitOperation::CheckoutNew, seq![name])) {
                Flow::Halt(s) => Flow::Halt(s),
                Flow::Next(_, u) => match say(replies, u, about(NoticeKind::SalvageBranchCreated, name)) {
                    Flow::Halt(s) => Flow::Halt(s),
                    Flow::Next(_, v) => say(replies, v, about(NoticeKind::ResolveAndRetry, operation)),
                },
            },
        },
    }
}

/// Recovery after `operation` failed, possibly on a conflict: the user is
/// warned and offered to keep the state on a new branch. Declining ends
/// the workflow with the failure that tells to resolve by hand.
pub open spec fn conflict_recovery(replies: Seq<Reply>, at: int, operation: Seq<char>) -> Flow<()> {
    match say(replies, at, about(NoticeKind::ConflictWarning, operation)) {
        Flow::Halt(s) => Flow::Halt(s),
        Flow::Next(_, p) => match confirm(replies, p, plain(PromptKind::KeepOnNewBranch)) {
            Flow::Halt(s) => Flow::Halt(s),
            Flow::Next(false, _) => Flow::Halt(rejected(plain(FailureKind::ConflictLeftUnresolved))),
            Flow::Next(true, q) => salvage(replies, q, operation),
        },
    }
}

/// The four ways out of uncommitted changes, as they are offered.
pub open spec fn remedies() -> Seq<Seq<char>> {
    seq![
        "Save: commit the current changes"@,
        "Create: keep the changes on a new branch"@,
        "Reset: discard the current changes (dangerous)"@,
        "Cancel: stop here"@,
    ]
}

/// The request that offers the four ways out, with cancelling preselected.
pub open spec fn remedy_request() -> RequestView {
    RequestView::Select(plain(PromptKind::UncommittedRemedy), remedies(), 3)
}

/// Committing the changes now: a message is asked for and must not be
/// empty; everything is staged and committed. The action may go on.
pub open spec fn remedy_save(replies: Seq<Reply>, at: int) -> Flow<bool> {
    match say(replies, at, plain(NoticeKind::SavingChanges)) {
        Flow::Halt(s) => Flow::Halt(s),
        Flow::Next(_, p) => match non_empty_input(
            replies,
            p,
            plain(PromptKind::CommitMessage),
            FailureKind::EmptyCommitMessage,
        ) {
            Flow::Halt(s) => Flow::Halt(s),
            Flow::Next(message, q) => match expect_done(replies, q, git(GitOperation::Add, seq!["."@])) {
                Flow::Halt(s) => Flow::Halt(s),
                Flow::Next(_, u) => match expect_done(replies, u, git(GitOperation::Commit, seq![message])) {
                    Flow::Halt(s) => Flow::Halt(s),
                    Flow::Next(_, v) => match say(replies, v, plain(NoticeKind::CommittedPushSeparately)) {
                        Flow::Halt(s) => Flow::Halt(s),
                        Flow::Next(_, w) => Flow::Next(true, w),
                    },
                },
            },
        },
    }
}

/// Carrying the changes forward on a new branch: its name is asked for,
/// must not be empty and must not exist; the branch is created. The
/// action does not go on.
pub open spec fn remedy_create(replies: Seq<Reply>, at: int) -> Flow<bool> {
    match say(replies, at, plain(NoticeKind::CarryingChangesForward)) {
        Flow::Halt(s) => Flow::Halt(s),
        Flow::Next(_, p) => match non_empty_input(
            replies,
            p,
            plain(PromptKind::NewBranchName),
            FailureKind::EmptyBranchName,
        ) {
            Flow::Halt(s) => Flow::Halt(s),
            Flow::Next(name, q) => match branch_is_new(replies, q, name, branch_entity()) {
                Flow::Halt(s) => Flow::Halt(s),
                Flow::Next(_, u) => match expect_done(replies, u, git(GitOperation::BranchCreate, seq![name])) {
                    Flow::Halt(s) => Flow::Halt(s),
                    Flow::Next(_, v) => match say(replies, v, about(NoticeKind::ChangesCarriedTo, name)) {
                        Flow::Halt(s) => Flow::Halt(s),
                        Flow::Next(_, w) => Flow::Next(false, w),
                    },
                },
            },
        },
    }
}

/// Discarding the changes: only after a second, explicit confirmation is
/// the working tree reset, and the action may go on; if the user declines,
/// nothing is reset and the action does not go on.
pub open spec fn remedy_reset(replies: Seq<Reply>, at: int) -> Flow<bool> {
    match say(replies, at, plain(NoticeKind::DiscardingChanges)) {
        Flow::Halt(s) => Flow::Halt(s),
        Flow::Next(_, p) => match confirm(replies, p, plain(PromptKind::DiscardChanges)) {
            Flow::Halt(s) => Flow::Halt(s),
            Flow::Next(true, q) => match expect_done(replies, q, git(GitOperation::ResetHardHead, Seq::empty())) {
                Flow::Halt(s) => Flow::Halt(s),
                Flow::Next(_, u) => match say(replies, u, plain(NoticeKind::ChangesDiscarded)) {
                    Flow::Halt(s) => Flow::Halt(s),
                    Flow::Next(_, v) => Flow::Next(true, v),
                },
            },
            Flow::Next(false, q) => match say(replies, q, plain(NoticeKind::DiscardCancelled)) {
                Flow::Halt(s) => Flow::Halt(s),
                Flow::Next(_, u) => Flow::Next(false, u),
            },
        },
    }
}

/// Cancelling: the action does not go on and nothing else happens.
pub open spec fn remedy_cancel(replies: Seq<Reply>, at: int, action: Seq<char>) -> Flow<bool> {
    match say(replies, at, about(NoticeKind::ActionCancelled, action)) {
        Flow::Halt(s) => Flow::Halt(s),
        Flow::Next(_, p) => Flow::Next(false, p),
    }
}

/// What the user's pick among the four ways out leads to. No pick at all
/// is a cancellation; a pick beyond the four breaches the protocol.
pub open spec fn remedy(replies: Seq<Reply>, at: int, action: Seq<char>, pick: Option<usize>) -> Flow<bool> {
    match pick {
        Some(i) => if i == 0 {
            remedy_save(replies, at)
        } else if i == 1 {
            remedy_create(replies, at)
        } else if i == 2 {
            remedy_reset(replies, at)
        } else if i == 3 {
            remedy_cancel(replies, at, action)
        } else {
            Flow::Halt(failed(WorkflowErrorView::Protocol))
        },
        None => remedy_cancel(replies, at, action),
    }
}

/// The guard against losing uncommitted changes before `action`: whether
/// the action may go on. A clean working tree lets it go on at once;
/// otherwise the user is warned and picks one of the four ways out.
pub open spec fn uncommitted_guard(replies: Seq<Reply>, at: int, action: Seq<char>) -> Flow<bool> {
    match expect_text(replies, at, git(GitOperation::StatusPorcelain, Seq::empty())) {
        Flow::Halt(s) => Flow::Halt(s),
        Flow::Next(status, p) => if status.len() == 0 {
            Flow::Next(true, p)
        } else {
            match say(replies, p, about(NoticeKind::UncommittedWarning, action)) {
                Flow::Halt(s) => Flow::Halt(s),
                Flow::Next(_, q) => match expect_choice(replies, q, remedy_request()) {
                    Flow::Halt(s) => Flow::Halt(s),
                    Flow::Next(pick, u) => remedy(replies, u, action, pick),
                },
            }
        },
    }
}

/// Offers to push the branch `branch_name`, which was just made by
/// `operation_verb`, and to track it.
pub fn prompt_and_push_optional(
    branch_name: &str,
    operation_verb: &str,
    session: &mut Session,
    needs_checkout: bool,
) -> (r: Result<(), Step>)
    ensures
        agrees(
            *old(session),
            *final(session),
            r,
            push_optional(old(session).log(), old(session).pos(), branch_name@, operation_verb@, needs_checkout),
        ),
{
    match get_origin_url(session)? {
        Attempt::Succeeded(remote_url) => {
            if remote_url.as_str().unicode_len() == 0 {
                session.say(Message::plain(NoticeKind::RemoteUnsetPushSkipped))?;
            } else {
                let prompt = Message::about2(PromptKind::PushAndTrack, operation_verb, branch_name);
                if prompt_confirm(prompt, session)? {
                    if needs_checkout {
                        session.checkout(branch_name)?;
                    }
                    session.push_u("origin", branch_name)?;
                    session.say(Message::about(NoticeKind::PushedAndTracking, branch_name))?;
                }
            }
        },
        Attempt::Failed(_) => {
            session.say(Message::plain(NoticeKind::RemoteLookupFailedPushSkipped))?;
        },
    }
    Ok(())
}

/// The text that says why the driver failed.
pub fn failure_reason(f: Fault) -> (r: String)
    ensures
        r@ == reason_of(f.deep_view()),
{
    match f {
        Fault::Io(reason) => reason,
        Fault::Command(CommandError::SpawnFailed { reason, .. }) => reason,
        Fault::Command(CommandError::NonZeroExit { stderr, .. }) => stderr,
    }
}

/// Offers to pull `branch` from `remote` and does so if the user agrees.
pub fn prompt_and_execute_pull(remote: &str, branch: &str, session: &mut Session) -> (r: Result<(), Step>)
    ensures
        agrees(
            *old(session),
            *final(session),
            r,
            pull_optional(old(session).log(), old(session).pos(), remote@, branch@),
        ),
{
    match session.try_remote_get_url(remote)? {
        Attempt::Succeeded(remote_url) => {
            if remote_url.as_str().unicode_len() > 0 {
                let prompt = Message::about2(PromptKind::PullFromRemote, branch, remote);
                if prompt_confirm(prompt, session)? {
                    session.say(Message::plain(NoticeKind::Pulling))?;
                    match session.try_pull(remote, branch)? {
                        Attempt::Succeeded(true) => {
                            session.say(Message::plain(NoticeKind::PullSucceeded))?;
                        },
                        Attempt::Succeeded(false) => {
                            session.say(Message::plain(NoticeKind::PullFailedResolveManually))?;
                        },
                        Attempt::Failed(f) => {
                            let reason = failure_reason(f);
                            session.say(Message::about(NoticeKind::PullErrored, reason.as_str()))?;
                        },
                    }
                } else {
                    session.say(Message::plain(NoticeKind::PullSkipped))?;
                }
            }
        },
        Attempt::Failed(_) => {},
    }
    Ok(())
}

/// Warns that `operation_name` failed, possibly on a conflict, and offers
/// to keep the current state on a new branch.
pub fn handle_conflict_and_offer_new_branch(operation_name: &str, session: &mut Session) -> (r: Result<(), Step>)
    ensures
        agrees(
            *old(session),
            *final(session),
            r,
            conflict_recovery(old(session).log(), old(session).pos(), operation_name@),
        ),
{
    session.say(Message::about(NoticeKind::ConflictWarning, operation_name))?;
    if prompt_confirm(Message::plain(PromptKind::KeepOnNewBranch), session)? {
        let new_branch_name = prompt_non_empty_input(
            Message::plain(PromptKind::NewBranchName),
            FailureKind::EmptyBranchName,
            session,
        )?;
        ensure_branch_not_exists(new_branch_name.as_str(), session, "branch")?;
        session.checkout_b(new_branch_name.as_str())?;
        session.say(Message::about(NoticeKind::SalvageBranchCreated, new_branch_name.as_str()))?;
        session.say(Message::about(NoticeKind::ResolveAndRetry, operation_name))?;
        Ok(())
    } else {
        Err(Step::rejected(Message::plain(FailureKind::ConflictLeftUnresolved)))
    }
}

/// The four ways out of uncommitted changes, as they are offered.
pub fn remedy_labels() -> (r: Vec<String>)
    ensures
        r.deep_view() == remedies(),
{
    texts4(
        "Save: commit the current changes",
        "Create: keep the changes on a new branch",
        "Reset: discard the current changes (dangerous)",
        "Cancel: stop here",
    )
}

/// Looks for uncommitted changes before `action_name` and, if there are
/// any, lets the user choose what becomes of them. The result tells
/// whether the action may go on.
pub fn handle_uncommitted_changes_before_action(action_name: &str, session: &mut Session) -> (r: Result<
    bool,
    Step,
>)
    ensures
        agrees(
            *old(session),
            *final(session),
            r,
            uncommitted_guard(old(session).log(), old(session).pos(), action_name@),
        ),
{
    let status_output = session.status_porcelain_v1()?;
    if status_output.as_str().unicode_len() == 0 {
        return Ok(true);
    }
    session.say(Message::about(NoticeKind::UncommittedWarning, action_name))?;
    let pick = session.choice(
        Request::Select(Message::plain(PromptKind::UncommittedRemedy), remedy_labels(), 3),
    )?;
    let chosen: usize = match pick {
        Some(i) => i,
        None => 3,
    };
    if chosen == 0 {
        session.say(Message::plain(NoticeKind::SavingChanges))?;
        let msg = prompt_non_empty_input(
            Message::plain(PromptKind::CommitMessage),
            FailureKind::EmptyCommitMessage,
            session,
        )?;
        session.add(".")?;
        session.commit(msg.as_str())?;
        session.say(Message::plain(NoticeKind::CommittedPushSeparately))?;
        Ok(true)
    } else if chosen == 1 {
        session.say(Message::plain(NoticeKind::CarryingChangesForward))?;
        let name = prompt_non_empty_input(
            Message::plain(PromptKind::NewBranchName),
            FailureKind::EmptyBranchName,
            session,
        )?;
        ensure_branch_not_exists(name.as_str(), session, "branch")?;
        session.branch_create_local(name.as_str())?;
        session.say(Message::about(NoticeKind::ChangesCarriedTo, name.as_str()))?;
        Ok(false)
    } else if chosen == 2 {
        session.say(Message::plain(NoticeKind::DiscardingChanges))?;
        if prompt_confirm(Message::plain(PromptKind::DiscardChanges), session)? {
            session.reset_hard_head()?;
            session.say(Message::plain(NoticeKind::ChangesDiscarded))?;
            Ok(true)
        } else {
            session.say(Message::plain(NoticeKind::DiscardCancelled))?;
            Ok(false)
        }
    } else if chosen == 3 {
        session.say(Message::about(NoticeKind::ActionCancelled, action_name))?;
        Ok(false)
    } else {
        Err(Step::failed(WorkflowError::Protocol))
    }
}

/// With a clean working tree the guard lets the action go on at once:
/// the state of the working tree is the only thing it asks for, and no
/// question is put to the user.
pub proof fn lemma_clean_tree_passes_guard(replies: Seq<Reply>, at: int, action: Seq<char>)
    requires
        0 <= at < replies.len(),
        replies[at] matches Reply::Text(status) && status@.len() == 0,
    ensures
        uncommitted_guard(replies, at, action) == Flow::Next(true, at + 1),
{
}

/// The guard starts by asking for the state of the working tree, whatever
/// the action.
pub proof fn lemma_guard_asks_for_status_first(replies: Seq<Reply>, at: int, action: Seq<char>)
    requires
        at >= replies.len(),
    ensures
        uncommitted_guard(replies, at, action) == Flow::<bool>::Halt(
            StepView::Ask(git(GitOperation::StatusPorcelain, Seq::empty())),
        ),
{
}

/// Running the guard twice on a working tree that is clean both times
/// lets the action go on both times, and neither run asks the user
/// anything.
pub proof fn lemma_guard_is_idempotent_when_clean(
    replies: Seq<Reply>,
    at: int,
    first: Seq<char>,
    second: Seq<char>,
)
    requires
        0 <= at,
        at + 1 < replies.len(),
        replies[at] matches Reply::Text(status) && status@.len() == 0,
        replies[at + 1] matches Reply::Text(status) && status@.len() == 0,
    ensures
        uncommitted_guard(replies, at, first) == Flow::Next(true, at + 1),
        uncommitted_guard(replies, at + 1, second) == Flow::Next(true, at + 2),
{
}

/// Discarding needs its own confirmation: whenever the remedy of
/// discarding asks for the hard reset, the notice was shown and the
/// question that follows it was answered with yes.
pub proof fn lemma_discard_needs_confirmation(replies: Seq<Reply>, at: int)
    ensures
        remedy_reset(replies, at) == Flow::<bool>::Halt(
            StepView::Ask(git(GitOperation::ResetHardHead, Seq::empty())),
        ) ==> {
            &&& 0 <= at
            &&& at + 2 <= replies.len()
            &&& replies[at + 1] == Reply::Flag(true)
            &&& confirm(replies, at + 1, plain(PromptKind::DiscardChanges)) == Flow::Next(true, at + 2)
        },
{
}

/// The guard never asks for the hard reset unless the user picked the
/// remedy of discarding: a clean tree, and every other pick, lead
/// elsewhere.
pub proof fn lemma_only_discarding_resets(replies: Seq<Reply>, at: int, action: Seq<char>, pick: Option<usize>)
    requires
        pick != Some(2usize),
    ensures
        match remedy(replies, at, action, pick) {
            Flow::Halt(StepView::Ask(RequestView::Run(inv))) => inv.operation != GitOperation::ResetHardHead,
            _ => true,
        },
{
}

} // verus!
