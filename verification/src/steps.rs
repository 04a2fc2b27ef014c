//! The steps that the workflows share: questions to the user, checks on
//! branch names, and what is shown of a branch.

use vstd::prelude::*;
use crate::branch::ref_exists;
use crate::dialogue::{
    agrees, attempt_text, expect_choice, expect_flag, expect_text, failed, rejected, Attempt, AttemptView, Flow,
    Reply, Request, RequestView, Session, Step, WorkflowError, WorkflowErrorView,
};
use crate::git::{current_branch, git};
use crate::messages::{about2, plain, FailureKind, Message, MessageView, Notice, NoticeKind, Prompt, PromptKind};
use crate::options::{branch_options, list_branch_options, BranchOption, SelectOption, SelectOptionView};
use crate::runner::GitOperation;
use crate::status::{display_status, get_branch_display_status, BranchDisplayStatus};
use crate::text::push_text;

verus! {

/// The name of the one remote that the workflows deal with.
pub open spec fn origin() -> Seq<char> {
    "origin"@
}

/// Asking the user for a line of text.
pub open spec fn input(replies: Seq<Reply>, at: int, message: MessageView<PromptKind>) -> Flow<Seq<char>> {
    expect_text(replies, at, RequestView::Input(message))
}

/// Asking the user for a line of text that may not be empty: an empty
/// answer ends the workflow with the validation failure `if_empty`.
pub open spec fn non_empty_input(
    replies: Seq<Reply>,
    at: int,
    message: MessageView<PromptKind>,
    if_empty: FailureKind,
) -> Flow<Seq<char>> {
    match input(replies, at, message) {
        Flow::Halt(s) => Flow::Halt(s),
        Flow::Next(t, p) => if t.len() == 0 {
            Flow::Halt(rejected(plain(if_empty)))
        } else {
            Flow::Next(t, p)
        },
    }
}

/// Asking the user yes or no.
pub open spec fn confirm(replies: Seq<Reply>, at: int, message: MessageView<PromptKind>) -> Flow<bool> {
    expect_flag(replies, at, RequestView::Confirm(message))
}

/// The labels of `options`, in their order.
pub open spec fn labels<W>(options: Seq<SelectOptionView<W>>) -> Seq<Seq<char>> {
    Seq::new(options.len(), |i: int| options[i].display)
}

/// Letting the user pick one of `options` by its label: the value of the
/// picked one, or nothing when the user backs out. An index that is no
/// index into the options ends the workflow as a breach of the protocol.
pub open spec fn fuzzy_select<W>(
    replies: Seq<Reply>,
    at: int,
    prompt: MessageView<PromptKind>,
    options: Seq<SelectOptionView<W>>,
) -> Flow<Option<W>> {
    match expect_choice(replies, at, RequestView::FuzzySelect(prompt, labels(options))) {
        Flow::Halt(s) => Flow::Halt(s),
        Flow::Next(None, p) => Flow::Next(None, p),
        Flow::Next(Some(i), p) => if i < options.len() {
            Flow::Next(Some(options[i as int].value), p)
        } else {
            Flow::Halt(failed(WorkflowErrorView::Protocol))
        },
    }
}

/// Asking the external tool for the local and for the full listing and
/// reading the branches to offer from them.
pub open spec fn select_options(replies: Seq<Reply>, at: int) -> Flow<Seq<BranchOption>> {
    match expect_text(replies, at, git(GitOperation::BranchListLocal, Seq::empty())) {
        Flow::Halt(s) => Flow::Halt(s),
        Flow::Next(local_listing, p) => match expect_text(replies, p, git(GitOperation::BranchListAll, Seq::empty())) {
            Flow::Halt(s) => Flow::Halt(s),
            Flow::Next(full_listing, q) => Flow::Next(branch_options(local_listing, full_listing), q),
        },
    }
}

/// Asking for the address of the remote; that there is none, or that the
/// query fails, is left to the caller.
pub open spec fn origin_url(replies: Seq<Reply>, at: int) -> Flow<AttemptView<Seq<char>>> {
    attempt_text(replies, at, git(GitOperation::RemoteGetUrl, seq![origin()]))
}

/// The address in `attempt`, or the empty text where the attempt failed.
pub open spec fn url_or_empty(attempt: AttemptView<Seq<char>>) -> Seq<char> {
    match attempt {
        AttemptView::Succeeded(url) => url,
        AttemptView::Failed(_) => Seq::empty(),
    }
}

/// Making sure that the branch `name` exists: if it does not, the
/// workflow ends with a validation failure that names its role.
pub open spec fn branch_exists(replies: Seq<Reply>, at: int, name: Seq<char>, role: Seq<char>) -> Flow<()> {
    match ref_exists(replies, at, name) {
        Flow::Halt(s) => Flow::Halt(s),
        Flow::Next(true, p) => Flow::Next((), p),
        Flow::Next(false, _) => Flow::Halt(rejected(about2(FailureKind::BranchNotFound, role, name))),
    }
}

/// Making sure that nothing called `name` exists yet: if something does,
/// the workflow ends with a validation failure that says what `name`
/// stands for.
pub open spec fn branch_is_new(replies: Seq<Reply>, at: int, name: Seq<char>, entity: Seq<char>) -> Flow<()> {
    match ref_exists(replies, at, name) {
        Flow::Halt(s) => Flow::Halt(s),
        Flow::Next(false, p) => Flow::Next((), p),
        Flow::Next(true, _) => Flow::Halt(rejected(about2(FailureKind::AlreadyExists, entity, name))),
    }
}

/// How a branch is shown in the listing: the branch that is checked out
/// as such, with a mark if there are uncommitted changes; any other by
/// whether it is in step with its remote.
pub open spec fn line_kind(is_current: bool, uncommitted_changes: bool, status: BranchDisplayStatus) -> NoticeKind {
    if is_current {
        if uncommitted_changes {
            NoticeKind::CurrentBranchDirty
        } else {
            NoticeKind::CurrentBranch
        }
    } else if status == BranchDisplayStatus::Synced {
        NoticeKind::SyncedBranch
    } else {
        NoticeKind::UnsyncedBranch
    }
}

/// The line that shows the branch `branch`: its commit is asked for, and
/// where a remote is configured and the commit resolves, the branch is
/// classified against its remote-tracking counterpart; else it counts as
/// local only.
pub open spec fn display_info(
    replies: Seq<Reply>,
    at: int,
    branch: Seq<char>,
    is_current: bool,
    uncommitted_changes: bool,
    remote_url: Seq<char>,
) -> Flow<MessageView<NoticeKind>> {
    match expect_text(replies, at, git(GitOperation::RevParseCommitId, seq![branch])) {
        Flow::Halt(s) => Flow::Halt(s),
        Flow::Next(local_commit, p) => if remote_url.len() > 0 && local_commit.len() > 0 {
            match display_status(replies, p, branch, local_commit) {
                Flow::Halt(s) => Flow::Halt(s),
                Flow::Next((status, note), q) => Flow::Next(
                    about2(line_kind(is_current, uncommitted_changes, status), branch, note),
                    q,
                ),
            }
        } else {
            Flow::Next(
                about2(
                    line_kind(is_current, uncommitted_changes, BranchDisplayStatus::LocalOnly),
                    branch,
                    Seq::empty(),
                ),
                p,
            )
        },
    }
}

/// Asks the user for a line of text.
pub fn prompt_input(message: Prompt, session: &mut Session) -> (r: Result<String, Step>)
    ensures
        agrees(*old(session), *final(session), r, input(old(session).log(), old(session).pos(), message.deep_view())),
{
    session.text(Request::Input(message))
}

/// Asks the user for a line of text that may not be empty.
pub fn prompt_non_empty_input(message: Prompt, error_if_empty: FailureKind, session: &mut Session) -> (r: Result<
    String,
    Step,
>)
    ensures
        agrees(
            *old(session),
            *final(session),
            r,
            non_empty_input(old(session).log(), old(session).pos(), message.deep_view(), error_if_empty),
        ),
{
    let input = prompt_input(message, session)?;
    if input.as_str().unicode_len() == 0 {
        return Err(Step::rejected(Message::plain(error_if_empty)));
    }
    Ok(input)
}

/// Asks the user yes or no; no is the default.
pub fn prompt_confirm(message: Prompt, session: &mut Session) -> (r: Result<bool, Step>)
    ensures
        agrees(*old(session), *final(session), r, confirm(old(session).log(), old(session).pos(), message.deep_view())),
{
    session.flag(Request::Confirm(message))
}

/// The labels of `options`, in their order.
pub fn option_labels<V: Clone + DeepView>(options: &Vec<SelectOption<V>>) -> (r: Vec<String>)
    ensures
        r.deep_view() == labels(options.deep_view()),
{
    let mut r: Vec<String> = Vec::new();
    let mut i: usize = 0;
    while i < options.len()
        invariant
            i <= options.len(),
            r.deep_view() == labels(options.deep_view()).take(i as int),
        decreases options.len() - i,
    {
        push_text(&mut r, options[i].display.clone());
        assert(r.deep_view() =~= labels(options.deep_view()).take(i + 1));
        i = i + 1;
    }
    assert(r.deep_view() =~= labels(options.deep_view()));
    r
}

/// Lets the user pick one of `options` and hands back its value, or
/// nothing when the user backs out.
pub fn prompt_fuzzy_select<'b, V: Clone + DeepView>(
    prompt: Prompt,
    options: &'b Vec<SelectOption<V>>,
    session: &mut Session,
) -> (r: Result<Option<&'b V>, Step>)
    ensures
        agrees(
            *old(session),
            *final(session),
            r,
            fuzzy_select(old(session).log(), old(session).pos(), prompt.deep_view(), options.deep_view()),
        ),
{
    let items = option_labels(options);
    match session.choice(Request::FuzzySelect(prompt, items))? {
        None => Ok(None),
        Some(i) => {
            if i < options.len() {
                Ok(Some(&options[i].value))
            } else {
                Err(Step::failed(WorkflowError::Protocol))
            }
        },
    }
}

/// Asks the external tool which branches there are and lists them for a
/// selection.
pub fn get_branch_select_options_for_fuzzy(session: &mut Session) -> (r: Result<Vec<SelectOption<String>>, Step>)
    ensures
        agrees(*old(session), *final(session), r, select_options(old(session).log(), old(session).pos())),
{
    let local_branch_str = session.branch_list_local_str()?;
    let all_branch_str = session.branch_list_all_str()?;
    Ok(list_branch_options(local_branch_str.as_str(), all_branch_str.as_str()))
}

/// Asks for the short name of the current branch; it is empty when no
/// branch is checked out.
pub fn get_current_branch_name(session: &mut Session) -> (r: Result<String, Step>)
    ensures
        agrees(*old(session), *final(session), r, current_branch(old(session).log(), old(session).pos())),
{
    session.symbolic_ref_head()
}

/// Asks for the address of the remote and leaves a failure to the caller.
pub fn get_origin_url(session: &mut Session) -> (r: Result<Attempt<String>, Step>)
    ensures
        agrees(*old(session), *final(session), r, origin_url(old(session).log(), old(session).pos())),
{
    session.try_remote_get_url("origin")
}

/// The address in `attempt`, or the empty text where the attempt failed.
pub fn unwrap_or_default(attempt: Attempt<String>) -> (r: String)
    ensures
        r@ == url_or_empty(attempt.deep_view()),
{
    match attempt {
        Attempt::Succeeded(url) => url,
        Attempt::Failed(_) => String::new(),
    }
}

/// Makes sure that the branch `branch_name` exists.
pub fn ensure_branch_exists(branch_name: &str, session: &mut Session, action_verb: &str) -> (r: Result<(), Step>)
    ensures
        agrees(
            *old(session),
            *final(session),
            r,
            branch_exists(old(session).log(), old(session).pos(), branch_name@, action_verb@),
        ),
{
    if !session.rev_parse_verify(branch_name)? {
        return Err(Step::rejected(Message::about2(FailureKind::BranchNotFound, action_verb, branch_name)));
    }
    Ok(())
}

/// Makes sure that nothing called `branch_name` exists yet.
pub fn ensure_branch_not_exists(branch_name: &str, session: &mut Session, entity_description: &str) -> (r: Result<
    (),
    Step,
>)
    ensures
        agrees(
            *old(session),
            *final(session),
            r,
            branch_is_new(old(session).log(), old(session).pos(), branch_name@, entity_description@),
        ),
{
    if session.rev_parse_verify(branch_name)? {
        return Err(Step::rejected(Message::about2(FailureKind::AlreadyExists, entity_description, branch_name)));
    }
    Ok(())
}

/// How a branch is shown in the listing.
pub fn branch_line_kind(is_current: bool, uncommitted_changes: bool, status: BranchDisplayStatus) -> (k: NoticeKind)
    ensures
        k == line_kind(is_current, uncommitted_changes, status),
{
    if is_current {
        if uncommitted_changes {
            NoticeKind::CurrentBranchDirty
        } else {
            NoticeKind::CurrentBranch
        }
    } else {
        match status {
            BranchDisplayStatus::Synced => NoticeKind::SyncedBranch,
            _ => NoticeKind::UnsyncedBranch,
        }
    }
}

/// Works out the line that shows the branch `branch_name` in the listing.
pub fn get_branch_display_info(
    branch_name: &str,
    is_current: bool,
    uncommitted_changes: bool,
    remote_url: &str,
    session: &mut Session,
) -> (r: Result<Notice, Step>)
    ensures
        agrees(
            *old(session),
            *final(session),
            r,
            display_info(
                old(session).log(),
                old(session).pos(),
                branch_name@,
                is_current,
                uncommitted_changes,
                remote_url@,
            ),
        ),
{
    let local_id = session.rev_parse_commit_id(branch_name)?;
    let (status, note) = if remote_url.unicode_len() > 0 && local_id.as_str().unicode_len() > 0 {
        get_branch_display_status(branch_name, local_id.as_str(), session)?
    } else {
        (BranchDisplayStatus::LocalOnly, String::new())
    };
    Ok(Message::about2(branch_line_kind(is_current, uncommitted_changes, status), branch_name, note.as_str()))
}

} // verus!
