//! The repository workflows: initialise, create and delete a repository,
//! and manage the one remote.

use vstd::prelude::*;
use crate::dialogue::{
    agrees, attempt_done, error_of, expect_done, expect_flag, expect_text, failed, rejected, say, Attempt,
    AttemptView, Flow, Reply, Request, RequestView, Session, Step, StepView,
};
use crate::git::git;
use crate::messages::{about, plain, FailureKind, Message, NoticeKind, PromptKind};
use crate::options::{BranchOption, SelectOption, SelectOptionView};
use crate::runner::GitOperation;
use crate::steps::{
    confirm, fuzzy_select, get_origin_url, input, non_empty_input, origin, origin_url, prompt_confirm,
    prompt_fuzzy_select, prompt_input, prompt_non_empty_input,
};
use crate::text::same;
use crate::workflows::{abort_after, abort_with};

verus! {

/// What to do with the remote.
#[derive(Clone, Debug, PartialEq, Eq)]
pub enum RemoteRepoCommands {
    /// Add the remote with this address.
    Add { url: String },
    /// Change the remote's address to this one.
    SetUrl { url: String },
    /// Remove the remote.
    Remove,
    /// Show the remote's address.
    Show,
}

/// What to do with the repository.
#[derive(Clone, Debug, PartialEq, Eq)]
pub enum RepoCommands {
    /// Initialise the current directory as a repository.
    Init,
    /// Create a directory of this name and initialise it as a repository.
    Create { name: String },
    /// Delete the history of the repository in the current directory.
    Delete,
    /// Manage the remote; without a command the user picks one.
    Remote { command: Option<RemoteRepoCommands> },
}

/// The arguments of `repo`: the command, or none for the user to pick.
#[derive(Clone, Debug, PartialEq, Eq)]
pub struct RepoArgsCli {
    pub command: Option<RepoCommands>,
}

/// The directory that holds a repository's history.
pub open spec fn history_dir() -> Seq<char> {
    ".git"@
}

/// `repo init`: what already is a repository is initialised again only
/// if the user confirms.
pub open spec fn repo_init(replies: Seq<Reply>, at: int) -> Flow<()> {
    match expect_flag(replies, at, RequestView::PathExists(history_dir())) {
        Flow::Halt(s) => Flow::Halt(s),
        Flow::Next(exists, p) => {
            let confirmed = if exists {
                confirm(replies, p, plain(PromptKind::Reinitialize))
            } else {
                Flow::Next(true, p)
            };
            match confirmed {
                Flow::Halt(s) => Flow::Halt(s),
                Flow::Next(false, q) => abort_with(replies, q, NoticeKind::ReinitializeCancelled),
                Flow::Next(true, q) => match expect_done(replies, q, git(GitOperation::Init, Seq::empty())) {
                    Flow::Halt(s) => Flow::Halt(s),
                    Flow::Next(_, u) => say(replies, u, plain(NoticeKind::RepositoryInitialized)),
                },
            }
        },
    }
}

/// `repo create` inside the new directory: the repository is initialised
/// there, and the directory that was current before is made current again
/// whether or not that worked; only then does a failure count.
pub open spec fn repo_create_in(replies: Seq<Reply>, at: int, name: Seq<char>, previous_dir: Seq<char>) -> Flow<()> {
    match expect_done(replies, at, RequestView::ChangeDir(name)) {
        Flow::Halt(s) => Flow::Halt(s),
        Flow::Next(_, p) => match attempt_done(replies, p, git(GitOperation::Init, Seq::empty())) {
            Flow::Halt(s) => Flow::Halt(s),
            Flow::Next(initialized, q) => match expect_done(replies, q, RequestView::ChangeDir(previous_dir)) {
                Flow::Halt(s) => Flow::Halt(s),
                Flow::Next(_, u) => match initialized {
                    AttemptView::Failed(f) => Flow::Halt(failed(error_of(f))),
                    AttemptView::Succeeded(_) => say(replies, u, about(NoticeKind::RepositoryCreated, name)),
                },
            },
        },
    }
}

/// `repo create`: a directory that exists already is refused; else it is
/// created and a repository is initialised in it.
pub open spec fn repo_create(replies: Seq<Reply>, at: int, name: Seq<char>) -> Flow<()> {
    match expect_flag(replies, at, RequestView::PathExists(name)) {
        Flow::Halt(s) => Flow::Halt(s),
        Flow::Next(true, _) => Flow::Halt(rejected(about(FailureKind::DirectoryExists, name))),
        Flow::Next(false, p) => match expect_done(replies, p, RequestView::CreateDirAll(name)) {
            Flow::Halt(s) => Flow::Halt(s),
            Flow::Next(_, q) => match expect_text(replies, q, RequestView::CurrentDir) {
                Flow::Halt(s) => Flow::Halt(s),
                Flow::Next(previous_dir, u) => repo_create_in(replies, u, name, previous_dir),
            },
        },
    }
}

/// `repo delete` once the repository's name is known: the user confirms,
/// then types the name; only if what is typed is the name is the history
/// removed.
pub open spec fn repo_delete_named(replies: Seq<Reply>, at: int, name: Seq<char>) -> Flow<()> {
    match confirm(replies, at, about(PromptKind::DeleteRepository, name)) {
        Flow::Halt(s) => Flow::Halt(s),
        Flow::Next(false, p) => abort_with(replies, p, NoticeKind::DeletionCancelled),
        Flow::Next(true, p) => match input(replies, p, about(PromptKind::TypeRepositoryName, name)) {
            Flow::Halt(s) => Flow::Halt(s),
            Flow::Next(typed, q) => if typed != name {
                abort_with(replies, q, NoticeKind::ConfirmationMismatch)
            } else {
                match expect_done(replies, q, RequestView::RemoveDirAll(history_dir())) {
                    Flow::Halt(s) => Flow::Halt(s),
                    Flow::Next(_, u) => say(replies, u, about(NoticeKind::RepositoryDeleted, name)),
                }
            },
        },
    }
}

/// `repo delete`: what is no repository is refused; else the user is
/// warned twice and the repository's name is asked for.
pub open spec fn repo_delete(replies: Seq<Reply>, at: int) -> Flow<()> {
    match expect_flag(replies, at, RequestView::PathExists(history_dir())) {
        Flow::Halt(s) => Flow::Halt(s),
        Flow::Next(false, _) => Flow::Halt(rejected(plain(FailureKind::NotARepository))),
        Flow::Next(true, p) => match say(replies, p, plain(NoticeKind::HistoryDeletionWarning)) {
            Flow::Halt(s) => Flow::Halt(s),
            Flow::Next(_, q) => match say(replies, q, plain(NoticeKind::WorkingTreeKeptWarning)) {
                Flow::Halt(s) => Flow::Halt(s),
                Flow::Next(_, u) => match expect_text(replies, u, RequestView::CurrentDirName) {
                    Flow::Halt(s) => Flow::Halt(s),
                    Flow::Next(name, v) => repo_delete_named(replies, v, name),
                },
            },
        },
    }
}

/// `repo remote add`: a remote that exists already, with an address, is
/// refused; else the remote is added.
pub open spec fn remote_add(replies: Seq<Reply>, at: int, url: Seq<char>) -> Flow<()> {
    match origin_url(replies, at) {
        Flow::Halt(s) => Flow::Halt(s),
        Flow::Next(existing, p) => if existing matches AttemptView::Succeeded(address) && address.len() > 0 {
            Flow::Halt(rejected(about(FailureKind::RemoteAlreadyExists, existing->Succeeded_0)))
        } else {
            match expect_done(replies, p, git(GitOperation::RemoteAdd, seq![origin(), url])) {
                Flow::Halt(s) => Flow::Halt(s),
                Flow::Next(_, q) => say(replies, q, about(NoticeKind::RemoteAdded, url)),
            }
        },
    }
}

/// `repo remote set-url`: the address is changed only where the remote
/// exists.
pub open spec fn remote_set_url(replies: Seq<Reply>, at: int, url: Seq<char>) -> Flow<()> {
    match origin_url(replies, at) {
        Flow::Halt(s) => Flow::Halt(s),
        Flow::Next(AttemptView::Failed(_), _) => Flow::Halt(rejected(plain(FailureKind::RemoteMissing))),
        Flow::Next(AttemptView::Succeeded(_), p) => match expect_done(
            replies,
            p,
            git(GitOperation::RemoteSetUrl, seq![origin(), url]),
        ) {
            Flow::Halt(s) => Flow::Halt(s),
            Flow::Next(_, q) => say(replies, q, about(NoticeKind::RemoteUrlChanged, url)),
        },
    }
}

/// `repo remote remove`: the remote is removed only if it exists and the
/// user confirms.
pub open spec fn remote_remove(replies: Seq<Reply>, at: int) -> Flow<()> {
    match origin_url(replies, at) {
        Flow::Halt(s) => Flow::Halt(s),
        Flow::Next(existing, p) => if existing matches AttemptView::Succeeded(address) && address.len() > 0 {
            match confirm(replies, p, about(PromptKind::RemoveRemote, existing->Succeeded_0)) {
                Flow::Halt(s) => Flow::Halt(s),
                Flow::Next(false, q) => say(replies, q, plain(NoticeKind::RemoteRemovalCancelled)),
                Flow::Next(true, q) => match expect_done(replies, q, git(GitOperation::RemoteRemove, seq![origin()])) {
                    Flow::Halt(s) => Flow::Halt(s),
                    Flow::Next(_, u) => say(replies, u, plain(NoticeKind::RemoteRemoved)),
                },
            }
        } else {
            say(replies, p, plain(NoticeKind::NoRemoteToRemove))
        },
    }
}

/// `repo remote show`: the remote's address is shown, or that there is
/// none.
pub open spec fn remote_show(replies: Seq<Reply>, at: int) -> Flow<()> {
    match origin_url(replies, at) {
        Flow::Halt(s) => Flow::Halt(s),
        Flow::Next(existing, p) => if existing matches AttemptView::Succeeded(address) && address.len() > 0 {
            say(replies, p, about(NoticeKind::RemoteUrl, existing->Succeeded_0))
        } else {
            say(replies, p, plain(NoticeKind::NoRemoteConfigured))
        },
    }
}

/// The remote operations that the user may pick from.
pub open spec fn remote_actions() -> Seq<BranchOption> {
    seq![
        SelectOptionView { display: "add: add the remote 'origin'"@, value: "add"@ },
        SelectOptionView { display: "set-url: change the address of 'origin'"@, value: "set-url"@ },
        SelectOptionView { display: "remove: remove 'origin'"@, value: "remove"@ },
        SelectOptionView { display: "show: show the address of 'origin'"@, value: "show"@ },
    ]
}

/// The repository operations that the user may pick from.
pub open spec fn repo_actions() -> Seq<BranchOption> {
    seq![
        SelectOptionView { display: "init: initialise the current directory"@, value: "init"@ },
        SelectOptionView { display: "create: create a new repository"@, value: "create"@ },
        SelectOptionView { display: "delete: delete the history of this repository (dangerous)"@, value: "delete"@ },
        SelectOptionView { display: "remote: manage the remote"@, value: "remote"@ },
    ]
}

/// The remote operation that the user picked by its name, with the
/// address asked for where the operation needs one.
pub open spec fn remote_picked(replies: Seq<Reply>, at: int, action: Seq<char>) -> Flow<()> {
    if action == "add"@ {
        match non_empty_input(replies, at, plain(PromptKind::RemoteUrlToAdd), FailureKind::EmptyRemoteUrl) {
            Flow::Halt(s) => Flow::Halt(s),
            Flow::Next(url, p) => remote_add(replies, p, url),
        }
    } else if action == "set-url"@ {
        match non_empty_input(replies, at, plain(PromptKind::RemoteUrlToSet), FailureKind::EmptyRemoteUrl) {
            Flow::Halt(s) => Flow::Halt(s),
            Flow::Next(url, p) => remote_set_url(replies, p, url),
        }
    } else if action == "remove"@ {
        remote_remove(replies, at)
    } else if action == "show"@ {
        remote_show(replies, at)
    } else {
        Flow::Halt(rejected(plain(FailureKind::InvalidChoice)))
    }
}

/// `repo remote`: the given command, or the one that the user picks.
pub open spec fn repo_remote(replies: Seq<Reply>, at: int, command: Option<RemoteRepoCommands>) -> Flow<()> {
    match command {
        Some(RemoteRepoCommands::Add { url }) => remote_add(replies, at, url@),
        Some(RemoteRepoCommands::SetUrl { url }) => remote_set_url(replies, at, url@),
        Some(RemoteRepoCommands::Remove) => remote_remove(replies, at),
        Some(RemoteRepoCommands::Show) => remote_show(replies, at),
        None => match fuzzy_select(replies, at, plain(PromptKind::RemoteAction), remote_actions()) {
            Flow::Halt(s) => Flow::Halt(s),
            Flow::Next(None, p) => abort_with(replies, p, NoticeKind::SelectionCancelled),
            Flow::Next(Some(action), p) => remote_picked(replies, p, action),
        },
    }
}

/// The repository operation that the user picked by its name.
pub open spec fn repo_picked(replies: Seq<Reply>, at: int, action: Seq<char>) -> Flow<()> {
    if action == "init"@ {
        repo_init(replies, at)
    } else if action == "create"@ {
        match non_empty_input(replies, at, plain(PromptKind::RepositoryName), FailureKind::EmptyRepositoryName) {
            Flow::Halt(s) => Flow::Halt(s),
            Flow::Next(name, p) => repo_create(replies, p, name),
        }
    } else if action == "delete"@ {
        repo_delete(replies, at)
    } else if action == "remote"@ {
        repo_remote(replies, at, None)
    } else {
        Flow::Halt(rejected(plain(FailureKind::InvalidChoice)))
    }
}

/// `repo`: the given command, or the one that the user picks.
pub open spec fn repo(replies: Seq<Reply>, at: int, command: Option<RepoCommands>) -> Flow<()> {
    match command {
        Some(RepoCommands::Init) => repo_init(replies, at),
        Some(RepoCommands::Create { name }) => repo_create(replies, at, name@),
        Some(RepoCommands::Delete) => repo_delete(replies, at),
        Some(RepoCommands::Remote { command }) => repo_remote(replies, at, command),
        None => match fuzzy_select(replies, at, plain(PromptKind::RepoAction), repo_actions()) {
            Flow::Halt(s) => Flow::Halt(s),
            Flow::Next(None, p) => abort_with(replies, p, NoticeKind::SelectionCancelled),
            Flow::Next(Some(action), p) => repo_picked(replies, p, action),
        },
    }
}

/// Initialises the current directory as a repository.
pub fn git_repo_init(session: &mut Session) -> (r: Result<(), Step>)
    ensures
        agrees(*old(session), *final(session), r, repo_init(old(session).log(), old(session).pos())),
{
    if session.flag(Request::PathExists(".git".to_owned()))? {
        if !prompt_confirm(Message::plain(PromptKind::Reinitialize), session)? {
            return abort_after(NoticeKind::ReinitializeCancelled, session);
        }
    }
    session.init()?;
    session.say(Message::plain(NoticeKind::RepositoryInitialized))
}

/// Creates the directory `name` and initialises a repository in it.
pub fn git_repo_create(name: String, session: &mut Session) -> (r: Result<(), Step>)
    ensures
        agrees(*old(session), *final(session), r, repo_create(old(session).log(), old(session).pos(), name@)),
{
    if session.flag(Request::PathExists(name.clone()))? {
        return Err(Step::rejected(Message::about(FailureKind::DirectoryExists, name.as_str())));
    }
    session.done(Request::CreateDirAll(name.clone()))?;
    let previous_dir = session.text(Request::CurrentDir)?;
    session.done(Request::ChangeDir(name.clone()))?;
    let init_result = session.try_init()?;
    session.done(Request::ChangeDir(previous_dir))?;
    match init_result {
        Attempt::Failed(f) => Err(Step::failed(f.into_error())),
        Attempt::Succeeded(_) => session.say(Message::about(NoticeKind::RepositoryCreated, name.as_str())),
    }
}

/// Deletes the history of the repository in the current directory, after
/// two confirmations.
pub fn git_repo_delete(session: &mut Session) -> (r: Result<(), Step>)
    ensures
        agrees(*old(session), *final(session), r, repo_delete(old(session).log(), old(session).pos())),
{
    if !session.flag(Request::PathExists(".git".to_owned()))? {
        return Err(Step::rejected(Message::plain(FailureKind::NotARepository)));
    }
    session.say(Message::plain(NoticeKind::HistoryDeletionWarning))?;
    session.say(Message::plain(NoticeKind::WorkingTreeKeptWarning))?;
    let repo_name = session.text(Request::CurrentDirName)?;
    if !prompt_confirm(Message::about(PromptKind::DeleteRepository, repo_name.as_str()), session)? {
        return abort_after(NoticeKind::DeletionCancelled, session);
    }
    let typed_confirmation = prompt_input(
        Message::about(PromptKind::TypeRepositoryName, repo_name.as_str()),
        session,
    )?;
    if !same(typed_confirmation.as_str(), repo_name.as_str()) {
        return abort_after(NoticeKind::ConfirmationMismatch, session);
    }
    session.done(Request::RemoveDirAll(".git".to_owned()))?;
    session.say(Message::about(NoticeKind::RepositoryDeleted, repo_name.as_str()))
}

/// The address of the remote, where it has one.
pub fn existing_address(attempt: Attempt<String>) -> (r: Option<String>)
    ensures
        match r {
            Some(address) => attempt.deep_view() == AttemptView::Succeeded(address@) && address@.len() > 0,
            None => !(attempt.deep_view() matches AttemptView::Succeeded(address) && address.len() > 0),
        },
{
    match attempt {
        Attempt::Succeeded(address) => {
            if address.as_str().unicode_len() > 0 {
                Some(address)
            } else {
                None
            }
        },
        Attempt::Failed(_) => None,
    }
}

/// Adds the remote with the address `url`.
pub fn git_repo_remote_add(url: String, session: &mut Session) -> (r: Result<(), Step>)
    ensures
        agrees(*old(session), *final(session), r, remote_add(old(session).log(), old(session).pos(), url@)),
{
    match existing_address(get_origin_url(session)?) {
        Some(existing_url) => Err(
            Step::rejected(Message::about(FailureKind::RemoteAlreadyExists, existing_url.as_str())),
        ),
        None => {
            session.remote_add("origin", url.as_str())?;
            session.say(Message::about(NoticeKind::RemoteAdded, url.as_str()))
        },
    }
}

/// Changes the address of the remote to `url`.
pub fn git_repo_remote_set_url(url: String, session: &mut Session) -> (r: Result<(), Step>)
    ensures
        agrees(*old(session), *final(session), r, remote_set_url(old(session).log(), old(session).pos(), url@)),
{
    match get_origin_url(session)? {
        Attempt::Succeeded(_) => {
            session.remote_set_url("origin", url.as_str())?;
            session.say(Message::about(NoticeKind::RemoteUrlChanged, url.as_str()))
        },
        Attempt::Failed(_) => Err(Step::rejected(Message::plain(FailureKind::RemoteMissing))),
    }
}

/// Removes the remote, if the user confirms.
pub fn git_repo_remote_remove(session: &mut Session) -> (r: Result<(), Step>)
    ensures
        agrees(*old(session), *final(session), r, remote_remove(old(session).log(), old(session).pos())),
{
    match existing_address(get_origin_url(session)?) {
        Some(url) => {
            if prompt_confirm(Message::about(PromptKind::RemoveRemote, url.as_str()), session)? {
                session.remote_remove("origin")?;
                session.say(Message::plain(NoticeKind::RemoteRemoved))
            } else {
                session.say(Message::plain(NoticeKind::RemoteRemovalCancelled))
            }
        },
        None => session.say(Message::plain(NoticeKind::NoRemoteToRemove)),
    }
}

/// Shows the address of the remote.
pub fn git_repo_remote_show(session: &mut Session) -> (r: Result<(), Step>)
    ensures
        agrees(*old(session), *final(session), r, remote_show(old(session).log(), old(session).pos())),
{
    match existing_address(get_origin_url(session)?) {
        Some(url) => session.say(Message::about(NoticeKind::RemoteUrl, url.as_str())),
        None => session.say(Message::plain(NoticeKind::NoRemoteConfigured)),
    }
}

/// A list of four options.
pub fn four_options(
    display0: &str,
    value0: &str,
    display1: &str,
    value1: &str,
    display2: &str,
    value2: &str,
    display3: &str,
    value3: &str,
) -> (r: Vec<SelectOption<String>>)
    ensures
        r.deep_view() == seq![
            SelectOptionView { display: display0@, value: value0@ },
            SelectOptionView { display: display1@, value: value1@ },
            SelectOptionView { display: display2@, value: value2@ },
            SelectOptionView { display: display3@, value: value3@ },
        ],
{
    let mut r: Vec<SelectOption<String>> = Vec::new();
    r.push(SelectOption { display: display0.to_owned(), value: value0.to_owned() });
    r.push(SelectOption { display: display1.to_owned(), value: value1.to_owned() });
    r.push(SelectOption { display: display2.to_owned(), value: value2.to_owned() });
    r.push(SelectOption { display: display3.to_owned(), value: value3.to_owned() });
    assert(r.deep_view() =~= seq![
        SelectOptionView { display: display0@, value: value0@ },
        SelectOptionView { display: display1@, value: value1@ },
        SelectOptionView { display: display2@, value: value2@ },
        SelectOptionView { display: display3@, value: value3@ },
    ]);
    r
}

/// Runs the remote operation that the user picked by its name.
pub fn run_remote_action(action: &str, session: &mut Session) -> (r: Result<(), Step>)
    ensures
        agrees(*old(session), *final(session), r, remote_picked(old(session).log(), old(session).pos(), action@)),
{
    if same(action, "add") {
        let url = prompt_non_empty_input(
            Message::plain(PromptKind::RemoteUrlToAdd),
            FailureKind::EmptyRemoteUrl,
            session,
        )?;
        git_repo_remote_add(url, session)
    } else if same(action, "set-url") {
        let url = prompt_non_empty_input(
            Message::plain(PromptKind::RemoteUrlToSet),
            FailureKind::EmptyRemoteUrl,
            session,
        )?;
        git_repo_remote_set_url(url, session)
    } else if same(action, "remove") {
        git_repo_remote_remove(session)
    } else if same(action, "show") {
        git_repo_remote_show(session)
    } else {
        Err(Step::rejected(Message::plain(FailureKind::InvalidChoice)))
    }
}

/// Manages the remote: runs the given command, or lets the user pick one.
pub fn handle_repo_remote_command(command_opt: Option<RemoteRepoCommands>, session: &mut Session) -> (r: Result<
    (),
    Step,
>)
    ensures
        agrees(
            *old(session),
            *final(session),
            r,
            repo_remote(old(session).log(), old(session).pos(), command_opt),
        ),
{
    match command_opt {
        Some(RemoteRepoCommands::Add { url }) => git_repo_remote_add(url, session),
        Some(RemoteRepoCommands::SetUrl { url }) => git_repo_remote_set_url(url, session),
        Some(RemoteRepoCommands::Remove) => git_repo_remote_remove(session),
        Some(RemoteRepoCommands::Show) => git_repo_remote_show(session),
        None => {
            let choices = four_options(
                "add: add the remote 'origin'",
                "add",
                "set-url: change the address of 'origin'",
                "set-url",
                "remove: remove 'origin'",
                "remove",
                "show: show the address of 'origin'",
                "show",
            );
            match prompt_fuzzy_select(Message::plain(PromptKind::RemoteAction), &choices, session)? {
                Some(action) => run_remote_action(action.as_str(), session),
                None => abort_after(NoticeKind::SelectionCancelled, session),
            }
        },
    }
}

/// Runs the repository operation that the user picked by its name.
pub fn run_repo_action(action: &str, session: &mut Session) -> (r: Result<(), Step>)
    ensures
        agrees(*old(session), *final(session), r, repo_picked(old(session).log(), old(session).pos(), action@)),
{
    if same(action, "init") {
        git_repo_init(session)
    } else if same(action, "create") {
        let name = prompt_non_empty_input(
            Message::plain(PromptKind::RepositoryName),
            FailureKind::EmptyRepositoryName,
            session,
        )?;
        git_repo_create(name, session)
    } else if same(action, "delete") {
        git_repo_delete(session)
    } else if same(action, "remote") {
        handle_repo_remote_command(None, session)
    } else {
        Err(Step::rejected(Message::plain(FailureKind::InvalidChoice)))
    }
}

/// Runs the given repository command, or lets the user pick one.
pub fn handle_repo_command(args: RepoArgsCli, session: &mut Session) -> (r: Result<(), Step>)
    ensures
        agrees(*old(session), *final(session), r, repo(old(session).log(), old(session).pos(), args.command)),
{
    match args.command {
        Some(RepoCommands::Init) => git_repo_init(session),
        Some(RepoCommands::Create { name }) => git_repo_create(name, session),
        Some(RepoCommands::Delete) => git_repo_delete(session),
        Some(RepoCommands::Remote { command }) => handle_repo_remote_command(command, session),
        None => {
            let choices = four_options(
                "init: initialise the current directory",
                "init",
                "create: create a new repository",
                "create",
                "delete: delete the history of this repository (dangerous)",
                "delete",
                "remote: manage the remote",
                "remote",
            );
            match prompt_fuzzy_select(Message::plain(PromptKind::RepoAction), &choices, session)? {
                Some(action) => run_repo_action(action.as_str(), session),
                None => abort_after(NoticeKind::SelectionCancelled, session),
            }
        },
    }
}

/// Deleting a repository's history needs two confirmations: whenever
/// the workflow asks to remove the history, the user has answered yes and
/// has then typed the repository's name.
pub proof fn lemma_history_deletion_needs_both_confirmations(replies: Seq<Reply>, at: int, name: Seq<char>)
    ensures
        repo_delete_named(replies, at, name) == Flow::<()>::Halt(
            StepView::Ask(RequestView::RemoveDirAll(history_dir())),
        ) ==> {
            &&& confirm(replies, at, about(PromptKind::DeleteRepository, name)) == Flow::Next(true, at + 1)
            &&& input(replies, at + 1, about(PromptKind::TypeRepositoryName, name)) == Flow::Next(name, at + 2)
        },
{
}

} // verus!
