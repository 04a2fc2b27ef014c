//! What the workflows say and ask, as a kind and the texts it is about.
//! Wording, language and colour are left to whoever shows them.

use vstd::prelude::*;
use crate::text::{no_texts, texts1, texts2};

verus! {

/// The questions a workflow puts to the user.
#[derive(Clone, Copy, Debug, PartialEq, Eq, Structural)]
pub enum PromptKind {
    /// Text input: the message of the commit.
    CommitMessage,
    /// Text input: the name of a branch to create.
    NewBranchName,
    /// Text input: the name of a repository to create.
    RepositoryName,
    /// Text input: the address of the remote to add.
    RemoteUrlToAdd,
    /// Text input: the new address of the remote.
    RemoteUrlToSet,
    /// Text input: the repository's name, typed again to confirm its
    /// deletion. About: the name.
    TypeRepositoryName,
    /// Yes or no: push to the remote-tracking branch? About: the branch.
    PushToRemote,
    /// Yes or no: pull the latest changes after the push?
    PullAfterPush,
    /// Yes or no: pull the branch from the remote? About: the branch, the
    /// remote.
    PullFromRemote,
    /// Yes or no: push the new branch and track it? About: what was done,
    /// the branch.
    PushAndTrack,
    /// Yes or no: keep the conflicted state on a new branch?
    KeepOnNewBranch,
    /// Yes or no: create a local branch from the remote-tracking one and
    /// switch to it? About: the local name, the remote-tracking name.
    CreateFromRemote,
    /// Yes or no: delete the local branch that was merged? About: the branch.
    DeleteMergedBranch,
    /// Yes or no: delete the local branch? About: the branch.
    DeleteLocalBranch,
    /// Yes or no: delete the branch on the remote? About: the
    /// remote-tracking name.
    DeleteRemoteBranch,
    /// Yes or no: discard the uncommitted changes for good?
    DiscardChanges,
    /// Yes or no: initialise again what already is a repository?
    Reinitialize,
    /// Yes or no: delete the repository's history? About: the name.
    DeleteRepository,
    /// Yes or no: remove the remote? About: its address.
    RemoveRemote,
    /// Choice: the branch to switch to.
    SwitchTarget,
    /// Choice: the branch to merge into the current one. About: the current
    /// branch.
    MergeSource,
    /// Choice: the branch to copy.
    CopySource,
    /// Choice: the branch to delete.
    DeleteTarget,
    /// Choice: what to do about uncommitted changes.
    UncommittedRemedy,
    /// Choice: the repository operation.
    RepoAction,
    /// Choice: the remote operation.
    RemoteAction,
}

/// What a workflow tells the user.
#[derive(Clone, Copy, Debug, PartialEq, Eq, Structural)]
pub enum NoticeKind {
    CommittedLocally,
    CurrentBranchUnknown,
    /// About: the branch.
    PushedToRemote,
    PullSucceeded,
    PushSkipped,
    RemoteUnavailable,
    SaveFinished,
    BranchListWithRemote,
    BranchListLocalOnly,
    /// A branch that exists on the remote only. About: the branch.
    RemoteOnlyBranch,
    /// The branch that is checked out, clean. About: the branch, the note.
    CurrentBranch,
    /// The branch that is checked out, with uncommitted changes. About: the
    /// branch, the note.
    CurrentBranchDirty,
    /// A branch in step with its remote. About: the branch, the note.
    SyncedBranch,
    /// A branch not in step with its remote, or without one. About: the
    /// branch, the note.
    UnsyncedBranch,
    SelectionCancelled,
    /// About: the branch.
    SwitchedTo,
    /// About: the local name, the remote-tracking name.
    CreatedAndSwitched,
    OperationCancelled,
    NothingToMerge,
    MergeSucceeded,
    /// About: the remote-tracking branch that was merged.
    MergedRemoteBranch,
    /// About: the branch.
    DeletedLocalBranch,
    NothingToCopy,
    /// About: the new branch, the source.
    CopiedBranch,
    NothingToDelete,
    /// About: the remote-tracking name.
    RemoteDeletionRequested,
    NoDeletionPerformed,
    /// About: the branch.
    CreatedLocalBranch,
    /// About: what the external tool printed.
    Output,
    /// About: the branch.
    PushedAndTracking,
    RemoteUnsetPushSkipped,
    RemoteLookupFailedPushSkipped,
    /// About: the operation that failed.
    ConflictWarning,
    /// About: the new branch.
    SalvageBranchCreated,
    /// About: the operation to try again.
    ResolveAndRetry,
    /// About: the action that was about to run.
    UncommittedWarning,
    SavingChanges,
    CommittedPushSeparately,
    CarryingChangesForward,
    /// About: the new branch.
    ChangesCarriedTo,
    DiscardingChanges,
    ChangesDiscarded,
    DiscardCancelled,
    /// About: the action that was cancelled.
    ActionCancelled,
    Pulling,
    PullFailedResolveManually,
    /// About: the reason.
    PullErrored,
    PullSkipped,
    ReinitializeCancelled,
    RepositoryInitialized,
    /// About: the repository.
    RepositoryCreated,
    HistoryDeletionWarning,
    WorkingTreeKeptWarning,
    DeletionCancelled,
    ConfirmationMismatch,
    /// About: the repository.
    RepositoryDeleted,
    /// About: the address.
    RemoteAdded,
    /// About: the address.
    RemoteUrlChanged,
    RemoteRemoved,
    RemoteRemovalCancelled,
    NoRemoteToRemove,
    /// About: the address.
    RemoteUrl,
    NoRemoteConfigured,
}

/// Why a workflow refuses to go on: an input fails a local precondition.
#[derive(Clone, Copy, Debug, PartialEq, Eq, Structural)]
pub enum FailureKind {
    EmptyCommitMessage,
    EmptyBranchName,
    EmptyRepositoryName,
    EmptyRemoteUrl,
    /// About: the role of the branch, the branch.
    BranchNotFound,
    /// About: what the name stands for, the name.
    AlreadyExists,
    CurrentBranchUnknown,
    /// The selection is neither a local nor a remote-tracking branch.
    /// About: the selection.
    NoSuchBranch,
    /// About: the branch.
    CannotDeleteCurrentBranch,
    /// About: the selection.
    SelectedBranchVanished,
    ConflictLeftUnresolved,
    /// About: the address of the remote that exists.
    RemoteAlreadyExists,
    RemoteMissing,
    /// About: the directory.
    DirectoryExists,
    NotARepository,
    InvalidChoice,
}

/// A message: its kind and the texts it is about, in the order that the
/// kind documents.
#[derive(Clone, Debug, PartialEq, Eq)]
pub struct Message<K> {
    pub kind: K,
    pub subjects: Vec<String>,
}

/// The mathematical content of a [`Message`].
pub ghost struct MessageView<K> {
    pub kind: K,
    pub subjects: Seq<Seq<char>>,
}

impl<K> DeepView for Message<K> {
    type V = MessageView<K>;

    open spec fn deep_view(&self) -> MessageView<K> {
        MessageView { kind: self.kind, subjects: self.subjects.deep_view() }
    }
}

pub type Prompt = Message<PromptKind>;

pub type Notice = Message<NoticeKind>;

pub type ValidationFailure = Message<FailureKind>;

/// The message of kind `kind` about nothing.
pub open spec fn plain<K>(kind: K) -> MessageView<K> {
    MessageView { kind, subjects: Seq::empty() }
}

/// The message of kind `kind` about `a`.
pub open spec fn about<K>(kind: K, a: Seq<char>) -> MessageView<K> {
    MessageView { kind, subjects: seq![a] }
}

/// The message of kind `kind` about `a` and `b`.
pub open spec fn about2<K>(kind: K, a: Seq<char>, b: Seq<char>) -> MessageView<K> {
    MessageView { kind, subjects: seq![a, b] }
}

impl<K> Message<K> {
    /// The message of kind `kind` about nothing.
    pub fn plain(kind: K) -> (m: Self)
        ensures
            m.deep_view() == plain(kind),
    {
        Message { kind, subjects: no_texts() }
    }

    /// The message of kind `kind` about `a`.
    pub fn about(kind: K, a: &str) -> (m: Self)
        ensures
            m.deep_view() == about(kind, a@),
    {
        Message { kind, subjects: texts1(a) }
    }

    /// The message of kind `kind` about `a` and `b`.
    pub fn about2(kind: K, a: &str, b: &str) -> (m: Self)
        ensures
            m.deep_view() == about2(kind, a@, b@),
    {
        Message { kind, subjects: texts2(a, b) }
    }
}

} // verus!
