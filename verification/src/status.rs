//! The sync-status classifier: how a local branch stands to its
//! remote-tracking counterpart.

use vstd::prelude::*;
use crate::branch::{ref_exists, remote_tracking, remote_tracking_name};
use crate::dialogue::{agrees, attempt_text, expect_text, Attempt, AttemptView, Flow, Reply, Session, Step};
use crate::git::git;
use crate::runner::GitOperation;
use crate::text::same;

verus! {

/// How a local branch stands to its remote-tracking counterpart.
#[derive(Clone, Copy, Debug, PartialEq, Eq, Structural)]
pub enum BranchDisplayStatus {
    /// Both point at the same commit.
    Synced,
    /// There is no counterpart to compare with.
    LocalOnly,
    /// The local branch has commits that the remote lacks.
    Ahead,
    /// The remote has commits that the local branch lacks.
    Behind,
    /// Each has commits that the other lacks.
    Diverged,
}

impl DeepView for BranchDisplayStatus {
    type V = BranchDisplayStatus;

    open spec fn deep_view(&self) -> BranchDisplayStatus {
        *self
    }
}

/// The status of two commits that both resolve, given their best common
/// ancestor.
pub open spec fn status_of(local_commit: Seq<char>, remote_commit: Seq<char>, ancestor: Seq<char>) -> BranchDisplayStatus {
    if local_commit == remote_commit {
        BranchDisplayStatus::Synced
    } else if ancestor == remote_commit {
        BranchDisplayStatus::Ahead
    } else if ancestor == local_commit {
        BranchDisplayStatus::Behind
    } else {
        BranchDisplayStatus::Diverged
    }
}

/// The note that goes with a status.
pub open spec fn note_of(status: BranchDisplayStatus) -> Seq<char> {
    match status {
        BranchDisplayStatus::Ahead => "needs push"@,
        BranchDisplayStatus::Behind => "needs pull"@,
        BranchDisplayStatus::Diverged => "diverged"@,
        _ => Seq::empty(),
    }
}

/// The status of a local branch at `local_commit`, given whether its
/// remote-tracking ref exists, the commit that ref resolves to (empty
/// when it resolves to none) and the best common ancestor of the two
/// commits (`None` when the query for it failed).
pub open spec fn classification(
    local_commit: Seq<char>,
    remote_exists: bool,
    remote_commit: Seq<char>,
    ancestor: Option<Seq<char>>,
) -> BranchDisplayStatus {
    if !remote_exists || remote_commit.len() == 0 {
        BranchDisplayStatus::LocalOnly
    } else if local_commit == remote_commit {
        BranchDisplayStatus::Synced
    } else {
        match ancestor {
            Some(a) => status_of(local_commit, remote_commit, a),
            None => BranchDisplayStatus::LocalOnly,
        }
    }
}

/// The note that goes with a status.
pub fn status_note(status: BranchDisplayStatus) -> (r: String)
    ensures
        r@ == note_of(status),
{
    match status {
        BranchDisplayStatus::Ahead => "needs push".to_owned(),
        BranchDisplayStatus::Behind => "needs pull".to_owned(),
        BranchDisplayStatus::Diverged => "diverged".to_owned(),
        _ => String::new(),
    }
}

/// Classifies a local branch at `local_commit` from what was learned of
/// its remote-tracking counterpart, and gives the note that goes with the
/// status.
pub fn classify(local_commit: &str, remote_exists: bool, remote_commit: &str, ancestor: Option<&str>) -> (r: (
    BranchDisplayStatus,
    String,
))
    ensures
        r.0 == classification(
            local_commit@,
            remote_exists,
            remote_commit@,
            match ancestor {
                Some(a) => Some(a@),
                None => None,
            },
        ),
        r.1@ == note_of(r.0),
{
    let status = if !remote_exists || remote_commit.unicode_len() == 0 {
        BranchDisplayStatus::LocalOnly
    } else if same(local_commit, remote_commit) {
        BranchDisplayStatus::Synced
    } else {
        match ancestor {
            Some(a) => {
                if same(a, remote_commit) {
                    BranchDisplayStatus::Ahead
                } else if same(a, local_commit) {
                    BranchDisplayStatus::Behind
                } else {
                    BranchDisplayStatus::Diverged
                }
            },
            None => BranchDisplayStatus::LocalOnly,
        }
    };
    (status, status_note(status))
}

/// A status together with its note.
pub open spec fn with_note(status: BranchDisplayStatus) -> (BranchDisplayStatus, Seq<char>) {
    (status, note_of(status))
}

/// The queries that classify the local branch `branch` at `local_commit`:
/// whether its remote-tracking ref exists; if so the commit it resolves
/// to; and, if that differs from the local one, the best common ancestor.
/// That the ancestor query fails is no error: the branch then counts as
/// local only.
pub open spec fn display_status(replies: Seq<Reply>, at: int, branch: Seq<char>, local_commit: Seq<char>) -> Flow<
    (BranchDisplayStatus, Seq<char>),
> {
    let remote = remote_tracking_name(branch);
    match ref_exists(replies, at, remote) {
        Flow::Halt(s) => Flow::Halt(s),
        Flow::Next(false, p) => Flow::Next(with_note(BranchDisplayStatus::LocalOnly), p),
        Flow::Next(true, p) => match expect_text(replies, p, git(GitOperation::RevParseCommitId, seq![remote])) {
            Flow::Halt(s) => Flow::Halt(s),
            Flow::Next(remote_commit, q) => if remote_commit.len() == 0 || local_commit == remote_commit {
                Flow::Next(with_note(classification(local_commit, true, remote_commit, None)), q)
            } else {
                match attempt_text(replies, q, git(GitOperation::MergeBase, seq![local_commit, remote_commit])) {
                    Flow::Halt(s) => Flow::Halt(s),
                    Flow::Next(AttemptView::Succeeded(a), u) => Flow::Next(
                        with_note(classification(local_commit, true, remote_commit, Some(a))),
                        u,
                    ),
                    Flow::Next(AttemptView::Failed(_), u) => Flow::Next(
                        with_note(classification(local_commit, true, remote_commit, None)),
                        u,
                    ),
                }
            },
        },
    }
}

/// Classifies the local branch `local_branch`, which stands at the commit
/// `local_id`, against its remote-tracking counterpart.
pub fn get_branch_display_status(local_branch: &str, local_id: &str, session: &mut Session) -> (r: Result<
    (BranchDisplayStatus, String),
    Step,
>)
    ensures
        agrees(
            *old(session),
            *final(session),
            r,
            display_status(old(session).log(), old(session).pos(), local_branch@, local_id@),
        ),
{
    let remote_tracking_branch = remote_tracking(local_branch);
    let remote_exists = session.rev_parse_verify(remote_tracking_branch.as_str())?;
    if !remote_exists {
        return Ok(classify(local_id, false, "", None));
    }
    let remote_id = session.rev_parse_commit_id(remote_tracking_branch.as_str())?;
    if remote_id.as_str().unicode_len() == 0 || same(local_id, remote_id.as_str()) {
        return Ok(classify(local_id, true, remote_id.as_str(), None));
    }
    match session.try_merge_base(local_id, remote_id.as_str())? {
        Attempt::Succeeded(base_id) => Ok(classify(local_id, true, remote_id.as_str(), Some(base_id.as_str()))),
        Attempt::Failed(_) => Ok(classify(local_id, true, remote_id.as_str(), None)),
    }
}

/// Classification is total and deterministic, and where the remote commit
/// resolves, the status is `Synced` exactly when the two commits are the
/// same.
pub proof fn lemma_synced_iff_same_commit(
    local_commit: Seq<char>,
    remote_commit: Seq<char>,
    ancestor: Option<Seq<char>>,
)
    requires
        remote_commit.len() > 0,
    ensures
        classification(local_commit, true, remote_commit, ancestor) == BranchDisplayStatus::Synced <==> local_commit
            == remote_commit,
{
}

/// Without a remote-tracking ref the status is `LocalOnly`, whatever the
/// local commit is and whatever else is claimed.
pub proof fn lemma_missing_remote_is_local_only(
    local_commit: Seq<char>,
    remote_commit: Seq<char>,
    ancestor: Option<Seq<char>>,
)
    ensures
        classification(local_commit, false, remote_commit, ancestor) == BranchDisplayStatus::LocalOnly,
{
}

/// When the external tool answers that the remote-tracking ref does not
/// exist, the branch is classified as `LocalOnly` with an empty note and
/// nothing more is asked.
pub proof fn lemma_missing_remote_ends_the_queries(
    replies: Seq<Reply>,
    at: int,
    branch: Seq<char>,
    local_commit: Seq<char>,
)
    requires
        0 <= at < replies.len(),
        replies[at] == Reply::Flag(false),
    ensures
        display_status(replies, at, branch, local_commit) == Flow::Next(
            (BranchDisplayStatus::LocalOnly, Seq::<char>::empty()),
            at + 1,
        ),
{
}

/// For two commits that differ, of which the remote one resolves: the
/// status is `Ahead` exactly when the ancestor is the remote commit,
/// `Behind` exactly when it is the local commit, and `Diverged` exactly
/// when it is neither.
pub proof fn lemma_ahead_behind_diverged(local_commit: Seq<char>, remote_commit: Seq<char>, ancestor: Seq<char>)
    requires
        remote_commit.len() > 0,
        local_commit != remote_commit,
    ensures
        classification(local_commit, true, remote_commit, Some(ancestor)) == BranchDisplayStatus::Ahead
            <==> ancestor == remote_commit,
        classification(local_commit, true, remote_commit, Some(ancestor)) == BranchDisplayStatus::Behind
            <==> ancestor == local_commit,
        classification(local_commit, true, remote_commit, Some(ancestor)) == BranchDisplayStatus::Diverged
            <==> (ancestor != remote_commit && ancestor != local_commit),
{
}

/// For any three commits, `Ahead` means that the ancestor is the remote
/// commit and the two commits differ, and `Behind` that it is the local
/// commit and they differ.
pub proof fn lemma_ahead_and_behind(local_commit: Seq<char>, remote_commit: Seq<char>, ancestor: Seq<char>)
    ensures
        status_of(local_commit, remote_commit, ancestor) == BranchDisplayStatus::Ahead <==> (ancestor
            == remote_commit && remote_commit != local_commit),
        status_of(local_commit, remote_commit, ancestor) == BranchDisplayStatus::Behind <==> (ancestor
            == local_commit && remote_commit != local_commit),
        status_of(local_commit, remote_commit, ancestor) == BranchDisplayStatus::Synced <==> local_commit
            == remote_commit,
        status_of(local_commit, remote_commit, ancestor) != BranchDisplayStatus::LocalOnly,
{
}

} // verus!
