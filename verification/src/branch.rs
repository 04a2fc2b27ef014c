//! The branch resolver: from what the user typed or picked to a local name
//! and a remote-tracking name, and whether each exists.

use vstd::prelude::*;
use crate::dialogue::{agrees, expect_flag, Flow, Reply, Session, Step};
use crate::git::git;
use crate::runner::GitOperation;
use crate::text::{join, starts_with, strip_prefix};

verus! {

/// What marks a name as remote-tracking: the one remote's name and a slash.
pub open spec fn remote_prefix() -> Seq<char> {
    "origin/"@
}

/// Whether `name` carries the remote prefix.
pub open spec fn is_remote_name(name: Seq<char>) -> bool {
    remote_prefix().is_prefix_of(name)
}

/// The remote-tracking name of the local branch `name`.
pub open spec fn remote_tracking_name(name: Seq<char>) -> Seq<char> {
    remote_prefix() + name
}

/// The local name that the input `name` stands for: the input without the
/// remote prefix if it carries it, else the input as it is.
pub open spec fn local_candidate(name: Seq<char>) -> Seq<char> {
    if is_remote_name(name) {
        name.skip(remote_prefix().len() as int)
    } else {
        name
    }
}

/// The remote-tracking name that the input `name` stands for: the input as
/// it is if it carries the remote prefix, else the prefix and the input.
pub open spec fn remote_candidate(name: Seq<char>) -> Seq<char> {
    if is_remote_name(name) {
        name
    } else {
        remote_tracking_name(name)
    }
}

/// What a name given by the user resolves to.
#[derive(Clone, Debug, PartialEq, Eq)]
pub struct ResolvedBranchInfo {
    pub local_candidate_name: String,
    pub local_exists: bool,
    pub remote_tracking_candidate_name: String,
    pub remote_tracking_exists: bool,
}

/// The mathematical content of a [`ResolvedBranchInfo`].
pub ghost struct ResolvedBranchView {
    pub local_candidate_name: Seq<char>,
    pub local_exists: bool,
    pub remote_tracking_candidate_name: Seq<char>,
    pub remote_tracking_exists: bool,
}

impl DeepView for ResolvedBranchInfo {
    type V = ResolvedBranchView;

    open spec fn deep_view(&self) -> ResolvedBranchView {
        ResolvedBranchView {
            local_candidate_name: self.local_candidate_name@,
            local_exists: self.local_exists,
            remote_tracking_candidate_name: self.remote_tracking_candidate_name@,
            remote_tracking_exists: self.remote_tracking_exists,
        }
    }
}

/// Asking whether the ref `name` exists: an exact, quiet query whose answer
/// is a flag, so that a ref that does not exist is an answer and no error.
pub open spec fn ref_exists(replies: Seq<Reply>, at: int, name: Seq<char>) -> Flow<bool> {
    expect_flag(replies, at, git(GitOperation::RevParseVerify, seq![name]))
}

/// The resolution of `name`. A name with the remote prefix is not probed
/// as a local branch: its local candidate counts as not existing.
pub open spec fn resolution(replies: Seq<Reply>, at: int, name: Seq<char>) -> Flow<ResolvedBranchView> {
    if is_remote_name(name) {
        match ref_exists(replies, at, remote_candidate(name)) {
            Flow::Halt(s) => Flow::Halt(s),
            Flow::Next(remote_exists, p) => Flow::Next(
                ResolvedBranchView {
                    local_candidate_name: local_candidate(name),
                    local_exists: false,
                    remote_tracking_candidate_name: remote_candidate(name),
                    remote_tracking_exists: remote_exists,
                },
                p,
            ),
        }
    } else {
        match ref_exists(replies, at, local_candidate(name)) {
            Flow::Halt(s) => Flow::Halt(s),
            Flow::Next(local_exists, p) => match ref_exists(replies, p, remote_candidate(name)) {
                Flow::Halt(s) => Flow::Halt(s),
                Flow::Next(remote_exists, q) => Flow::Next(
                    ResolvedBranchView {
                        local_candidate_name: local_candidate(name),
                        local_exists,
                        remote_tracking_candidate_name: remote_candidate(name),
                        remote_tracking_exists: remote_exists,
                    },
                    q,
                ),
            },
        }
    }
}

/// The remote-tracking name of the local branch `name`.
pub fn remote_tracking(name: &str) -> (r: String)
    ensures
        r@ == remote_tracking_name(name@),
{
    join("origin/", name)
}

/// Whether `name` carries the remote prefix.
pub fn has_remote_prefix(name: &str) -> (r: bool)
    ensures
        r == is_remote_name(name@),
{
    starts_with(name, "origin/")
}

/// Resolves what the user gave to a local and a remote-tracking candidate
/// and asks the external tool which of them exist.
pub fn resolve_branch_input(name_from_user: &str, session: &mut Session) -> (r: Result<ResolvedBranchInfo, Step>)
    ensures
        agrees(*old(session), *final(session), r, resolution(old(session).log(), old(session).pos(), name_from_user@)),
{
    match strip_prefix(name_from_user, "origin/") {
        Some(local_candidate_name) => {
            let remote_tracking_candidate_name = name_from_user.to_owned();
            let remote_tracking_exists = session.rev_parse_verify(remote_tracking_candidate_name.as_str())?;
            Ok(
                ResolvedBranchInfo {
                    local_candidate_name,
                    local_exists: false,
                    remote_tracking_candidate_name,
                    remote_tracking_exists,
                },
            )
        },
        None => {
            let local_candidate_name = name_from_user.to_owned();
            let remote_tracking_candidate_name = remote_tracking(name_from_user);
            let local_exists = session.rev_parse_verify(local_candidate_name.as_str())?;
            let remote_tracking_exists = session.rev_parse_verify(remote_tracking_candidate_name.as_str())?;
            Ok(
                ResolvedBranchInfo {
                    local_candidate_name,
                    local_exists,
                    remote_tracking_candidate_name,
                    remote_tracking_exists,
                },
            )
        },
    }
}

/// A name with the remote prefix resolves to itself as the remote-tracking
/// name and to what follows the prefix as the local name, whatever the
/// external tool answers.
pub proof fn lemma_resolving_remote_name(replies: Seq<Reply>, at: int, x: Seq<char>)
    ensures
        match resolution(replies, at, remote_prefix() + x) {
            Flow::Next(info, _) => {
                &&& info.local_candidate_name == x
                &&& info.remote_tracking_candidate_name == remote_prefix() + x
                &&& !info.local_exists
            },
            Flow::Halt(_) => true,
        },
{
    let name = remote_prefix() + x;
    assert(name.subrange(0, remote_prefix().len() as int) =~= remote_prefix());
    assert(name.skip(remote_prefix().len() as int) =~= x);
}

/// A name without the remote prefix resolves to itself as the local name
/// and to the prefix followed by it as the remote-tracking name, whatever
/// the external tool answers.
pub proof fn lemma_resolving_local_name(replies: Seq<Reply>, at: int, x: Seq<char>)
    requires
        !is_remote_name(x),
    ensures
        match resolution(replies, at, x) {
            Flow::Next(info, _) => {
                &&& info.local_candidate_name == x
                &&& info.remote_tracking_candidate_name == remote_prefix() + x
            },
            Flow::Halt(_) => true,
        },
{
}

/// Of the two candidates that a name resolves to, exactly one is the name
/// as it was given; the other is made from it.
pub proof fn lemma_one_candidate_is_verbatim(name: Seq<char>)
    ensures
        (local_candidate(name) == name) != (remote_candidate(name) == name),
        remote_candidate(name) == remote_tracking_name(local_candidate(name)),
{
    reveal_strlit("origin/");
    if is_remote_name(name) {
        assert(local_candidate(name).len() < name.len());
        assert(name.subrange(0, remote_prefix().len() as int) + name.skip(remote_prefix().len() as int) =~= name);
    } else {
        assert(remote_candidate(name).len() > name.len());
    }
}

} // verus!
