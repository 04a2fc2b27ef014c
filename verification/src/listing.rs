//! The branch listing: every branch with how it stands to the remote.

use vstd::prelude::*;
use crate::dialogue::{agrees, expect_done, expect_text, say, Flow, Reply, Session, Step};
use crate::git::git;
use crate::messages::{about, plain, Message, NoticeKind};
use crate::runner::GitOperation;
use crate::steps::{
    display_info, get_branch_display_info, get_origin_url, origin, origin_url, unwrap_or_default, url_or_empty,
};
use crate::text::{
    contains, ends_with, has_infix, has_text, lines_of, push_text, split_lines, starts_with, strip_prefix, trim,
    trim_start_matches, trimmed, without_leading,
};
use crate::workflows::BranchArgs;

verus! {

/// What a line of the full listing stands for.
#[derive(Clone, Debug, PartialEq, Eq)]
pub enum ListedBranch {
    /// Nothing to show: an empty line, a symbolic ref, or a `HEAD`.
    Nothing,
    /// A branch of the remote, by its name there.
    Remote(String),
    /// A local branch, and whether it is the one checked out.
    Local(String, bool),
}

/// The mathematical content of a [`ListedBranch`].
pub ghost enum ListedBranchView {
    Nothing,
    Remote(Seq<char>),
    Local(Seq<char>, bool),
}

impl DeepView for ListedBranch {
    type V = ListedBranchView;

    open spec fn deep_view(&self) -> ListedBranchView {
        match self {
            ListedBranch::Nothing => ListedBranchView::Nothing,
            ListedBranch::Remote(name) => ListedBranchView::Remote(name@),
            ListedBranch::Local(name, is_current) => ListedBranchView::Local(name@, *is_current),
        }
    }
}

/// What the line `line` of the full listing stands for. The current
/// branch is marked by a star in front of its name; a branch of the remote
/// is listed as `remotes/origin/` and its name.
pub open spec fn listed(line: Seq<char>) -> ListedBranchView {
    let t = trimmed(line);
    if t.len() == 0 || has_infix(t, " -> "@) || "/HEAD"@.is_suffix_of(t) {
        ListedBranchView::Nothing
    } else {
        let name = without_leading(t, "* "@);
        if "remotes/origin/"@.is_prefix_of(name) {
            ListedBranchView::Remote(name.skip("remotes/origin/"@.len() as int))
        } else {
            ListedBranchView::Local(name, "* "@.is_prefix_of(t))
        }
    }
}

/// Showing the branches that `lines` stand for, one after the other.
/// `shown` holds the local branches shown so far: a branch of the remote
/// gets a line of its own only where no local branch of its name was
/// shown before it.
pub open spec fn list_lines(
    replies: Seq<Reply>,
    at: int,
    lines: Seq<Seq<char>>,
    shown: Seq<Seq<char>>,
    uncommitted_changes: bool,
    remote_url: Seq<char>,
) -> Flow<()>
    decreases lines.len(),
{
    if lines.len() == 0 {
        Flow::Next((), at)
    } else {
        let rest = lines.drop_first();
        match listed(lines[0]) {
            ListedBranchView::Nothing => list_lines(replies, at, rest, shown, uncommitted_changes, remote_url),
            ListedBranchView::Remote(name) => if shown.contains(name) {
                list_lines(replies, at, rest, shown, uncommitted_changes, remote_url)
            } else {
                match say(replies, at, about(NoticeKind::RemoteOnlyBranch, name)) {
                    Flow::Halt(s) => Flow::Halt(s),
                    Flow::Next(_, p) => list_lines(replies, p, rest, shown, uncommitted_changes, remote_url),
                }
            },
            ListedBranchView::Local(name, is_current) => match display_info(
                replies,
                at,
                name,
                is_current,
                uncommitted_changes,
                remote_url,
            ) {
                Flow::Halt(s) => Flow::Halt(s),
                Flow::Next(line, p) => match say(replies, p, line) {
                    Flow::Halt(s) => Flow::Halt(s),
                    Flow::Next(_, q) => list_lines(
                        replies,
                        q,
                        rest,
                        shown.push(name),
                        uncommitted_changes,
                        remote_url,
                    ),
                },
            },
        }
    }
}

/// The head of the listing: with a remote configured, it is fetched from
/// first, so that what is shown of it is up to date.
pub open spec fn listing_head(replies: Seq<Reply>, at: int, remote_url: Seq<char>) -> Flow<()> {
    if remote_url.len() > 0 {
        match expect_done(replies, at, git(GitOperation::FetchPrune, seq![origin()])) {
            Flow::Halt(s) => Flow::Halt(s),
            Flow::Next(_, p) => say(replies, p, plain(NoticeKind::BranchListWithRemote)),
        }
    } else {
        say(replies, at, plain(NoticeKind::BranchListLocalOnly))
    }
}

/// `branch`: the remote's address is asked for, the full listing and the
/// state of the working tree are read, and each branch is shown.
pub open spec fn branch_listing(replies: Seq<Reply>, at: int) -> Flow<()> {
    match origin_url(replies, at) {
        Flow::Halt(s) => Flow::Halt(s),
        Flow::Next(attempt, p) => {
            let remote_url = url_or_empty(attempt);
            match listing_head(replies, p, remote_url) {
                Flow::Halt(s) => Flow::Halt(s),
                Flow::Next(_, q) => match expect_text(replies, q, git(GitOperation::BranchListAll, Seq::empty())) {
                    Flow::Halt(s) => Flow::Halt(s),
                    Flow::Next(listing, u) => match expect_text(
                        replies,
                        u,
                        git(GitOperation::StatusPorcelain, Seq::empty()),
                    ) {
                        Flow::Halt(s) => Flow::Halt(s),
                        Flow::Next(status, v) => list_lines(
                            replies,
                            v,
                            lines_of(listing),
                            Seq::empty(),
                            status.len() > 0,
                            remote_url,
                        ),
                    },
                },
            }
        },
    }
}

/// Reads what a line of the full listing stands for.
pub fn read_listed(line: &str) -> (r: ListedBranch)
    ensures
        r.deep_view() == listed(line@),
{
    let trimmed_line = trim(line);
    let t = trimmed_line.as_str();
    if t.unicode_len() == 0 || contains(t, " -> ") || ends_with(t, "/HEAD") {
        return ListedBranch::Nothing;
    }
    let is_current = starts_with(t, "* ");
    let name_part = trim_start_matches(t, "* ");
    match strip_prefix(name_part.as_str(), "remotes/origin/") {
        Some(remote_branch_name) => ListedBranch::Remote(remote_branch_name),
        None => ListedBranch::Local(name_part, is_current),
    }
}

/// Shows the branches that `lines` stand for.
pub fn show_listed(lines: &Vec<String>, uncommitted_changes: bool, remote_url: &str, session: &mut Session) -> (r:
    Result<(), Step>)
    ensures
        agrees(
            *old(session),
            *final(session),
            r,
            list_lines(
                old(session).log(),
                old(session).pos(),
                lines.deep_view(),
                Seq::empty(),
                uncommitted_changes,
                remote_url@,
            ),
        ),
{
    let mut displayed_locals: Vec<String> = Vec::new();
    let mut i: usize = 0;
    let ghost whole = list_lines(
        old(session).log(),
        old(session).pos(),
        lines.deep_view(),
        Seq::empty(),
        uncommitted_changes,
        remote_url@,
    );
    assert(lines.deep_view().skip(0) =~= lines.deep_view());
    assert(displayed_locals.deep_view() =~= Seq::<Seq<char>>::empty());
    while i < lines.len()
        invariant
            i <= lines.len(),
            session.replies == old(session).replies,
            whole == list_lines(
                session.log(),
                session.pos(),
                lines.deep_view().skip(i as int),
                displayed_locals.deep_view(),
                uncommitted_changes,
                remote_url@,
            ),
            whole == list_lines(
                old(session).log(),
                old(session).pos(),
                lines.deep_view(),
                Seq::empty(),
                uncommitted_changes,
                remote_url@,
            ),
        decreases lines.len() - i,
    {
        proof {
            let rest = lines.deep_view().skip(i as int);
            assert(rest[0] == lines[i as int]@);
            assert(rest.drop_first() =~= lines.deep_view().skip(i + 1));
        }
        match read_listed(lines[i].as_str()) {
            ListedBranch::Nothing => {},
            ListedBranch::Remote(name) => {
                if !has_text(&displayed_locals, name.as_str()) {
                    session.say(Message::about(NoticeKind::RemoteOnlyBranch, name.as_str()))?;
                }
            },
            ListedBranch::Local(name, is_current) => {
                let line = get_branch_display_info(
                    name.as_str(),
                    is_current,
                    uncommitted_changes,
                    remote_url,
                    session,
                )?;
                session.say(line)?;
                push_text(&mut displayed_locals, name);
            },
        }
        i = i + 1;
    }
    Ok(())
}

/// Lists the branches, each with how it stands to the remote.
pub fn git_branch(_args: BranchArgs, session: &mut Session) -> (r: Result<(), Step>)
    ensures
        agrees(*old(session), *final(session), r, branch_listing(old(session).log(), old(session).pos())),
{
    let remote_url = unwrap_or_default(get_origin_url(session)?);
    if remote_url.as_str().unicode_len() > 0 {
        session.fetch_prune("origin")?;
        session.say(Message::plain(NoticeKind::BranchListWithRemote))?;
    } else {
        session.say(Message::plain(NoticeKind::BranchListLocalOnly))?;
    }
    let branches_all_str = session.branch_list_all_str()?;
    let status = session.status_porcelain_v1()?;
    let uncommitted_changes = status.as_str().unicode_len() > 0;
    let lines = split_lines(branches_all_str.as_str());
    show_listed(&lines, uncommitted_changes, remote_url.as_str(), session)
}

} // verus!
