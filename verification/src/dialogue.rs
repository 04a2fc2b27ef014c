//! The protocol between a workflow and the world around it.
//!
//! A workflow asks for one thing at a time: a run of the external tool, an
//! answer from the user, a line on the terminal. Whoever drives it performs
//! the request and records the reply. The workflow is then run again on the
//! replies recorded so far, passes the points it has answers for, and stops
//! at the next request or at its outcome. A [`Session`] is that list of
//! replies together with the number of them already used.

use vstd::prelude::*;
use crate::messages::{FailureKind, MessageView, Notice, NoticeKind, Prompt, PromptKind, ValidationFailure};
use crate::runner::{CommandError, CommandErrorView, GitInvocation, GitInvocationView};

verus! {

/// One thing a workflow asks its driver to do.
#[derive(Clone, Debug, PartialEq, Eq)]
pub enum Request {
    /// Run the external tool. The reply is `Text` in captured mode, `Done`
    /// in interactive mode and `Flag` in exit-code-only mode.
    Run(GitInvocation),
    /// Ask for a line of text. The reply is `Text`.
    Input(Prompt),
    /// Ask yes or no, with no as the default. The reply is `Flag`.
    Confirm(Prompt),
    /// Let the user pick one of the items by typing part of it, with the
    /// first item preselected. The reply is `Choice`: an index into the
    /// items, or nothing when the user backs out.
    FuzzySelect(Prompt, Vec<String>),
    /// Let the user pick one of the items, with the item at the given index
    /// preselected. The reply is `Choice`.
    Select(Prompt, Vec<String>, usize),
    /// Show a notice. The reply is `Done`.
    Say(Notice),
    /// Ask whether a path exists. The reply is `Flag`.
    PathExists(String),
    /// Create a directory and its parents. The reply is `Done`.
    CreateDirAll(String),
    /// Remove a directory and all it holds. The reply is `Done`.
    RemoveDirAll(String),
    /// Ask for the current directory. The reply is `Text`.
    CurrentDir,
    /// Ask for the last component of the current directory, empty when it
    /// has none. The reply is `Text`.
    CurrentDirName,
    /// Make a directory the current one. The reply is `Done`.
    ChangeDir(String),
}

/// The mathematical content of a [`Request`].
pub ghost enum RequestView {
    Run(GitInvocationView),
    Input(MessageView<PromptKind>),
    Confirm(MessageView<PromptKind>),
    FuzzySelect(MessageView<PromptKind>, Seq<Seq<char>>),
    Select(MessageView<PromptKind>, Seq<Seq<char>>, usize),
    Say(MessageView<NoticeKind>),
    PathExists(Seq<char>),
    CreateDirAll(Seq<char>),
    RemoveDirAll(Seq<char>),
    CurrentDir,
    CurrentDirName,
    ChangeDir(Seq<char>),
}

impl DeepView for Request {
    type V = RequestView;

    open spec fn deep_view(&self) -> RequestView {
        match self {
            Request::Run(inv) => RequestView::Run(inv.deep_view()),
            Request::Input(p) => RequestView::Input(p.deep_view()),
            Request::Confirm(p) => RequestView::Confirm(p.deep_view()),
            Request::FuzzySelect(p, items) => RequestView::FuzzySelect(p.deep_view(), items.deep_view()),
            Request::Select(p, items, preselected) => RequestView::Select(
                p.deep_view(),
                items.deep_view(),
                *preselected,
            ),
            Request::Say(n) => RequestView::Say(n.deep_view()),
            Request::PathExists(p) => RequestView::PathExists(p@),
            Request::CreateDirAll(p) => RequestView::CreateDirAll(p@),
            Request::RemoveDirAll(p) => RequestView::RemoveDirAll(p@),
            Request::CurrentDir => RequestView::CurrentDir,
            Request::CurrentDirName => RequestView::CurrentDirName,
            Request::ChangeDir(p) => RequestView::ChangeDir(p@),
        }
    }
}

/// Why the driver could not perform a request.
#[derive(Clone, Debug, PartialEq, Eq)]
pub enum Fault {
    /// The external tool could not be started, or exited with a status
    /// other than zero where success was expected.
    Command(CommandError),
    /// The terminal or the file system failed; the text says how.
    Io(String),
}

/// The mathematical content of a [`Fault`].
pub ghost enum FaultView {
    Command(CommandErrorView),
    Io(Seq<char>),
}

impl DeepView for Fault {
    type V = FaultView;

    open spec fn deep_view(&self) -> FaultView {
        match self {
            Fault::Command(e) => FaultView::Command(e.deep_view()),
            Fault::Io(reason) => FaultView::Io(reason@),
        }
    }
}

/// What the driver hands back for one request.
#[derive(Clone, Debug, PartialEq, Eq)]
pub enum Reply {
    Done,
    Flag(bool),
    Text(String),
    Choice(Option<usize>),
    Failed(Fault),
}

/// The mathematical content of a [`Reply`].
pub ghost enum ReplyView {
    Done,
    Flag(bool),
    Text(Seq<char>),
    Choice(Option<usize>),
    Failed(FaultView),
}

impl DeepView for Reply {
    type V = ReplyView;

    open spec fn deep_view(&self) -> ReplyView {
        match self {
            Reply::Done => ReplyView::Done,
            Reply::Flag(b) => ReplyView::Flag(*b),
            Reply::Text(t) => ReplyView::Text(t@),
            Reply::Choice(c) => ReplyView::Choice(*c),
            Reply::Failed(f) => ReplyView::Failed(f.deep_view()),
        }
    }
}

/// Why a workflow ended in failure.
#[derive(Clone, Debug, PartialEq, Eq)]
pub enum WorkflowError {
    /// The external tool failed where it was expected to succeed.
    Command(CommandError),
    /// The terminal or the file system failed.
    Io(String),
    /// An input fails a local precondition.
    Validation(ValidationFailure),
    /// A recorded reply has a shape that its request cannot have.
    Protocol,
}

/// The mathematical content of a [`WorkflowError`].
pub ghost enum WorkflowErrorView {
    Command(CommandErrorView),
    Io(Seq<char>),
    Validation(MessageView<FailureKind>),
    Protocol,
}

impl DeepView for WorkflowError {
    type V = WorkflowErrorView;

    open spec fn deep_view(&self) -> WorkflowErrorView {
        match self {
            WorkflowError::Command(e) => WorkflowErrorView::Command(e.deep_view()),
            WorkflowError::Io(reason) => WorkflowErrorView::Io(reason@),
            WorkflowError::Validation(m) => WorkflowErrorView::Validation(m.deep_view()),
            WorkflowError::Protocol => WorkflowErrorView::Protocol,
        }
    }
}

/// How a workflow, or a step of one, ended.
#[derive(Clone, Debug, PartialEq, Eq)]
pub enum WorkflowOutcome {
    /// Done; what follows may go on.
    Continue,
    /// The user declined or the action is unsafe: stop, without error.
    Abort,
    /// An error that is not recovered from.
    Fail(WorkflowError),
}

/// The mathematical content of a [`WorkflowOutcome`].
pub ghost enum WorkflowOutcomeView {
    Continue,
    Abort,
    Fail(WorkflowErrorView),
}

impl DeepView for WorkflowOutcome {
    type V = WorkflowOutcomeView;

    open spec fn deep_view(&self) -> WorkflowOutcomeView {
        match self {
            WorkflowOutcome::Continue => WorkflowOutcomeView::Continue,
            WorkflowOutcome::Abort => WorkflowOutcomeView::Abort,
            WorkflowOutcome::Fail(e) => WorkflowOutcomeView::Fail(e.deep_view()),
        }
    }
}

/// Where a workflow stands after a run on the replies so far: it asks for
/// something, or it has ended.
#[derive(Clone, Debug, PartialEq, Eq)]
pub enum Step {
    Ask(Request),
    Settled(WorkflowOutcome),
}

/// The mathematical content of a [`Step`].
pub ghost enum StepView {
    Ask(RequestView),
    Settled(WorkflowOutcomeView),
}

impl DeepView for Step {
    type V = StepView;

    open spec fn deep_view(&self) -> StepView {
        match self {
            Step::Ask(r) => StepView::Ask(r.deep_view()),
            Step::Settled(o) => StepView::Settled(o.deep_view()),
        }
    }
}

/// What an attempt brought, where its failure is for the workflow to judge.
#[derive(Clone, Debug, PartialEq, Eq)]
pub enum Attempt<T> {
    Succeeded(T),
    Failed(Fault),
}

/// The mathematical content of an [`Attempt`].
pub ghost enum AttemptView<V> {
    Succeeded(V),
    Failed(FaultView),
}

impl<T: DeepView> DeepView for Attempt<T> {
    type V = AttemptView<T::V>;

    open spec fn deep_view(&self) -> AttemptView<T::V> {
        match self {
            Attempt::Succeeded(v) => AttemptView::Succeeded(v.deep_view()),
            Attempt::Failed(f) => AttemptView::Failed(f.deep_view()),
        }
    }
}

/// The course of a procedure from a position in the replies: it comes
/// through with a value and the position it has reached, or it halts with
/// the step to hand to the driver.
pub ghost enum Flow<T> {
    Next(T, int),
    Halt(StepView),
}

/// The step that ends a workflow with the error `e`.
pub open spec fn failed(e: WorkflowErrorView) -> StepView {
    StepView::Settled(WorkflowOutcomeView::Fail(e))
}

/// The step that ends a workflow with the validation failure `m`.
pub open spec fn rejected(m: MessageView<FailureKind>) -> StepView {
    failed(WorkflowErrorView::Validation(m))
}

/// The step that ends a workflow without error and without going on.
pub open spec fn aborted() -> StepView {
    StepView::Settled(WorkflowOutcomeView::Abort)
}

/// The error that a failure of the driver amounts to.
pub open spec fn error_of(f: FaultView) -> WorkflowErrorView {
    match f {
        FaultView::Command(e) => WorkflowErrorView::Command(e),
        FaultView::Io(reason) => WorkflowErrorView::Io(reason),
    }
}

/// The reply to `request` asked at position `at`: the recorded one, or a
/// halt to ask for it where none is recorded yet.
pub open spec fn exchange(replies: Seq<Reply>, at: int, request: RequestView) -> Flow<Reply> {
    if 0 <= at < replies.len() {
        Flow::Next(replies[at], at + 1)
    } else {
        Flow::Halt(StepView::Ask(request))
    }
}

/// A request whose reply is a text, with its failure left to the caller.
pub open spec fn attempt_text(replies: Seq<Reply>, at: int, request: RequestView) -> Flow<AttemptView<Seq<char>>> {
    match exchange(replies, at, request) {
        Flow::Halt(s) => Flow::Halt(s),
        Flow::Next(Reply::Text(t), p) => Flow::Next(AttemptView::Succeeded(t@), p),
        Flow::Next(Reply::Failed(f), p) => Flow::Next(AttemptView::Failed(f.deep_view()), p),
        Flow::Next(_, _) => Flow::Halt(failed(WorkflowErrorView::Protocol)),
    }
}

/// A request whose reply is a flag, with its failure left to the caller.
pub open spec fn attempt_flag(replies: Seq<Reply>, at: int, request: RequestView) -> Flow<AttemptView<bool>> {
    match exchange(replies, at, request) {
        Flow::Halt(s) => Flow::Halt(s),
        Flow::Next(Reply::Flag(b), p) => Flow::Next(AttemptView::Succeeded(b), p),
        Flow::Next(Reply::Failed(f), p) => Flow::Next(AttemptView::Failed(f.deep_view()), p),
        Flow::Next(_, _) => Flow::Halt(failed(WorkflowErrorView::Protocol)),
    }
}

/// A request whose reply is that it was done, with its failure left to the
/// caller.
pub open spec fn attempt_done(replies: Seq<Reply>, at: int, request: RequestView) -> Flow<AttemptView<()>> {
    match exchange(replies, at, request) {
        Flow::Halt(s) => Flow::Halt(s),
        Flow::Next(Reply::Done, p) => Flow::Next(AttemptView::Succeeded(()), p),
        Flow::Next(Reply::Failed(f), p) => Flow::Next(AttemptView::Failed(f.deep_view()), p),
        Flow::Next(_, _) => Flow::Halt(failed(WorkflowErrorView::Protocol)),
    }
}

/// An attempt whose failure ends the workflow.
pub open spec fn required<V>(attempt: Flow<AttemptView<V>>) -> Flow<V> {
    match attempt {
        Flow::Halt(s) => Flow::Halt(s),
        Flow::Next(AttemptView::Succeeded(v), p) => Flow::Next(v, p),
        Flow::Next(AttemptView::Failed(f), _) => Flow::Halt(failed(error_of(f))),
    }
}

/// A request whose reply is a text; a failure ends the workflow.
pub open spec fn expect_text(replies: Seq<Reply>, at: int, request: RequestView) -> Flow<Seq<char>> {
    required(attempt_text(replies, at, request))
}

/// A request whose reply is a flag; a failure ends the workflow.
pub open spec fn expect_flag(replies: Seq<Reply>, at: int, request: RequestView) -> Flow<bool> {
    required(attempt_flag(replies, at, request))
}

/// A request whose reply is that it was done; a failure ends the workflow.
pub open spec fn expect_done(replies: Seq<Reply>, at: int, request: RequestView) -> Flow<()> {
    required(attempt_done(replies, at, request))
}

/// A request whose reply is a choice; a failure ends the workflow.
pub open spec fn expect_choice(replies: Seq<Reply>, at: int, request: RequestView) -> Flow<Option<usize>> {
    match exchange(replies, at, request) {
        Flow::Halt(s) => Flow::Halt(s),
        Flow::Next(Reply::Choice(c), p) => Flow::Next(c, p),
        Flow::Next(Reply::Failed(f), _) => Flow::Halt(failed(error_of(f.deep_view()))),
        Flow::Next(_, _) => Flow::Halt(failed(WorkflowErrorView::Protocol)),
    }
}

/// Showing a notice.
pub open spec fn say(replies: Seq<Reply>, at: int, notice: MessageView<NoticeKind>) -> Flow<()> {
    expect_done(replies, at, RequestView::Say(notice))
}

/// The replies recorded so far and how many of them have been used.
pub struct Session<'a> {
    pub replies: &'a Vec<Reply>,
    pub at: usize,
}

/// Whether a procedure that went from `before` to `after` and returned `r`
/// took the course `flow`.
pub open spec fn agrees<T: DeepView>(before: Session, after: Session, r: Result<T, Step>, flow: Flow<T::V>) -> bool {
    &&& after.replies == before.replies
    &&& match flow {
        Flow::Next(v, p) => r is Ok && r->Ok_0.deep_view() == v && after.at == p,
        Flow::Halt(s) => r is Err && r->Err_0.deep_view() == s,
    }
}

impl CommandError {
    /// A copy of this error.
    pub fn duplicate(&self) -> (r: CommandError)
        ensures
            r.deep_view() == self.deep_view(),
    {
        match self {
            CommandError::SpawnFailed { operation, reason } => CommandError::SpawnFailed {
                operation: *operation,
                reason: reason.clone(),
            },
            CommandError::NonZeroExit { operation, code, stderr, stdout } => CommandError::NonZeroExit {
                operation: *operation,
                code: *code,
                stderr: stderr.clone(),
                stdout: stdout.clone(),
            },
        }
    }
}

impl Fault {
    /// A copy of this failure.
    pub fn duplicate(&self) -> (r: Fault)
        ensures
            r.deep_view() == self.deep_view(),
    {
        match self {
            Fault::Command(e) => Fault::Command(e.duplicate()),
            Fault::Io(reason) => Fault::Io(reason.clone()),
        }
    }

    /// The error that this failure amounts to when nothing recovers from it.
    pub fn into_error(self) -> (e: WorkflowError)
        ensures
            e.deep_view() == error_of(self.deep_view()),
    {
        match self {
            Fault::Command(c) => WorkflowError::Command(c),
            Fault::Io(reason) => WorkflowError::Io(reason),
        }
    }
}

impl Step {
    /// The step that ends a workflow with the error `e`.
    pub fn failed(e: WorkflowError) -> (s: Step)
        ensures
            s.deep_view() == failed(e.deep_view()),
    {
        Step::Settled(WorkflowOutcome::Fail(e))
    }

    /// The step that ends a workflow with the validation failure `m`.
    pub fn rejected(m: ValidationFailure) -> (s: Step)
        ensures
            s.deep_view() == rejected(m.deep_view()),
    {
        Step::Settled(WorkflowOutcome::Fail(WorkflowError::Validation(m)))
    }

    /// The step that ends a workflow without error and without going on.
    pub fn aborted() -> (s: Step)
        ensures
            s.deep_view() == aborted(),
    {
        Step::Settled(WorkflowOutcome::Abort)
    }
}

impl<'a> Session<'a> {
    /// A session on `replies` of which none is used yet.
    pub fn replay(replies: &'a Vec<Reply>) -> (s: Self)
        ensures
            s.replies == replies,
            s.at == 0,
    {
        Session { replies, at: 0 }
    }

    /// The replies as a sequence.
    pub open spec fn log(&self) -> Seq<Reply> {
        self.replies@
    }

    /// The number of replies used so far.
    pub open spec fn pos(&self) -> int {
        self.at as int
    }

    /// Asks for a text and leaves a failure to the caller.
    pub fn attempt_text(&mut self, request: Request) -> (r: Result<Attempt<String>, Step>)
        ensures
            agrees(*old(self), *final(self), r, attempt_text(old(self).log(), old(self).pos(), request.deep_view())),
    {
        let replies = self.replies;
        if self.at >= replies.len() {
            return Err(Step::Ask(request));
        }
        match &replies[self.at] {
            Reply::Text(t) => {
                self.at = self.at + 1;
                Ok(Attempt::Succeeded(t.clone()))
            },
            Reply::Failed(f) => {
                self.at = self.at + 1;
                Ok(Attempt::Failed(f.duplicate()))
            },
            _ => Err(Step::failed(WorkflowError::Protocol)),
        }
    }

    /// Asks for a flag and leaves a failure to the caller.
    pub fn attempt_flag(&mut self, request: Request) -> (r: Result<Attempt<bool>, Step>)
        ensures
            agrees(*old(self), *final(self), r, attempt_flag(old(self).log(), old(self).pos(), request.deep_view())),
    {
        let replies = self.replies;
        if self.at >= replies.len() {
            return Err(Step::Ask(request));
        }
        match &replies[self.at] {
            Reply::Flag(b) => {
                self.at = self.at + 1;
                Ok(Attempt::Succeeded(*b))
            },
            Reply::Failed(f) => {
                self.at = self.at + 1;
                Ok(Attempt::Failed(f.duplicate()))
            },
            _ => Err(Step::failed(WorkflowError::Protocol)),
        }
    }

    /// Asks for something to be done and leaves a failure to the caller.
    pub fn attempt_done(&mut self, request: Request) -> (r: Result<Attempt<()>, Step>)
        ensures
            agrees(*old(self), *final(self), r, attempt_done(old(self).log(), old(self).pos(), request.deep_view())),
    {
        let replies = self.replies;
        if self.at >= replies.len() {
            return Err(Step::Ask(request));
        }
        match &replies[self.at] {
            Reply::Done => {
                self.at = self.at + 1;
                Ok(Attempt::Succeeded(()))
            },
            Reply::Failed(f) => {
                self.at = self.at + 1;
                Ok(Attempt::Failed(f.duplicate()))
            },
            _ => Err(Step::failed(WorkflowError::Protocol)),
        }
    }

    /// Asks for a text; a failure ends the workflow.
    pub fn text(&mut self, request: Request) -> (r: Result<String, Step>)
        ensures
            agrees(*old(self), *final(self), r, expect_text(old(self).log(), old(self).pos(), request.deep_view())),
    {
        match self.attempt_text(request)? {
            Attempt::Succeeded(t) => Ok(t),
            Attempt::Failed(f) => Err(Step::failed(f.into_error())),
        }
    }

    /// Asks for a flag; a failure ends the workflow.
    pub fn flag(&mut self, request: Request) -> (r: Result<bool, Step>)
        ensures
            agrees(*old(self), *final(self), r, expect_flag(old(self).log(), old(self).pos(), request.deep_view())),
    {
        match self.attempt_flag(request)? {
            Attempt::Succeeded(b) => Ok(b),
            Attempt::Failed(f) => Err(Step::failed(f.into_error())),
        }
    }

    /// Asks for something to be done; a failure ends the workflow.
    pub fn done(&mut self, request: Request) -> (r: Result<(), Step>)
        ensures
            agrees(*old(self), *final(self), r, expect_done(old(self).log(), old(self).pos(), request.deep_view())),
    {
        match self.attempt_done(request)? {
            Attempt::Succeeded(_) => Ok(()),
            Attempt::Failed(f) => Err(Step::failed(f.into_error())),
        }
    }

    /// Asks for a choice; a failure ends the workflow.
    pub fn choice(&mut self, request: Request) -> (r: Result<Option<usize>, Step>)
        ensures
            agrees(*old(self), *final(self), r, expect_choice(old(self).log(), old(self).pos(), request.deep_view())),
    {
        let replies = self.replies;
        if self.at >= replies.len() {
            return Err(Step::Ask(request));
        }
        match &replies[self.at] {
            Reply::Choice(c) => {
                self.at = self.at + 1;
                Ok(*c)
            },
            Reply::Failed(f) => Err(Step::failed(f.duplicate().into_error())),
            _ => Err(Step::failed(WorkflowError::Protocol)),
        }
    }

    /// Shows a notice.
    pub fn say(&mut self, notice: Notice) -> (r: Result<(), Step>)
        ensures
            agrees(*old(self), *final(self), r, say(old(self).log(), old(self).pos(), notice.deep_view())),
    {
        self.done(Request::Say(notice))
    }
}

} // verus!
