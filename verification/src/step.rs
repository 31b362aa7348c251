//! The units of outside work that an export is made of, and the errors an
//! export can end in.

use vstd::prelude::*;
use crate::invocation::Invocation;
use crate::invocation::texts;
use crate::invocation::push_texts;

verus! {

/// What kind of failure ended an export.
#[derive(Debug, Clone, Copy, PartialEq, Eq)]
pub enum ErrorKind {
    /// The request was refused before any work was done for it.
    Validation,
    /// Work on the scratch directory or on a file in it failed.
    Workspace,
    /// The media tool could not be started.
    ToolInvocation,
    /// The media tool ran and reported a failure.
    ToolExecution,
    /// No audio was extracted, so there is nothing to assemble.
    NoAudioTrack,
}

/// The failure of an export: its kind and the message for the caller.
#[derive(Debug, PartialEq, Eq)]
pub struct ExportError {
    pub kind: ErrorKind,
    pub message: String,
}

/// The mathematical content of an [`ExportError`].
pub struct ErrorView {
    pub kind: ErrorKind,
    pub message: Seq<char>,
}

impl View for ExportError {
    type V = ErrorView;

    open spec fn view(&self) -> ErrorView {
        ErrorView { kind: self.kind, message: self.message@ }
    }
}

impl ExportError {
    /// The error of a tool that ran and failed: the step's words, then the
    /// tool's diagnostics unchanged.
    pub fn tool_failure(failure_prefix: &str, diagnostics: &str) -> (e: ExportError)
        ensures
            e@ == (ErrorView {
                kind: ErrorKind::ToolExecution,
                message: failure_prefix@ + diagnostics@,
            }),
    {
        let mut message = String::from_str(failure_prefix);
        message.append(diagnostics);
        ExportError { kind: ErrorKind::ToolExecution, message }
    }

    /// The error of work that could not be done at all: the step's words,
    /// then the reason unchanged. `tool` tells whether the work was a run of
    /// the tool or work on the scratch directory.
    pub fn refusal(refusal_prefix: &str, tool: bool, reason: &str) -> (e: ExportError)
        ensures
            e@ == (ErrorView {
                kind: if tool {
                    ErrorKind::ToolInvocation
                } else {
                    ErrorKind::Workspace
                },
                message: refusal_prefix@ + reason@,
            }),
    {
        let mut message = String::from_str(refusal_prefix);
        message.append(reason);
        ExportError {
            kind: if tool {
                ErrorKind::ToolInvocation
            } else {
                ErrorKind::Workspace
            },
            message,
        }
    }

    /// A copy of the error.
    pub fn duplicate(&self) -> (r: ExportError)
        ensures
            r@ == self@,
    {
        ExportError { kind: self.kind, message: self.message.clone() }
    }
}

/// One unit of outside work.
#[derive(Debug, PartialEq, Eq)]
pub enum Work {
    /// Create the directory `path` and its missing parents.
    CreateDir { path: String },
    /// Run the media tool and wait for it to exit.
    Run { invocation: Invocation },
    /// Write `content` to the file `path`, replacing it.
    WriteText { path: String, content: String },
    /// Copy the file `from` to `to`.
    CopyFile { from: String, to: String },
}

/// The mathematical content of a [`Work`].
pub enum WorkView {
    CreateDir { path: Seq<char> },
    Run { args: Seq<Seq<char>> },
    WriteText { path: Seq<char>, content: Seq<char> },
    CopyFile { from: Seq<char>, to: Seq<char> },
}

impl View for Work {
    type V = WorkView;

    open spec fn view(&self) -> WorkView {
        match self {
            Work::CreateDir { path } => WorkView::CreateDir { path: path@ },
            Work::Run { invocation } => WorkView::Run { args: invocation@ },
            Work::WriteText { path, content } => WorkView::WriteText {
                path: path@,
                content: content@,
            },
            Work::CopyFile { from, to } => WorkView::CopyFile { from: from@, to: to@ },
        }
    }
}

/// A copy of a list of strings.
pub fn copy_texts(v: &Vec<String>) -> (r: Vec<String>)
    ensures
        texts(r@) == texts(v@),
{
    let mut r: Vec<String> = Vec::new();
    push_texts(&mut r, v);
    assert(texts(r@) =~= texts(v@));
    r
}

impl Invocation {
    /// A copy of the invocation.
    pub fn duplicate(&self) -> (r: Invocation)
        ensures
            r@ == self@,
    {
        Invocation { args: copy_texts(&self.args) }
    }
}

impl Work {
    /// A copy of the work.
    pub fn duplicate(&self) -> (r: Work)
        ensures
            r@ == self@,
    {
        match self {
            Work::CreateDir { path } => Work::CreateDir { path: path.clone() },
            Work::Run { invocation } => Work::Run { invocation: invocation.duplicate() },
            Work::WriteText { path, content } => Work::WriteText {
                path: path.clone(),
                content: content.clone(),
            },
            Work::CopyFile { from, to } => Work::CopyFile { from: from.clone(), to: to.clone() },
        }
    }
}

/// A unit of work with the words that open the error message when it fails:
/// `failure_prefix` before the tool's own diagnostics when the tool ran and
/// failed, `refusal_prefix` before the reason when the work could not be done
/// at all.
#[derive(Debug, PartialEq, Eq)]
pub struct PlannedStep {
    pub work: Work,
    pub failure_prefix: String,
    pub refusal_prefix: String,
}

/// The mathematical content of a [`PlannedStep`].
pub struct StepView {
    pub work: WorkView,
    pub failure_prefix: Seq<char>,
    pub refusal_prefix: Seq<char>,
}

impl View for PlannedStep {
    type V = StepView;

    open spec fn view(&self) -> StepView {
        StepView {
            work: self.work@,
            failure_prefix: self.failure_prefix@,
            refusal_prefix: self.refusal_prefix@,
        }
    }
}

/// The views of a list of steps, in the same order.
pub open spec fn step_views(steps: Seq<PlannedStep>) -> Seq<StepView> {
    steps.map_values(|s: PlannedStep| s@)
}

/// Appends a step to a list of steps.
pub fn push_step(steps: &mut Vec<PlannedStep>, work: Work, failure_prefix: &str, refusal_prefix: &str)
    ensures
        step_views(final(steps)@) == step_views(old(steps)@).push(
            StepView {
                work: work@,
                failure_prefix: failure_prefix@,
                refusal_prefix: refusal_prefix@,
            },
        ),
{
    let step = PlannedStep {
        work,
        failure_prefix: String::from_str(failure_prefix),
        refusal_prefix: String::from_str(refusal_prefix),
    };
    steps.push(step);
    assert(step_views(steps@) =~= step_views(old(steps)@).push(step@));
}

/// Moves the steps of `more` to the end of `steps`, in order.
pub fn append_steps(steps: &mut Vec<PlannedStep>, more: Vec<PlannedStep>)
    ensures
        step_views(final(steps)@) == step_views(old(steps)@) + step_views(more@),
{
    let ghost moved = more@;
    let mut more = more;
    steps.append(&mut more);
    assert(step_views(steps@) =~= step_views(old(steps)@) + step_views(moved));
}

} // verus!
