//! The diagram renderer, seen from the side of its results.
//!
//! Rendering runs an external program that reads a graph description and
//! writes an image. Starting the program and moving the bytes is the
//! caller's work; this module names the program, judges how a run ended and
//! words the diagnostics for the runs that failed.

use vstd::prelude::*;
use vstd::string::*;

verus! {

/// The program that renders a graph description.
pub const RENDERER_PROGRAM: &'static str = "dot";

/// The argument that selects the image format that the server announces.
pub const RENDERER_FORMAT_FLAG: &'static str = "-Tpng";

/// How a renderer process ended.
#[derive(Clone, Debug, PartialEq, Eq)]
pub struct ExitStatus {
    /// The exit code, or `None` if the process was ended by a signal.
    pub code: Option<i32>,
    /// The status in words, as the operating system layer prints it.
    pub description: String,
}

/// Mathematical value of an [`ExitStatus`].
pub struct ExitStatusView {
    pub code: Option<i32>,
    pub description: Seq<char>,
}

impl View for ExitStatus {
    type V = ExitStatusView;

    open spec fn view(&self) -> ExitStatusView {
        ExitStatusView { code: self.code, description: self.description@ }
    }
}

impl ExitStatusView {
    /// A run succeeded if it ended by itself with exit code zero.
    pub open spec fn success(self) -> bool {
        self.code == Some(0i32)
    }
}

impl ExitStatus {
    /// Whether the process ended by itself with exit code zero.
    pub fn success(&self) -> (ok: bool)
        ensures
            ok == self@.success(),
    {
        match self.code {
            Some(code) => code == 0,
            None => false,
        }
    }
}

/// Why a rendering produced no image.
#[derive(Clone, Debug, PartialEq, Eq)]
pub enum RenderError {
    /// The renderer could not be started; `reason` is the system's message.
    SpawnFailed { reason: String },
    /// The renderer started and then failed.
    ExecutionFailed { status: ExitStatus },
}

/// Mathematical value of a [`RenderError`].
pub enum RenderErrorView {
    SpawnFailed { reason: Seq<char> },
    ExecutionFailed { status: ExitStatusView },
}

impl View for RenderError {
    type V = RenderErrorView;

    open spec fn view(&self) -> RenderErrorView {
        match self {
            RenderError::SpawnFailed { reason } => RenderErrorView::SpawnFailed { reason: reason@ },
            RenderError::ExecutionFailed { status } => RenderErrorView::ExecutionFailed {
                status: status@,
            },
        }
    }
}

/// What the caller observed of one run of the renderer.
#[derive(Clone, Debug, PartialEq, Eq)]
pub enum RunReport {
    /// The process could not be started.
    NotStarted { reason: String },
    /// The process ran to its end; `output` is all it wrote.
    Finished { status: ExitStatus, output: Vec<u8> },
}

/// Mathematical value of a [`RunReport`].
pub enum RunReportView {
    NotStarted { reason: Seq<char> },
    Finished { status: ExitStatusView, output: Seq<u8> },
}

impl View for RunReport {
    type V = RunReportView;

    open spec fn view(&self) -> RunReportView {
        match self {
            RunReport::NotStarted { reason } => RunReportView::NotStarted { reason: reason@ },
            RunReport::Finished { status, output } => RunReportView::Finished {
                status: status@,
                output: output@,
            },
        }
    }
}

/// Mathematical value of a rendering's result.
pub open spec fn rendered_view(result: Result<Vec<u8>, RenderError>) -> Result<
    Seq<u8>,
    RenderErrorView,
> {
    match result {
        Ok(image) => Ok(image@),
        Err(error) => Err(error@),
    }
}

/// The result that a run stands for: the image if the renderer ran and
/// succeeded, and otherwise the error that tells a failed start from a
/// failed run.
pub open spec fn outcome_of(report: RunReportView) -> Result<Seq<u8>, RenderErrorView> {
    match report {
        RunReportView::NotStarted { reason } => Err(RenderErrorView::SpawnFailed { reason }),
        RunReportView::Finished { status, output } => if status.success() {
            Ok(output)
        } else {
            Err(RenderErrorView::ExecutionFailed { status })
        },
    }
}

/// Judges one run of the renderer.
pub fn render_result(report: RunReport) -> (result: Result<Vec<u8>, RenderError>)
    ensures
        rendered_view(result) == outcome_of(report@),
{
    match report {
        RunReport::NotStarted { reason } => Err(RenderError::SpawnFailed { reason }),
        RunReport::Finished { status, output } => {
            if status.success() {
                Ok(output)
            } else {
                Err(RenderError::ExecutionFailed { status })
            }
        },
    }
}

/// The text that the standard library's debug formatting gives for a string:
/// the string in double quotes, with the characters escaped that would not
/// read literally.
pub uninterp spec fn debug_quoted(text: Seq<char>) -> Seq<char>;

/// Formats `text` with `{:?}`, the `Debug` implementation of `str` in the
/// standard library. The contract only names the result: it is the debug
/// form of `text`, the same for the same characters.
#[verifier::external_body]
fn debug_quote(text: &str) -> (quoted: String)
    ensures
        quoted@ == debug_quoted(text@),
{
    format!("{:?}", text)
}

/// The diagnostic for a renderer that could not be started, given the
/// quoted reason.
pub open spec fn spawn_failure_text(quoted_reason: Seq<char>) -> Seq<char> {
    "Sub-command error: "@ + quoted_reason
}

/// The diagnostic for a renderer that failed, given the quoted status.
pub open spec fn exit_failure_text(quoted_status: Seq<char>) -> Seq<char> {
    "Command exited: "@ + quoted_status
}

/// Words the diagnostic for a renderer that could not be started.
pub fn spawn_failure_line(quoted_reason: &str) -> (line: String)
    ensures
        line@ == spawn_failure_text(quoted_reason@),
{
    String::from_str("Sub-command error: ").concat(quoted_reason)
}

/// Words the diagnostic for a renderer that failed.
pub fn exit_failure_line(quoted_status: &str) -> (line: String)
    ensures
        line@ == exit_failure_text(quoted_status@),
{
    String::from_str("Command exited: ").concat(quoted_status)
}

impl RenderErrorView {
    /// The diagnostic that stands for this error in a response: a fixed
    /// lead that tells the two failures apart, then the system's own words
    /// in debug quoting.
    pub open spec fn diagnostic(self) -> Seq<char> {
        match self {
            RenderErrorView::SpawnFailed { reason } => spawn_failure_text(debug_quoted(reason)),
            RenderErrorView::ExecutionFailed { status } => exit_failure_text(
                debug_quoted(status.description),
            ),
        }
    }
}

impl RenderError {
    /// The diagnostic that stands for this error in a response.
    pub fn diagnostic(&self) -> (line: String)
        ensures
            line@ == self@.diagnostic(),
    {
        match self {
            RenderError::SpawnFailed { reason } => {
                let quoted = debug_quote(reason.as_str());
                spawn_failure_line(quoted.as_str())
            },
            RenderError::ExecutionFailed { status } => {
                let quoted = debug_quote(status.description.as_str());
                exit_failure_line(quoted.as_str())
            },
        }
    }
}

} // verus!
