//! The lifecycle coordinator: one state machine that decides, from pipeline
//! status messages and termination signals, when the pipeline is torn down
//! and how the process leaves.
//!
//! The coordinator performs no work itself. Each event is answered with the
//! [`Action`] the caller has to carry out; the caller reports back with the
//! next event.

use vstd::prelude::*;

verus! {

/// Why the coordinator left the running state.
#[derive(Clone, Copy, Debug, PartialEq, Eq, Structural)]
pub enum StopCause {
    /// The pipeline reported the end of its stream.
    EndOfStream,
    /// The pipeline reported an error.
    PipelineError,
    /// A termination signal arrived.
    Signal,
}

/// Where the coordinator stands.
#[derive(Clone, Copy, Debug, PartialEq, Eq, Structural)]
pub enum Phase {
    /// The pipeline is built and started; the message loop is not entered yet.
    Starting,
    /// The message loop dispatches status messages.
    Running,
    /// The pipeline is being brought to its idle state.
    Stopping(StopCause),
    /// Terminal.
    Stopped(StopCause),
}

/// Source and detail of a pipeline error, kept for the log.
#[derive(Clone, Debug, PartialEq, Eq)]
pub struct ErrorReport {
    /// Identity of the element that raised the error.
    pub source: String,
    /// What went wrong, with any debugging text the pipeline attached.
    pub detail: String,
}

/// Mathematical value of an [`ErrorReport`].
pub struct ErrorReportView {
    pub source: Seq<char>,
    pub detail: Seq<char>,
}

impl View for ErrorReport {
    type V = ErrorReportView;

    open spec fn view(&self) -> ErrorReportView {
        ErrorReportView { source: self.source@, detail: self.detail@ }
    }
}

/// An asynchronous notification from the pipeline.
#[derive(Clone, Debug, PartialEq, Eq)]
pub enum StatusMessage {
    EndOfStream,
    Error(ErrorReport),
    /// Any other notification; it never changes the lifecycle.
    Other,
}

/// Mathematical value of a [`StatusMessage`].
pub enum StatusMessageView {
    EndOfStream,
    Error(ErrorReportView),
    Other,
}

impl View for StatusMessage {
    type V = StatusMessageView;

    open spec fn view(&self) -> StatusMessageView {
        match self {
            StatusMessage::EndOfStream => StatusMessageView::EndOfStream,
            StatusMessage::Error(report) => StatusMessageView::Error(report@),
            StatusMessage::Other => StatusMessageView::Other,
        }
    }
}

/// What can happen to the coordinator.
#[derive(Clone, Debug, PartialEq, Eq)]
pub enum Event {
    /// Start-up is complete: the pipeline runs, the subscription to its
    /// messages stands and the diagnostics server has been launched.
    Started,
    /// The pipeline emitted a status message.
    Message(StatusMessage),
    /// The operating system asked the process to terminate.
    Signal,
    /// The caller has finished a [`Action::Teardown`].
    TornDown,
}

/// Mathematical value of an [`Event`].
pub enum EventView {
    Started,
    Message(StatusMessageView),
    Signal,
    TornDown,
}

impl View for Event {
    type V = EventView;

    open spec fn view(&self) -> EventView {
        match self {
            Event::Started => EventView::Started,
            Event::Message(message) => EventView::Message(message@),
            Event::Signal => EventView::Signal,
            Event::TornDown => EventView::TornDown,
        }
    }
}

/// What the caller has to do in answer to an event.
#[derive(Clone, Debug, PartialEq, Eq)]
pub enum Action {
    /// Nothing changed hands; keep waiting for the next event.
    Wait,
    /// Log the report if there is one, leave the message loop, bring the
    /// pipeline to its idle state, then report [`Event::TornDown`].
    Teardown { report: Option<ErrorReport> },
    /// Give control back to the surrounding program, which finishes its own
    /// cleanup and leaves in the ordinary way.
    ReturnToCaller,
    /// Terminate the process at once; requests in flight are not drained.
    ExitProcess,
    /// The event does not concern the current phase and was dropped.
    Discard,
}

/// Mathematical value of an [`Action`].
pub enum ActionView {
    Wait,
    Teardown { report: Option<ErrorReportView> },
    ReturnToCaller,
    ExitProcess,
    Discard,
}

impl View for Action {
    type V = ActionView;

    open spec fn view(&self) -> ActionView {
        match self {
            Action::Wait => ActionView::Wait,
            Action::Teardown { report } => ActionView::Teardown {
                report: match report {
                    Some(r) => Some(r@),
                    None => None,
                },
            },
            Action::ReturnToCaller => ActionView::ReturnToCaller,
            Action::ExitProcess => ActionView::ExitProcess,
            Action::Discard => ActionView::Discard,
        }
    }
}

/// True once a teardown has been ordered: the phase is stopping or stopped.
pub open spec fn winding_down(phase: Phase) -> bool {
    phase is Stopping || phase is Stopped
}

/// The transition relation, as a function: the phase that follows `phase`
/// on `event`, and the action that is owed.
///
/// Before the loop runs only the start notice and a signal count. In the
/// loop, end of stream and an error each order the teardown, any other
/// message changes nothing, and a signal orders the teardown at once. While
/// stopping, the end of the teardown leads to the terminal phase, where the
/// cause decides between leaving the process and handing control back. A
/// signal that arrives after a teardown was ordered ends the process without
/// ordering another. Everything else is dropped.
pub open spec fn step(phase: Phase, event: EventView) -> (Phase, ActionView) {
    match (phase, event) {
        (Phase::Starting, EventView::Started) => (Phase::Running, ActionView::Wait),
        (Phase::Starting, EventView::Signal) | (Phase::Running, EventView::Signal) => (
            Phase::Stopping(StopCause::Signal),
            ActionView::Teardown { report: None },
        ),
        (Phase::Running, EventView::Message(StatusMessageView::EndOfStream)) => (
            Phase::Stopping(StopCause::EndOfStream),
            ActionView::Teardown { report: None },
        ),
        (Phase::Running, EventView::Message(StatusMessageView::Error(report))) => (
            Phase::Stopping(StopCause::PipelineError),
            ActionView::Teardown { report: Some(report) },
        ),
        (Phase::Running, EventView::Message(StatusMessageView::Other)) => (
            Phase::Running,
            ActionView::Wait,
        ),
        (Phase::Stopping(cause), EventView::TornDown) => (
            Phase::Stopped(cause),
            if cause == StopCause::Signal {
                ActionView::ExitProcess
            } else {
                ActionView::ReturnToCaller
            },
        ),
        (Phase::Stopping(_), EventView::Signal) | (Phase::Stopped(_), EventView::Signal) => (
            Phase::Stopped(StopCause::Signal),
            ActionView::ExitProcess,
        ),
        _ => (phase, ActionView::Discard),
    }
}

/// The lifecycle coordinator.
#[derive(Clone, Debug, PartialEq, Eq)]
pub struct Coordinator {
    phase: Phase,
}

impl View for Coordinator {
    type V = Phase;

    closed spec fn view(&self) -> Phase {
        self.phase
    }
}

impl Coordinator {
    /// A coordinator at the beginning of its life.
    pub fn new() -> (coordinator: Coordinator)
        ensures
            coordinator@ == Phase::Starting,
    {
        Coordinator { phase: Phase::Starting }
    }

    /// The current phase.
    pub fn phase(&self) -> (phase: Phase)
        ensures
            phase == self@,
    {
        self.phase
    }

    /// Takes one event and says what to do about it.
    pub fn on_event(&mut self, event: Event) -> (action: Action)
        ensures
            (final(self)@, action@) == step(old(self)@, event@),
    {
        match (self.phase, event) {
            (Phase::Starting, Event::Started) => {
                self.phase = Phase::Running;
                Action::Wait
            },
            (Phase::Starting, Event::Signal) | (Phase::Running, Event::Signal) => {
                self.phase = Phase::Stopping(StopCause::Signal);
                Action::Teardown { report: None }
            },
            (Phase::Running, Event::Message(StatusMessage::EndOfStream)) => {
                self.phase = Phase::Stopping(StopCause::EndOfStream);
                Action::Teardown { report: None }
            },
            (Phase::Running, Event::Message(StatusMessage::Error(report))) => {
                self.phase = Phase::Stopping(StopCause::PipelineError);
                Action::Teardown { report: Some(report) }
            },
            (Phase::Running, Event::Message(StatusMessage::Other)) => Action::Wait,
            (Phase::Stopping(cause), Event::TornDown) => {
                self.phase = Phase::Stopped(cause);
                match cause {
                    StopCause::Signal => Action::ExitProcess,
                    _ => Action::ReturnToCaller,
                }
            },
            (Phase::Stopping(_), Event::Signal) | (Phase::Stopped(_), Event::Signal) => {
                self.phase = Phase::Stopped(StopCause::Signal);
                Action::ExitProcess
            },
            _ => Action::Discard,
        }
    }
}

} // verus!
