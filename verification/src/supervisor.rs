//! The life cycle of one supervised run, as a state machine.
//!
//! The caller spawns the engine, reads its output and runs commands; it
//! reports what happened as events and carries out the actions that come
//! back. Which action follows which event is decided here.

use vstd::prelude::*;
use crate::classifier::{log, logged, LineClassifier, LogRecord, LogRecordView, LINE_PATTERN};
use crate::dns::DnsTarget;
use crate::trigger::{announces_tunnel, is_trigger};

verus! {

/// How a run ended.
#[derive(Clone, Copy, Debug, PartialEq, Eq, Structural)]
pub enum Outcome {
    /// The engine's output was drained to its end.
    Completed,
    /// The engine could not be started.
    StartupFailed,
}

/// The exit code that stands for each outcome.
pub open spec fn exit_code_of(outcome: Outcome) -> u8 {
    match outcome {
        Outcome::Completed => 0,
        Outcome::StartupFailed => 1,
    }
}

impl Outcome {
    /// The process exit code: zero for a completed run, non-zero otherwise.
    pub fn exit_code(&self) -> (code: u8)
        ensures
            code == exit_code_of(*self),
            code == 0 <==> *self == Outcome::Completed,
    {
        match self {
            Outcome::Completed => 0,
            Outcome::StartupFailed => 1,
        }
    }
}

/// Where a run stands.
#[derive(Clone, Copy, Debug, PartialEq, Eq, Structural)]
pub enum Phase {
    /// The engine is not started yet.
    Starting,
    /// The engine runs and its output is being read.
    Running,
    /// The run is over and the DNS override is being withdrawn.
    Terminating(Outcome),
    /// The override is withdrawn; the process may exit.
    Stopped(Outcome),
}

/// What the caller reports.
#[derive(Clone, Debug)]
pub enum Event {
    /// The engine was spawned and the interrupt handler installed.
    Started,
    /// The working directory could not be found, the engine could not be
    /// spawned, or the interrupt handler could not be installed.
    StartFailed,
    /// The engine wrote one line.
    Line(String),
    /// Both of the engine's output streams reached their end.
    OutputClosed,
    /// The request to withdraw the DNS override was carried out, whether or
    /// not the command succeeded.
    Restored,
}

/// An `Event` with its line as a sequence of characters.
pub enum EventView {
    Started,
    StartFailed,
    Line(Seq<char>),
    OutputClosed,
    Restored,
}

impl View for Event {
    type V = EventView;

    open spec fn view(&self) -> EventView {
        match self {
            Event::Started => EventView::Started,
            Event::StartFailed => EventView::StartFailed,
            Event::Line(l) => EventView::Line(l@),
            Event::OutputClosed => EventView::OutputClosed,
            Event::Restored => EventView::Restored,
        }
    }
}

/// What the caller is asked to do.
#[derive(Clone, Debug)]
pub enum Action {
    /// Tell the user that the tunnel came up and DNS is being set.
    Notice,
    /// Set the DNS servers of the active interface. Activation is to be
    /// started without waiting for it to finish.
    SetDns(DnsTarget),
    /// Write a record to the console.
    Emit(LogRecord),
    /// Leave the process.
    Exit(Outcome),
}

/// An `Action` with its record as plain values.
pub enum ActionView {
    Notice,
    SetDns(DnsTarget),
    Emit(LogRecordView),
    Exit(Outcome),
}

impl View for Action {
    type V = ActionView;

    open spec fn view(&self) -> ActionView {
        match self {
            Action::Notice => ActionView::Notice,
            Action::SetDns(t) => ActionView::SetDns(*t),
            Action::Emit(r) => ActionView::Emit(r@),
            Action::Exit(o) => ActionView::Exit(*o),
        }
    }
}

/// The views of a sequence of actions, in order.
pub open spec fn actions_view(actions: Seq<Action>) -> Seq<ActionView> {
    actions.map_values(|a: Action| a@)
}

/// The phase after `event` arrives in `phase`. An event that the phase does
/// not expect leaves it as it is.
pub open spec fn next_phase(phase: Phase, event: EventView) -> Phase {
    match (phase, event) {
        (Phase::Starting, EventView::Started) => Phase::Running,
        (Phase::Starting, EventView::StartFailed) => Phase::Terminating(Outcome::StartupFailed),
        (Phase::Running, EventView::OutputClosed) => Phase::Terminating(Outcome::Completed),
        (Phase::Terminating(outcome), EventView::Restored) => Phase::Stopped(outcome),
        _ => phase,
    }
}

/// The actions that one line of output asks for while the engine runs:
/// where the line announces the tunnel, a notice and the activation of the
/// DNS override; then, whether or not it does, the line's console record
/// where the line is structured.
pub open spec fn line_actions(line: Seq<char>) -> Seq<ActionView> {
    let dns = if announces_tunnel(line) {
        seq![ActionView::Notice, ActionView::SetDns(DnsTarget::Activate)]
    } else {
        Seq::<ActionView>::empty()
    };
    let record = match logged(LINE_PATTERN@, line) {
        Some(r) => seq![ActionView::Emit(r)],
        None => Seq::<ActionView>::empty(),
    };
    dns + record
}

/// The actions that `event` asks for when it arrives in `phase`. An event
/// that the phase does not expect asks for none.
pub open spec fn actions_of(phase: Phase, event: EventView) -> Seq<ActionView> {
    match (phase, event) {
        (Phase::Starting, EventView::StartFailed) => seq![ActionView::SetDns(DnsTarget::Restore)],
        (Phase::Running, EventView::Line(line)) => line_actions(line),
        (Phase::Running, EventView::OutputClosed) => seq![ActionView::SetDns(DnsTarget::Restore)],
        (Phase::Terminating(outcome), EventView::Restored) => seq![ActionView::Exit(outcome)],
        _ => Seq::<ActionView>::empty(),
    }
}

/// The state of one supervised run.
pub struct Supervisor {
    phase: Phase,
    classifier: LineClassifier,
}

impl View for Supervisor {
    type V = Phase;

    closed spec fn view(&self) -> Phase {
        self.phase
    }
}

impl Supervisor {
    /// A run that has not started.
    pub fn new(classifier: LineClassifier) -> (s: Supervisor)
        ensures
            s@ == Phase::Starting,
    {
        Supervisor { phase: Phase::Starting, classifier }
    }

    /// The phase that the run is in.
    pub fn phase(&self) -> (p: Phase)
        ensures
            p == self@,
    {
        self.phase
    }

    /// The actions for one line of output while the engine runs.
    fn handle_line(&self, line: &str) -> (actions: Vec<Action>)
        ensures
            actions_view(actions@) == line_actions(line@),
    {
        let mut actions: Vec<Action> = Vec::new();
        if is_trigger(line) {
            actions.push(Action::Notice);
            actions.push(Action::SetDns(DnsTarget::Activate));
        }
        match log(&self.classifier, line) {
            Some(record) => {
                actions.push(Action::Emit(record));
            },
            None => {},
        }
        proof {
            assert(actions_view(actions@) =~= line_actions(line@));
        }
        actions
    }

    /// Takes one event: moves to the next phase and returns what the caller
    /// is to do, in order.
    pub fn handle(&mut self, event: &Event) -> (actions: Vec<Action>)
        ensures
            final(self)@ == next_phase(old(self)@, event@),
            actions_view(actions@) == actions_of(old(self)@, event@),
    {
        let mut actions: Vec<Action> = Vec::new();
        match (self.phase, event) {
            (Phase::Starting, Event::Started) => {
                self.phase = Phase::Running;
            },
            (Phase::Starting, Event::StartFailed) => {
                self.phase = Phase::Terminating(Outcome::StartupFailed);
                actions.push(Action::SetDns(DnsTarget::Restore));
            },
            (Phase::Running, Event::Line(line)) => {
                actions = self.handle_line(line.as_str());
            },
            (Phase::Running, Event::OutputClosed) => {
                self.phase = Phase::Terminating(Outcome::Completed);
                actions.push(Action::SetDns(DnsTarget::Restore));
            },
            (Phase::Terminating(outcome), Event::Restored) => {
                self.phase = Phase::Stopped(outcome);
                actions.push(Action::Exit(outcome));
            },
            _ => {},
        }
        proof {
            assert(actions_view(actions@) =~= actions_of(old(self)@, event@));
        }
        actions
    }
}

/// What is known of the engine's process when an interrupt arrives.
#[derive(Clone, Copy, Debug, PartialEq, Eq, Structural)]
pub enum ChildStatus {
    /// It has exited already.
    Exited,
    /// It is still running.
    Running,
    /// Its state could not be queried.
    Unknown,
}

/// What the interrupt handler does.
#[derive(Clone, Copy, Debug, PartialEq, Eq, Structural)]
pub enum InterruptAction {
    /// Say that the engine has exited already; there is nothing to end.
    ReportExited,
    /// Ask the engine to terminate.
    Kill,
    /// Say that the engine's state could not be queried.
    ReportFailure,
}

/// The interrupt handler's answer to each state of the engine.
pub open spec fn interrupt_action(status: ChildStatus) -> InterruptAction {
    match status {
        ChildStatus::Exited => InterruptAction::ReportExited,
        ChildStatus::Running => InterruptAction::Kill,
        ChildStatus::Unknown => InterruptAction::ReportFailure,
    }
}

/// Decides what to do on an interrupt: the engine is killed only while it
/// is known to run, so an engine that is gone is never killed again.
pub fn on_interrupt(status: ChildStatus) -> (action: InterruptAction)
    ensures
        action == interrupt_action(status),
        action == InterruptAction::Kill <==> status == ChildStatus::Running,
{
    match status {
        ChildStatus::Exited => InterruptAction::ReportExited,
        ChildStatus::Running => InterruptAction::Kill,
        ChildStatus::Unknown => InterruptAction::ReportFailure,
    }
}

} // verus!
