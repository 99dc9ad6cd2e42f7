//! The supervisor's decisions, as a state machine from phase and event to
//! next phase and action.
//!
//! The caller spawns the child, runs the pump, waits on the child and on the
//! cancellation token, and hands each outcome here as an event. Once the child
//! is running, whichever of its exit and a cancellation comes first decides
//! the path; after a cancellation the supervisor still waits for the exit and
//! never forces it.
use vstd::prelude::*;
use crate::log::{joined, LogLevel, LogRecord};

verus! {

/// Where supervision stands.
#[derive(Clone, Copy, Debug, PartialEq, Eq, Structural)]
pub enum Phase {
    /// The child is to be launched.
    Starting,
    /// The child runs; its exit races a cancellation.
    Running,
    /// A cancellation came first; the child's own exit is awaited.
    Stopping,
    /// Supervision has returned.
    Finished,
}

/// A failure that ends supervision.
#[derive(Clone, Debug, PartialEq, Eq)]
pub enum SupervisionError {
    /// The child could not be launched.
    Spawn(String),
    /// Waiting for the child's exit failed.
    Wait(String),
}

/// What the caller observed.
#[derive(Clone, Debug, PartialEq, Eq)]
pub enum SupervisionEvent {
    Spawned,
    SpawnFailed(String),
    CancelRequested,
    /// The child exited; its status as text.
    ChildExited(String),
    WaitFailed(String),
}

/// What the caller is to do next.
#[derive(Clone, Debug, PartialEq, Eq)]
pub enum SupervisionAction {
    /// Start the pump on the child's output, register the cancellation
    /// observer, and race the child's exit against it.
    StartPump,
    /// Log the intent to stop and wait for the child's exit.
    AwaitExit,
    /// Log the exit status and return success.
    ReportExit(String),
    /// Return this error.
    Fail(SupervisionError),
    /// Nothing to do: the event does not matter in this phase.
    Ignore,
}

/// The next phase and the action for `event` in `phase`.
pub open spec fn transition(phase: Phase, event: SupervisionEvent) -> (Phase, SupervisionAction) {
    match (phase, event) {
        (Phase::Starting, SupervisionEvent::Spawned) => (Phase::Running, SupervisionAction::StartPump),
        (Phase::Starting, SupervisionEvent::SpawnFailed(d)) => (
            Phase::Finished,
            SupervisionAction::Fail(SupervisionError::Spawn(d)),
        ),
        (Phase::Running, SupervisionEvent::CancelRequested) => (
            Phase::Stopping,
            SupervisionAction::AwaitExit,
        ),
        (Phase::Running, SupervisionEvent::ChildExited(s)) => (
            Phase::Finished,
            SupervisionAction::ReportExit(s),
        ),
        (Phase::Stopping, SupervisionEvent::ChildExited(s)) => (
            Phase::Finished,
            SupervisionAction::ReportExit(s),
        ),
        (Phase::Running, SupervisionEvent::WaitFailed(d)) => (
            Phase::Finished,
            SupervisionAction::Fail(SupervisionError::Wait(d)),
        ),
        (Phase::Stopping, SupervisionEvent::WaitFailed(d)) => (
            Phase::Finished,
            SupervisionAction::Fail(SupervisionError::Wait(d)),
        ),
        (p, _) => (p, SupervisionAction::Ignore),
    }
}

pub open spec fn stop_intent_text() -> Seq<char> {
    "interrupt received; waiting for the server to exit"@
}

/// The record to log for an action, if any.
pub open spec fn action_log(a: SupervisionAction) -> Option<(LogLevel, Seq<char>)> {
    match a {
        SupervisionAction::AwaitExit => Some((LogLevel::Info, stop_intent_text())),
        SupervisionAction::ReportExit(s) => Some((LogLevel::Info, "server exited with: "@ + s@)),
        SupervisionAction::Fail(SupervisionError::Spawn(d)) => Some(
            (LogLevel::Error, "failed to start the server: "@ + d@),
        ),
        SupervisionAction::Fail(SupervisionError::Wait(d)) => Some(
            (LogLevel::Error, "failed to wait for the server: "@ + d@),
        ),
        _ => None,
    }
}

impl SupervisionAction {
    /// The record to log for this action, if any: the intent to stop, the
    /// exit status, or the failure.
    pub fn log_record(&self) -> (r: Option<LogRecord>)
        ensures
            match (r, action_log(*self)) {
                (Some(rec), Some((level, text))) => rec.level == level && rec.text@ == text,
                (None, None) => true,
                _ => false,
            },
    {
        match self {
            SupervisionAction::AwaitExit => Some(
                LogRecord {
                    level: LogLevel::Info,
                    text: "interrupt received; waiting for the server to exit".to_owned(),
                },
            ),
            SupervisionAction::ReportExit(s) => Some(
                LogRecord { level: LogLevel::Info, text: joined("server exited with: ", s.as_str()) },
            ),
            SupervisionAction::Fail(SupervisionError::Spawn(d)) => Some(
                LogRecord {
                    level: LogLevel::Error,
                    text: joined("failed to start the server: ", d.as_str()),
                },
            ),
            SupervisionAction::Fail(SupervisionError::Wait(d)) => Some(
                LogRecord {
                    level: LogLevel::Error,
                    text: joined("failed to wait for the server: ", d.as_str()),
                },
            ),
            _ => None,
        }
    }
}

/// The supervisor of one child process.
#[derive(Debug)]
pub struct Supervisor {
    phase: Phase,
}

impl Supervisor {
    pub closed spec fn current(&self) -> Phase {
        self.phase
    }

    /// A supervisor whose child is yet to be launched.
    pub fn new() -> (r: Supervisor)
        ensures
            r.current() == Phase::Starting,
    {
        Supervisor { phase: Phase::Starting }
    }

    /// The current phase.
    pub fn phase(&self) -> (r: Phase)
        ensures
            r == self.current(),
    {
        self.phase
    }

    /// Whether supervision has returned.
    pub fn is_finished(&self) -> (r: bool)
        ensures
            r == (self.current() == Phase::Finished),
    {
        match self.phase {
            Phase::Finished => true,
            _ => false,
        }
    }

    /// Takes an observed event; moves to the next phase and returns the action.
    pub fn step(&mut self, event: SupervisionEvent) -> (r: SupervisionAction)
        ensures
            (final(self).current(), r) == transition(old(self).current(), event),
    {
        let (next, action) = match (self.phase, event) {
            (Phase::Starting, SupervisionEvent::Spawned) => (Phase::Running, SupervisionAction::StartPump),
            (Phase::Starting, SupervisionEvent::SpawnFailed(d)) => (
                Phase::Finished,
                SupervisionAction::Fail(SupervisionError::Spawn(d)),
            ),
            (Phase::Running, SupervisionEvent::CancelRequested) => (
                Phase::Stopping,
                SupervisionAction::AwaitExit,
            ),
            (Phase::Running, SupervisionEvent::ChildExited(s)) => (
                Phase::Finished,
                SupervisionAction::ReportExit(s),
            ),
            (Phase::Stopping, SupervisionEvent::ChildExited(s)) => (
                Phase::Finished,
                SupervisionAction::ReportExit(s),
            ),
            (Phase::Running, SupervisionEvent::WaitFailed(d)) => (
                Phase::Finished,
                SupervisionAction::Fail(SupervisionError::Wait(d)),
            ),
            (Phase::Stopping, SupervisionEvent::WaitFailed(d)) => (
                Phase::Finished,
                SupervisionAction::Fail(SupervisionError::Wait(d)),
            ),
            (p, _) => (p, SupervisionAction::Ignore),
        };
        self.phase = next;
        action
    }
}

/// A cancellation while the child runs leads to waiting for its exit, and
/// that exit is then reported. While waiting, supervision ends only on the
/// exit or on a failure to wait for it; a repeated cancellation changes
/// nothing.
pub proof fn lemma_cancel_then_exit(status: String)
    ensures
        transition(Phase::Running, SupervisionEvent::CancelRequested) == (
            Phase::Stopping,
            SupervisionAction::AwaitExit,
        ),
        transition(Phase::Stopping, SupervisionEvent::ChildExited(status)) == (
            Phase::Finished,
            SupervisionAction::ReportExit(status),
        ),
        transition(Phase::Stopping, SupervisionEvent::CancelRequested) == (
            Phase::Stopping,
            SupervisionAction::Ignore,
        ),
        forall|e: SupervisionEvent|
            (#[trigger] transition(Phase::Stopping, e)).0 == Phase::Finished <==> (
            e is ChildExited || e is WaitFailed),
{
}

/// An exit of the child while it runs is reported at once, and once
/// supervision has returned no event, a cancellation included, leads to
/// anything more.
pub proof fn lemma_exit_first(status: String)
    ensures
        transition(Phase::Running, SupervisionEvent::ChildExited(status)) == (
            Phase::Finished,
            SupervisionAction::ReportExit(status),
        ),
        forall|e: SupervisionEvent|
            #[trigger] transition(Phase::Finished, e) == (Phase::Finished, SupervisionAction::Ignore),
{
}

} // verus!
