//! The control-flow state machine: how the loop waits between cycles.
//!
//! The application picks a [`ControlFlow`]; after each cycle the runner
//! turns it into the loop's next [`State`] and schedules at most one wake.

use vstd::prelude::*;

use crate::event::StartCause;
use crate::time::Instant;

verus! {

/// The waiting strategy the application asks for, read by the runner after
/// each cycle ends.
#[derive(Debug, Clone, Copy, PartialEq, Eq, Structural)]
pub enum ControlFlow {
    /// Run another cycle as soon as possible, whether or not events
    /// arrived.
    Poll,
    /// Sleep until an event arrives.
    Wait,
    /// Sleep until an event arrives or the deadline is reached, whichever
    /// comes first.
    WaitUntil(Instant),
}

impl Default for ControlFlow {
    /// Waiting for events is the default strategy.
    fn default() -> (r: Self)
        ensures
            r is Wait,
    {
        Self::Wait
    }
}

/// How an immediate wake for [`ControlFlow::Poll`] is scheduled on
/// platforms that offer a choice.
#[derive(Debug, Default, Clone, Copy, PartialEq, Eq, Structural)]
pub enum PollStrategy {
    /// Use an idle callback, yielding to the platform first.
    IdleCallback,
    /// Use the platform scheduler's immediate slot.
    #[default]
    Scheduler,
}

/// How the wake for [`ControlFlow::WaitUntil`] is scheduled on platforms
/// that offer a choice.
#[derive(Debug, Default, Clone, Copy, PartialEq, Eq, Structural)]
pub enum WaitUntilStrategy {
    /// Use the platform scheduler's delayed slot.
    #[default]
    Scheduler,
    /// Use a dedicated worker to time the wake.
    Worker,
}

/// Which kinds of device events the application wants delivered.
#[derive(Debug, Default, Clone, Copy, PartialEq, Eq, Structural)]
pub enum DeviceEvents {
    /// Deliver device events always.
    Always,
    /// Deliver device events only while some window has focus.
    #[default]
    WhenFocused,
    /// Never deliver device events.
    Never,
}

/// The loop's current mode between cycles.
///
/// `Init` exists only before the first cycle, to select the
/// [`StartCause::Init`] value; it is never re-entered. `Exit` is terminal.
/// For the waiting modes, `start` is the moment the wait began and `end`
/// the requested deadline; the wake handles themselves live with the
/// backend, which drops any previous one before scheduling anew.
#[derive(Debug, Clone, Copy, PartialEq, Eq, Hash, Structural)]
pub enum State {
    /// Before the first cycle has fired.
    Init,
    /// An immediate wake is scheduled.
    Poll,
    /// Sleeping with no deadline.
    Wait { start: Instant },
    /// Sleeping with a deadline.
    WaitUntil { start: Instant, end: Instant },
    /// The loop has exited; terminal.
    Exit,
}

impl State {
    /// True in the terminal state.
    pub fn exiting(&self) -> (r: bool)
        ensures
            r == (self is Exit),
    {
        matches!(self, State::Exit)
    }
}

/// The start cause a new cycle carries in each mode, and none in `Exit`,
/// where no cycle may start. A wake in a waiting mode that is not the
/// deadline wake counts as a cancelled wait.
pub open spec fn start_cause_of(state: State) -> Option<StartCause> {
    match state {
        State::Init => Some(StartCause::Init),
        State::Poll => Some(StartCause::Poll),
        State::Wait { start } => Some(StartCause::WaitCancelled { start, requested_resume: None }),
        State::WaitUntil { start, end } => Some(
            StartCause::WaitCancelled { start, requested_resume: Some(end) },
        ),
        State::Exit => None,
    }
}

/// The loop runner's mode while attached to an application.
#[derive(Debug, Clone, Copy, PartialEq, Eq, Structural)]
pub struct Runner {
    /// The loop's current waiting mode.
    pub state: State,
}

impl Runner {
    /// A fresh runner, before its first cycle.
    pub fn new() -> (r: Self)
        ensures
            r.state is Init,
    {
        Runner { state: State::Init }
    }

    /// The `StartCause` a cycle would carry now, or none in the terminal
    /// state.
    pub fn maybe_start_cause(&self) -> (r: Option<StartCause>)
        ensures
            r == start_cause_of(self.state),
    {
        match self.state {
            State::Init => Some(StartCause::Init),
            State::Poll => Some(StartCause::Poll),
            State::Wait { start } => Some(
                StartCause::WaitCancelled { start, requested_resume: None },
            ),
            State::WaitUntil { start, end } => Some(
                StartCause::WaitCancelled { start, requested_resume: Some(end) },
            ),
            State::Exit => None,
        }
    }
}

/// The lifecycle of the loop itself, around the [`Runner`].
#[derive(Debug, Clone, Copy, PartialEq, Eq, Structural)]
pub enum RunnerEnum {
    /// The loop is created but not being run.
    Pending,
    /// The loop is waiting on an asynchronous precondition before it can
    /// start running.
    Initializing(Runner),
    /// The loop is being run.
    Running(Runner),
    /// The loop has exited and can never be run again.
    Destroyed,
}

impl RunnerEnum {
    /// The attached runner while the loop runs, and none otherwise.
    pub fn maybe_runner(&self) -> (r: Option<&Runner>)
        ensures
            match self {
                RunnerEnum::Running(runner) => r matches Some(inner) && *inner == *runner,
                _ => r is None,
            },
    {
        match self {
            RunnerEnum::Running(runner) => Some(runner),
            _ => None,
        }
    }
}

} // verus!
