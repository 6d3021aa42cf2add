//! The shutdown protocol: one signal lowers the running flag, and after a
//! short grace the process is ended whether or not the listener has returned.

use vstd::prelude::*;

verus! {

/// How long, in milliseconds, the heartbeat loop is given to see the lowered
/// flag before the process is ended.
pub const GRACE_MILLIS: u64 = 100;

/// The state of the shutdown protocol.
#[derive(Clone, Copy, Debug, PartialEq, Eq, Structural)]
pub enum ShutdownState {
    /// No signal yet: the running flag is up.
    Running,
    /// The signal has come: the flag is down and the grace period runs.
    ShuttingDown,
    /// The grace period is over: the process is to be ended.
    Terminated,
}

/// What the listener does with a notification, decided before it touches the
/// counters.
#[derive(Clone, Copy, Debug, PartialEq, Eq, Structural)]
pub enum ListenerAction {
    /// The flag is up: lock the counters and apply the event.
    Record,
    /// The flag is down: end the process at once, the counters untouched.
    Terminate,
}

impl ShutdownState {
    /// The value of the running flag in this state.
    pub open spec fn running(self) -> bool {
        self == ShutdownState::Running
    }

    /// The state after the termination signal: from `Running` to
    /// `ShuttingDown`; a later signal changes nothing.
    pub open spec fn signalled(self) -> ShutdownState {
        match self {
            ShutdownState::Running => ShutdownState::ShuttingDown,
            other => other,
        }
    }

    /// The state after the grace period: from `ShuttingDown` to `Terminated`;
    /// nothing else moves.
    pub open spec fn expired(self) -> ShutdownState {
        match self {
            ShutdownState::ShuttingDown => ShutdownState::Terminated,
            other => other,
        }
    }

    /// The state at start-up.
    pub fn new() -> (state: ShutdownState)
        ensures
            state == ShutdownState::Running,
    {
        ShutdownState::Running
    }

    /// The value of the running flag in this state.
    pub fn is_running(&self) -> (up: bool)
        ensures
            up == self.running(),
    {
        match self {
            ShutdownState::Running => true,
            _ => false,
        }
    }

    /// Takes the termination signal.
    pub fn on_signal(self) -> (next: ShutdownState)
        ensures
            next == self.signalled(),
    {
        match self {
            ShutdownState::Running => ShutdownState::ShuttingDown,
            other => other,
        }
    }

    /// Takes the end of the grace period.
    pub fn on_grace_elapsed(self) -> (next: ShutdownState)
        ensures
            next == self.expired(),
    {
        match self {
            ShutdownState::ShuttingDown => ShutdownState::Terminated,
            other => other,
        }
    }
}

/// What the listener does with a notification when the running flag reads
/// `running`.
pub fn on_notification(running: bool) -> (action: ListenerAction)
    ensures
        action == (if running {
            ListenerAction::Record
        } else {
            ListenerAction::Terminate
        }),
{
    if running {
        ListenerAction::Record
    } else {
        ListenerAction::Terminate
    }
}

/// The flag goes down once and never up again: after the signal it reads
/// lowered for good, whatever follows, and the signal followed by the end of
/// the grace period ends the process.
pub proof fn lemma_flag_stays_down(state: ShutdownState)
    ensures
        !state.signalled().running(),
        !state.signalled().signalled().running(),
        !state.signalled().expired().running(),
        !state.running() ==> !state.expired().running() && !state.signalled().running(),
        state.signalled().signalled() == state.signalled(),
        ShutdownState::Running.signalled().expired() == ShutdownState::Terminated,
{
}

} // verus!
