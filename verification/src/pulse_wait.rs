//! Waiting for a PulseAudio/PipeWire server without blocking for ever.
//!
//! A server that accepts a connection but never completes the handshake would
//! hang a blocking caller. Every wait is therefore a poll: look at the state, give
//! up once the deadline has passed, otherwise let the main loop run once and sleep
//! only if it had nothing to do.

use crate::text::{enclosed, joined};
use vstd::prelude::*;

verus! {

/// Upper bound on any single interaction with the server.
pub const PULSE_TIMEOUT_MS: u64 = 5000;

/// How long to sleep when the main loop had nothing to do.
pub const PULSE_POLL_INTERVAL_MS: u64 = 10;

/// The state of a request to the server.
#[derive(Clone, Copy, Debug, PartialEq, Eq, Structural)]
pub enum OperationState {
    Running,
    Done,
    Cancelled,
}

/// The state of a connection to the server.
#[derive(Clone, Copy, Debug, PartialEq, Eq, Structural)]
pub enum ContextState {
    Unconnected,
    Connecting,
    Authorizing,
    SettingName,
    Ready,
    Failed,
    Terminated,
}

impl ContextState {
    /// The name of a state.
    pub open spec fn shown(self) -> Seq<char> {
        match self {
            ContextState::Unconnected => "Unconnected"@,
            ContextState::Connecting => "Connecting"@,
            ContextState::Authorizing => "Authorizing"@,
            ContextState::SettingName => "SettingName"@,
            ContextState::Ready => "Ready"@,
            ContextState::Failed => "Failed"@,
            ContextState::Terminated => "Terminated"@,
        }
    }

    /// The name of the state.
    pub fn name(&self) -> (text: &'static str)
        ensures
            text@ == self.shown(),
    {
        match self {
            ContextState::Unconnected => "Unconnected",
            ContextState::Connecting => "Connecting",
            ContextState::Authorizing => "Authorizing",
            ContextState::SettingName => "SettingName",
            ContextState::Ready => "Ready",
            ContextState::Failed => "Failed",
            ContextState::Terminated => "Terminated",
        }
    }
}

/// What is being waited for.
#[derive(Clone, Copy, Debug, PartialEq, Eq, Structural)]
pub enum Waiting {
    /// The connection becoming ready.
    Connection,
    /// A request being answered.
    Operation,
}

/// What one run of the main loop came to.
#[derive(Clone, Copy, Debug, PartialEq, Eq, Structural)]
pub enum Iteration {
    /// So many events were dispatched.
    Dispatched(u32),
    /// The main loop was asked to quit.
    Quit,
    /// The main loop failed.
    Failed,
}

/// Why a wait was given up.
#[derive(Clone, Copy, Debug, PartialEq, Eq, Structural)]
pub enum WaitError {
    /// The main loop quit or failed.
    LoopFailed(Waiting),
    /// The request was cancelled.
    Cancelled,
    /// The request was not answered in time.
    OperationTimedOut,
    /// The connection failed or was terminated.
    ConnectionFailed,
    /// The connection was not ready in time; the state it was last seen in.
    ConnectionTimedOut(ContextState),
}

impl WaitError {
    /// The message for an error.
    pub open spec fn text(self) -> Seq<char> {
        match self {
            WaitError::LoopFailed(Waiting::Connection) => "PulseAudio mainloop iteration failed while "@
                + "connecting"@,
            WaitError::LoopFailed(Waiting::Operation) => "PulseAudio mainloop iteration failed while "@
                + "waiting for an operation to complete"@,
            WaitError::Cancelled => "PulseAudio operation was cancelled"@,
            WaitError::OperationTimedOut => "PulseAudio operation did not complete within 5s"@,
            WaitError::ConnectionFailed => "PulseAudio/PipeWire context connection failed or was terminated"@,
            WaitError::ConnectionTimedOut(state) => "Timed out after 5s waiting for the PulseAudio/PipeWire server to become ready (last state: "@
                + state.shown() + ")"@,
        }
    }

    /// The message for the error.
    pub fn message(&self) -> (text: String)
        ensures
            text@ == self.text(),
    {
        match self {
            WaitError::LoopFailed(Waiting::Connection) => joined(
                "PulseAudio mainloop iteration failed while ",
                "connecting",
            ),
            WaitError::LoopFailed(Waiting::Operation) => joined(
                "PulseAudio mainloop iteration failed while ",
                "waiting for an operation to complete",
            ),
            WaitError::Cancelled => "PulseAudio operation was cancelled".to_owned(),
            WaitError::OperationTimedOut => "PulseAudio operation did not complete within 5s".to_owned(),
            WaitError::ConnectionFailed => "PulseAudio/PipeWire context connection failed or was terminated".to_owned(),
            WaitError::ConnectionTimedOut(state) => enclosed(
                "Timed out after 5s waiting for the PulseAudio/PipeWire server to become ready (last state: ",
                state.name(),
                ")",
            ),
        }
    }
}

/// What to do after looking at the state of what is waited for.
#[derive(Clone, Copy, Debug, PartialEq, Eq, Structural)]
pub enum Poll {
    /// The wait is over, and successful.
    Ready,
    /// The wait is over, and failed.
    GiveUp(WaitError),
    /// Let the main loop run once.
    Pump,
}

/// What to do after the main loop ran once.
#[derive(Clone, Copy, Debug, PartialEq, Eq, Structural)]
pub enum AfterPump {
    /// Look again at once.
    LookAgain,
    /// Sleep for [`PULSE_POLL_INTERVAL_MS`] first.
    Sleep,
    /// The wait is over, and failed.
    GiveUp(WaitError),
}

/// One look at a request, `elapsed_ms` after the wait began. A request that is
/// settled counts as settled however late it is seen.
pub fn poll_operation(state: OperationState, elapsed_ms: u64) -> (poll: Poll)
    ensures
        poll is Ready <==> state is Done,
        poll == Poll::GiveUp(WaitError::Cancelled) <==> state is Cancelled,
        poll == Poll::GiveUp(WaitError::OperationTimedOut) <==> state is Running && elapsed_ms
            >= PULSE_TIMEOUT_MS,
        poll is Pump <==> state is Running && elapsed_ms < PULSE_TIMEOUT_MS,
{
    match state {
        OperationState::Done => Poll::Ready,
        OperationState::Cancelled => Poll::GiveUp(WaitError::Cancelled),
        OperationState::Running => if elapsed_ms >= PULSE_TIMEOUT_MS {
            Poll::GiveUp(WaitError::OperationTimedOut)
        } else {
            Poll::Pump
        },
    }
}

/// One look at a connection, `elapsed_ms` after the wait began. A connection that
/// is settled counts as settled however late it is seen.
pub fn poll_connection(state: ContextState, elapsed_ms: u64) -> (poll: Poll)
    ensures
        poll is Ready <==> state is Ready,
        poll == Poll::GiveUp(WaitError::ConnectionFailed) <==> (state is Failed
            || state is Terminated),
        poll == Poll::GiveUp(WaitError::ConnectionTimedOut(state)) <==> !(state is Ready
            || state is Failed || state is Terminated) && elapsed_ms >= PULSE_TIMEOUT_MS,
        poll is Pump <==> !(state is Ready || state is Failed || state is Terminated) && elapsed_ms
            < PULSE_TIMEOUT_MS,
{
    match state {
        ContextState::Ready => Poll::Ready,
        ContextState::Failed | ContextState::Terminated => Poll::GiveUp(WaitError::ConnectionFailed),
        _ => if elapsed_ms >= PULSE_TIMEOUT_MS {
            Poll::GiveUp(WaitError::ConnectionTimedOut(state))
        } else {
            Poll::Pump
        },
    }
}

/// The number of events that one run of the main loop dispatched.
pub fn pump(iteration: Iteration, waiting: Waiting) -> (result: Result<u32, WaitError>)
    ensures
        result == match iteration {
            Iteration::Dispatched(events) => Ok(events),
            Iteration::Quit | Iteration::Failed => Err(WaitError::LoopFailed(waiting)),
        },
{
    match iteration {
        Iteration::Dispatched(events) => Ok(events),
        Iteration::Quit | Iteration::Failed => Err(WaitError::LoopFailed(waiting)),
    }
}

/// How to go on after one run of the main loop: at once while there are events.
pub fn after_pump(iteration: Iteration, waiting: Waiting) -> (next: AfterPump)
    ensures
        next == match iteration {
            Iteration::Dispatched(events) => if events == 0 {
                AfterPump::Sleep
            } else {
                AfterPump::LookAgain
            },
            Iteration::Quit | Iteration::Failed => AfterPump::GiveUp(
                WaitError::LoopFailed(waiting),
            ),
        },
{
    match pump(iteration, waiting) {
        Ok(events) => if events == 0 {
            AfterPump::Sleep
        } else {
            AfterPump::LookAgain
        },
        Err(e) => AfterPump::GiveUp(e),
    }
}

} // verus!
