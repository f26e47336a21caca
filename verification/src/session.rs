//! The session's life cycle.
//!
//! The runtime moves a session through a fixed set of states and reports
//! each move as an event. This module holds the states, the numbers the
//! runtime uses for them, and the table of moves a session can make.

use vstd::prelude::*;

verus! {

/// A state of the session's life cycle.
#[derive(Clone, Copy, Debug, PartialEq, Eq, Structural)]
pub enum SessionState {
    Unknown,
    Idle,
    Ready,
    Synchronized,
    Visible,
    Focused,
    Stopping,
    LossPending,
    Exiting,
}

impl SessionState {
    /// The state that the runtime's number `raw` stands for. A number that
    /// stands for no state reads as `Unknown`.
    pub open spec fn of_raw(raw: i32) -> SessionState {
        if raw == 1 {
            SessionState::Idle
        } else if raw == 2 {
            SessionState::Ready
        } else if raw == 3 {
            SessionState::Synchronized
        } else if raw == 4 {
            SessionState::Visible
        } else if raw == 5 {
            SessionState::Focused
        } else if raw == 6 {
            SessionState::Stopping
        } else if raw == 7 {
            SessionState::LossPending
        } else if raw == 8 {
            SessionState::Exiting
        } else {
            SessionState::Unknown
        }
    }

    /// The runtime's number for the state.
    pub open spec fn raw(self) -> i32 {
        match self {
            SessionState::Unknown => 0,
            SessionState::Idle => 1,
            SessionState::Ready => 2,
            SessionState::Synchronized => 3,
            SessionState::Visible => 4,
            SessionState::Focused => 5,
            SessionState::Stopping => 6,
            SessionState::LossPending => 7,
            SessionState::Exiting => 8,
        }
    }

    /// Whether the session is lost or over: no state follows this one.
    pub open spec fn is_terminal(self) -> bool {
        self == SessionState::LossPending || self == SessionState::Exiting
    }

    /// Reads a state from the runtime's number for it.
    pub fn from_raw(raw: i32) -> (state: SessionState)
        ensures
            state == SessionState::of_raw(raw),
    {
        match raw {
            1 => SessionState::Idle,
            2 => SessionState::Ready,
            3 => SessionState::Synchronized,
            4 => SessionState::Visible,
            5 => SessionState::Focused,
            6 => SessionState::Stopping,
            7 => SessionState::LossPending,
            8 => SessionState::Exiting,
            _ => SessionState::Unknown,
        }
    }

    /// The runtime's number for the state.
    pub fn into_raw(self) -> (raw: i32)
        ensures
            raw == self.raw(),
    {
        match self {
            SessionState::Unknown => 0,
            SessionState::Idle => 1,
            SessionState::Ready => 2,
            SessionState::Synchronized => 3,
            SessionState::Visible => 4,
            SessionState::Focused => 5,
            SessionState::Stopping => 6,
            SessionState::LossPending => 7,
            SessionState::Exiting => 8,
        }
    }

    /// Whether no state follows this one.
    pub fn terminal(self) -> (terminal: bool)
        ensures
            terminal == self.is_terminal(),
    {
        match self {
            SessionState::LossPending | SessionState::Exiting => true,
            _ => false,
        }
    }
}

/// The moves a session can make.
///
/// A session starts `Unknown` and becomes `Idle`. Once begun it is
/// `Synchronized`, then `Visible`, then `Focused`, and goes back the same
/// way. From `Synchronized` it can start `Stopping`, which leads back to
/// `Idle`, and from `Idle` it can be `Exiting`.
///
/// Two moves can be made from any state that is not terminal. A session
/// can get `Ready`: the runtime says so when it wants the session begun,
/// and the report counts whatever was heard of the session before, since
/// reports can be lost. And a session can be lost.
pub open spec fn legal_edge(from: SessionState, to: SessionState) -> bool {
    match (from, to) {
        (SessionState::Unknown, SessionState::Idle) => true,
        (_, SessionState::Ready) => !from.is_terminal(),
        (SessionState::Ready, SessionState::Synchronized) => true,
        (SessionState::Synchronized, SessionState::Visible) => true,
        (SessionState::Visible, SessionState::Focused) => true,
        (SessionState::Focused, SessionState::Visible) => true,
        (SessionState::Visible, SessionState::Synchronized) => true,
        (SessionState::Synchronized, SessionState::Stopping) => true,
        (SessionState::Stopping, SessionState::Idle) => true,
        (SessionState::Idle, SessionState::Exiting) => true,
        (_, SessionState::LossPending) => !from.is_terminal(),
        _ => false,
    }
}

/// Whether a session in state `from` can move to `to`.
pub fn is_legal_edge(from: SessionState, to: SessionState) -> (legal: bool)
    ensures
        legal == legal_edge(from, to),
{
    match (from, to) {
        (SessionState::Unknown, SessionState::Idle) => true,
        (_, SessionState::Ready) => !from.terminal(),
        (SessionState::Ready, SessionState::Synchronized) => true,
        (SessionState::Synchronized, SessionState::Visible) => true,
        (SessionState::Visible, SessionState::Focused) => true,
        (SessionState::Focused, SessionState::Visible) => true,
        (SessionState::Visible, SessionState::Synchronized) => true,
        (SessionState::Synchronized, SessionState::Stopping) => true,
        (SessionState::Stopping, SessionState::Idle) => true,
        (SessionState::Idle, SessionState::Exiting) => true,
        (_, SessionState::LossPending) => !from.terminal(),
        _ => false,
    }
}

/// Nothing follows a terminal state, a session exits only out of `Idle`,
/// and the only report that can repeat the state a session is in is that
/// it is ready.
pub proof fn lemma_legal_edges(from: SessionState, to: SessionState)
    requires
        legal_edge(from, to),
    ensures
        !from.is_terminal(),
        from == to ==> to == SessionState::Ready,
        to == SessionState::Exiting ==> from == SessionState::Idle,
{
}

/// A session that is not lost or over can always get ready.
pub proof fn lemma_ready_from_anywhere(from: SessionState)
    ensures
        legal_edge(from, SessionState::Ready) == !from.is_terminal(),
{
}

/// What the runtime reports when it is polled.
#[derive(Clone, Copy, Debug, PartialEq, Eq, Structural)]
pub enum XrEvent {
    /// The session has moved to the given state.
    SessionStateChanged(SessionState),
    /// The instance is about to be lost.
    InstanceLossPending,
    /// The runtime dropped this many events.
    EventsLost(u32),
    /// Any other event.
    Other,
}

impl XrEvent {
    /// Whether the event ends the session: the application has to exit.
    pub open spec fn is_fatal(self) -> bool {
        match self {
            XrEvent::SessionStateChanged(state) => state.is_terminal(),
            XrEvent::InstanceLossPending => true,
            _ => false,
        }
    }
}

} // verus!
