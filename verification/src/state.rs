//! Session states and the table of guarded transitions.

use vstd::prelude::*;

verus! {

/// The phase a session has reached. Exactly one holds at any time, and it
/// alone decides which operations may run.
#[derive(Clone, Copy, Debug, PartialEq, Eq, Structural)]
pub enum SessionStates {
    Disconnected,
    SuccessConnection,
    FailedConnection,
    SuccessHandshake,
    FailedHandshake,
    SuccessAuthentication,
    FailedAuthentication,
    SuccessDisconnection,
    FailedDisconnection,
    SuccessChannelCreation,
    FailedChannelCreation,
    SuccessChannelClosure,
    FailedChannelClosure,
}

/// One piece of information that the enumeration retrieves from the target.
/// The banner is read from the authenticated session itself; the others are
/// read over the open channel.
#[derive(Clone, Copy, Debug, PartialEq, Eq, Structural)]
pub enum Artifact {
    Banner,
    Environment,
    ShellConfiguration,
    ShellHistory,
}

/// An operation of the session. The first six move the session to a new
/// state; waiting for a closed channel and the retrievals leave the state as
/// it is.
#[derive(Clone, Copy, Debug, PartialEq, Eq, Structural)]
pub enum Operation {
    Connection,
    Handshake,
    Authentication,
    ChannelCreation,
    ChannelClosure,
    Disconnection,
    WaitClosure,
    Retrieval(Artifact),
}

impl Operation {
    /// The states from which the operation may run.
    pub open spec fn spec_admits(self, state: SessionStates) -> bool {
        match self {
            Operation::Connection => true,
            Operation::Handshake => {
                state == SessionStates::FailedHandshake || state == SessionStates::SuccessConnection
            },
            Operation::Authentication => {
                state == SessionStates::FailedAuthentication
                    || state == SessionStates::SuccessChannelCreation
                    || state == SessionStates::SuccessHandshake
            },
            Operation::ChannelCreation => {
                state == SessionStates::SuccessAuthentication
                    || state == SessionStates::FailedChannelCreation
            },
            Operation::ChannelClosure => {
                state == SessionStates::FailedChannelClosure
                    || state == SessionStates::SuccessChannelCreation
            },
            Operation::Disconnection => {
                state == SessionStates::SuccessAuthentication
                    || state == SessionStates::SuccessChannelCreation
                    || state == SessionStates::SuccessChannelClosure
                    || state == SessionStates::SuccessConnection
                    || state == SessionStates::SuccessHandshake
                    || state == SessionStates::FailedAuthentication
                    || state == SessionStates::FailedChannelClosure
                    || state == SessionStates::FailedChannelCreation
                    || state == SessionStates::FailedHandshake
            },
            Operation::WaitClosure => state == SessionStates::SuccessChannelClosure,
            Operation::Retrieval(Artifact::Banner) => state == SessionStates::SuccessAuthentication,
            Operation::Retrieval(_) => state == SessionStates::SuccessChannelCreation,
        }
    }

    /// Whether the operation is one of the six that change the state.
    pub open spec fn spec_is_transition(self) -> bool {
        match self {
            Operation::WaitClosure | Operation::Retrieval(_) => false,
            _ => true,
        }
    }

    /// The state that follows when the transport reports success.
    pub open spec fn spec_on_success(self, state: SessionStates) -> SessionStates {
        match self {
            Operation::Connection => SessionStates::SuccessConnection,
            Operation::Handshake => SessionStates::SuccessHandshake,
            Operation::Authentication => SessionStates::SuccessAuthentication,
            Operation::ChannelCreation => SessionStates::SuccessChannelCreation,
            Operation::ChannelClosure => SessionStates::SuccessChannelClosure,
            Operation::Disconnection => SessionStates::SuccessDisconnection,
            _ => state,
        }
    }

    /// The state that follows when the transport reports failure.
    pub open spec fn spec_on_failure(self, state: SessionStates) -> SessionStates {
        match self {
            Operation::Connection => SessionStates::FailedConnection,
            Operation::Handshake => SessionStates::FailedHandshake,
            Operation::Authentication => SessionStates::FailedAuthentication,
            Operation::ChannelCreation => SessionStates::FailedChannelCreation,
            Operation::ChannelClosure => SessionStates::FailedChannelClosure,
            Operation::Disconnection => SessionStates::FailedDisconnection,
            _ => state,
        }
    }

    /// The state after the operation was invoked in `state` and the
    /// transport, if it was asked at all, answered with `succeeded`.
    pub open spec fn spec_outcome(self, state: SessionStates, succeeded: bool) -> SessionStates {
        if !self.spec_admits(state) {
            state
        } else if succeeded {
            self.spec_on_success(state)
        } else {
            self.spec_on_failure(state)
        }
    }

    #[verifier::when_used_as_spec(spec_admits)]
    pub fn admits(self, state: SessionStates) -> (admitted: bool)
        ensures
            admitted == self.spec_admits(state),
    {
        match self {
            Operation::Connection => true,
            Operation::Handshake => matches!(
                state,
                SessionStates::FailedHandshake | SessionStates::SuccessConnection
            ),
            Operation::Authentication => matches!(
                state,
                SessionStates::FailedAuthentication | SessionStates::SuccessChannelCreation
                    | SessionStates::SuccessHandshake
            ),
            Operation::ChannelCreation => matches!(
                state,
                SessionStates::SuccessAuthentication | SessionStates::FailedChannelCreation
            ),
            Operation::ChannelClosure => matches!(
                state,
                SessionStates::FailedChannelClosure | SessionStates::SuccessChannelCreation
            ),
            Operation::Disconnection => matches!(
                state,
                SessionStates::SuccessAuthentication | SessionStates::SuccessChannelCreation
                    | SessionStates::SuccessChannelClosure | SessionStates::SuccessConnection
                    | SessionStates::SuccessHandshake | SessionStates::FailedAuthentication
                    | SessionStates::FailedChannelClosure | SessionStates::FailedChannelCreation
                    | SessionStates::FailedHandshake
            ),
            Operation::WaitClosure => matches!(state, SessionStates::SuccessChannelClosure),
            Operation::Retrieval(Artifact::Banner) => matches!(
                state,
                SessionStates::SuccessAuthentication
            ),
            Operation::Retrieval(_) => matches!(state, SessionStates::SuccessChannelCreation),
        }
    }

    #[verifier::when_used_as_spec(spec_on_success)]
    pub fn on_success(self, state: SessionStates) -> (next: SessionStates)
        ensures
            next == self.spec_on_success(state),
    {
        match self {
            Operation::Connection => SessionStates::SuccessConnection,
            Operation::Handshake => SessionStates::SuccessHandshake,
            Operation::Authentication => SessionStates::SuccessAuthentication,
            Operation::ChannelCreation => SessionStates::SuccessChannelCreation,
            Operation::ChannelClosure => SessionStates::SuccessChannelClosure,
            Operation::Disconnection => SessionStates::SuccessDisconnection,
            _ => state,
        }
    }

    #[verifier::when_used_as_spec(spec_on_failure)]
    pub fn on_failure(self, state: SessionStates) -> (next: SessionStates)
        ensures
            next == self.spec_on_failure(state),
    {
        match self {
            Operation::Connection => SessionStates::FailedConnection,
            Operation::Handshake => SessionStates::FailedHandshake,
            Operation::Authentication => SessionStates::FailedAuthentication,
            Operation::ChannelCreation => SessionStates::FailedChannelCreation,
            Operation::ChannelClosure => SessionStates::FailedChannelClosure,
            Operation::Disconnection => SessionStates::FailedDisconnection,
            _ => state,
        }
    }
}

} // verus!
