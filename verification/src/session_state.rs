//! Session lifecycle state machine.
//!
//! Valid transitions:
//! Disconnected/Error -> Connecting -> Connected -> Disconnecting ->
//! Disconnected, with Connecting -> Error on failure, a direct
//! Connected -> Disconnected for abrupt closes, and a forced reset or error
//! from any state.

use vstd::prelude::*;
use crate::util::now_ms;

verus! {

/// Session states.
#[derive(Debug, Clone, Copy, PartialEq, Eq, Structural)]
pub enum SessionState {
    /// Initial state, not connected.
    Disconnected,
    /// Attempting to establish a connection.
    Connecting,
    /// Successfully connected and ready for I/O.
    Connected,
    /// Gracefully closing the connection.
    Disconnecting,
    /// Connection failed with an error.
    Error,
}

/// Error type for invalid state transitions.
#[derive(Debug, Clone, PartialEq, Eq, Structural)]
pub enum StateTransitionError {
    InvalidTransition { from: SessionState, to: SessionState },
}

/// State machine for session lifecycle management.
pub struct SessionStateMachine {
    state: SessionState,
    error_message: Option<String>,
    state_changed_at_ms: u64,
    transition_count: u32,
}

impl SessionStateMachine {
    /// Current state.
    pub closed spec fn spec_state(&self) -> SessionState {
        self.state
    }

    /// Stored error message.
    pub closed spec fn spec_error(&self) -> Option<String> {
        self.error_message
    }

    /// Number of transitions taken so far.
    pub closed spec fn spec_transition_count(&self) -> u32 {
        self.transition_count
    }

    /// Create a new state machine in the Disconnected state.
    pub fn new() -> (r: Self)
        ensures
            r.spec_state() == SessionState::Disconnected,
            r.spec_error() is None,
            r.spec_transition_count() == 0,
    {
        SessionStateMachine {
            state: SessionState::Disconnected,
            error_message: None,
            state_changed_at_ms: now_ms(),
            transition_count: 0,
        }
    }

    /// Get the current state.
    pub fn state(&self) -> (r: SessionState)
        ensures
            r == self.spec_state(),
    {
        self.state
    }

    /// Get the error message if one is stored.
    pub fn error(&self) -> (r: Option<&str>)
        ensures
            match r {
                Some(s) => self.spec_error() is Some && s@ == self.spec_error()->0@,
                None => self.spec_error() is None,
            },
    {
        match &self.error_message {
            Some(s) => Some(s.as_str()),
            None => None,
        }
    }

    /// Milliseconds elapsed since the last state change, by the wall clock.
    pub fn time_in_state(&self) -> u64 {
        now_ms().saturating_sub(self.state_changed_at_ms)
    }

    /// Get the total number of state transitions.
    pub fn transition_count(&self) -> (r: u32)
        ensures
            r == self.spec_transition_count(),
    {
        self.transition_count
    }

    /// Record a transition into `new_state`, stamping the time and counting it.
    /// The stored error message is left as it is.
    pub fn transition_to(&mut self, new_state: SessionState)
        requires
            old(self).spec_transition_count() < u32::MAX,
        ensures
            final(self).spec_state() == new_state,
            final(self).spec_error() == old(self).spec_error(),
            final(self).spec_transition_count() == old(self).spec_transition_count() + 1,
    {
        self.state = new_state;
        self.state_changed_at_ms = now_ms();
        self.transition_count = self.transition_count + 1;
    }

    /// Attempt to transition to the Connecting state.  Allowed exactly from
    /// Disconnected and Error; on success the error message is cleared.
    pub fn start_connecting(&mut self) -> (r: Result<(), StateTransitionError>)
        requires
            old(self).spec_transition_count() < u32::MAX,
        ensures
            r is Ok <==> (old(self).spec_state() == SessionState::Disconnected || old(self).spec_state() == SessionState::Error),
            r is Ok ==> final(self).spec_state() == SessionState::Connecting && final(self).spec_error() is None && final(self).spec_transition_count() == old(self).spec_transition_count() + 1,
            r is Err ==> *final(self) == *old(self) && r == Err::<(), _>(
                StateTransitionError::InvalidTransition {
                    from: old(self).spec_state(),
                    to: SessionState::Connecting,
                },
            ),
    {
        match self.state {
            SessionState::Disconnected | SessionState::Error => {
                self.transition_to(SessionState::Connecting);
                self.error_message = None;
                Ok(())
            },
            _ => Err(StateTransitionError::InvalidTransition {
                from: self.state,
                to: SessionState::Connecting,
            }),
        }
    }

    /// Transition to Connected; allowed exactly from Connecting.
    pub fn connect_success(&mut self) -> (r: Result<(), StateTransitionError>)
        requires
            old(self).spec_transition_count() < u32::MAX,
        ensures
            r is Ok <==> old(self).spec_state() == SessionState::Connecting,
            r is Ok ==> final(self).spec_state() == SessionState::Connected && final(self).spec_error() == old(self).spec_error() && final(self).spec_transition_count()
                == old(self).spec_transition_count() + 1,
            r is Err ==> *final(self) == *old(self) && r == Err::<(), _>(
                StateTransitionError::InvalidTransition {
                    from: old(self).spec_state(),
                    to: SessionState::Connected,
                },
            ),
    {
        match self.state {
            SessionState::Connecting => {
                self.transition_to(SessionState::Connected);
                Ok(())
            },
            _ => Err(StateTransitionError::InvalidTransition {
                from: self.state,
                to: SessionState::Connected,
            }),
        }
    }

    /// Transition to Error with a message; allowed exactly from Connecting.
    pub fn connect_failed(&mut self, error: String) -> (r: Result<(), StateTransitionError>)
        requires
            old(self).spec_transition_count() < u32::MAX,
        ensures
            r is Ok <==> old(self).spec_state() == SessionState::Connecting,
            r is Ok ==> final(self).spec_state() == SessionState::Error && final(self).spec_error() == Some(error) && final(self).spec_transition_count() == old(self).spec_transition_count() + 1,
            r is Err ==> *final(self) == *old(self) && r == Err::<(), _>(
                StateTransitionError::InvalidTransition {
                    from: old(self).spec_state(),
                    to: SessionState::Error,
                },
            ),
    {
        match self.state {
            SessionState::Connecting => {
                self.transition_to(SessionState::Error);
                self.error_message = Some(error);
                Ok(())
            },
            _ => Err(StateTransitionError::InvalidTransition {
                from: self.state,
                to: SessionState::Error,
            }),
        }
    }

    /// Start disconnection; allowed exactly from Connected and Connecting.
    pub fn start_disconnecting(&mut self) -> (r: Result<(), StateTransitionError>)
        requires
            old(self).spec_transition_count() < u32::MAX,
        ensures
            r is Ok <==> (old(self).spec_state() == SessionState::Connected || old(self).spec_state() == SessionState::Connecting),
            r is Ok ==> final(self).spec_state() == SessionState::Disconnecting && final(self).spec_error() == old(self).spec_error() && final(self).spec_transition_count()
                == old(self).spec_transition_count() + 1,
            r is Err ==> *final(self) == *old(self) && r == Err::<(), _>(
                StateTransitionError::InvalidTransition {
                    from: old(self).spec_state(),
                    to: SessionState::Disconnecting,
                },
            ),
    {
        match self.state {
            SessionState::Connected | SessionState::Connecting => {
                self.transition_to(SessionState::Disconnecting);
                Ok(())
            },
            _ => Err(StateTransitionError::InvalidTransition {
                from: self.state,
                to: SessionState::Disconnecting,
            }),
        }
    }

    /// Complete disconnection; allowed from Disconnecting and, for abrupt
    /// closes, directly from Connected.
    pub fn disconnect_complete(&mut self) -> (r: Result<(), StateTransitionError>)
        requires
            old(self).spec_transition_count() < u32::MAX,
        ensures
            r is Ok <==> (old(self).spec_state() == SessionState::Disconnecting || old(self).spec_state() == SessionState::Connected),
            r is Ok ==> final(self).spec_state() == SessionState::Disconnected && final(self).spec_error() == old(self).spec_error() && final(self).spec_transition_count()
                == old(self).spec_transition_count() + 1,
            r is Err ==> *final(self) == *old(self) && r == Err::<(), _>(
                StateTransitionError::InvalidTransition {
                    from: old(self).spec_state(),
                    to: SessionState::Disconnected,
                },
            ),
    {
        match self.state {
            SessionState::Disconnecting => {
                self.transition_to(SessionState::Disconnected);
                Ok(())
            },
            SessionState::Connected => {
                self.transition_to(SessionState::Disconnected);
                Ok(())
            },
            _ => Err(StateTransitionError::InvalidTransition {
                from: self.state,
                to: SessionState::Disconnected,
            }),
        }
    }

    /// Set the Error state with a message; allowed from any state.
    pub fn set_error(&mut self, error: String)
        requires
            old(self).spec_transition_count() < u32::MAX,
        ensures
            final(self).spec_state() == SessionState::Error,
            final(self).spec_error() == Some(error),
            final(self).spec_transition_count() == old(self).spec_transition_count() + 1,
    {
        self.transition_to(SessionState::Error);
        self.error_message = Some(error);
    }

    /// Force a reset to Disconnected, clearing any error.
    pub fn reset(&mut self)
        requires
            old(self).spec_transition_count() < u32::MAX,
        ensures
            final(self).spec_state() == SessionState::Disconnected,
            final(self).spec_error() is None,
            final(self).spec_transition_count() == old(self).spec_transition_count() + 1,
    {
        self.transition_to(SessionState::Disconnected);
        self.error_message = None;
    }

    /// A session is terminal in Disconnected and Error.
    pub fn is_terminal(&self) -> (r: bool)
        ensures
            r == (self.spec_state() == SessionState::Disconnected || self.spec_state()
                == SessionState::Error),
    {
        match self.state {
            SessionState::Disconnected | SessionState::Error => true,
            _ => false,
        }
    }

    /// A session is active in Connecting and Connected.
    pub fn is_active(&self) -> (r: bool)
        ensures
            r == (self.spec_state() == SessionState::Connecting || self.spec_state()
                == SessionState::Connected),
    {
        match self.state {
            SessionState::Connecting | SessionState::Connected => true,
            _ => false,
        }
    }
}

} // verus!

verus! {

/// The lower-case label of a session state.
pub open spec fn state_label(s: SessionState) -> Seq<char> {
    match s {
        SessionState::Disconnected => "disconnected"@,
        SessionState::Connecting => "connecting"@,
        SessionState::Connected => "connected"@,
        SessionState::Disconnecting => "disconnecting"@,
        SessionState::Error => "error"@,
    }
}

impl SessionState {
    /// Render the state for display.
    pub fn label(&self) -> (r: String)
        ensures
            r@ == state_label(*self),
    {
        match self {
            SessionState::Disconnected => "disconnected".to_owned(),
            SessionState::Connecting => "connecting".to_owned(),
            SessionState::Connected => "connected".to_owned(),
            SessionState::Disconnecting => "disconnecting".to_owned(),
            SessionState::Error => "error".to_owned(),
        }
    }
}

} // verus!
