use vstd::prelude::*;
use vstd::string::StringExecFns;

verus! {

/// The current state of the `WebSocket` connection.
#[derive(Debug, PartialEq, Eq, Clone, Copy, Structural)]
pub enum UseWebSocketReadyState {
    Connecting,
    Open,
    Closing,
    Closed,
}

/// The display name of a ready state.
pub open spec fn ready_state_name(state: UseWebSocketReadyState) -> Seq<char> {
    match state {
        UseWebSocketReadyState::Connecting => "Connecting"@,
        UseWebSocketReadyState::Open => "Open"@,
        UseWebSocketReadyState::Closing => "Closing"@,
        UseWebSocketReadyState::Closed => "Closed"@,
    }
}

impl UseWebSocketReadyState {
    /// The name of the state, as it is shown to users: `"Connecting"`,
    /// `"Open"`, `"Closing"` or `"Closed"`.
    pub fn to_string(&self) -> (name: String)
        ensures
            name@ == ready_state_name(*self),
    {
        match *self {
            UseWebSocketReadyState::Connecting => String::from_str("Connecting"),
            UseWebSocketReadyState::Open => String::from_str("Open"),
            UseWebSocketReadyState::Closing => String::from_str("Closing"),
            UseWebSocketReadyState::Closed => String::from_str("Closed"),
        }
    }
}

} // verus!
