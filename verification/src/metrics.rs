//! The states of the upstream connection as reported to monitoring.

use vstd::prelude::*;

verus! {

/// State of the upstream push connection.
#[derive(Debug, Clone, Copy, PartialEq, Eq)]
pub enum WssState {
    Disconnected,
    Connecting,
    Connected,
}

impl WssState {
    /// The gauge value of the state.
    pub fn as_u8(self) -> (r: u8)
        ensures
            r == match self {
                WssState::Disconnected => 0u8,
                WssState::Connecting => 1u8,
                WssState::Connected => 2u8,
            },
    {
        match self {
            WssState::Disconnected => 0,
            WssState::Connecting => 1,
            WssState::Connected => 2,
        }
    }

    /// The state's name.
    pub fn to_string(&self) -> (r: String)
        ensures
            r@ == match *self {
                WssState::Disconnected => "disconnected"@,
                WssState::Connecting => "connecting"@,
                WssState::Connected => "connected"@,
            },
    {
        match self {
            WssState::Disconnected => "disconnected".to_owned(),
            WssState::Connecting => "connecting".to_owned(),
            WssState::Connected => "connected".to_owned(),
        }
    }
}

} // verus!
