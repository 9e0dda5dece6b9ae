//! The states an OpenXR session moves through.

use vstd::prelude::*;

verus! {

/// A session state as the runtime reports it.
#[derive(Clone, Copy, Debug, PartialEq, Eq, Structural)]
pub enum SessionState {
    Unknown,
    Idle,
    Ready,
    Synchronized,
    Visible,
    Focused,
    Stopping,
    LossPending,
    Exiting,
    /// A number that this version of OpenXR gives no name to.
    Other(i32),
}

/// The state that the number `raw` stands for.
pub open spec fn session_state_of(raw: i32) -> SessionState {
    if raw == 0 {
        SessionState::Unknown
    } else if raw == 1 {
        SessionState::Idle
    } else if raw == 2 {
        SessionState::Ready
    } else if raw == 3 {
        SessionState::Synchronized
    } else if raw == 4 {
        SessionState::Visible
    } else if raw == 5 {
        SessionState::Focused
    } else if raw == 6 {
        SessionState::Stopping
    } else if raw == 7 {
        SessionState::LossPending
    } else if raw == 8 {
        SessionState::Exiting
    } else {
        SessionState::Other(raw)
    }
}

/// Calls `openxr::SessionState::from_raw` and tells the constants of
/// `openxr::SessionState` apart.
///
/// Trusted: `from_raw` keeps the number, the nine named constants are the
/// numbers zero to eight in the order of [`session_state_of`], and `into_raw`
/// gives the number of any other value back.
#[verifier::external_body]
fn named_session_state(raw: i32) -> (state: SessionState)
    ensures
        state == session_state_of(raw),
{
    match openxr::SessionState::from_raw(raw) {
        openxr::SessionState::UNKNOWN => SessionState::Unknown,
        openxr::SessionState::IDLE => SessionState::Idle,
        openxr::SessionState::READY => SessionState::Ready,
        openxr::SessionState::SYNCHRONIZED => SessionState::Synchronized,
        openxr::SessionState::VISIBLE => SessionState::Visible,
        openxr::SessionState::FOCUSED => SessionState::Focused,
        openxr::SessionState::STOPPING => SessionState::Stopping,
        openxr::SessionState::LOSS_PENDING => SessionState::LossPending,
        openxr::SessionState::EXITING => SessionState::Exiting,
        other => SessionState::Other(other.into_raw()),
    }
}

impl SessionState {
    /// Reads the number of an `XrSessionState`.
    pub fn from_raw(raw: i32) -> (state: SessionState)
        ensures
            state == session_state_of(raw),
    {
        named_session_state(raw)
    }
}

} // verus!
