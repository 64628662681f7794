use vstd::prelude::*;

use crate::error::GfxError;

verus! {

/// The pause between two looks at the sessions, in milliseconds.
pub const LOGOUT_POLL_MS: u64 = 100;

/// Class of a session
#[derive(Debug, Clone, Copy, PartialEq, Eq, Structural)]
pub enum SessionClass {
    User,
    Greeter,
    LockScreen,
    Manager,
}

/// Type of a session
#[derive(Debug, Clone, Copy, PartialEq, Eq, Structural)]
pub enum SessionType {
    X11,
    Wayland,
    MIR,
    TTY,
    Unspecified,
}

/// State of a session
#[derive(Debug, Clone, Copy, PartialEq, Eq, Structural)]
pub enum SessionState {
    Online,
    Active,
    Closing,
}

/// What the session manager tells of one session.
#[derive(Debug, Clone, Copy, PartialEq, Eq)]
pub struct Session {
    pub class: SessionClass,
    pub kind: SessionType,
    pub state: SessionState,
}

impl Session {
    /// A session keeps the dGPU busy when a user has it, it is graphical,
    /// and it is not on its way out.
    pub open spec fn spec_is_graphical_user_session(self) -> bool {
        &&& self.class == SessionClass::User
        &&& (self.kind == SessionType::X11 || self.kind == SessionType::Wayland || self.kind
            == SessionType::MIR)
        &&& (self.state == SessionState::Online || self.state == SessionState::Active)
    }

    #[verifier::when_used_as_spec(spec_is_graphical_user_session)]
    pub fn is_graphical_user_session(self) -> (res: bool)
        ensures
            res == self.spec_is_graphical_user_session(),
    {
        self.class == SessionClass::User && (self.kind == SessionType::X11 || self.kind
            == SessionType::Wayland || self.kind == SessionType::MIR) && (self.state
            == SessionState::Online || self.state == SessionState::Active)
    }
}

/// Is any of `sessions` a graphical session of a user?
pub open spec fn spec_graphical_user_sessions_exist(sessions: Seq<Session>) -> bool {
    exists|i: int| 0 <= i < sessions.len() && (#[trigger] sessions[i]).spec_is_graphical_user_session()
}

pub fn graphical_user_sessions_exist(sessions: &Vec<Session>) -> (res: bool)
    ensures
        res == spec_graphical_user_sessions_exist(sessions@),
{
    let mut i: usize = 0;
    while i < sessions.len()
        invariant
            0 <= i <= sessions.len(),
            forall|j: int| 0 <= j < i ==> !(#[trigger] sessions[j]).spec_is_graphical_user_session(),
        decreases sessions.len() - i,
    {
        if sessions[i].is_graphical_user_session() {
            return true;
        }
        i += 1;
    }
    false
}

/// What to do after a look at the sessions.
#[derive(Debug, Clone, Copy, PartialEq, Eq, Structural)]
pub enum LogoutWait {
    /// A newer request took over: stop, and run nothing further
    Cancelled,
    /// No graphical session is left
    LoggedOut,
    /// Pause, then look again
    PollAgain,
}

/// One step of the wait for the logout.
///
/// A wait that was cancelled ends at once. Else it ends well when no
/// graphical session of a user is left. Else it fails when `timeout_s`
/// seconds have gone by, where `timeout_s` is not 0. Else it goes on.
pub open spec fn spec_wait_logout_step(
    cancelled: bool,
    sessions: Seq<Session>,
    elapsed_s: u64,
    timeout_s: u64,
) -> Result<LogoutWait, GfxError> {
    if cancelled {
        Ok(LogoutWait::Cancelled)
    } else if !spec_graphical_user_sessions_exist(sessions) {
        Ok(LogoutWait::LoggedOut)
    } else if timeout_s != 0 && elapsed_s >= timeout_s {
        Err(GfxError::LogoutTimeout)
    } else {
        Ok(LogoutWait::PollAgain)
    }
}

pub fn wait_logout_step(cancelled: bool, sessions: &Vec<Session>, elapsed_s: u64, timeout_s: u64) -> (res:
    Result<LogoutWait, GfxError>)
    ensures
        res == spec_wait_logout_step(cancelled, sessions@, elapsed_s, timeout_s),
{
    if cancelled {
        Ok(LogoutWait::Cancelled)
    } else if !graphical_user_sessions_exist(sessions) {
        Ok(LogoutWait::LoggedOut)
    } else if timeout_s != 0 && elapsed_s >= timeout_s {
        Err(GfxError::LogoutTimeout)
    } else {
        Ok(LogoutWait::PollAgain)
    }
}

} // verus!
