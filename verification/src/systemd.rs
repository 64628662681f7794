use vstd::prelude::*;
use vstd::std_specs::convert::FromSpecImpl;
use vstd::string::*;

use crate::error::GfxError;
use crate::text::{bytes_start_with, is_prefix_of};

verus! {

/// An action for `systemctl`
#[derive(Debug, Clone, Copy, PartialEq, Eq, Structural)]
pub enum SystemdUnitAction {
    Stop,
    Start,
    Restart,
}

impl SystemdUnitAction {
    /// The word that `systemctl` takes for the action.
    pub open spec fn spec_name(self) -> &'static str {
        match self {
            SystemdUnitAction::Stop => "stop",
            SystemdUnitAction::Start => "start",
            SystemdUnitAction::Restart => "restart",
        }
    }

    /// The action as error messages show it.
    pub open spec fn spec_label(self) -> &'static str {
        match self {
            SystemdUnitAction::Stop => "Stop",
            SystemdUnitAction::Start => "Start",
            SystemdUnitAction::Restart => "Restart",
        }
    }

    pub fn label(self) -> (res: &'static str)
        ensures
            res == self.spec_label(),
    {
        match self {
            SystemdUnitAction::Stop => "Stop",
            SystemdUnitAction::Start => "Start",
            SystemdUnitAction::Restart => "Restart",
        }
    }
}

impl From<SystemdUnitAction> for &'static str {
    fn from(s: SystemdUnitAction) -> (res: &'static str)
        ensures
            res == s.spec_name(),
    {
        match s {
            SystemdUnitAction::Stop => "stop",
            SystemdUnitAction::Start => "start",
            SystemdUnitAction::Restart => "restart",
        }
    }
}

impl FromSpecImpl<SystemdUnitAction> for &'static str {
    open spec fn obeys_from_spec() -> bool {
        true
    }

    open spec fn from_spec(s: SystemdUnitAction) -> &'static str {
        s.spec_name()
    }
}

/// The two states of a unit that matter here.
#[derive(Debug, Clone, Copy, PartialEq, Eq, Structural)]
pub enum SystemdUnitState {
    Active,
    Inactive,
}

impl SystemdUnitState {
    /// The word that `systemctl is-active` prints for the state.
    pub open spec fn spec_name(self) -> &'static str {
        match self {
            SystemdUnitState::Active => "active",
            SystemdUnitState::Inactive => "inactive",
        }
    }
}

impl From<SystemdUnitState> for &'static str {
    fn from(s: SystemdUnitState) -> (res: &'static str)
        ensures
            res == s.spec_name(),
    {
        match s {
            SystemdUnitState::Active => "active",
            SystemdUnitState::Inactive => "inactive",
        }
    }
}

impl FromSpecImpl<SystemdUnitState> for &'static str {
    open spec fn obeys_from_spec() -> bool {
        true
    }

    open spec fn from_spec(s: SystemdUnitState) -> &'static str {
        s.spec_name()
    }
}

/// How often the state of a unit is asked for before the wait is given up:
/// every 250 ms for 3 seconds, and once more.
pub const UNIT_STATE_POLLS: u32 = 13;

/// The pause between two polls, in milliseconds.
pub const UNIT_STATE_POLL_MS: u64 = 250;

/// What to do after a poll of a unit's state.
#[derive(Debug, Clone, PartialEq, Eq)]
pub enum UnitWait {
    /// The unit is in the state that was waited for
    Reached,
    /// Pause, then poll again
    PollAgain,
}

/// The message of a `systemctl` call that failed.
pub open spec fn unit_action_failure(action: SystemdUnitAction, unit: Seq<char>, status: Seq<char>) -> Seq<
    char,
> {
    "systemctl "@ + action.spec_label()@ + " "@ + unit + " failed: "@ + status
}

/// Judges a call of `systemctl` with `action` on `unit` by how it ended:
/// `success` says whether the exit status was zero, `status` is the exit
/// status in words.
pub fn do_systemd_unit_action(
    action: SystemdUnitAction,
    unit: &str,
    success: bool,
    status: &str,
) -> (res: Result<(), GfxError>)
    ensures
        success ==> res is Ok,
        !success ==> (res matches Err(GfxError::SystemdUnitAction(msg)) && msg@
            == unit_action_failure(action, unit@, status@)),
{
    if success {
        return Ok(());
    }
    let mut msg = String::from_str("systemctl ");
    msg.append(action.label());
    msg.append(" ");
    msg.append(unit);
    msg.append(" failed: ");
    msg.append(status);
    Err(GfxError::SystemdUnitAction(msg))
}

/// Does the output of `systemctl is-active` say that the unit is in
/// `state`? It does when it begins with the state's word.
pub fn is_systemd_unit_state(state: SystemdUnitState, stdout: &[u8]) -> (res: bool)
    ensures
        res == is_prefix_of(state.spec_name().spec_bytes(), stdout@),
{
    let name: &'static str = state.into();
    bytes_start_with(stdout, name.as_bytes())
}

/// One step of the wait for a unit to change to `state`: `polls_done` polls
/// were made before the one that printed `stdout`. The wait ends well when
/// the output names the state, and fails with a timeout when that was the
/// last poll allowed.
pub fn wait_systemd_unit_state(state: SystemdUnitState, polls_done: u32, stdout: &[u8]) -> (res:
    Result<UnitWait, GfxError>)
    ensures
        is_prefix_of(state.spec_name().spec_bytes(), stdout@) ==> res == Ok::<UnitWait, GfxError>(
            UnitWait::Reached,
        ),
        !is_prefix_of(state.spec_name().spec_bytes(), stdout@) && polls_done + 1 < UNIT_STATE_POLLS
            ==> res == Ok::<UnitWait, GfxError>(UnitWait::PollAgain),
        !is_prefix_of(state.spec_name().spec_bytes(), stdout@) && polls_done + 1 >= UNIT_STATE_POLLS
            ==> (res matches Err(GfxError::SystemdUnitWaitTimeout(name)) && name@
            == state.spec_name()@),
{
    if is_systemd_unit_state(state, stdout) {
        Ok(UnitWait::Reached)
    } else if polls_done < UNIT_STATE_POLLS - 1 {
        Ok(UnitWait::PollAgain)
    } else {
        let name: &'static str = state.into();
        Err(GfxError::SystemdUnitWaitTimeout(String::from_str(name)))
    }
}

} // verus!
