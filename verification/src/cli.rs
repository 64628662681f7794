use vstd::prelude::*;
use vstd::string::*;

use crate::gfx_vendors::{GfxMode, GfxRequiredUserAction};
use crate::text::{contains, occurs_in};

verus! {

/// What the command line of the client asks for.
#[derive(Debug, Clone, Copy, PartialEq, Eq)]
pub struct CliStart {
    /// print help message
    pub help: bool,
    /// Set graphics mode
    pub mode: Option<GfxMode>,
    /// Get supergfxd version
    pub version: bool,
    /// Get the current mode
    pub get: bool,
    /// Get the supported modes
    pub supported: bool,
    /// Get the dGPU vendor name
    pub vendor: bool,
    /// Get the current power status
    pub status: bool,
    /// Get the pending user action if any
    pub pend_action: bool,
    /// Get the pending mode change if any
    pub pend_mode: bool,
}

impl CliStart {
    /// The usage is printed where it is asked for, and where nothing at all
    /// is asked for.
    pub open spec fn spec_wants_usage(&self) -> bool {
        (self.mode.is_none() && !self.get && !self.version && !self.supported && !self.vendor
            && !self.status && !self.pend_action && !self.pend_mode) || self.help
    }

    #[verifier::when_used_as_spec(spec_wants_usage)]
    pub fn wants_usage(&self) -> (res: bool)
        ensures
            res == self.spec_wants_usage(),
    {
        (self.mode.is_none() && !self.get && !self.version && !self.supported && !self.vendor
            && !self.status && !self.pend_action && !self.pend_mode) || self.help
    }
}

/// What the client says after it has asked for a mode.
#[derive(Debug, Clone, PartialEq, Eq)]
pub struct CliReport {
    pub text: String,
    /// The text is a complaint, and the client has to end with a failure
    pub failed: bool,
}

/// The text for the answer `action` to a request for `mode`.
pub open spec fn spec_set_mode_text(mode: GfxMode, action: GfxRequiredUserAction) -> Seq<char> {
    match action {
        GfxRequiredUserAction::Integrated =>
            "You must change to Integrated before you can change to "@ + mode.spec_name()@,
        GfxRequiredUserAction::Logout => "Graphics mode changed to "@ + mode.spec_name()@
            + ". Required user action is: "@ + action.spec_name()@,
        GfxRequiredUserAction::Nothing => "Graphics mode changed to "@ + mode.spec_name()@,
        GfxRequiredUserAction::Reboot => "A reboot is required to complete the mode change"@,
        GfxRequiredUserAction::AsusGpuMuxDisable => action.spec_name()@,
    }
}

/// What the client says to the answer `action` to a request for `mode`.
/// Only the advice to go through `Integrated` first counts as a failure.
pub fn set_mode_report(mode: GfxMode, action: GfxRequiredUserAction) -> (res: CliReport)
    ensures
        res.text@ == spec_set_mode_text(mode, action),
        res.failed == (action == GfxRequiredUserAction::Integrated),
{
    let name: &'static str = mode.into();
    let asked: &'static str = action.into();
    match action {
        GfxRequiredUserAction::Integrated => {
            let mut text = String::from_str(
                "You must change to Integrated before you can change to ",
            );
            text.append(name);
            CliReport { text, failed: true }
        },
        GfxRequiredUserAction::Logout => {
            let mut text = String::from_str("Graphics mode changed to ");
            text.append(name);
            text.append(". Required user action is: ");
            text.append(asked);
            CliReport { text, failed: false }
        },
        GfxRequiredUserAction::Nothing => {
            let mut text = String::from_str("Graphics mode changed to ");
            text.append(name);
            CliReport { text, failed: false }
        },
        GfxRequiredUserAction::Reboot => CliReport {
            text: String::from_str("A reboot is required to complete the mode change"),
            failed: false,
        },
        GfxRequiredUserAction::AsusGpuMuxDisable => CliReport {
            text: String::from_str(asked),
            failed: false,
        },
    }
}

/// Does the output of `systemctl is-active` say that the unit runs? It does
/// unless it says `inactive` or `failed`.
pub fn check_systemd_unit_active(stdout: &str) -> (res: bool)
    ensures
        res == (!occurs_in("inactive"@, stdout@) && !occurs_in("failed"@, stdout@)),
{
    !contains(stdout, "inactive") && !contains(stdout, "failed")
}

/// Does the output of `systemctl is-enabled` say that the unit is enabled?
pub fn check_systemd_unit_enabled(stdout: &str) -> (res: bool)
    ensures
        res == occurs_in("enabled"@, stdout@),
{
    contains(stdout, "enabled")
}

/// The advice for a user whose request failed.
pub open spec fn spec_failure_hint(enabled: bool, active: bool) -> &'static str {
    if !enabled {
        "supergfxd is not enabled, enable it with `systemctl enable supergfxd`"
    } else if !active {
        "supergfxd is not running, start it with `systemctl start supergfxd`"
    } else {
        "Please check `journalctl -b -u supergfxd`, and `systemctl status supergfxd`"
    }
}

pub fn failure_hint(enabled: bool, active: bool) -> (res: &'static str)
    ensures
        res == spec_failure_hint(enabled, active),
{
    if !enabled {
        "supergfxd is not enabled, enable it with `systemctl enable supergfxd`"
    } else if !active {
        "supergfxd is not running, start it with `systemctl start supergfxd`"
    } else {
        "Please check `journalctl -b -u supergfxd`, and `systemctl status supergfxd`"
    }
}

} // verus!
