use vstd::prelude::*;

use crate::config::GfxConfig;
use crate::error::GfxError;
use crate::gfx_vendors::{GfxMode, GfxRequiredUserAction, GfxVendor};
use crate::pci_device::HotplugType;

verus! {

/// One stage of a mode change. A plan is a list of these, run in order.
#[derive(Debug, Clone, Copy, PartialEq, Eq, Structural)]
pub enum StagedAction {
    /// Wait for the user to logout
    WaitLogout,
    /// Stop the display manager
    StopDisplayManager,
    /// Restart the display manager
    StartDisplayManager,
    /// A marker for no logind options
    NoLogind,
    /// Load the dGPU drivers
    LoadGpuDrivers,
    /// Unload the dGPU drivers
    UnloadGpuDrivers,
    /// Kill all things using the Nvidia device
    KillNvidia,
    /// Kill all things using the AMD device
    KillAmd,
    /// Start the Nvidia power daemon
    EnableNvidiaPowerd,
    /// Stop the Nvidia power daemon
    DisableNvidiaPowerd,
    /// Load the vfio modules
    LoadVfioDrivers,
    /// Unload the vfio modules
    UnloadVfioDrivers,
    /// Rescan the PCI bus so that removed devices come back
    RescanPci,
    /// Unbind the dGPU from its driver and remove it from the device tree
    UnbindRemoveGpu,
    /// Power the dGPU slot off through standard PCIe hotplug
    HotplugUnplug,
    /// Power the dGPU slot on through standard PCIe hotplug
    HotplugPlug,
    /// Switch the dGPU off through the ASUS `dgpu_disable` toggle
    AsusDgpuDisable,
    /// Switch the dGPU on through the ASUS `dgpu_disable` toggle
    AsusDgpuEnable,
    /// Switch the eGPU off through the ASUS `egpu_enable` toggle
    AsusEgpuDisable,
    /// Switch the eGPU on through the ASUS `egpu_enable` toggle
    AsusEgpuEnable,
    /// Point the ASUS GPU MUX at the iGPU
    AsusMuxIgpu,
    /// Point the ASUS GPU MUX at the dGPU
    AsusMuxDgpu,
    /// Write the module options for the target mode
    WriteModprobeConf,
    /// A marker: the device tree alone manages the dGPU, there is no hotplug
    DevTreeManaged,
    /// A marker: the step is for Nvidia only and the dGPU is something else
    NotNvidia,
    /// A marker: nothing, also what comes before the first stage
    Nothing,
}

impl StagedAction {
    /// The table of predecessors: may `self` run directly after
    /// `previous_action`? `Nothing` as predecessor stands for the start of
    /// a plan.
    pub open spec fn previous_allowed(self, previous_action: StagedAction) -> bool {
        match self {
            StagedAction::StopDisplayManager => previous_action == StagedAction::WaitLogout,
            StagedAction::StartDisplayManager => true,
            StagedAction::NoLogind => {
                ||| previous_action == StagedAction::Nothing
                ||| previous_action == StagedAction::NoLogind
                ||| previous_action == StagedAction::HotplugUnplug
                ||| previous_action == StagedAction::AsusDgpuDisable
                ||| previous_action == StagedAction::AsusEgpuDisable
                ||| previous_action == StagedAction::DevTreeManaged
                ||| previous_action == StagedAction::EnableNvidiaPowerd
                ||| previous_action == StagedAction::NotNvidia
                ||| previous_action == StagedAction::AsusMuxDgpu
            },
            StagedAction::LoadGpuDrivers => previous_action == StagedAction::RescanPci,
            StagedAction::UnloadGpuDrivers => {
                ||| previous_action == StagedAction::StopDisplayManager
                ||| previous_action == StagedAction::DisableNvidiaPowerd
                ||| previous_action == StagedAction::KillNvidia
                ||| previous_action == StagedAction::KillAmd
                ||| previous_action == StagedAction::NotNvidia
                ||| previous_action == StagedAction::AsusEgpuDisable
            },
            StagedAction::KillNvidia => {
                ||| previous_action == StagedAction::StopDisplayManager
                ||| previous_action == StagedAction::DisableNvidiaPowerd
                ||| previous_action == StagedAction::Nothing
            },
            StagedAction::KillAmd => {
                ||| previous_action == StagedAction::NotNvidia
                ||| previous_action == StagedAction::StopDisplayManager
                ||| previous_action == StagedAction::Nothing
            },
            StagedAction::EnableNvidiaPowerd => {
                ||| previous_action == StagedAction::DevTreeManaged
                ||| previous_action == StagedAction::LoadGpuDrivers
                ||| previous_action == StagedAction::Nothing
            },
            StagedAction::DisableNvidiaPowerd => {
                ||| previous_action == StagedAction::StopDisplayManager
                ||| previous_action == StagedAction::NoLogind
                ||| previous_action == StagedAction::RescanPci
                ||| previous_action == StagedAction::Nothing
            },
            StagedAction::LoadVfioDrivers => true,
            StagedAction::UnloadVfioDrivers => true,
            StagedAction::RescanPci => {
                ||| previous_action == StagedAction::Nothing
                ||| previous_action == StagedAction::AsusDgpuEnable
                ||| previous_action == StagedAction::AsusDgpuDisable
                ||| previous_action == StagedAction::AsusEgpuEnable
                ||| previous_action == StagedAction::AsusEgpuDisable
                ||| previous_action == StagedAction::HotplugPlug
                ||| previous_action == StagedAction::HotplugUnplug
                ||| previous_action == StagedAction::DevTreeManaged
                ||| previous_action == StagedAction::WriteModprobeConf
            },
            StagedAction::UnbindRemoveGpu => {
                ||| previous_action == StagedAction::UnloadGpuDrivers
                ||| previous_action == StagedAction::UnloadVfioDrivers
            },
            StagedAction::HotplugUnplug
            | StagedAction::HotplugPlug
            | StagedAction::AsusDgpuDisable
            | StagedAction::AsusDgpuEnable
            | StagedAction::AsusEgpuDisable
            | StagedAction::AsusEgpuEnable
            | StagedAction::DevTreeManaged => previous_action == StagedAction::WriteModprobeConf,
            StagedAction::AsusMuxIgpu => {
                ||| previous_action == StagedAction::Nothing
                ||| previous_action == StagedAction::DisableNvidiaPowerd
                ||| previous_action == StagedAction::NotNvidia
            },
            StagedAction::AsusMuxDgpu => {
                ||| previous_action == StagedAction::EnableNvidiaPowerd
                ||| previous_action == StagedAction::NotNvidia
                ||| previous_action == StagedAction::Nothing
            },
            StagedAction::WriteModprobeConf => {
                ||| previous_action == StagedAction::StopDisplayManager
                ||| previous_action == StagedAction::NoLogind
                ||| previous_action == StagedAction::UnbindRemoveGpu
                ||| previous_action == StagedAction::UnloadGpuDrivers
                ||| previous_action == StagedAction::UnloadVfioDrivers
                ||| previous_action == StagedAction::Nothing
            },
            StagedAction::WaitLogout | StagedAction::NotNvidia | StagedAction::Nothing => true,
        }
    }

    /// The table of successors: may `next_allowed_action` run directly
    /// after `self`? `Nothing` as `self` stands for the start of a plan.
    pub open spec fn next_allowed(self, next_allowed_action: StagedAction) -> bool {
        match self {
            StagedAction::WaitLogout => next_allowed_action == StagedAction::StopDisplayManager,
            StagedAction::StopDisplayManager => {
                ||| next_allowed_action == StagedAction::DisableNvidiaPowerd
                ||| next_allowed_action == StagedAction::WriteModprobeConf
                ||| next_allowed_action == StagedAction::UnloadVfioDrivers
                ||| next_allowed_action == StagedAction::KillAmd
                ||| next_allowed_action == StagedAction::KillNvidia
                ||| next_allowed_action == StagedAction::NotNvidia
            },
            StagedAction::StartDisplayManager => next_allowed_action == StagedAction::Nothing,
            StagedAction::NoLogind => {
                ||| next_allowed_action == StagedAction::NoLogind
                ||| next_allowed_action == StagedAction::NotNvidia
                ||| next_allowed_action == StagedAction::DisableNvidiaPowerd
                ||| next_allowed_action == StagedAction::WriteModprobeConf
            },
            StagedAction::LoadGpuDrivers => {
                ||| next_allowed_action == StagedAction::EnableNvidiaPowerd
                ||| next_allowed_action == StagedAction::NotNvidia
                ||| next_allowed_action == StagedAction::Nothing
            },
            StagedAction::UnloadGpuDrivers => {
                ||| next_allowed_action == StagedAction::UnbindRemoveGpu
                ||| next_allowed_action == StagedAction::WriteModprobeConf
            },
            StagedAction::KillNvidia => {
                ||| next_allowed_action == StagedAction::UnloadGpuDrivers
                ||| next_allowed_action == StagedAction::UnloadVfioDrivers
            },
            StagedAction::KillAmd => {
                ||| next_allowed_action == StagedAction::UnloadGpuDrivers
                ||| next_allowed_action == StagedAction::UnloadVfioDrivers
            },
            StagedAction::EnableNvidiaPowerd => {
                ||| next_allowed_action == StagedAction::StartDisplayManager
                ||| next_allowed_action == StagedAction::AsusMuxDgpu
                ||| next_allowed_action == StagedAction::NoLogind
                ||| next_allowed_action == StagedAction::Nothing
            },
            StagedAction::DisableNvidiaPowerd => next_allowed_action == StagedAction::KillNvidia,
            StagedAction::LoadVfioDrivers => next_allowed_action == StagedAction::Nothing,
            StagedAction::UnloadVfioDrivers => {
                ||| next_allowed_action == StagedAction::UnbindRemoveGpu
                ||| next_allowed_action == StagedAction::WriteModprobeConf
            },
            StagedAction::DevTreeManaged => {
                ||| next_allowed_action == StagedAction::StartDisplayManager
                ||| next_allowed_action == StagedAction::NoLogind
                ||| next_allowed_action == StagedAction::RescanPci
            },
            StagedAction::RescanPci => {
                ||| next_allowed_action == StagedAction::LoadGpuDrivers
                ||| next_allowed_action == StagedAction::DisableNvidiaPowerd
                ||| next_allowed_action == StagedAction::NotNvidia
            },
            StagedAction::UnbindRemoveGpu => next_allowed_action == StagedAction::WriteModprobeConf,
            StagedAction::HotplugUnplug => {
                ||| next_allowed_action == StagedAction::StartDisplayManager
                ||| next_allowed_action == StagedAction::NoLogind
            },
            StagedAction::HotplugPlug => next_allowed_action == StagedAction::RescanPci,
            StagedAction::AsusDgpuDisable => {
                ||| next_allowed_action == StagedAction::StartDisplayManager
                ||| next_allowed_action == StagedAction::NoLogind
            },
            StagedAction::AsusDgpuEnable => next_allowed_action == StagedAction::RescanPci,
            StagedAction::AsusEgpuDisable => {
                ||| next_allowed_action == StagedAction::StartDisplayManager
                ||| next_allowed_action == StagedAction::NoLogind
                ||| next_allowed_action == StagedAction::RescanPci
            },
            StagedAction::AsusEgpuEnable => next_allowed_action == StagedAction::RescanPci,
            StagedAction::AsusMuxIgpu => false,
            StagedAction::AsusMuxDgpu => {
                ||| next_allowed_action == StagedAction::StartDisplayManager
                ||| next_allowed_action == StagedAction::NoLogind
            },
            StagedAction::WriteModprobeConf => {
                ||| next_allowed_action == StagedAction::AsusEgpuDisable
                ||| next_allowed_action == StagedAction::AsusEgpuEnable
                ||| next_allowed_action == StagedAction::HotplugUnplug
                ||| next_allowed_action == StagedAction::AsusDgpuDisable
                ||| next_allowed_action == StagedAction::DevTreeManaged
                ||| next_allowed_action == StagedAction::HotplugPlug
                ||| next_allowed_action == StagedAction::AsusDgpuEnable
                ||| next_allowed_action == StagedAction::LoadVfioDrivers
                ||| next_allowed_action == StagedAction::RescanPci
            },
            StagedAction::NotNvidia => {
                ||| next_allowed_action == StagedAction::KillAmd
                ||| next_allowed_action == StagedAction::StartDisplayManager
                ||| next_allowed_action == StagedAction::NoLogind
                ||| next_allowed_action == StagedAction::AsusMuxDgpu
            },
            StagedAction::Nothing => {
                ||| next_allowed_action == StagedAction::RescanPci
                ||| next_allowed_action == StagedAction::NoLogind
                ||| next_allowed_action == StagedAction::WriteModprobeConf
                ||| next_allowed_action == StagedAction::WaitLogout
                ||| next_allowed_action == StagedAction::NotNvidia
                ||| next_allowed_action == StagedAction::KillNvidia
                ||| next_allowed_action == StagedAction::KillAmd
                ||| next_allowed_action == StagedAction::EnableNvidiaPowerd
                ||| next_allowed_action == StagedAction::DisableNvidiaPowerd
                ||| next_allowed_action == StagedAction::UnloadVfioDrivers
            },
        }
    }

    /// Verification that the action lists are in the correct order. If incorrect then lockups and other errors can occur
    pub fn verify_previous_action_for_current(&self, previous_action: StagedAction) -> (res: Result<
        (),
        GfxError,
    >)
        ensures
            self.previous_allowed(previous_action) ==> res == Ok::<(), GfxError>(()),
            !self.previous_allowed(previous_action) ==> res == Err::<(), GfxError>(
                GfxError::IncorrectActionOrder(*self, previous_action),
            ),
    {
        let p = previous_action;
        let allowed = match self {
            StagedAction::StopDisplayManager => p == StagedAction::WaitLogout,
            StagedAction::StartDisplayManager => true,
            StagedAction::NoLogind => p == StagedAction::Nothing || p == StagedAction::NoLogind
                || p == StagedAction::HotplugUnplug || p == StagedAction::AsusDgpuDisable || p
                == StagedAction::AsusEgpuDisable || p == StagedAction::DevTreeManaged || p
                == StagedAction::EnableNvidiaPowerd || p == StagedAction::NotNvidia || p
                == StagedAction::AsusMuxDgpu,
            StagedAction::LoadGpuDrivers => p == StagedAction::RescanPci,
            StagedAction::UnloadGpuDrivers => p == StagedAction::StopDisplayManager || p
                == StagedAction::DisableNvidiaPowerd || p == StagedAction::KillNvidia || p
                == StagedAction::KillAmd || p == StagedAction::NotNvidia || p
                == StagedAction::AsusEgpuDisable,
            StagedAction::KillNvidia => p == StagedAction::StopDisplayManager || p
                == StagedAction::DisableNvidiaPowerd || p == StagedAction::Nothing,
            StagedAction::KillAmd => p == StagedAction::NotNvidia || p
                == StagedAction::StopDisplayManager || p == StagedAction::Nothing,
            StagedAction::EnableNvidiaPowerd => p == StagedAction::DevTreeManaged || p
                == StagedAction::LoadGpuDrivers || p == StagedAction::Nothing,
            StagedAction::DisableNvidiaPowerd => p == StagedAction::StopDisplayManager || p
                == StagedAction::NoLogind || p == StagedAction::RescanPci || p
                == StagedAction::Nothing,
            StagedAction::LoadVfioDrivers => true,
            StagedAction::UnloadVfioDrivers => true,
            StagedAction::RescanPci => p == StagedAction::Nothing || p
                == StagedAction::AsusDgpuEnable || p == StagedAction::AsusDgpuDisable || p
                == StagedAction::AsusEgpuEnable || p == StagedAction::AsusEgpuDisable || p
                == StagedAction::HotplugPlug || p == StagedAction::HotplugUnplug || p
                == StagedAction::DevTreeManaged || p == StagedAction::WriteModprobeConf,
            StagedAction::UnbindRemoveGpu => p == StagedAction::UnloadGpuDrivers || p
                == StagedAction::UnloadVfioDrivers,
            StagedAction::HotplugUnplug
            | StagedAction::HotplugPlug
            | StagedAction::AsusDgpuDisable
            | StagedAction::AsusDgpuEnable
            | StagedAction::AsusEgpuDisable
            | StagedAction::AsusEgpuEnable
            | StagedAction::DevTreeManaged => p == StagedAction::WriteModprobeConf,
            StagedAction::AsusMuxIgpu => p == StagedAction::Nothing || p
                == StagedAction::DisableNvidiaPowerd || p == StagedAction::NotNvidia,
            StagedAction::AsusMuxDgpu => p == StagedAction::EnableNvidiaPowerd || p
                == StagedAction::NotNvidia || p == StagedAction::Nothing,
            StagedAction::WriteModprobeConf => p == StagedAction::StopDisplayManager || p
                == StagedAction::NoLogind || p == StagedAction::UnbindRemoveGpu || p
                == StagedAction::UnloadGpuDrivers || p == StagedAction::UnloadVfioDrivers || p
                == StagedAction::Nothing,
            StagedAction::WaitLogout | StagedAction::NotNvidia | StagedAction::Nothing => true,
        };
        if allowed {
            Ok(())
        } else {
            Err(GfxError::IncorrectActionOrder(*self, previous_action))
        }
    }

    /// The same check seen from the stage before: may `next_allowed_action`
    /// follow `self`?
    pub fn verify_next_allowed_action(&self, next_allowed_action: StagedAction) -> (res: Result<
        (),
        GfxError,
    >)
        ensures
            self.next_allowed(next_allowed_action) ==> res == Ok::<(), GfxError>(()),
            !self.next_allowed(next_allowed_action) ==> res == Err::<(), GfxError>(
                GfxError::IncorrectActionOrder(next_allowed_action, *self),
            ),
    {
        let n = next_allowed_action;
        let allowed = match self {
            StagedAction::WaitLogout => n == StagedAction::StopDisplayManager,
            StagedAction::StopDisplayManager => n == StagedAction::DisableNvidiaPowerd || n
                == StagedAction::WriteModprobeConf || n == StagedAction::UnloadVfioDrivers || n
                == StagedAction::KillAmd || n == StagedAction::KillNvidia || n
                == StagedAction::NotNvidia,
            StagedAction::StartDisplayManager => n == StagedAction::Nothing,
            StagedAction::NoLogind => n == StagedAction::NoLogind || n == StagedAction::NotNvidia
                || n == StagedAction::DisableNvidiaPowerd || n == StagedAction::WriteModprobeConf,
            StagedAction::LoadGpuDrivers => n == StagedAction::EnableNvidiaPowerd || n
                == StagedAction::NotNvidia || n == StagedAction::Nothing,
            StagedAction::UnloadGpuDrivers => n == StagedAction::UnbindRemoveGpu || n
                == StagedAction::WriteModprobeConf,
            StagedAction::KillNvidia => n == StagedAction::UnloadGpuDrivers || n
                == StagedAction::UnloadVfioDrivers,
            StagedAction::KillAmd => n == StagedAction::UnloadGpuDrivers || n
                == StagedAction::UnloadVfioDrivers,
            StagedAction::EnableNvidiaPowerd => n == StagedAction::StartDisplayManager || n
                == StagedAction::AsusMuxDgpu || n == StagedAction::NoLogind || n
                == StagedAction::Nothing,
            StagedAction::DisableNvidiaPowerd => n == StagedAction::KillNvidia,
            StagedAction::LoadVfioDrivers => n == StagedAction::Nothing,
            StagedAction::UnloadVfioDrivers => n == StagedAction::UnbindRemoveGpu || n
                == StagedAction::WriteModprobeConf,
            StagedAction::DevTreeManaged => n == StagedAction::StartDisplayManager || n
                == StagedAction::NoLogind || n == StagedAction::RescanPci,
            StagedAction::RescanPci => n == StagedAction::LoadGpuDrivers || n
                == StagedAction::DisableNvidiaPowerd || n == StagedAction::NotNvidia,
            StagedAction::UnbindRemoveGpu => n == StagedAction::WriteModprobeConf,
            StagedAction::HotplugUnplug => n == StagedAction::StartDisplayManager || n
                == StagedAction::NoLogind,
            StagedAction::HotplugPlug => n == StagedAction::RescanPci,
            StagedAction::AsusDgpuDisable => n == StagedAction::StartDisplayManager || n
                == StagedAction::NoLogind,
            StagedAction::AsusDgpuEnable => n == StagedAction::RescanPci,
            StagedAction::AsusEgpuDisable => n == StagedAction::StartDisplayManager || n
                == StagedAction::NoLogind || n == StagedAction::RescanPci,
            StagedAction::AsusEgpuEnable => n == StagedAction::RescanPci,
            StagedAction::AsusMuxIgpu => false,
            StagedAction::AsusMuxDgpu => n == StagedAction::StartDisplayManager || n
                == StagedAction::NoLogind,
            StagedAction::WriteModprobeConf => n == StagedAction::AsusEgpuDisable || n
                == StagedAction::AsusEgpuEnable || n == StagedAction::HotplugUnplug || n
                == StagedAction::AsusDgpuDisable || n == StagedAction::DevTreeManaged || n
                == StagedAction::HotplugPlug || n == StagedAction::AsusDgpuEnable || n
                == StagedAction::LoadVfioDrivers || n == StagedAction::RescanPci,
            StagedAction::NotNvidia => n == StagedAction::KillAmd || n
                == StagedAction::StartDisplayManager || n == StagedAction::NoLogind || n
                == StagedAction::AsusMuxDgpu,
            StagedAction::Nothing => n == StagedAction::RescanPci || n == StagedAction::NoLogind
                || n == StagedAction::WriteModprobeConf || n == StagedAction::WaitLogout || n
                == StagedAction::NotNvidia || n == StagedAction::KillNvidia || n
                == StagedAction::KillAmd || n == StagedAction::EnableNvidiaPowerd || n
                == StagedAction::DisableNvidiaPowerd || n == StagedAction::UnloadVfioDrivers,
        };
        if allowed {
            Ok(())
        } else {
            Err(GfxError::IncorrectActionOrder(next_allowed_action, *self))
        }
    }
}

/// What a request for a mode change comes to: either only a message for the
/// user, or the stages to run.
#[derive(Debug, Clone, PartialEq, Eq)]
pub enum Action {
    UserAction(GfxRequiredUserAction),
    StagedActions(Vec<StagedAction>),
}

/// An `Action` with its list of stages as a sequence.
pub enum ActionView {
    UserAction(GfxRequiredUserAction),
    StagedActions(Seq<StagedAction>),
}

impl View for Action {
    type V = ActionView;

    open spec fn view(&self) -> ActionView {
        match self {
            Action::UserAction(u) => ActionView::UserAction(*u),
            Action::StagedActions(v) => ActionView::StagedActions(v@),
        }
    }
}

impl GfxRequiredUserAction {
    /// What the user has to do for a change from `current_mode` to
    /// `new_mode`.
    ///
    /// Asking for no mode, or for the mode that is set, needs nothing.
    /// Between `Integrated`, `Vfio` and `Compute` the change is made at
    /// once; from any other mode `Vfio` and `Compute` are reached through
    /// `Integrated` only; everything else takes a logout. That the MUX is
    /// wired to the dGPU, or that the machine has to be restarted, is not
    /// for this table to say: the controller reads both off the hardware
    /// and the settings before it comes here.
    pub open spec fn spec_mode_change_action(
        new_mode: GfxMode,
        current_mode: GfxMode,
    ) -> GfxRequiredUserAction {
        if new_mode == GfxMode::Unset || new_mode == current_mode {
            GfxRequiredUserAction::Nothing
        } else if new_mode.spec_is_live() && current_mode.spec_is_live() {
            GfxRequiredUserAction::Nothing
        } else if new_mode == GfxMode::Vfio || new_mode == GfxMode::Compute {
            GfxRequiredUserAction::Integrated
        } else {
            GfxRequiredUserAction::Logout
        }
    }

    /// Determine if we need to logout/thread. Integrated<->Vfio mode does not
    /// require logout.
    #[verifier::when_used_as_spec(spec_mode_change_action)]
    pub fn mode_change_action(new_mode: GfxMode, current_mode: GfxMode) -> (res:
        GfxRequiredUserAction)
        ensures
            res == Self::spec_mode_change_action(new_mode, current_mode),
    {
        if new_mode == GfxMode::Unset || new_mode == current_mode {
            GfxRequiredUserAction::Nothing
        } else if new_mode.is_live() && current_mode.is_live() {
            GfxRequiredUserAction::Nothing
        } else if new_mode == GfxMode::Vfio || new_mode == GfxMode::Compute {
            GfxRequiredUserAction::Integrated
        } else {
            GfxRequiredUserAction::Logout
        }
    }
}

impl StagedAction {
    /// The stage that frees the dGPU of the processes that use it.
    pub open spec fn spec_kill_gpu_use(vendor: GfxVendor) -> StagedAction {
        if vendor == GfxVendor::Nvidia {
            StagedAction::KillNvidia
        } else {
            StagedAction::KillAmd
        }
    }

    pub open spec fn spec_disable_nvidia_powerd(vendor: GfxVendor) -> StagedAction {
        if vendor == GfxVendor::Nvidia {
            StagedAction::DisableNvidiaPowerd
        } else {
            StagedAction::NotNvidia
        }
    }

    pub open spec fn spec_enable_nvidia_powerd(vendor: GfxVendor) -> StagedAction {
        if vendor == GfxVendor::Nvidia {
            StagedAction::EnableNvidiaPowerd
        } else {
            StagedAction::NotNvidia
        }
    }

    /// The stage that takes the dGPU's power away.
    pub open spec fn spec_hotplug_rm_type(hotplug_type: HotplugType) -> StagedAction {
        match hotplug_type {
            HotplugType::Std => StagedAction::HotplugUnplug,
            HotplugType::Asus => StagedAction::AsusDgpuDisable,
            HotplugType::NoHotplug => StagedAction::DevTreeManaged,
        }
    }

    /// The stage that gives the dGPU its power back.
    pub open spec fn spec_hotplug_add_type(hotplug_type: HotplugType) -> StagedAction {
        match hotplug_type {
            HotplugType::Std => StagedAction::HotplugPlug,
            HotplugType::Asus => StagedAction::AsusDgpuEnable,
            HotplugType::NoHotplug => StagedAction::DevTreeManaged,
        }
    }

    /// What opens a plan that needs every session gone.
    pub open spec fn spec_bracket_open(no_logind: bool) -> Seq<StagedAction> {
        if no_logind {
            seq![StagedAction::NoLogind, StagedAction::NoLogind]
        } else {
            seq![StagedAction::WaitLogout, StagedAction::StopDisplayManager]
        }
    }

    /// What closes such a plan.
    pub open spec fn spec_bracket_close(no_logind: bool) -> Seq<StagedAction> {
        if no_logind {
            seq![StagedAction::NoLogind]
        } else {
            seq![StagedAction::StartDisplayManager]
        }
    }

    /// Is there nothing to take down on the way from `from` to `to`? So it is
    /// when the dGPU is off.
    pub open spec fn spec_keeps_drivers(from: GfxMode, to: GfxMode) -> bool {
        from == GfxMode::Integrated
    }

    /// The stages that take down what mode `from` had set up.
    pub open spec fn spec_teardown(vendor: GfxVendor, from: GfxMode, to: GfxMode) -> Seq<
        StagedAction,
    > {
        if Self::spec_keeps_drivers(from, to) {
            Seq::empty()
        } else {
            seq![
                Self::spec_disable_nvidia_powerd(vendor),
                Self::spec_kill_gpu_use(vendor),
                if from == GfxMode::Vfio {
                    StagedAction::UnloadVfioDrivers
                } else {
                    StagedAction::UnloadGpuDrivers
                },
            ]
        }
    }

    /// The stages that bring the dGPU up with its own driver.
    pub open spec fn spec_bring_up(
        hotplug_type: HotplugType,
        vendor: GfxVendor,
        from: GfxMode,
    ) -> Seq<StagedAction> {
        if from == GfxMode::AsusEgpu {
            seq![
                StagedAction::UnbindRemoveGpu,
                StagedAction::WriteModprobeConf,
                StagedAction::AsusEgpuDisable,
                StagedAction::RescanPci,
                StagedAction::LoadGpuDrivers,
                Self::spec_enable_nvidia_powerd(vendor),
            ]
        } else {
            seq![
                StagedAction::WriteModprobeConf,
                Self::spec_hotplug_add_type(hotplug_type),
                StagedAction::RescanPci,
                StagedAction::LoadGpuDrivers,
                Self::spec_enable_nvidia_powerd(vendor),
            ]
        }
    }

    /// The stages that set mode `to` up, once `from` is taken down.
    pub open spec fn spec_setup(
        hotplug_type: HotplugType,
        vendor: GfxVendor,
        from: GfxMode,
        to: GfxMode,
    ) -> Seq<StagedAction> {
        match to {
            GfxMode::Hybrid | GfxMode::NvidiaNoModeset | GfxMode::Compute => Self::spec_bring_up(
                hotplug_type,
                vendor,
                from,
            ),
            GfxMode::Integrated => seq![
                StagedAction::UnbindRemoveGpu,
                StagedAction::WriteModprobeConf,
                if from == GfxMode::AsusEgpu {
                    StagedAction::AsusEgpuDisable
                } else {
                    Self::spec_hotplug_rm_type(hotplug_type)
                },
            ],
            GfxMode::Vfio => seq![StagedAction::WriteModprobeConf, StagedAction::LoadVfioDrivers],
            GfxMode::AsusEgpu => if from == GfxMode::Integrated {
                seq![
                    StagedAction::WriteModprobeConf,
                    StagedAction::AsusEgpuEnable,
                    StagedAction::RescanPci,
                    StagedAction::LoadGpuDrivers,
                    Self::spec_enable_nvidia_powerd(vendor),
                ]
            } else {
                seq![
                    StagedAction::UnbindRemoveGpu,
                    StagedAction::WriteModprobeConf,
                    StagedAction::AsusEgpuEnable,
                    StagedAction::RescanPci,
                    StagedAction::LoadGpuDrivers,
                    Self::spec_enable_nvidia_powerd(vendor),
                ]
            },
            GfxMode::AsusMuxDgpu => Self::spec_bring_up(hotplug_type, vendor, from).push(
                StagedAction::AsusMuxDgpu,
            ),
            GfxMode::Unset => Seq::empty(),
        }
    }

    /// The plan for a change from `from` to `to`.
    ///
    /// Where `mode_change_action` asks for a logout, the stages that take
    /// `from` down and set `to` up stand between the opening and the closing
    /// of the bracket. Where it asks for nothing and the modes differ, the
    /// same stages stand alone. In every other case there is nothing to run,
    /// and the plan is the message for the user.
    pub open spec fn spec_action_list_for_switch(
        config: GfxConfig,
        vendor: GfxVendor,
        from: GfxMode,
        to: GfxMode,
    ) -> ActionView {
        let action = GfxRequiredUserAction::spec_mode_change_action(to, from);
        let stages = Self::spec_teardown(vendor, from, to) + Self::spec_setup(
            config.hotplug_type,
            vendor,
            from,
            to,
        );
        match action {
            GfxRequiredUserAction::Logout => ActionView::StagedActions(
                Self::spec_bracket_open(config.no_logind) + stages + Self::spec_bracket_close(
                    config.no_logind,
                ),
            ),
            GfxRequiredUserAction::Nothing => if to == GfxMode::Unset || to == from {
                ActionView::UserAction(action)
            } else {
                ActionView::StagedActions(stages)
            },
            _ => ActionView::UserAction(action),
        }
    }

    /// The plan that sets `mode` up on a machine that has just started.
    pub open spec fn spec_action_list_for_boot(
        config: GfxConfig,
        vendor: GfxVendor,
        mode: GfxMode,
    ) -> Seq<StagedAction> {
        match mode {
            GfxMode::Hybrid | GfxMode::NvidiaNoModeset | GfxMode::Compute => Self::spec_bring_up(
                config.hotplug_type,
                vendor,
                GfxMode::Unset,
            ),
            GfxMode::Integrated | GfxMode::Vfio => Self::spec_teardown(vendor, GfxMode::Unset, mode)
                + Self::spec_setup(config.hotplug_type, vendor, GfxMode::Unset, mode),
            GfxMode::AsusEgpu => Self::spec_setup(
                config.hotplug_type,
                vendor,
                GfxMode::Integrated,
                mode,
            ),
            GfxMode::AsusMuxDgpu => seq![
                StagedAction::WriteModprobeConf,
                StagedAction::RescanPci,
                StagedAction::LoadGpuDrivers,
                Self::spec_enable_nvidia_powerd(vendor),
            ],
            GfxMode::Unset => Seq::empty(),
        }
    }
}

impl StagedAction {
    fn kill_gpu_use(vendor: GfxVendor) -> (res: StagedAction)
        ensures
            res == Self::spec_kill_gpu_use(vendor),
    {
        if vendor == GfxVendor::Nvidia {
            StagedAction::KillNvidia
        } else {
            StagedAction::KillAmd
        }
    }

    fn disable_nvidia_powerd(vendor: GfxVendor) -> (res: StagedAction)
        ensures
            res == Self::spec_disable_nvidia_powerd(vendor),
    {
        if vendor == GfxVendor::Nvidia {
            StagedAction::DisableNvidiaPowerd
        } else {
            StagedAction::NotNvidia
        }
    }

    fn enable_nvidia_powerd(vendor: GfxVendor) -> (res: StagedAction)
        ensures
            res == Self::spec_enable_nvidia_powerd(vendor),
    {
        if vendor == GfxVendor::Nvidia {
            StagedAction::EnableNvidiaPowerd
        } else {
            StagedAction::NotNvidia
        }
    }

    fn hotplug_rm_type(hotplug_type: HotplugType) -> (res: StagedAction)
        ensures
            res == Self::spec_hotplug_rm_type(hotplug_type),
    {
        match hotplug_type {
            HotplugType::Std => StagedAction::HotplugUnplug,
            HotplugType::Asus => StagedAction::AsusDgpuDisable,
            HotplugType::NoHotplug => StagedAction::DevTreeManaged,
        }
    }

    fn hotplug_add_type(hotplug_type: HotplugType) -> (res: StagedAction)
        ensures
            res == Self::spec_hotplug_add_type(hotplug_type),
    {
        match hotplug_type {
            HotplugType::Std => StagedAction::HotplugPlug,
            HotplugType::Asus => StagedAction::AsusDgpuEnable,
            HotplugType::NoHotplug => StagedAction::DevTreeManaged,
        }
    }

    fn push_teardown(list: &mut Vec<StagedAction>, vendor: GfxVendor, from: GfxMode, to: GfxMode)
        ensures
            final(list)@ == old(list)@ + Self::spec_teardown(vendor, from, to),
    {
        if from != GfxMode::Integrated {
            list.push(Self::disable_nvidia_powerd(vendor));
            list.push(Self::kill_gpu_use(vendor));
            if from == GfxMode::Vfio {
                list.push(StagedAction::UnloadVfioDrivers);
            } else {
                list.push(StagedAction::UnloadGpuDrivers);
            }
        }
        assert(list@ =~= old(list)@ + Self::spec_teardown(vendor, from, to));
    }

    fn push_bring_up(
        list: &mut Vec<StagedAction>,
        hotplug_type: HotplugType,
        vendor: GfxVendor,
        from: GfxMode,
    )
        ensures
            final(list)@ == old(list)@ + Self::spec_bring_up(hotplug_type, vendor, from),
    {
        if from == GfxMode::AsusEgpu {
            list.push(StagedAction::UnbindRemoveGpu);
            list.push(StagedAction::WriteModprobeConf);
            list.push(StagedAction::AsusEgpuDisable);
        } else {
            list.push(StagedAction::WriteModprobeConf);
            list.push(Self::hotplug_add_type(hotplug_type));
        }
        list.push(StagedAction::RescanPci);
        list.push(StagedAction::LoadGpuDrivers);
        list.push(Self::enable_nvidia_powerd(vendor));
        assert(list@ =~= old(list)@ + Self::spec_bring_up(hotplug_type, vendor, from));
    }

    fn push_setup(
        list: &mut Vec<StagedAction>,
        hotplug_type: HotplugType,
        vendor: GfxVendor,
        from: GfxMode,
        to: GfxMode,
    )
        ensures
            final(list)@ == old(list)@ + Self::spec_setup(hotplug_type, vendor, from, to),
    {
        match to {
            GfxMode::Hybrid | GfxMode::NvidiaNoModeset | GfxMode::Compute => {
                Self::push_bring_up(list, hotplug_type, vendor, from);
            },
            GfxMode::Integrated => {
                list.push(StagedAction::UnbindRemoveGpu);
                list.push(StagedAction::WriteModprobeConf);
                if from == GfxMode::AsusEgpu {
                    list.push(StagedAction::AsusEgpuDisable);
                } else {
                    list.push(Self::hotplug_rm_type(hotplug_type));
                }
            },
            GfxMode::Vfio => {
                list.push(StagedAction::WriteModprobeConf);
                list.push(StagedAction::LoadVfioDrivers);
            },
            GfxMode::AsusEgpu => {
                if from != GfxMode::Integrated {
                    list.push(StagedAction::UnbindRemoveGpu);
                }
                list.push(StagedAction::WriteModprobeConf);
                list.push(StagedAction::AsusEgpuEnable);
                list.push(StagedAction::RescanPci);
                list.push(StagedAction::LoadGpuDrivers);
                list.push(Self::enable_nvidia_powerd(vendor));
            },
            GfxMode::AsusMuxDgpu => {
                Self::push_bring_up(list, hotplug_type, vendor, from);
                list.push(StagedAction::AsusMuxDgpu);
            },
            GfxMode::Unset => {},
        }
        assert(list@ =~= old(list)@ + Self::spec_setup(hotplug_type, vendor, from, to));
    }

    /// Generate a well defined list of specific actions required for the mode switch.
    pub fn action_list_for_switch(
        config: &GfxConfig,
        vendor: GfxVendor,
        from: GfxMode,
        to: GfxMode,
    ) -> (res: Action)
        ensures
            res@ == Self::spec_action_list_for_switch(*config, vendor, from, to),
    {
        let action = GfxRequiredUserAction::mode_change_action(to, from);
        let bracket = action == GfxRequiredUserAction::Logout;
        let planned = match action {
            GfxRequiredUserAction::Logout => true,
            GfxRequiredUserAction::Nothing => !(to == GfxMode::Unset || to == from),
            _ => false,
        };
        if !planned {
            return Action::UserAction(action);
        }
        let mut list: Vec<StagedAction> = Vec::new();
        if bracket {
            if config.no_logind {
                list.push(StagedAction::NoLogind);
                list.push(StagedAction::NoLogind);
            } else {
                list.push(StagedAction::WaitLogout);
                list.push(StagedAction::StopDisplayManager);
            }
        }
        let ghost opened = list@;
        assert(opened =~= if bracket {
            Self::spec_bracket_open(config.no_logind)
        } else {
            Seq::empty()
        });
        Self::push_teardown(&mut list, vendor, from, to);
        Self::push_setup(&mut list, config.hotplug_type, vendor, from, to);
        let ghost stages = Self::spec_teardown(vendor, from, to) + Self::spec_setup(
            config.hotplug_type,
            vendor,
            from,
            to,
        );
        assert(list@ =~= opened + stages);
        if bracket {
            if config.no_logind {
                list.push(StagedAction::NoLogind);
            } else {
                list.push(StagedAction::StartDisplayManager);
            }
            assert(list@ =~= Self::spec_bracket_open(config.no_logind) + stages
                + Self::spec_bracket_close(config.no_logind));
        } else {
            assert(list@ =~= stages);
        }
        Action::StagedActions(list)
    }

    /// Generate a series of initial mode steps, these are specific to booting the system only
    pub fn action_list_for_boot(config: &GfxConfig, vendor: GfxVendor, mode: GfxMode) -> (res: Vec<
        StagedAction,
    >)
        ensures
            res@ == Self::spec_action_list_for_boot(*config, vendor, mode),
    {
        let mut list: Vec<StagedAction> = Vec::new();
        match mode {
            GfxMode::Hybrid | GfxMode::NvidiaNoModeset | GfxMode::Compute => {
                Self::push_bring_up(&mut list, config.hotplug_type, vendor, GfxMode::Unset);
            },
            GfxMode::Integrated | GfxMode::Vfio => {
                Self::push_teardown(&mut list, vendor, GfxMode::Unset, mode);
                Self::push_setup(&mut list, config.hotplug_type, vendor, GfxMode::Unset, mode);
            },
            GfxMode::AsusEgpu => {
                Self::push_setup(&mut list, config.hotplug_type, vendor, GfxMode::Integrated, mode);
            },
            GfxMode::AsusMuxDgpu => {
                list.push(StagedAction::WriteModprobeConf);
                list.push(StagedAction::RescanPci);
                list.push(StagedAction::LoadGpuDrivers);
                list.push(Self::enable_nvidia_powerd(vendor));
            },
            GfxMode::Unset => {},
        }
        assert(list@ =~= Self::spec_action_list_for_boot(*config, vendor, mode));
        list
    }
}

impl StagedAction {
    /// The name of the stage, as messages show it.
    pub open spec fn spec_name(self) -> &'static str {
        match self {
            StagedAction::WaitLogout => "WaitLogout",
            StagedAction::StopDisplayManager => "StopDisplayManager",
            StagedAction::StartDisplayManager => "StartDisplayManager",
            StagedAction::NoLogind => "NoLogind",
            StagedAction::LoadGpuDrivers => "LoadGpuDrivers",
            StagedAction::UnloadGpuDrivers => "UnloadGpuDrivers",
            StagedAction::KillNvidia => "KillNvidia",
            StagedAction::KillAmd => "KillAmd",
            StagedAction::EnableNvidiaPowerd => "EnableNvidiaPowerd",
            StagedAction::DisableNvidiaPowerd => "DisableNvidiaPowerd",
            StagedAction::LoadVfioDrivers => "LoadVfioDrivers",
            StagedAction::UnloadVfioDrivers => "UnloadVfioDrivers",
            StagedAction::RescanPci => "RescanPci",
            StagedAction::UnbindRemoveGpu => "UnbindRemoveGpu",
            StagedAction::HotplugUnplug => "HotplugUnplug",
            StagedAction::HotplugPlug => "HotplugPlug",
            StagedAction::AsusDgpuDisable => "AsusDgpuDisable",
            StagedAction::AsusDgpuEnable => "AsusDgpuEnable",
            StagedAction::AsusEgpuDisable => "AsusEgpuDisable",
            StagedAction::AsusEgpuEnable => "AsusEgpuEnable",
            StagedAction::AsusMuxIgpu => "AsusMuxIgpu",
            StagedAction::AsusMuxDgpu => "AsusMuxDgpu",
            StagedAction::WriteModprobeConf => "WriteModprobeConf",
            StagedAction::DevTreeManaged => "DevTreeManaged",
            StagedAction::NotNvidia => "NotNvidia",
            StagedAction::Nothing => "Nothing",
        }
    }

    pub fn name(self) -> (res: &'static str)
        ensures
            res == self.spec_name(),
    {
        match self {
            StagedAction::WaitLogout => "WaitLogout",
            StagedAction::StopDisplayManager => "StopDisplayManager",
            StagedAction::StartDisplayManager => "StartDisplayManager",
            StagedAction::NoLogind => "NoLogind",
            StagedAction::LoadGpuDrivers => "LoadGpuDrivers",
            StagedAction::UnloadGpuDrivers => "UnloadGpuDrivers",
            StagedAction::KillNvidia => "KillNvidia",
            StagedAction::KillAmd => "KillAmd",
            StagedAction::EnableNvidiaPowerd => "EnableNvidiaPowerd",
            StagedAction::DisableNvidiaPowerd => "DisableNvidiaPowerd",
            StagedAction::LoadVfioDrivers => "LoadVfioDrivers",
            StagedAction::UnloadVfioDrivers => "UnloadVfioDrivers",
            StagedAction::RescanPci => "RescanPci",
            StagedAction::UnbindRemoveGpu => "UnbindRemoveGpu",
            StagedAction::HotplugUnplug => "HotplugUnplug",
            StagedAction::HotplugPlug => "HotplugPlug",
            StagedAction::AsusDgpuDisable => "AsusDgpuDisable",
            StagedAction::AsusDgpuEnable => "AsusDgpuEnable",
            StagedAction::AsusEgpuDisable => "AsusEgpuDisable",
            StagedAction::AsusEgpuEnable => "AsusEgpuEnable",
            StagedAction::AsusMuxIgpu => "AsusMuxIgpu",
            StagedAction::AsusMuxDgpu => "AsusMuxDgpu",
            StagedAction::WriteModprobeConf => "WriteModprobeConf",
            StagedAction::DevTreeManaged => "DevTreeManaged",
            StagedAction::NotNvidia => "NotNvidia",
            StagedAction::Nothing => "Nothing",
        }
    }
}

} // verus!
