use vstd::prelude::*;
use vstd::string::*;

use crate::actions::StagedAction;
use crate::config::GfxConfig;
use crate::error::{GfxError, GfxErrorView};
use crate::gfx_vendors::{GfxMode, GfxVendor};
use crate::pci_device::{
    first_dgpu, rescan_pci_bus, spec_ops_last_to_first, DiscreetGpu, DiscreetGpuView, HotplugState,
};
use crate::special_asus::{
    asus_dgpu_set_disabled, asus_egpu_set_enabled, asus_gpu_mux_set_igpu, spec_toggle_ops,
    spec_toggle_word, AsusQuirks,
};
use crate::system::{
    driver_ops, spec_driver_ops, spec_nvidia_drivers, spec_vfio_drivers, vfio_drivers, DriverAction,
    PlatformOp, SysFile,
};
use crate::systemd::{SystemdUnitAction, SystemdUnitState};
use crate::DISPLAY_MANAGER;

verus! {

/// The module that binds a device for vfio.
pub const VFIO_PCI: &'static str = "vfio-pci";

/// The operations on the slot's power, as `DiscreetGpu::set_hotplug` gives
/// them.
pub open spec fn spec_hotplug_ops(device: DiscreetGpuView, state: HotplugState) -> Seq<PlatformOp> {
    if first_dgpu(device.devices) < device.devices.len() {
        seq![PlatformOp::SetHotplug { device: first_dgpu(device.devices) as usize, state }]
    } else {
        Seq::empty()
    }
}

/// The operations on a power toggle of ASUS that reads `current` now, or
/// the failure where the machine has no such toggle.
pub open spec fn spec_asus_toggle(
    file: SysFile,
    current: Option<bool>,
    wanted: bool,
    rescan: bool,
    missing: Seq<char>,
) -> Result<Seq<PlatformOp>, GfxErrorView> {
    match current {
        Some(now) => Ok(spec_toggle_ops(file, now, wanted, rescan)),
        None => Err(GfxErrorView::NotSupported(missing)),
    }
}

impl StagedAction {
    /// What a stage consists of, as primitive operations in the order they
    /// are to be carried out, or why the stage cannot run.
    ///
    /// `changing_to` is the mode that the plan leads to, `device` the dGPU,
    /// `quirks` what the firmware's toggles read just before the stage.
    pub open spec fn spec_operations(
        self,
        changing_to: GfxMode,
        device: DiscreetGpuView,
        config: GfxConfig,
        quirks: AsusQuirks,
    ) -> Result<Seq<PlatformOp>, GfxErrorView> {
        match self {
            StagedAction::WaitLogout => Ok(
                seq![PlatformOp::WaitLogout { timeout_s: config.logout_timeout_s }],
            ),
            StagedAction::StopDisplayManager => Ok(
                seq![
                    PlatformOp::UnitAction { action: SystemdUnitAction::Stop, unit: DISPLAY_MANAGER },
                    PlatformOp::WaitUnitState {
                        state: SystemdUnitState::Inactive,
                        unit: DISPLAY_MANAGER,
                    },
                ],
            ),
            StagedAction::StartDisplayManager => Ok(
                seq![
                    PlatformOp::UnitAction { action: SystemdUnitAction::Start, unit: DISPLAY_MANAGER },
                ],
            ),
            StagedAction::NoLogind
            | StagedAction::DevTreeManaged
            | StagedAction::NotNvidia
            | StagedAction::Nothing => Ok(Seq::empty()),
            StagedAction::LoadGpuDrivers => Ok(
                if device.vendor == GfxVendor::Nvidia {
                    spec_driver_ops(DriverAction::Load, spec_nvidia_drivers())
                } else {
                    Seq::empty()
                },
            ),
            StagedAction::UnloadGpuDrivers => Ok(
                if device.vendor == GfxVendor::Nvidia {
                    spec_driver_ops(DriverAction::Remove, spec_nvidia_drivers())
                } else {
                    Seq::empty()
                },
            ),
            StagedAction::KillNvidia => Ok(seq![PlatformOp::KillGpuUsers { vendor: GfxVendor::Nvidia }]),
            StagedAction::KillAmd => Ok(seq![PlatformOp::KillGpuUsers { vendor: GfxVendor::Amd }]),
            StagedAction::EnableNvidiaPowerd => Ok(
                if device.vendor == GfxVendor::Nvidia {
                    seq![PlatformOp::NvidiaPowerd { run: true }]
                } else {
                    Seq::empty()
                },
            ),
            StagedAction::DisableNvidiaPowerd => Ok(
                if device.vendor == GfxVendor::Nvidia {
                    seq![PlatformOp::NvidiaPowerd { run: false }]
                } else {
                    Seq::empty()
                },
            ),
            StagedAction::LoadVfioDrivers => if config.vfio_enable {
                Ok(seq![PlatformOp::Driver { action: DriverAction::Load, driver: VFIO_PCI }])
            } else {
                Err(GfxErrorView::VfioDisabled)
            },
            StagedAction::UnloadVfioDrivers => Ok(
                spec_driver_ops(DriverAction::Remove, spec_vfio_drivers()),
            ),
            StagedAction::RescanPci => Ok(
                seq![PlatformOp::Write { file: SysFile::PciRescan, data: "1" }],
            ),
            StagedAction::UnbindRemoveGpu => if device.vendor != GfxVendor::Unknown {
                Ok(
                    spec_ops_last_to_first(
                        device.devices.len(),
                        |device: usize| PlatformOp::Unbind { device },
                    ) + spec_ops_last_to_first(
                        device.devices.len(),
                        |device: usize| PlatformOp::Remove { device },
                    ),
                )
            } else {
                Err(GfxErrorView::NotSupported("unbind: Could not find dGPU"@))
            },
            StagedAction::HotplugUnplug => Ok(spec_hotplug_ops(device, HotplugState::Off)),
            StagedAction::HotplugPlug => Ok(spec_hotplug_ops(device, HotplugState::On)),
            StagedAction::AsusDgpuDisable => spec_asus_toggle(
                SysFile::AsusDgpuDisable,
                quirks.dgpu_disable,
                true,
                false,
                "dgpu_disable is not available"@,
            ),
            StagedAction::AsusDgpuEnable => spec_asus_toggle(
                SysFile::AsusDgpuDisable,
                quirks.dgpu_disable,
                false,
                true,
                "dgpu_disable is not available"@,
            ),
            StagedAction::AsusEgpuDisable => spec_asus_toggle(
                SysFile::AsusEgpuEnable,
                quirks.egpu_enable,
                false,
                false,
                "egpu_enable is not available"@,
            ),
            StagedAction::AsusEgpuEnable => spec_asus_toggle(
                SysFile::AsusEgpuEnable,
                quirks.egpu_enable,
                true,
                true,
                "egpu_enable is not available"@,
            ),
            StagedAction::AsusMuxIgpu => if quirks.gpu_mux.is_some() {
                Ok(seq![PlatformOp::Write { file: SysFile::AsusGpuMux, data: spec_toggle_word(true) }])
            } else {
                Err(GfxErrorView::NotSupported("gpu_mux_mode is not available"@))
            },
            StagedAction::AsusMuxDgpu => if quirks.gpu_mux.is_some() {
                Ok(seq![PlatformOp::Write { file: SysFile::AsusGpuMux, data: spec_toggle_word(false) }])
            } else {
                Err(GfxErrorView::NotSupported("gpu_mux_mode is not available"@))
            },
            StagedAction::WriteModprobeConf => Ok(
                seq![PlatformOp::WriteModprobeConf { mode: changing_to }],
            ),
        }
    }

    /// The operations that the stage consists of.
    pub fn operations(
        &self,
        changing_to: GfxMode,
        device: &DiscreetGpu,
        config: &GfxConfig,
        quirks: &AsusQuirks,
    ) -> (res: Result<Vec<PlatformOp>, GfxError>)
        ensures
            match self.spec_operations(changing_to, device@, *config, *quirks) {
                Ok(ops) => res matches Ok(v) && v@ == ops,
                Err(e) => res matches Err(x) && x@ == e,
            },
    {
        let mut ops: Vec<PlatformOp> = Vec::new();
        match self {
            StagedAction::WaitLogout => {
                ops.push(PlatformOp::WaitLogout { timeout_s: config.logout_timeout_s });
            },
            StagedAction::StopDisplayManager => {
                ops.push(
                    PlatformOp::UnitAction { action: SystemdUnitAction::Stop, unit: DISPLAY_MANAGER },
                );
                ops.push(
                    PlatformOp::WaitUnitState {
                        state: SystemdUnitState::Inactive,
                        unit: DISPLAY_MANAGER,
                    },
                );
            },
            StagedAction::StartDisplayManager => {
                ops.push(
                    PlatformOp::UnitAction { action: SystemdUnitAction::Start, unit: DISPLAY_MANAGER },
                );
            },
            StagedAction::NoLogind
            | StagedAction::DevTreeManaged
            | StagedAction::NotNvidia
            | StagedAction::Nothing => {},
            StagedAction::LoadGpuDrivers => {
                return device.do_driver_action(DriverAction::Load);
            },
            StagedAction::UnloadGpuDrivers => {
                return device.do_driver_action(DriverAction::Remove);
            },
            StagedAction::KillNvidia => {
                ops.push(PlatformOp::KillGpuUsers { vendor: GfxVendor::Nvidia });
            },
            StagedAction::KillAmd => {
                ops.push(PlatformOp::KillGpuUsers { vendor: GfxVendor::Amd });
            },
            StagedAction::EnableNvidiaPowerd => {
                if device.is_nvidia() {
                    ops.push(PlatformOp::NvidiaPowerd { run: true });
                }
            },
            StagedAction::DisableNvidiaPowerd => {
                if device.is_nvidia() {
                    ops.push(PlatformOp::NvidiaPowerd { run: false });
                }
            },
            StagedAction::LoadVfioDrivers => {
                if !config.vfio_enable {
                    return Err(GfxError::VfioDisabled);
                }
                ops.push(PlatformOp::Driver { action: DriverAction::Load, driver: VFIO_PCI });
            },
            StagedAction::UnloadVfioDrivers => {
                let drivers = vfio_drivers();
                return Ok(driver_ops(DriverAction::Remove, &drivers));
            },
            StagedAction::RescanPci => {
                ops.push(rescan_pci_bus());
            },
            StagedAction::UnbindRemoveGpu => {
                return device.unbind_remove();
            },
            StagedAction::HotplugUnplug => {
                return device.set_hotplug(HotplugState::Off);
            },
            StagedAction::HotplugPlug => {
                return device.set_hotplug(HotplugState::On);
            },
            StagedAction::AsusDgpuDisable => {
                return match quirks.dgpu_disable {
                    Some(now) => Ok(asus_dgpu_set_disabled(now, true)),
                    None => Err(
                        GfxError::NotSupported(String::from_str("dgpu_disable is not available")),
                    ),
                };
            },
            StagedAction::AsusDgpuEnable => {
                return match quirks.dgpu_disable {
                    Some(now) => Ok(asus_dgpu_set_disabled(now, false)),
                    None => Err(
                        GfxError::NotSupported(String::from_str("dgpu_disable is not available")),
                    ),
                };
            },
            StagedAction::AsusEgpuDisable => {
                return match quirks.egpu_enable {
                    Some(now) => Ok(asus_egpu_set_enabled(now, false)),
                    None => Err(
                        GfxError::NotSupported(String::from_str("egpu_enable is not available")),
                    ),
                };
            },
            StagedAction::AsusEgpuEnable => {
                return match quirks.egpu_enable {
                    Some(now) => Ok(asus_egpu_set_enabled(now, true)),
                    None => Err(
                        GfxError::NotSupported(String::from_str("egpu_enable is not available")),
                    ),
                };
            },
            StagedAction::AsusMuxIgpu => {
                if quirks.gpu_mux.is_none() {
                    return Err(
                        GfxError::NotSupported(String::from_str("gpu_mux_mode is not available")),
                    );
                }
                ops.push(asus_gpu_mux_set_igpu(true));
            },
            StagedAction::AsusMuxDgpu => {
                if quirks.gpu_mux.is_none() {
                    return Err(
                        GfxError::NotSupported(String::from_str("gpu_mux_mode is not available")),
                    );
                }
                ops.push(asus_gpu_mux_set_igpu(false));
            },
            StagedAction::WriteModprobeConf => {
                ops.push(PlatformOp::WriteModprobeConf { mode: changing_to });
            },
        }
        proof {
            let spec = self.spec_operations(changing_to, device@, *config, *quirks);
            assert(spec is Ok);
            assert(ops@ =~= spec->Ok_0);
        }
        Ok(ops)
    }
}

} // verus!
