use vstd::prelude::*;

use vstd::string::*;

use crate::error::{GfxError, GfxErrorView};
use crate::text::{
    contains, ends_with, is_suffix_of, lowercase_of, occurs_in, spec_word_value, str_eq, trim,
    trimmed_of, word_value,
};

use crate::gfx_vendors::{GfxMode, GfxVendor};
use crate::pci_device::{HotplugState, RuntimePowerManagement};
use crate::systemd::{SystemdUnitAction, SystemdUnitState};

verus! {

/// The unit of Nvidia's power daemon.
pub const NVIDIA_POWERD: &'static str = "nvidia-powerd.service";

/// What can be done with a kernel module.
#[derive(Debug, Clone, Copy, PartialEq, Eq, Structural)]
pub enum DriverAction {
    Remove,
    Load,
}

impl DriverAction {
    /// The program that does it.
    pub open spec fn spec_command(self) -> &'static str {
        match self {
            DriverAction::Remove => "rmmod",
            DriverAction::Load => "modprobe",
        }
    }

    pub fn command(self) -> (res: &'static str)
        ensures
            res == self.spec_command(),
    {
        match self {
            DriverAction::Remove => "rmmod",
            DriverAction::Load => "modprobe",
        }
    }
}

/// The files of the system that are written with a single word.
#[derive(Debug, Clone, Copy, PartialEq, Eq, Structural)]
pub enum SysFile {
    PciRescan,
    AsusDgpuDisable,
    AsusEgpuEnable,
    AsusGpuMux,
}

impl SysFile {
    pub open spec fn spec_path(self) -> &'static str {
        match self {
            SysFile::PciRescan => "/sys/bus/pci/rescan",
            SysFile::AsusDgpuDisable => "/sys/devices/platform/asus-nb-wmi/dgpu_disable",
            SysFile::AsusEgpuEnable => "/sys/devices/platform/asus-nb-wmi/egpu_enable",
            SysFile::AsusGpuMux => "/sys/devices/platform/asus-nb-wmi/gpu_mux_mode",
        }
    }

    pub fn path(self) -> (res: &'static str)
        ensures
            res == self.spec_path(),
    {
        match self {
            SysFile::PciRescan => "/sys/bus/pci/rescan",
            SysFile::AsusDgpuDisable => "/sys/devices/platform/asus-nb-wmi/dgpu_disable",
            SysFile::AsusEgpuEnable => "/sys/devices/platform/asus-nb-wmi/egpu_enable",
            SysFile::AsusGpuMux => "/sys/devices/platform/asus-nb-wmi/gpu_mux_mode",
        }
    }
}

/// One primitive operation on the machine. The library decides which of
/// them a stage consists of and in which order; carrying them out is the
/// caller's part. A `device` is a place in the list of the dGPU's functions.
#[derive(Debug, Clone, Copy, PartialEq, Eq)]
pub enum PlatformOp {
    /// Wait until no graphical session is left; `timeout_s` of 0 is no limit
    WaitLogout { timeout_s: u64 },
    /// Have the service manager act on a unit
    UnitAction { action: SystemdUnitAction, unit: &'static str },
    /// Wait for a unit to reach a state
    WaitUnitState { state: SystemdUnitState, unit: &'static str },
    /// End the processes that hold the dGPU's device files open
    KillGpuUsers { vendor: GfxVendor },
    /// Start (`run`) or stop Nvidia's power daemon. The daemon need not be
    /// installed: that this fails is no failure of the stage it belongs to
    NvidiaPowerd { run: bool },
    /// Load or remove a kernel module
    Driver { action: DriverAction, driver: &'static str },
    /// Write a word to a file of the system
    Write { file: SysFile, data: &'static str },
    /// Let the hardware settle
    Sleep { millis: u64 },
    /// Write the module options for a mode
    WriteModprobeConf { mode: GfxMode },
    /// Detach a function of the dGPU from its driver
    Unbind { device: usize },
    /// Take a function of the dGPU out of the device tree
    Remove { device: usize },
    /// Switch the power of the slot that a function sits in
    SetHotplug { device: usize, state: HotplugState },
    /// Set the runtime power management of a function
    SetRuntimePm { device: usize, state: RuntimePowerManagement },
}

/// Where the device files are that the users of a dGPU hold open: the
/// directory, and what the names of the files begin with.
pub fn gpu_device_files(vendor: GfxVendor) -> (res: (&'static str, &'static str))
    ensures
        res == (if vendor == GfxVendor::Nvidia {
            ("/dev", "nvidia")
        } else {
            ("/dev", "kfd")
        }),
{
    if vendor == GfxVendor::Nvidia {
        ("/dev", "nvidia")
    } else {
        ("/dev", "kfd")
    }
}

/// What the kernel's command line asks of the daemon.
#[derive(Debug, Clone, Copy, PartialEq, Eq)]
pub struct KernelCmdline {
    /// The mode that `supergfxd.mode=` names, which overrides the saved one
    pub mode: Option<GfxMode>,
    /// The value of `nvidia-drm.modeset=`
    pub nvidia_modeset: Option<bool>,
}

/// The modules of the Nvidia driver, in the order they are removed in.
pub open spec fn spec_nvidia_drivers() -> Seq<&'static str> {
    seq!["nvidia_drm", "nvidia_modeset", "nvidia_uvm", "nvidia"]
}

pub fn nvidia_drivers() -> (res: Vec<&'static str>)
    ensures
        res@ == spec_nvidia_drivers(),
{
    let mut v: Vec<&'static str> = Vec::new();
    v.push("nvidia_drm");
    v.push("nvidia_modeset");
    v.push("nvidia_uvm");
    v.push("nvidia");
    assert(v@ =~= spec_nvidia_drivers());
    v
}

/// The modules of vfio, in the order they are removed in.
pub open spec fn spec_vfio_drivers() -> Seq<&'static str> {
    seq!["vfio_pci_core", "vfio-pci", "vfio_iommu_type1", "vfio_virqfd", "vfio_mdev", "vfio"]
}

pub fn vfio_drivers() -> (res: Vec<&'static str>)
    ensures
        res@ == spec_vfio_drivers(),
{
    let mut v: Vec<&'static str> = Vec::new();
    v.push("vfio_pci_core");
    v.push("vfio-pci");
    v.push("vfio_iommu_type1");
    v.push("vfio_virqfd");
    v.push("vfio_mdev");
    v.push("vfio");
    assert(v@ =~= spec_vfio_drivers());
    v
}

/// The operations that load or remove each of `drivers`, in their order.
pub open spec fn spec_driver_ops(action: DriverAction, drivers: Seq<&'static str>) -> Seq<
    PlatformOp,
> {
    Seq::new(drivers.len(), |i: int| PlatformOp::Driver { action, driver: drivers[i] })
}

pub fn driver_ops(action: DriverAction, drivers: &Vec<&'static str>) -> (res: Vec<PlatformOp>)
    ensures
        res@ == spec_driver_ops(action, drivers@),
{
    let mut ops: Vec<PlatformOp> = Vec::new();
    let mut i: usize = 0;
    while i < drivers.len()
        invariant
            0 <= i <= drivers.len(),
            ops@ == spec_driver_ops(action, drivers@.take(i as int)),
        decreases drivers.len() - i,
    {
        ops.push(PlatformOp::Driver { action, driver: drivers[i] });
        assert(ops@ =~= spec_driver_ops(action, drivers@.take(i + 1)));
        i += 1;
    }
    assert(drivers@.take(i as int) =~= drivers@);
    ops
}

/// The word of the kernel's command line that forces a mode.
pub const CMDLINE_MODE: &'static str = "supergfxd.mode=";

/// The word of the kernel's command line that sets the modesetting of the
/// Nvidia driver.
pub const CMDLINE_NVIDIA_MODESET: &'static str = "nvidia-drm.modeset=";

impl KernelCmdline {
    /// What a value of `nvidia-drm.modeset=` says once the white space
    /// around it is gone: `1` is on, `0` is off, anything else says nothing.
    pub open spec fn spec_modeset_from_trimmed(value: Seq<char>) -> Option<bool> {
        if value == "1"@ {
            Some(true)
        } else if value == "0"@ {
            Some(false)
        } else {
            None
        }
    }

    /// Reads a value of `nvidia-drm.modeset=` that is already trimmed.
    pub fn modeset_from_trimmed(value: &str) -> (res: Option<bool>)
        ensures
            res == Self::spec_modeset_from_trimmed(value@),
    {
        if str_eq(value, "1") {
            Some(true)
        } else if str_eq(value, "0") {
            Some(false)
        } else {
            None
        }
    }

    /// What the value of `nvidia-drm.modeset=` says, if there is one.
    pub open spec fn spec_modeset(value: Option<Seq<char>>) -> Option<bool> {
        match value {
            Some(v) => Self::spec_modeset_from_trimmed(trimmed_of(v)),
            None => None,
        }
    }

    /// What the kernel's command line `line` asks of the daemon, or the
    /// failure to read the mode that it names.
    pub open spec fn spec_parse(line: Seq<char>) -> Result<KernelCmdline, GfxError> {
        let nvidia_modeset = Self::spec_modeset(spec_word_value(line, CMDLINE_NVIDIA_MODESET@));
        match spec_word_value(line, CMDLINE_MODE@) {
            Some(name) => match GfxMode::spec_from_normalized(trimmed_of(lowercase_of(name))) {
                Ok(mode) => Ok(KernelCmdline { mode: Some(mode), nvidia_modeset }),
                Err(e) => Err(e),
            },
            None => Ok(KernelCmdline { mode: None, nvidia_modeset }),
        }
    }

    /// Reads the kernel's command line.
    pub fn parse(line: &str) -> (res: Result<KernelCmdline, GfxError>)
        ensures
            res == Self::spec_parse(line@),
    {
        let nvidia_modeset = match word_value(line, CMDLINE_NVIDIA_MODESET) {
            Some(v) => Self::modeset_from_trimmed(trim(v)),
            None => None,
        };
        match word_value(line, CMDLINE_MODE) {
            Some(name) => match GfxMode::from_str(name) {
                Ok(mode) => Ok(KernelCmdline { mode: Some(mode), nvidia_modeset }),
                Err(e) => Err(e),
            },
            None => Ok(KernelCmdline { mode: None, nvidia_modeset }),
        }
    }
}

/// How often a module command is tried again before it is given up.
pub const DRIVER_ACTION_TRIES: u32 = 6;

/// The pause between two tries of a module command, in milliseconds.
pub const DRIVER_ACTION_RETRY_MS: u64 = 50;

/// What to do after a module command has run.
#[derive(Debug, Clone, Copy, PartialEq, Eq, Structural)]
pub enum DriverOutcome {
    /// The module is where it was wanted
    Done,
    /// Pause, then run the command again
    Retry,
}

/// What the system says of a module that cannot be found.
pub open spec fn spec_module_not_found(driver: Seq<char>) -> Seq<char> {
    "Module "@ + driver + " not found"@
}

/// The message of a module command that was given up.
pub open spec fn spec_driver_failure(action: DriverAction, driver: Seq<char>, stderr: Seq<char>) -> Seq<
    char,
> {
    action.spec_command()@ + " "@ + driver + " failed: "@ + stderr
}

/// Judges a run of `rmmod` or `modprobe` on `driver` by how it ended, after
/// `tries` runs that have to be made again.
///
/// A run that went well is done. So is the removal of a module that is not
/// loaded, and a run that was denied for want of permission. A module that
/// is built into the kernel, and one that cannot be found, are failures of
/// their own. Anything else is tried again, and given up at the last try.
pub open spec fn spec_driver_action_outcome(
    action: DriverAction,
    driver: Seq<char>,
    success: bool,
    stderr: Seq<char>,
    tries: u32,
) -> Result<DriverOutcome, GfxErrorView> {
    if success {
        Ok(DriverOutcome::Done)
    } else if is_suffix_of("is not currently loaded\n"@, stderr) {
        Ok(DriverOutcome::Done)
    } else if is_suffix_of("is builtin.\n"@, stderr) {
        Err(GfxErrorView::VfioBuiltin)
    } else if is_suffix_of("Permission denied\n"@, stderr) {
        Ok(DriverOutcome::Done)
    } else if occurs_in(spec_module_not_found(driver), stderr) {
        Err(GfxErrorView::MissingModule(driver))
    } else if tries >= DRIVER_ACTION_TRIES {
        Err(GfxErrorView::Modprobe(spec_driver_failure(action, driver, stderr)))
    } else {
        Ok(DriverOutcome::Retry)
    }
}

pub fn driver_action_outcome(
    action: DriverAction,
    driver: &str,
    success: bool,
    stderr: &str,
    tries: u32,
) -> (res: Result<DriverOutcome, GfxError>)
    ensures
        match spec_driver_action_outcome(action, driver@, success, stderr@, tries) {
            Ok(outcome) => res == Ok::<DriverOutcome, GfxError>(outcome),
            Err(e) => res matches Err(x) && x@ == e,
        },
{
    if success {
        return Ok(DriverOutcome::Done);
    }
    if ends_with(stderr, "is not currently loaded\n") {
        return Ok(DriverOutcome::Done);
    }
    if ends_with(stderr, "is builtin.\n") {
        return Err(GfxError::VfioBuiltin);
    }
    if ends_with(stderr, "Permission denied\n") {
        return Ok(DriverOutcome::Done);
    }
    let mut not_found = String::from_str("Module ");
    not_found.append(driver);
    not_found.append(" not found");
    if contains(stderr, not_found.as_str()) {
        return Err(GfxError::MissingModule(String::from_str(driver)));
    }
    if tries >= DRIVER_ACTION_TRIES {
        let mut msg = String::from_str(action.command());
        msg.append(" ");
        msg.append(driver);
        msg.append(" failed: ");
        msg.append(stderr);
        return Err(GfxError::Modprobe(msg));
    }
    Ok(DriverOutcome::Retry)
}

} // verus!
