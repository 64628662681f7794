use vstd::prelude::*;
use vstd::std_specs::convert::FromSpecImpl;
use vstd::string::*;

use crate::error::{GfxError, GfxErrorView};
use crate::gfx_vendors::{GfxPower, GfxVendor};
use crate::special_asus::{AsusGpuMuxMode, AsusQuirks};
use crate::system::{driver_ops, nvidia_drivers, spec_driver_ops, spec_nvidia_drivers, DriverAction, PlatformOp, SysFile};
use crate::text::{lowercase_of, str_eq, to_lowercase, trim, trimmed_of};

verus! {

/// Power of the slot the dGPU sits in.
#[derive(Debug, Clone, Copy, PartialEq, Eq, Structural)]
pub enum HotplugState {
    On,
    Off,
}

impl HotplugState {
    /// `On` for the text `1`, `Off` for everything else.
    pub open spec fn spec_from_normalized(s: Seq<char>) -> HotplugState {
        if s == "1"@ {
            HotplugState::On
        } else {
            HotplugState::Off
        }
    }

    /// Reads a slot's power from a text that is already lower-case and
    /// trimmed.
    pub fn from_normalized(s: &str) -> (res: HotplugState)
        ensures
            res == Self::spec_from_normalized(s@),
    {
        if str_eq(s, "1") {
            HotplugState::On
        } else {
            HotplugState::Off
        }
    }

    /// Reads the content of a slot's `power` file. This never fails.
    pub fn from_str(s: &str) -> (res: Result<HotplugState, GfxError>)
        ensures
            res == Ok::<HotplugState, GfxError>(
                Self::spec_from_normalized(trimmed_of(lowercase_of(s@))),
            ),
    {
        let lower = to_lowercase(s);
        Ok(Self::from_normalized(trim(lower.as_str())))
    }

    /// What is written to a slot's `power` file.
    pub open spec fn spec_name(self) -> &'static str {
        match self {
            HotplugState::On => "1",
            HotplugState::Off => "0",
        }
    }
}

impl From<&HotplugState> for &'static str {
    fn from(gfx: &HotplugState) -> (res: &'static str)
        ensures
            res == gfx.spec_name(),
    {
        match gfx {
            HotplugState::On => "1",
            HotplugState::Off => "0",
        }
    }
}

impl FromSpecImpl<&HotplugState> for &'static str {
    open spec fn obeys_from_spec() -> bool {
        true
    }

    open spec fn from_spec(gfx: &HotplugState) -> &'static str {
        gfx.spec_name()
    }
}

/// By which means the dGPU is switched off and on again.
#[derive(Debug, Clone, Copy, PartialEq, Eq, Structural)]
pub enum HotplugType {
    /// Use only kernel level hotplug feature
    Std,
    /// Use ASUS dgpu_disable
    Asus,
    /// Neither: the dGPU is removed from and rescanned into the device tree
    NoHotplug,
}

/// Control whether a device uses, or does not use, runtime power management.
#[derive(Debug, Clone, Copy, PartialEq, Eq, Structural)]
pub enum RuntimePowerManagement {
    Auto,
    On,
    Off,
}

impl RuntimePowerManagement {
    /// What is written to a device's `power/control` file.
    pub open spec fn spec_name(self) -> &'static str {
        match self {
            RuntimePowerManagement::Auto => "auto",
            RuntimePowerManagement::On => "on",
            RuntimePowerManagement::Off => "off",
        }
    }

    /// The setting that the content of `power/control` names; a text the
    /// kernel does not write is read as `On`.
    pub open spec fn spec_from_text(pm: Seq<char>) -> RuntimePowerManagement {
        if pm == "auto"@ {
            RuntimePowerManagement::Auto
        } else if pm == "off"@ {
            RuntimePowerManagement::Off
        } else {
            RuntimePowerManagement::On
        }
    }
}

impl From<RuntimePowerManagement> for &'static str {
    fn from(pm: RuntimePowerManagement) -> (res: &'static str)
        ensures
            res == pm.spec_name(),
    {
        match pm {
            RuntimePowerManagement::Auto => "auto",
            RuntimePowerManagement::On => "on",
            RuntimePowerManagement::Off => "off",
        }
    }
}

impl FromSpecImpl<RuntimePowerManagement> for &'static str {
    open spec fn obeys_from_spec() -> bool {
        true
    }

    open spec fn from_spec(pm: RuntimePowerManagement) -> &'static str {
        pm.spec_name()
    }
}

impl From<&str> for RuntimePowerManagement {
    fn from(pm: &str) -> (res: RuntimePowerManagement)
        ensures
            res == RuntimePowerManagement::spec_from_text(pm@),
    {
        if str_eq(pm, "auto") {
            RuntimePowerManagement::Auto
        } else if str_eq(pm, "off") {
            RuntimePowerManagement::Off
        } else {
            RuntimePowerManagement::On
        }
    }
}

impl FromSpecImpl<&str> for RuntimePowerManagement {
    open spec fn obeys_from_spec() -> bool {
        true
    }

    open spec fn from_spec(pm: &str) -> RuntimePowerManagement {
        RuntimePowerManagement::spec_from_text(pm@)
    }
}

/// Will rescan the device tree, which adds all removed devices back
pub fn rescan_pci_bus() -> (res: PlatformOp)
    ensures
        res == (PlatformOp::Write { file: SysFile::PciRescan, data: "1" }),
{
    PlatformOp::Write { file: SysFile::PciRescan, data: "1" }
}

/// A write to a file below a device: `data` goes to the file at `path`.
#[derive(Debug, Clone, PartialEq, Eq)]
pub struct FileWrite {
    pub path: String,
    pub data: String,
}

pub struct FileWriteView {
    pub path: Seq<char>,
    pub data: Seq<char>,
}

impl View for FileWrite {
    type V = FileWriteView;

    open spec fn view(&self) -> FileWriteView {
        FileWriteView { path: self.path@, data: self.data@ }
    }
}

/// One PCI function that belongs to the dGPU.
#[derive(Clone, Debug, PartialEq, Eq)]
pub struct Device {
    /// Concrete path to the device control
    dev_path: String,
    /// Concrete path to the slot this device is in for hotplug support
    hotplug_path: Option<String>,
    vendor: GfxVendor,
    is_dgpu: bool,
    /// System name given by kernel, e.g `0000:01:00.0`
    name: String,
    /// Vendor:Device, typically used only for VFIO setup
    pci_id: String,
}

pub struct DeviceView {
    pub dev_path: Seq<char>,
    pub hotplug_path: Option<Seq<char>>,
    pub vendor: GfxVendor,
    pub is_dgpu: bool,
    pub name: Seq<char>,
    pub pci_id: Seq<char>,
}

impl View for Device {
    type V = DeviceView;

    closed spec fn view(&self) -> DeviceView {
        DeviceView {
            dev_path: self.dev_path@,
            hotplug_path: match self.hotplug_path {
                Some(p) => Some(p@),
                None => None,
            },
            vendor: self.vendor,
            is_dgpu: self.is_dgpu,
            name: self.name@,
            pci_id: self.pci_id@,
        }
    }
}

/// The path of `leaf` below `dir`.
pub open spec fn spec_join(dir: Seq<char>, leaf: Seq<char>) -> Seq<char> {
    dir + "/"@ + leaf
}

fn join(dir: &str, leaf: &str) -> (res: String)
    ensures
        res@ == spec_join(dir@, leaf@),
{
    let mut path = String::from_str(dir);
    path.append("/");
    path.append(leaf);
    path
}

impl Device {
    /// A function of the dGPU as the device manager describes it.
    pub fn new(
        dev_path: String,
        hotplug_path: Option<String>,
        vendor: GfxVendor,
        is_dgpu: bool,
        name: String,
        pci_id: String,
    ) -> (res: Device)
        ensures
            res@ == (DeviceView {
                dev_path: dev_path@,
                hotplug_path: match hotplug_path {
                    Some(p) => Some(p@),
                    None => None,
                },
                vendor,
                is_dgpu,
                name: name@,
                pci_id: pci_id@,
            }),
    {
        Device { dev_path, hotplug_path, vendor, is_dgpu, name, pci_id }
    }

    pub fn dev_path(&self) -> (res: &String)
        ensures
            res@ == self@.dev_path,
    {
        &self.dev_path
    }

    pub fn vendor(&self) -> (res: GfxVendor)
        ensures
            res == self@.vendor,
    {
        self.vendor
    }

    pub fn is_dgpu(&self) -> (res: bool)
        ensures
            res == self@.is_dgpu,
    {
        self.is_dgpu
    }

    pub fn pci_id(&self) -> (res: &str)
        ensures
            res@ == self@.pci_id,
    {
        self.pci_id.as_str()
    }

    /// The system name of the function.
    pub fn name(&self) -> (res: &str)
        ensures
            res@ == self@.name,
    {
        self.name.as_str()
    }

    /// Does the slot of the function have a power switch?
    pub fn has_hotplug(&self) -> (res: bool)
        ensures
            res == self@.hotplug_path.is_some(),
    {
        self.hotplug_path.is_some()
    }

    /// A copy of the function.
    pub fn duplicate(&self) -> (res: Device)
        ensures
            res@ == self@,
    {
        Device {
            dev_path: self.dev_path.clone(),
            hotplug_path: match &self.hotplug_path {
                Some(p) => Some(p.clone()),
                None => None,
            },
            vendor: self.vendor,
            is_dgpu: self.is_dgpu,
            name: self.name.clone(),
            pci_id: self.pci_id.clone(),
        }
    }

    /// The write that switches the power of the function's slot, where the
    /// slot has a switch.
    pub fn set_hotplug(&self, state: HotplugState) -> (res: Option<FileWrite>)
        ensures
            self@.hotplug_path.is_none() ==> res.is_none(),
            self@.hotplug_path.is_some() ==> (res matches Some(w) && w@ == (FileWriteView {
                path: self@.hotplug_path->0,
                data: state.spec_name()@,
            })),
    {
        match &self.hotplug_path {
            Some(path) => {
                let word: &'static str = (&state).into();
                Some(FileWrite { path: path.clone(), data: String::from_str(word) })
            },
            None => None,
        }
    }

    /// The file that controls the function's runtime power management.
    pub fn runtime_pm_path(&self) -> (res: String)
        ensures
            res@ == spec_join(self@.dev_path, "power/control"@),
    {
        join(self.dev_path.as_str(), "power/control")
    }

    /// The write that sets the function's runtime power management.
    /// `control_exists` says whether the control file is there: a function
    /// that was removed has none, and nothing is written then.
    pub fn set_runtime_pm(&self, state: RuntimePowerManagement, control_exists: bool) -> (res:
        Option<FileWrite>)
        ensures
            !control_exists ==> res.is_none(),
            control_exists ==> (res matches Some(w) && w@ == (FileWriteView {
                path: spec_join(self@.dev_path, "power/control"@),
                data: state.spec_name()@,
            })),
    {
        if control_exists {
            let word: &'static str = state.into();
            Some(FileWrite { path: self.runtime_pm_path(), data: String::from_str(word) })
        } else {
            None
        }
    }

    /// The file that tells the function's runtime power status.
    pub fn runtime_status_path(&self) -> (res: String)
        ensures
            res@ == spec_join(self@.dev_path, "power/runtime_status"@),
    {
        join(self.dev_path.as_str(), "power/runtime_status")
    }

    /// The power status that the content of the status file tells. A file
    /// that cannot be read (`None`) means that the function is off.
    pub fn get_runtime_status(&self, status: Option<&str>) -> (res: Result<GfxPower, GfxError>)
        ensures
            res == Ok::<GfxPower, GfxError>(
                match status {
                    Some(s) => GfxPower::spec_from_normalized(
                        crate::text::trimmed_of(crate::text::lowercase_of(s@)),
                    ),
                    None => GfxPower::Off,
                },
            ),
    {
        match status {
            Some(inner) => GfxPower::from_str(inner),
            None => Ok(GfxPower::Off),
        }
    }

    /// The link to the driver that the function is bound to.
    pub fn driver_path(&self) -> (res: String)
        ensures
            res@ == spec_join(self@.dev_path, "driver"@),
    {
        join(self.dev_path.as_str(), "driver")
    }

    /// The write that detaches the function from its driver. `driver` is
    /// the directory that the driver link resolves to; a function without a
    /// driver (`None`) is left alone.
    pub fn unbind(&self, driver: Option<&str>) -> (res: Option<FileWrite>)
        ensures
            driver.is_none() ==> res.is_none(),
            driver.is_some() ==> (res matches Some(w) && w@ == (FileWriteView {
                path: spec_join(driver->0@, "unbind"@),
                data: self@.name,
            })),
    {
        match driver {
            Some(dir) => Some(FileWrite { path: join(dir, "unbind"), data: self.name.clone() }),
            None => None,
        }
    }

    /// The write that takes the function out of the device tree. `present`
    /// says whether the function is still there; one that is gone is left
    /// alone.
    pub fn remove(&self, present: bool) -> (res: Option<FileWrite>)
        ensures
            !present ==> res.is_none(),
            present ==> (res matches Some(w) && w@ == (FileWriteView {
                path: spec_join(self@.dev_path, "remove"@),
                data: "1"@,
            })),
    {
        if present {
            Some(
                FileWrite { path: join(self.dev_path.as_str(), "remove"), data: String::from_str("1") },
            )
        } else {
            None
        }
    }
}

/// Collection of all graphics devices. Functions intend to work on the device
/// determined to be the discreet GPU only.
#[derive(Debug)]
pub struct DiscreetGpu {
    vendor: GfxVendor,
    dgpu_index: usize,
    devices: Vec<Device>,
}

pub struct DiscreetGpuView {
    pub vendor: GfxVendor,
    /// The place of the dGPU itself in `devices`; 0 where there are none
    pub dgpu_index: int,
    pub devices: Seq<DeviceView>,
}

impl DiscreetGpuView {
    /// The dGPU's place is one of the list, where the list has any.
    pub open spec fn wf(self) -> bool {
        0 <= self.dgpu_index && (self.dgpu_index < self.devices.len() || (self.dgpu_index == 0
            && self.devices.len() == 0))
    }
}

/// The views of a list of functions.
pub open spec fn device_views(devices: Seq<Device>) -> Seq<DeviceView> {
    Seq::new(devices.len(), |i: int| devices[i]@)
}

/// The place of the last function of `devices` that is the dGPU itself, or
/// -1 where none is.
pub open spec fn last_dgpu(devices: Seq<DeviceView>) -> int
    decreases devices.len(),
{
    if devices.len() == 0 {
        -1
    } else if devices.last().is_dgpu {
        devices.len() - 1
    } else {
        last_dgpu(devices.drop_last())
    }
}

/// The place of the first function of `devices` that is the dGPU itself, or
/// the length of `devices` where none is.
pub open spec fn first_dgpu(devices: Seq<DeviceView>) -> int
    decreases devices.len(),
{
    if devices.len() == 0 {
        0
    } else if devices[0].is_dgpu {
        0
    } else {
        1 + first_dgpu(devices.drop_first())
    }
}

/// `last_dgpu` is the place of a function that is the dGPU itself, and no
/// function behind it is one.
pub proof fn lemma_last_dgpu(devices: Seq<DeviceView>)
    ensures
        -1 <= last_dgpu(devices) < devices.len(),
        last_dgpu(devices) >= 0 ==> devices[last_dgpu(devices)].is_dgpu,
        forall|i: int| last_dgpu(devices) < i < devices.len() ==> !(#[trigger] devices[i]).is_dgpu,
    decreases devices.len(),
{
    if devices.len() > 0 && !devices.last().is_dgpu {
        let init = devices.drop_last();
        lemma_last_dgpu(init);
        assert forall|i: int| last_dgpu(devices) < i < devices.len() implies !(
        #[trigger] devices[i]).is_dgpu by {
            if i < init.len() {
                assert(devices[i] == init[i]);
            }
        }
    }
}

/// `first_dgpu` is the place of a function that is the dGPU itself, and no
/// function before it is one.
pub proof fn lemma_first_dgpu(devices: Seq<DeviceView>)
    ensures
        0 <= first_dgpu(devices) <= devices.len(),
        first_dgpu(devices) < devices.len() ==> devices[first_dgpu(devices)].is_dgpu,
        forall|i: int| 0 <= i < first_dgpu(devices) ==> !(#[trigger] devices[i]).is_dgpu,
    decreases devices.len(),
{
    if devices.len() > 0 && !devices[0].is_dgpu {
        let rest = devices.drop_first();
        lemma_first_dgpu(rest);
        assert forall|i: int| 0 <= i < first_dgpu(devices) implies !(#[trigger] devices[i]).is_dgpu by {
            if i > 0 {
                assert(devices[i] == rest[i - 1]);
            }
        }
    }
}

/// The dGPU that is made of the functions `devices`: of several functions
/// that are GPUs the last one is the dGPU itself and gives the vendor; where
/// none is one, the vendor is unknown.
pub open spec fn spec_dgpu_of(devices: Seq<DeviceView>) -> DiscreetGpuView {
    if last_dgpu(devices) >= 0 {
        DiscreetGpuView {
            vendor: devices[last_dgpu(devices)].vendor,
            dgpu_index: last_dgpu(devices),
            devices,
        }
    } else {
        DiscreetGpuView { vendor: GfxVendor::Unknown, dgpu_index: 0, devices }
    }
}

/// The vendor to go by where no function of a dGPU was found: the firmware
/// may have switched the dGPU off, or the MUX may hide everything else.
pub open spec fn spec_vendor_without_devices(quirks: AsusQuirks) -> GfxVendor {
    if quirks.dgpu_disable == Some(true) {
        GfxVendor::AsusDgpuDisabled
    } else if quirks.gpu_mux == Some(AsusGpuMuxMode::Discreet) {
        GfxVendor::Nvidia
    } else {
        GfxVendor::Unknown
    }
}

/// One operation for each of `count` functions, from the last to the first.
pub open spec fn spec_ops_last_to_first(count: nat, op: spec_fn(usize) -> PlatformOp) -> Seq<
    PlatformOp,
> {
    Seq::new(count, |i: int| op((count - 1 - i) as usize))
}

/// One operation for each of `count` functions, from the first to the last.
pub open spec fn spec_ops_first_to_last(count: nat, op: spec_fn(usize) -> PlatformOp) -> Seq<
    PlatformOp,
> {
    Seq::new(count, |i: int| op(i as usize))
}

/// The operations that set the runtime power management of every function
/// of `dgpu`, first to last. Without a tracked dGPU, and with one that the
/// firmware has switched off, there is nothing to do; with functions of an
/// unknown vendor nothing can be done.
pub open spec fn spec_set_runtime_pm(dgpu: DiscreetGpuView, pm: RuntimePowerManagement) -> Result<
    Seq<PlatformOp>,
    GfxErrorView,
> {
    if dgpu.devices.len() == 0 || dgpu.vendor == GfxVendor::AsusDgpuDisabled {
        Ok(Seq::empty())
    } else if dgpu.vendor == GfxVendor::Unknown {
        Err(GfxErrorView::NotSupported("set_runtime_pm: Could not find dGPU"@))
    } else {
        Ok(
            spec_ops_first_to_last(
                dgpu.devices.len(),
                |device: usize| PlatformOp::SetRuntimePm { device, state: pm },
            ),
        )
    }
}

impl View for DiscreetGpu {
    type V = DiscreetGpuView;

    closed spec fn view(&self) -> DiscreetGpuView {
        DiscreetGpuView {
            vendor: self.vendor,
            dgpu_index: self.dgpu_index as int,
            devices: device_views(self.devices@),
        }
    }
}

impl Clone for DiscreetGpu {
    fn clone(&self) -> (res: DiscreetGpu)
        ensures
            res@ == self@,
    {
        proof {
            use_type_invariant(self);
        }
        let mut devices: Vec<Device> = Vec::new();
        let mut i: usize = 0;
        while i < self.devices.len()
            invariant
                0 <= i <= self.devices.len(),
                devices.len() == i,
                forall|j: int| 0 <= j < i ==> (#[trigger] devices[j])@ == self.devices[j]@,
            decreases self.devices.len() - i,
        {
            devices.push(self.devices[i].duplicate());
            i += 1;
        }
        assert(device_views(devices@) =~= device_views(self.devices@));
        DiscreetGpu { vendor: self.vendor, dgpu_index: self.dgpu_index, devices }
    }
}

impl DiscreetGpu {
    #[verifier::type_invariant]
    spec fn inv(&self) -> bool {
        self@.wf()
    }

    /// The dGPU that a search for its functions has found. Of several
    /// functions that are GPUs the last one counts. Where the search found
    /// nothing, the firmware's toggles tell which vendor to go by.
    pub fn new(found: Result<Vec<Device>, GfxError>, quirks: &AsusQuirks) -> (res: DiscreetGpu)
        ensures
            res@.wf(),
            found matches Ok(devices) ==> res@ == spec_dgpu_of(device_views(devices@)),
            found is Err ==> res@ == (DiscreetGpuView {
                vendor: spec_vendor_without_devices(*quirks),
                dgpu_index: 0,
                devices: Seq::empty(),
            }),
    {
        match found {
            Ok(devices) => {
                let mut vendor = GfxVendor::Unknown;
                let mut dgpu_index: usize = 0;
                let mut idx: usize = 0;
                let ghost views = device_views(devices@);
                while idx < devices.len()
                    invariant
                        0 <= idx <= devices.len(),
                        views == device_views(devices@),
                        last_dgpu(views.take(idx as int)) >= 0 ==> dgpu_index == last_dgpu(
                            views.take(idx as int),
                        ) && vendor == views[dgpu_index as int].vendor,
                        last_dgpu(views.take(idx as int)) < 0 ==> dgpu_index == 0 && vendor
                            == GfxVendor::Unknown,
                    decreases devices.len() - idx,
                {
                    proof {
                        assert(views.take(idx + 1).drop_last() =~= views.take(idx as int));
                        assert(views.take(idx + 1).last() == devices[idx as int]@);
                    }
                    if devices[idx].is_dgpu() {
                        dgpu_index = idx;
                        vendor = devices[idx].vendor();
                    }
                    idx += 1;
                }
                proof {
                    assert(views.take(idx as int) =~= views);
                    lemma_last_dgpu(views);
                }
                DiscreetGpu { vendor, dgpu_index, devices }
            },
            Err(_) => {
                let vendor = match quirks.dgpu_disable {
                    Some(true) => GfxVendor::AsusDgpuDisabled,
                    _ => match quirks.gpu_mux {
                        Some(AsusGpuMuxMode::Discreet) => GfxVendor::Nvidia,
                        _ => GfxVendor::Unknown,
                    },
                };
                let devices: Vec<Device> = Vec::new();
                assert(device_views(devices@) =~= Seq::empty());
                DiscreetGpu { vendor, dgpu_index: 0, devices }
            },
        }
    }

    pub fn vendor(&self) -> (res: GfxVendor)
        ensures
            res == self@.vendor,
            self@.wf(),
    {
        proof {
            use_type_invariant(self);
        }
        self.vendor
    }

    pub fn devices(&self) -> (res: &[Device])
        ensures
            device_views(res@) == self@.devices,
    {
        self.devices.as_slice()
    }

    /// The functions of the dGPU, which is what `devices` gives.
    pub fn functions(&self) -> (res: &[Device])
        ensures
            device_views(res@) == self@.devices,
    {
        self.devices.as_slice()
    }

    pub fn is_nvidia(&self) -> (res: bool)
        ensures
            res == (self@.vendor == GfxVendor::Nvidia),
    {
        self.vendor == GfxVendor::Nvidia
    }

    pub fn is_amd(&self) -> (res: bool)
        ensures
            res == (self@.vendor == GfxVendor::Amd),
    {
        self.vendor == GfxVendor::Amd
    }

    pub fn is_intel(&self) -> (res: bool)
        ensures
            res == (self@.vendor == GfxVendor::Intel),
    {
        self.vendor == GfxVendor::Intel
    }

    /// The file that tells the dGPU's power status, where a dGPU is tracked
    /// that has one to read.
    pub fn runtime_status_path(&self) -> (res: Option<String>)
        ensures
            self@.devices.len() > 0 && self@.vendor != GfxVendor::Unknown && self@.vendor
                != GfxVendor::AsusDgpuDisabled ==> (res matches Some(p) && p@ == spec_join(
                self@.devices[self@.dgpu_index].dev_path,
                "power/runtime_status"@,
            )),
            !(self@.devices.len() > 0 && self@.vendor != GfxVendor::Unknown && self@.vendor
                != GfxVendor::AsusDgpuDisabled) ==> res.is_none(),
    {
        proof {
            use_type_invariant(self);
        }
        if self.devices.len() > 0 && self.vendor != GfxVendor::Unknown && self.vendor
            != GfxVendor::AsusDgpuDisabled {
            Some(self.devices[self.dgpu_index].runtime_status_path())
        } else {
            None
        }
    }

    /// The power status of the dGPU. `status` is the content of the file
    /// that `runtime_status_path` names, `None` where it cannot be read.
    ///
    /// A dGPU that the firmware has switched off is `AsusDisabled`, whether
    /// it is tracked or not. One that is tracked and of a known vendor has
    /// the status that its file tells. Of anything else nothing is known.
    pub fn get_runtime_status(&self, status: Option<&str>, quirks: &AsusQuirks) -> (res: Result<
        GfxPower,
        GfxError,
    >)
        ensures
            self@.devices.len() > 0 && self@.vendor == GfxVendor::AsusDgpuDisabled ==> res == Ok::<
                GfxPower,
                GfxError,
            >(GfxPower::AsusDisabled),
            self@.devices.len() > 0 && self@.vendor != GfxVendor::AsusDgpuDisabled && self@.vendor
                != GfxVendor::Unknown ==> res == Ok::<GfxPower, GfxError>(
                match status {
                    Some(s) => GfxPower::spec_from_normalized(
                        crate::text::trimmed_of(crate::text::lowercase_of(s@)),
                    ),
                    None => GfxPower::Off,
                },
            ),
            self@.devices.len() == 0 && quirks.dgpu_disable == Some(true) ==> res == Ok::<
                GfxPower,
                GfxError,
            >(GfxPower::AsusDisabled),
            (self@.devices.len() > 0 && self@.vendor == GfxVendor::Unknown) || (self@.devices.len()
                == 0 && quirks.dgpu_disable != Some(true)) ==> (res matches Err(
                GfxError::NotSupported(m),
            ) && m@ == "get_runtime_status: Could not find dGPU"@),
    {
        proof {
            use_type_invariant(self);
        }
        if self.devices.len() > 0 {
            if self.vendor == GfxVendor::AsusDgpuDisabled {
                return Ok(GfxPower::AsusDisabled);
            } else if self.vendor != GfxVendor::Unknown {
                return self.devices[self.dgpu_index].get_runtime_status(status);
            }
        } else {
            match quirks.dgpu_disable {
                Some(true) => {
                    return Ok(GfxPower::AsusDisabled);
                },
                _ => {},
            }
        }
        Err(GfxError::NotSupported(String::from_str("get_runtime_status: Could not find dGPU")))
    }

    /// The operations that set the runtime power management of every
    /// function.
    pub fn set_runtime_pm(&self, pm: RuntimePowerManagement) -> (res: Result<
        Vec<PlatformOp>,
        GfxError,
    >)
        ensures
            match spec_set_runtime_pm(self@, pm) {
                Ok(ops) => res matches Ok(v) && v@ == ops,
                Err(e) => res matches Err(x) && x@ == e,
            },
    {
        let mut ops: Vec<PlatformOp> = Vec::new();
        if self.devices.len() == 0 || self.vendor == GfxVendor::AsusDgpuDisabled {
            return Ok(ops);
        }
        if self.vendor == GfxVendor::Unknown {
            return Err(
                GfxError::NotSupported(String::from_str("set_runtime_pm: Could not find dGPU")),
            );
        }
        let count = self.devices.len();
        let ghost op = |device: usize| PlatformOp::SetRuntimePm { device, state: pm };
        let mut i: usize = 0;
        while i < count
            invariant
                0 <= i <= count,
                op == (|device: usize| PlatformOp::SetRuntimePm { device, state: pm }),
                ops@ == spec_ops_first_to_last(i as nat, op),
            decreases count - i,
        {
            ops.push(PlatformOp::SetRuntimePm { device: i, state: pm });
            assert(ops@ =~= spec_ops_first_to_last((i + 1) as nat, op));
            i += 1;
        }
        assert(count == self@.devices.len());
        Ok(ops)
    }

    /// The operation that switches the power of the dGPU's slot: one for
    /// the first function that is the dGPU itself, none where there is no
    /// such function.
    pub fn set_hotplug(&self, state: HotplugState) -> (res: Result<Vec<PlatformOp>, GfxError>)
        ensures
            res matches Ok(ops) && ops@ == (if first_dgpu(self@.devices) < self@.devices.len() {
                seq![
                    PlatformOp::SetHotplug {
                        device: first_dgpu(self@.devices) as usize,
                        state,
                    },
                ]
            } else {
                Seq::empty()
            }),
    {
        let mut ops: Vec<PlatformOp> = Vec::new();
        let ghost views = self@.devices;
        let mut i: usize = 0;
        while i < self.devices.len()
            invariant
                0 <= i <= self.devices.len(),
                views == device_views(self.devices@),
                ops@ == Seq::<PlatformOp>::empty(),
                forall|j: int| 0 <= j < i ==> !(#[trigger] views[j]).is_dgpu,
            decreases self.devices.len() - i,
        {
            if self.devices[i].is_dgpu() {
                ops.push(PlatformOp::SetHotplug { device: i, state });
                proof {
                    lemma_first_dgpu(views);
                    assert(views[i as int].is_dgpu);
                    assert(first_dgpu(views) == i);
                    assert(ops@ =~= seq![PlatformOp::SetHotplug { device: i, state }]);
                }
                return Ok(ops);
            }
            i += 1;
        }
        proof {
            lemma_first_dgpu(views);
        }
        Ok(ops)
    }

    /// The operations that detach every function from its driver, last to
    /// first. There has to be a dGPU of a known vendor.
    pub fn unbind(&self) -> (res: Result<Vec<PlatformOp>, GfxError>)
        ensures
            self@.vendor != GfxVendor::Unknown ==> (res matches Ok(ops) && ops@
                == spec_ops_last_to_first(
                self@.devices.len(),
                |device: usize| PlatformOp::Unbind { device },
            )),
            self@.vendor == GfxVendor::Unknown ==> (res matches Err(GfxError::NotSupported(m))
                && m@ == "unbind: Could not find dGPU"@),
    {
        if self.vendor == GfxVendor::Unknown {
            return Err(GfxError::NotSupported(String::from_str("unbind: Could not find dGPU")));
        }
        let count = self.devices.len();
        let ghost op = |device: usize| PlatformOp::Unbind { device };
        let mut ops: Vec<PlatformOp> = Vec::new();
        let mut i: usize = 0;
        while i < count
            invariant
                0 <= i <= count,
                op == (|device: usize| PlatformOp::Unbind { device }),
                ops@ == spec_ops_last_to_first(count as nat, op).take(i as int),
            decreases count - i,
        {
            ops.push(PlatformOp::Unbind { device: count - 1 - i });
            assert(ops@ =~= spec_ops_last_to_first(count as nat, op).take(i + 1));
            i += 1;
        }
        assert(ops@ =~= spec_ops_last_to_first(count as nat, op));
        assert(count == self@.devices.len());
        Ok(ops)
    }

    /// The operations that take every function out of the device tree, last
    /// to first. There has to be a dGPU of a known vendor.
    pub fn remove(&self) -> (res: Result<Vec<PlatformOp>, GfxError>)
        ensures
            self@.vendor != GfxVendor::Unknown ==> (res matches Ok(ops) && ops@
                == spec_ops_last_to_first(
                self@.devices.len(),
                |device: usize| PlatformOp::Remove { device },
            )),
            self@.vendor == GfxVendor::Unknown ==> (res matches Err(GfxError::NotSupported(m))
                && m@ == "remove: Could not find dGPU"@),
    {
        if self.vendor == GfxVendor::Unknown {
            return Err(GfxError::NotSupported(String::from_str("remove: Could not find dGPU")));
        }
        let count = self.devices.len();
        let ghost op = |device: usize| PlatformOp::Remove { device };
        let mut ops: Vec<PlatformOp> = Vec::new();
        let mut i: usize = 0;
        while i < count
            invariant
                0 <= i <= count,
                op == (|device: usize| PlatformOp::Remove { device }),
                ops@ == spec_ops_last_to_first(count as nat, op).take(i as int),
            decreases count - i,
        {
            ops.push(PlatformOp::Remove { device: count - 1 - i });
            assert(ops@ =~= spec_ops_last_to_first(count as nat, op).take(i + 1));
            i += 1;
        }
        assert(ops@ =~= spec_ops_last_to_first(count as nat, op));
        assert(count == self@.devices.len());
        Ok(ops)
    }

    /// First every function is detached from its driver, then every function
    /// is taken out of the device tree.
    pub fn unbind_remove(&self) -> (res: Result<Vec<PlatformOp>, GfxError>)
        ensures
            self@.vendor != GfxVendor::Unknown ==> (res matches Ok(ops) && ops@
                == spec_ops_last_to_first(
                self@.devices.len(),
                |device: usize| PlatformOp::Unbind { device },
            ) + spec_ops_last_to_first(
                self@.devices.len(),
                |device: usize| PlatformOp::Remove { device },
            )),
            self@.vendor == GfxVendor::Unknown ==> (res matches Err(GfxError::NotSupported(m))
                && m@ == "unbind: Could not find dGPU"@),
    {
        let mut ops = match self.unbind() {
            Ok(ops) => ops,
            Err(e) => {
                return Err(e);
            },
        };
        let mut removes = match self.remove() {
            Ok(ops) => ops,
            Err(e) => {
                return Err(e);
            },
        };
        ops.append(&mut removes);
        Ok(ops)
    }

    /// The operations that load or remove the driver of the dGPU. Only the
    /// driver of Nvidia is made of modules that are handled here.
    pub fn do_driver_action(&self, action: DriverAction) -> (res: Result<Vec<PlatformOp>, GfxError>)
        ensures
            res matches Ok(ops) && ops@ == (if self@.vendor == GfxVendor::Nvidia {
                spec_driver_ops(action, spec_nvidia_drivers())
            } else {
                Seq::empty()
            }),
    {
        if self.is_nvidia() {
            let drivers = nvidia_drivers();
            Ok(driver_ops(action, &drivers))
        } else {
            Ok(Vec::new())
        }
    }
}

} // verus!
