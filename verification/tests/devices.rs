use supergfxctl::device_find::{
    lscpi_dgpu_check, parent_name, slot_holds, slot_holds_address, PciRecord,
};
use supergfxctl::error::GfxError;
use supergfxctl::gfx_vendors::{GfxPower, GfxVendor};
use supergfxctl::pci_device::{
    rescan_pci_bus, Device, DiscreetGpu, FileWrite, HotplugState, RuntimePowerManagement,
};
use supergfxctl::special_asus::{AsusGpuMuxMode, AsusQuirks};
use supergfxctl::system::{DriverAction, PlatformOp, SysFile};

fn record(sysname: &str, pci_id: &str, class: &str) -> PciRecord {
    PciRecord {
        sysname: sysname.to_string(),
        syspath: format!("/sys/devices/pci0000:00/{}", sysname),
        pci_id: Some(pci_id.to_string()),
        pci_class: Some(class.to_string()),
        boot_vga: None,
        model: None,
        lspci: None,
        slot_power: None,
    }
}

fn gpu(sysname: &str) -> Device {
    Device::new(
        format!("/sys/devices/{}", sysname),
        Some("/sys/bus/pci/slots/1/power".to_string()),
        GfxVendor::Nvidia,
        true,
        sysname.to_string(),
        "10DE:2520".to_string(),
    )
}

fn audio(sysname: &str) -> Device {
    Device::new(
        format!("/sys/devices/{}", sysname),
        None,
        GfxVendor::Nvidia,
        false,
        sysname.to_string(),
        "10DE:228E".to_string(),
    )
}

fn two_functions() -> DiscreetGpu {
    DiscreetGpu::new(Ok(vec![gpu("0000:01:00.0"), audio("0000:01:00.1")]), &AsusQuirks::none())
}

#[test]
fn device_accessors() {
    let dev = gpu("0000:01:00.0");
    assert_eq!(dev.dev_path(), "/sys/devices/0000:01:00.0");
    assert_eq!(dev.vendor(), GfxVendor::Nvidia);
    assert!(dev.is_dgpu());
    assert_eq!(dev.pci_id(), "10DE:2520");
    assert_eq!(dev.name(), "0000:01:00.0");
    assert!(dev.has_hotplug());
    assert!(!audio("0000:01:00.1").has_hotplug());
    let copy = dev.duplicate();
    assert_eq!(copy.dev_path(), dev.dev_path());
    assert_eq!(copy.pci_id(), dev.pci_id());
    assert_eq!(copy.name(), dev.name());
    assert_eq!(copy.is_dgpu(), dev.is_dgpu());
}

#[test]
fn device_writes() {
    let dev = gpu("0000:01:00.0");
    assert_eq!(
        dev.set_runtime_pm(RuntimePowerManagement::Auto, true),
        Some(FileWrite {
            path: "/sys/devices/0000:01:00.0/power/control".to_string(),
            data: "auto".to_string()
        })
    );
    assert_eq!(dev.set_runtime_pm(RuntimePowerManagement::Auto, false), None);
    assert_eq!(dev.runtime_pm_path(), "/sys/devices/0000:01:00.0/power/control");
    assert_eq!(dev.runtime_status_path(), "/sys/devices/0000:01:00.0/power/runtime_status");
    assert_eq!(dev.driver_path(), "/sys/devices/0000:01:00.0/driver");
    assert_eq!(
        dev.unbind(Some("/sys/bus/pci/drivers/nvidia")),
        Some(FileWrite {
            path: "/sys/bus/pci/drivers/nvidia/unbind".to_string(),
            data: "0000:01:00.0".to_string()
        })
    );
    assert_eq!(dev.unbind(None), None);
    assert_eq!(
        dev.remove(true),
        Some(FileWrite {
            path: "/sys/devices/0000:01:00.0/remove".to_string(),
            data: "1".to_string()
        })
    );
    assert_eq!(dev.remove(false), None);
    assert_eq!(
        dev.set_hotplug(HotplugState::Off),
        Some(FileWrite { path: "/sys/bus/pci/slots/1/power".to_string(), data: "0".to_string() })
    );
    assert_eq!(
        dev.set_hotplug(HotplugState::On),
        Some(FileWrite { path: "/sys/bus/pci/slots/1/power".to_string(), data: "1".to_string() })
    );
    assert_eq!(audio("0000:01:00.1").set_hotplug(HotplugState::Off), None);
}

#[test]
fn device_runtime_status() {
    let dev = gpu("0000:01:00.0");
    assert_eq!(dev.get_runtime_status(Some("active\n")), Ok(GfxPower::Active));
    assert_eq!(dev.get_runtime_status(Some("Suspended")), Ok(GfxPower::Suspended));
    assert_eq!(dev.get_runtime_status(Some("off")), Ok(GfxPower::Off));
    assert_eq!(dev.get_runtime_status(Some("error")), Ok(GfxPower::Unknown));
    assert_eq!(dev.get_runtime_status(None), Ok(GfxPower::Off));
}

#[test]
fn rescan_writes_one() {
    assert_eq!(rescan_pci_bus(), PlatformOp::Write { file: SysFile::PciRescan, data: "1" });
    assert_eq!(SysFile::PciRescan.path(), "/sys/bus/pci/rescan");
}

#[test]
fn dgpu_from_devices() {
    let dgpu = two_functions();
    assert_eq!(dgpu.vendor(), GfxVendor::Nvidia);
    assert!(dgpu.is_nvidia());
    assert!(!dgpu.is_amd());
    assert!(!dgpu.is_intel());
    assert_eq!(dgpu.devices().len(), 2);
    assert_eq!(dgpu.functions().len(), 2);
    assert_eq!(dgpu.devices()[1].name(), "0000:01:00.1");
    assert_eq!(
        dgpu.runtime_status_path(),
        Some("/sys/devices/0000:01:00.0/power/runtime_status".to_string())
    );
    let copy = dgpu.clone();
    assert_eq!(copy.vendor(), GfxVendor::Nvidia);
    assert_eq!(copy.devices().len(), 2);
    assert_eq!(copy.devices()[0].dev_path(), dgpu.devices()[0].dev_path());
}

#[test]
fn the_last_gpu_counts() {
    let amd = Device::new(
        "/sys/devices/0000:03:00.0".to_string(),
        None,
        GfxVendor::Amd,
        true,
        "0000:03:00.0".to_string(),
        "1002:73FF".to_string(),
    );
    let dgpu = DiscreetGpu::new(
        Ok(vec![gpu("0000:01:00.0"), audio("0000:01:00.1"), amd]),
        &AsusQuirks::none(),
    );
    assert_eq!(dgpu.vendor(), GfxVendor::Amd);
    assert!(dgpu.is_amd());
    assert_eq!(
        dgpu.runtime_status_path(),
        Some("/sys/devices/0000:03:00.0/power/runtime_status".to_string())
    );
    let none = DiscreetGpu::new(Ok(vec![audio("0000:01:00.1")]), &AsusQuirks::none());
    assert_eq!(none.vendor(), GfxVendor::Unknown);
    assert_eq!(none.runtime_status_path(), None);
}

#[test]
fn dgpu_without_devices_asks_the_firmware() {
    let err = || Err(GfxError::DgpuNotFound);
    let plain = DiscreetGpu::new(err(), &AsusQuirks::none());
    assert_eq!(plain.vendor(), GfxVendor::Unknown);
    assert_eq!(plain.devices().len(), 0);
    let disabled = AsusQuirks { dgpu_disable: Some(true), ..AsusQuirks::none() };
    assert_eq!(DiscreetGpu::new(err(), &disabled).vendor(), GfxVendor::AsusDgpuDisabled);
    let mux = AsusQuirks {
        dgpu_disable: Some(false),
        gpu_mux: Some(AsusGpuMuxMode::Discreet),
        ..AsusQuirks::none()
    };
    assert_eq!(DiscreetGpu::new(err(), &mux).vendor(), GfxVendor::Nvidia);
    let optimus = AsusQuirks { gpu_mux: Some(AsusGpuMuxMode::Optimus), ..AsusQuirks::none() };
    assert_eq!(DiscreetGpu::new(err(), &optimus).vendor(), GfxVendor::Unknown);
}

#[test]
fn dgpu_runtime_status() {
    let dgpu = two_functions();
    let none = AsusQuirks::none();
    assert_eq!(dgpu.get_runtime_status(Some("active"), &none), Ok(GfxPower::Active));
    assert_eq!(dgpu.get_runtime_status(None, &none), Ok(GfxPower::Off));
    let not_found =
        Err(GfxError::NotSupported("get_runtime_status: Could not find dGPU".to_string()));
    let empty = DiscreetGpu::new(Err(GfxError::DgpuNotFound), &none);
    assert_eq!(empty.get_runtime_status(Some("active"), &none), not_found);
    let disabled = AsusQuirks { dgpu_disable: Some(true), ..AsusQuirks::none() };
    assert_eq!(empty.get_runtime_status(None, &disabled), Ok(GfxPower::AsusDisabled));
    let unknown = DiscreetGpu::new(Ok(vec![audio("0000:01:00.1")]), &none);
    assert_eq!(unknown.get_runtime_status(Some("active"), &disabled), not_found);
}

#[test]
fn dgpu_operations() {
    let dgpu = two_functions();
    assert_eq!(
        dgpu.set_runtime_pm(RuntimePowerManagement::Auto),
        Ok(vec![
            PlatformOp::SetRuntimePm { device: 0, state: RuntimePowerManagement::Auto },
            PlatformOp::SetRuntimePm { device: 1, state: RuntimePowerManagement::Auto },
        ])
    );
    assert_eq!(
        dgpu.unbind(),
        Ok(vec![PlatformOp::Unbind { device: 1 }, PlatformOp::Unbind { device: 0 }])
    );
    assert_eq!(
        dgpu.remove(),
        Ok(vec![PlatformOp::Remove { device: 1 }, PlatformOp::Remove { device: 0 }])
    );
    assert_eq!(
        dgpu.unbind_remove(),
        Ok(vec![
            PlatformOp::Unbind { device: 1 },
            PlatformOp::Unbind { device: 0 },
            PlatformOp::Remove { device: 1 },
            PlatformOp::Remove { device: 0 },
        ])
    );
    assert_eq!(
        dgpu.set_hotplug(HotplugState::Off),
        Ok(vec![PlatformOp::SetHotplug { device: 0, state: HotplugState::Off }])
    );
    assert_eq!(
        dgpu.do_driver_action(DriverAction::Remove),
        Ok(vec![
            PlatformOp::Driver { action: DriverAction::Remove, driver: "nvidia_drm" },
            PlatformOp::Driver { action: DriverAction::Remove, driver: "nvidia_modeset" },
            PlatformOp::Driver { action: DriverAction::Remove, driver: "nvidia_uvm" },
            PlatformOp::Driver { action: DriverAction::Remove, driver: "nvidia" },
        ])
    );
}

#[test]
fn hotplug_goes_to_the_first_gpu_function() {
    let dgpu = DiscreetGpu::new(
        Ok(vec![audio("0000:01:00.1"), gpu("0000:01:00.0"), gpu("0000:02:00.0")]),
        &AsusQuirks::none(),
    );
    assert_eq!(
        dgpu.set_hotplug(HotplugState::On),
        Ok(vec![PlatformOp::SetHotplug { device: 1, state: HotplugState::On }])
    );
    let none = DiscreetGpu::new(Ok(vec![audio("0000:01:00.1")]), &AsusQuirks::none());
    assert_eq!(none.set_hotplug(HotplugState::On), Ok(vec![]));
}

#[test]
fn operations_without_a_known_dgpu() {
    let none = AsusQuirks::none();
    let empty = DiscreetGpu::new(Err(GfxError::DgpuNotFound), &none);
    assert_eq!(empty.set_runtime_pm(RuntimePowerManagement::Auto), Ok(vec![]));
    assert_eq!(
        empty.unbind(),
        Err(GfxError::NotSupported("unbind: Could not find dGPU".to_string()))
    );
    assert_eq!(
        empty.remove(),
        Err(GfxError::NotSupported("remove: Could not find dGPU".to_string()))
    );
    assert_eq!(
        empty.unbind_remove(),
        Err(GfxError::NotSupported("unbind: Could not find dGPU".to_string()))
    );
    assert_eq!(empty.do_driver_action(DriverAction::Load), Ok(vec![]));
    let unknown = DiscreetGpu::new(Ok(vec![audio("0000:01:00.1")]), &none);
    assert_eq!(
        unknown.set_runtime_pm(RuntimePowerManagement::Auto),
        Err(GfxError::NotSupported("set_runtime_pm: Could not find dGPU".to_string()))
    );
    let disabled = AsusQuirks { dgpu_disable: Some(true), ..AsusQuirks::none() };
    let hidden = DiscreetGpu::new(Err(GfxError::DgpuNotFound), &disabled);
    assert_eq!(hidden.unbind(), Ok(vec![]));
    assert_eq!(hidden.set_runtime_pm(RuntimePowerManagement::On), Ok(vec![]));
}

#[test]
fn labels_of_discrete_gpus() {
    assert!(lscpi_dgpu_check("GA106M [GeForce RTX 3060 Mobile / Max-Q]"));
    assert!(lscpi_dgpu_check("Navi 23 [Radeon RX 6600M]"));
    assert!(lscpi_dgpu_check("Advanced Micro Devices, Inc. [AMD/ATI] Navi"));
    assert!(lscpi_dgpu_check("NVIDIA Geforce"));
    assert!(lscpi_dgpu_check("Quadro T1000"));
    assert!(!lscpi_dgpu_check("GA106 High Definition Audio Controller"));
    assert!(!lscpi_dgpu_check(""));
}

#[test]
fn shared_name_of_functions() {
    assert_eq!(parent_name("0000:01:00.0"), "0000:01:00");
    assert_eq!(parent_name("0000:01:00.12"), "0000:01:00");
    assert_eq!(parent_name("0000:01:00"), "0000:01:");
    assert_eq!(parent_name("card..."), "card");
    assert_eq!(parent_name("42"), "");
}

#[test]
fn find_dgpu_and_its_functions() {
    let mut first = record("0000:00:02.0", "8086:9A49", "30000");
    first.boot_vga = Some("1".to_string());
    let mut dgpu = record("0000:01:00.0", "10DE:2520", "30000");
    dgpu.boot_vga = Some("0".to_string());
    dgpu.slot_power = Some("/sys/bus/pci/slots/0-1/power".to_string());
    let mut sound = record("0000:01:00.1", "10DE:228E", "40300");
    sound.model = Some("GA106 High Definition Audio Controller".to_string());
    sound.slot_power = Some("/sys/bus/pci/slots/0-1/power".to_string());
    let nvme = record("0000:02:00.0", "144D:A80A", "10802");
    let mut late = record("0000:03:00.0", "10DE:2520", "30000");
    late.boot_vga = Some("0".to_string());
    let found = Device::find(&vec![first, dgpu, sound, nvme, late]).unwrap();
    assert_eq!(found.len(), 2);
    assert_eq!(found[0].name(), "0000:01:00.0");
    assert!(found[0].is_dgpu());
    assert_eq!(found[0].vendor(), GfxVendor::Nvidia);
    assert_eq!(found[0].pci_id(), "10DE:2520");
    assert_eq!(found[0].dev_path(), "/sys/devices/pci0000:00/0000:01:00.0");
    assert!(found[0].has_hotplug());
    assert_eq!(found[1].name(), "0000:01:00.1");
    assert!(!found[1].is_dgpu());
    assert!(!found[1].has_hotplug());
    assert_eq!(found[1].vendor(), GfxVendor::Nvidia);
}

#[test]
fn find_by_label_and_by_lspci() {
    let mut amd = record("0000:03:00.0", "1002:73FF", "38000");
    amd.model = Some("Navi 23 [Radeon RX 6600M]".to_string());
    let found = Device::find(&vec![amd]).unwrap();
    assert_eq!(found.len(), 1);
    assert_eq!(found[0].vendor(), GfxVendor::Amd);
    assert!(found[0].is_dgpu());

    let mut by_lspci = record("0000:01:00.0", "10DE:2520", "30200");
    by_lspci.lspci = Some(Ok("01:00.0 3D controller: NVIDIA Corporation GeForce RTX".to_string()));
    let found = Device::find(&vec![by_lspci]).unwrap();
    assert!(found[0].is_dgpu());

    let unasked = record("0000:01:00.0", "10DE:2520", "30200");
    assert_eq!(
        Device::find(&vec![unasked]),
        Err(GfxError::Io(String::new(), "lspci was not asked".to_string()))
    );
    let mut failed = record("0000:01:00.0", "10DE:2520", "30200");
    failed.lspci = Some(Err("No such file or directory (os error 2)".to_string()));
    assert_eq!(
        Device::find(&vec![failed]),
        Err(GfxError::Io(String::new(), "No such file or directory (os error 2)".to_string()))
    );
    // a failure of lspci does no harm where it is not needed
    let mut spare = record("0000:01:00.0", "10DE:2520", "30000");
    spare.boot_vga = Some("0".to_string());
    spare.lspci = Some(Err("No such file or directory (os error 2)".to_string()));
    assert_eq!(Device::find(&vec![spare]).map(|found| found.len()), Ok(1));
}

#[test]
fn find_nothing() {
    assert_eq!(Device::find(&Vec::new()), Err(GfxError::DgpuNotFound));
    let mut igpu = record("0000:00:02.0", "8086:9A49", "30000");
    igpu.boot_vga = Some("1".to_string());
    let mut boot = record("0000:01:00.0", "10DE:2520", "30000");
    boot.boot_vga = Some("1".to_string());
    let mut bare = record("0000:04:00.0", "10DE:2520", "30000");
    bare.pci_class = None;
    assert_eq!(Device::find(&vec![igpu, boot, bare]), Err(GfxError::DgpuNotFound));
}

#[test]
fn vendor_is_what_stands_before_the_colon() {
    let mut odd = record("0000:01:00.0", "10DEF:2520", "30000");
    odd.boot_vga = Some("0".to_string());
    let found = Device::find(&vec![odd]).unwrap();
    assert_eq!(found[0].vendor(), GfxVendor::Unknown);
    assert_eq!(found[0].pci_id(), "10DEF:2520");
}

#[test]
fn slot_of_a_function() {
    assert!(slot_holds("0000:01:00.0", "0000:01:00\n"));
    assert!(slot_holds("0000:01:00.0", "0000:01:00"));
    assert!(slot_holds("0000:01:00.0", "01:00 \t\n"));
    assert!(!slot_holds("0000:01:00.0", "0000:02:00\n"));
    assert!(!slot_holds("0000:01:00.0", " 0000:01:00\n"));
    assert!(slot_holds_address("0000:01:00.0", "0000:01:00"));
    assert!(slot_holds_address("0000:01:00.0", ""));
    assert!(!slot_holds_address("0000:01:00.0", "0000:01:00\n"));
    assert!(!slot_holds_address("0000:01:00.0", "0000:01:00.00"));
}

#[test]
fn what_a_record_tells() {
    let other = record("0000:02:00.0", "144D:A80A", "10802");
    assert!(!other.is_candidate());
    assert!(!other.needs_lspci());
    assert_eq!(other.is_dgpu(), Ok(false));

    let bare = record("0000:01:00.0", "10DE:2520", "30200");
    assert!(bare.is_candidate());
    assert!(bare.needs_lspci());
    assert_eq!(
        bare.is_dgpu(),
        Err(GfxError::Io(String::new(), "lspci was not asked".to_string()))
    );

    let mut asked = record("0000:01:00.0", "10DE:2520", "30200");
    asked.lspci = Some(Ok("3D controller: NVIDIA Corporation GeForce RTX".to_string()));
    assert_eq!(asked.is_dgpu(), Ok(true));
    asked.lspci = Some(Err("denied".to_string()));
    assert_eq!(
        asked.is_dgpu(),
        Err(GfxError::Io(String::new(), "denied".to_string()))
    );

    let mut labelled = record("0000:01:00.1", "10DE:228E", "40300");
    labelled.model = Some("GA106 High Definition Audio Controller".to_string());
    assert!(!labelled.needs_lspci());
    assert_eq!(labelled.is_dgpu(), Ok(false));

    let mut display = record("0000:01:00.0", "1002:73FF", "30000");
    display.boot_vga = Some("0".to_string());
    assert!(!display.needs_lspci());
    assert_eq!(display.is_dgpu(), Ok(true));
    display.boot_vga = Some("1".to_string());
    assert_eq!(display.is_dgpu(), Ok(false));
    display.boot_vga = Some("0".to_string());
    display.pci_class = Some("40300".to_string());
    assert_eq!(display.is_dgpu(), Ok(false));

    let mut nameless = record("0000:01:00.0", "10DE:2520", "30000");
    nameless.pci_class = None;
    assert!(!nameless.is_candidate());
    assert_eq!(nameless.is_dgpu(), Ok(false));
}
