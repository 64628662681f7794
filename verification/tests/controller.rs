use supergfxctl::actions::StagedAction;
use supergfxctl::config::{GfxConfig, GfxConfigDbus};
use supergfxctl::controller::{
    power_status_change, CtrlGraphics, ModeChange, PlanStep, Progress,
};
use supergfxctl::error::GfxError;
use supergfxctl::gfx_vendors::{GfxMode, GfxPower, GfxRequiredUserAction, GfxVendor};
use supergfxctl::pci_device::{Device, DiscreetGpu, HotplugType, RuntimePowerManagement};
use supergfxctl::special_asus::{AsusGpuMuxMode, AsusQuirks};
use supergfxctl::system::{DriverAction, KernelCmdline, PlatformOp, SysFile};

fn nvidia_gpu() -> DiscreetGpu {
    let devices = vec![
        Device::new(
            "/sys/devices/pci0000:00/0000:00:01.1/0000:01:00.0".to_string(),
            Some("/sys/bus/pci/slots/0/power".to_string()),
            GfxVendor::Nvidia,
            true,
            "0000:01:00.0".to_string(),
            "10DE:2520".to_string(),
        ),
        Device::new(
            "/sys/devices/pci0000:00/0000:00:01.1/0000:01:00.1".to_string(),
            None,
            GfxVendor::Nvidia,
            false,
            "0000:01:00.1".to_string(),
            "10DE:228E".to_string(),
        ),
    ];
    DiscreetGpu::new(Ok(devices), &AsusQuirks::none())
}

fn no_gpu() -> DiscreetGpu {
    DiscreetGpu::new(Err(GfxError::DgpuNotFound), &AsusQuirks::none())
}

fn config(mode: GfxMode) -> GfxConfig {
    let mut config = GfxConfig::new("/etc/supergfxd.conf".to_string());
    config.mode = mode;
    config
}

fn plain_cmdline() -> KernelCmdline {
    KernelCmdline { mode: None, nvidia_modeset: None }
}

fn controller(mode: GfxMode) -> CtrlGraphics {
    CtrlGraphics::new(config(mode), nvidia_gpu())
}

fn run_to_end(ctrl: &mut CtrlGraphics, ticket: u64) -> (Vec<StagedAction>, Progress) {
    let mut ran = Vec::new();
    loop {
        match ctrl.next_step(ticket) {
            PlanStep::Superseded => return (ran, Progress::Superseded),
            PlanStep::Perform(stage) => ran.push(stage),
            PlanStep::SetRuntimePm => {}
        }
        match ctrl.step_succeeded(ticket) {
            Progress::Continue => {}
            other => return (ran, other),
        }
    }
}

#[test]
fn new_controller_is_idle() {
    let mut settings = config(GfxMode::Integrated);
    settings.pending_mode = Some(GfxMode::Hybrid);
    settings.pending_action = Some(GfxRequiredUserAction::Logout);
    let ctrl = CtrlGraphics::new(settings, nvidia_gpu());
    assert_eq!(ctrl.get_gfx_mode(), GfxMode::Integrated);
    assert_eq!(ctrl.get_pending_mode(), GfxMode::Unset);
    assert_eq!(ctrl.get_pending_user_action(), GfxRequiredUserAction::Nothing);
    assert_eq!(ctrl.get_gfx_vendor(), GfxVendor::Nvidia);
    assert_eq!(ctrl.next_step(0), PlanStep::Superseded);
    assert!(!ctrl.is_current(0));
}

#[test]
fn temporary_mode_wins_over_saved_mode() {
    let mut settings = config(GfxMode::Integrated);
    settings.tmp_mode = Some(GfxMode::Vfio);
    let ctrl = CtrlGraphics::new(settings, nvidia_gpu());
    assert_eq!(ctrl.get_gfx_mode(), GfxMode::Vfio);
    assert_eq!(ctrl.config().mode, GfxMode::Integrated);
}

#[test]
fn request_for_the_current_mode_is_a_no_op() {
    for mode in [GfxMode::Hybrid, GfxMode::Integrated] {
        let mut ctrl = controller(mode);
        let answer = ctrl.set_gfx_mode(mode, &AsusQuirks::none(), &plain_cmdline());
        assert_eq!(
            answer,
            Ok(ModeChange { action: GfxRequiredUserAction::Nothing, ticket: None })
        );
        assert_eq!(ctrl.get_gfx_mode(), mode);
        assert_eq!(ctrl.get_pending_mode(), GfxMode::Unset);
        assert_eq!(ctrl.get_pending_user_action(), GfxRequiredUserAction::Nothing);
    }
}

#[test]
fn request_for_the_current_mode_with_always_reboot() {
    let mut settings = config(GfxMode::Hybrid);
    settings.always_reboot = true;
    let mut ctrl = CtrlGraphics::new(settings, nvidia_gpu());
    for _ in 0..3 {
        let answer = ctrl.set_gfx_mode(GfxMode::Hybrid, &AsusQuirks::none(), &plain_cmdline());
        assert_eq!(
            answer,
            Ok(ModeChange { action: GfxRequiredUserAction::Reboot, ticket: None })
        );
        assert_eq!(ctrl.get_gfx_mode(), GfxMode::Hybrid);
        assert_eq!(ctrl.get_pending_mode(), GfxMode::Unset);
    }
}

#[test]
fn always_reboot_saves_the_mode_for_the_next_start() {
    let mut settings = config(GfxMode::Hybrid);
    settings.always_reboot = true;
    settings.vfio_enable = true;
    let mut ctrl = CtrlGraphics::new(settings, nvidia_gpu());
    let answer = ctrl.set_gfx_mode(GfxMode::Integrated, &AsusQuirks::none(), &plain_cmdline());
    assert_eq!(
        answer,
        Ok(ModeChange { action: GfxRequiredUserAction::Reboot, ticket: None })
    );
    assert_eq!(ctrl.config().mode, GfxMode::Integrated);
    // vfio may not be saved: the saved mode stays
    let answer = ctrl.set_gfx_mode(GfxMode::Vfio, &AsusQuirks::none(), &plain_cmdline());
    assert_eq!(
        answer,
        Ok(ModeChange { action: GfxRequiredUserAction::Reboot, ticket: None })
    );
    assert_eq!(ctrl.config().mode, GfxMode::Integrated);
    assert_eq!(ctrl.config().tmp_mode, None);
}

#[test]
fn nvidia_modeset_on_the_command_line_asks_for_a_reboot() {
    let mut ctrl = controller(GfxMode::Hybrid);
    let cmdline = KernelCmdline { mode: None, nvidia_modeset: Some(true) };
    assert_eq!(
        ctrl.set_gfx_mode(GfxMode::Integrated, &AsusQuirks::none(), &cmdline),
        Ok(ModeChange { action: GfxRequiredUserAction::Reboot, ticket: None })
    );
}

#[test]
fn hardwired_mux_refuses_every_change() {
    let quirks = AsusQuirks {
        dgpu_disable: Some(false),
        egpu_enable: Some(false),
        gpu_mux: Some(AsusGpuMuxMode::Discreet),
        gsync_mode: None,
    };
    let cmdline = KernelCmdline { mode: None, nvidia_modeset: Some(false) };
    let mut settings = config(GfxMode::Hybrid);
    settings.vfio_enable = true;
    let mut ctrl = CtrlGraphics::new(settings, nvidia_gpu());
    let supported = ctrl.get_supported_modes(&quirks, &cmdline);
    assert_eq!(supported.len(), 7);
    for mode in supported {
        assert_eq!(
            ctrl.set_gfx_mode(mode, &quirks, &cmdline),
            Ok(ModeChange { action: GfxRequiredUserAction::AsusGpuMuxDisable, ticket: None })
        );
        assert_eq!(ctrl.get_gfx_mode(), GfxMode::Hybrid);
        assert_eq!(ctrl.get_pending_mode(), GfxMode::Unset);
        assert_eq!(ctrl.dgpu().devices().len(), 2);
        assert_eq!(ctrl.get_gfx_vendor(), GfxVendor::Nvidia);
    }
}

#[test]
fn vfio_disabled_is_refused_at_once() {
    let mut ctrl = controller(GfxMode::Integrated);
    assert_eq!(
        ctrl.set_gfx_mode(GfxMode::Vfio, &AsusQuirks::none(), &plain_cmdline()),
        Err(GfxError::VfioDisabled)
    );
    assert_eq!(ctrl.get_pending_mode(), GfxMode::Unset);
    assert_eq!(ctrl.next_step(0), PlanStep::Superseded);
    // even with the mux hardwired and a restart always asked for
    let quirks = AsusQuirks {
        dgpu_disable: None,
        egpu_enable: None,
        gpu_mux: Some(AsusGpuMuxMode::Discreet),
        gsync_mode: None,
    };
    let mut settings = config(GfxMode::Integrated);
    settings.always_reboot = true;
    let mut ctrl = CtrlGraphics::new(settings, nvidia_gpu());
    assert_eq!(
        ctrl.set_gfx_mode(GfxMode::Vfio, &quirks, &plain_cmdline()),
        Err(GfxError::VfioDisabled)
    );
}

#[test]
fn unsupported_modes_are_refused() {
    let mut ctrl = controller(GfxMode::Hybrid);
    let refused =
        Err(GfxError::NotSupported("The mode is not supported on this machine".to_string()));
    for mode in [
        GfxMode::AsusEgpu,
        GfxMode::AsusMuxDgpu,
        GfxMode::NvidiaNoModeset,
        GfxMode::Unset,
    ] {
        assert_eq!(ctrl.set_gfx_mode(mode, &AsusQuirks::none(), &plain_cmdline()), refused);
        assert_eq!(
            ctrl.mode_support_check(mode, &AsusQuirks::none(), &plain_cmdline()),
            Err(GfxError::NotSupported("The mode is not supported on this machine".to_string()))
        );
    }
    assert_eq!(
        ctrl.mode_support_check(GfxMode::Hybrid, &AsusQuirks::none(), &plain_cmdline()),
        Ok(())
    );
}

#[test]
fn supported_modes_follow_the_hardware() {
    let ctrl = controller(GfxMode::Hybrid);
    assert_eq!(
        ctrl.get_supported_modes(&AsusQuirks::none(), &plain_cmdline()),
        vec![GfxMode::Integrated, GfxMode::Hybrid, GfxMode::Compute]
    );
    let mut settings = config(GfxMode::Hybrid);
    settings.vfio_enable = true;
    let ctrl = CtrlGraphics::new(settings, nvidia_gpu());
    let quirks = AsusQuirks {
        dgpu_disable: Some(true),
        egpu_enable: Some(false),
        gpu_mux: Some(AsusGpuMuxMode::Optimus),
        gsync_mode: None,
    };
    let cmdline = KernelCmdline { mode: None, nvidia_modeset: Some(false) };
    assert_eq!(
        ctrl.get_supported_modes(&quirks, &cmdline),
        vec![
            GfxMode::Integrated,
            GfxMode::Hybrid,
            GfxMode::Vfio,
            GfxMode::AsusEgpu,
            GfxMode::AsusMuxDgpu,
            GfxMode::NvidiaNoModeset,
        ]
    );
    let ctrl = CtrlGraphics::new(config(GfxMode::Integrated), no_gpu());
    assert_eq!(
        ctrl.get_supported_modes(&AsusQuirks::none(), &plain_cmdline()),
        vec![GfxMode::Integrated]
    );
    let hidden = AsusQuirks { dgpu_disable: Some(true), ..AsusQuirks::none() };
    let ctrl = CtrlGraphics::new(
        config(GfxMode::Integrated),
        DiscreetGpu::new(Err(GfxError::DgpuNotFound), &hidden),
    );
    assert_eq!(ctrl.get_gfx_vendor(), GfxVendor::AsusDgpuDisabled);
    assert_eq!(
        ctrl.get_supported_modes(&hidden, &plain_cmdline()),
        vec![GfxMode::Integrated, GfxMode::Hybrid]
    );
}

#[test]
fn switching_to_vfio_needs_integrated_first() {
    let mut settings = config(GfxMode::Hybrid);
    settings.vfio_enable = true;
    let mut ctrl = CtrlGraphics::new(settings, nvidia_gpu());
    assert_eq!(
        ctrl.set_gfx_mode(GfxMode::Vfio, &AsusQuirks::none(), &plain_cmdline()),
        Ok(ModeChange { action: GfxRequiredUserAction::Integrated, ticket: None })
    );
    assert_eq!(ctrl.get_pending_mode(), GfxMode::Unset);
}

#[test]
fn live_change_to_vfio_is_temporary_unless_saved() {
    let mut settings = config(GfxMode::Integrated);
    settings.vfio_enable = true;
    let mut ctrl = CtrlGraphics::new(settings, nvidia_gpu());
    let answer = ctrl.set_gfx_mode(GfxMode::Vfio, &AsusQuirks::none(), &plain_cmdline());
    assert_eq!(
        answer,
        Ok(ModeChange { action: GfxRequiredUserAction::Nothing, ticket: Some(0) })
    );
    assert_eq!(ctrl.get_pending_mode(), GfxMode::Vfio);
    assert_eq!(ctrl.get_pending_user_action(), GfxRequiredUserAction::Nothing);
    let (ran, progress) = run_to_end(&mut ctrl, 0);
    assert_eq!(ran, vec![StagedAction::WriteModprobeConf, StagedAction::LoadVfioDrivers]);
    assert_eq!(progress, Progress::Completed(GfxMode::Vfio));
    assert_eq!(ctrl.get_gfx_mode(), GfxMode::Vfio);
    assert_eq!(ctrl.config().mode, GfxMode::Integrated);
    assert_eq!(ctrl.config().tmp_mode, Some(GfxMode::Vfio));
    assert_eq!(ctrl.get_pending_mode(), GfxMode::Unset);

    let mut settings = config(GfxMode::Integrated);
    settings.vfio_enable = true;
    settings.vfio_save = true;
    let mut ctrl = CtrlGraphics::new(settings, nvidia_gpu());
    ctrl.set_gfx_mode(GfxMode::Vfio, &AsusQuirks::none(), &plain_cmdline()).unwrap();
    let (_, progress) = run_to_end(&mut ctrl, 0);
    assert_eq!(progress, Progress::Completed(GfxMode::Vfio));
    assert_eq!(ctrl.config().mode, GfxMode::Vfio);
    assert_eq!(ctrl.config().tmp_mode, None);
}

#[test]
fn deferred_plan_runs_stage_by_stage() {
    let mut ctrl = controller(GfxMode::Hybrid);
    let answer = ctrl.set_gfx_mode(GfxMode::Integrated, &AsusQuirks::none(), &plain_cmdline());
    assert_eq!(
        answer,
        Ok(ModeChange { action: GfxRequiredUserAction::Logout, ticket: Some(0) })
    );
    assert_eq!(ctrl.get_pending_mode(), GfxMode::Integrated);
    assert_eq!(ctrl.get_pending_user_action(), GfxRequiredUserAction::Logout);
    assert_eq!(ctrl.get_gfx_mode(), GfxMode::Hybrid);
    assert!(ctrl.is_current(0));
    assert_eq!(ctrl.next_step(0), PlanStep::Perform(StagedAction::WaitLogout));
    // asking again does not move the plan on
    assert_eq!(ctrl.next_step(0), PlanStep::Perform(StagedAction::WaitLogout));
    let (ran, progress) = run_to_end(&mut ctrl, 0);
    assert_eq!(
        ran,
        vec![
            StagedAction::WaitLogout,
            StagedAction::StopDisplayManager,
            StagedAction::DisableNvidiaPowerd,
            StagedAction::KillNvidia,
            StagedAction::UnloadGpuDrivers,
            StagedAction::UnbindRemoveGpu,
            StagedAction::WriteModprobeConf,
            StagedAction::DevTreeManaged,
            StagedAction::StartDisplayManager,
        ]
    );
    assert_eq!(progress, Progress::Completed(GfxMode::Integrated));
    assert_eq!(ctrl.get_gfx_mode(), GfxMode::Integrated);
    assert_eq!(ctrl.config().mode, GfxMode::Integrated);
    assert_eq!(ctrl.get_pending_mode(), GfxMode::Unset);
    assert_eq!(ctrl.get_pending_user_action(), GfxRequiredUserAction::Nothing);
    assert!(!ctrl.is_current(0));
    assert_eq!(ctrl.next_step(0), PlanStep::Superseded);
    assert_eq!(ctrl.step_succeeded(0), Progress::Superseded);
}

#[test]
fn runtime_pm_is_the_last_step_of_a_plan() {
    let mut settings = config(GfxMode::Integrated);
    settings.vfio_enable = true;
    let mut ctrl = CtrlGraphics::new(settings, nvidia_gpu());
    ctrl.set_gfx_mode(GfxMode::Vfio, &AsusQuirks::none(), &plain_cmdline()).unwrap();
    assert_eq!(ctrl.step_succeeded(0), Progress::Continue);
    assert_eq!(ctrl.step_succeeded(0), Progress::Continue);
    assert_eq!(ctrl.next_step(0), PlanStep::SetRuntimePm);
    assert_eq!(ctrl.get_gfx_mode(), GfxMode::Integrated);
    assert_eq!(ctrl.step_succeeded(0), Progress::Completed(GfxMode::Vfio));
}

#[test]
fn failed_stage_aborts_the_plan() {
    let mut ctrl = controller(GfxMode::Hybrid);
    ctrl.set_gfx_mode(GfxMode::Integrated, &AsusQuirks::none(), &plain_cmdline()).unwrap();
    assert_eq!(ctrl.step_succeeded(0), Progress::Continue);
    assert_eq!(ctrl.step_succeeded(0), Progress::Continue);
    assert!(ctrl.step_failed(0));
    assert_eq!(ctrl.get_gfx_mode(), GfxMode::Hybrid);
    assert_eq!(ctrl.get_pending_mode(), GfxMode::Unset);
    assert_eq!(ctrl.get_pending_user_action(), GfxRequiredUserAction::Nothing);
    assert_eq!(ctrl.next_step(0), PlanStep::Superseded);
    assert!(!ctrl.step_failed(0));
}

#[test]
fn new_request_supersedes_the_plan_in_flight() {
    let mut ctrl = controller(GfxMode::Hybrid);
    let first = ctrl
        .set_gfx_mode(GfxMode::Integrated, &AsusQuirks::none(), &plain_cmdline())
        .unwrap();
    assert_eq!(first.ticket, Some(0));
    // the old plan is in the middle of its wait for the logout
    assert_eq!(ctrl.next_step(0), PlanStep::Perform(StagedAction::WaitLogout));

    let quirks = AsusQuirks { egpu_enable: Some(false), ..AsusQuirks::none() };
    let second = ctrl.set_gfx_mode(GfxMode::AsusEgpu, &quirks, &plain_cmdline()).unwrap();
    assert_eq!(second.action, GfxRequiredUserAction::Logout);
    assert_eq!(second.ticket, Some(1));
    assert_eq!(ctrl.get_pending_mode(), GfxMode::AsusEgpu);

    // the old plan stops, whatever it reports
    assert!(!ctrl.is_current(0));
    assert_eq!(ctrl.next_step(0), PlanStep::Superseded);
    assert_eq!(ctrl.step_succeeded(0), Progress::Superseded);
    assert!(!ctrl.step_failed(0));
    assert_eq!(ctrl.get_pending_mode(), GfxMode::AsusEgpu);
    assert_eq!(ctrl.next_step(1), PlanStep::Perform(StagedAction::WaitLogout));

    // the new plan is the one that ends up saved
    let (_, progress) = run_to_end(&mut ctrl, 1);
    assert_eq!(progress, Progress::Completed(GfxMode::AsusEgpu));
    assert_eq!(ctrl.config().mode, GfxMode::AsusEgpu);
    assert_eq!(ctrl.get_pending_mode(), GfxMode::Unset);
    assert_eq!(ctrl.next_step(0), PlanStep::Superseded);
}

#[test]
fn a_request_answered_with_a_message_ends_the_plan_in_flight() {
    let mut settings = config(GfxMode::Hybrid);
    settings.vfio_enable = true;
    let mut ctrl = CtrlGraphics::new(settings, nvidia_gpu());
    ctrl.set_gfx_mode(GfxMode::Integrated, &AsusQuirks::none(), &plain_cmdline()).unwrap();
    assert!(ctrl.is_current(0));
    assert_eq!(
        ctrl.set_gfx_mode(GfxMode::Vfio, &AsusQuirks::none(), &plain_cmdline()),
        Ok(ModeChange { action: GfxRequiredUserAction::Integrated, ticket: None })
    );
    assert!(!ctrl.is_current(0));
    assert_eq!(ctrl.next_step(0), PlanStep::Superseded);
    assert_eq!(ctrl.get_pending_mode(), GfxMode::Unset);
    assert_eq!(ctrl.get_pending_user_action(), GfxRequiredUserAction::Nothing);
    assert_eq!(ctrl.get_gfx_mode(), GfxMode::Hybrid);
}

#[test]
fn a_request_for_the_mode_in_effect_ends_the_plan_in_flight() {
    let mut ctrl = controller(GfxMode::Hybrid);
    ctrl.set_gfx_mode(GfxMode::Integrated, &AsusQuirks::none(), &plain_cmdline()).unwrap();
    assert_eq!(ctrl.next_step(0), PlanStep::Perform(StagedAction::WaitLogout));
    assert_eq!(
        ctrl.set_gfx_mode(GfxMode::Hybrid, &AsusQuirks::none(), &plain_cmdline()),
        Ok(ModeChange { action: GfxRequiredUserAction::Nothing, ticket: None })
    );
    // the wait of the old plan is over, and none of its stages runs
    assert!(!ctrl.is_current(0));
    assert_eq!(ctrl.next_step(0), PlanStep::Superseded);
    assert_eq!(ctrl.step_succeeded(0), Progress::Superseded);
    assert_eq!(ctrl.get_pending_mode(), GfxMode::Unset);
    assert_eq!(ctrl.get_gfx_mode(), GfxMode::Hybrid);
    assert_eq!(ctrl.config().mode, GfxMode::Hybrid);
}

#[test]
fn the_mux_gate_ends_the_plan_in_flight() {
    let mut ctrl = controller(GfxMode::Hybrid);
    ctrl.set_gfx_mode(GfxMode::Integrated, &AsusQuirks::none(), &plain_cmdline()).unwrap();
    let hardwired = AsusQuirks { gpu_mux: Some(AsusGpuMuxMode::Discreet), ..AsusQuirks::none() };
    assert_eq!(
        ctrl.set_gfx_mode(GfxMode::Integrated, &hardwired, &plain_cmdline()),
        Ok(ModeChange { action: GfxRequiredUserAction::AsusGpuMuxDisable, ticket: None })
    );
    assert_eq!(ctrl.next_step(0), PlanStep::Superseded);
    assert_eq!(ctrl.get_pending_mode(), GfxMode::Unset);
    assert_eq!(ctrl.get_gfx_mode(), GfxMode::Hybrid);
    assert_eq!(ctrl.dgpu().devices().len(), 2);
}

#[test]
fn a_refused_request_leaves_the_plan_in_flight() {
    let mut ctrl = controller(GfxMode::Hybrid);
    ctrl.set_gfx_mode(GfxMode::Integrated, &AsusQuirks::none(), &plain_cmdline()).unwrap();
    assert_eq!(
        ctrl.set_gfx_mode(GfxMode::Vfio, &AsusQuirks::none(), &plain_cmdline()),
        Err(GfxError::VfioDisabled)
    );
    assert!(ctrl.is_current(0));
    assert_eq!(ctrl.get_pending_mode(), GfxMode::Integrated);
    assert_eq!(ctrl.next_step(0), PlanStep::Perform(StagedAction::WaitLogout));
}

#[test]
fn the_mux_mode_is_there_wherever_the_mux_is() {
    let mux = AsusQuirks {
        dgpu_disable: Some(true),
        gpu_mux: Some(AsusGpuMuxMode::Optimus),
        ..AsusQuirks::none()
    };
    let no_modeset = KernelCmdline { mode: None, nvidia_modeset: Some(false) };
    let hidden = DiscreetGpu::new(Err(GfxError::DgpuNotFound), &mux);
    assert_eq!(hidden.vendor(), GfxVendor::AsusDgpuDisabled);
    let mut ctrl = CtrlGraphics::new(config(GfxMode::Integrated), hidden);
    assert_eq!(
        ctrl.get_supported_modes(&mux, &no_modeset),
        vec![
            GfxMode::Integrated,
            GfxMode::Hybrid,
            GfxMode::AsusMuxDgpu,
            GfxMode::NvidiaNoModeset,
        ]
    );
    let answer = ctrl.set_gfx_mode(GfxMode::AsusMuxDgpu, &mux, &plain_cmdline());
    assert_eq!(
        answer,
        Ok(ModeChange { action: GfxRequiredUserAction::Logout, ticket: Some(0) })
    );
    let (ran, progress) = run_to_end(&mut ctrl, 0);
    assert_eq!(
        ran,
        vec![
            StagedAction::WaitLogout,
            StagedAction::StopDisplayManager,
            StagedAction::WriteModprobeConf,
            StagedAction::DevTreeManaged,
            StagedAction::RescanPci,
            StagedAction::LoadGpuDrivers,
            StagedAction::NotNvidia,
            StagedAction::AsusMuxDgpu,
            StagedAction::StartDisplayManager,
        ]
    );
    assert_eq!(progress, Progress::Completed(GfxMode::AsusMuxDgpu));
    assert_eq!(ctrl.config().mode, GfxMode::AsusMuxDgpu);

    let amd = Device::new(
        "/sys/devices/0000:03:00.0".to_string(),
        None,
        GfxVendor::Amd,
        true,
        "0000:03:00.0".to_string(),
        "1002:73FF".to_string(),
    );
    let ctrl = CtrlGraphics::new(
        config(GfxMode::Hybrid),
        DiscreetGpu::new(Ok(vec![amd]), &AsusQuirks::none()),
    );
    let optimus = AsusQuirks { gpu_mux: Some(AsusGpuMuxMode::Optimus), ..AsusQuirks::none() };
    assert_eq!(
        ctrl.get_supported_modes(&optimus, &plain_cmdline()),
        vec![GfxMode::Integrated, GfxMode::Hybrid, GfxMode::AsusMuxDgpu]
    );
}

#[test]
fn reload_takes_the_mode_of_the_command_line() {
    let mut settings = config(GfxMode::Hybrid);
    settings.hotplug_type = HotplugType::Std;
    let mut ctrl = CtrlGraphics::new(settings, nvidia_gpu());
    let cmdline = KernelCmdline { mode: Some(GfxMode::Integrated), nvidia_modeset: None };
    let plan = ctrl.reload(&cmdline, &AsusQuirks::none()).unwrap().unwrap();
    assert_eq!(plan.mode, GfxMode::Integrated);
    assert_eq!(plan.ticket, 0);
    assert!(plan.corrections.is_empty());
    assert_eq!(ctrl.config().mode, GfxMode::Integrated);
    let (ran, progress) = run_to_end(&mut ctrl, plan.ticket);
    assert_eq!(
        ran,
        vec![
            StagedAction::DisableNvidiaPowerd,
            StagedAction::KillNvidia,
            StagedAction::UnloadGpuDrivers,
            StagedAction::UnbindRemoveGpu,
            StagedAction::WriteModprobeConf,
            StagedAction::HotplugUnplug,
        ]
    );
    assert_eq!(progress, Progress::Completed(GfxMode::Integrated));
    assert_eq!(ctrl.get_gfx_mode(), GfxMode::Integrated);
}

#[test]
fn reload_saves_a_forced_mode_only_where_allowed() {
    let mut settings = config(GfxMode::Hybrid);
    settings.vfio_enable = true;
    settings.vfio_save = false;
    let mut ctrl = CtrlGraphics::new(settings, nvidia_gpu());
    let cmdline = KernelCmdline { mode: Some(GfxMode::Vfio), nvidia_modeset: None };
    let plan = ctrl.reload(&cmdline, &AsusQuirks::none()).unwrap().unwrap();
    assert_eq!(plan.mode, GfxMode::Vfio);
    assert_eq!(ctrl.config().mode, GfxMode::Hybrid);
    let (_, progress) = run_to_end(&mut ctrl, plan.ticket);
    assert_eq!(progress, Progress::Completed(GfxMode::Vfio));
    assert_eq!(ctrl.get_gfx_mode(), GfxMode::Vfio);
    assert_eq!(ctrl.config().mode, GfxMode::Hybrid);

    let mut settings = config(GfxMode::Hybrid);
    settings.vfio_enable = true;
    settings.vfio_save = true;
    let mut ctrl = CtrlGraphics::new(settings, nvidia_gpu());
    let plan = ctrl.reload(&cmdline, &AsusQuirks::none()).unwrap().unwrap();
    assert_eq!(plan.mode, GfxMode::Vfio);
    assert_eq!(ctrl.config().mode, GfxMode::Vfio);
}

#[test]
fn reload_without_command_line_uses_the_saved_mode() {
    let mut ctrl = controller(GfxMode::Hybrid);
    let plan = ctrl.reload(&plain_cmdline(), &AsusQuirks::none()).unwrap().unwrap();
    assert_eq!(plan.mode, GfxMode::Hybrid);
    let (ran, _) = run_to_end(&mut ctrl, plan.ticket);
    assert_eq!(
        ran,
        vec![
            StagedAction::WriteModprobeConf,
            StagedAction::DevTreeManaged,
            StagedAction::RescanPci,
            StagedAction::LoadGpuDrivers,
            StagedAction::EnableNvidiaPowerd,
        ]
    );
}

#[test]
fn reload_leaves_unusable_modes_alone() {
    let mut ctrl = controller(GfxMode::Vfio);
    assert_eq!(ctrl.reload(&plain_cmdline(), &AsusQuirks::none()), Ok(None));
    assert_eq!(ctrl.get_pending_mode(), GfxMode::Unset);
    let mut ctrl = controller(GfxMode::AsusEgpu);
    assert_eq!(ctrl.reload(&plain_cmdline(), &AsusQuirks::none()), Ok(None));
}

#[test]
fn reload_obeys_the_firmware() {
    let quirks = AsusQuirks {
        dgpu_disable: Some(true),
        egpu_enable: None,
        gpu_mux: Some(AsusGpuMuxMode::Discreet),
        gsync_mode: None,
    };
    let mut ctrl = controller(GfxMode::Hybrid);
    let plan = ctrl.reload(&plain_cmdline(), &quirks).unwrap().unwrap();
    assert_eq!(plan.mode, GfxMode::AsusMuxDgpu);
    assert_eq!(
        plan.corrections,
        vec![
            PlatformOp::Sleep { millis: 500 },
            PlatformOp::Write { file: SysFile::AsusDgpuDisable, data: "0" },
            PlatformOp::Sleep { millis: 50 },
            PlatformOp::Write { file: SysFile::PciRescan, data: "1" },
        ]
    );
    assert_eq!(ctrl.config().mode, GfxMode::AsusMuxDgpu);
    let (ran, _) = run_to_end(&mut ctrl, plan.ticket);
    assert_eq!(
        ran,
        vec![
            StagedAction::WriteModprobeConf,
            StagedAction::RescanPci,
            StagedAction::LoadGpuDrivers,
            StagedAction::EnableNvidiaPowerd,
        ]
    );
}

#[test]
fn set_config_takes_switches_and_reapplies_the_mode() {
    let mut ctrl = controller(GfxMode::Hybrid);
    let tunables = GfxConfigDbus {
        mode: GfxMode::Integrated,
        vfio_enable: true,
        vfio_save: true,
        compute_save: true,
        always_reboot: false,
        no_logind: true,
        logout_timeout_s: 30,
        hotplug_type: HotplugType::Asus,
    };
    assert_eq!(ctrl.set_config(&tunables, &AsusQuirks::none(), &plain_cmdline()), None);
    let now = ctrl.config();
    assert_eq!(now.mode, GfxMode::Hybrid);
    assert!(now.vfio_enable && now.vfio_save && now.compute_save && now.no_logind);
    assert_eq!(now.logout_timeout_s, 30);
    assert_eq!(now.hotplug_type, HotplugType::NoHotplug);

    let same = GfxConfigDbus { mode: GfxMode::Hybrid, ..tunables };
    assert_eq!(
        ctrl.set_config(&same, &AsusQuirks::none(), &plain_cmdline()),
        Some(Ok(ModeChange { action: GfxRequiredUserAction::Nothing, ticket: None }))
    );
}

#[test]
fn refreshed_devices_replace_the_old_ones() {
    let mut ctrl = controller(GfxMode::Hybrid);
    assert_eq!(ctrl.dgpu().devices().len(), 2);
    ctrl.refresh_devices(no_gpu());
    assert_eq!(ctrl.dgpu().devices().len(), 0);
    assert_eq!(ctrl.get_gfx_vendor(), GfxVendor::Unknown);
    assert_eq!(ctrl.get_gfx_mode(), GfxMode::Hybrid);
}

#[test]
fn wake_switches_the_dgpu_off_again() {
    let mut settings = config(GfxMode::Integrated);
    settings.hotplug_type = HotplugType::Asus;
    let ctrl = CtrlGraphics::new(settings, no_gpu());
    let on = AsusQuirks { dgpu_disable: Some(false), ..AsusQuirks::none() };
    assert_eq!(
        ctrl.wake_ops(&on),
        vec![
            PlatformOp::Sleep { millis: 500 },
            PlatformOp::Write { file: SysFile::AsusDgpuDisable, data: "1" },
        ]
    );
    let off = AsusQuirks { dgpu_disable: Some(true), ..AsusQuirks::none() };
    assert!(ctrl.wake_ops(&off).is_empty());
    assert!(ctrl.wake_ops(&AsusQuirks::none()).is_empty());
    let ctrl = controller(GfxMode::Integrated);
    assert!(ctrl.wake_ops(&on).is_empty());
}

#[test]
fn power_status_is_told_on_change_only() {
    assert_eq!(power_status_change(GfxPower::Unknown, GfxPower::Active), Some(GfxPower::Active));
    assert_eq!(power_status_change(GfxPower::Active, GfxPower::Active), None);
    assert_eq!(
        power_status_change(GfxPower::Active, GfxPower::Suspended),
        Some(GfxPower::Suspended)
    );
}

#[test]
fn a_search_that_finds_nothing_keeps_the_dgpu() {
    let mut ctrl = controller(GfxMode::Integrated);
    assert!(!ctrl.rescanned(Err(GfxError::DgpuNotFound), &AsusQuirks::none()));
    assert_eq!(ctrl.dgpu().devices().len(), 2);
    assert_eq!(ctrl.get_gfx_vendor(), GfxVendor::Nvidia);
    let amd = Device::new(
        "/sys/devices/0000:03:00.0".to_string(),
        None,
        GfxVendor::Amd,
        true,
        "0000:03:00.0".to_string(),
        "1002:73FF".to_string(),
    );
    assert!(ctrl.rescanned(Ok(vec![amd]), &AsusQuirks::none()));
    assert_eq!(ctrl.dgpu().devices().len(), 1);
    assert_eq!(ctrl.get_gfx_vendor(), GfxVendor::Amd);
    assert_eq!(
        ctrl.dgpu().runtime_status_path(),
        Some("/sys/devices/0000:03:00.0/power/runtime_status".to_string())
    );
    assert_eq!(ctrl.get_gfx_mode(), GfxMode::Integrated);
}

#[test]
fn only_plans_that_wait_for_a_logout_run_in_the_background() {
    let logout = ModeChange { action: GfxRequiredUserAction::Logout, ticket: Some(3) };
    assert!(logout.runs_in_background());
    let live = ModeChange { action: GfxRequiredUserAction::Nothing, ticket: Some(3) };
    assert!(!live.runs_in_background());
    let reboot = ModeChange { action: GfxRequiredUserAction::Reboot, ticket: Some(3) };
    assert!(!reboot.runs_in_background());
    let message = ModeChange { action: GfxRequiredUserAction::Logout, ticket: None };
    assert!(!message.runs_in_background());
}

#[test]
fn every_plan_ends_with_runtime_pm_auto() {
    let auto = vec![
        PlatformOp::SetRuntimePm { device: 0, state: RuntimePowerManagement::Auto },
        PlatformOp::SetRuntimePm { device: 1, state: RuntimePowerManagement::Auto },
    ];
    let none = AsusQuirks::none();

    // at the start of the machine
    let mut ctrl = controller(GfxMode::Hybrid);
    let plan = ctrl.reload(&plain_cmdline(), &none).unwrap().unwrap();
    let last;
    loop {
        let step = ctrl.next_step(plan.ticket);
        let ops = ctrl.step_operations(plan.ticket, &none).unwrap();
        match ctrl.step_succeeded(plan.ticket) {
            Progress::Continue => {}
            Progress::Completed(mode) => {
                assert_eq!(step, PlanStep::SetRuntimePm);
                assert_eq!(mode, GfxMode::Hybrid);
                last = ops;
                break;
            }
            Progress::Superseded => panic!("the plan is the only one"),
        }
    }
    assert_eq!(last, auto);

    // after a change of mode
    let mut settings = config(GfxMode::Integrated);
    settings.vfio_enable = true;
    let mut ctrl = CtrlGraphics::new(settings, nvidia_gpu());
    ctrl.set_gfx_mode(GfxMode::Vfio, &none, &plain_cmdline()).unwrap();
    assert_eq!(
        ctrl.step_operations(0, &none),
        Ok(vec![PlatformOp::WriteModprobeConf { mode: GfxMode::Vfio }])
    );
    assert_eq!(ctrl.step_succeeded(0), Progress::Continue);
    assert_eq!(
        ctrl.step_operations(0, &none),
        Ok(vec![PlatformOp::Driver { action: DriverAction::Load, driver: "vfio-pci" }])
    );
    assert_eq!(ctrl.step_succeeded(0), Progress::Continue);
    assert_eq!(ctrl.next_step(0), PlanStep::SetRuntimePm);
    assert_eq!(ctrl.step_operations(0, &none), Ok(auto));
    assert_eq!(ctrl.step_succeeded(0), Progress::Completed(GfxMode::Vfio));
    assert_eq!(ctrl.step_operations(0, &none), Ok(vec![]));
}

#[test]
fn stages_are_carried_out_for_the_mode_of_the_plan() {
    // the firmware forces another mode than the saved one
    let forced = AsusQuirks { egpu_enable: Some(true), ..AsusQuirks::none() };
    let mut ctrl = controller(GfxMode::Hybrid);
    let plan = ctrl.reload(&plain_cmdline(), &forced).unwrap().unwrap();
    assert_eq!(plan.mode, GfxMode::AsusEgpu);
    assert_eq!(ctrl.config().mode, GfxMode::AsusEgpu);
    assert_eq!(
        ctrl.step_operations(plan.ticket, &forced),
        Ok(vec![PlatformOp::WriteModprobeConf { mode: GfxMode::AsusEgpu }])
    );
    // a stale ticket has nothing to do
    assert_eq!(ctrl.step_operations(plan.ticket + 1, &forced), Ok(vec![]));
    // a stage that cannot run says why
    assert_eq!(ctrl.step_succeeded(plan.ticket), Progress::Continue);
    assert_eq!(ctrl.next_step(plan.ticket), PlanStep::Perform(StagedAction::AsusEgpuEnable));
    assert_eq!(
        ctrl.step_operations(plan.ticket, &AsusQuirks::none()),
        Err(GfxError::NotSupported("egpu_enable is not available".to_string()))
    );
    assert_eq!(ctrl.step_operations(plan.ticket, &forced), Ok(vec![]));
}

#[test]
fn runtime_pm_without_a_known_dgpu() {
    let unknown = DiscreetGpu::new(
        Ok(vec![Device::new(
            "/sys/devices/0000:01:00.1".to_string(),
            None,
            GfxVendor::Nvidia,
            false,
            "0000:01:00.1".to_string(),
            "10DE:228E".to_string(),
        )]),
        &AsusQuirks::none(),
    );
    let quirks = AsusQuirks { dgpu_disable: Some(false), ..AsusQuirks::none() };
    let mut ctrl = CtrlGraphics::new(config(GfxMode::Unset), unknown);
    let plan = ctrl.reload(&plain_cmdline(), &quirks).unwrap().unwrap();
    assert_eq!(plan.mode, GfxMode::Unset);
    assert_eq!(ctrl.next_step(plan.ticket), PlanStep::SetRuntimePm);
    assert_eq!(
        ctrl.step_operations(plan.ticket, &quirks),
        Err(GfxError::NotSupported("set_runtime_pm: Could not find dGPU".to_string()))
    );
}
