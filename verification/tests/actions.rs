use supergfxctl::action_order::verify_action_order;
use supergfxctl::actions::{Action, StagedAction};
use supergfxctl::config::GfxConfig;
use supergfxctl::error::GfxError;
use supergfxctl::gfx_vendors::{GfxMode, GfxRequiredUserAction, GfxVendor};
use supergfxctl::pci_device::HotplugType;

fn base_config(mode: GfxMode) -> GfxConfig {
    GfxConfig {
        config_path: Default::default(),
        mode,
        tmp_mode: None,
        pending_mode: None,
        pending_action: None,
        vfio_enable: false,
        vfio_save: false,
        compute_save: false,
        always_reboot: false,
        no_logind: false,
        logout_timeout_s: 10,
        hotplug_type: HotplugType::NoHotplug,
    }
}

#[test]
fn verify_hybrid_to_integrated_action_order() {
    let mut config = GfxConfig {
        config_path: Default::default(),
        mode: GfxMode::Hybrid,
        tmp_mode: None,
        pending_mode: None,
        pending_action: None,
        vfio_enable: false,
        vfio_save: false,
        compute_save: false,
        always_reboot: false,
        no_logind: false,
        logout_timeout_s: 10,
        hotplug_type: HotplugType::NoHotplug,
    };

    let actions = StagedAction::action_list_for_switch(
        &config,
        GfxVendor::Nvidia,
        GfxMode::Hybrid,
        GfxMode::Integrated,
    );

    match actions {
        Action::UserAction(_) => panic!("Should be a list of actions"),
        Action::StagedActions(actions) => {
            let mut previous_action = StagedAction::Nothing;
            for action in actions {
                action
                    .verify_previous_action_for_current(previous_action)
                    .map_err(|e| {
                        println!("Action thread errored: {}", e.message());
                    })
                    .unwrap();
                previous_action = action;
            }
        }
    }

    config.no_logind = true;
    let actions = StagedAction::action_list_for_switch(
        &config,
        GfxVendor::Nvidia,
        GfxMode::Hybrid,
        GfxMode::Integrated,
    );

    match actions {
        Action::UserAction(_) => panic!("Should be a list of actions"),
        Action::StagedActions(actions) => {
            let mut previous_action = StagedAction::Nothing;
            for action in actions {
                action
                    .verify_previous_action_for_current(previous_action)
                    .map_err(|e| {
                        println!("Action thread errored: {}", e.message());
                    })
                    .unwrap();
                previous_action = action;
            }
        }
    }
}

#[test]
fn verify_integrated_to_hybrid_action_order() {
    let mut config = GfxConfig {
        config_path: Default::default(),
        mode: GfxMode::Integrated,
        tmp_mode: None,
        pending_mode: None,
        pending_action: None,
        vfio_enable: false,
        vfio_save: false,
        compute_save: false,
        always_reboot: false,
        no_logind: false,
        logout_timeout_s: 10,
        hotplug_type: HotplugType::NoHotplug,
    };

    let actions = StagedAction::action_list_for_switch(
        &config,
        GfxVendor::Nvidia,
        GfxMode::Integrated,
        GfxMode::Hybrid,
    );

    match actions {
        Action::UserAction(_) => panic!("Should be a list of actions"),
        Action::StagedActions(actions) => {
            let mut previous_action = StagedAction::Nothing;
            for action in actions {
                action
                    .verify_previous_action_for_current(previous_action)
                    .map_err(|e| {
                        println!("Action thread errored: {}", e.message());
                    })
                    .unwrap();
                previous_action = action;
            }
        }
    }

    config.no_logind = true;
    let actions = StagedAction::action_list_for_switch(
        &config,
        GfxVendor::Nvidia,
        GfxMode::Integrated,
        GfxMode::Hybrid,
    );

    match actions {
        Action::UserAction(_) => panic!("Should be a list of actions"),
        Action::StagedActions(actions) => {
            let mut previous_action = StagedAction::Nothing;
            for action in actions {
                action
                    .verify_previous_action_for_current(previous_action)
                    .map_err(|e| {
                        println!("Action thread errored: {}", e.message());
                    })
                    .unwrap();
                previous_action = action;
            }
        }
    }
}

#[test]
fn verify_all_previous() {
    let modes = [
        GfxMode::Hybrid,
        GfxMode::Integrated,
        GfxMode::NvidiaNoModeset,
        GfxMode::Vfio,
        GfxMode::AsusEgpu,
        GfxMode::AsusMuxDgpu,
        GfxMode::Unset,
    ];

    let mut config = GfxConfig {
        config_path: Default::default(),
        mode: GfxMode::Hybrid,
        tmp_mode: None,
        pending_mode: None,
        pending_action: None,
        vfio_enable: false,
        vfio_save: false,
        compute_save: false,
        always_reboot: false,
        no_logind: false,
        logout_timeout_s: 10,
        hotplug_type: HotplugType::NoHotplug,
    };

    let run = |config: &GfxConfig| {
        for from in modes {
            for to in modes {
                for vendor in [GfxVendor::Nvidia, GfxVendor::Amd] {
                    if vendor == GfxVendor::Amd && from == GfxMode::NvidiaNoModeset
                        || from == GfxMode::AsusEgpu
                        || from == GfxMode::AsusMuxDgpu
                        || to == GfxMode::NvidiaNoModeset
                        || to == GfxMode::AsusEgpu
                        || to == GfxMode::AsusMuxDgpu
                    {
                        continue;
                    }

                    let actions = StagedAction::action_list_for_switch(config, vendor, from, to);
                    match actions {
                        Action::UserAction(_) => {} //panic!("Should be a list of actions"),
                        Action::StagedActions(actions) => {
                            let mut previous_action = StagedAction::Nothing;
                            for action in actions {
                                action
                                    .verify_previous_action_for_current(previous_action)
                                    .map_err(|e| {
                                        println!(
                                            "Action thread errored: from:{}, to:{}, {}",
                                            <&str>::from(from),
                                            <&str>::from(to),
                                            e.message()
                                        );
                                    })
                                    .unwrap();
                                previous_action = action;
                            }
                        }
                    }
                }
            }
        }
    };

    run(&config);
    config.hotplug_type = HotplugType::Asus;
    run(&config);
    config.hotplug_type = HotplugType::Std;
    run(&config);

    config.no_logind = true;
    config.hotplug_type = HotplugType::NoHotplug;
    run(&config);
    config.hotplug_type = HotplugType::Asus;
    run(&config);
    config.hotplug_type = HotplugType::Std;
    run(&config);
}

#[test]
fn verify_all_next() {
    let modes = [
        GfxMode::Hybrid,
        GfxMode::Integrated,
        GfxMode::NvidiaNoModeset,
        GfxMode::Vfio,
        GfxMode::AsusEgpu,
        GfxMode::AsusMuxDgpu,
        GfxMode::Unset,
    ];

    let mut config = GfxConfig {
        config_path: Default::default(),
        mode: GfxMode::Hybrid,
        tmp_mode: None,
        pending_mode: None,
        pending_action: None,
        vfio_enable: false,
        vfio_save: false,
        compute_save: false,
        always_reboot: false,
        no_logind: false,
        logout_timeout_s: 10,
        hotplug_type: HotplugType::NoHotplug,
    };

    let run = |config: &GfxConfig| {
        for from in modes {
            for to in modes {
                for vendor in [GfxVendor::Nvidia, GfxVendor::Amd] {
                    if vendor == GfxVendor::Amd && from == GfxMode::NvidiaNoModeset
                        || from == GfxMode::AsusEgpu
                        || from == GfxMode::AsusMuxDgpu
                        || to == GfxMode::NvidiaNoModeset
                        || to == GfxMode::AsusEgpu
                        || to == GfxMode::AsusMuxDgpu
                    {
                        continue;
                    }

                    let actions = StagedAction::action_list_for_switch(config, vendor, from, to);
                    match actions {
                        Action::UserAction(_) => {} //panic!("Should be a list of actions"),
                        Action::StagedActions(actions) => {
                            let mut previous_action = StagedAction::Nothing;
                            for action in actions {
                                previous_action
                                    .verify_next_allowed_action(action)
                                    .map_err(|e| {
                                        println!(
                                            "Action thread errored: from:{}, to:{}, {}",
                                            <&str>::from(from),
                                            <&str>::from(to),
                                            e.message()
                                        );
                                    })
                                    .unwrap();
                                previous_action = action;
                            }
                        }
                    }
                }
            }
        }
    };

    run(&config);
    config.hotplug_type = HotplugType::Asus;
    run(&config);
    config.hotplug_type = HotplugType::Std;
    run(&config);

    config.no_logind = true;
    config.hotplug_type = HotplugType::NoHotplug;
    run(&config);
    config.hotplug_type = HotplugType::Asus;
    run(&config);
    config.hotplug_type = HotplugType::Std;
    run(&config);
}

const ALL_MODES: [GfxMode; 8] = [
    GfxMode::Hybrid,
    GfxMode::Integrated,
    GfxMode::NvidiaNoModeset,
    GfxMode::Compute,
    GfxMode::Vfio,
    GfxMode::AsusEgpu,
    GfxMode::AsusMuxDgpu,
    GfxMode::Unset,
];

const ALL_VENDORS: [GfxVendor; 5] = [
    GfxVendor::Nvidia,
    GfxVendor::Amd,
    GfxVendor::Intel,
    GfxVendor::Unknown,
    GfxVendor::AsusDgpuDisabled,
];

const ALL_HOTPLUG: [HotplugType; 3] = [HotplugType::Std, HotplugType::Asus, HotplugType::NoHotplug];

#[test]
fn every_switch_plan_is_in_legal_order() {
    let mut plans = 0;
    for no_logind in [false, true] {
        for hotplug_type in ALL_HOTPLUG {
            let mut config = base_config(GfxMode::Hybrid);
            config.no_logind = no_logind;
            config.hotplug_type = hotplug_type;
            for vendor in ALL_VENDORS {
                for from in ALL_MODES {
                    for to in ALL_MODES {
                        match StagedAction::action_list_for_switch(&config, vendor, from, to) {
                            Action::UserAction(_) => {}
                            Action::StagedActions(list) => {
                                plans += 1;
                                assert!(!list.is_empty());
                                assert_eq!(verify_action_order(&list), Ok(()));
                                let mut previous = StagedAction::Nothing;
                                for action in list {
                                    assert_eq!(
                                        action.verify_previous_action_for_current(previous),
                                        Ok(())
                                    );
                                    assert_eq!(previous.verify_next_allowed_action(action), Ok(()));
                                    previous = action;
                                }
                            }
                        }
                    }
                }
            }
        }
    }
    assert!(plans > 0);
}

#[test]
fn every_boot_plan_is_in_legal_order() {
    for hotplug_type in ALL_HOTPLUG {
        let mut config = base_config(GfxMode::Hybrid);
        config.hotplug_type = hotplug_type;
        for vendor in ALL_VENDORS {
            for mode in ALL_MODES {
                let list = StagedAction::action_list_for_boot(&config, vendor, mode);
                assert_eq!(verify_action_order(&list), Ok(()));
                assert!(!list.contains(&StagedAction::WaitLogout));
                assert!(!list.contains(&StagedAction::StopDisplayManager));
                assert!(!list.contains(&StagedAction::StartDisplayManager));
            }
        }
    }
}

#[test]
fn hybrid_to_integrated_on_nvidia_needs_logout() {
    let mut config = base_config(GfxMode::Hybrid);
    config.hotplug_type = HotplugType::Std;
    assert_eq!(
        GfxRequiredUserAction::mode_change_action(GfxMode::Integrated, GfxMode::Hybrid),
        GfxRequiredUserAction::Logout
    );
    let plan = StagedAction::action_list_for_switch(
        &config,
        GfxVendor::Nvidia,
        GfxMode::Hybrid,
        GfxMode::Integrated,
    );
    assert_eq!(
        plan,
        Action::StagedActions(vec![
            StagedAction::WaitLogout,
            StagedAction::StopDisplayManager,
            StagedAction::DisableNvidiaPowerd,
            StagedAction::KillNvidia,
            StagedAction::UnloadGpuDrivers,
            StagedAction::UnbindRemoveGpu,
            StagedAction::WriteModprobeConf,
            StagedAction::HotplugUnplug,
            StagedAction::StartDisplayManager,
        ])
    );
}

#[test]
fn hybrid_to_integrated_without_logind_uses_markers() {
    let mut config = base_config(GfxMode::Hybrid);
    config.no_logind = true;
    config.hotplug_type = HotplugType::Asus;
    let plan = StagedAction::action_list_for_switch(
        &config,
        GfxVendor::Amd,
        GfxMode::Hybrid,
        GfxMode::Integrated,
    );
    assert_eq!(
        plan,
        Action::StagedActions(vec![
            StagedAction::NoLogind,
            StagedAction::NoLogind,
            StagedAction::NotNvidia,
            StagedAction::KillAmd,
            StagedAction::UnloadGpuDrivers,
            StagedAction::UnbindRemoveGpu,
            StagedAction::WriteModprobeConf,
            StagedAction::AsusDgpuDisable,
            StagedAction::NoLogind,
        ])
    );
}

#[test]
fn integrated_to_hybrid_brings_the_dgpu_up() {
    let config = base_config(GfxMode::Integrated);
    let plan = StagedAction::action_list_for_switch(
        &config,
        GfxVendor::Nvidia,
        GfxMode::Integrated,
        GfxMode::Hybrid,
    );
    assert_eq!(
        plan,
        Action::StagedActions(vec![
            StagedAction::WaitLogout,
            StagedAction::StopDisplayManager,
            StagedAction::WriteModprobeConf,
            StagedAction::DevTreeManaged,
            StagedAction::RescanPci,
            StagedAction::LoadGpuDrivers,
            StagedAction::EnableNvidiaPowerd,
            StagedAction::StartDisplayManager,
        ])
    );
}

#[test]
fn integrated_to_vfio_runs_at_once() {
    let mut config = base_config(GfxMode::Integrated);
    config.vfio_enable = true;
    assert_eq!(
        GfxRequiredUserAction::mode_change_action(GfxMode::Vfio, GfxMode::Integrated),
        GfxRequiredUserAction::Nothing
    );
    let plan = StagedAction::action_list_for_switch(
        &config,
        GfxVendor::Nvidia,
        GfxMode::Integrated,
        GfxMode::Vfio,
    );
    match plan {
        Action::UserAction(_) => panic!("Should be a list of actions"),
        Action::StagedActions(list) => {
            assert_eq!(
                list,
                vec![StagedAction::WriteModprobeConf, StagedAction::LoadVfioDrivers]
            );
            assert!(!list.contains(&StagedAction::StopDisplayManager));
            assert!(!list.contains(&StagedAction::WaitLogout));
        }
    }
}

#[test]
fn vfio_to_integrated_unloads_vfio_first() {
    let mut config = base_config(GfxMode::Integrated);
    config.hotplug_type = HotplugType::Std;
    let plan =
        StagedAction::action_list_for_switch(&config, GfxVendor::Nvidia, GfxMode::Vfio, GfxMode::Integrated);
    assert_eq!(
        plan,
        Action::StagedActions(vec![
            StagedAction::DisableNvidiaPowerd,
            StagedAction::KillNvidia,
            StagedAction::UnloadVfioDrivers,
            StagedAction::UnbindRemoveGpu,
            StagedAction::WriteModprobeConf,
            StagedAction::HotplugUnplug,
        ])
    );
}

#[test]
fn leaving_the_egpu_switches_it_off() {
    let config = base_config(GfxMode::AsusEgpu);
    let plan =
        StagedAction::action_list_for_switch(&config, GfxVendor::Nvidia, GfxMode::AsusEgpu, GfxMode::Hybrid);
    assert_eq!(
        plan,
        Action::StagedActions(vec![
            StagedAction::WaitLogout,
            StagedAction::StopDisplayManager,
            StagedAction::DisableNvidiaPowerd,
            StagedAction::KillNvidia,
            StagedAction::UnloadGpuDrivers,
            StagedAction::UnbindRemoveGpu,
            StagedAction::WriteModprobeConf,
            StagedAction::AsusEgpuDisable,
            StagedAction::RescanPci,
            StagedAction::LoadGpuDrivers,
            StagedAction::EnableNvidiaPowerd,
            StagedAction::StartDisplayManager,
        ])
    );
}

#[test]
fn turning_the_mux_takes_a_logout() {
    let mut config = base_config(GfxMode::Hybrid);
    assert_eq!(
        StagedAction::action_list_for_switch(
            &config,
            GfxVendor::Nvidia,
            GfxMode::Hybrid,
            GfxMode::AsusMuxDgpu
        ),
        Action::StagedActions(vec![
            StagedAction::WaitLogout,
            StagedAction::StopDisplayManager,
            StagedAction::DisableNvidiaPowerd,
            StagedAction::KillNvidia,
            StagedAction::UnloadGpuDrivers,
            StagedAction::WriteModprobeConf,
            StagedAction::DevTreeManaged,
            StagedAction::RescanPci,
            StagedAction::LoadGpuDrivers,
            StagedAction::EnableNvidiaPowerd,
            StagedAction::AsusMuxDgpu,
            StagedAction::StartDisplayManager,
        ])
    );
    config.no_logind = true;
    config.hotplug_type = HotplugType::Asus;
    assert_eq!(
        StagedAction::action_list_for_switch(
            &config,
            GfxVendor::AsusDgpuDisabled,
            GfxMode::Integrated,
            GfxMode::AsusMuxDgpu
        ),
        Action::StagedActions(vec![
            StagedAction::NoLogind,
            StagedAction::NoLogind,
            StagedAction::WriteModprobeConf,
            StagedAction::AsusDgpuEnable,
            StagedAction::RescanPci,
            StagedAction::LoadGpuDrivers,
            StagedAction::NotNvidia,
            StagedAction::AsusMuxDgpu,
            StagedAction::NoLogind,
        ])
    );
}

#[test]
fn leaving_the_mux_mode_takes_a_logout() {
    let config = base_config(GfxMode::AsusMuxDgpu);
    assert_eq!(
        StagedAction::action_list_for_switch(
            &config,
            GfxVendor::Amd,
            GfxMode::AsusMuxDgpu,
            GfxMode::Integrated
        ),
        Action::StagedActions(vec![
            StagedAction::WaitLogout,
            StagedAction::StopDisplayManager,
            StagedAction::NotNvidia,
            StagedAction::KillAmd,
            StagedAction::UnloadGpuDrivers,
            StagedAction::UnbindRemoveGpu,
            StagedAction::WriteModprobeConf,
            StagedAction::DevTreeManaged,
            StagedAction::StartDisplayManager,
        ])
    );
    assert_eq!(
        StagedAction::action_list_for_switch(
            &config,
            GfxVendor::Nvidia,
            GfxMode::AsusMuxDgpu,
            GfxMode::Vfio
        ),
        Action::UserAction(GfxRequiredUserAction::Integrated)
    );
}

#[test]
fn mode_change_action_table() {
    let table = [
        (GfxMode::Hybrid, GfxMode::Hybrid, GfxRequiredUserAction::Nothing),
        (GfxMode::Unset, GfxMode::Hybrid, GfxRequiredUserAction::Nothing),
        (GfxMode::Integrated, GfxMode::Vfio, GfxRequiredUserAction::Nothing),
        (GfxMode::Vfio, GfxMode::Integrated, GfxRequiredUserAction::Nothing),
        (GfxMode::Compute, GfxMode::Vfio, GfxRequiredUserAction::Nothing),
        (GfxMode::Integrated, GfxMode::Compute, GfxRequiredUserAction::Nothing),
        (GfxMode::Vfio, GfxMode::Hybrid, GfxRequiredUserAction::Integrated),
        (GfxMode::Compute, GfxMode::Hybrid, GfxRequiredUserAction::Integrated),
        (GfxMode::Vfio, GfxMode::AsusEgpu, GfxRequiredUserAction::Integrated),
        (GfxMode::Compute, GfxMode::NvidiaNoModeset, GfxRequiredUserAction::Integrated),
        (GfxMode::Vfio, GfxMode::Unset, GfxRequiredUserAction::Integrated),
        (GfxMode::Integrated, GfxMode::Hybrid, GfxRequiredUserAction::Logout),
        (GfxMode::Hybrid, GfxMode::Integrated, GfxRequiredUserAction::Logout),
        (GfxMode::Hybrid, GfxMode::Vfio, GfxRequiredUserAction::Logout),
        (GfxMode::AsusEgpu, GfxMode::Hybrid, GfxRequiredUserAction::Logout),
        (GfxMode::Hybrid, GfxMode::AsusEgpu, GfxRequiredUserAction::Logout),
        (GfxMode::NvidiaNoModeset, GfxMode::Hybrid, GfxRequiredUserAction::Logout),
        (GfxMode::AsusMuxDgpu, GfxMode::Hybrid, GfxRequiredUserAction::Logout),
        (GfxMode::AsusMuxDgpu, GfxMode::Vfio, GfxRequiredUserAction::Logout),
        (GfxMode::AsusMuxDgpu, GfxMode::Integrated, GfxRequiredUserAction::Logout),
        (GfxMode::Hybrid, GfxMode::AsusMuxDgpu, GfxRequiredUserAction::Logout),
        (GfxMode::Integrated, GfxMode::AsusMuxDgpu, GfxRequiredUserAction::Logout),
        (GfxMode::Vfio, GfxMode::AsusMuxDgpu, GfxRequiredUserAction::Integrated),
        (GfxMode::AsusMuxDgpu, GfxMode::AsusMuxDgpu, GfxRequiredUserAction::Nothing),
    ];
    for (new_mode, current_mode, expected) in table {
        assert_eq!(
            GfxRequiredUserAction::mode_change_action(new_mode, current_mode),
            expected,
            "{:?} from {:?}",
            new_mode,
            current_mode
        );
    }
}

#[test]
fn plans_that_need_no_logout_leave_the_sessions_alone() {
    for vendor in ALL_VENDORS {
        for from in ALL_MODES {
            for to in ALL_MODES {
                let config = base_config(from);
                let action = GfxRequiredUserAction::mode_change_action(to, from);
                if let Action::StagedActions(list) =
                    StagedAction::action_list_for_switch(&config, vendor, from, to)
                {
                    let bracketed = list.contains(&StagedAction::StopDisplayManager);
                    assert_eq!(bracketed, action == GfxRequiredUserAction::Logout);
                    if bracketed {
                        assert_eq!(list[0], StagedAction::WaitLogout);
                        assert_eq!(list[1], StagedAction::StopDisplayManager);
                        assert_eq!(list[list.len() - 1], StagedAction::StartDisplayManager);
                    }
                }
            }
        }
    }
}

#[test]
fn order_check_names_the_first_offender() {
    let list = vec![
        StagedAction::WriteModprobeConf,
        StagedAction::RescanPci,
        StagedAction::UnbindRemoveGpu,
        StagedAction::LoadGpuDrivers,
    ];
    assert_eq!(
        verify_action_order(&list),
        Err(GfxError::IncorrectActionOrder(
            StagedAction::UnbindRemoveGpu,
            StagedAction::RescanPci
        ))
    );
    assert_eq!(
        verify_action_order(&vec![StagedAction::LoadGpuDrivers]),
        Err(GfxError::IncorrectActionOrder(
            StagedAction::LoadGpuDrivers,
            StagedAction::Nothing
        ))
    );
    assert_eq!(verify_action_order(&Vec::new()), Ok(()));
}

#[test]
fn the_mux_may_be_turned_before_the_bracket_closes() {
    for closing in [StagedAction::StartDisplayManager, StagedAction::NoLogind] {
        assert_eq!(
            closing.verify_previous_action_for_current(StagedAction::AsusMuxDgpu),
            Ok(())
        );
        assert_eq!(StagedAction::AsusMuxDgpu.verify_next_allowed_action(closing), Ok(()));
    }
    assert_eq!(
        StagedAction::NotNvidia.verify_next_allowed_action(StagedAction::AsusMuxDgpu),
        Ok(())
    );
    assert_eq!(
        StagedAction::AsusMuxDgpu.verify_next_allowed_action(StagedAction::RescanPci),
        Err(GfxError::IncorrectActionOrder(
            StagedAction::RescanPci,
            StagedAction::AsusMuxDgpu
        ))
    );
    assert_eq!(
        StagedAction::AsusMuxIgpu.verify_next_allowed_action(StagedAction::StartDisplayManager),
        Err(GfxError::IncorrectActionOrder(
            StagedAction::StartDisplayManager,
            StagedAction::AsusMuxIgpu
        ))
    );
}

#[test]
fn tables_disagree_where_only_one_allows() {
    // the table of predecessors alone would let the start of the display
    // manager follow anything
    assert_eq!(
        StagedAction::StartDisplayManager
            .verify_previous_action_for_current(StagedAction::RescanPci),
        Ok(())
    );
    assert_eq!(
        StagedAction::RescanPci.verify_next_allowed_action(StagedAction::StartDisplayManager),
        Err(GfxError::IncorrectActionOrder(
            StagedAction::StartDisplayManager,
            StagedAction::RescanPci
        ))
    );
    assert_eq!(
        StagedAction::StopDisplayManager
            .verify_previous_action_for_current(StagedAction::Nothing),
        Err(GfxError::IncorrectActionOrder(
            StagedAction::StopDisplayManager,
            StagedAction::Nothing
        ))
    );
}
