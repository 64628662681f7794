use vstd::prelude::*;
use vstd::string::*;

use crate::action_order::{lemma_boot_order_legal, lemma_switch_order_legal, order_legal};
use crate::actions::{Action, ActionView, StagedAction};
use crate::config::{GfxConfig, GfxConfigDbus};
use crate::error::{GfxError, GfxErrorView};
use crate::gfx_vendors::{GfxMode, GfxPower, GfxRequiredUserAction, GfxVendor};
use crate::pci_device::{
    device_views, spec_dgpu_of, spec_set_runtime_pm, Device, DiscreetGpu, DiscreetGpuView,
    HotplugType, RuntimePowerManagement,
};
use crate::special_asus::{
    asus_boot_safety_check, asus_dgpu_set_disabled, spec_boot_enables_dgpu, spec_boot_safe_mode,
    spec_toggle_ops, AsusQuirks,
};
use crate::system::{KernelCmdline, PlatformOp, SysFile};

verus! {

/// The answer to a request for a mode.
#[derive(Debug, Clone, Copy, PartialEq, Eq)]
pub struct ModeChange {
    /// What the user has to do
    pub action: GfxRequiredUserAction,
    /// The ticket of the plan that was started, if one was. With a logout
    /// asked for the plan is to run in the background, else at once.
    pub ticket: Option<u64>,
}

impl ModeChange {
    /// Does the plan that was started have to run in the background? It
    /// has to where it waits for the user to log out; every other plan runs
    /// at once.
    pub open spec fn spec_runs_in_background(&self) -> bool {
        self.ticket.is_some() && self.action == GfxRequiredUserAction::Logout
    }

    #[verifier::when_used_as_spec(spec_runs_in_background)]
    pub fn runs_in_background(&self) -> (res: bool)
        ensures
            res == self.spec_runs_in_background(),
    {
        self.ticket.is_some() && self.action == GfxRequiredUserAction::Logout
    }
}

/// The plan for the start of the machine.
#[derive(Debug, Clone, PartialEq, Eq)]
pub struct BootPlan {
    /// The ticket of the plan
    pub ticket: u64,
    /// The mode that the plan sets up
    pub mode: GfxMode,
    /// What has to be done to the firmware's toggles before the first stage
    pub corrections: Vec<PlatformOp>,
}

pub struct BootPlanView {
    pub ticket: u64,
    pub mode: GfxMode,
    pub corrections: Seq<PlatformOp>,
}

impl View for BootPlan {
    type V = BootPlanView;

    open spec fn view(&self) -> BootPlanView {
        BootPlanView { ticket: self.ticket, mode: self.mode, corrections: self.corrections@ }
    }
}

/// What the holder of a ticket has to do next.
#[derive(Debug, Clone, Copy, PartialEq, Eq, Structural)]
pub enum PlanStep {
    /// Nothing, ever again: the ticket is of no plan that is in flight
    Superseded,
    /// Carry out this stage, then report how it went
    Perform(StagedAction),
    /// Every stage is done: give the dGPU back to the kernel's runtime
    /// power management, then report how it went
    SetRuntimePm,
}

/// How far a plan has come with the step that was reported.
#[derive(Debug, Clone, Copy, PartialEq, Eq, Structural)]
pub enum Progress {
    /// The ticket is of no plan that is in flight; nothing was recorded
    Superseded,
    /// There is a next step
    Continue,
    /// The plan is complete and this mode is in effect
    Completed(GfxMode),
}

/// A change of mode that is being carried out.
#[derive(Debug)]
struct RunningChange {
    ticket: u64,
    mode: GfxMode,
    action: GfxRequiredUserAction,
    stages: Vec<StagedAction>,
    done: usize,
}

pub struct RunningChangeView {
    pub ticket: u64,
    /// The mode that the plan leads to
    pub mode: GfxMode,
    /// What was asked of the user
    pub action: GfxRequiredUserAction,
    pub stages: Seq<StagedAction>,
    /// How many stages are done
    pub done: int,
}

#[derive(Debug)]
struct CtrlState {
    config: GfxConfig,
    change: Option<RunningChange>,
    started: u64,
}

/// The controller: it owns the settings and the dGPU, answers requests for
/// a mode and keeps track of the one plan that may be in flight.
#[derive(Debug)]
pub struct CtrlGraphics {
    pub(crate) dgpu: DiscreetGpu,
    state: CtrlState,
}

pub struct CtrlGraphicsView {
    pub dgpu: DiscreetGpuView,
    pub config: GfxConfig,
    /// The plan in flight
    pub change: Option<RunningChangeView>,
    /// How many plans were started; the ticket of the next one
    pub started: u64,
}

/// The failure of a request for a mode that this machine does not have.
pub open spec fn spec_unsupported(mode: GfxMode, vfio_enable: bool) -> GfxErrorView {
    if mode == GfxMode::Vfio && !vfio_enable {
        GfxErrorView::VfioDisabled
    } else {
        GfxErrorView::NotSupported("The mode is not supported on this machine"@)
    }
}

/// The failure once every ticket there is was handed out.
pub open spec fn spec_out_of_tickets() -> GfxErrorView {
    GfxErrorView::NotSupported("Too many mode changes since the daemon started"@)
}

impl CtrlGraphicsView {
    /// What holds of every controller. The dGPU is well formed. A plan in
    /// flight has a ticket that was handed out, is in legal order, and is
    /// what the settings show as pending; without one nothing is pending.
    pub open spec fn wf(self) -> bool {
        &&& self.dgpu.wf()
        &&& match self.change {
            Some(c) => {
                &&& c.ticket < self.started
                &&& 0 <= c.done <= c.stages.len()
                &&& order_legal(c.stages)
                &&& self.config.pending_mode == Some(c.mode)
                &&& self.config.pending_action == Some(c.action)
            },
            None => self.config.pending_mode.is_none() && self.config.pending_action.is_none(),
        }
    }

    /// Is `ticket` the ticket of the plan in flight?
    pub open spec fn is_current(self, ticket: u64) -> bool {
        self.change matches Some(c) && c.ticket == ticket
    }

    /// Can this machine be put in `mode`?
    ///
    /// Without a dGPU and without the toggle that may hide one, only
    /// `Integrated` is left. Else `Integrated` and `Hybrid` are always
    /// there; `Vfio` where the settings enable it; the eGPU where its toggle
    /// exists; the MUX mode where the MUX exists; Nvidia without modesetting
    /// where the kernel's command line switches modesetting off; `Compute`
    /// with a dGPU of Nvidia that the firmware has not switched off.
    pub open spec fn mode_supported(
        self,
        mode: GfxMode,
        quirks: AsusQuirks,
        cmdline: KernelCmdline,
    ) -> bool {
        let vendor = self.dgpu.vendor;
        if vendor == GfxVendor::Unknown && quirks.dgpu_disable.is_none() {
            mode == GfxMode::Integrated
        } else {
            match mode {
                GfxMode::Integrated | GfxMode::Hybrid => true,
                GfxMode::Vfio => self.config.vfio_enable,
                GfxMode::AsusEgpu => quirks.egpu_enable.is_some(),
                GfxMode::AsusMuxDgpu => quirks.gpu_mux.is_some(),
                GfxMode::NvidiaNoModeset => cmdline.nvidia_modeset == Some(false),
                GfxMode::Compute => vendor == GfxVendor::Nvidia && quirks.dgpu_disable != Some(true),
                GfxMode::Unset => false,
            }
        }
    }

    /// Can no mode be changed without a restart? So it is where the
    /// settings say so, and where the kernel's command line makes the Nvidia
    /// driver set the display modes.
    pub open spec fn requires_reboot(self, cmdline: KernelCmdline) -> bool {
        self.config.always_reboot || (cmdline.nvidia_modeset == Some(true) && self.dgpu.vendor
            == GfxVendor::Nvidia)
    }

    /// The controller with no plan in flight and nothing pending.
    pub open spec fn end(self) -> CtrlGraphicsView {
        CtrlGraphicsView { config: self.config.spec_clear_pending(), change: None, ..self }
    }

    /// The controller with a new plan in flight, which takes the place of
    /// the one that was.
    pub open spec fn begin(
        self,
        mode: GfxMode,
        action: GfxRequiredUserAction,
        stages: Seq<StagedAction>,
    ) -> CtrlGraphicsView {
        CtrlGraphicsView {
            config: self.config.spec_set_pending(mode, action),
            change: Some(
                RunningChangeView { ticket: self.started, mode, action, stages, done: 0 },
            ),
            started: (self.started + 1) as u64,
            ..self
        }
    }

    /// What a request for `mode` comes to, and how it leaves the controller.
    ///
    /// A request that is refused changes nothing. Every other request ends
    /// the plan in flight, whatever its answer is: the last request wins.
    ///
    /// 1. A mode that the machine does not have is refused.
    /// 2. While the MUX wires the display to the dGPU no mode is set up, and
    ///    the user is told to set the MUX back.
    /// 3. Where no mode can be changed without a restart, the mode is saved
    ///    for the next start if it may be saved, and the user is told to
    ///    restart.
    /// 4. Else the plan for the way from the mode in effect to `mode` is
    ///    made. Where it is only a message, that is the answer. Where it has
    ///    stages, it is started under the next ticket; where the tickets have
    ///    run out the request is refused.
    pub open spec fn set_gfx_mode(
        self,
        mode: GfxMode,
        quirks: AsusQuirks,
        cmdline: KernelCmdline,
    ) -> (CtrlGraphicsView, Result<ModeChange, GfxErrorView>) {
        let from = self.config.spec_current_mode();
        if !self.mode_supported(mode, quirks, cmdline) {
            (self, Err(spec_unsupported(mode, self.config.vfio_enable)))
        } else if quirks.spec_mux_is_discreet() {
            (
                self.end(),
                Ok(ModeChange { action: GfxRequiredUserAction::AsusGpuMuxDisable, ticket: None }),
            )
        } else if self.requires_reboot(cmdline) {
            (
                CtrlGraphicsView {
                    config: self.config.spec_clear_pending().spec_save_for_boot(mode),
                    change: None,
                    ..self
                },
                Ok(ModeChange { action: GfxRequiredUserAction::Reboot, ticket: None }),
            )
        } else {
            match StagedAction::spec_action_list_for_switch(
                self.config,
                self.dgpu.vendor,
                from,
                mode,
            ) {
                ActionView::UserAction(action) => (
                    self.end(),
                    Ok(ModeChange { action, ticket: None }),
                ),
                ActionView::StagedActions(stages) => if self.started == u64::MAX {
                    (self, Err(spec_out_of_tickets()))
                } else {
                    let action = GfxRequiredUserAction::spec_mode_change_action(mode, from);
                    (
                        self.begin(mode, action, stages),
                        Ok(ModeChange { action, ticket: Some(self.started) }),
                    )
                },
            }
        }
    }

    /// What the holder of `ticket` has to do next.
    pub open spec fn next_step(self, ticket: u64) -> PlanStep {
        match self.change {
            Some(c) => if c.ticket != ticket {
                PlanStep::Superseded
            } else if c.done < c.stages.len() {
                PlanStep::Perform(c.stages[c.done])
            } else {
                PlanStep::SetRuntimePm
            },
            None => PlanStep::Superseded,
        }
    }

    /// What the step of the holder of `ticket` consists of, as primitive
    /// operations in the order they are to be carried out, or why the step
    /// cannot run. `quirks` is what the firmware's toggles read just before.
    ///
    /// A stage of the plan consists of what the stage asks for on the way to
    /// the mode of the plan. The step after the last stage gives every
    /// function of the dGPU back to the kernel's runtime power management.
    /// The holder of a ticket that is not current has nothing to do.
    pub open spec fn step_operations(self, ticket: u64, quirks: AsusQuirks) -> Result<
        Seq<PlatformOp>,
        GfxErrorView,
    > {
        match self.next_step(ticket) {
            PlanStep::Superseded => Ok(Seq::empty()),
            PlanStep::Perform(stage) => stage.spec_operations(
                self.change->0.mode,
                self.dgpu,
                self.config,
                quirks,
            ),
            PlanStep::SetRuntimePm => spec_set_runtime_pm(self.dgpu, RuntimePowerManagement::Auto),
        }
    }

    /// The controller after the holder of `ticket` has reported that the
    /// step it was given went well. With the last step the mode of the plan
    /// is in effect: it is recorded, and nothing is pending any more.
    pub open spec fn step_succeeded(self, ticket: u64) -> (CtrlGraphicsView, Progress) {
        match self.change {
            Some(c) => if c.ticket != ticket {
                (self, Progress::Superseded)
            } else if c.done < c.stages.len() {
                (
                    CtrlGraphicsView {
                        change: Some(RunningChangeView { done: c.done + 1, ..c }),
                        ..self
                    },
                    Progress::Continue,
                )
            } else {
                (
                    CtrlGraphicsView {
                        config: self.config.spec_clear_pending().spec_record_mode(c.mode),
                        change: None,
                        ..self
                    },
                    Progress::Completed(c.mode),
                )
            },
            None => (self, Progress::Superseded),
        }
    }

    /// The controller after the holder of `ticket` has reported that its
    /// step failed: the rest of the plan is dropped, the mode stays as it
    /// was and nothing is pending any more.
    pub open spec fn step_failed(self, ticket: u64) -> CtrlGraphicsView {
        if self.is_current(ticket) {
            self.end()
        } else {
            self
        }
    }

    /// The mode to start the machine in: the one that the kernel's command
    /// line names, else the one in effect.
    pub open spec fn boot_mode(self, cmdline: KernelCmdline) -> GfxMode {
        match cmdline.mode {
            Some(mode) => mode,
            None => self.config.spec_current_mode(),
        }
    }

    /// What the start of the machine comes to.
    ///
    /// A mode from the kernel's command line is saved if it may be saved.
    /// `Vfio` that the settings do not enable, and the eGPU on a machine
    /// without its toggle, are left alone: nothing runs. Else the firmware's
    /// state has the last word on the mode, and a mode that it forces is
    /// saved. The plan for that mode is started.
    pub open spec fn reload(self, cmdline: KernelCmdline, quirks: AsusQuirks) -> (
        CtrlGraphicsView,
        Result<Option<BootPlanView>, GfxErrorView>,
    ) {
        let wanted = self.boot_mode(cmdline);
        let idle = self.end();
        let config = if cmdline.mode.is_some() {
            idle.config.spec_save_for_boot(wanted)
        } else {
            idle.config
        };
        let use_dgpu_disable = config.hotplug_type == HotplugType::Asus;
        let mode = spec_boot_safe_mode(wanted, use_dgpu_disable, quirks);
        let checked = if mode != wanted {
            GfxConfig { mode, tmp_mode: None, ..config }
        } else {
            config
        };
        if (wanted == GfxMode::Vfio && !config.vfio_enable) || (wanted == GfxMode::AsusEgpu
            && quirks.egpu_enable.is_none()) {
            (CtrlGraphicsView { config, ..idle }, Ok(None))
        } else if self.started == u64::MAX {
            (CtrlGraphicsView { config, ..idle }, Err(spec_out_of_tickets()))
        } else {
            (
                (CtrlGraphicsView { config: checked, ..idle }).begin(
                    mode,
                    GfxRequiredUserAction::Nothing,
                    StagedAction::spec_action_list_for_boot(checked, self.dgpu.vendor, mode),
                ),
                Ok(
                    Some(
                        BootPlanView {
                            ticket: self.started,
                            mode,
                            corrections: if spec_boot_enables_dgpu(wanted, use_dgpu_disable, quirks) {
                                spec_toggle_ops(SysFile::AsusDgpuDisable, true, false, true)
                            } else {
                                Seq::empty()
                            },
                        },
                    ),
                ),
            )
        }
    }
}

impl CtrlGraphicsView {
    /// Every mode there is but the empty one, in the order they are listed
    /// in.
    pub open spec fn all_modes() -> Seq<GfxMode> {
        seq![
            GfxMode::Integrated,
            GfxMode::Hybrid,
            GfxMode::Vfio,
            GfxMode::AsusEgpu,
            GfxMode::AsusMuxDgpu,
            GfxMode::NvidiaNoModeset,
            GfxMode::Compute,
        ]
    }

    /// The modes that this machine can be put in.
    pub open spec fn supported_modes(self, quirks: AsusQuirks, cmdline: KernelCmdline) -> Seq<
        GfxMode,
    > {
        Self::all_modes().filter(|mode: GfxMode| self.mode_supported(mode, quirks, cmdline))
    }
}

impl View for CtrlGraphics {
    type V = CtrlGraphicsView;

    closed spec fn view(&self) -> CtrlGraphicsView {
        CtrlGraphicsView {
            dgpu: self.dgpu@,
            config: self.state.config,
            change: match self.state.change {
                Some(c) => Some(
                    RunningChangeView {
                        ticket: c.ticket,
                        mode: c.mode,
                        action: c.action,
                        stages: c.stages@,
                        done: c.done as int,
                    },
                ),
                None => None,
            },
            started: self.state.started,
        }
    }
}

impl CtrlState {
    /// A state to put in the place of the one that is being worked on.
    fn idle() -> (res: CtrlState)
        ensures
            res.change.is_none(),
            res.started == 0,
            res.config.config_path@ == Seq::<char>::empty(),
            res.config.persisted() == GfxConfig::spec_default_settings(),
            res.config.is_fresh(),
    {
        CtrlState { config: GfxConfig::new(String::new()), change: None, started: 0 }
    }
}

impl CtrlGraphics {
    #[verifier::type_invariant]
    spec fn inv(&self) -> bool {
        self@.wf()
    }

    /// A controller for the dGPU `dgpu` with the settings `config`. No plan
    /// is in flight, so nothing is pending.
    pub fn new(config: GfxConfig, dgpu: DiscreetGpu) -> (res: CtrlGraphics)
        ensures
            res@ == (CtrlGraphicsView {
                dgpu: dgpu@,
                config: config.spec_clear_pending(),
                change: None,
                started: 0,
            }),
            res@.wf(),
    {
        let _ = dgpu.vendor();
        let mut config = config;
        config.pending_mode = None;
        config.pending_action = None;
        CtrlGraphics { dgpu, state: CtrlState { config, change: None, started: 0 } }
    }

    /// The dGPU that the controller owns.
    pub fn dgpu(&self) -> (res: &DiscreetGpu)
        ensures
            res@ == self@.dgpu,
    {
        &self.dgpu
    }

    /// The settings as they are.
    pub fn config(&self) -> (res: &GfxConfig)
        ensures
            *res == self@.config,
            self@.wf(),
    {
        proof {
            use_type_invariant(self);
        }
        &self.state.config
    }

    /// Puts the dGPU that a new search has found in the place of the old
    /// one.
    pub fn refresh_devices(&mut self, dgpu: DiscreetGpu)
        ensures
            final(self)@ == (CtrlGraphicsView { dgpu: dgpu@, ..old(self)@ }),
            final(self)@.wf(),
    {
        proof {
            use_type_invariant(&*self);
        }
        let _ = dgpu.vendor();
        self.dgpu = dgpu;
    }

    /// Takes the outcome of a new search for the dGPU's functions. A search
    /// that found them gives the dGPU to go on with; after one that found
    /// none the dGPU stays as it was known, switched off as it may be. The
    /// answer says whether the dGPU was replaced.
    pub fn rescanned(&mut self, found: Result<Vec<Device>, GfxError>, quirks: &AsusQuirks) -> (res:
        bool)
        ensures
            res == found is Ok,
            found is Err ==> final(self)@ == old(self)@,
            found matches Ok(devices) ==> final(self)@ == (CtrlGraphicsView {
                dgpu: spec_dgpu_of(device_views(devices@)),
                ..old(self)@
            }),
            final(self)@.wf(),
    {
        proof {
            use_type_invariant(&*self);
        }
        match found {
            Ok(devices) => {
                self.refresh_devices(DiscreetGpu::new(Ok(devices), quirks));
                true
            },
            Err(_) => false,
        }
    }

    /// Associated method to get which mode is set
    pub fn get_gfx_mode(&self) -> (res: GfxMode)
        ensures
            res == self@.config.spec_current_mode(),
    {
        self.state.config.current_mode()
    }

    /// The mode that the plan in flight leads to; `Unset` without one.
    pub fn get_pending_mode(&self) -> (res: GfxMode)
        ensures
            res == (match self@.config.pending_mode {
                Some(mode) => mode,
                None => GfxMode::Unset,
            }),
            self@.change.is_some() <==> self@.config.pending_mode.is_some(),
    {
        proof {
            use_type_invariant(self);
        }
        match self.state.config.pending_mode {
            Some(mode) => mode,
            None => GfxMode::Unset,
        }
    }

    /// What the plan in flight asks of the user; `Nothing` without one.
    pub fn get_pending_user_action(&self) -> (res: GfxRequiredUserAction)
        ensures
            res == (match self@.config.pending_action {
                Some(action) => action,
                None => GfxRequiredUserAction::Nothing,
            }),
    {
        match self.state.config.pending_action {
            Some(action) => action,
            None => GfxRequiredUserAction::Nothing,
        }
    }

    /// Associated method to get which vendor the dgpu is from
    pub fn get_gfx_vendor(&self) -> (res: GfxVendor)
        ensures
            res == self@.dgpu.vendor,
    {
        self.dgpu.vendor()
    }

    /// Can this machine be put in `mode`?
    pub fn mode_supported(&self, mode: GfxMode, quirks: &AsusQuirks, cmdline: &KernelCmdline) -> (res:
        bool)
        ensures
            res == self@.mode_supported(mode, *quirks, *cmdline),
    {
        let vendor = self.dgpu.vendor();
        if vendor == GfxVendor::Unknown && quirks.dgpu_disable.is_none() {
            return mode == GfxMode::Integrated;
        }
        match mode {
            GfxMode::Integrated | GfxMode::Hybrid => true,
            GfxMode::Vfio => self.state.config.vfio_enable,
            GfxMode::AsusEgpu => quirks.egpu_enable.is_some(),
            GfxMode::AsusMuxDgpu => quirks.gpu_mux.is_some(),
            GfxMode::NvidiaNoModeset => match cmdline.nvidia_modeset {
                Some(on) => !on,
                None => false,
            },
            GfxMode::Compute => {
                let disabled = match quirks.dgpu_disable {
                    Some(on) => on,
                    None => false,
                };
                vendor == GfxVendor::Nvidia && !disabled
            },
            GfxMode::Unset => false,
        }
    }

    /// Refuses a mode that this machine does not have: `Vfio` that the
    /// settings do not enable with `VfioDisabled`, any other with
    /// `NotSupported`.
    pub fn mode_support_check(&self, mode: GfxMode, quirks: &AsusQuirks, cmdline: &KernelCmdline) -> (res:
        Result<(), GfxError>)
        ensures
            self@.mode_supported(mode, *quirks, *cmdline) ==> res is Ok,
            !self@.mode_supported(mode, *quirks, *cmdline) ==> (res matches Err(e) && e@
                == spec_unsupported(mode, self@.config.vfio_enable)),
    {
        if self.mode_supported(mode, quirks, cmdline) {
            Ok(())
        } else if mode == GfxMode::Vfio && !self.state.config.vfio_enable {
            Err(GfxError::VfioDisabled)
        } else {
            Err(GfxError::NotSupported(String::from_str("The mode is not supported on this machine")))
        }
    }

    /// Associated method to get list of supported modes
    pub fn get_supported_modes(&self, quirks: &AsusQuirks, cmdline: &KernelCmdline) -> (res: Vec<
        GfxMode,
    >)
        ensures
            res@ == self@.supported_modes(*quirks, *cmdline),
    {
        let mut all: Vec<GfxMode> = Vec::new();
        all.push(GfxMode::Integrated);
        all.push(GfxMode::Hybrid);
        all.push(GfxMode::Vfio);
        all.push(GfxMode::AsusEgpu);
        all.push(GfxMode::AsusMuxDgpu);
        all.push(GfxMode::NvidiaNoModeset);
        all.push(GfxMode::Compute);
        assert(all@ =~= CtrlGraphicsView::all_modes());
        let ghost supported = |mode: GfxMode| self@.mode_supported(mode, *quirks, *cmdline);
        let mut list: Vec<GfxMode> = Vec::new();
        let mut i: usize = 0;
        assert(all@.take(0).filter(supported) =~= Seq::<GfxMode>::empty()) by {
            reveal(Seq::filter);
        }
        while i < all.len()
            invariant
                0 <= i <= all.len(),
                supported == (|mode: GfxMode| self@.mode_supported(mode, *quirks, *cmdline)),
                list@ == all@.take(i as int).filter(supported),
            decreases all.len() - i,
        {
            proof {
                reveal(Seq::filter);
                assert(all@.take(i + 1).drop_last() =~= all@.take(i as int));
            }
            if self.mode_supported(all[i], quirks, cmdline) {
                list.push(all[i]);
            }
            i += 1;
        }
        assert(all@.take(i as int) =~= all@);
        list
    }

    /// Is `ticket` the ticket of the plan in flight? A holder of a ticket
    /// that is not has to stop.
    pub fn is_current(&self, ticket: u64) -> (res: bool)
        ensures
            res == self@.is_current(ticket),
    {
        match &self.state.change {
            Some(c) => c.ticket == ticket,
            None => false,
        }
    }

    /// What the holder of `ticket` has to do next.
    pub fn next_step(&self, ticket: u64) -> (res: PlanStep)
        ensures
            res == self@.next_step(ticket),
    {
        proof {
            use_type_invariant(self);
        }
        match &self.state.change {
            Some(c) => {
                if c.ticket != ticket {
                    PlanStep::Superseded
                } else if c.done < c.stages.len() {
                    PlanStep::Perform(c.stages[c.done])
                } else {
                    PlanStep::SetRuntimePm
                }
            },
            None => PlanStep::Superseded,
        }
    }

    /// What the step of the holder of `ticket` consists of.
    pub fn step_operations(&self, ticket: u64, quirks: &AsusQuirks) -> (res: Result<
        Vec<PlatformOp>,
        GfxError,
    >)
        ensures
            match self@.step_operations(ticket, *quirks) {
                Ok(ops) => res matches Ok(v) && v@ == ops,
                Err(e) => res matches Err(x) && x@ == e,
            },
    {
        proof {
            use_type_invariant(self);
        }
        match &self.state.change {
            Some(c) => {
                if c.ticket != ticket {
                    Ok(Vec::new())
                } else if c.done < c.stages.len() {
                    c.stages[c.done].operations(c.mode, &self.dgpu, &self.state.config, quirks)
                } else {
                    self.dgpu.set_runtime_pm(RuntimePowerManagement::Auto)
                }
            },
            None => Ok(Vec::new()),
        }
    }

    /// Takes the report that the step of the holder of `ticket` went well.
    pub fn step_succeeded(&mut self, ticket: u64) -> (res: Progress)
        ensures
            (final(self)@, res) == old(self)@.step_succeeded(ticket),
            final(self)@.wf(),
    {
        proof {
            use_type_invariant(&*self);
        }
        if !self.is_current(ticket) {
            return Progress::Superseded;
        }
        let mut state = CtrlState::idle();
        core::mem::swap(&mut self.state, &mut state);
        let mut change = state.change.unwrap();
        let progress = if change.done < change.stages.len() {
            change.done = change.done + 1;
            state.change = Some(change);
            Progress::Continue
        } else {
            state.change = None;
            state.config.pending_mode = None;
            state.config.pending_action = None;
            state.config.record_mode(change.mode);
            Progress::Completed(change.mode)
        };
        core::mem::swap(&mut self.state, &mut state);
        progress
    }

    /// Takes the report that the step of the holder of `ticket` failed. The
    /// answer says whether a plan was dropped for it.
    pub fn step_failed(&mut self, ticket: u64) -> (res: bool)
        ensures
            final(self)@ == old(self)@.step_failed(ticket),
            res == old(self)@.is_current(ticket),
            final(self)@.wf(),
    {
        proof {
            use_type_invariant(&*self);
        }
        if !self.is_current(ticket) {
            return false;
        }
        let mut state = CtrlState::idle();
        core::mem::swap(&mut self.state, &mut state);
        state.change = None;
        state.config.pending_mode = None;
        state.config.pending_action = None;
        core::mem::swap(&mut self.state, &mut state);
        true
    }

    /// Ends the plan in flight, if there is one: nothing is pending any
    /// more, and the holder of its ticket is told to stop.
    fn end_change(&mut self)
        ensures
            final(self)@ == old(self)@.end(),
            final(self)@.wf(),
    {
        proof {
            use_type_invariant(&*self);
        }
        let mut state = CtrlState::idle();
        core::mem::swap(&mut self.state, &mut state);
        state.change = None;
        state.config.pending_mode = None;
        state.config.pending_action = None;
        core::mem::swap(&mut self.state, &mut state);
    }

    /// Initiates a mode change: answers what the user has to do, and starts
    /// the plan where there is one to run.
    pub fn set_gfx_mode(&mut self, mode: GfxMode, quirks: &AsusQuirks, cmdline: &KernelCmdline) -> (res:
        Result<ModeChange, GfxError>)
        ensures
            final(self)@ == old(self)@.set_gfx_mode(mode, *quirks, *cmdline).0,
            match old(self)@.set_gfx_mode(mode, *quirks, *cmdline).1 {
                Ok(change) => res == Ok::<ModeChange, GfxError>(change),
                Err(e) => res matches Err(x) && x@ == e,
            },
            final(self)@.wf(),
    {
        proof {
            use_type_invariant(&*self);
        }
        match self.mode_support_check(mode, quirks, cmdline) {
            Err(e) => {
                return Err(e);
            },
            Ok(_) => {},
        }
        if quirks.mux_is_discreet() {
            self.end_change();
            return Ok(
                ModeChange { action: GfxRequiredUserAction::AsusGpuMuxDisable, ticket: None },
            );
        }
        let vendor = self.dgpu.vendor();
        let modeset = match cmdline.nvidia_modeset {
            Some(on) => on,
            None => false,
        };
        if self.state.config.always_reboot || (modeset && vendor == GfxVendor::Nvidia) {
            let mut state = CtrlState::idle();
            core::mem::swap(&mut self.state, &mut state);
            state.change = None;
            state.config.pending_mode = None;
            state.config.pending_action = None;
            state.config.save_for_boot(mode);
            core::mem::swap(&mut self.state, &mut state);
            return Ok(ModeChange { action: GfxRequiredUserAction::Reboot, ticket: None });
        }
        let from = self.state.config.current_mode();
        match StagedAction::action_list_for_switch(&self.state.config, vendor, from, mode) {
            Action::UserAction(action) => {
                self.end_change();
                Ok(ModeChange { action, ticket: None })
            },
            Action::StagedActions(stages) => {
                if self.state.started == u64::MAX {
                    return Err(
                        GfxError::NotSupported(
                            String::from_str("Too many mode changes since the daemon started"),
                        ),
                    );
                }
                let action = GfxRequiredUserAction::mode_change_action(mode, from);
                proof {
                    lemma_switch_order_legal(self.state.config, vendor, from, mode);
                }
                let mut state = CtrlState::idle();
                core::mem::swap(&mut self.state, &mut state);
                let ticket = state.started;
                state.config.pending_mode = Some(mode);
                state.config.pending_action = Some(action);
                state.change = Some(RunningChange { ticket, mode, action, stages, done: 0 });
                state.started = ticket + 1;
                core::mem::swap(&mut self.state, &mut state);
                Ok(ModeChange { action, ticket: Some(ticket) })
            },
        }
    }

    /// Takes new switches over. Where they name the mode that is saved, that
    /// mode is asked for once more, and the answer is handed on.
    pub fn set_config(
        &mut self,
        tunables: &GfxConfigDbus,
        quirks: &AsusQuirks,
        cmdline: &KernelCmdline,
    ) -> (res: Option<Result<ModeChange, GfxError>>)
        ensures
            ({
                let set = CtrlGraphicsView {
                    config: old(self)@.config.spec_set_tunables(*tunables),
                    ..old(self)@
                };
                if tunables.mode == old(self)@.config.mode {
                    let asked = set.set_gfx_mode(tunables.mode, *quirks, *cmdline);
                    &&& final(self)@ == asked.0
                    &&& match asked.1 {
                        Ok(change) => res == Some(Ok::<ModeChange, GfxError>(change)),
                        Err(e) => res matches Some(Err(x)) && x@ == e,
                    }
                } else {
                    final(self)@ == set && res is None
                }
            }),
            final(self)@.wf(),
    {
        proof {
            use_type_invariant(&*self);
        }
        let mode = self.state.config.mode;
        let mut state = CtrlState::idle();
        core::mem::swap(&mut self.state, &mut state);
        state.config.set_tunables(tunables);
        core::mem::swap(&mut self.state, &mut state);
        if tunables.mode == mode {
            Some(self.set_gfx_mode(mode, quirks, cmdline))
        } else {
            None
        }
    }

    /// Force re-init of all state, including reset of device state
    #[verifier::rlimit(40)]
    pub fn reload(&mut self, cmdline: &KernelCmdline, quirks: &AsusQuirks) -> (res: Result<
        Option<BootPlan>,
        GfxError,
    >)
        ensures
            final(self)@ == old(self)@.reload(*cmdline, *quirks).0,
            match old(self)@.reload(*cmdline, *quirks).1 {
                Ok(Some(plan)) => res matches Ok(Some(p)) && p@ == plan,
                Ok(None) => res matches Ok(None),
                Err(e) => res matches Err(x) && x@ == e,
            },
            final(self)@.wf(),
    {
        proof {
            use_type_invariant(&*self);
        }
        let vendor = self.dgpu.vendor();
        let mut state = CtrlState::idle();
        core::mem::swap(&mut self.state, &mut state);
        state.change = None;
        state.config.pending_mode = None;
        state.config.pending_action = None;
        let wanted = match cmdline.mode {
            Some(mode) => {
                state.config.save_for_boot(mode);
                mode
            },
            None => state.config.current_mode(),
        };
        if (wanted == GfxMode::Vfio && !state.config.vfio_enable) || (wanted == GfxMode::AsusEgpu
            && quirks.egpu_enable.is_none()) {
            core::mem::swap(&mut self.state, &mut state);
            return Ok(None);
        }
        if state.started == u64::MAX {
            core::mem::swap(&mut self.state, &mut state);
            return Err(
                GfxError::NotSupported(
                    String::from_str("Too many mode changes since the daemon started"),
                ),
            );
        }
        let safety = asus_boot_safety_check(
            wanted,
            state.config.hotplug_type == HotplugType::Asus,
            quirks,
        );
        let mode = safety.mode;
        if mode != wanted {
            state.config.mode = mode;
            state.config.tmp_mode = None;
        }
        let stages = StagedAction::action_list_for_boot(&state.config, vendor, mode);
        proof {
            lemma_boot_order_legal(state.config, vendor, mode);
        }
        let ticket = state.started;
        state.config.pending_mode = Some(mode);
        state.config.pending_action = Some(GfxRequiredUserAction::Nothing);
        state.change = Some(
            RunningChange { ticket, mode, action: GfxRequiredUserAction::Nothing, stages, done: 0 },
        );
        state.started = ticket + 1;
        core::mem::swap(&mut self.state, &mut state);
        Ok(Some(BootPlan { ticket, mode, corrections: safety.ops }))
    }
}

impl CtrlGraphicsView {
    /// Must the dGPU be switched off again after the machine woke up? It
    /// must where the mode is `Integrated`, `dgpu_disable` is in use and
    /// there, and the dGPU has come back on.
    pub open spec fn wake_disables_dgpu(self, quirks: AsusQuirks) -> bool {
        self.config.mode == GfxMode::Integrated && self.config.hotplug_type == HotplugType::Asus
            && quirks.dgpu_disable == Some(false)
    }
}

impl CtrlGraphics {
    /// What has to be done after the machine woke up from sleep.
    pub fn wake_ops(&self, quirks: &AsusQuirks) -> (res: Vec<PlatformOp>)
        ensures
            res@ == (if self@.wake_disables_dgpu(*quirks) {
                spec_toggle_ops(SysFile::AsusDgpuDisable, false, true, false)
            } else {
                Seq::empty()
            }),
    {
        if self.state.config.mode == GfxMode::Integrated && self.state.config.hotplug_type
            == HotplugType::Asus {
            match quirks.dgpu_disable {
                Some(false) => {
                    return asus_dgpu_set_disabled(false, true);
                },
                _ => {},
            }
        }
        Vec::new()
    }
}

/// The power status to tell the listeners of, after the status was `last`
/// and is `now`: the new one where it has changed, none where it has not.
pub fn power_status_change(last: GfxPower, now: GfxPower) -> (res: Option<GfxPower>)
    ensures
        res == (if now != last {
            Some(now)
        } else {
            None
        }),
{
    if now != last {
        Some(now)
    } else {
        None
    }
}

} // verus!
