use vstd::prelude::*;

use crate::action_order::{lemma_boot_order_legal, lemma_switch_order_legal};
use crate::actions::StagedAction;
use crate::controller::{CtrlGraphicsView, ModeChange, PlanStep, Progress};
use crate::error::GfxErrorView;
use crate::gfx_vendors::{GfxMode, GfxRequiredUserAction};
use crate::pci_device::{spec_set_runtime_pm, HotplugType, RuntimePowerManagement};
use crate::special_asus::{spec_boot_safe_mode, AsusQuirks};
use crate::system::KernelCmdline;

verus! {

/// A mode is listed as supported exactly when a request for it passes the
/// check of the modes.
pub proof fn lemma_supported_modes(
    ctrl: CtrlGraphicsView,
    quirks: AsusQuirks,
    cmdline: KernelCmdline,
    mode: GfxMode,
)
    ensures
        ctrl.supported_modes(quirks, cmdline).contains(mode) <==> ctrl.mode_supported(
            mode,
            quirks,
            cmdline,
        ),
{
    let all = CtrlGraphicsView::all_modes();
    let supported = |m: GfxMode| ctrl.mode_supported(m, quirks, cmdline);
    let list = all.filter(supported);
    if list.contains(mode) {
        let i = choose|i: int| 0 <= i < list.len() && list[i] == mode;
        all.lemma_filter_pred(supported, i);
    }
    if ctrl.mode_supported(mode, quirks, cmdline) {
        let i: int = match mode {
            GfxMode::Integrated => 0,
            GfxMode::Hybrid => 1,
            GfxMode::Vfio => 2,
            GfxMode::AsusEgpu => 3,
            GfxMode::AsusMuxDgpu => 4,
            GfxMode::NvidiaNoModeset => 5,
            _ => 6,
        };
        assert(all[i] == mode);
        all.lemma_filter_contains(supported, i);
    }
}

proof fn lemma_filter_keeps_distinct(s: Seq<GfxMode>, keep: spec_fn(GfxMode) -> bool)
    requires
        s.no_duplicates(),
    ensures
        s.filter(keep).no_duplicates(),
        forall|i: int| 0 <= i < s.filter(keep).len() ==> s.contains(#[trigger] s.filter(keep)[i]),
    decreases s.len(),
{
    reveal(Seq::filter);
    if s.len() > 0 {
        let init = s.drop_last();
        let kept = init.filter(keep);
        lemma_filter_keeps_distinct(init, keep);
        assert forall|i: int| 0 <= i < kept.len() implies s.contains(#[trigger] kept[i]) && kept[i]
            != s.last() by {
            let j = choose|j: int| 0 <= j < init.len() && init[j] == kept[i];
            assert(s[j] == kept[i]);
        }
        if keep(s.last()) {
            let all = kept.push(s.last());
            assert(s[s.len() - 1] == s.last());
            assert forall|i: int| 0 <= i < all.len() implies s.contains(#[trigger] all[i]) by {
                if i < kept.len() {
                    assert(all[i] == kept[i]);
                }
            }
        }
    }
}

/// No mode is listed twice, and `Integrated` is always listed.
pub proof fn lemma_supported_modes_are_distinct(
    ctrl: CtrlGraphicsView,
    quirks: AsusQuirks,
    cmdline: KernelCmdline,
)
    ensures
        ctrl.supported_modes(quirks, cmdline).no_duplicates(),
        ctrl.supported_modes(quirks, cmdline).contains(GfxMode::Integrated),
{
    lemma_filter_keeps_distinct(
        CtrlGraphicsView::all_modes(),
        |mode: GfxMode| ctrl.mode_supported(mode, quirks, cmdline),
    );
    lemma_supported_modes(ctrl, quirks, cmdline, GfxMode::Integrated);
}

/// Whatever is asked of a well-formed controller leaves it well formed,
/// and never touches the dGPU.
pub proof fn lemma_controller_stays_well_formed(
    ctrl: CtrlGraphicsView,
    mode: GfxMode,
    quirks: AsusQuirks,
    cmdline: KernelCmdline,
    ticket: u64,
)
    requires
        ctrl.wf(),
    ensures
        ctrl.set_gfx_mode(mode, quirks, cmdline).0.wf(),
        ctrl.set_gfx_mode(mode, quirks, cmdline).0.dgpu == ctrl.dgpu,
        ctrl.step_succeeded(ticket).0.wf(),
        ctrl.step_succeeded(ticket).0.dgpu == ctrl.dgpu,
        ctrl.step_failed(ticket).wf(),
        ctrl.step_failed(ticket).dgpu == ctrl.dgpu,
        ctrl.reload(cmdline, quirks).0.wf(),
        ctrl.reload(cmdline, quirks).0.dgpu == ctrl.dgpu,
{
    lemma_switch_order_legal(
        ctrl.config,
        ctrl.dgpu.vendor,
        ctrl.config.spec_current_mode(),
        mode,
    );
    lemma_reload_stays_well_formed(ctrl, quirks, cmdline);
}

proof fn lemma_reload_stays_well_formed(
    ctrl: CtrlGraphicsView,
    quirks: AsusQuirks,
    cmdline: KernelCmdline,
)
    requires
        ctrl.wf(),
    ensures
        ctrl.reload(cmdline, quirks).0.wf(),
        ctrl.reload(cmdline, quirks).0.dgpu == ctrl.dgpu,
{
    let wanted = ctrl.boot_mode(cmdline);
    let idle = ctrl.end();
    let config = if cmdline.mode.is_some() {
        idle.config.spec_save_for_boot(wanted)
    } else {
        idle.config
    };
    let mode = spec_boot_safe_mode(wanted, config.hotplug_type == HotplugType::Asus, quirks);
    let checked = if mode != wanted {
        crate::config::GfxConfig { mode, tmp_mode: None, ..config }
    } else {
        config
    };
    lemma_boot_order_legal(checked, ctrl.dgpu.vendor, mode);
}

/// Asking for the mode that is in effect, with nothing pending, is never an
/// error and runs nothing: the answer is that nothing needs doing, and the
/// controller stays as it is; or, where no mode can be changed without a
/// restart, the answer is to restart. Asked once more, the answer is the
/// same.
///
/// This is said of a mode that the machine has, with the MUX out of the
/// way: the check of the modes and the MUX come first.
pub proof fn lemma_request_for_current_mode(
    ctrl: CtrlGraphicsView,
    quirks: AsusQuirks,
    cmdline: KernelCmdline,
)
    requires
        ctrl.wf(),
        ctrl.change.is_none(),
        ctrl.mode_supported(ctrl.config.spec_current_mode(), quirks, cmdline),
        !quirks.spec_mux_is_discreet(),
    ensures
        ({
            let mode = ctrl.config.spec_current_mode();
            let (after, answer) = ctrl.set_gfx_mode(mode, quirks, cmdline);
            &&& ctrl.requires_reboot(cmdline) ==> answer == Ok::<ModeChange, GfxErrorView>(
                ModeChange { action: GfxRequiredUserAction::Reboot, ticket: None },
            ) && after.change.is_none() && after.config.spec_current_mode() == mode
            &&& !ctrl.requires_reboot(cmdline) ==> answer == Ok::<ModeChange, GfxErrorView>(
                ModeChange { action: GfxRequiredUserAction::Nothing, ticket: None },
            ) && after == ctrl
            &&& after.set_gfx_mode(mode, quirks, cmdline).1 == answer
        }),
{
}

/// While the MUX wires the display to the dGPU, a request for any mode that
/// the machine has is answered with the advice to set the MUX back. No plan
/// is made and none is started; the dGPU and the settings stay as they are,
/// but for what was pending: like every request that is not refused, this
/// one ends the plan in flight.
pub proof fn lemma_mux_gate(
    ctrl: CtrlGraphicsView,
    mode: GfxMode,
    quirks: AsusQuirks,
    cmdline: KernelCmdline,
)
    requires
        quirks.spec_mux_is_discreet(),
        ctrl.mode_supported(mode, quirks, cmdline),
    ensures
        ctrl.set_gfx_mode(mode, quirks, cmdline) == (
            ctrl.end(),
            Ok::<ModeChange, GfxErrorView>(
                ModeChange { action: GfxRequiredUserAction::AsusGpuMuxDisable, ticket: None },
            ),
        ),
        ctrl.end().dgpu == ctrl.dgpu,
        ctrl.end().config.persisted() == ctrl.config.persisted(),
        ctrl.end().config.tmp_mode == ctrl.config.tmp_mode,
        ctrl.end().change.is_none(),
        ctrl.wf() && ctrl.change.is_none() ==> ctrl.end() == ctrl,
{
}

/// A request for `Vfio` while the settings do not enable it fails with
/// `VfioDisabled`, whatever else holds, and nothing changes: no plan is
/// made, none is started.
pub proof fn lemma_vfio_gate(ctrl: CtrlGraphicsView, quirks: AsusQuirks, cmdline: KernelCmdline)
    requires
        !ctrl.config.vfio_enable,
    ensures
        ctrl.set_gfx_mode(GfxMode::Vfio, quirks, cmdline) == (
            ctrl,
            Err::<ModeChange, GfxErrorView>(GfxErrorView::VfioDisabled),
        ),
{
}

/// A request is refused for want of support exactly when the mode is not
/// among the supported ones, and a refused request changes nothing.
pub proof fn lemma_unsupported_mode_is_refused(
    ctrl: CtrlGraphicsView,
    mode: GfxMode,
    quirks: AsusQuirks,
    cmdline: KernelCmdline,
)
    requires
        !ctrl.supported_modes(quirks, cmdline).contains(mode),
    ensures
        ctrl.set_gfx_mode(mode, quirks, cmdline) == (
            ctrl,
            Err::<ModeChange, GfxErrorView>(
                crate::controller::spec_unsupported(mode, ctrl.config.vfio_enable),
            ),
        ),
{
    lemma_supported_modes(ctrl, quirks, cmdline, mode);
}

/// The holder of a ticket that is not the ticket of the plan in flight is
/// told to stop, and nothing that it reports is recorded.
pub proof fn lemma_stale_ticket_does_nothing(ctrl: CtrlGraphicsView, ticket: u64)
    requires
        !ctrl.is_current(ticket),
    ensures
        ctrl.next_step(ticket) == PlanStep::Superseded,
        ctrl.step_succeeded(ticket) == (ctrl, Progress::Superseded),
        ctrl.step_failed(ticket) == ctrl,
{
}

/// A ticket that was handed out and is not the ticket of the plan in
/// flight never becomes that again, whatever happens next: a request for a
/// mode, a report for any ticket, or a reload.
pub proof fn lemma_stale_ticket_stays_stale(
    ctrl: CtrlGraphicsView,
    stale: u64,
    mode: GfxMode,
    quirks: AsusQuirks,
    cmdline: KernelCmdline,
    ticket: u64,
)
    requires
        ctrl.wf(),
        stale < ctrl.started,
        !ctrl.is_current(stale),
    ensures
        !ctrl.set_gfx_mode(mode, quirks, cmdline).0.is_current(stale),
        stale < ctrl.set_gfx_mode(mode, quirks, cmdline).0.started,
        !ctrl.step_succeeded(ticket).0.is_current(stale),
        stale < ctrl.step_succeeded(ticket).0.started,
        !ctrl.step_failed(ticket).is_current(stale),
        stale < ctrl.step_failed(ticket).started,
        !ctrl.reload(cmdline, quirks).0.is_current(stale),
        stale < ctrl.reload(cmdline, quirks).0.started,
{
}

/// Every request that is not refused takes over from the plan in flight,
/// whether it starts a plan of its own or not: the holder of the old ticket
/// is told to stop and none of its reports is recorded, so no further stage
/// of the old plan runs and its mode is never recorded. Where the request
/// starts a plan, its mode is the one that is pending; where it starts none,
/// nothing is pending.
pub proof fn lemma_new_request_supersedes(
    ctrl: CtrlGraphicsView,
    old_ticket: u64,
    mode: GfxMode,
    quirks: AsusQuirks,
    cmdline: KernelCmdline,
)
    requires
        ctrl.wf(),
        ctrl.is_current(old_ticket),
        ctrl.set_gfx_mode(mode, quirks, cmdline).1 is Ok,
    ensures
        ({
            let (after, answer) = ctrl.set_gfx_mode(mode, quirks, cmdline);
            let started = answer->Ok_0.ticket;
            &&& !after.is_current(old_ticket)
            &&& after.next_step(old_ticket) == PlanStep::Superseded
            &&& after.step_succeeded(old_ticket) == (after, Progress::Superseded)
            &&& after.step_failed(old_ticket) == after
            &&& started matches Some(new_ticket) ==> new_ticket != old_ticket && after.is_current(
                new_ticket,
            ) && after.config.pending_mode == Some(mode) && after.config.pending_action == Some(
                answer->Ok_0.action,
            )
            &&& started.is_none() ==> after.change.is_none() && after.config.pending_mode.is_none()
                && after.config.pending_action.is_none()
        }),
{
}

/// A request that is refused leaves the controller as it is, the plan in
/// flight with it.
pub proof fn lemma_refused_request_changes_nothing(
    ctrl: CtrlGraphicsView,
    mode: GfxMode,
    quirks: AsusQuirks,
    cmdline: KernelCmdline,
)
    requires
        ctrl.set_gfx_mode(mode, quirks, cmdline).1 is Err,
    ensures
        ctrl.set_gfx_mode(mode, quirks, cmdline).0 == ctrl,
{
}

/// When the last step of a plan is reported done, the mode that was pending
/// is the mode in effect, and nothing is pending any more. It is the saved
/// mode too where the settings let it be saved; else the saved mode stays.
pub proof fn lemma_completed_plan_records_pending_mode(ctrl: CtrlGraphicsView, ticket: u64)
    requires
        ctrl.wf(),
        ctrl.step_succeeded(ticket).1 is Completed,
    ensures
        ({
            let (after, progress) = ctrl.step_succeeded(ticket);
            let mode = progress->Completed_0;
            &&& ctrl.config.pending_mode == Some(mode)
            &&& after.config.spec_current_mode() == mode
            &&& after.change.is_none()
            &&& after.config.pending_mode.is_none()
            &&& after.config.pending_action.is_none()
            &&& ctrl.config.spec_saves_mode(mode) ==> after.config.mode == mode
            &&& !ctrl.config.spec_saves_mode(mode) ==> after.config.mode == ctrl.config.mode
        }),
{
}

/// A plan that fails leaves the mode as it was and nothing pending.
pub proof fn lemma_failed_plan_clears_pending(ctrl: CtrlGraphicsView, ticket: u64)
    requires
        ctrl.wf(),
        ctrl.is_current(ticket),
    ensures
        ctrl.step_failed(ticket).change.is_none(),
        ctrl.step_failed(ticket).config.pending_mode.is_none(),
        ctrl.step_failed(ticket).config.pending_action.is_none(),
        ctrl.step_failed(ticket).config.mode == ctrl.config.mode,
        ctrl.step_failed(ticket).config.tmp_mode == ctrl.config.tmp_mode,
{
}

/// A plan is carried out stage by stage in its order: each report that a
/// stage went well moves the plan on by one stage, and after the last stage
/// the runtime power management is the one step left.
pub proof fn lemma_plan_runs_in_order(ctrl: CtrlGraphicsView, ticket: u64)
    requires
        ctrl.wf(),
        ctrl.is_current(ticket),
    ensures
        ({
            let plan = ctrl.change->0;
            let after = ctrl.step_succeeded(ticket).0;
            &&& plan.done < plan.stages.len() ==> ctrl.next_step(ticket) == PlanStep::Perform(
                plan.stages[plan.done],
            ) && after.is_current(ticket) && after.change->0.done == plan.done + 1
                && after.change->0.stages == plan.stages
            &&& plan.done == plan.stages.len() ==> ctrl.next_step(ticket) == PlanStep::SetRuntimePm
                && ctrl.step_succeeded(ticket).1 == Progress::Completed(plan.mode)
        }),
{
}

/// The last step of every plan sets the runtime power management of the
/// dGPU to `Auto`: that is what the step after the last stage consists of,
/// whatever the toggles read, and only the report that it went well
/// completes the plan. Every stage before it is carried out for the mode of
/// the plan.
pub proof fn lemma_plan_ends_with_runtime_pm_auto(
    ctrl: CtrlGraphicsView,
    ticket: u64,
    quirks: AsusQuirks,
)
    requires
        ctrl.wf(),
        ctrl.is_current(ticket),
    ensures
        ({
            let plan = ctrl.change->0;
            &&& ctrl.step_succeeded(ticket).1 is Completed <==> plan.done == plan.stages.len()
            &&& plan.done == plan.stages.len() ==> ctrl.step_operations(ticket, quirks)
                == spec_set_runtime_pm(ctrl.dgpu, RuntimePowerManagement::Auto)
            &&& plan.done < plan.stages.len() ==> ctrl.step_operations(ticket, quirks)
                == plan.stages[plan.done].spec_operations(
                plan.mode,
                ctrl.dgpu,
                ctrl.config,
                quirks,
            )
        }),
{
}

/// At the start of the machine a mode that the kernel's command line names
/// wins over the saved one: where the firmware's state does not force
/// another mode, the plan that is started is the plan for that mode. The
/// mode is saved only where the settings let it be saved.
pub proof fn lemma_reload_takes_cmdline_mode(
    ctrl: CtrlGraphicsView,
    forced: GfxMode,
    cmdline: KernelCmdline,
    quirks: AsusQuirks,
)
    requires
        ctrl.wf(),
        cmdline.mode == Some(forced),
        ctrl.started < u64::MAX,
        !(forced == GfxMode::Vfio && !ctrl.config.vfio_enable),
        !(forced == GfxMode::AsusEgpu && quirks.egpu_enable.is_none()),
        spec_boot_safe_mode(forced, ctrl.config.hotplug_type == HotplugType::Asus, quirks)
            == forced,
    ensures
        ({
            let (after, answer) = ctrl.reload(cmdline, quirks);
            &&& answer matches Ok(Some(plan)) && plan.mode == forced && after.is_current(plan.ticket)
            &&& after.change->0.mode == forced
            &&& after.change->0.stages == StagedAction::spec_action_list_for_boot(
                after.config,
                ctrl.dgpu.vendor,
                forced,
            )
            &&& ctrl.config.spec_saves_mode(forced) ==> after.config.mode == forced
            &&& !ctrl.config.spec_saves_mode(forced) ==> after.config.mode == ctrl.config.mode
        }),
{
}

/// The plan for the start of the machine never waits for a logout and
/// never touches the display manager.
pub proof fn lemma_boot_plan_has_no_session_stage(
    config: crate::config::GfxConfig,
    vendor: crate::gfx_vendors::GfxVendor,
    mode: GfxMode,
    i: int,
)
    requires
        0 <= i < StagedAction::spec_action_list_for_boot(config, vendor, mode).len(),
    ensures
        !StagedAction::spec_action_list_for_boot(config, vendor, mode)[i].is_session_stage(),
{
    let list = StagedAction::spec_action_list_for_boot(config, vendor, mode);
    match mode {
        GfxMode::Integrated | GfxMode::Vfio => {
            let teardown = StagedAction::spec_teardown(vendor, GfxMode::Unset, mode);
            let setup = StagedAction::spec_setup(config.hotplug_type, vendor, GfxMode::Unset, mode);
            if i < teardown.len() {
                assert(list[i] == teardown[i]);
            } else {
                assert(list[i] == setup[i - teardown.len()]);
            }
        },
        _ => {},
    }
}

} // verus!
