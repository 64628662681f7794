use vstd::prelude::*;

use crate::actions::{ActionView, StagedAction};
use crate::config::GfxConfig;
use crate::error::GfxError;
use crate::gfx_vendors::{GfxMode, GfxRequiredUserAction, GfxVendor};
use crate::pci_device::HotplugType;

verus! {

impl StagedAction {
    /// May `self` run directly after `previous_action`? Both tables have to
    /// agree: the one of predecessors and the one of successors.
    #[verifier::opaque]
    pub open spec fn may_follow(self, previous_action: StagedAction) -> bool {
        self.previous_allowed(previous_action) && previous_action.next_allowed(self)
    }
}

/// The stage at place `i` of `list` may follow the one before it, which for
/// the first stage is `before`.
pub open spec fn stage_legal_at(before: StagedAction, list: Seq<StagedAction>, i: int) -> bool {
    list[i].may_follow(
        if i == 0 {
            before
        } else {
            list[i - 1]
        },
    )
}

/// Each stage of `list` may follow the one before it, and the first one may
/// follow `before`.
pub open spec fn order_legal_after(before: StagedAction, list: Seq<StagedAction>) -> bool {
    forall|i: int| 0 <= i < list.len() ==> #[trigger] stage_legal_at(before, list, i)
}

/// A plan is in legal order when each stage may follow the one before it,
/// and the first one may start a plan.
pub open spec fn order_legal(list: Seq<StagedAction>) -> bool {
    order_legal_after(StagedAction::Nothing, list)
}

/// The stage after which whatever follows `list` runs.
pub open spec fn last_or(before: StagedAction, list: Seq<StagedAction>) -> StagedAction {
    if list.len() == 0 {
        before
    } else {
        list.last()
    }
}

proof fn lemma_order_concat(before: StagedAction, a: Seq<StagedAction>, b: Seq<StagedAction>)
    requires
        order_legal_after(before, a),
        order_legal_after(last_or(before, a), b),
    ensures
        order_legal_after(before, a + b),
        last_or(before, a + b) == last_or(last_or(before, a), b),
{
    let s = a + b;
    assert forall|i: int| 0 <= i < s.len() implies #[trigger] stage_legal_at(before, s, i) by {
        if i < a.len() {
            assert(stage_legal_at(before, a, i));
        } else {
            assert(stage_legal_at(last_or(before, a), b, i - a.len()));
        }
    }
}

proof fn lemma_bracket_open(no_logind: bool)
    ensures
        order_legal(StagedAction::spec_bracket_open(no_logind)),
        last_or(StagedAction::Nothing, StagedAction::spec_bracket_open(no_logind)) == if no_logind {
            StagedAction::NoLogind
        } else {
            StagedAction::StopDisplayManager
        },
{
    reveal(StagedAction::may_follow);
}

proof fn lemma_teardown(before: StagedAction, vendor: GfxVendor, from: GfxMode, to: GfxMode)
    requires
        before == StagedAction::Nothing || before == StagedAction::NoLogind || before
            == StagedAction::StopDisplayManager,
    ensures
        order_legal_after(before, StagedAction::spec_teardown(vendor, from, to)),
        StagedAction::spec_keeps_drivers(from, to) ==> last_or(
            before,
            StagedAction::spec_teardown(vendor, from, to),
        ) == before,
        !StagedAction::spec_keeps_drivers(from, to) ==> last_or(
            before,
            StagedAction::spec_teardown(vendor, from, to),
        ) == if from == GfxMode::Vfio {
            StagedAction::UnloadVfioDrivers
        } else {
            StagedAction::UnloadGpuDrivers
        },
{
    reveal(StagedAction::may_follow);
}

/// Does the setting up of `to` begin with taking the dGPU out of the device
/// tree? Then drivers have to be unloaded directly before it.
spec fn setup_unbinds_first(from: GfxMode, to: GfxMode) -> bool {
    match to {
        GfxMode::Integrated => true,
        GfxMode::AsusEgpu => from != GfxMode::Integrated,
        GfxMode::Hybrid | GfxMode::NvidiaNoModeset | GfxMode::Compute | GfxMode::AsusMuxDgpu => from
            == GfxMode::AsusEgpu,
        _ => false,
    }
}

/// The stages after which a bracket may be closed.
spec fn closable(stage: StagedAction) -> bool {
    ||| stage == StagedAction::EnableNvidiaPowerd
    ||| stage == StagedAction::NotNvidia
    ||| stage == StagedAction::HotplugUnplug
    ||| stage == StagedAction::AsusDgpuDisable
    ||| stage == StagedAction::AsusEgpuDisable
    ||| stage == StagedAction::AsusMuxDgpu
    ||| stage == StagedAction::DevTreeManaged
}

proof fn lemma_setup(
    before: StagedAction,
    hotplug_type: HotplugType,
    vendor: GfxVendor,
    from: GfxMode,
    to: GfxMode,
)
    requires
        to != GfxMode::Unset,
        before == StagedAction::UnloadGpuDrivers || before == StagedAction::UnloadVfioDrivers || (
        !setup_unbinds_first(from, to) && (before == StagedAction::Nothing || before
            == StagedAction::NoLogind || before == StagedAction::StopDisplayManager)),
    ensures
        order_legal_after(before, StagedAction::spec_setup(hotplug_type, vendor, from, to)),
        to != GfxMode::Vfio ==> closable(
            last_or(before, StagedAction::spec_setup(hotplug_type, vendor, from, to)),
        ),
{
    reveal(StagedAction::may_follow);
}

proof fn lemma_bracket_close(before: StagedAction, no_logind: bool)
    requires
        closable(before),
    ensures
        order_legal_after(before, StagedAction::spec_bracket_close(no_logind)),
{
    reveal(StagedAction::may_follow);
}

/// Every plan for a change of mode is in legal order: whatever the settings,
/// the vendor and the two modes, each stage of the plan may follow the one
/// before it by the table of predecessors and by the table of successors,
/// and the first stage may start a plan.
pub proof fn lemma_switch_order_legal(
    config: GfxConfig,
    vendor: GfxVendor,
    from: GfxMode,
    to: GfxMode,
)
    ensures
        StagedAction::spec_action_list_for_switch(config, vendor, from, to) matches ActionView::StagedActions(
            list,
        ) ==> order_legal(list),
{
    let action = GfxRequiredUserAction::spec_mode_change_action(to, from);
    let plan = StagedAction::spec_action_list_for_switch(config, vendor, from, to);
    if plan is StagedActions {
        let open = if action == GfxRequiredUserAction::Logout {
            StagedAction::spec_bracket_open(config.no_logind)
        } else {
            Seq::empty()
        };
        let close = if action == GfxRequiredUserAction::Logout {
            StagedAction::spec_bracket_close(config.no_logind)
        } else {
            Seq::empty()
        };
        let teardown = StagedAction::spec_teardown(vendor, from, to);
        let setup = StagedAction::spec_setup(config.hotplug_type, vendor, from, to);
        let start = StagedAction::Nothing;
        lemma_bracket_open(config.no_logind);
        let opened = last_or(start, open);
        lemma_teardown(opened, vendor, from, to);
        lemma_order_concat(start, open, teardown);
        let torn = last_or(opened, teardown);
        lemma_setup(torn, config.hotplug_type, vendor, from, to);
        lemma_order_concat(start, open + teardown, setup);
        let set = last_or(torn, setup);
        if action == GfxRequiredUserAction::Logout {
            lemma_bracket_close(set, config.no_logind);
        }
        lemma_order_concat(start, open + teardown + setup, close);
        assert(plan->StagedActions_0 =~= open + teardown + setup + close);
    }
}

/// Every plan for the start of the machine is in legal order.
pub proof fn lemma_boot_order_legal(config: GfxConfig, vendor: GfxVendor, mode: GfxMode)
    ensures
        order_legal(StagedAction::spec_action_list_for_boot(config, vendor, mode)),
{
    let start = StagedAction::Nothing;
    match mode {
        GfxMode::Hybrid | GfxMode::NvidiaNoModeset | GfxMode::Compute => {
            lemma_setup(start, config.hotplug_type, vendor, GfxMode::Unset, mode);
        },
        GfxMode::Integrated | GfxMode::Vfio => {
            let teardown = StagedAction::spec_teardown(vendor, GfxMode::Unset, mode);
            lemma_teardown(start, vendor, GfxMode::Unset, mode);
            lemma_setup(
                last_or(start, teardown),
                config.hotplug_type,
                vendor,
                GfxMode::Unset,
                mode,
            );
            lemma_order_concat(
                start,
                teardown,
                StagedAction::spec_setup(config.hotplug_type, vendor, GfxMode::Unset, mode),
            );
        },
        GfxMode::AsusEgpu => {
            lemma_setup(start, config.hotplug_type, vendor, GfxMode::Integrated, mode);
        },
        GfxMode::AsusMuxDgpu => {
            reveal(StagedAction::may_follow);
        },
        GfxMode::Unset => {},
    }
}

/// The first place of `list` whose stage may not follow the one before it,
/// or the length of `list` where there is none.
pub open spec fn first_illegal(list: Seq<StagedAction>) -> int
    decreases list.len(),
{
    if list.len() == 0 {
        0
    } else {
        let k = first_illegal(list.drop_last());
        if k < list.len() - 1 {
            k
        } else if stage_legal_at(StagedAction::Nothing, list, list.len() - 1) {
            list.len() as int
        } else {
            list.len() - 1
        }
    }
}

/// `first_illegal` is what its name says.
pub proof fn lemma_first_illegal(list: Seq<StagedAction>)
    ensures
        0 <= first_illegal(list) <= list.len(),
        forall|i: int|
            0 <= i < first_illegal(list) ==> #[trigger] stage_legal_at(
                StagedAction::Nothing,
                list,
                i,
            ),
        first_illegal(list) < list.len() ==> !stage_legal_at(
            StagedAction::Nothing,
            list,
            first_illegal(list),
        ),
        first_illegal(list) == list.len() <==> order_legal(list),
    decreases list.len(),
{
    if list.len() > 0 {
        let init = list.drop_last();
        let start = StagedAction::Nothing;
        lemma_first_illegal(init);
        assert forall|i: int| 0 <= i < init.len() implies #[trigger] stage_legal_at(start, list, i)
            == stage_legal_at(start, init, i) by {
            assert(init[i] == list[i]);
            if i > 0 {
                assert(init[i - 1] == list[i - 1]);
            }
        }
        if order_legal(list) {
            assert forall|i: int| 0 <= i < init.len() implies #[trigger] stage_legal_at(
                start,
                init,
                i,
            ) by {
                assert(stage_legal_at(start, list, i));
            }
            assert(stage_legal_at(start, list, list.len() - 1));
        }
        if first_illegal(list) == list.len() {
            assert forall|i: int| 0 <= i < list.len() implies #[trigger] stage_legal_at(
                start,
                list,
                i,
            ) by {
                if i < init.len() {
                    assert(stage_legal_at(start, init, i));
                }
            }
        }
    }
}

/// Checks a whole plan against both tables, stage by stage from the first.
/// The error names the first stage that may not stand where it stands, and
/// the stage before it.
pub fn verify_action_order(list: &Vec<StagedAction>) -> (res: Result<(), GfxError>)
    ensures
        order_legal(list@) <==> res is Ok,
        res matches Err(e) ==> {
            let i = first_illegal(list@);
            &&& 0 <= i < list.len()
            &&& e == GfxError::IncorrectActionOrder(
                list[i],
                if i == 0 {
                    StagedAction::Nothing
                } else {
                    list[i - 1]
                },
            )
        },
{
    let mut previous_action = StagedAction::Nothing;
    let mut i: usize = 0;
    while i < list.len()
        invariant
            0 <= i <= list.len(),
            previous_action == if i == 0 {
                StagedAction::Nothing
            } else {
                list[i - 1]
            },
            first_illegal(list@.take(i as int)) == i,
        decreases list.len() - i,
    {
        let action = list[i];
        let ghost next = list@.take(i + 1);
        proof {
            assert(next.drop_last() =~= list@.take(i as int));
            assert(stage_legal_at(StagedAction::Nothing, next, i as int) == action.may_follow(
                previous_action,
            ));
            reveal(StagedAction::may_follow);
        }
        let by_previous = action.verify_previous_action_for_current(previous_action);
        let by_next = previous_action.verify_next_allowed_action(action);
        if by_previous.is_err() || by_next.is_err() {
            proof {
                lemma_first_illegal_prefix(list@, i + 1);
                lemma_first_illegal(list@);
            }
            return Err(GfxError::IncorrectActionOrder(action, previous_action));
        }
        previous_action = action;
        i += 1;
    }
    proof {
        assert(list@.take(i as int) =~= list@);
        lemma_first_illegal(list@);
    }
    Ok(())
}

/// An illegal place in the first `n` stages is the first illegal place of
/// the whole list too.
proof fn lemma_first_illegal_prefix(list: Seq<StagedAction>, n: int)
    requires
        0 <= n <= list.len(),
        first_illegal(list.take(n)) < n,
    ensures
        first_illegal(list) == first_illegal(list.take(n)),
    decreases list.len() - n,
{
    if n < list.len() {
        assert(list.take(n + 1).drop_last() =~= list.take(n));
        lemma_first_illegal_prefix(list, n + 1);
    } else {
        assert(list.take(n) =~= list);
    }
}

/// What a legal order guarantees, whatever the plan: drivers are loaded
/// directly after a rescan of the bus; the dGPU is unbound and removed
/// directly after drivers were unloaded; the slot's power and the vendor's
/// toggles are touched directly after the module options were written, and
/// nothing but a rescan or the end of the bracket comes after them; after
/// the MUX was turned to the dGPU nothing but the end of the bracket comes;
/// the display manager is stopped directly after the wait for the logout, and
/// once it is started again no stage but the empty marker follows; a rescan
/// of the bus that follows another stage than the empty marker comes at
/// most two stages after the module options were written.
pub proof fn lemma_legal_order_keeps_rules(list: Seq<StagedAction>, i: int)
    requires
        order_legal(list),
        0 <= i < list.len(),
    ensures
        list[i] == StagedAction::LoadGpuDrivers ==> i > 0 && list[i - 1] == StagedAction::RescanPci,
        list[i] == StagedAction::UnbindRemoveGpu ==> i > 0 && (list[i - 1]
            == StagedAction::UnloadGpuDrivers || list[i - 1] == StagedAction::UnloadVfioDrivers),
        list[i].is_power_toggle() ==> i > 0 && list[i - 1] == StagedAction::WriteModprobeConf,
        list[i].is_power_toggle() && i + 1 < list.len() ==> list[i + 1] == StagedAction::RescanPci
            || list[i + 1] == StagedAction::StartDisplayManager || list[i + 1]
            == StagedAction::NoLogind,
        list[i] == StagedAction::AsusMuxDgpu && i + 1 < list.len() ==> list[i + 1]
            == StagedAction::StartDisplayManager || list[i + 1] == StagedAction::NoLogind,
        list[i] == StagedAction::StopDisplayManager ==> i > 0 && list[i - 1]
            == StagedAction::WaitLogout,
        list[i] == StagedAction::StartDisplayManager && i + 1 < list.len() ==> list[i + 1]
            == StagedAction::Nothing,
        list[i] == StagedAction::RescanPci && i > 0 && list[i - 1] != StagedAction::Nothing ==> (
        list[i - 1] == StagedAction::WriteModprobeConf || (i > 1 && list[i - 2]
            == StagedAction::WriteModprobeConf)),
{
    reveal(StagedAction::may_follow);
    assert(stage_legal_at(StagedAction::Nothing, list, i));
    if i + 1 < list.len() {
        assert(stage_legal_at(StagedAction::Nothing, list, i + 1));
    }
    if i > 0 {
        assert(stage_legal_at(StagedAction::Nothing, list, i - 1));
    }
}

/// No plan begins with a rescan of the bus or with a switch of power: with
/// the rule above, the module options are always written before the bus is
/// rescanned and before any power is switched.
pub proof fn lemma_plans_write_options_first(
    config: GfxConfig,
    vendor: GfxVendor,
    from: GfxMode,
    to: GfxMode,
)
    ensures
        StagedAction::spec_action_list_for_switch(config, vendor, from, to) matches ActionView::StagedActions(
            list,
        ) ==> list.len() > 0 && list[0] != StagedAction::RescanPci && !list[0].is_power_toggle(),
        ({
            let boot = StagedAction::spec_action_list_for_boot(config, vendor, to);
            boot.len() > 0 ==> boot[0] != StagedAction::RescanPci && !boot[0].is_power_toggle()
        }),
{
    let teardown = StagedAction::spec_teardown(vendor, from, to);
    let setup = StagedAction::spec_setup(config.hotplug_type, vendor, from, to);
    let stages = teardown + setup;
    if to != GfxMode::Unset {
        assert(setup.len() > 0);
        if teardown.len() > 0 {
            assert(stages[0] == teardown[0]);
        } else {
            assert(stages[0] == setup[0]);
        }
    }
    let plan = StagedAction::spec_action_list_for_switch(config, vendor, from, to);
    if plan is StagedActions {
        let list = plan->StagedActions_0;
        if GfxRequiredUserAction::spec_mode_change_action(to, from)
            == GfxRequiredUserAction::Logout {
            let open = StagedAction::spec_bracket_open(config.no_logind);
            assert(list[0] == open[0]);
        } else {
            assert(list =~= stages);
        }
    }
    let boot = StagedAction::spec_action_list_for_boot(config, vendor, to);
    if to == GfxMode::Integrated || to == GfxMode::Vfio {
        let down = StagedAction::spec_teardown(vendor, GfxMode::Unset, to);
        assert(boot[0] == down[0]);
    }
}

impl StagedAction {
    /// The stages that switch the dGPU's or the eGPU's power.
    pub open spec fn is_power_toggle(self) -> bool {
        ||| self == StagedAction::HotplugUnplug
        ||| self == StagedAction::HotplugPlug
        ||| self == StagedAction::AsusDgpuDisable
        ||| self == StagedAction::AsusDgpuEnable
        ||| self == StagedAction::AsusEgpuDisable
        ||| self == StagedAction::AsusEgpuEnable
    }

    /// The stages that deal with the sessions and the display manager.
    pub open spec fn is_session_stage(self) -> bool {
        ||| self == StagedAction::WaitLogout
        ||| self == StagedAction::StopDisplayManager
        ||| self == StagedAction::StartDisplayManager
    }
}

/// Sessions are touched by those plans only that a logout is asked for, and
/// only where the session manager is used at all. Such a plan begins with
/// the wait for the logout and the stop of the display manager and ends with
/// the display manager's start; no other stage of it touches the sessions.
pub proof fn lemma_session_stages(
    config: GfxConfig,
    vendor: GfxVendor,
    from: GfxMode,
    to: GfxMode,
    i: int,
)
    requires
        StagedAction::spec_action_list_for_switch(config, vendor, from, to) is StagedActions,
        0 <= i < StagedAction::spec_action_list_for_switch(
            config,
            vendor,
            from,
            to,
        )->StagedActions_0.len(),
    ensures
        ({
            let list = StagedAction::spec_action_list_for_switch(
                config,
                vendor,
                from,
                to,
            )->StagedActions_0;
            let bracket = GfxRequiredUserAction::spec_mode_change_action(to, from)
                == GfxRequiredUserAction::Logout && !config.no_logind;
            &&& list[i].is_session_stage() ==> bracket
            &&& bracket ==> list.len() >= 3
            &&& bracket ==> (list[i] == StagedAction::WaitLogout <==> i == 0)
            &&& bracket ==> (list[i] == StagedAction::StopDisplayManager <==> i == 1)
            &&& bracket ==> (list[i] == StagedAction::StartDisplayManager <==> i == list.len() - 1)
        }),
{
    let action = GfxRequiredUserAction::spec_mode_change_action(to, from);
    let list = StagedAction::spec_action_list_for_switch(config, vendor, from, to)->StagedActions_0;
    let teardown = StagedAction::spec_teardown(vendor, from, to);
    let setup = StagedAction::spec_setup(config.hotplug_type, vendor, from, to);
    let stages = teardown + setup;
    assert forall|j: int| 0 <= j < stages.len() implies !(#[trigger] stages[j]).is_session_stage() by {
        if j < teardown.len() {
            assert(stages[j] == teardown[j]);
        } else {
            assert(stages[j] == setup[j - teardown.len()]);
        }
    }
    if action == GfxRequiredUserAction::Logout {
        let open = StagedAction::spec_bracket_open(config.no_logind);
        let close = StagedAction::spec_bracket_close(config.no_logind);
        assert(list =~= open + stages + close);
        if 2 <= i < list.len() - 1 {
            assert(list[i] == stages[i - 2]);
        }
    } else {
        assert(list =~= stages);
    }
}

} // verus!
