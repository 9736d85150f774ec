//! Planning: what an action becomes, and what stands in its way.

use vstd::prelude::*;

use crate::config::{ConfigView, QuickLaunchConfigView, config_complaint};
use crate::model::{
    ActionAvailabilityView, ActionKindView, AuthRole, Connectivity, PlannedActionView,
    RuntimeState, SocketIntentView, UnavailableView, UsbClaimView, VmView, WlStateView,
};
use crate::plan::{
    all_claims, audio_actions, base_actions, blocked_by, listed_actions, listed_availability,
    needed_role, planned, role_rank, target_of, usb_actions, vm_named,
};
use crate::text::{
    first_where, lemma_first_where_at, lemma_first_where_holds, lemma_first_where_none,
};

verus! {

/// The outcome of planning a request for the daemon.
pub open spec fn asks(intent: SocketIntentView) -> Result<PlannedActionView, UnavailableView> {
    Ok(PlannedActionView::Socket { intent })
}

/// The outcome of planning a host command.
pub open spec fn runs(argv: Seq<Seq<char>>, wait: bool) -> Result<
    PlannedActionView,
    UnavailableView,
> {
    Ok(PlannedActionView::Process { argv, wait })
}

/// The outcome of planning what the runtime of a VM does not support.
pub open spec fn not_supported() -> Result<PlannedActionView, UnavailableView> {
    Err(UnavailableView::Blocked { detail: "unsupported by this VM runtime"@ })
}

/// The outcome of planning what the state of a VM or device rules out.
pub open spec fn ruled_out(detail: Seq<char>) -> Result<PlannedActionView, UnavailableView> {
    Err(UnavailableView::VmState { detail })
}

/// Whether the VM at a place is the one that a name means: the first of that name.
pub open spec fn is_meant(vms: Seq<VmView>, name: Seq<char>, at: int) -> bool {
    &&& 0 <= at < vms.len()
    &&& vms[at].name == name
    &&& forall|k: int| 0 <= k < at ==> (#[trigger] vms[k]).name != name
}

/// Whether a name means no VM.
pub open spec fn is_unknown(vms: Seq<VmView>, name: Seq<char>) -> bool {
    forall|k: int| 0 <= k < vms.len() ==> (#[trigger] vms[k]).name != name
}

/// A name means the first VM of that name, or none.
pub proof fn law_names_mean_the_first_vm(state: WlStateView, name: Seq<char>)
    ensures
        forall|at: int| #[trigger]
            is_meant(state.vms, name, at) ==> vm_named(state, name) == Some(state.vms[at]),
        is_unknown(state.vms, name) ==> vm_named(state, name) is None,
{
    let wanted = |vm: VmView| vm.name == name;
    assert forall|at: int| #[trigger] is_meant(state.vms, name, at) implies vm_named(state, name)
        == Some(state.vms[at]) by {
        lemma_first_where_at(state.vms, wanted, at);
    }
    if is_unknown(state.vms, name) {
        lemma_first_where_none(state.vms, wanted);
    }
}

/// Every action that can be planned asks the daemon for what it says, of the VM and
/// the device that it names.
pub proof fn law_actions_ask_for_what_they_say(
    state: WlStateView,
    config: ConfigView,
    vm: Seq<char>,
    bus_id: Seq<char>,
)
    ensures
        ({
            let start = planned(ActionKindView::Start { vm }, state, config);
            start is Ok ==> start == asks(SocketIntentView::VmStart { vm })
        }),
        ({
            let stop = planned(ActionKindView::Stop { vm }, state, config);
            stop is Ok ==> stop == asks(SocketIntentView::VmStop { vm, force: false })
        }),
        ({
            let force = planned(ActionKindView::ForceStop { vm }, state, config);
            force is Ok ==> force == asks(SocketIntentView::VmStop { vm, force: true })
        }),
        ({
            let restart = planned(ActionKindView::Restart { vm }, state, config);
            restart is Ok ==> restart == asks(SocketIntentView::VmRestart { vm })
        }),
        ({
            let switch = planned(ActionKindView::Switch { vm }, state, config);
            switch is Ok ==> switch == asks(SocketIntentView::Switch { vm })
        }),
        ({
            let boot = planned(ActionKindView::Boot { vm }, state, config);
            boot is Ok ==> boot == asks(SocketIntentView::Boot { vm })
        }),
        ({
            let attach = planned(ActionKindView::UsbAttach { vm, bus_id }, state, config);
            attach is Ok ==> attach == asks(SocketIntentView::UsbAttach { vm, bus_id })
        }),
        ({
            let detach = planned(ActionKindView::UsbDetach { vm, bus_id }, state, config);
            detach is Ok ==> detach == asks(SocketIntentView::UsbDetach { vm, bus_id })
        }),
        ({
            let verify = planned(ActionKindView::StoreVerify { vm }, state, config);
            verify is Ok ==> verify == asks(SocketIntentView::StoreVerify { vm })
        }),
        planned(ActionKindView::Refresh, state, config) == asks(SocketIntentView::List),
{
}

/// Building runs `d2b build` on the host and waits for it.
pub proof fn law_build_runs_on_the_host(state: WlStateView, config: ConfigView, vm: Seq<char>)
    ensures
        ({
            let build = planned(ActionKindView::Build { vm }, state, config);
            build is Ok ==> build == runs(seq!["d2b"@, "build"@, vm], true)
        }),
{
}

/// A terminal runs the configured guest argv, or the configured shell where there is
/// none, detached in the VM; the host command is waited for.
pub proof fn law_terminal_runs_in_the_guest(
    state: WlStateView,
    config: ConfigView,
    vm: Seq<char>,
)
    ensures
        ({
            let terminal = planned(ActionKindView::LaunchTerminal { vm }, state, config);
            let shown = seq!["d2b"@, "vm"@, "exec"@, "-d"@, vm, "--"@];
            &&& terminal is Ok && config.terminal.guest_argv.len() > 0 ==> terminal == runs(
                shown + config.terminal.guest_argv,
                true,
            )
            &&& terminal is Ok && config.terminal.guest_argv.len() == 0 ==> terminal == runs(
                shown.push(config.terminal.guest_shell),
                true,
            )
        }),
{
    let shown = seq!["d2b"@, "vm"@, "exec"@, "-d"@, vm, "--"@];
    assert(shown + seq![config.terminal.guest_shell] =~= shown.push(config.terminal.guest_shell));
}

/// A quick launch runs the guest argv of the first item of that VM and id, and
/// without such an item it is refused.
pub proof fn law_quick_launch_runs_its_item(
    state: WlStateView,
    config: ConfigView,
    vm: Seq<char>,
    id: Seq<char>,
    at: int,
)
    requires
        0 <= at < config.quick_launch.len(),
        config.quick_launch[at].vm == vm,
        config.quick_launch[at].id == id,
        forall|k: int|
            0 <= k < at ==> !((#[trigger] config.quick_launch[k]).vm == vm
                && config.quick_launch[k].id == id),
    ensures
        ({
            let launch = planned(ActionKindView::QuickLaunch { vm, id }, state, config);
            launch is Ok ==> launch == runs(
                seq!["d2b"@, "vm"@, "exec"@, "-d"@, vm, "--"@]
                    + config.quick_launch[at].guest_argv,
                true,
            )
        }),
{
    let wanted = |item: QuickLaunchConfigView| item.vm == vm && item.id == id;
    lemma_first_where_at(config.quick_launch, wanted, at);
}

/// A quick launch that is not configured for the VM is refused.
pub proof fn law_unknown_quick_launch_is_refused(
    state: WlStateView,
    config: ConfigView,
    vm: Seq<char>,
    id: Seq<char>,
)
    requires
        forall|k: int|
            0 <= k < config.quick_launch.len() ==> !((#[trigger] config.quick_launch[k]).vm == vm
                && config.quick_launch[k].id == id),
    ensures
        planned(ActionKindView::QuickLaunch { vm, id }, state, config) is Err,
        blocked_by(ActionKindView::QuickLaunch { vm, id }, state) is None && config_complaint(
            config,
        ) is None ==> planned(ActionKindView::QuickLaunch { vm, id }, state, config) == Err::<
            PlannedActionView,
            UnavailableView,
        >(
            UnavailableView::Blocked {
                detail: "quick launch '"@ + id + "' is not configured for "@ + vm,
            },
        ),
{
    let wanted = |item: QuickLaunchConfigView| item.vm == vm && item.id == id;
    lemma_first_where_none(config.quick_launch, wanted);
}

/// The portal opens whatever the daemon's state, once it is enabled and has a URL:
/// the browser argv with the URL behind it, not waited for.
pub proof fn law_portal_opens_the_url(state: WlStateView, config: ConfigView, url: Seq<char>)
    requires
        config_complaint(config) is None,
        config.observability.url == Some(url),
    ensures
        planned(ActionKindView::OpenObservability, state, config)
            == if config.observability.enabled {
            runs(config.observability.browser_argv.push(url), false)
        } else {
            Err(UnavailableView::Blocked { detail: "observability is disabled"@ })
        },
{
}

/// An enabled portal without a URL is refused.
pub proof fn law_portal_needs_a_url(state: WlStateView, config: ConfigView)
    requires
        config_complaint(config) is None,
        config.observability.enabled,
        config.observability.url is None,
    ensures
        planned(ActionKindView::OpenObservability, state, config) == Err::<
            PlannedActionView,
            UnavailableView,
        >(UnavailableView::Blocked { detail: "observability.url is not configured"@ }),
{
}

/// The control centre and the display mode are not the daemon's.
pub proof fn law_display_is_handled_here(state: WlStateView, config: ConfigView)
    ensures
        planned(ActionKindView::OpenControlCenter, state, config) == Err::<
            PlannedActionView,
            UnavailableView,
        >(UnavailableView::Blocked { detail: "handled in-process; not a d2b dispatch"@ }),
        planned(ActionKindView::CycleDisplay, state, config) == planned(
            ActionKindView::OpenControlCenter,
            state,
            config,
        ),
{
}

/// No audio control is driven.
pub proof fn law_audio_controls_are_inert(
    state: WlStateView,
    config: ConfigView,
    vm: Seq<char>,
    on: bool,
    level_percent: u8,
)
    ensures
        ({
            let inert = Err::<PlannedActionView, UnavailableView>(
                UnavailableView::NotYetImplemented,
            );
            &&& planned(ActionKindView::AudioMic { vm, on }, state, config) == inert
            &&& planned(ActionKindView::AudioSpeaker { vm, on }, state, config) == inert
            &&& planned(ActionKindView::AudioSpeakerVolume { vm, level_percent }, state, config)
                == inert
            &&& planned(ActionKindView::AudioMicGain { vm, level_percent }, state, config) == inert
            &&& planned(ActionKindView::AudioOff { vm }, state, config) == inert
        }),
{
}

/// For an administrator of a daemon that is up, an action on a known VM is planned
/// exactly where the runtime supports it and the state of the VM leaves something to
/// do; otherwise the reason says which of the two fails.
pub proof fn law_known_vm_gates_its_actions(
    state: WlStateView,
    config: ConfigView,
    vm: Seq<char>,
    at: int,
)
    requires
        state.connectivity != Connectivity::DaemonDown,
        state.role == AuthRole::Admin,
        is_meant(state.vms, vm, at),
    ensures
        ({
            let target = state.vms[at];
            &&& planned(ActionKindView::Start { vm }, state, config)
                == if !target.capabilities.start {
                not_supported()
            } else if target.state == RuntimeState::Running {
                ruled_out("VM is already running"@)
            } else {
                asks(SocketIntentView::VmStart { vm })
            }
            &&& planned(ActionKindView::Stop { vm }, state, config)
                == if !target.capabilities.stop {
                not_supported()
            } else if target.state == RuntimeState::Stopped {
                ruled_out("VM is not running"@)
            } else {
                asks(SocketIntentView::VmStop { vm, force: false })
            }
            &&& planned(ActionKindView::ForceStop { vm }, state, config)
                == if !target.capabilities.stop {
                not_supported()
            } else if target.state == RuntimeState::Stopped {
                ruled_out("VM is not running"@)
            } else {
                asks(SocketIntentView::VmStop { vm, force: true })
            }
            &&& planned(ActionKindView::Restart { vm }, state, config)
                == if !target.capabilities.restart {
                not_supported()
            } else if target.state == RuntimeState::Stopped {
                ruled_out("VM is not running"@)
            } else {
                asks(SocketIntentView::VmRestart { vm })
            }
            &&& planned(ActionKindView::Switch { vm }, state, config)
                == if !target.capabilities.switch {
                not_supported()
            } else if target.state == RuntimeState::Stopped {
                ruled_out("VM is not running"@)
            } else {
                asks(SocketIntentView::Switch { vm })
            }
            &&& planned(ActionKindView::Boot { vm }, state, config)
                == if !target.capabilities.boot {
                not_supported()
            } else {
                asks(SocketIntentView::Boot { vm })
            }
            &&& planned(ActionKindView::StoreVerify { vm }, state, config)
                == if !target.capabilities.store_verify {
                not_supported()
            } else {
                asks(SocketIntentView::StoreVerify { vm })
            }
            &&& planned(ActionKindView::Build { vm }, state, config)
                == if !target.capabilities.build {
                not_supported()
            } else {
                runs(seq!["d2b"@, "build"@, vm], true)
            }
        }),
{
    law_names_mean_the_first_vm(state, vm);
}

/// A terminal or a quick launch needs a running VM whose runtime can run guest
/// commands, and a valid configuration.
pub proof fn law_guest_commands_need_a_running_vm(
    state: WlStateView,
    config: ConfigView,
    vm: Seq<char>,
    id: Seq<char>,
    at: int,
)
    requires
        state.connectivity != Connectivity::DaemonDown,
        state.role == AuthRole::Admin,
        is_meant(state.vms, vm, at),
    ensures
        ({
            let target = state.vms[at];
            let terminal = planned(ActionKindView::LaunchTerminal { vm }, state, config);
            let launch = planned(ActionKindView::QuickLaunch { vm, id }, state, config);
            &&& !target.capabilities.terminal ==> terminal == not_supported() && launch
                == not_supported()
            &&& target.capabilities.terminal && target.state != RuntimeState::Running ==> terminal
                == ruled_out("start the VM before opening a terminal"@) && launch == ruled_out(
                "start the VM before using quick launch"@,
            )
            &&& target.capabilities.terminal && target.state == RuntimeState::Running ==> (
            terminal is Ok <==> config_complaint(config) is None)
            &&& launch is Ok ==> config_complaint(config) is None
            &&& target.capabilities.terminal && target.state == RuntimeState::Running
                && config_complaint(config) is None ==> (launch is Ok <==> exists|k: int|
                0 <= k < config.quick_launch.len() && (#[trigger] config.quick_launch[k]).vm == vm
                    && config.quick_launch[k].id == id)
        }),
{
    law_names_mean_the_first_vm(state, vm);
    let wanted = |item: QuickLaunchConfigView| item.vm == vm && item.id == id;
    lemma_first_where_holds(config.quick_launch, wanted);
    let launch = planned(ActionKindView::QuickLaunch { vm, id }, state, config);
    if exists|k: int|
        0 <= k < config.quick_launch.len() && (#[trigger] config.quick_launch[k]).vm == vm
            && config.quick_launch[k].id == id {
        let k = choose|k: int|
            0 <= k < config.quick_launch.len() && (#[trigger] config.quick_launch[k]).vm == vm
                && config.quick_launch[k].id == id;
        assert(wanted(config.quick_launch[k]));
    } else {
        assert forall|k: int|
            0 <= k < config.quick_launch.len() implies !wanted(#[trigger] config.quick_launch[k]) by {}
        lemma_first_where_none(config.quick_launch, wanted);
    }
}

/// A VM that is not listed is left to the daemon: an administrator may ask for
/// anything of it.
pub proof fn law_unknown_vm_is_left_to_the_daemon(
    state: WlStateView,
    config: ConfigView,
    vm: Seq<char>,
)
    requires
        state.connectivity != Connectivity::DaemonDown,
        state.role == AuthRole::Admin,
        is_unknown(state.vms, vm),
    ensures
        planned(ActionKindView::Start { vm }, state, config) is Ok,
        planned(ActionKindView::Stop { vm }, state, config) is Ok,
        planned(ActionKindView::ForceStop { vm }, state, config) is Ok,
        planned(ActionKindView::Restart { vm }, state, config) is Ok,
        planned(ActionKindView::Switch { vm }, state, config) is Ok,
        planned(ActionKindView::Boot { vm }, state, config) is Ok,
        planned(ActionKindView::Build { vm }, state, config) is Ok,
        planned(ActionKindView::StoreVerify { vm }, state, config) is Ok,
        planned(ActionKindView::LaunchTerminal { vm }, state, config) is Ok <==> config_complaint(
            config,
        ) is None,
{
    law_names_mean_the_first_vm(state, vm);
}

/// Whatever the VM, only an administrator may change anything or enter a guest, and
/// only a launcher or an administrator may build.
pub proof fn law_roles_gate_actions(
    state: WlStateView,
    config: ConfigView,
    vm: Seq<char>,
    bus_id: Seq<char>,
    id: Seq<char>,
)
    requires
        state.connectivity != Connectivity::DaemonDown,
    ensures
        state.role != AuthRole::Admin ==> ({
            let denied = Err::<PlannedActionView, UnavailableView>(
                UnavailableView::InsufficientRole { required: AuthRole::Admin },
            );
            &&& planned(ActionKindView::Start { vm }, state, config) == denied
            &&& planned(ActionKindView::Stop { vm }, state, config) == denied
            &&& planned(ActionKindView::ForceStop { vm }, state, config) == denied
            &&& planned(ActionKindView::Restart { vm }, state, config) == denied
            &&& planned(ActionKindView::Switch { vm }, state, config) == denied
            &&& planned(ActionKindView::Boot { vm }, state, config) == denied
            &&& planned(ActionKindView::UsbAttach { vm, bus_id }, state, config) == denied
            &&& planned(ActionKindView::UsbDetach { vm, bus_id }, state, config) == denied
            &&& planned(ActionKindView::StoreVerify { vm }, state, config) == denied
            &&& planned(ActionKindView::LaunchTerminal { vm }, state, config) == denied
            &&& planned(ActionKindView::QuickLaunch { vm, id }, state, config) == denied
        }),
        state.role == AuthRole::NoRole ==> planned(ActionKindView::Build { vm }, state, config)
            == Err::<PlannedActionView, UnavailableView>(
            UnavailableView::InsufficientRole { required: AuthRole::Launcher },
        ),
        state.role == AuthRole::Launcher ==> planned(ActionKindView::Build { vm }, state, config)
            == planned(
            ActionKindView::Build { vm },
            WlStateView { role: AuthRole::Admin, ..state },
            config,
        ),
{
}

/// While the daemon is down nothing can be asked of it.
pub proof fn law_nothing_is_asked_of_a_daemon_that_is_down(
    state: WlStateView,
    config: ConfigView,
    vm: Seq<char>,
    bus_id: Seq<char>,
    id: Seq<char>,
)
    requires
        state.connectivity == Connectivity::DaemonDown,
    ensures
        ({
            let down = Err::<PlannedActionView, UnavailableView>(UnavailableView::DaemonDown);
            &&& planned(ActionKindView::Start { vm }, state, config) == down
            &&& planned(ActionKindView::Stop { vm }, state, config) == down
            &&& planned(ActionKindView::ForceStop { vm }, state, config) == down
            &&& planned(ActionKindView::Restart { vm }, state, config) == down
            &&& planned(ActionKindView::Switch { vm }, state, config) == down
            &&& planned(ActionKindView::Boot { vm }, state, config) == down
            &&& planned(ActionKindView::Build { vm }, state, config) == down
            &&& planned(ActionKindView::UsbAttach { vm, bus_id }, state, config) == down
            &&& planned(ActionKindView::UsbDetach { vm, bus_id }, state, config) == down
            &&& planned(ActionKindView::StoreVerify { vm }, state, config) == down
            &&& planned(ActionKindView::LaunchTerminal { vm }, state, config) == down
            &&& planned(ActionKindView::QuickLaunch { vm, id }, state, config) == down
        }),
{
}

/// The roles, from the least to the greatest, and what each action needs.
pub proof fn law_roles_are_ordered(vm: Seq<char>, bus_id: Seq<char>, id: Seq<char>)
    ensures
        role_rank(AuthRole::NoRole) < role_rank(AuthRole::Launcher),
        role_rank(AuthRole::Launcher) < role_rank(AuthRole::Admin),
        needed_role(ActionKindView::Start { vm }) == AuthRole::Admin,
        needed_role(ActionKindView::Stop { vm }) == AuthRole::Admin,
        needed_role(ActionKindView::ForceStop { vm }) == AuthRole::Admin,
        needed_role(ActionKindView::Restart { vm }) == AuthRole::Admin,
        needed_role(ActionKindView::Switch { vm }) == AuthRole::Admin,
        needed_role(ActionKindView::Boot { vm }) == AuthRole::Admin,
        needed_role(ActionKindView::UsbAttach { vm, bus_id }) == AuthRole::Admin,
        needed_role(ActionKindView::UsbDetach { vm, bus_id }) == AuthRole::Admin,
        needed_role(ActionKindView::StoreVerify { vm }) == AuthRole::Admin,
        needed_role(ActionKindView::LaunchTerminal { vm }) == AuthRole::Admin,
        needed_role(ActionKindView::QuickLaunch { vm, id }) == AuthRole::Admin,
        needed_role(ActionKindView::Build { vm }) == AuthRole::Launcher,
        needed_role(ActionKindView::Refresh) == AuthRole::NoRole,
        needed_role(ActionKindView::OpenControlCenter) == AuthRole::NoRole,
        needed_role(ActionKindView::OpenObservability) == AuthRole::NoRole,
        needed_role(ActionKindView::CycleDisplay) == AuthRole::NoRole,
        needed_role(ActionKindView::AudioOff { vm }) == AuthRole::NoRole,
{
}

/// Whether the claim at a place is the first on a busid, VM after VM.
pub open spec fn is_first_claim(vms: Seq<VmView>, bus_id: Seq<char>, at: int, within: int) -> bool {
    &&& 0 <= at < vms.len()
    &&& 0 <= within < vms[at].usb.len()
    &&& vms[at].usb[within].bus_id == bus_id
    &&& forall|k: int, c: int|
        0 <= k < at && 0 <= c < vms[k].usb.len() ==> (#[trigger] vms[k].usb[c]).bus_id != bus_id
    &&& forall|c: int| 0 <= c < within ==> (#[trigger] vms[at].usb[c]).bus_id != bus_id
}

/// Whether no VM has a claim on a busid.
pub open spec fn is_unclaimed(vms: Seq<VmView>, bus_id: Seq<char>) -> bool {
    forall|k: int, c: int|
        0 <= k < vms.len() && 0 <= c < vms[k].usb.len() ==> (#[trigger] vms[k].usb[c]).bus_id
            != bus_id
}

proof fn lemma_first_claim(vms: Seq<VmView>, bus_id: Seq<char>, at: int, within: int)
    requires
        is_first_claim(vms, bus_id, at, within),
    ensures
        first_where(all_claims(vms), |claim: UsbClaimView| claim.bus_id == bus_id) == Some(
            vms[at].usb[within],
        ),
    decreases vms.len(),
{
    let wanted = |claim: UsbClaimView| claim.bus_id == bus_id;
    let all = all_claims(vms);
    let own = vms[0].usb;
    let rest = all_claims(vms.drop_first());
    if at == 0 {
        assert(all[within] == own[within]);
        assert forall|i: int| 0 <= i < within implies !wanted(#[trigger] all[i]) by {
            assert(all[i] == vms[0].usb[i]);
        }
        lemma_first_where_at(all, wanted, within);
    } else {
        let tail = vms.drop_first();
        assert(tail[at - 1] == vms[at]);
        assert forall|k: int, c: int|
            0 <= k < at - 1 && 0 <= c < tail[k].usb.len() implies (#[trigger] tail[k].usb[c]).bus_id
            != bus_id by {
            assert(tail[k] == vms[k + 1]);
            assert(vms[k + 1].usb[c].bus_id != bus_id);
        }
        assert forall|c: int| 0 <= c < within implies (#[trigger] tail[at - 1].usb[c]).bus_id
            != bus_id by {
            assert(vms[at].usb[c].bus_id != bus_id);
        }
        lemma_first_claim(tail, bus_id, at - 1, within);
        lemma_skip_unwanted(own, rest, wanted, bus_id, vms);
    }
}

proof fn lemma_skip_unwanted(
    own: Seq<UsbClaimView>,
    rest: Seq<UsbClaimView>,
    wanted: spec_fn(UsbClaimView) -> bool,
    bus_id: Seq<char>,
    vms: Seq<VmView>,
)
    requires
        vms.len() > 0,
        own == vms[0].usb,
        wanted == |claim: UsbClaimView| claim.bus_id == bus_id,
        forall|c: int| 0 <= c < vms[0].usb.len() ==> (#[trigger] vms[0].usb[c]).bus_id != bus_id,
    ensures
        first_where(own + rest, wanted) == first_where(rest, wanted),
{
    assert forall|i: int| 0 <= i < own.len() implies !wanted(#[trigger] own[i]) by {
        assert(vms[0].usb[i].bus_id != bus_id);
    }
    lemma_first_where_behind(own, rest, wanted);
}

proof fn lemma_first_where_behind<A>(own: Seq<A>, rest: Seq<A>, wanted: spec_fn(A) -> bool)
    requires
        forall|i: int| 0 <= i < own.len() ==> !wanted(#[trigger] own[i]),
    ensures
        first_where(own + rest, wanted) == first_where(rest, wanted),
    decreases own.len(),
{
    if own.len() == 0 {
        assert(own + rest =~= rest);
    } else {
        assert((own + rest)[0] == own[0]);
        assert((own + rest).drop_first() =~= own.drop_first() + rest);
        lemma_first_where_behind(own.drop_first(), rest, wanted);
    }
}

proof fn lemma_unclaimed(vms: Seq<VmView>, bus_id: Seq<char>)
    requires
        is_unclaimed(vms, bus_id),
    ensures
        first_where(all_claims(vms), |claim: UsbClaimView| claim.bus_id == bus_id) is None,
    decreases vms.len(),
{
    let wanted = |claim: UsbClaimView| claim.bus_id == bus_id;
    if vms.len() > 0 {
        let tail = vms.drop_first();
        assert forall|k: int, c: int|
            0 <= k < tail.len() && 0 <= c < tail[k].usb.len() implies (
        #[trigger] tail[k].usb[c]).bus_id != bus_id by {
            assert(tail[k] == vms[k + 1]);
            assert(vms[k + 1].usb[c].bus_id != bus_id);
        }
        lemma_unclaimed(tail, bus_id);
        lemma_skip_unwanted(vms[0].usb, all_claims(tail), wanted, bus_id, vms);
    }
}

/// The outcome of planning to take a device that another VM holds.
pub open spec fn held_by(owner: Seq<char>) -> Result<PlannedActionView, UnavailableView> {
    Err(UnavailableView::UsbOwnedElsewhere { owner })
}

/// A claimed device can be attached unless it is bound to another VM, and detached
/// only where it is bound to the VM that is named. The first claim on the busid
/// decides.
pub proof fn law_claims_gate_devices(
    state: WlStateView,
    config: ConfigView,
    vm: Seq<char>,
    bus_id: Seq<char>,
    at: int,
    within: int,
)
    requires
        state.connectivity != Connectivity::DaemonDown,
        state.role == AuthRole::Admin,
        is_first_claim(state.vms, bus_id, at, within),
        forall|k: int|
            is_meant(state.vms, vm, k) ==> (#[trigger] state.vms[k]).capabilities.usb_hotplug,
    ensures
        ({
            let claim = state.vms[at].usb[within];
            let attach = planned(ActionKindView::UsbAttach { vm, bus_id }, state, config);
            let detach = planned(ActionKindView::UsbDetach { vm, bus_id }, state, config);
            &&& !claim.bound ==> attach == asks(SocketIntentView::UsbAttach { vm, bus_id })
                && detach == ruled_out("device is not bound"@)
            &&& claim.bound && claim.owner_vm is None ==> attach == asks(
                SocketIntentView::UsbAttach { vm, bus_id },
            ) && detach == ruled_out("device has no known owner"@)
            &&& claim.bound && claim.owner_vm == Some(vm) ==> attach == asks(
                SocketIntentView::UsbAttach { vm, bus_id },
            ) && detach == asks(SocketIntentView::UsbDetach { vm, bus_id })
            &&& claim.bound && claim.owner_vm is Some && claim.owner_vm->Some_0 != vm ==> attach
                == held_by(claim.owner_vm->Some_0) && detach == held_by(claim.owner_vm->Some_0)
        }),
{
    lemma_first_claim(state.vms, bus_id, at, within);
    lemma_meant_or_unknown(state, vm);
}

proof fn lemma_meant_or_unknown(state: WlStateView, vm: Seq<char>)
    ensures
        is_unknown(state.vms, vm) && vm_named(state, vm) is None || exists|k: int|
            #[trigger] is_meant(state.vms, vm, k) && vm_named(state, vm) == Some(state.vms[k]),
{
    law_names_mean_the_first_vm(state, vm);
    lemma_some_meant(state.vms, vm);
}

proof fn lemma_some_meant(vms: Seq<VmView>, vm: Seq<char>)
    ensures
        is_unknown(vms, vm) || exists|k: int| #[trigger] is_meant(vms, vm, k),
    decreases vms.len(),
{
    if vms.len() > 0 {
        let front = vms.drop_last();
        lemma_some_meant(front, vm);
        if exists|k: int| #[trigger] is_meant(front, vm, k) {
            let k = choose|k: int| #[trigger] is_meant(front, vm, k);
            assert forall|j: int| 0 <= j < k implies (#[trigger] vms[j]).name != vm by {
                assert(front[j] == vms[j]);
            }
            assert(is_meant(vms, vm, k));
        } else if vms.last().name == vm {
            let k = vms.len() - 1;
            assert forall|j: int| 0 <= j < k implies (#[trigger] vms[j]).name != vm by {
                assert(front[j] == vms[j]);
            }
            assert(is_meant(vms, vm, k));
        } else {
            assert forall|j: int| 0 <= j < vms.len() implies (#[trigger] vms[j]).name != vm by {
                if j < front.len() {
                    assert(front[j] == vms[j]);
                }
            }
        }
    }
}

/// A device that no VM claims can be attached and not detached.
pub proof fn law_unclaimed_devices_are_free(
    state: WlStateView,
    config: ConfigView,
    vm: Seq<char>,
    bus_id: Seq<char>,
)
    requires
        state.connectivity != Connectivity::DaemonDown,
        state.role == AuthRole::Admin,
        is_unclaimed(state.vms, bus_id),
        forall|k: int|
            is_meant(state.vms, vm, k) ==> (#[trigger] state.vms[k]).capabilities.usb_hotplug,
    ensures
        planned(ActionKindView::UsbAttach { vm, bus_id }, state, config) == asks(
            SocketIntentView::UsbAttach { vm, bus_id },
        ),
        planned(ActionKindView::UsbDetach { vm, bus_id }, state, config) == ruled_out(
            "device is not bound"@,
        ),
{
    lemma_unclaimed(state.vms, bus_id);
    lemma_meant_or_unknown(state, vm);
}

/// A runtime without hotplug takes and gives no device.
pub proof fn law_devices_need_hotplug(
    state: WlStateView,
    config: ConfigView,
    vm: Seq<char>,
    bus_id: Seq<char>,
    at: int,
)
    requires
        state.connectivity != Connectivity::DaemonDown,
        state.role == AuthRole::Admin,
        is_meant(state.vms, vm, at),
        !state.vms[at].capabilities.usb_hotplug,
    ensures
        planned(ActionKindView::UsbAttach { vm, bus_id }, state, config) == not_supported(),
        planned(ActionKindView::UsbDetach { vm, bus_id }, state, config) == not_supported(),
{
    law_names_mean_the_first_vm(state, vm);
}

/// What blocks an action in a state is what planning it fails with.
pub proof fn law_blocks_are_what_planning_says(
    action: ActionKindView,
    state: WlStateView,
    config: ConfigView,
)
    ensures
        blocked_by(action, state) is Some ==> planned(action, state, config) == Err::<
            PlannedActionView,
            UnavailableView,
        >(blocked_by(action, state)->Some_0),
        blocked_by(action, state) is None && !(action is LaunchTerminal || action is QuickLaunch
            || action is OpenObservability || action is OpenControlCenter
            || action is CycleDisplay) ==> planned(action, state, config) is Ok,
{
}

/// Each action targets the VM that it names, and no other action targets one.
pub proof fn law_actions_target_their_vm(
    vm: Seq<char>,
    bus_id: Seq<char>,
    id: Seq<char>,
    on: bool,
    level_percent: u8,
)
    ensures
        target_of(ActionKindView::Start { vm }) == Some(vm),
        target_of(ActionKindView::Stop { vm }) == Some(vm),
        target_of(ActionKindView::ForceStop { vm }) == Some(vm),
        target_of(ActionKindView::Restart { vm }) == Some(vm),
        target_of(ActionKindView::Switch { vm }) == Some(vm),
        target_of(ActionKindView::Build { vm }) == Some(vm),
        target_of(ActionKindView::Boot { vm }) == Some(vm),
        target_of(ActionKindView::QuickLaunch { vm, id }) == Some(vm),
        target_of(ActionKindView::UsbAttach { vm, bus_id }) == Some(vm),
        target_of(ActionKindView::UsbDetach { vm, bus_id }) == Some(vm),
        target_of(ActionKindView::StoreVerify { vm }) == Some(vm),
        target_of(ActionKindView::LaunchTerminal { vm }) == Some(vm),
        target_of(ActionKindView::AudioMic { vm, on }) == Some(vm),
        target_of(ActionKindView::AudioSpeaker { vm, on }) == Some(vm),
        target_of(ActionKindView::AudioSpeakerVolume { vm, level_percent }) == Some(vm),
        target_of(ActionKindView::AudioMicGain { vm, level_percent }) == Some(vm),
        target_of(ActionKindView::AudioOff { vm }) == Some(vm),
        target_of(ActionKindView::Refresh) is None,
        target_of(ActionKindView::OpenControlCenter) is None,
        target_of(ActionKindView::OpenObservability) is None,
        target_of(ActionKindView::CycleDisplay) is None,
{
}

/// Whether a listed entry is for an action.
pub open spec fn lists(entry: ActionAvailabilityView, action: ActionKindView) -> bool {
    entry.action == action
}

proof fn lemma_usb_actions_alternate(claims: Seq<UsbClaimView>, vm: Seq<char>)
    ensures
        usb_actions(claims, vm).len() == 2 * claims.len(),
        forall|c: int|
            #![trigger claims[c]]
            0 <= c < claims.len() ==> usb_actions(claims, vm)[2 * c] == (
            ActionKindView::UsbAttach { vm, bus_id: claims[c].bus_id }) && usb_actions(claims, vm)[2
                * c + 1] == (ActionKindView::UsbDetach { vm, bus_id: claims[c].bus_id }),
    decreases claims.len(),
{
    if claims.len() > 0 {
        let front = claims.drop_last();
        lemma_usb_actions_alternate(front, vm);
        assert forall|c: int|
            #![trigger claims[c]]
            0 <= c < claims.len() implies usb_actions(claims, vm)[2 * c] == (
        ActionKindView::UsbAttach { vm, bus_id: claims[c].bus_id }) && usb_actions(claims, vm)[2 * c
            + 1] == (ActionKindView::UsbDetach { vm, bus_id: claims[c].bus_id }) by {
            if c < front.len() {
                assert(front[c] == claims[c]);
            }
        }
    }
}

/// The control centre lists the lifecycle, terminal and store actions of a VM, then
/// an attach and a detach for each of its USB claims, then its audio controls.
pub proof fn law_listing_of_a_known_vm(
    state: WlStateView,
    config: ConfigView,
    vm: Seq<char>,
    at: int,
)
    requires
        is_meant(state.vms, vm, at),
    ensures
        ({
            let usb = state.vms[at].usb;
            let listed = listed_availability(state, config, vm);
            &&& listed.len() == 12 + 2 * usb.len()
            &&& lists(listed[0], ActionKindView::Start { vm })
            &&& lists(listed[1], ActionKindView::Stop { vm })
            &&& lists(listed[2], ActionKindView::ForceStop { vm })
            &&& lists(listed[3], ActionKindView::Restart { vm })
            &&& lists(listed[4], ActionKindView::LaunchTerminal { vm })
            &&& lists(listed[5], ActionKindView::StoreVerify { vm })
            &&& lists(listed[6], ActionKindView::Build { vm })
            &&& lists(listed[7], ActionKindView::Boot { vm })
            &&& lists(listed[8], ActionKindView::Switch { vm })
            &&& forall|c: int|
                #![trigger usb[c]]
                0 <= c < usb.len() ==> lists(
                    listed[9 + 2 * c],
                    ActionKindView::UsbAttach { vm, bus_id: usb[c].bus_id },
                ) && lists(
                    listed[10 + 2 * c],
                    ActionKindView::UsbDetach { vm, bus_id: usb[c].bus_id },
                )
            &&& lists(listed[listed.len() - 3], ActionKindView::AudioMic { vm, on: true })
            &&& lists(listed[listed.len() - 2], ActionKindView::AudioSpeaker { vm, on: true })
            &&& lists(listed[listed.len() - 1], ActionKindView::AudioOff { vm })
        }),
{
    law_names_mean_the_first_vm(state, vm);
    let usb = state.vms[at].usb;
    lemma_usb_actions_alternate(usb, vm);
    let actions = listed_actions(state, vm);
    let devices = usb_actions(usb, vm);
    assert(actions =~= base_actions(vm) + devices + audio_actions(vm));
    assert forall|c: int|
        #![trigger usb[c]]
        0 <= c < usb.len() implies lists(
        listed_availability(state, config, vm)[9 + 2 * c],
        ActionKindView::UsbAttach { vm, bus_id: usb[c].bus_id },
    ) && lists(
        listed_availability(state, config, vm)[10 + 2 * c],
        ActionKindView::UsbDetach { vm, bus_id: usb[c].bus_id },
    ) by {
        assert(actions[9 + 2 * c] == devices[2 * c]);
        assert(actions[10 + 2 * c] == devices[2 * c + 1]);
    }
}

/// The listing of a VM that is not known leaves out only the devices.
pub proof fn law_listing_of_an_unknown_vm(state: WlStateView, config: ConfigView, vm: Seq<char>)
    requires
        is_unknown(state.vms, vm),
    ensures
        ({
            let listed = listed_availability(state, config, vm);
            &&& listed.len() == 12
            &&& lists(listed[0], ActionKindView::Start { vm })
            &&& lists(listed[1], ActionKindView::Stop { vm })
            &&& lists(listed[2], ActionKindView::ForceStop { vm })
            &&& lists(listed[3], ActionKindView::Restart { vm })
            &&& lists(listed[4], ActionKindView::LaunchTerminal { vm })
            &&& lists(listed[5], ActionKindView::StoreVerify { vm })
            &&& lists(listed[6], ActionKindView::Build { vm })
            &&& lists(listed[7], ActionKindView::Boot { vm })
            &&& lists(listed[8], ActionKindView::Switch { vm })
            &&& lists(listed[9], ActionKindView::AudioMic { vm, on: true })
            &&& lists(listed[10], ActionKindView::AudioSpeaker { vm, on: true })
            &&& lists(listed[11], ActionKindView::AudioOff { vm })
        }),
{
    law_names_mean_the_first_vm(state, vm);
    assert(listed_actions(state, vm) =~= base_actions(vm) + audio_actions(vm));
}

} // verus!
