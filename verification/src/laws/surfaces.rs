//! The control centre: what it lists and what it says.

use vstd::prelude::*;

use crate::model::{
    ActionKindView, AuthRole, Connectivity, RuntimeState, UnavailableView, UsbClaimView, VmView,
    WlStateView,
};
use crate::text::{decimal, joined};
use crate::view_model::{
    asks_first, badge_class, badge_label, claim_text, claims_text, empty_text, group_env,
    group_envs, grouped, indicator_of, is_disruptive, label_of, law_groups_are_distinct,
    listed_vms, role_word, subtitle_parts, tooltip_for,
};

use super::rendering::counts;
use super::selection::{lemma_filter_selected, selected};

verus! {

/// The control centre lists the VMs that count, or all of them on request, in the
/// order of the state.
pub proof fn law_listed_vms_are_those_that_count(state: WlStateView, show_internal: bool)
    ensures
        selected(
            state.vms,
            listed_vms(state.vms, show_internal),
            |vm: VmView| show_internal || counts(vm),
        ),
{
    let listed = |vm: VmView| show_internal || vm.visible();
    let counted = |vm: VmView| show_internal || counts(vm);
    assert(listed =~= counted);
    lemma_filter_selected(state.vms, listed);
}

/// Whether a VM is of an environment; one that names none is of `default`.
pub open spec fn is_of(vm: VmView, env: Seq<char>) -> bool {
    vm.env == Some(env) || (vm.env is None && env == "default"@)
}

/// Each group holds the VMs of its environment, all of them and in their order.
pub proof fn law_groups_hold_their_environment(vms: Seq<VmView>, i: int)
    requires
        0 <= i < grouped(vms).len(),
    ensures
        selected(vms, grouped(vms)[i].vms, |vm: VmView| is_of(vm, grouped(vms)[i].env)),
{
    let env = grouped(vms)[i].env;
    let own = |vm: VmView| group_env(vm) == env;
    let named = |vm: VmView| is_of(vm, env);
    assert(own =~= named);
    lemma_filter_selected(vms, own);
}

proof fn lemma_first_appearance(vms: Seq<VmView>)
    ensures
        forall|i: int|
            0 <= i < group_envs(vms).len() ==> exists|k: int|
                0 <= k < vms.len() && group_env(#[trigger] vms[k]) == #[trigger] group_envs(vms)[i]
                    && appears_first(vms, i, k),
    decreases vms.len(),
{
    if vms.len() > 0 {
        let front = vms.drop_last();
        lemma_first_appearance(front);
        let before = group_envs(front);
        let envs = group_envs(vms);
        assert forall|i: int| 0 <= i < envs.len() implies exists|k: int|
            0 <= k < vms.len() && group_env(#[trigger] vms[k]) == #[trigger] envs[i]
                && appears_first(vms, i, k) by {
            if i < before.len() {
                let k = choose|k: int|
                    0 <= k < front.len() && group_env(#[trigger] front[k]) == before[i]
                        && appears_first(front, i, k);
                assert(front[k] == vms[k] && envs[i] == before[i]);
                assert forall|j: int, m: int|
                    i < j < envs.len() && 0 <= m <= k implies group_env(#[trigger] vms[m])
                    != #[trigger] envs[j] by {
                    assert(front[m] == vms[m]);
                    if j < before.len() {
                        assert(envs[j] == before[j]);
                    } else {
                        assert(!before.contains(envs[j]));
                        if group_env(vms[m]) == envs[j] {
                            lemma_env_is_grouped(front, m);
                        }
                    }
                }
            } else {
                let k = vms.len() - 1;
                assert(group_env(vms[k]) == envs[i]);
                assert(appears_first(vms, i, k));
            }
        }
    }
}

proof fn lemma_env_is_grouped(vms: Seq<VmView>, m: int)
    requires
        0 <= m < vms.len(),
    ensures
        group_envs(vms).contains(group_env(vms[m])),
    decreases vms.len(),
{
    let front = vms.drop_last();
    let before = group_envs(front);
    if m < front.len() {
        lemma_env_is_grouped(front, m);
        let i = choose|i: int| 0 <= i < before.len() && before[i] == group_env(front[m]);
        assert(group_envs(vms)[i] == before[i]);
    } else if !before.contains(group_env(vms[m])) {
        assert(group_envs(vms)[before.len() as int] == group_env(vms[m]));
    }
}

/// Whether no environment that heads a later group appears up to a place.
pub open spec fn appears_first(vms: Seq<VmView>, i: int, k: int) -> bool {
    forall|j: int, m: int|
        i < j < group_envs(vms).len() && 0 <= m <= k ==> group_env(#[trigger] vms[m])
            != #[trigger] group_envs(vms)[j]
}

/// The groups stand in the order in which their environments first appear: before any
/// VM of a later group there is one of an earlier group. Every VM is of the
/// environment of some group, and no two groups are of the same.
pub proof fn law_groups_stand_in_order_of_appearance(vms: Seq<VmView>, i: int, j: int) -> (k: int)
    requires
        0 <= i < j < grouped(vms).len(),
    ensures
        0 <= k < vms.len(),
        is_of(vms[k], grouped(vms)[i].env),
        forall|m: int| 0 <= m <= k ==> !is_of(#[trigger] vms[m], grouped(vms)[j].env),
        grouped(vms)[i].env != grouped(vms)[j].env,
{
    lemma_first_appearance(vms);
    law_groups_are_distinct(vms, i, j);
    assert(grouped(vms)[i].env == group_envs(vms)[i]);
    assert(grouped(vms)[j].env == group_envs(vms)[j]);
    let k = choose|k: int|
        0 <= k < vms.len() && group_env(#[trigger] vms[k]) == group_envs(vms)[i]
            && appears_first(vms, i, k);
    assert forall|m: int| 0 <= m <= k implies !is_of(#[trigger] vms[m], grouped(vms)[j].env) by {
        assert(group_env(vms[m]) != group_envs(vms)[j]);
    }
    k
}

/// Every listed VM stands in a group.
pub proof fn law_every_vm_has_a_group(vms: Seq<VmView>, m: int) -> (i: int)
    requires
        0 <= m < vms.len(),
    ensures
        0 <= i < grouped(vms).len(),
        is_of(vms[m], grouped(vms)[i].env),
{
    lemma_env_is_grouped(vms, m);
    choose|i: int| 0 <= i < group_envs(vms).len() && group_envs(vms)[i] == group_env(vms[m])
}

/// The badge of each state.
pub proof fn law_badges()
    ensures
        badge_label(RuntimeState::Running) == "Running"@,
        badge_label(RuntimeState::Stopped) == "Stopped"@,
        badge_label(RuntimeState::Starting) == "Starting"@,
        badge_label(RuntimeState::Stopping) == "Stopping"@,
        badge_label(RuntimeState::Unknown) == "Unknown"@,
        badge_class(RuntimeState::Running) == "state-running"@,
        badge_class(RuntimeState::Stopped) == "state-stopped"@,
        badge_class(RuntimeState::Starting) == "state-progress"@,
        badge_class(RuntimeState::Stopping) == "state-progress"@,
        badge_class(RuntimeState::Unknown) == "state-unknown"@,
        forall|left: RuntimeState, right: RuntimeState|
            #[trigger] badge_label(left) == #[trigger] badge_label(right) ==> left == right,
{
    reveal_strlit("Running");
    reveal_strlit("Stopped");
    reveal_strlit("Starting");
    reveal_strlit("Stopping");
    reveal_strlit("Unknown");
    assert("Running"@.len() == 7 && "Running"@[0] == 'R');
    assert("Stopped"@.len() == 7 && "Stopped"@[0] == 'S');
    assert("Unknown"@.len() == 7 && "Unknown"@[0] == 'U');
    assert("Starting"@.len() == 8 && "Starting"@[2] == 'a');
    assert("Stopping"@.len() == 8 && "Stopping"@[2] == 'o');
}

/// The name of each role.
pub proof fn law_role_names()
    ensures
        role_word(AuthRole::NoRole) == "none"@,
        role_word(AuthRole::Launcher) == "launcher"@,
        role_word(AuthRole::Admin) == "admin"@,
{
}

/// What a disabled control says of why it is.
pub proof fn law_tooltips(required: AuthRole, detail: Seq<char>, owner: Seq<char>)
    ensures
        tooltip_for(UnavailableView::DaemonDown) == "nixlingd is unreachable"@,
        required == AuthRole::Admin ==> tooltip_for(UnavailableView::InsufficientRole { required })
            == "requires "@ + "admin"@,
        required == AuthRole::Launcher ==> tooltip_for(
            UnavailableView::InsufficientRole { required },
        ) == "requires "@ + "launcher"@,
        tooltip_for(UnavailableView::VmState { detail }) == detail,
        tooltip_for(UnavailableView::UsbOwnedElsewhere { owner }) == "USB owned by "@ + owner,
        tooltip_for(UnavailableView::NotYetImplemented)
            == "unsupported by the current nixling audio control plane"@,
        tooltip_for(UnavailableView::Blocked { detail }) == detail,
{
}

/// The label of each action.
pub proof fn law_labels(
    vm: Seq<char>,
    bus_id: Seq<char>,
    id: Seq<char>,
    on: bool,
    level_percent: u8,
)
    ensures
        label_of(ActionKindView::Refresh) == "Refresh"@,
        label_of(ActionKindView::Start { vm }) == "Start"@,
        label_of(ActionKindView::Stop { vm }) == "Stop"@,
        label_of(ActionKindView::ForceStop { vm }) == "Force stop"@,
        label_of(ActionKindView::Restart { vm }) == "Restart"@,
        label_of(ActionKindView::Switch { vm }) == "Switch"@,
        label_of(ActionKindView::Build { vm }) == "Build"@,
        label_of(ActionKindView::Boot { vm }) == "Boot"@,
        label_of(ActionKindView::QuickLaunch { vm, id }) == "Quick launch"@,
        label_of(ActionKindView::UsbAttach { vm, bus_id }) == "USB attach "@ + bus_id,
        label_of(ActionKindView::UsbDetach { vm, bus_id }) == "USB detach "@ + bus_id,
        label_of(ActionKindView::StoreVerify { vm }) == "Store verify"@,
        label_of(ActionKindView::LaunchTerminal { vm }) == "Launch terminal"@,
        label_of(ActionKindView::AudioMic { vm, on }) == "Mic"@,
        label_of(ActionKindView::AudioSpeaker { vm, on }) == "Speaker"@,
        label_of(ActionKindView::AudioSpeakerVolume { vm, level_percent }) == "Speaker volume"@,
        label_of(ActionKindView::AudioMicGain { vm, level_percent }) == "Mic gain"@,
        label_of(ActionKindView::AudioOff { vm }) == "Audio off"@,
        label_of(ActionKindView::OpenControlCenter) == "Open control center"@,
        label_of(ActionKindView::OpenObservability) == "Open observability"@,
        label_of(ActionKindView::CycleDisplay) == "Cycle display"@,
{
}

/// Exactly stopping, forced or not, restarting and switching interrupt a VM.
pub proof fn law_what_interrupts_a_vm(action: ActionKindView)
    ensures
        is_disruptive(action) <==> (exists|vm: Seq<char>|
            action == (ActionKindView::Stop { vm }) || action == (ActionKindView::ForceStop { vm })
                || action == (ActionKindView::Restart { vm }) || action == (
            ActionKindView::Switch { vm })),
{
    if let ActionKindView::Stop { vm } = action {
        assert(action == (ActionKindView::Stop { vm }));
    }
    if let ActionKindView::ForceStop { vm } = action {
        assert(action == (ActionKindView::ForceStop { vm }));
    }
    if let ActionKindView::Restart { vm } = action {
        assert(action == (ActionKindView::Restart { vm }));
    }
    if let ActionKindView::Switch { vm } = action {
        assert(action == (ActionKindView::Switch { vm }));
    }
}

/// The indicator tells the role of a connected surface, and otherwise why there is
/// none.
pub proof fn law_indicator(state: WlStateView)
    ensures
        state.connectivity == Connectivity::DaemonDown ==> indicator_of(state) == "daemon down"@,
        state.connectivity == Connectivity::AuthDenied ==> indicator_of(state) == "role: none"@,
        state.connectivity == Connectivity::Connected && state.role == AuthRole::Admin
            ==> indicator_of(state) == "role: "@ + "admin"@,
        state.connectivity == Connectivity::Connected && state.role == AuthRole::Launcher
            ==> indicator_of(state) == "role: "@ + "launcher"@,
        state.connectivity == Connectivity::Connected && state.role == AuthRole::NoRole
            ==> indicator_of(state) == "role: "@ + "none"@,
{
}

/// A claim is told as available unless it is bound, and then with its owner where that
/// is known.
pub proof fn law_claims_are_told(claim: UsbClaimView)
    ensures
        !claim.bound ==> claim_text(claim) == claim.bus_id + " available"@,
        claim.bound && claim.owner_vm is None ==> claim_text(claim) == claim.bus_id + " bound"@,
        claim.bound && claim.owner_vm is Some ==> claim_text(claim) == claim.bus_id + " bound to "@
            + claim.owner_vm->Some_0,
{
}

/// One claim is told in full, several by how many there are and how many of them are
/// bound.
pub proof fn law_several_claims_are_counted(claims: Seq<UsbClaimView>) -> (bound: Seq<UsbClaimView>)
    ensures
        selected(claims, bound, |claim: UsbClaimView| claim.bound),
        claims.len() == 0 ==> claims_text(claims).len() == 0,
        claims.len() == 1 ==> claims_text(claims) == "USB "@ + claim_text(claims[0]),
        claims.len() > 1 ==> claims_text(claims) == "USB "@ + decimal(claims.len())
            + " claim(s), "@ + decimal(bound.len()) + " bound"@,
{
    lemma_filter_selected(claims, |claim: UsbClaimView| claim.bound);
    claims.filter(|claim: UsbClaimView| claim.bound)
}

/// The subtitle of a VM tells its address, what is ready, its claims, a pending
/// restart where that is shown, and whether it is a net VM or hidden.
pub proof fn law_subtitle(vm: VmView, show_pending_restart: bool)
    ensures
        subtitle_parts(vm, show_pending_restart) == seq![
            (if vm.static_ip is Some {
                "IP "@ + vm.static_ip->Some_0
            } else {
                "IP —"@
            }),
            (if vm.readiness.len() > 0 {
                "ready: "@ + joined(vm.readiness, ", "@)
            } else {
                "readiness not reported"@
            }),
        ] + (if claims_text(vm.usb).len() > 0 {
            seq![claims_text(vm.usb)]
        } else {
            Seq::empty()
        }) + (if vm.pending_restart && show_pending_restart {
            seq!["pending restart"@]
        } else {
            Seq::empty()
        }) + (if vm.is_net_vm {
            seq!["net VM"@]
        } else {
            Seq::empty()
        }) + (if vm.hidden {
            seq!["hidden"@]
        } else {
            Seq::empty()
        }),
{
}

/// Parts are joined with the separator between them and nowhere else.
pub proof fn law_joining(parts: Seq<Seq<char>>, part: Seq<char>, separator: Seq<char>)
    ensures
        joined(Seq::empty(), separator).len() == 0,
        joined(seq![part], separator) == part,
        parts.len() > 0 ==> joined(parts.push(part), separator) == joined(parts, separator)
            + separator + part,
{
    if parts.len() > 0 {
        assert(parts.push(part).drop_last() =~= parts);
    }
}

/// An action asks first exactly where it would interrupt a running VM.
pub proof fn law_confirmations(action: ActionKindView, state: RuntimeState)
    ensures
        asks_first(action, state) <==> state == RuntimeState::Running && (action is Stop
            || action is ForceStop || action is Restart || action is Switch),
{
}

/// What stands in for an empty list tells how to see more, where there may be more.
pub proof fn law_empty_lists()
    ensures
        empty_text(true) == "No VMs were reported by nixlingd."@,
        empty_text(false) == "No visible VMs. Enable “Internal” to show hidden and net VMs."@,
{
}

} // verus!
