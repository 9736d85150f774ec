//! What the control centre shows: groups, badges, labels and tooltips.

use vstd::prelude::*;

use crate::model::{
    ActionKind, ActionKindView, AuthRole, Connectivity, RuntimeState, Unavailable, UnavailableView,
    UsbClaim, UsbClaimView, Vm, VmView, WlState, WlStateView,
};
use crate::plan::{action_target_vm, target_of};
use crate::text::{decimal, decimal_text, empty, join, joined, opt_view, views};

verus! {

/// The VMs of one environment.
#[derive(Debug, PartialEq, Eq)]
pub struct VmGroup {
    pub env: String,
    pub vms: Vec<Vm>,
}

/// The mathematical form of [`VmGroup`].
#[verifier::ext_equal]
pub struct VmGroupView {
    pub env: Seq<char>,
    pub vms: Seq<VmView>,
}

impl View for VmGroup {
    type V = VmGroupView;

    open spec fn view(&self) -> VmGroupView {
        VmGroupView {
            env: self.env@,
            vms: views(self.vms@),
        }
    }
}

impl Clone for VmGroup {
    fn clone(&self) -> (copy: Self)
        ensures
            copy@ == self@,
    {
        VmGroup {
            env: self.env.clone(),
            vms: self.vms.clone(),
        }
    }
}

/// The environment a VM is grouped under.
pub open spec fn group_env(vm: VmView) -> Seq<char> {
    match vm.env {
        Some(env) => env,
        None => "default"@,
    }
}

/// The environments of some VMs, each once, in order of first appearance.
pub open spec fn group_envs(vms: Seq<VmView>) -> Seq<Seq<char>>
    decreases vms.len(),
{
    if vms.len() == 0 {
        Seq::empty()
    } else {
        let before = group_envs(vms.drop_last());
        if before.contains(group_env(vms.last())) {
            before
        } else {
            before.push(group_env(vms.last()))
        }
    }
}

/// The VMs of one environment, in order.
pub open spec fn group_members(vms: Seq<VmView>, env: Seq<char>) -> Seq<VmView> {
    vms.filter(|vm: VmView| group_env(vm) == env)
}

/// Some VMs grouped by environment.
pub open spec fn grouped(vms: Seq<VmView>) -> Seq<VmGroupView> {
    Seq::new(
        group_envs(vms).len(),
        |i: int| VmGroupView { env: group_envs(vms)[i], vms: group_members(vms, group_envs(vms)[i]) },
    )
}

/// The VMs the control centre lists: the visible ones, or all.
pub open spec fn listed_vms(vms: Seq<VmView>, show_internal: bool) -> Seq<VmView> {
    vms.filter(|vm: VmView| show_internal || vm.visible())
}

proof fn lemma_group_envs(vms: Seq<VmView>)
    ensures
        forall|i: int, j: int|
            0 <= i < j < group_envs(vms).len() ==> #[trigger] group_envs(vms)[i]
                != #[trigger] group_envs(vms)[j],
        forall|k: int|
            0 <= k < vms.len() ==> group_envs(vms).contains(group_env(#[trigger] vms[k])),
    decreases vms.len(),
{
    if vms.len() > 0 {
        let front = vms.drop_last();
        lemma_group_envs(front);
        let before = group_envs(front);
        let last = group_env(vms.last());
        assert forall|k: int| 0 <= k < vms.len() implies group_envs(vms).contains(
            group_env(#[trigger] vms[k]),
        ) by {
            if k < front.len() {
                assert(vms[k] == front[k]);
                assert(before.contains(group_env(front[k])));
                let i = choose|i: int| 0 <= i < before.len() && before[i] == group_env(front[k]);
                assert(group_envs(vms)[i] == before[i]);
            } else if !before.contains(last) {
                assert(group_envs(vms)[before.len() as int] == last);
            }
        }
    }
}

/// What adding one VM does to the groups.
proof fn lemma_grouped_push(vms: Seq<VmView>, vm: VmView)
    ensures
        group_envs(vms).contains(group_env(vm)) ==> grouped(vms.push(vm)).len() == grouped(
            vms,
        ).len() && forall|i: int|
            0 <= i < grouped(vms).len() ==> #[trigger] grouped(vms.push(vm))[i] == (if group_envs(
                vms,
            )[i] == group_env(vm) {
                VmGroupView {
                    env: grouped(vms)[i].env,
                    vms: grouped(vms)[i].vms.push(vm),
                }
            } else {
                grouped(vms)[i]
            }),
        !group_envs(vms).contains(group_env(vm)) ==> grouped(vms.push(vm)) == grouped(vms).push(
            VmGroupView { env: group_env(vm), vms: seq![vm] },
        ),
{
    let larger = vms.push(vm);
    let env = group_env(vm);
    assert(larger.drop_last() =~= vms);
    assert forall|name: Seq<char>| #[trigger] group_members(larger, name) == (if name == env {
        group_members(vms, name).push(vm)
    } else {
        group_members(vms, name)
    }) by {
        vms.lemma_filter_push(vm, |v: VmView| group_env(v) == name);
    }
    lemma_group_envs(vms);
    if !group_envs(vms).contains(env) {
        lemma_no_members(vms, env);
        assert(group_members(larger, env) =~= seq![vm]);
        assert forall|i: int| 0 <= i < group_envs(vms).len() implies group_envs(vms)[i] != env by {
            assert(group_envs(vms).contains(group_envs(vms)[i]));
        }
        assert(grouped(larger) =~= grouped(vms).push(
            VmGroupView { env, vms: seq![vm] },
        ));
    }
}

proof fn lemma_no_members(vms: Seq<VmView>, env: Seq<char>)
    requires
        !group_envs(vms).contains(env),
    ensures
        group_members(vms, env) == Seq::<VmView>::empty(),
    decreases vms.len(),
{
    reveal(Seq::filter);
    if vms.len() > 0 {
        let front = vms.drop_last();
        let before = group_envs(front);
        if before.contains(env) {
            let i = choose|i: int| 0 <= i < before.len() && before[i] == env;
            assert(group_envs(vms)[i] == env);
        }
        lemma_no_members(front, env);
        if group_env(vms.last()) == env {
            assert(group_envs(vms)[group_envs(vms).len() - 1] == env);
        }
    }
}

fn find_group(groups: &Vec<VmGroup>, env: &String) -> (position: Option<usize>)
    ensures
        match position {
            Some(i) => i < groups@.len() && groups@[i as int].env@ == env@,
            None => forall|k: int| 0 <= k < groups@.len() ==> (#[trigger] groups@[k]).env@ != env@,
        },
{
    let mut i: usize = 0;
    while i < groups.len()
        invariant
            i <= groups@.len(),
            forall|k: int| 0 <= k < i ==> (#[trigger] groups@[k]).env@ != env@,
        decreases groups@.len() - i,
    {
        if groups[i].env == *env {
            return Some(i);
        }
        i = i + 1;
    }
    None
}

fn add_to_groups(groups: &mut Vec<VmGroup>, vm: &Vm, Ghost(done): Ghost<Seq<VmView>>)
    requires
        views(old(groups)@) == grouped(done),
    ensures
        views(final(groups)@) == grouped(done.push(vm@)),
{
    let env = match &vm.env {
        Some(env) => env.clone(),
        None => "default".to_owned(),
    };
    let ghost before = views(groups@);
    proof {
        lemma_grouped_push(done, vm@);
        lemma_group_envs(done);
        assert(before.len() == group_envs(done).len());
    }
    match find_group(groups, &env) {
        Some(i) => {
            assert(before[i as int] == groups@[i as int]@);
            assert(group_envs(done)[i as int] == env@);
            let ghost source = groups@;
            let mut group = groups.remove(i);
            let ghost members = views(group.vms@);
            group.vms.push(vm.clone());
            assert(views(group.vms@) =~= members.push(vm@));
            groups.insert(i, group);
            proof {
                let after = views(groups@);
                assert(after.len() == before.len());
                assert forall|k: int| 0 <= k < after.len() implies after[k] == grouped(
                    done.push(vm@),
                )[k] by {
                    assert(before[k] == grouped(done)[k]);
                    if k == i {
                        assert(groups@[k] == group);
                    } else {
                        assert(groups@[k] == source[k]);
                        assert(group_envs(done)[k] != env@);
                    }
                }
                assert(after =~= grouped(done.push(vm@)));
            }
        },
        None => {
            proof {
                if group_envs(done).contains(env@) {
                    let k = choose|k: int|
                        0 <= k < group_envs(done).len() && group_envs(done)[k] == env@;
                    assert(before[k] == groups@[k]@);
                    assert(before[k] == grouped(done)[k]);
                }
            }
            let group = VmGroup { env, vms: vec![vm.clone()] };
            assert(group@.vms =~= seq![vm@]);
            groups.push(group);
            assert(views(groups@) =~= before.push(group@));
        },
    }
}

/// The VMs to list, grouped by environment in order of first appearance. VMs that
/// compact surfaces leave out are listed only on request.
pub fn visible_vm_groups(state: &WlState, show_internal: bool) -> (groups: Vec<VmGroup>)
    ensures
        views(groups@) == grouped(listed_vms(state@.vms, show_internal)),
{
    let ghost all = state@.vms;
    let ghost keep = |vm: VmView| show_internal || vm.visible();
    let mut groups: Vec<VmGroup> = Vec::new();
    let mut i: usize = 0;
    assert(all.take(0).filter(keep) =~= Seq::<VmView>::empty()) by {
        reveal(Seq::filter);
    }
    assert(views(groups@) =~= grouped(Seq::empty()));
    while i < state.vms.len()
        invariant
            i <= state.vms@.len(),
            all == views(state.vms@),
            keep == |vm: VmView| show_internal || vm.visible(),
            views(groups@) == grouped(all.take(i as int).filter(keep)),
        decreases state.vms@.len() - i,
    {
        let vm = &state.vms[i];
        let ghost done = all.take(i as int).filter(keep);
        proof {
            assert(all[i as int] == vm@);
            assert(all.take(i + 1) =~= all.take(i as int).push(vm@));
            all.take(i as int).lemma_filter_push(vm@, keep);
        }
        if show_internal || vm.is_visible() {
            add_to_groups(&mut groups, vm, Ghost(done));
        }
        i = i + 1;
    }
    assert(all.take(i as int) =~= all);
    groups
}

/// How a state is shown.
#[derive(Debug, Clone, Copy, PartialEq, Eq)]
pub struct BadgeSpec {
    pub label: &'static str,
    pub css_class: &'static str,
}

/// The label of a state.
pub open spec fn badge_label(state: RuntimeState) -> Seq<char> {
    match state {
        RuntimeState::Running => "Running"@,
        RuntimeState::Stopped => "Stopped"@,
        RuntimeState::Starting => "Starting"@,
        RuntimeState::Stopping => "Stopping"@,
        RuntimeState::Unknown => "Unknown"@,
    }
}

/// The CSS class of a state.
pub open spec fn badge_class(state: RuntimeState) -> Seq<char> {
    match state {
        RuntimeState::Running => "state-running"@,
        RuntimeState::Stopped => "state-stopped"@,
        RuntimeState::Starting => "state-progress"@,
        RuntimeState::Stopping => "state-progress"@,
        RuntimeState::Unknown => "state-unknown"@,
    }
}

/// How a state is shown.
pub fn state_badge(state: RuntimeState) -> (badge: BadgeSpec)
    ensures
        badge.label@ == badge_label(state),
        badge.css_class@ == badge_class(state),
{
    match state {
        RuntimeState::Running => BadgeSpec { label: "Running", css_class: "state-running" },
        RuntimeState::Stopped => BadgeSpec { label: "Stopped", css_class: "state-stopped" },
        RuntimeState::Starting => BadgeSpec { label: "Starting", css_class: "state-progress" },
        RuntimeState::Stopping => BadgeSpec { label: "Stopping", css_class: "state-progress" },
        RuntimeState::Unknown => BadgeSpec { label: "Unknown", css_class: "state-unknown" },
    }
}

/// The name of a role.
pub open spec fn role_word(role: AuthRole) -> Seq<char> {
    match role {
        AuthRole::NoRole => "none"@,
        AuthRole::Launcher => "launcher"@,
        AuthRole::Admin => "admin"@,
    }
}

/// The name of a role.
pub fn role_name(role: AuthRole) -> (name: &'static str)
    ensures
        name@ == role_word(role),
{
    match role {
        AuthRole::NoRole => "none",
        AuthRole::Launcher => "launcher",
        AuthRole::Admin => "admin",
    }
}

/// The tooltip of a disabled control.
pub open spec fn tooltip_for(reason: UnavailableView) -> Seq<char> {
    match reason {
        UnavailableView::DaemonDown => "nixlingd is unreachable"@,
        UnavailableView::InsufficientRole { required } => "requires "@ + role_word(required),
        UnavailableView::VmState { detail } => detail,
        UnavailableView::UsbOwnedElsewhere { owner } => "USB owned by "@ + owner,
        UnavailableView::NotYetImplemented => {
            "unsupported by the current nixling audio control plane"@
        },
        UnavailableView::Blocked { detail } => detail,
    }
}

/// The tooltip of a disabled control.
pub fn unavailable_tooltip(reason: &Unavailable) -> (text: String)
    ensures
        text@ == tooltip_for(reason@),
{
    match reason {
        Unavailable::DaemonDown => "nixlingd is unreachable".to_owned(),
        Unavailable::InsufficientRole { required } => "requires ".to_owned().concat(
            role_name(*required),
        ),
        Unavailable::VmState { detail } => detail.clone(),
        Unavailable::UsbOwnedElsewhere { owner } => "USB owned by ".to_owned().concat(
            owner.as_str(),
        ),
        Unavailable::NotYetImplemented => {
            "unsupported by the current nixling audio control plane".to_owned()
        },
        Unavailable::Blocked { detail } => detail.clone(),
    }
}

/// The label of an action.
pub open spec fn label_of(action: ActionKindView) -> Seq<char> {
    match action {
        ActionKindView::Refresh => "Refresh"@,
        ActionKindView::Start { .. } => "Start"@,
        ActionKindView::Stop { .. } => "Stop"@,
        ActionKindView::ForceStop { .. } => "Force stop"@,
        ActionKindView::Restart { .. } => "Restart"@,
        ActionKindView::Switch { .. } => "Switch"@,
        ActionKindView::Build { .. } => "Build"@,
        ActionKindView::Boot { .. } => "Boot"@,
        ActionKindView::QuickLaunch { .. } => "Quick launch"@,
        ActionKindView::UsbAttach { vm, bus_id } => "USB attach "@ + bus_id,
        ActionKindView::UsbDetach { vm, bus_id } => "USB detach "@ + bus_id,
        ActionKindView::StoreVerify { .. } => "Store verify"@,
        ActionKindView::LaunchTerminal { .. } => "Launch terminal"@,
        ActionKindView::AudioMic { .. } => "Mic"@,
        ActionKindView::AudioSpeaker { .. } => "Speaker"@,
        ActionKindView::AudioSpeakerVolume { .. } => "Speaker volume"@,
        ActionKindView::AudioMicGain { .. } => "Mic gain"@,
        ActionKindView::AudioOff { .. } => "Audio off"@,
        ActionKindView::OpenControlCenter => "Open control center"@,
        ActionKindView::OpenObservability => "Open observability"@,
        ActionKindView::CycleDisplay => "Cycle display"@,
    }
}

/// The label of an action.
pub fn action_label(action: &ActionKind) -> (label: String)
    ensures
        label@ == label_of(action@),
{
    match action {
        ActionKind::Refresh => "Refresh".to_owned(),
        ActionKind::Start { .. } => "Start".to_owned(),
        ActionKind::Stop { .. } => "Stop".to_owned(),
        ActionKind::ForceStop { .. } => "Force stop".to_owned(),
        ActionKind::Restart { .. } => "Restart".to_owned(),
        ActionKind::Switch { .. } => "Switch".to_owned(),
        ActionKind::Build { .. } => "Build".to_owned(),
        ActionKind::Boot { .. } => "Boot".to_owned(),
        ActionKind::QuickLaunch { .. } => "Quick launch".to_owned(),
        ActionKind::UsbAttach { bus_id, .. } => "USB attach ".to_owned().concat(bus_id.as_str()),
        ActionKind::UsbDetach { bus_id, .. } => "USB detach ".to_owned().concat(bus_id.as_str()),
        ActionKind::StoreVerify { .. } => "Store verify".to_owned(),
        ActionKind::LaunchTerminal { .. } => "Launch terminal".to_owned(),
        ActionKind::AudioMic { .. } => "Mic".to_owned(),
        ActionKind::AudioSpeaker { .. } => "Speaker".to_owned(),
        ActionKind::AudioSpeakerVolume { .. } => "Speaker volume".to_owned(),
        ActionKind::AudioMicGain { .. } => "Mic gain".to_owned(),
        ActionKind::AudioOff { .. } => "Audio off".to_owned(),
        ActionKind::OpenControlCenter => "Open control center".to_owned(),
        ActionKind::OpenObservability => "Open observability".to_owned(),
        ActionKind::CycleDisplay => "Cycle display".to_owned(),
    }
}

/// The role indicator of a surface.
pub open spec fn indicator_of(state: WlStateView) -> Seq<char> {
    match state.connectivity {
        Connectivity::DaemonDown => "daemon down"@,
        Connectivity::AuthDenied => "role: none"@,
        Connectivity::Connected => "role: "@ + role_word(state.role),
    }
}

/// The role indicator of a surface.
pub fn role_indicator(state: &WlState) -> (text: String)
    ensures
        text@ == indicator_of(state@),
{
    match state.connectivity {
        Connectivity::DaemonDown => "daemon down".to_owned(),
        Connectivity::AuthDenied => "role: none".to_owned(),
        Connectivity::Connected => "role: ".to_owned().concat(role_name(state.role)),
    }
}

/// The VM an action is about.
pub fn action_vm_name(action: &ActionKind) -> (name: Option<&str>)
    ensures
        opt_view(name) == target_of(action@),
{
    match action_target_vm(action) {
        Some(vm) => Some(vm.as_str()),
        None => None,
    }
}

/// Whether an action interrupts what runs in a VM.
pub open spec fn is_disruptive(action: ActionKindView) -> bool {
    action is Stop || action is ForceStop || action is Restart || action is Switch
}

/// Whether an action asks for a confirmation first.
pub open spec fn asks_first(action: ActionKindView, state: RuntimeState) -> bool {
    is_disruptive(action) && state == RuntimeState::Running
}

/// Whether an action asks for a confirmation first: it interrupts a running VM.
pub fn needs_confirmation(action: &ActionKind, vm: &Vm) -> (yes: bool)
    ensures
        yes == asks_first(action@, vm@.state),
        yes == (is_disruptive(action@) && vm@.state == RuntimeState::Running),
{
    match action {
        ActionKind::Stop { .. } | ActionKind::ForceStop { .. } | ActionKind::Restart { .. }
        | ActionKind::Switch { .. } => vm.state == RuntimeState::Running,
        _ => false,
    }
}

/// What is said of one USB claim.
pub open spec fn claim_text(claim: UsbClaimView) -> Seq<char> {
    if claim.bound {
        match claim.owner_vm {
            Some(owner) => claim.bus_id + " bound to "@ + owner,
            None => claim.bus_id + " bound"@,
        }
    } else {
        claim.bus_id + " available"@
    }
}

/// What is said of one USB claim.
pub fn usb_claim_summary(claim: &UsbClaim) -> (text: String)
    ensures
        text@ == claim_text(claim@),
{
    let mut text = claim.bus_id.clone();
    if claim.bound {
        match &claim.owner_vm {
            Some(owner) => {
                text.append(" bound to ");
                text.append(owner.as_str());
            },
            None => {
                text.append(" bound");
            },
        }
    } else {
        text.append(" available");
    }
    text
}

/// How many claims are bound.
pub open spec fn bound_count(claims: Seq<UsbClaimView>) -> nat {
    claims.filter(|claim: UsbClaimView| claim.bound).len()
}

/// What is said of the USB claims of a VM.
pub open spec fn claims_text(claims: Seq<UsbClaimView>) -> Seq<char> {
    if claims.len() == 0 {
        Seq::empty()
    } else if claims.len() == 1 {
        "USB "@ + claim_text(claims[0])
    } else {
        "USB "@ + decimal(claims.len()) + " claim(s), "@ + decimal(bound_count(claims)) + " bound"@
    }
}

fn count_bound(claims: &Vec<UsbClaim>) -> (count: usize)
    ensures
        count == bound_count(views(claims@)),
{
    let ghost all = views(claims@);
    let ghost bound = |claim: UsbClaimView| claim.bound;
    let mut count: usize = 0;
    let mut i: usize = 0;
    assert(all.take(0).filter(bound).len() == 0) by {
        reveal(Seq::filter);
    }
    while i < claims.len()
        invariant
            i <= claims@.len(),
            all == views(claims@),
            bound == |claim: UsbClaimView| claim.bound,
            count == all.take(i as int).filter(bound).len(),
            count <= i,
        decreases claims@.len() - i,
    {
        proof {
            let done = all.take(i as int);
            assert(all[i as int] == claims@[i as int]@);
            assert(all.take(i + 1) =~= done.push(all[i as int]));
            done.lemma_filter_push(all[i as int], bound);
        }
        if claims[i].bound {
            count = count + 1;
        }
        i = i + 1;
    }
    assert(all.take(i as int) =~= all);
    count
}

/// What is said of the USB claims of a VM.
pub fn usb_summary(claims: &Vec<UsbClaim>) -> (text: String)
    ensures
        text@ == claims_text(views(claims@)),
{
    if claims.len() == 0 {
        String::new()
    } else if claims.len() == 1 {
        assert(views(claims@)[0] == claims@[0]@);
        "USB ".to_owned().concat(usb_claim_summary(&claims[0]).as_str())
    } else {
        let mut text = "USB ".to_owned();
        text.append(decimal_text(claims.len() as u64).as_str());
        text.append(" claim(s), ");
        text.append(decimal_text(count_bound(claims) as u64).as_str());
        text.append(" bound");
        text
    }
}

/// A part of a subtitle that is present under a condition.
pub open spec fn part_if(condition: bool, part: Seq<char>) -> Seq<Seq<char>> {
    if condition {
        seq![part]
    } else {
        Seq::empty()
    }
}

/// The parts of the subtitle of a VM.
pub open spec fn subtitle_parts(vm: VmView, show_pending_restart: bool) -> Seq<Seq<char>> {
    seq![
        match vm.static_ip {
            Some(ip) => "IP "@ + ip,
            None => "IP —"@,
        },
        if vm.readiness.len() == 0 {
            "readiness not reported"@
        } else {
            "ready: "@ + joined(vm.readiness, ", "@)
        },
    ] + part_if(claims_text(vm.usb).len() > 0, claims_text(vm.usb)) + part_if(
        show_pending_restart && vm.pending_restart,
        "pending restart"@,
    ) + part_if(vm.is_net_vm, "net VM"@) + part_if(vm.hidden, "hidden"@)
}

fn push_if(parts: &mut Vec<String>, condition: bool, part: String)
    ensures
        views(final(parts)@) == views(old(parts)@) + part_if(condition, part@),
{
    if condition {
        parts.push(part);
    }
    assert(views(parts@) =~= views(old(parts)@) + part_if(condition, part@));
}

fn address_text(vm: &Vm) -> (text: String)
    ensures
        text@ == (match vm@.static_ip {
            Some(ip) => "IP "@ + ip,
            None => "IP —"@,
        }),
{
    match &vm.static_ip {
        Some(ip) => "IP ".to_owned().concat(ip.as_str()),
        None => "IP —".to_owned(),
    }
}

fn readiness_text(vm: &Vm) -> (text: String)
    ensures
        text@ == (if vm@.readiness.len() == 0 {
            "readiness not reported"@
        } else {
            "ready: "@ + joined(vm@.readiness, ", "@)
        }),
{
    if vm.readiness.len() == 0 {
        "readiness not reported".to_owned()
    } else {
        "ready: ".to_owned().concat(join(&vm.readiness, ", ").as_str())
    }
}

/// The subtitle of a VM: address, readiness, USB claims, and whatever else the
/// operator should know.
pub fn vm_subtitle(vm: &Vm, show_pending_restart: bool) -> (text: String)
    ensures
        text@ == joined(subtitle_parts(vm@, show_pending_restart), " • "@),
{
    let address = address_text(vm);
    let readiness = readiness_text(vm);
    let ghost fixed = seq![address@, readiness@];
    let mut parts: Vec<String> = vec![address, readiness];
    assert(views(parts@) =~= fixed);
    let usb = usb_summary(&vm.usb);
    let in_use = !empty(usb.as_str());
    push_if(&mut parts, in_use, usb);
    push_if(
        &mut parts,
        show_pending_restart && vm.pending_restart,
        "pending restart".to_owned(),
    );
    push_if(&mut parts, vm.is_net_vm, "net VM".to_owned());
    push_if(&mut parts, vm.hidden, "hidden".to_owned());
    assert(views(parts@) =~= subtitle_parts(vm@, show_pending_restart));
    join(&parts, " • ")
}

/// What stands in for an empty list.
pub open spec fn empty_text(show_internal: bool) -> Seq<char> {
    if show_internal {
        "No VMs were reported by nixlingd."@
    } else {
        "No visible VMs. Enable “Internal” to show hidden and net VMs."@
    }
}

/// What stands in for an empty list.
pub fn empty_group_message(show_internal: bool) -> (text: &'static str)
    ensures
        text@ == empty_text(show_internal),
        text@ == (if show_internal {
            "No VMs were reported by nixlingd."@
        } else {
            "No visible VMs. Enable “Internal” to show hidden and net VMs."@
        }),
{
    if show_internal {
        "No VMs were reported by nixlingd."
    } else {
        "No visible VMs. Enable “Internal” to show hidden and net VMs."
    }
}

/// No environment heads two groups.
pub proof fn law_groups_are_distinct(vms: Seq<VmView>, i: int, j: int)
    requires
        0 <= i < j < grouped(vms).len(),
    ensures
        grouped(vms)[i].env != grouped(vms)[j].env,
{
    lemma_group_envs(vms);
}

/// Every listed VM stands in the group of its environment.
pub proof fn law_every_vm_is_grouped(vms: Seq<VmView>, k: int)
    requires
        0 <= k < vms.len(),
    ensures
        exists|i: int|
            0 <= i < grouped(vms).len() && (#[trigger] grouped(vms)[i]).env == group_env(vms[k])
                && grouped(vms)[i].vms.contains(vms[k]),
{
    lemma_group_envs(vms);
    assert(group_envs(vms).contains(group_env(vms[k])));
    let i = choose|i: int|
        0 <= i < group_envs(vms).len() && group_envs(vms)[i] == group_env(vms[k]);
    let env = group_env(vms[k]);
    vms.lemma_filter_contains(|vm: VmView| group_env(vm) == env, k);
    assert(grouped(vms)[i].env == env);
}

/// Every group holds only listed VMs of its environment.
pub proof fn law_groups_hold_their_own(vms: Seq<VmView>, i: int, k: int)
    requires
        0 <= i < grouped(vms).len(),
        0 <= k < grouped(vms)[i].vms.len(),
    ensures
        group_env(grouped(vms)[i].vms[k]) == grouped(vms)[i].env,
        vms.contains(grouped(vms)[i].vms[k]),
{
    let env = grouped(vms)[i].env;
    let own = |vm: VmView| group_env(vm) == env;
    vms.lemma_filter_pred(own, k);
    assert(vms.filter(own).contains(vms.filter(own)[k]));
    vms.lemma_filter_contains_rev(own, vms.filter(own)[k]);
}

/// VMs that compact surfaces leave out are listed only on request.
pub proof fn law_internal_vms_stay_hidden(vms: Seq<VmView>, show_internal: bool, k: int)
    requires
        0 <= k < listed_vms(vms, show_internal).len(),
    ensures
        show_internal || listed_vms(vms, show_internal)[k].visible(),
{
    vms.lemma_filter_pred(|vm: VmView| show_internal || vm.visible(), k);
}

} // verus!
