//! State reduction and precedence.
//!
//! 1. The inventory defines the declared VM set, env, features, static IP, and
//!    default order.
//! 2. Statuses override runtime state, readiness, and pending-restart.
//! 3. The USB probe attaches USB claims, the audio status attaches audio state.
//! 4. The authorization sets the effective role.
//! 5. Missing or inconsistent inputs reduce to `Unknown`, never false-healthy.

use vstd::prelude::*;

use crate::config::{Config, ConfigView, QuickLaunchConfig, QuickLaunchConfigView, default_config};
use crate::model::{
    AudioChannelState, AuthRole, Connectivity, QuickLaunchIcon, QuickLaunchIconView, RuntimeState,
    UsbClaim, UsbClaimView, Vm, VmAudioState, VmAudioStateView, VmCapabilities, VmView, WlState,
    WlStateView,
};
use crate::sources::{
    Auth, AudioStatus, AudioStatusEntryView, AudioStatusErrorView, AudioStatusView, InventoryVm,
    InventoryVmView, ReduceInput, ReduceInputView, VmStatus, VmStatusView,
};
use crate::text::{
    begins, ends, ends_with, first_where, lemma_first_where_at, lemma_first_where_none, opt_view,
    starts_with, views,
};

verus! {

/// What the coarse status of the listing says by itself.
pub open spec fn coarse_reading(status: Option<Seq<char>>) -> RuntimeState {
    match status {
        Some(text) => if begins(text, "running"@) {
            RuntimeState::Running
        } else if begins(text, "stopped"@) {
            RuntimeState::Stopped
        } else {
            RuntimeState::Unknown
        },
        None => RuntimeState::Unknown,
    }
}

/// What the coarse status of the listing says by itself.
pub fn coarse_state(status: &Option<String>) -> (state: RuntimeState)
    ensures
        state == coarse_reading(opt_view(*status)),
{
    match status {
        Some(text) => if starts_with(text.as_str(), "running") {
            RuntimeState::Running
        } else if starts_with(text.as_str(), "stopped") {
            RuntimeState::Stopped
        } else {
            RuntimeState::Unknown
        },
        None => RuntimeState::Unknown,
    }
}

/// Whether the listing and the status of a VM cannot both be true.
pub open spec fn conflicting(coarse: RuntimeState, status: RuntimeState) -> bool {
    ||| coarse == RuntimeState::Running && status == RuntimeState::Stopped
    ||| coarse == RuntimeState::Stopped && (status == RuntimeState::Running || status
        == RuntimeState::Starting || status == RuntimeState::Stopping)
}

/// Whether the listing and the status of a VM cannot both be true.
pub fn state_conflicts(coarse: RuntimeState, status: RuntimeState) -> (yes: bool)
    ensures
        yes == conflicting(coarse, status),
{
    match coarse {
        RuntimeState::Running => status == RuntimeState::Stopped,
        RuntimeState::Stopped => status == RuntimeState::Running || status == RuntimeState::Starting
            || status == RuntimeState::Stopping,
        RuntimeState::Starting | RuntimeState::Stopping | RuntimeState::Unknown => false,
    }
}

/// The reduced state: the status of the VM unless it contradicts the listing;
/// without a status the listing, which is not trusted to say `Running`.
pub open spec fn reduced_state(
    coarse: RuntimeState,
    status: Option<RuntimeState>,
) -> RuntimeState {
    match status {
        Some(state) => if conflicting(coarse, state) {
            RuntimeState::Unknown
        } else {
            state
        },
        None => if coarse == RuntimeState::Running {
            RuntimeState::Unknown
        } else {
            coarse
        },
    }
}

/// Combines the listing and the status of a VM.
pub fn reduce_state(coarse: RuntimeState, status: Option<RuntimeState>) -> (state: RuntimeState)
    ensures
        state == reduced_state(coarse, status),
{
    match status {
        Some(state) => if state_conflicts(coarse, state) {
            RuntimeState::Unknown
        } else {
            state
        },
        None => if coarse == RuntimeState::Running {
            RuntimeState::Unknown
        } else {
            coarse
        },
    }
}

/// Whether a name has the form `sys-<env>-net` with a non-empty environment.
pub open spec fn framework_net_name(name: Seq<char>) -> bool {
    &&& begins(name, "sys-"@)
    &&& ends(name.skip(4), "-net"@)
    &&& name.len() > 8
}

/// Whether a name has the form `sys-<env>-net` with a non-empty environment.
pub fn is_framework_net_vm_name(name: &str) -> (yes: bool)
    ensures
        yes == framework_net_name(name@),
{
    proof {
        reveal_strlit("sys-");
        reveal_strlit("-net");
    }
    let length: usize = name.unicode_len();
    length > 8 && starts_with(name, "sys-") && ends_with(name.substring_char(4, length), "-net")
}

/// Whether a VM belongs to the framework.
pub open spec fn system_vm(vm: InventoryVmView) -> bool {
    begins(vm.name, "sys-"@)
}

/// Where the first VM of a name stands.
pub open spec fn position_of(vms: Seq<InventoryVmView>, name: Seq<char>) -> Option<int>
    decreases vms.len(),
{
    if vms.len() == 0 {
        None
    } else if vms[0].name == name {
        Some(0)
    } else {
        match position_of(vms.drop_first(), name) {
            Some(i) => Some(i + 1),
            None => None,
        }
    }
}

/// What the favorites pick, in their order, and what they leave. Each favorite
/// takes the first VM of its name that is left, if there is one.
pub open spec fn picked(vms: Seq<InventoryVmView>, favorites: Seq<Seq<char>>) -> (
    Seq<InventoryVmView>,
    Seq<InventoryVmView>,
)
    decreases favorites.len(),
{
    if favorites.len() == 0 {
        (Seq::empty(), vms)
    } else {
        match position_of(vms, favorites[0]) {
            Some(i) => {
                let rest = picked(vms.remove(i), favorites.drop_first());
                (seq![vms[i]] + rest.0, rest.1)
            },
            None => picked(vms, favorites.drop_first()),
        }
    }
}

/// The inventory with favorites first.
pub open spec fn favored(vms: Seq<InventoryVmView>, favorites: Seq<Seq<char>>) -> Seq<
    InventoryVmView,
> {
    picked(vms, favorites).0 + picked(vms, favorites).1
}

/// The display order: favorites first, then the rest as listed; framework VMs
/// after all others, each part keeping that order.
pub open spec fn display_order(vms: Seq<InventoryVmView>, favorites: Seq<Seq<char>>) -> Seq<
    InventoryVmView,
> {
    favored(vms, favorites).filter(|vm: InventoryVmView| !system_vm(vm)) + favored(
        vms,
        favorites,
    ).filter(|vm: InventoryVmView| system_vm(vm))
}

proof fn lemma_position_of(vms: Seq<InventoryVmView>, name: Seq<char>)
    ensures
        match position_of(vms, name) {
            Some(i) => 0 <= i < vms.len() && vms[i].name == name && forall|k: int|
                0 <= k < i ==> (#[trigger] vms[k]).name != name,
            None => forall|k: int| 0 <= k < vms.len() ==> (#[trigger] vms[k]).name != name,
        },
    decreases vms.len(),
{
    if vms.len() > 0 && vms[0].name != name {
        let rest = vms.drop_first();
        lemma_position_of(rest, name);
        match position_of(rest, name) {
            Some(i) => {
                assert(vms[i + 1] == rest[i]);
                assert forall|k: int| 0 <= k < i + 1 implies (#[trigger] vms[k]).name != name by {
                    if k > 0 {
                        assert(vms[k] == rest[k - 1]);
                    }
                }
            },
            None => {
                assert forall|k: int| 0 <= k < vms.len() implies (#[trigger] vms[k]).name
                    != name by {
                    if k > 0 {
                        assert(vms[k] == rest[k - 1]);
                    }
                }
            },
        }
    }
}

/// Where the first VM of a name stands.
fn find_vm(vms: &Vec<InventoryVm>, name: &String) -> (position: Option<usize>)
    ensures
        match position {
            Some(i) => position_of(views(vms@), name@) == Some(i as int) && i < vms@.len(),
            None => position_of(views(vms@), name@) is None,
        },
{
    let mut i: usize = 0;
    while i < vms.len()
        invariant
            i <= vms@.len(),
            forall|k: int| 0 <= k < i ==> (#[trigger] views(vms@)[k]).name != name@,
        decreases vms@.len() - i,
    {
        assert(views(vms@)[i as int].name == vms@[i as int].name@);
        if vms[i].name == *name {
            proof {
                lemma_position_of(views(vms@), name@);
            }
            return Some(i);
        }
        i = i + 1;
    }
    proof {
        lemma_position_of(views(vms@), name@);
    }
    None
}

/// Puts the inventory into display order.
pub fn ordered_inventory(vms: Vec<InventoryVm>, favorites: &Vec<String>) -> (ordered: Vec<
    InventoryVm,
>)
    ensures
        views(ordered@) == display_order(views(vms@), views(favorites@)),
{
    let ghost declared = views(vms@);
    let ghost names = views(favorites@);
    let mut remaining = vms;
    let mut front: Vec<InventoryVm> = Vec::new();
    let mut f: usize = 0;
    assert(names.skip(0) =~= names);
    assert(views(front@) + picked(declared, names).0 =~= picked(declared, names).0);
    while f < favorites.len()
        invariant
            f <= favorites@.len(),
            names == views(favorites@),
            views(front@) + picked(views(remaining@), names.skip(f as int)).0 == picked(
                declared,
                names,
            ).0,
            picked(views(remaining@), names.skip(f as int)).1 == picked(declared, names).1,
        decreases favorites@.len() - f,
    {
        let ghost left = views(remaining@);
        let ghost before = views(front@);
        assert(names.skip(f as int)[0] == favorites@[f as int]@);
        assert(names.skip(f as int).drop_first() =~= names.skip(f + 1));
        if let Some(i) = find_vm(&remaining, &favorites[f]) {
            let vm = remaining.remove(i);
            assert(views(remaining@) =~= left.remove(i as int));
            front.push(vm);
            assert(views(front@) =~= before.push(left[i as int]));
            let ghost tail = picked(left.remove(i as int), names.skip(f + 1)).0;
            assert(before + (seq![left[i as int]] + tail) =~= views(front@) + tail);
        }
        f = f + 1;
    }
    assert(names.skip(f as int) =~= Seq::<Seq<char>>::empty());
    assert(views(front@) + Seq::<InventoryVmView>::empty() =~= views(front@));
    assert(views(front@) == picked(declared, names).0);
    let ghost ahead = views(front@);
    let ghost left = views(remaining@);
    front.append(&mut remaining);
    assert(views(front@) =~= ahead + left);
    let ghost all = favored(declared, names);
    assert(views(front@) == all);
    let ghost ordinary = |vm: InventoryVmView| !system_vm(vm);
    let ghost system = |vm: InventoryVmView| system_vm(vm);
    let ghost source = front@;
    let mut ordered: Vec<InventoryVm> = Vec::new();
    let mut last: Vec<InventoryVm> = Vec::new();
    proof {
        reveal(Seq::filter);
        assert(all.take(0).filter(ordinary) =~= Seq::<InventoryVmView>::empty());
        assert(all.take(0).filter(system) =~= Seq::<InventoryVmView>::empty());
    }
    for vm in it: front
        invariant
            it.seq() == source,
            views(source) == all,
            ordinary == |vm: InventoryVmView| !system_vm(vm),
            system == |vm: InventoryVmView| system_vm(vm),
            views(ordered@) == all.take(it.index() as int).filter(ordinary),
            views(last@) == all.take(it.index() as int).filter(system),
    {
        let ghost at = it.index() as int;
        let ghost done = all.take(at);
        let ghost ordered_before = views(ordered@);
        let ghost last_before = views(last@);
        proof {
            assert(all[at] == vm@);
            assert(all.take(at + 1) =~= done.push(vm@));
            done.lemma_filter_push(vm@, ordinary);
            done.lemma_filter_push(vm@, system);
        }
        let ghost this = vm@;
        if starts_with(vm.name.as_str(), "sys-") {
            last.push(vm);
            assert(views(last@) =~= last_before.push(this));
        } else {
            ordered.push(vm);
            assert(views(ordered@) =~= ordered_before.push(this));
        }
    }
    assert(all.take(all.len() as int) =~= all);
    let ghost first_part = views(ordered@);
    let ghost last_part = views(last@);
    ordered.append(&mut last);
    assert(views(ordered@) =~= first_part + last_part);
    ordered
}

/// The status reported for a VM.
pub open spec fn status_of(statuses: Seq<VmStatusView>, name: Seq<char>) -> Option<VmStatusView> {
    first_where(statuses, |status: VmStatusView| status.name == name)
}

/// The USB claims declared for a VM.
pub open spec fn claims_of(claims: Seq<UsbClaimView>, name: Seq<char>) -> Seq<UsbClaimView> {
    claims.filter(|claim: UsbClaimView| claim.vm == name)
}

/// The icon of a quick-launch item.
pub open spec fn icon_of(item: QuickLaunchConfigView) -> QuickLaunchIconView {
    QuickLaunchIconView { id: item.id, icon: item.icon, tooltip: item.tooltip }
}

/// The quick-launch icons configured for a VM.
pub open spec fn icons_of(items: Seq<QuickLaunchConfigView>, name: Seq<char>) -> Seq<
    QuickLaunchIconView,
> {
    items.filter_map(
        |item: QuickLaunchConfigView|
            if item.vm == name {
                Some(icon_of(item))
            } else {
                None
            },
    )
}

/// The audio state shown for a VM whose audio could not be read.
pub open spec fn failed_audio(error: AudioStatusErrorView) -> VmAudioStateView {
    VmAudioStateView {
        speaker: AudioChannelState { level: None, muted: true },
        microphone: AudioChannelState { level: None, muted: true },
        provider_kind: None,
        enforcement: "unknown"@,
        error_kind: Some(error.kind),
        remediation: error.remediation,
    }
}

/// The audio state reported for a VM, or else the reason why there is none.
pub open spec fn audio_of(audio: Option<AudioStatusView>, name: Seq<char>) -> Option<
    VmAudioStateView,
> {
    match audio {
        Some(status) => match first_where(
            status.entries,
            |entry: AudioStatusEntryView| entry.vm == name,
        ) {
            Some(entry) => Some(entry.audio),
            None => match first_where(
                status.errors,
                |error: AudioStatusErrorView| error.vm == name,
            ) {
                Some(error) => Some(failed_audio(error)),
                None => None,
            },
        },
        None => None,
    }
}

/// The VM that the surfaces show for one inventory entry.
pub open spec fn reduced_vm(
    vm: InventoryVmView,
    statuses: Seq<VmStatusView>,
    claims: Seq<UsbClaimView>,
    audio: Option<AudioStatusView>,
    config: ConfigView,
) -> VmView {
    let status = status_of(statuses, vm.name);
    VmView {
        name: vm.name,
        env: vm.env,
        state: reduced_state(
            coarse_reading(vm.coarse_status),
            match status {
                Some(report) => Some(report.state),
                None => None,
            },
        ),
        is_net_vm: vm.is_net_vm || framework_net_name(vm.name),
        net_shown: (vm.is_net_vm || framework_net_name(vm.name)) && !config.hide_net_vms,
        hidden: config.hidden_vms.contains(vm.name),
        pending_restart: config.show_pending_restart && status is Some
            && status->Some_0.pending_restart,
        features: vm.features,
        capabilities: match status {
            Some(report) => report.capabilities,
            None => vm.capabilities,
        },
        static_ip: vm.static_ip,
        readiness: match status {
            Some(report) => report.readiness,
            None => Seq::empty(),
        },
        usb: claims_of(claims, vm.name),
        quick_launch: icons_of(config.quick_launch, vm.name),
        audio: audio_of(audio, vm.name),
    }
}

/// The role that an authorization answer gives.
pub open spec fn role_of(auth: Option<Auth>) -> AuthRole {
    match auth {
        Some(answer) => answer.role,
        None => AuthRole::NoRole,
    }
}

/// The claims of a USB probe, none where there was no answer.
pub open spec fn probed_claims(input: ReduceInputView) -> Seq<UsbClaimView> {
    match input.usb {
        Some(probe) => probe.claims,
        None => Seq::empty(),
    }
}

/// The declared VMs, none where there was no answer.
pub open spec fn declared_vms(input: ReduceInputView) -> Seq<InventoryVmView> {
    match input.inventory {
        Some(inventory) => inventory.vms,
        None => Seq::empty(),
    }
}

/// The state that a bundle of fragments reduces to.
pub open spec fn reduced(input: ReduceInputView, config: ConfigView) -> WlStateView {
    if input.connectivity != Connectivity::Connected {
        WlStateView {
            connectivity: input.connectivity,
            role: AuthRole::NoRole,
            vms: Seq::empty(),
            stale: false,
            note: None,
        }
    } else {
        let order = display_order(declared_vms(input), config.favorites);
        WlStateView {
            connectivity: if role_of(input.auth) == AuthRole::NoRole {
                Connectivity::AuthDenied
            } else {
                Connectivity::Connected
            },
            role: role_of(input.auth),
            vms: Seq::new(
                order.len(),
                |i: int|
                    reduced_vm(order[i], input.statuses, probed_claims(input), input.audio, config),
            ),
            stale: false,
            note: None,
        }
    }
}

fn find_status<'a>(statuses: &'a Vec<VmStatus>, name: &String) -> (status: Option<&'a VmStatus>)
    ensures
        match status {
            Some(report) => status_of(views(statuses@), name@) == Some(report@),
            None => status_of(views(statuses@), name@) is None,
        },
{
    let ghost wanted = |status: VmStatusView| status.name == name@;
    let mut i: usize = 0;
    while i < statuses.len()
        invariant
            i <= statuses@.len(),
            wanted == |status: VmStatusView| status.name == name@,
            forall|k: int| 0 <= k < i ==> !wanted(#[trigger] views(statuses@)[k]),
        decreases statuses@.len() - i,
    {
        assert(views(statuses@)[i as int] == statuses@[i as int]@);
        if statuses[i].name == *name {
            proof {
                lemma_first_where_at(views(statuses@), wanted, i as int);
            }
            return Some(&statuses[i]);
        }
        i = i + 1;
    }
    proof {
        lemma_first_where_none(views(statuses@), wanted);
    }
    None
}

fn select_claims(claims: &Vec<UsbClaim>, name: &String) -> (selected: Vec<UsbClaim>)
    ensures
        views(selected@) == claims_of(views(claims@), name@),
{
    let ghost all = views(claims@);
    let ghost wanted = |claim: UsbClaimView| claim.vm == name@;
    let mut selected: Vec<UsbClaim> = Vec::new();
    let mut i: usize = 0;
    assert(all.take(0).filter(wanted) =~= Seq::<UsbClaimView>::empty()) by {
        reveal(Seq::filter);
    }
    while i < claims.len()
        invariant
            i <= claims@.len(),
            all == views(claims@),
            wanted == |claim: UsbClaimView| claim.vm == name@,
            views(selected@) == all.take(i as int).filter(wanted),
        decreases claims@.len() - i,
    {
        let ghost before = views(selected@);
        let ghost done = all.take(i as int);
        proof {
            assert(all[i as int] == claims@[i as int]@);
            assert(all.take(i + 1) =~= done.push(all[i as int]));
            done.lemma_filter_push(all[i as int], wanted);
        }
        if claims[i].vm == *name {
            selected.push(claims[i].clone());
            assert(views(selected@) =~= before.push(all[i as int]));
        }
        i = i + 1;
    }
    assert(all.take(i as int) =~= all);
    selected
}

fn select_icons(items: &Vec<QuickLaunchConfig>, name: &String) -> (icons: Vec<QuickLaunchIcon>)
    ensures
        views(icons@) == icons_of(views(items@), name@),
{
    let ghost all = views(items@);
    let ghost shown = |item: QuickLaunchConfigView|
        if item.vm == name@ {
            Some(icon_of(item))
        } else {
            None
        };
    let mut icons: Vec<QuickLaunchIcon> = Vec::new();
    let mut i: usize = 0;
    assert(all.take(0).filter_map(shown) =~= Seq::<QuickLaunchIconView>::empty());
    while i < items.len()
        invariant
            i <= items@.len(),
            all == views(items@),
            shown == |item: QuickLaunchConfigView|
                if item.vm == name@ {
                    Some(icon_of(item))
                } else {
                    None
                },
            views(icons@) == all.take(i as int).filter_map(shown),
        decreases items@.len() - i,
    {
        let ghost before = views(icons@);
        proof {
            assert(all[i as int] == items@[i as int]@);
            all.lemma_filter_map_take_succ(shown, i as int);
        }
        let item = &items[i];
        if item.vm == *name {
            icons.push(
                QuickLaunchIcon {
                    id: item.id.clone(),
                    icon: item.icon.clone(),
                    tooltip: item.tooltip.clone(),
                },
            );
            assert(views(icons@) =~= before + seq![icon_of(item@)]);
        } else {
            assert(before + Seq::<QuickLaunchIconView>::empty() =~= before);
        }
        i = i + 1;
    }
    assert(all.take(i as int) =~= all);
    icons
}

fn select_audio(audio: &Option<AudioStatus>, name: &String) -> (state: Option<VmAudioState>)
    ensures
        opt_view(state) == audio_of(opt_view(*audio), name@),
{
    match audio {
        None => None,
        Some(status) => {
            let ghost entries = views(status.entries@);
            let ghost entry_for = |entry: AudioStatusEntryView| entry.vm == name@;
            let mut i: usize = 0;
            while i < status.entries.len()
                invariant
                    i <= status.entries@.len(),
                    *audio == Some(*status),
                    entries == views(status.entries@),
                    entry_for == |entry: AudioStatusEntryView| entry.vm == name@,
                    forall|k: int| 0 <= k < i ==> !entry_for(#[trigger] entries[k]),
                decreases status.entries@.len() - i,
            {
                assert(entries[i as int] == status.entries@[i as int]@);
                if status.entries[i].vm == *name {
                    proof {
                        lemma_first_where_at(entries, entry_for, i as int);
                    }
                    return Some(status.entries[i].audio.clone());
                }
                i = i + 1;
            }
            proof {
                lemma_first_where_none(entries, entry_for);
            }
            let ghost errors = views(status.errors@);
            let ghost error_for = |error: AudioStatusErrorView| error.vm == name@;
            let mut j: usize = 0;
            while j < status.errors.len()
                invariant
                    j <= status.errors@.len(),
                    *audio == Some(*status),
                    entries == views(status.entries@),
                    entry_for == |entry: AudioStatusEntryView| entry.vm == name@,
                    first_where(entries, entry_for) is None,
                    errors == views(status.errors@),
                    error_for == |error: AudioStatusErrorView| error.vm == name@,
                    forall|k: int| 0 <= k < j ==> !error_for(#[trigger] errors[k]),
                decreases status.errors@.len() - j,
            {
                assert(errors[j as int] == status.errors@[j as int]@);
                let error = &status.errors[j];
                if error.vm == *name {
                    proof {
                        lemma_first_where_at(errors, error_for, j as int);
                    }
                    return Some(
                        VmAudioState {
                            speaker: AudioChannelState { level: None, muted: true },
                            microphone: AudioChannelState { level: None, muted: true },
                            provider_kind: None,
                            enforcement: "unknown".to_owned(),
                            error_kind: Some(error.kind.clone()),
                            remediation: error.remediation.clone(),
                        },
                    );
                }
                j = j + 1;
            }
            proof {
                lemma_first_where_none(errors, error_for);
            }
            None
        },
    }
}

fn listed(names: &Vec<String>, name: &String) -> (yes: bool)
    ensures
        yes == views(names@).contains(name@),
{
    let mut i: usize = 0;
    while i < names.len()
        invariant
            i <= names@.len(),
            forall|k: int| 0 <= k < i ==> #[trigger] views(names@)[k] != name@,
        decreases names@.len() - i,
    {
        assert(views(names@)[i as int] == names@[i as int]@);
        if names[i] == *name {
            return true;
        }
        i = i + 1;
    }
    false
}

/// Keeps the capabilities of the status where there is one.
pub fn merge_capabilities(inventory: VmCapabilities, status: Option<VmCapabilities>) -> (merged:
    VmCapabilities)
    ensures
        merged == match status {
            Some(capabilities) => capabilities,
            None => inventory,
        },
{
    match status {
        Some(capabilities) => capabilities,
        None => inventory,
    }
}

/// Builds the VM that the surfaces show for one inventory entry.
pub fn build_vm(
    vm: InventoryVm,
    statuses: &Vec<VmStatus>,
    claims: &Vec<UsbClaim>,
    audio: &Option<AudioStatus>,
    config: &Config,
) -> (built: Vm)
    ensures
        built@ == reduced_vm(
            vm@,
            views(statuses@),
            views(claims@),
            opt_view(*audio),
            config@,
        ),
{
    let status = find_status(statuses, &vm.name);
    let (reported_state, reported_capabilities, reported_restart, readiness): (
        Option<RuntimeState>,
        Option<VmCapabilities>,
        bool,
        Vec<String>,
    ) = match status {
        Some(report) => (
            Some(report.state),
            Some(report.capabilities),
            report.pending_restart,
            report.readiness.clone(),
        ),
        None => (None, None, false, Vec::new()),
    };
    assert(views(readiness@) =~= match status_of(views(statuses@), vm@.name) {
        Some(report) => report.readiness,
        None => Seq::empty(),
    });
    let state = reduce_state(coarse_state(&vm.coarse_status), reported_state);
    let capabilities = merge_capabilities(vm.capabilities, reported_capabilities);
    let is_net_vm = vm.is_net_vm || is_framework_net_vm_name(vm.name.as_str());
    let hidden = listed(&config.hidden_vms, &vm.name);
    let usb = select_claims(claims, &vm.name);
    let quick_launch = select_icons(&config.quick_launch, &vm.name);
    let audio = select_audio(audio, &vm.name);
    Vm {
        name: vm.name,
        env: vm.env,
        state,
        is_net_vm,
        net_shown: is_net_vm && !config.hide_net_vms,
        hidden,
        pending_restart: config.show_pending_restart && reported_restart,
        features: vm.features,
        capabilities,
        static_ip: vm.static_ip,
        readiness,
        usb,
        quick_launch,
        audio,
    }
}

/// Reduce a bundle of source fragments into the aggregate [`WlState`].
pub fn reduce(input: ReduceInput) -> (state: WlState)
    ensures
        state@ == reduced(input@, default_config()),
{
    reduce_with_config(input, &Config::default())
}

/// Reduce source fragments with user configuration for ordering and visibility.
pub fn reduce_with_config(input: ReduceInput, config: &Config) -> (state: WlState)
    ensures
        state@ == reduced(input@, config@),
{
    let ghost whole = input@;
    if input.connectivity != Connectivity::Connected {
        return WlState {
            connectivity: input.connectivity,
            role: AuthRole::NoRole,
            vms: Vec::new(),
            stale: false,
            note: None,
        };
    }
    let role = match input.auth {
        Some(auth) => auth.role,
        None => AuthRole::NoRole,
    };
    let connectivity = if role == AuthRole::NoRole {
        Connectivity::AuthDenied
    } else {
        Connectivity::Connected
    };
    let declared: Vec<InventoryVm> = match input.inventory {
        Some(inventory) => inventory.vms,
        None => Vec::new(),
    };
    assert(views(declared@) =~= declared_vms(whole));
    let claims: Vec<UsbClaim> = match input.usb {
        Some(probe) => probe.claims,
        None => Vec::new(),
    };
    assert(views(claims@) =~= probed_claims(whole));
    let statuses = input.statuses;
    let audio = input.audio;
    let ordered = ordered_inventory(declared, &config.favorites);
    let ghost order = views(ordered@);
    let ghost source = ordered@;
    let mut vms: Vec<Vm> = Vec::new();
    for vm in it: ordered
        invariant
            it.seq() == source,
            views(source) == order,
            views(statuses@) == whole.statuses,
            views(claims@) == probed_claims(whole),
            opt_view(audio) == whole.audio,
            vms@.len() == it.index(),
            forall|k: int|
                0 <= k < vms@.len() ==> (#[trigger] vms@[k])@ == reduced_vm(
                    order[k],
                    whole.statuses,
                    probed_claims(whole),
                    whole.audio,
                    config@,
                ),
    {
        assert(order[it.index() as int] == vm@);
        vms.push(build_vm(vm, &statuses, &claims, &audio, config));
    }
    let state = WlState { connectivity, role, vms, stale: false, note: None };
    assert(state@.vms =~= reduced(whole, config@).vms);
    state
}

/// A surface never shows a VM as running unless its own status says so and the
/// listing does not contradict it.
pub proof fn law_never_false_healthy(input: ReduceInputView, config: ConfigView, i: int)
    requires
        0 <= i < reduced(input, config).vms.len(),
        reduced(input, config).vms[i].state == RuntimeState::Running,
    ensures
        ({
            let vm = display_order(declared_vms(input), config.favorites)[i];
            &&& reduced(input, config).vms[i].name == vm.name
            &&& status_of(input.statuses, vm.name) is Some
            &&& status_of(input.statuses, vm.name)->Some_0.state == RuntimeState::Running
            &&& coarse_reading(vm.coarse_status) != RuntimeState::Stopped
        }),
{
}

/// Whatever fragments came with it, a surface that is not connected shows no VM
/// and no role.
pub proof fn law_not_connected_is_empty(input: ReduceInputView, config: ConfigView)
    requires
        input.connectivity != Connectivity::Connected,
    ensures
        reduced(input, config).connectivity == input.connectivity,
        reduced(input, config).role == AuthRole::NoRole,
        reduced(input, config).vms.len() == 0,
        !reduced(input, config).attention(),
{
}

/// A reachable daemon is shown as denied exactly when it gives no role.
pub proof fn law_denied_iff_no_role(input: ReduceInputView, config: ConfigView)
    requires
        input.connectivity == Connectivity::Connected,
    ensures
        reduced(input, config).connectivity == Connectivity::AuthDenied <==> role_of(input.auth)
            == AuthRole::NoRole,
        reduced(input, config).connectivity != Connectivity::DaemonDown,
{
}

proof fn lemma_picked_multiset(vms: Seq<InventoryVmView>, favorites: Seq<Seq<char>>)
    ensures
        favored(vms, favorites).to_multiset() =~= vms.to_multiset(),
    decreases favorites.len(),
{
    broadcast use vstd::seq_lib::group_to_multiset_ensures;

    if favorites.len() == 0 {
        assert(favored(vms, favorites) =~= vms);
    } else {
        lemma_position_of(vms, favorites[0]);
        match position_of(vms, favorites[0]) {
            Some(i) => {
                lemma_picked_multiset(vms.remove(i), favorites.drop_first());
                let rest = favored(vms.remove(i), favorites.drop_first());
                assert(favored(vms, favorites) =~= seq![vms[i]] + rest);
                vstd::seq_lib::lemma_multiset_commutative(seq![vms[i]], rest);
                vstd::seq_lib::to_multiset_remove(vms, i);
                assert(seq![vms[i]].to_multiset() =~= vstd::multiset::Multiset::singleton(vms[i]));
                assert(vms.contains(vms[i]));
            },
            None => {
                lemma_picked_multiset(vms, favorites.drop_first());
            },
        }
    }
}

proof fn lemma_partition_multiset(vms: Seq<InventoryVmView>)
    ensures
        (vms.filter(|vm: InventoryVmView| !system_vm(vm)) + vms.filter(
            |vm: InventoryVmView| system_vm(vm),
        )).to_multiset() =~= vms.to_multiset(),
    decreases vms.len(),
{
    broadcast use vstd::seq_lib::group_to_multiset_ensures;

    reveal(Seq::filter);
    let ordinary = |vm: InventoryVmView| !system_vm(vm);
    let system = |vm: InventoryVmView| system_vm(vm);
    vstd::seq_lib::lemma_multiset_commutative(vms.filter(ordinary), vms.filter(system));
    if vms.len() > 0 {
        let front = vms.drop_last();
        lemma_partition_multiset(front);
        vstd::seq_lib::lemma_multiset_commutative(front.filter(ordinary), front.filter(system));
        assert(vms =~= front.push(vms.last()));
    } else {
        assert(vms.filter(ordinary) + vms.filter(system) =~= vms);
    }
}

/// Ordering neither drops, adds nor repeats a VM.
pub proof fn law_display_order_permutes(vms: Seq<InventoryVmView>, favorites: Seq<Seq<char>>)
    ensures
        display_order(vms, favorites).to_multiset() == vms.to_multiset(),
        display_order(vms, favorites).len() == vms.len(),
{
    lemma_picked_multiset(vms, favorites);
    lemma_partition_multiset(favored(vms, favorites));
    vms.to_multiset_ensures();
    display_order(vms, favorites).to_multiset_ensures();
    assert(display_order(vms, favorites).to_multiset().len() == vms.to_multiset().len());
}

/// Framework VMs come after all others, favorites among them or not.
pub proof fn law_system_vms_last(
    vms: Seq<InventoryVmView>,
    favorites: Seq<Seq<char>>,
    i: int,
    j: int,
)
    requires
        0 <= i < j < vms.len(),
        system_vm(display_order(vms, favorites)[i]),
    ensures
        system_vm(display_order(vms, favorites)[j]),
{
    law_display_order_permutes(vms, favorites);
    let all = favored(vms, favorites);
    let ordinary = |vm: InventoryVmView| !system_vm(vm);
    let system = |vm: InventoryVmView| system_vm(vm);
    let first = all.filter(ordinary);
    let last = all.filter(system);
    if i < first.len() {
        all.lemma_filter_pred(ordinary, i);
    } else {
        all.lemma_filter_pred(system, j - first.len());
    }
}

/// The first favorite that is declared and not a framework VM leads the list.
pub proof fn law_favorite_leads(vms: Seq<InventoryVmView>, favorites: Seq<Seq<char>>)
    requires
        favorites.len() > 0,
        exists|k: int| 0 <= k < vms.len() && (#[trigger] vms[k]).name == favorites[0],
        !begins(favorites[0], "sys-"@),
    ensures
        display_order(vms, favorites).len() > 0,
        display_order(vms, favorites)[0].name == favorites[0],
{
    lemma_position_of(vms, favorites[0]);
    let i = position_of(vms, favorites[0])->Some_0;
    let all = favored(vms, favorites);
    assert(all[0] == vms[i]);
    let ordinary = |vm: InventoryVmView| !system_vm(vm);
    all.lemma_filter_eq_filter_alt(ordinary);
    assert(all.first() == vms[i]);
    assert(all.filter(ordinary)[0] == vms[i]);
}

/// Where a name stands among the favorites; after all of them where it is none.
pub open spec fn favorite_rank(favorites: Seq<Seq<char>>, name: Seq<char>) -> nat
    decreases favorites.len(),
{
    if favorites.len() == 0 || favorites[0] == name {
        0
    } else {
        1 + favorite_rank(favorites.drop_first(), name)
    }
}

/// Whether no two VMs have the same name.
pub open spec fn distinct_vms(vms: Seq<InventoryVmView>) -> bool {
    forall|i: int, j: int|
        0 <= i < j < vms.len() ==> (#[trigger] vms[i]).name != (#[trigger] vms[j]).name
}

/// Whether VMs stand in the order of the favorites.
spec fn ranked(vms: Seq<InventoryVmView>, favorites: Seq<Seq<char>>) -> bool {
    forall|i: int, j: int|
        0 <= i < j < vms.len() ==> favorite_rank(favorites, (#[trigger] vms[i]).name)
            <= favorite_rank(favorites, (#[trigger] vms[j]).name)
}

proof fn lemma_favored_contains(
    vms: Seq<InventoryVmView>,
    favorites: Seq<Seq<char>>,
    k: int,
)
    requires
        0 <= k < favored(vms, favorites).len(),
    ensures
        vms.contains(favored(vms, favorites)[k]),
{
    broadcast use vstd::seq_lib::group_to_multiset_ensures;

    lemma_picked_multiset(vms, favorites);
    let vm = favored(vms, favorites)[k];
    assert(favored(vms, favorites).contains(vm));
    assert(favored(vms, favorites).to_multiset().count(vm) > 0);
    assert(vms.to_multiset().count(vm) > 0);
}

/// Names other than the first favorite rank as they do among the other favorites.
proof fn lemma_rank_past_first(favorites: Seq<Seq<char>>, first: Seq<char>, second: Seq<char>)
    requires
        favorites.len() > 0,
        first != favorites[0],
        second != favorites[0],
        favorite_rank(favorites.drop_first(), first) <= favorite_rank(
            favorites.drop_first(),
            second,
        ),
    ensures
        favorite_rank(favorites, first) <= favorite_rank(favorites, second),
{
}

proof fn lemma_ranked_past_first(vms: Seq<InventoryVmView>, favorites: Seq<Seq<char>>)
    requires
        favorites.len() > 0,
        ranked(vms, favorites.drop_first()),
        forall|k: int| 0 <= k < vms.len() ==> (#[trigger] vms[k]).name != favorites[0],
    ensures
        ranked(vms, favorites),
{
    assert forall|i: int, j: int| 0 <= i < j < vms.len() implies favorite_rank(
        favorites,
        (#[trigger] vms[i]).name,
    ) <= favorite_rank(favorites, (#[trigger] vms[j]).name) by {
        lemma_rank_past_first(favorites, vms[i].name, vms[j].name);
    }
}

proof fn lemma_ranked_behind_first(
    vm: InventoryVmView,
    rest: Seq<InventoryVmView>,
    favorites: Seq<Seq<char>>,
)
    requires
        favorites.len() > 0,
        vm.name == favorites[0],
        ranked(rest, favorites),
    ensures
        ranked(seq![vm] + rest, favorites),
{
    let all = seq![vm] + rest;
    assert forall|i: int, j: int| 0 <= i < j < all.len() implies favorite_rank(
        favorites,
        (#[trigger] all[i]).name,
    ) <= favorite_rank(favorites, (#[trigger] all[j]).name) by {
        assert(all[j] == rest[j - 1]);
        if i > 0 {
            assert(all[i] == rest[i - 1]);
        }
    }
}

/// Removing the one VM of a name leaves no VM of that name.
proof fn lemma_removed_name(vms: Seq<InventoryVmView>, i: int)
    requires
        distinct_vms(vms),
        0 <= i < vms.len(),
    ensures
        distinct_vms(vms.remove(i)),
        forall|m: int|
            0 <= m < vms.remove(i).len() ==> (#[trigger] vms.remove(i)[m]).name != vms[i].name,
{
    let left = vms.remove(i);
    assert forall|m: int| 0 <= m < left.len() implies (#[trigger] left[m]).name
        != vms[i].name by {
        assert(left[m] == vms[if m < i {
            m
        } else {
            m + 1
        }]);
    }
}

proof fn lemma_favored_lacks(
    vms: Seq<InventoryVmView>,
    favorites: Seq<Seq<char>>,
    name: Seq<char>,
)
    requires
        forall|m: int| 0 <= m < vms.len() ==> (#[trigger] vms[m]).name != name,
    ensures
        forall|k: int|
            0 <= k < favored(vms, favorites).len() ==> (#[trigger] favored(vms, favorites)[k]).name
                != name,
{
    assert forall|k: int| 0 <= k < favored(vms, favorites).len() implies (#[trigger] favored(
        vms,
        favorites,
    )[k]).name != name by {
        lemma_favored_contains(vms, favorites, k);
    }
}

/// Where the first favorite is listed it comes first, and where it is not it has no
/// part in the order.
proof fn lemma_favored_step(vms: Seq<InventoryVmView>, favorites: Seq<Seq<char>>)
    requires
        favorites.len() > 0,
    ensures
        favored(vms, favorites) == match position_of(vms, favorites[0]) {
            Some(i) => seq![vms[i]] + favored(vms.remove(i), favorites.drop_first()),
            None => favored(vms, favorites.drop_first()),
        },
{
    if let Some(i) = position_of(vms, favorites[0]) {
        let rest = picked(vms.remove(i), favorites.drop_first());
        assert(seq![vms[i]] + rest.0 + rest.1 =~= seq![vms[i]] + (rest.0 + rest.1));
    }
}

proof fn lemma_favored_ranked(vms: Seq<InventoryVmView>, favorites: Seq<Seq<char>>)
    requires
        distinct_vms(vms),
    ensures
        ranked(favored(vms, favorites), favorites),
    decreases favorites.len(),
{
    if favorites.len() > 0 {
        lemma_position_of(vms, favorites[0]);
        lemma_favored_step(vms, favorites);
        let rest = favorites.drop_first();
        match position_of(vms, favorites[0]) {
            Some(i) => {
                let left = vms.remove(i);
                lemma_removed_name(vms, i);
                lemma_favored_ranked(left, rest);
                lemma_favored_lacks(left, rest, favorites[0]);
                lemma_ranked_past_first(favored(left, rest), favorites);
                lemma_ranked_behind_first(vms[i], favored(left, rest), favorites);
            },
            None => {
                lemma_favored_ranked(vms, rest);
                lemma_favored_lacks(vms, rest, favorites[0]);
                lemma_ranked_past_first(favored(vms, rest), favorites);
            },
        }
    }
}

proof fn lemma_filter_ranked(
    vms: Seq<InventoryVmView>,
    favorites: Seq<Seq<char>>,
    keep: spec_fn(InventoryVmView) -> bool,
)
    requires
        ranked(vms, favorites),
    ensures
        ranked(vms.filter(keep), favorites),
    decreases vms.len(),
{
    reveal(Seq::filter);
    if vms.len() > 0 {
        let front = vms.drop_last();
        assert forall|i: int, j: int| 0 <= i < j < front.len() implies favorite_rank(
            favorites,
            (#[trigger] front[i]).name,
        ) <= favorite_rank(favorites, (#[trigger] front[j]).name) by {
            assert(front[i] == vms[i] && front[j] == vms[j]);
        }
        lemma_filter_ranked(front, favorites, keep);
        let kept = front.filter(keep);
        assert forall|i: int| 0 <= i < kept.len() implies favorite_rank(
            favorites,
            (#[trigger] kept[i]).name,
        ) <= favorite_rank(favorites, vms.last().name) by {
            assert(kept.contains(kept[i]));
            front.lemma_filter_contains_rev(keep, kept[i]);
            let m = choose|m: int| 0 <= m < front.len() && front[m] == kept[i];
            assert(vms[m] == kept[i]);
        }
    }
}

/// Favorites are pinned first, in the given order: among ordinary VMs, and among
/// framework VMs, none stands behind one that the favorites name later or do not
/// name at all.
pub proof fn law_favorites_are_pinned_in_order(
    vms: Seq<InventoryVmView>,
    favorites: Seq<Seq<char>>,
    i: int,
    j: int,
)
    requires
        distinct_vms(vms),
        0 <= i < j < vms.len(),
        system_vm(display_order(vms, favorites)[i]) == system_vm(display_order(vms, favorites)[j]),
    ensures
        favorite_rank(favorites, display_order(vms, favorites)[i].name) <= favorite_rank(
            favorites,
            display_order(vms, favorites)[j].name,
        ),
{
    law_display_order_permutes(vms, favorites);
    let all = favored(vms, favorites);
    let ordinary = |vm: InventoryVmView| !system_vm(vm);
    let system = |vm: InventoryVmView| system_vm(vm);
    lemma_favored_ranked(vms, favorites);
    lemma_filter_ranked(all, favorites, ordinary);
    lemma_filter_ranked(all, favorites, system);
    let first = all.filter(ordinary);
    let last = all.filter(system);
    if i < first.len() {
        all.lemma_filter_pred(ordinary, i);
    }
    if j >= first.len() {
        all.lemma_filter_pred(system, j - first.len());
        if i >= first.len() {
            assert(last[i - first.len()] == display_order(vms, favorites)[i]);
        }
    }
}

/// Without favorites and framework VMs the declared order stands.
pub proof fn law_declared_order_stands(vms: Seq<InventoryVmView>)
    requires
        forall|i: int| 0 <= i < vms.len() ==> !system_vm(#[trigger] vms[i]),
    ensures
        display_order(vms, Seq::empty()) == vms,
{
    let all = favored(vms, Seq::empty());
    assert(all =~= vms);
    lemma_no_system(vms);
    assert(display_order(vms, Seq::empty()) =~= vms);
}

proof fn lemma_no_system(vms: Seq<InventoryVmView>)
    requires
        forall|i: int| 0 <= i < vms.len() ==> !system_vm(#[trigger] vms[i]),
    ensures
        vms.filter(|vm: InventoryVmView| system_vm(vm)).len() == 0,
        vms.filter(|vm: InventoryVmView| !system_vm(vm)) == vms,
    decreases vms.len(),
{
    reveal(Seq::filter);
    if vms.len() > 0 {
        let front = vms.drop_last();
        assert forall|i: int| 0 <= i < front.len() implies !system_vm(#[trigger] front[i]) by {
            assert(front[i] == vms[i]);
        }
        lemma_no_system(front);
        assert(!system_vm(vms[vms.len() - 1]));
        assert(front.push(vms.last()) =~= vms);
    }
}

/// A connected surface shows exactly the declared VMs, in display order.
pub proof fn law_every_declared_vm_is_shown(input: ReduceInputView, config: ConfigView)
    requires
        input.connectivity == Connectivity::Connected,
    ensures
        reduced(input, config).vms.len() == declared_vms(input).len(),
        forall|i: int|
            0 <= i < reduced(input, config).vms.len() ==> (#[trigger] reduced(
                input,
                config,
            ).vms[i]).name == display_order(declared_vms(input), config.favorites)[i].name,
{
    law_display_order_permutes(declared_vms(input), config.favorites);
}

/// A net VM is shown on compact surfaces exactly where the configuration neither
/// hides net VMs nor hides this one.
pub proof fn law_net_vms_follow_the_option(
    vm: InventoryVmView,
    statuses: Seq<VmStatusView>,
    claims: Seq<UsbClaimView>,
    audio: Option<AudioStatusView>,
    config: ConfigView,
)
    requires
        vm.is_net_vm || framework_net_name(vm.name),
    ensures
        reduced_vm(vm, statuses, claims, audio, config).is_net_vm,
        reduced_vm(vm, statuses, claims, audio, config).visible() <==> !config.hide_net_vms
            && !config.hidden_vms.contains(vm.name),
{
}

/// How a refresh ended.
#[derive(Debug, Clone, Copy, PartialEq, Eq, Structural)]
pub enum RefreshEnd {
    /// The daemon answered, or refused the operator.
    Settled,
    /// No connection to the daemon stood.
    Unreachable,
    /// The daemon was reached, and the refresh failed after that.
    Lost,
}

/// What a surface shows after a refresh that reduced to `fresh`: where the daemon
/// was reached and the refresh then failed, the last state marked as stale, if
/// there is one, and the fresh state otherwise.
pub open spec fn carried(
    last: Option<WlStateView>,
    fresh: WlStateView,
    end: RefreshEnd,
) -> WlStateView {
    match last {
        Some(state) => if end == RefreshEnd::Lost {
            WlStateView { stale: true, ..state }
        } else {
            fresh
        },
        None => fresh,
    }
}

/// Decides what a surface shows after a refresh. `last` is the state of the last
/// settled refresh; a refresh that was lost half way reuses it, marked as stale,
/// rather than showing an empty view. Without such a state, and wherever the
/// daemon could not be reached, the surface shows that the daemon is down.
pub fn carry_over(last: Option<&WlState>, fresh: WlState, end: RefreshEnd) -> (shown: WlState)
    ensures
        shown@ == carried(opt_view(last), fresh@, end),
{
    match last {
        Some(state) => if end == RefreshEnd::Lost {
            let mut reused = state.clone();
            reused.stale = true;
            reused
        } else {
            fresh
        },
        None => fresh,
    }
}

/// The state that later refreshes fall back on: that of the last settled refresh.
pub open spec fn remembered(
    last: Option<WlStateView>,
    fresh: WlStateView,
    end: RefreshEnd,
) -> Option<WlStateView> {
    if end == RefreshEnd::Settled {
        Some(fresh)
    } else {
        last
    }
}

/// What the reducer makes of a bundle is not stale, and it is shown as it stands
/// unless the refresh was lost half way.
pub proof fn law_fresh_state_is_shown(
    last: Option<WlStateView>,
    input: ReduceInputView,
    config: ConfigView,
    end: RefreshEnd,
)
    requires
        end != RefreshEnd::Lost,
    ensures
        !reduced(input, config).stale,
        carried(last, reduced(input, config), end) == reduced(input, config),
{
}

/// However many refreshes fail after a settled one, a lost one among them shows
/// the settled state marked as stale.
pub proof fn law_settled_state_outlives_failures(
    last: Option<WlStateView>,
    settled: WlStateView,
    failures: Seq<(WlStateView, RefreshEnd)>,
    fresh: WlStateView,
)
    requires
        forall|i: int|
            0 <= i < failures.len() ==> (#[trigger] failures[i]).1 != RefreshEnd::Settled,
    ensures
        carried(
            failures.fold_left(
                remembered(last, settled, RefreshEnd::Settled),
                |kept: Option<WlStateView>, failure: (WlStateView, RefreshEnd)|
                    remembered(kept, failure.0, failure.1),
            ),
            fresh,
            RefreshEnd::Lost,
        ) == (WlStateView { stale: true, ..settled }),
    decreases failures.len(),
{
    if failures.len() > 0 {
        let front = failures.drop_last();
        assert forall|i: int| 0 <= i < front.len() implies (#[trigger] front[i]).1
            != RefreshEnd::Settled by {
            assert(front[i] == failures[i]);
        }
        law_settled_state_outlives_failures(last, settled, front, fresh);
        assert(failures[failures.len() - 1].1 != RefreshEnd::Settled);
    }
}

} // verus!
