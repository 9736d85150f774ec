//! Action availability gating and argv/intent planning.

use vstd::prelude::*;

use crate::config::{
    Config, ConfigView, QuickLaunchConfig, QuickLaunchConfigView, config_complaint,
};
use crate::error::{WlErrorView, error_text};
use crate::model::{
    ActionAvailability, ActionAvailabilityView, ActionKind, ActionKindView, AuthRole, Connectivity,
    PlannedAction, PlannedActionView, RuntimeState, SocketIntent, SocketIntentView, Unavailable,
    UnavailableView, UsbClaim, UsbClaimView, Vm, VmCapabilities, VmView, WlState, WlStateView,
};
use crate::text::{
    first_where, lemma_first_where_at, lemma_first_where_none, opt_view, same_text, views,
};

verus! {

/// Whether an action drives audio forwarding.
pub open spec fn is_audio(action: ActionKindView) -> bool {
    action is AudioMic || action is AudioSpeaker || action is AudioSpeakerVolume
        || action is AudioMicGain || action is AudioOff
}

/// Whether an action only concerns the display.
pub open spec fn is_display_only(action: ActionKindView) -> bool {
    action is OpenControlCenter || action is OpenObservability || action is CycleDisplay
        || action is Refresh
}

/// The VM an action targets.
pub open spec fn target_of(action: ActionKindView) -> Option<Seq<char>> {
    match action {
        ActionKindView::Start { vm } => Some(vm),
        ActionKindView::Stop { vm } => Some(vm),
        ActionKindView::ForceStop { vm } => Some(vm),
        ActionKindView::Restart { vm } => Some(vm),
        ActionKindView::Switch { vm } => Some(vm),
        ActionKindView::Build { vm } => Some(vm),
        ActionKindView::Boot { vm } => Some(vm),
        ActionKindView::QuickLaunch { vm, id } => Some(vm),
        ActionKindView::UsbAttach { vm, bus_id } => Some(vm),
        ActionKindView::UsbDetach { vm, bus_id } => Some(vm),
        ActionKindView::StoreVerify { vm } => Some(vm),
        ActionKindView::LaunchTerminal { vm } => Some(vm),
        ActionKindView::AudioMic { vm, on } => Some(vm),
        ActionKindView::AudioSpeaker { vm, on } => Some(vm),
        ActionKindView::AudioSpeakerVolume { vm, level_percent } => Some(vm),
        ActionKindView::AudioMicGain { vm, level_percent } => Some(vm),
        ActionKindView::AudioOff { vm } => Some(vm),
        ActionKindView::Refresh => None,
        ActionKindView::OpenControlCenter => None,
        ActionKindView::OpenObservability => None,
        ActionKindView::CycleDisplay => None,
    }
}

/// The VM an action targets.
pub fn action_target_vm(action: &ActionKind) -> (target: Option<&String>)
    ensures
        match target {
            Some(vm) => target_of(action@) == Some(vm@),
            None => target_of(action@) is None,
        },
{
    match action {
        ActionKind::Start { vm } => Some(vm),
        ActionKind::Stop { vm } => Some(vm),
        ActionKind::ForceStop { vm } => Some(vm),
        ActionKind::Restart { vm } => Some(vm),
        ActionKind::Switch { vm } => Some(vm),
        ActionKind::Build { vm } => Some(vm),
        ActionKind::Boot { vm } => Some(vm),
        ActionKind::QuickLaunch { vm, .. } => Some(vm),
        ActionKind::UsbAttach { vm, .. } => Some(vm),
        ActionKind::UsbDetach { vm, .. } => Some(vm),
        ActionKind::StoreVerify { vm } => Some(vm),
        ActionKind::LaunchTerminal { vm } => Some(vm),
        ActionKind::AudioMic { vm, .. } => Some(vm),
        ActionKind::AudioSpeaker { vm, .. } => Some(vm),
        ActionKind::AudioSpeakerVolume { vm, .. } => Some(vm),
        ActionKind::AudioMicGain { vm, .. } => Some(vm),
        ActionKind::AudioOff { vm } => Some(vm),
        ActionKind::Refresh | ActionKind::OpenControlCenter | ActionKind::OpenObservability
        | ActionKind::CycleDisplay => None,
    }
}

/// The least role that may invoke an action.
pub open spec fn needed_role(action: ActionKindView) -> AuthRole {
    match action {
        ActionKindView::LaunchTerminal { .. } => AuthRole::Admin,
        ActionKindView::QuickLaunch { .. } => AuthRole::Admin,
        ActionKindView::Start { .. } => AuthRole::Admin,
        ActionKindView::Stop { .. } => AuthRole::Admin,
        ActionKindView::ForceStop { .. } => AuthRole::Admin,
        ActionKindView::Restart { .. } => AuthRole::Admin,
        ActionKindView::Switch { .. } => AuthRole::Admin,
        ActionKindView::Boot { .. } => AuthRole::Admin,
        ActionKindView::UsbAttach { .. } => AuthRole::Admin,
        ActionKindView::UsbDetach { .. } => AuthRole::Admin,
        ActionKindView::StoreVerify { .. } => AuthRole::Admin,
        ActionKindView::Build { .. } => AuthRole::Launcher,
        _ => AuthRole::NoRole,
    }
}

/// The least role that may invoke an action.
pub fn required_role(action: &ActionKind) -> (role: AuthRole)
    ensures
        role == needed_role(action@),
{
    match action {
        ActionKind::LaunchTerminal { .. } | ActionKind::QuickLaunch { .. } | ActionKind::Start {
            ..
        } | ActionKind::Stop { .. } | ActionKind::ForceStop { .. } | ActionKind::Restart { .. }
        | ActionKind::Switch { .. } | ActionKind::Boot { .. } | ActionKind::UsbAttach { .. }
        | ActionKind::UsbDetach { .. } | ActionKind::StoreVerify { .. } => AuthRole::Admin,
        ActionKind::Build { .. } => AuthRole::Launcher,
        _ => AuthRole::NoRole,
    }
}

/// How much a role may do.
pub open spec fn role_rank(role: AuthRole) -> int {
    match role {
        AuthRole::NoRole => 0,
        AuthRole::Launcher => 1,
        AuthRole::Admin => 2,
    }
}

fn rank(role: AuthRole) -> (level: u8)
    ensures
        level == role_rank(role),
{
    match role {
        AuthRole::NoRole => 0,
        AuthRole::Launcher => 1,
        AuthRole::Admin => 2,
    }
}

/// Whether a role is enough.
pub fn role_satisfies(have: AuthRole, need: AuthRole) -> (yes: bool)
    ensures
        yes == (role_rank(have) >= role_rank(need)),
{
    rank(have) >= rank(need)
}

/// The VM of a name.
pub open spec fn vm_named(state: WlStateView, name: Seq<char>) -> Option<VmView> {
    first_where(state.vms, |vm: VmView| vm.name == name)
}

/// The VM of a name, whatever its state.
pub fn running_vm<'a>(state: &'a WlState, name: &str) -> (found: Option<&'a Vm>)
    ensures
        match found {
            Some(vm) => vm_named(state@, name@) == Some(vm@),
            None => vm_named(state@, name@) is None,
        },
{
    let ghost vms = state@.vms;
    let ghost wanted = |vm: VmView| vm.name == name@;
    let mut i: usize = 0;
    while i < state.vms.len()
        invariant
            i <= state.vms@.len(),
            vms == views(state.vms@),
            vms == state@.vms,
            wanted == |vm: VmView| vm.name == name@,
            forall|k: int| 0 <= k < i ==> !wanted(#[trigger] vms[k]),
        decreases state.vms@.len() - i,
    {
        assert(vms[i as int] == state.vms@[i as int]@);
        if same_text(state.vms[i].name.as_str(), name) {
            proof {
                lemma_first_where_at(vms, wanted, i as int);
            }
            return Some(&state.vms[i]);
        }
        i = i + 1;
    }
    proof {
        lemma_first_where_none(vms, wanted);
    }
    None
}

/// Whether a runtime supports an action.
pub open spec fn supports(capabilities: VmCapabilities, action: ActionKindView) -> bool {
    match action {
        ActionKindView::Start { .. } => capabilities.start,
        ActionKindView::Stop { .. } => capabilities.stop,
        ActionKindView::ForceStop { .. } => capabilities.stop,
        ActionKindView::Restart { .. } => capabilities.restart,
        ActionKindView::Switch { .. } => capabilities.switch,
        ActionKindView::Build { .. } => capabilities.build,
        ActionKindView::Boot { .. } => capabilities.boot,
        ActionKindView::UsbAttach { .. } => capabilities.usb_hotplug,
        ActionKindView::UsbDetach { .. } => capabilities.usb_hotplug,
        ActionKindView::StoreVerify { .. } => capabilities.store_verify,
        ActionKindView::LaunchTerminal { .. } => capabilities.terminal,
        ActionKindView::QuickLaunch { .. } => capabilities.terminal,
        _ => true,
    }
}

/// The block that an unsupported action meets, when its VM is known.
pub open spec fn unsupported(action: ActionKindView, state: WlStateView) -> Option<
    UnavailableView,
> {
    match target_of(action) {
        Some(name) => match vm_named(state, name) {
            Some(vm) => if supports(vm.capabilities, action) {
                None
            } else {
                Some(UnavailableView::Blocked { detail: "unsupported by this VM runtime"@ })
            },
            None => None,
        },
        None => None,
    }
}

fn capability_block(action: &ActionKind, state: &WlState) -> (reason: Option<Unavailable>)
    ensures
        opt_view(reason) == unsupported(action@, state@),
{
    let name = match action_target_vm(action) {
        Some(name) => name,
        None => {
            return None;
        },
    };
    let target = match running_vm(state, name.as_str()) {
        Some(vm) => vm,
        None => {
            return None;
        },
    };
    let supported = match action {
        ActionKind::Start { .. } => target.capabilities.start,
        ActionKind::Stop { .. } | ActionKind::ForceStop { .. } => target.capabilities.stop,
        ActionKind::Restart { .. } => target.capabilities.restart,
        ActionKind::Switch { .. } => target.capabilities.switch,
        ActionKind::Build { .. } => target.capabilities.build,
        ActionKind::Boot { .. } => target.capabilities.boot,
        ActionKind::UsbAttach { .. } | ActionKind::UsbDetach { .. } => {
            target.capabilities.usb_hotplug
        },
        ActionKind::StoreVerify { .. } => target.capabilities.store_verify,
        ActionKind::LaunchTerminal { .. } | ActionKind::QuickLaunch { .. } => {
            target.capabilities.terminal
        },
        _ => true,
    };
    if supported {
        None
    } else {
        Some(Unavailable::Blocked { detail: "unsupported by this VM runtime".to_owned() })
    }
}

/// Every USB claim, VM after VM.
pub open spec fn all_claims(vms: Seq<VmView>) -> Seq<UsbClaimView>
    decreases vms.len(),
{
    if vms.len() == 0 {
        Seq::empty()
    } else {
        vms[0].usb + all_claims(vms.drop_first())
    }
}

/// The first claim on a busid.
pub open spec fn claim_on(state: WlStateView, bus_id: Seq<char>) -> Option<UsbClaimView> {
    first_where(all_claims(state.vms), |claim: UsbClaimView| claim.bus_id == bus_id)
}

proof fn lemma_first_where_append<A>(left: Seq<A>, right: Seq<A>, wanted: spec_fn(A) -> bool)
    ensures
        first_where(left + right, wanted) == match first_where(left, wanted) {
            Some(found) => Some(found),
            None => first_where(right, wanted),
        },
    decreases left.len(),
{
    let whole = left + right;
    if left.len() == 0 {
        assert(whole =~= right);
    } else {
        assert(whole[0] == left[0]);
        if !wanted(left[0]) {
            lemma_first_where_append(left.drop_first(), right, wanted);
            assert(whole.drop_first() =~= left.drop_first() + right);
        }
    }
}

fn find_claim<'a>(state: &'a WlState, bus_id: &String) -> (found: Option<&'a UsbClaim>)
    ensures
        match found {
            Some(claim) => claim_on(state@, bus_id@) == Some(claim@),
            None => claim_on(state@, bus_id@) is None,
        },
{
    let ghost vms = state@.vms;
    let ghost wanted = |claim: UsbClaimView| claim.bus_id == bus_id@;
    let mut i: usize = 0;
    assert(vms.skip(0) =~= vms);
    while i < state.vms.len()
        invariant
            i <= state.vms@.len(),
            vms == views(state.vms@),
            vms == state@.vms,
            wanted == |claim: UsbClaimView| claim.bus_id == bus_id@,
            claim_on(state@, bus_id@) == first_where(all_claims(vms.skip(i as int)), wanted),
        decreases state.vms@.len() - i,
    {
        let vm = &state.vms[i];
        let ghost claims = views(vm.usb@);
        proof {
            assert(vms[i as int] == vm@);
            let rest = vms.skip(i as int);
            assert(rest[0] == vm@);
            assert(rest.drop_first() =~= vms.skip(i + 1));
            lemma_first_where_append(claims, all_claims(vms.skip(i + 1)), wanted);
        }
        let mut j: usize = 0;
        while j < vm.usb.len()
            invariant
                j <= vm.usb@.len(),
                claims == views(vm.usb@),
                wanted == |claim: UsbClaimView| claim.bus_id == bus_id@,
                forall|k: int| 0 <= k < j ==> !wanted(#[trigger] claims[k]),
                claim_on(state@, bus_id@) == match first_where(claims, wanted) {
                    Some(found) => Some(found),
                    None => first_where(all_claims(vms.skip(i + 1)), wanted),
                },
            decreases vm.usb@.len() - j,
        {
            assert(claims[j as int] == vm.usb@[j as int]@);
            if vm.usb[j].bus_id == *bus_id {
                proof {
                    lemma_first_where_at(claims, wanted, j as int);
                }
                return Some(&vm.usb[j]);
            }
            j = j + 1;
        }
        proof {
            lemma_first_where_none(claims, wanted);
        }
        i = i + 1;
    }
    assert(vms.skip(i as int) =~= Seq::<VmView>::empty());
    None
}

/// The block that attaching a device meets: it is bound to another VM.
pub open spec fn attach_block(state: WlStateView, vm: Seq<char>, bus_id: Seq<char>) -> Option<
    UnavailableView,
> {
    match claim_on(state, bus_id) {
        Some(claim) => if claim.bound && claim.owner_vm is Some && claim.owner_vm->Some_0 != vm {
            Some(UnavailableView::UsbOwnedElsewhere { owner: claim.owner_vm->Some_0 })
        } else {
            None
        },
        None => None,
    }
}

fn usb_attach_block(state: &WlState, vm: &String, bus_id: &String) -> (reason: Option<Unavailable>)
    ensures
        opt_view(reason) == attach_block(state@, vm@, bus_id@),
{
    match find_claim(state, bus_id) {
        Some(claim) => if claim.bound {
            match &claim.owner_vm {
                Some(owner) => if *owner == *vm {
                    None
                } else {
                    Some(Unavailable::UsbOwnedElsewhere { owner: owner.clone() })
                },
                None => None,
            }
        } else {
            None
        },
        None => None,
    }
}

/// The block that detaching a device meets: it is bound to another VM, or not
/// bound at all.
pub open spec fn detach_block(state: WlStateView, vm: Seq<char>, bus_id: Seq<char>) -> Option<
    UnavailableView,
> {
    match claim_on(state, bus_id) {
        Some(claim) => if !claim.bound {
            Some(UnavailableView::VmState { detail: "device is not bound"@ })
        } else {
            match claim.owner_vm {
                Some(owner) => if owner == vm {
                    None
                } else {
                    Some(UnavailableView::UsbOwnedElsewhere { owner })
                },
                None => Some(UnavailableView::VmState { detail: "device has no known owner"@ }),
            }
        },
        None => Some(UnavailableView::VmState { detail: "device is not bound"@ }),
    }
}

fn usb_detach_block(state: &WlState, vm: &String, bus_id: &String) -> (reason: Option<Unavailable>)
    ensures
        opt_view(reason) == detach_block(state@, vm@, bus_id@),
{
    match find_claim(state, bus_id) {
        Some(claim) => if claim.bound {
            match &claim.owner_vm {
                Some(owner) => if *owner == *vm {
                    None
                } else {
                    Some(Unavailable::UsbOwnedElsewhere { owner: owner.clone() })
                },
                None => Some(
                    Unavailable::VmState { detail: "device has no known owner".to_owned() },
                ),
            }
        } else {
            Some(Unavailable::VmState { detail: "device is not bound".to_owned() })
        },
        None => Some(Unavailable::VmState { detail: "device is not bound".to_owned() }),
    }
}

/// Whether a VM of the name is known and in the given state.
pub open spec fn known_in_state(state: WlStateView, name: Seq<char>, wanted: RuntimeState) -> bool {
    vm_named(state, name) is Some && vm_named(state, name)->Some_0.state == wanted
}

/// Whether a VM of the name is known and not in the given state.
pub open spec fn known_outside_state(
    state: WlStateView,
    name: Seq<char>,
    wanted: RuntimeState,
) -> bool {
    vm_named(state, name) is Some && vm_named(state, name)->Some_0.state != wanted
}

/// The block that an action meets in the current VM and device states.
pub open spec fn state_block(action: ActionKindView, state: WlStateView) -> Option<
    UnavailableView,
> {
    match action {
        ActionKindView::Start { vm } => if known_in_state(state, vm, RuntimeState::Running) {
            Some(UnavailableView::VmState { detail: "VM is already running"@ })
        } else {
            None
        },
        ActionKindView::Stop { vm } => stopped_block(state, vm),
        ActionKindView::ForceStop { vm } => stopped_block(state, vm),
        ActionKindView::Restart { vm } => stopped_block(state, vm),
        ActionKindView::Switch { vm } => stopped_block(state, vm),
        ActionKindView::LaunchTerminal { vm } => if known_outside_state(
            state,
            vm,
            RuntimeState::Running,
        ) {
            Some(UnavailableView::VmState { detail: "start the VM before opening a terminal"@ })
        } else {
            None
        },
        ActionKindView::QuickLaunch { vm, id } => if known_outside_state(
            state,
            vm,
            RuntimeState::Running,
        ) {
            Some(UnavailableView::VmState { detail: "start the VM before using quick launch"@ })
        } else {
            None
        },
        ActionKindView::UsbAttach { vm, bus_id } => attach_block(state, vm, bus_id),
        ActionKindView::UsbDetach { vm, bus_id } => detach_block(state, vm, bus_id),
        _ => None,
    }
}

/// The block that stopping, restarting or switching a stopped VM meets.
pub open spec fn stopped_block(state: WlStateView, vm: Seq<char>) -> Option<UnavailableView> {
    if known_in_state(state, vm, RuntimeState::Stopped) {
        Some(UnavailableView::VmState { detail: "VM is not running"@ })
    } else {
        None
    }
}

/// Why an action cannot currently be invoked: the first that holds of audio not
/// being driven, the daemon being down, the role, the runtime, the state.
pub open spec fn blocked_by(action: ActionKindView, state: WlStateView) -> Option<
    UnavailableView,
> {
    if is_audio(action) {
        Some(UnavailableView::NotYetImplemented)
    } else if is_display_only(action) {
        None
    } else if state.connectivity == Connectivity::DaemonDown {
        Some(UnavailableView::DaemonDown)
    } else if role_rank(state.role) < role_rank(needed_role(action)) {
        Some(UnavailableView::InsufficientRole { required: needed_role(action) })
    } else if unsupported(action, state) is Some {
        unsupported(action, state)
    } else {
        state_block(action, state)
    }
}

fn vm_state_is(state: &WlState, vm: &String, wanted: RuntimeState) -> (yes: bool)
    ensures
        yes == known_in_state(state@, vm@, wanted),
{
    match running_vm(state, vm.as_str()) {
        Some(target) => target.state == wanted,
        None => false,
    }
}

fn vm_state_is_not(state: &WlState, vm: &String, wanted: RuntimeState) -> (yes: bool)
    ensures
        yes == known_outside_state(state@, vm@, wanted),
{
    match running_vm(state, vm.as_str()) {
        Some(target) => target.state != wanted,
        None => false,
    }
}

/// Returns `Some(reason)` when `action` cannot currently be invoked.
pub fn block_reason(action: &ActionKind, state: &WlState) -> (reason: Option<Unavailable>)
    ensures
        opt_view(reason) == blocked_by(action@, state@),
{
    match action {
        ActionKind::AudioMic { .. } | ActionKind::AudioSpeaker { .. }
        | ActionKind::AudioSpeakerVolume { .. } | ActionKind::AudioMicGain { .. }
        | ActionKind::AudioOff { .. } => {
            return Some(Unavailable::NotYetImplemented);
        },
        // Display-only actions are always available.
        ActionKind::OpenControlCenter | ActionKind::OpenObservability | ActionKind::CycleDisplay
        | ActionKind::Refresh => {
            return None;
        },
        _ => {},
    }
    if state.connectivity == Connectivity::DaemonDown {
        return Some(Unavailable::DaemonDown);
    }
    let required = required_role(action);
    if !role_satisfies(state.role, required) {
        return Some(Unavailable::InsufficientRole { required });
    }
    if let Some(reason) = capability_block(action, state) {
        return Some(reason);
    }
    match action {
        ActionKind::Start { vm } => if vm_state_is(state, vm, RuntimeState::Running) {
            Some(Unavailable::VmState { detail: "VM is already running".to_owned() })
        } else {
            None
        },
        ActionKind::Stop { vm } | ActionKind::ForceStop { vm } | ActionKind::Restart { vm }
        | ActionKind::Switch { vm } => if vm_state_is(state, vm, RuntimeState::Stopped) {
            Some(Unavailable::VmState { detail: "VM is not running".to_owned() })
        } else {
            None
        },
        ActionKind::LaunchTerminal { vm } => if vm_state_is_not(state, vm, RuntimeState::Running) {
            Some(
                Unavailable::VmState { detail: "start the VM before opening a terminal".to_owned() },
            )
        } else {
            None
        },
        ActionKind::QuickLaunch { vm, .. } => if vm_state_is_not(
            state,
            vm,
            RuntimeState::Running,
        ) {
            Some(
                Unavailable::VmState { detail: "start the VM before using quick launch".to_owned() },
            )
        } else {
            None
        },
        ActionKind::UsbAttach { vm, bus_id } => usb_attach_block(state, vm, bus_id),
        ActionKind::UsbDetach { vm, bus_id } => usb_detach_block(state, vm, bus_id),
        _ => None,
    }
}

/// The quick-launch item of an id that is configured for a VM.
pub open spec fn quick_launch_item(
    config: ConfigView,
    vm: Seq<char>,
    id: Seq<char>,
) -> Option<QuickLaunchConfigView> {
    first_where(
        config.quick_launch,
        |item: QuickLaunchConfigView| item.vm == vm && item.id == id,
    )
}

fn quick_launch_config<'a>(vm: &String, id: &String, config: &'a Config) -> (found: Option<
    &'a QuickLaunchConfig,
>)
    ensures
        match found {
            Some(item) => quick_launch_item(config@, vm@, id@) == Some(item@),
            None => quick_launch_item(config@, vm@, id@) is None,
        },
{
    let ghost items = config@.quick_launch;
    let ghost wanted = |item: QuickLaunchConfigView| item.vm == vm@ && item.id == id@;
    let mut i: usize = 0;
    while i < config.quick_launch.len()
        invariant
            i <= config.quick_launch@.len(),
            items == views(config.quick_launch@),
            items == config@.quick_launch,
            wanted == |item: QuickLaunchConfigView| item.vm == vm@ && item.id == id@,
            forall|k: int| 0 <= k < i ==> !wanted(#[trigger] items[k]),
        decreases config.quick_launch@.len() - i,
    {
        let item = &config.quick_launch[i];
        assert(items[i as int] == item@);
        if item.vm == *vm && item.id == *id {
            proof {
                lemma_first_where_at(items, wanted, i as int);
            }
            return Some(item);
        }
        i = i + 1;
    }
    proof {
        lemma_first_where_none(items, wanted);
    }
    None
}

/// Said of a quick-launch id that a VM does not have.
pub open spec fn no_quick_launch(vm: Seq<char>, id: Seq<char>) -> UnavailableView {
    UnavailableView::Blocked {
        detail: "quick launch '"@ + id + "' is not configured for "@ + vm,
    }
}

/// The block that an invalid configuration puts on an action that uses it.
pub open spec fn invalid_config_block(config: ConfigView) -> Option<UnavailableView> {
    match config_complaint(config) {
        Some(complaint) => Some(
            UnavailableView::Blocked { detail: error_text(WlErrorView::Config(complaint)) },
        ),
        None => None,
    }
}

/// The block that the configuration puts on an action. Launching something in a
/// guest and opening the portal need a valid configuration; the portal also
/// needs to be enabled and to have a URL.
pub open spec fn config_block(action: ActionKindView, config: ConfigView) -> Option<
    UnavailableView,
> {
    if action is LaunchTerminal || action is QuickLaunch {
        invalid_config_block(config)
    } else if action is OpenObservability {
        if invalid_config_block(config) is Some {
            invalid_config_block(config)
        } else if !config.observability.enabled {
            Some(UnavailableView::Blocked { detail: "observability is disabled"@ })
        } else if config.observability.url is None {
            Some(UnavailableView::Blocked { detail: "observability.url is not configured"@ })
        } else {
            None
        }
    } else {
        None
    }
}

fn config_block_reason(action: &ActionKind, config: &Config) -> (reason: Option<Unavailable>)
    ensures
        opt_view(reason) == config_block(action@, config@),
{
    match action {
        ActionKind::LaunchTerminal { .. } | ActionKind::QuickLaunch { .. } => {
            match config.validate() {
                Ok(()) => None,
                Err(err) => Some(Unavailable::Blocked { detail: err.to_text() }),
            }
        },
        ActionKind::OpenObservability => {
            if let Err(err) = config.validate() {
                return Some(Unavailable::Blocked { detail: err.to_text() });
            }
            if !config.observability.enabled {
                return Some(
                    Unavailable::Blocked { detail: "observability is disabled".to_owned() },
                );
            }
            if config.observability.url.is_none() {
                return Some(
                    Unavailable::Blocked {
                        detail: "observability.url is not configured".to_owned(),
                    },
                );
            }
            None
        },
        _ => None,
    }
}

/// The host argv that runs a detached command in a guest, up to the command.
pub open spec fn guest_prefix(vm: Seq<char>) -> Seq<Seq<char>> {
    seq!["d2b"@, "vm"@, "exec"@, "-d"@, vm, "--"@]
}

/// The guest argv of a terminal.
pub open spec fn terminal_command(config: ConfigView) -> Seq<Seq<char>> {
    if config.terminal.guest_argv.len() == 0 {
        seq![config.terminal.guest_shell]
    } else {
        config.terminal.guest_argv
    }
}

/// The host argv that opens the portal.
pub open spec fn portal_argv(config: ConfigView) -> Seq<Seq<char>> {
    match config.observability.url {
        Some(url) => config.observability.browser_argv.push(url),
        None => config.observability.browser_argv,
    }
}

/// What an action that nothing blocks dispatches to.
pub open spec fn dispatch_of(action: ActionKindView, config: ConfigView) -> Result<
    PlannedActionView,
    UnavailableView,
> {
    match action {
        ActionKindView::Start { vm } => to_socket(SocketIntentView::VmStart { vm }),
        ActionKindView::Stop { vm } => to_socket(SocketIntentView::VmStop { vm, force: false }),
        ActionKindView::ForceStop { vm } => to_socket(SocketIntentView::VmStop { vm, force: true }),
        ActionKindView::Restart { vm } => to_socket(SocketIntentView::VmRestart { vm }),
        ActionKindView::Switch { vm } => to_socket(SocketIntentView::Switch { vm }),
        ActionKindView::Build { vm } => Ok(
            PlannedActionView::Process { argv: seq!["d2b"@, "build"@, vm], wait: true },
        ),
        ActionKindView::Boot { vm } => to_socket(SocketIntentView::Boot { vm }),
        ActionKindView::UsbAttach { vm, bus_id } => to_socket(
            SocketIntentView::UsbAttach { vm, bus_id },
        ),
        ActionKindView::UsbDetach { vm, bus_id } => to_socket(
            SocketIntentView::UsbDetach { vm, bus_id },
        ),
        ActionKindView::StoreVerify { vm } => to_socket(SocketIntentView::StoreVerify { vm }),
        ActionKindView::Refresh => to_socket(SocketIntentView::List),
        ActionKindView::LaunchTerminal { vm } => Ok(
            PlannedActionView::Process {
                argv: guest_prefix(vm) + terminal_command(config),
                wait: true,
            },
        ),
        ActionKindView::QuickLaunch { vm, id } => match quick_launch_item(config, vm, id) {
            Some(item) => Ok(
                PlannedActionView::Process { argv: guest_prefix(vm) + item.guest_argv, wait: true },
            ),
            None => Err(no_quick_launch(vm, id)),
        },
        ActionKindView::OpenObservability => Ok(
            PlannedActionView::Process { argv: portal_argv(config), wait: false },
        ),
        ActionKindView::OpenControlCenter => Err(handled_in_process()),
        ActionKindView::CycleDisplay => Err(handled_in_process()),
        _ => Err(UnavailableView::NotYetImplemented),
    }
}

/// A request for the protocol client.
pub open spec fn to_socket(intent: SocketIntentView) -> Result<PlannedActionView, UnavailableView> {
    Ok(PlannedActionView::Socket { intent })
}

/// Said of actions that the surfaces carry out themselves.
pub open spec fn handled_in_process() -> UnavailableView {
    UnavailableView::Blocked { detail: "handled in-process; not a d2b dispatch"@ }
}

/// The dispatch of an action, or why it is blocked.
pub open spec fn planned(
    action: ActionKindView,
    state: WlStateView,
    config: ConfigView,
) -> Result<PlannedActionView, UnavailableView> {
    if blocked_by(action, state) is Some {
        Err(blocked_by(action, state)->Some_0)
    } else if config_block(action, config) is Some {
        Err(config_block(action, config)->Some_0)
    } else {
        dispatch_of(action, config)
    }
}

/// The view of a planning result.
pub open spec fn plan_view(result: Result<PlannedAction, Unavailable>) -> Result<
    PlannedActionView,
    UnavailableView,
> {
    match result {
        Ok(action) => Ok(action@),
        Err(reason) => Err(reason@),
    }
}

fn guest_argv(vm: &String, command: &Vec<String>) -> (argv: Vec<String>)
    ensures
        views(argv@) == guest_prefix(vm@) + views(command@),
{
    let mut argv: Vec<String> = vec![
        "d2b".to_owned(),
        "vm".to_owned(),
        "exec".to_owned(),
        "-d".to_owned(),
        vm.clone(),
        "--".to_owned(),
    ];
    assert(views(argv@) =~= guest_prefix(vm@));
    let mut rest = command.clone();
    assert(views(rest@) =~= views(command@));
    let ghost before = argv@;
    let ghost tail = rest@;
    argv.append(&mut rest);
    assert(views(argv@) =~= views(before) + views(tail));
    argv
}

/// The argv-only detached terminal launch. There is no shell string and no
/// interpolation: the guest command is appended as discrete argv elements.
fn terminal_argv(vm: &String, config: &Config) -> (planned: PlannedAction)
    ensures
        planned@ == (PlannedActionView::Process {
            argv: guest_prefix(vm@) + terminal_command(config@),
            wait: true,
        }),
{
    let argv = if config.terminal.guest_argv.len() == 0 {
        let shell: Vec<String> = vec![config.terminal.guest_shell.clone()];
        assert(views(shell@) =~= terminal_command(config@));
        guest_argv(vm, &shell)
    } else {
        guest_argv(vm, &config.terminal.guest_argv)
    };
    PlannedAction::Process { argv, wait: true }
}

fn quick_launch_argv(vm: &String, id: &String, config: &Config) -> (planned: Result<
    PlannedAction,
    Unavailable,
>)
    ensures
        plan_view(planned) == match quick_launch_item(config@, vm@, id@) {
            Some(item) => Ok::<PlannedActionView, UnavailableView>(
                PlannedActionView::Process { argv: guest_prefix(vm@) + item.guest_argv, wait: true },
            ),
            None => Err::<PlannedActionView, UnavailableView>(no_quick_launch(vm@, id@)),
        },
{
    match quick_launch_config(vm, id, config) {
        Some(item) => Ok(
            PlannedAction::Process { argv: guest_argv(vm, &item.guest_argv), wait: true },
        ),
        None => {
            let mut detail = "quick launch '".to_owned();
            detail.append(id.as_str());
            detail.append("' is not configured for ");
            detail.append(vm.as_str());
            Err(Unavailable::Blocked { detail })
        },
    }
}

fn build_argv(vm: &String) -> (planned: PlannedAction)
    ensures
        planned@ == (PlannedActionView::Process { argv: seq!["d2b"@, "build"@, vm@], wait: true }),
{
    let argv: Vec<String> = vec!["d2b".to_owned(), "build".to_owned(), vm.clone()];
    assert(views(argv@) =~= seq!["d2b"@, "build"@, vm@]);
    PlannedAction::Process { argv, wait: true }
}

fn observability_argv(config: &Config) -> (planned: PlannedAction)
    ensures
        planned@ == (PlannedActionView::Process { argv: portal_argv(config@), wait: false }),
{
    let mut argv = config.observability.browser_argv.clone();
    assert(views(argv@) =~= config@.observability.browser_argv);
    if let Some(url) = &config.observability.url {
        argv.push(url.clone());
        assert(views(argv@) =~= config@.observability.browser_argv.push(url@));
    }
    PlannedAction::Process { argv, wait: false }
}

fn socket(intent: SocketIntent) -> (planned: Result<PlannedAction, Unavailable>)
    ensures
        plan_view(planned) == to_socket(intent@),
{
    Ok(PlannedAction::Socket { intent })
}

/// Plan a concrete dispatch for an action, or return why it is blocked.
pub fn plan(action: &ActionKind, state: &WlState, config: &Config) -> (result: Result<
    PlannedAction,
    Unavailable,
>)
    ensures
        plan_view(result) == planned(action@, state@, config@),
{
    if let Some(reason) = block_reason(action, state) {
        return Err(reason);
    }
    if let Some(reason) = config_block_reason(action, config) {
        return Err(reason);
    }
    match action {
        ActionKind::Start { vm } => socket(SocketIntent::VmStart { vm: vm.clone() }),
        ActionKind::Stop { vm } => socket(SocketIntent::VmStop { vm: vm.clone(), force: false }),
        ActionKind::ForceStop { vm } => socket(
            SocketIntent::VmStop { vm: vm.clone(), force: true },
        ),
        ActionKind::Restart { vm } => socket(SocketIntent::VmRestart { vm: vm.clone() }),
        ActionKind::Switch { vm } => socket(SocketIntent::Switch { vm: vm.clone() }),
        ActionKind::Build { vm } => Ok(build_argv(vm)),
        ActionKind::Boot { vm } => socket(SocketIntent::Boot { vm: vm.clone() }),
        ActionKind::UsbAttach { vm, bus_id } => socket(
            SocketIntent::UsbAttach { vm: vm.clone(), bus_id: bus_id.clone() },
        ),
        ActionKind::UsbDetach { vm, bus_id } => socket(
            SocketIntent::UsbDetach { vm: vm.clone(), bus_id: bus_id.clone() },
        ),
        ActionKind::StoreVerify { vm } => socket(SocketIntent::StoreVerify { vm: vm.clone() }),
        ActionKind::Refresh => socket(SocketIntent::List),
        ActionKind::LaunchTerminal { vm } => Ok(terminal_argv(vm, config)),
        ActionKind::QuickLaunch { vm, id } => quick_launch_argv(vm, id, config),
        ActionKind::OpenObservability => Ok(observability_argv(config)),
        ActionKind::AudioMic { .. } | ActionKind::AudioSpeaker { .. }
        | ActionKind::AudioSpeakerVolume { .. } | ActionKind::AudioMicGain { .. }
        | ActionKind::AudioOff { .. } => Err(Unavailable::NotYetImplemented),
        ActionKind::OpenControlCenter | ActionKind::CycleDisplay => Err(
            Unavailable::Blocked { detail: "handled in-process; not a d2b dispatch".to_owned() },
        ),
    }
}

/// Whether an action can be invoked, and if not, why.
pub open spec fn availability_of(
    action: ActionKindView,
    state: WlStateView,
    config: ConfigView,
) -> ActionAvailabilityView {
    ActionAvailabilityView {
        action,
        unavailable: if blocked_by(action, state) is Some {
            blocked_by(action, state)
        } else {
            config_block(action, config)
        },
    }
}

fn availability(action: ActionKind, state: &WlState, config: &Config) -> (entry: ActionAvailability)
    ensures
        entry@ == availability_of(action@, state@, config@),
{
    let unavailable = match block_reason(&action, state) {
        Some(reason) => Some(reason),
        None => config_block_reason(&action, config),
    };
    ActionAvailability { action, unavailable }
}

/// An attach and a detach action for every claim.
pub open spec fn usb_actions(claims: Seq<UsbClaimView>, vm: Seq<char>) -> Seq<ActionKindView>
    decreases claims.len(),
{
    if claims.len() == 0 {
        Seq::empty()
    } else {
        usb_actions(claims.drop_last(), vm).push(
            ActionKindView::UsbAttach { vm, bus_id: claims.last().bus_id },
        ).push(ActionKindView::UsbDetach { vm, bus_id: claims.last().bus_id })
    }
}

/// The lifecycle, terminal and store actions of a VM.
pub open spec fn base_actions(vm: Seq<char>) -> Seq<ActionKindView> {
    seq![
        ActionKindView::Start { vm },
        ActionKindView::Stop { vm },
        ActionKindView::ForceStop { vm },
        ActionKindView::Restart { vm },
        ActionKindView::LaunchTerminal { vm },
        ActionKindView::StoreVerify { vm },
        ActionKindView::Build { vm },
        ActionKindView::Boot { vm },
        ActionKindView::Switch { vm },
    ]
}

/// The audio actions of a VM.
pub open spec fn audio_actions(vm: Seq<char>) -> Seq<ActionKindView> {
    seq![
        ActionKindView::AudioMic { vm, on: true },
        ActionKindView::AudioSpeaker { vm, on: true },
        ActionKindView::AudioOff { vm },
    ]
}

/// The actions the control centre lists for a VM.
pub open spec fn listed_actions(state: WlStateView, vm: Seq<char>) -> Seq<ActionKindView> {
    base_actions(vm) + (match vm_named(state, vm) {
        Some(target) => usb_actions(target.usb, vm),
        None => Seq::empty(),
    }) + audio_actions(vm)
}

/// The full per-VM action list, each with its availability.
pub open spec fn listed_availability(
    state: WlStateView,
    config: ConfigView,
    vm: Seq<char>,
) -> Seq<ActionAvailabilityView> {
    Seq::new(
        listed_actions(state, vm).len(),
        |i: int| availability_of(listed_actions(state, vm)[i], state, config),
    )
}

fn list_actions(state: &WlState, vm: &str) -> (actions: Vec<ActionKind>)
    ensures
        views(actions@) == listed_actions(state@, vm@),
{
    let mut actions: Vec<ActionKind> = vec![
        ActionKind::Start { vm: vm.to_owned() },
        ActionKind::Stop { vm: vm.to_owned() },
        ActionKind::ForceStop { vm: vm.to_owned() },
        ActionKind::Restart { vm: vm.to_owned() },
        ActionKind::LaunchTerminal { vm: vm.to_owned() },
        ActionKind::StoreVerify { vm: vm.to_owned() },
        ActionKind::Build { vm: vm.to_owned() },
        ActionKind::Boot { vm: vm.to_owned() },
        ActionKind::Switch { vm: vm.to_owned() },
    ];
    assert(views(actions@) =~= base_actions(vm@));
    assert(base_actions(vm@) + Seq::<ActionKindView>::empty() =~= base_actions(vm@));
    if let Some(target) = running_vm(state, vm) {
        let ghost claims = views(target.usb@);
        let mut i: usize = 0;
        assert(usb_actions(claims.take(0), vm@) =~= Seq::<ActionKindView>::empty());
        while i < target.usb.len()
            invariant
                i <= target.usb@.len(),
                claims == views(target.usb@),
                views(actions@) == base_actions(vm@) + usb_actions(claims.take(i as int), vm@),
            decreases target.usb@.len() - i,
        {
            let ghost before = views(actions@);
            let claim = &target.usb[i];
            actions.push(
                ActionKind::UsbAttach { vm: vm.to_owned(), bus_id: claim.bus_id.clone() },
            );
            actions.push(
                ActionKind::UsbDetach { vm: vm.to_owned(), bus_id: claim.bus_id.clone() },
            );
            proof {
                let upto = claims.take(i + 1);
                assert(upto.drop_last() =~= claims.take(i as int));
                assert(upto.last() == claim@);
                assert(views(actions@) =~= before.push(
                    ActionKindView::UsbAttach { vm: vm@, bus_id: claim@.bus_id },
                ).push(ActionKindView::UsbDetach { vm: vm@, bus_id: claim@.bus_id }));
                assert(views(actions@) =~= base_actions(vm@) + usb_actions(upto, vm@));
            }
            i = i + 1;
        }
        assert(claims.take(i as int) =~= claims);
    }
    let ghost before = views(actions@);
    actions.push(ActionKind::AudioMic { vm: vm.to_owned(), on: true });
    actions.push(ActionKind::AudioSpeaker { vm: vm.to_owned(), on: true });
    actions.push(ActionKind::AudioOff { vm: vm.to_owned() });
    assert(views(actions@) =~= before + audio_actions(vm@));
    actions
}

/// Return the full per-VM action list the control centre can render.
pub fn vm_actions(state: &WlState, config: &Config, vm: &str) -> (entries: Vec<ActionAvailability>)
    ensures
        views(entries@) == listed_availability(state@, config@, vm@),
{
    let actions = list_actions(state, vm);
    let ghost all = views(actions@);
    let ghost source = actions@;
    let mut entries: Vec<ActionAvailability> = Vec::new();
    for action in it: actions
        invariant
            it.seq() == source,
            views(source) == all,
            entries@.len() == it.index(),
            forall|k: int|
                0 <= k < entries@.len() ==> (#[trigger] entries@[k])@ == availability_of(
                    all[k],
                    state@,
                    config@,
                ),
    {
        assert(all[it.index() as int] == action@);
        entries.push(availability(action, state, config));
    }
    assert(views(entries@) =~= listed_availability(state@, config@, vm@));
    entries
}

/// What the control centre shows is what planning does: an action listed as
/// available plans to a dispatch, and one listed as unavailable fails with the
/// reason shown.
pub proof fn law_listing_agrees_with_planning(
    state: WlStateView,
    config: ConfigView,
    vm: Seq<char>,
    i: int,
)
    requires
        0 <= i < listed_availability(state, config, vm).len(),
    ensures
        ({
            let entry = listed_availability(state, config, vm)[i];
            match entry.unavailable {
                None => planned(entry.action, state, config) is Ok,
                Some(reason) => planned(entry.action, state, config) == Err::<
                    PlannedActionView,
                    UnavailableView,
                >(reason),
            }
        }),
{
    let actions = listed_actions(state, vm);
    let devices = match vm_named(state, vm) {
        Some(target) => usb_actions(target.usb, vm),
        None => Seq::empty(),
    };
    if i < base_actions(vm).len() {
        assert(actions[i] == base_actions(vm)[i]);
    } else if i < base_actions(vm).len() + devices.len() {
        let k = i - base_actions(vm).len();
        assert(actions[i] == devices[k]);
        lemma_usb_actions(vm_named(state, vm)->Some_0.usb, vm, k);
    } else {
        let k = i - base_actions(vm).len() - devices.len();
        assert(actions[i] == audio_actions(vm)[k]);
    }
}

proof fn lemma_usb_actions(claims: Seq<UsbClaimView>, vm: Seq<char>, i: int)
    requires
        0 <= i < usb_actions(claims, vm).len(),
    ensures
        usb_actions(claims, vm)[i] is UsbAttach || usb_actions(claims, vm)[i] is UsbDetach,
    decreases claims.len(),
{
    if claims.len() > 0 && i < usb_actions(claims.drop_last(), vm).len() {
        lemma_usb_actions(claims.drop_last(), vm, i);
    }
}

/// Every action the control centre lists for a VM targets that VM.
pub proof fn law_listed_actions_target_the_vm(state: WlStateView, vm: Seq<char>, i: int)
    requires
        0 <= i < listed_actions(state, vm).len(),
    ensures
        target_of(listed_actions(state, vm)[i]) == Some(vm),
{
    let actions = listed_actions(state, vm);
    let devices = match vm_named(state, vm) {
        Some(target) => usb_actions(target.usb, vm),
        None => Seq::empty(),
    };
    if base_actions(vm).len() <= i < base_actions(vm).len() + devices.len() {
        let k = i - base_actions(vm).len();
        assert(actions[i] == devices[k]);
        lemma_usb_actions_target(vm_named(state, vm)->Some_0.usb, vm, k);
    } else if i >= base_actions(vm).len() + devices.len() {
        assert(actions[i] == audio_actions(vm)[i - base_actions(vm).len() - devices.len()]);
    } else {
        assert(actions[i] == base_actions(vm)[i]);
    }
}

proof fn lemma_usb_actions_target(claims: Seq<UsbClaimView>, vm: Seq<char>, i: int)
    requires
        0 <= i < usb_actions(claims, vm).len(),
    ensures
        target_of(usb_actions(claims, vm)[i]) == Some(vm),
    decreases claims.len(),
{
    if claims.len() > 0 && i < usb_actions(claims.drop_last(), vm).len() {
        lemma_usb_actions_target(claims.drop_last(), vm, i);
    }
}

/// A higher role never takes an action away: what plans for one role plans to
/// the same dispatch for every role of at least that rank.
pub proof fn law_higher_role_keeps_actions(
    action: ActionKindView,
    state: WlStateView,
    config: ConfigView,
    role: AuthRole,
)
    requires
        role_rank(state.role) <= role_rank(role),
        planned(action, state, config) is Ok,
    ensures
        planned(action, WlStateView { role, ..state }, config) == planned(action, state, config),
{
}

/// Without a role nothing but the refresh and the portal can be planned.
pub proof fn law_no_role_changes_nothing(
    action: ActionKindView,
    state: WlStateView,
    config: ConfigView,
)
    requires
        state.role == AuthRole::NoRole,
        planned(action, state, config) is Ok,
    ensures
        action is Refresh || action is OpenObservability,
{
}

/// While the daemon is down every action fails for that reason, except those
/// that only concern the display and audio, which is not driven at all.
pub proof fn law_daemon_down_blocks(
    action: ActionKindView,
    state: WlStateView,
    config: ConfigView,
)
    requires
        state.connectivity == Connectivity::DaemonDown,
        !is_display_only(action),
        !is_audio(action),
    ensures
        planned(action, state, config) == Err::<PlannedActionView, UnavailableView>(
            UnavailableView::DaemonDown,
        ),
{
}

/// Display-only actions are never blocked by the state.
pub proof fn law_display_actions_are_free(action: ActionKindView, state: WlStateView)
    requires
        is_display_only(action),
    ensures
        blocked_by(action, state) is None,
{
}

/// Audio is never driven, in whatever state.
pub proof fn law_audio_is_never_planned(
    action: ActionKindView,
    state: WlStateView,
    config: ConfigView,
)
    requires
        is_audio(action),
    ensures
        planned(action, state, config) == Err::<PlannedActionView, UnavailableView>(
            UnavailableView::NotYetImplemented,
        ),
{
}

/// A bound device can be released only through the VM that owns it, and one that
/// is owned by another VM cannot be taken either.
pub proof fn law_foreign_device_is_safe(
    state: WlStateView,
    config: ConfigView,
    vm: Seq<char>,
    bus_id: Seq<char>,
)
    requires
        claim_on(state, bus_id) is Some,
        claim_on(state, bus_id)->Some_0.bound,
        claim_on(state, bus_id)->Some_0.owner_vm != Some(vm),
    ensures
        planned(ActionKindView::UsbDetach { vm, bus_id }, state, config) is Err,
        claim_on(state, bus_id)->Some_0.owner_vm is Some ==> planned(
            ActionKindView::UsbAttach { vm, bus_id },
            state,
            config,
        ) is Err,
{
}

/// What runs in a guest is exactly the configured argv: every element of it is
/// passed on as it stands, behind a fixed prefix that names the VM.
pub proof fn law_guest_argv_is_verbatim(
    action: ActionKindView,
    state: WlStateView,
    config: ConfigView,
)
    requires
        action is LaunchTerminal || action is QuickLaunch,
        planned(action, state, config) is Ok,
    ensures
        planned(action, state, config)->Ok_0 is Process,
        ({
            let argv = planned(action, state, config)->Ok_0->argv;
            let command = argv.skip(6);
            &&& argv.take(6) == guest_prefix(target_of(action)->Some_0)
            &&& command.len() > 0
            &&& match action {
                ActionKindView::QuickLaunch { vm, id } => quick_launch_item(config, vm, id) is Some
                    && command == quick_launch_item(config, vm, id)->Some_0.guest_argv,
                _ => command == terminal_command(config),
            }
        }),
{
    let argv = planned(action, state, config)->Ok_0->argv;
    let vm = target_of(action)->Some_0;
    assert(argv.take(6) =~= guest_prefix(vm));
    match action {
        ActionKindView::QuickLaunch { vm, id } => {
            let item = quick_launch_item(config, vm, id)->Some_0;
            assert(argv.skip(6) =~= item.guest_argv);
            let wanted = |item: QuickLaunchConfigView| item.vm == vm && item.id == id;
            crate::text::lemma_first_where_holds(config.quick_launch, wanted);
            let off = |item: QuickLaunchConfigView| crate::config::off_item(item);
            crate::text::lemma_first_where_holds(config.quick_launch, off);
            let k = choose|k: int|
                0 <= k < config.quick_launch.len() && config.quick_launch[k] == item;
            if crate::config::off_item(config.quick_launch[k]) {
                assert(first_where(config.quick_launch, off) is Some);
            }
            assert(!off(config.quick_launch[k]));
        },
        _ => {
            assert(argv.skip(6) =~= terminal_command(config));
        },
    }
}

/// The portal opens the configured URL as one argv element, behind the
/// configured browser argv.
pub proof fn law_portal_url_is_one_argument(state: WlStateView, config: ConfigView)
    requires
        planned(ActionKindView::OpenObservability, state, config) is Ok,
    ensures
        ({
            let argv = planned(ActionKindView::OpenObservability, state, config)->Ok_0->argv;
            &&& config.observability.url is Some
            &&& argv.len() >= 2
            &&& argv.last() == config.observability.url->Some_0
            &&& argv.drop_last() == config.observability.browser_argv
        }),
{
    let argv = planned(ActionKindView::OpenObservability, state, config)->Ok_0->argv;
    assert(argv.drop_last() =~= config.observability.browser_argv);
}

} // verus!
