//! Reduction: what the surfaces show of what the daemon reported.

use vstd::prelude::*;

use crate::config::{ConfigView, QuickLaunchConfigView};
use crate::model::{
    AudioChannelState, AuthRole, Connectivity, QuickLaunchIconView, RuntimeState, UsbClaimView,
    VmAudioStateView, VmView, WlStateView,
};
use crate::reduce::{
    declared_vms, display_order, distinct_vms, favored, favorite_rank, framework_net_name,
    law_display_order_permutes, law_favorites_are_pinned_in_order, law_system_vms_last, picked,
    position_of, probed_claims, reduced, reduced_vm, system_vm,
};
use crate::sources::{
    AudioStatusEntryView, AudioStatusErrorView, InventoryVmView, ReduceInputView, VmStatusView,
};
use crate::text::{begins, lemma_first_where_at, lemma_first_where_none};

use super::selection::{
    drawn, lemma_filter_map_drawn, lemma_filter_selected, selected, selects,
};

verus! {

/// Whether a text is given and begins with a prefix.
pub open spec fn says(text: Option<Seq<char>>, prefix: Seq<char>) -> bool {
    exists|rest: Seq<char>| text == Some(prefix + rest)
}

/// Whether a name has the form `sys-<env>-net` with a non-empty environment.
pub open spec fn names_a_net_vm(name: Seq<char>) -> bool {
    exists|env: Seq<char>| env.len() > 0 && name == "sys-"@ + env + "-net"@
}

/// Whether the status at a place is the one of a VM: the first of its name.
pub open spec fn reports(statuses: Seq<VmStatusView>, name: Seq<char>, at: int) -> bool {
    &&& 0 <= at < statuses.len()
    &&& statuses[at].name == name
    &&& forall|k: int| 0 <= k < at ==> (#[trigger] statuses[k]).name != name
}

/// Whether no status is that of a VM.
pub open spec fn unreported(statuses: Seq<VmStatusView>, name: Seq<char>) -> bool {
    forall|k: int| 0 <= k < statuses.len() ==> (#[trigger] statuses[k]).name != name
}

/// The state shown where a listing says `coarse` and a status says `state`: what the
/// status says, unless the listing contradicts it.
pub open spec fn agreed(coarse: Option<Seq<char>>, state: RuntimeState) -> RuntimeState {
    if says(coarse, "running"@) && state == RuntimeState::Stopped {
        RuntimeState::Unknown
    } else if says(coarse, "stopped"@) && (state == RuntimeState::Running || state
        == RuntimeState::Starting || state == RuntimeState::Stopping) {
        RuntimeState::Unknown
    } else {
        state
    }
}

/// Whether a shown VM tells of a listed one what the fragments say of it.
pub open spec fn shows(
    shown: VmView,
    listed: InventoryVmView,
    input: ReduceInputView,
    config: ConfigView,
) -> bool {
    &&& shown.name == listed.name
    &&& shown.env == listed.env
    &&& shown.features == listed.features
    &&& shown.static_ip == listed.static_ip
    &&& shown.is_net_vm <==> listed.is_net_vm || names_a_net_vm(listed.name)
    &&& shown.net_shown <==> shown.is_net_vm && !config.hide_net_vms
    &&& shown.hidden <==> exists|k: int|
        0 <= k < config.hidden_vms.len() && #[trigger] config.hidden_vms[k] == listed.name
    &&& forall|at: int| #[trigger]
        reports(input.statuses, listed.name, at) ==> {
            let status = input.statuses[at];
            &&& shown.state == agreed(listed.coarse_status, status.state)
            &&& shown.capabilities == status.capabilities
            &&& shown.readiness == status.readiness
            &&& shown.pending_restart <==> status.pending_restart && config.show_pending_restart
        }
    &&& unreported(input.statuses, listed.name) ==> {
        &&& shown.state == if says(listed.coarse_status, "stopped"@) {
            RuntimeState::Stopped
        } else {
            RuntimeState::Unknown
        }
        &&& shown.capabilities == listed.capabilities
        &&& shown.readiness.len() == 0
        &&& !shown.pending_restart
    }
}

/// A text says its prefixes.
pub proof fn lemma_says(text: Seq<char>, prefix: Seq<char>)
    ensures
        says(Some(text), prefix) <==> begins(text, prefix),
{
    if begins(text, prefix) {
        let rest = text.skip(prefix.len() as int);
        assert(text =~= prefix + rest);
        assert(Some(text) == Some(prefix + rest));
    }
    if says(Some(text), prefix) {
        let rest = choose|rest: Seq<char>| Some(text) == Some(prefix + rest);
        assert(text.take(prefix.len() as int) =~= prefix);
    }
}

proof fn lemma_net_name(name: Seq<char>)
    ensures
        names_a_net_vm(name) <==> framework_net_name(name),
{
    reveal_strlit("sys-");
    reveal_strlit("-net");
    if framework_net_name(name) {
        let env = name.subrange(4, name.len() - 4);
        let tail = name.skip(4);
        assert(name.take(4) =~= "sys-"@);
        assert(tail.skip(tail.len() - 4) =~= name.skip(name.len() - 4));
        assert(name =~= "sys-"@ + env + "-net"@) by {
            assert(name =~= name.take(4) + env + name.skip(name.len() - 4));
        }
        assert(env.len() > 0);
    }
    if names_a_net_vm(name) {
        let env = choose|env: Seq<char>| env.len() > 0 && name == "sys-"@ + env + "-net"@;
        assert(name.take(4) =~= "sys-"@);
        let tail = name.skip(4);
        assert(tail.skip(tail.len() - 4) =~= "-net"@);
    }
}

proof fn lemma_reports(statuses: Seq<VmStatusView>, name: Seq<char>)
    ensures
        forall|at: int| #[trigger]
            reports(statuses, name, at) ==> crate::reduce::status_of(statuses, name) == Some(
                statuses[at],
            ),
        unreported(statuses, name) ==> crate::reduce::status_of(statuses, name) is None,
{
    let wanted = |status: VmStatusView| status.name == name;
    assert forall|at: int| #[trigger] reports(statuses, name, at) implies crate::reduce::status_of(
        statuses,
        name,
    ) == Some(statuses[at]) by {
        lemma_first_where_at(statuses, wanted, at);
    }
    if unreported(statuses, name) {
        lemma_first_where_none(statuses, wanted);
    }
}

proof fn lemma_coarse(text: Option<Seq<char>>)
    ensures
        says(text, "running"@) <==> crate::reduce::coarse_reading(text) == RuntimeState::Running,
        says(text, "stopped"@) <==> crate::reduce::coarse_reading(text) == RuntimeState::Stopped,
{
    reveal_strlit("running");
    reveal_strlit("stopped");
    if let Some(given) = text {
        lemma_says(given, "running"@);
        lemma_says(given, "stopped"@);
        if begins(given, "running"@) && begins(given, "stopped"@) {
            assert(given.take(7)[0] == 'r');
            assert(given.take(7)[0] == 's');
        }
    }
}

proof fn lemma_shows(listed: InventoryVmView, input: ReduceInputView, config: ConfigView)
    ensures
        shows(
            reduced_vm(listed, input.statuses, probed_claims(input), input.audio, config),
            listed,
            input,
            config,
        ),
{
    lemma_net_name(listed.name);
    lemma_coarse(listed.coarse_status);
    lemma_reports(input.statuses, listed.name);
    let shown = reduced_vm(listed, input.statuses, probed_claims(input), input.audio, config);
    if shown.hidden {
        let k = config.hidden_vms.index_of(listed.name);
        assert(config.hidden_vms[k] == listed.name);
    }
    if exists|k: int|
        0 <= k < config.hidden_vms.len() && #[trigger] config.hidden_vms[k] == listed.name {
        assert(config.hidden_vms.contains(listed.name));
    }
}

/// Whether places are those of a rearrangement: each of them once.
pub open spec fn rearranges(at: Seq<int>, len: nat) -> bool {
    &&& at.len() == len
    &&& forall|i: int| 0 <= i < at.len() ==> 0 <= #[trigger] at[i] < len
    &&& forall|i: int, j: int| 0 <= i < j < at.len() ==> #[trigger] at[i] != #[trigger] at[j]
}

/// Sequences of the same elements are rearrangements of each other.
pub proof fn lemma_rearranged<A>(left: Seq<A>, right: Seq<A>) -> (at: Seq<int>)
    requires
        left.to_multiset() == right.to_multiset(),
    ensures
        rearranges(at, right.len()),
        left.len() == right.len(),
        forall|i: int| 0 <= i < left.len() ==> #[trigger] left[i] == right[at[i]],
    decreases left.len(),
{
    broadcast use vstd::seq_lib::group_to_multiset_ensures;

    left.to_multiset_ensures();
    right.to_multiset_ensures();
    assert(left.to_multiset().len() == right.to_multiset().len());
    if left.len() == 0 {
        Seq::empty()
    } else {
        let last = left.last();
        let front = left.drop_last();
        assert(left.contains(left[left.len() - 1]));
        assert(left.to_multiset().count(last) > 0);
        assert(right.contains(last));
        let place = choose|k: int| 0 <= k < right.len() && right[k] == last;
        let rest = right.remove(place);
        vstd::seq_lib::to_multiset_remove(right, place);
        vstd::seq_lib::to_multiset_remove(left, left.len() - 1);
        assert(left.remove(left.len() - 1) =~= front);
        assert(front.to_multiset() =~= rest.to_multiset());
        let before = lemma_rearranged(front, rest);
        let at = Seq::new(
            left.len(),
            |i: int|
                if i == left.len() - 1 {
                    place
                } else if before[i] < place {
                    before[i]
                } else {
                    before[i] + 1
                },
        );
        assert forall|i: int| 0 <= i < left.len() implies #[trigger] left[i] == right[at[i]] by {
            if i < front.len() {
                assert(left[i] == front[i]);
                assert(rest[before[i]] == right[at[i]]);
            }
        }
        assert forall|i: int| 0 <= i < at.len() implies 0 <= #[trigger] at[i] < right.len() by {
            if i < front.len() {
                assert(0 <= before[i] < rest.len());
            }
        }
        assert forall|i: int, j: int| 0 <= i < j < at.len() implies #[trigger] at[i]
            != #[trigger] at[j] by {
            if j < front.len() {
                assert(before[i] != before[j]);
            } else {
                assert(0 <= before[i] < rest.len());
            }
        }
        at
    }
}

/// A connected surface shows every listed VM once and no other, and of each what the
/// listing, its own status and the configuration say: a status that the listing
/// contradicts, and a VM that is not known to be stopped, are shown as unknown.
pub proof fn law_listed_vms_are_shown(input: ReduceInputView, config: ConfigView) -> (at: Seq<int>)
    requires
        input.connectivity == Connectivity::Connected,
        input.inventory is Some,
    ensures
        ({
            let listed = input.inventory->Some_0.vms;
            let shown = reduced(input, config).vms;
            &&& shown.len() == listed.len()
            &&& rearranges(at, listed.len())
            &&& forall|i: int|
                0 <= i < shown.len() ==> shows(#[trigger] shown[i], listed[at[i]], input, config)
        }),
{
    let listed = input.inventory->Some_0.vms;
    let order = display_order(listed, config.favorites);
    law_display_order_permutes(listed, config.favorites);
    let at = lemma_rearranged(order, listed);
    let shown = reduced(input, config).vms;
    assert forall|i: int| 0 <= i < shown.len() implies shows(
        #[trigger] shown[i],
        listed[at[i]],
        input,
        config,
    ) by {
        assert(order[i] == listed[at[i]]);
        lemma_shows(order[i], input, config);
    }
    at
}

/// Without a listing no VM is shown.
pub proof fn law_nothing_is_shown_without_a_listing(input: ReduceInputView, config: ConfigView)
    requires
        input.inventory is None,
    ensures
        reduced(input, config).vms.len() == 0,
{
    law_display_order_permutes(declared_vms(input), config.favorites);
}

/// A VM is shown with the USB claims that name it: all of them, in the order of the
/// probe, and none that names another VM.
pub proof fn law_claims_stand_under_their_vm(input: ReduceInputView, config: ConfigView, i: int)
    requires
        0 <= i < reduced(input, config).vms.len(),
    ensures
        ({
            let vm = reduced(input, config).vms[i];
            &&& input.usb is Some ==> selected(
                input.usb->Some_0.claims,
                vm.usb,
                |claim: UsbClaimView| claim.vm == vm.name,
            )
            &&& input.usb is None ==> vm.usb.len() == 0
            &&& forall|c: int| 0 <= c < vm.usb.len() ==> (#[trigger] vm.usb[c]).vm == vm.name
            &&& forall|c: int|
                input.usb is Some && 0 <= c < input.usb->Some_0.claims.len() && (
                #[trigger] input.usb->Some_0.claims[c]).vm == vm.name ==> vm.usb.contains(
                    input.usb->Some_0.claims[c],
                )
        }),
{
    let vm = reduced(input, config).vms[i];
    let claims = probed_claims(input);
    let wanted = |claim: UsbClaimView| claim.vm == vm.name;
    lemma_filter_selected(claims, wanted);
    lemma_selected_elements(claims, vm.usb, wanted);
}

proof fn lemma_selected_elements<A>(all: Seq<A>, part: Seq<A>, wanted: spec_fn(A) -> bool)
    requires
        selected(all, part, wanted),
    ensures
        forall|i: int| 0 <= i < part.len() ==> wanted(#[trigger] part[i]),
        forall|k: int|
            0 <= k < all.len() && wanted(#[trigger] all[k]) ==> part.contains(all[k]),
        all.len() == 0 ==> part.len() == 0,
{
    let at = choose|at: Seq<int>| selects(all, part, wanted, at);
    assert forall|i: int| 0 <= i < part.len() implies wanted(#[trigger] part[i]) by {
        assert(wanted(all[at[i]]));
    }
    assert forall|k: int| 0 <= k < all.len() && wanted(#[trigger] all[k]) implies part.contains(
        all[k],
    ) by {
        let i = choose|i: int| 0 <= i < at.len() && at[i] == k;
        assert(part[i] == all[at[i]]);
    }
    if part.len() > 0 {
        assert(0 <= at[0] < all.len());
    }
}

/// A VM is shown with an icon for each quick-launch item that names it, in the order
/// of the configuration.
pub proof fn law_icons_stand_under_their_vm(input: ReduceInputView, config: ConfigView, i: int)
    requires
        0 <= i < reduced(input, config).vms.len(),
    ensures
        ({
            let vm = reduced(input, config).vms[i];
            drawn(
                config.quick_launch,
                vm.quick_launch,
                |item: QuickLaunchConfigView|
                    if item.vm == vm.name {
                        Some(
                            QuickLaunchIconView {
                                id: item.id,
                                icon: item.icon,
                                tooltip: item.tooltip,
                            },
                        )
                    } else {
                        None
                    },
            )
        }),
{
    let vm = reduced(input, config).vms[i];
    let icon = |item: QuickLaunchConfigView|
        if item.vm == vm.name {
            Some(QuickLaunchIconView { id: item.id, icon: item.icon, tooltip: item.tooltip })
        } else {
            None
        };
    let used = |item: QuickLaunchConfigView|
        if item.vm == vm.name {
            Some(crate::reduce::icon_of(item))
        } else {
            None
        };
    assert(icon =~= used);
    lemma_filter_map_drawn(config.quick_launch, used);
}

/// Whether the audio entry at a place is the one of a VM: the first of its name.
pub open spec fn sounds(entries: Seq<AudioStatusEntryView>, name: Seq<char>, at: int) -> bool {
    &&& 0 <= at < entries.len()
    &&& entries[at].vm == name
    &&& forall|k: int| 0 <= k < at ==> (#[trigger] entries[k]).vm != name
}

/// Whether the audio failure at a place is the one of a VM: the first of its name.
pub open spec fn fails(errors: Seq<AudioStatusErrorView>, name: Seq<char>, at: int) -> bool {
    &&& 0 <= at < errors.len()
    &&& errors[at].vm == name
    &&& forall|k: int| 0 <= k < at ==> (#[trigger] errors[k]).vm != name
}

/// A VM is shown with its own audio state; where only a failure names it, as muted,
/// of unknown enforcement and with what failed; and otherwise with none.
pub proof fn law_audio_stands_under_its_vm(input: ReduceInputView, config: ConfigView, i: int)
    requires
        0 <= i < reduced(input, config).vms.len(),
    ensures
        ({
            let vm = reduced(input, config).vms[i];
            &&& input.audio is None ==> vm.audio is None
            &&& input.audio is Some ==> {
                let entries = input.audio->Some_0.entries;
                let errors = input.audio->Some_0.errors;
                let entered = exists|k: int|
                    0 <= k < entries.len() && (#[trigger] entries[k]).vm == vm.name;
                let failed = exists|k: int|
                    0 <= k < errors.len() && (#[trigger] errors[k]).vm == vm.name;
                &&& forall|at: int| #[trigger]
                    sounds(entries, vm.name, at) ==> vm.audio == Some(entries[at].audio)
                &&& forall|at: int| #[trigger]
                    fails(errors, vm.name, at) && !entered ==> vm.audio == Some(
                        VmAudioStateView {
                            speaker: AudioChannelState { level: None, muted: true },
                            microphone: AudioChannelState { level: None, muted: true },
                            provider_kind: None,
                            enforcement: "unknown"@,
                            error_kind: Some(errors[at].kind),
                            remediation: errors[at].remediation,
                        },
                    )
                &&& !entered && !failed ==> vm.audio is None
            }
        }),
{
    let vm = reduced(input, config).vms[i];
    if input.audio is Some {
        let entries = input.audio->Some_0.entries;
        let errors = input.audio->Some_0.errors;
        let entry = |entry: AudioStatusEntryView| entry.vm == vm.name;
        let error = |error: AudioStatusErrorView| error.vm == vm.name;
        assert forall|at: int| #[trigger] sounds(entries, vm.name, at) implies vm.audio == Some(
            entries[at].audio,
        ) by {
            lemma_first_where_at(entries, entry, at);
        }
        if !(exists|k: int| 0 <= k < entries.len() && (#[trigger] entries[k]).vm == vm.name) {
            assert forall|k: int| 0 <= k < entries.len() implies !entry(#[trigger] entries[k]) by {}
            lemma_first_where_none(entries, entry);
            assert forall|at: int| #[trigger] fails(errors, vm.name, at) implies vm.audio is Some
                && vm.audio->Some_0 == crate::reduce::failed_audio(errors[at]) by {
                lemma_first_where_at(errors, error, at);
            }
            if !(exists|k: int| 0 <= k < errors.len() && (#[trigger] errors[k]).vm == vm.name) {
                assert forall|k: int| 0 <= k < errors.len() implies !error(#[trigger] errors[k]) by {}
                lemma_first_where_none(errors, error);
            }
        }
    }
}

/// The role is the one that the daemon gave. A daemon that is reached and gives none
/// is shown as denied; one that is not reached is shown as it is, without a role or a
/// VM.
pub proof fn law_role_and_connectivity(input: ReduceInputView, config: ConfigView)
    ensures
        ({
            let state = reduced(input, config);
            let role = if input.auth is Some {
                input.auth->Some_0.role
            } else {
                AuthRole::NoRole
            };
            &&& input.connectivity == Connectivity::Connected ==> state.role == role
            &&& input.connectivity == Connectivity::Connected && role == AuthRole::NoRole
                ==> state.connectivity == Connectivity::AuthDenied
            &&& input.connectivity == Connectivity::Connected && role != AuthRole::NoRole
                ==> state.connectivity == Connectivity::Connected
            &&& input.connectivity != Connectivity::Connected ==> state == (WlStateView {
                connectivity: input.connectivity,
                role: AuthRole::NoRole,
                vms: Seq::empty(),
                stale: false,
                note: None,
            })
            &&& !state.stale
            &&& state.note is None
        }),
{
}

/// Framework VMs, whose names begin with `sys-`, are shown behind all others.
pub proof fn law_framework_vms_are_shown_last(
    input: ReduceInputView,
    config: ConfigView,
    i: int,
    j: int,
)
    requires
        0 <= i < j < reduced(input, config).vms.len(),
        says(Some(reduced(input, config).vms[i].name), "sys-"@),
    ensures
        says(Some(reduced(input, config).vms[j].name), "sys-"@),
{
    let listed = declared_vms(input);
    law_display_order_permutes(listed, config.favorites);
    let order = display_order(listed, config.favorites);
    lemma_says(order[i].name, "sys-"@);
    lemma_says(order[j].name, "sys-"@);
    law_system_vms_last(listed, config.favorites, i, j);
}

proof fn lemma_favorite_rank(favorites: Seq<Seq<char>>, name: Seq<char>)
    ensures
        favorite_rank(favorites, name) <= favorites.len(),
        favorite_rank(favorites, name) < favorites.len() ==> favorites[favorite_rank(
            favorites,
            name,
        ) as int] == name,
        forall|k: int|
            0 <= k < favorites.len() && #[trigger] favorites[k] == name ==> favorite_rank(
                favorites,
                name,
            ) <= k,
    decreases favorites.len(),
{
    if favorites.len() > 0 && favorites[0] != name {
        let rest = favorites.drop_first();
        lemma_favorite_rank(rest, name);
        assert forall|k: int|
            0 <= k < favorites.len() && #[trigger] favorites[k] == name implies favorite_rank(
            favorites,
            name,
        ) <= k by {
            assert(rest[k - 1] == favorites[k]);
        }
    }
}

/// Favorites come first, in the order in which they are given: a VM that stands
/// before a favorite of its class is a favorite too, and is given no later.
pub proof fn law_favorites_are_shown_first(
    input: ReduceInputView,
    config: ConfigView,
    i: int,
    j: int,
    g: int,
) -> (f: int)
    requires
        input.inventory is Some,
        distinct_vms(input.inventory->Some_0.vms),
        0 <= i < j < reduced(input, config).vms.len(),
        says(Some(reduced(input, config).vms[i].name), "sys-"@) <==> says(
            Some(reduced(input, config).vms[j].name),
            "sys-"@,
        ),
        0 <= g < config.favorites.len(),
        config.favorites[g] == reduced(input, config).vms[j].name,
    ensures
        0 <= f <= g,
        config.favorites[f] == reduced(input, config).vms[i].name,
{
    let listed = input.inventory->Some_0.vms;
    law_display_order_permutes(listed, config.favorites);
    let order = display_order(listed, config.favorites);
    lemma_says(order[i].name, "sys-"@);
    lemma_says(order[j].name, "sys-"@);
    law_favorites_are_pinned_in_order(listed, config.favorites, i, j);
    lemma_favorite_rank(config.favorites, order[i].name);
    lemma_favorite_rank(config.favorites, order[j].name);
    favorite_rank(config.favorites, order[i].name) as int
}

proof fn lemma_position(vms: Seq<InventoryVmView>, name: Seq<char>)
    ensures
        match position_of(vms, name) {
            Some(i) => 0 <= i < vms.len() && vms[i].name == name,
            None => forall|k: int| 0 <= k < vms.len() ==> (#[trigger] vms[k]).name != name,
        },
    decreases vms.len(),
{
    if vms.len() > 0 && vms[0].name != name {
        let rest = vms.drop_first();
        lemma_position(rest, name);
        assert forall|k: int|
            position_of(rest, name) is None && 0 <= k < vms.len() implies (#[trigger] vms[k]).name
            != name by {
            if k > 0 {
                assert(vms[k] == rest[k - 1]);
            }
        }
    }
}

/// Whether a VM is no favorite.
pub open spec fn is_plain(favorites: Seq<Seq<char>>, name: Seq<char>) -> bool {
    forall|k: int| 0 <= k < favorites.len() ==> #[trigger] favorites[k] != name
}

/// What the favorites leave keeps its order: places of left VMs grow with the
/// places of the VMs that they are.
proof fn lemma_left_in_order(vms: Seq<InventoryVmView>, favorites: Seq<Seq<char>>) -> (at: Seq<int>)
    requires
        distinct_vms(vms),
    ensures
        ({
            let left = picked(vms, favorites).1;
            let taken = picked(vms, favorites).0;
            &&& at.len() == left.len()
            &&& forall|i: int| 0 <= i < at.len() ==> 0 <= #[trigger] at[i] < vms.len()
            &&& forall|i: int, j: int|
                0 <= i < j < at.len() ==> #[trigger] at[i] < #[trigger] at[j]
            &&& forall|i: int| 0 <= i < at.len() ==> left[i] == vms[#[trigger] at[i]]
            &&& forall|i: int|
                0 <= i < taken.len() ==> !is_plain(favorites, (#[trigger] taken[i]).name)
        }),
    decreases favorites.len(),
{
    let left = picked(vms, favorites).1;
    let taken = picked(vms, favorites).0;
    if favorites.len() == 0 {
        Seq::new(vms.len(), |i: int| i)
    } else {
        lemma_position(vms, favorites[0]);
        let rest = favorites.drop_first();
        match position_of(vms, favorites[0]) {
            Some(p) => {
                let others = vms.remove(p);
                assert(distinct_vms(others));
                let before = lemma_left_in_order(others, rest);
                let at = Seq::new(
                    before.len(),
                    |i: int|
                        if before[i] < p {
                            before[i]
                        } else {
                            before[i] + 1
                        },
                );
                assert forall|i: int| 0 <= i < at.len() implies left[i] == vms[#[trigger] at[i]] by {
                    assert(0 <= before[i] < others.len());
                    assert(others[before[i]] == vms[at[i]]);
                }
                assert forall|i: int| 0 <= i < at.len() implies 0 <= #[trigger] at[i]
                    < vms.len() by {
                    assert(0 <= before[i] < others.len());
                }
                assert forall|i: int, j: int| 0 <= i < j < at.len() implies #[trigger] at[i]
                    < #[trigger] at[j] by {
                    assert(before[i] < before[j]);
                }
                let inner = picked(others, rest).0;
                assert forall|i: int| 0 <= i < taken.len() implies !is_plain(
                    favorites,
                    (#[trigger] taken[i]).name,
                ) by {
                    if i == 0 {
                        assert(favorites[0] == taken[0].name);
                    } else {
                        assert(taken[i] == inner[i - 1]);
                        let k = choose|k: int| 0 <= k < rest.len() && rest[k] == inner[i - 1].name;
                        assert(favorites[k + 1] == rest[k]);
                    }
                }
                at
            },
            None => {
                let at = lemma_left_in_order(vms, rest);
                assert forall|i: int| 0 <= i < taken.len() implies !is_plain(
                    favorites,
                    (#[trigger] taken[i]).name,
                ) by {
                    let k = choose|k: int| 0 <= k < rest.len() && rest[k] == taken[i].name;
                    assert(favorites[k + 1] == rest[k]);
                }
                at
            },
        }
    }
}

/// In a filtered order, two VMs that are no favorites stand as they are listed.
proof fn lemma_plain_in_order(
    vms: Seq<InventoryVmView>,
    favorites: Seq<Seq<char>>,
    keep: spec_fn(InventoryVmView) -> bool,
    i: int,
    j: int,
) -> (places: (int, int))
    requires
        distinct_vms(vms),
        0 <= i < j < favored(vms, favorites).filter(keep).len(),
        is_plain(favorites, favored(vms, favorites).filter(keep)[i].name),
        is_plain(favorites, favored(vms, favorites).filter(keep)[j].name),
    ensures
        0 <= places.0 < places.1 < vms.len(),
        vms[places.0] == favored(vms, favorites).filter(keep)[i],
        vms[places.1] == favored(vms, favorites).filter(keep)[j],
{
    let all = favored(vms, favorites);
    let part = all.filter(keep);
    lemma_filter_selected(all, keep);
    let at = choose|at: Seq<int>| selects(all, part, keep, at);
    let inner = lemma_left_in_order(vms, favorites);
    let taken = picked(vms, favorites).0;
    let left = picked(vms, favorites).1;
    let p = at[i];
    let q = at[j];
    assert(part[i] == all[p] && part[j] == all[q]);
    if p < taken.len() {
        assert(all[p] == taken[p]);
    }
    if q < taken.len() {
        assert(all[q] == taken[q]);
    }
    assert(all[p] == left[p - taken.len()] && all[q] == left[q - taken.len()]);
    (inner[p - taken.len()], inner[q - taken.len()])
}

/// VMs that are no favorites are shown in the order in which they are listed, apart
/// from framework VMs standing last.
pub proof fn law_other_vms_keep_the_listed_order(
    input: ReduceInputView,
    config: ConfigView,
    i: int,
    j: int,
) -> (places: (int, int))
    requires
        input.inventory is Some,
        distinct_vms(input.inventory->Some_0.vms),
        0 <= i < j < reduced(input, config).vms.len(),
        says(Some(reduced(input, config).vms[i].name), "sys-"@) <==> says(
            Some(reduced(input, config).vms[j].name),
            "sys-"@,
        ),
        is_plain(config.favorites, reduced(input, config).vms[i].name),
        is_plain(config.favorites, reduced(input, config).vms[j].name),
    ensures
        ({
            let listed = input.inventory->Some_0.vms;
            &&& 0 <= places.0 < places.1 < listed.len()
            &&& listed[places.0].name == reduced(input, config).vms[i].name
            &&& listed[places.1].name == reduced(input, config).vms[j].name
        }),
{
    let listed = input.inventory->Some_0.vms;
    let favorites = config.favorites;
    let order = display_order(listed, favorites);
    law_display_order_permutes(listed, favorites);
    lemma_says(order[i].name, "sys-"@);
    lemma_says(order[j].name, "sys-"@);
    let all = favored(listed, favorites);
    let ordinary = |vm: InventoryVmView| !system_vm(vm);
    let system = |vm: InventoryVmView| system_vm(vm);
    let first = all.filter(ordinary);
    let last = all.filter(system);
    if i < first.len() {
        all.lemma_filter_pred(ordinary, i);
        if j >= first.len() {
            all.lemma_filter_pred(system, j - first.len());
        }
        assert(order[i] == first[i] && order[j] == first[j]);
        lemma_plain_in_order(listed, favorites, ordinary, i, j)
    } else {
        assert(order[i] == last[i - first.len()] && order[j] == last[j - first.len()]);
        lemma_plain_in_order(listed, favorites, system, i - first.len(), j - first.len())
    }
}

} // verus!
