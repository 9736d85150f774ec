//! Rendering: what the Waybar line says of the VMs.

use vstd::prelude::*;

use crate::json::{JsonView, distinct_names, lemma_member_is_found};
use crate::model::{Connectivity, RuntimeState, VmView, WlStateView};
use crate::text::{decimal, joined, lemma_decimal_denotes, number_of};
use crate::waybar::{WaybarLineView, line_document, rendered, vm_lines};

use super::selection::{
    drawn, lemma_filter_map_drawn, lemma_filter_selected, selected, selects,
};

verus! {

/// Whether a VM counts on compact surfaces: it is neither hidden nor a net VM that
/// is left out.
pub open spec fn counts(vm: VmView) -> bool {
    !vm.hidden && (!vm.is_net_vm || vm.net_shown)
}

/// Whether some VM that counts is running.
pub open spec fn some_running(vms: Seq<VmView>) -> bool {
    exists|i: int|
        0 <= i < vms.len() && counts(#[trigger] vms[i]) && vms[i].state == RuntimeState::Running
}

/// Whether some VM that counts is not running.
pub open spec fn some_idle(vms: Seq<VmView>) -> bool {
    exists|i: int|
        0 <= i < vms.len() && counts(#[trigger] vms[i]) && vms[i].state != RuntimeState::Running
}

/// Whether some VM that counts is pending a restart or in an unknown state.
pub open spec fn some_demanding(vms: Seq<VmView>) -> bool {
    exists|i: int|
        0 <= i < vms.len() && counts(#[trigger] vms[i]) && (vms[i].pending_restart || vms[i].state
            == RuntimeState::Unknown)
}

proof fn lemma_same_wanted(left: spec_fn(VmView) -> bool, right: spec_fn(VmView) -> bool)
    requires
        forall|vm: VmView| #[trigger] left(vm) == right(vm),
    ensures
        left == right,
{
    assert(left =~= right);
}

proof fn lemma_counted(state: WlStateView)
    ensures
        selected(
            state.vms,
            state.vms.filter(|vm: VmView| vm.visibly_running()),
            |vm: VmView| counts(vm) && vm.state == RuntimeState::Running,
        ),
        selected(
            state.vms,
            state.vms.filter(|vm: VmView| vm.visible()),
            |vm: VmView| counts(vm),
        ),
{
    let running = |vm: VmView| vm.visibly_running();
    let visible = |vm: VmView| vm.visible();
    lemma_filter_selected(state.vms, running);
    lemma_filter_selected(state.vms, visible);
    lemma_same_wanted(running, |vm: VmView| counts(vm) && vm.state == RuntimeState::Running);
    lemma_same_wanted(visible, |vm: VmView| counts(vm));
}

proof fn lemma_selected_some<A>(all: Seq<A>, part: Seq<A>, wanted: spec_fn(A) -> bool)
    requires
        selected(all, part, wanted),
    ensures
        part.len() > 0 <==> exists|i: int| 0 <= i < all.len() && wanted(#[trigger] all[i]),
{
    let at = choose|at: Seq<int>| selects(all, part, wanted, at);
    if part.len() > 0 {
        assert(wanted(all[at[0]]));
    }
    if exists|i: int| 0 <= i < all.len() && wanted(#[trigger] all[i]) {
        let i = choose|i: int| 0 <= i < all.len() && wanted(#[trigger] all[i]);
        assert(at.contains(i));
    }
}

proof fn lemma_idle_counts(vms: Seq<VmView>)
    ensures
        vms.filter(|vm: VmView| vm.visibly_running()).len() <= vms.filter(
            |vm: VmView| vm.visible(),
        ).len(),
        vms.filter(|vm: VmView| vm.visibly_running()).len() == vms.filter(
            |vm: VmView| vm.visible(),
        ).len() <==> !some_idle(vms),
    decreases vms.len(),
{
    reveal(Seq::filter);
    let running = |vm: VmView| vm.visibly_running();
    let visible = |vm: VmView| vm.visible();
    if vms.len() > 0 {
        let front = vms.drop_last();
        lemma_idle_counts(front);
        let last = vms.last();
        if some_idle(front) {
            let i = choose|i: int|
                0 <= i < front.len() && counts(#[trigger] front[i]) && front[i].state
                    != RuntimeState::Running;
            assert(vms[i] == front[i]);
            assert(some_idle(vms));
        } else if counts(last) && last.state != RuntimeState::Running {
            assert(vms[vms.len() - 1] == last);
            assert(some_idle(vms));
        } else {
            assert forall|i: int| 0 <= i < vms.len() implies !(counts(#[trigger] vms[i])
                && vms[i].state != RuntimeState::Running) by {
                if i < front.len() {
                    assert(front[i] == vms[i]);
                }
            }
        }
    }
}

/// On a connected surface the first class says whether no VM that counts is
/// running, all of them are, or some and not all.
pub proof fn law_first_class_counts_the_running(state: WlStateView)
    requires
        state.connectivity == Connectivity::Connected,
    ensures
        rendered(state).class.len() > 0,
        rendered(state).class[0] == "all-stopped"@ <==> !some_running(state.vms),
        rendered(state).class[0] == "all-running"@ <==> some_running(state.vms) && !some_idle(
            state.vms,
        ),
        rendered(state).class[0] == "partial-running"@ <==> some_running(state.vms) && some_idle(
            state.vms,
        ),
{
    reveal_strlit("all-stopped");
    reveal_strlit("all-running");
    reveal_strlit("partial-running");
    lemma_counted(state);
    let running = |vm: VmView| counts(vm) && vm.state == RuntimeState::Running;
    lemma_selected_some(
        state.vms,
        state.vms.filter(|vm: VmView| vm.visibly_running()),
        running,
    );
    assert(some_running(state.vms) <==> exists|i: int|
        0 <= i < state.vms.len() && running(#[trigger] state.vms[i]));
    lemma_idle_counts(state.vms);
    assert("all-stopped"@.len() == 11 && "all-running"@.len() == 11);
    assert("all-stopped"@[4] == 's' && "all-running"@[4] == 'r');
    assert("partial-running"@.len() == 15);
}

/// On a connected surface the classes behind the first are `attention`, exactly
/// where some VM that counts demands it, and `stale`, exactly where the state is.
pub proof fn law_further_classes_are_attention_and_stale(state: WlStateView)
    requires
        state.connectivity == Connectivity::Connected,
    ensures
        rendered(state).class.skip(1) == (if some_demanding(state.vms) {
            seq!["attention"@]
        } else {
            Seq::empty()
        }) + (if state.stale {
            seq!["stale"@]
        } else {
            Seq::empty()
        }),
{
    lemma_demanding(state);
    assert(rendered(state).class.skip(1) =~= (if some_demanding(state.vms) {
        seq!["attention"@]
    } else {
        Seq::empty()
    }) + (if state.stale {
        seq!["stale"@]
    } else {
        Seq::empty()
    }));
}

proof fn lemma_demanding(state: WlStateView)
    requires
        state.connectivity == Connectivity::Connected,
    ensures
        state.attention() <==> some_demanding(state.vms),
{
    if some_demanding(state.vms) {
        let i = choose|i: int|
            0 <= i < state.vms.len() && counts(#[trigger] state.vms[i]) && (
            state.vms[i].pending_restart || state.vms[i].state == RuntimeState::Unknown);
        assert(state.vms[i].demanding());
    }
    if state.attention() {
        let i = choose|i: int| 0 <= i < state.vms.len() && (#[trigger] state.vms[i]).demanding();
        assert(counts(state.vms[i]));
    }
}

/// The text of a connected surface gives how many of the VMs that count run, how
/// many count, and an exclamation mark exactly where one demands attention.
pub proof fn law_text_counts_the_vms(state: WlStateView) -> (counted: (Seq<VmView>, Seq<VmView>))
    requires
        state.connectivity == Connectivity::Connected,
    ensures
        selected(
            state.vms,
            counted.0,
            |vm: VmView| counts(vm) && vm.state == RuntimeState::Running,
        ),
        selected(state.vms, counted.1, |vm: VmView| counts(vm)),
        rendered(state).text == "◆ "@ + decimal(counted.0.len()) + "/"@ + decimal(counted.1.len())
            + (if some_demanding(state.vms) {
            " !"@
        } else {
            ""@
        }),
{
    lemma_counted(state);
    lemma_demanding(state);
    (
        state.vms.filter(|vm: VmView| vm.visibly_running()),
        state.vms.filter(|vm: VmView| vm.visible()),
    )
}

/// The tooltip line of a VM: a mark for its state, its name, its environment, and
/// whether a restart is pending.
pub open spec fn tooltip_line(vm: VmView) -> Seq<char> {
    (match vm.state {
        RuntimeState::Running => "●"@,
        RuntimeState::Starting => "◐"@,
        RuntimeState::Stopping => "◐"@,
        RuntimeState::Stopped => "○"@,
        RuntimeState::Unknown => "?"@,
    }) + " "@ + vm.name + " ["@ + (if vm.env is Some {
        vm.env->Some_0
    } else {
        "-"@
    }) + "]"@ + (if vm.pending_restart {
        " (pending restart)"@
    } else {
        ""@
    })
}

/// The tooltip of a connected surface has one line for each VM that is not a net VM
/// left out, hidden or not, in the order of the state; without any it says so.
pub proof fn law_tooltip_tells_each_vm(state: WlStateView) -> (lines: Seq<Seq<char>>)
    requires
        state.connectivity == Connectivity::Connected,
    ensures
        drawn(
            state.vms,
            lines,
            |vm: VmView|
                if vm.is_net_vm && !vm.net_shown {
                    None
                } else {
                    Some(tooltip_line(vm))
                },
        ),
        rendered(state).tooltip == if lines.len() == 0 {
            "No VMs declared"@
        } else {
            joined(lines, "\n"@)
        },
{
    let shown = |vm: VmView|
        if vm.is_net_vm && !vm.net_shown {
            None
        } else {
            Some(tooltip_line(vm))
        };
    let line = |vm: VmView|
        if vm.net_hidden() {
            None
        } else {
            Some(crate::waybar::vm_line(vm))
        };
    reveal_strlit("");
    assert forall|vm: VmView| shown(vm) == #[trigger] line(vm) by {
        assert(tooltip_line(vm) =~= crate::waybar::vm_line(vm));
    }
    assert(shown =~= line);
    lemma_filter_map_drawn(state.vms, line);
    vm_lines(state.vms)
}

/// A surface without the daemon, or without access to it, says just that.
pub proof fn law_unconnected_lines(state: WlStateView)
    ensures
        state.connectivity == Connectivity::DaemonDown ==> rendered(state) == (WaybarLineView {
            text: "◆ down"@,
            class: seq!["daemon-down"@],
            tooltip: "nixlingd is unreachable"@,
        }),
        state.connectivity == Connectivity::AuthDenied ==> rendered(state) == (WaybarLineView {
            text: "◆ auth"@,
            class: seq!["auth-denied"@],
            tooltip: "Not authorized on the nixling public socket"@,
        }),
{
}

/// The document of a line holds its text, its classes in their order and its
/// tooltip, and no other member.
pub proof fn law_line_document_members(line: WaybarLineView)
    ensures
        line_document(line).field("text"@) == Some(JsonView::Text(line.text)),
        line_document(line).field("tooltip"@) == Some(JsonView::Text(line.tooltip)),
        line_document(line).items_field("class"@) is Some,
        ({
            let class = line_document(line).items_field("class"@)->Some_0;
            &&& class.len() == line.class.len()
            &&& forall|i: int|
                0 <= i < class.len() ==> #[trigger] class[i] == JsonView::Text(line.class[i])
        }),
        line_document(line) is Object,
        line_document(line)->Object_0.len() == 3,
{
    reveal_strlit("text");
    reveal_strlit("class");
    reveal_strlit("tooltip");
    let entries = line_document(line)->Object_0;
    assert(entries[0].0.len() == 4 && entries[1].0.len() == 5 && entries[2].0.len() == 7);
    assert(distinct_names(entries));
    lemma_member_is_found(entries, 0);
    lemma_member_is_found(entries, 1);
    lemma_member_is_found(entries, 2);
}

/// A number is written so that it reads back.
pub proof fn law_numbers_read_back(number: nat)
    ensures
        number_of(decimal(number)) == Some(number),
        decimal(number).len() > 1 ==> decimal(number)[0] != '0',
    decreases number,
{
    lemma_decimal_denotes(number);
    if number >= 10 {
        law_numbers_read_back(number / 10);
        let front = decimal(number / 10);
        assert(decimal(number)[0] == front[0]);
        if number < 100 {
            lemma_decimal_denotes(number / 10);
            reveal_with_fuel(crate::text::digits_value, 2);
            assert(front.drop_last() =~= Seq::empty());
            assert(front.last() == front[0]);
        } else {
            assert(front == decimal(number / 10 / 10).push(
                crate::text::digit_char(number / 10 % 10),
            ));
            lemma_decimal_denotes(number / 10 / 10);
        }
    }
}

/// The counts of a state are those of the VMs that count, and of those among them that
/// run; a state demands attention exactly where it is connected and one of them does.
pub proof fn law_counts_of_a_state(state: WlStateView) -> (counted: (Seq<VmView>, Seq<VmView>))
    ensures
        selected(
            state.vms,
            counted.0,
            |vm: VmView| counts(vm) && vm.state == RuntimeState::Running,
        ),
        selected(state.vms, counted.1, |vm: VmView| counts(vm)),
        state.running() == counted.0.len(),
        state.visible() == counted.1.len(),
        state.attention() <==> state.connectivity == Connectivity::Connected && some_demanding(
            state.vms,
        ),
{
    lemma_counted(state);
    if state.connectivity == Connectivity::Connected {
        lemma_demanding(state);
    }
    (
        state.vms.filter(|vm: VmView| vm.visibly_running()),
        state.vms.filter(|vm: VmView| vm.visible()),
    )
}

/// A VM is visible exactly where it counts.
pub proof fn law_visible_vms_count(vm: VmView)
    ensures
        vm.visible() <==> counts(vm),
        vm.net_hidden() <==> vm.is_net_vm && !vm.net_shown,
{
}

} // verus!
