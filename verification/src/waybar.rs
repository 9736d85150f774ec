//! Waybar custom-module rendering.
//!
//! Waybar reads one newline-terminated JSON object per update, with `text`,
//! `class` and `tooltip`.

use vstd::prelude::*;

use crate::json::{Json, JsonView, object, to_json_text, writable, written};
use crate::model::{Connectivity, RuntimeState, VmView, WlState, WlStateView};
use crate::text::{decimal, decimal_text, join, joined, views};

verus! {

/// A single Waybar JSON line.
#[derive(Debug, PartialEq, Eq)]
pub struct WaybarLine {
    pub text: String,
    /// CSS classes.
    pub class: Vec<String>,
    pub tooltip: String,
}

/// The mathematical form of [`WaybarLine`].
#[verifier::ext_equal]
pub struct WaybarLineView {
    pub text: Seq<char>,
    pub class: Seq<Seq<char>>,
    pub tooltip: Seq<char>,
}

impl View for WaybarLine {
    type V = WaybarLineView;

    open spec fn view(&self) -> WaybarLineView {
        WaybarLineView {
            text: self.text@,
            class: views(self.class@),
            tooltip: self.tooltip@,
        }
    }
}

impl Clone for WaybarLine {
    fn clone(&self) -> (copy: Self)
        ensures
            copy@ == self@,
    {
        WaybarLine {
            text: self.text.clone(),
            class: self.class.clone(),
            tooltip: self.tooltip.clone(),
        }
    }
}

/// How much the Waybar module shows.
#[derive(Debug, Clone, Copy, PartialEq, Eq, Structural)]
pub enum DisplayMode {
    Compact,
    Detail,
}

/// The documents of some texts.
pub open spec fn text_items(texts: Seq<Seq<char>>) -> Seq<JsonView> {
    Seq::new(texts.len(), |i: int| JsonView::Text(texts[i]))
}

/// The document of a line.
pub open spec fn line_document(line: WaybarLineView) -> JsonView {
    JsonView::Object(
        seq![
            ("text"@, JsonView::Text(line.text)),
            ("class"@, JsonView::Array(text_items(line.class))),
            ("tooltip"@, JsonView::Text(line.tooltip)),
        ],
    )
}

proof fn lemma_line_writable(line: WaybarLineView)
    ensures
        writable(line_document(line)),
{
    reveal_strlit("text");
    reveal_strlit("class");
    reveal_strlit("tooltip");
    reveal_with_fuel(writable, 3);
    let entries = line_document(line)->Object_0;
    assert(entries[0].0.len() == 4 && entries[1].0.len() == 5 && entries[2].0.len() == 7);
    let classes = entries[1].1->Array_0;
    assert forall|i: int| 0 <= i < classes.len() implies writable(#[trigger] classes[i]) by {}
}

impl WaybarLine {
    /// Serialize to a single newline-terminated JSON line, as Waybar expects.
    pub fn to_json_line(&self) -> (line: String)
        ensures
            line@ == written(line_document(self@)) + "\n"@,
            line@.len() > 0,
            line@.last() == '\n',
            forall|i: int| 0 <= i < line@.len() - 1 ==> #[trigger] line@[i] != '\n',
    {
        proof {
            lemma_line_writable(self@);
            reveal_strlit("\n");
        }
        let mut classes: Vec<Json> = Vec::new();
        let mut i: usize = 0;
        while i < self.class.len()
            invariant
                i <= self.class@.len(),
                classes@.len() == i,
                forall|k: int|
                    0 <= k < i ==> (#[trigger] classes@[k])@ == JsonView::Text(self.class@[k]@),
            decreases self.class@.len() - i,
        {
            classes.push(Json::Text(self.class[i].clone()));
            i = i + 1;
        }
        let class = Json::Array(classes);
        assert(class@->Array_0 =~= text_items(self@.class));
        let document = object(
            vec![
                ("text", Json::Text(self.text.clone())),
                ("class", class),
                ("tooltip", Json::Text(self.tooltip.clone())),
            ],
        );
        assert(document@->Object_0 =~= line_document(self@)->Object_0);
        match to_json_text(document) {
            Ok(text) => {
                let mut line = text;
                line.append("\n");
                line
            },
            Err(_) => {
                "{\"text\":\"\",\"class\":[\"error\"],\"tooltip\":\"render error\"}\n".to_owned()
            },
        }
    }
}

/// The mark of a state.
pub open spec fn state_glyph(state: RuntimeState) -> Seq<char> {
    match state {
        RuntimeState::Running => "●"@,
        RuntimeState::Starting => "◐"@,
        RuntimeState::Stopping => "◐"@,
        RuntimeState::Stopped => "○"@,
        RuntimeState::Unknown => "?"@,
    }
}

/// The tooltip line of a VM.
pub open spec fn vm_line(vm: VmView) -> Seq<char> {
    let line = state_glyph(vm.state) + " "@ + vm.name + " ["@ + (match vm.env {
        Some(env) => env,
        None => "-"@,
    }) + "]"@;
    if vm.pending_restart {
        line + " (pending restart)"@
    } else {
        line
    }
}

/// The tooltip lines: one for each VM but the net VMs that are left out.
pub open spec fn vm_lines(vms: Seq<VmView>) -> Seq<Seq<char>> {
    vms.filter_map(
        |vm: VmView|
            if vm.net_hidden() {
                None
            } else {
                Some(vm_line(vm))
            },
    )
}

/// The tooltip of a connected surface.
pub open spec fn tooltip_of(state: WlStateView) -> Seq<char> {
    if vm_lines(state.vms).len() == 0 {
        "No VMs declared"@
    } else {
        joined(vm_lines(state.vms), "\n"@)
    }
}

fn render_tooltip(state: &WlState) -> (tooltip: String)
    ensures
        tooltip@ == tooltip_of(state@),
{
    let ghost all = state@.vms;
    let ghost shown = |vm: VmView|
        if vm.net_hidden() {
            None
        } else {
            Some(vm_line(vm))
        };
    let mut lines: Vec<String> = Vec::new();
    let mut i: usize = 0;
    assert(all.take(0).filter_map(shown) =~= Seq::<Seq<char>>::empty());
    while i < state.vms.len()
        invariant
            i <= state.vms@.len(),
            all == views(state.vms@),
            shown == |vm: VmView|
                if vm.net_hidden() {
                    None
                } else {
                    Some(vm_line(vm))
                },
            views(lines@) == all.take(i as int).filter_map(shown),
        decreases state.vms@.len() - i,
    {
        let ghost before = views(lines@);
        let vm = &state.vms[i];
        proof {
            assert(all[i as int] == vm@);
            all.lemma_filter_map_take_succ(shown, i as int);
        }
        if vm.is_net_hidden() {
            assert(before + Seq::<Seq<char>>::empty() =~= before);
        } else {
            let glyph = match vm.state {
                RuntimeState::Running => "●",
                RuntimeState::Starting | RuntimeState::Stopping => "◐",
                RuntimeState::Stopped => "○",
                RuntimeState::Unknown => "?",
            };
            let mut line = glyph.to_owned();
            line.append(" ");
            line.append(vm.name.as_str());
            line.append(" [");
            match &vm.env {
                Some(env) => {
                    line.append(env.as_str());
                },
                None => {
                    line.append("-");
                },
            }
            line.append("]");
            if vm.pending_restart {
                line.append(" (pending restart)");
            }
            assert(line@ == vm_line(vm@));
            lines.push(line);
            assert(views(lines@) =~= before + seq![vm_line(vm@)]);
        }
        i = i + 1;
    }
    assert(all.take(i as int) =~= all);
    if lines.len() == 0 {
        "No VMs declared".to_owned()
    } else {
        join(&lines, "\n")
    }
}

/// How many of the visible VMs run, as a class.
pub open spec fn running_class(running: nat, visible: nat) -> Seq<char> {
    if running == 0 {
        "all-stopped"@
    } else if running == visible {
        "all-running"@
    } else {
        "partial-running"@
    }
}

/// A class that is present under a condition.
pub open spec fn class_if(condition: bool, class: Seq<char>) -> Seq<Seq<char>> {
    if condition {
        seq![class]
    } else {
        Seq::empty()
    }
}

/// The line of a connected surface.
pub open spec fn connected_line(state: WlStateView) -> WaybarLineView {
    WaybarLineView {
        text: "◆ "@ + decimal(state.running()) + "/"@ + decimal(state.visible()) + (
        if state.attention() {
            " !"@
        } else {
            ""@
        }),
        class: seq![running_class(state.running(), state.visible())] + class_if(
            state.attention(),
            "attention"@,
        ) + class_if(state.stale, "stale"@),
        tooltip: tooltip_of(state),
    }
}

fn render_connected(state: &WlState) -> (line: WaybarLine)
    ensures
        line@ == connected_line(state@),
{
    let running: usize = state.running_count();
    let total: usize = state.visible_count();
    let attention = state.needs_attention();
    let mut text = "◆ ".to_owned();
    text.append(decimal_text(running as u64).as_str());
    text.append("/");
    text.append(decimal_text(total as u64).as_str());
    if attention {
        text.append(" !");
    } else {
        text.append("");
    }
    let first = if running == 0 {
        "all-stopped"
    } else if running == total {
        "all-running"
    } else {
        "partial-running"
    };
    let mut class: Vec<String> = vec![first.to_owned()];
    let ghost one = seq![running_class(state@.running(), state@.visible())];
    assert(views(class@) =~= one);
    if attention {
        class.push("attention".to_owned());
    }
    let ghost two = one + class_if(state@.attention(), "attention"@);
    assert(views(class@) =~= two);
    if state.stale {
        class.push("stale".to_owned());
    }
    assert(views(class@) =~= two + class_if(state@.stale, "stale"@));
    WaybarLine { text, class, tooltip: render_tooltip(state) }
}

/// The line of a surface.
pub open spec fn rendered(state: WlStateView) -> WaybarLineView {
    match state.connectivity {
        Connectivity::DaemonDown => WaybarLineView {
            text: "◆ down"@,
            class: seq!["daemon-down"@],
            tooltip: "nixlingd is unreachable"@,
        },
        Connectivity::AuthDenied => WaybarLineView {
            text: "◆ auth"@,
            class: seq!["auth-denied"@],
            tooltip: "Not authorized on the nixling public socket"@,
        },
        Connectivity::Connected => connected_line(state),
    }
}

/// Render the Waybar line for a display mode. Either mode shows the compact text and
/// puts the details of the VMs into the tooltip.
pub fn render_mode(state: &WlState, mode: DisplayMode) -> (line: WaybarLine)
    ensures
        line@ == rendered(state@),
{
    match mode {
        DisplayMode::Compact => render(state),
        DisplayMode::Detail => render(state),
    }
}

/// Render the compact Waybar line for a reduced state.
pub fn render(state: &WlState) -> (line: WaybarLine)
    ensures
        line@ == rendered(state@),
{
    match state.connectivity {
        Connectivity::DaemonDown => {
            let class: Vec<String> = vec!["daemon-down".to_owned()];
            assert(views(class@) =~= seq!["daemon-down"@]);
            WaybarLine {
                text: "◆ down".to_owned(),
                class,
                tooltip: "nixlingd is unreachable".to_owned(),
            }
        },
        Connectivity::AuthDenied => {
            let class: Vec<String> = vec!["auth-denied".to_owned()];
            assert(views(class@) =~= seq!["auth-denied"@]);
            WaybarLine {
                text: "◆ auth".to_owned(),
                class,
                tooltip: "Not authorized on the nixling public socket".to_owned(),
            }
        },
        Connectivity::Connected => render_connected(state),
    }
}

/// The line always has a class, and the first one tells the posture of the
/// surface.
pub proof fn law_first_class_tells_posture(state: WlStateView)
    ensures
        rendered(state).class.len() > 0,
        rendered(state).class[0] == match state.connectivity {
            Connectivity::DaemonDown => "daemon-down"@,
            Connectivity::AuthDenied => "auth-denied"@,
            Connectivity::Connected => running_class(state.running(), state.visible()),
        },
{
}

/// The attention class is there exactly when a visible VM needs the operator.
pub proof fn law_attention_is_shown(state: WlStateView)
    ensures
        rendered(state).class.contains("attention"@) <==> state.attention(),
{
    reveal_strlit("attention");
    reveal_strlit("stale");
    reveal_strlit("all-stopped");
    reveal_strlit("all-running");
    reveal_strlit("partial-running");
    reveal_strlit("daemon-down");
    reveal_strlit("auth-denied");
    let class = rendered(state).class;
    assert("auth-denied"@[1] == 'u' && "attention"@[1] == 't');
    assert("all-stopped"@[1] == 'l' && "all-running"@[1] == 'l');
    assert("daemon-down"@[0] == 'd' && "partial-running"@[0] == 'p' && "stale"@[0] == 's');
    if state.attention() {
        assert(class[1] == "attention"@);
    }
}

/// Net VMs that are left out never appear on the line, wherever they stand.
pub proof fn law_net_vms_are_not_rendered(state: WlStateView, i: int, vm: VmView)
    requires
        0 <= i <= state.vms.len(),
        vm.net_hidden(),
    ensures
        rendered(WlStateView { vms: state.vms.insert(i, vm), ..state }) == rendered(state),
{
    crate::model::law_hidden_vms_do_not_count(state, i, vm);
    lemma_lines_insert(state.vms, i, vm);
}

proof fn lemma_lines_insert(vms: Seq<VmView>, i: int, vm: VmView)
    requires
        0 <= i <= vms.len(),
        vm.net_hidden(),
    ensures
        vm_lines(vms.insert(i, vm)) == vm_lines(vms),
    decreases vms.len(),
{
    let larger = vms.insert(i, vm);
    if i == vms.len() {
        assert(larger.drop_last() =~= vms);
        assert(vm_lines(larger) =~= vm_lines(vms));
    } else {
        lemma_lines_insert(vms.drop_last(), i, vm);
        assert(larger.drop_last() =~= vms.drop_last().insert(i, vm));
        assert(larger.last() == vms.last());
        assert(vm_lines(larger) =~= vm_lines(vms));
    }
}

} // verus!
