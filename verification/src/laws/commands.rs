//! The command line and the Waybar loop.

use vstd::prelude::*;

use crate::cli::{
    ActionCommandView, ActionRouteView, AudioToggle, ProcessLaunchView, StateRoot, backoff,
    cycles_after, display_mode_of, interval_of, kind_of, launch_of, mode_line, mode_word,
    other_mode, passed_on, pause_after, reason_text, route_of, state_root_of, stored_mode,
};
use crate::config::ConfigView;
use crate::error::WlErrorView;
use crate::model::{
    ActionKindView, AuthRole, Connectivity, PlannedActionView, SocketIntentView, UnavailableView,
};
use crate::text::{is_quote, is_white_space, lowered, path_name};
use crate::waybar::DisplayMode;
use vstd::arithmetic::power2::{lemma_pow2_unfold, lemma2_to64, pow2};

verus! {

/// Each command asks for its own action, of the VM, the device and the item that it
/// names.
pub proof fn law_commands_ask_for_their_action(
    vm: Seq<char>,
    bus_id: Seq<char>,
    id: Seq<char>,
    level_percent: u8,
)
    ensures
        kind_of(ActionCommandView::Refresh) == ActionKindView::Refresh,
        kind_of(ActionCommandView::CycleDisplay) == ActionKindView::CycleDisplay,
        kind_of(ActionCommandView::Open) == ActionKindView::OpenControlCenter,
        kind_of(ActionCommandView::Start { vm }) == (ActionKindView::Start { vm }),
        kind_of(ActionCommandView::Stop { vm }) == (ActionKindView::Stop { vm }),
        kind_of(ActionCommandView::Restart { vm }) == (ActionKindView::Restart { vm }),
        kind_of(ActionCommandView::Switch { vm }) == (ActionKindView::Switch { vm }),
        kind_of(ActionCommandView::Build { vm }) == (ActionKindView::Build { vm }),
        kind_of(ActionCommandView::Boot { vm }) == (ActionKindView::Boot { vm }),
        kind_of(ActionCommandView::Terminal { vm }) == (ActionKindView::LaunchTerminal { vm }),
        kind_of(ActionCommandView::QuickLaunch { vm, id }) == (ActionKindView::QuickLaunch {
            vm,
            id,
        }),
        kind_of(ActionCommandView::UsbAttach { vm, bus_id }) == (ActionKindView::UsbAttach {
            vm,
            bus_id,
        }),
        kind_of(ActionCommandView::UsbDetach { vm, bus_id }) == (ActionKindView::UsbDetach {
            vm,
            bus_id,
        }),
        kind_of(ActionCommandView::StoreVerify { vm }) == (ActionKindView::StoreVerify { vm }),
        kind_of(ActionCommandView::AudioMic { vm, state: AudioToggle::On }) == (
        ActionKindView::AudioMic { vm, on: true }),
        kind_of(ActionCommandView::AudioMic { vm, state: AudioToggle::Off }) == (
        ActionKindView::AudioMic { vm, on: false }),
        kind_of(ActionCommandView::AudioSpeaker { vm, state: AudioToggle::On }) == (
        ActionKindView::AudioSpeaker { vm, on: true }),
        kind_of(ActionCommandView::AudioSpeaker { vm, state: AudioToggle::Off }) == (
        ActionKindView::AudioSpeaker { vm, on: false }),
        kind_of(ActionCommandView::AudioSpeakerVolume { vm, level_percent }) == (
        ActionKindView::AudioSpeakerVolume { vm, level_percent }),
        kind_of(ActionCommandView::AudioMicGain { vm, level_percent }) == (
        ActionKindView::AudioMicGain { vm, level_percent }),
        kind_of(ActionCommandView::AudioOff { vm }) == (ActionKindView::AudioOff { vm }),
        kind_of(ActionCommandView::Observability) == ActionKindView::OpenObservability,
{
}

/// Each reason is told in its own words.
pub proof fn law_reasons_are_told(detail: Seq<char>, owner: Seq<char>)
    ensures
        reason_text(UnavailableView::DaemonDown) == "d2bd is unreachable"@,
        reason_text(UnavailableView::InsufficientRole { required: AuthRole::Admin })
            == "requires "@ + "admin"@ + " role"@,
        reason_text(UnavailableView::InsufficientRole { required: AuthRole::Launcher })
            == "requires "@ + "launcher"@ + " role"@,
        reason_text(UnavailableView::VmState { detail }) == detail,
        reason_text(UnavailableView::Blocked { detail }) == detail,
        reason_text(UnavailableView::UsbOwnedElsewhere { owner }) == "USB device is owned by "@
            + owner,
        reason_text(UnavailableView::NotYetImplemented) == "not yet implemented"@,
{
}

/// A planned request is dispatched as it is, with a signal to the bar exactly after a
/// refresh; a planned process is run as it is; and what is refused is explained, except
/// that the control centre and the display are handled here.
pub proof fn law_routes(
    action: ActionKindView,
    intent: SocketIntentView,
    argv: Seq<Seq<char>>,
    wait: bool,
    reason: UnavailableView,
)
    ensures
        route_of(action, Ok(PlannedActionView::Socket { intent })) == (ActionRouteView::Dispatch {
            intent,
            signal_waybar: action == ActionKindView::Refresh,
        }),
        route_of(action, Ok(PlannedActionView::Process { argv, wait })) == (ActionRouteView::Run {
            argv,
            wait,
        }),
        action == ActionKindView::OpenControlCenter && reason is Blocked ==> route_of(
            action,
            Err(reason),
        ) == ActionRouteView::OpenControlCenter,
        action == ActionKindView::CycleDisplay && reason is Blocked ==> route_of(
            action,
            Err(reason),
        ) == ActionRouteView::CycleDisplay,
        !(reason is Blocked && (action == ActionKindView::OpenControlCenter || action
            == ActionKindView::CycleDisplay)) ==> route_of(action, Err(reason)) == (
        ActionRouteView::Explain {
            text: "d2b-wlcontrol: action unavailable: "@ + reason_text(reason),
        }),
{
}

/// A process gets its program and its arguments as they stand, in their order, and the
/// public socket exactly where its program is `d2b`, in whatever directory.
pub proof fn law_processes_run_as_they_stand(argv: Seq<Seq<char>>, public_socket: Seq<char>)
    ensures
        argv.len() == 0 ==> launch_of(argv, public_socket) == Err::<ProcessLaunchView, WlErrorView>(
            WlErrorView::Config("empty process argv"@),
        ),
        argv.len() > 0 ==> {
            let launch = launch_of(argv, public_socket);
            &&& launch is Ok
            &&& launch->Ok_0.program == argv[0]
            &&& launch->Ok_0.args.len() == argv.len() - 1
            &&& forall|i: int|
                0 <= i < launch->Ok_0.args.len() ==> #[trigger] launch->Ok_0.args[i] == argv[i + 1]
            &&& path_name(argv[0]) == Some("d2b"@) ==> launch->Ok_0.public_socket == Some(
                public_socket,
            )
            &&& path_name(argv[0]) != Some("d2b"@) ==> launch->Ok_0.public_socket is None
        },
{
}

/// A path is of the file whose name stands behind its last slash.
pub proof fn law_file_names(directory: Seq<char>, name: Seq<char>)
    requires
        name.len() > 0,
        forall|i: int| 0 <= i < name.len() ==> #[trigger] name[i] != '/',
        name != seq!['.'],
        name != seq!['.', '.'],
    ensures
        path_name(name) == Some(name),
        path_name(directory + "/"@ + name) == Some(name),
{
    reveal_strlit("/");
    let path = directory + "/"@ + name;
    let at = directory.len() as int + 1;
    assert(path.len() == at + name.len());
    assert(path[at - 1] == '/');
    assert forall|i: int| at <= i < path.len() implies #[trigger] path[i] != '/' by {
        assert(path[i] == name[i - at]);
    }
    crate::text::lemma_name_start_is(path, at);
    crate::text::lemma_name_start_is(name, 0);
    assert(path.skip(at) =~= name);
    assert(name.skip(0) =~= name);
    assert(path.last() == name.last());
}

/// Stripping takes away both ends.
pub proof fn lemma_stripped_ends(
    before: Seq<char>,
    core: Seq<char>,
    after: Seq<char>,
    strip: spec_fn(char) -> bool,
)
    requires
        forall|i: int| 0 <= i < before.len() ==> strip(#[trigger] before[i]),
        forall|i: int| 0 <= i < after.len() ==> strip(#[trigger] after[i]),
        core.len() > 0,
        !strip(core[0]),
        !strip(core.last()),
    ensures
        crate::text::stripped(before + core + after, strip) == core,
    decreases before.len() + after.len(),
{
    let text = before + core + after;
    if before.len() > 0 {
        assert(strip(before[0]));
        assert(text[0] == before[0]);
        assert(text.drop_first() =~= before.drop_first() + core + after);
        assert forall|i: int| 0 <= i < before.drop_first().len() implies strip(
            #[trigger] before.drop_first()[i],
        ) by {
            assert(strip(before[i + 1]));
        }
        lemma_stripped_ends(before.drop_first(), core, after, strip);
    } else if after.len() > 0 {
        assert(text[0] == core[0]);
        assert(strip(after[after.len() - 1]));
        assert(text.last() == after.last());
        assert(text.drop_last() =~= before + core + after.drop_last());
        assert forall|i: int| 0 <= i < after.drop_last().len() implies strip(
            #[trigger] after.drop_last()[i],
        ) by {
            assert(strip(after[i]));
        }
        lemma_stripped_ends(before, core, after.drop_last(), strip);
    } else {
        assert(text =~= core);
    }
}

/// Whether a text is nothing but white space.
pub open spec fn is_space(text: Seq<char>) -> bool {
    forall|i: int| 0 <= i < text.len() ==> is_white_space(#[trigger] text[i])
}

/// Whether a text is nothing but quotes.
pub open spec fn is_quotes(text: Seq<char>) -> bool {
    forall|i: int| 0 <= i < text.len() ==> #[trigger] text[i] == '"'
}

/// A word in a state file is the detail mode exactly where it is `detail`, in whatever
/// letters, between quotes and white space or not.
pub proof fn law_stored_words(
    before: Seq<char>,
    open: Seq<char>,
    word: Seq<char>,
    close: Seq<char>,
    after: Seq<char>,
)
    requires
        is_space(before),
        is_space(after),
        is_quotes(open),
        is_quotes(close),
        word.len() > 0,
        word[0] != '"' && !is_white_space(word[0]),
        word.last() != '"' && !is_white_space(word.last()),
    ensures
        display_mode_of(before + (open + word + close) + after) == DisplayMode::Detail
            <==> lowered(word) == "detail"@,
{
    let quoted = open + word + close;
    let space = |c: char| is_white_space(c);
    let quote = |c: char| is_quote(c);
    assert(quoted[0] == '"' || quoted[0] == word[0]);
    assert(quoted.last() == '"' || quoted.last() == word.last());
    lemma_stripped_ends(before, quoted, after, space);
    lemma_stripped_ends(open, word, close, quote);
}

/// The two display modes, their names, and what cycling makes of each.
pub proof fn law_display_modes()
    ensures
        mode_word(DisplayMode::Compact) == "compact"@,
        mode_word(DisplayMode::Detail) == "detail"@,
        other_mode(DisplayMode::Compact) == DisplayMode::Detail,
        other_mode(DisplayMode::Detail) == DisplayMode::Compact,
{
}

/// While the daemon is down the pause begins at the interval, which counts as at least
/// a quarter of a second, doubles with each of ten cycles, and is never over half a
/// minute.
pub proof fn law_pauses_double(base_ms: nat, cycles: nat)
    ensures
        250 <= base_ms <= 30000 ==> backoff(base_ms, 0) == base_ms,
        base_ms < 250 ==> backoff(base_ms, cycles) == backoff(250, cycles),
        base_ms > 30000 ==> backoff(base_ms, cycles) == 30000,
        cycles < 10 && backoff(base_ms, cycles) <= 15000 ==> backoff(base_ms, cycles + 1) == 2
            * backoff(base_ms, cycles),
        cycles < 10 && backoff(base_ms, cycles) > 15000 ==> backoff(base_ms, cycles + 1) == 30000,
        cycles >= 10 ==> backoff(base_ms, cycles) == backoff(base_ms, 10),
{
    lemma2_to64();
    let start = if base_ms >= 250 {
        base_ms
    } else {
        250
    };
    let steps = if cycles <= 10 {
        cycles
    } else {
        10
    };
    lemma_pow2_unfold(cycles + 1);
    vstd::arithmetic::power2::lemma_pow2_pos(cycles);
    vstd::arithmetic::power2::lemma_pow2_pos(steps);
    let p = pow2(cycles);
    assert(start * (2 * p) == 2 * (start * p)) by (nonlinear_arith);
    assert(start * 1 == start);
    let q = pow2(steps);
    assert(start * q >= start) by (nonlinear_arith)
        requires
            q >= 1,
    ;
}

/// After a refresh the loop pauses for the interval, and a daemon that answered has
/// been down for no cycle; while it is down the pause backs off with each cycle, and
/// the cycles are counted as far as they can be.
pub proof fn law_rounds_are_paced(interval_ms: nat, cycles: nat, connectivity: Connectivity)
    ensures
        connectivity != Connectivity::DaemonDown ==> pause_after(connectivity, interval_ms, cycles)
            == interval_ms && cycles_after(connectivity, cycles) == 0,
        connectivity == Connectivity::DaemonDown ==> pause_after(connectivity, interval_ms, cycles)
            == backoff(interval_ms, cycles),
        connectivity == Connectivity::DaemonDown && cycles < u32::MAX ==> cycles_after(
            connectivity,
            cycles,
        ) == cycles + 1,
        connectivity == Connectivity::DaemonDown && cycles == u32::MAX ==> cycles_after(
            connectivity,
            cycles,
        ) == cycles,
{
}

/// The interval is the configured one, and at least a quarter of a second.
pub proof fn law_intervals(config: ConfigView)
    ensures
        config.refresh_interval_ms >= 250 ==> interval_of(config) == config.refresh_interval_ms,
        config.refresh_interval_ms < 250 ==> interval_of(config) == 250,
{
}

/// A process that ended with a code of one byte passes it on; any other ending is a
/// failure.
pub proof fn law_exit_codes(status: i32)
    ensures
        0 <= status <= 255 ==> passed_on(Some(status)) == status,
        status < 0 || status > 255 ==> passed_on(Some(status)) == 1,
        passed_on(None) == 1,
{
}

/// The state lives where `XDG_STATE_HOME` says, or else below `HOME`, or else nowhere.
pub proof fn law_state_roots(has_home: bool)
    ensures
        state_root_of(true, has_home) == Some(StateRoot::XdgStateHome),
        state_root_of(false, true) == Some(StateRoot::HomeLocalState),
        state_root_of(false, false) is None,
{
}

/// Without a state file the mode is compact; with one it is what the file says; and a
/// file holds the name of the mode on a line.
pub proof fn law_state_files(contents: Seq<char>)
    ensures
        stored_mode(None) == DisplayMode::Compact,
        stored_mode(Some(contents)) == display_mode_of(contents),
        mode_line(DisplayMode::Compact) == "compact"@ + "\n"@,
        mode_line(DisplayMode::Detail) == "detail"@ + "\n"@,
{
}

} // verus!
