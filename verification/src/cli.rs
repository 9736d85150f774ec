//! Decisions of the command line: which action a command asks for, what becomes
//! of it, and how the Waybar loop paces itself.

use vstd::prelude::*;
use vstd::arithmetic::power2::pow2;

use crate::config::{Config, ConfigView};
use crate::error::{WlError, WlErrorView, WlResult, result_view};
use crate::model::{
    ActionKind, ActionKindView, AuthRole, Connectivity, PlannedAction, PlannedActionView,
    SocketIntent, SocketIntentView, Unavailable, UnavailableView, WlState, WlStateView,
    blank_state,
};
use crate::plan::{blocked_by, is_display_only, plan_view, planned};
use crate::process::is_d2b_program;
use crate::reduce::{RefreshEnd, carried, carry_over, remembered};
use crate::text::{
    chars_are, decimal, decimal_text, lower_chars, lowered, opt_view, path_name, trim, trim_quotes,
    trimmed, unquoted, views,
};
use crate::view_model::{role_name, role_word};
use crate::waybar::DisplayMode;

verus! {

/// Waybar's `"signal"` value. Waybar sends SIGRTMIN+N for this integer N.
pub const WAYBAR_REFRESH_SIGNAL_OFFSET: u8 = 8;

/// The longest pause of the Waybar loop while the daemon is down.
pub const WAYBAR_MAX_DAEMON_DOWN_BACKOFF_MS: u64 = 30000;

/// The shortest pause of the Waybar loop.
pub const WAYBAR_MIN_INTERVAL_MS: u64 = 250;

/// Starter Waybar module configuration.
pub const WAYBAR_CONFIG_SNIPPET: &'static str = r##""custom/d2b-wlcontrol": {
  "exec": "d2b-wlcontrol waybar",
  "return-type": "json",
  "restart-interval": 5,
  "signal": 8,
  "on-click": "d2b-wlcontrol open",
  "on-click-right": "d2b-wlcontrol action cycle-display",
  "on-click-middle": "d2b-wlcontrol action refresh",
  "tooltip": true
}
"##;

/// Starter style sheet.
pub const STYLE_SNIPPET: &'static str = r##"@import url("/etc/d2b/ui-colors.css");

#custom-d2b-wlcontrol.all-running { color: @d2b_state_running; }
#custom-d2b-wlcontrol.partial-running { color: @d2b_state_transitioning; }
#custom-d2b-wlcontrol.attention { color: @d2b_state_pendingRestart; }
#custom-d2b-wlcontrol.daemon-down { color: @d2b_state_error; }
#custom-d2b-wlcontrol.auth-denied { color: @d2b_state_denied; }
#custom-d2b-wlcontrol.all-stopped { color: @d2b_state_unknown; }
"##;

/// On or off.
#[derive(Debug, Clone, Copy, PartialEq, Eq, Structural)]
pub enum AudioToggle {
    On,
    Off,
}

/// An action as the command line names it.
pub enum ActionCommand {
    /// Refresh state.
    Refresh,
    /// Cycle the Waybar compact/detail display mode.
    CycleDisplay,
    /// Open or focus the control centre.
    Open,
    /// Start a VM.
    Start { vm: String },
    /// Stop a VM.
    Stop { vm: String },
    /// Restart a VM.
    Restart { vm: String },
    /// Activate a VM's current closure.
    Switch { vm: String },
    /// Build a VM without activating it.
    Build { vm: String },
    /// Stage a VM closure for the next boot.
    Boot { vm: String },
    /// Launch a guest terminal.
    Terminal { vm: String },
    /// Run a configured guest quick-launch command.
    QuickLaunch { vm: String, id: String },
    /// Attach a USB busid to a VM.
    UsbAttach { vm: String, bus_id: String },
    /// Detach a USB busid from a VM.
    UsbDetach { vm: String, bus_id: String },
    /// Verify a VM's store live pool.
    StoreVerify { vm: String },
    /// Enable or disable a VM microphone.
    AudioMic { vm: String, state: AudioToggle },
    /// Enable or disable a VM speaker.
    AudioSpeaker { vm: String, state: AudioToggle },
    /// Set speaker playback volume.
    AudioSpeakerVolume { vm: String, level_percent: u8 },
    /// Set microphone input gain.
    AudioMicGain { vm: String, level_percent: u8 },
    /// Disable microphone and speaker forwarding.
    AudioOff { vm: String },
    /// Open the observability portal.
    Observability,
}

/// The mathematical form of [`ActionCommand`].
#[verifier::ext_equal]
pub enum ActionCommandView {
    Refresh,
    CycleDisplay,
    Open,
    Start { vm: Seq<char> },
    Stop { vm: Seq<char> },
    Restart { vm: Seq<char> },
    Switch { vm: Seq<char> },
    Build { vm: Seq<char> },
    Boot { vm: Seq<char> },
    Terminal { vm: Seq<char> },
    QuickLaunch { vm: Seq<char>, id: Seq<char> },
    UsbAttach { vm: Seq<char>, bus_id: Seq<char> },
    UsbDetach { vm: Seq<char>, bus_id: Seq<char> },
    StoreVerify { vm: Seq<char> },
    AudioMic { vm: Seq<char>, state: AudioToggle },
    AudioSpeaker { vm: Seq<char>, state: AudioToggle },
    AudioSpeakerVolume { vm: Seq<char>, level_percent: u8 },
    AudioMicGain { vm: Seq<char>, level_percent: u8 },
    AudioOff { vm: Seq<char> },
    Observability,
}

impl View for ActionCommand {
    type V = ActionCommandView;

    open spec fn view(&self) -> ActionCommandView {
        match self {
            ActionCommand::Refresh => ActionCommandView::Refresh,
            ActionCommand::CycleDisplay => ActionCommandView::CycleDisplay,
            ActionCommand::Open => ActionCommandView::Open,
            ActionCommand::Start { vm } => ActionCommandView::Start { vm: vm@ },
            ActionCommand::Stop { vm } => ActionCommandView::Stop { vm: vm@ },
            ActionCommand::Restart { vm } => ActionCommandView::Restart { vm: vm@ },
            ActionCommand::Switch { vm } => ActionCommandView::Switch { vm: vm@ },
            ActionCommand::Build { vm } => ActionCommandView::Build { vm: vm@ },
            ActionCommand::Boot { vm } => ActionCommandView::Boot { vm: vm@ },
            ActionCommand::Terminal { vm } => ActionCommandView::Terminal { vm: vm@ },
            ActionCommand::QuickLaunch { vm, id } => ActionCommandView::QuickLaunch {
                vm: vm@,
                id: id@,
            },
            ActionCommand::UsbAttach { vm, bus_id } => ActionCommandView::UsbAttach {
                vm: vm@,
                bus_id: bus_id@,
            },
            ActionCommand::UsbDetach { vm, bus_id } => ActionCommandView::UsbDetach {
                vm: vm@,
                bus_id: bus_id@,
            },
            ActionCommand::StoreVerify { vm } => ActionCommandView::StoreVerify { vm: vm@ },
            ActionCommand::AudioMic { vm, state } => ActionCommandView::AudioMic {
                vm: vm@,
                state: *state,
            },
            ActionCommand::AudioSpeaker { vm, state } => ActionCommandView::AudioSpeaker {
                vm: vm@,
                state: *state,
            },
            ActionCommand::AudioSpeakerVolume { vm, level_percent } => ActionCommandView::AudioSpeakerVolume {
                vm: vm@,
                level_percent: *level_percent,
            },
            ActionCommand::AudioMicGain { vm, level_percent } => ActionCommandView::AudioMicGain {
                vm: vm@,
                level_percent: *level_percent,
            },
            ActionCommand::AudioOff { vm } => ActionCommandView::AudioOff { vm: vm@ },
            ActionCommand::Observability => ActionCommandView::Observability,
        }
    }
}

/// What the command line does about an action.
pub enum ActionRoute {
    /// Open the control centre.
    OpenControlCenter,
    /// Cycle the display mode.
    CycleDisplay,
    /// Dispatch a request to the daemon; afterwards signal the Waybar module if
    /// asked to.
    Dispatch { intent: SocketIntent, signal_waybar: bool },
    /// Run a host process.
    Run { argv: Vec<String>, wait: bool },
    /// Say why the action is unavailable, and fail.
    Explain { text: String },
}

/// The mathematical form of [`ActionRoute`].
#[verifier::ext_equal]
pub enum ActionRouteView {
    OpenControlCenter,
    CycleDisplay,
    Dispatch { intent: SocketIntentView, signal_waybar: bool },
    Run { argv: Seq<Seq<char>>, wait: bool },
    Explain { text: Seq<char> },
}

impl View for ActionRoute {
    type V = ActionRouteView;

    open spec fn view(&self) -> ActionRouteView {
        match self {
            ActionRoute::OpenControlCenter => ActionRouteView::OpenControlCenter,
            ActionRoute::CycleDisplay => ActionRouteView::CycleDisplay,
            ActionRoute::Dispatch { intent, signal_waybar } => ActionRouteView::Dispatch {
                intent: intent@,
                signal_waybar: *signal_waybar,
            },
            ActionRoute::Run { argv, wait } => ActionRouteView::Run {
                argv: views(argv@),
                wait: *wait,
            },
            ActionRoute::Explain { text } => ActionRouteView::Explain { text: text@ },
        }
    }
}

/// A host process to start. There is no shell: the program and its arguments are
/// passed as they stand.
pub struct ProcessLaunch {
    pub program: String,
    pub args: Vec<String>,
    /// The public socket to hand to the process.
    pub public_socket: Option<String>,
}

/// The mathematical form of [`ProcessLaunch`].
#[verifier::ext_equal]
pub struct ProcessLaunchView {
    pub program: Seq<char>,
    pub args: Seq<Seq<char>>,
    pub public_socket: Option<Seq<char>>,
}

impl View for ProcessLaunch {
    type V = ProcessLaunchView;

    open spec fn view(&self) -> ProcessLaunchView {
        ProcessLaunchView {
            program: self.program@,
            args: views(self.args@),
            public_socket: opt_view(self.public_socket),
        }
    }
}

/// The action a command asks for.
pub open spec fn kind_of(command: ActionCommandView) -> ActionKindView {
    match command {
        ActionCommandView::Refresh => ActionKindView::Refresh,
        ActionCommandView::CycleDisplay => ActionKindView::CycleDisplay,
        ActionCommandView::Open => ActionKindView::OpenControlCenter,
        ActionCommandView::Start { vm } => ActionKindView::Start { vm },
        ActionCommandView::Stop { vm } => ActionKindView::Stop { vm },
        ActionCommandView::Restart { vm } => ActionKindView::Restart { vm },
        ActionCommandView::Switch { vm } => ActionKindView::Switch { vm },
        ActionCommandView::Build { vm } => ActionKindView::Build { vm },
        ActionCommandView::Boot { vm } => ActionKindView::Boot { vm },
        ActionCommandView::Terminal { vm } => ActionKindView::LaunchTerminal { vm },
        ActionCommandView::QuickLaunch { vm, id } => ActionKindView::QuickLaunch { vm, id },
        ActionCommandView::UsbAttach { vm, bus_id } => ActionKindView::UsbAttach { vm, bus_id },
        ActionCommandView::UsbDetach { vm, bus_id } => ActionKindView::UsbDetach { vm, bus_id },
        ActionCommandView::StoreVerify { vm } => ActionKindView::StoreVerify { vm },
        ActionCommandView::AudioMic { vm, state } => ActionKindView::AudioMic {
            vm,
            on: state == AudioToggle::On,
        },
        ActionCommandView::AudioSpeaker { vm, state } => ActionKindView::AudioSpeaker {
            vm,
            on: state == AudioToggle::On,
        },
        ActionCommandView::AudioSpeakerVolume { vm, level_percent } => {
            ActionKindView::AudioSpeakerVolume { vm, level_percent }
        },
        ActionCommandView::AudioMicGain { vm, level_percent } => {
            ActionKindView::AudioMicGain { vm, level_percent }
        },
        ActionCommandView::AudioOff { vm } => ActionKindView::AudioOff { vm },
        ActionCommandView::Observability => ActionKindView::OpenObservability,
    }
}

impl ActionCommand {
    /// The action the command asks for.
    pub fn into_kind(self) -> (kind: ActionKind)
        ensures
            kind@ == kind_of(self@),
    {
        match self {
            ActionCommand::Refresh => ActionKind::Refresh,
            ActionCommand::CycleDisplay => ActionKind::CycleDisplay,
            ActionCommand::Open => ActionKind::OpenControlCenter,
            ActionCommand::Start { vm } => ActionKind::Start { vm },
            ActionCommand::Stop { vm } => ActionKind::Stop { vm },
            ActionCommand::Restart { vm } => ActionKind::Restart { vm },
            ActionCommand::Switch { vm } => ActionKind::Switch { vm },
            ActionCommand::Build { vm } => ActionKind::Build { vm },
            ActionCommand::Boot { vm } => ActionKind::Boot { vm },
            ActionCommand::Terminal { vm } => ActionKind::LaunchTerminal { vm },
            ActionCommand::QuickLaunch { vm, id } => ActionKind::QuickLaunch { vm, id },
            ActionCommand::UsbAttach { vm, bus_id } => ActionKind::UsbAttach { vm, bus_id },
            ActionCommand::UsbDetach { vm, bus_id } => ActionKind::UsbDetach { vm, bus_id },
            ActionCommand::StoreVerify { vm } => ActionKind::StoreVerify { vm },
            ActionCommand::AudioMic { vm, state } => ActionKind::AudioMic {
                vm,
                on: state == AudioToggle::On,
            },
            ActionCommand::AudioSpeaker { vm, state } => ActionKind::AudioSpeaker {
                vm,
                on: state == AudioToggle::On,
            },
            ActionCommand::AudioSpeakerVolume { vm, level_percent } => {
                ActionKind::AudioSpeakerVolume { vm, level_percent }
            },
            ActionCommand::AudioMicGain { vm, level_percent } => {
                ActionKind::AudioMicGain { vm, level_percent }
            },
            ActionCommand::AudioOff { vm } => ActionKind::AudioOff { vm },
            ActionCommand::Observability => ActionKind::OpenObservability,
        }
    }
}

/// The state to plan an action with, where that does not take a refresh: an
/// action that only concerns the display is planned without asking the daemon.
pub fn action_planning_state(action: &ActionKind) -> (state: Option<WlState>)
    ensures
        state is Some <==> is_display_only(action@),
        state is Some ==> state->Some_0@ == blank_state(),
{
    match action {
        ActionKind::Refresh | ActionKind::OpenControlCenter | ActionKind::OpenObservability
        | ActionKind::CycleDisplay => Some(WlState::default()),
        _ => None,
    }
}

/// Why an action is unavailable, in one line.
pub open spec fn reason_text(reason: UnavailableView) -> Seq<char> {
    match reason {
        UnavailableView::DaemonDown => "d2bd is unreachable"@,
        UnavailableView::InsufficientRole { required } => "requires "@ + role_word(required)
            + " role"@,
        UnavailableView::VmState { detail } => detail,
        UnavailableView::Blocked { detail } => detail,
        UnavailableView::UsbOwnedElsewhere { owner } => "USB device is owned by "@ + owner,
        UnavailableView::NotYetImplemented => "not yet implemented"@,
    }
}

/// The name of a role.
pub fn auth_role_name(role: AuthRole) -> (name: &'static str)
    ensures
        name@ == role_word(role),
{
    role_name(role)
}

/// Why an action is unavailable, in one line.
pub fn describe_unavailable(reason: &Unavailable) -> (text: String)
    ensures
        text@ == reason_text(reason@),
{
    match reason {
        Unavailable::DaemonDown => "d2bd is unreachable".to_owned(),
        Unavailable::InsufficientRole { required } => {
            let mut text = "requires ".to_owned();
            text.append(auth_role_name(*required));
            text.append(" role");
            text
        },
        Unavailable::VmState { detail } => detail.clone(),
        Unavailable::Blocked { detail } => detail.clone(),
        Unavailable::UsbOwnedElsewhere { owner } => "USB device is owned by ".to_owned().concat(
            owner.as_str(),
        ),
        Unavailable::NotYetImplemented => "not yet implemented".to_owned(),
    }
}

/// What the command line does about an action, given how it was planned.
pub open spec fn route_of(
    action: ActionKindView,
    planned: Result<PlannedActionView, UnavailableView>,
) -> ActionRouteView {
    match planned {
        Ok(PlannedActionView::Socket { intent }) => ActionRouteView::Dispatch {
            intent,
            signal_waybar: action is Refresh,
        },
        Ok(PlannedActionView::Process { argv, wait }) => ActionRouteView::Run { argv, wait },
        Err(reason) => if reason is Blocked && action is OpenControlCenter {
            ActionRouteView::OpenControlCenter
        } else if reason is Blocked && action is CycleDisplay {
            ActionRouteView::CycleDisplay
        } else {
            ActionRouteView::Explain {
                text: "d2b-wlcontrol: action unavailable: "@ + reason_text(reason),
            }
        },
    }
}

/// What the command line does about an action, given how it was planned.
pub fn route_action(action: &ActionKind, planned: Result<PlannedAction, Unavailable>) -> (route:
    ActionRoute)
    ensures
        route@ == route_of(action@, plan_view(planned)),
{
    match planned {
        Ok(PlannedAction::Socket { intent }) => {
            let signal_waybar = match action {
                ActionKind::Refresh => true,
                _ => false,
            };
            ActionRoute::Dispatch { intent, signal_waybar }
        },
        Ok(PlannedAction::Process { argv, wait }) => ActionRoute::Run { argv, wait },
        Err(reason) => {
            let blocked = match &reason {
                Unavailable::Blocked { .. } => true,
                _ => false,
            };
            match action {
                ActionKind::OpenControlCenter if blocked => ActionRoute::OpenControlCenter,
                ActionKind::CycleDisplay if blocked => ActionRoute::CycleDisplay,
                _ => ActionRoute::Explain {
                    text: "d2b-wlcontrol: action unavailable: ".to_owned().concat(
                        describe_unavailable(&reason).as_str(),
                    ),
                },
            }
        },
    }
}

/// The process that an argv asks for. The daemon's own tool is told which public
/// socket to use.
pub open spec fn launch_of(argv: Seq<Seq<char>>, public_socket: Seq<char>) -> Result<
    ProcessLaunchView,
    WlErrorView,
> {
    if argv.len() == 0 {
        Err(WlErrorView::Config("empty process argv"@))
    } else {
        Ok(
            ProcessLaunchView {
                program: argv[0],
                args: argv.drop_first(),
                public_socket: if path_name(argv[0]) == Some("d2b"@) {
                    Some(public_socket)
                } else {
                    None
                },
            },
        )
    }
}

/// The process that an argv asks for. There is no shell interpretation: the
/// first element is the program and the rest are its arguments.
pub fn prepare_process(argv: Vec<String>, config: &Config) -> (launch: WlResult<ProcessLaunch>)
    ensures
        result_view(launch) == launch_of(views(argv@), config@.public_socket),
{
    if argv.len() == 0 {
        return Err(WlError::Config("empty process argv".to_owned()));
    }
    let mut args = argv;
    let ghost all = views(args@);
    let program = args.remove(0);
    assert(all[0] == program@);
    assert(views(args@) =~= all.drop_first());
    let public_socket = if is_d2b_program(program.as_str()) {
        Some(config.public_socket.clone())
    } else {
        None
    };
    Ok(ProcessLaunch { program, args, public_socket })
}

/// The exit code to pass on for a process that ended with a status.
pub open spec fn passed_on(status: Option<i32>) -> int {
    match status {
        Some(value) => if 0 <= value <= 255 {
            value as int
        } else {
            1
        },
        None => 1,
    }
}

/// The exit code to pass on for a process that ended with `status`: its own code
/// where that fits, failure otherwise.
pub fn exit_code(status: Option<i32>) -> (code: u8)
    ensures
        code == passed_on(status),
        code == match status {
            Some(value) if 0 <= value <= 255 => value as u8,
            _ => 1u8,
        },
{
    match status {
        Some(value) => if 0 <= value && value <= 255 {
            value as u8
        } else {
            1
        },
        None => 1,
    }
}

/// The display mode that a state file holds: `detail`, quoted or not, in any
/// case of its letters; anything else is compact.
pub open spec fn display_mode_of(contents: Seq<char>) -> DisplayMode {
    if lowered(unquoted(trimmed(contents))) == "detail"@ {
        DisplayMode::Detail
    } else {
        DisplayMode::Compact
    }
}

/// The display mode that a state file holds.
pub fn parse_display_mode(contents: &str) -> (mode: DisplayMode)
    ensures
        mode == display_mode_of(contents@),
{
    let word = lower_chars(trim_quotes(trim(contents).as_str()).as_str());
    if chars_are(&word, "detail") {
        DisplayMode::Detail
    } else {
        DisplayMode::Compact
    }
}

/// The other display mode.
pub open spec fn other_mode(mode: DisplayMode) -> DisplayMode {
    match mode {
        DisplayMode::Compact => DisplayMode::Detail,
        DisplayMode::Detail => DisplayMode::Compact,
    }
}

/// The other display mode.
pub fn toggle_display_mode(mode: DisplayMode) -> (other: DisplayMode)
    ensures
        other == other_mode(mode),
{
    match mode {
        DisplayMode::Compact => DisplayMode::Detail,
        DisplayMode::Detail => DisplayMode::Compact,
    }
}

/// The name of a display mode.
pub open spec fn mode_word(mode: DisplayMode) -> Seq<char> {
    match mode {
        DisplayMode::Compact => "compact"@,
        DisplayMode::Detail => "detail"@,
    }
}

/// The name of a display mode.
pub fn display_mode_name(mode: DisplayMode) -> (name: &'static str)
    ensures
        name@ == mode_word(mode),
{
    match mode {
        DisplayMode::Compact => "compact",
        DisplayMode::Detail => "detail",
    }
}

/// The contents of the state file of a display mode.
pub open spec fn mode_line(mode: DisplayMode) -> Seq<char> {
    mode_word(mode) + "\n"@
}

/// The contents of the state file of a display mode.
pub fn display_mode_contents(mode: DisplayMode) -> (contents: String)
    ensures
        contents@ == mode_line(mode),
        contents@ == mode_word(mode) + "\n"@,
{
    display_mode_name(mode).to_owned().concat("\n")
}

/// The display mode that a state file holds, if there is one.
pub open spec fn stored_mode(contents: Option<Seq<char>>) -> DisplayMode {
    match contents {
        Some(text) => display_mode_of(text),
        None => DisplayMode::Compact,
    }
}

/// The display mode a state file holds: compact where there is none.
pub fn stored_display_mode(contents: Option<&str>) -> (mode: DisplayMode)
    ensures
        mode == stored_mode(opt_view(contents)),
        mode == match contents {
            Some(text) => display_mode_of(text@),
            None => DisplayMode::Compact,
        },
{
    match contents {
        Some(text) => parse_display_mode(text),
        None => DisplayMode::Compact,
    }
}

/// Which directory the state lives in.
#[derive(Debug, Clone, Copy, PartialEq, Eq, Structural)]
pub enum StateRoot {
    /// The directory that `XDG_STATE_HOME` names.
    XdgStateHome,
    /// `.local/state` below the directory that `HOME` names.
    HomeLocalState,
}

/// The state directory, by which of the two variables are set and not empty.
pub open spec fn state_root_of(has_xdg_state_home: bool, has_home: bool) -> Option<StateRoot> {
    if has_xdg_state_home {
        Some(StateRoot::XdgStateHome)
    } else if has_home {
        Some(StateRoot::HomeLocalState)
    } else {
        None
    }
}

/// Chooses the state directory, by which of the two variables are set and not
/// empty.
pub fn state_root(has_xdg_state_home: bool, has_home: bool) -> (root: WlResult<StateRoot>)
    ensures
        match state_root_of(has_xdg_state_home, has_home) {
            Some(choice) => root is Ok && root->Ok_0 == choice,
            None => root is Err,
        },
        result_view_root(root) == (if has_xdg_state_home {
            Ok::<StateRoot, WlErrorView>(StateRoot::XdgStateHome)
        } else if has_home {
            Ok::<StateRoot, WlErrorView>(StateRoot::HomeLocalState)
        } else {
            Err::<StateRoot, WlErrorView>(
                WlErrorView::Config(
                    "HOME or XDG_STATE_HOME must be set to persist Waybar display mode"@,
                ),
            )
        }),
{
    if has_xdg_state_home {
        Ok(StateRoot::XdgStateHome)
    } else if has_home {
        Ok(StateRoot::HomeLocalState)
    } else {
        Err(
            WlError::Config(
                "HOME or XDG_STATE_HOME must be set to persist Waybar display mode".to_owned(),
            ),
        )
    }
}

/// The view of a choice of state directory.
pub open spec fn result_view_root(root: WlResult<StateRoot>) -> Result<StateRoot, WlErrorView> {
    match root {
        Ok(choice) => Ok(choice),
        Err(error) => Err(error@),
    }
}

/// The lesser of two numbers.
pub open spec fn lesser(left: nat, right: nat) -> nat {
    if left <= right {
        left
    } else {
        right
    }
}

/// The greater of two numbers.
pub open spec fn greater(left: nat, right: nat) -> nat {
    if left >= right {
        left
    } else {
        right
    }
}

/// The pause of the Waybar loop after the daemon was down for some cycles: the
/// interval, doubled for each cycle up to ten, within its bounds.
pub open spec fn backoff(base_ms: nat, cycles: nat) -> nat {
    lesser(
        greater(base_ms, WAYBAR_MIN_INTERVAL_MS as nat) * pow2(lesser(cycles, 10)),
        WAYBAR_MAX_DAEMON_DOWN_BACKOFF_MS as nat,
    )
}

proof fn lemma_doubling(base: nat, steps: nat)
    ensures
        base * pow2(steps + 1) == 2 * (base * pow2(steps)),
        base * pow2(steps) >= base,
        base * pow2(0) == base,
{
    vstd::arithmetic::power2::lemma_pow2_unfold(steps + 1);
    vstd::arithmetic::power2::lemma_pow2_pos(steps);
    vstd::arithmetic::power2::lemma2_to64();
    let p = pow2(steps);
    assert(base * (2 * p) == 2 * (base * p)) by (nonlinear_arith);
    assert(base * p >= base) by (nonlinear_arith)
        requires
            p > 0,
    ;
    assert(base * 1 == base) by (nonlinear_arith);
}

/// The pause of the Waybar loop after the daemon was down for some cycles.
pub fn daemon_down_backoff(base_ms: u64, daemon_down_cycles: u32) -> (pause_ms: u64)
    ensures
        pause_ms == backoff(base_ms as nat, daemon_down_cycles as nat),
{
    let start: u64 = if base_ms < WAYBAR_MIN_INTERVAL_MS {
        WAYBAR_MIN_INTERVAL_MS
    } else {
        base_ms
    };
    let steps: u32 = if daemon_down_cycles < 10 {
        daemon_down_cycles
    } else {
        10
    };
    proof {
        lemma_doubling(start as nat, steps as nat);
    }
    if start >= WAYBAR_MAX_DAEMON_DOWN_BACKOFF_MS {
        return WAYBAR_MAX_DAEMON_DOWN_BACKOFF_MS;
    }
    let mut pause: u64 = start;
    let mut step: u32 = 0;
    while step < steps
        invariant
            step <= steps <= 10,
            pause == lesser(start as nat * pow2(step as nat), 30000),
        decreases steps - step,
    {
        proof {
            lemma_doubling(start as nat, step as nat);
        }
        pause = if pause >= 15000 {
            WAYBAR_MAX_DAEMON_DOWN_BACKOFF_MS
        } else {
            2 * pause
        };
        step = step + 1;
    }
    pause
}

/// The pause of the Waybar loop between two refreshes.
pub open spec fn interval_of(config: ConfigView) -> nat {
    greater(config.refresh_interval_ms as nat, WAYBAR_MIN_INTERVAL_MS as nat)
}

/// The pause of the Waybar loop between two refreshes.
pub fn refresh_interval(config: &Config) -> (interval_ms: u64)
    ensures
        interval_ms == interval_of(config@),
        interval_ms == greater(
            config@.refresh_interval_ms as nat,
            WAYBAR_MIN_INTERVAL_MS as nat,
        ),
{
    if config.refresh_interval_ms < WAYBAR_MIN_INTERVAL_MS {
        WAYBAR_MIN_INTERVAL_MS
    } else {
        config.refresh_interval_ms
    }
}

/// How long the Waybar loop pauses after a refresh.
pub open spec fn pause_after(connectivity: Connectivity, interval_ms: nat, cycles: nat) -> nat {
    if connectivity == Connectivity::DaemonDown {
        backoff(interval_ms, cycles)
    } else {
        interval_ms
    }
}

/// How many cycles the daemon has been down after a refresh.
pub open spec fn cycles_after(connectivity: Connectivity, cycles: nat) -> nat {
    if connectivity == Connectivity::DaemonDown {
        lesser(cycles + 1, u32::MAX as nat)
    } else {
        0
    }
}

/// How the Waybar loop goes on after a refresh: how long it pauses, and how many
/// cycles the daemon has been down by then.
pub fn next_pause(connectivity: Connectivity, interval_ms: u64, daemon_down_cycles: u32) -> (next: (
    u64,
    u32,
))
    ensures
        next.0 == pause_after(connectivity, interval_ms as nat, daemon_down_cycles as nat),
        next.1 == cycles_after(connectivity, daemon_down_cycles as nat),
        connectivity == Connectivity::DaemonDown ==> next.0 == backoff(
            interval_ms as nat,
            daemon_down_cycles as nat,
        ) && next.1 == lesser(daemon_down_cycles as nat + 1, u32::MAX as nat),
        connectivity != Connectivity::DaemonDown ==> next == (interval_ms, 0u32),
{
    match connectivity {
        Connectivity::DaemonDown => (
            daemon_down_backoff(interval_ms, daemon_down_cycles),
            daemon_down_cycles.saturating_add(1),
        ),
        _ => (interval_ms, 0),
    }
}

/// What one round of the Waybar loop comes to.
#[derive(Debug, PartialEq, Eq)]
pub struct WaybarRound {
    /// The state to show now.
    pub shown: WlState,
    /// The state that a later refresh falls back on.
    pub last: Option<WlState>,
    /// How long to pause before the next refresh.
    pub pause_ms: u64,
    /// How many cycles the daemon has been down.
    pub daemon_down_cycles: u32,
}

/// Decides one round of the Waybar loop from what the rounds before left and from
/// the refresh just made: `fresh` is the state it reduced to, `end` how it ended.
pub fn waybar_round(
    last: Option<WlState>,
    fresh: WlState,
    end: RefreshEnd,
    interval_ms: u64,
    daemon_down_cycles: u32,
) -> (round: WaybarRound)
    ensures
        round.shown@ == carried(opt_view(last), fresh@, end),
        opt_view(round.last) == remembered(opt_view(last), fresh@, end),
        round.pause_ms == pause_after(
            fresh@.connectivity,
            interval_ms as nat,
            daemon_down_cycles as nat,
        ),
        round.daemon_down_cycles == cycles_after(fresh@.connectivity, daemon_down_cycles as nat),
        fresh@.connectivity == Connectivity::DaemonDown ==> round.pause_ms == backoff(
            interval_ms as nat,
            daemon_down_cycles as nat,
        ) && round.daemon_down_cycles == lesser(daemon_down_cycles as nat + 1, u32::MAX as nat),
        fresh@.connectivity != Connectivity::DaemonDown ==> round.pause_ms == interval_ms
            && round.daemon_down_cycles == 0,
{
    let (pause_ms, daemon_down_cycles) = next_pause(
        fresh.connectivity,
        interval_ms,
        daemon_down_cycles,
    );
    let kept = match end {
        RefreshEnd::Settled => Some(fresh.clone()),
        _ => None,
    };
    let shown = carry_over(last.as_ref(), fresh, end);
    let last = match kept {
        Some(state) => Some(state),
        None => last,
    };
    WaybarRound { shown, last, pause_ms, daemon_down_cycles }
}

/// The starter Waybar configuration, with a note on its signal.
pub fn waybar_config_output() -> (output: String)
    ensures
        output@ == "// The \"signal\": "@ + decimal(WAYBAR_REFRESH_SIGNAL_OFFSET as nat)
            + " key below lets `action cycle-display` refresh the bar immediately via SIGRTMIN+"@
            + decimal(WAYBAR_REFRESH_SIGNAL_OFFSET as nat) + ".\n"@ + WAYBAR_CONFIG_SNIPPET@,
{
    let mut output = "// The \"signal\": ".to_owned();
    output.append(decimal_text(WAYBAR_REFRESH_SIGNAL_OFFSET as u64).as_str());
    output.append(
        " key below lets `action cycle-display` refresh the bar immediately via SIGRTMIN+",
    );
    output.append(decimal_text(WAYBAR_REFRESH_SIGNAL_OFFSET as u64).as_str());
    output.append(".\n");
    output.append(WAYBAR_CONFIG_SNIPPET);
    output
}

/// Toggling the display mode twice leaves it as it was, and once changes it.
pub proof fn law_toggling_twice_changes_nothing(mode: DisplayMode)
    ensures
        other_mode(other_mode(mode)) == mode,
        other_mode(mode) != mode,
{
}

/// A stored display mode reads back as it was written.
pub proof fn law_display_mode_round_trips(mode: DisplayMode)
    ensures
        display_mode_of(mode_word(mode) + "\n"@) == mode,
{
    reveal_strlit("compact");
    reveal_strlit("detail");
    reveal_strlit("\n");
    let word = mode_word(mode);
    let contents = word + "\n"@;
    assert(contents.drop_last() =~= word);
    assert(contents.last() == '\n');
    assert(trimmed(contents) == trimmed(word));
    crate::text::lemma_trimmed_same(word);
    assert(unquoted(word) == word);
    assert(lowered(word) =~= word);
    assert("compact"@[0] != "detail"@[0]);
}

/// The pause while the daemon is down stays within its bounds and never shrinks
/// as the outage goes on.
pub proof fn law_backoff_is_bounded(base_ms: nat, cycles: nat)
    ensures
        WAYBAR_MIN_INTERVAL_MS <= backoff(base_ms, cycles) <= WAYBAR_MAX_DAEMON_DOWN_BACKOFF_MS,
        backoff(base_ms, cycles) <= backoff(base_ms, cycles + 1),
        backoff(base_ms, 0) == lesser(
            greater(base_ms, WAYBAR_MIN_INTERVAL_MS as nat),
            WAYBAR_MAX_DAEMON_DOWN_BACKOFF_MS as nat,
        ),
{
    let base = greater(base_ms, WAYBAR_MIN_INTERVAL_MS as nat);
    lemma_doubling(base, lesser(cycles, 10));
    lemma_doubling(base, 0);
}

/// The actions that the surfaces carry out themselves are never refused, and a
/// refresh always reaches the daemon and then the bar, whatever the state.
pub proof fn law_display_commands_always_work(state: WlStateView, config: ConfigView)
    ensures
        route_of(
            ActionKindView::OpenControlCenter,
            planned(ActionKindView::OpenControlCenter, state, config),
        ) == ActionRouteView::OpenControlCenter,
        route_of(
            ActionKindView::CycleDisplay,
            planned(ActionKindView::CycleDisplay, state, config),
        ) == ActionRouteView::CycleDisplay,
        route_of(ActionKindView::Refresh, planned(ActionKindView::Refresh, state, config)) == (
        ActionRouteView::Dispatch { intent: SocketIntentView::List, signal_waybar: true }),
{
}

/// A blocked action is never carried out: the operator is told why.
pub proof fn law_blocked_actions_are_explained(
    action: ActionKindView,
    state: WlStateView,
    config: ConfigView,
)
    requires
        blocked_by(action, state) is Some,
    ensures
        route_of(action, planned(action, state, config)) == (ActionRouteView::Explain {
            text: "d2b-wlcontrol: action unavailable: "@ + reason_text(
                blocked_by(action, state)->Some_0,
            ),
        }),
{
}

} // verus!
