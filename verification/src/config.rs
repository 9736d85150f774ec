//! User configuration and the UI color artifact.

use vstd::prelude::*;

use crate::error::{WlError, WlErrorView, WlResult};
use crate::text::{
    blank, chars_of, decimal, decimal_text, empty, ends, file_name, first_where, is_blank,
    is_white_space, lemma_first_where_at, lemma_first_where_none, lemma_name_start_is,
    lemma_steps_list_by_name, lemma_trimmed_same, listed_by_name, not_after, opt_view, path_name,
    same_text, text_up_to, trim, trimmed, views,
};

verus! {

/// Where the configuration lives below the user's configuration directory.
pub const CONFIG_RELATIVE_PATH: &'static str = "d2b-wlcontrol/config.toml";

/// Where the daemon leaves the resolved UI colors.
pub const DEFAULT_COLOR_ARTIFACT_PATH: &'static str = "/etc/d2b/ui-colors.json";

/// Said of a configuration that names the privileged broker socket.
pub const PRIVILEGED_BROKER_SOCKET_MESSAGE: &'static str =
    "refusing to use the privileged broker socket; d2b-wlcontrol speaks only the public socket";

/// The artifact version this program understands.
pub const UI_COLOR_ARTIFACT_VERSION: u8 = 1;

/// Terminal launch configuration. The guest command is always an argv vector; no
/// shell string interpolation is performed.
#[derive(Debug, PartialEq, Eq)]
pub struct TerminalConfig {
    /// Deprecated host-terminal argv prefix kept for config compatibility.
    pub argv: Vec<String>,
    /// Deprecated single guest command kept for config compatibility.
    pub guest_shell: String,
    /// Guest argv launched detached inside the VM.
    pub guest_argv: Vec<String>,
}

/// The mathematical form of [`TerminalConfig`].
#[verifier::ext_equal]
pub struct TerminalConfigView {
    pub argv: Seq<Seq<char>>,
    pub guest_shell: Seq<char>,
    pub guest_argv: Seq<Seq<char>>,
}

impl View for TerminalConfig {
    type V = TerminalConfigView;

    open spec fn view(&self) -> TerminalConfigView {
        TerminalConfigView {
            argv: views(self.argv@),
            guest_shell: self.guest_shell@,
            guest_argv: views(self.guest_argv@),
        }
    }
}

impl Clone for TerminalConfig {
    fn clone(&self) -> (copy: Self)
        ensures
            copy@ == self@,
    {
        TerminalConfig {
            argv: self.argv.clone(),
            guest_shell: self.guest_shell.clone(),
            guest_argv: self.guest_argv.clone(),
        }
    }
}

/// Observability portal configuration. Opening the browser is argv-only.
#[derive(Debug, PartialEq, Eq)]
pub struct ObservabilityConfig {
    /// Whether to expose the observability portal action.
    pub enabled: bool,
    /// URL to open; `None` disables the action.
    pub url: Option<String>,
    /// argv prefix used to open the URL.
    pub browser_argv: Vec<String>,
    /// Message shown by the popup after launching observability.
    pub success_message: String,
}

/// The mathematical form of [`ObservabilityConfig`].
#[verifier::ext_equal]
pub struct ObservabilityConfigView {
    pub enabled: bool,
    pub url: Option<Seq<char>>,
    pub browser_argv: Seq<Seq<char>>,
    pub success_message: Seq<char>,
}

impl View for ObservabilityConfig {
    type V = ObservabilityConfigView;

    open spec fn view(&self) -> ObservabilityConfigView {
        ObservabilityConfigView {
            enabled: self.enabled,
            url: opt_view(self.url),
            browser_argv: views(self.browser_argv@),
            success_message: self.success_message@,
        }
    }
}

impl Clone for ObservabilityConfig {
    fn clone(&self) -> (copy: Self)
        ensures
            copy@ == self@,
    {
        ObservabilityConfig {
            enabled: self.enabled,
            url: self.url.clone(),
            browser_argv: self.browser_argv.clone(),
            success_message: self.success_message.clone(),
        }
    }
}

/// Shell colors for the popup.
#[derive(Debug, PartialEq, Eq)]
pub struct ThemeConfig {
    pub background: String,
    pub surface: String,
    pub surface_alt: String,
    pub foreground: String,
    pub foreground_strong: String,
    pub foreground_disabled: String,
    pub muted: String,
    pub border: String,
    pub inverse_foreground: String,
    pub success_surface: String,
    pub warning_surface: String,
    pub error_surface: String,
    pub input_background: String,
    pub slider_track: String,
}

/// The mathematical form of [`ThemeConfig`].
#[verifier::ext_equal]
pub struct ThemeConfigView {
    pub background: Seq<char>,
    pub surface: Seq<char>,
    pub surface_alt: Seq<char>,
    pub foreground: Seq<char>,
    pub foreground_strong: Seq<char>,
    pub foreground_disabled: Seq<char>,
    pub muted: Seq<char>,
    pub border: Seq<char>,
    pub inverse_foreground: Seq<char>,
    pub success_surface: Seq<char>,
    pub warning_surface: Seq<char>,
    pub error_surface: Seq<char>,
    pub input_background: Seq<char>,
    pub slider_track: Seq<char>,
}

impl View for ThemeConfig {
    type V = ThemeConfigView;

    open spec fn view(&self) -> ThemeConfigView {
        ThemeConfigView {
            background: self.background@,
            surface: self.surface@,
            surface_alt: self.surface_alt@,
            foreground: self.foreground@,
            foreground_strong: self.foreground_strong@,
            foreground_disabled: self.foreground_disabled@,
            muted: self.muted@,
            border: self.border@,
            inverse_foreground: self.inverse_foreground@,
            success_surface: self.success_surface@,
            warning_surface: self.warning_surface@,
            error_surface: self.error_surface@,
            input_background: self.input_background@,
            slider_track: self.slider_track@,
        }
    }
}

impl Clone for ThemeConfig {
    fn clone(&self) -> (copy: Self)
        ensures
            copy@ == self@,
    {
        ThemeConfig {
            background: self.background.clone(),
            surface: self.surface.clone(),
            surface_alt: self.surface_alt.clone(),
            foreground: self.foreground.clone(),
            foreground_strong: self.foreground_strong.clone(),
            foreground_disabled: self.foreground_disabled.clone(),
            muted: self.muted.clone(),
            border: self.border.clone(),
            inverse_foreground: self.inverse_foreground.clone(),
            success_surface: self.success_surface.clone(),
            warning_surface: self.warning_surface.clone(),
            error_surface: self.error_surface.clone(),
            input_background: self.input_background.clone(),
            slider_track: self.slider_track.clone(),
        }
    }
}

/// A per-VM quick-launch icon that runs a detached guest command.
#[derive(Debug, PartialEq, Eq)]
pub struct QuickLaunchConfig {
    /// Stable action id.
    pub id: String,
    /// VM this icon appears on.
    pub vm: String,
    /// Icon name.
    pub icon: String,
    /// Hover text shown in the popup.
    pub tooltip: String,
    /// Guest argv to launch.
    pub guest_argv: Vec<String>,
}

/// The mathematical form of [`QuickLaunchConfig`].
#[verifier::ext_equal]
pub struct QuickLaunchConfigView {
    pub id: Seq<char>,
    pub vm: Seq<char>,
    pub icon: Seq<char>,
    pub tooltip: Seq<char>,
    pub guest_argv: Seq<Seq<char>>,
}

impl View for QuickLaunchConfig {
    type V = QuickLaunchConfigView;

    open spec fn view(&self) -> QuickLaunchConfigView {
        QuickLaunchConfigView {
            id: self.id@,
            vm: self.vm@,
            icon: self.icon@,
            tooltip: self.tooltip@,
            guest_argv: views(self.guest_argv@),
        }
    }
}

impl Clone for QuickLaunchConfig {
    fn clone(&self) -> (copy: Self)
        ensures
            copy@ == self@,
    {
        QuickLaunchConfig {
            id: self.id.clone(),
            vm: self.vm.clone(),
            icon: self.icon.clone(),
            tooltip: self.tooltip.clone(),
            guest_argv: self.guest_argv.clone(),
        }
    }
}

/// Top-level configuration.
#[derive(Debug, PartialEq, Eq)]
pub struct Config {
    /// Path to the public socket of the daemon.
    pub public_socket: String,
    /// Refresh cadence in milliseconds for the Waybar loop.
    pub refresh_interval_ms: u64,
    /// Per-operation timeout in milliseconds.
    pub command_timeout_ms: u64,
    /// Hide framework net VMs from the compact surfaces.
    pub hide_net_vms: bool,
    /// Show the pending-restart marker.
    pub show_pending_restart: bool,
    /// VM names pinned to the front of UI lists, in this order. Names not present
    /// in the inventory are ignored.
    pub favorites: Vec<String>,
    /// VM names hidden from compact surfaces.
    pub hidden_vms: Vec<String>,
    /// Terminal launch configuration.
    pub terminal: TerminalConfig,
    /// Observability portal configuration.
    pub observability: ObservabilityConfig,
    /// Shell palette for the popup.
    pub theme: ThemeConfig,
    /// Per-VM custom guest quick-launch icons.
    pub quick_launch: Vec<QuickLaunchConfig>,
    /// Path to the resolved UI color artifact.
    pub color_artifact_path: String,
}

/// The mathematical form of [`Config`].
#[verifier::ext_equal]
pub struct ConfigView {
    pub public_socket: Seq<char>,
    pub refresh_interval_ms: u64,
    pub command_timeout_ms: u64,
    pub hide_net_vms: bool,
    pub show_pending_restart: bool,
    pub favorites: Seq<Seq<char>>,
    pub hidden_vms: Seq<Seq<char>>,
    pub terminal: TerminalConfigView,
    pub observability: ObservabilityConfigView,
    pub theme: ThemeConfigView,
    pub quick_launch: Seq<QuickLaunchConfigView>,
    pub color_artifact_path: Seq<char>,
}

impl View for Config {
    type V = ConfigView;

    open spec fn view(&self) -> ConfigView {
        ConfigView {
            public_socket: self.public_socket@,
            refresh_interval_ms: self.refresh_interval_ms,
            command_timeout_ms: self.command_timeout_ms,
            hide_net_vms: self.hide_net_vms,
            show_pending_restart: self.show_pending_restart,
            favorites: views(self.favorites@),
            hidden_vms: views(self.hidden_vms@),
            terminal: self.terminal@,
            observability: self.observability@,
            theme: self.theme@,
            quick_launch: views(self.quick_launch@),
            color_artifact_path: self.color_artifact_path@,
        }
    }
}

impl Clone for Config {
    fn clone(&self) -> (copy: Self)
        ensures
            copy@ == self@,
    {
        Config {
            public_socket: self.public_socket.clone(),
            refresh_interval_ms: self.refresh_interval_ms,
            command_timeout_ms: self.command_timeout_ms,
            hide_net_vms: self.hide_net_vms,
            show_pending_restart: self.show_pending_restart,
            favorites: self.favorites.clone(),
            hidden_vms: self.hidden_vms.clone(),
            terminal: self.terminal.clone(),
            observability: self.observability.clone(),
            theme: self.theme.clone(),
            quick_launch: self.quick_launch.clone(),
            color_artifact_path: self.color_artifact_path.clone(),
        }
    }
}

/// Colors of the host.
#[derive(Debug, PartialEq, Eq)]
pub struct UiColorHost {
    pub accent: String,
}

/// The mathematical form of [`UiColorHost`].
#[verifier::ext_equal]
pub struct UiColorHostView {
    pub accent: Seq<char>,
}

impl View for UiColorHost {
    type V = UiColorHostView;

    open spec fn view(&self) -> UiColorHostView {
        UiColorHostView {
            accent: self.accent@,
        }
    }
}

impl Clone for UiColorHost {
    fn clone(&self) -> (copy: Self)
        ensures
            copy@ == self@,
    {
        UiColorHost {
            accent: self.accent.clone(),
        }
    }
}

/// Colors of the runtime states.
#[derive(Debug, PartialEq, Eq)]
pub struct UiColorStates {
    pub running: String,
    pub transitioning: String,
    pub pending_restart: String,
    pub error: String,
    pub denied: String,
    pub unknown: String,
}

/// The mathematical form of [`UiColorStates`].
#[verifier::ext_equal]
pub struct UiColorStatesView {
    pub running: Seq<char>,
    pub transitioning: Seq<char>,
    pub pending_restart: Seq<char>,
    pub error: Seq<char>,
    pub denied: Seq<char>,
    pub unknown: Seq<char>,
}

impl View for UiColorStates {
    type V = UiColorStatesView;

    open spec fn view(&self) -> UiColorStatesView {
        UiColorStatesView {
            running: self.running@,
            transitioning: self.transitioning@,
            pending_restart: self.pending_restart@,
            error: self.error@,
            denied: self.denied@,
            unknown: self.unknown@,
        }
    }
}

impl Clone for UiColorStates {
    fn clone(&self) -> (copy: Self)
        ensures
            copy@ == self@,
    {
        UiColorStates {
            running: self.running.clone(),
            transitioning: self.transitioning.clone(),
            pending_restart: self.pending_restart.clone(),
            error: self.error.clone(),
            denied: self.denied.clone(),
            unknown: self.unknown.clone(),
        }
    }
}

/// Colors of an environment.
#[derive(Debug, PartialEq, Eq)]
pub struct UiColorEnv {
    pub accent: String,
}

/// The mathematical form of [`UiColorEnv`].
#[verifier::ext_equal]
pub struct UiColorEnvView {
    pub accent: Seq<char>,
}

impl View for UiColorEnv {
    type V = UiColorEnvView;

    open spec fn view(&self) -> UiColorEnvView {
        UiColorEnvView {
            accent: self.accent@,
        }
    }
}

impl Clone for UiColorEnv {
    fn clone(&self) -> (copy: Self)
        ensures
            copy@ == self@,
    {
        UiColorEnv {
            accent: self.accent.clone(),
        }
    }
}

/// Border colors of a VM.
#[derive(Debug, PartialEq, Eq)]
pub struct UiColorBorder {
    pub active: String,
    pub inactive: String,
    pub urgent: String,
}

/// The mathematical form of [`UiColorBorder`].
#[verifier::ext_equal]
pub struct UiColorBorderView {
    pub active: Seq<char>,
    pub inactive: Seq<char>,
    pub urgent: Seq<char>,
}

impl View for UiColorBorder {
    type V = UiColorBorderView;

    open spec fn view(&self) -> UiColorBorderView {
        UiColorBorderView {
            active: self.active@,
            inactive: self.inactive@,
            urgent: self.urgent@,
        }
    }
}

impl Clone for UiColorBorder {
    fn clone(&self) -> (copy: Self)
        ensures
            copy@ == self@,
    {
        UiColorBorder {
            active: self.active.clone(),
            inactive: self.inactive.clone(),
            urgent: self.urgent.clone(),
        }
    }
}

/// Colors of a VM.
#[derive(Debug, PartialEq, Eq)]
pub struct UiColorVm {
    pub env: Option<String>,
    pub border: UiColorBorder,
}

/// The mathematical form of [`UiColorVm`].
#[verifier::ext_equal]
pub struct UiColorVmView {
    pub env: Option<Seq<char>>,
    pub border: UiColorBorderView,
}

impl View for UiColorVm {
    type V = UiColorVmView;

    open spec fn view(&self) -> UiColorVmView {
        UiColorVmView {
            env: opt_view(self.env),
            border: self.border@,
        }
    }
}

impl Clone for UiColorVm {
    fn clone(&self) -> (copy: Self)
        ensures
            copy@ == self@,
    {
        UiColorVm {
            env: self.env.clone(),
            border: self.border.clone(),
        }
    }
}

/// The resolved UI colors that the daemon publishes. An artifact is valid where
/// environments and VMs are listed by name.
#[derive(Debug, PartialEq, Eq)]
pub struct UiColorArtifact {
    pub version: u8,
    pub host: UiColorHost,
    pub states: UiColorStates,
    pub envs: Vec<(String, UiColorEnv)>,
    pub vms: Vec<(String, UiColorVm)>,
}

/// The mathematical form of [`UiColorArtifact`].
#[verifier::ext_equal]
pub struct UiColorArtifactView {
    pub version: u8,
    pub host: UiColorHostView,
    pub states: UiColorStatesView,
    pub envs: Seq<(Seq<char>, UiColorEnvView)>,
    pub vms: Seq<(Seq<char>, UiColorVmView)>,
}

impl View for UiColorArtifact {
    type V = UiColorArtifactView;

    open spec fn view(&self) -> UiColorArtifactView {
        UiColorArtifactView {
            version: self.version,
            host: self.host@,
            states: self.states@,
            envs: views(self.envs@),
            vms: views(self.vms@),
        }
    }
}

impl UiColorArtifactView {
    /// Environments and VMs are listed in name order, and each name once.
    pub open spec fn valid(self) -> bool {
        &&& listed_by_name(self.envs)
        &&& listed_by_name(self.vms)
    }
}

fn in_name_order<T: View>(entries: &Vec<(String, T)>) -> (yes: bool)
    ensures
        yes == listed_by_name(views(entries@)),
{
    let ghost all = views(entries@);
    let mut i: usize = 1;
    while i < entries.len()
        invariant
            1 <= i,
            all == views(entries@),
            forall|k: int|
                0 <= k < i - 1 && k < all.len() - 1 ==> text_up_to(
                    (#[trigger] all[k]).0,
                    all[k + 1].0,
                ) && all[k].0 != all[k + 1].0,
        decreases entries@.len() - i,
    {
        assert(all[i - 1] == entries@[i - 1]@ && all[i as int] == entries@[i as int]@);
        let before = entries[i - 1].0.as_str();
        let after = entries[i].0.as_str();
        if !not_after(before, after) || same_text(before, after) {
            return false;
        }
        i = i + 1;
    }
    proof {
        lemma_steps_list_by_name(all);
    }
    true
}

impl UiColorArtifact {
    /// Whether environments and VMs are listed in name order, and each name once.
    pub fn is_valid(&self) -> (yes: bool)
        ensures
            yes == self@.valid(),
    {
        in_name_order(&self.envs) && in_name_order(&self.vms)
    }
}

/// Whether `path` is acceptable as a public-socket path: not blank, and neither
/// the canonical privileged broker socket nor any file of that name.
pub open spec fn public_socket_path(path: Seq<char>) -> bool {
    let trimmed_path = trimmed(path);
    &&& trimmed_path.len() > 0
    &&& trimmed_path != "/run/d2b/priv.sock"@
    &&& path_name(trimmed_path) != Some("priv.sock"@)
}

/// Whether `path` is acceptable as a public-socket path. The privileged broker
/// socket is rejected by its canonical path and by basename, so that every
/// client shares the same fail-closed guard before connecting.
pub fn is_public_socket_path(path: &str) -> (yes: bool)
    ensures
        yes == public_socket_path(path@),
{
    let path = trim(path);
    if empty(path.as_str()) || same_text(path.as_str(), "/run/d2b/priv.sock") {
        return false;
    }
    match file_name(path.as_str()) {
        Some(name) => !same_text(name.as_str(), "priv.sock"),
        None => true,
    }
}

/// Whether a text is a normalized `#rrggbb` color.
pub open spec fn lower_hex_color(text: Seq<char>) -> bool {
    &&& text.len() == 7
    &&& text[0] == '#'
    &&& forall|i: int| 1 <= i < 7 ==> lower_hex_digit(#[trigger] text[i])
}

/// Whether a character is a lower-case hexadecimal digit.
pub open spec fn lower_hex_digit(c: char) -> bool {
    '0' <= c <= '9' || 'a' <= c <= 'f'
}

/// Whether a text is a normalized `#rrggbb` color.
pub fn is_lower_hex_color(value: &str) -> (yes: bool)
    ensures
        yes == lower_hex_color(value@),
{
    let chars = chars_of(value);
    if chars.len() != 7 || chars[0] != '#' {
        return false;
    }
    let mut i: usize = 1;
    while i < 7
        invariant
            1 <= i <= 7,
            chars@ == value@,
            chars@.len() == 7,
            forall|k: int| 1 <= k < i ==> lower_hex_digit(#[trigger] value@[k]),
        decreases 7 - i,
    {
        let c: char = chars[i];
        assert(value@[i as int] == c);
        if !(('0' <= c && c <= '9') || ('a' <= c && c <= 'f')) {
            return false;
        }
        i = i + 1;
    }
    true
}

/// Every color of the palette with its name, in declaration order.
pub open spec fn theme_fields(theme: ThemeConfigView) -> Seq<(Seq<char>, Seq<char>)> {
    seq![
        ("background"@, theme.background),
        ("surface"@, theme.surface),
        ("surface_alt"@, theme.surface_alt),
        ("foreground"@, theme.foreground),
        ("foreground_strong"@, theme.foreground_strong),
        ("foreground_disabled"@, theme.foreground_disabled),
        ("muted"@, theme.muted),
        ("border"@, theme.border),
        ("inverse_foreground"@, theme.inverse_foreground),
        ("success_surface"@, theme.success_surface),
        ("warning_surface"@, theme.warning_surface),
        ("error_surface"@, theme.error_surface),
        ("input_background"@, theme.input_background),
        ("slider_track"@, theme.slider_track),
    ]
}

/// A named value that is not a normalized color.
pub open spec fn off_color(entry: (Seq<char>, Seq<char>)) -> bool {
    !lower_hex_color(entry.1)
}

/// What is wrong with a palette: its first color that is not normalized.
pub open spec fn theme_complaint(theme: ThemeConfigView) -> Option<Seq<char>> {
    match first_where(theme_fields(theme), |entry: (Seq<char>, Seq<char>)| off_color(entry)) {
        Some(entry) => Some("theme."@ + entry.0 + " must be a normalized #rrggbb color"@),
        None => None,
    }
}

/// What is wrong with a quick-launch item.
pub open spec fn quick_launch_complaint(item: QuickLaunchConfigView) -> Option<Seq<char>> {
    if is_blank(item.id) {
        Some("quick_launch.id must not be empty"@)
    } else if is_blank(item.vm) {
        Some("quick_launch.vm must not be empty"@)
    } else if is_blank(item.icon) {
        Some("quick_launch.icon must not be empty"@)
    } else if is_blank(item.tooltip) {
        Some("quick_launch.tooltip must not be empty"@)
    } else if item.guest_argv.len() == 0 {
        Some("quick_launch.guest_argv must contain at least one argv element"@)
    } else {
        None
    }
}

/// A quick-launch item with something wrong.
pub open spec fn off_item(item: QuickLaunchConfigView) -> bool {
    quick_launch_complaint(item) is Some
}

/// What is wrong with a configuration: the first rule it breaks, in this order.
pub open spec fn config_complaint(config: ConfigView) -> Option<Seq<char>> {
    if is_blank(config.public_socket) {
        Some("public_socket must not be empty"@)
    } else if !public_socket_path(config.public_socket) {
        Some(PRIVILEGED_BROKER_SOCKET_MESSAGE@)
    } else if is_blank(config.color_artifact_path) {
        Some("color_artifact_path must not be empty"@)
    } else if config.terminal.guest_argv.len() == 0 && is_blank(config.terminal.guest_shell) {
        Some("terminal.guest_argv must contain at least one argv element"@)
    } else if config.observability.enabled && config.observability.url is Some
        && config.observability.browser_argv.len() == 0 {
        Some("observability.browser_argv must contain at least one argv element"@)
    } else if theme_complaint(config.theme) is Some {
        theme_complaint(config.theme)
    } else {
        match first_where(config.quick_launch, |item: QuickLaunchConfigView| off_item(item)) {
            Some(item) => quick_launch_complaint(item),
            None => None,
        }
    }
}

impl Default for TerminalConfig {
    fn default() -> (terminal: Self)
        ensures
            terminal@ == default_terminal(),
    {
        let terminal = TerminalConfig {
            argv: vec!["foot".to_owned(), "--".to_owned()],
            guest_shell: "bash".to_owned(),
            guest_argv: vec!["/run/current-system/sw/bin/foot".to_owned()],
        };
        assert(terminal@.argv =~= default_terminal().argv);
        assert(terminal@.guest_argv =~= default_terminal().guest_argv);
        terminal
    }
}

/// The built-in terminal launch configuration.
pub open spec fn default_terminal() -> TerminalConfigView {
    TerminalConfigView {
        argv: seq!["foot"@, "--"@],
        guest_shell: "bash"@,
        guest_argv: seq!["/run/current-system/sw/bin/foot"@],
    }
}

impl Default for ObservabilityConfig {
    fn default() -> (observability: Self)
        ensures
            observability@ == default_observability(),
    {
        let observability = ObservabilityConfig {
            enabled: true,
            url: Some("http://sys-obs:8080".to_owned()),
            browser_argv: vec!["xdg-open".to_owned()],
            success_message: "Opened observability portal".to_owned(),
        };
        assert(observability@.browser_argv =~= default_observability().browser_argv);
        observability
    }
}

/// The built-in observability portal configuration.
pub open spec fn default_observability() -> ObservabilityConfigView {
    ObservabilityConfigView {
        enabled: true,
        url: Some("http://sys-obs:8080"@),
        browser_argv: seq!["xdg-open"@],
        success_message: "Opened observability portal"@,
    }
}

impl Default for ThemeConfig {
    fn default() -> (theme: Self)
        ensures
            theme@ == default_theme(),
    {
        ThemeConfig {
            background: "#0f1117".to_owned(),
            surface: "#16181d".to_owned(),
            surface_alt: "#2a2d35".to_owned(),
            foreground: "#cdd6f4".to_owned(),
            foreground_strong: "#ffffff".to_owned(),
            foreground_disabled: "#bac2de".to_owned(),
            muted: "#9399b2".to_owned(),
            border: "#2a2d35".to_owned(),
            inverse_foreground: "#000000".to_owned(),
            success_surface: "#1a2e1a".to_owned(),
            warning_surface: "#2e2a1a".to_owned(),
            error_surface: "#2e1a1a".to_owned(),
            input_background: "#0d0d0d".to_owned(),
            slider_track: "#252832".to_owned(),
        }
    }
}

/// The built-in palette.
pub open spec fn default_theme() -> ThemeConfigView {
    ThemeConfigView {
        background: "#0f1117"@,
        surface: "#16181d"@,
        surface_alt: "#2a2d35"@,
        foreground: "#cdd6f4"@,
        foreground_strong: "#ffffff"@,
        foreground_disabled: "#bac2de"@,
        muted: "#9399b2"@,
        border: "#2a2d35"@,
        inverse_foreground: "#000000"@,
        success_surface: "#1a2e1a"@,
        warning_surface: "#2e2a1a"@,
        error_surface: "#2e1a1a"@,
        input_background: "#0d0d0d"@,
        slider_track: "#252832"@,
    }
}

impl Default for QuickLaunchConfig {
    fn default() -> (item: Self)
        ensures
            item@ == (QuickLaunchConfigView {
                id: Seq::empty(),
                vm: Seq::empty(),
                icon: Seq::empty(),
                tooltip: Seq::empty(),
                guest_argv: Seq::empty(),
            }),
    {
        QuickLaunchConfig {
            id: String::new(),
            vm: String::new(),
            icon: String::new(),
            tooltip: String::new(),
            guest_argv: Vec::new(),
        }
    }
}

/// The built-in configuration.
pub open spec fn default_config() -> ConfigView {
    ConfigView {
        public_socket: "/run/d2b/public.sock"@,
        refresh_interval_ms: 2500,
        command_timeout_ms: 10000,
        hide_net_vms: true,
        show_pending_restart: true,
        favorites: Seq::empty(),
        hidden_vms: Seq::empty(),
        terminal: default_terminal(),
        observability: default_observability(),
        theme: default_theme(),
        quick_launch: Seq::empty(),
        color_artifact_path: DEFAULT_COLOR_ARTIFACT_PATH@,
    }
}

impl Default for Config {
    fn default() -> (config: Self)
        ensures
            config@ == default_config(),
    {
        Config {
            public_socket: "/run/d2b/public.sock".to_owned(),
            refresh_interval_ms: 2500,
            command_timeout_ms: 10000,
            hide_net_vms: true,
            show_pending_restart: true,
            favorites: Vec::new(),
            hidden_vms: Vec::new(),
            terminal: TerminalConfig::default(),
            observability: ObservabilityConfig::default(),
            theme: ThemeConfig::default(),
            quick_launch: Vec::new(),
            color_artifact_path: DEFAULT_COLOR_ARTIFACT_PATH.to_owned(),
        }
    }
}

impl ThemeConfig {
    /// Every color of the palette with its name, in declaration order.
    pub fn color_fields(&self) -> (fields: Vec<(&'static str, &String)>)
        ensures
            fields@.len() == theme_fields(self@).len(),
            forall|i: int|
                0 <= i < fields@.len() ==> (#[trigger] fields@[i]).0@ == theme_fields(self@)[i].0
                    && fields@[i].1@ == theme_fields(self@)[i].1,
    {
        vec![
            ("background", &self.background),
            ("surface", &self.surface),
            ("surface_alt", &self.surface_alt),
            ("foreground", &self.foreground),
            ("foreground_strong", &self.foreground_strong),
            ("foreground_disabled", &self.foreground_disabled),
            ("muted", &self.muted),
            ("border", &self.border),
            ("inverse_foreground", &self.inverse_foreground),
            ("success_surface", &self.success_surface),
            ("warning_surface", &self.warning_surface),
            ("error_surface", &self.error_surface),
            ("input_background", &self.input_background),
            ("slider_track", &self.slider_track),
        ]
    }

    /// What is wrong with the palette, if anything.
    fn complaint(&self) -> (complaint: Option<String>)
        ensures
            opt_view(complaint) == theme_complaint(self@),
    {
        let fields = self.color_fields();
        let ghost entries = theme_fields(self@);
        let ghost off = |entry: (Seq<char>, Seq<char>)| off_color(entry);
        let mut i: usize = 0;
        while i < fields.len()
            invariant
                i <= fields@.len(),
                entries == theme_fields(self@),
                fields@.len() == entries.len(),
                off == |entry: (Seq<char>, Seq<char>)| off_color(entry),
                forall|k: int|
                    0 <= k < fields@.len() ==> (#[trigger] fields@[k]).0@ == entries[k].0
                        && fields@[k].1@ == entries[k].1,
                forall|k: int| 0 <= k < i ==> !off(#[trigger] entries[k]),
            decreases fields@.len() - i,
        {
            let (name, value) = fields[i];
            assert(fields@[i as int].1@ == entries[i as int].1);
            if !is_lower_hex_color(value.as_str()) {
                proof {
                    lemma_first_where_at(entries, off, i as int);
                }
                let mut text = "theme.".to_owned();
                text.append(name);
                text.append(" must be a normalized #rrggbb color");
                return Some(text);
            }
            i = i + 1;
        }
        proof {
            lemma_first_where_none(entries, off);
        }
        None
    }
}

impl QuickLaunchConfig {
    /// What is wrong with the item, if anything.
    fn complaint(&self) -> (complaint: Option<String>)
        ensures
            opt_view(complaint) == quick_launch_complaint(self@),
    {
        if blank(self.id.as_str()) {
            Some("quick_launch.id must not be empty".to_owned())
        } else if blank(self.vm.as_str()) {
            Some("quick_launch.vm must not be empty".to_owned())
        } else if blank(self.icon.as_str()) {
            Some("quick_launch.icon must not be empty".to_owned())
        } else if blank(self.tooltip.as_str()) {
            Some("quick_launch.tooltip must not be empty".to_owned())
        } else if self.guest_argv.len() == 0 {
            Some("quick_launch.guest_argv must contain at least one argv element".to_owned())
        } else {
            None
        }
    }
}

impl Config {
    /// Validate a loaded configuration before any command planning uses it.
    pub fn validate(&self) -> (verdict: WlResult<()>)
        ensures
            match config_complaint(self@) {
                None => verdict is Ok,
                Some(complaint) => verdict is Err && verdict->Err_0@ == WlErrorView::Config(
                    complaint,
                ),
            },
    {
        if blank(self.public_socket.as_str()) {
            return Err(WlError::Config("public_socket must not be empty".to_owned()));
        }
        if !is_public_socket_path(self.public_socket.as_str()) {
            return Err(WlError::Config(PRIVILEGED_BROKER_SOCKET_MESSAGE.to_owned()));
        }
        if blank(self.color_artifact_path.as_str()) {
            return Err(WlError::Config("color_artifact_path must not be empty".to_owned()));
        }
        if self.terminal.guest_argv.len() == 0 && blank(self.terminal.guest_shell.as_str()) {
            return Err(
                WlError::Config(
                    "terminal.guest_argv must contain at least one argv element".to_owned(),
                ),
            );
        }
        if self.observability.enabled && self.observability.url.is_some()
            && self.observability.browser_argv.len() == 0 {
            return Err(
                WlError::Config(
                    "observability.browser_argv must contain at least one argv element".to_owned(),
                ),
            );
        }
        if let Some(complaint) = self.theme.complaint() {
            return Err(WlError::Config(complaint));
        }
        let ghost items = self@.quick_launch;
        let ghost off = |item: QuickLaunchConfigView| off_item(item);
        let mut i: usize = 0;
        while i < self.quick_launch.len()
            invariant
                i <= self.quick_launch@.len(),
                items == views(self.quick_launch@),
                items == self@.quick_launch,
                off == |item: QuickLaunchConfigView| off_item(item),
                forall|k: int| 0 <= k < i ==> !off(#[trigger] items[k]),
                config_complaint(self@) == match first_where(items, off) {
                    Some(item) => quick_launch_complaint(item),
                    None => None,
                },
            decreases self.quick_launch@.len() - i,
        {
            assert(items[i as int] == self.quick_launch@[i as int]@);
            if let Some(complaint) = self.quick_launch[i].complaint() {
                proof {
                    lemma_first_where_at(items, off, i as int);
                }
                return Err(WlError::Config(complaint));
            }
            i = i + 1;
        }
        proof {
            lemma_first_where_none(items, off);
        }
        Ok(())
    }
}

/// Why the color artifact was not used.
#[derive(Debug, Clone, Copy, PartialEq, Eq, Structural)]
pub enum UiColorErrorKind {
    Missing,
    Malformed,
    UnsupportedVersion,
}

/// What came of reading the color artifact.
pub enum ColorArtifactRead {
    /// There is no such file.
    Missing,
    /// The file could not be read or parsed; the text says why.
    Unusable(String),
    /// The file holds an artifact, not validated yet.
    Parsed(UiColorArtifact),
}

/// The colors to use, and the log line to leave when there are none.
pub struct ColorLoad {
    pub colors: Option<UiColorArtifact>,
    pub log: Option<String>,
}

/// The three border colors of each VM, under the name of the VM.
pub open spec fn vm_colors(vms: Seq<(Seq<char>, UiColorVmView)>) -> Seq<(Seq<char>, Seq<char>)>
    decreases vms.len(),
{
    if vms.len() == 0 {
        Seq::empty()
    } else {
        vm_colors(vms.drop_last()).push((vms.last().0, vms.last().1.border.active)).push(
            (vms.last().0, vms.last().1.border.inactive),
        ).push((vms.last().0, vms.last().1.border.urgent))
    }
}

/// The accent of each environment, under the name of the environment.
pub open spec fn env_colors(envs: Seq<(Seq<char>, UiColorEnvView)>) -> Seq<(Seq<char>, Seq<char>)> {
    Seq::new(envs.len(), |i: int| (envs[i].0, envs[i].1.accent))
}

/// The colors of the host and of the runtime states, under their names.
pub open spec fn fixed_colors(colors: UiColorArtifactView) -> Seq<(Seq<char>, Seq<char>)> {
    seq![
        ("host.accent"@, colors.host.accent),
        ("states.running"@, colors.states.running),
        ("states.transitioning"@, colors.states.transitioning),
        ("states.pendingRestart"@, colors.states.pending_restart),
        ("states.error"@, colors.states.error),
        ("states.denied"@, colors.states.denied),
        ("states.unknown"@, colors.states.unknown),
    ]
}

/// Every color of an artifact with the name it is reported under.
pub open spec fn artifact_colors(colors: UiColorArtifactView) -> Seq<(Seq<char>, Seq<char>)> {
    fixed_colors(colors) + env_colors(colors.envs) + vm_colors(colors.vms)
}

/// What is wrong with a color artifact: its version, or else its first color
/// that is not normalized.
pub open spec fn artifact_complaint(colors: UiColorArtifactView) -> Option<
    (UiColorErrorKind, Seq<char>),
> {
    if colors.version != UI_COLOR_ARTIFACT_VERSION {
        Some(
            (
                UiColorErrorKind::UnsupportedVersion,
                "unsupported UI color artifact version "@ + decimal(colors.version as nat)
                    + "; expected "@ + decimal(UI_COLOR_ARTIFACT_VERSION as nat),
            ),
        )
    } else {
        match first_where(
            artifact_colors(colors),
            |entry: (Seq<char>, Seq<char>)| off_color(entry),
        ) {
            Some(entry) => Some(
                (
                    UiColorErrorKind::Malformed,
                    "UI color artifact field "@ + entry.0
                        + " is not a normalized #rrggbb color"@,
                ),
            ),
            None => None,
        }
    }
}

impl UiColorArtifact {
    fn color_fields(&self) -> (fields: Vec<(&str, &str)>)
        ensures
            views(fields@) == artifact_colors(self@),
    {
        let mut fields: Vec<(&str, &str)> = vec![
            ("host.accent", self.host.accent.as_str()),
            ("states.running", self.states.running.as_str()),
            ("states.transitioning", self.states.transitioning.as_str()),
            ("states.pendingRestart", self.states.pending_restart.as_str()),
            ("states.error", self.states.error.as_str()),
            ("states.denied", self.states.denied.as_str()),
            ("states.unknown", self.states.unknown.as_str()),
        ];
        assert(views(fields@) =~= fixed_colors(self@));
        let mut i: usize = 0;
        while i < self.envs.len()
            invariant
                i <= self.envs@.len(),
                views(fields@) == fixed_colors(self@) + env_colors(self@.envs).take(i as int),
            decreases self.envs@.len() - i,
        {
            let ghost before = views(fields@);
            fields.push((self.envs[i].0.as_str(), self.envs[i].1.accent.as_str()));
            assert(self@.envs[i as int] == self.envs@[i as int]@);
            assert(views(fields@) =~= before.push(env_colors(self@.envs)[i as int]));
            assert(views(fields@) =~= fixed_colors(self@) + env_colors(self@.envs).take(i + 1));
            i = i + 1;
        }
        assert(env_colors(self@.envs).take(i as int) =~= env_colors(self@.envs));
        let mut j: usize = 0;
        assert(views(fields@) =~= fixed_colors(self@) + env_colors(self@.envs) + vm_colors(
            self@.vms.take(0),
        ));
        while j < self.vms.len()
            invariant
                j <= self.vms@.len(),
                views(fields@) == fixed_colors(self@) + env_colors(self@.envs) + vm_colors(
                    self@.vms.take(j as int),
                ),
            decreases self.vms@.len() - j,
        {
            let ghost before = views(fields@);
            let name = self.vms[j].0.as_str();
            fields.push((name, self.vms[j].1.border.active.as_str()));
            fields.push((name, self.vms[j].1.border.inactive.as_str()));
            fields.push((name, self.vms[j].1.border.urgent.as_str()));
            proof {
                let vm = self.vms@[j as int]@;
                assert(self@.vms[j as int] == vm);
                assert(self@.vms.take(j + 1).drop_last() =~= self@.vms.take(j as int));
                assert(views(fields@) =~= before.push((vm.0, vm.1.border.active)).push(
                    (vm.0, vm.1.border.inactive),
                ).push((vm.0, vm.1.border.urgent)));
                assert(views(fields@) =~= fixed_colors(self@) + env_colors(self@.envs) + vm_colors(
                    self@.vms.take(j + 1),
                ));
            }
            j = j + 1;
        }
        assert(self@.vms.take(j as int) =~= self@.vms);
        fields
    }

    /// What is said of the first color that is not normalized.
    fn off_field(&self) -> (complaint: Option<String>)
        ensures
            match first_where(
                artifact_colors(self@),
                |entry: (Seq<char>, Seq<char>)| off_color(entry),
            ) {
                Some(entry) => opt_view(complaint) == Some(
                    "UI color artifact field "@ + entry.0
                        + " is not a normalized #rrggbb color"@,
                ),
                None => complaint is None,
            },
    {
        let fields = self.color_fields();
        let ghost entries = artifact_colors(self@);
        let ghost off = |entry: (Seq<char>, Seq<char>)| off_color(entry);
        let mut i: usize = 0;
        while i < fields.len()
            invariant
                i <= fields@.len(),
                views(fields@) == entries,
                entries == artifact_colors(self@),
                off == |entry: (Seq<char>, Seq<char>)| off_color(entry),
                forall|k: int| 0 <= k < i ==> !off(#[trigger] entries[k]),
            decreases fields@.len() - i,
        {
            let (name, value) = fields[i];
            assert(entries[i as int] == fields@[i as int]@);
            if !is_lower_hex_color(value) {
                proof {
                    lemma_first_where_at(entries, off, i as int);
                }
                let mut text = "UI color artifact field ".to_owned();
                text.append(name);
                text.append(" is not a normalized #rrggbb color");
                return Some(text);
            }
            i = i + 1;
        }
        proof {
            lemma_first_where_none(entries, off);
        }
        None
    }
}

/// Accepts a color artifact of the supported version whose colors are all
/// normalized. What is accepted is passed on as it stands, so that it is valid
/// where the given artifact is.
pub fn validate_ui_colors(colors: UiColorArtifact) -> (verdict: Result<
    UiColorArtifact,
    (UiColorErrorKind, String),
>)
    ensures
        match artifact_complaint(colors@) {
            None => verdict == Ok::<UiColorArtifact, (UiColorErrorKind, String)>(colors),
            Some(complaint) => verdict is Err && verdict->Err_0.0 == complaint.0
                && verdict->Err_0.1@ == complaint.1,
        },
        colors@.valid() && verdict is Ok ==> verdict->Ok_0@.valid(),
{
    if colors.version != UI_COLOR_ARTIFACT_VERSION {
        let mut text = "unsupported UI color artifact version ".to_owned();
        text.append(decimal_text(colors.version as u64).as_str());
        text.append("; expected ");
        text.append(decimal_text(UI_COLOR_ARTIFACT_VERSION as u64).as_str());
        return Err((UiColorErrorKind::UnsupportedVersion, text));
    }
    match colors.off_field() {
        Some(text) => Err((UiColorErrorKind::Malformed, text)),
        None => Ok(colors),
    }
}

/// Whether a character is a control character.
pub open spec fn is_control(c: char) -> bool {
    c <= '\u{1f}' || '\u{7f}' <= c <= '\u{9f}'
}

/// A detail fit for one log line: no control characters, at most 160 characters.
pub open spec fn sanitized(detail: Seq<char>) -> Seq<char> {
    let kept = detail.filter(|c: char| !is_control(c));
    if kept.len() <= 160 {
        kept
    } else {
        kept.take(160)
    }
}

/// A detail fit for one log line: no control characters, at most 160 characters.
pub fn sanitize_log_detail(detail: &str) -> (text: String)
    ensures
        text@ == sanitized(detail@),
{
    let chars = chars_of(detail);
    let ghost keep = |c: char| !is_control(c);
    let mut text = String::new();
    let mut count: usize = 0;
    let mut i: usize = 0;
    assert(detail@.take(0).filter(keep) =~= Seq::<char>::empty()) by {
        reveal(Seq::filter);
    }
    while i < chars.len()
        invariant
            chars@ == detail@,
            i <= chars@.len(),
            keep == |c: char| !is_control(c),
            count == text@.len(),
            count <= 160,
            text@ == sanitized(detail@.take(i as int)),
            detail@.take(i as int).filter(keep).len() <= 160 ==> text@ == detail@.take(
                i as int,
            ).filter(keep),
        decreases chars@.len() - i,
    {
        let c: char = chars[i];
        proof {
            let before = detail@.take(i as int);
            assert(detail@.take(i + 1) =~= before.push(c));
            before.lemma_filter_push(c, keep);
        }
        if !(c <= '\u{1f}' || ('\u{7f}' <= c && c <= '\u{9f}')) && count < 160 {
            assert(detail@.subrange(i as int, i + 1) =~= seq![c]);
            text.append(detail.substring_char(i, i + 1));
            count = count + 1;
        }
        assert(text@ =~= sanitized(detail@.take(i + 1)));
        i = i + 1;
    }
    assert(detail@.take(i as int) =~= detail@);
    text
}

/// How a log line names the reason.
pub open spec fn color_error_reason(kind: UiColorErrorKind) -> Seq<char> {
    match kind {
        UiColorErrorKind::Missing => "missing"@,
        UiColorErrorKind::Malformed => "malformed"@,
        UiColorErrorKind::UnsupportedVersion => "unsupported_version"@,
    }
}

/// The log line left when the color artifact at `path` is not used.
pub open spec fn color_error_text(
    kind: UiColorErrorKind,
    path: Seq<char>,
    detail: Seq<char>,
) -> Seq<char> {
    "event=ui_color_artifact_error reason="@ + color_error_reason(kind) + " path_basename="@ + (match path_name(path) {
        Some(name) => name,
        None => "unknown"@,
    }) + " detail="@ + sanitized(detail)
}

/// The log line left when the color artifact at `path` is not used.
pub fn color_error_line(kind: UiColorErrorKind, path: &str, detail: &str) -> (line: String)
    ensures
        line@ == color_error_text(kind, path@, detail@),
{
    let reason = match kind {
        UiColorErrorKind::Missing => "missing",
        UiColorErrorKind::Malformed => "malformed",
        UiColorErrorKind::UnsupportedVersion => "unsupported_version",
    };
    let mut line = "event=ui_color_artifact_error reason=".to_owned();
    line.append(reason);
    line.append(" path_basename=");
    match file_name(path) {
        Some(name) => {
            line.append(name.as_str());
        },
        None => {
            line.append("unknown");
        },
    }
    line.append(" detail=");
    line.append(sanitize_log_detail(detail).as_str());
    line
}

impl Config {
    /// Decides what to make of the color artifact that was read from
    /// `color_artifact_path`. An artifact that is missing or unusable never
    /// fails the program: there are then no colors, and a log line says why.
    pub fn load_ui_colors(&self, read: ColorArtifactRead) -> (load: ColorLoad)
        ensures
            match read {
                ColorArtifactRead::Missing => load.colors is None && opt_view(load.log) == Some(
                    color_error_text(
                        UiColorErrorKind::Missing,
                        self@.color_artifact_path,
                        "artifact is missing"@,
                    ),
                ),
                ColorArtifactRead::Unusable(detail) => load.colors is None && opt_view(load.log)
                    == Some(
                    color_error_text(
                        UiColorErrorKind::Malformed,
                        self@.color_artifact_path,
                        detail@,
                    ),
                ),
                ColorArtifactRead::Parsed(artifact) => match artifact_complaint(artifact@) {
                    None => load.colors == Some(artifact) && load.log is None,
                    Some(complaint) => load.colors is None && opt_view(load.log) == Some(
                        color_error_text(complaint.0, self@.color_artifact_path, complaint.1),
                    ),
                },
            },
            read matches ColorArtifactRead::Parsed(artifact) && artifact@.valid()
                && load.colors is Some ==> load.colors->Some_0@.valid(),
    {
        let path = self.color_artifact_path.as_str();
        match read {
            ColorArtifactRead::Missing => ColorLoad {
                colors: None,
                log: Some(color_error_line(UiColorErrorKind::Missing, path, "artifact is missing")),
            },
            ColorArtifactRead::Unusable(detail) => ColorLoad {
                colors: None,
                log: Some(color_error_line(UiColorErrorKind::Malformed, path, detail.as_str())),
            },
            ColorArtifactRead::Parsed(artifact) => match validate_ui_colors(artifact) {
                Ok(colors) => ColorLoad { colors: Some(colors), log: None },
                Err((kind, detail)) => ColorLoad {
                    colors: None,
                    log: Some(color_error_line(kind, path, detail.as_str())),
                },
            },
        }
    }
}

/// A configuration that validates never names the privileged broker socket.
pub proof fn law_valid_config_is_public(config: ConfigView)
    requires
        config_complaint(config) is None,
    ensures
        public_socket_path(config.public_socket),
{
}

/// However the directory is spelled, a path to a file called `priv.sock` is not
/// a public socket.
pub proof fn law_broker_socket_is_refused(path: Seq<char>)
    requires
        trimmed(path) == "priv.sock"@ || ends(trimmed(path), "/priv.sock"@),
    ensures
        !public_socket_path(path),
{
    reveal_strlit("priv.sock");
    reveal_strlit("/priv.sock");
    let whole = trimmed(path);
    let at = whole.len() - 9;
    if ends(whole, "/priv.sock"@) {
        let tail = whole.skip(whole.len() - 10);
        assert(tail[0] == whole[at - 1]);
        assert forall|i: int| at <= i < whole.len() implies #[trigger] whole[i] != '/' by {
            assert(whole[i] == tail[i - at + 1]);
        }
        lemma_name_start_is(whole, at);
        assert(whole.skip(at) =~= tail.skip(1));
        assert(tail.skip(1) =~= "priv.sock"@);
    } else {
        lemma_name_start_is(whole, 0);
        assert(whole.skip(0) =~= whole);
    }
}

/// The built-in configuration is valid.
pub proof fn law_default_config_is_valid()
    ensures
        config_complaint(default_config()) is None,
{
    reveal_strlit("/run/d2b/public.sock");
    reveal_strlit("/run/d2b/priv.sock");
    reveal_strlit("priv.sock");
    reveal_strlit("/etc/d2b/ui-colors.json");
    let socket = "/run/d2b/public.sock"@;
    assert(!is_white_space(socket[0]));
    lemma_trimmed_same(socket);
    lemma_name_start_is(socket, 9);
    let name = socket.skip(9);
    assert(name.len() == 11);
    assert(name[0] == 'p' && name[1] == 'u');
    assert(path_name(socket) == Some(name));
    assert(socket[10] != "/run/d2b/priv.sock"@[10]);
    assert(!is_white_space(DEFAULT_COLOR_ARTIFACT_PATH@[0]));
    reveal_strlit("#000000");
    reveal_strlit("#0d0d0d");
    reveal_strlit("#0f1117");
    reveal_strlit("#16181d");
    reveal_strlit("#1a2e1a");
    reveal_strlit("#252832");
    reveal_strlit("#2a2d35");
    reveal_strlit("#2e1a1a");
    reveal_strlit("#2e2a1a");
    reveal_strlit("#9399b2");
    reveal_strlit("#bac2de");
    reveal_strlit("#cdd6f4");
    reveal_strlit("#ffffff");
    let fields = theme_fields(default_theme());
    let off = |entry: (Seq<char>, Seq<char>)| off_color(entry);
    assert forall|i: int| 0 <= i < fields.len() implies !off(#[trigger] fields[i]) by {
        assert(lower_hex_color(fields[i].1));
    }
    lemma_first_where_none(fields, off);
    lemma_first_where_none(
        default_config().quick_launch,
        |item: QuickLaunchConfigView| off_item(item),
    );
}

} // verus!
