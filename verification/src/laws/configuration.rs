//! The configuration: which ones are used, and what is said of the others.

use vstd::prelude::*;

use crate::config::{
    ConfigView, QuickLaunchConfigView, ThemeConfigView, UiColorArtifactView, UiColorErrorKind,
    artifact_colors, artifact_complaint, color_error_text, config_complaint, default_config,
    env_colors, fixed_colors, lower_hex_color, off_color, off_item, public_socket_path,
    quick_launch_complaint, sanitized, theme_complaint, theme_fields, vm_colors,
};
use crate::text::{
    decimal, is_white_space, lemma_first_where_at, lemma_first_where_holds,
    lemma_first_where_none, path_name,
};

use super::commands::{is_space, law_file_names, lemma_stripped_ends};
use super::selection::{lemma_filter_selected, selected};

verus! {

/// A path to a socket, with white space around it or not, is public exactly where the
/// file is not called `priv.sock`, in whatever directory.
pub proof fn law_socket_paths(
    before: Seq<char>,
    directory: Seq<char>,
    name: Seq<char>,
    after: Seq<char>,
)
    requires
        is_space(before),
        is_space(after),
        directory.len() > 0 ==> !is_white_space(directory[0]),
        name.len() > 0,
        !is_white_space(name.last()),
        forall|i: int| 0 <= i < name.len() ==> #[trigger] name[i] != '/',
        name != seq!['.'],
        name != seq!['.', '.'],
    ensures
        public_socket_path(before + (directory + "/"@ + name) + after) <==> name != "priv.sock"@,
{
    reveal_strlit("/");
    reveal_strlit("priv.sock");
    reveal_strlit("/run/d2b");
    reveal_strlit("/run/d2b/priv.sock");
    let path = directory + "/"@ + name;
    assert(path[0] == '/' || path[0] == directory[0]);
    assert(path.last() == name.last());
    lemma_stripped_ends(before, path, after, |c: char| is_white_space(c));
    law_file_names(directory, name);
    assert forall|i: int| 0 <= i < "priv.sock"@.len() implies #[trigger] "priv.sock"@[i] != '/' by {}
    law_file_names("/run/d2b"@, "priv.sock"@);
    assert("/run/d2b"@ + "/"@ + "priv.sock"@ =~= "/run/d2b/priv.sock"@);
}

/// An empty path is no socket.
pub proof fn law_empty_socket_paths(path: Seq<char>)
    requires
        is_space(path),
    ensures
        !public_socket_path(path),
{
    crate::text::law_blank_is_trimmed_away(path);
}

/// A color is a hash and six hexadecimal digits in small letters.
pub proof fn law_colors(text: Seq<char>)
    ensures
        lower_hex_color(text) <==> text.len() == 7 && text[0] == '#' && forall|i: int|
            1 <= i < 7 ==> "0123456789abcdef"@.contains(#[trigger] text[i]),
{
    reveal_strlit("0123456789abcdef");
    let digits = "0123456789abcdef"@;
    if lower_hex_color(text) {
        assert forall|i: int| 1 <= i < 7 implies digits.contains(#[trigger] text[i]) by {
            assert(crate::config::lower_hex_digit(text[i]));
            let c = text[i] as u32;
            let k = if c <= 57 {
                c - 48
            } else {
                c - 87
            };
            assert(digits[0] == '0' && digits[1] == '1' && digits[2] == '2' && digits[3] == '3');
            assert(digits[4] == '4' && digits[5] == '5' && digits[6] == '6' && digits[7] == '7');
            assert(digits[8] == '8' && digits[9] == '9' && digits[10] == 'a' && digits[11] == 'b');
            assert(digits[12] == 'c' && digits[13] == 'd' && digits[14] == 'e' && digits[15]
                == 'f');
            assert(digits[k] == text[i]);
        }
    }
    if text.len() == 7 && text[0] == '#' && (forall|i: int|
        1 <= i < 7 ==> digits.contains(#[trigger] text[i])) {
        assert forall|i: int| 1 <= i < 7 implies crate::config::lower_hex_digit(
            #[trigger] text[i],
        ) by {
            let k = choose|k: int| 0 <= k < digits.len() && digits[k] == text[i];
            assert(digits[k] == text[i]);
        }
    }
}

/// Whether every color of a palette is one.
pub open spec fn is_painted(theme: ThemeConfigView) -> bool {
    &&& lower_hex_color(theme.background)
    &&& lower_hex_color(theme.surface)
    &&& lower_hex_color(theme.surface_alt)
    &&& lower_hex_color(theme.foreground)
    &&& lower_hex_color(theme.foreground_strong)
    &&& lower_hex_color(theme.foreground_disabled)
    &&& lower_hex_color(theme.muted)
    &&& lower_hex_color(theme.border)
    &&& lower_hex_color(theme.inverse_foreground)
    &&& lower_hex_color(theme.success_surface)
    &&& lower_hex_color(theme.warning_surface)
    &&& lower_hex_color(theme.error_surface)
    &&& lower_hex_color(theme.input_background)
    &&& lower_hex_color(theme.slider_track)
}

proof fn lemma_painted(theme: ThemeConfigView)
    ensures
        theme_complaint(theme) is None <==> is_painted(theme),
{
    let fields = theme_fields(theme);
    let off = |entry: (Seq<char>, Seq<char>)| off_color(entry);
    lemma_first_where_holds(fields, off);
    if is_painted(theme) {
        assert forall|i: int| 0 <= i < fields.len() implies !off(#[trigger] fields[i]) by {}
        lemma_first_where_none(fields, off);
    }
    if theme_complaint(theme) is None {
        assert(!off(fields[0]) && !off(fields[1]) && !off(fields[2]) && !off(fields[3]));
        assert(!off(fields[4]) && !off(fields[5]) && !off(fields[6]) && !off(fields[7]));
        assert(!off(fields[8]) && !off(fields[9]) && !off(fields[10]) && !off(fields[11]));
        assert(!off(fields[12]) && !off(fields[13]));
    }
}

/// Whether a quick-launch item can be used: it names an id, a VM, an icon and a tooltip,
/// and has something to run.
pub open spec fn is_usable(item: QuickLaunchConfigView) -> bool {
    &&& !is_space(item.id)
    &&& !is_space(item.vm)
    &&& !is_space(item.icon)
    &&& !is_space(item.tooltip)
    &&& item.guest_argv.len() > 0
}

/// A configuration is valid exactly where it names a public socket and a color
/// artifact, can open a terminal, can open the portal where that is enabled and has a
/// URL, and every color and every quick-launch item can be used.
pub proof fn law_valid_configurations(config: ConfigView)
    ensures
        config_complaint(config) is None <==> !is_space(config.public_socket) && public_socket_path(
            config.public_socket,
        ) && !is_space(config.color_artifact_path) && (config.terminal.guest_argv.len() > 0
            || !is_space(config.terminal.guest_shell)) && (config.observability.enabled
            && config.observability.url is Some ==> config.observability.browser_argv.len() > 0)
            && is_painted(config.theme) && forall|i: int|
            0 <= i < config.quick_launch.len() ==> is_usable(#[trigger] config.quick_launch[i]),
{
    lemma_painted(config.theme);
    let off = |item: QuickLaunchConfigView| off_item(item);
    lemma_first_where_holds(config.quick_launch, off);
    if forall|i: int|
        0 <= i < config.quick_launch.len() ==> is_usable(#[trigger] config.quick_launch[i]) {
        assert forall|i: int| 0 <= i < config.quick_launch.len() implies !off(
            #[trigger] config.quick_launch[i],
        ) by {
            assert(is_usable(config.quick_launch[i]));
        }
        lemma_first_where_none(config.quick_launch, off);
    } else {
        let i = choose|i: int|
            0 <= i < config.quick_launch.len() && !is_usable(#[trigger] config.quick_launch[i]);
        assert(off(config.quick_launch[i]));
    }
}

/// What is said of a configuration that is not valid: the first rule it breaks.
pub proof fn law_complaints(config: ConfigView)
    ensures
        is_space(config.public_socket) ==> config_complaint(config) == Some(
            "public_socket must not be empty"@,
        ),
        !is_space(config.public_socket) && !public_socket_path(config.public_socket)
            ==> config_complaint(config) == Some(
            crate::config::PRIVILEGED_BROKER_SOCKET_MESSAGE@,
        ),
        public_socket_path(config.public_socket) && !is_space(config.public_socket) ==> {
            &&& is_space(config.color_artifact_path) ==> config_complaint(config) == Some(
                "color_artifact_path must not be empty"@,
            )
            &&& !is_space(config.color_artifact_path) && config.terminal.guest_argv.len() == 0
                && is_space(config.terminal.guest_shell) ==> config_complaint(config) == Some(
                "terminal.guest_argv must contain at least one argv element"@,
            )
            &&& !is_space(config.color_artifact_path) && config.terminal.guest_argv.len() > 0
                && config.observability.enabled && config.observability.url is Some
                && config.observability.browser_argv.len() == 0 ==> config_complaint(config)
                == Some("observability.browser_argv must contain at least one argv element"@)
        },
{
}

/// What is said of a palette names its first color that is none.
pub proof fn law_palette_complaints(theme: ThemeConfigView)
    ensures
        !lower_hex_color(theme.background) ==> theme_complaint(theme) == Some(
            "theme."@ + "background"@ + " must be a normalized #rrggbb color"@,
        ),
        lower_hex_color(theme.background)
            && !lower_hex_color(theme.surface) ==> theme_complaint(theme) == Some(
            "theme."@ + "surface"@ + " must be a normalized #rrggbb color"@,
        ),
        lower_hex_color(theme.background)
            && lower_hex_color(theme.surface)
            && !lower_hex_color(theme.surface_alt) ==> theme_complaint(theme) == Some(
            "theme."@ + "surface_alt"@ + " must be a normalized #rrggbb color"@,
        ),
        lower_hex_color(theme.background)
            && lower_hex_color(theme.surface)
            && lower_hex_color(theme.surface_alt)
            && !lower_hex_color(theme.foreground) ==> theme_complaint(theme) == Some(
            "theme."@ + "foreground"@ + " must be a normalized #rrggbb color"@,
        ),
        lower_hex_color(theme.background)
            && lower_hex_color(theme.surface)
            && lower_hex_color(theme.surface_alt)
            && lower_hex_color(theme.foreground)
            && !lower_hex_color(theme.foreground_strong) ==> theme_complaint(theme) == Some(
            "theme."@ + "foreground_strong"@ + " must be a normalized #rrggbb color"@,
        ),
        lower_hex_color(theme.background)
            && lower_hex_color(theme.surface)
            && lower_hex_color(theme.surface_alt)
            && lower_hex_color(theme.foreground)
            && lower_hex_color(theme.foreground_strong)
            && !lower_hex_color(theme.foreground_disabled) ==> theme_complaint(theme) == Some(
            "theme."@ + "foreground_disabled"@ + " must be a normalized #rrggbb color"@,
        ),
        lower_hex_color(theme.background)
            && lower_hex_color(theme.surface)
            && lower_hex_color(theme.surface_alt)
            && lower_hex_color(theme.foreground)
            && lower_hex_color(theme.foreground_strong)
            && lower_hex_color(theme.foreground_disabled)
            && !lower_hex_color(theme.muted) ==> theme_complaint(theme) == Some(
            "theme."@ + "muted"@ + " must be a normalized #rrggbb color"@,
        ),
        lower_hex_color(theme.background)
            && lower_hex_color(theme.surface)
            && lower_hex_color(theme.surface_alt)
            && lower_hex_color(theme.foreground)
            && lower_hex_color(theme.foreground_strong)
            && lower_hex_color(theme.foreground_disabled)
            && lower_hex_color(theme.muted)
            && !lower_hex_color(theme.border) ==> theme_complaint(theme) == Some(
            "theme."@ + "border"@ + " must be a normalized #rrggbb color"@,
        ),
        lower_hex_color(theme.background)
            && lower_hex_color(theme.surface)
            && lower_hex_color(theme.surface_alt)
            && lower_hex_color(theme.foreground)
            && lower_hex_color(theme.foreground_strong)
            && lower_hex_color(theme.foreground_disabled)
            && lower_hex_color(theme.muted)
            && lower_hex_color(theme.border)
            && !lower_hex_color(theme.inverse_foreground) ==> theme_complaint(theme) == Some(
            "theme."@ + "inverse_foreground"@ + " must be a normalized #rrggbb color"@,
        ),
        lower_hex_color(theme.background)
            && lower_hex_color(theme.surface)
            && lower_hex_color(theme.surface_alt)
            && lower_hex_color(theme.foreground)
            && lower_hex_color(theme.foreground_strong)
            && lower_hex_color(theme.foreground_disabled)
            && lower_hex_color(theme.muted)
            && lower_hex_color(theme.border)
            && lower_hex_color(theme.inverse_foreground)
            && !lower_hex_color(theme.success_surface) ==> theme_complaint(theme) == Some(
            "theme."@ + "success_surface"@ + " must be a normalized #rrggbb color"@,
        ),
        lower_hex_color(theme.background)
            && lower_hex_color(theme.surface)
            && lower_hex_color(theme.surface_alt)
            && lower_hex_color(theme.foreground)
            && lower_hex_color(theme.foreground_strong)
            && lower_hex_color(theme.foreground_disabled)
            && lower_hex_color(theme.muted)
            && lower_hex_color(theme.border)
            && lower_hex_color(theme.inverse_foreground)
            && lower_hex_color(theme.success_surface)
            && !lower_hex_color(theme.warning_surface) ==> theme_complaint(theme) == Some(
            "theme."@ + "warning_surface"@ + " must be a normalized #rrggbb color"@,
        ),
        lower_hex_color(theme.background)
            && lower_hex_color(theme.surface)
            && lower_hex_color(theme.surface_alt)
            && lower_hex_color(theme.foreground)
            && lower_hex_color(theme.foreground_strong)
            && lower_hex_color(theme.foreground_disabled)
            && lower_hex_color(theme.muted)
            && lower_hex_color(theme.border)
            && lower_hex_color(theme.inverse_foreground)
            && lower_hex_color(theme.success_surface)
            && lower_hex_color(theme.warning_surface)
            && !lower_hex_color(theme.error_surface) ==> theme_complaint(theme) == Some(
            "theme."@ + "error_surface"@ + " must be a normalized #rrggbb color"@,
        ),
        lower_hex_color(theme.background)
            && lower_hex_color(theme.surface)
            && lower_hex_color(theme.surface_alt)
            && lower_hex_color(theme.foreground)
            && lower_hex_color(theme.foreground_strong)
            && lower_hex_color(theme.foreground_disabled)
            && lower_hex_color(theme.muted)
            && lower_hex_color(theme.border)
            && lower_hex_color(theme.inverse_foreground)
            && lower_hex_color(theme.success_surface)
            && lower_hex_color(theme.warning_surface)
            && lower_hex_color(theme.error_surface)
            && !lower_hex_color(theme.input_background) ==> theme_complaint(theme) == Some(
            "theme."@ + "input_background"@ + " must be a normalized #rrggbb color"@,
        ),
        lower_hex_color(theme.background)
            && lower_hex_color(theme.surface)
            && lower_hex_color(theme.surface_alt)
            && lower_hex_color(theme.foreground)
            && lower_hex_color(theme.foreground_strong)
            && lower_hex_color(theme.foreground_disabled)
            && lower_hex_color(theme.muted)
            && lower_hex_color(theme.border)
            && lower_hex_color(theme.inverse_foreground)
            && lower_hex_color(theme.success_surface)
            && lower_hex_color(theme.warning_surface)
            && lower_hex_color(theme.error_surface)
            && lower_hex_color(theme.input_background)
            && !lower_hex_color(theme.slider_track) ==> theme_complaint(theme) == Some(
            "theme."@ + "slider_track"@ + " must be a normalized #rrggbb color"@,
        ),
{
    let fields = theme_fields(theme);
    let off = |entry: (Seq<char>, Seq<char>)| off_color(entry);
    if !lower_hex_color(theme.background) {
        lemma_first_where_at(fields, off, 0);
    } else if !lower_hex_color(theme.surface) {
        assert forall|i: int| 0 <= i < 1 implies !off(#[trigger] fields[i]) by {}
        lemma_first_where_at(fields, off, 1);
    } else if !lower_hex_color(theme.surface_alt) {
        assert forall|i: int| 0 <= i < 2 implies !off(#[trigger] fields[i]) by {}
        lemma_first_where_at(fields, off, 2);
    } else if !lower_hex_color(theme.foreground) {
        assert forall|i: int| 0 <= i < 3 implies !off(#[trigger] fields[i]) by {}
        lemma_first_where_at(fields, off, 3);
    } else if !lower_hex_color(theme.foreground_strong) {
        assert forall|i: int| 0 <= i < 4 implies !off(#[trigger] fields[i]) by {}
        lemma_first_where_at(fields, off, 4);
    } else if !lower_hex_color(theme.foreground_disabled) {
        assert forall|i: int| 0 <= i < 5 implies !off(#[trigger] fields[i]) by {}
        lemma_first_where_at(fields, off, 5);
    } else if !lower_hex_color(theme.muted) {
        assert forall|i: int| 0 <= i < 6 implies !off(#[trigger] fields[i]) by {}
        lemma_first_where_at(fields, off, 6);
    } else if !lower_hex_color(theme.border) {
        assert forall|i: int| 0 <= i < 7 implies !off(#[trigger] fields[i]) by {}
        lemma_first_where_at(fields, off, 7);
    } else if !lower_hex_color(theme.inverse_foreground) {
        assert forall|i: int| 0 <= i < 8 implies !off(#[trigger] fields[i]) by {}
        lemma_first_where_at(fields, off, 8);
    } else if !lower_hex_color(theme.success_surface) {
        assert forall|i: int| 0 <= i < 9 implies !off(#[trigger] fields[i]) by {}
        lemma_first_where_at(fields, off, 9);
    } else if !lower_hex_color(theme.warning_surface) {
        assert forall|i: int| 0 <= i < 10 implies !off(#[trigger] fields[i]) by {}
        lemma_first_where_at(fields, off, 10);
    } else if !lower_hex_color(theme.error_surface) {
        assert forall|i: int| 0 <= i < 11 implies !off(#[trigger] fields[i]) by {}
        lemma_first_where_at(fields, off, 11);
    } else if !lower_hex_color(theme.input_background) {
        assert forall|i: int| 0 <= i < 12 implies !off(#[trigger] fields[i]) by {}
        lemma_first_where_at(fields, off, 12);
    } else if !lower_hex_color(theme.slider_track) {
        assert forall|i: int| 0 <= i < 13 implies !off(#[trigger] fields[i]) by {}
        lemma_first_where_at(fields, off, 13);
    }
}

/// Of a configuration that is sound but for its colors and its items, it is said what
/// is wrong with its palette, and otherwise with its first item that cannot be used.
pub proof fn law_later_complaints(config: ConfigView, at: int)
    requires
        !is_space(config.public_socket),
        public_socket_path(config.public_socket),
        !is_space(config.color_artifact_path),
        config.terminal.guest_argv.len() > 0 || !is_space(config.terminal.guest_shell),
        config.observability.enabled && config.observability.url is Some
            ==> config.observability.browser_argv.len() > 0,
    ensures
        !is_painted(config.theme) ==> config_complaint(config) == theme_complaint(config.theme),
        is_painted(config.theme) && 0 <= at < config.quick_launch.len() && !is_usable(
            config.quick_launch[at],
        ) && (forall|k: int| 0 <= k < at ==> is_usable(#[trigger] config.quick_launch[k]))
            ==> config_complaint(config) == quick_launch_complaint(config.quick_launch[at]),
{
    lemma_painted(config.theme);
    let off = |item: QuickLaunchConfigView| off_item(item);
    if 0 <= at < config.quick_launch.len() && !is_usable(config.quick_launch[at]) && (forall|k: int|
        0 <= k < at ==> is_usable(#[trigger] config.quick_launch[k])) {
        assert forall|k: int| 0 <= k < at implies !off(#[trigger] config.quick_launch[k]) by {
            assert(is_usable(config.quick_launch[k]));
        }
        lemma_first_where_at(config.quick_launch, off, at);
    }
}

/// What is said of a quick-launch item that cannot be used: the first thing it lacks.
pub proof fn law_item_complaints(item: QuickLaunchConfigView)
    ensures
        quick_launch_complaint(item) is None <==> is_usable(item),
        is_space(item.id) ==> quick_launch_complaint(item) == Some(
            "quick_launch.id must not be empty"@,
        ),
        !is_space(item.id) && is_space(item.vm) ==> quick_launch_complaint(item) == Some(
            "quick_launch.vm must not be empty"@,
        ),
        !is_space(item.id) && !is_space(item.vm) && is_space(item.icon) ==> quick_launch_complaint(
            item,
        ) == Some("quick_launch.icon must not be empty"@),
        !is_space(item.id) && !is_space(item.vm) && !is_space(item.icon) && is_space(item.tooltip)
            ==> quick_launch_complaint(item) == Some("quick_launch.tooltip must not be empty"@),
        !is_space(item.id) && !is_space(item.vm) && !is_space(item.icon) && !is_space(item.tooltip)
            && item.guest_argv.len() == 0 ==> quick_launch_complaint(item) == Some(
            "quick_launch.guest_argv must contain at least one argv element"@,
        ),
{
}

/// The built-in configuration.
pub proof fn law_defaults()
    ensures
        ({
            let config = default_config();
            &&& config.public_socket == "/run/d2b/public.sock"@
            &&& config.refresh_interval_ms == 2500
            &&& config.command_timeout_ms == 10000
            &&& config.hide_net_vms
            &&& config.show_pending_restart
            &&& config.favorites.len() == 0
            &&& config.hidden_vms.len() == 0
            &&& config.quick_launch.len() == 0
            &&& config.color_artifact_path == "/etc/d2b/ui-colors.json"@
            &&& config.terminal.argv == seq!["foot"@, "--"@]
            &&& config.terminal.guest_shell == "bash"@
            &&& config.terminal.guest_argv == seq!["/run/current-system/sw/bin/foot"@]
            &&& config.observability.enabled
            &&& config.observability.url == Some("http://sys-obs:8080"@)
            &&& config.observability.browser_argv == seq!["xdg-open"@]
            &&& config.observability.success_message == "Opened observability portal"@
            &&& config.theme.background == "#0f1117"@
            &&& config.theme.surface == "#16181d"@
            &&& config.theme.surface_alt == "#2a2d35"@
            &&& config.theme.foreground == "#cdd6f4"@
            &&& config.theme.foreground_strong == "#ffffff"@
            &&& config.theme.foreground_disabled == "#bac2de"@
            &&& config.theme.muted == "#9399b2"@
            &&& config.theme.border == "#2a2d35"@
            &&& config.theme.inverse_foreground == "#000000"@
            &&& config.theme.success_surface == "#1a2e1a"@
            &&& config.theme.warning_surface == "#2e2a1a"@
            &&& config.theme.error_surface == "#2e1a1a"@
            &&& config.theme.input_background == "#0d0d0d"@
            &&& config.theme.slider_track == "#252832"@
        }),
{
}

/// Whether every color of an artifact is one.
pub open spec fn artifact_is_painted(colors: UiColorArtifactView) -> bool {
    &&& lower_hex_color(colors.host.accent)
    &&& lower_hex_color(colors.states.running)
    &&& lower_hex_color(colors.states.transitioning)
    &&& lower_hex_color(colors.states.pending_restart)
    &&& lower_hex_color(colors.states.error)
    &&& lower_hex_color(colors.states.denied)
    &&& lower_hex_color(colors.states.unknown)
    &&& forall|i: int|
        0 <= i < colors.envs.len() ==> lower_hex_color((#[trigger] colors.envs[i]).1.accent)
    &&& forall|i: int|
        0 <= i < colors.vms.len() ==> {
            let border = (#[trigger] colors.vms[i]).1.border;
            lower_hex_color(border.active) && lower_hex_color(border.inactive) && lower_hex_color(
                border.urgent,
            )
        }
}

proof fn lemma_vm_colors(
    vms: Seq<(Seq<char>, crate::config::UiColorVmView)>,
)
    ensures
        vm_colors(vms).len() == 3 * vms.len(),
        forall|i: int|
            #![trigger vms[i]]
            0 <= i < vms.len() ==> vm_colors(vms)[3 * i].1 == vms[i].1.border.active && vm_colors(
                vms,
            )[3 * i + 1].1 == vms[i].1.border.inactive && vm_colors(vms)[3 * i + 2].1
                == vms[i].1.border.urgent,
    decreases vms.len(),
{
    if vms.len() > 0 {
        let front = vms.drop_last();
        lemma_vm_colors(front);
        assert forall|i: int|
            #![trigger vms[i]]
            0 <= i < vms.len() implies vm_colors(vms)[3 * i].1 == vms[i].1.border.active
            && vm_colors(vms)[3 * i + 1].1 == vms[i].1.border.inactive && vm_colors(vms)[3 * i
            + 2].1 == vms[i].1.border.urgent by {
            if i < front.len() {
                assert(front[i] == vms[i]);
            }
        }
    }
}

/// A color artifact is used exactly where it is of the first version and every color in
/// it is one.
pub proof fn law_used_artifacts(colors: UiColorArtifactView)
    ensures
        artifact_complaint(colors) is None <==> colors.version == 1 && artifact_is_painted(colors),
        colors.version != 1 ==> artifact_complaint(colors) == Some(
            (
                UiColorErrorKind::UnsupportedVersion,
                "unsupported UI color artifact version "@ + decimal(colors.version as nat)
                    + "; expected "@ + decimal(1),
            ),
        ),
        colors.version == 1 && !artifact_is_painted(colors) ==> artifact_complaint(colors) is Some
            && artifact_complaint(colors)->Some_0.0 == UiColorErrorKind::Malformed,
{
    let fixed = fixed_colors(colors);
    let envs = env_colors(colors.envs);
    let vms = vm_colors(colors.vms);
    let all = artifact_colors(colors);
    let off = |entry: (Seq<char>, Seq<char>)| off_color(entry);
    lemma_vm_colors(colors.vms);
    lemma_first_where_holds(all, off);
    if artifact_is_painted(colors) {
        assert forall|i: int| 0 <= i < all.len() implies !off(#[trigger] all[i]) by {
            if i < 7 {
                assert(all[i] == fixed[i]);
            } else if i < 7 + envs.len() {
                assert(all[i] == envs[i - 7]);
                assert(lower_hex_color(colors.envs[i - 7].1.accent));
            } else {
                let k = i - 7 - envs.len();
                assert(all[i] == vms[k]);
                let v = k / 3;
                assert(0 <= v < colors.vms.len());
                let border = colors.vms[v].1.border;
                assert(k == 3 * v || k == 3 * v + 1 || k == 3 * v + 2);
            }
        }
        lemma_first_where_none(all, off);
    } else if colors.version == 1 && artifact_complaint(colors) is None {
        assert forall|i: int| 0 <= i < 7 implies lower_hex_color((#[trigger] fixed[i]).1) by {
            assert(all[i] == fixed[i]);
            assert(!off(all[i]));
        }
        assert(lower_hex_color(fixed[0].1) && lower_hex_color(fixed[1].1));
        assert(lower_hex_color(fixed[2].1) && lower_hex_color(fixed[3].1));
        assert(lower_hex_color(fixed[4].1) && lower_hex_color(fixed[5].1));
        assert(lower_hex_color(fixed[6].1));
        assert forall|i: int| 0 <= i < colors.envs.len() implies lower_hex_color(
            (#[trigger] colors.envs[i]).1.accent,
        ) by {
            assert(all[7 + i] == envs[i]);
            assert(!off(all[7 + i]));
        }
        assert forall|i: int| 0 <= i < colors.vms.len() implies {
            let border = (#[trigger] colors.vms[i]).1.border;
            lower_hex_color(border.active) && lower_hex_color(border.inactive) && lower_hex_color(
                border.urgent,
            )
        } by {
            let base = 7 + envs.len() + 3 * i;
            assert(all[base] == vms[3 * i]);
            assert(all[base + 1] == vms[3 * i + 1]);
            assert(all[base + 2] == vms[3 * i + 2]);
            assert(!off(all[base]) && !off(all[base + 1]) && !off(all[base + 2]));
        }
    }
}

/// Whether an artifact is refused for the color of a name.
pub open spec fn is_off(colors: UiColorArtifactView, name: Seq<char>) -> bool {
    artifact_complaint(colors) == Some(
        (
            UiColorErrorKind::Malformed,
            "UI color artifact field "@ + name + " is not a normalized #rrggbb color"@,
        ),
    )
}

/// What is said of an artifact names its first color that is none.
pub proof fn law_artifact_complaints(colors: UiColorArtifactView)
    requires
        colors.version == 1,
    ensures
        !lower_hex_color(colors.host.accent) ==> is_off(colors, "host.accent"@),
        lower_hex_color(colors.host.accent)
            && !lower_hex_color(colors.states.running) ==> is_off(colors, "states.running"@),
        lower_hex_color(colors.host.accent)
            && lower_hex_color(colors.states.running)
            && !lower_hex_color(colors.states.transitioning) ==> is_off(colors, "states.transitioning"@),
        lower_hex_color(colors.host.accent)
            && lower_hex_color(colors.states.running)
            && lower_hex_color(colors.states.transitioning)
            && !lower_hex_color(colors.states.pending_restart) ==> is_off(colors, "states.pendingRestart"@),
        lower_hex_color(colors.host.accent)
            && lower_hex_color(colors.states.running)
            && lower_hex_color(colors.states.transitioning)
            && lower_hex_color(colors.states.pending_restart)
            && !lower_hex_color(colors.states.error) ==> is_off(colors, "states.error"@),
        lower_hex_color(colors.host.accent)
            && lower_hex_color(colors.states.running)
            && lower_hex_color(colors.states.transitioning)
            && lower_hex_color(colors.states.pending_restart)
            && lower_hex_color(colors.states.error)
            && !lower_hex_color(colors.states.denied) ==> is_off(colors, "states.denied"@),
        lower_hex_color(colors.host.accent)
            && lower_hex_color(colors.states.running)
            && lower_hex_color(colors.states.transitioning)
            && lower_hex_color(colors.states.pending_restart)
            && lower_hex_color(colors.states.error)
            && lower_hex_color(colors.states.denied)
            && !lower_hex_color(colors.states.unknown) ==> is_off(colors, "states.unknown"@),
{
    let fixed = fixed_colors(colors);
    let all = artifact_colors(colors);
    let off = |entry: (Seq<char>, Seq<char>)| off_color(entry);
    if !lower_hex_color(colors.host.accent) {
        assert(all[0] == fixed[0]);
        lemma_first_where_at(all, off, 0);
    } else if !lower_hex_color(colors.states.running) {
        assert forall|i: int| 0 <= i < 1 implies !off(#[trigger] all[i]) by {
            assert(all[i] == fixed[i]);
        }
        assert(all[1] == fixed[1]);
        lemma_first_where_at(all, off, 1);
    } else if !lower_hex_color(colors.states.transitioning) {
        assert forall|i: int| 0 <= i < 2 implies !off(#[trigger] all[i]) by {
            assert(all[i] == fixed[i]);
        }
        assert(all[2] == fixed[2]);
        lemma_first_where_at(all, off, 2);
    } else if !lower_hex_color(colors.states.pending_restart) {
        assert forall|i: int| 0 <= i < 3 implies !off(#[trigger] all[i]) by {
            assert(all[i] == fixed[i]);
        }
        assert(all[3] == fixed[3]);
        lemma_first_where_at(all, off, 3);
    } else if !lower_hex_color(colors.states.error) {
        assert forall|i: int| 0 <= i < 4 implies !off(#[trigger] all[i]) by {
            assert(all[i] == fixed[i]);
        }
        assert(all[4] == fixed[4]);
        lemma_first_where_at(all, off, 4);
    } else if !lower_hex_color(colors.states.denied) {
        assert forall|i: int| 0 <= i < 5 implies !off(#[trigger] all[i]) by {
            assert(all[i] == fixed[i]);
        }
        assert(all[5] == fixed[5]);
        lemma_first_where_at(all, off, 5);
    } else if !lower_hex_color(colors.states.unknown) {
        assert forall|i: int| 0 <= i < 6 implies !off(#[trigger] all[i]) by {
            assert(all[i] == fixed[i]);
        }
        assert(all[6] == fixed[6]);
        lemma_first_where_at(all, off, 6);
    }
}

/// What goes into a log line has no control characters, keeps all else in its order,
/// and stops after 160 characters.
pub proof fn law_log_details(detail: Seq<char>) -> (kept: Seq<char>)
    ensures
        selected(
            detail,
            kept,
            |c: char| !(c <= '\u{1f}' || '\u{7f}' <= c <= '\u{9f}'),
        ),
        kept.len() <= 160 ==> sanitized(detail) == kept,
        kept.len() > 160 ==> sanitized(detail) == kept.take(160),
{
    let keep = |c: char| !crate::config::is_control(c);
    let plain = |c: char| !(c <= '\u{1f}' || '\u{7f}' <= c <= '\u{9f}');
    assert(keep =~= plain);
    lemma_filter_selected(detail, keep);
    detail.filter(keep)
}

/// The log line of an artifact that is not used tells why, the name of its file and the
/// detail.
pub proof fn law_artifact_log_lines(path: Seq<char>, detail: Seq<char>)
    ensures
        ({
            let name = if path_name(path) is Some {
                path_name(path)->Some_0
            } else {
                "unknown"@
            };
            let tail = " path_basename="@ + name + " detail="@ + sanitized(detail);
            let head = "event=ui_color_artifact_error reason="@;
            &&& color_error_text(UiColorErrorKind::Missing, path, detail) == head + "missing"@
                + tail
            &&& color_error_text(UiColorErrorKind::Malformed, path, detail) == head + "malformed"@
                + tail
            &&& color_error_text(UiColorErrorKind::UnsupportedVersion, path, detail) == head
                + "unsupported_version"@ + tail
        }),
{
    let name = if path_name(path) is Some {
        path_name(path)->Some_0
    } else {
        "unknown"@
    };
    let tail = " path_basename="@ + name + " detail="@ + sanitized(detail);
    let head = "event=ui_color_artifact_error reason="@;
    assert(color_error_text(UiColorErrorKind::Missing, path, detail) =~= head + "missing"@ + tail);
    assert(color_error_text(UiColorErrorKind::Malformed, path, detail) =~= head + "malformed"@
        + tail);
    assert(color_error_text(UiColorErrorKind::UnsupportedVersion, path, detail) =~= head
        + "unsupported_version"@ + tail);
}

} // verus!
