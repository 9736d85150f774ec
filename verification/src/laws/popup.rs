//! The popup: how it is started and what it is told.

use vstd::prelude::*;

use crate::config::{ConfigView, ThemeConfigView, UiColorArtifactView};
use crate::frontend::{
    RuntimeBase, base_of, offers_portal, popup_colors, popup_command, portal_flag,
};
use crate::json::JsonView;

verus! {

/// The popup is started by its program with the path of its file, once.
pub proof fn law_popup_argv(qml_path: Seq<char>)
    ensures
        popup_command(qml_path) == seq!["quickshell"@, "--path"@, qml_path, "--no-duplicate"@],
{
}

/// The popup offers the portal exactly where it is enabled and has a URL.
pub proof fn law_popup_offers_the_portal(config: ConfigView)
    ensures
        offers_portal(config) <==> config.observability.enabled && exists|url: Seq<char>|
            config.observability.url == Some(url),
{
    if config.observability.url is Some {
        assert(config.observability.url == Some(config.observability.url->Some_0));
    }
}

/// Whether a document is the palette of the popup.
pub open spec fn is_palette(document: JsonView, theme: ThemeConfigView) -> bool {
    document == JsonView::Object(
        seq![
            ("background"@, JsonView::Text(theme.background)),
            ("surface"@, JsonView::Text(theme.surface)),
            ("surface_alt"@, JsonView::Text(theme.surface_alt)),
            ("foreground"@, JsonView::Text(theme.foreground)),
            ("foreground_strong"@, JsonView::Text(theme.foreground_strong)),
            ("foreground_disabled"@, JsonView::Text(theme.foreground_disabled)),
            ("muted"@, JsonView::Text(theme.muted)),
            ("border"@, JsonView::Text(theme.border)),
            ("inverse_foreground"@, JsonView::Text(theme.inverse_foreground)),
            ("success_surface"@, JsonView::Text(theme.success_surface)),
            ("warning_surface"@, JsonView::Text(theme.warning_surface)),
            ("error_surface"@, JsonView::Text(theme.error_surface)),
            ("input_background"@, JsonView::Text(theme.input_background)),
            ("slider_track"@, JsonView::Text(theme.slider_track)),
        ],
    )
}

/// Without an artifact the popup is told its palette only.
pub proof fn law_popup_palette(theme: ThemeConfigView)
    ensures
        popup_colors(None, theme) is Object,
        popup_colors(None, theme)->Object_0.len() == 1,
        popup_colors(None, theme)->Object_0[0].0 == "shell"@,
        is_palette(popup_colors(None, theme)->Object_0[0].1, theme),
{
}

/// With an artifact the popup is told its version, the colors of the host and of the
/// states, each under its own name, those of the environments and the VMs, and its
/// palette.
pub proof fn law_popup_colors(artifact: UiColorArtifactView, theme: ThemeConfigView)
    ensures
        ({
            let document = popup_colors(Some(artifact), theme);
            let entries = document->Object_0;
            &&& document is Object
            &&& entries.len() == 6
            &&& entries[0] == ("version"@, JsonView::Unsigned(artifact.version as u64))
            &&& entries[1] == (
                "host"@,
                JsonView::Object(seq![("accent"@, JsonView::Text(artifact.host.accent))]),
            )
            &&& entries[2] == (
                "states"@,
                JsonView::Object(
                    seq![
                        ("running"@, JsonView::Text(artifact.states.running)),
                        ("transitioning"@, JsonView::Text(artifact.states.transitioning)),
                        ("pendingRestart"@, JsonView::Text(artifact.states.pending_restart)),
                        ("error"@, JsonView::Text(artifact.states.error)),
                        ("denied"@, JsonView::Text(artifact.states.denied)),
                        ("unknown"@, JsonView::Text(artifact.states.unknown)),
                    ],
                ),
            )
            &&& entries[3].0 == "envs"@
            &&& entries[3].1 is Object
            &&& entries[3].1->Object_0.len() == artifact.envs.len()
            &&& entries[4].0 == "vms"@
            &&& entries[4].1 is Object
            &&& entries[4].1->Object_0.len() == artifact.vms.len()
            &&& entries[5].0 == "shell"@
            &&& is_palette(entries[5].1, theme)
        }),
{
}

/// Each environment and each VM is told under its name: an environment with its accent,
/// a VM with its environment and its three borders.
pub proof fn law_popup_names_its_colors(
    artifact: UiColorArtifactView,
    theme: ThemeConfigView,
    i: int,
)
    ensures
        0 <= i < artifact.envs.len() ==> popup_colors(
            Some(artifact),
            theme,
        )->Object_0[3].1->Object_0[i] == (
            artifact.envs[i].0,
            JsonView::Object(seq![("accent"@, JsonView::Text(artifact.envs[i].1.accent))]),
        ),
        0 <= i < artifact.vms.len() ==> popup_colors(
            Some(artifact),
            theme,
        )->Object_0[4].1->Object_0[i] == (
            artifact.vms[i].0,
            JsonView::Object(
                seq![
                    (
                        "env"@,
                        if artifact.vms[i].1.env is Some {
                            JsonView::Text(artifact.vms[i].1.env->Some_0)
                        } else {
                            JsonView::Null
                        },
                    ),
                    (
                        "border"@,
                        JsonView::Object(
                            seq![
                                ("active"@, JsonView::Text(artifact.vms[i].1.border.active)),
                                ("inactive"@, JsonView::Text(artifact.vms[i].1.border.inactive)),
                                ("urgent"@, JsonView::Text(artifact.vms[i].1.border.urgent)),
                            ],
                        ),
                    ),
                ],
            ),
        ),
{
    if 0 <= i < artifact.vms.len() {
        let vm = artifact.vms[i].1;
        let env = if vm.env is Some {
            JsonView::Text(vm.env->Some_0)
        } else {
            JsonView::Null
        };
        let border = JsonView::Object(
            seq![
                ("active"@, JsonView::Text(vm.border.active)),
                ("inactive"@, JsonView::Text(vm.border.inactive)),
                ("urgent"@, JsonView::Text(vm.border.urgent)),
            ],
        );
        assert(crate::frontend::border_document(vm.border) == border);
        assert(crate::frontend::vm_document(vm)->Object_0 =~= seq![
            ("env"@, env),
            ("border"@, border),
        ]);
    }
}

/// The popup is told one or zero, and its files live where `XDG_RUNTIME_DIR` says, or
/// else `TMPDIR`, or else in `/tmp`.
pub proof fn law_popup_surroundings(config: ConfigView, has_tmpdir: bool)
    ensures
        portal_flag(config) == if config.observability.enabled && config.observability.url is Some {
            "1"@
        } else {
            "0"@
        },
        base_of(true, has_tmpdir) == RuntimeBase::XdgRuntimeDir,
        base_of(false, true) == RuntimeBase::TmpDir,
        base_of(false, false) == RuntimeBase::Tmp,
{
}

} // verus!
