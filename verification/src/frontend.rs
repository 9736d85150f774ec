//! Launching the popup: where it lives, what it is told, and how it is
//! recognized.

use vstd::prelude::*;

use crate::config::{
    Config, ConfigView, ThemeConfig, ThemeConfigView, UiColorArtifact, UiColorArtifactView,
    UiColorBorder, UiColorBorderView, UiColorEnv, UiColorEnvView, UiColorStates, UiColorStatesView,
    UiColorVm, UiColorVmView,
};
use crate::error::{WlError, WlResult};
use crate::json::{
    Json, JsonView, distinct_names, member, object, to_json_text, writable, written,
};
use crate::process::{is_popup_cmdline, shows_file};
use crate::text::{opt_view, path_name, views};

verus! {

/// The file of the popup.
pub const QML_FILE: &'static str = "shell.qml";

/// The file that records the process of the popup.
pub const PID_FILE: &'static str = "quickshell.pid";

/// Which directory the popup's files live under.
#[derive(Debug, Clone, Copy, PartialEq, Eq, Structural)]
pub enum RuntimeBase {
    XdgRuntimeDir,
    TmpDir,
    /// `/tmp`.
    Tmp,
}

/// The directory by which variables are set.
pub open spec fn base_of(has_xdg_runtime_dir: bool, has_tmpdir: bool) -> RuntimeBase {
    if has_xdg_runtime_dir {
        RuntimeBase::XdgRuntimeDir
    } else if has_tmpdir {
        RuntimeBase::TmpDir
    } else {
        RuntimeBase::Tmp
    }
}

/// Chooses the directory by which variables are set.
pub fn runtime_base(has_xdg_runtime_dir: bool, has_tmpdir: bool) -> (base: RuntimeBase)
    ensures
        base == base_of(has_xdg_runtime_dir, has_tmpdir),
        base == (if has_xdg_runtime_dir {
            RuntimeBase::XdgRuntimeDir
        } else if has_tmpdir {
            RuntimeBase::TmpDir
        } else {
            RuntimeBase::Tmp
        }),
{
    if has_xdg_runtime_dir {
        RuntimeBase::XdgRuntimeDir
    } else if has_tmpdir {
        RuntimeBase::TmpDir
    } else {
        RuntimeBase::Tmp
    }
}

/// The argv of the popup.
pub open spec fn popup_command(qml_path: Seq<char>) -> Seq<Seq<char>> {
    seq!["quickshell"@, "--path"@, qml_path, "--no-duplicate"@]
}

/// The argv of the popup.
pub fn popup_argv(qml_path: &str) -> (argv: Vec<String>)
    ensures
        views(argv@) == popup_command(qml_path@),
{
    let argv: Vec<String> = vec![
        "quickshell".to_owned(),
        "--path".to_owned(),
        qml_path.to_owned(),
        "--no-duplicate".to_owned(),
    ];
    assert(views(argv@) =~= popup_command(qml_path@));
    argv
}

/// A popup is recognized by the command line it was started with, so that the
/// next invocation closes it.
pub proof fn law_popup_is_recognized(qml_path: Seq<char>)
    ensures
        is_popup_cmdline(popup_command(qml_path), qml_path),
{
    reveal_strlit("quickshell");
    let args = popup_command(qml_path);
    let program = "quickshell"@;
    crate::text::lemma_name_start_is(program, 0);
    assert(program.skip(0) =~= program);
    assert(path_name(program) == Some(program));
    assert(shows_file(args, 1, qml_path));
    assert(args[3] == "--no-duplicate"@);
}

/// The document of a palette.
pub open spec fn theme_document(theme: ThemeConfigView) -> JsonView {
    JsonView::Object(
        seq![
            member("background"@, JsonView::Text(theme.background)),
            member("surface"@, JsonView::Text(theme.surface)),
            member("surface_alt"@, JsonView::Text(theme.surface_alt)),
            member("foreground"@, JsonView::Text(theme.foreground)),
            member("foreground_strong"@, JsonView::Text(theme.foreground_strong)),
            member("foreground_disabled"@, JsonView::Text(theme.foreground_disabled)),
            member("muted"@, JsonView::Text(theme.muted)),
            member("border"@, JsonView::Text(theme.border)),
            member("inverse_foreground"@, JsonView::Text(theme.inverse_foreground)),
            member("success_surface"@, JsonView::Text(theme.success_surface)),
            member("warning_surface"@, JsonView::Text(theme.warning_surface)),
            member("error_surface"@, JsonView::Text(theme.error_surface)),
            member("input_background"@, JsonView::Text(theme.input_background)),
            member("slider_track"@, JsonView::Text(theme.slider_track)),
        ],
    )
}

fn theme_json(theme: &ThemeConfig) -> (json: Json)
    ensures
        json@ == theme_document(theme@),
{
    let json = object(
        vec![
            ("background", Json::Text(theme.background.clone())),
            ("surface", Json::Text(theme.surface.clone())),
            ("surface_alt", Json::Text(theme.surface_alt.clone())),
            ("foreground", Json::Text(theme.foreground.clone())),
            ("foreground_strong", Json::Text(theme.foreground_strong.clone())),
            ("foreground_disabled", Json::Text(theme.foreground_disabled.clone())),
            ("muted", Json::Text(theme.muted.clone())),
            ("border", Json::Text(theme.border.clone())),
            ("inverse_foreground", Json::Text(theme.inverse_foreground.clone())),
            ("success_surface", Json::Text(theme.success_surface.clone())),
            ("warning_surface", Json::Text(theme.warning_surface.clone())),
            ("error_surface", Json::Text(theme.error_surface.clone())),
            ("input_background", Json::Text(theme.input_background.clone())),
            ("slider_track", Json::Text(theme.slider_track.clone())),
        ],
    );
    assert(json@->Object_0 =~= theme_document(theme@)->Object_0);
    json
}

/// The document of the state colors.
pub open spec fn states_document(states: UiColorStatesView) -> JsonView {
    JsonView::Object(
        seq![
            member("running"@, JsonView::Text(states.running)),
            member("transitioning"@, JsonView::Text(states.transitioning)),
            member("pendingRestart"@, JsonView::Text(states.pending_restart)),
            member("error"@, JsonView::Text(states.error)),
            member("denied"@, JsonView::Text(states.denied)),
            member("unknown"@, JsonView::Text(states.unknown)),
        ],
    )
}

fn states_json(states: &UiColorStates) -> (json: Json)
    ensures
        json@ == states_document(states@),
{
    let json = object(
        vec![
            ("running", Json::Text(states.running.clone())),
            ("transitioning", Json::Text(states.transitioning.clone())),
            ("pendingRestart", Json::Text(states.pending_restart.clone())),
            ("error", Json::Text(states.error.clone())),
            ("denied", Json::Text(states.denied.clone())),
            ("unknown", Json::Text(states.unknown.clone())),
        ],
    );
    assert(json@->Object_0 =~= states_document(states@)->Object_0);
    json
}

/// The document of an accent.
pub open spec fn accent_document(accent: Seq<char>) -> JsonView {
    JsonView::Object(seq![member("accent"@, JsonView::Text(accent))])
}

fn accent_json(accent: &String) -> (json: Json)
    ensures
        json@ == accent_document(accent@),
{
    let json = object(vec![("accent", Json::Text(accent.clone()))]);
    assert(json@->Object_0 =~= accent_document(accent@)->Object_0);
    json
}

/// The document of a border.
pub open spec fn border_document(border: UiColorBorderView) -> JsonView {
    JsonView::Object(
        seq![
            member("active"@, JsonView::Text(border.active)),
            member("inactive"@, JsonView::Text(border.inactive)),
            member("urgent"@, JsonView::Text(border.urgent)),
        ],
    )
}

fn border_json(border: &UiColorBorder) -> (json: Json)
    ensures
        json@ == border_document(border@),
{
    let json = object(
        vec![
            ("active", Json::Text(border.active.clone())),
            ("inactive", Json::Text(border.inactive.clone())),
            ("urgent", Json::Text(border.urgent.clone())),
        ],
    );
    assert(json@->Object_0 =~= border_document(border@)->Object_0);
    json
}

/// The document of the colors of a VM.
pub open spec fn vm_document(vm: UiColorVmView) -> JsonView {
    JsonView::Object(
        seq![
            member(
                "env"@,
                match vm.env {
                    Some(env) => JsonView::Text(env),
                    None => JsonView::Null,
                },
            ),
            member("border"@, border_document(vm.border)),
        ],
    )
}

fn vm_json(vm: &UiColorVm) -> (json: Json)
    ensures
        json@ == vm_document(vm@),
{
    let env = match &vm.env {
        Some(env) => Json::Text(env.clone()),
        None => Json::Null,
    };
    let json = object(vec![("env", env), ("border", border_json(&vm.border))]);
    assert(json@->Object_0 =~= vm_document(vm@)->Object_0);
    json
}

/// The members for the environments.
pub open spec fn env_members(envs: Seq<(Seq<char>, UiColorEnvView)>) -> Seq<(Seq<char>, JsonView)> {
    Seq::new(envs.len(), |i: int| member(envs[i].0, accent_document(envs[i].1.accent)))
}

/// The members for the VMs.
pub open spec fn vm_members(vms: Seq<(Seq<char>, UiColorVmView)>) -> Seq<(Seq<char>, JsonView)> {
    Seq::new(vms.len(), |i: int| member(vms[i].0, vm_document(vms[i].1)))
}

fn envs_json(envs: &Vec<(String, UiColorEnv)>) -> (json: Json)
    ensures
        json@ == JsonView::Object(env_members(views(envs@))),
{
    let mut entries: Vec<(String, Json)> = Vec::new();
    let mut i: usize = 0;
    while i < envs.len()
        invariant
            i <= envs@.len(),
            entries@.len() == i,
            forall|k: int|
                0 <= k < i ==> (#[trigger] entries@[k]).0@ == envs@[k].0@ && entries@[k].1@
                    == accent_document(envs@[k].1.accent@),
        decreases envs@.len() - i,
    {
        entries.push((envs[i].0.clone(), accent_json(&envs[i].1.accent)));
        i = i + 1;
    }
    let json = Json::Object(entries);
    assert(json@->Object_0 =~= env_members(views(envs@)));
    json
}

fn vms_json(vms: &Vec<(String, UiColorVm)>) -> (json: Json)
    ensures
        json@ == JsonView::Object(vm_members(views(vms@))),
{
    let mut entries: Vec<(String, Json)> = Vec::new();
    let mut i: usize = 0;
    while i < vms.len()
        invariant
            i <= vms@.len(),
            entries@.len() == i,
            forall|k: int|
                0 <= k < i ==> (#[trigger] entries@[k]).0@ == vms@[k].0@ && entries@[k].1@
                    == vm_document(vms@[k].1@),
        decreases vms@.len() - i,
    {
        entries.push((vms[i].0.clone(), vm_json(&vms[i].1)));
        i = i + 1;
    }
    let json = Json::Object(entries);
    assert(json@->Object_0 =~= vm_members(views(vms@)));
    json
}

/// What the popup is told of the colors: the artifact, if there is one, and the
/// palette as `shell`.
pub open spec fn popup_colors(
    colors: Option<UiColorArtifactView>,
    theme: ThemeConfigView,
) -> JsonView {
    match colors {
        Some(artifact) => JsonView::Object(
            seq![
                member("version"@, JsonView::Unsigned(artifact.version as u64)),
                member("host"@, accent_document(artifact.host.accent)),
                member("states"@, states_document(artifact.states)),
                member("envs"@, JsonView::Object(env_members(artifact.envs))),
                member("vms"@, JsonView::Object(vm_members(artifact.vms))),
                member("shell"@, theme_document(theme)),
            ],
        ),
        None => JsonView::Object(seq![member("shell"@, theme_document(theme))]),
    }
}

proof fn lemma_theme_writable(theme: ThemeConfigView)
    ensures
        writable(theme_document(theme)),
{
    reveal_strlit("background");
    reveal_strlit("surface");
    reveal_strlit("surface_alt");
    reveal_strlit("foreground");
    reveal_strlit("foreground_strong");
    reveal_strlit("foreground_disabled");
    reveal_strlit("muted");
    reveal_strlit("border");
    reveal_strlit("inverse_foreground");
    reveal_strlit("success_surface");
    reveal_strlit("warning_surface");
    reveal_strlit("error_surface");
    reveal_strlit("input_background");
    reveal_strlit("slider_track");
    reveal_with_fuel(writable, 2);
    let entries = theme_document(theme)->Object_0;
    assert("background"@[0] != "foreground"@[0]);
    assert("success_surface"@[0] != "warning_surface"@[0]);
    assert(entries[0].0 == "background"@);
    assert(entries[1].0 == "surface"@);
    assert(entries[2].0 == "surface_alt"@);
    assert(entries[3].0 == "foreground"@);
    assert(entries[4].0 == "foreground_strong"@);
    assert(entries[5].0 == "foreground_disabled"@);
    assert(entries[6].0 == "muted"@);
    assert(entries[7].0 == "border"@);
    assert(entries[8].0 == "inverse_foreground"@);
    assert(entries[9].0 == "success_surface"@);
    assert(entries[10].0 == "warning_surface"@);
    assert(entries[11].0 == "error_surface"@);
    assert(entries[12].0 == "input_background"@);
    assert(entries[13].0 == "slider_track"@);
    assert(distinct_names(entries));
}

proof fn lemma_states_writable(states: UiColorStatesView)
    ensures
        writable(states_document(states)),
{
    reveal_strlit("running");
    reveal_strlit("transitioning");
    reveal_strlit("pendingRestart");
    reveal_strlit("error");
    reveal_strlit("denied");
    reveal_strlit("unknown");
    reveal_with_fuel(writable, 2);
    let entries = states_document(states)->Object_0;
    assert("running"@[0] != "unknown"@[0]);
    assert(entries[0].0 == "running"@);
    assert(entries[1].0 == "transitioning"@);
    assert(entries[2].0 == "pendingRestart"@);
    assert(entries[3].0 == "error"@);
    assert(entries[4].0 == "denied"@);
    assert(entries[5].0 == "unknown"@);
    assert(distinct_names(entries));
}

proof fn lemma_vm_writable(vm: UiColorVmView)
    ensures
        writable(vm_document(vm)),
{
    reveal_strlit("env");
    reveal_strlit("border");
    reveal_strlit("active");
    reveal_strlit("inactive");
    reveal_strlit("urgent");
    reveal_with_fuel(writable, 3);
    let border = border_document(vm.border)->Object_0;
    assert("active"@[0] != "urgent"@[0]);
    assert(border[0].0 == "active"@ && border[1].0 == "inactive"@ && border[2].0 == "urgent"@);
    assert(distinct_names(border));
    assert(writable(border_document(vm.border)));
    let entries = vm_document(vm)->Object_0;
    assert(entries[0].0 == "env"@ && entries[1].0 == "border"@);
    assert(distinct_names(entries));
}

proof fn lemma_popup_colors_writable(colors: Option<UiColorArtifactView>, theme: ThemeConfigView)
    requires
        colors is Some ==> colors->Some_0.valid(),
    ensures
        writable(popup_colors(colors, theme)),
{
    lemma_theme_writable(theme);
    let entries = popup_colors(colors, theme)->Object_0;
    if let Some(artifact) = colors {
        reveal_strlit("version");
        reveal_strlit("host");
        reveal_strlit("states");
        reveal_strlit("envs");
        reveal_strlit("vms");
        reveal_strlit("shell");
        lemma_states_writable(artifact.states);
        let envs = env_members(artifact.envs);
        assert forall|i: int| 0 <= i < envs.len() implies writable((#[trigger] envs[i]).1) by {
            lemma_accent_writable(artifact.envs[i].1.accent);
        }
        assert forall|i: int, j: int| 0 <= i < j < envs.len() implies (#[trigger] envs[i]).0 != (
        #[trigger] envs[j]).0 by {
            assert(artifact.envs[i].0 != artifact.envs[j].0);
        }
        assert(writable(JsonView::Object(envs)));
        let vms = vm_members(artifact.vms);
        assert forall|i: int| 0 <= i < vms.len() implies writable((#[trigger] vms[i]).1) by {
            lemma_vm_writable(artifact.vms[i].1);
        }
        assert forall|i: int, j: int| 0 <= i < j < vms.len() implies (#[trigger] vms[i]).0 != (
        #[trigger] vms[j]).0 by {
            assert(artifact.vms[i].0 != artifact.vms[j].0);
        }
        assert(writable(JsonView::Object(vms)));
        lemma_accent_writable(artifact.host.accent);
        assert("host"@[0] != "envs"@[0]);
        assert(entries[0].0 == "version"@ && entries[1].0 == "host"@ && entries[2].0 == "states"@
            && entries[3].0 == "envs"@ && entries[4].0 == "vms"@ && entries[5].0 == "shell"@);
        assert(distinct_names(entries));
        assert forall|i: int| 0 <= i < entries.len() implies writable(
            (#[trigger] entries[i]).1,
        ) by {}
    }
}

proof fn lemma_accent_writable(accent: Seq<char>)
    ensures
        writable(accent_document(accent)),
{
    reveal_with_fuel(writable, 2);
}

fn popup_colors_json(colors: Option<&UiColorArtifact>, theme: &ThemeConfig) -> (json: Json)
    ensures
        json@ == popup_colors(opt_view(colors), theme@),
{
    match colors {
        Some(artifact) => {
            let json = object(
                vec![
                    ("version", Json::Unsigned(artifact.version as u64)),
                    ("host", accent_json(&artifact.host.accent)),
                    ("states", states_json(&artifact.states)),
                    ("envs", envs_json(&artifact.envs)),
                    ("vms", vms_json(&artifact.vms)),
                    ("shell", theme_json(theme)),
                ],
            );
            assert(json@->Object_0 =~= popup_colors(opt_view(colors), theme@)->Object_0);
            json
        },
        None => {
            let json = object(vec![("shell", theme_json(theme))]);
            assert(json@->Object_0 =~= popup_colors(opt_view(colors), theme@)->Object_0);
            json
        },
    }
}

/// Whether the popup offers the observability portal.
pub open spec fn offers_portal(config: ConfigView) -> bool {
    config.observability.enabled && config.observability.url is Some
}

/// How the popup is told whether it offers the portal.
pub open spec fn portal_flag(config: ConfigView) -> Seq<char> {
    if offers_portal(config) {
        "1"@
    } else {
        "0"@
    }
}

/// What the popup is told through its environment.
pub struct PopupEnvironment {
    /// `D2B_WLCONTROL_THEME_JSON`.
    pub theme_json: String,
    /// `D2B_WLCONTROL_OBSERVABILITY_ENABLED`.
    pub observability_enabled: String,
    /// `D2B_WLCONTROL_OBSERVABILITY_SUCCESS`.
    pub observability_success: String,
}

/// What the popup is told through its environment.
pub fn popup_environment(config: &Config, colors: Option<&UiColorArtifact>) -> (environment:
    WlResult<PopupEnvironment>)
    requires
        colors is Some ==> colors->Some_0@.valid(),
    ensures
        environment is Ok,
        ({
            let told = environment->Ok_0;
            &&& told.theme_json@ == written(popup_colors(opt_view(colors), config@.theme))
            &&& told.observability_enabled@ == portal_flag(config@)
            &&& told.observability_enabled@ == (if offers_portal(config@) {
                "1"@
            } else {
                "0"@
            })
            &&& told.observability_success@ == config@.observability.success_message
        }),
{
    proof {
        lemma_popup_colors_writable(opt_view(colors), config@.theme);
    }
    let theme_json = match to_json_text(popup_colors_json(colors, &config.theme)) {
        Ok(text) => text,
        Err(complaint) => {
            return Err(WlError::Protocol(complaint));
        },
    };
    let enabled = config.observability.enabled && config.observability.url.is_some();
    let observability_enabled = if enabled {
        "1".to_owned()
    } else {
        "0".to_owned()
    };
    Ok(
        PopupEnvironment {
            theme_json,
            observability_enabled,
            observability_success: config.observability.success_message.clone(),
        },
    )
}

} // verus!
