use wlcontrol::qml::qml_source;

#[test]
fn qml_source_smoke_covers_runtime_contract() {
    let document = qml_source();
    assert!(document.contains("PanelWindow"));
    assert!(document.contains("id: vmListFlickable"));
    assert!(document.contains("x: vmListFlickable.width - width"));
    assert!(document.contains("property real panelTopMargin: 24"));
    assert!(document.contains("property real panelRightMargin: 24"));
    assert!(document.contains("spacing: 8"));
    assert!(document.contains("model: vm.quickLaunch || []"));
    assert!(document.contains("[\"quick-launch\", vm.name, modelData.id]"));
    assert!(document.contains("function hasCapability(vm, capability)"));
    assert!(document.contains("root.hasCapability(vm, \"storeVerify\")"));
    assert!(document.contains("root.canAdvanced(vm, \"switch\")"));
    assert!(document.contains("root.hasCapability(vm, \"usbHotplug\")"));
    assert!(document.contains("onExited: (exitCode, exitStatus)"));
    assert!(document.contains("D2B_WLCONTROL_OBSERVABILITY_ENABLED"));
    assert!(document.contains("D2B_WLCONTROL_THEME_JSON"));
    assert!(document.contains("function shellColor(name, fallback)"));
    assert!(document.contains("root.shellColor(\"surface\", \"#16181d\")"));
    assert!(document.contains("root.shellColor(\"foreground_strong\", \"#ffffff\")"));
    assert!(document.contains("root.shellColor(\"muted\", \"#9399b2\")"));
    assert!(!document.contains("D2B_WLCONTROL_STATE_COLORS"));
    assert!(!document.contains("D2B_WLCONTROL_ENV_COLORS"));
    assert!(!document.contains("D2B_WLCONTROL_HOST_ACCENT"));
    assert!(!document.contains("fallbackStateColors"));
    assert!(!document.contains("fallbackHostAccent"));
    assert!(!document.contains("property color accent: \"#89b4fa\""));
    assert!(document.contains("function stateColor(name)"));
    assert!(document.contains("return isHexColor(color) ? color : \"transparent\""));
    assert!(document.contains("function vmBorderColor(vm)"));
    assert!(document.contains(
        "const active = border && typeof border === \"object\" ? border.active : null"
    ));
    assert!(document.contains("return isHexColor(active) ? active : \"transparent\""));
    assert!(document.contains("border.color: root.vmBorderColor(vm)"));
    assert!(!document.contains("function envAccentColor"));
    assert!(!document.contains("leftAccent"));
    assert!(!document.contains("root.envAccentColor"));
    assert!(!document.contains("vmBorderTheme"));
    assert!(document.contains("root.stateColor(\"pendingRestart\")"));
    assert!(!document.contains("if (e === \"work\")"));
    assert!(!document.contains("if (e === \"personal\")"));
    assert!(document.contains("id: destructiveControls"));
    assert!(document.contains("function confirmForceStop(vm)"));
    assert!(document.contains("[\"force-stop\", vm.name]"));
    assert!(document.contains("Danger: click Force shutdown again"));
    assert!(document.contains("Force shutdown is waiting for d2b force-stop support"));
    assert!(document.contains("Requesting graceful stop"));
    assert!(document.contains("skipping graceful guest shutdown"));
    assert!(document.contains("return \"hot mic\""));
    assert!(document.contains("Speaker is off; turn speaker on to adjust volume"));
    assert!(document.contains("if (parent.dragging) {"));
    let primary_start = document
        .find("id: actionButtons")
        .expect("primary controls");
    let destructive_start = document
        .find("id: destructiveControls")
        .expect("expanded destructive controls");
    assert!(destructive_start > primary_start);
    assert!(!document[primary_start..destructive_start].contains("force-stop"));
    assert!(!document.contains("import QtQuick.Controls"));
}
