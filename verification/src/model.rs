//! The domain contract of the control surface.
//!
//! The protocol client produces the fragments that the reducer turns into a
//! [`WlState`]; the Waybar module and the control centre render it; the planner
//! resolves an [`ActionKind`] into a [`PlannedAction`].

use vstd::prelude::*;

use crate::text::{opt_view, views};

verus! {

/// Effective operator authorization.
///
/// Lifecycle, USB and guest actions need `Admin`; building needs `Launcher`.
#[derive(Debug, Clone, Copy, PartialEq, Eq, Structural)]
pub enum AuthRole {
    /// No recognized role.
    NoRole,
    /// Lifecycle launcher.
    Launcher,
    /// Full admin.
    Admin,
}

/// Reduced runtime state of a VM. Inconsistent or unreadable inputs reduce to
/// `Unknown`, never to a false-healthy `Running`.
#[derive(Debug, Clone, Copy, PartialEq, Eq, Structural)]
pub enum RuntimeState {
    /// Process alive and, where applicable, api-ready.
    Running,
    /// Process alive but readiness not yet confirmed.
    Starting,
    /// Stop in progress.
    Stopping,
    /// Declared but not running.
    Stopped,
    /// State could not be determined.
    Unknown,
}

/// Connectivity and authorization posture of the whole control surface.
#[derive(Debug, Clone, Copy, PartialEq, Eq, Structural)]
pub enum Connectivity {
    /// Public socket reachable and a role was resolved.
    Connected,
    /// Public socket reachable but no role.
    AuthDenied,
    /// The daemon is unreachable.
    DaemonDown,
}

/// One direction of audio forwarding.
#[derive(Debug, Clone, Copy, PartialEq, Eq, Structural)]
pub enum AudioChannel {
    Microphone,
    Speaker,
}

/// Per-VM feature toggles surfaced for display and control gating.
#[derive(Debug, Clone, Copy, PartialEq, Eq, Structural)]
pub struct VmFeatures {
    pub graphics: bool,
    pub tpm: bool,
    pub usbip: bool,
    /// The VM declares audio forwarding.
    pub audio: bool,
}

/// Which operations the runtime of a VM supports.
#[derive(Debug, Clone, Copy, PartialEq, Eq, Structural)]
pub struct VmCapabilities {
    pub start: bool,
    pub stop: bool,
    pub restart: bool,
    pub switch: bool,
    pub build: bool,
    pub boot: bool,
    pub usb_hotplug: bool,
    pub store_verify: bool,
    pub terminal: bool,
}

/// Level and mute state of one audio channel.
#[derive(Debug, Clone, Copy, PartialEq, Eq, Structural)]
pub struct AudioChannelState {
    /// Level in percent, when the provider reports one.
    pub level: Option<u8>,
    pub muted: bool,
}

/// Audio state of a VM as the daemon reports it.
#[derive(Debug, PartialEq, Eq)]
pub struct VmAudioState {
    pub speaker: AudioChannelState,
    pub microphone: AudioChannelState,
    /// What kind of provider reported the state.
    pub provider_kind: Option<String>,
    /// Where the state is enforced, such as `host-and-guest` or `unknown`.
    pub enforcement: String,
    /// Why the state could not be read.
    pub error_kind: Option<String>,
    /// What the operator can do about it.
    pub remediation: Option<String>,
}

/// The mathematical form of [`VmAudioState`].
#[verifier::ext_equal]
pub struct VmAudioStateView {
    pub speaker: AudioChannelState,
    pub microphone: AudioChannelState,
    pub provider_kind: Option<Seq<char>>,
    pub enforcement: Seq<char>,
    pub error_kind: Option<Seq<char>>,
    pub remediation: Option<Seq<char>>,
}

impl View for VmAudioState {
    type V = VmAudioStateView;

    open spec fn view(&self) -> VmAudioStateView {
        VmAudioStateView {
            speaker: self.speaker,
            microphone: self.microphone,
            provider_kind: opt_view(self.provider_kind),
            enforcement: self.enforcement@,
            error_kind: opt_view(self.error_kind),
            remediation: opt_view(self.remediation),
        }
    }
}

impl Clone for VmAudioState {
    fn clone(&self) -> (copy: Self)
        ensures
            copy@ == self@,
    {
        VmAudioState {
            speaker: self.speaker,
            microphone: self.microphone,
            provider_kind: self.provider_kind.clone(),
            enforcement: self.enforcement.clone(),
            error_kind: self.error_kind.clone(),
            remediation: self.remediation.clone(),
        }
    }
}

/// A USB busid claim.
#[derive(Debug, PartialEq, Eq)]
pub struct UsbClaim {
    /// VM the claim is declared for.
    pub vm: String,
    /// Environment the claim belongs to.
    pub env: String,
    /// Host USB busid in canonical `B-P[.P...]` form.
    pub bus_id: String,
    /// Whether the device is currently bound.
    pub bound: bool,
    /// The VM currently holding the device, if any.
    pub owner_vm: Option<String>,
}

/// The mathematical form of [`UsbClaim`].
#[verifier::ext_equal]
pub struct UsbClaimView {
    pub vm: Seq<char>,
    pub env: Seq<char>,
    pub bus_id: Seq<char>,
    pub bound: bool,
    pub owner_vm: Option<Seq<char>>,
}

impl View for UsbClaim {
    type V = UsbClaimView;

    open spec fn view(&self) -> UsbClaimView {
        UsbClaimView {
            vm: self.vm@,
            env: self.env@,
            bus_id: self.bus_id@,
            bound: self.bound,
            owner_vm: opt_view(self.owner_vm),
        }
    }
}

impl Clone for UsbClaim {
    fn clone(&self) -> (copy: Self)
        ensures
            copy@ == self@,
    {
        UsbClaim {
            vm: self.vm.clone(),
            env: self.env.clone(),
            bus_id: self.bus_id.clone(),
            bound: self.bound,
            owner_vm: self.owner_vm.clone(),
        }
    }
}

/// A quick-launch icon shown on a VM.
#[derive(Debug, PartialEq, Eq)]
pub struct QuickLaunchIcon {
    pub id: String,
    pub icon: String,
    pub tooltip: String,
}

/// The mathematical form of [`QuickLaunchIcon`].
#[verifier::ext_equal]
pub struct QuickLaunchIconView {
    pub id: Seq<char>,
    pub icon: Seq<char>,
    pub tooltip: Seq<char>,
}

impl View for QuickLaunchIcon {
    type V = QuickLaunchIconView;

    open spec fn view(&self) -> QuickLaunchIconView {
        QuickLaunchIconView {
            id: self.id@,
            icon: self.icon@,
            tooltip: self.tooltip@,
        }
    }
}

impl Clone for QuickLaunchIcon {
    fn clone(&self) -> (copy: Self)
        ensures
            copy@ == self@,
    {
        QuickLaunchIcon {
            id: self.id.clone(),
            icon: self.icon.clone(),
            tooltip: self.tooltip.clone(),
        }
    }
}

/// A normalized VM as presented to the UI surfaces.
#[derive(Debug, PartialEq, Eq)]
pub struct Vm {
    /// VM name as declared.
    pub name: String,
    /// Environment name, if known.
    pub env: Option<String>,
    /// Reduced runtime state.
    pub state: RuntimeState,
    /// True for framework-declared net VMs.
    pub is_net_vm: bool,
    /// True for a net VM that user configuration shows on compact surfaces.
    pub net_shown: bool,
    /// True when user configuration hides this VM from compact surfaces.
    pub hidden: bool,
    /// True when the running closure differs from the declared closure.
    pub pending_restart: bool,
    /// Declared feature toggles.
    pub features: VmFeatures,
    /// Operations the runtime supports.
    pub capabilities: VmCapabilities,
    /// Static IP, when declared.
    pub static_ip: Option<String>,
    /// Readiness hints for the detail view.
    pub readiness: Vec<String>,
    /// USB claims associated with this VM.
    pub usb: Vec<UsbClaim>,
    /// Configured quick-launch icons.
    pub quick_launch: Vec<QuickLaunchIcon>,
    /// Audio state, when reported.
    pub audio: Option<VmAudioState>,
}

/// The mathematical form of [`Vm`].
#[verifier::ext_equal]
pub struct VmView {
    pub name: Seq<char>,
    pub env: Option<Seq<char>>,
    pub state: RuntimeState,
    pub is_net_vm: bool,
    pub net_shown: bool,
    pub hidden: bool,
    pub pending_restart: bool,
    pub features: VmFeatures,
    pub capabilities: VmCapabilities,
    pub static_ip: Option<Seq<char>>,
    pub readiness: Seq<Seq<char>>,
    pub usb: Seq<UsbClaimView>,
    pub quick_launch: Seq<QuickLaunchIconView>,
    pub audio: Option<VmAudioStateView>,
}

impl View for Vm {
    type V = VmView;

    open spec fn view(&self) -> VmView {
        VmView {
            name: self.name@,
            env: opt_view(self.env),
            state: self.state,
            is_net_vm: self.is_net_vm,
            net_shown: self.net_shown,
            hidden: self.hidden,
            pending_restart: self.pending_restart,
            features: self.features,
            capabilities: self.capabilities,
            static_ip: opt_view(self.static_ip),
            readiness: views(self.readiness@),
            usb: views(self.usb@),
            quick_launch: views(self.quick_launch@),
            audio: opt_view(self.audio),
        }
    }
}

impl Clone for Vm {
    fn clone(&self) -> (copy: Self)
        ensures
            copy@ == self@,
    {
        Vm {
            name: self.name.clone(),
            env: self.env.clone(),
            state: self.state,
            is_net_vm: self.is_net_vm,
            net_shown: self.net_shown,
            hidden: self.hidden,
            pending_restart: self.pending_restart,
            features: self.features,
            capabilities: self.capabilities,
            static_ip: self.static_ip.clone(),
            readiness: self.readiness.clone(),
            usb: self.usb.clone(),
            quick_launch: self.quick_launch.clone(),
            audio: self.audio.clone(),
        }
    }
}

/// The aggregate, reduced control-surface state that every surface renders.
#[derive(Debug, PartialEq, Eq)]
pub struct WlState {
    /// Connectivity and authorization posture.
    pub connectivity: Connectivity,
    /// Effective operator role.
    pub role: AuthRole,
    /// All known VMs, net VMs and hidden ones among them.
    pub vms: Vec<Vm>,
    /// True when this state was served from cache after a failed refresh.
    pub stale: bool,
    /// Optional human-facing note.
    pub note: Option<String>,
}

/// The mathematical form of [`WlState`].
#[verifier::ext_equal]
pub struct WlStateView {
    pub connectivity: Connectivity,
    pub role: AuthRole,
    pub vms: Seq<VmView>,
    pub stale: bool,
    pub note: Option<Seq<char>>,
}

impl View for WlState {
    type V = WlStateView;

    open spec fn view(&self) -> WlStateView {
        WlStateView {
            connectivity: self.connectivity,
            role: self.role,
            vms: views(self.vms@),
            stale: self.stale,
            note: opt_view(self.note),
        }
    }
}

impl Clone for WlState {
    fn clone(&self) -> (copy: Self)
        ensures
            copy@ == self@,
    {
        WlState {
            connectivity: self.connectivity,
            role: self.role,
            vms: self.vms.clone(),
            stale: self.stale,
            note: self.note.clone(),
        }
    }
}

/// The operations the control surface can request.
#[derive(Debug, PartialEq, Eq)]
pub enum ActionKind {
    /// Refresh the reduced state.
    Refresh,
    /// Start a VM.
    Start { vm: String },
    /// Stop a VM gracefully.
    Stop { vm: String },
    /// Stop a VM without waiting for the guest.
    ForceStop { vm: String },
    /// Restart a VM.
    Restart { vm: String },
    /// Activate the VM's current closure.
    Switch { vm: String },
    /// Build a VM without activating it.
    Build { vm: String },
    /// Stage a VM closure for the next boot.
    Boot { vm: String },
    /// Run a configured quick-launch command in the guest.
    QuickLaunch { vm: String, id: String },
    /// Bind a USB busid to a VM.
    UsbAttach { vm: String, bus_id: String },
    /// Unbind a USB busid from a VM.
    UsbDetach { vm: String, bus_id: String },
    /// Verify the per-VM store live pool.
    StoreVerify { vm: String },
    /// Launch a terminal in the guest.
    LaunchTerminal { vm: String },
    /// Toggle microphone forwarding.
    AudioMic { vm: String, on: bool },
    /// Toggle speaker forwarding.
    AudioSpeaker { vm: String, on: bool },
    /// Set the speaker volume.
    AudioSpeakerVolume { vm: String, level_percent: u8 },
    /// Set the microphone gain.
    AudioMicGain { vm: String, level_percent: u8 },
    /// Disable all audio forwarding.
    AudioOff { vm: String },
    /// Open or focus the control centre.
    OpenControlCenter,
    /// Open the observability portal.
    OpenObservability,
    /// Cycle the Waybar compact/detail display mode.
    CycleDisplay,
}

/// The mathematical form of [`ActionKind`].
#[verifier::ext_equal]
pub enum ActionKindView {
    Refresh,
    Start { vm: Seq<char> },
    Stop { vm: Seq<char> },
    ForceStop { vm: Seq<char> },
    Restart { vm: Seq<char> },
    Switch { vm: Seq<char> },
    Build { vm: Seq<char> },
    Boot { vm: Seq<char> },
    QuickLaunch { vm: Seq<char>, id: Seq<char> },
    UsbAttach { vm: Seq<char>, bus_id: Seq<char> },
    UsbDetach { vm: Seq<char>, bus_id: Seq<char> },
    StoreVerify { vm: Seq<char> },
    LaunchTerminal { vm: Seq<char> },
    AudioMic { vm: Seq<char>, on: bool },
    AudioSpeaker { vm: Seq<char>, on: bool },
    AudioSpeakerVolume { vm: Seq<char>, level_percent: u8 },
    AudioMicGain { vm: Seq<char>, level_percent: u8 },
    AudioOff { vm: Seq<char> },
    OpenControlCenter,
    OpenObservability,
    CycleDisplay,
}

impl View for ActionKind {
    type V = ActionKindView;

    open spec fn view(&self) -> ActionKindView {
        match self {
            ActionKind::Refresh => ActionKindView::Refresh,
            ActionKind::Start { vm } => ActionKindView::Start { vm: vm@ },
            ActionKind::Stop { vm } => ActionKindView::Stop { vm: vm@ },
            ActionKind::ForceStop { vm } => ActionKindView::ForceStop { vm: vm@ },
            ActionKind::Restart { vm } => ActionKindView::Restart { vm: vm@ },
            ActionKind::Switch { vm } => ActionKindView::Switch { vm: vm@ },
            ActionKind::Build { vm } => ActionKindView::Build { vm: vm@ },
            ActionKind::Boot { vm } => ActionKindView::Boot { vm: vm@ },
            ActionKind::QuickLaunch { vm, id } => ActionKindView::QuickLaunch { vm: vm@, id: id@ },
            ActionKind::UsbAttach { vm, bus_id } => ActionKindView::UsbAttach {
                vm: vm@,
                bus_id: bus_id@,
            },
            ActionKind::UsbDetach { vm, bus_id } => ActionKindView::UsbDetach {
                vm: vm@,
                bus_id: bus_id@,
            },
            ActionKind::StoreVerify { vm } => ActionKindView::StoreVerify { vm: vm@ },
            ActionKind::LaunchTerminal { vm } => ActionKindView::LaunchTerminal { vm: vm@ },
            ActionKind::AudioMic { vm, on } => ActionKindView::AudioMic { vm: vm@, on: *on },
            ActionKind::AudioSpeaker { vm, on } => ActionKindView::AudioSpeaker {
                vm: vm@,
                on: *on,
            },
            ActionKind::AudioSpeakerVolume { vm, level_percent } => ActionKindView::AudioSpeakerVolume {
                vm: vm@,
                level_percent: *level_percent,
            },
            ActionKind::AudioMicGain { vm, level_percent } => ActionKindView::AudioMicGain {
                vm: vm@,
                level_percent: *level_percent,
            },
            ActionKind::AudioOff { vm } => ActionKindView::AudioOff { vm: vm@ },
            ActionKind::OpenControlCenter => ActionKindView::OpenControlCenter,
            ActionKind::OpenObservability => ActionKindView::OpenObservability,
            ActionKind::CycleDisplay => ActionKindView::CycleDisplay,
        }
    }
}

impl Clone for ActionKind {
    fn clone(&self) -> (copy: Self)
        ensures
            copy@ == self@,
    {
        match self {
            ActionKind::Refresh => ActionKind::Refresh,
            ActionKind::Start { vm } => ActionKind::Start { vm: vm.clone() },
            ActionKind::Stop { vm } => ActionKind::Stop { vm: vm.clone() },
            ActionKind::ForceStop { vm } => ActionKind::ForceStop { vm: vm.clone() },
            ActionKind::Restart { vm } => ActionKind::Restart { vm: vm.clone() },
            ActionKind::Switch { vm } => ActionKind::Switch { vm: vm.clone() },
            ActionKind::Build { vm } => ActionKind::Build { vm: vm.clone() },
            ActionKind::Boot { vm } => ActionKind::Boot { vm: vm.clone() },
            ActionKind::QuickLaunch { vm, id } => ActionKind::QuickLaunch {
                vm: vm.clone(),
                id: id.clone(),
            },
            ActionKind::UsbAttach { vm, bus_id } => ActionKind::UsbAttach {
                vm: vm.clone(),
                bus_id: bus_id.clone(),
            },
            ActionKind::UsbDetach { vm, bus_id } => ActionKind::UsbDetach {
                vm: vm.clone(),
                bus_id: bus_id.clone(),
            },
            ActionKind::StoreVerify { vm } => ActionKind::StoreVerify { vm: vm.clone() },
            ActionKind::LaunchTerminal { vm } => ActionKind::LaunchTerminal { vm: vm.clone() },
            ActionKind::AudioMic { vm, on } => ActionKind::AudioMic { vm: vm.clone(), on: *on },
            ActionKind::AudioSpeaker { vm, on } => ActionKind::AudioSpeaker {
                vm: vm.clone(),
                on: *on,
            },
            ActionKind::AudioSpeakerVolume { vm, level_percent } => ActionKind::AudioSpeakerVolume {
                vm: vm.clone(),
                level_percent: *level_percent,
            },
            ActionKind::AudioMicGain { vm, level_percent } => ActionKind::AudioMicGain {
                vm: vm.clone(),
                level_percent: *level_percent,
            },
            ActionKind::AudioOff { vm } => ActionKind::AudioOff { vm: vm.clone() },
            ActionKind::OpenControlCenter => ActionKind::OpenControlCenter,
            ActionKind::OpenObservability => ActionKind::OpenObservability,
            ActionKind::CycleDisplay => ActionKind::CycleDisplay,
        }
    }
}

/// Why an action is not currently available.
#[derive(Debug, PartialEq, Eq)]
pub enum Unavailable {
    /// The daemon is unreachable.
    DaemonDown,
    /// Caller role is insufficient for this action.
    InsufficientRole { required: AuthRole },
    /// The target VM is not in a state that allows the action.
    VmState { detail: String },
    /// USB device is owned by another VM.
    UsbOwnedElsewhere { owner: String },
    /// Backed by a daemon surface that is not yet implemented.
    NotYetImplemented,
    /// Generic block with a human-facing detail.
    Blocked { detail: String },
}

/// The mathematical form of [`Unavailable`].
#[verifier::ext_equal]
pub enum UnavailableView {
    DaemonDown,
    InsufficientRole { required: AuthRole },
    VmState { detail: Seq<char> },
    UsbOwnedElsewhere { owner: Seq<char> },
    NotYetImplemented,
    Blocked { detail: Seq<char> },
}

impl View for Unavailable {
    type V = UnavailableView;

    open spec fn view(&self) -> UnavailableView {
        match self {
            Unavailable::DaemonDown => UnavailableView::DaemonDown,
            Unavailable::InsufficientRole { required } => UnavailableView::InsufficientRole {
                required: *required,
            },
            Unavailable::VmState { detail } => UnavailableView::VmState { detail: detail@ },
            Unavailable::UsbOwnedElsewhere { owner } => UnavailableView::UsbOwnedElsewhere {
                owner: owner@,
            },
            Unavailable::NotYetImplemented => UnavailableView::NotYetImplemented,
            Unavailable::Blocked { detail } => UnavailableView::Blocked { detail: detail@ },
        }
    }
}

impl Clone for Unavailable {
    fn clone(&self) -> (copy: Self)
        ensures
            copy@ == self@,
    {
        match self {
            Unavailable::DaemonDown => Unavailable::DaemonDown,
            Unavailable::InsufficientRole { required } => Unavailable::InsufficientRole {
                required: *required,
            },
            Unavailable::VmState { detail } => Unavailable::VmState { detail: detail.clone() },
            Unavailable::UsbOwnedElsewhere { owner } => Unavailable::UsbOwnedElsewhere {
                owner: owner.clone(),
            },
            Unavailable::NotYetImplemented => Unavailable::NotYetImplemented,
            Unavailable::Blocked { detail } => Unavailable::Blocked { detail: detail.clone() },
        }
    }
}

/// An action paired with whether it can currently be invoked.
#[derive(Debug, PartialEq, Eq)]
pub struct ActionAvailability {
    pub action: ActionKind,
    /// `None` means available.
    pub unavailable: Option<Unavailable>,
}

/// The mathematical form of [`ActionAvailability`].
#[verifier::ext_equal]
pub struct ActionAvailabilityView {
    pub action: ActionKindView,
    pub unavailable: Option<UnavailableView>,
}

impl View for ActionAvailability {
    type V = ActionAvailabilityView;

    open spec fn view(&self) -> ActionAvailabilityView {
        ActionAvailabilityView {
            action: self.action@,
            unavailable: opt_view(self.unavailable),
        }
    }
}

impl Clone for ActionAvailability {
    fn clone(&self) -> (copy: Self)
        ensures
            copy@ == self@,
    {
        ActionAvailability {
            action: self.action.clone(),
            unavailable: self.unavailable.clone(),
        }
    }
}

/// A typed request to the daemon.
#[derive(Debug, PartialEq, Eq)]
pub enum SocketIntent {
    List,
    Status { vm: String },
    AuthStatus,
    UsbProbe,
    VmStart { vm: String },
    VmStop { vm: String, force: bool },
    VmRestart { vm: String },
    Switch { vm: String },
    Boot { vm: String },
    UsbAttach { vm: String, bus_id: String },
    UsbDetach { vm: String, bus_id: String },
    StoreVerify { vm: String },
    AudioMute { vm: String, channel: AudioChannel, mute: bool },
    AudioSetVolume { vm: String, channel: AudioChannel, level_percent: u8 },
    AudioOff { vm: String },
}

/// The mathematical form of [`SocketIntent`].
#[verifier::ext_equal]
pub enum SocketIntentView {
    List,
    Status { vm: Seq<char> },
    AuthStatus,
    UsbProbe,
    VmStart { vm: Seq<char> },
    VmStop { vm: Seq<char>, force: bool },
    VmRestart { vm: Seq<char> },
    Switch { vm: Seq<char> },
    Boot { vm: Seq<char> },
    UsbAttach { vm: Seq<char>, bus_id: Seq<char> },
    UsbDetach { vm: Seq<char>, bus_id: Seq<char> },
    StoreVerify { vm: Seq<char> },
    AudioMute { vm: Seq<char>, channel: AudioChannel, mute: bool },
    AudioSetVolume { vm: Seq<char>, channel: AudioChannel, level_percent: u8 },
    AudioOff { vm: Seq<char> },
}

impl View for SocketIntent {
    type V = SocketIntentView;

    open spec fn view(&self) -> SocketIntentView {
        match self {
            SocketIntent::List => SocketIntentView::List,
            SocketIntent::Status { vm } => SocketIntentView::Status { vm: vm@ },
            SocketIntent::AuthStatus => SocketIntentView::AuthStatus,
            SocketIntent::UsbProbe => SocketIntentView::UsbProbe,
            SocketIntent::VmStart { vm } => SocketIntentView::VmStart { vm: vm@ },
            SocketIntent::VmStop { vm, force } => SocketIntentView::VmStop {
                vm: vm@,
                force: *force,
            },
            SocketIntent::VmRestart { vm } => SocketIntentView::VmRestart { vm: vm@ },
            SocketIntent::Switch { vm } => SocketIntentView::Switch { vm: vm@ },
            SocketIntent::Boot { vm } => SocketIntentView::Boot { vm: vm@ },
            SocketIntent::UsbAttach { vm, bus_id } => SocketIntentView::UsbAttach {
                vm: vm@,
                bus_id: bus_id@,
            },
            SocketIntent::UsbDetach { vm, bus_id } => SocketIntentView::UsbDetach {
                vm: vm@,
                bus_id: bus_id@,
            },
            SocketIntent::StoreVerify { vm } => SocketIntentView::StoreVerify { vm: vm@ },
            SocketIntent::AudioMute { vm, channel, mute } => SocketIntentView::AudioMute {
                vm: vm@,
                channel: *channel,
                mute: *mute,
            },
            SocketIntent::AudioSetVolume { vm, channel, level_percent } => SocketIntentView::AudioSetVolume {
                vm: vm@,
                channel: *channel,
                level_percent: *level_percent,
            },
            SocketIntent::AudioOff { vm } => SocketIntentView::AudioOff { vm: vm@ },
        }
    }
}

impl Clone for SocketIntent {
    fn clone(&self) -> (copy: Self)
        ensures
            copy@ == self@,
    {
        match self {
            SocketIntent::List => SocketIntent::List,
            SocketIntent::Status { vm } => SocketIntent::Status { vm: vm.clone() },
            SocketIntent::AuthStatus => SocketIntent::AuthStatus,
            SocketIntent::UsbProbe => SocketIntent::UsbProbe,
            SocketIntent::VmStart { vm } => SocketIntent::VmStart { vm: vm.clone() },
            SocketIntent::VmStop { vm, force } => SocketIntent::VmStop {
                vm: vm.clone(),
                force: *force,
            },
            SocketIntent::VmRestart { vm } => SocketIntent::VmRestart { vm: vm.clone() },
            SocketIntent::Switch { vm } => SocketIntent::Switch { vm: vm.clone() },
            SocketIntent::Boot { vm } => SocketIntent::Boot { vm: vm.clone() },
            SocketIntent::UsbAttach { vm, bus_id } => SocketIntent::UsbAttach {
                vm: vm.clone(),
                bus_id: bus_id.clone(),
            },
            SocketIntent::UsbDetach { vm, bus_id } => SocketIntent::UsbDetach {
                vm: vm.clone(),
                bus_id: bus_id.clone(),
            },
            SocketIntent::StoreVerify { vm } => SocketIntent::StoreVerify { vm: vm.clone() },
            SocketIntent::AudioMute { vm, channel, mute } => SocketIntent::AudioMute {
                vm: vm.clone(),
                channel: *channel,
                mute: *mute,
            },
            SocketIntent::AudioSetVolume { vm, channel, level_percent } => SocketIntent::AudioSetVolume {
                vm: vm.clone(),
                channel: *channel,
                level_percent: *level_percent,
            },
            SocketIntent::AudioOff { vm } => SocketIntent::AudioOff { vm: vm.clone() },
        }
    }
}

/// A fully resolved action, ready to dispatch. A process is an argv vector, never
/// a shell string.
#[derive(Debug, PartialEq, Eq)]
pub enum PlannedAction {
    /// A request the protocol client should execute.
    Socket { intent: SocketIntent },
    /// A host process to spawn; `wait` asks to wait for its exit status.
    Process { argv: Vec<String>, wait: bool },
}

/// The mathematical form of [`PlannedAction`].
#[verifier::ext_equal]
pub enum PlannedActionView {
    Socket { intent: SocketIntentView },
    Process { argv: Seq<Seq<char>>, wait: bool },
}

impl View for PlannedAction {
    type V = PlannedActionView;

    open spec fn view(&self) -> PlannedActionView {
        match self {
            PlannedAction::Socket { intent } => PlannedActionView::Socket { intent: intent@ },
            PlannedAction::Process { argv, wait } => PlannedActionView::Process {
                argv: views(argv@),
                wait: *wait,
            },
        }
    }
}

impl Clone for PlannedAction {
    fn clone(&self) -> (copy: Self)
        ensures
            copy@ == self@,
    {
        match self {
            PlannedAction::Socket { intent } => PlannedAction::Socket { intent: intent.clone() },
            PlannedAction::Process { argv, wait } => PlannedAction::Process {
                argv: argv.clone(),
                wait: *wait,
            },
        }
    }
}

impl Default for AuthRole {
    fn default() -> (role: Self)
        ensures
            role == AuthRole::NoRole,
    {
        AuthRole::NoRole
    }
}

impl Default for RuntimeState {
    fn default() -> (state: Self)
        ensures
            state == RuntimeState::Unknown,
    {
        RuntimeState::Unknown
    }
}

impl Default for Connectivity {
    fn default() -> (connectivity: Self)
        ensures
            connectivity == Connectivity::DaemonDown,
    {
        Connectivity::DaemonDown
    }
}

/// No feature declared.
pub open spec fn no_features() -> VmFeatures {
    VmFeatures { graphics: false, tpm: false, usbip: false, audio: false }
}

/// Every operation supported: what a runtime that reports nothing is taken to
/// support.
pub open spec fn all_capabilities() -> VmCapabilities {
    VmCapabilities {
        start: true,
        stop: true,
        restart: true,
        switch: true,
        build: true,
        boot: true,
        usb_hotplug: true,
        store_verify: true,
        terminal: true,
    }
}

impl Default for VmFeatures {
    fn default() -> (features: Self)
        ensures
            features == no_features(),
    {
        VmFeatures { graphics: false, tpm: false, usbip: false, audio: false }
    }
}

impl Default for VmCapabilities {
    fn default() -> (capabilities: Self)
        ensures
            capabilities == all_capabilities(),
    {
        VmCapabilities {
            start: true,
            stop: true,
            restart: true,
            switch: true,
            build: true,
            boot: true,
            usb_hotplug: true,
            store_verify: true,
            terminal: true,
        }
    }
}

/// A VM of which nothing is known.
pub open spec fn blank_vm() -> VmView {
    VmView {
        name: Seq::empty(),
        env: None,
        state: RuntimeState::Unknown,
        is_net_vm: false,
        net_shown: false,
        hidden: false,
        pending_restart: false,
        features: no_features(),
        capabilities: all_capabilities(),
        static_ip: None,
        readiness: Seq::empty(),
        usb: Seq::empty(),
        quick_launch: Seq::empty(),
        audio: None,
    }
}

impl Default for Vm {
    fn default() -> (vm: Self)
        ensures
            vm@ == blank_vm(),
    {
        Vm {
            name: String::new(),
            env: None,
            state: RuntimeState::Unknown,
            is_net_vm: false,
            net_shown: false,
            hidden: false,
            pending_restart: false,
            features: VmFeatures::default(),
            capabilities: VmCapabilities::default(),
            static_ip: None,
            readiness: Vec::new(),
            usb: Vec::new(),
            quick_launch: Vec::new(),
            audio: None,
        }
    }
}

/// The state before anything is known.
pub open spec fn blank_state() -> WlStateView {
    WlStateView {
        connectivity: Connectivity::DaemonDown,
        role: AuthRole::NoRole,
        vms: Seq::empty(),
        stale: false,
        note: None,
    }
}

impl Default for WlState {
    fn default() -> (state: Self)
        ensures
            state@ == blank_state(),
    {
        WlState {
            connectivity: Connectivity::DaemonDown,
            role: AuthRole::NoRole,
            vms: Vec::new(),
            stale: false,
            note: None,
        }
    }
}

impl VmView {
    /// A net VM that is left out of compact surfaces.
    pub open spec fn net_hidden(self) -> bool {
        self.is_net_vm && !self.net_shown
    }

    /// Shown on compact surfaces.
    pub open spec fn visible(self) -> bool {
        !self.net_hidden() && !self.hidden
    }

    /// Shown on compact surfaces and running.
    pub open spec fn visibly_running(self) -> bool {
        self.visible() && self.state == RuntimeState::Running
    }

    /// Shown on compact surfaces and in need of the operator.
    pub open spec fn demanding(self) -> bool {
        self.visible() && (self.pending_restart || self.state == RuntimeState::Unknown)
    }
}

impl Vm {
    /// Whether this is a net VM that is left out of compact surfaces.
    pub fn is_net_hidden(&self) -> (yes: bool)
        ensures
            yes == self@.net_hidden(),
    {
        self.is_net_vm && !self.net_shown
    }

    /// Whether compact surfaces show this VM.
    pub fn is_visible(&self) -> (yes: bool)
        ensures
            yes == self@.visible(),
    {
        !self.is_net_hidden() && !self.hidden
    }
}

impl WlStateView {
    /// How many visible VMs run.
    pub open spec fn running(self) -> nat {
        self.vms.filter(|vm: VmView| vm.visibly_running()).len()
    }

    /// How many VMs are visible.
    pub open spec fn visible(self) -> nat {
        self.vms.filter(|vm: VmView| vm.visible()).len()
    }

    /// Whether some visible VM of a connected surface needs the operator.
    pub open spec fn attention(self) -> bool {
        &&& self.connectivity == Connectivity::Connected
        &&& exists|i: int| 0 <= i < self.vms.len() && (#[trigger] self.vms[i]).demanding()
    }
}

impl WlState {
    /// Count of running VMs, excluding net VMs and hidden ones.
    pub fn running_count(&self) -> (count: usize)
        ensures
            count == self@.running(),
    {
        let ghost running = |vm: VmView| vm.visibly_running();
        let mut count: usize = 0;
        let mut i: usize = 0;
        assert(self@.vms.take(0).filter(running).len() == 0) by {
            reveal(Seq::filter);
        }
        while i < self.vms.len()
            invariant
                i <= self.vms@.len(),
                self@.vms == views(self.vms@),
                running == |vm: VmView| vm.visibly_running(),
                count == self@.vms.take(i as int).filter(running).len(),
                count <= i,
            decreases self.vms@.len() - i,
        {
            proof {
                let before = self@.vms.take(i as int);
                assert(self@.vms.take(i + 1) == before.push(self.vms@[i as int]@));
                before.lemma_filter_push(self.vms@[i as int]@, running);
            }
            let vm = &self.vms[i];
            if vm.is_visible() && vm.state == RuntimeState::Running {
                count = count + 1;
            }
            i = i + 1;
        }
        assert(self@.vms.take(i as int) == self@.vms);
        count
    }

    /// Count of visible (non-net, non-hidden) VMs.
    pub fn visible_count(&self) -> (count: usize)
        ensures
            count == self@.visible(),
    {
        let ghost visible = |vm: VmView| vm.visible();
        let mut count: usize = 0;
        let mut i: usize = 0;
        assert(self@.vms.take(0).filter(visible).len() == 0) by {
            reveal(Seq::filter);
        }
        while i < self.vms.len()
            invariant
                i <= self.vms@.len(),
                self@.vms == views(self.vms@),
                visible == |vm: VmView| vm.visible(),
                count == self@.vms.take(i as int).filter(visible).len(),
                count <= i,
            decreases self.vms@.len() - i,
        {
            proof {
                let before = self@.vms.take(i as int);
                assert(self@.vms.take(i + 1) == before.push(self.vms@[i as int]@));
                before.lemma_filter_push(self.vms@[i as int]@, visible);
            }
            let vm = &self.vms[i];
            if vm.is_visible() {
                count = count + 1;
            }
            i = i + 1;
        }
        assert(self@.vms.take(i as int) == self@.vms);
        count
    }

    /// True when any visible VM needs operator attention (pending restart or an
    /// unknown state while the daemon is reachable).
    pub fn needs_attention(&self) -> (needed: bool)
        ensures
            needed == self@.attention(),
    {
        match self.connectivity {
            Connectivity::Connected => {},
            _ => {
                return false;
            },
        }
        let mut i: usize = 0;
        while i < self.vms.len()
            invariant
                i <= self.vms@.len(),
                self.connectivity == Connectivity::Connected,
                forall|k: int| 0 <= k < i ==> !(#[trigger] self@.vms[k]).demanding(),
            decreases self.vms@.len() - i,
        {
            let vm = &self.vms[i];
            assert(self@.vms[i as int] == vm@);
            if vm.is_visible() && (vm.pending_restart || vm.state
                == RuntimeState::Unknown) {
                return true;
            }
            i = i + 1;
        }
        false
    }
}

impl ActionAvailability {
    /// An action that can be invoked.
    pub fn available(action: ActionKind) -> (entry: Self)
        ensures
            entry@ == (ActionAvailabilityView { action: action@, unavailable: None }),
    {
        ActionAvailability { action, unavailable: None }
    }

    /// An action that cannot be invoked, and why.
    pub fn blocked(action: ActionKind, reason: Unavailable) -> (entry: Self)
        ensures
            entry@ == (ActionAvailabilityView { action: action@, unavailable: Some(reason@) }),
    {
        ActionAvailability { action, unavailable: Some(reason) }
    }

    /// Whether the action can be invoked.
    pub fn is_available(&self) -> (yes: bool)
        ensures
            yes == (self@.unavailable is None),
    {
        self.unavailable.is_none()
    }
}

/// No surface ever counts more running VMs than visible ones.
pub proof fn law_running_within_visible(state: WlStateView)
    ensures
        state.running() <= state.visible(),
{
    lemma_running_within_visible(state.vms);
}

proof fn lemma_running_within_visible(vms: Seq<VmView>)
    ensures
        vms.filter(|vm: VmView| vm.visibly_running()).len() <= vms.filter(
            |vm: VmView| vm.visible(),
        ).len(),
    decreases vms.len(),
{
    reveal(Seq::filter);
    if vms.len() > 0 {
        lemma_running_within_visible(vms.drop_last());
    }
}

/// VMs that compact surfaces leave out never change the counts or the attention
/// mark, wherever they stand.
pub proof fn law_hidden_vms_do_not_count(state: WlStateView, i: int, vm: VmView)
    requires
        0 <= i <= state.vms.len(),
        vm.net_hidden() || vm.hidden,
    ensures
        ({
            let larger = WlStateView { vms: state.vms.insert(i, vm), ..state };
            &&& larger.running() == state.running()
            &&& larger.visible() == state.visible()
            &&& larger.attention() == state.attention()
        }),
{
    let larger = WlStateView { vms: state.vms.insert(i, vm), ..state };
    lemma_filter_insert(state.vms, i, vm, |vm: VmView| vm.visibly_running());
    lemma_filter_insert(state.vms, i, vm, |vm: VmView| vm.visible());
    if state.attention() {
        let k = choose|k: int| 0 <= k < state.vms.len() && (#[trigger] state.vms[k]).demanding();
        if k < i {
            assert(larger.vms[k].demanding());
        } else {
            assert(larger.vms[k + 1].demanding());
        }
    }
    if larger.attention() {
        let k = choose|k: int| 0 <= k < larger.vms.len() && (#[trigger] larger.vms[k]).demanding();
        if k < i {
            assert(state.vms[k].demanding());
        } else {
            assert(state.vms[k - 1].demanding());
        }
    }
}

/// A filter takes no notice of an item that it rejects.
proof fn lemma_filter_insert<A>(items: Seq<A>, i: int, item: A, keep: spec_fn(A) -> bool)
    requires
        0 <= i <= items.len(),
        !keep(item),
    ensures
        items.insert(i, item).filter(keep) == items.filter(keep),
    decreases items.len(),
{
    reveal(Seq::filter);
    let larger = items.insert(i, item);
    if i == items.len() {
        assert(larger.drop_last() =~= items);
    } else {
        lemma_filter_insert(items.drop_last(), i, item, keep);
        assert(larger.drop_last() =~= items.drop_last().insert(i, item));
        assert(larger.last() == items.last());
    }
}

} // verus!
