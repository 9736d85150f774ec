//! Normalized per-call source fragments: what the protocol client produces and
//! the reducer consumes.

use vstd::prelude::*;

use crate::model::{
    AuthRole, Connectivity, RuntimeState, UsbClaim, UsbClaimView, VmAudioState, VmAudioStateView,
    VmCapabilities, VmFeatures,
};
use crate::text::{opt_view, views};

verus! {

/// Authorization posture.
#[derive(Debug, Clone, Copy, PartialEq, Eq, Structural)]
pub struct Auth {
    pub role: AuthRole,
}

/// One declared VM.
#[derive(Debug, PartialEq, Eq)]
pub struct InventoryVm {
    pub name: String,
    pub env: Option<String>,
    pub is_net_vm: bool,
    pub features: VmFeatures,
    pub capabilities: VmCapabilities,
    pub static_ip: Option<String>,
    /// Coarse status from the listing (`stopped`, `running`, ...). The per-VM
    /// status is more authoritative when present.
    pub coarse_status: Option<String>,
}

/// The mathematical form of [`InventoryVm`].
#[verifier::ext_equal]
pub struct InventoryVmView {
    pub name: Seq<char>,
    pub env: Option<Seq<char>>,
    pub is_net_vm: bool,
    pub features: VmFeatures,
    pub capabilities: VmCapabilities,
    pub static_ip: Option<Seq<char>>,
    pub coarse_status: Option<Seq<char>>,
}

impl View for InventoryVm {
    type V = InventoryVmView;

    open spec fn view(&self) -> InventoryVmView {
        InventoryVmView {
            name: self.name@,
            env: opt_view(self.env),
            is_net_vm: self.is_net_vm,
            features: self.features,
            capabilities: self.capabilities,
            static_ip: opt_view(self.static_ip),
            coarse_status: opt_view(self.coarse_status),
        }
    }
}

impl Clone for InventoryVm {
    fn clone(&self) -> (copy: Self)
        ensures
            copy@ == self@,
    {
        InventoryVm {
            name: self.name.clone(),
            env: self.env.clone(),
            is_net_vm: self.is_net_vm,
            features: self.features,
            capabilities: self.capabilities,
            static_ip: self.static_ip.clone(),
            coarse_status: self.coarse_status.clone(),
        }
    }
}

/// The declared inventory.
#[derive(Debug, PartialEq, Eq)]
pub struct Inventory {
    pub vms: Vec<InventoryVm>,
}

/// The mathematical form of [`Inventory`].
#[verifier::ext_equal]
pub struct InventoryView {
    pub vms: Seq<InventoryVmView>,
}

impl View for Inventory {
    type V = InventoryView;

    open spec fn view(&self) -> InventoryView {
        InventoryView {
            vms: views(self.vms@),
        }
    }
}

impl Clone for Inventory {
    fn clone(&self) -> (copy: Self)
        ensures
            copy@ == self@,
    {
        Inventory {
            vms: self.vms.clone(),
        }
    }
}

/// Per-VM runtime truth.
#[derive(Debug, PartialEq, Eq)]
pub struct VmStatus {
    pub name: String,
    pub state: RuntimeState,
    pub pending_restart: bool,
    pub readiness: Vec<String>,
    pub capabilities: VmCapabilities,
}

/// The mathematical form of [`VmStatus`].
#[verifier::ext_equal]
pub struct VmStatusView {
    pub name: Seq<char>,
    pub state: RuntimeState,
    pub pending_restart: bool,
    pub readiness: Seq<Seq<char>>,
    pub capabilities: VmCapabilities,
}

impl View for VmStatus {
    type V = VmStatusView;

    open spec fn view(&self) -> VmStatusView {
        VmStatusView {
            name: self.name@,
            state: self.state,
            pending_restart: self.pending_restart,
            readiness: views(self.readiness@),
            capabilities: self.capabilities,
        }
    }
}

impl Clone for VmStatus {
    fn clone(&self) -> (copy: Self)
        ensures
            copy@ == self@,
    {
        VmStatus {
            name: self.name.clone(),
            state: self.state,
            pending_restart: self.pending_restart,
            readiness: self.readiness.clone(),
            capabilities: self.capabilities,
        }
    }
}

/// USB claims.
#[derive(Debug, PartialEq, Eq)]
pub struct UsbProbe {
    pub claims: Vec<UsbClaim>,
}

/// The mathematical form of [`UsbProbe`].
#[verifier::ext_equal]
pub struct UsbProbeView {
    pub claims: Seq<UsbClaimView>,
}

impl View for UsbProbe {
    type V = UsbProbeView;

    open spec fn view(&self) -> UsbProbeView {
        UsbProbeView {
            claims: views(self.claims@),
        }
    }
}

impl Clone for UsbProbe {
    fn clone(&self) -> (copy: Self)
        ensures
            copy@ == self@,
    {
        UsbProbe {
            claims: self.claims.clone(),
        }
    }
}

/// The audio state of one VM.
#[derive(Debug, PartialEq, Eq)]
pub struct AudioStatusEntry {
    pub vm: String,
    pub audio: VmAudioState,
}

/// The mathematical form of [`AudioStatusEntry`].
#[verifier::ext_equal]
pub struct AudioStatusEntryView {
    pub vm: Seq<char>,
    pub audio: VmAudioStateView,
}

impl View for AudioStatusEntry {
    type V = AudioStatusEntryView;

    open spec fn view(&self) -> AudioStatusEntryView {
        AudioStatusEntryView {
            vm: self.vm@,
            audio: self.audio@,
        }
    }
}

impl Clone for AudioStatusEntry {
    fn clone(&self) -> (copy: Self)
        ensures
            copy@ == self@,
    {
        AudioStatusEntry {
            vm: self.vm.clone(),
            audio: self.audio.clone(),
        }
    }
}

/// Why the audio state of one VM could not be read.
#[derive(Debug, PartialEq, Eq)]
pub struct AudioStatusError {
    pub vm: String,
    pub kind: String,
    pub remediation: Option<String>,
}

/// The mathematical form of [`AudioStatusError`].
#[verifier::ext_equal]
pub struct AudioStatusErrorView {
    pub vm: Seq<char>,
    pub kind: Seq<char>,
    pub remediation: Option<Seq<char>>,
}

impl View for AudioStatusError {
    type V = AudioStatusErrorView;

    open spec fn view(&self) -> AudioStatusErrorView {
        AudioStatusErrorView {
            vm: self.vm@,
            kind: self.kind@,
            remediation: opt_view(self.remediation),
        }
    }
}

impl Clone for AudioStatusError {
    fn clone(&self) -> (copy: Self)
        ensures
            copy@ == self@,
    {
        AudioStatusError {
            vm: self.vm.clone(),
            kind: self.kind.clone(),
            remediation: self.remediation.clone(),
        }
    }
}

/// Audio status of the declared VMs.
#[derive(Debug, PartialEq, Eq)]
pub struct AudioStatus {
    pub entries: Vec<AudioStatusEntry>,
    pub errors: Vec<AudioStatusError>,
}

/// The mathematical form of [`AudioStatus`].
#[verifier::ext_equal]
pub struct AudioStatusView {
    pub entries: Seq<AudioStatusEntryView>,
    pub errors: Seq<AudioStatusErrorView>,
}

impl View for AudioStatus {
    type V = AudioStatusView;

    open spec fn view(&self) -> AudioStatusView {
        AudioStatusView {
            entries: views(self.entries@),
            errors: views(self.errors@),
        }
    }
}

impl Clone for AudioStatus {
    fn clone(&self) -> (copy: Self)
        ensures
            copy@ == self@,
    {
        AudioStatus {
            entries: self.entries.clone(),
            errors: self.errors.clone(),
        }
    }
}

/// Everything that the daemon says of all VMs in one status answer.
#[derive(Debug, PartialEq, Eq)]
pub struct StatusModel {
    pub inventory: Inventory,
    pub statuses: Vec<VmStatus>,
    pub usb: UsbProbe,
}

/// The mathematical form of [`StatusModel`].
#[verifier::ext_equal]
pub struct StatusModelView {
    pub inventory: InventoryView,
    pub statuses: Seq<VmStatusView>,
    pub usb: UsbProbeView,
}

impl View for StatusModel {
    type V = StatusModelView;

    open spec fn view(&self) -> StatusModelView {
        StatusModelView {
            inventory: self.inventory@,
            statuses: views(self.statuses@),
            usb: self.usb@,
        }
    }
}

/// The full bundle of fragments the reducer consumes for one refresh cycle. A
/// fragment is absent when the corresponding call failed.
#[derive(Debug, PartialEq, Eq)]
pub struct ReduceInput {
    /// Overall connectivity as observed by the protocol client.
    pub connectivity: Connectivity,
    pub auth: Option<Auth>,
    pub inventory: Option<Inventory>,
    /// Per-VM statuses; the reducer matches by name.
    pub statuses: Vec<VmStatus>,
    pub usb: Option<UsbProbe>,
    pub audio: Option<AudioStatus>,
}

/// The mathematical form of [`ReduceInput`].
#[verifier::ext_equal]
pub struct ReduceInputView {
    pub connectivity: Connectivity,
    pub auth: Option<Auth>,
    pub inventory: Option<InventoryView>,
    pub statuses: Seq<VmStatusView>,
    pub usb: Option<UsbProbeView>,
    pub audio: Option<AudioStatusView>,
}

impl View for ReduceInput {
    type V = ReduceInputView;

    open spec fn view(&self) -> ReduceInputView {
        ReduceInputView {
            connectivity: self.connectivity,
            auth: self.auth,
            inventory: opt_view(self.inventory),
            statuses: views(self.statuses@),
            usb: opt_view(self.usb),
            audio: opt_view(self.audio),
        }
    }
}

impl Clone for ReduceInput {
    fn clone(&self) -> (copy: Self)
        ensures
            copy@ == self@,
    {
        ReduceInput {
            connectivity: self.connectivity,
            auth: self.auth,
            inventory: self.inventory.clone(),
            statuses: self.statuses.clone(),
            usb: self.usb.clone(),
            audio: self.audio.clone(),
        }
    }
}

/// A bundle that holds nothing but the connectivity.
pub open spec fn bare_input(connectivity: Connectivity, auth: Option<Auth>) -> ReduceInputView {
    ReduceInputView {
        connectivity,
        auth,
        inventory: None,
        statuses: Seq::empty(),
        usb: None,
        audio: None,
    }
}

impl Default for Inventory {
    fn default() -> (inventory: Self)
        ensures
            inventory@.vms == Seq::<InventoryVmView>::empty(),
    {
        Inventory { vms: Vec::new() }
    }
}

impl Default for UsbProbe {
    fn default() -> (probe: Self)
        ensures
            probe@.claims == Seq::<UsbClaimView>::empty(),
    {
        UsbProbe { claims: Vec::new() }
    }
}

impl Default for AudioStatus {
    fn default() -> (status: Self)
        ensures
            status@.entries == Seq::<AudioStatusEntryView>::empty(),
            status@.errors == Seq::<AudioStatusErrorView>::empty(),
    {
        AudioStatus { entries: Vec::new(), errors: Vec::new() }
    }
}

impl Default for Auth {
    fn default() -> (auth: Self)
        ensures
            auth.role == AuthRole::NoRole,
    {
        Auth { role: AuthRole::NoRole }
    }
}

impl Default for ReduceInput {
    fn default() -> (input: Self)
        ensures
            input@ == bare_input(Connectivity::DaemonDown, None),
    {
        ReduceInput {
            connectivity: Connectivity::DaemonDown,
            auth: None,
            inventory: None,
            statuses: Vec::new(),
            usb: None,
            audio: None,
        }
    }
}

} // verus!
