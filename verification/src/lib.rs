//! `wlcontrol` — the logic of a Waybar indicator and control centre for d2b VMs.
//!
//! The library holds the domain model ([`model`]), the user configuration
//! ([`config`]), the reducer that turns what the daemon reports into one state
//! ([`sources`], [`reduce`]), the planner that gates and resolves actions
//! ([`plan`]), the public-socket protocol ([`wire`], [`protocol`], [`reply`],
//! [`transport`], [`client`], [`d2b`]), and the decisions of the surfaces
//! ([`waybar`], [`view_model`], [`frontend`], [`process`], [`usb`], [`cli`]).
//!
//! Every function states what it returns over the mathematical form of its
//! arguments, and the proof functions named `law_…` state what holds across
//! functions; those on whole operations stand in [`laws`]. Sockets, files,
//! processes and clocks belong to the program around the library: it hands in what
//! was read and carries out what is decided.

use vstd::prelude::*;

pub mod cli;
pub mod client;
pub mod config;
pub mod d2b;
pub mod error;
pub mod frontend;
pub mod json;
pub mod laws;
pub mod model;
pub mod plan;
pub mod process;
pub mod protocol;
pub mod qml;
pub mod reduce;
pub mod reply;
pub mod sources;
pub mod text;
pub mod transport;
pub mod usb;
pub mod view_model;
pub mod waybar;
pub mod wire;

pub use config::{Config, is_public_socket_path};
pub use error::{WlError, WlResult};
pub use model::{
    ActionAvailability, ActionKind, AuthRole, Connectivity, PlannedAction, RuntimeState,
    SocketIntent, Unavailable, UsbClaim, Vm, VmFeatures, WlState,
};

verus! {

} // verus!
