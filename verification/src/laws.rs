//! What the library promises of whole operations, stated over their inputs and
//! their results.
//!
//! Each law says what a result holds in terms of what went in: which VM a claim
//! is shown under, which request an intent sends, which state a status entry is
//! read as. The texts that the daemon and the surfaces use stand in the laws as
//! they are.

pub mod channel;
pub mod commands;
pub mod configuration;
pub mod devices;
pub mod planning;
pub mod popup;
pub mod processes;
pub mod reduction;
pub mod rendering;
pub mod replies;
pub mod selection;
pub mod sessions;
pub mod surfaces;
