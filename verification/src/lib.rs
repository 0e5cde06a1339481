//! GhostView Pro host: the decisions behind a screen-sharing session.
use vstd::prelude::*;

pub mod capture;
pub mod codec;
pub mod json;
pub mod messages;
pub mod pipeline;
pub mod reading_laws;
pub mod session;
pub mod signaling;
pub mod state_watcher;
pub mod tasks;
pub mod text;
pub mod webrtc_host;
pub mod wire;
pub mod wire_laws;

verus! {

/// A capturable monitor, as the user interface shows it.
#[derive(Debug, Clone)]
pub struct MonitorInfo {
    pub index: usize,
    pub name: String,
    pub width: u32,
    pub height: u32,
    pub is_primary: bool,
}

/// What the user interface is told about the session.
#[derive(Debug, Clone)]
pub struct SessionStatus {
    pub state: String,
    pub pin: Option<String>,
    pub message: Option<String>,
}

} // verus!
