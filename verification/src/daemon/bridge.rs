//! Messages between the daemon and its tray user interface.
use vstd::prelude::*;

verus! {

/// Events sent from the background daemon to the tray UI.
#[derive(Debug, Clone)]
pub enum DaemonEvent {
    Connected { name: String, battery_pct: Option<u8>, dpi: Option<u16> },
    Disconnected,
    Reconnecting,
    BatteryUpdate { percentage: u8, charging: bool },
    ActionExecuted { description: String },
    Error(String),
    /// The daemon has stopped: the menu bar app exits.
    Shutdown,
}

/// Commands sent from the tray UI to the background daemon.
#[derive(Debug, Clone, Copy, PartialEq, Eq, Structural)]
pub enum DaemonCommand {
    Reconnect,
    ReloadConfig,
    Shutdown,
}

} // verus!
