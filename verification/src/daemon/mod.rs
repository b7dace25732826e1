//! The daemon's decision logic: gesture tracking, button configuration,
//! keystroke parsing and notification handling.

pub mod gesture;
pub mod config;
pub mod keys;
pub mod notify;
pub mod bridge;
pub mod listen;
pub mod tray;
