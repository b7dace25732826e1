//! HID++ 2.0 for Logitech devices: the report codec and feature
//! encoders/decoders, the device session's discovery and requests, the
//! transport's framing and response routing, and the daemon's gesture,
//! configuration and notification logic, each with its contract proved.

pub mod types;
pub mod error;
pub mod report;
pub mod feature_id;
pub mod features;
pub mod text;
pub mod daemon;
pub mod transport;
pub mod device;
pub mod cli;
pub mod web;
