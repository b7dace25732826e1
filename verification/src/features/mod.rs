//! Encoders and decoders for the HID++ 2.0 features, one module each.

pub mod root;
pub mod feature_set;
pub mod change_host;
pub mod config_change;
pub mod device_name;
pub mod friendly_name;
pub mod hosts_info;
pub mod wireless_status;
pub mod unified_battery;
pub mod hires_wheel;
pub mod smart_shift;
pub mod special_keys;
pub mod thumbwheel;
pub mod adjustable_dpi;
pub mod firmware_info;
