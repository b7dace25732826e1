//! HID++ Feature 0x1004 — UnifiedBattery.
//!
//! Battery level, charging status and power source (function 0:
//! GetCapabilities, function 1: GetStatus, event 0: StatusChanged).
use vstd::prelude::*;

use crate::error::DecodeError;
use crate::report::{checked, param, request_bytes, LongReport};
use crate::types::{DeviceIndex, FeatureIndex, FunctionId, SoftwareId};

verus! {

broadcast use crate::report::lemma_report_len;

/// Battery level categories.
#[derive(Debug, Clone, Copy, PartialEq, Eq, Structural)]
pub enum BatteryLevel {
    Critical,
    Low,
    Good,
    Full,
}

/// Charging status.
#[derive(Debug, Clone, Copy, PartialEq, Eq, Structural)]
pub enum ChargingStatus {
    Discharging,
    Charging,
    ChargingComplete,
    ChargingError,
}

/// Battery capabilities.
#[derive(Debug, Clone, PartialEq, Eq, Structural)]
pub struct BatteryCapabilities {
    /// Supported battery levels (bitmask).
    pub supported_levels: u8,
    /// Whether the device reports exact percentage.
    pub supports_percentage: bool,
    /// Whether the battery is rechargeable.
    pub rechargeable: bool,
}

/// Current battery status.
#[derive(Debug, Clone, PartialEq, Eq, Structural)]
pub struct BatteryStatus {
    /// State of charge percentage (0–100). May be 0 if not supported.
    pub percentage: u8,
    /// Discrete battery level.
    pub level: BatteryLevel,
    /// Current charging status.
    pub charging: ChargingStatus,
    /// Whether external power is connected.
    pub external_power: bool,
}

/// The level a level byte names; an unknown byte reads as `Good`.
pub open spec fn level_of(b: u8) -> BatteryLevel {
    if b == 1 {
        BatteryLevel::Critical
    } else if b == 2 {
        BatteryLevel::Low
    } else if b == 8 {
        BatteryLevel::Full
    } else {
        BatteryLevel::Good
    }
}

/// The charging status a status byte names; above 2 it is an error.
pub open spec fn charging_of(b: u8) -> ChargingStatus {
    if b == 0 {
        ChargingStatus::Discharging
    } else if b == 1 {
        ChargingStatus::Charging
    } else if b == 2 {
        ChargingStatus::ChargingComplete
    } else {
        ChargingStatus::ChargingError
    }
}

/// The battery status that a status payload carries.
pub open spec fn status_of(report: Seq<u8>) -> BatteryStatus {
    BatteryStatus {
        percentage: param(report, 0),
        level: level_of(param(report, 1)),
        charging: charging_of(param(report, 2)),
        external_power: param(report, 3) & 0x01u8 != 0,
    }
}

/// Function 0: GetCapabilities.
pub fn encode_get_capabilities(
    device: DeviceIndex,
    feature_index: FeatureIndex,
    sw_id: SoftwareId,
) -> (r: LongReport)
    ensures
        r@ == request_bytes(device.0, feature_index.0, 0, sw_id.0, Seq::empty()),
{
    LongReport::request(device, feature_index, FunctionId(0), sw_id, &[])
}

/// Decode GetCapabilities: level bitmask, then flags (bit 0 percentage,
/// bit 1 rechargeable).
pub fn decode_get_capabilities(report: &LongReport) -> (r: Result<BatteryCapabilities, DecodeError>)
    ensures
        r == checked(
            report@,
            BatteryCapabilities {
                supported_levels: param(report@, 0),
                supports_percentage: param(report@, 1) & 0x01u8 != 0,
                rechargeable: param(report@, 1) & 0x02u8 != 0,
            },
        ),
{
    report.check_error()?;
    let params = report.params();
    Ok(
        BatteryCapabilities {
            supported_levels: params[0],
            supports_percentage: (params[1] & 0x01) != 0,
            rechargeable: (params[1] & 0x02) != 0,
        },
    )
}

/// Function 1: GetStatus.
pub fn encode_get_status(device: DeviceIndex, feature_index: FeatureIndex, sw_id: SoftwareId) -> (r:
    LongReport)
    ensures
        r@ == request_bytes(device.0, feature_index.0, 1, sw_id.0, Seq::empty()),
{
    LongReport::request(device, feature_index, FunctionId(1), sw_id, &[])
}

/// Decode GetStatus: percentage, level, charging status, external power.
pub fn decode_get_status(report: &LongReport) -> (r: Result<BatteryStatus, DecodeError>)
    ensures
        r == checked(report@, status_of(report@)),
{
    report.check_error()?;
    let params = report.params();

    let percentage = params[0];

    let level = match params[1] {
        1 => BatteryLevel::Critical,
        2 => BatteryLevel::Low,
        4 => BatteryLevel::Good,
        8 => BatteryLevel::Full,
        _ => BatteryLevel::Good,
    };

    let charging = match params[2] {
        0 => ChargingStatus::Discharging,
        1 => ChargingStatus::Charging,
        2 => ChargingStatus::ChargingComplete,
        _ => ChargingStatus::ChargingError,
    };

    let external_power = (params[3] & 0x01) != 0;

    Ok(BatteryStatus { percentage, level, charging, external_power })
}

/// Event 0: StatusChanged — same payload as the GetStatus response.
pub fn decode_status_event(report: &LongReport) -> (r: Result<BatteryStatus, DecodeError>)
    ensures
        r == checked(report@, status_of(report@)),
{
    decode_get_status(report)
}

/// The battery level bytes: 1 critical, 2 low, 4 good, 8 full; any other
/// byte reads as good. The charging bytes: 0 discharging, 1 charging,
/// 2 complete; any other byte is a charging error.
pub proof fn lemma_battery_bytes(b: u8)
    ensures
        level_of(1) == BatteryLevel::Critical,
        level_of(2) == BatteryLevel::Low,
        level_of(4) == BatteryLevel::Good,
        level_of(8) == BatteryLevel::Full,
        b != 1 && b != 2 && b != 8 ==> level_of(b) == BatteryLevel::Good,
        charging_of(0) == ChargingStatus::Discharging,
        charging_of(1) == ChargingStatus::Charging,
        charging_of(2) == ChargingStatus::ChargingComplete,
        b > 2 ==> charging_of(b) == ChargingStatus::ChargingError,
{
}

} // verus!
