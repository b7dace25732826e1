//! HID++ Feature 0x2150 — Thumbwheel.
//!
//! Horizontal scroll thumbwheel reporting mode and inversion (function 0:
//! GetThumbwheelInfo, 1: GetThumbwheelStatus, 2: SetThumbwheelReporting).
use vstd::prelude::*;

use crate::error::DecodeError;
use crate::report::{be_u16, checked, param, read_be_u16, request_bytes, LongReport};
use crate::types::{DeviceIndex, FeatureIndex, FunctionId, SoftwareId};

verus! {

broadcast use crate::report::lemma_report_len;

/// Thumbwheel reporting mode: native is byte 0, diverted byte 1.
#[derive(Debug, Clone, Copy, PartialEq, Eq, Structural)]
pub enum ReportingMode {
    /// Native HID scrolling (OS handles it).
    Native,
    /// Diverted to software (agent handles it).
    Diverted,
}

impl ReportingMode {
    /// The mode a mode byte names: 1 is diverted, anything else native.
    pub open spec fn spec_from_byte(b: u8) -> ReportingMode {
        if b == 1 {
            ReportingMode::Diverted
        } else {
            ReportingMode::Native
        }
    }

    /// The wire value of a mode.
    pub open spec fn spec_to_byte(&self) -> u8 {
        match self {
            ReportingMode::Native => 0,
            ReportingMode::Diverted => 1,
        }
    }

    /// Decode a mode byte.
    #[verifier::when_used_as_spec(spec_from_byte)]
    pub fn from_byte(b: u8) -> (m: ReportingMode)
        ensures
            m == ReportingMode::spec_from_byte(b),
    {
        match b {
            1 => ReportingMode::Diverted,
            _ => ReportingMode::Native,
        }
    }

    /// The wire value of the mode (0 native, 1 diverted).
    #[verifier::when_used_as_spec(spec_to_byte)]
    pub fn to_byte(&self) -> (b: u8)
        ensures
            b == self.spec_to_byte(),
    {
        match self {
            ReportingMode::Native => 0,
            ReportingMode::Diverted => 1,
        }
    }
}

/// Every reporting mode reads back from its wire value.
pub proof fn lemma_reporting_mode_roundtrip(mode: ReportingMode)
    ensures
        ReportingMode::spec_from_byte(mode.spec_to_byte()) == mode,
{
}

/// Thumbwheel hardware information.
#[derive(Debug, Clone, PartialEq, Eq, Structural)]
pub struct ThumbwheelInfo {
    /// Counts per revolution in native mode.
    pub native_resolution: u16,
    /// Counts per revolution in diverted mode.
    pub diverted_resolution: u16,
    /// Wheel orientation direction.
    pub direction: u8,
    /// Has auto-disengage feature.
    pub has_auto_disengage: bool,
    /// Has proximity sensor.
    pub has_proxy: bool,
    /// Has touch proximity sensor.
    pub has_touch_proxy: bool,
    /// Supports timestamps on events.
    pub has_timestamp: bool,
    /// Timestamp unit in microseconds.
    pub timestamp_unit: u16,
}

/// Current thumbwheel status.
#[derive(Debug, Clone, PartialEq, Eq, Structural)]
pub struct ThumbwheelStatus {
    /// Current reporting mode.
    pub reporting_mode: ReportingMode,
    /// Whether events are diverted to software.
    pub diverted: bool,
    /// Whether scroll direction is inverted.
    pub inverted: bool,
    /// Whether proximity sensor is active.
    pub proxy: bool,
}

/// The status that a status payload carries.
pub open spec fn status_of(report: Seq<u8>) -> ThumbwheelStatus {
    ThumbwheelStatus {
        reporting_mode: ReportingMode::spec_from_byte(param(report, 0)),
        diverted: param(report, 1) & 0x01u8 != 0,
        inverted: param(report, 1) & 0x02u8 != 0,
        proxy: param(report, 1) & 0x04u8 != 0,
    }
}

/// Function 0: GetThumbwheelInfo.
pub fn encode_get_info(device: DeviceIndex, feature_index: FeatureIndex, sw_id: SoftwareId) -> (r:
    LongReport)
    ensures
        r@ == request_bytes(device.0, feature_index.0, 0, sw_id.0, Seq::empty()),
{
    LongReport::request(device, feature_index, FunctionId(0), sw_id, &[])
}

/// Decode GetThumbwheelInfo: native and diverted resolution (big-endian),
/// direction, capability flags (bit 0 auto-disengage, 1 proxy, 2 touch
/// proxy, 3 timestamp), timestamp unit (big-endian).
pub fn decode_get_info(report: &LongReport) -> (r: Result<ThumbwheelInfo, DecodeError>)
    ensures
        r == checked(
            report@,
            ThumbwheelInfo {
                native_resolution: be_u16(param(report@, 0), param(report@, 1)),
                diverted_resolution: be_u16(param(report@, 2), param(report@, 3)),
                direction: param(report@, 4),
                has_auto_disengage: param(report@, 5) & 0x01u8 != 0,
                has_proxy: param(report@, 5) & 0x02u8 != 0,
                has_touch_proxy: param(report@, 5) & 0x04u8 != 0,
                has_timestamp: param(report@, 5) & 0x08u8 != 0,
                timestamp_unit: be_u16(param(report@, 6), param(report@, 7)),
            },
        ),
{
    report.check_error()?;
    let p = report.params();
    Ok(
        ThumbwheelInfo {
            native_resolution: read_be_u16(p[0], p[1]),
            diverted_resolution: read_be_u16(p[2], p[3]),
            direction: p[4],
            has_auto_disengage: (p[5] & 0x01) != 0,
            has_proxy: (p[5] & 0x02) != 0,
            has_touch_proxy: (p[5] & 0x04) != 0,
            has_timestamp: (p[5] & 0x08) != 0,
            timestamp_unit: read_be_u16(p[6], p[7]),
        },
    )
}

/// Function 1: GetThumbwheelStatus.
pub fn encode_get_status(device: DeviceIndex, feature_index: FeatureIndex, sw_id: SoftwareId) -> (r:
    LongReport)
    ensures
        r@ == request_bytes(device.0, feature_index.0, 1, sw_id.0, Seq::empty()),
{
    LongReport::request(device, feature_index, FunctionId(1), sw_id, &[])
}

/// Decode GetThumbwheelStatus: reporting mode, then flags (bit 0 diverted,
/// 1 inverted, 2 proxy).
pub fn decode_get_status(report: &LongReport) -> (r: Result<ThumbwheelStatus, DecodeError>)
    ensures
        r == checked(report@, status_of(report@)),
{
    report.check_error()?;
    let p = report.params();
    Ok(
        ThumbwheelStatus {
            reporting_mode: ReportingMode::from_byte(p[0]),
            diverted: (p[1] & 0x01) != 0,
            inverted: (p[1] & 0x02) != 0,
            proxy: (p[1] & 0x04) != 0,
        },
    )
}

/// Function 2: SetThumbwheelReporting: mode byte, then 1 to invert.
pub fn encode_set_reporting(
    device: DeviceIndex,
    feature_index: FeatureIndex,
    sw_id: SoftwareId,
    reporting_mode: ReportingMode,
    invert: bool,
) -> (r: LongReport)
    ensures
        r@ == request_bytes(
            device.0,
            feature_index.0,
            2,
            sw_id.0,
            seq![reporting_mode.spec_to_byte(), if invert { 1u8 } else { 0u8 }],
        ),
{
    let inv: u8 = if invert {
        1
    } else {
        0
    };
    let params = [reporting_mode.to_byte(), inv];
    let r = LongReport::request(device, feature_index, FunctionId(2), sw_id, &params);
    assert(params@ =~= seq![reporting_mode.spec_to_byte(), if invert { 1u8 } else { 0u8 }]);
    r
}

/// Decode SetThumbwheelReporting (same payload as GetThumbwheelStatus).
pub fn decode_set_reporting(report: &LongReport) -> (r: Result<ThumbwheelStatus, DecodeError>)
    ensures
        r == checked(report@, status_of(report@)),
{
    decode_get_status(report)
}

/// The reporting mode bytes: 1 is diverted and every other byte native;
/// native is sent as 0 and diverted as 1.
pub proof fn lemma_reporting_mode_bytes(b: u8)
    ensures
        ReportingMode::spec_from_byte(1) == ReportingMode::Diverted,
        b != 1 ==> ReportingMode::spec_from_byte(b) == ReportingMode::Native,
        ReportingMode::Native.spec_to_byte() == 0,
        ReportingMode::Diverted.spec_to_byte() == 1,
{
}

} // verus!
