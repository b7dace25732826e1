//! HID++ Feature 0x2121 — HiResWheel.
//!
//! High-resolution scroll wheel: resolution, diversion, inversion and
//! analytics (function 0: GetWheelCapability, 1: GetWheelMode, 2:
//! SetWheelMode).
use vstd::prelude::*;

use crate::error::DecodeError;
use crate::report::{checked, is_error_report, param, request_bytes, LongReport};
use crate::types::{DeviceIndex, FeatureIndex, FunctionId, SoftwareId};

verus! {

broadcast use crate::report::lemma_report_len;

/// Wheel capabilities reported by the device.
#[derive(Debug, Clone, PartialEq, Eq, Structural)]
pub struct WheelCapabilities {
    /// Scroll event multiplier for hi-res mode.
    pub multiplier: u8,
    /// Device has priority control.
    pub has_priority: bool,
    /// Device has report rate control.
    pub has_rate: bool,
    /// Device has ratchet switch (hardware mode toggle).
    pub has_ratchet_switch: bool,
    /// Device supports scroll direction inversion.
    pub has_inversion: bool,
    /// Device supports analytics data reporting.
    pub has_analytics_data: bool,
    /// Number of ratchet detents per full wheel rotation.
    pub ratchets_per_rotation: u8,
    /// Wheel diameter (implementation-specific units).
    pub wheel_diameter: u8,
}

/// Current wheel mode configuration.
#[derive(Debug, Clone, PartialEq, Eq, Structural)]
pub struct WheelMode {
    /// Scroll events diverted to software (true) or native HID (false).
    pub diverted: bool,
    /// High-resolution scrolling enabled.
    pub high_resolution: bool,
    /// Scroll direction inverted.
    pub inverted: bool,
    /// Analytics data reporting enabled.
    pub analytics: bool,
    /// Scroll priority level.
    pub priority: u8,
    /// Target report rate.
    pub rate: u8,
}

/// A single flag bit: `1 << shift` when set.
pub open spec fn flag_bit(set: bool, shift: u8) -> u8 {
    if set {
        1u8 << shift
    } else {
        0u8
    }
}

/// The flags byte of a wheel mode (bit 0 diverted, bit 1 high resolution,
/// bit 2 inverted, bit 3 analytics).
pub open spec fn mode_flags(mode: WheelMode) -> u8 {
    flag_bit(mode.diverted, 0) | flag_bit(mode.high_resolution, 1) | flag_bit(mode.inverted, 2)
        | flag_bit(mode.analytics, 3)
}

/// The wheel mode that a mode payload carries.
pub open spec fn mode_of(report: Seq<u8>) -> WheelMode {
    WheelMode {
        diverted: param(report, 0) & 0x01u8 != 0,
        high_resolution: param(report, 0) & 0x02u8 != 0,
        inverted: param(report, 0) & 0x04u8 != 0,
        analytics: param(report, 0) & 0x08u8 != 0,
        priority: param(report, 1),
        rate: param(report, 2),
    }
}

/// Function 0: GetWheelCapability.
pub fn encode_get_capabilities(
    device: DeviceIndex,
    feature_index: FeatureIndex,
    sw_id: SoftwareId,
) -> (r: LongReport)
    ensures
        r@ == request_bytes(device.0, feature_index.0, 0, sw_id.0, Seq::empty()),
{
    LongReport::request(device, feature_index, FunctionId(0), sw_id, &[])
}

/// Decode GetWheelCapability: multiplier, capability flags (bit 0
/// priority, 1 rate, 2 ratchet switch, 3 inversion, 4 analytics),
/// ratchets per rotation, wheel diameter.
pub fn decode_get_capabilities(report: &LongReport) -> (r: Result<WheelCapabilities, DecodeError>)
    ensures
        r == checked(
            report@,
            WheelCapabilities {
                multiplier: param(report@, 0),
                has_priority: param(report@, 1) & 0x01u8 != 0,
                has_rate: param(report@, 1) & 0x02u8 != 0,
                has_ratchet_switch: param(report@, 1) & 0x04u8 != 0,
                has_inversion: param(report@, 1) & 0x08u8 != 0,
                has_analytics_data: param(report@, 1) & 0x10u8 != 0,
                ratchets_per_rotation: param(report@, 2),
                wheel_diameter: param(report@, 3),
            },
        ),
{
    report.check_error()?;
    let p = report.params();
    Ok(
        WheelCapabilities {
            multiplier: p[0],
            has_priority: (p[1] & 0x01) != 0,
            has_rate: (p[1] & 0x02) != 0,
            has_ratchet_switch: (p[1] & 0x04) != 0,
            has_inversion: (p[1] & 0x08) != 0,
            has_analytics_data: (p[1] & 0x10) != 0,
            ratchets_per_rotation: p[2],
            wheel_diameter: p[3],
        },
    )
}

/// Function 1: GetWheelMode.
pub fn encode_get_mode(device: DeviceIndex, feature_index: FeatureIndex, sw_id: SoftwareId) -> (r:
    LongReport)
    ensures
        r@ == request_bytes(device.0, feature_index.0, 1, sw_id.0, Seq::empty()),
{
    LongReport::request(device, feature_index, FunctionId(1), sw_id, &[])
}

/// Decode GetWheelMode: flags (bit 0 diverted, 1 high resolution, 2
/// inverted, 3 analytics), priority, rate.
pub fn decode_get_mode(report: &LongReport) -> (r: Result<WheelMode, DecodeError>)
    ensures
        r == checked(report@, mode_of(report@)),
{
    report.check_error()?;
    let p = report.params();
    Ok(
        WheelMode {
            diverted: (p[0] & 0x01) != 0,
            high_resolution: (p[0] & 0x02) != 0,
            inverted: (p[0] & 0x04) != 0,
            analytics: (p[0] & 0x08) != 0,
            priority: p[1],
            rate: p[2],
        },
    )
}

/// Function 2: SetWheelMode.
pub fn encode_set_mode(
    device: DeviceIndex,
    feature_index: FeatureIndex,
    sw_id: SoftwareId,
    mode: &WheelMode,
) -> (r: LongReport)
    ensures
        r@ == request_bytes(device.0, feature_index.0, 2, sw_id.0, seq![mode_flags(*mode), mode.priority, mode.rate]),
{
    let d: u8 = if mode.diverted { 1u8 << 0u8 } else { 0 };
    let h: u8 = if mode.high_resolution { 1u8 << 1u8 } else { 0 };
    let i: u8 = if mode.inverted { 1u8 << 2u8 } else { 0 };
    let a: u8 = if mode.analytics { 1u8 << 3u8 } else { 0 };
    let flags = d | h | i | a;
    let params = [flags, mode.priority, mode.rate];
    let r = LongReport::request(device, feature_index, FunctionId(2), sw_id, &params);
    assert(params@ =~= seq![mode_flags(*mode), mode.priority, mode.rate]);
    r
}

/// Decode SetWheelMode (echoes back the applied values).
pub fn decode_set_mode(report: &LongReport) -> (r: Result<WheelMode, DecodeError>)
    ensures
        r == checked(report@, mode_of(report@)),
{
    decode_get_mode(report)
}

/// The mode flags byte reads back as the four flags it was built from.
pub proof fn lemma_mode_flags_read_back(mode: WheelMode)
    ensures
        (mode_flags(mode) & 0x01u8 != 0) == mode.diverted,
        (mode_flags(mode) & 0x02u8 != 0) == mode.high_resolution,
        (mode_flags(mode) & 0x04u8 != 0) == mode.inverted,
        (mode_flags(mode) & 0x08u8 != 0) == mode.analytics,
{
    let d = mode.diverted;
    let h = mode.high_resolution;
    let i = mode.inverted;
    let a = mode.analytics;
    assert({
        let f = (if d { 1u8 << 0u8 } else { 0u8 }) | (if h { 1u8 << 1u8 } else { 0u8 }) | (if i {
            1u8 << 2u8
        } else {
            0u8
        }) | (if a { 1u8 << 3u8 } else { 0u8 });
        &&& (f & 0x01u8 != 0) == d
        &&& (f & 0x02u8 != 0) == h
        &&& (f & 0x04u8 != 0) == i
        &&& (f & 0x08u8 != 0) == a
    }) by (bit_vector);
}

/// Decoding a SetWheelMode request gives back the mode it was built from
/// (unless the feature index is `0xFF`, which marks error reports).
pub proof fn lemma_set_mode_roundtrip(
    device: DeviceIndex,
    feature_index: FeatureIndex,
    sw_id: SoftwareId,
    mode: WheelMode,
)
    requires
        feature_index.0 != 0xFF,
    ensures
        ({
            let r = request_bytes(device.0, feature_index.0, 2, sw_id.0, seq![mode_flags(mode), mode.priority, mode.rate]);
            !is_error_report(r) && mode_of(r) == mode
        }),
{
    lemma_mode_flags_read_back(mode);
}

} // verus!
