//! HID++ Features 0x2110 / 0x2111 — SmartShift (legacy / with tunable
//! torque).
//!
//! Controls the scroll wheel ratchet/free-spin behavior. The legacy 0x2110
//! uses function 0 to get and 1 to set (2 bytes); the enhanced 0x2111 uses
//! function 0 for capabilities, 1 to get and 2 to set (3 bytes). Both
//! answer with the same payload.
use vstd::prelude::*;

use crate::error::DecodeError;
use crate::report::{checked, is_error_report, param, request_bytes, LongReport};
use crate::types::{DeviceIndex, FeatureIndex, FunctionId, SoftwareId};

verus! {

broadcast use crate::report::lemma_report_len;

/// Scroll wheel mode: free-spin is byte 1, ratchet byte 2.
#[derive(Debug, Clone, Copy, PartialEq, Eq, Structural)]
pub enum WheelMode {
    /// Free-spin (smooth/fast) scrolling.
    FreeScroll,
    /// Ratchet (click-click) scrolling.
    Ratchet,
}

impl WheelMode {
    /// The mode a mode byte names: 1 is free-spin, anything else ratchet.
    pub open spec fn spec_from_byte(b: u8) -> WheelMode {
        if b == 1 {
            WheelMode::FreeScroll
        } else {
            WheelMode::Ratchet
        }
    }

    /// The wire value of a mode.
    pub open spec fn spec_to_byte(&self) -> u8 {
        match self {
            WheelMode::FreeScroll => 1,
            WheelMode::Ratchet => 2,
        }
    }

    /// Decode a mode byte.
    #[verifier::when_used_as_spec(spec_from_byte)]
    pub fn from_byte(b: u8) -> (m: WheelMode)
        ensures
            m == WheelMode::spec_from_byte(b),
    {
        match b {
            1 => WheelMode::FreeScroll,
            _ => WheelMode::Ratchet,
        }
    }

    /// The wire value of the mode (1 free-spin, 2 ratchet).
    #[verifier::when_used_as_spec(spec_to_byte)]
    pub fn to_byte(&self) -> (b: u8)
        ensures
            b == self.spec_to_byte(),
    {
        match self {
            WheelMode::FreeScroll => 1,
            WheelMode::Ratchet => 2,
        }
    }
}

/// Every mode reads back from its wire value.
pub proof fn lemma_mode_byte_roundtrip(mode: WheelMode)
    ensures
        WheelMode::spec_from_byte(mode.spec_to_byte()) == mode,
{
}

/// SmartShift capabilities reported by the device.
#[derive(Debug, Clone, PartialEq, Eq, Structural)]
pub struct SmartShiftCapabilities {
    /// Whether the device supports tunable torque (feature 0x2111).
    pub has_tunable_torque: bool,
    /// Default auto-disengage threshold.
    pub auto_disengage_default: u8,
    /// Default tunable torque value.
    pub default_tunable_torque: u8,
    /// Maximum force value.
    pub max_force: u8,
}

/// Current SmartShift state. For the legacy feature `tunable_torque` is 0.
#[derive(Debug, Clone, PartialEq, Eq, Structural)]
pub struct SmartShiftState {
    /// Current wheel mode.
    pub mode: WheelMode,
    /// Auto-disengage threshold (0 = disabled, 1-255 = speed threshold).
    pub auto_disengage: u8,
    /// Tunable torque (0x2111 only): resistance level for ratchet clicks.
    pub tunable_torque: u8,
}

/// The state that a mode payload carries.
pub open spec fn state_of(report: Seq<u8>) -> SmartShiftState {
    SmartShiftState {
        mode: WheelMode::spec_from_byte(param(report, 0)),
        auto_disengage: param(report, 1),
        tunable_torque: param(report, 2),
    }
}

/// Function 0: GetCapabilities.
pub fn encode_get_capabilities(
    device: DeviceIndex,
    feature_index: FeatureIndex,
    sw_id: SoftwareId,
) -> (r: LongReport)
    ensures
        r@ == request_bytes(device.0, feature_index.0, 0, sw_id.0, Seq::empty()),
{
    LongReport::request(device, feature_index, FunctionId(0), sw_id, &[])
}

/// Decode GetCapabilities: flags (bit 0 tunable torque), auto-disengage
/// default, default torque, maximum force.
pub fn decode_get_capabilities(report: &LongReport) -> (r: Result<SmartShiftCapabilities, DecodeError>)
    ensures
        r == checked(
            report@,
            SmartShiftCapabilities {
                has_tunable_torque: param(report@, 0) & 0x01u8 != 0,
                auto_disengage_default: param(report@, 1),
                default_tunable_torque: param(report@, 2),
                max_force: param(report@, 3),
            },
        ),
{
    report.check_error()?;
    let p = report.params();
    Ok(
        SmartShiftCapabilities {
            has_tunable_torque: (p[0] & 0x01) != 0,
            auto_disengage_default: p[1],
            default_tunable_torque: p[2],
            max_force: p[3],
        },
    )
}

/// 0x2110 function 0: GetRatchetControlMode (legacy).
pub fn encode_get_mode_v0(device: DeviceIndex, feature_index: FeatureIndex, sw_id: SoftwareId) -> (r:
    LongReport)
    ensures
        r@ == request_bytes(device.0, feature_index.0, 0, sw_id.0, Seq::empty()),
{
    LongReport::request(device, feature_index, FunctionId(0), sw_id, &[])
}

/// 0x2110 function 1: SetRatchetControlMode (legacy, 2 bytes).
pub fn encode_set_mode_v0(
    device: DeviceIndex,
    feature_index: FeatureIndex,
    sw_id: SoftwareId,
    state: &SmartShiftState,
) -> (r: LongReport)
    ensures
        r@ == request_bytes(device.0, feature_index.0, 1, sw_id.0, seq![state.mode.spec_to_byte(), state.auto_disengage]),
{
    let params = [state.mode.to_byte(), state.auto_disengage];
    let r = LongReport::request(device, feature_index, FunctionId(1), sw_id, &params);
    assert(params@ =~= seq![state.mode.spec_to_byte(), state.auto_disengage]);
    r
}

/// 0x2111 function 1: GetRatchetControlMode (enhanced).
pub fn encode_get_mode_v1(device: DeviceIndex, feature_index: FeatureIndex, sw_id: SoftwareId) -> (r:
    LongReport)
    ensures
        r@ == request_bytes(device.0, feature_index.0, 1, sw_id.0, Seq::empty()),
{
    LongReport::request(device, feature_index, FunctionId(1), sw_id, &[])
}

/// 0x2111 function 2: SetRatchetControlMode (enhanced, 3 bytes).
pub fn encode_set_mode_v1(
    device: DeviceIndex,
    feature_index: FeatureIndex,
    sw_id: SoftwareId,
    state: &SmartShiftState,
) -> (r: LongReport)
    ensures
        r@ == request_bytes(
            device.0,
            feature_index.0,
            2,
            sw_id.0,
            seq![state.mode.spec_to_byte(), state.auto_disengage, state.tunable_torque],
        ),
{
    let params = [state.mode.to_byte(), state.auto_disengage, state.tunable_torque];
    let r = LongReport::request(device, feature_index, FunctionId(2), sw_id, &params);
    assert(params@ =~= seq![state.mode.spec_to_byte(), state.auto_disengage, state.tunable_torque]);
    r
}

/// Decode GetRatchetControlMode (both versions): wheel mode,
/// auto-disengage, tunable torque.
pub fn decode_get_mode(report: &LongReport) -> (r: Result<SmartShiftState, DecodeError>)
    ensures
        r == checked(report@, state_of(report@)),
{
    report.check_error()?;
    let p = report.params();
    Ok(
        SmartShiftState {
            mode: WheelMode::from_byte(p[0]),
            auto_disengage: p[1],
            tunable_torque: p[2],
        },
    )
}

/// Decode SetRatchetControlMode (echoes back the applied state).
pub fn decode_set_mode(report: &LongReport) -> (r: Result<SmartShiftState, DecodeError>)
    ensures
        r == checked(report@, state_of(report@)),
{
    decode_get_mode(report)
}

/// An enhanced set request decodes back to the state it carries (unless
/// the feature index is `0xFF`, which marks error reports).
pub proof fn lemma_set_mode_v1_roundtrip(
    device: DeviceIndex,
    feature_index: FeatureIndex,
    sw_id: SoftwareId,
    state: SmartShiftState,
)
    requires
        feature_index.0 != 0xFF,
    ensures
        ({
            let r = request_bytes(
                device.0,
                feature_index.0,
                2,
                sw_id.0,
                seq![state.mode.spec_to_byte(), state.auto_disengage, state.tunable_torque],
            );
            !is_error_report(r) && state_of(r) == state
        }),
{
}

/// A legacy set request decodes back to its mode and auto-disengage
/// threshold, with no torque (unless the feature index is `0xFF`).
pub proof fn lemma_set_mode_v0_roundtrip(
    device: DeviceIndex,
    feature_index: FeatureIndex,
    sw_id: SoftwareId,
    state: SmartShiftState,
)
    requires
        feature_index.0 != 0xFF,
    ensures
        ({
            let r = request_bytes(
                device.0,
                feature_index.0,
                1,
                sw_id.0,
                seq![state.mode.spec_to_byte(), state.auto_disengage],
            );
            !is_error_report(r) && state_of(r) == SmartShiftState { tunable_torque: 0, ..state }
        }),
{
}

/// The wheel mode bytes: 1 is free scroll and every other byte ratchet;
/// free scroll is sent as 1 and ratchet as 2.
pub proof fn lemma_wheel_mode_bytes(b: u8)
    ensures
        WheelMode::spec_from_byte(1) == WheelMode::FreeScroll,
        b != 1 ==> WheelMode::spec_from_byte(b) == WheelMode::Ratchet,
        WheelMode::FreeScroll.spec_to_byte() == 1,
        WheelMode::Ratchet.spec_to_byte() == 2,
{
}

} // verus!
