//! HID++ Feature 0x0000 — Root.
//!
//! Present on every HID++ 2.0 device at feature index 0x00. Used to ping
//! the device and to resolve a feature ID to its runtime feature index.
use vstd::prelude::*;

use crate::error::DecodeError;
use crate::report::{
    checked, hi_byte, lo_byte, param, request_bytes, split_be_u16, LongReport,
};
use crate::types::{DeviceIndex, FeatureFlags, FeatureId, FeatureIndex, FunctionId, SoftwareId};

verus! {

broadcast use crate::report::lemma_report_len;

/// The marker byte that a ping carries and the device echoes back.
pub const PING_MARKER: u8 = 0x5A;

/// The parameters of a ping request: sixteen bytes, all zero but the marker
/// at position 2.
pub open spec fn ping_params() -> Seq<u8> {
    Seq::new(16, |i: int| if i == 2 { PING_MARKER } else { 0u8 })
}

/// Function 0: GetFeature — resolve a feature ID to its runtime index.
pub fn encode_get_feature(device: DeviceIndex, feature_id: FeatureId, sw_id: SoftwareId) -> (r:
    LongReport)
    ensures
        r@ == request_bytes(device.0, 0, 0, sw_id.0, seq![hi_byte(feature_id.0), lo_byte(feature_id.0)]),
{
    let (hi, lo) = split_be_u16(feature_id.0);
    let params = [hi, lo];
    let r = LongReport::request(device, FeatureIndex::root(), FunctionId(0), sw_id, &params);
    assert(params@ =~= seq![hi_byte(feature_id.0), lo_byte(feature_id.0)]);
    r
}

/// Decode the response to GetFeature: `(feature_index, feature_type)`.
/// A feature index of 0 means the feature is not supported.
pub fn decode_get_feature(report: &LongReport) -> (r: Result<(FeatureIndex, FeatureFlags), DecodeError>)
    ensures
        r == checked(
            report@,
            (FeatureIndex(param(report@, 0)), FeatureFlags::spec_from_bits_truncate(param(report@, 1))),
        ),
{
    report.check_error()?;
    let params = report.params();
    let index = FeatureIndex(params[0]);
    let flags = FeatureFlags::from_bits_truncate(params[1]);
    Ok((index, flags))
}

/// Function 1: Ping — verify the device is alive.
///
/// The ping payload is arbitrary; the device echoes it back.
pub fn encode_ping(device: DeviceIndex, sw_id: SoftwareId) -> (r: LongReport)
    ensures
        r@ == request_bytes(device.0, 0, 1, sw_id.0, ping_params()),
{
    let mut params = [0u8; 16];
    params[2] = PING_MARKER;
    let r = LongReport::request(device, FeatureIndex::root(), FunctionId(1), sw_id, &params);
    assert(params@ =~= ping_params());
    r
}

/// Decode a ping response: the protocol version `(major, minor)`.
pub fn decode_ping(report: &LongReport) -> (r: Result<(u8, u8), DecodeError>)
    ensures
        r == checked(report@, (param(report@, 0), param(report@, 1))),
{
    report.check_error()?;
    let params = report.params();
    Ok((params[0], params[1]))
}

} // verus!
