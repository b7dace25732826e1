//! HID++ Feature 0x0020 — ConfigChange.
//!
//! Configuration cookie that prevents races when several hosts configure
//! the device (function 0: GetConfigurationCookie, function 1:
//! SetConfigurationComplete).
use vstd::prelude::*;

use crate::error::DecodeError;
use crate::report::{
    be_u16, checked, hi_byte, lo_byte, param, read_be_u16, request_bytes, split_be_u16, LongReport,
};
use crate::types::{DeviceIndex, FeatureIndex, FunctionId, SoftwareId};

verus! {

broadcast use crate::report::lemma_report_len;

/// Function 0: GetConfigurationCookie.
pub fn encode_get_cookie(device: DeviceIndex, feature_index: FeatureIndex, sw_id: SoftwareId) -> (r:
    LongReport)
    ensures
        r@ == request_bytes(device.0, feature_index.0, 0, sw_id.0, Seq::empty()),
{
    LongReport::request(device, feature_index, FunctionId(0), sw_id, &[])
}

/// Decode GetConfigurationCookie: a big-endian 16-bit cookie.
pub fn decode_get_cookie(report: &LongReport) -> (r: Result<u16, DecodeError>)
    ensures
        r == checked(report@, be_u16(param(report@, 0), param(report@, 1))),
{
    report.check_error()?;
    let p = report.params();
    Ok(read_be_u16(p[0], p[1]))
}

/// Function 1: SetConfigurationComplete — signal that configuration is done.
pub fn encode_set_complete(
    device: DeviceIndex,
    feature_index: FeatureIndex,
    cookie: u16,
    sw_id: SoftwareId,
) -> (r: LongReport)
    ensures
        r@ == request_bytes(device.0, feature_index.0, 1, sw_id.0, seq![hi_byte(cookie), lo_byte(cookie)]),
{
    let (hi, lo) = split_be_u16(cookie);
    let params = [hi, lo];
    let r = LongReport::request(device, feature_index, FunctionId(1), sw_id, &params);
    assert(params@ =~= seq![hi_byte(cookie), lo_byte(cookie)]);
    r
}

} // verus!
