//! HID++ Feature 0x0001 — FeatureSet.
//!
//! Enumerates all features supported by the device.
use vstd::prelude::*;

use crate::error::DecodeError;
use crate::report::{be_u16, checked, param, request_bytes, read_be_u16, LongReport};
use crate::types::{DeviceIndex, FeatureFlags, FeatureId, FeatureIndex, FunctionId, SoftwareId};

verus! {

broadcast use crate::report::lemma_report_len;

/// Function 0: GetCount — how many features the device supports.
pub fn encode_get_count(device: DeviceIndex, feature_index: FeatureIndex, sw_id: SoftwareId) -> (r:
    LongReport)
    ensures
        r@ == request_bytes(device.0, feature_index.0, 0, sw_id.0, Seq::empty()),
{
    LongReport::request(device, feature_index, FunctionId(0), sw_id, &[])
}

/// Decode GetCount: the total number of features.
pub fn decode_get_count(report: &LongReport) -> (r: Result<u8, DecodeError>)
    ensures
        r == checked(report@, param(report@, 0)),
{
    report.check_error()?;
    Ok(report.params()[0])
}

/// Function 1: GetFeatureID — the feature ID at a given table index.
pub fn encode_get_feature_id(
    device: DeviceIndex,
    feature_index: FeatureIndex,
    table_index: u8,
    sw_id: SoftwareId,
) -> (r: LongReport)
    ensures
        r@ == request_bytes(device.0, feature_index.0, 1, sw_id.0, seq![table_index]),
{
    let params = [table_index];
    let r = LongReport::request(device, feature_index, FunctionId(1), sw_id, &params);
    assert(params@ =~= seq![table_index]);
    r
}

/// Decoded feature info from FeatureSet::GetFeatureID.
#[derive(Debug, Clone, PartialEq, Eq, Structural)]
pub struct FeatureInfo {
    pub feature_id: FeatureId,
    pub flags: FeatureFlags,
    pub version: u8,
}

/// Decode GetFeatureID: feature ID (big-endian), flags, version.
pub fn decode_get_feature_id(report: &LongReport) -> (r: Result<FeatureInfo, DecodeError>)
    ensures
        r == checked(
            report@,
            FeatureInfo {
                feature_id: FeatureId(be_u16(param(report@, 0), param(report@, 1))),
                flags: FeatureFlags::spec_from_bits_truncate(param(report@, 2)),
                version: param(report@, 3),
            },
        ),
{
    report.check_error()?;
    let params = report.params();
    let feature_id = FeatureId(read_be_u16(params[0], params[1]));
    let flags = FeatureFlags::from_bits_truncate(params[2]);
    let version = params[3];
    Ok(FeatureInfo { feature_id, flags, version })
}

} // verus!
