//! HID++ Feature 0x1814 — ChangeHost (Easy-Switch).
//!
//! Manages multi-host connectivity (function 0: GetHostInfo, function 1:
//! SetCurrentHost).
use vstd::prelude::*;

use crate::error::DecodeError;
use crate::report::{checked, param, request_bytes, LongReport};
use crate::types::{DeviceIndex, FeatureIndex, FunctionId, SoftwareId};

verus! {

broadcast use crate::report::lemma_report_len;

/// Host connection info.
#[derive(Debug, Clone, PartialEq, Eq, Structural)]
pub struct HostInfo {
    /// Total number of host slots.
    pub num_hosts: u8,
    /// Currently active host index (0-based).
    pub current_host: u8,
}

/// Function 0: GetHostInfo.
pub fn encode_get_host_info(device: DeviceIndex, feature_index: FeatureIndex, sw_id: SoftwareId) -> (r:
    LongReport)
    ensures
        r@ == request_bytes(device.0, feature_index.0, 0, sw_id.0, Seq::empty()),
{
    LongReport::request(device, feature_index, FunctionId(0), sw_id, &[])
}

/// Decode GetHostInfo: number of hosts, then the current host.
pub fn decode_get_host_info(report: &LongReport) -> (r: Result<HostInfo, DecodeError>)
    ensures
        r == checked(
            report@,
            HostInfo { num_hosts: param(report@, 0), current_host: param(report@, 1) },
        ),
{
    report.check_error()?;
    let p = report.params();
    Ok(HostInfo { num_hosts: p[0], current_host: p[1] })
}

/// Function 1: SetCurrentHost — switch to another host slot
/// (`0..num_hosts`). The device disconnects from the current host.
pub fn encode_set_current_host(
    device: DeviceIndex,
    feature_index: FeatureIndex,
    sw_id: SoftwareId,
    host_index: u8,
) -> (r: LongReport)
    ensures
        r@ == request_bytes(device.0, feature_index.0, 1, sw_id.0, seq![host_index]),
{
    let params = [host_index];
    let r = LongReport::request(device, feature_index, FunctionId(1), sw_id, &params);
    assert(params@ =~= seq![host_index]);
    r
}

} // verus!
