//! HID++ Feature 0x1D4B — WirelessDeviceStatus.
//!
//! Wireless connection status (function 0: GetStatus).
use vstd::prelude::*;

use crate::error::DecodeError;
use crate::report::{checked, param, request_bytes, LongReport};
use crate::types::{DeviceIndex, FeatureIndex, FunctionId, SoftwareId};

verus! {

broadcast use crate::report::lemma_report_len;

/// Wireless connection status.
#[derive(Debug, Clone, Copy, PartialEq, Eq, Structural)]
pub enum ConnectionStatus {
    /// Device is connected and communicating.
    Connected,
    /// Device is disconnected or unreachable.
    Disconnected,
    /// Unknown status value.
    Unknown(u8),
}

impl ConnectionStatus {
    /// The status a status byte names.
    pub open spec fn spec_from_byte(b: u8) -> ConnectionStatus {
        if b == 0 {
            ConnectionStatus::Disconnected
        } else if b == 1 {
            ConnectionStatus::Connected
        } else {
            ConnectionStatus::Unknown(b)
        }
    }

    #[verifier::when_used_as_spec(spec_from_byte)]
    fn from_byte(b: u8) -> (s: ConnectionStatus)
        ensures
            s == ConnectionStatus::spec_from_byte(b),
    {
        match b {
            0 => ConnectionStatus::Disconnected,
            1 => ConnectionStatus::Connected,
            other => ConnectionStatus::Unknown(other),
        }
    }
}

/// Wireless status report.
#[derive(Debug, Clone, PartialEq, Eq, Structural)]
pub struct WirelessStatus {
    pub status: ConnectionStatus,
    /// Additional status byte (device-specific meaning).
    pub extra: u8,
}

/// Function 0: GetStatus.
pub fn encode_get_status(device: DeviceIndex, feature_index: FeatureIndex, sw_id: SoftwareId) -> (r:
    LongReport)
    ensures
        r@ == request_bytes(device.0, feature_index.0, 0, sw_id.0, Seq::empty()),
{
    LongReport::request(device, feature_index, FunctionId(0), sw_id, &[])
}

/// Decode GetStatus: connection status, then an extra byte.
pub fn decode_get_status(report: &LongReport) -> (r: Result<WirelessStatus, DecodeError>)
    ensures
        r == checked(
            report@,
            WirelessStatus {
                status: ConnectionStatus::spec_from_byte(param(report@, 0)),
                extra: param(report@, 1),
            },
        ),
{
    report.check_error()?;
    let p = report.params();
    Ok(WirelessStatus { status: ConnectionStatus::from_byte(p[0]), extra: p[1] })
}

/// The connection status bytes: 0 disconnected, 1 connected; any other
/// byte is kept as it is.
pub proof fn lemma_connection_status_bytes(b: u8)
    ensures
        ConnectionStatus::spec_from_byte(0) == ConnectionStatus::Disconnected,
        ConnectionStatus::spec_from_byte(1) == ConnectionStatus::Connected,
        b > 1 ==> ConnectionStatus::spec_from_byte(b) == ConnectionStatus::Unknown(b),
{
}

} // verus!
