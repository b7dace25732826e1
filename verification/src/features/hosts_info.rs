//! HID++ Feature 0x1815 — HostsInfos.
//!
//! Information about paired hosts on multi-host devices (function 0:
//! GetFeatureInfos, 1: GetHostInfos, 2: GetHostFriendlyName, 3:
//! GetHostOSVersion).
use vstd::prelude::*;

use crate::error::DecodeError;
use crate::report::{checked, param, request_bytes, LongReport};
use crate::types::{DeviceIndex, FeatureIndex, FunctionId, SoftwareId};

verus! {

broadcast use crate::report::lemma_report_len;

/// Host OS type.
#[derive(Debug, Clone, Copy, PartialEq, Eq, Structural)]
pub enum HostOS {
    Unknown,
    Windows,
    WinEmb,
    Linux,
    Chrome,
    Android,
    MacOS,
    IOS,
    Other(u8),
}

impl HostOS {
    /// The OS type an OS byte names.
    pub open spec fn spec_from_byte(b: u8) -> HostOS {
        if b == 0 {
            HostOS::Unknown
        } else if b == 1 {
            HostOS::Windows
        } else if b == 2 {
            HostOS::WinEmb
        } else if b == 3 {
            HostOS::Linux
        } else if b == 4 {
            HostOS::Chrome
        } else if b == 5 {
            HostOS::Android
        } else if b == 6 {
            HostOS::MacOS
        } else if b == 7 {
            HostOS::IOS
        } else {
            HostOS::Other(b)
        }
    }

    #[verifier::when_used_as_spec(spec_from_byte)]
    fn from_byte(b: u8) -> (os: HostOS)
        ensures
            os == HostOS::spec_from_byte(b),
    {
        match b {
            0 => HostOS::Unknown,
            1 => HostOS::Windows,
            2 => HostOS::WinEmb,
            3 => HostOS::Linux,
            4 => HostOS::Chrome,
            5 => HostOS::Android,
            6 => HostOS::MacOS,
            7 => HostOS::IOS,
            other => HostOS::Other(other),
        }
    }
}

/// Per-host information.
#[derive(Debug, Clone, PartialEq, Eq, Structural)]
pub struct HostDetails {
    pub status: u8,
    pub bus_type: u8,
    pub name_page_count: u8,
}

/// Host OS version info.
#[derive(Debug, Clone, PartialEq, Eq, Structural)]
pub struct HostOSVersion {
    pub os_type: HostOS,
    pub version_major: u8,
    pub version_minor: u8,
    pub version_patch: u8,
}

/// Function 0: GetFeatureInfos.
pub fn encode_get_feature_infos(
    device: DeviceIndex,
    feature_index: FeatureIndex,
    sw_id: SoftwareId,
) -> (r: LongReport)
    ensures
        r@ == request_bytes(device.0, feature_index.0, 0, sw_id.0, Seq::empty()),
{
    LongReport::request(device, feature_index, FunctionId(0), sw_id, &[])
}

/// Decode GetFeatureInfos: `(numHosts, currentHost, capabilities)`.
pub fn decode_get_feature_infos(report: &LongReport) -> (r: Result<(u8, u8, u8), DecodeError>)
    ensures
        r == checked(report@, (param(report@, 0), param(report@, 1), param(report@, 2))),
{
    report.check_error()?;
    let p = report.params();
    Ok((p[0], p[1], p[2]))
}

/// Function 1: GetHostInfos(hostIndex).
pub fn encode_get_host_infos(
    device: DeviceIndex,
    feature_index: FeatureIndex,
    host_index: u8,
    sw_id: SoftwareId,
) -> (r: LongReport)
    ensures
        r@ == request_bytes(device.0, feature_index.0, 1, sw_id.0, seq![host_index]),
{
    let params = [host_index];
    let r = LongReport::request(device, feature_index, FunctionId(1), sw_id, &params);
    assert(params@ =~= seq![host_index]);
    r
}

/// Decode GetHostInfos: status, bus type, name page count.
pub fn decode_get_host_infos(report: &LongReport) -> (r: Result<HostDetails, DecodeError>)
    ensures
        r == checked(
            report@,
            HostDetails {
                status: param(report@, 0),
                bus_type: param(report@, 1),
                name_page_count: param(report@, 2),
            },
        ),
{
    report.check_error()?;
    let p = report.params();
    Ok(HostDetails { status: p[0], bus_type: p[1], name_page_count: p[2] })
}

/// Function 2: GetHostFriendlyName(hostIndex, page) → name chunk.
pub fn encode_get_host_name(
    device: DeviceIndex,
    feature_index: FeatureIndex,
    host_index: u8,
    page: u8,
    sw_id: SoftwareId,
) -> (r: LongReport)
    ensures
        r@ == request_bytes(device.0, feature_index.0, 2, sw_id.0, seq![host_index, page]),
{
    let params = [host_index, page];
    let r = LongReport::request(device, feature_index, FunctionId(2), sw_id, &params);
    assert(params@ =~= seq![host_index, page]);
    r
}

/// Decode a host name chunk: `(nameLen, chunk bytes)`.
pub fn decode_get_host_name(report: &LongReport) -> (r: Result<(u8, &[u8]), DecodeError>)
    ensures
        match r {
            Ok((len, chunk)) => !crate::report::is_error_report(report@) && len == param(report@, 0)
                && chunk@ == report@.subrange(5, 20),
            Err(e) => crate::report::is_error_report(report@) && e == crate::report::device_error_of(
                report@,
            ),
        },
{
    report.check_error()?;
    let p = report.params();
    let name_len = p[0];
    Ok((name_len, vstd::slice::slice_subrange(p, 1, p.len())))
}

/// Function 3: GetHostOSVersion(hostIndex).
pub fn encode_get_host_os_version(
    device: DeviceIndex,
    feature_index: FeatureIndex,
    host_index: u8,
    sw_id: SoftwareId,
) -> (r: LongReport)
    ensures
        r@ == request_bytes(device.0, feature_index.0, 3, sw_id.0, seq![host_index]),
{
    let params = [host_index];
    let r = LongReport::request(device, feature_index, FunctionId(3), sw_id, &params);
    assert(params@ =~= seq![host_index]);
    r
}

/// Decode GetHostOSVersion: OS type, then major, minor and patch version.
pub fn decode_get_host_os_version(report: &LongReport) -> (r: Result<HostOSVersion, DecodeError>)
    ensures
        r == checked(
            report@,
            HostOSVersion {
                os_type: HostOS::spec_from_byte(param(report@, 0)),
                version_major: param(report@, 1),
                version_minor: param(report@, 2),
                version_patch: param(report@, 3),
            },
        ),
{
    report.check_error()?;
    let p = report.params();
    Ok(
        HostOSVersion {
            os_type: HostOS::from_byte(p[0]),
            version_major: p[1],
            version_minor: p[2],
            version_patch: p[3],
        },
    )
}

/// The host OS bytes: 0 unknown, 1 Windows, 2 Windows Embedded, 3 Linux,
/// 4 Chrome OS, 5 Android, 6 macOS, 7 iOS; any other byte is kept as it
/// is.
pub proof fn lemma_host_os_bytes(b: u8)
    ensures
        HostOS::spec_from_byte(0) == HostOS::Unknown,
        HostOS::spec_from_byte(1) == HostOS::Windows,
        HostOS::spec_from_byte(2) == HostOS::WinEmb,
        HostOS::spec_from_byte(3) == HostOS::Linux,
        HostOS::spec_from_byte(4) == HostOS::Chrome,
        HostOS::spec_from_byte(5) == HostOS::Android,
        HostOS::spec_from_byte(6) == HostOS::MacOS,
        HostOS::spec_from_byte(7) == HostOS::IOS,
        b > 7 ==> HostOS::spec_from_byte(b) == HostOS::Other(b),
{
}

} // verus!
