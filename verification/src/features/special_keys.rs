//! HID++ Feature 0x1B04 — SpecialKeys v4.
//!
//! Button remapping and diversion (function 0: GetCount, 1:
//! GetCtrlIdInfo, 2: GetCtrlIdReporting, 3: SetCtrlIdReporting).
use vstd::prelude::*;

use crate::error::DecodeError;
use crate::report::{
    be_u16, checked, hi_byte, is_error_report, lo_byte, param, read_be_u16, request_bytes,
    split_be_u16, LongReport,
};
use crate::types::{ControlId, DeviceIndex, FeatureIndex, FunctionId, SoftwareId};

verus! {

broadcast use crate::report::lemma_report_len;

/// Information about a remappable control.
#[derive(Debug, Clone, PartialEq, Eq, Structural)]
pub struct ControlInfo {
    /// Control ID — identifies the physical button.
    pub cid: ControlId,
    /// Task ID — the default action for this control.
    pub tid: ControlId,
    /// Capability flags.
    pub flags: u8,
    /// Position in the device layout.
    pub position: u8,
    /// Group this control belongs to.
    pub group: u8,
    /// Group mask.
    pub group_mask: u8,
    /// Additional capability flags.
    pub additional_flags: u8,
}

impl ControlInfo {
    /// Whether this control can be diverted to software (flag bit 0).
    pub fn is_divertable(&self) -> (b: bool)
        ensures
            b == (self.flags & 0x01u8 != 0),
    {
        (self.flags & 0x01) != 0
    }

    /// Whether diversion persists across power cycles (flag bit 1).
    pub fn is_persistently_divertable(&self) -> (b: bool)
        ensures
            b == (self.flags & 0x02u8 != 0),
    {
        (self.flags & 0x02) != 0
    }

    /// Whether this is a virtual control, not a physical button (flag bit 2).
    pub fn is_virtual(&self) -> (b: bool)
        ensures
            b == (self.flags & 0x04u8 != 0),
    {
        (self.flags & 0x04) != 0
    }
}

/// Current reporting configuration for a control.
#[derive(Debug, Clone, PartialEq, Eq, Structural)]
pub struct ControlReporting {
    /// The control ID.
    pub cid: ControlId,
    /// Reporting flags (divert, rawXY, persist, etc.).
    pub flags: u8,
    /// Remapped control ID (0 = not remapped).
    pub remapped_cid: ControlId,
    /// Additional flags.
    pub additional_flags: u8,
}

impl ControlReporting {
    /// Whether this control is currently diverted to software (bit 0).
    pub fn is_diverted(&self) -> (b: bool)
        ensures
            b == (self.flags & 0x01u8 != 0),
    {
        (self.flags & 0x01) != 0
    }

    /// Whether raw XY data is reported when diverted (bit 1).
    pub fn raw_xy_enabled(&self) -> (b: bool)
        ensures
            b == (self.flags & 0x02u8 != 0),
    {
        (self.flags & 0x02) != 0
    }

    /// Whether diversion persists across power cycles (bit 2).
    pub fn persist_enabled(&self) -> (b: bool)
        ensures
            b == (self.flags & 0x04u8 != 0),
    {
        (self.flags & 0x04) != 0
    }
}

/// The reporting configuration that a reporting payload carries.
pub open spec fn reporting_of(report: Seq<u8>) -> ControlReporting {
    ControlReporting {
        cid: ControlId(be_u16(param(report, 0), param(report, 1))),
        flags: param(report, 2),
        remapped_cid: ControlId(be_u16(param(report, 3), param(report, 4))),
        additional_flags: param(report, 5),
    }
}

/// The six parameter bytes of SetCtrlIdReporting.
pub open spec fn set_reporting_params(
    cid: ControlId,
    flags: u8,
    remapped_cid: ControlId,
    additional_flags: u8,
) -> Seq<u8> {
    seq![
        hi_byte(cid.0),
        lo_byte(cid.0),
        flags,
        hi_byte(remapped_cid.0),
        lo_byte(remapped_cid.0),
        additional_flags,
    ]
}

/// Function 0: GetCount — number of remappable controls.
pub fn encode_get_count(device: DeviceIndex, feature_index: FeatureIndex, sw_id: SoftwareId) -> (r:
    LongReport)
    ensures
        r@ == request_bytes(device.0, feature_index.0, 0, sw_id.0, Seq::empty()),
{
    LongReport::request(device, feature_index, FunctionId(0), sw_id, &[])
}

/// Decode GetCount.
pub fn decode_get_count(report: &LongReport) -> (r: Result<u8, DecodeError>)
    ensures
        r == checked(report@, param(report@, 0)),
{
    report.check_error()?;
    Ok(report.params()[0])
}

/// Function 1: GetCtrlIdInfo — info about the control at `index`.
pub fn encode_get_ctrl_id_info(
    device: DeviceIndex,
    feature_index: FeatureIndex,
    index: u8,
    sw_id: SoftwareId,
) -> (r: LongReport)
    ensures
        r@ == request_bytes(device.0, feature_index.0, 1, sw_id.0, seq![index]),
{
    let params = [index];
    let r = LongReport::request(device, feature_index, FunctionId(1), sw_id, &params);
    assert(params@ =~= seq![index]);
    r
}

/// Decode GetCtrlIdInfo: CID and TID (big-endian), flags, position,
/// group, group mask, additional flags.
pub fn decode_get_ctrl_id_info(report: &LongReport) -> (r: Result<ControlInfo, DecodeError>)
    ensures
        r == checked(
            report@,
            ControlInfo {
                cid: ControlId(be_u16(param(report@, 0), param(report@, 1))),
                tid: ControlId(be_u16(param(report@, 2), param(report@, 3))),
                flags: param(report@, 4),
                position: param(report@, 5),
                group: param(report@, 6),
                group_mask: param(report@, 7),
                additional_flags: param(report@, 8),
            },
        ),
{
    report.check_error()?;
    let p = report.params();
    Ok(
        ControlInfo {
            cid: ControlId(read_be_u16(p[0], p[1])),
            tid: ControlId(read_be_u16(p[2], p[3])),
            flags: p[4],
            position: p[5],
            group: p[6],
            group_mask: p[7],
            additional_flags: p[8],
        },
    )
}

/// Function 2: GetCtrlIdReporting — current reporting for a CID.
pub fn encode_get_ctrl_id_reporting(
    device: DeviceIndex,
    feature_index: FeatureIndex,
    cid: ControlId,
    sw_id: SoftwareId,
) -> (r: LongReport)
    ensures
        r@ == request_bytes(device.0, feature_index.0, 2, sw_id.0, seq![hi_byte(cid.0), lo_byte(cid.0)]),
{
    let (hi, lo) = split_be_u16(cid.0);
    let params = [hi, lo];
    let r = LongReport::request(device, feature_index, FunctionId(2), sw_id, &params);
    assert(params@ =~= seq![hi_byte(cid.0), lo_byte(cid.0)]);
    r
}

/// Decode GetCtrlIdReporting: CID, flags, remapped CID, additional flags.
pub fn decode_get_ctrl_id_reporting(report: &LongReport) -> (r: Result<ControlReporting, DecodeError>)
    ensures
        r == checked(report@, reporting_of(report@)),
{
    report.check_error()?;
    let p = report.params();
    Ok(
        ControlReporting {
            cid: ControlId(read_be_u16(p[0], p[1])),
            flags: p[2],
            remapped_cid: ControlId(read_be_u16(p[3], p[4])),
            additional_flags: p[5],
        },
    )
}

/// Function 3: SetCtrlIdReporting — set reporting for a CID.
pub fn encode_set_ctrl_id_reporting(
    device: DeviceIndex,
    feature_index: FeatureIndex,
    sw_id: SoftwareId,
    cid: ControlId,
    flags: u8,
    remapped_cid: ControlId,
    additional_flags: u8,
) -> (r: LongReport)
    ensures
        r@ == request_bytes(
            device.0,
            feature_index.0,
            3,
            sw_id.0,
            set_reporting_params(cid, flags, remapped_cid, additional_flags),
        ),
{
    let (c_hi, c_lo) = split_be_u16(cid.0);
    let (r_hi, r_lo) = split_be_u16(remapped_cid.0);
    let params = [c_hi, c_lo, flags, r_hi, r_lo, additional_flags];
    let r = LongReport::request(device, feature_index, FunctionId(3), sw_id, &params);
    assert(params@ =~= set_reporting_params(cid, flags, remapped_cid, additional_flags));
    r
}

/// Decode SetCtrlIdReporting (same payload as GetCtrlIdReporting).
pub fn decode_set_ctrl_id_reporting(report: &LongReport) -> (r: Result<ControlReporting, DecodeError>)
    ensures
        r == checked(report@, reporting_of(report@)),
{
    decode_get_ctrl_id_reporting(report)
}

/// A SetCtrlIdReporting request decodes back to the configuration it
/// carries (unless the feature index is `0xFF`, which marks error reports).
pub proof fn lemma_set_reporting_roundtrip(
    device: DeviceIndex,
    feature_index: FeatureIndex,
    sw_id: SoftwareId,
    cid: ControlId,
    flags: u8,
    remapped_cid: ControlId,
    additional_flags: u8,
)
    requires
        feature_index.0 != 0xFF,
    ensures
        ({
            let r = request_bytes(
                device.0,
                feature_index.0,
                3,
                sw_id.0,
                set_reporting_params(cid, flags, remapped_cid, additional_flags),
            );
            !is_error_report(r) && reporting_of(r) == ControlReporting {
                cid,
                flags,
                remapped_cid,
                additional_flags,
            }
        }),
{
    crate::report::lemma_be_u16_roundtrip(cid.0);
    crate::report::lemma_be_u16_roundtrip(remapped_cid.0);
}

} // verus!
