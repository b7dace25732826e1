//! HID++ Feature 0x0003 — FirmwareInfo.
//!
//! Firmware version, entity info and hardware revision (function 0:
//! GetEntityCount, function 1: GetFwInfo).
use vstd::prelude::*;

use crate::error::DecodeError;
use crate::report::{
    be_u16, checked, device_error_of, is_error_report, param, read_be_u16, request_bytes,
    LongReport,
};
use crate::text::{trim_end_nuls, trim_trailing_nuls, utf8_lossy, utf8_lossy_string};
use vstd::utf8::{decode_utf8, valid_utf8};
use crate::types::{DeviceIndex, FeatureIndex, FunctionId, SoftwareId};

verus! {

broadcast use crate::report::lemma_report_len;

/// Entity type in the device firmware.
#[derive(Debug, Clone, Copy, PartialEq, Eq, Structural)]
pub enum EntityType {
    Firmware,
    Bootloader,
    Hardware,
    Unknown(u8),
}

impl EntityType {
    /// The entity type a type byte names.
    pub open spec fn spec_from_byte(b: u8) -> EntityType {
        if b == 0 {
            EntityType::Firmware
        } else if b == 1 {
            EntityType::Bootloader
        } else if b == 2 {
            EntityType::Hardware
        } else {
            EntityType::Unknown(b)
        }
    }

    #[verifier::when_used_as_spec(spec_from_byte)]
    fn from_byte(b: u8) -> (t: EntityType)
        ensures
            t == EntityType::spec_from_byte(b),
    {
        match b {
            0 => EntityType::Firmware,
            1 => EntityType::Bootloader,
            2 => EntityType::Hardware,
            other => EntityType::Unknown(other),
        }
    }
}

/// Firmware entity info.
#[derive(Debug, Clone, PartialEq, Eq)]
pub struct EntityInfo {
    pub entity_type: EntityType,
    /// 3-character name (e.g., "MPM", "BL1", "HW1").
    pub name: String,
    /// Version major.minor (BCD encoded).
    pub version_major: u8,
    pub version_minor: u8,
    /// Build number.
    pub build: u16,
    /// Transport layer ID.
    pub transport: u8,
}

/// The entity name that a firmware info payload carries: its three name
/// bytes decoded as (lossy) UTF-8, without trailing NULs.
pub open spec fn entity_name_of(report: Seq<u8>) -> Seq<char> {
    trim_trailing_nuls(utf8_lossy(seq![param(report, 1), param(report, 2), param(report, 3)]))
}

/// Function 0: GetEntityCount.
pub fn encode_get_entity_count(
    device: DeviceIndex,
    feature_index: FeatureIndex,
    sw_id: SoftwareId,
) -> (r: LongReport)
    ensures
        r@ == request_bytes(device.0, feature_index.0, 0, sw_id.0, Seq::empty()),
{
    LongReport::request(device, feature_index, FunctionId(0), sw_id, &[])
}

/// Decode GetEntityCount.
pub fn decode_get_entity_count(report: &LongReport) -> (r: Result<u8, DecodeError>)
    ensures
        r == checked(report@, param(report@, 0)),
{
    report.check_error()?;
    Ok(report.params()[0])
}

/// Function 1: GetFwInfo(entityIndex).
pub fn encode_get_fw_info(
    device: DeviceIndex,
    feature_index: FeatureIndex,
    entity_index: u8,
    sw_id: SoftwareId,
) -> (r: LongReport)
    ensures
        r@ == request_bytes(device.0, feature_index.0, 1, sw_id.0, seq![entity_index]),
{
    let params = [entity_index];
    let r = LongReport::request(device, feature_index, FunctionId(1), sw_id, &params);
    assert(params@ =~= seq![entity_index]);
    r
}

/// Decode GetFwInfo: entity type, 3-byte name, version major and minor,
/// build (big-endian), transport.
pub fn decode_get_fw_info(report: &LongReport) -> (r: Result<EntityInfo, DecodeError>)
    ensures
        match r {
            Ok(info) => {
                &&& !is_error_report(report@)
                &&& info.entity_type == EntityType::spec_from_byte(param(report@, 0))
                &&& info.name@ == entity_name_of(report@)
                &&& valid_utf8(seq![param(report@, 1), param(report@, 2), param(report@, 3)])
                    ==> info.name@ == trim_trailing_nuls(
                    decode_utf8(seq![param(report@, 1), param(report@, 2), param(report@, 3)]),
                )
                &&& info.version_major == param(report@, 4)
                &&& info.version_minor == param(report@, 5)
                &&& info.build == be_u16(param(report@, 6), param(report@, 7))
                &&& info.transport == param(report@, 8)
            },
            Err(e) => is_error_report(report@) && e == device_error_of(report@),
        },
{
    report.check_error()?;
    let p = report.params();

    let entity_type = EntityType::from_byte(p[0]);
    let name_bytes = [p[1], p[2], p[3]];
    assert(name_bytes@ =~= seq![param(report@, 1), param(report@, 2), param(report@, 3)]);
    let decoded = utf8_lossy_string(name_bytes.as_slice());
    let name = trim_end_nuls(decoded.as_str());
    let version_major = p[4];
    let version_minor = p[5];
    let build = read_be_u16(p[6], p[7]);
    let transport = p[8];

    Ok(EntityInfo { entity_type, name, version_major, version_minor, build, transport })
}

/// The entity type bytes: 0 firmware, 1 bootloader, 2 hardware; any other
/// byte is kept as it is.
pub proof fn lemma_entity_type_bytes(b: u8)
    ensures
        EntityType::spec_from_byte(0) == EntityType::Firmware,
        EntityType::spec_from_byte(1) == EntityType::Bootloader,
        EntityType::spec_from_byte(2) == EntityType::Hardware,
        b > 2 ==> EntityType::spec_from_byte(b) == EntityType::Unknown(b),
{
}

} // verus!
