//! HID++ Feature 0x0007 — DeviceFriendlyName.
//!
//! Read and write the user-visible Bluetooth name, chunked at 15 bytes per
//! call (function 0: GetFriendlyNameLen, 1: GetFriendlyName, 3:
//! SetFriendlyName, 4: ResetFriendlyName).
use vstd::prelude::*;

use crate::error::DecodeError;
use crate::report::{checked, param, request_bytes, LongReport};
use crate::types::{DeviceIndex, FeatureIndex, FunctionId, SoftwareId};

verus! {

broadcast use crate::report::lemma_report_len;

/// Name length info.
#[derive(Debug, Clone, PartialEq, Eq, Structural)]
pub struct NameLengths {
    pub name_len: u8,
    pub max_len: u8,
    pub default_len: u8,
}

/// The sixteen parameter bytes of SetFriendlyName: the character index,
/// then at most 15 name bytes, zero-padded.
pub open spec fn set_name_params(char_index: u8, name: Seq<u8>) -> Seq<u8> {
    Seq::new(
        16,
        |i: int|
            if i == 0 {
                char_index
            } else if i - 1 < name.len() {
                name[i - 1]
            } else {
                0u8
            },
    )
}

/// Function 0: GetFriendlyNameLen.
pub fn encode_get_name_len(device: DeviceIndex, feature_index: FeatureIndex, sw_id: SoftwareId) -> (r:
    LongReport)
    ensures
        r@ == request_bytes(device.0, feature_index.0, 0, sw_id.0, Seq::empty()),
{
    LongReport::request(device, feature_index, FunctionId(0), sw_id, &[])
}

/// Decode GetFriendlyNameLen: current, maximum and default name lengths.
pub fn decode_get_name_len(report: &LongReport) -> (r: Result<NameLengths, DecodeError>)
    ensures
        r == checked(
            report@,
            NameLengths {
                name_len: param(report@, 0),
                max_len: param(report@, 1),
                default_len: param(report@, 2),
            },
        ),
{
    report.check_error()?;
    let p = report.params();
    Ok(NameLengths { name_len: p[0], max_len: p[1], default_len: p[2] })
}

/// Function 1: GetFriendlyName(charIndex) → up to 15 bytes of name.
pub fn encode_get_name(
    device: DeviceIndex,
    feature_index: FeatureIndex,
    char_index: u8,
    sw_id: SoftwareId,
) -> (r: LongReport)
    ensures
        r@ == request_bytes(device.0, feature_index.0, 1, sw_id.0, seq![char_index]),
{
    let params = [char_index];
    let r = LongReport::request(device, feature_index, FunctionId(1), sw_id, &params);
    assert(params@ =~= seq![char_index]);
    r
}

/// The name chunk of a GetFriendlyName response: the parameter bytes after
/// the echoed character index (15 bytes).
pub fn decode_get_name_chunk(report: &LongReport) -> (chunk: &[u8])
    ensures
        chunk@ == report@.subrange(5, 20),
{
    let p = report.params();
    vstd::slice::slice_subrange(p, 1, p.len())
}

/// Function 3: SetFriendlyName(charIndex, name bytes); only the first 15
/// name bytes are sent.
pub fn encode_set_name(
    device: DeviceIndex,
    feature_index: FeatureIndex,
    char_index: u8,
    name_bytes: &[u8],
    sw_id: SoftwareId,
) -> (r: LongReport)
    ensures
        r@ == request_bytes(device.0, feature_index.0, 3, sw_id.0, set_name_params(char_index, name_bytes@)),
{
    let mut params = [0u8; 16];
    params[0] = char_index;
    let len: usize = if name_bytes.len() < 15 {
        name_bytes.len()
    } else {
        15
    };
    let mut i: usize = 0;
    while i < len
        invariant
            len <= 15,
            len <= name_bytes@.len(),
            i <= len,
            params@.len() == 16,
            params@[0] == char_index,
            forall|j: int| 1 <= j < 1 + i ==> params@[j] == name_bytes@[j - 1],
            forall|j: int| 1 + i <= j < 16 ==> params@[j] == 0,
        decreases len - i,
    {
        params[1 + i] = name_bytes[i];
        i = i + 1;
    }
    assert(params@ =~= set_name_params(char_index, name_bytes@));
    LongReport::request(device, feature_index, FunctionId(3), sw_id, &params)
}

/// Function 4: ResetFriendlyName — restore the factory default.
pub fn encode_reset_name(device: DeviceIndex, feature_index: FeatureIndex, sw_id: SoftwareId) -> (r:
    LongReport)
    ensures
        r@ == request_bytes(device.0, feature_index.0, 4, sw_id.0, Seq::empty()),
{
    LongReport::request(device, feature_index, FunctionId(4), sw_id, &[])
}

} // verus!
