//! HID++ Feature 0x0005 — DeviceNameType.
//!
//! Read the device name and type (function 0: GetDeviceNameCount,
//! function 1: GetDeviceName, function 2: GetDeviceType).
use vstd::prelude::*;

use crate::error::DecodeError;
use crate::report::{checked, param, request_bytes, LongReport};
use crate::types::{DeviceIndex, FeatureIndex, FunctionId, SoftwareId};

verus! {

broadcast use crate::report::lemma_report_len;

/// Device type as reported by the device.
#[derive(Debug, Clone, Copy, PartialEq, Eq, Structural)]
pub enum DeviceType {
    Keyboard,
    RemoteControl,
    NumPad,
    Mouse,
    Touchpad,
    Trackball,
    Presenter,
    Receiver,
    Headset,
    Webcam,
    SteeringWheel,
    Joystick,
    Gamepad,
    Dock,
    Speaker,
    Microphone,
    Unknown(u8),
}

impl DeviceType {
    /// The device type a type byte names.
    pub open spec fn spec_from_byte(b: u8) -> DeviceType {
        if b == 0 {
            DeviceType::Keyboard
        } else if b == 1 {
            DeviceType::RemoteControl
        } else if b == 2 {
            DeviceType::NumPad
        } else if b == 3 {
            DeviceType::Mouse
        } else if b == 4 {
            DeviceType::Touchpad
        } else if b == 5 {
            DeviceType::Trackball
        } else if b == 6 {
            DeviceType::Presenter
        } else if b == 7 {
            DeviceType::Receiver
        } else if b == 8 {
            DeviceType::Headset
        } else if b == 9 {
            DeviceType::Webcam
        } else if b == 10 {
            DeviceType::SteeringWheel
        } else if b == 11 {
            DeviceType::Joystick
        } else if b == 12 {
            DeviceType::Gamepad
        } else if b == 13 {
            DeviceType::Dock
        } else if b == 14 {
            DeviceType::Speaker
        } else if b == 15 {
            DeviceType::Microphone
        } else {
            DeviceType::Unknown(b)
        }
    }

    /// Decode a device type byte.
    #[verifier::when_used_as_spec(spec_from_byte)]
    pub fn from_byte(b: u8) -> (t: DeviceType)
        ensures
            t == DeviceType::spec_from_byte(b),
    {
        match b {
            0 => DeviceType::Keyboard,
            1 => DeviceType::RemoteControl,
            2 => DeviceType::NumPad,
            3 => DeviceType::Mouse,
            4 => DeviceType::Touchpad,
            5 => DeviceType::Trackball,
            6 => DeviceType::Presenter,
            7 => DeviceType::Receiver,
            8 => DeviceType::Headset,
            9 => DeviceType::Webcam,
            10 => DeviceType::SteeringWheel,
            11 => DeviceType::Joystick,
            12 => DeviceType::Gamepad,
            13 => DeviceType::Dock,
            14 => DeviceType::Speaker,
            15 => DeviceType::Microphone,
            other => DeviceType::Unknown(other),
        }
    }
}

/// Function 0: GetDeviceNameCount — total byte length of the device name.
pub fn encode_get_name_length(device: DeviceIndex, feature_index: FeatureIndex, sw_id: SoftwareId) -> (r:
    LongReport)
    ensures
        r@ == request_bytes(device.0, feature_index.0, 0, sw_id.0, Seq::empty()),
{
    LongReport::request(device, feature_index, FunctionId(0), sw_id, &[])
}

/// Decode GetDeviceNameCount: the name length in bytes.
pub fn decode_get_name_length(report: &LongReport) -> (r: Result<u8, DecodeError>)
    ensures
        r == checked(report@, param(report@, 0)),
{
    report.check_error()?;
    Ok(report.params()[0])
}

/// Function 1: GetDeviceName — read a chunk of the name starting at `offset`
/// (up to 16 bytes per call).
pub fn encode_get_name_chunk(
    device: DeviceIndex,
    feature_index: FeatureIndex,
    sw_id: SoftwareId,
    offset: u8,
) -> (r: LongReport)
    ensures
        r@ == request_bytes(device.0, feature_index.0, 1, sw_id.0, seq![offset]),
{
    let params = [offset];
    let r = LongReport::request(device, feature_index, FunctionId(1), sw_id, &params);
    assert(params@ =~= seq![offset]);
    r
}

/// Decode a name chunk: the name bytes at the requested offset (all 16
/// parameter bytes). The caller concatenates chunks.
pub fn decode_get_name_chunk(report: &LongReport) -> (chunk: &[u8])
    ensures
        chunk@ == report@.subrange(4, 20),
{
    report.params()
}

/// Function 2: GetDeviceType.
pub fn encode_get_device_type(device: DeviceIndex, feature_index: FeatureIndex, sw_id: SoftwareId) -> (r:
    LongReport)
    ensures
        r@ == request_bytes(device.0, feature_index.0, 2, sw_id.0, Seq::empty()),
{
    LongReport::request(device, feature_index, FunctionId(2), sw_id, &[])
}

/// Decode GetDeviceType.
pub fn decode_get_device_type(report: &LongReport) -> (r: Result<DeviceType, DecodeError>)
    ensures
        r == checked(report@, DeviceType::spec_from_byte(param(report@, 0))),
{
    report.check_error()?;
    Ok(DeviceType::from_byte(report.params()[0]))
}

/// The type bytes of the HID++ table: 0 keyboard, 1 remote control,
/// 2 numpad, 3 mouse, 4 touchpad, 5 trackball, 6 presenter, 7 receiver,
/// 8 headset, 9 webcam, 10 steering wheel, 11 joystick, 12 gamepad,
/// 13 dock, 14 speaker, 15 microphone; any other byte is unknown and
/// kept as it is.
pub proof fn lemma_device_type_bytes(b: u8)
    ensures
        DeviceType::spec_from_byte(0) == DeviceType::Keyboard,
        DeviceType::spec_from_byte(1) == DeviceType::RemoteControl,
        DeviceType::spec_from_byte(2) == DeviceType::NumPad,
        DeviceType::spec_from_byte(3) == DeviceType::Mouse,
        DeviceType::spec_from_byte(4) == DeviceType::Touchpad,
        DeviceType::spec_from_byte(5) == DeviceType::Trackball,
        DeviceType::spec_from_byte(6) == DeviceType::Presenter,
        DeviceType::spec_from_byte(7) == DeviceType::Receiver,
        DeviceType::spec_from_byte(8) == DeviceType::Headset,
        DeviceType::spec_from_byte(9) == DeviceType::Webcam,
        DeviceType::spec_from_byte(10) == DeviceType::SteeringWheel,
        DeviceType::spec_from_byte(11) == DeviceType::Joystick,
        DeviceType::spec_from_byte(12) == DeviceType::Gamepad,
        DeviceType::spec_from_byte(13) == DeviceType::Dock,
        DeviceType::spec_from_byte(14) == DeviceType::Speaker,
        DeviceType::spec_from_byte(15) == DeviceType::Microphone,
        b > 15 ==> DeviceType::spec_from_byte(b) == DeviceType::Unknown(b),
        b <= 15 ==> !(DeviceType::spec_from_byte(b) is Unknown),
{
}

} // verus!
