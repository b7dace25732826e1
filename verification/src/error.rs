//! Device error codes and decode failures.
use vstd::prelude::*;

use crate::types::FeatureIndex;

verus! {

/// HID++ 2.0 error codes returned by the device.
///
/// When a device returns an error, the response has `feature_index = 0xFF`,
/// byte 3 contains the feature index that caused the error, and byte 4
/// contains the error code.
#[derive(Debug, Clone, Copy, PartialEq, Eq, Structural)]
pub enum HidppError {
    NoError,
    Unknown,
    InvalidArgument,
    OutOfRange,
    HwError,
    LogitechInternal,
    InvalidFeatureIndex,
    InvalidFunctionId,
    Busy,
    Unsupported,
    Other(u8),
}

impl HidppError {
    /// The error named by a device error code.
    pub open spec fn spec_from_code(code: u8) -> HidppError {
        if code == 0x00 {
            HidppError::NoError
        } else if code == 0x01 {
            HidppError::Unknown
        } else if code == 0x02 {
            HidppError::InvalidArgument
        } else if code == 0x03 {
            HidppError::OutOfRange
        } else if code == 0x04 {
            HidppError::HwError
        } else if code == 0x05 {
            HidppError::LogitechInternal
        } else if code == 0x06 {
            HidppError::InvalidFeatureIndex
        } else if code == 0x07 {
            HidppError::InvalidFunctionId
        } else if code == 0x08 {
            HidppError::Busy
        } else if code == 0x09 {
            HidppError::Unsupported
        } else {
            HidppError::Other(code)
        }
    }

    /// The error code that names this error.
    pub open spec fn spec_code(self) -> u8 {
        match self {
            HidppError::NoError => 0x00,
            HidppError::Unknown => 0x01,
            HidppError::InvalidArgument => 0x02,
            HidppError::OutOfRange => 0x03,
            HidppError::HwError => 0x04,
            HidppError::LogitechInternal => 0x05,
            HidppError::InvalidFeatureIndex => 0x06,
            HidppError::InvalidFunctionId => 0x07,
            HidppError::Busy => 0x08,
            HidppError::Unsupported => 0x09,
            HidppError::Other(c) => c,
        }
    }

    /// Decode a device error code.
    #[verifier::when_used_as_spec(spec_from_code)]
    pub fn from_code(code: u8) -> (e: HidppError)
        ensures
            e == HidppError::spec_from_code(code),
    {
        match code {
            0x00 => HidppError::NoError,
            0x01 => HidppError::Unknown,
            0x02 => HidppError::InvalidArgument,
            0x03 => HidppError::OutOfRange,
            0x04 => HidppError::HwError,
            0x05 => HidppError::LogitechInternal,
            0x06 => HidppError::InvalidFeatureIndex,
            0x07 => HidppError::InvalidFunctionId,
            0x08 => HidppError::Busy,
            0x09 => HidppError::Unsupported,
            other => HidppError::Other(other),
        }
    }
}

/// Every error code names exactly one error, and that error gives the code back.
pub proof fn lemma_error_code_roundtrip(code: u8)
    ensures
        HidppError::spec_from_code(code).spec_code() == code,
{
}

/// Error returned when decoding a HID++ report fails.
#[derive(Debug, Clone, PartialEq, Eq, Structural)]
pub enum DecodeError {
    /// The device answered with a HID++ error report.
    DeviceError { feature_index: FeatureIndex, error: HidppError },
    /// The response came from another feature than expected.
    WrongFeatureIndex { expected: FeatureIndex, actual: FeatureIndex },
    /// The response came from another function than expected.
    WrongFunction { expected: u8, actual: u8 },
    /// The response was shorter than the decoder needs.
    TooShort { need: usize, got: usize },
}

/// The HID++ 2.0 error codes: 0 no error, 1 unknown, 2 invalid argument,
/// 3 out of range, 4 hardware error, 5 Logitech internal, 6 invalid
/// feature index, 7 invalid function ID, 8 busy, 9 unsupported; any other
/// code is kept as it is.
pub proof fn lemma_error_codes(code: u8)
    ensures
        HidppError::spec_from_code(0x00) == HidppError::NoError,
        HidppError::spec_from_code(0x01) == HidppError::Unknown,
        HidppError::spec_from_code(0x02) == HidppError::InvalidArgument,
        HidppError::spec_from_code(0x03) == HidppError::OutOfRange,
        HidppError::spec_from_code(0x04) == HidppError::HwError,
        HidppError::spec_from_code(0x05) == HidppError::LogitechInternal,
        HidppError::spec_from_code(0x06) == HidppError::InvalidFeatureIndex,
        HidppError::spec_from_code(0x07) == HidppError::InvalidFunctionId,
        HidppError::spec_from_code(0x08) == HidppError::Busy,
        HidppError::spec_from_code(0x09) == HidppError::Unsupported,
        code > 0x09 ==> HidppError::spec_from_code(code) == HidppError::Other(code),
{
}

} // verus!
