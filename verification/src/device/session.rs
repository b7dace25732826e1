//! A connected device session: what it knows of the device, and the
//! request each of its operations sends.
use vstd::prelude::*;

use crate::device::table::{lookup, FeatureTable};
use crate::error::DecodeError;
use crate::feature_id::{
    ADJUSTABLE_DPI, CHANGE_HOST, DEVICE_FRIENDLY_NAME, FIRMWARE_INFO, HIRES_WHEEL, HOSTS_INFOS,
    SMART_SHIFT, SMART_SHIFT_TUNABLE_TORQUE, SPECIAL_KEYS_V4, THUMBWHEEL, UNIFIED_BATTERY,
    WIRELESS_STATUS,
};
use crate::features::device_name::DeviceType;
use crate::features::hires_wheel::{self, mode_flags};
use crate::features::smart_shift::{self, SmartShiftState};
use crate::features::special_keys::{self, set_reporting_params};
use crate::features::{
    adjustable_dpi, change_host, firmware_info, friendly_name, hosts_info, thumbwheel,
    unified_battery, wireless_status,
};
use crate::report::{hi_byte, lo_byte, request_bytes, LongReport};
use crate::transport::TransportError;
use crate::types::{ControlId, DeviceIndex, FeatureId, FeatureIndex, FunctionId, SoftwareId};

verus! {

/// Error type for device operations.
#[derive(Debug, Clone, PartialEq, Eq)]
pub enum DeviceError {
    Transport(TransportError),
    Decode(DecodeError),
    FeatureNotSupported(FeatureId),
    PingFailed,
}

/// Whether `r` is the request an operation on feature `feature` sends:
/// function `function` with `params` at the feature's runtime index, or
/// `FeatureNotSupported` when the device lacks the feature.
pub open spec fn builds(
    s: DeviceSession,
    r: Result<LongReport, DeviceError>,
    feature: u16,
    function: u8,
    params: Seq<u8>,
) -> bool {
    match lookup(s.features@, feature) {
        Some(e) => r matches Ok(req) && req@ == request_bytes(
            s.device_index.0,
            e.index.0,
            function,
            s.sw_id.0,
            params,
        ),
        None => r == Err::<LongReport, DeviceError>(DeviceError::FeatureNotSupported(FeatureId(feature))),
    }
}

/// The SmartShift feature a device offers: the enhanced 0x2111 if
/// present (`true`), else the legacy 0x2110 (`false`).
pub open spec fn smart_shift_variant(s: DeviceSession) -> Option<(FeatureIndex, bool)> {
    match lookup(s.features@, SMART_SHIFT_TUNABLE_TORQUE) {
        Some(e) => Some((e.index, true)),
        None => match lookup(s.features@, SMART_SHIFT) {
            Some(e) => Some((e.index, false)),
            None => None,
        },
    }
}

/// Whether `r` is the SmartShift request an operation sends: on the
/// enhanced feature function `f1` with `p1`, on the legacy one `f0` with
/// `p0`.
pub open spec fn builds_smart_shift(
    s: DeviceSession,
    r: Result<LongReport, DeviceError>,
    f1: u8,
    p1: Seq<u8>,
    f0: u8,
    p0: Seq<u8>,
) -> bool {
    match smart_shift_variant(s) {
        Some((idx, true)) => r matches Ok(req) && req@ == request_bytes(
            s.device_index.0,
            idx.0,
            f1,
            s.sw_id.0,
            p1,
        ),
        Some((idx, false)) => r matches Ok(req) && req@ == request_bytes(
            s.device_index.0,
            idx.0,
            f0,
            s.sw_id.0,
            p0,
        ),
        None => r == Err::<LongReport, DeviceError>(DeviceError::FeatureNotSupported(FeatureId(SMART_SHIFT))),
    }
}

/// A connected HID++ 2.0 device session: where it is reached, what it
/// announced, and its features.
#[derive(Debug)]
pub struct DeviceSession {
    pub device_index: DeviceIndex,
    pub sw_id: SoftwareId,
    pub protocol_version: (u8, u8),
    pub name: String,
    pub device_type: Option<DeviceType>,
    pub features: FeatureTable,
}

impl DeviceSession {
    /// HID++ protocol version `(major, minor)`.
    pub fn protocol_version(&self) -> (v: (u8, u8))
        ensures
            v == self.protocol_version,
    {
        self.protocol_version
    }

    /// Device name as reported by the device.
    pub fn name(&self) -> (n: &str)
        ensures
            n@ == self.name@,
    {
        self.name.as_str()
    }

    /// Device type as reported by the device.
    pub fn device_type(&self) -> (t: Option<DeviceType>)
        ensures
            t == self.device_type,
    {
        self.device_type
    }

    /// All discovered features.
    pub fn features(&self) -> (t: &FeatureTable)
        ensures
            t == &self.features,
    {
        &self.features
    }

    /// Check if the device supports a given feature.
    pub fn supports(&self, feature_id: FeatureId) -> (b: bool)
        ensures
            b == lookup(self.features@, feature_id.0) is Some,
    {
        self.features.get(feature_id).is_some()
    }

    /// Reverse lookup: FeatureIndex → FeatureId.
    pub fn feature_id_for_index(&self, index: FeatureIndex) -> (r: Option<FeatureId>)
        ensures
            r == (match crate::device::table::first_at_index(self.features@, index.0, 0) {
                Some(e) => Some(e.id),
                None => None,
            }),
    {
        self.features.feature_id_for_index(index)
    }

    /// The runtime feature index for a feature ID.
    pub fn feature_index(&self, feature_id: FeatureId) -> (r: Result<FeatureIndex, DeviceError>)
        ensures
            r == (match lookup(self.features@, feature_id.0) {
                Some(e) => Ok(e.index),
                None => Err(DeviceError::FeatureNotSupported(feature_id)),
            }),
    {
        match self.features.get(feature_id) {
            Some(e) => Ok(e.index),
            None => Err(DeviceError::FeatureNotSupported(feature_id)),
        }
    }

    /// Check if device has any SmartShift feature.
    pub fn has_smart_shift(&self) -> (b: bool)
        ensures
            b == (lookup(self.features@, SMART_SHIFT_TUNABLE_TORQUE) is Some || lookup(
                self.features@,
                SMART_SHIFT,
            ) is Some),
    {
        self.supports(FeatureId(SMART_SHIFT_TUNABLE_TORQUE)) || self.supports(FeatureId(SMART_SHIFT))
    }

    /// SmartShift feature index and whether it is the enhanced (0x2111)
    /// variant.
    pub fn smart_shift_info(&self) -> (r: Result<(FeatureIndex, bool), DeviceError>)
        ensures
            r == (match smart_shift_variant(*self) {
                Some(v) => Ok(v),
                None => Err(DeviceError::FeatureNotSupported(FeatureId(SMART_SHIFT))),
            }),
    {
        match self.feature_index(FeatureId(SMART_SHIFT_TUNABLE_TORQUE)) {
            Ok(idx) => Ok((idx, true)),
            Err(_) => match self.feature_index(FeatureId(SMART_SHIFT)) {
                Ok(idx) => Ok((idx, false)),
                Err(e) => Err(e),
            },
        }
    }

    /// A raw request for any feature: `function` with `params`.
    pub fn raw_request(&self, feature_id: FeatureId, function: u8, params: &[u8]) -> (r: Result<
        LongReport,
        DeviceError,
    >)
        ensures
            builds(*self, r, feature_id.0, function, params@),
    {
        match self.feature_index(feature_id) {
            Ok(idx) => Ok(
                LongReport::request(self.device_index, idx, FunctionId(function), self.sw_id, params),
            ),
            Err(e) => Err(e),
        }
    }

    /// The battery status request (UnifiedBattery function 1).
    pub fn battery_status_request(&self) -> (r: Result<LongReport, DeviceError>)
        ensures
            builds(*self, r, UNIFIED_BATTERY, 1, Seq::empty()),
    {
        match self.feature_index(FeatureId(UNIFIED_BATTERY)) {
            Ok(idx) => Ok(unified_battery::encode_get_status(self.device_index, idx, self.sw_id)),
            Err(e) => Err(e),
        }
    }

    /// The SmartShift read request: function 1 of 0x2111, or function 0
    /// of the legacy 0x2110.
    pub fn smart_shift_get_request(&self) -> (r: Result<LongReport, DeviceError>)
        ensures
            builds_smart_shift(*self, r, 1, Seq::empty(), 0, Seq::empty()),
    {
        match self.smart_shift_info() {
            Ok((idx, true)) => Ok(smart_shift::encode_get_mode_v1(self.device_index, idx, self.sw_id)),
            Ok((idx, false)) => Ok(smart_shift::encode_get_mode_v0(self.device_index, idx, self.sw_id)),
            Err(e) => Err(e),
        }
    }

    /// The SmartShift write request: function 2 of 0x2111 with mode,
    /// auto-disengage and torque, or function 1 of 0x2110 with mode and
    /// auto-disengage.
    pub fn smart_shift_set_request(&self, state: &SmartShiftState) -> (r: Result<LongReport, DeviceError>)
        ensures
            builds_smart_shift(
                *self,
                r,
                2,
                seq![state.mode.spec_to_byte(), state.auto_disengage, state.tunable_torque],
                1,
                seq![state.mode.spec_to_byte(), state.auto_disengage],
            ),
    {
        match self.smart_shift_info() {
            Ok((idx, true)) => Ok(
                smart_shift::encode_set_mode_v1(self.device_index, idx, self.sw_id, state),
            ),
            Ok((idx, false)) => Ok(
                smart_shift::encode_set_mode_v0(self.device_index, idx, self.sw_id, state),
            ),
            Err(e) => Err(e),
        }
    }

    /// The HiResWheel mode read request (function 1).
    pub fn hires_wheel_get_mode_request(&self) -> (r: Result<LongReport, DeviceError>)
        ensures
            builds(*self, r, HIRES_WHEEL, 1, Seq::empty()),
    {
        match self.feature_index(FeatureId(HIRES_WHEEL)) {
            Ok(idx) => Ok(hires_wheel::encode_get_mode(self.device_index, idx, self.sw_id)),
            Err(e) => Err(e),
        }
    }

    /// The HiResWheel mode write request (function 2).
    pub fn hires_wheel_set_mode_request(&self, mode: &hires_wheel::WheelMode) -> (r: Result<
        LongReport,
        DeviceError,
    >)
        ensures
            builds(*self, r, HIRES_WHEEL, 2, seq![mode_flags(*mode), mode.priority, mode.rate]),
    {
        match self.feature_index(FeatureId(HIRES_WHEEL)) {
            Ok(idx) => Ok(hires_wheel::encode_set_mode(self.device_index, idx, self.sw_id, mode)),
            Err(e) => Err(e),
        }
    }

    /// The thumbwheel info request (function 0).
    pub fn thumbwheel_get_info_request(&self) -> (r: Result<LongReport, DeviceError>)
        ensures
            builds(*self, r, THUMBWHEEL, 0, Seq::empty()),
    {
        match self.feature_index(FeatureId(THUMBWHEEL)) {
            Ok(idx) => Ok(thumbwheel::encode_get_info(self.device_index, idx, self.sw_id)),
            Err(e) => Err(e),
        }
    }

    /// The thumbwheel status request (function 1).
    pub fn thumbwheel_get_status_request(&self) -> (r: Result<LongReport, DeviceError>)
        ensures
            builds(*self, r, THUMBWHEEL, 1, Seq::empty()),
    {
        match self.feature_index(FeatureId(THUMBWHEEL)) {
            Ok(idx) => Ok(thumbwheel::encode_get_status(self.device_index, idx, self.sw_id)),
            Err(e) => Err(e),
        }
    }

    /// The Easy-Switch host info request (ChangeHost function 0).
    pub fn host_info_request(&self) -> (r: Result<LongReport, DeviceError>)
        ensures
            builds(*self, r, CHANGE_HOST, 0, Seq::empty()),
    {
        match self.feature_index(FeatureId(CHANGE_HOST)) {
            Ok(idx) => Ok(change_host::encode_get_host_info(self.device_index, idx, self.sw_id)),
            Err(e) => Err(e),
        }
    }

    /// The request switching to host slot `host_index` (ChangeHost
    /// function 1). The device disconnects, so no response is awaited.
    pub fn switch_host_request(&self, host_index: u8) -> (r: Result<LongReport, DeviceError>)
        ensures
            builds(*self, r, CHANGE_HOST, 1, seq![host_index]),
    {
        match self.feature_index(FeatureId(CHANGE_HOST)) {
            Ok(idx) => Ok(
                change_host::encode_set_current_host(self.device_index, idx, self.sw_id, host_index),
            ),
            Err(e) => Err(e),
        }
    }

    /// The firmware entity count request (FirmwareInfo function 0).
    pub fn firmware_count_request(&self) -> (r: Result<LongReport, DeviceError>)
        ensures
            builds(*self, r, FIRMWARE_INFO, 0, Seq::empty()),
    {
        match self.feature_index(FeatureId(FIRMWARE_INFO)) {
            Ok(idx) => Ok(
                firmware_info::encode_get_entity_count(self.device_index, idx, self.sw_id),
            ),
            Err(e) => Err(e),
        }
    }

    /// The request for firmware entity `entity` (FirmwareInfo function 1).
    pub fn firmware_entity_request(&self, entity: u8) -> (r: Result<LongReport, DeviceError>)
        ensures
            builds(*self, r, FIRMWARE_INFO, 1, seq![entity]),
    {
        match self.feature_index(FeatureId(FIRMWARE_INFO)) {
            Ok(idx) => Ok(
                firmware_info::encode_get_fw_info(self.device_index, idx, entity, self.sw_id),
            ),
            Err(e) => Err(e),
        }
    }

    /// The control count request (SpecialKeys function 0).
    pub fn special_keys_count_request(&self) -> (r: Result<LongReport, DeviceError>)
        ensures
            builds(*self, r, SPECIAL_KEYS_V4, 0, Seq::empty()),
    {
        match self.feature_index(FeatureId(SPECIAL_KEYS_V4)) {
            Ok(idx) => Ok(special_keys::encode_get_count(self.device_index, idx, self.sw_id)),
            Err(e) => Err(e),
        }
    }

    /// The request for control `index` (SpecialKeys function 1).
    pub fn special_key_info_request(&self, index: u8) -> (r: Result<LongReport, DeviceError>)
        ensures
            builds(*self, r, SPECIAL_KEYS_V4, 1, seq![index]),
    {
        match self.feature_index(FeatureId(SPECIAL_KEYS_V4)) {
            Ok(idx) => Ok(
                special_keys::encode_get_ctrl_id_info(self.device_index, idx, index, self.sw_id),
            ),
            Err(e) => Err(e),
        }
    }

    /// The reporting read request for a button (SpecialKeys function 2).
    pub fn special_key_reporting_request(&self, cid: u16) -> (r: Result<LongReport, DeviceError>)
        ensures
            builds(*self, r, SPECIAL_KEYS_V4, 2, seq![hi_byte(cid), lo_byte(cid)]),
    {
        match self.feature_index(FeatureId(SPECIAL_KEYS_V4)) {
            Ok(idx) => Ok(
                special_keys::encode_get_ctrl_id_reporting(
                    self.device_index,
                    idx,
                    ControlId(cid),
                    self.sw_id,
                ),
            ),
            Err(e) => Err(e),
        }
    }

    /// The reporting write request for a button (SpecialKeys function 3).
    pub fn special_key_set_reporting_request(
        &self,
        cid: u16,
        flags: u8,
        remapped_cid: u16,
        additional_flags: u8,
    ) -> (r: Result<LongReport, DeviceError>)
        ensures
            builds(
                *self,
                r,
                SPECIAL_KEYS_V4,
                3,
                set_reporting_params(ControlId(cid), flags, ControlId(remapped_cid), additional_flags),
            ),
    {
        match self.feature_index(FeatureId(SPECIAL_KEYS_V4)) {
            Ok(idx) => Ok(
                special_keys::encode_set_ctrl_id_reporting(
                    self.device_index,
                    idx,
                    self.sw_id,
                    ControlId(cid),
                    flags,
                    ControlId(remapped_cid),
                    additional_flags,
                ),
            ),
            Err(e) => Err(e),
        }
    }

    /// The friendly name length request (DeviceFriendlyName function 0).
    pub fn friendly_name_length_request(&self) -> (r: Result<LongReport, DeviceError>)
        ensures
            builds(*self, r, DEVICE_FRIENDLY_NAME, 0, Seq::empty()),
    {
        match self.feature_index(FeatureId(DEVICE_FRIENDLY_NAME)) {
            Ok(idx) => Ok(friendly_name::encode_get_name_len(self.device_index, idx, self.sw_id)),
            Err(e) => Err(e),
        }
    }

    /// The friendly name chunk request from byte `offset` on
    /// (DeviceFriendlyName function 1).
    pub fn friendly_name_chunk_request(&self, offset: u8) -> (r: Result<LongReport, DeviceError>)
        ensures
            builds(*self, r, DEVICE_FRIENDLY_NAME, 1, seq![offset]),
    {
        match self.feature_index(FeatureId(DEVICE_FRIENDLY_NAME)) {
            Ok(idx) => Ok(
                friendly_name::encode_get_name(self.device_index, idx, offset, self.sw_id),
            ),
            Err(e) => Err(e),
        }
    }

    /// The OS version request for host slot `host_index` (HostsInfos
    /// function 3).
    pub fn host_os_version_request(&self, host_index: u8) -> (r: Result<LongReport, DeviceError>)
        ensures
            builds(*self, r, HOSTS_INFOS, 3, seq![host_index]),
    {
        match self.feature_index(FeatureId(HOSTS_INFOS)) {
            Ok(idx) => Ok(
                hosts_info::encode_get_host_os_version(
                    self.device_index,
                    idx,
                    host_index,
                    self.sw_id,
                ),
            ),
            Err(e) => Err(e),
        }
    }

    /// The wireless status request (WirelessStatus function 0).
    pub fn wireless_status_request(&self) -> (r: Result<LongReport, DeviceError>)
        ensures
            builds(*self, r, WIRELESS_STATUS, 0, Seq::empty()),
    {
        match self.feature_index(FeatureId(WIRELESS_STATUS)) {
            Ok(idx) => Ok(wireless_status::encode_get_status(self.device_index, idx, self.sw_id)),
            Err(e) => Err(e),
        }
    }

    /// The DPI read request for sensor 0 (AdjustableDpi function 2).
    pub fn dpi_get_request(&self) -> (r: Result<LongReport, DeviceError>)
        ensures
            builds(*self, r, ADJUSTABLE_DPI, 2, seq![0u8]),
    {
        match self.feature_index(FeatureId(ADJUSTABLE_DPI)) {
            Ok(idx) => Ok(adjustable_dpi::encode_get_dpi(self.device_index, idx, 0, self.sw_id)),
            Err(e) => Err(e),
        }
    }

    /// The DPI write request for sensor 0 (AdjustableDpi function 3).
    pub fn dpi_set_request(&self, dpi: u16) -> (r: Result<LongReport, DeviceError>)
        ensures
            builds(*self, r, ADJUSTABLE_DPI, 3, seq![0u8, hi_byte(dpi), lo_byte(dpi)]),
    {
        match self.feature_index(FeatureId(ADJUSTABLE_DPI)) {
            Ok(idx) => Ok(
                adjustable_dpi::encode_set_dpi(self.device_index, idx, 0, dpi, self.sw_id),
            ),
            Err(e) => Err(e),
        }
    }
}

} // verus!
