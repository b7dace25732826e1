use hidpp::error::HidppError;
use hidpp::features::adjustable_dpi::{decode_get_dpi, decode_get_dpi_list, encode_set_dpi, DpiList, DpiRange};
use hidpp::features::change_host::{decode_get_host_info, encode_set_current_host};
use hidpp::features::device_name::{decode_get_device_type, decode_get_name_length, DeviceType};
use hidpp::features::feature_set::{decode_get_feature_id, encode_get_count};
use hidpp::features::firmware_info::{decode_get_fw_info, EntityType};
use hidpp::features::friendly_name::decode_get_name_len;
use hidpp::features::hires_wheel;
use hidpp::features::hosts_info::{decode_get_host_os_version, HostOS};
use hidpp::features::root::{decode_get_feature, encode_get_feature, encode_ping};
use hidpp::features::smart_shift::{
    self, encode_get_mode_v0, encode_get_mode_v1, encode_set_mode_v0, encode_set_mode_v1,
    SmartShiftState,
};
use hidpp::features::special_keys::{decode_get_ctrl_id_info, encode_set_ctrl_id_reporting};
use hidpp::features::thumbwheel::{self, ReportingMode};
use hidpp::features::unified_battery::{self, BatteryLevel, ChargingStatus};
use hidpp::report::{LongReport, REPORT_ID_LONG};
use hidpp::types::{ControlId, DeviceIndex, FeatureFlags, FeatureId, FeatureIndex, FunctionId, SoftwareId};

#[test]
fn long_report_construction() {
    let report = LongReport::request(
        DeviceIndex::ble_direct(),
        FeatureIndex(0x05),
        FunctionId(0x02),
        SoftwareId::default_id(),
        &[0xAA, 0xBB],
    );

    assert_eq!(report.report_id(), REPORT_ID_LONG);
    assert_eq!(report.device_index(), DeviceIndex::ble_direct());
    assert_eq!(report.feature_index(), FeatureIndex(0x05));
    assert_eq!(report.function_id(), FunctionId(0x02));
    assert_eq!(report.sw_id(), SoftwareId::default_id());
    assert_eq!(report.params()[0], 0xAA);
    assert_eq!(report.params()[1], 0xBB);
    assert_eq!(report.params()[2], 0x00);
}

#[test]
fn error_response_decoding() {
    let mut report = LongReport::new();
    report.as_bytes_mut()[1] = 0xFF;
    report.as_bytes_mut()[2] = 0xFF;
    report.as_bytes_mut()[3] = 0x05;
    report.as_bytes_mut()[4] = 0x02;

    assert!(report.is_error());
    let (idx, err) = report.decode_error().unwrap();
    assert_eq!(idx, FeatureIndex(0x05));
    assert_eq!(err, HidppError::InvalidArgument);
}

#[test]
fn function_sw_packing() {
    let mut report = LongReport::new();
    report.set_function_sw(FunctionId(0x0A), SoftwareId(0x03));
    assert_eq!(report.as_bytes()[3], 0xA3);
    assert_eq!(report.function_id(), FunctionId(0x0A));
    assert_eq!(report.sw_id(), SoftwareId(0x03));
}

#[test]
fn from_bytes() {
    let bytes = [0x11u8; 20];
    let report = LongReport::from_bytes(&bytes).unwrap();
    assert_eq!(report.as_bytes(), &bytes);

    assert!(LongReport::from_bytes(&[0u8; 19]).is_none());
    assert!(LongReport::from_bytes(&[0u8; 21]).is_none());
}

#[test]
fn encode_get_feature_smart_shift() {
    let report = encode_get_feature(DeviceIndex::ble_direct(), FeatureId(0x2110), SoftwareId::default_id());

    assert_eq!(report.device_index(), DeviceIndex::ble_direct());
    assert_eq!(report.feature_index(), FeatureIndex::root());
    assert_eq!(report.function_id(), FunctionId(0));
    assert_eq!(report.params()[0], 0x21);
    assert_eq!(report.params()[1], 0x10);
}

#[test]
fn decode_get_feature_response() {
    let mut report = LongReport::new();
    report.as_bytes_mut()[1] = 0xFF;
    report.as_bytes_mut()[2] = 0x00;
    report.as_bytes_mut()[3] = 0x01;
    report.as_bytes_mut()[4] = 0x07;
    report.as_bytes_mut()[5] = 0x00;

    let (idx, flags) = decode_get_feature(&report).unwrap();
    assert_eq!(idx, FeatureIndex(0x07));
    assert!(flags.is_empty());
}

#[test]
fn decode_feature_not_found() {
    let mut report = LongReport::new();
    report.as_bytes_mut()[2] = 0x00;
    report.as_bytes_mut()[4] = 0x00;

    let (idx, _) = decode_get_feature(&report).unwrap();
    assert_eq!(idx, FeatureIndex(0x00));
}

#[test]
fn encode_ping_format() {
    let report = encode_ping(DeviceIndex::ble_direct(), SoftwareId::default_id());
    assert_eq!(report.function_id(), FunctionId(1));
    assert_eq!(report.params()[2], 0x5A);
}

#[test]
fn encode_set_dpi_1600() {
    let report = encode_set_dpi(DeviceIndex::ble_direct(), FeatureIndex(0x08), 0, 1600, SoftwareId::default_id());

    assert_eq!(report.feature_index(), FeatureIndex(0x08));
    assert_eq!(report.function_id(), FunctionId(3));
    assert_eq!(report.params()[0], 0);
    assert_eq!(report.params()[1], 0x06);
    assert_eq!(report.params()[2], 0x40);
}

#[test]
fn decode_dpi_response() {
    let mut report = LongReport::new();
    report.as_bytes_mut()[4] = 0;
    report.as_bytes_mut()[5] = 0x06;
    report.as_bytes_mut()[6] = 0x40;

    let dpi = decode_get_dpi(&report).unwrap();
    assert_eq!(dpi, 1600);
}

#[test]
fn encode_set_dpi_max() {
    let report = encode_set_dpi(DeviceIndex::ble_direct(), FeatureIndex(0x08), 0, 8000, SoftwareId::default_id());
    assert_eq!(report.params()[1], 0x1F);
    assert_eq!(report.params()[2], 0x40);
}

#[test]
fn decode_host_info() {
    let mut report = LongReport::new();
    report.as_bytes_mut()[4] = 3;
    report.as_bytes_mut()[5] = 1;

    let info = decode_get_host_info(&report).unwrap();
    assert_eq!(info.num_hosts, 3);
    assert_eq!(info.current_host, 1);
}

#[test]
fn encode_switch_host() {
    let report = encode_set_current_host(DeviceIndex::ble_direct(), FeatureIndex(0x09), SoftwareId::default_id(), 2);
    assert_eq!(report.function_id(), FunctionId(1));
    assert_eq!(report.params()[0], 2);
}

#[test]
fn decode_name_length() {
    let mut report = LongReport::new();
    report.as_bytes_mut()[4] = 14;

    let len = decode_get_name_length(&report).unwrap();
    assert_eq!(len, 14);
}

#[test]
fn decode_device_type_mouse() {
    let mut report = LongReport::new();
    report.as_bytes_mut()[4] = 3;

    let dtype = decode_get_device_type(&report).unwrap();
    assert_eq!(dtype, DeviceType::Mouse);
}

#[test]
fn encode_get_count_format() {
    let report = encode_get_count(DeviceIndex::ble_direct(), FeatureIndex(0x01), SoftwareId::default_id());
    assert_eq!(report.feature_index(), FeatureIndex(0x01));
    assert_eq!(report.function_id(), FunctionId(0));
}

#[test]
fn decode_feature_id_response() {
    let mut report = LongReport::new();
    report.as_bytes_mut()[2] = 0x01;
    report.as_bytes_mut()[3] = 0x11;
    report.as_bytes_mut()[4] = 0x21;
    report.as_bytes_mut()[5] = 0x10;
    report.as_bytes_mut()[6] = 0x00;
    report.as_bytes_mut()[7] = 0x01;

    let info = decode_get_feature_id(&report).unwrap();
    assert_eq!(info.feature_id, FeatureId(0x2110));
    assert!(info.flags.is_empty());
    assert_eq!(info.version, 1);
}

#[test]
fn decode_hidden_feature() {
    let mut report = LongReport::new();
    report.as_bytes_mut()[4] = 0x18;
    report.as_bytes_mut()[5] = 0x00;
    report.as_bytes_mut()[6] = 0x80;

    let info = decode_get_feature_id(&report).unwrap();
    assert_eq!(info.feature_id, FeatureId(0x1800));
    assert!(info.flags.contains(FeatureFlags::engineering_hidden()));
}

#[test]
fn decode_fw_info() {
    let mut report = LongReport::new();
    report.as_bytes_mut()[4] = 0;
    report.as_bytes_mut()[5] = b'M';
    report.as_bytes_mut()[6] = b'P';
    report.as_bytes_mut()[7] = b'M';
    report.as_bytes_mut()[8] = 0x12;
    report.as_bytes_mut()[9] = 0x34;
    report.as_bytes_mut()[10] = 0x00;
    report.as_bytes_mut()[11] = 0x42;
    report.as_bytes_mut()[12] = 0x04;

    let info = decode_get_fw_info(&report).unwrap();
    assert_eq!(info.entity_type, EntityType::Firmware);
    assert_eq!(info.name, "MPM");
    assert_eq!(info.version_major, 0x12);
    assert_eq!(info.version_minor, 0x34);
    assert_eq!(info.build, 0x0042);
}

#[test]
fn decode_name_len() {
    let mut report = LongReport::new();
    report.as_bytes_mut()[4] = 14;
    report.as_bytes_mut()[5] = 26;
    report.as_bytes_mut()[6] = 14;

    let lengths = decode_get_name_len(&report).unwrap();
    assert_eq!(lengths.name_len, 14);
    assert_eq!(lengths.max_len, 26);
    assert_eq!(lengths.default_len, 14);
}

#[test]
fn decode_capabilities() {
    let mut report = LongReport::new();
    report.as_bytes_mut()[4] = 8;
    report.as_bytes_mut()[5] = 0x0F;
    report.as_bytes_mut()[6] = 24;
    report.as_bytes_mut()[7] = 30;

    let caps = hires_wheel::decode_get_capabilities(&report).unwrap();
    assert_eq!(caps.multiplier, 8);
    assert!(caps.has_priority);
    assert!(caps.has_rate);
    assert!(caps.has_ratchet_switch);
    assert!(caps.has_inversion);
    assert!(!caps.has_analytics_data);
    assert_eq!(caps.ratchets_per_rotation, 24);
}

#[test]
fn encode_set_mode_hires() {
    let mode = hires_wheel::WheelMode {
        diverted: false,
        high_resolution: true,
        inverted: false,
        analytics: false,
        priority: 0,
        rate: 0,
    };
    let report = hires_wheel::encode_set_mode(DeviceIndex::ble_direct(), FeatureIndex(0x04), SoftwareId::default_id(), &mode);
    assert_eq!(report.params()[0], 0x02);
}

#[test]
fn roundtrip_mode() {
    let mode = hires_wheel::WheelMode {
        diverted: true,
        high_resolution: true,
        inverted: true,
        analytics: false,
        priority: 5,
        rate: 8,
    };
    let report = hires_wheel::encode_set_mode(DeviceIndex::ble_direct(), FeatureIndex(0x04), SoftwareId::default_id(), &mode);
    let decoded = hires_wheel::decode_get_mode(&report).unwrap();
    assert_eq!(decoded, mode);
}

#[test]
fn decode_host_os_macos() {
    let mut report = LongReport::new();
    report.as_bytes_mut()[4] = 6;
    report.as_bytes_mut()[5] = 14;
    report.as_bytes_mut()[6] = 5;
    report.as_bytes_mut()[7] = 0;

    let os = decode_get_host_os_version(&report).unwrap();
    assert_eq!(os.os_type, HostOS::MacOS);
    assert_eq!(os.version_major, 14);
}

#[test]
fn encode_set_mode_v0_ratchet() {
    let state = SmartShiftState { mode: smart_shift::WheelMode::Ratchet, auto_disengage: 50, tunable_torque: 0 };
    let report = encode_set_mode_v0(DeviceIndex::ble_direct(), FeatureIndex(0x07), SoftwareId::default_id(), &state);

    assert_eq!(report.function_id(), FunctionId(1));
    assert_eq!(report.params()[0], 2);
    assert_eq!(report.params()[1], 50);
}

#[test]
fn encode_set_mode_v1_with_torque() {
    let state = SmartShiftState { mode: smart_shift::WheelMode::FreeScroll, auto_disengage: 30, tunable_torque: 20 };
    let report = encode_set_mode_v1(DeviceIndex::ble_direct(), FeatureIndex(0x07), SoftwareId::default_id(), &state);

    assert_eq!(report.function_id(), FunctionId(2));
    assert_eq!(report.params()[0], 1);
    assert_eq!(report.params()[1], 30);
    assert_eq!(report.params()[2], 20);
}

#[test]
fn encode_get_mode_v0_uses_fn0() {
    let report = encode_get_mode_v0(DeviceIndex::ble_direct(), FeatureIndex(0x0E), SoftwareId::default_id());
    assert_eq!(report.function_id(), FunctionId(0));
}

#[test]
fn encode_get_mode_v1_uses_fn1() {
    let report = encode_get_mode_v1(DeviceIndex::ble_direct(), FeatureIndex(0x0E), SoftwareId::default_id());
    assert_eq!(report.function_id(), FunctionId(1));
}

#[test]
fn decode_mode_response() {
    let mut report = LongReport::new();
    report.as_bytes_mut()[4] = 1;
    report.as_bytes_mut()[5] = 10;
    report.as_bytes_mut()[6] = 15;

    let state = smart_shift::decode_get_mode(&report).unwrap();
    assert_eq!(state.mode, smart_shift::WheelMode::FreeScroll);
    assert_eq!(state.auto_disengage, 10);
    assert_eq!(state.tunable_torque, 15);
}

#[test]
fn decode_ctrl_id_info() {
    let mut report = LongReport::new();
    report.as_bytes_mut()[4] = 0x00;
    report.as_bytes_mut()[5] = 0x52;
    report.as_bytes_mut()[6] = 0x00;
    report.as_bytes_mut()[7] = 0x3A;
    report.as_bytes_mut()[8] = 0x03;
    report.as_bytes_mut()[9] = 0x01;
    report.as_bytes_mut()[10] = 0x02;
    report.as_bytes_mut()[11] = 0x04;
    report.as_bytes_mut()[12] = 0x00;

    let info = decode_get_ctrl_id_info(&report).unwrap();
    assert_eq!(info.cid, ControlId(82));
    assert_eq!(info.tid, ControlId(58));
    assert!(info.is_divertable());
    assert!(info.is_persistently_divertable());
    assert!(!info.is_virtual());
}

#[test]
fn encode_set_reporting() {
    let report = encode_set_ctrl_id_reporting(
        DeviceIndex::ble_direct(),
        FeatureIndex(0x09),
        SoftwareId::default_id(),
        ControlId(82),
        0x01,
        ControlId(0),
        0,
    );

    assert_eq!(report.function_id(), FunctionId(3));
    assert_eq!(report.params()[0], 0x00);
    assert_eq!(report.params()[1], 0x52);
    assert_eq!(report.params()[2], 0x01);
}

#[test]
fn decode_thumbwheel_info() {
    let mut report = LongReport::new();
    report.as_bytes_mut()[4] = 0x00;
    report.as_bytes_mut()[5] = 0x78;
    report.as_bytes_mut()[6] = 0x01;
    report.as_bytes_mut()[7] = 0x68;
    report.as_bytes_mut()[8] = 0x01;
    report.as_bytes_mut()[9] = 0x03;
    report.as_bytes_mut()[10] = 0x03;
    report.as_bytes_mut()[11] = 0xE8;

    let info = thumbwheel::decode_get_info(&report).unwrap();
    assert_eq!(info.native_resolution, 120);
    assert_eq!(info.diverted_resolution, 360);
    assert_eq!(info.direction, 1);
    assert!(info.has_auto_disengage);
    assert!(info.has_proxy);
    assert!(!info.has_touch_proxy);
    assert_eq!(info.timestamp_unit, 1000);
}

#[test]
fn encode_set_native_mode() {
    let report = thumbwheel::encode_set_reporting(DeviceIndex::ble_direct(), FeatureIndex(0x06), SoftwareId::default_id(), ReportingMode::Native, false);
    assert_eq!(report.params()[0], 0);
    assert_eq!(report.params()[1], 0);
}

#[test]
fn decode_battery_status() {
    let mut report = LongReport::new();
    report.as_bytes_mut()[4] = 75;
    report.as_bytes_mut()[5] = 4;
    report.as_bytes_mut()[6] = 0;
    report.as_bytes_mut()[7] = 0;

    let status = unified_battery::decode_get_status(&report).unwrap();
    assert_eq!(status.percentage, 75);
    assert_eq!(status.level, BatteryLevel::Good);
    assert_eq!(status.charging, ChargingStatus::Discharging);
    assert!(!status.external_power);
}

#[test]
fn decode_battery_charging() {
    let mut report = LongReport::new();
    report.as_bytes_mut()[4] = 50;
    report.as_bytes_mut()[5] = 2;
    report.as_bytes_mut()[6] = 1;
    report.as_bytes_mut()[7] = 1;

    let status = unified_battery::decode_get_status(&report).unwrap();
    assert_eq!(status.percentage, 50);
    assert_eq!(status.level, BatteryLevel::Low);
    assert_eq!(status.charging, ChargingStatus::Charging);
    assert!(status.external_power);
}

#[test]
fn report_debug_text() {
    let report = LongReport::request(DeviceIndex::ble_direct(), FeatureIndex(0x05), FunctionId(0x02), SoftwareId::default_id(), &[0xAA, 0xBB]);
    let text = report.debug_text();
    assert!(text.starts_with("Report<20>(11:FF:05:21 AA BB 00"));
    assert!(text.ends_with(" 00)"));
    assert_eq!(text.len(), "Report<20>(11:FF:05:21 ".len() + 16 * 3 - 1 + 1);
}

#[test]
fn feature_id_hex_string() {
    assert_eq!(FeatureId(0x2110).to_hex_string(), "0x2110");
    assert_eq!(FeatureId(0x1b04).to_hex_string(), "0x1B04");
    assert_eq!(FeatureId(0).to_hex_string(), "0x0000");
}

#[test]
fn request_params_truncated_and_padded() {
    let params: Vec<u8> = (1..=20).collect();
    let report = LongReport::request(DeviceIndex(1), FeatureIndex(2), FunctionId(3), SoftwareId(4), &params);
    assert_eq!(report.as_bytes()[3], 0x34);
    assert_eq!(report.params(), &params[..16]);
    let empty = LongReport::request(DeviceIndex(1), FeatureIndex(2), FunctionId(3), SoftwareId(4), &[]);
    assert!(empty.params().iter().all(|b| *b == 0));
}

#[test]
fn error_codes_roundtrip() {
    assert_eq!(HidppError::from_code(9), HidppError::Unsupported);
    assert_eq!(HidppError::from_code(0x42), HidppError::Other(0x42));
    let mut report = LongReport::new();
    report.as_bytes_mut()[2] = 0xFF;
    report.as_bytes_mut()[3] = 0x07;
    report.as_bytes_mut()[4] = 0x08;
    assert!(decode_get_feature(&report).is_err());
    assert_eq!(report.check_error(), Err(hidpp::error::DecodeError::DeviceError { feature_index: FeatureIndex(7), error: HidppError::Busy }));
}

#[test]
fn dpi_list_with_zero_step_is_discrete() {
    let mut r = LongReport::new();
    r.as_bytes_mut()[4..10].copy_from_slice(&[0x00, 0xC8, 0x20, 0x00, 0x1F, 0x40]);
    assert_eq!(decode_get_dpi_list(&r), Ok(DpiList::Discrete(vec![200, 8000])));

    let mut r = LongReport::new();
    r.as_bytes_mut()[4..10].copy_from_slice(&[0x00, 0xC8, 0xE0, 0x32, 0x1F, 0x40]);
    assert_eq!(decode_get_dpi_list(&r), Ok(DpiList::Range(DpiRange { min: 200, max: 8000, step: 50 })));
}

#[test]
fn fw_info_name_without_trailing_nuls() {
    let mut report = LongReport::new();
    report.as_bytes_mut()[4] = 0x01;
    report.as_bytes_mut()[5] = b'B';
    report.as_bytes_mut()[6] = b'L';
    report.as_bytes_mut()[7] = 0x00;
    let info = decode_get_fw_info(&report).unwrap();
    assert_eq!(info.name, "BL");
}
