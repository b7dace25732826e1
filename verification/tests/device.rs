use hidpp::device::config::{
    device_type_name, export_config, export_plan, import_plan, smart_shift_state_of, wheel_mode_with,
    DeviceConfig, DeviceSection, DpiSection, SmartShiftSection, WheelSection,
};
use hidpp::device::open::{name_text, probe_accepts, probe_request, DeviceOpener, NameAssembly, OpenStage};
use hidpp::device::profile::{DeviceProfile, ProfileDb, ProfileFeatures};
use hidpp::device::session::{DeviceError, DeviceSession};
use hidpp::device::table::{FeatureEntry, FeatureTable};
use hidpp::error::{DecodeError, HidppError};
use hidpp::features::change_host::HostInfo;
use hidpp::features::device_name::DeviceType;
use hidpp::features::hires_wheel;
use hidpp::features::smart_shift::{SmartShiftState, WheelMode};
use hidpp::report::LongReport;
use hidpp::types::{DeviceIndex, FeatureFlags, FeatureId, FeatureIndex, FunctionId, SoftwareId};

fn entry(id: u16, index: u8) -> FeatureEntry {
    FeatureEntry { id: FeatureId(id), index: FeatureIndex(index), flags: FeatureFlags::empty(), version: 0 }
}

fn response(params: &[u8]) -> LongReport {
    let mut r = LongReport::new();
    for (i, b) in params.iter().enumerate() {
        r.as_bytes_mut()[4 + i] = *b;
    }
    r
}

fn error_response(feature_index: u8, code: u8) -> LongReport {
    let mut r = LongReport::new();
    r.as_bytes_mut()[2] = 0xFF;
    r.as_bytes_mut()[3] = feature_index;
    r.as_bytes_mut()[4] = code;
    r
}

fn session_with(entries: &[FeatureEntry]) -> DeviceSession {
    let mut features = FeatureTable::new();
    for e in entries {
        features.insert(*e);
    }
    DeviceSession {
        device_index: DeviceIndex::ble_direct(),
        sw_id: SoftwareId::default_id(),
        protocol_version: (4, 5),
        name: "MX Master 3S".to_string(),
        device_type: Some(DeviceType::Mouse),
        features,
    }
}

#[test]
fn feature_table_keeps_ids_sorted_and_replaces() {
    let mut t = FeatureTable::new();
    t.insert(entry(0x2110, 7));
    t.insert(entry(0x0000, 0));
    t.insert(entry(0x1004, 3));
    t.insert(entry(0x2110, 9));
    let ids: Vec<u16> = t.entries().iter().map(|e| e.id.0).collect();
    assert_eq!(ids, vec![0x0000, 0x1004, 0x2110]);
    assert_eq!(t.get(FeatureId(0x2110)).map(|e| e.index), Some(FeatureIndex(9)));
    assert!(t.supports(FeatureId(0x1004)));
    assert!(!t.supports(FeatureId(0x2201)));
    assert_eq!(t.feature_id_for_index(FeatureIndex(3)), Some(FeatureId(0x1004)));
    assert_eq!(t.feature_id_for_index(FeatureIndex(7)), None);
}

#[test]
fn opener_discovers_features() {
    let mut o = DeviceOpener::new(DeviceIndex::ble_direct());
    let ping = o.request().unwrap();
    assert_eq!(ping.function_id(), FunctionId(1));
    o.on_response(&response(&[4, 5])).unwrap();
    assert_eq!(o.protocol_version, (4, 5));
    assert_eq!(o.stage, OpenStage::FindFeatureSet);
    let req = o.request().unwrap();
    assert_eq!(&req.params()[..2], &[0x00, 0x01]);
    o.on_response(&response(&[1])).unwrap();
    assert_eq!(o.stage, OpenStage::CountFeatures);
    o.on_response(&response(&[2])).unwrap();
    assert_eq!(o.stage, OpenStage::ReadFeature(1));
    let req = o.request().unwrap();
    assert_eq!(req.feature_index(), FeatureIndex(1));
    assert_eq!(req.params()[0], 1);
    o.on_response(&response(&[0x00, 0x05, 0x00, 0x00])).unwrap();
    o.on_response(&response(&[0x22, 0x01, 0x80, 0x02])).unwrap();
    assert!(o.is_done());
    assert!(o.request().is_none());
    assert_eq!(o.name_feature(), Some(FeatureIndex(1)));
    let s = o.finish("Mouse".to_string(), None);
    assert_eq!(s.features().len(), 3);
    assert_eq!(s.feature_index(FeatureId(0x2201)), Ok(FeatureIndex(2)));
    assert_eq!(s.feature_index(FeatureId(0x0000)), Ok(FeatureIndex(0)));
}

#[test]
fn opener_without_feature_set() {
    let mut o = DeviceOpener::new(DeviceIndex(2));
    o.on_response(&response(&[4, 2])).unwrap();
    o.on_response(&response(&[0])).unwrap();
    assert!(o.is_done());
    assert_eq!(o.features.len(), 0);
    assert_eq!(o.name_feature(), None);
    let s = o.finish_unnamed();
    assert_eq!(s.name(), "Unknown Device");
    assert_eq!(s.device_type(), None);
    assert_eq!(s.features().len(), 0);
    assert_eq!(s.protocol_version(), (4, 2));
}

#[test]
fn opened_device_named_from_its_bytes() {
    let mut o = DeviceOpener::new(DeviceIndex(1));
    o.on_response(&response(&[4, 5])).unwrap();
    o.on_response(&response(&[0])).unwrap();
    let s = o.finish_named(b"MX Master 3S", Some(DeviceType::Mouse));
    assert_eq!(s.name(), "MX Master 3S");
    assert_eq!(s.device_type(), Some(DeviceType::Mouse));

    let mut o = DeviceOpener::new(DeviceIndex(1));
    o.on_response(&response(&[4, 5])).unwrap();
    o.on_response(&response(&[0])).unwrap();
    let s = o.finish_named(&[0xFF, 0xFE], None);
    assert_eq!(s.name(), "Unknown Device");
    assert_eq!(s.device_type(), None);
}

#[test]
fn opener_errors() {
    let mut o = DeviceOpener::new(DeviceIndex::ble_direct());
    assert_eq!(o.on_response(&error_response(0, 2)), Err(DeviceError::PingFailed));
    assert_eq!(o.stage, OpenStage::Ping);
    o.on_response(&response(&[4, 5])).unwrap();
    assert_eq!(
        o.on_response(&error_response(0, 5)),
        Err(DeviceError::Decode(DecodeError::DeviceError {
            feature_index: FeatureIndex(0),
            error: HidppError::from_code(5),
        }))
    );
}

#[test]
fn name_assembly_takes_only_missing_bytes() {
    let mut a = NameAssembly::new(5);
    assert_eq!(a.offset(), 0);
    a.add_chunk(b"MX");
    assert_eq!(a.offset(), 2);
    assert!(!a.is_complete());
    a.add_chunk(b" Master");
    assert!(a.is_complete());
    assert_eq!(a.bytes(), b"MX Ma");
    assert_eq!(name_text(a.bytes(), "Unknown Device"), "MX Ma");
    assert_eq!(name_text(&[0xFF, 0xFE], "Unknown Device"), "Unknown Device");
}

#[test]
fn probe_steps() {
    let r = probe_request(0);
    assert_eq!(r.device_index(), DeviceIndex(0xFF));
    assert_eq!(r.sw_id(), SoftwareId(1));
    let r = probe_request(6);
    assert_eq!(r.device_index(), DeviceIndex(6));
    assert_eq!(r.sw_id(), SoftwareId(7));
    assert!(probe_accepts(&response(&[4, 5])));
    assert!(!probe_accepts(&error_response(0, 1)));
}

#[test]
fn session_requests() {
    let s = session_with(&[entry(0x1004, 3), entry(0x2110, 7), entry(0x2201, 8)]);
    let r = s.battery_status_request().unwrap();
    assert_eq!((r.feature_index(), r.function_id()), (FeatureIndex(3), FunctionId(1)));
    let r = s.smart_shift_get_request().unwrap();
    assert_eq!((r.feature_index(), r.function_id()), (FeatureIndex(7), FunctionId(0)));
    let r = s.dpi_set_request(1600).unwrap();
    assert_eq!(r.function_id(), FunctionId(3));
    assert_eq!(&r.params()[..3], &[0, 0x06, 0x40]);
    assert_eq!(s.hires_wheel_get_mode_request().err(), Some(DeviceError::FeatureNotSupported(FeatureId(0x2121))));
    assert!(s.has_smart_shift());
    assert_eq!(s.smart_shift_info(), Ok((FeatureIndex(7), false)));

    let s = session_with(&[entry(0x2110, 7), entry(0x2111, 9)]);
    assert_eq!(s.smart_shift_info(), Ok((FeatureIndex(9), true)));
    let state = SmartShiftState { mode: WheelMode::Ratchet, auto_disengage: 10, tunable_torque: 20 };
    let r = s.smart_shift_set_request(&state).unwrap();
    assert_eq!((r.feature_index(), r.function_id()), (FeatureIndex(9), FunctionId(2)));
    assert_eq!(&r.params()[..3], &[2, 10, 20]);

    let s = session_with(&[]);
    assert_eq!(s.smart_shift_get_request().err(), Some(DeviceError::FeatureNotSupported(FeatureId(0x2110))));
    assert_eq!(s.raw_request(FeatureId(0x1B04), 3, &[1]).err(), Some(DeviceError::FeatureNotSupported(FeatureId(0x1B04))));
}

#[test]
fn export_builds_sections() {
    let s = session_with(&[entry(0x2201, 8), entry(0x1814, 9)]);
    let plan = export_plan(&s);
    assert!(plan.dpi && plan.host && !plan.smart_shift && !plan.wheel && !plan.thumbwheel);
    let state = SmartShiftState { mode: WheelMode::FreeScroll, auto_disengage: 50, tunable_torque: 20 };
    let c = export_config(&s, Some(1600), Some(state), None, None, Some(HostInfo { num_hosts: 3, current_host: 1 }));
    assert_eq!(c.device.name, "MX Master 3S");
    assert_eq!(c.device.pid, "0000");
    assert_eq!(c.device.device_type.as_deref(), Some("Mouse"));
    assert_eq!(c.device.protocol, "4.5");
    assert_eq!(c.dpi.map(|d| d.value), Some(1600));
    assert_eq!(c.smartshift.as_ref().map(|s| s.mode.as_str()), Some("freespin"));
    assert_eq!(c.host.map(|h| (h.current, h.count)), Some((1, 3)));
    assert!(c.wheel.is_none());
    assert_eq!(device_type_name(DeviceType::Unknown(42)), "Unknown(42)");
}

#[test]
fn import_plans_writes() {
    let config = DeviceConfig {
        device: DeviceSection { name: "x".to_string(), pid: "B034".to_string(), device_type: None, protocol: "4.5".to_string() },
        dpi: Some(DpiSection { value: 2000 }),
        smartshift: Some(SmartShiftSection { mode: "free".to_string(), auto_disengage: 5, torque: 6 }),
        wheel: Some(WheelSection { high_resolution: true, inverted: false }),
        thumbwheel: None,
        host: None,
    };
    let plan = import_plan(&config);
    assert_eq!(plan.dpi, Some(2000));
    let ss = plan.smart_shift.unwrap();
    assert_eq!((ss.mode, ss.auto_disengage, ss.tunable_torque), (WheelMode::FreeScroll, 5, 6));
    let other = SmartShiftSection { mode: "bogus".to_string(), auto_disengage: 0, torque: 0 };
    assert_eq!(smart_shift_state_of(&other).mode, WheelMode::Ratchet);
    let current = hires_wheel::WheelMode { diverted: true, high_resolution: false, inverted: true, analytics: false, priority: 3, rate: 4 };
    let next = wheel_mode_with(&current, &plan.wheel.unwrap());
    assert_eq!(next, hires_wheel::WheelMode { diverted: true, high_resolution: true, inverted: false, analytics: false, priority: 3, rate: 4 });
}

#[test]
fn export_import_roundtrip_smart_shift() {
    let s = session_with(&[]);
    for mode in [WheelMode::FreeScroll, WheelMode::Ratchet] {
        let state = SmartShiftState { mode, auto_disengage: 7, tunable_torque: 8 };
        let c = export_config(&s, None, Some(state.clone()), None, None, None);
        let back = import_plan(&c).smart_shift.unwrap();
        assert_eq!(back, state);
    }
}

fn profile(name: &str, model: &str, pids: &[&str]) -> DeviceProfile {
    DeviceProfile {
        name: name.to_string(),
        model_id: model.to_string(),
        kind: "mouse".to_string(),
        depot: String::new(),
        pids: pids.iter().map(|p| p.to_string()).collect(),
        buttons: vec![82, 83],
        hosts: 3,
        features: ProfileFeatures::default(),
        dpi: None,
    }
}

#[test]
fn profile_lookups() {
    let db = ProfileDb::new(vec![
        profile("MX Master 3S", "2b034", &["B034"]),
        profile("MX Keys", "6b35b", &["b35b", "408A"]),
        profile("MX Master 3S For Mac", "2b035", &["b034"]),
    ]);
    assert_eq!(DeviceProfile::count(&db), 3);
    assert_eq!(DeviceProfile::all(&db).len(), 3);
    assert_eq!(DeviceProfile::by_pid(&db, "B034").map(|p| p.name.as_str()), Some("MX Master 3S For Mac"));
    assert_eq!(DeviceProfile::by_pid(&db, "408a").map(|p| p.name.as_str()), Some("MX Keys"));
    assert!(DeviceProfile::by_pid(&db, "ffff").is_none());
    assert_eq!(DeviceProfile::by_model(&db, "6b35b").map(|p| p.name.as_str()), Some("MX Keys"));
    assert!(DeviceProfile::by_model(&db, "6B35B").is_none());
    let p = DeviceProfile::by_pid(&db, "b034").unwrap();
    assert_eq!(p.button_name(82), Some("Middle Click"));
    assert_eq!(p.button_name(195), Some("Gesture Button"));
    assert_eq!(p.button_name(1), None);
}

#[test]
fn load_profiles() {
    let profiles: Vec<DeviceProfile> =
        (0..170).map(|i| profile(&format!("Device {i}"), &format!("m{i:04x}"), &[&format!("{:04x}", 0xb000 + i)])).collect();
    let db = ProfileDb::new(profiles);
    let count = DeviceProfile::count(&db);
    assert!(count > 100, "Expected 100+ profiles, got {count}");
}

fn known_profiles() -> ProfileDb {
    let mut master = profile("Logitech MX Master 3S", "2b034", &["b034"]);
    master.buttons = vec![82, 83, 86, 195, 196];
    master.features.smartshift = true;
    master.features.dpi = true;
    let mut keys = profile("Logitech MX Keys", "6b35b", &["b35b", "408a"]);
    keys.kind = "keyboard".to_string();
    keys.buttons = vec![];
    keys.features.fn_inversion = true;
    keys.features.backlight = true;
    ProfileDb::new(vec![master, keys])
}

#[test]
fn find_mx_master_3s() {
    let db = known_profiles();
    let profile = DeviceProfile::by_pid(&db, "b034").unwrap();
    assert!(profile.name.contains("MX Master 3S"));
    assert_eq!(profile.buttons, vec![82, 83, 86, 195, 196]);
    assert!(profile.features.smartshift);
    assert!(profile.features.dpi);
}

#[test]
fn find_mx_keys() {
    let db = known_profiles();
    let profile = DeviceProfile::by_model(&db, "6b35b").unwrap();
    assert!(profile.name.contains("MX Keys"));
    assert!(profile.features.fn_inversion);
    assert!(profile.features.backlight);
    assert!(!profile.features.dpi);
}
