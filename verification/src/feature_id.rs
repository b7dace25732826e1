//! The HID++ 2.0 feature ID catalog.
//!
//! Feature IDs are fixed 16-bit identifiers. Each device supports a subset
//! of these, discoverable at runtime via feature 0x0001 (FeatureSet).
use vstd::prelude::*;

use crate::types::FeatureId;

verus! {

// Core / System
pub const ROOT: u16 = 0x0000;
pub const FEATURE_SET: u16 = 0x0001;
pub const ENG_TEST: u16 = 0x0002;
pub const FIRMWARE_INFO: u16 = 0x0003;
pub const DEVICE_NAME_TYPE: u16 = 0x0005;
pub const DEVICE_FRIENDLY_NAME: u16 = 0x0007;
pub const SWITCH_AND_KEEP_ALIVE: u16 = 0x0008;
pub const SUBDEVICES: u16 = 0x0009;
pub const PROPERTY_ACCESS: u16 = 0x0011;
pub const CONFIG_CHANGE: u16 = 0x0020;
pub const CRYPTO_IDENTIFIER: u16 = 0x0021;

// DFU (Device Firmware Update)
pub const DFU_CONTROL_V0: u16 = 0x00C0;
pub const DFU_CONTROL_V1: u16 = 0x00C1;
pub const DFU_CONTROL_V2: u16 = 0x00C2;
pub const DFU_CONTROL_V3: u16 = 0x00C3;
pub const DFU: u16 = 0x00D0;
pub const RESUMABLE_DFU: u16 = 0x00D1;

// BLE / Wireless
pub const DEVICE_INFO: u16 = 0x0100;
pub const DEVICE_NAME_BLE: u16 = 0x0101;
pub const ROOT_BLE: u16 = 0x0102;
pub const FEATURE_SET_BLE: u16 = 0x0103;
pub const BATTERY_SOC: u16 = 0x0104;
pub const BT_HOST_INFO: u16 = 0x0305;
pub const LIGHTSPEED_PAIRING: u16 = 0x0309;
pub const BT_GAMING_MODE: u16 = 0x030A;

// Battery
pub const BATTERY_UNIFIED_LEVEL_STATUS: u16 = 0x1000;
pub const BATTERY_VOLTAGE: u16 = 0x1001;
pub const UNIFIED_BATTERY: u16 = 0x1004;
pub const CHARGING_CONTROL: u16 = 0x1010;

// Lighting / Backlight
pub const LED_CONTROL: u16 = 0x1300;
pub const FORCE_PAIRING: u16 = 0x1500;
pub const USER_ACTIVITY_MONITORING: u16 = 0x1701;
pub const GENERIC_TEST: u16 = 0x1800;
pub const MANUFACTURING_MODE: u16 = 0x1801;
pub const DEVICE_RESET: u16 = 0x1802;
pub const OOB_STATE: u16 = 0x1805;
pub const CONFIGURABLE_DEVICE_PROPERTIES: u16 = 0x1806;
pub const CONFIGURABLE_PROPERTIES: u16 = 0x1807;

// Host / Connection
pub const CHANGE_HOST: u16 = 0x1814;
pub const HOSTS_INFOS: u16 = 0x1815;
pub const BLE_PRO_PREPAIRING: u16 = 0x1816;
pub const LED_STATE: u16 = 0x18A1;

// Keyboard Backlight
pub const KEYBOARD_BACKLIGHT_V1: u16 = 0x1981;
pub const BACKLIGHT: u16 = 0x1982;
pub const KEYBOARD_BACKLIGHT_V2: u16 = 0x1983;
pub const ILLUMINATION_LIGHT: u16 = 0x1990;

// Input
pub const HAPTIC_FEEDBACK: u16 = 0x19B0;
pub const FORCE_SENSING_BUTTON: u16 = 0x19C0;
pub const PRESENTER_CONTROL: u16 = 0x1A00;

// Special Keys / Buttons
pub const SPECIAL_KEYS_V0: u16 = 0x1B00;
pub const SPECIAL_KEYS_V3: u16 = 0x1B03;
pub const SPECIAL_KEYS_V4: u16 = 0x1B04;
pub const SPECIAL_KEYS_AND_BUTTONS: u16 = 0x1B06;
pub const CONTROL_LIST: u16 = 0x1B10;
pub const REPORT_HID_USAGES: u16 = 0x1BC0;
pub const PERSISTENT_REMAPPABLE_ACTION: u16 = 0x1C00;

// Wireless
pub const WIRELESS_STATUS: u16 = 0x1D4B;
pub const ENABLE_HIDDEN_FEATURES: u16 = 0x1E00;
pub const FIRMWARE_PROPERTIES: u16 = 0x1F1F;
pub const ADC_MEASUREMENT: u16 = 0x1F20;

// Mouse
pub const BUTTON_SWAP_CANCEL: u16 = 0x2005;
pub const POINTER_AXES_ORIENTATION: u16 = 0x2006;
pub const SMART_SHIFT: u16 = 0x2110;
pub const SMART_SHIFT_TUNABLE_TORQUE: u16 = 0x2111;
pub const HIRES_WHEEL: u16 = 0x2121;
pub const RATCHET_WHEEL: u16 = 0x2130;
pub const THUMBWHEEL: u16 = 0x2150;
pub const ADJUSTABLE_DPI: u16 = 0x2201;
pub const EXTENDED_ADJUSTABLE_DPI: u16 = 0x2202;
pub const POINTER_MOTION_SCALING: u16 = 0x2205;
pub const ANGLE_SNAPPING: u16 = 0x2230;
pub const SURFACE_TUNING: u16 = 0x2240;
pub const ANALYSIS_MODE: u16 = 0x2250;
pub const HYBRID_TRACKING: u16 = 0x2400;

// Keyboard
pub const FN_INVERSION_V0: u16 = 0x40A0;
pub const FN_INVERSION_V2: u16 = 0x40A2;
pub const FN_INVERSION_V3: u16 = 0x40A3;
pub const LOCK_KEY_STATE: u16 = 0x4220;
pub const DISABLE_KEYS: u16 = 0x4521;
pub const DUAL_PLATFORM: u16 = 0x4530;
pub const MULTI_PLATFORM: u16 = 0x4531;
pub const KB_LAYOUT: u16 = 0x4540;
pub const CROWN: u16 = 0x4600;
pub const MULTI_ROLLER: u16 = 0x4610;

// Gestures / Touchpad
pub const GESTURES_V1: u16 = 0x6010;
pub const GESTURES_V2: u16 = 0x6012;
pub const TOUCHPAD_RAW_XY: u16 = 0x6100;
pub const GESTURES_V3: u16 = 0x6500;
pub const GESTURES_V4: u16 = 0x6501;

// Gaming
pub const GKEY: u16 = 0x8010;
pub const MKEYS: u16 = 0x8020;
pub const MR: u16 = 0x8030;
pub const BRIGHTNESS_CONTROL: u16 = 0x8040;
pub const REPORT_RATE: u16 = 0x8060;
pub const EXTENDED_ADJUSTABLE_REPORT_RATE: u16 = 0x8061;
pub const COLOR_LED_EFFECTS: u16 = 0x8070;
pub const RGB_EFFECTS: u16 = 0x8071;
pub const PER_KEY_LIGHTING_V1: u16 = 0x8080;
pub const PER_KEY_LIGHTING_V2: u16 = 0x8081;
pub const MODE_STATUS: u16 = 0x8090;
pub const ONBOARD_PROFILES: u16 = 0x8100;
pub const MOUSE_BUTTON_SPY: u16 = 0x8110;
pub const LATENCY_MONITORING: u16 = 0x8111;

// Audio (headsets)
pub const SIDETONE: u16 = 0x8300;
pub const EQUALIZER: u16 = 0x8310;
pub const MIC_POLAR_PATTERN: u16 = 0x8330;

/// The human-readable name of a known feature ID.
pub open spec fn spec_feature_name(id: FeatureId) -> Option<&'static str> {
    match id.0 {
        0x0000 => Some("Root"),
        0x0001 => Some("FeatureSet"),
        0x0002 => Some("EngTest"),
        0x0003 => Some("FirmwareInfo"),
        0x0005 => Some("DeviceNameType"),
        0x0007 => Some("FriendlyName"),
        0x0008 => Some("KeepAlive"),
        0x0009 => Some("Subdevices"),
        0x0011 => Some("PropertyAccess"),
        0x0020 => Some("ConfigChange"),
        0x0021 => Some("CryptoId"),
        0x00C0 | 0x00C1 | 0x00C2 | 0x00C3 => Some("DFUControl"),
        0x00D0 => Some("DFU"),
        0x00D1 => Some("ResumableDFU"),
        0x1004 => Some("UnifiedBattery"),
        0x1000 => Some("BatteryLevel"),
        0x1001 => Some("BatteryVoltage"),
        0x1010 => Some("ChargingControl"),
        0x1300 => Some("LEDControl"),
        0x1500 => Some("ForcePairing"),
        0x1602 => Some("Unknown1602"),
        0x1701 => Some("ActivityMonitor"),
        0x1800 => Some("GenericTest"),
        0x1801 => Some("MfgMode"),
        0x1802 => Some("DeviceReset"),
        0x1803 => Some("GPIOAccess"),
        0x1805 => Some("OOBState"),
        0x1806 => Some("DeviceProperties"),
        0x1807 => Some("ConfigProperties"),
        0x1814 => Some("ChangeHost"),
        0x1815 => Some("HostsInfos"),
        0x1816 => Some("BLEPrepairing"),
        0x1830 => Some("PowerManagement"),
        0x1861 => Some("Unknown1861"),
        0x1890 => Some("RfTest"),
        0x1891 => Some("RfTestExt"),
        0x18A1 => Some("LEDState"),
        0x1B04 => Some("SpecialKeys"),
        0x1B00 | 0x1B03 => Some("SpecialKeys"),
        0x1B06 => Some("SpecialKeysButtons"),
        0x1B10 => Some("ControlList"),
        0x1BC0 => Some("HIDUsages"),
        0x1C00 => Some("PersistentRemap"),
        0x1D4B => Some("WirelessStatus"),
        0x1E00 => Some("HiddenFeatures"),
        0x1E02 => Some("Unknown1E02"),
        0x1E22 => Some("Unknown1E22"),
        0x1EB0 => Some("Unknown1EB0"),
        0x1F1F => Some("FWProperties"),
        0x1F20 => Some("ADCMeasure"),
        0x2110 => Some("SmartShift"),
        0x2111 => Some("SmartShift+"),
        0x2121 => Some("HiResWheel"),
        0x2130 => Some("RatchetWheel"),
        0x2150 => Some("Thumbwheel"),
        0x2201 => Some("AdjustableDPI"),
        0x2202 => Some("ExtAdjustDPI"),
        0x2005 => Some("ButtonSwap"),
        0x2006 => Some("PointerAxes"),
        0x2205 => Some("PointerScaling"),
        0x2230 => Some("AngleSnapping"),
        0x2240 => Some("SurfaceTuning"),
        0x2250 => Some("AnalysisMode"),
        0x2400 => Some("HybridTracking"),
        0x40A3 => Some("FnInversion"),
        0x40A0 | 0x40A2 => Some("FnInversion"),
        0x4220 => Some("LockKeyState"),
        0x4521 => Some("DisableKeys"),
        0x4530 => Some("DualPlatform"),
        0x4531 => Some("MultiPlatform"),
        0x4540 => Some("KBLayout"),
        0x4600 => Some("Crown"),
        0x4610 => Some("MultiRoller"),
        0x6010 | 0x6012 => Some("Gestures"),
        0x6100 => Some("TouchpadRawXY"),
        0x6500 => Some("Gestures"),
        0x6501 => Some("Gestures"),
        0x8010 => Some("GKey"),
        0x8020 => Some("MKeys"),
        0x8040 => Some("Brightness"),
        0x8060 => Some("ReportRate"),
        0x8061 => Some("ExtReportRate"),
        0x8070 => Some("ColorLED"),
        0x8071 => Some("RGBEffects"),
        0x8080 | 0x8081 => Some("PerKeyLight"),
        0x8090 => Some("ModeStatus"),
        0x8100 => Some("OnboardProfiles"),
        0x8110 => Some("ButtonSpy"),
        0x8111 => Some("LatencyMonitor"),
        0x1983 => Some("Backlight"),
        0x1981 => Some("Backlight"),
        0x1990 => Some("IllumLight"),
        0x19B0 => Some("HapticFeedback"),
        0x19C0 => Some("ForceButton"),
        0x1A00 => Some("Presenter"),
        0x8300 => Some("Sidetone"),
        0x8310 => Some("Equalizer"),
        0x8330 => Some("MicPolar"),
        0x9001 => Some("TestPMW"),
        0x9203 | 0x9205 | 0x9300 => Some("MfgTest"),
        _ => None,
    }
}

/// Look up a human-readable name for a known feature ID.
#[verifier::when_used_as_spec(spec_feature_name)]
pub fn feature_name(id: FeatureId) -> (name: Option<&'static str>)
    ensures
        name == spec_feature_name(id),
{
    match id.0 {
        0x0000 => Some("Root"),
        0x0001 => Some("FeatureSet"),
        0x0002 => Some("EngTest"),
        0x0003 => Some("FirmwareInfo"),
        0x0005 => Some("DeviceNameType"),
        0x0007 => Some("FriendlyName"),
        0x0008 => Some("KeepAlive"),
        0x0009 => Some("Subdevices"),
        0x0011 => Some("PropertyAccess"),
        0x0020 => Some("ConfigChange"),
        0x0021 => Some("CryptoId"),
        0x00C0 | 0x00C1 | 0x00C2 | 0x00C3 => Some("DFUControl"),
        0x00D0 => Some("DFU"),
        0x00D1 => Some("ResumableDFU"),
        0x1004 => Some("UnifiedBattery"),
        0x1000 => Some("BatteryLevel"),
        0x1001 => Some("BatteryVoltage"),
        0x1010 => Some("ChargingControl"),
        0x1300 => Some("LEDControl"),
        0x1500 => Some("ForcePairing"),
        0x1602 => Some("Unknown1602"),
        0x1701 => Some("ActivityMonitor"),
        0x1800 => Some("GenericTest"),
        0x1801 => Some("MfgMode"),
        0x1802 => Some("DeviceReset"),
        0x1803 => Some("GPIOAccess"),
        0x1805 => Some("OOBState"),
        0x1806 => Some("DeviceProperties"),
        0x1807 => Some("ConfigProperties"),
        0x1814 => Some("ChangeHost"),
        0x1815 => Some("HostsInfos"),
        0x1816 => Some("BLEPrepairing"),
        0x1830 => Some("PowerManagement"),
        0x1861 => Some("Unknown1861"),
        0x1890 => Some("RfTest"),
        0x1891 => Some("RfTestExt"),
        0x18A1 => Some("LEDState"),
        0x1B04 => Some("SpecialKeys"),
        0x1B00 | 0x1B03 => Some("SpecialKeys"),
        0x1B06 => Some("SpecialKeysButtons"),
        0x1B10 => Some("ControlList"),
        0x1BC0 => Some("HIDUsages"),
        0x1C00 => Some("PersistentRemap"),
        0x1D4B => Some("WirelessStatus"),
        0x1E00 => Some("HiddenFeatures"),
        0x1E02 => Some("Unknown1E02"),
        0x1E22 => Some("Unknown1E22"),
        0x1EB0 => Some("Unknown1EB0"),
        0x1F1F => Some("FWProperties"),
        0x1F20 => Some("ADCMeasure"),
        0x2110 => Some("SmartShift"),
        0x2111 => Some("SmartShift+"),
        0x2121 => Some("HiResWheel"),
        0x2130 => Some("RatchetWheel"),
        0x2150 => Some("Thumbwheel"),
        0x2201 => Some("AdjustableDPI"),
        0x2202 => Some("ExtAdjustDPI"),
        0x2005 => Some("ButtonSwap"),
        0x2006 => Some("PointerAxes"),
        0x2205 => Some("PointerScaling"),
        0x2230 => Some("AngleSnapping"),
        0x2240 => Some("SurfaceTuning"),
        0x2250 => Some("AnalysisMode"),
        0x2400 => Some("HybridTracking"),
        0x40A3 => Some("FnInversion"),
        0x40A0 | 0x40A2 => Some("FnInversion"),
        0x4220 => Some("LockKeyState"),
        0x4521 => Some("DisableKeys"),
        0x4530 => Some("DualPlatform"),
        0x4531 => Some("MultiPlatform"),
        0x4540 => Some("KBLayout"),
        0x4600 => Some("Crown"),
        0x4610 => Some("MultiRoller"),
        0x6010 | 0x6012 => Some("Gestures"),
        0x6100 => Some("TouchpadRawXY"),
        0x6500 => Some("Gestures"),
        0x6501 => Some("Gestures"),
        0x8010 => Some("GKey"),
        0x8020 => Some("MKeys"),
        0x8040 => Some("Brightness"),
        0x8060 => Some("ReportRate"),
        0x8061 => Some("ExtReportRate"),
        0x8070 => Some("ColorLED"),
        0x8071 => Some("RGBEffects"),
        0x8080 | 0x8081 => Some("PerKeyLight"),
        0x8090 => Some("ModeStatus"),
        0x8100 => Some("OnboardProfiles"),
        0x8110 => Some("ButtonSpy"),
        0x8111 => Some("LatencyMonitor"),
        0x1983 => Some("Backlight"),
        0x1981 => Some("Backlight"),
        0x1990 => Some("IllumLight"),
        0x19B0 => Some("HapticFeedback"),
        0x19C0 => Some("ForceButton"),
        0x1A00 => Some("Presenter"),
        0x8300 => Some("Sidetone"),
        0x8310 => Some("Equalizer"),
        0x8330 => Some("MicPolar"),
        0x9001 => Some("TestPMW"),
        0x9203 | 0x9205 | 0x9300 => Some("MfgTest"),
        _ => None,
    }
}

/// The names of the known features, each under its own feature ID.
pub proof fn lemma_feature_names()
    ensures
        spec_feature_name(FeatureId(0x0000)) == Some("Root"),
        spec_feature_name(FeatureId(0x0001)) == Some("FeatureSet"),
        spec_feature_name(FeatureId(0x0002)) == Some("EngTest"),
        spec_feature_name(FeatureId(0x0003)) == Some("FirmwareInfo"),
        spec_feature_name(FeatureId(0x0005)) == Some("DeviceNameType"),
        spec_feature_name(FeatureId(0x0007)) == Some("FriendlyName"),
        spec_feature_name(FeatureId(0x0008)) == Some("KeepAlive"),
        spec_feature_name(FeatureId(0x0009)) == Some("Subdevices"),
        spec_feature_name(FeatureId(0x0011)) == Some("PropertyAccess"),
        spec_feature_name(FeatureId(0x0020)) == Some("ConfigChange"),
        spec_feature_name(FeatureId(0x0021)) == Some("CryptoId"),
        spec_feature_name(FeatureId(0x00C3)) == Some("DFUControl"),
        spec_feature_name(FeatureId(0x00D0)) == Some("DFU"),
        spec_feature_name(FeatureId(0x00D1)) == Some("ResumableDFU"),
        spec_feature_name(FeatureId(0x1004)) == Some("UnifiedBattery"),
        spec_feature_name(FeatureId(0x1000)) == Some("BatteryLevel"),
        spec_feature_name(FeatureId(0x1001)) == Some("BatteryVoltage"),
        spec_feature_name(FeatureId(0x1010)) == Some("ChargingControl"),
        spec_feature_name(FeatureId(0x1300)) == Some("LEDControl"),
        spec_feature_name(FeatureId(0x1500)) == Some("ForcePairing"),
        spec_feature_name(FeatureId(0x1602)) == Some("Unknown1602"),
        spec_feature_name(FeatureId(0x1701)) == Some("ActivityMonitor"),
        spec_feature_name(FeatureId(0x1800)) == Some("GenericTest"),
        spec_feature_name(FeatureId(0x1801)) == Some("MfgMode"),
        spec_feature_name(FeatureId(0x1802)) == Some("DeviceReset"),
        spec_feature_name(FeatureId(0x1803)) == Some("GPIOAccess"),
        spec_feature_name(FeatureId(0x1805)) == Some("OOBState"),
        spec_feature_name(FeatureId(0x1806)) == Some("DeviceProperties"),
        spec_feature_name(FeatureId(0x1807)) == Some("ConfigProperties"),
        spec_feature_name(FeatureId(0x1814)) == Some("ChangeHost"),
        spec_feature_name(FeatureId(0x1815)) == Some("HostsInfos"),
        spec_feature_name(FeatureId(0x1816)) == Some("BLEPrepairing"),
        spec_feature_name(FeatureId(0x1830)) == Some("PowerManagement"),
        spec_feature_name(FeatureId(0x1861)) == Some("Unknown1861"),
        spec_feature_name(FeatureId(0x1890)) == Some("RfTest"),
        spec_feature_name(FeatureId(0x1891)) == Some("RfTestExt"),
        spec_feature_name(FeatureId(0x18A1)) == Some("LEDState"),
        spec_feature_name(FeatureId(0x1B04)) == Some("SpecialKeys"),
        spec_feature_name(FeatureId(0x1B03)) == Some("SpecialKeys"),
        spec_feature_name(FeatureId(0x1B06)) == Some("SpecialKeysButtons"),
        spec_feature_name(FeatureId(0x1B10)) == Some("ControlList"),
        spec_feature_name(FeatureId(0x1BC0)) == Some("HIDUsages"),
        spec_feature_name(FeatureId(0x1C00)) == Some("PersistentRemap"),
        spec_feature_name(FeatureId(0x1D4B)) == Some("WirelessStatus"),
        spec_feature_name(FeatureId(0x1E00)) == Some("HiddenFeatures"),
        spec_feature_name(FeatureId(0x1E02)) == Some("Unknown1E02"),
        spec_feature_name(FeatureId(0x1E22)) == Some("Unknown1E22"),
        spec_feature_name(FeatureId(0x1EB0)) == Some("Unknown1EB0"),
        spec_feature_name(FeatureId(0x1F1F)) == Some("FWProperties"),
        spec_feature_name(FeatureId(0x1F20)) == Some("ADCMeasure"),
        spec_feature_name(FeatureId(0x2110)) == Some("SmartShift"),
        spec_feature_name(FeatureId(0x2111)) == Some("SmartShift+"),
        spec_feature_name(FeatureId(0x2121)) == Some("HiResWheel"),
        spec_feature_name(FeatureId(0x2130)) == Some("RatchetWheel"),
        spec_feature_name(FeatureId(0x2150)) == Some("Thumbwheel"),
        spec_feature_name(FeatureId(0x2201)) == Some("AdjustableDPI"),
        spec_feature_name(FeatureId(0x2202)) == Some("ExtAdjustDPI"),
        spec_feature_name(FeatureId(0x2005)) == Some("ButtonSwap"),
        spec_feature_name(FeatureId(0x2006)) == Some("PointerAxes"),
        spec_feature_name(FeatureId(0x2205)) == Some("PointerScaling"),
        spec_feature_name(FeatureId(0x2230)) == Some("AngleSnapping"),
        spec_feature_name(FeatureId(0x2240)) == Some("SurfaceTuning"),
        spec_feature_name(FeatureId(0x2250)) == Some("AnalysisMode"),
        spec_feature_name(FeatureId(0x2400)) == Some("HybridTracking"),
        spec_feature_name(FeatureId(0x40A3)) == Some("FnInversion"),
        spec_feature_name(FeatureId(0x40A2)) == Some("FnInversion"),
        spec_feature_name(FeatureId(0x4220)) == Some("LockKeyState"),
        spec_feature_name(FeatureId(0x4521)) == Some("DisableKeys"),
        spec_feature_name(FeatureId(0x4530)) == Some("DualPlatform"),
        spec_feature_name(FeatureId(0x4531)) == Some("MultiPlatform"),
        spec_feature_name(FeatureId(0x4540)) == Some("KBLayout"),
        spec_feature_name(FeatureId(0x4600)) == Some("Crown"),
        spec_feature_name(FeatureId(0x4610)) == Some("MultiRoller"),
        spec_feature_name(FeatureId(0x6012)) == Some("Gestures"),
        spec_feature_name(FeatureId(0x6100)) == Some("TouchpadRawXY"),
        spec_feature_name(FeatureId(0x6500)) == Some("Gestures"),
        spec_feature_name(FeatureId(0x6501)) == Some("Gestures"),
        spec_feature_name(FeatureId(0x8010)) == Some("GKey"),
        spec_feature_name(FeatureId(0x8020)) == Some("MKeys"),
        spec_feature_name(FeatureId(0x8040)) == Some("Brightness"),
        spec_feature_name(FeatureId(0x8060)) == Some("ReportRate"),
        spec_feature_name(FeatureId(0x8061)) == Some("ExtReportRate"),
        spec_feature_name(FeatureId(0x8070)) == Some("ColorLED"),
        spec_feature_name(FeatureId(0x8071)) == Some("RGBEffects"),
        spec_feature_name(FeatureId(0x8081)) == Some("PerKeyLight"),
        spec_feature_name(FeatureId(0x8090)) == Some("ModeStatus"),
        spec_feature_name(FeatureId(0x8100)) == Some("OnboardProfiles"),
        spec_feature_name(FeatureId(0x8110)) == Some("ButtonSpy"),
        spec_feature_name(FeatureId(0x8111)) == Some("LatencyMonitor"),
        spec_feature_name(FeatureId(0x1983)) == Some("Backlight"),
        spec_feature_name(FeatureId(0x1981)) == Some("Backlight"),
        spec_feature_name(FeatureId(0x1990)) == Some("IllumLight"),
        spec_feature_name(FeatureId(0x19B0)) == Some("HapticFeedback"),
        spec_feature_name(FeatureId(0x19C0)) == Some("ForceButton"),
        spec_feature_name(FeatureId(0x1A00)) == Some("Presenter"),
        spec_feature_name(FeatureId(0x8300)) == Some("Sidetone"),
        spec_feature_name(FeatureId(0x8310)) == Some("Equalizer"),
        spec_feature_name(FeatureId(0x8330)) == Some("MicPolar"),
        spec_feature_name(FeatureId(0x9001)) == Some("TestPMW"),
        spec_feature_name(FeatureId(0x9300)) == Some("MfgTest"),
{
}

} // verus!
