//! Device configuration: a snapshot of the device's settings for export,
//! and what importing one writes back.
use vstd::prelude::*;

use crate::device::session::DeviceSession;
use crate::device::table::lookup;
use crate::feature_id::{ADJUSTABLE_DPI, CHANGE_HOST, HIRES_WHEEL, SMART_SHIFT, SMART_SHIFT_TUNABLE_TORQUE, THUMBWHEEL};
use crate::features::change_host::HostInfo;
use crate::features::device_name::DeviceType;
use crate::features::hires_wheel;
use crate::features::smart_shift::{SmartShiftState, WheelMode};
use crate::features::thumbwheel::ThumbwheelStatus;
use crate::text::{append_decimal, append_str, decimal_text, str_eq};
use crate::types::FeatureId;

verus! {

/// Complete device configuration snapshot.
#[derive(Debug, Clone)]
pub struct DeviceConfig {
    pub device: DeviceSection,
    pub dpi: Option<DpiSection>,
    pub smartshift: Option<SmartShiftSection>,
    pub wheel: Option<WheelSection>,
    pub thumbwheel: Option<ThumbwheelSection>,
    pub host: Option<HostSection>,
}

#[derive(Debug, Clone)]
pub struct DeviceSection {
    pub name: String,
    pub pid: String,
    pub device_type: Option<String>,
    pub protocol: String,
}

#[derive(Debug, Clone, Copy, PartialEq, Eq, Structural)]
pub struct DpiSection {
    pub value: u16,
}

#[derive(Debug, Clone)]
pub struct SmartShiftSection {
    /// "ratchet" or "freespin".
    pub mode: String,
    pub auto_disengage: u8,
    pub torque: u8,
}

#[derive(Debug, Clone, Copy, PartialEq, Eq, Structural)]
pub struct WheelSection {
    pub high_resolution: bool,
    pub inverted: bool,
}

#[derive(Debug, Clone, Copy, PartialEq, Eq, Structural)]
pub struct ThumbwheelSection {
    pub inverted: bool,
}

#[derive(Debug, Clone, Copy, PartialEq, Eq, Structural)]
pub struct HostSection {
    pub current: u8,
    pub count: u8,
}

/// The name a device type is written under: its variant name, with the
/// raw byte in parentheses for an unknown type.
pub open spec fn device_type_text(t: DeviceType) -> Seq<char> {
    match t {
        DeviceType::Keyboard => "Keyboard"@,
        DeviceType::RemoteControl => "RemoteControl"@,
        DeviceType::NumPad => "NumPad"@,
        DeviceType::Mouse => "Mouse"@,
        DeviceType::Touchpad => "Touchpad"@,
        DeviceType::Trackball => "Trackball"@,
        DeviceType::Presenter => "Presenter"@,
        DeviceType::Receiver => "Receiver"@,
        DeviceType::Headset => "Headset"@,
        DeviceType::Webcam => "Webcam"@,
        DeviceType::SteeringWheel => "SteeringWheel"@,
        DeviceType::Joystick => "Joystick"@,
        DeviceType::Gamepad => "Gamepad"@,
        DeviceType::Dock => "Dock"@,
        DeviceType::Speaker => "Speaker"@,
        DeviceType::Microphone => "Microphone"@,
        DeviceType::Unknown(b) => "Unknown("@ + decimal_text(b as nat) + ")"@,
    }
}

/// The name a device type is written under.
pub fn device_type_name(t: DeviceType) -> (s: String)
    ensures
        s@ == device_type_text(t),
{
    let mut s = String::new();
    match t {
        DeviceType::Keyboard => append_str(&mut s, "Keyboard"),
        DeviceType::RemoteControl => append_str(&mut s, "RemoteControl"),
        DeviceType::NumPad => append_str(&mut s, "NumPad"),
        DeviceType::Mouse => append_str(&mut s, "Mouse"),
        DeviceType::Touchpad => append_str(&mut s, "Touchpad"),
        DeviceType::Trackball => append_str(&mut s, "Trackball"),
        DeviceType::Presenter => append_str(&mut s, "Presenter"),
        DeviceType::Receiver => append_str(&mut s, "Receiver"),
        DeviceType::Headset => append_str(&mut s, "Headset"),
        DeviceType::Webcam => append_str(&mut s, "Webcam"),
        DeviceType::SteeringWheel => append_str(&mut s, "SteeringWheel"),
        DeviceType::Joystick => append_str(&mut s, "Joystick"),
        DeviceType::Gamepad => append_str(&mut s, "Gamepad"),
        DeviceType::Dock => append_str(&mut s, "Dock"),
        DeviceType::Speaker => append_str(&mut s, "Speaker"),
        DeviceType::Microphone => append_str(&mut s, "Microphone"),
        DeviceType::Unknown(b) => {
            append_str(&mut s, "Unknown(");
            append_decimal(&mut s, b);
            append_str(&mut s, ")");
        },
    }
    s
}

/// The text of a protocol version: `major.minor`.
pub open spec fn protocol_text(v: (u8, u8)) -> Seq<char> {
    decimal_text(v.0 as nat) + "."@ + decimal_text(v.1 as nat)
}

/// The text of a SmartShift mode in a configuration.
pub open spec fn mode_text(m: WheelMode) -> Seq<char> {
    match m {
        WheelMode::FreeScroll => "freespin"@,
        WheelMode::Ratchet => "ratchet"@,
    }
}

/// The SmartShift mode a configuration's text names: "freespin" or
/// "free" is free-spin, anything else ratchet.
pub open spec fn mode_of_text(s: Seq<char>) -> WheelMode {
    if s == "freespin"@ || s == "free"@ {
        WheelMode::FreeScroll
    } else {
        WheelMode::Ratchet
    }
}

/// Which settings an export reads: those whose feature the device has.
#[derive(Debug, Clone, Copy, PartialEq, Eq, Structural)]
pub struct ExportPlan {
    pub dpi: bool,
    pub smart_shift: bool,
    pub wheel: bool,
    pub thumbwheel: bool,
    pub host: bool,
}

/// The settings an export reads from a device.
pub fn export_plan(session: &DeviceSession) -> (p: ExportPlan)
    ensures
        p.dpi == lookup(session.features@, ADJUSTABLE_DPI) is Some,
        p.smart_shift == (lookup(session.features@, SMART_SHIFT_TUNABLE_TORQUE) is Some || lookup(
            session.features@,
            SMART_SHIFT,
        ) is Some),
        p.wheel == lookup(session.features@, HIRES_WHEEL) is Some,
        p.thumbwheel == lookup(session.features@, THUMBWHEEL) is Some,
        p.host == lookup(session.features@, CHANGE_HOST) is Some,
{
    ExportPlan {
        dpi: session.supports(FeatureId(ADJUSTABLE_DPI)),
        smart_shift: session.has_smart_shift(),
        wheel: session.supports(FeatureId(HIRES_WHEEL)),
        thumbwheel: session.supports(FeatureId(THUMBWHEEL)),
        host: session.supports(FeatureId(CHANGE_HOST)),
    }
}

/// Whether `c` is the configuration exported from a session with these
/// readings: the device section from the session (the product ID left
/// `0000`), and a section for each setting that was read.
pub open spec fn exported(
    c: DeviceConfig,
    session: DeviceSession,
    dpi: Option<u16>,
    smart_shift: Option<SmartShiftState>,
    wheel: Option<hires_wheel::WheelMode>,
    thumbwheel: Option<ThumbwheelStatus>,
    host: Option<HostInfo>,
) -> bool {
    &&& c.device.name@ == session.name@
    &&& c.device.pid@ == "0000"@
    &&& (c.device.device_type is Some <==> session.device_type is Some)
    &&& (c.device.device_type matches Some(t) ==> t@ == device_type_text(session.device_type->0))
    &&& c.device.protocol@ == protocol_text(session.protocol_version)
    &&& c.dpi == (match dpi {
        Some(v) => Some(DpiSection { value: v }),
        None => None,
    })
    &&& (c.smartshift is Some <==> smart_shift is Some)
    &&& (c.smartshift matches Some(ss) ==> ss.mode@ == mode_text(smart_shift->0.mode)
        && ss.auto_disengage == smart_shift->0.auto_disengage && ss.torque
        == smart_shift->0.tunable_torque)
    &&& c.wheel == (match wheel {
        Some(m) => Some(WheelSection { high_resolution: m.high_resolution, inverted: m.inverted }),
        None => None,
    })
    &&& c.thumbwheel == (match thumbwheel {
        Some(t) => Some(ThumbwheelSection { inverted: t.inverted }),
        None => None,
    })
    &&& c.host == (match host {
        Some(h) => Some(HostSection { current: h.current_host, count: h.num_hosts }),
        None => None,
    })
}

/// Export the current device state: the device section from the session
/// (name, type, protocol version; the product ID is left `0000`), and a
/// section for each setting that was read.
pub fn export_config(
    session: &DeviceSession,
    dpi: Option<u16>,
    smart_shift: Option<SmartShiftState>,
    wheel: Option<hires_wheel::WheelMode>,
    thumbwheel: Option<ThumbwheelStatus>,
    host: Option<HostInfo>,
) -> (c: DeviceConfig)
    ensures
        exported(c, *session, dpi, smart_shift, wheel, thumbwheel, host),
{
    let (major, minor) = session.protocol_version();
    let mut protocol = String::new();
    append_decimal(&mut protocol, major);
    append_str(&mut protocol, ".");
    append_decimal(&mut protocol, minor);
    let device_type = match session.device_type() {
        Some(t) => Some(device_type_name(t)),
        None => None,
    };
    let mut name = String::new();
    append_str(&mut name, session.name());
    let mut pid = String::new();
    append_str(&mut pid, "0000");
    let smartshift = match smart_shift {
        Some(state) => {
            let mut mode = String::new();
            match state.mode {
                WheelMode::FreeScroll => append_str(&mut mode, "freespin"),
                WheelMode::Ratchet => append_str(&mut mode, "ratchet"),
            }
            Some(
                SmartShiftSection {
                    mode,
                    auto_disengage: state.auto_disengage,
                    torque: state.tunable_torque,
                },
            )
        },
        None => None,
    };
    DeviceConfig {
        device: DeviceSection { name, pid, device_type, protocol },
        dpi: match dpi {
            Some(v) => Some(DpiSection { value: v }),
            None => None,
        },
        smartshift,
        wheel: match wheel {
            Some(m) => Some(WheelSection { high_resolution: m.high_resolution, inverted: m.inverted }),
            None => None,
        },
        thumbwheel: match thumbwheel {
            Some(t) => Some(ThumbwheelSection { inverted: t.inverted }),
            None => None,
        },
        host: match host {
            Some(h) => Some(HostSection { current: h.current_host, count: h.num_hosts }),
            None => None,
        },
    }
}

/// The SmartShift state a configuration section asks for.
pub fn smart_shift_state_of(section: &SmartShiftSection) -> (s: SmartShiftState)
    ensures
        s.mode == mode_of_text(section.mode@),
        s.auto_disengage == section.auto_disengage,
        s.tunable_torque == section.torque,
{
    let mode = if str_eq(section.mode.as_str(), "freespin") || str_eq(section.mode.as_str(), "free") {
        WheelMode::FreeScroll
    } else {
        WheelMode::Ratchet
    };
    SmartShiftState { mode, auto_disengage: section.auto_disengage, tunable_torque: section.torque }
}

/// The wheel mode to write for a configuration's wheel section: the
/// current mode with its resolution and inversion replaced.
pub fn wheel_mode_with(current: &hires_wheel::WheelMode, section: &WheelSection) -> (m:
    hires_wheel::WheelMode)
    ensures
        m == (hires_wheel::WheelMode {
            high_resolution: section.high_resolution,
            inverted: section.inverted,
            ..*current
        }),
{
    hires_wheel::WheelMode {
        diverted: current.diverted,
        high_resolution: section.high_resolution,
        inverted: section.inverted,
        analytics: current.analytics,
        priority: current.priority,
        rate: current.rate,
    }
}

/// What importing a configuration writes, in order: the DPI, the
/// SmartShift state, then the wheel's resolution and inversion (on top of
/// the mode read back from the device). Absent sections write nothing.
#[derive(Debug, Clone)]
pub struct ImportPlan {
    pub dpi: Option<u16>,
    pub smart_shift: Option<SmartShiftState>,
    pub wheel: Option<WheelSection>,
}

/// Whether `p` is what importing `config` writes: its DPI, the SmartShift
/// state its section names, and its wheel section.
pub open spec fn planned(p: ImportPlan, config: DeviceConfig) -> bool {
    &&& p.dpi == (match config.dpi {
        Some(d) => Some(d.value),
        None => None,
    })
    &&& (p.smart_shift is Some <==> config.smartshift is Some)
    &&& (p.smart_shift matches Some(s) ==> s.mode == mode_of_text(config.smartshift->0.mode@)
        && s.auto_disengage == config.smartshift->0.auto_disengage && s.tunable_torque
        == config.smartshift->0.torque)
    &&& p.wheel == config.wheel
}

/// The writes a configuration asks for.
pub fn import_plan(config: &DeviceConfig) -> (p: ImportPlan)
    ensures
        planned(p, *config),
{
    ImportPlan {
        dpi: match &config.dpi {
            Some(d) => Some(d.value),
            None => None,
        },
        smart_shift: match &config.smartshift {
            Some(ss) => Some(smart_shift_state_of(ss)),
            None => None,
        },
        wheel: config.wheel,
    }
}

/// Exporting a SmartShift mode and importing it back gives the same
/// mode, so an exported configuration re-imports the SmartShift state it
/// was read with.
pub proof fn lemma_mode_text_roundtrip(m: WheelMode)
    ensures
        mode_of_text(mode_text(m)) == m,
{
    reveal_strlit("freespin");
    reveal_strlit("free");
    reveal_strlit("ratchet");
    assert("ratchet"@[0] != "freespin"@[0]);
    assert("ratchet"@ != "freespin"@);
    assert("ratchet"@.len() != "free"@.len());
}

/// Importing an exported configuration writes back what was read: the
/// same DPI, the same SmartShift state, and the wheel's resolution and
/// inversion.
pub proof fn lemma_export_import_roundtrip(
    c: DeviceConfig,
    p: ImportPlan,
    session: DeviceSession,
    dpi: Option<u16>,
    smart_shift: Option<SmartShiftState>,
    wheel: Option<hires_wheel::WheelMode>,
    thumbwheel: Option<ThumbwheelStatus>,
    host: Option<HostInfo>,
)
    requires
        exported(c, session, dpi, smart_shift, wheel, thumbwheel, host),
        planned(p, c),
    ensures
        p.dpi == dpi,
        p.smart_shift == smart_shift,
        p.wheel == (match wheel {
            Some(m) => Some(WheelSection { high_resolution: m.high_resolution, inverted: m.inverted }),
            None => None,
        }),
{
    if smart_shift is Some {
        lemma_mode_text_roundtrip(smart_shift->0.mode);
    }
}

/// Each named device type is written under its own name, and a SmartShift
/// mode as `freespin` or `ratchet`, which read back as that mode (`free`
/// reads as free-spin too).
pub proof fn lemma_type_and_mode_names()
    ensures
        device_type_text(DeviceType::Keyboard) == "Keyboard"@,
        device_type_text(DeviceType::RemoteControl) == "RemoteControl"@,
        device_type_text(DeviceType::NumPad) == "NumPad"@,
        device_type_text(DeviceType::Mouse) == "Mouse"@,
        device_type_text(DeviceType::Touchpad) == "Touchpad"@,
        device_type_text(DeviceType::Trackball) == "Trackball"@,
        device_type_text(DeviceType::Presenter) == "Presenter"@,
        device_type_text(DeviceType::Receiver) == "Receiver"@,
        device_type_text(DeviceType::Headset) == "Headset"@,
        device_type_text(DeviceType::Webcam) == "Webcam"@,
        device_type_text(DeviceType::SteeringWheel) == "SteeringWheel"@,
        device_type_text(DeviceType::Joystick) == "Joystick"@,
        device_type_text(DeviceType::Gamepad) == "Gamepad"@,
        device_type_text(DeviceType::Dock) == "Dock"@,
        device_type_text(DeviceType::Speaker) == "Speaker"@,
        device_type_text(DeviceType::Microphone) == "Microphone"@,
        mode_text(WheelMode::FreeScroll) == "freespin"@,
        mode_text(WheelMode::Ratchet) == "ratchet"@,
        mode_of_text("freespin"@) == WheelMode::FreeScroll,
        mode_of_text("free"@) == WheelMode::FreeScroll,
        mode_of_text("ratchet"@) == WheelMode::Ratchet,
{
    reveal_strlit("freespin");
    reveal_strlit("free");
    reveal_strlit("ratchet");
    assert("ratchet"@.len() == 7);
    assert("freespin"@.len() == 8);
    assert("free"@.len() == 4);
}

} // verus!
