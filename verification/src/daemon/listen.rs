//! The daemon's connection loop decisions: how buttons are diverted, what
//! a command or an error means for the loop, and the login service files.
use vstd::prelude::*;

use crate::daemon::bridge::DaemonCommand;
use crate::daemon::config::{has_command_action, raw_runs_command, Config, RawConfig};
use crate::daemon::notify::DeadlineUpdate;
use crate::features::special_keys::ControlReporting;
use crate::text::{append_str, contains_str, contains_text, str_eq};

verus! {

/// SetCtrlIdReporting flags that divert a button: divert (bit 0) with
/// its valid bit (bit 1).
pub const DIVERT_FLAGS: u8 = 0x03;

/// SetCtrlIdReporting flags that divert a button and its raw XY motion:
/// divert and rawXY (bits 0 and 4) with their valid bits (1 and 5).
pub const DIVERT_RAW_XY_FLAGS: u8 = 0x33;

/// The divert flags for a configured CID: gesture buttons also need raw
/// XY motion.
pub fn divert_flags(cfg: &Config, cid: u16) -> (f: u8)
    ensures
        f == (if cfg.gestures@.contains_key(cid) {
            DIVERT_RAW_XY_FLAGS
        } else {
            DIVERT_FLAGS
        }),
{
    if cfg.is_gesture_cid(cid) {
        DIVERT_RAW_XY_FLAGS
    } else {
        DIVERT_FLAGS
    }
}

/// How long after a gesture-button press rawXY must arrive, in
/// milliseconds, before the divert is re-issued.
pub const XY_VALIDATION_WINDOW_MS: u64 = 150;

/// What happens while the daemon listens to a connected device.
#[derive(Debug, Clone, Copy, PartialEq, Eq, Structural)]
pub enum ListenEvent {
    /// A notification was handled; it may arm or clear the rawXY window.
    Notified(Option<DeadlineUpdate>),
    /// A command came from the tray, or the tray went away (`None`).
    Command(Option<DaemonCommand>),
    /// The system woke or a HID device came or went.
    Wake,
    /// The device's notification stream ended.
    Closed,
    /// The clock was read (milliseconds, as `now` of the step).
    Tick,
}

/// What the listen loop does next.
#[derive(Debug, Clone, Copy, PartialEq, Eq, Structural)]
pub enum ListenAction {
    /// Keep listening.
    Continue,
    /// The rawXY window passed: re-divert every gesture button.
    Redivert,
    /// Leave the device and wait for the next wake or command.
    Disconnect,
    /// Stop the daemon.
    Shutdown,
}

/// The listen loop's next rawXY deadline and action after an event at
/// time `now`.
pub open spec fn listen_next(deadline: Option<u64>, event: ListenEvent, now: u64) -> (
    Option<u64>,
    ListenAction,
) {
    match event {
        ListenEvent::Notified(Some(DeadlineUpdate::Arm)) => (
            Some((now + XY_VALIDATION_WINDOW_MS) as u64),
            ListenAction::Continue,
        ),
        ListenEvent::Notified(Some(DeadlineUpdate::Clear)) => (None, ListenAction::Continue),
        ListenEvent::Notified(None) => (deadline, ListenAction::Continue),
        ListenEvent::Command(Some(DaemonCommand::Reconnect)) => (deadline, ListenAction::Disconnect),
        ListenEvent::Command(Some(DaemonCommand::ReloadConfig)) => (
            deadline,
            ListenAction::Disconnect,
        ),
        ListenEvent::Command(_) => (deadline, ListenAction::Shutdown),
        ListenEvent::Wake => (deadline, ListenAction::Disconnect),
        ListenEvent::Closed => (deadline, ListenAction::Disconnect),
        ListenEvent::Tick => match deadline {
            Some(d) if now >= d => (None, ListenAction::Redivert),
            _ => (deadline, ListenAction::Continue),
        },
    }
}

/// One step of the listen loop: a notification arms (at `now` plus the
/// rawXY window) or clears the deadline; a reconnect or reload command, a
/// wake, or the end of the notification stream leaves the device; a
/// shutdown or the tray going away stops the daemon; a clock reading at
/// or past the deadline clears it and asks for the gesture buttons to be
/// re-diverted.
pub fn listen_step(deadline: Option<u64>, event: ListenEvent, now: u64) -> (r: (
    Option<u64>,
    ListenAction,
))
    requires
        now <= u64::MAX - XY_VALIDATION_WINDOW_MS,
    ensures
        r == listen_next(deadline, event, now),
{
    match event {
        ListenEvent::Notified(Some(DeadlineUpdate::Arm)) => (
            Some(now + XY_VALIDATION_WINDOW_MS),
            ListenAction::Continue,
        ),
        ListenEvent::Notified(Some(DeadlineUpdate::Clear)) => (None, ListenAction::Continue),
        ListenEvent::Notified(None) => (deadline, ListenAction::Continue),
        ListenEvent::Command(cmd) => {
            if command_shuts_down(cmd) {
                (deadline, ListenAction::Shutdown)
            } else {
                (deadline, ListenAction::Disconnect)
            }
        },
        ListenEvent::Wake => (deadline, ListenAction::Disconnect),
        ListenEvent::Closed => (deadline, ListenAction::Disconnect),
        ListenEvent::Tick => match deadline {
            Some(d) => {
                if now >= d {
                    (None, ListenAction::Redivert)
                } else {
                    (deadline, ListenAction::Continue)
                }
            },
            None => (None, ListenAction::Continue),
        },
    }
}

/// The divert requests issued when the rawXY window passes: every gesture
/// button, each once, with divert and rawXY.
pub fn redivert_requests(cfg: &Config) -> (reqs: Vec<(u16, u8)>)
    ensures
        reqs@.len() == cfg.gestures@.dom().len(),
        forall|i: int| 0 <= i < reqs@.len() ==> (#[trigger] reqs@[i]).1 == DIVERT_RAW_XY_FLAGS,
        forall|c: u16|
            cfg.gestures@.contains_key(c) <==> exists|i: int|
                0 <= i < reqs@.len() && (#[trigger] reqs@[i]).0 == c,
        forall|i: int, j: int| 0 <= i < j < reqs@.len() ==> reqs@[i].0 != reqs@[j].0,
{
    let cids = cfg.gesture_cids();
    proof {
        cids@.unique_seq_to_set();
    }
    let mut reqs: Vec<(u16, u8)> = Vec::new();
    let mut i: usize = 0;
    while i < cids.len()
        invariant
            i <= cids@.len(),
            reqs@.len() == i,
            forall|j: int| 0 <= j < i ==> #[trigger] reqs@[j] == (cids@[j], DIVERT_RAW_XY_FLAGS),
        decreases cids@.len() - i,
    {
        reqs.push((cids[i], DIVERT_RAW_XY_FLAGS));
        i = i + 1;
    }
    assert forall|c: u16| cfg.gestures@.contains_key(c) <==> exists|i: int|
        0 <= i < reqs@.len() && (#[trigger] reqs@[i]).0 == c by {
        if cfg.gestures@.contains_key(c) {
            assert(cids@.to_set().contains(c));
            let k = cids@.index_of(c);
            assert(reqs@[k].0 == c);
        }
        if exists|i: int| 0 <= i < reqs@.len() && (#[trigger] reqs@[i]).0 == c {
            let k = choose|i: int| 0 <= i < reqs@.len() && (#[trigger] reqs@[i]).0 == c;
            assert(cids@[k] == c);
            assert(cids@.to_set().contains(c));
        }
    }
    assert forall|i: int, j: int| 0 <= i < j < reqs@.len() implies reqs@[i].0 != reqs@[j].0 by {
        assert(reqs@[i].0 == cids@[i]);
        assert(reqs@[j].0 == cids@[j]);
    }
    reqs
}

/// What a failed divert means: while setting the device up it is an
/// error that ends the connection attempt; a failed re-divert after the
/// rawXY window makes the daemon leave the device and reconnect.
#[derive(Debug, Clone, Copy, PartialEq, Eq, Structural)]
pub enum DivertFailure {
    /// Setup failed: report the error.
    Fail,
    /// Leave the device and reconnect on the next event.
    Disconnect,
}

/// Decide what a failed divert request means, `initial` when it was sent
/// while setting the device up.
pub fn divert_failure(initial: bool) -> (f: DivertFailure)
    ensures
        f == (if initial {
            DivertFailure::Fail
        } else {
            DivertFailure::Disconnect
        }),
{
    if initial {
        DivertFailure::Fail
    } else {
        DivertFailure::Disconnect
    }
}

/// How a divert request turned out, from the reporting the device
/// answered with.
pub open spec fn divert_status_text(gesture: bool, flags: u8) -> Seq<char> {
    if gesture {
        if flags & 0x01u8 != 0 && flags & 0x02u8 != 0 {
            "diverted+rawXY"@
        } else {
            "divert+rawXY failed"@
        }
    } else if flags & 0x01u8 != 0 {
        "diverted"@
    } else {
        "divert failed"@
    }
}

/// Describe how diverting a button turned out: a gesture button needs
/// both the divert and the rawXY bit set, a plain button the divert bit.
pub fn divert_status(gesture: bool, reporting: &ControlReporting) -> (s: &'static str)
    ensures
        s@ == divert_status_text(gesture, reporting.flags),
{
    if gesture {
        if reporting.is_diverted() && reporting.raw_xy_enabled() {
            "diverted+rawXY"
        } else {
            "divert+rawXY failed"
        }
    } else if reporting.is_diverted() {
        "diverted"
    } else {
        "divert failed"
    }
}

/// Whether a command from the tray (or the tray going away, `None`) ends
/// the daemon: only a shutdown does; a reconnect or config reload makes
/// the daemon reconnect.
pub fn command_shuts_down(cmd: Option<DaemonCommand>) -> (b: bool)
    ensures
        b == (cmd matches None || cmd matches Some(DaemonCommand::Shutdown)),
{
    match cmd {
        Some(DaemonCommand::Reconnect) => false,
        Some(DaemonCommand::ReloadConfig) => false,
        Some(DaemonCommand::Shutdown) => true,
        None => true,
    }
}

/// Whether an error message is new, i.e. differs from the last one
/// reported (each distinct error is logged once until another occurs).
pub fn is_new_error(last: &Option<String>, msg: &str) -> (b: bool)
    ensures
        b == (match last {
            Some(l) => l@ != msg@,
            None => true,
        }),
{
    match last {
        Some(l) => !str_eq(l.as_str(), msg),
        None => true,
    }
}

/// The systemd user unit that starts the daemon at login.
pub open spec fn unit_text(exe: Seq<char>) -> Seq<char> {
    "[Unit]\nDescription=HID++ device daemon\nDocumentation=https://github.com/jlevere/hidpp\nAfter=graphical-session.target\n\n[Service]\nType=simple\nExecStart="@
        + exe
        + "\nRestart=on-failure\nRestartSec=5\nEnvironment=RUST_LOG=info\n\n[Install]\nWantedBy=default.target"@
}

/// Generate the systemd user unit for the daemon binary at `exe`.
pub fn generate_unit(exe: &str) -> (s: String)
    ensures
        s@ == unit_text(exe@),
{
    let mut s = String::new();
    append_str(
        &mut s,
        "[Unit]\nDescription=HID++ device daemon\nDocumentation=https://github.com/jlevere/hidpp\nAfter=graphical-session.target\n\n[Service]\nType=simple\nExecStart=",
    );
    append_str(&mut s, exe);
    append_str(
        &mut s,
        "\nRestart=on-failure\nRestartSec=5\nEnvironment=RUST_LOG=info\n\n[Install]\nWantedBy=default.target",
    );
    s
}

/// The launchd agent that starts the daemon binary `exe` at login,
/// logging to `log`.
pub open spec fn plist_text(exe: Seq<char>, log: Seq<char>) -> Seq<char> {
    "<?xml version=\"1.0\" encoding=\"UTF-8\"?>\n<!DOCTYPE plist PUBLIC \"-//Apple//DTD PLIST 1.0//EN\" \"http://www.apple.com/DTDs/PropertyList-1.0.dtd\">\n<plist version=\"1.0\">\n<dict>\n    <key>Label</key>\n    <string>com.jlevere.hidpp</string>\n    <key>ProgramArguments</key>\n    <array>\n        <string>"@
        + exe
        + "</string>\n    </array>\n    <key>RunAtLoad</key>\n    <true/>\n    <key>KeepAlive</key>\n    <dict>\n        <key>SuccessfulExit</key>\n        <false/>\n    </dict>\n    <key>ThrottleInterval</key>\n    <integer>5</integer>\n    <key>StandardOutPath</key>\n    <string>"@
        + log
        + "</string>\n    <key>StandardErrorPath</key>\n    <string>"@
        + log
        + "</string>\n</dict>\n</plist>"@
}

/// Generate the launchd agent for the daemon binary at `exe`, logging to
/// `log`.
pub fn generate_plist(exe: &str, log: &str) -> (s: String)
    ensures
        s@ == plist_text(exe@, log@),
{
    let mut s = String::new();
    append_str(
        &mut s,
        "<?xml version=\"1.0\" encoding=\"UTF-8\"?>\n<!DOCTYPE plist PUBLIC \"-//Apple//DTD PLIST 1.0//EN\" \"http://www.apple.com/DTDs/PropertyList-1.0.dtd\">\n<plist version=\"1.0\">\n<dict>\n    <key>Label</key>\n    <string>com.jlevere.hidpp</string>\n    <key>ProgramArguments</key>\n    <array>\n        <string>",
    );
    append_str(&mut s, exe);
    append_str(
        &mut s,
        "</string>\n    </array>\n    <key>RunAtLoad</key>\n    <true/>\n    <key>KeepAlive</key>\n    <dict>\n        <key>SuccessfulExit</key>\n        <false/>\n    </dict>\n    <key>ThrottleInterval</key>\n    <integer>5</integer>\n    <key>StandardOutPath</key>\n    <string>",
    );
    append_str(&mut s, log);
    append_str(&mut s, "</string>\n    <key>StandardErrorPath</key>\n    <string>");
    append_str(&mut s, log);
    append_str(&mut s, "</string>\n</dict>\n</plist>");
    s
}

/// Guard that keeps the system from idle sleep while a device is set up;
/// on this platform there is nothing to hold.
#[derive(Debug)]
pub struct PowerAssertion;

impl PowerAssertion {
    /// Prevent idle sleep for `reason`: always granted here, as there is
    /// nothing to hold.
    pub fn prevent_idle_sleep(reason: &str) -> (r: Option<Self>)
        ensures
            r is Some,
    {
        Some(PowerAssertion)
    }
}

/// Whether a configuration received through a `hidpp://` link is refused
/// because it may run commands, which a web page must not be able to
/// install: it is refused when its parsed form holds a command action (on
/// a button or in a gesture slot), and also, early, whenever its text
/// mentions both `type` and `command`.
pub fn url_config_refused(text: &str, raw: &RawConfig) -> (b: bool)
    ensures
        b == ((contains_text(text@, "type"@) && contains_text(text@, "command"@)) || raw_runs_command(
            *raw,
        )),
        raw_runs_command(*raw) ==> b,
{
    (contains_str(text, "type") && contains_str(text, "command")) || has_command_action(raw)
}

} // verus!
