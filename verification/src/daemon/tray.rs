//! The menu bar's state: what its items read after each daemon event,
//! and what a click on an item asks for.
use vstd::prelude::*;

use crate::daemon::bridge::{DaemonCommand, DaemonEvent};
use crate::text::{append_decimal, append_decimal_u64, append_str, contains_str, contains_text, decimal_text};

verus! {

/// Settings pane for the Input Monitoring permission.
pub open spec fn input_monitoring_url() -> Seq<char> {
    "x-apple.systempreferences:com.apple.preference.security?Privacy_ListenEvent"@
}

/// Settings pane for the Accessibility permission.
pub open spec fn accessibility_url() -> Seq<char> {
    "x-apple.systempreferences:com.apple.preference.security?Privacy_Accessibility"@
}

/// The number of bytes a character takes in UTF-8.
pub open spec fn utf8_width(c: char) -> nat {
    if (c as u32) < 0x80 {
        1
    } else if (c as u32) < 0x800 {
        2
    } else if (c as u32) < 0x10000 {
        3
    } else {
        4
    }
}

/// The number of bytes a text takes in UTF-8.
pub open spec fn utf8_len(s: Seq<char>) -> nat
    decreases s.len(),
{
    if s.len() == 0 {
        0
    } else {
        utf8_len(s.drop_last()) + utf8_width(s.last())
    }
}

/// Whether a message can be cut to its first 40 bytes: it is no longer
/// than that, or its 40th byte ends a character.
pub open spec fn cuttable(msg: Seq<char>) -> bool {
    utf8_len(msg) > 40 ==> exists|k: int| 0 <= k <= msg.len() && utf8_len(#[trigger] msg.take(k)) == 40
}

/// A message as shown in the menu: its first 40 bytes when longer.
pub open spec fn short_text(msg: Seq<char>) -> Seq<char> {
    if utf8_len(msg) > 40 {
        msg.take(choose|k: int| 0 <= k <= msg.len() && utf8_len(#[trigger] msg.take(k)) == 40)
    } else {
        msg
    }
}

/// What the menu bar shows.
#[derive(Debug, Clone)]
pub struct TrayView {
    pub device_text: String,
    pub device_enabled: bool,
    /// The settings pane a click on the device item opens.
    pub device_url: Option<&'static str>,
    /// Whether a permission is missing: Reconnect then reads Relaunch.
    pub permission_error: bool,
    pub reconnect_text: &'static str,
    pub battery_text: String,
    pub dpi_text: String,
    pub last_action_text: String,
    pub title: String,
    pub connected_icon: bool,
    /// Whether the menu bar app should exit.
    pub exit: bool,
}

/// A menu item that can be clicked.
#[derive(Debug, Clone, Copy, PartialEq, Eq, Structural)]
pub enum MenuItemKind {
    Device,
    EditConfig,
    Reconnect,
    StartAtLogin,
    Quit,
}

/// What a click asks for.
#[derive(Debug, Clone, Copy, PartialEq, Eq)]
pub enum MenuAction {
    /// Send a command to the daemon, and exit the menu bar app if `exit`.
    Send { command: DaemonCommand, exit: bool },
    /// Open the configuration file in an editor.
    EditConfig,
    /// Open a settings pane.
    OpenUrl(&'static str),
    /// Register the login item (`true`) or remove it (`false`).
    SetLoginItem(bool),
    /// Nothing to do.
    Nothing,
}

/// The text of a percentage: the number and `%`.
pub open spec fn percent_text(p: u8) -> Seq<char> {
    decimal_text(p as nat) + "%"@
}

fn prefix_to_40(cs: &Vec<char>) -> (r: (usize, usize))
    ensures
        r.0 <= cs@.len(),
        r.1 == utf8_len(cs@.take(r.0 as int)),
        r.1 <= 43,
        r.0 == cs@.len() || r.1 >= 40,
        forall|j: int| 0 <= j < r.0 ==> utf8_len(#[trigger] cs@.take(j)) < 40,
{
    let mut bytes: usize = 0;
    let mut k: usize = 0;
    while k < cs.len() && bytes < 40
        invariant
            k <= cs@.len(),
            bytes == utf8_len(cs@.take(k as int)),
            bytes <= 43,
            forall|j: int| 0 <= j < k ==> utf8_len(#[trigger] cs@.take(j)) < 40,
        decreases cs@.len() - k,
    {
        let c = cs[k];
        let w: usize = if (c as u32) < 0x80 {
            1
        } else if (c as u32) < 0x800 {
            2
        } else if (c as u32) < 0x10000 {
            3
        } else {
            4
        };
        assert(cs@.take(k + 1).drop_last() =~= cs@.take(k as int));
        assert(utf8_len(cs@.take(k as int)) < 40);
        bytes = bytes + w;
        k = k + 1;
    }
    (k, bytes)
}

proof fn lemma_cut_at(s: Seq<char>, k: int)
    requires
        0 <= k <= s.len(),
        cuttable(s),
        forall|j: int| 0 <= j < k ==> utf8_len(#[trigger] s.take(j)) < 40,
        k == s.len() || utf8_len(s.take(k)) >= 40,
        !(k == s.len() && utf8_len(s.take(k)) <= 40),
    ensures
        utf8_len(s) > 40,
        utf8_len(s.take(k)) == 40,
        short_text(s) == s.take(k),
{
    if k < s.len() {
        lemma_prefix_len_monotone(s, k, s.len() as int);
    }
    assert(s.take(s.len() as int) =~= s);
    let j = choose|j: int| 0 <= j <= s.len() && utf8_len(#[trigger] s.take(j)) == 40;
    if j < k {
        assert(utf8_len(s.take(j)) < 40);
    } else if j > k {
        lemma_prefix_len_monotone(s, k, j);
    }
    assert(j == k);
}

fn cut_message(msg: &str) -> (s: String)
    requires
        cuttable(msg@),
    ensures
        s@ == short_text(msg@),
{
    let cs = crate::text::chars_of(msg);
    let (k, bytes) = prefix_to_40(&cs);
    if k == cs.len() && bytes <= 40 {
        proof {
            assert(cs@.take(k as int) =~= msg@);
        }
        let mut s = String::new();
        append_str(&mut s, msg);
        return s;
    }
    proof {
        lemma_cut_at(msg@, k as int);
    }
    let mut s = String::new();
    let mut i: usize = 0;
    while i < k
        invariant
            cs@ == msg@,
            k <= cs@.len(),
            i <= k,
            s@ == cs@.take(i as int),
        decreases k - i,
    {
        crate::text::push_char(&mut s, cs[i]);
        assert(cs@.take(i + 1) =~= cs@.take(i as int).push(cs@[i as int]));
        i = i + 1;
    }
    s
}

proof fn lemma_prefix_len_grows(s: Seq<char>, k: int)
    requires
        0 <= k <= s.len(),
    ensures
        utf8_len(s.take(k)) <= utf8_len(s),
    decreases s.len() - k,
{
    lemma_prefix_len_monotone(s, k, s.len() as int);
    assert(s.take(s.len() as int) =~= s);
}

proof fn lemma_prefix_len_monotone(s: Seq<char>, a: int, b: int)
    requires
        0 <= a <= b <= s.len(),
    ensures
        utf8_len(s.take(a)) <= utf8_len(s.take(b)),
        a < b ==> utf8_len(s.take(a)) < utf8_len(s.take(b)),
    decreases b - a,
{
    if a < b {
        lemma_prefix_len_monotone(s, a, b - 1);
        assert(s.take(b).drop_last() =~= s.take(b - 1));
    }
}

/// Whether a message can be shown cut to 40 bytes (see `cuttable`).
pub fn message_cuttable(msg: &str) -> (b: bool)
    ensures
        b == cuttable(msg@),
{
    let cs = crate::text::chars_of(msg);
    let (k, bytes) = prefix_to_40(&cs);
    proof {
        lemma_prefix_len_grows(msg@, k as int);
    }
    if bytes == 40 {
        assert(msg@.take(k as int) == cs@.take(k as int));
        return true;
    }
    if bytes < 40 {
        assert(cs@.take(k as int) =~= msg@);
        return true;
    }
    proof {
        assert forall|j: int| 0 <= j <= msg@.len() implies utf8_len(#[trigger] msg@.take(j)) != 40 by {
            if j < k {
                assert(msg@.take(j) == cs@.take(j));
            } else if j > k {
                lemma_prefix_len_monotone(msg@, k as int, j);
            }
        }
        if k < msg@.len() {
            lemma_prefix_len_monotone(msg@, k as int, msg@.len() as int);
        }
        assert(msg@.take(msg@.len() as int) =~= msg@);
    }
    false
}

impl TrayView {
    /// The menu bar before any event: no device, nothing read yet.
    pub fn new() -> (v: Self)
        ensures
            v.device_text@ == "No device"@,
            !v.device_enabled,
            v.device_url is None,
            !v.permission_error,
            v.reconnect_text@ == "Reconnect"@,
            v.battery_text@ == "Battery: --"@,
            v.dpi_text@ == "DPI: --"@,
            v.last_action_text@ == "Last: --"@,
            v.title@ == "--"@,
            !v.connected_icon,
            !v.exit,
    {
        let mut device_text = String::new();
        append_str(&mut device_text, "No device");
        let mut battery_text = String::new();
        append_str(&mut battery_text, "Battery: --");
        let mut dpi_text = String::new();
        append_str(&mut dpi_text, "DPI: --");
        let mut last_action_text = String::new();
        append_str(&mut last_action_text, "Last: --");
        let mut title = String::new();
        append_str(&mut title, "--");
        TrayView {
            device_text,
            device_enabled: false,
            device_url: None,
            permission_error: false,
            reconnect_text: "Reconnect",
            battery_text,
            dpi_text,
            last_action_text,
            title,
            connected_icon: false,
            exit: false,
        }
    }

    /// Whether a daemon event can be shown: an error message must be
    /// cuttable to 40 bytes.
    pub open spec fn accepts(event: DaemonEvent) -> bool {
        event matches DaemonEvent::Error(msg) ==> cuttable(msg@)
    }

    /// Update the menu bar for a daemon event:
    /// - Connected: the device name, the battery (or `--`, with an empty
    ///   title) and the DPI if known; a permission error is cleared.
    /// - Disconnected or reconnecting: "Searching..." and nothing read.
    /// - Battery update: percentage, with ` ⚡` while charging.
    /// - Action executed: the last action line.
    /// - Shutdown: exit.
    /// - Error: a missing Input Monitoring or Accessibility permission
    ///   makes the device item a link to its settings pane and turns
    ///   Reconnect into Relaunch; other errors read `Error: ...`.
    pub fn on_event(&mut self, event: &DaemonEvent)
        requires
            Self::accepts(*event),
        ensures
            match *event {
                DaemonEvent::Connected { name, battery_pct, dpi } => {
                    &&& final(self).device_text@ == name@
                    &&& !final(self).device_enabled
                    &&& final(self).device_url is None
                    &&& !final(self).permission_error
                    &&& final(self).reconnect_text@ == (if old(self).permission_error {
                        "Reconnect"@
                    } else {
                        old(self).reconnect_text@
                    })
                    &&& match battery_pct {
                        Some(p) => final(self).battery_text@ == "Battery: "@ + percent_text(p)
                            && final(self).title@ == percent_text(p),
                        None => final(self).battery_text@ == "Battery: --"@ && final(self).title@
                            == Seq::<char>::empty(),
                    }
                    &&& final(self).dpi_text@ == (match dpi {
                        Some(d) => "DPI: "@ + decimal_text(d as nat),
                        None => old(self).dpi_text@,
                    })
                    &&& final(self).connected_icon
                    &&& final(self).last_action_text == old(self).last_action_text
                    &&& final(self).exit == old(self).exit
                },
                DaemonEvent::Disconnected | DaemonEvent::Reconnecting => {
                    &&& final(self).device_text@ == "Searching..."@
                    &&& !final(self).device_enabled
                    &&& final(self).device_url is None
                    &&& final(self).permission_error == old(self).permission_error
                    &&& final(self).reconnect_text == old(self).reconnect_text
                    &&& final(self).battery_text@ == "Battery: --"@
                    &&& final(self).dpi_text@ == "DPI: --"@
                    &&& final(self).title@ == "--"@
                    &&& !final(self).connected_icon
                    &&& final(self).last_action_text == old(self).last_action_text
                    &&& final(self).exit == old(self).exit
                },
                DaemonEvent::BatteryUpdate { percentage, charging } => {
                    &&& final(self).battery_text@ == "Battery: "@ + percent_text(percentage) + (if charging {
                        " ⚡"@
                    } else {
                        Seq::<char>::empty()
                    })
                    &&& final(self).title@ == percent_text(percentage)
                    &&& final(self).device_text == old(self).device_text
                    &&& final(self).device_enabled == old(self).device_enabled
                    &&& final(self).device_url == old(self).device_url
                    &&& final(self).permission_error == old(self).permission_error
                    &&& final(self).reconnect_text == old(self).reconnect_text
                    &&& final(self).dpi_text == old(self).dpi_text
                    &&& final(self).last_action_text == old(self).last_action_text
                    &&& final(self).connected_icon == old(self).connected_icon
                    &&& final(self).exit == old(self).exit
                },
                DaemonEvent::ActionExecuted { description } => {
                    &&& final(self).last_action_text@ == "Last: "@ + description@
                    &&& final(self).device_text == old(self).device_text
                    &&& final(self).device_enabled == old(self).device_enabled
                    &&& final(self).device_url == old(self).device_url
                    &&& final(self).permission_error == old(self).permission_error
                    &&& final(self).reconnect_text == old(self).reconnect_text
                    &&& final(self).battery_text == old(self).battery_text
                    &&& final(self).dpi_text == old(self).dpi_text
                    &&& final(self).title == old(self).title
                    &&& final(self).connected_icon == old(self).connected_icon
                    &&& final(self).exit == old(self).exit
                },
                DaemonEvent::Shutdown => {
                    &&& final(self).exit
                    &&& final(self).device_text == old(self).device_text
                    &&& final(self).device_enabled == old(self).device_enabled
                    &&& final(self).device_url == old(self).device_url
                    &&& final(self).permission_error == old(self).permission_error
                    &&& final(self).reconnect_text == old(self).reconnect_text
                    &&& final(self).battery_text == old(self).battery_text
                    &&& final(self).dpi_text == old(self).dpi_text
                    &&& final(self).last_action_text == old(self).last_action_text
                    &&& final(self).title == old(self).title
                    &&& final(self).connected_icon == old(self).connected_icon
                },
                DaemonEvent::Error(msg) => {
                    let monitoring = contains_text(msg@, "Input Monitoring"@);
                    let accessibility = contains_text(msg@, "Accessibility"@);
                    &&& if monitoring || accessibility {
                        &&& final(self).device_text@ == short_text(msg@) + " →"@
                        &&& final(self).device_enabled
                        &&& final(self).device_url matches Some(u) && u@ == (if monitoring {
                            input_monitoring_url()
                        } else {
                            accessibility_url()
                        })
                        &&& final(self).permission_error
                        &&& final(self).reconnect_text@ == (if old(self).permission_error {
                            old(self).reconnect_text@
                        } else {
                            "Relaunch"@
                        })
                    } else {
                        &&& final(self).device_text@ == "Error: "@ + short_text(msg@)
                        &&& !final(self).device_enabled
                        &&& final(self).device_url is None
                        &&& final(self).permission_error == old(self).permission_error
                        &&& final(self).reconnect_text == old(self).reconnect_text
                    }
                    &&& final(self).battery_text == old(self).battery_text
                    &&& final(self).dpi_text == old(self).dpi_text
                    &&& final(self).last_action_text == old(self).last_action_text
                    &&& final(self).title == old(self).title
                    &&& final(self).connected_icon == old(self).connected_icon
                    &&& final(self).exit == old(self).exit
                },
            },
    {
        match event {
            DaemonEvent::Connected { name, battery_pct, dpi } => {
                let mut device_text = String::new();
                append_str(&mut device_text, name.as_str());
                self.device_text = device_text;
                self.device_enabled = false;
                self.device_url = None;
                if self.permission_error {
                    self.permission_error = false;
                    self.reconnect_text = "Reconnect";
                }
                let mut battery = String::new();
                let mut title = String::new();
                match battery_pct {
                    Some(p) => {
                        append_str(&mut battery, "Battery: ");
                        append_decimal(&mut battery, *p);
                        append_str(&mut battery, "%");
                        append_decimal(&mut title, *p);
                        append_str(&mut title, "%");
                    },
                    None => {
                        append_str(&mut battery, "Battery: --");
                    },
                }
                self.battery_text = battery;
                self.title = title;
                match dpi {
                    Some(d) => {
                        let mut t = String::new();
                        append_str(&mut t, "DPI: ");
                        append_decimal_u64(&mut t, *d as u64);
                        self.dpi_text = t;
                    },
                    None => {},
                }
                self.connected_icon = true;
            },
            DaemonEvent::Disconnected | DaemonEvent::Reconnecting => {
                let mut device_text = String::new();
                append_str(&mut device_text, "Searching...");
                self.device_text = device_text;
                self.device_enabled = false;
                self.device_url = None;
                let mut battery = String::new();
                append_str(&mut battery, "Battery: --");
                self.battery_text = battery;
                let mut dpi = String::new();
                append_str(&mut dpi, "DPI: --");
                self.dpi_text = dpi;
                let mut title = String::new();
                append_str(&mut title, "--");
                self.title = title;
                self.connected_icon = false;
            },
            DaemonEvent::BatteryUpdate { percentage, charging } => {
                let mut battery = String::new();
                append_str(&mut battery, "Battery: ");
                append_decimal(&mut battery, *percentage);
                append_str(&mut battery, "%");
                if *charging {
                    append_str(&mut battery, " ⚡");
                }
                self.battery_text = battery;
                let mut title = String::new();
                append_decimal(&mut title, *percentage);
                append_str(&mut title, "%");
                self.title = title;
            },
            DaemonEvent::ActionExecuted { description } => {
                let mut last = String::new();
                append_str(&mut last, "Last: ");
                append_str(&mut last, description.as_str());
                self.last_action_text = last;
            },
            DaemonEvent::Shutdown => {
                self.exit = true;
            },
            DaemonEvent::Error(msg) => {
                let short = cut_message(msg.as_str());
                let monitoring = contains_str(msg.as_str(), "Input Monitoring");
                let accessibility = contains_str(msg.as_str(), "Accessibility");
                if monitoring || accessibility {
                    let mut device_text = String::new();
                    append_str(&mut device_text, short.as_str());
                    append_str(&mut device_text, " →");
                    self.device_text = device_text;
                    self.device_enabled = true;
                    self.device_url = Some(
                        if monitoring {
                            "x-apple.systempreferences:com.apple.preference.security?Privacy_ListenEvent"
                        } else {
                            "x-apple.systempreferences:com.apple.preference.security?Privacy_Accessibility"
                        },
                    );
                    if !self.permission_error {
                        self.permission_error = true;
                        self.reconnect_text = "Relaunch";
                    }
                } else {
                    let mut device_text = String::new();
                    append_str(&mut device_text, "Error: ");
                    append_str(&mut device_text, short.as_str());
                    self.device_text = device_text;
                    self.device_enabled = false;
                    self.device_url = None;
                }
            },
        }
    }

    /// What a click on a menu item asks for: Quit shuts the daemon down
    /// and exits; Reconnect reconnects, or, while a permission is missing
    /// (which the OS only grants to a fresh process), shuts down and
    /// exits so the service manager restarts it; the device item opens
    /// its settings pane if it has one; Start at Login toggles the login
    /// item (`installed` tells whether it is registered now).
    pub fn on_menu(&self, item: MenuItemKind, installed: bool) -> (a: MenuAction)
        ensures
            a == (match item {
                MenuItemKind::Quit => MenuAction::Send { command: DaemonCommand::Shutdown, exit: true },
                MenuItemKind::Reconnect => if self.permission_error {
                    MenuAction::Send { command: DaemonCommand::Shutdown, exit: true }
                } else {
                    MenuAction::Send { command: DaemonCommand::Reconnect, exit: false }
                },
                MenuItemKind::EditConfig => MenuAction::EditConfig,
                MenuItemKind::Device => match self.device_url {
                    Some(u) => MenuAction::OpenUrl(u),
                    None => MenuAction::Nothing,
                },
                MenuItemKind::StartAtLogin => MenuAction::SetLoginItem(!installed),
            }),
    {
        match item {
            MenuItemKind::Quit => MenuAction::Send { command: DaemonCommand::Shutdown, exit: true },
            MenuItemKind::Reconnect => if self.permission_error {
                MenuAction::Send { command: DaemonCommand::Shutdown, exit: true }
            } else {
                MenuAction::Send { command: DaemonCommand::Reconnect, exit: false }
            },
            MenuItemKind::EditConfig => MenuAction::EditConfig,
            MenuItemKind::Device => match self.device_url {
                Some(u) => MenuAction::OpenUrl(u),
                None => MenuAction::Nothing,
            },
            MenuItemKind::StartAtLogin => MenuAction::SetLoginItem(!installed),
        }
    }
}

} // verus!
