//! Keystroke strings such as `"ctrl+shift+left"`: key names, modifiers
//! and the key combination an action sends.
use vstd::prelude::*;

use crate::daemon::config::{Action, ExplicitAction};
use crate::text::{
    chars_of, lowercase, split_chars, split_on, str_eq, string_of, to_lowercase, trim, trim_chars,
};

verus! {

/// A key that an action can press.
#[derive(Debug, Clone, Copy, PartialEq, Eq, Structural)]
pub enum Key {
    Control,
    Alt,
    Shift,
    Meta,
    LeftArrow,
    RightArrow,
    UpArrow,
    DownArrow,
    Home,
    End,
    PageUp,
    PageDown,
    Return,
    Tab,
    Space,
    Escape,
    Backspace,
    Delete,
    CapsLock,
    F1,
    F2,
    F3,
    F4,
    F5,
    F6,
    F7,
    F8,
    F9,
    F10,
    F11,
    F12,
    F13,
    F14,
    F15,
    F16,
    F17,
    F18,
    F19,
    F20,
    MediaPlayPause,
    MediaNextTrack,
    MediaPrevTrack,
    VolumeUp,
    VolumeDown,
    VolumeMute,
    /// A single printable character.
    Unicode(char),
}

/// The key a lowercase key name denotes: a known name, or a single ASCII
/// character.
pub open spec fn key_of_lowercase(name: Seq<char>) -> Option<Key> {
    if name == "ctrl"@ || name == "control"@ {
        Some(Key::Control)
    } else if name == "alt"@ || name == "option"@ {
        Some(Key::Alt)
    } else if name == "shift"@ {
        Some(Key::Shift)
    } else if name == "meta"@ || name == "cmd"@ || name == "command"@ || name == "super"@ || name == "win"@ {
        Some(Key::Meta)
    } else if name == "left"@ || name == "leftarrow"@ {
        Some(Key::LeftArrow)
    } else if name == "right"@ || name == "rightarrow"@ {
        Some(Key::RightArrow)
    } else if name == "up"@ || name == "uparrow"@ {
        Some(Key::UpArrow)
    } else if name == "down"@ || name == "downarrow"@ {
        Some(Key::DownArrow)
    } else if name == "home"@ {
        Some(Key::Home)
    } else if name == "end"@ {
        Some(Key::End)
    } else if name == "pageup"@ {
        Some(Key::PageUp)
    } else if name == "pagedown"@ {
        Some(Key::PageDown)
    } else if name == "return"@ || name == "enter"@ {
        Some(Key::Return)
    } else if name == "tab"@ {
        Some(Key::Tab)
    } else if name == "space"@ {
        Some(Key::Space)
    } else if name == "escape"@ || name == "esc"@ {
        Some(Key::Escape)
    } else if name == "backspace"@ {
        Some(Key::Backspace)
    } else if name == "delete"@ || name == "del"@ {
        Some(Key::Delete)
    } else if name == "capslock"@ {
        Some(Key::CapsLock)
    } else if name == "f1"@ {
        Some(Key::F1)
    } else if name == "f2"@ {
        Some(Key::F2)
    } else if name == "f3"@ {
        Some(Key::F3)
    } else if name == "f4"@ {
        Some(Key::F4)
    } else if name == "f5"@ {
        Some(Key::F5)
    } else if name == "f6"@ {
        Some(Key::F6)
    } else if name == "f7"@ {
        Some(Key::F7)
    } else if name == "f8"@ {
        Some(Key::F8)
    } else if name == "f9"@ {
        Some(Key::F9)
    } else if name == "f10"@ {
        Some(Key::F10)
    } else if name == "f11"@ {
        Some(Key::F11)
    } else if name == "f12"@ {
        Some(Key::F12)
    } else if name == "f13"@ {
        Some(Key::F13)
    } else if name == "f14"@ {
        Some(Key::F14)
    } else if name == "f15"@ {
        Some(Key::F15)
    } else if name == "f16"@ {
        Some(Key::F16)
    } else if name == "f17"@ {
        Some(Key::F17)
    } else if name == "f18"@ {
        Some(Key::F18)
    } else if name == "f19"@ {
        Some(Key::F19)
    } else if name == "f20"@ {
        Some(Key::F20)
    } else if name == "playpause"@ || name == "play"@ {
        Some(Key::MediaPlayPause)
    } else if name == "next"@ || name == "nexttrack"@ {
        Some(Key::MediaNextTrack)
    } else if name == "prev"@ || name == "prevtrack"@ {
        Some(Key::MediaPrevTrack)
    } else if name == "volumeup"@ || name == "volup"@ {
        Some(Key::VolumeUp)
    } else if name == "volumedown"@ || name == "voldown"@ {
        Some(Key::VolumeDown)
    } else if name == "mute"@ || name == "volumemute"@ {
        Some(Key::VolumeMute)
    } else if name.len() == 1 && (name[0] as u32) < 0x80 {
        Some(Key::Unicode(name[0]))
    } else {
        None
    }
}

/// The key a key name denotes, compared case-insensitively.
pub open spec fn key_of_name(name: Seq<char>) -> Option<Key> {
    key_of_lowercase(lowercase(name))
}

/// The key an already lowercased key name denotes.
pub fn key_of_lowercase_str(s: &str) -> (k: Option<Key>)
    ensures
        k == key_of_lowercase(s@),
{
    if str_eq(s, "ctrl") || str_eq(s, "control") {
        return Some(Key::Control);
    }
    if str_eq(s, "alt") || str_eq(s, "option") {
        return Some(Key::Alt);
    }
    if str_eq(s, "shift") {
        return Some(Key::Shift);
    }
    if str_eq(s, "meta") || str_eq(s, "cmd") || str_eq(s, "command") || str_eq(s, "super") || str_eq(s, "win") {
        return Some(Key::Meta);
    }
    if str_eq(s, "left") || str_eq(s, "leftarrow") {
        return Some(Key::LeftArrow);
    }
    if str_eq(s, "right") || str_eq(s, "rightarrow") {
        return Some(Key::RightArrow);
    }
    if str_eq(s, "up") || str_eq(s, "uparrow") {
        return Some(Key::UpArrow);
    }
    if str_eq(s, "down") || str_eq(s, "downarrow") {
        return Some(Key::DownArrow);
    }
    if str_eq(s, "home") {
        return Some(Key::Home);
    }
    if str_eq(s, "end") {
        return Some(Key::End);
    }
    if str_eq(s, "pageup") {
        return Some(Key::PageUp);
    }
    if str_eq(s, "pagedown") {
        return Some(Key::PageDown);
    }
    if str_eq(s, "return") || str_eq(s, "enter") {
        return Some(Key::Return);
    }
    if str_eq(s, "tab") {
        return Some(Key::Tab);
    }
    if str_eq(s, "space") {
        return Some(Key::Space);
    }
    if str_eq(s, "escape") || str_eq(s, "esc") {
        return Some(Key::Escape);
    }
    if str_eq(s, "backspace") {
        return Some(Key::Backspace);
    }
    if str_eq(s, "delete") || str_eq(s, "del") {
        return Some(Key::Delete);
    }
    if str_eq(s, "capslock") {
        return Some(Key::CapsLock);
    }
    if str_eq(s, "f1") {
        return Some(Key::F1);
    }
    if str_eq(s, "f2") {
        return Some(Key::F2);
    }
    if str_eq(s, "f3") {
        return Some(Key::F3);
    }
    if str_eq(s, "f4") {
        return Some(Key::F4);
    }
    if str_eq(s, "f5") {
        return Some(Key::F5);
    }
    if str_eq(s, "f6") {
        return Some(Key::F6);
    }
    if str_eq(s, "f7") {
        return Some(Key::F7);
    }
    if str_eq(s, "f8") {
        return Some(Key::F8);
    }
    if str_eq(s, "f9") {
        return Some(Key::F9);
    }
    if str_eq(s, "f10") {
        return Some(Key::F10);
    }
    if str_eq(s, "f11") {
        return Some(Key::F11);
    }
    if str_eq(s, "f12") {
        return Some(Key::F12);
    }
    if str_eq(s, "f13") {
        return Some(Key::F13);
    }
    if str_eq(s, "f14") {
        return Some(Key::F14);
    }
    if str_eq(s, "f15") {
        return Some(Key::F15);
    }
    if str_eq(s, "f16") {
        return Some(Key::F16);
    }
    if str_eq(s, "f17") {
        return Some(Key::F17);
    }
    if str_eq(s, "f18") {
        return Some(Key::F18);
    }
    if str_eq(s, "f19") {
        return Some(Key::F19);
    }
    if str_eq(s, "f20") {
        return Some(Key::F20);
    }
    if str_eq(s, "playpause") || str_eq(s, "play") {
        return Some(Key::MediaPlayPause);
    }
    if str_eq(s, "next") || str_eq(s, "nexttrack") {
        return Some(Key::MediaNextTrack);
    }
    if str_eq(s, "prev") || str_eq(s, "prevtrack") {
        return Some(Key::MediaPrevTrack);
    }
    if str_eq(s, "volumeup") || str_eq(s, "volup") {
        return Some(Key::VolumeUp);
    }
    if str_eq(s, "volumedown") || str_eq(s, "voldown") {
        return Some(Key::VolumeDown);
    }
    if str_eq(s, "mute") || str_eq(s, "volumemute") {
        return Some(Key::VolumeMute);
    }
    let cs = chars_of(s);
    if cs.len() == 1 && (cs[0] as u32) < 0x80 {
        return Some(Key::Unicode(cs[0]));
    }
    None
}

/// Map a key name to a key (case-insensitive).
pub fn parse_key(name: &str) -> (k: Option<Key>)
    ensures
        k == key_of_name(name@),
{
    let lower = to_lowercase(name);
    key_of_lowercase_str(lower.as_str())
}

/// A key combination: modifiers held while the main key is clicked.
#[derive(Debug, Clone, PartialEq, Eq)]
pub struct KeyCombo {
    /// Modifiers, pressed in order and released in reverse.
    pub modifiers: Vec<Key>,
    /// The key clicked while the modifiers are held.
    pub key: Key,
}

/// The key combination a keystroke string describes: the string is split
/// at `+`, each piece trimmed; the last piece names the main key, and every
/// earlier piece that names a key is a modifier (unknown ones are skipped).
/// `None` when the main key is unknown.
pub open spec fn keystroke_combo(s: Seq<char>) -> Option<(Seq<Key>, Key)> {
    let parts = split_on(s, '+');
    let modifiers = parts.drop_last().filter_map(|p: Seq<char>| key_of_name(trim(p)));
    match key_of_name(trim(parts.last())) {
        Some(k) => Some((modifiers, k)),
        None => None,
    }
}

fn key_of_piece(piece: &[char]) -> (k: Option<Key>)
    ensures
        k == key_of_name(trim(piece@)),
{
    let trimmed = trim_chars(piece);
    let text = string_of(trimmed.as_slice());
    parse_key(text.as_str())
}

/// Parse a keystroke string such as `"ctrl+shift+left"`.
pub fn parse_keystroke(keystroke: &str) -> (r: Option<KeyCombo>)
    ensures
        match r {
            Some(c) => keystroke_combo(keystroke@) == Some((c.modifiers@, c.key)),
            None => keystroke_combo(keystroke@) is None,
        },
{
    let chars = chars_of(keystroke);
    let parts = split_chars(chars.as_slice(), '+');
    let ghost spec_parts = split_on(keystroke@, '+');
    let ghost f = |p: Seq<char>| key_of_name(trim(p));
    assert(parts@.len() >= 1) by {
        assert(spec_parts.len() >= 1) by {
            lemma_split_nonempty(keystroke@);
        }
    }
    let last = parts.len() - 1;
    let mut modifiers: Vec<Key> = Vec::new();
    let mut i: usize = 0;
    while i < last
        invariant
            last == parts@.len() - 1,
            parts@.len() == spec_parts.len(),
            f == (|p: Seq<char>| key_of_name(trim(p))),
            forall|j: int| 0 <= j < parts@.len() ==> #[trigger] parts@[j]@ == spec_parts[j],
            i <= last,
            modifiers@ == spec_parts.drop_last().take(i as int).filter_map(f),
        decreases last - i,
    {
        let k = key_of_piece(parts[i].as_slice());
        proof {
            spec_parts.drop_last().lemma_filter_map_take_succ(f, i as int);
            assert(spec_parts.drop_last()[i as int] == spec_parts[i as int]);
        }
        match k {
            Some(key) => {
                modifiers.push(key);
            },
            None => {},
        }
        i = i + 1;
    }
    assert(spec_parts.drop_last().take(last as int) =~= spec_parts.drop_last());
    match key_of_piece(parts[last].as_slice()) {
        Some(key) => Some(KeyCombo { modifiers, key }),
        None => None,
    }
}

proof fn lemma_split_nonempty(s: Seq<char>)
    ensures
        split_on(s, '+').len() >= 1,
    decreases s.len(),
{
    if s.len() > 0 {
        lemma_split_nonempty(s.drop_last());
    }
}

/// What carrying out an action amounts to.
#[derive(Debug, Clone, PartialEq, Eq)]
pub enum ActionPlan {
    /// Press the modifiers, click the key, release the modifiers in reverse.
    Keys(KeyCombo),
    /// A keystroke action whose main key is unknown: nothing is sent.
    UnknownKey(String),
    /// Run a shell command.
    Run(String),
}

/// Execute an action, as far as deciding goes: a keystroke action sends
/// its key combination (nothing if the main key is unknown), a command
/// action runs its command. The returned plan is what the input backend
/// or the shell then carries out.
pub fn execute(action: &Action) -> (p: ActionPlan)
    ensures
        match action.spec_keystroke() {
            Some(keys) => match (keystroke_combo(keys), p) {
                (Some((mods, k)), ActionPlan::Keys(c)) => c.modifiers@ == mods && c.key == k,
                (None, ActionPlan::UnknownKey(text)) => text@ == keys,
                _ => false,
            },
            None => p matches ActionPlan::Run(cmd) && Some(cmd@) == action.spec_command(),
        },
{
    let keys = match action {
        Action::Keystroke(keys) => keys,
        Action::Explicit(ExplicitAction::Keystroke { keys }) => keys,
        Action::Explicit(ExplicitAction::Command { run }) => {
            return ActionPlan::Run(run.clone());
        },
    };
    match parse_keystroke(keys.as_str()) {
        Some(combo) => ActionPlan::Keys(combo),
        None => ActionPlan::UnknownKey(keys.clone()),
    }
}

/// The lengths of the key names, and the letters that tell names of one
/// length apart.
proof fn lemma_key_name_letters()
    ensures
        "ctrl"@.len() == 4,
        "control"@.len() == 7,
        "alt"@.len() == 3,
        "option"@.len() == 6,
        "shift"@.len() == 5,
        "meta"@.len() == 4,
        "cmd"@.len() == 3,
        "command"@.len() == 7,
        "super"@.len() == 5,
        "win"@.len() == 3,
        "left"@.len() == 4,
        "leftarrow"@.len() == 9,
        "right"@.len() == 5,
        "rightarrow"@.len() == 10,
        "up"@.len() == 2,
        "uparrow"@.len() == 7,
        "down"@.len() == 4,
        "downarrow"@.len() == 9,
        "home"@.len() == 4,
        "end"@.len() == 3,
        "pageup"@.len() == 6,
        "pagedown"@.len() == 8,
        "return"@.len() == 6,
        "enter"@.len() == 5,
        "tab"@.len() == 3,
        "space"@.len() == 5,
        "escape"@.len() == 6,
        "esc"@.len() == 3,
        "backspace"@.len() == 9,
        "delete"@.len() == 6,
        "del"@.len() == 3,
        "capslock"@.len() == 8,
        "f1"@.len() == 2,
        "f2"@.len() == 2,
        "f3"@.len() == 2,
        "f4"@.len() == 2,
        "f5"@.len() == 2,
        "f6"@.len() == 2,
        "f7"@.len() == 2,
        "f8"@.len() == 2,
        "f9"@.len() == 2,
        "f10"@.len() == 3,
        "f11"@.len() == 3,
        "f12"@.len() == 3,
        "f13"@.len() == 3,
        "f14"@.len() == 3,
        "f15"@.len() == 3,
        "f16"@.len() == 3,
        "f17"@.len() == 3,
        "f18"@.len() == 3,
        "f19"@.len() == 3,
        "f20"@.len() == 3,
        "playpause"@.len() == 9,
        "play"@.len() == 4,
        "next"@.len() == 4,
        "nexttrack"@.len() == 9,
        "prev"@.len() == 4,
        "prevtrack"@.len() == 9,
        "volumeup"@.len() == 8,
        "volup"@.len() == 5,
        "volumedown"@.len() == 10,
        "voldown"@.len() == 7,
        "mute"@.len() == 4,
        "volumemute"@.len() == 10,
        "alt"@[0] == 'a',
        "backspace"@[0] == 'b',
        "capslock"@[0] == 'c',
        "cmd"@[0] == 'c',
        "command"@[0] == 'c',
        "command"@[2] == 'm',
        "control"@[0] == 'c',
        "control"@[2] == 'n',
        "ctrl"@[0] == 'c',
        "del"@[0] == 'd',
        "delete"@[0] == 'd',
        "down"@[0] == 'd',
        "downarrow"@[0] == 'd',
        "end"@[0] == 'e',
        "end"@[1] == 'n',
        "enter"@[0] == 'e',
        "esc"@[0] == 'e',
        "esc"@[1] == 's',
        "escape"@[0] == 'e',
        "f1"@[0] == 'f',
        "f1"@[1] == '1',
        "f10"@[0] == 'f',
        "f10"@[1] == '1',
        "f10"@[2] == '0',
        "f11"@[0] == 'f',
        "f11"@[1] == '1',
        "f11"@[2] == '1',
        "f12"@[0] == 'f',
        "f12"@[1] == '1',
        "f12"@[2] == '2',
        "f13"@[0] == 'f',
        "f13"@[1] == '1',
        "f13"@[2] == '3',
        "f14"@[0] == 'f',
        "f14"@[1] == '1',
        "f14"@[2] == '4',
        "f15"@[0] == 'f',
        "f15"@[1] == '1',
        "f15"@[2] == '5',
        "f16"@[0] == 'f',
        "f16"@[1] == '1',
        "f16"@[2] == '6',
        "f17"@[0] == 'f',
        "f17"@[1] == '1',
        "f17"@[2] == '7',
        "f18"@[0] == 'f',
        "f18"@[1] == '1',
        "f18"@[2] == '8',
        "f19"@[0] == 'f',
        "f19"@[1] == '1',
        "f19"@[2] == '9',
        "f2"@[0] == 'f',
        "f2"@[1] == '2',
        "f20"@[0] == 'f',
        "f20"@[1] == '2',
        "f3"@[0] == 'f',
        "f3"@[1] == '3',
        "f4"@[0] == 'f',
        "f4"@[1] == '4',
        "f5"@[0] == 'f',
        "f5"@[1] == '5',
        "f6"@[0] == 'f',
        "f6"@[1] == '6',
        "f7"@[0] == 'f',
        "f7"@[1] == '7',
        "f8"@[0] == 'f',
        "f8"@[1] == '8',
        "f9"@[0] == 'f',
        "f9"@[1] == '9',
        "home"@[0] == 'h',
        "left"@[0] == 'l',
        "leftarrow"@[0] == 'l',
        "meta"@[0] == 'm',
        "meta"@[1] == 'e',
        "mute"@[0] == 'm',
        "mute"@[1] == 'u',
        "next"@[0] == 'n',
        "nexttrack"@[0] == 'n',
        "option"@[0] == 'o',
        "pagedown"@[0] == 'p',
        "pageup"@[0] == 'p',
        "play"@[0] == 'p',
        "play"@[1] == 'l',
        "playpause"@[0] == 'p',
        "playpause"@[1] == 'l',
        "prev"@[0] == 'p',
        "prev"@[1] == 'r',
        "prevtrack"@[0] == 'p',
        "prevtrack"@[1] == 'r',
        "return"@[0] == 'r',
        "right"@[0] == 'r',
        "rightarrow"@[0] == 'r',
        "shift"@[0] == 's',
        "shift"@[1] == 'h',
        "space"@[0] == 's',
        "space"@[1] == 'p',
        "super"@[0] == 's',
        "super"@[1] == 'u',
        "tab"@[0] == 't',
        "up"@[0] == 'u',
        "uparrow"@[0] == 'u',
        "voldown"@[0] == 'v',
        "volumedown"@[0] == 'v',
        "volumedown"@[6] == 'd',
        "volumemute"@[0] == 'v',
        "volumemute"@[6] == 'm',
        "volumeup"@[0] == 'v',
        "volup"@[0] == 'v',
        "win"@[0] == 'w',
{
    reveal_strlit("ctrl");
    reveal_strlit("control");
    reveal_strlit("alt");
    reveal_strlit("option");
    reveal_strlit("shift");
    reveal_strlit("meta");
    reveal_strlit("cmd");
    reveal_strlit("command");
    reveal_strlit("super");
    reveal_strlit("win");
    reveal_strlit("left");
    reveal_strlit("leftarrow");
    reveal_strlit("right");
    reveal_strlit("rightarrow");
    reveal_strlit("up");
    reveal_strlit("uparrow");
    reveal_strlit("down");
    reveal_strlit("downarrow");
    reveal_strlit("home");
    reveal_strlit("end");
    reveal_strlit("pageup");
    reveal_strlit("pagedown");
    reveal_strlit("return");
    reveal_strlit("enter");
    reveal_strlit("tab");
    reveal_strlit("space");
    reveal_strlit("escape");
    reveal_strlit("esc");
    reveal_strlit("backspace");
    reveal_strlit("delete");
    reveal_strlit("del");
    reveal_strlit("capslock");
    reveal_strlit("f1");
    reveal_strlit("f2");
    reveal_strlit("f3");
    reveal_strlit("f4");
    reveal_strlit("f5");
    reveal_strlit("f6");
    reveal_strlit("f7");
    reveal_strlit("f8");
    reveal_strlit("f9");
    reveal_strlit("f10");
    reveal_strlit("f11");
    reveal_strlit("f12");
    reveal_strlit("f13");
    reveal_strlit("f14");
    reveal_strlit("f15");
    reveal_strlit("f16");
    reveal_strlit("f17");
    reveal_strlit("f18");
    reveal_strlit("f19");
    reveal_strlit("f20");
    reveal_strlit("playpause");
    reveal_strlit("play");
    reveal_strlit("next");
    reveal_strlit("nexttrack");
    reveal_strlit("prev");
    reveal_strlit("prevtrack");
    reveal_strlit("volumeup");
    reveal_strlit("volup");
    reveal_strlit("volumedown");
    reveal_strlit("voldown");
    reveal_strlit("mute");
    reveal_strlit("volumemute");
}

/// Each modifier name denotes its modifier key.
pub proof fn lemma_modifier_key_names()
    ensures
        key_of_lowercase("ctrl"@) == Some(Key::Control),
        key_of_lowercase("control"@) == Some(Key::Control),
        key_of_lowercase("alt"@) == Some(Key::Alt),
        key_of_lowercase("option"@) == Some(Key::Alt),
        key_of_lowercase("shift"@) == Some(Key::Shift),
        key_of_lowercase("meta"@) == Some(Key::Meta),
        key_of_lowercase("cmd"@) == Some(Key::Meta),
        key_of_lowercase("command"@) == Some(Key::Meta),
        key_of_lowercase("super"@) == Some(Key::Meta),
        key_of_lowercase("win"@) == Some(Key::Meta),
{
    lemma_key_name_letters();
}

/// Each navigation key name denotes its key.
pub proof fn lemma_navigation_key_names()
    ensures
        key_of_lowercase("left"@) == Some(Key::LeftArrow),
        key_of_lowercase("leftarrow"@) == Some(Key::LeftArrow),
        key_of_lowercase("right"@) == Some(Key::RightArrow),
        key_of_lowercase("rightarrow"@) == Some(Key::RightArrow),
        key_of_lowercase("up"@) == Some(Key::UpArrow),
        key_of_lowercase("uparrow"@) == Some(Key::UpArrow),
        key_of_lowercase("down"@) == Some(Key::DownArrow),
        key_of_lowercase("downarrow"@) == Some(Key::DownArrow),
        key_of_lowercase("home"@) == Some(Key::Home),
        key_of_lowercase("end"@) == Some(Key::End),
        key_of_lowercase("pageup"@) == Some(Key::PageUp),
        key_of_lowercase("pagedown"@) == Some(Key::PageDown),
{
    lemma_key_name_letters();
}

/// Each editing key name denotes its key.
pub proof fn lemma_editing_key_names()
    ensures
        key_of_lowercase("return"@) == Some(Key::Return),
        key_of_lowercase("enter"@) == Some(Key::Return),
        key_of_lowercase("tab"@) == Some(Key::Tab),
        key_of_lowercase("space"@) == Some(Key::Space),
        key_of_lowercase("escape"@) == Some(Key::Escape),
        key_of_lowercase("esc"@) == Some(Key::Escape),
        key_of_lowercase("backspace"@) == Some(Key::Backspace),
        key_of_lowercase("delete"@) == Some(Key::Delete),
        key_of_lowercase("del"@) == Some(Key::Delete),
        key_of_lowercase("capslock"@) == Some(Key::CapsLock),
{
    lemma_key_name_letters();
}

/// Each function key name `f1` to `f20` denotes its function key.
pub proof fn lemma_function_key_names()
    ensures
        key_of_lowercase("f1"@) == Some(Key::F1),
        key_of_lowercase("f2"@) == Some(Key::F2),
        key_of_lowercase("f3"@) == Some(Key::F3),
        key_of_lowercase("f4"@) == Some(Key::F4),
        key_of_lowercase("f5"@) == Some(Key::F5),
        key_of_lowercase("f6"@) == Some(Key::F6),
        key_of_lowercase("f7"@) == Some(Key::F7),
        key_of_lowercase("f8"@) == Some(Key::F8),
        key_of_lowercase("f9"@) == Some(Key::F9),
        key_of_lowercase("f10"@) == Some(Key::F10),
        key_of_lowercase("f11"@) == Some(Key::F11),
        key_of_lowercase("f12"@) == Some(Key::F12),
        key_of_lowercase("f13"@) == Some(Key::F13),
        key_of_lowercase("f14"@) == Some(Key::F14),
        key_of_lowercase("f15"@) == Some(Key::F15),
        key_of_lowercase("f16"@) == Some(Key::F16),
        key_of_lowercase("f17"@) == Some(Key::F17),
        key_of_lowercase("f18"@) == Some(Key::F18),
        key_of_lowercase("f19"@) == Some(Key::F19),
        key_of_lowercase("f20"@) == Some(Key::F20),
{
    lemma_key_name_letters();
}

/// Each media key name denotes its media key.
pub proof fn lemma_media_key_names()
    ensures
        key_of_lowercase("playpause"@) == Some(Key::MediaPlayPause),
        key_of_lowercase("play"@) == Some(Key::MediaPlayPause),
        key_of_lowercase("next"@) == Some(Key::MediaNextTrack),
        key_of_lowercase("nexttrack"@) == Some(Key::MediaNextTrack),
        key_of_lowercase("prev"@) == Some(Key::MediaPrevTrack),
        key_of_lowercase("prevtrack"@) == Some(Key::MediaPrevTrack),
        key_of_lowercase("volumeup"@) == Some(Key::VolumeUp),
        key_of_lowercase("volup"@) == Some(Key::VolumeUp),
        key_of_lowercase("volumedown"@) == Some(Key::VolumeDown),
        key_of_lowercase("voldown"@) == Some(Key::VolumeDown),
        key_of_lowercase("mute"@) == Some(Key::VolumeMute),
        key_of_lowercase("volumemute"@) == Some(Key::VolumeMute),
{
    lemma_key_name_letters();
}

/// A single ASCII character denotes itself: no key name is one
/// character long.
pub proof fn lemma_single_char_keys(c: char)
    requires
        (c as u32) < 0x80,
    ensures
        key_of_lowercase(seq![c]) == Some(Key::Unicode(c)),
{
    lemma_key_name_letters();
    assert(seq![c].len() == 1);
}

} // verus!
