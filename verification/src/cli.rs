//! What the command-line tool reads from its arguments: setting names,
//! setting values, hexadecimal feature IDs, device indices and parameter
//! bytes.
use vstd::prelude::*;

use crate::features::hires_wheel;
use crate::features::smart_shift::{SmartShiftState, WheelMode};
use crate::text::{chars_of, is_unicode_whitespace, parse_u16, parse_u16_spec, str_eq, unsigned_digits};

verus! {

/// The value of a hexadecimal digit, if `c` is one.
pub open spec fn hex_digit_value(c: char) -> Option<nat> {
    if '0' <= c && c <= '9' {
        Some((c as nat - '0' as nat) as nat)
    } else if 'a' <= c && c <= 'f' {
        Some((c as nat - 'a' as nat + 10) as nat)
    } else if 'A' <= c && c <= 'F' {
        Some((c as nat - 'A' as nat + 10) as nat)
    } else {
        None
    }
}

/// Whether every character is a hexadecimal digit.
pub open spec fn all_hex(s: Seq<char>) -> bool {
    forall|i: int| 0 <= i < s.len() ==> (#[trigger] hex_digit_value(s[i])) is Some
}

/// The value of a text of hexadecimal digits.
pub open spec fn hex_value(digits: Seq<char>) -> nat
    decreases digits.len(),
{
    if digits.len() == 0 {
        0
    } else {
        hex_value(digits.drop_last()) * 16 + hex_digit_value(digits.last()).unwrap()
    }
}

/// A text without every leading repetition of the prefix `"0"` then `x`
/// (where `x` is the given letter).
pub open spec fn strip_hex_prefix(s: Seq<char>, x: char) -> Seq<char>
    decreases s.len(),
{
    if s.len() >= 2 && s[0] == '0' && s[1] == x {
        strip_hex_prefix(s.skip(2), x)
    } else {
        s
    }
}

/// The number a text denotes in base 16 as `from_str_radix` reads it: an
/// optional `+`, then one or more hexadecimal digits, with a value at
/// most `max`.
pub open spec fn parse_hex_spec(s: Seq<char>, max: nat) -> Option<nat> {
    let digits = unsigned_digits(s);
    if digits.len() > 0 && all_hex(digits) && hex_value(digits) <= max {
        Some(hex_value(digits))
    } else {
        None
    }
}

proof fn lemma_hex_value_grows(digits: Seq<char>, k: int)
    requires
        0 <= k <= digits.len(),
        all_hex(digits),
    ensures
        hex_value(digits.subrange(0, k)) <= hex_value(digits),
    decreases digits.len() - k,
{
    if k < digits.len() {
        lemma_hex_value_grows(digits.drop_last(), k);
        assert(digits.drop_last().subrange(0, k) =~= digits.subrange(0, k));
        assert(all_hex(digits.drop_last())) by {
            assert forall|i: int| 0 <= i < digits.drop_last().len() implies (#[trigger] hex_digit_value(
                digits.drop_last()[i],
            )) is Some by {
                assert(digits.drop_last()[i] == digits[i]);
            }
        }
        assert(hex_digit_value(digits[digits.len() - 1]) is Some);
    } else {
        assert(digits.subrange(0, k) =~= digits);
    }
}

fn hex_digit(c: char) -> (v: Option<u32>)
    ensures
        match v {
            Some(d) => hex_digit_value(c) == Some(d as nat) && d < 16,
            None => hex_digit_value(c) is None,
        },
{
    if '0' <= c && c <= '9' {
        Some((c as u32) - ('0' as u32))
    } else if 'a' <= c && c <= 'f' {
        Some((c as u32) - ('a' as u32) + 10)
    } else if 'A' <= c && c <= 'F' {
        Some((c as u32) - ('A' as u32) + 10)
    } else {
        None
    }
}

/// Parse a base-16 number of at most `max` (optional `+`, then hex
/// digits).
pub fn parse_hex(s: &[char], max: u32) -> (r: Option<u32>)
    ensures
        match r {
            Some(v) => parse_hex_spec(s@, max as nat) == Some(v as nat),
            None => parse_hex_spec(s@, max as nat) is None,
        },
{
    let start: usize = if s.len() > 0 && s[0] == '+' {
        1
    } else {
        0
    };
    let ghost digits = unsigned_digits(s@);
    assert(digits =~= s@.subrange(start as int, s@.len() as int));
    if start >= s.len() {
        return None;
    }
    let mut value: u32 = 0;
    let mut i: usize = start;
    while i < s.len()
        invariant
            digits == unsigned_digits(s@),
            digits == s@.subrange(start as int, s@.len() as int),
            start <= i <= s@.len(),
            all_hex(s@.subrange(start as int, i as int)),
            value == hex_value(s@.subrange(start as int, i as int)),
            value <= max,
        decreases s@.len() - i,
    {
        let c = s[i];
        let ghost prefix = s@.subrange(start as int, i as int);
        let ghost next = s@.subrange(start as int, i + 1);
        assert(next.drop_last() =~= prefix);
        let d = match hex_digit(c) {
            Some(d) => d,
            None => {
                assert(digits[i - start] == c);
                assert(hex_digit_value(digits[i - start]) is None);
                return None;
            },
        };
        assert(all_hex(next)) by {
            assert forall|k: int| 0 <= k < next.len() implies (#[trigger] hex_digit_value(next[k])) is Some by {
                if k < prefix.len() {
                    assert(next[k] == prefix[k]);
                }
            }
        }
        if d > max {
            proof {
                assert(hex_value(next) == value * 16 + d);
                if all_hex(digits) {
                    lemma_hex_value_grows(digits, i + 1 - start);
                    assert(digits.subrange(0, i + 1 - start) =~= next);
                }
            }
            return None;
        }
        if value > (max - d) / 16 {
            proof {
                assert(hex_value(next) == value * 16 + d);
                assert(hex_value(next) > max) by (nonlinear_arith)
                    requires
                        value > (max - d) / 16,
                        d < 16,
                        d <= max,
                        hex_value(next) == value * 16 + d,
                ;
                if all_hex(digits) {
                    lemma_hex_value_grows(digits, i + 1 - start);
                    assert(digits.subrange(0, i + 1 - start) =~= next);
                }
            }
            return None;
        }
        assert(value * 16 + d <= max) by (nonlinear_arith)
            requires
                value <= (max - d) / 16,
                d <= max,
        ;
        value = value * 16 + d;
        i = i + 1;
    }
    assert(s@.subrange(start as int, i as int) =~= digits);
    Some(value)
}

/// The characters of `s` without every leading `"0"x` prefix.
pub fn strip_hex_prefix_chars(s: &[char], x: char) -> (t: Vec<char>)
    ensures
        t@ == strip_hex_prefix(s@, x),
{
    let mut start: usize = 0;
    assert(s@.skip(0) =~= s@);
    while start < s.len() && s.len() - start >= 2 && s[start] == '0' && s[start + 1] == x
        invariant
            start <= s@.len(),
            strip_hex_prefix(s@, x) == strip_hex_prefix(s@.skip(start as int), x),
        decreases s@.len() - start,
    {
        assert(s@.skip(start as int).skip(2) =~= s@.skip(start + 2));
        start = start + 2;
    }
    let mut t: Vec<char> = Vec::new();
    let mut i: usize = start;
    while i < s.len()
        invariant
            start <= i <= s@.len(),
            t@ == s@.subrange(start as int, i as int),
        decreases s@.len() - i,
    {
        t.push(s[i]);
        assert(s@.subrange(start as int, i + 1) =~= s@.subrange(start as int, i as int).push(s@[i as int]));
        i = i + 1;
    }
    assert(s@.skip(start as int) =~= t@);
    t
}

/// A feature ID given in hexadecimal, with any leading `0x` prefixes.
pub fn parse_feature_id(text: &str) -> (r: Option<u16>)
    ensures
        match r {
            Some(v) => parse_hex_spec(strip_hex_prefix(text@, 'x'), 0xFFFF) == Some(v as nat),
            None => parse_hex_spec(strip_hex_prefix(text@, 'x'), 0xFFFF) is None,
        },
{
    let cs = chars_of(text);
    let digits = strip_hex_prefix_chars(cs.as_slice(), 'x');
    match parse_hex(digits.as_slice(), 0xFFFF) {
        Some(v) => Some(v as u16),
        None => None,
    }
}

/// A device index given in hexadecimal (`FF` for BLE, `01`–`06` for
/// receiver slots), with any leading `0x` and then `0X` prefixes.
pub fn parse_device_index(text: &str) -> (r: Option<u8>)
    ensures
        match r {
            Some(v) => parse_hex_spec(strip_hex_prefix(strip_hex_prefix(text@, 'x'), 'X'), 0xFF)
                == Some(v as nat),
            None => parse_hex_spec(strip_hex_prefix(strip_hex_prefix(text@, 'x'), 'X'), 0xFF) is None,
        },
{
    let cs = chars_of(text);
    let once = strip_hex_prefix_chars(cs.as_slice(), 'x');
    let digits = strip_hex_prefix_chars(once.as_slice(), 'X');
    match parse_hex(digits.as_slice(), 0xFF) {
        Some(v) => Some(v as u8),
        None => None,
    }
}

/// The whitespace-separated words of a text, in order.
pub open spec fn words(s: Seq<char>) -> Seq<Seq<char>>
    decreases s.len(),
{
    if s.len() == 0 {
        Seq::empty()
    } else {
        let w = words(s.drop_last());
        if is_unicode_whitespace(s.last()) {
            w
        } else if s.len() >= 2 && !is_unicode_whitespace(s[s.len() - 2]) {
            w.drop_last().push(w.last().push(s.last()))
        } else {
            w.push(seq![s.last()])
        }
    }
}

proof fn lemma_words_nonempty(s: Seq<char>)
    requires
        s.len() > 0,
        !is_unicode_whitespace(s.last()),
    ensures
        words(s).len() > 0,
    decreases s.len(),
{
    if s.len() >= 2 && !is_unicode_whitespace(s[s.len() - 2]) {
        assert(s.drop_last().last() == s[s.len() - 2]);
        lemma_words_nonempty(s.drop_last());
    }
}

/// The parameter bytes a text of whitespace-separated hexadecimal bytes
/// denotes: each word, without its `0x` prefixes, is a byte.
pub open spec fn hex_bytes_spec(ws: Seq<Seq<char>>) -> Option<Seq<u8>>
    decreases ws.len(),
{
    if ws.len() == 0 {
        Some(Seq::empty())
    } else {
        match (hex_bytes_spec(ws.drop_last()), parse_hex_spec(strip_hex_prefix(ws.last(), 'x'), 0xFF)) {
            (Some(bs), Some(b)) => Some(bs.push(b as u8)),
            _ => None,
        }
    }
}

fn split_words(text: &str) -> (ws: Vec<Vec<char>>)
    ensures
        ws@.len() == words(text@).len(),
        forall|i: int| 0 <= i < ws@.len() ==> (#[trigger] ws@[i])@ == words(text@)[i],
{
    let cs = chars_of(text);
    let mut ws: Vec<Vec<char>> = Vec::new();
    let mut cur: Vec<char> = Vec::new();
    let mut i: usize = 0;
    while i < cs.len()
        invariant
            cs@ == text@,
            i <= cs@.len(),
            cur@.len() > 0 <==> (i > 0 && !is_unicode_whitespace(cs@[i - 1])),
            ({
                let w = words(cs@.take(i as int));
                if cur@.len() > 0 {
                    &&& w.len() == ws@.len() + 1
                    &&& w.last() == cur@
                    &&& forall|k: int| 0 <= k < ws@.len() ==> (#[trigger] ws@[k])@ == w[k]
                } else {
                    &&& w.len() == ws@.len()
                    &&& forall|k: int| 0 <= k < ws@.len() ==> (#[trigger] ws@[k])@ == w[k]
                }
            }),
        decreases cs@.len() - i,
    {
        let c = cs[i];
        let ghost prev = cs@.take(i as int);
        let ghost next = cs@.take(i + 1);
        assert(next.drop_last() =~= prev);
        assert(next.last() == c);
        if i >= 1 {
            assert(next[next.len() - 2] == cs@[i - 1]);
        }
        if crate::text::is_whitespace(c) {
            if cur.len() > 0 {
                let mut done = Vec::new();
                std::mem::swap(&mut done, &mut cur);
                ws.push(done);
            }
        } else {
            if cur.len() == 0 {
                proof {
                    lemma_words_nonempty(next);
                }
            }
            cur.push(c);
        }
        i = i + 1;
    }
    if cur.len() > 0 {
        ws.push(cur);
    }
    assert(cs@.take(cs@.len() as int) =~= cs@);
    ws
}

/// Parse whitespace-separated hexadecimal bytes (each word may carry
/// `0x` prefixes); `None` if a word is not a byte.
pub fn parse_hex_bytes(text: &str) -> (r: Option<Vec<u8>>)
    ensures
        match r {
            Some(v) => hex_bytes_spec(words(text@)) == Some(v@),
            None => hex_bytes_spec(words(text@)) is None,
        },
{
    let ws = split_words(text);
    let ghost all = words(text@);
    let mut out: Vec<u8> = Vec::new();
    let mut i: usize = 0;
    while i < ws.len()
        invariant
            all == words(text@),
            ws@.len() == all.len(),
            forall|k: int| 0 <= k < ws@.len() ==> (#[trigger] ws@[k])@ == all[k],
            i <= ws@.len(),
            hex_bytes_spec(all.take(i as int)) == Some(out@),
        decreases ws@.len() - i,
    {
        assert(all.take(i + 1).drop_last() =~= all.take(i as int));
        assert(all.take(i + 1).last() == ws@[i as int]@);
        let digits = strip_hex_prefix_chars(ws[i].as_slice(), 'x');
        match parse_hex(digits.as_slice(), 0xFF) {
            Some(b) => {
                out.push(b as u8);
            },
            None => {
                proof {
                    let t = all.take(i + 1);
                    assert(t.last() == all[i as int]);
                    assert(parse_hex_spec(strip_hex_prefix(t.last(), 'x'), 0xFF) is None);
                    assert(hex_bytes_spec(t) is None);
                    lemma_hex_bytes_stays_none(all, i as int + 1);
                }
                return None;
            },
        }
        i = i + 1;
    }
    assert(all.take(all.len() as int) =~= all);
    Some(out)
}

proof fn lemma_hex_bytes_stays_none(ws: Seq<Seq<char>>, k: int)
    requires
        0 <= k <= ws.len(),
        hex_bytes_spec(ws.take(k)) is None,
    ensures
        hex_bytes_spec(ws) is None,
    decreases ws.len() - k,
{
    if k < ws.len() {
        assert(ws.take(k + 1).drop_last() =~= ws.take(k));
        lemma_hex_bytes_stays_none(ws, k + 1);
    } else {
        assert(ws.take(k) =~= ws);
    }
}

/// A setting the `get` command reads.
#[derive(Debug, Clone, Copy, PartialEq, Eq, Structural)]
pub enum GetSetting {
    Battery,
    Dpi,
    SmartShift,
    Wheel,
    Thumbwheel,
    Host,
    Firmware,
    Buttons,
}

/// The setting a `get` argument names (`fw` is short for `firmware`).
pub open spec fn get_setting_of(s: Seq<char>) -> Option<GetSetting> {
    if s == "battery"@ {
        Some(GetSetting::Battery)
    } else if s == "dpi"@ {
        Some(GetSetting::Dpi)
    } else if s == "smartshift"@ {
        Some(GetSetting::SmartShift)
    } else if s == "wheel"@ {
        Some(GetSetting::Wheel)
    } else if s == "thumbwheel"@ {
        Some(GetSetting::Thumbwheel)
    } else if s == "host"@ {
        Some(GetSetting::Host)
    } else if s == "firmware"@ || s == "fw"@ {
        Some(GetSetting::Firmware)
    } else if s == "buttons"@ {
        Some(GetSetting::Buttons)
    } else {
        None
    }
}

/// The setting a `get` argument names.
pub fn parse_get_setting(s: &str) -> (r: Option<GetSetting>)
    ensures
        r == get_setting_of(s@),
{
    if str_eq(s, "battery") {
        Some(GetSetting::Battery)
    } else if str_eq(s, "dpi") {
        Some(GetSetting::Dpi)
    } else if str_eq(s, "smartshift") {
        Some(GetSetting::SmartShift)
    } else if str_eq(s, "wheel") {
        Some(GetSetting::Wheel)
    } else if str_eq(s, "thumbwheel") {
        Some(GetSetting::Thumbwheel)
    } else if str_eq(s, "host") {
        Some(GetSetting::Host)
    } else if str_eq(s, "firmware") || str_eq(s, "fw") {
        Some(GetSetting::Firmware)
    } else if str_eq(s, "buttons") {
        Some(GetSetting::Buttons)
    } else {
        None
    }
}

/// A setting the `set` command writes.
#[derive(Debug, Clone, Copy, PartialEq, Eq, Structural)]
pub enum SetSetting {
    Dpi,
    SmartShift,
    Wheel,
}

/// The setting a `set` argument names.
pub open spec fn set_setting_of(s: Seq<char>) -> Option<SetSetting> {
    if s == "dpi"@ {
        Some(SetSetting::Dpi)
    } else if s == "smartshift"@ {
        Some(SetSetting::SmartShift)
    } else if s == "wheel"@ {
        Some(SetSetting::Wheel)
    } else {
        None
    }
}

/// The setting a `set` argument names.
pub fn parse_set_setting(s: &str) -> (r: Option<SetSetting>)
    ensures
        r == set_setting_of(s@),
{
    if str_eq(s, "dpi") {
        Some(SetSetting::Dpi)
    } else if str_eq(s, "smartshift") {
        Some(SetSetting::SmartShift)
    } else if str_eq(s, "wheel") {
        Some(SetSetting::Wheel)
    } else {
        None
    }
}

/// The DPI a `set dpi` value asks for (a decimal `u16`).
pub fn parse_dpi_value(value: &str) -> (r: Option<u16>)
    ensures
        r == parse_u16_spec(value@),
{
    parse_u16(value)
}

/// The SmartShift state a `set smartshift` value makes of the current
/// one: `free`/`freespin` or `ratchet` set the mode, a decimal byte sets
/// the auto-disengage threshold; anything else is refused.
pub open spec fn smart_shift_setting(state: SmartShiftState, value: Seq<char>) -> Option<SmartShiftState> {
    if value == "free"@ || value == "freespin"@ {
        Some(SmartShiftState { mode: WheelMode::FreeScroll, ..state })
    } else if value == "ratchet"@ {
        Some(SmartShiftState { mode: WheelMode::Ratchet, ..state })
    } else {
        match parse_u16_spec(value) {
            Some(v) => if v <= 255 {
                Some(SmartShiftState { auto_disengage: v as u8, ..state })
            } else {
                None
            },
            None => None,
        }
    }
}

/// A `set smartshift` value changes one thing: `free`/`freespin` and
/// `ratchet` set the mode and keep the threshold; any other accepted
/// value is a decimal byte that sets the threshold and keeps the mode.
/// The tunable torque is never changed.
pub proof fn lemma_smart_shift_setting(state: SmartShiftState, value: Seq<char>)
    ensures
        smart_shift_setting(state, value) matches Some(s) ==> s.tunable_torque == state.tunable_torque,
        (value == "free"@ || value == "freespin"@) ==> smart_shift_setting(state, value) == Some(
            (SmartShiftState {
                mode: WheelMode::FreeScroll,
                auto_disengage: state.auto_disengage,
                tunable_torque: state.tunable_torque,
            }),
        ),
        value == "ratchet"@ ==> smart_shift_setting(state, value) == Some(
            (SmartShiftState {
                mode: WheelMode::Ratchet,
                auto_disengage: state.auto_disengage,
                tunable_torque: state.tunable_torque,
            }),
        ),
        value != "free"@ && value != "freespin"@ && value != "ratchet"@ ==> (smart_shift_setting(
            state,
            value,
        ) matches Some(s) ==> s.mode == state.mode && parse_u16_spec(value) == Some(
            s.auto_disengage as u16,
        )),
        value != "free"@ && value != "freespin"@ && value != "ratchet"@ ==> (smart_shift_setting(
            state,
            value,
        ) is Some <==> (parse_u16_spec(value) matches Some(v) && v <= 255)),
{
    reveal_strlit("free");
    reveal_strlit("freespin");
    reveal_strlit("ratchet");
}

/// Apply a `set smartshift` value to the current state.
pub fn apply_smart_shift_value(state: &SmartShiftState, value: &str) -> (r: Option<SmartShiftState>)
    ensures
        r == smart_shift_setting(*state, value@),
        r matches Some(s) ==> s.tunable_torque == state.tunable_torque,
        (value@ == "free"@ || value@ == "freespin"@) ==> r == Some(
            (SmartShiftState {
                mode: WheelMode::FreeScroll,
                auto_disengage: state.auto_disengage,
                tunable_torque: state.tunable_torque,
            }),
        ),
        value@ == "ratchet"@ ==> r == Some(
            (SmartShiftState {
                mode: WheelMode::Ratchet,
                auto_disengage: state.auto_disengage,
                tunable_torque: state.tunable_torque,
            }),
        ),
        value@ != "free"@ && value@ != "freespin"@ && value@ != "ratchet"@ ==> (r matches Some(s)
            ==> s.mode == state.mode && parse_u16_spec(value@) == Some(s.auto_disengage as u16)),
{
    proof {
        lemma_smart_shift_setting(*state, value@);
    }
    if str_eq(value, "free") || str_eq(value, "freespin") {
        Some(SmartShiftState { mode: WheelMode::FreeScroll, auto_disengage: state.auto_disengage, tunable_torque: state.tunable_torque })
    } else if str_eq(value, "ratchet") {
        Some(SmartShiftState { mode: WheelMode::Ratchet, auto_disengage: state.auto_disengage, tunable_torque: state.tunable_torque })
    } else {
        match parse_u16(value) {
            Some(v) => if v <= 255 {
                Some(SmartShiftState { mode: state.mode, auto_disengage: v as u8, tunable_torque: state.tunable_torque })
            } else {
                None
            },
            None => None,
        }
    }
}

/// The wheel mode a `set wheel` value makes of the current one: `hires`
/// and `lowres` switch high resolution on and off, `invert` flips the
/// direction; anything else is refused.
pub open spec fn wheel_setting(mode: hires_wheel::WheelMode, value: Seq<char>) -> Option<hires_wheel::WheelMode> {
    if value == "hires"@ {
        Some(hires_wheel::WheelMode { high_resolution: true, ..mode })
    } else if value == "lowres"@ {
        Some(hires_wheel::WheelMode { high_resolution: false, ..mode })
    } else if value == "invert"@ {
        Some(hires_wheel::WheelMode { inverted: !mode.inverted, ..mode })
    } else {
        None
    }
}

/// Apply a `set wheel` value to the current mode.
pub fn apply_wheel_value(mode: &hires_wheel::WheelMode, value: &str) -> (r: Option<hires_wheel::WheelMode>)
    ensures
        r == wheel_setting(*mode, value@),
{
    let mut m = hires_wheel::WheelMode {
        diverted: mode.diverted,
        high_resolution: mode.high_resolution,
        inverted: mode.inverted,
        analytics: mode.analytics,
        priority: mode.priority,
        rate: mode.rate,
    };
    if str_eq(value, "hires") {
        m.high_resolution = true;
    } else if str_eq(value, "lowres") {
        m.high_resolution = false;
    } else if str_eq(value, "invert") {
        m.inverted = !m.inverted;
    } else {
        return None;
    }
    Some(m)
}

/// Each `get` and `set` argument names its own setting.
pub proof fn lemma_setting_names()
    ensures
        get_setting_of("battery"@) == Some(GetSetting::Battery),
        get_setting_of("dpi"@) == Some(GetSetting::Dpi),
        get_setting_of("smartshift"@) == Some(GetSetting::SmartShift),
        get_setting_of("wheel"@) == Some(GetSetting::Wheel),
        get_setting_of("thumbwheel"@) == Some(GetSetting::Thumbwheel),
        get_setting_of("host"@) == Some(GetSetting::Host),
        get_setting_of("firmware"@) == Some(GetSetting::Firmware),
        get_setting_of("fw"@) == Some(GetSetting::Firmware),
        get_setting_of("buttons"@) == Some(GetSetting::Buttons),
        set_setting_of("dpi"@) == Some(SetSetting::Dpi),
        set_setting_of("smartshift"@) == Some(SetSetting::SmartShift),
        set_setting_of("wheel"@) == Some(SetSetting::Wheel),
{
    reveal_strlit("battery");
    reveal_strlit("dpi");
    reveal_strlit("smartshift");
    reveal_strlit("wheel");
    reveal_strlit("thumbwheel");
    reveal_strlit("host");
    reveal_strlit("firmware");
    reveal_strlit("fw");
    reveal_strlit("buttons");
    assert("battery"@.len() == 7);
    assert("dpi"@.len() == 3);
    assert("smartshift"@.len() == 10);
    assert("wheel"@.len() == 5);
    assert("thumbwheel"@.len() == 10);
    assert("host"@.len() == 4);
    assert("firmware"@.len() == 8);
    assert("fw"@.len() == 2);
    assert("buttons"@.len() == 7);
    assert("battery"@[1] != "buttons"@[1]);
    assert("smartshift"@[0] != "thumbwheel"@[0]);
}

} // verus!
