//! What the daemon does with a notification from the device: diverted
//! button presses and releases, rawXY motion and battery changes.
use vstd::prelude::*;
use vstd::std_specs::hash::spec_keys_iter;
use vstd::std_specs::iter::IteratorSpec;

use crate::daemon::config::{Action, Config, GestureConfig};
use crate::daemon::gesture::{
    fresh_gesture, gesture_after_xy, resolve_gesture, xy_fits, ActiveGesture, GestureDirection,
    GestureResult, GestureTracker,
};
use crate::report::{be_u16, read_be_u16};
use crate::text::{append_str, contains_str, contains_text, hex_digit_char, hex_text, push_char};

verus! {

broadcast use {vstd::std_specs::hash::group_hash_axioms, vstd::seq_lib::group_seq_properties};

/// Feature ID of SpecialKeys v4, whose notifications carry diverted
/// button presses (function 0) and rawXY motion (function 1).
pub const SPECIAL_KEYS_FEATURE: u16 = 0x1B04;

/// Feature ID of UnifiedBattery, whose function-0 notification carries a
/// battery status change.
pub const UNIFIED_BATTERY_FEATURE: u16 = 0x1004;

/// What a notification asks of the rawXY validation deadline.
#[derive(Debug, Clone, Copy, PartialEq, Eq, Structural)]
pub enum DeadlineUpdate {
    /// A gesture button was pressed: arm the validation window.
    Arm,
    /// rawXY arrived or the buttons were released: clear the window.
    Clear,
}

/// One thing a notification asks the daemon to do.
#[derive(Debug, Clone, Copy)]
pub enum Reaction<'a> {
    /// A held gesture button was released and resolved to `result`; run
    /// `action` if one is mapped to it.
    Gesture { cid: u16, result: GestureResult, action: Option<&'a Action> },
    /// A diverted button was pressed; run its action.
    Button { cid: u16, action: &'a Action },
    /// The battery status changed.
    Battery { percentage: u8, charging: bool },
    /// The notification is not one the daemon acts on.
    Unhandled,
}

/// The CIDs listed in a press/release notification from byte `i` on:
/// big-endian pairs up to the first zero CID or the end of the parameters.
pub open spec fn listed_cids(params: Seq<u8>, i: int) -> Seq<u16>
    decreases params.len() - i,
{
    if i < 0 || i + 1 >= params.len() {
        Seq::empty()
    } else if be_u16(params[i], params[i + 1]) == 0 {
        Seq::empty()
    } else {
        seq![be_u16(params[i], params[i + 1])] + listed_cids(params, i + 2)
    }
}

/// A signed rawXY displacement from two big-endian bytes.
pub open spec fn xy_delta(hi: u8, lo: u8) -> i16 {
    be_u16(hi, lo) as i16
}

/// The action a gesture configuration maps a resolved gesture to.
pub open spec fn gesture_action(g: GestureConfig, r: GestureResult) -> Option<Action> {
    match r {
        GestureResult::Direction(GestureDirection::Up) => g.up,
        GestureResult::Direction(GestureDirection::Down) => g.down,
        GestureResult::Direction(GestureDirection::Left) => g.left,
        GestureResult::Direction(GestureDirection::Right) => g.right,
        GestureResult::Tap => g.tap,
    }
}

/// The action an optional reference points to.
pub open spec fn deref_action(a: Option<&Action>) -> Option<Action> {
    match a {
        Some(x) => Some(*x),
        None => None,
    }
}

/// The CID a reaction concerns (zero for battery and unhandled ones).
pub open spec fn reaction_cid(r: Reaction) -> u16 {
    match r {
        Reaction::Gesture { cid, .. } => cid,
        Reaction::Button { cid, .. } => cid,
        _ => 0,
    }
}

/// The CIDs of a list of reactions, in order.
pub open spec fn reaction_cids(rs: Seq<Reaction>) -> Seq<u16> {
    rs.map_values(|r: Reaction| reaction_cid(r))
}

/// Whether `r` is the release of a gesture button held in `held` and
/// configured in `cfg`: its resolved gesture and the action mapped to it.
pub open spec fn is_release_reaction(r: Reaction, cfg: &Config, held: Map<u16, ActiveGesture>) -> bool {
    match r {
        Reaction::Gesture { cid, result, action } => {
            &&& held.contains_key(cid)
            &&& cfg.gestures@.contains_key(cid)
            &&& result == resolve_gesture(
                held[cid].dx,
                held[cid].dy,
                cfg.gestures@[cid].threshold,
            )
            &&& deref_action(action) == gesture_action(cfg.gestures@[cid], result)
        },
        _ => false,
    }
}

/// The held gestures after the buttons `cids` are pressed in order: each
/// gesture button among them starts over.
pub open spec fn pressed_state(held: Map<u16, ActiveGesture>, cids: Seq<u16>, gesture_cids: Set<u16>) -> Map<
    u16,
    ActiveGesture,
>
    decreases cids.len(),
{
    if cids.len() == 0 {
        held
    } else {
        let before = pressed_state(held, cids.drop_last(), gesture_cids);
        if gesture_cids.contains(cids.last()) {
            before.insert(cids.last(), fresh_gesture())
        } else {
            before
        }
    }
}

/// The pressed CIDs, in order, that are plain buttons: mapped in
/// `buttons` and not gesture buttons.
pub open spec fn pressed_buttons(cids: Seq<u16>, buttons: Set<u16>, gesture_cids: Set<u16>) -> Seq<u16>
    decreases cids.len(),
{
    if cids.len() == 0 {
        Seq::empty()
    } else {
        let before = pressed_buttons(cids.drop_last(), buttons, gesture_cids);
        if !gesture_cids.contains(cids.last()) && buttons.contains(cids.last()) {
            before.push(cids.last())
        } else {
            before
        }
    }
}

/// Whether the reactions are exactly the presses of the plain buttons
/// among `cids`, in order, each with its mapped action.
pub open spec fn button_reactions(rs: Seq<Reaction>, cfg: &Config, cids: Seq<u16>) -> bool {
    let pb = pressed_buttons(cids, cfg.buttons@.dom(), cfg.gestures@.dom());
    &&& rs.len() == pb.len()
    &&& forall|i: int|
        0 <= i < rs.len() ==> match #[trigger] rs[i] {
            Reaction::Button { cid, action } => cid == pb[i] && *action == cfg.buttons@[cid],
            _ => false,
        }
}

/// Whether a notification can be handled without leaving the `i32`
/// range: a release needs every configured held gesture to have a
/// displacement whose absolute value fits, a rawXY event needs every
/// held gesture to take the motion.
pub open spec fn notification_allowed(
    held: Map<u16, ActiveGesture>,
    cfg: &Config,
    feature_id: u16,
    function: u8,
    params: Seq<u8>,
) -> bool {
    if feature_id == SPECIAL_KEYS_FEATURE && function == 0 && listed_cids(params, 0).len() == 0 {
        forall|c: u16|
            #[trigger] held.contains_key(c) && cfg.gestures@.contains_key(c) ==> held[c].dx
                != i32::MIN && held[c].dy != i32::MIN
    } else if feature_id == SPECIAL_KEYS_FEATURE && function == 1 && params.len() >= 4 {
        forall|c: u16|
            #[trigger] held.contains_key(c) ==> xy_fits(
                held[c],
                xy_delta(params[0], params[1]),
                xy_delta(params[2], params[3]),
            )
    } else {
        true
    }
}

/// The CIDs a press/release notification lists.
pub fn pressed_cids(params: &[u8]) -> (cids: Vec<u16>)
    ensures
        cids@ == listed_cids(params@, 0),
{
    let mut cids: Vec<u16> = Vec::new();
    let mut i: usize = 0;
    while i + 1 < params.len()
        invariant
            i % 2 == 0,
            i <= params@.len() + 1,
            cids@ + listed_cids(params@, i as int) == listed_cids(params@, 0),
        decreases params@.len() - i,
    {
        let cid = read_be_u16(params[i], params[i + 1]);
        if cid == 0 {
            assert(listed_cids(params@, i as int) =~= Seq::<u16>::empty());
            assert(cids@ =~= cids@ + listed_cids(params@, i as int));
            return cids;
        }
        let ghost before = cids@;
        cids.push(cid);
        assert(before + listed_cids(params@, i as int) =~= cids@ + listed_cids(
            params@,
            i + 2,
        ));
        i = i + 2;
    }
    assert(listed_cids(params@, i as int) =~= Seq::<u16>::empty());
    assert(cids@ =~= cids@ + listed_cids(params@, i as int));
    cids
}

/// Whether `handle_notification` can take this notification (see
/// `notification_allowed`).
pub fn can_handle(
    gestures: &GestureTracker,
    cfg: &Config,
    feature_id: u16,
    function: u8,
    params: &[u8],
) -> (b: bool)
    ensures
        b == notification_allowed(gestures@, cfg, feature_id, function, params@),
{
    if feature_id == SPECIAL_KEYS_FEATURE && function == 0 {
        let cids = pressed_cids(params);
        if cids.len() == 0 {
            return releasable_configured(gestures, cfg);
        }
        return true;
    }
    if feature_id == SPECIAL_KEYS_FEATURE && function == 1 && params.len() >= 4 {
        let dx = read_be_u16(params[0], params[1]) as i16;
        let dy = read_be_u16(params[2], params[3]) as i16;
        return gestures.accepts_xy(dx, dy);
    }
    true
}

fn releasable_configured(gestures: &GestureTracker, cfg: &Config) -> (b: bool)
    ensures
        b == (forall|c: u16|
            #[trigger] gestures@.contains_key(c) && cfg.gestures@.contains_key(c) ==> gestures@[c].dx
                != i32::MIN && gestures@[c].dy != i32::MIN),
{
    let ghost keys = spec_keys_iter(&cfg.gestures).remaining().unref();
    for k in it: cfg.gestures.keys()
        invariant
            it.seq().unref() == keys,
            keys.to_set() == cfg.gestures@.dom(),
            forall|j: int|
                0 <= j < it.index() && #[trigger] gestures@.contains_key(keys[j]) ==> gestures@[keys[j]].dx
                    != i32::MIN && gestures@[keys[j]].dy != i32::MIN,
    {
        let ghost j = it.index();
        match gestures.held(*k) {
            Some(g) => {
                if g.dx == i32::MIN || g.dy == i32::MIN {
                    assert(keys.to_set().contains(keys[j]));
                    return false;
                }
            },
            None => {},
        }
    }
    assert forall|c: u16| #[trigger] gestures@.contains_key(c) && cfg.gestures@.contains_key(c) implies gestures@[c].dx
        != i32::MIN && gestures@[c].dy != i32::MIN by {
        assert(keys.to_set().contains(c));
        let j = choose|j: int| 0 <= j < keys.len() && keys[j] == c;
        assert(gestures@.contains_key(keys[j]));
    }
    true
}

/// The action a gesture configuration maps a resolved gesture to.
pub fn action_for<'a>(g: &'a GestureConfig, r: GestureResult) -> (a: Option<&'a Action>)
    ensures
        deref_action(a) == gesture_action(*g, r),
        r == GestureResult::Direction(GestureDirection::Up) ==> deref_action(a) == g.up,
        r == GestureResult::Direction(GestureDirection::Down) ==> deref_action(a) == g.down,
        r == GestureResult::Direction(GestureDirection::Left) ==> deref_action(a) == g.left,
        r == GestureResult::Direction(GestureDirection::Right) ==> deref_action(a) == g.right,
        r == GestureResult::Tap ==> deref_action(a) == g.tap,
{
    let slot = match r {
        GestureResult::Direction(GestureDirection::Up) => &g.up,
        GestureResult::Direction(GestureDirection::Down) => &g.down,
        GestureResult::Direction(GestureDirection::Left) => &g.left,
        GestureResult::Direction(GestureDirection::Right) => &g.right,
        GestureResult::Tap => &g.tap,
    };
    match slot {
        Some(action) => Some(action),
        None => None,
    }
}

fn release_all<'a>(cfg: &'a Config, gestures: &mut GestureTracker) -> (rs: Vec<Reaction<'a>>)
    requires
        forall|c: u16|
            #[trigger] old(gestures)@.contains_key(c) && cfg.gestures@.contains_key(c) ==> old(
                gestures,
            )@[c].dx != i32::MIN && old(gestures)@[c].dy != i32::MIN,
    ensures
        final(gestures)@ == old(gestures)@.remove_keys(cfg.gestures@.dom()),
        forall|i: int| 0 <= i < rs@.len() ==> is_release_reaction(#[trigger] rs@[i], cfg, old(gestures)@),
        reaction_cids(rs@).no_duplicates(),
        reaction_cids(rs@).to_set() == old(gestures)@.dom().intersect(cfg.gestures@.dom()),
{
    let ghost held = gestures@;
    let ghost keys = spec_keys_iter(&cfg.gestures).remaining().unref();
    let mut reactions: Vec<Reaction<'a>> = Vec::new();
    for k in it: cfg.gestures.keys()
        invariant
            it.seq().unref() == keys,
            keys.to_set() == cfg.gestures@.dom(),
            keys.no_duplicates(),
            gestures@ == held.remove_keys(keys.take(it.index() as int).to_set()),
            forall|c: u16|
                #[trigger] held.contains_key(c) && cfg.gestures@.contains_key(c) ==> held[c].dx
                    != i32::MIN && held[c].dy != i32::MIN,
            forall|i: int| 0 <= i < reactions@.len() ==> is_release_reaction(#[trigger] reactions@[i], cfg, held),
            reaction_cids(reactions@).no_duplicates(),
            forall|c: u16|
                #[trigger] reaction_cids(reactions@).contains(c) <==> (keys.take(
                    it.index() as int,
                ).contains(c) && held.contains_key(c)),
    {
        let ghost idx = it.index() as int;
        let cid = *k;
        assert(keys.take(idx + 1) =~= keys.take(idx).push(cid));
        assert(keys.to_set().contains(cid));
        assert(!keys.take(idx).contains(cid)) by {
            if keys.take(idx).contains(cid) {
                let j = choose|j: int| 0 <= j < idx && keys.take(idx)[j] == cid;
                assert(keys[j] == keys[idx]);
            }
        }
        assert(keys.take(idx + 1).to_set() =~= keys.take(idx).to_set().insert(cid));
        assert(held.remove_keys(keys.take(idx + 1).to_set()) =~= held.remove_keys(
            keys.take(idx).to_set(),
        ).remove(cid));
        match cfg.gestures.get(&cid) {
            Some(g) => {
                let ghost before = reactions@;
                match gestures.button_released(cid, g.threshold) {
                    Some(result) => {
                        let action = action_for(g, result);
                        reactions.push(Reaction::Gesture { cid, result, action });
                        assert(reaction_cids(reactions@) =~= reaction_cids(before).push(cid));
                        assert(is_release_reaction(reactions@[before.len() as int], cfg, held));
                        assert forall|i: int| 0 <= i < reactions@.len() implies is_release_reaction(
                            #[trigger] reactions@[i],
                            cfg,
                            held,
                        ) by {
                            if i < before.len() {
                                assert(reactions@[i] == before[i]);
                            }
                        }
                        assert(reaction_cids(reactions@).no_duplicates()) by {
                            assert forall|a: int, b: int|
                                0 <= a < b < reaction_cids(reactions@).len() implies reaction_cids(
                                    reactions@,
                                )[a] != reaction_cids(reactions@)[b] by {
                                if b == before.len() {
                                    assert(reaction_cids(before).contains(reaction_cids(before)[a]));
                                } else {
                                    assert(reaction_cids(before)[a] != reaction_cids(before)[b]);
                                }
                            }
                        }
                    },
                    None => {},
                }
            },
            None => {},
        }
    }
    assert(keys.take(keys.len() as int) =~= keys);
    assert(reaction_cids(reactions@).to_set() =~= held.dom().intersect(cfg.gestures@.dom()));
    reactions
}

fn press_all<'a>(cfg: &'a Config, gestures: &mut GestureTracker, cids: &Vec<u16>) -> (out: (
    Vec<Reaction<'a>>,
    bool,
))
    ensures
        final(gestures)@ == pressed_state(old(gestures)@, cids@, cfg.gestures@.dom()),
        button_reactions(out.0@, cfg, cids@),
        out.1 == exists|j: int| 0 <= j < cids@.len() && cfg.gestures@.contains_key(#[trigger] cids@[j]),
{
    let ghost held = gestures@;
    let mut reactions: Vec<Reaction<'a>> = Vec::new();
    let mut arm = false;
    let mut i: usize = 0;
    while i < cids.len()
        invariant
            i <= cids@.len(),
            gestures@ == pressed_state(held, cids@.take(i as int), cfg.gestures@.dom()),
            button_reactions(reactions@, cfg, cids@.take(i as int)),
            arm == exists|j: int| 0 <= j < i && cfg.gestures@.contains_key(#[trigger] cids@[j]),
        decreases cids@.len() - i,
    {
        let cid = cids[i];
        let ghost before = reactions@;
        let ghost pb = pressed_buttons(cids@.take(i as int), cfg.buttons@.dom(), cfg.gestures@.dom());
        assert(cids@.take(i + 1).drop_last() =~= cids@.take(i as int));
        assert(cids@.take(i + 1).last() == cid);
        if cfg.is_gesture_cid(cid) {
            gestures.button_pressed(cid);
            arm = true;
        } else {
            match cfg.buttons.get(&cid) {
                Some(action) => {
                    reactions.push(Reaction::Button { cid, action });
                    let ghost pb2 = pressed_buttons(cids@.take(i + 1), cfg.buttons@.dom(), cfg.gestures@.dom());
                    assert(pb2 == pb.push(cid));
                    assert forall|k: int| 0 <= k < reactions@.len() implies match #[trigger] reactions@[k] {
                        Reaction::Button { cid, action } => cid == pb2[k] && *action == cfg.buttons@[cid],
                        _ => false,
                    } by {
                        if k < before.len() {
                            assert(reactions@[k] == before[k]);
                        }
                    }
                },
                None => {},
            }
        }
        i = i + 1;
    }
    assert(cids@.take(cids@.len() as int) =~= cids@);
    (reactions, arm)
}

/// Handle a notification from the device (feature `feature_id`, function
/// `function`, parameters `params`):
/// - SpecialKeys function 0 lists the buttons now held. An empty list
///   means every button was released: each configured gesture button that
///   was held resolves its gesture, and the rawXY deadline is cleared.
///   Otherwise each listed gesture button starts a new gesture (arming
///   the deadline) and each listed plain button runs its action.
/// - SpecialKeys function 1 with at least 4 bytes is rawXY motion, fed to
///   every held gesture; it clears the deadline.
/// - UnifiedBattery function 0 with at least 3 bytes is a battery change:
///   percentage in byte 0, charging when byte 2 is nonzero.
/// - Anything else is not acted on.
pub fn handle_notification<'a>(
    feature_id: u16,
    function: u8,
    params: &[u8],
    cfg: &'a Config,
    gestures: &mut GestureTracker,
) -> (out: (Vec<Reaction<'a>>, Option<DeadlineUpdate>))
    requires
        notification_allowed(old(gestures)@, cfg, feature_id, function, params@),
    ensures
        ({
            let held = old(gestures)@;
            let cids = listed_cids(params@, 0);
            if feature_id == SPECIAL_KEYS_FEATURE && function == 0 {
                if cids.len() == 0 {
                    &&& final(gestures)@ == held.remove_keys(cfg.gestures@.dom())
                    &&& forall|i: int|
                        0 <= i < out.0@.len() ==> is_release_reaction(#[trigger] out.0@[i], cfg, held)
                    &&& reaction_cids(out.0@).no_duplicates()
                    &&& reaction_cids(out.0@).to_set() == held.dom().intersect(cfg.gestures@.dom())
                    &&& out.1 == Some(DeadlineUpdate::Clear)
                } else {
                    &&& final(gestures)@ == pressed_state(held, cids, cfg.gestures@.dom())
                    &&& button_reactions(out.0@, cfg, cids)
                    &&& out.1 == (if exists|j: int|
                        0 <= j < cids.len() && cfg.gestures@.contains_key(#[trigger] cids[j]) {
                        Some(DeadlineUpdate::Arm)
                    } else {
                        None
                    })
                }
            } else if feature_id == SPECIAL_KEYS_FEATURE && function == 1 && params@.len() >= 4 {
                &&& final(gestures)@.dom() == held.dom()
                &&& forall|c: u16|
                    #[trigger] held.contains_key(c) ==> final(gestures)@[c] == gesture_after_xy(
                        held[c],
                        xy_delta(params@[0], params@[1]),
                        xy_delta(params@[2], params@[3]),
                    )
                &&& out.0@.len() == 0
                &&& out.1 == Some(DeadlineUpdate::Clear)
            } else if feature_id == UNIFIED_BATTERY_FEATURE && function == 0 && params@.len() >= 3 {
                &&& final(gestures)@ == held
                &&& out.0@.len() == 1
                &&& out.0@[0] matches Reaction::Battery { percentage, charging } && percentage
                    == params@[0] && charging == (params@[2] != 0)
                &&& out.1 is None
            } else {
                &&& final(gestures)@ == held
                &&& out.0@.len() == 1
                &&& out.0@[0] is Unhandled
                &&& out.1 is None
            }
        }),
{
    if feature_id == SPECIAL_KEYS_FEATURE && function == 0 {
        let cids = pressed_cids(params);
        if cids.len() == 0 {
            let reactions = release_all(cfg, gestures);
            return (reactions, Some(DeadlineUpdate::Clear));
        }
        let (reactions, arm) = press_all(cfg, gestures, &cids);
        let deadline = if arm {
            Some(DeadlineUpdate::Arm)
        } else {
            None
        };
        return (reactions, deadline);
    }
    if feature_id == SPECIAL_KEYS_FEATURE && function == 1 && params.len() >= 4 {
        let dx = read_be_u16(params[0], params[1]) as i16;
        let dy = read_be_u16(params[2], params[3]) as i16;
        gestures.feed_raw_xy(dx, dy);
        return (Vec::new(), Some(DeadlineUpdate::Clear));
    }
    if feature_id == UNIFIED_BATTERY_FEATURE && function == 0 && params.len() >= 3 {
        let mut reactions = Vec::new();
        reactions.push(Reaction::Battery { percentage: params[0], charging: params[2] != 0 });
        return (reactions, None);
    }
    let mut reactions = Vec::new();
    reactions.push(Reaction::Unhandled);
    (reactions, None)
}

/// The message shown to the user for a connection error whose text is
/// `text`.
pub open spec fn error_message(text: Seq<char>) -> Seq<char> {
    if contains_text(text, "no HID++"@) {
        "No device found"@
    } else if contains_text(text, "not permitted"@) || contains_text(text, "IOHIDDevice"@) {
        "Grant Input Monitoring in System Settings"@
    } else if contains_text(text, "PingFailed"@) {
        "Device not responding"@
    } else {
        "Connection failed"@
    }
}

/// Map the text of a connection error to a user-facing message.
pub fn classify_error(text: &str) -> (m: &'static str)
    ensures
        m@ == error_message(text@),
{
    if contains_str(text, "no HID++") {
        "No device found"
    } else if contains_str(text, "not permitted") || contains_str(text, "IOHIDDevice") {
        "Grant Input Monitoring in System Settings"
    } else if contains_str(text, "PingFailed") {
        "Device not responding"
    } else {
        "Connection failed"
    }
}

/// The first 8 parameter bytes (fewer if there are fewer) in hexadecimal,
/// separated by spaces.
pub fn format_hex(params: &[u8]) -> (s: String)
    ensures
        s@ == hex_text(params@.take(if params@.len() < 8 { params@.len() as int } else { 8 })),
{
    let n: usize = if params.len() < 8 {
        params.len()
    } else {
        8
    };
    let mut out = String::new();
    let mut i: usize = 0;
    while i < n
        invariant
            n <= params@.len(),
            n <= 8,
            i <= n,
            out@ == hex_text(params@.take(i as int)),
        decreases n - i,
    {
        let b = params[i];
        if i > 0 {
            push_char(&mut out, ' ');
        }
        push_char(&mut out, hex_digit_char(b / 16));
        push_char(&mut out, hex_digit_char(b % 16));
        assert(params@.take(i + 1).drop_last() =~= params@.take(i as int));
        assert(out@ =~= hex_text(params@.take(i + 1)));
        i = i + 1;
    }
    out
}

/// How an action is described in the log and the menu bar: its
/// keystroke or its command.
pub open spec fn action_text(a: Action) -> Seq<char> {
    match a.spec_keystroke() {
        Some(k) => k,
        None => match a.spec_command() {
            Some(c) => c,
            None => "?"@,
        },
    }
}

/// Get a short description of an action.
pub fn action_description(action: &Action) -> (s: &str)
    ensures
        s@ == action_text(*action),
{
    match action.keystroke() {
        Some(k) => k,
        None => match action.command() {
            Some(c) => c,
            None => "?",
        },
    }
}

/// How a resolved gesture is described.
pub open spec fn gesture_text(r: GestureResult) -> Seq<char> {
    match r {
        GestureResult::Direction(GestureDirection::Up) => "swipe up"@,
        GestureResult::Direction(GestureDirection::Down) => "swipe down"@,
        GestureResult::Direction(GestureDirection::Left) => "swipe left"@,
        GestureResult::Direction(GestureDirection::Right) => "swipe right"@,
        GestureResult::Tap => "tap"@,
    }
}

/// The line the menu bar shows for a reaction that runs an action: the
/// gesture and its action (`swipe up → ctrl+up`), or the button's action.
pub open spec fn reaction_text(r: Reaction) -> Option<Seq<char>> {
    match r {
        Reaction::Gesture { result, action: Some(a), .. } => Some(
            gesture_text(result) + " → "@ + action_text(*a),
        ),
        Reaction::Button { action, .. } => Some(action_text(*action)),
        _ => None,
    }
}

/// Describe a reaction that runs an action, for the menu bar.
pub fn reaction_summary(r: &Reaction) -> (s: Option<String>)
    ensures
        match (s, reaction_text(*r)) {
            (Some(t), Some(u)) => t@ == u,
            (None, None) => true,
            _ => false,
        },
{
    match r {
        Reaction::Gesture { result, action: Some(a), .. } => {
            let mut t = String::new();
            match result {
                GestureResult::Direction(GestureDirection::Up) => append_str(&mut t, "swipe up"),
                GestureResult::Direction(GestureDirection::Down) => append_str(&mut t, "swipe down"),
                GestureResult::Direction(GestureDirection::Left) => append_str(&mut t, "swipe left"),
                GestureResult::Direction(GestureDirection::Right) => append_str(&mut t, "swipe right"),
                GestureResult::Tap => append_str(&mut t, "tap"),
            }
            append_str(&mut t, " → ");
            append_str(&mut t, action_description(a));
            Some(t)
        },
        Reaction::Button { action, .. } => {
            let mut t = String::new();
            append_str(&mut t, action_description(action));
            Some(t)
        },
        _ => None,
    }
}

/// Each resolved gesture runs the action of its own slot: a swipe up the
/// `up` action, down the `down` action, left the `left` action, right the
/// `right` action, and a tap the `tap` action.
pub proof fn lemma_gesture_slots(g: GestureConfig)
    ensures
        gesture_action(g, GestureResult::Direction(GestureDirection::Up)) == g.up,
        gesture_action(g, GestureResult::Direction(GestureDirection::Down)) == g.down,
        gesture_action(g, GestureResult::Direction(GestureDirection::Left)) == g.left,
        gesture_action(g, GestureResult::Direction(GestureDirection::Right)) == g.right,
        gesture_action(g, GestureResult::Tap) == g.tap,
{
}

/// A resolved gesture is described by its direction, or as a tap; an
/// action by its keystroke text or its command line.
pub proof fn lemma_reaction_words(keys: String, run: String)
    ensures
        gesture_text(GestureResult::Direction(GestureDirection::Up)) == "swipe up"@,
        gesture_text(GestureResult::Direction(GestureDirection::Down)) == "swipe down"@,
        gesture_text(GestureResult::Direction(GestureDirection::Left)) == "swipe left"@,
        gesture_text(GestureResult::Direction(GestureDirection::Right)) == "swipe right"@,
        gesture_text(GestureResult::Tap) == "tap"@,
        action_text(Action::Keystroke(keys)) == keys@,
        action_text(Action::Explicit(crate::daemon::config::ExplicitAction::Keystroke { keys })) == keys@,
        action_text(Action::Explicit(crate::daemon::config::ExplicitAction::Command { run })) == run@,
{
}

} // verus!
