//! Daemon configuration: which diverted buttons and gestures trigger which
//! actions, and the checks a configuration file has to pass.
use std::collections::HashMap;

use vstd::prelude::*;
use vstd::std_specs::hash::spec_keys_iter;
use vstd::std_specs::iter::IteratorSpec;

use crate::text::{parse_u16, parse_u16_spec};

verus! {

broadcast use vstd::std_specs::hash::group_hash_axioms;

/// The text of an optional string slice.
pub open spec fn opt_text(o: Option<&str>) -> Option<Seq<char>> {
    match o {
        Some(s) => Some(s@),
        None => None,
    }
}

/// Explicit action definition.
#[derive(Debug, Clone)]
pub enum ExplicitAction {
    /// Send a keystroke combination.
    Keystroke { keys: String },
    /// Run a shell command.
    Command { run: String },
}

/// An action triggered by a diverted button or gesture.
#[derive(Debug, Clone)]
pub enum Action {
    /// Shorthand: just a keystroke string like "ctrl+left".
    Keystroke(String),
    /// Explicit action with type.
    Explicit(ExplicitAction),
}

impl Action {
    /// The keystroke text of a keystroke action.
    pub open spec fn spec_keystroke(&self) -> Option<Seq<char>> {
        match self {
            Action::Keystroke(s) => Some(s@),
            Action::Explicit(ExplicitAction::Keystroke { keys }) => Some(keys@),
            Action::Explicit(ExplicitAction::Command { .. }) => None,
        }
    }

    /// The command text of a command action.
    pub open spec fn spec_command(&self) -> Option<Seq<char>> {
        match self {
            Action::Explicit(ExplicitAction::Command { run }) => Some(run@),
            _ => None,
        }
    }

    /// The keystroke string if this is a keystroke action.
    pub fn keystroke(&self) -> (k: Option<&str>)
        ensures
            opt_text(k) == self.spec_keystroke(),
    {
        match self {
            Action::Keystroke(s) => Some(s.as_str()),
            Action::Explicit(ExplicitAction::Keystroke { keys }) => Some(keys.as_str()),
            Action::Explicit(ExplicitAction::Command { .. }) => None,
        }
    }

    /// The command string if this is a command action.
    pub fn command(&self) -> (c: Option<&str>)
        ensures
            opt_text(c) == self.spec_command(),
    {
        match self {
            Action::Explicit(ExplicitAction::Command { run }) => Some(run.as_str()),
            _ => None,
        }
    }
}

/// Minimum displacement of a directional gesture unless configured.
pub fn default_threshold() -> (t: i32)
    ensures
        t == 50,
{
    50
}

/// Gesture configuration for a single button.
#[derive(Debug, Clone)]
pub struct GestureConfig {
    pub up: Option<Action>,
    pub down: Option<Action>,
    pub left: Option<Action>,
    pub right: Option<Action>,
    pub tap: Option<Action>,
    /// Minimum accumulated displacement to trigger a directional gesture.
    pub threshold: i32,
}

/// Top-level daemon config with parsed CID keys.
#[derive(Debug)]
pub struct Config {
    /// Map of CID → action for simple button diversion.
    pub buttons: HashMap<u16, Action>,
    /// Map of CID → gesture config for gesture buttons.
    pub gestures: HashMap<u16, GestureConfig>,
}

impl Config {
    /// A configuration that diverts nothing.
    pub fn empty() -> (c: Config)
        ensures
            c.buttons@ == Map::<u16, Action>::empty(),
            c.gestures@ == Map::<u16, GestureConfig>::empty(),
    {
        Config { buttons: HashMap::new(), gestures: HashMap::new() }
    }

    /// All CIDs that need to be diverted: every button CID, then every
    /// gesture CID (each group in the maps' own order).
    pub fn all_diverted_cids(&self) -> (cids: Vec<u16>)
        ensures
            cids@.len() == self.buttons@.dom().len() + self.gestures@.dom().len(),
            cids@.subrange(0, self.buttons@.dom().len() as int).to_set() == self.buttons@.dom(),
            cids@.subrange(0, self.buttons@.dom().len() as int).no_duplicates(),
            cids@.subrange(self.buttons@.dom().len() as int, cids@.len() as int).to_set()
                == self.gestures@.dom(),
            cids@.subrange(self.buttons@.dom().len() as int, cids@.len() as int).no_duplicates(),
    {
        let mut cids: Vec<u16> = Vec::new();
        let ghost button_keys = spec_keys_iter(&self.buttons).remaining().unref();
        let ghost gesture_keys = spec_keys_iter(&self.gestures).remaining().unref();
        for k in it: self.buttons.keys()
            invariant
                it.seq().unref() == button_keys,
                cids@ == button_keys.take(it.index() as int),
        {
            let ghost prev = cids@;
            cids.push(*k);
            assert(button_keys.take(it.index() + 1) =~= prev.push(*k));
        }
        assert(cids@ =~= button_keys);
        for k in it: self.gestures.keys()
            invariant
                it.seq().unref() == gesture_keys,
                cids@ == button_keys + gesture_keys.take(it.index() as int),
        {
            let ghost prev = cids@;
            cids.push(*k);
            assert(button_keys + gesture_keys.take(it.index() + 1) =~= prev.push(*k));
        }
        assert(cids@ =~= button_keys + gesture_keys);
        assert(cids@.subrange(0, button_keys.len() as int) =~= button_keys);
        assert(cids@.subrange(button_keys.len() as int, cids@.len() as int) =~= gesture_keys);
        cids
    }

    /// The gesture button CIDs (re-diverted when their rawXY stops).
    pub fn gesture_cids(&self) -> (cids: Vec<u16>)
        ensures
            cids@.to_set() == self.gestures@.dom(),
            cids@.no_duplicates(),
    {
        let mut cids: Vec<u16> = Vec::new();
        let ghost keys = spec_keys_iter(&self.gestures).remaining().unref();
        for k in it: self.gestures.keys()
            invariant
                it.seq().unref() == keys,
                cids@ == keys.take(it.index() as int),
        {
            let ghost prev = cids@;
            cids.push(*k);
            assert(keys.take(it.index() + 1) =~= prev.push(*k));
        }
        assert(cids@ =~= keys);
        cids
    }

    /// Whether this CID is a gesture button (needs rawXY).
    pub fn is_gesture_cid(&self, cid: u16) -> (b: bool)
        ensures
            b == self.gestures@.contains_key(cid),
    {
        self.gestures.contains_key(&cid)
    }
}

/// A configuration as read from the config file, before its CID keys
/// are parsed: `(key, value)` entries in file order.
#[derive(Debug)]
pub struct RawConfig {
    pub buttons: Vec<(String, Action)>,
    pub gestures: Vec<(String, GestureConfig)>,
}

/// Why a configuration is rejected.
#[derive(Debug, Clone)]
pub enum ConfigError {
    /// A `[buttons]` key is not a CID.
    InvalidButtonCid(String),
    /// A `[gestures]` key is not a CID.
    InvalidGestureCid(String),
    /// A CID appears in both `[buttons]` and `[gestures]`.
    DuplicateCid(u16),
}

/// Whether an optional action slot holds a command action.
pub open spec fn slot_runs_command(slot: Option<Action>) -> bool {
    slot matches Some(a) && a.spec_command() is Some
}

/// Whether a gesture configuration maps some gesture to a command action.
pub open spec fn gesture_runs_command(g: GestureConfig) -> bool {
    slot_runs_command(g.up) || slot_runs_command(g.down) || slot_runs_command(g.left)
        || slot_runs_command(g.right) || slot_runs_command(g.tap)
}

/// Whether a raw configuration holds a command action, on a button or in
/// a gesture slot.
pub open spec fn raw_runs_command(raw: RawConfig) -> bool {
    ||| exists|i: int| 0 <= i < raw.buttons@.len() && (#[trigger] raw.buttons@[i]).1.spec_command() is Some
    ||| exists|i: int| 0 <= i < raw.gestures@.len() && gesture_runs_command((#[trigger] raw.gestures@[i]).1)
}

fn slot_has_command(slot: &Option<Action>) -> (b: bool)
    ensures
        b == slot_runs_command(*slot),
{
    match slot {
        Some(a) => a.command().is_some(),
        None => false,
    }
}

/// Whether a raw configuration holds a command action, on a button or in
/// a gesture slot.
pub fn has_command_action(cfg: &RawConfig) -> (b: bool)
    ensures
        b == raw_runs_command(*cfg),
{
    let mut i: usize = 0;
    while i < cfg.buttons.len()
        invariant
            i <= cfg.buttons@.len(),
            forall|k: int| 0 <= k < i ==> (#[trigger] cfg.buttons@[k]).1.spec_command() is None,
        decreases cfg.buttons@.len() - i,
    {
        if cfg.buttons[i].1.command().is_some() {
            assert(cfg.buttons@[i as int].1.spec_command() is Some);
            return true;
        }
        i = i + 1;
    }
    let mut j: usize = 0;
    while j < cfg.gestures.len()
        invariant
            j <= cfg.gestures@.len(),
            forall|k: int| 0 <= k < cfg.buttons@.len() ==> (#[trigger] cfg.buttons@[k]).1.spec_command() is None,
            forall|k: int| 0 <= k < j ==> !gesture_runs_command((#[trigger] cfg.gestures@[k]).1),
        decreases cfg.gestures@.len() - j,
    {
        let g = &cfg.gestures[j].1;
        if slot_has_command(&g.up) || slot_has_command(&g.down) || slot_has_command(&g.left)
            || slot_has_command(&g.right) || slot_has_command(&g.tap) {
            assert(gesture_runs_command(cfg.gestures@[j as int].1));
            return true;
        }
        j = j + 1;
    }
    false
}

/// Whether every key of a list of entries is a CID.
pub open spec fn keys_parse<V>(entries: Seq<(String, V)>) -> bool {
    forall|i: int| 0 <= i < entries.len() ==> (#[trigger] parse_u16_spec(entries[i].0@)) is Some
}

/// The position of the first entry, from `i` on, whose key is not a CID
/// (the length if there is none).
pub open spec fn first_bad_key<V>(entries: Seq<(String, V)>, i: int) -> int
    decreases entries.len() - i,
{
    if i < 0 || i >= entries.len() {
        entries.len() as int
    } else if parse_u16_spec(entries[i].0@) is None {
        i
    } else {
        first_bad_key(entries, i + 1)
    }
}

/// The map from CID to value that a list of entries describes; a later
/// entry for the same CID replaces an earlier one.
pub open spec fn cid_map<V>(entries: Seq<(String, V)>) -> Map<u16, V>
    decreases entries.len(),
{
    if entries.len() == 0 {
        Map::empty()
    } else {
        cid_map(entries.drop_last()).insert(
            parse_u16_spec(entries.last().0@).unwrap(),
            entries.last().1,
        )
    }
}

/// The CID of the first button entry, from `i` on, that is also a gesture
/// CID.
pub open spec fn first_shared_cid(buttons: Seq<(String, Action)>, gestures: Set<u16>, i: int) -> Option<u16>
    decreases buttons.len() - i,
{
    if i < 0 || i >= buttons.len() {
        None
    } else if gestures.contains(parse_u16_spec(buttons[i].0@).unwrap()) {
        Some(parse_u16_spec(buttons[i].0@).unwrap())
    } else {
        first_shared_cid(buttons, gestures, i + 1)
    }
}

/// The outcome of parsing a raw configuration: the first invalid button
/// key, else the first invalid gesture key, else the first button CID that
/// is also a gesture CID, else the two CID maps.
pub open spec fn parse_outcome(raw: RawConfig) -> Result<(Map<u16, Action>, Map<u16, GestureConfig>), ConfigError> {
    let b = raw.buttons@;
    let g = raw.gestures@;
    if !keys_parse(b) {
        Err(ConfigError::InvalidButtonCid(b[first_bad_key(b, 0)].0))
    } else if !keys_parse(g) {
        Err(ConfigError::InvalidGestureCid(g[first_bad_key(g, 0)].0))
    } else {
        match first_shared_cid(b, cid_map(g).dom(), 0) {
            Some(cid) => Err(ConfigError::DuplicateCid(cid)),
            None => Ok((cid_map(b), cid_map(g))),
        }
    }
}

proof fn lemma_first_bad_key<V>(entries: Seq<(String, V)>, i: int)
    requires
        0 <= i <= entries.len(),
        forall|j: int| 0 <= j < i ==> (#[trigger] parse_u16_spec(entries[j].0@)) is Some,
    ensures
        first_bad_key(entries, 0) == first_bad_key(entries, i),
    decreases i,
{
    if i > 0 {
        lemma_first_bad_key_step(entries, 0, i);
    }
}

proof fn lemma_first_bad_key_step<V>(entries: Seq<(String, V)>, j: int, i: int)
    requires
        0 <= j <= i <= entries.len(),
        forall|k: int| 0 <= k < i ==> (#[trigger] parse_u16_spec(entries[k].0@)) is Some,
    ensures
        first_bad_key(entries, j) == first_bad_key(entries, i),
    decreases i - j,
{
    if j < i {
        lemma_first_bad_key_step(entries, j + 1, i);
    }
}

proof fn lemma_first_shared_step(buttons: Seq<(String, Action)>, gestures: Set<u16>, j: int, i: int)
    requires
        0 <= j <= i <= buttons.len(),
        forall|k: int| 0 <= k < i ==> !gestures.contains(#[trigger] parse_u16_spec(buttons[k].0@).unwrap()),
    ensures
        first_shared_cid(buttons, gestures, j) == first_shared_cid(buttons, gestures, i),
    decreases i - j,
{
    if j < i {
        lemma_first_shared_step(buttons, gestures, j + 1, i);
    }
}

/// The position of the first entry whose key is not a CID, if any.
fn find_bad_key<V>(entries: &Vec<(String, V)>) -> (r: Option<usize>)
    ensures
        match r {
            Some(i) => !keys_parse(entries@) && i < entries@.len() && i == first_bad_key(entries@, 0),
            None => keys_parse(entries@),
        },
{
    let mut i: usize = 0;
    while i < entries.len()
        invariant
            i <= entries@.len(),
            forall|j: int| 0 <= j < i ==> (#[trigger] parse_u16_spec(entries@[j].0@)) is Some,
        decreases entries@.len() - i,
    {
        if parse_u16(entries[i].0.as_str()).is_none() {
            proof {
                lemma_first_bad_key(entries@, i as int);
            }
            return Some(i);
        }
        i = i + 1;
    }
    None
}

/// The CID map of a list of entries whose keys are all CIDs.
fn build_cid_map<V>(entries: Vec<(String, V)>) -> (m: HashMap<u16, V>)
    requires
        keys_parse(entries@),
    ensures
        m@ == cid_map(entries@),
{
    let ghost all = entries@;
    let mut m: HashMap<u16, V> = HashMap::new();
    for entry in it: entries
        invariant
            it.seq() == all,
            keys_parse(all),
            m@ == cid_map(all.take(it.index() as int)),
    {
        let ghost idx = it.index();
        let (key, value) = entry;
        assert(parse_u16_spec(all[idx].0@) is Some);
        match parse_u16(key.as_str()) {
            Some(cid) => {
                m.insert(cid, value);
            },
            None => {},
        }
        assert(all.take(idx + 1).drop_last() =~= all.take(idx));
    }
    assert(all.take(all.len() as int) =~= all);
    m
}

/// Parse a raw configuration: every key must be a CID, and no CID may be
/// both a button and a gesture.
pub fn parse(raw: RawConfig) -> (r: Result<Config, ConfigError>)
    ensures
        match (r, parse_outcome(raw)) {
            (Ok(cfg), Ok((b, g))) => cfg.buttons@ == b && cfg.gestures@ == g,
            (Err(e), Err(f)) => e == f,
            _ => false,
        },
{
    let ghost b = raw.buttons@;
    let ghost g = raw.gestures@;
    if let Some(i) = find_bad_key(&raw.buttons) {
        return Err(ConfigError::InvalidButtonCid(raw.buttons[i].0.clone()));
    }
    if let Some(i) = find_bad_key(&raw.gestures) {
        return Err(ConfigError::InvalidGestureCid(raw.gestures[i].0.clone()));
    }
    let RawConfig { buttons, gestures } = raw;
    let gesture_map = build_cid_map(gestures);

    let mut i: usize = 0;
    while i < buttons.len()
        invariant
            buttons@ == b,
            b == raw.buttons@,
            g == raw.gestures@,
            keys_parse(b),
            keys_parse(g),
            gesture_map@ == cid_map(g),
            i <= b.len(),
            forall|k: int| 0 <= k < i ==> !cid_map(g).dom().contains(#[trigger] parse_u16_spec(b[k].0@).unwrap()),
        decreases b.len() - i,
    {
        let cid = match parse_u16(buttons[i].0.as_str()) {
            Some(c) => c,
            None => {
                assert(parse_u16_spec(b[i as int].0@) is Some);
                return Err(ConfigError::DuplicateCid(0));
            },
        };
        if gesture_map.contains_key(&cid) {
            proof {
                lemma_first_shared_step(b, cid_map(g).dom(), 0, i as int);
                assert(parse_u16_spec(b[i as int].0@) == Some(cid));
                assert(cid_map(g).dom().contains(cid));
            }
            return Err(ConfigError::DuplicateCid(cid));
        }
        i = i + 1;
    }
    proof {
        lemma_first_shared_step(b, cid_map(g).dom(), 0, b.len() as int);
    }
    let button_map = build_cid_map(buttons);
    Ok(Config { buttons: button_map, gestures: gesture_map })
}

/// Check that a raw configuration parses.
pub fn validate(raw: RawConfig) -> (r: Result<(), ConfigError>)
    ensures
        match (r, parse_outcome(raw)) {
            (Ok(()), Ok(_)) => true,
            (Err(e), Err(f)) => e == f,
            _ => false,
        },
{
    parse(raw)?;
    Ok(())
}

proof fn lemma_cid_map_dom<V>(entries: Seq<(String, V)>, c: u16)
    requires
        keys_parse(entries),
        cid_map(entries).dom().contains(c),
    ensures
        exists|i: int| 0 <= i < entries.len() && parse_u16_spec(#[trigger] entries[i].0@) == Some(c),
    decreases entries.len(),
{
    let last = entries.last();
    assert(parse_u16_spec(entries[entries.len() - 1].0@) is Some);
    if parse_u16_spec(last.0@).unwrap() != c {
        let init = entries.drop_last();
        assert forall|i: int| 0 <= i < init.len() implies (#[trigger] parse_u16_spec(init[i].0@)) is Some by {
            assert(init[i] == entries[i]);
        }
        lemma_cid_map_dom(init, c);
        let i = choose|i: int| 0 <= i < init.len() && parse_u16_spec(#[trigger] init[i].0@) == Some(c);
        assert(entries[i] == init[i]);
    }
}

proof fn lemma_no_shared_cid(buttons: Seq<(String, Action)>, gestures: Set<u16>, j: int)
    requires
        0 <= j,
        first_shared_cid(buttons, gestures, j) is None,
    ensures
        forall|i: int| j <= i < buttons.len() ==> !gestures.contains(#[trigger] parse_u16_spec(buttons[i].0@).unwrap()),
    decreases buttons.len() - j,
{
    if j < buttons.len() {
        lemma_no_shared_cid(buttons, gestures, j + 1);
    }
}

/// A configuration that parses has no CID that is both a button and a
/// gesture button.
pub proof fn lemma_parsed_cids_disjoint(raw: RawConfig)
    requires
        parse_outcome(raw) is Ok,
    ensures
        parse_outcome(raw)->Ok_0.0.dom().disjoint(parse_outcome(raw)->Ok_0.1.dom()),
{
    let b = raw.buttons@;
    let g = raw.gestures@;
    let gdom = cid_map(g).dom();
    lemma_no_shared_cid(b, gdom, 0);
    assert forall|c: u16| #[trigger] cid_map(b).dom().contains(c) implies !gdom.contains(c) by {
        lemma_cid_map_dom(b, c);
        let i = choose|i: int| 0 <= i < b.len() && parse_u16_spec(#[trigger] b[i].0@) == Some(c);
        assert(!gdom.contains(parse_u16_spec(b[i].0@).unwrap()));
    }
}

} // verus!
