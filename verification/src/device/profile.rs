//! Device profiles: optional enrichment data for known devices (button
//! names, DPI ranges, feature flags), looked up by product ID or model ID.
use vstd::prelude::*;

use crate::text::{lowercase, str_eq, to_lowercase};

verus! {

/// A device profile from the database.
#[derive(Debug, Clone)]
pub struct DeviceProfile {
    pub name: String,
    pub model_id: String,
    /// The device kind ("mouse", "keyboard", ...).
    pub kind: String,
    pub depot: String,
    pub pids: Vec<String>,
    pub buttons: Vec<u16>,
    pub hosts: u8,
    pub features: ProfileFeatures,
    pub dpi: Option<DpiProfile>,
}

#[derive(Debug, Clone, Copy, Default, PartialEq, Eq, Structural)]
pub struct ProfileFeatures {
    pub battery: bool,
    pub dpi: bool,
    pub smartshift: bool,
    pub hires_scroll: bool,
    pub thumbwheel: bool,
    pub fn_inversion: bool,
    pub backlight: bool,
    pub disable_keys: bool,
    pub pointer_speed: bool,
}

#[derive(Debug, Clone, Copy, PartialEq, Eq, Structural)]
pub struct DpiProfile {
    pub min: u16,
    pub max: u16,
    pub default: u16,
    pub step: u16,
}

/// Whether one of a profile's product IDs is `key` once lowercased.
pub open spec fn pid_matches(p: DeviceProfile, key: Seq<char>) -> bool {
    exists|j: int| 0 <= j < p.pids@.len() && lowercase((#[trigger] p.pids@[j])@) == key
}

/// The last of the first `n` profiles with a product ID that lowercases
/// to `key`.
pub open spec fn last_pid_match(profiles: Seq<DeviceProfile>, key: Seq<char>, n: int) -> Option<int>
    decreases n,
{
    if n <= 0 || n > profiles.len() {
        None
    } else if pid_matches(profiles[n - 1], key) {
        Some(n - 1)
    } else {
        last_pid_match(profiles, key, n - 1)
    }
}

/// The last of the first `n` profiles with model ID `model`.
pub open spec fn last_model_match(profiles: Seq<DeviceProfile>, model: Seq<char>, n: int) -> Option<int>
    decreases n,
{
    if n <= 0 || n > profiles.len() {
        None
    } else if profiles[n - 1].model_id@ == model {
        Some(n - 1)
    } else {
        last_model_match(profiles, model, n - 1)
    }
}

/// The profile database, indexed by lowercased product ID and by model ID.
#[derive(Debug)]
pub struct ProfileDb {
    profiles: Vec<DeviceProfile>,
    pid_keys: Vec<Vec<String>>,
}

impl View for ProfileDb {
    type V = Seq<DeviceProfile>;

    closed spec fn view(&self) -> Seq<DeviceProfile> {
        self.profiles@
    }
}

impl ProfileDb {
    #[verifier::type_invariant]
    spec fn inv(&self) -> bool {
        &&& self.pid_keys@.len() == self.profiles@.len()
        &&& forall|i: int|
            0 <= i < self.profiles@.len() ==> (#[trigger] self.pid_keys@[i])@.len()
                == self.profiles@[i].pids@.len()
        &&& forall|i: int, j: int|
            0 <= i < self.profiles@.len() && 0 <= j < self.profiles@[i].pids@.len() ==> (
            #[trigger] self.pid_keys@[i]@[j])@ == lowercase(self.profiles@[i].pids@[j]@)
    }

    /// A database of these profiles, in order.
    pub fn new(profiles: Vec<DeviceProfile>) -> (db: Self)
        ensures
            db@ == profiles@,
    {
        let mut pid_keys: Vec<Vec<String>> = Vec::new();
        let mut i: usize = 0;
        while i < profiles.len()
            invariant
                i <= profiles@.len(),
                pid_keys@.len() == i,
                forall|k: int| 0 <= k < i ==> (#[trigger] pid_keys@[k])@.len() == profiles@[k].pids@.len(),
                forall|k: int, j: int|
                    0 <= k < i && 0 <= j < profiles@[k].pids@.len() ==> (
                    #[trigger] pid_keys@[k]@[j])@ == lowercase(profiles@[k].pids@[j]@),
            decreases profiles@.len() - i,
        {
            let pids = &profiles[i].pids;
            let mut keys: Vec<String> = Vec::new();
            let mut j: usize = 0;
            while j < pids.len()
                invariant
                    j <= pids@.len(),
                    keys@.len() == j,
                    forall|m: int| 0 <= m < j ==> (#[trigger] keys@[m])@ == lowercase(pids@[m]@),
                decreases pids@.len() - j,
            {
                keys.push(to_lowercase(pids[j].as_str()));
                j = j + 1;
            }
            pid_keys.push(keys);
            i = i + 1;
        }
        ProfileDb { profiles, pid_keys }
    }

    fn profile_matches(&self, i: usize, key: &str) -> (b: bool)
        requires
            i < self@.len(),
        ensures
            b == pid_matches(self@[i as int], key@),
    {
        proof {
            use_type_invariant(self);
        }
        let keys = &self.pid_keys[i];
        let mut j: usize = 0;
        while j < keys.len()
            invariant
                keys == &self.pid_keys@[i as int],
                keys@.len() == self@[i as int].pids@.len(),
                forall|m: int|
                    0 <= m < keys@.len() ==> (#[trigger] keys@[m])@ == lowercase(self@[i as int].pids@[m]@),
                j <= keys@.len(),
                forall|m: int| 0 <= m < j ==> lowercase((#[trigger] self@[i as int].pids@[m])@) != key@,
            decreases keys@.len() - j,
        {
            if str_eq(keys[j].as_str(), key) {
                assert(lowercase(self@[i as int].pids@[j as int]@) == key@);
                return true;
            }
            j = j + 1;
        }
        false
    }
}

impl DeviceProfile {
    /// Look up a profile by product ID (hex string, e.g., "b034"),
    /// case-insensitively; the last profile listing it wins.
    pub fn by_pid<'a>(db: &'a ProfileDb, pid: &str) -> (r: Option<&'a DeviceProfile>)
        ensures
            match last_pid_match(db@, lowercase(pid@), db@.len() as int) {
                Some(i) => r matches Some(p) && *p == db@[i],
                None => r is None,
            },
    {
        let key = to_lowercase(pid);
        let mut n: usize = db.profiles.len();
        while n > 0
            invariant
                n <= db@.len(),
                key@ == lowercase(pid@),
                last_pid_match(db@, key@, db@.len() as int) == last_pid_match(db@, key@, n as int),
            decreases n,
        {
            if db.profile_matches(n - 1, key.as_str()) {
                return Some(&db.profiles[n - 1]);
            }
            n = n - 1;
        }
        None
    }

    /// Look up a profile by model ID (e.g., "2b034"); the last profile
    /// with it wins.
    pub fn by_model<'a>(db: &'a ProfileDb, model_id: &str) -> (r: Option<&'a DeviceProfile>)
        ensures
            match last_model_match(db@, model_id@, db@.len() as int) {
                Some(i) => r matches Some(p) && *p == db@[i],
                None => r is None,
            },
    {
        let mut n: usize = db.profiles.len();
        while n > 0
            invariant
                n <= db@.len(),
                last_model_match(db@, model_id@, db@.len() as int) == last_model_match(
                    db@,
                    model_id@,
                    n as int,
                ),
            decreases n,
        {
            if str_eq(db.profiles[n - 1].model_id.as_str(), model_id) {
                return Some(&db.profiles[n - 1]);
            }
            n = n - 1;
        }
        None
    }

    /// All profiles.
    pub fn all<'a>(db: &'a ProfileDb) -> (s: &'a [DeviceProfile])
        ensures
            s@ == db@,
    {
        db.profiles.as_slice()
    }

    /// Number of profiles in the database.
    pub fn count(db: &ProfileDb) -> (n: usize)
        ensures
            n == db@.len(),
    {
        db.profiles.len()
    }

    /// Known button name for a control ID.
    pub fn button_name(&self, control_id: u16) -> (r: Option<&'static str>)
        ensures
            match r {
                Some(s) => s@ == button_text(control_id)->0,
                None => button_text(control_id) is None,
            },
    {
        match control_id {
            50 => Some("Left Click"),
            51 => Some("Right Click"),
            52 | 82 => Some("Middle Click"),
            53 | 83 => Some("Back"),
            56 | 86 => Some("Forward"),
            195 => Some("Gesture Button"),
            196 => Some("Mode Shift"),
            199 => Some("Dictation"),
            200 => Some("Emoji"),
            110 => Some("Screen Capture"),
            _ => None,
        }
    }
}

/// The common name of a control ID, if it has one.
pub open spec fn button_text(control_id: u16) -> Option<Seq<char>> {
    if control_id == 50 {
        Some("Left Click"@)
    } else if control_id == 51 {
        Some("Right Click"@)
    } else if control_id == 52 || control_id == 82 {
        Some("Middle Click"@)
    } else if control_id == 53 || control_id == 83 {
        Some("Back"@)
    } else if control_id == 56 || control_id == 86 {
        Some("Forward"@)
    } else if control_id == 195 {
        Some("Gesture Button"@)
    } else if control_id == 196 {
        Some("Mode Shift"@)
    } else if control_id == 199 {
        Some("Dictation"@)
    } else if control_id == 200 {
        Some("Emoji"@)
    } else if control_id == 110 {
        Some("Screen Capture"@)
    } else {
        None
    }
}

/// Product ID lookup ignores case: two IDs that lowercase alike find the
/// same profile.
pub proof fn lemma_pid_lookup_ignores_case(profiles: Seq<DeviceProfile>, a: Seq<char>, b: Seq<char>)
    requires
        lowercase(a) == lowercase(b),
    ensures
        last_pid_match(profiles, lowercase(a), profiles.len() as int) == last_pid_match(
            profiles,
            lowercase(b),
            profiles.len() as int,
        ),
{
}

/// The common control names: 50 left click, 51 right click, 52 and 82
/// middle click, 53 and 83 back, 56 and 86 forward, 195 gesture button,
/// 196 mode shift, 199 dictation, 200 emoji, 110 screen capture.
pub proof fn lemma_button_names()
    ensures
        button_text(50) == Some("Left Click"@),
        button_text(51) == Some("Right Click"@),
        button_text(52) == Some("Middle Click"@),
        button_text(82) == Some("Middle Click"@),
        button_text(53) == Some("Back"@),
        button_text(83) == Some("Back"@),
        button_text(56) == Some("Forward"@),
        button_text(86) == Some("Forward"@),
        button_text(195) == Some("Gesture Button"@),
        button_text(196) == Some("Mode Shift"@),
        button_text(199) == Some("Dictation"@),
        button_text(200) == Some("Emoji"@),
        button_text(110) == Some("Screen Capture"@),
{
}

} // verus!
