//! The features a device announced: one entry per feature ID, kept in
//! ascending ID order.
use vstd::prelude::*;

use crate::types::{FeatureFlags, FeatureId, FeatureIndex};

verus! {

/// Discovered feature entry.
#[derive(Debug, Clone, Copy, PartialEq, Eq, Structural)]
pub struct FeatureEntry {
    pub id: FeatureId,
    pub index: FeatureIndex,
    pub flags: FeatureFlags,
    pub version: u8,
}

/// Whether the entries' feature IDs strictly ascend.
pub open spec fn ids_ascending(s: Seq<FeatureEntry>) -> bool {
    forall|i: int, j: int| 0 <= i < j < s.len() ==> s[i].id.0 < s[j].id.0
}

/// Whether some entry has feature ID `id`.
pub open spec fn has_id(s: Seq<FeatureEntry>, id: u16) -> bool {
    exists|i: int| 0 <= i < s.len() && (#[trigger] s[i]).id.0 == id
}

/// The entry with feature ID `id` (meaningful when `has_id`).
pub open spec fn entry_of(s: Seq<FeatureEntry>, id: u16) -> FeatureEntry {
    s[choose|i: int| 0 <= i < s.len() && (#[trigger] s[i]).id.0 == id]
}

/// The entry for `id`, if there is one.
pub open spec fn lookup(s: Seq<FeatureEntry>, id: u16) -> Option<FeatureEntry> {
    if has_id(s, id) {
        Some(entry_of(s, id))
    } else {
        None
    }
}

/// The first entry, from position `i` on, at runtime index `index`.
pub open spec fn first_at_index(s: Seq<FeatureEntry>, index: u8, i: int) -> Option<FeatureEntry>
    decreases s.len() - i,
{
    if i < 0 || i >= s.len() {
        None
    } else if s[i].index.0 == index {
        Some(s[i])
    } else {
        first_at_index(s, index, i + 1)
    }
}

/// In entries with ascending IDs, the entry for an ID is the one at its
/// position.
pub proof fn lemma_entry_at(s: Seq<FeatureEntry>, i: int)
    requires
        ids_ascending(s),
        0 <= i < s.len(),
    ensures
        has_id(s, s[i].id.0),
        entry_of(s, s[i].id.0) == s[i],
{
    let id = s[i].id.0;
    assert(s[i].id.0 == id);
    let j = choose|j: int| 0 <= j < s.len() && (#[trigger] s[j]).id.0 == id;
    if j < i {
        assert(s[j].id.0 < s[i].id.0);
    } else if i < j {
        assert(s[i].id.0 < s[j].id.0);
    }
}

/// The features of a device, keyed by feature ID.
#[derive(Debug)]
pub struct FeatureTable {
    entries: Vec<FeatureEntry>,
}

impl View for FeatureTable {
    type V = Seq<FeatureEntry>;

    closed spec fn view(&self) -> Seq<FeatureEntry> {
        self.entries@
    }
}

impl FeatureTable {
    #[verifier::type_invariant]
    spec fn inv(&self) -> bool {
        ids_ascending(self.entries@)
    }

    /// A table with no feature.
    pub fn new() -> (t: Self)
        ensures
            t@ == Seq::<FeatureEntry>::empty(),
    {
        FeatureTable { entries: Vec::new() }
    }

    /// Number of features.
    pub fn len(&self) -> (n: usize)
        ensures
            n == self@.len(),
    {
        self.entries.len()
    }

    /// All entries, in ascending feature ID order.
    pub fn entries(&self) -> (s: &[FeatureEntry])
        ensures
            s@ == self@,
            ids_ascending(self@),
    {
        proof {
            use_type_invariant(self);
        }
        self.entries.as_slice()
    }

    /// Record a feature; an entry with the same feature ID is replaced.
    pub fn insert(&mut self, e: FeatureEntry)
        ensures
            ids_ascending(final(self)@),
            forall|id: u16| has_id(final(self)@, id) <==> (has_id(old(self)@, id) || id == e.id.0),
            forall|id: u16|
                #[trigger] lookup(final(self)@, id) == (if id == e.id.0 {
                    Some(e)
                } else {
                    lookup(old(self)@, id)
                }),
    {
        proof {
            use_type_invariant(&*self);
        }
        let ghost old_s = self.entries@;
        let mut p: usize = 0;
        while p < self.entries.len() && self.entries[p].id.0 < e.id.0
            invariant
                self.entries@ == old_s,
                ids_ascending(old_s),
                p <= old_s.len(),
                forall|j: int| 0 <= j < p ==> (#[trigger] old_s[j]).id.0 < e.id.0,
            decreases old_s.len() - p,
        {
            p = p + 1;
        }
        let mut entries = Vec::new();
        std::mem::swap(&mut entries, &mut self.entries);
        let replace = p < entries.len() && entries[p].id.0 == e.id.0;
        if replace {
            entries.set(p, e);
        } else {
            entries.insert(p, e);
        }
        let ghost new_s = entries@;
        assert(ids_ascending(new_s)) by {
            assert forall|i: int, j: int| 0 <= i < j < new_s.len() implies new_s[i].id.0
                < new_s[j].id.0 by {
                if replace {
                    if i == p as int {
                        assert(old_s[i].id.0 < old_s[j].id.0);
                    } else if j == p as int {
                        assert(old_s[i].id.0 < old_s[j].id.0);
                    }
                } else {
                    if i < p && j > p {
                        assert(new_s[j] == old_s[j - 1]);
                        assert(old_s[i].id.0 < e.id.0);
                    } else if i == p as int {
                        assert(new_s[j] == old_s[j - 1]);
                        assert(old_s[p as int].id.0 >= e.id.0);
                        if j - 1 > p {
                            assert(old_s[p as int].id.0 < old_s[j - 1].id.0);
                        }
                    } else if j == p as int {
                        assert(new_s[i] == old_s[i]);
                    } else if i > p {
                        assert(new_s[i] == old_s[i - 1]);
                        assert(new_s[j] == old_s[j - 1]);
                    }
                }
            }
        }
        assert forall|id: u16| has_id(new_s, id) <==> (has_id(old_s, id) || id == e.id.0) by {
            if has_id(old_s, id) {
                let k = choose|k: int| 0 <= k < old_s.len() && (#[trigger] old_s[k]).id.0 == id;
                if replace && k == p {
                    assert(new_s[k].id.0 == id);
                } else if replace || k < p {
                    assert(new_s[k] == old_s[k]);
                } else {
                    assert(new_s[k + 1] == old_s[k]);
                }
            }
            if id == e.id.0 {
                assert(new_s[p as int] == e);
            }
            if has_id(new_s, id) && id != e.id.0 {
                let k = choose|k: int| 0 <= k < new_s.len() && (#[trigger] new_s[k]).id.0 == id;
                if replace {
                    assert(new_s[k] == old_s[k]);
                } else if k < p {
                    assert(new_s[k] == old_s[k]);
                } else {
                    assert(new_s[k] == old_s[k - 1]);
                }
            }
        }
        assert forall|id: u16|
            #[trigger] lookup(new_s, id) == (if id == e.id.0 {
                Some(e)
            } else {
                lookup(old_s, id)
            }) by {
            if id == e.id.0 {
                assert(new_s[p as int] == e);
                lemma_entry_at(new_s, p as int);
            } else if has_id(new_s, id) {
                let k = choose|k: int| 0 <= k < new_s.len() && (#[trigger] new_s[k]).id.0 == id;
                lemma_entry_at(new_s, k);
                let ko = if replace || k < p {
                    k
                } else {
                    k - 1
                };
                assert(new_s[k] == old_s[ko]);
                lemma_entry_at(old_s, ko);
            } else {
                if has_id(old_s, id) {
                    let k = choose|k: int| 0 <= k < old_s.len() && (#[trigger] old_s[k]).id.0 == id;
                    if replace || k < p {
                        assert(new_s[k] == old_s[k]);
                    } else {
                        assert(new_s[k + 1] == old_s[k]);
                    }
                }
            }
        }
        self.entries = entries;
    }

    /// The entry for a feature ID, if the device has that feature.
    pub fn get(&self, id: FeatureId) -> (r: Option<FeatureEntry>)
        ensures
            r == lookup(self@, id.0),
    {
        proof {
            use_type_invariant(self);
        }
        let mut i: usize = 0;
        while i < self.entries.len()
            invariant
                ids_ascending(self.entries@),
                i <= self.entries@.len(),
                forall|j: int| 0 <= j < i ==> (#[trigger] self.entries@[j]).id.0 != id.0,
            decreases self.entries@.len() - i,
        {
            if self.entries[i].id.0 == id.0 {
                proof {
                    lemma_entry_at(self.entries@, i as int);
                }
                return Some(self.entries[i]);
            }
            i = i + 1;
        }
        None
    }

    /// Check if the device supports a given feature.
    pub fn supports(&self, id: FeatureId) -> (b: bool)
        ensures
            b == has_id(self@, id.0),
    {
        self.get(id).is_some()
    }

    /// Reverse lookup: the feature at a runtime index (the lowest feature
    /// ID if several claim it).
    pub fn feature_id_for_index(&self, index: FeatureIndex) -> (r: Option<FeatureId>)
        ensures
            r == (match first_at_index(self@, index.0, 0) {
                Some(e) => Some(e.id),
                None => None,
            }),
    {
        let mut i: usize = 0;
        while i < self.entries.len()
            invariant
                i <= self@.len(),
                first_at_index(self@, index.0, 0) == first_at_index(self@, index.0, i as int),
            decreases self@.len() - i,
        {
            if self.entries[i].index.0 == index.0 {
                return Some(self.entries[i].id);
            }
            i = i + 1;
        }
        None
    }
}

} // verus!
