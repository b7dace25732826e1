//! Gesture tracking for held gesture buttons: accumulates raw XY
//! displacement and resolves a swipe direction or a tap on release.
use vstd::prelude::*;

verus! {

/// Direction resolved from accumulated XY displacement.
#[derive(Debug, Clone, Copy, PartialEq, Eq, Structural)]
pub enum GestureDirection {
    Up,
    Down,
    Left,
    Right,
}

/// Result of completing a gesture (button release).
#[derive(Debug, Clone, Copy, PartialEq, Eq, Structural)]
pub enum GestureResult {
    /// Directional swipe detected.
    Direction(GestureDirection),
    /// Quick press+release with no significant movement.
    Tap,
}

/// State of an in-flight gesture for a single button.
#[derive(Debug, Clone, Copy, PartialEq, Eq, Structural)]
pub struct ActiveGesture {
    /// Accumulated X displacement (positive = right).
    pub dx: i32,
    /// Accumulated Y displacement (positive = down).
    pub dy: i32,
    /// Whether the first rawXY event has been discarded. The device sends
    /// a phantom rawXY on button press (sensor buffer flush) that must be
    /// ignored.
    pub first_xy_discarded: bool,
}

/// The absolute value of a displacement.
pub open spec fn abs_i32(v: i32) -> int {
    if v < 0 {
        -v
    } else {
        v as int
    }
}

/// The outcome of a gesture with displacement `(dx, dy)`: a tap when
/// neither axis reaches `threshold`, else a swipe along the dominant axis
/// (vertical on a tie).
pub open spec fn resolve_gesture(dx: i32, dy: i32, threshold: i32) -> GestureResult {
    let ax = abs_i32(dx);
    let ay = abs_i32(dy);
    let magnitude = if ax >= ay {
        ax
    } else {
        ay
    };
    if magnitude < threshold {
        GestureResult::Tap
    } else if ax > ay {
        if dx > 0 {
            GestureResult::Direction(GestureDirection::Right)
        } else {
            GestureResult::Direction(GestureDirection::Left)
        }
    } else if dy > 0 {
        GestureResult::Direction(GestureDirection::Down)
    } else {
        GestureResult::Direction(GestureDirection::Up)
    }
}

/// A gesture after one rawXY event: the first event only marks the
/// phantom as discarded, later ones add their displacement.
pub open spec fn gesture_after_xy(g: ActiveGesture, dx: i16, dy: i16) -> ActiveGesture {
    if !g.first_xy_discarded {
        ActiveGesture { first_xy_discarded: true, ..g }
    } else {
        ActiveGesture { dx: (g.dx + dx) as i32, dy: (g.dy + dy) as i32, first_xy_discarded: true }
    }
}

/// Whether a rawXY event can be added to a gesture without leaving the
/// `i32` range.
pub open spec fn xy_fits(g: ActiveGesture, dx: i16, dy: i16) -> bool {
    g.first_xy_discarded ==> (i32::MIN <= g.dx + dx <= i32::MAX && i32::MIN <= g.dy + dy
        <= i32::MAX)
}

/// The state of a gesture button just pressed: no displacement, and the
/// phantom rawXY event still to come.
pub open spec fn fresh_gesture() -> ActiveGesture {
    ActiveGesture { dx: 0, dy: 0, first_xy_discarded: false }
}

/// The held gestures after one rawXY event: every held gesture takes the
/// event, and no button starts or stops being held.
pub open spec fn held_after_xy(held: Map<u16, ActiveGesture>, dx: i16, dy: i16) -> Map<
    u16,
    ActiveGesture,
> {
    Map::new(|c: u16| held.contains_key(c), |c: u16| gesture_after_xy(held[c], dx, dy))
}

/// What a release of `cid` resolves, given the held gestures: nothing if
/// the button is not held, else its gesture resolved against `threshold`.
pub open spec fn released_gesture(held: Map<u16, ActiveGesture>, cid: u16, threshold: i32) -> Option<
    GestureResult,
> {
    if held.contains_key(cid) {
        Some(resolve_gesture(held[cid].dx, held[cid].dy, threshold))
    } else {
        None
    }
}

/// One event seen by a gesture tracker.
pub enum GestureEvent {
    /// A gesture button was pressed.
    Pressed(u16),
    /// The sensor reported a displacement.
    RawXy(i16, i16),
    /// A gesture button was released.
    Released(u16),
}

/// The held gestures after one event, as the tracker's operations change
/// them.
pub open spec fn held_after(held: Map<u16, ActiveGesture>, event: GestureEvent) -> Map<
    u16,
    ActiveGesture,
> {
    match event {
        GestureEvent::Pressed(c) => held.insert(c, fresh_gesture()),
        GestureEvent::RawXy(dx, dy) => held_after_xy(held, dx, dy),
        GestureEvent::Released(c) => held.remove(c),
    }
}

/// The held gestures after a sequence of events, oldest first.
pub open spec fn held_after_all(held: Map<u16, ActiveGesture>, events: Seq<GestureEvent>) -> Map<
    u16,
    ActiveGesture,
>
    decreases events.len(),
{
    if events.len() == 0 {
        held
    } else {
        held_after(held_after_all(held, events.drop_last()), events.last())
    }
}

/// The displacements reported by the rawXY events of a sequence, in order.
pub open spec fn raw_xy_moves(events: Seq<GestureEvent>) -> Seq<(i16, i16)>
    decreases events.len(),
{
    if events.len() == 0 {
        Seq::empty()
    } else {
        match events.last() {
            GestureEvent::RawXy(dx, dy) => raw_xy_moves(events.drop_last()).push((dx, dy)),
            _ => raw_xy_moves(events.drop_last()),
        }
    }
}

/// The total X displacement of a sequence of moves.
pub open spec fn sum_dx(moves: Seq<(i16, i16)>) -> int
    decreases moves.len(),
{
    if moves.len() == 0 {
        0
    } else {
        sum_dx(moves.drop_last()) + moves.last().0
    }
}

/// The total Y displacement of a sequence of moves.
pub open spec fn sum_dy(moves: Seq<(i16, i16)>) -> int
    decreases moves.len(),
{
    if moves.len() == 0 {
        0
    } else {
        sum_dy(moves.drop_last()) + moves.last().1
    }
}

/// The moves that count towards a gesture: all but the first, which is the
/// phantom sensor flush.
pub open spec fn after_phantom(moves: Seq<(i16, i16)>) -> Seq<(i16, i16)> {
    if moves.len() == 0 {
        moves
    } else {
        moves.skip(1)
    }
}

/// Whether every running total of a sequence of moves stays in the `i32`
/// range.
pub open spec fn moves_fit(moves: Seq<(i16, i16)>) -> bool {
    forall|k: int|
        0 <= k <= moves.len() ==> i32::MIN <= #[trigger] sum_dx(moves.take(k)) <= i32::MAX
            && i32::MIN <= sum_dy(moves.take(k)) <= i32::MAX
}

/// The gestures held in a list of `(cid, gesture)` entries.
pub open spec fn gesture_map(entries: Seq<(u16, ActiveGesture)>) -> Map<u16, ActiveGesture>
    decreases entries.len(),
{
    if entries.len() == 0 {
        Map::empty()
    } else {
        gesture_map(entries.drop_last()).insert(entries.last().0, entries.last().1)
    }
}

/// Whether no CID occurs twice in a list of entries.
pub open spec fn unique_cids(entries: Seq<(u16, ActiveGesture)>) -> bool {
    forall|i: int, j: int|
        0 <= i < entries.len() && 0 <= j < entries.len() && i != j ==> entries[i].0 != entries[j].0
}

proof fn lemma_gesture_map_contains(entries: Seq<(u16, ActiveGesture)>, k: u16)
    ensures
        gesture_map(entries).contains_key(k) <==> exists|i: int|
            0 <= i < entries.len() && entries[i].0 == k,
    decreases entries.len(),
{
    if entries.len() > 0 {
        lemma_gesture_map_contains(entries.drop_last(), k);
        if gesture_map(entries).contains_key(k) && entries.last().0 != k {
            let i = choose|i: int| 0 <= i < entries.drop_last().len() && entries.drop_last()[i].0 == k;
            assert(entries[i].0 == k);
        }
        if exists|i: int| 0 <= i < entries.len() && entries[i].0 == k {
            let i = choose|i: int| 0 <= i < entries.len() && entries[i].0 == k;
            if i < entries.len() - 1 {
                assert(entries.drop_last()[i].0 == k);
            }
        }
    }
}

proof fn lemma_gesture_map_at(entries: Seq<(u16, ActiveGesture)>, i: int)
    requires
        unique_cids(entries),
        0 <= i < entries.len(),
    ensures
        gesture_map(entries).contains_key(entries[i].0),
        gesture_map(entries)[entries[i].0] == entries[i].1,
    decreases entries.len(),
{
    if i < entries.len() - 1 {
        lemma_gesture_map_at(entries.drop_last(), i);
    }
}

proof fn lemma_gesture_map_len(entries: Seq<(u16, ActiveGesture)>)
    requires
        unique_cids(entries),
    ensures
        gesture_map(entries).dom().len() == entries.len(),
        gesture_map(entries).dom().finite(),
    decreases entries.len(),
{
    if entries.len() > 0 {
        let init = entries.drop_last();
        lemma_gesture_map_len(init);
        lemma_gesture_map_contains(init, entries.last().0);
        if gesture_map(init).contains_key(entries.last().0) {
            let i = choose|i: int| 0 <= i < init.len() && init[i].0 == entries.last().0;
            assert(entries[i].0 == entries[entries.len() - 1].0);
        }
    }
}

proof fn lemma_gesture_map_remove(entries: Seq<(u16, ActiveGesture)>, i: int)
    requires
        unique_cids(entries),
        0 <= i < entries.len(),
    ensures
        unique_cids(entries.remove(i)),
        gesture_map(entries.remove(i)) == gesture_map(entries).remove(entries[i].0),
{
    let rest = entries.remove(i);
    let k = entries[i].0;
    assert forall|a: int, b: int| 0 <= a < rest.len() && 0 <= b < rest.len() && a != b implies rest[a].0
        != rest[b].0 by {
        let ea = if a < i { a } else { a + 1 };
        let eb = if b < i { b } else { b + 1 };
        assert(rest[a] == entries[ea]);
        assert(rest[b] == entries[eb]);
    }
    assert forall|key: u16| #[trigger] gesture_map(rest).contains_key(key) <==> gesture_map(entries).remove(k).contains_key(key) by {
        lemma_gesture_map_contains(rest, key);
        lemma_gesture_map_contains(entries, key);
        if exists|j: int| 0 <= j < entries.len() && entries[j].0 == key {
            let j = choose|j: int| 0 <= j < entries.len() && entries[j].0 == key;
            if key != k {
                assert(j != i);
                let rj = if j < i { j } else { j - 1 };
                assert(rest[rj] == entries[j]);
            }
        }
        if exists|j: int| 0 <= j < rest.len() && rest[j].0 == key {
            let j = choose|j: int| 0 <= j < rest.len() && rest[j].0 == key;
            let ej = if j < i { j } else { j + 1 };
            assert(rest[j] == entries[ej]);
            assert(ej != i);
        }
    }
    assert forall|key: u16| #[trigger] gesture_map(rest).contains_key(key) implies gesture_map(rest)[key]
        == gesture_map(entries)[key] by {
        lemma_gesture_map_contains(rest, key);
        let j = choose|j: int| 0 <= j < rest.len() && rest[j].0 == key;
        let ej = if j < i { j } else { j + 1 };
        assert(rest[j] == entries[ej]);
        lemma_gesture_map_at(rest, j);
        lemma_gesture_map_at(entries, ej);
    }
    assert(gesture_map(rest) =~= gesture_map(entries).remove(k));
}

proof fn lemma_gesture_map_update(entries: Seq<(u16, ActiveGesture)>, i: int, g: ActiveGesture)
    requires
        unique_cids(entries),
        0 <= i < entries.len(),
    ensures
        unique_cids(entries.update(i, (entries[i].0, g))),
        gesture_map(entries.update(i, (entries[i].0, g))) == gesture_map(entries).insert(entries[i].0, g),
{
    let upd = entries.update(i, (entries[i].0, g));
    let k = entries[i].0;
    assert forall|a: int, b: int| 0 <= a < upd.len() && 0 <= b < upd.len() && a != b implies upd[a].0
        != upd[b].0 by {
        assert(upd[a].0 == entries[a].0);
        assert(upd[b].0 == entries[b].0);
    }
    assert forall|key: u16| #[trigger] gesture_map(upd).contains_key(key) <==> gesture_map(entries).insert(k, g).contains_key(key) by {
        lemma_gesture_map_contains(upd, key);
        lemma_gesture_map_contains(entries, key);
        if exists|j: int| 0 <= j < entries.len() && entries[j].0 == key {
            let j = choose|j: int| 0 <= j < entries.len() && entries[j].0 == key;
            assert(upd[j].0 == key);
        }
        if exists|j: int| 0 <= j < upd.len() && upd[j].0 == key {
            let j = choose|j: int| 0 <= j < upd.len() && upd[j].0 == key;
            assert(entries[j].0 == key);
        }
        assert(upd[i].0 == k);
    }
    assert forall|key: u16| #[trigger] gesture_map(upd).contains_key(key) implies gesture_map(upd)[key]
        == gesture_map(entries).insert(k, g)[key] by {
        lemma_gesture_map_contains(upd, key);
        let j = choose|j: int| 0 <= j < upd.len() && upd[j].0 == key;
        lemma_gesture_map_at(upd, j);
        if j != i {
            lemma_gesture_map_at(entries, j);
        }
    }
    assert(gesture_map(upd) =~= gesture_map(entries).insert(k, g));
}

/// Tracks gesture state for all active (held) gesture buttons.
///
/// Created per-connection. Dropped on disconnect, naturally resetting state.
pub struct GestureTracker {
    active: Vec<(u16, ActiveGesture)>,
}

impl View for GestureTracker {
    type V = Map<u16, ActiveGesture>;

    closed spec fn view(&self) -> Map<u16, ActiveGesture> {
        gesture_map(self.active@)
    }
}

impl GestureTracker {
    #[verifier::type_invariant]
    spec fn inv(&self) -> bool {
        unique_cids(self.active@)
    }

    /// A tracker with no held gesture button.
    pub fn new() -> (t: Self)
        ensures
            t@ == Map::<u16, ActiveGesture>::empty(),
    {
        GestureTracker { active: Vec::new() }
    }

    fn find(&self, cid: u16) -> (idx: Option<usize>)
        ensures
            match idx {
                Some(i) => i < self.active@.len() && self.active@[i as int].0 == cid,
                None => forall|j: int| 0 <= j < self.active@.len() ==> self.active@[j].0 != cid,
            },
    {
        let mut i: usize = 0;
        while i < self.active.len()
            invariant
                i <= self.active@.len(),
                forall|j: int| 0 <= j < i ==> self.active@[j].0 != cid,
            decreases self.active@.len() - i,
        {
            if self.active[i].0 == cid {
                return Some(i);
            }
            i = i + 1;
        }
        None
    }

    /// The gesture held for a button, if it is held.
    pub fn held(&self, cid: u16) -> (g: Option<ActiveGesture>)
        ensures
            g == (if self@.contains_key(cid) {
                Some(self@[cid])
            } else {
                None
            }),
    {
        proof {
            use_type_invariant(self);
            lemma_gesture_map_contains(self.active@, cid);
        }
        match self.find(cid) {
            Some(i) => {
                proof {
                    lemma_gesture_map_at(self.active@, i as int);
                }
                Some(self.active[i].1)
            },
            None => None,
        }
    }

    /// Whether every held gesture can be resolved: no displacement sits at
    /// `i32::MIN`, whose absolute value does not fit.
    pub fn releasable(&self) -> (b: bool)
        ensures
            b == (forall|c: u16| #[trigger] self@.contains_key(c) ==> self@[c].dx != i32::MIN
                && self@[c].dy != i32::MIN),
    {
        proof {
            use_type_invariant(self);
        }
        let mut i: usize = 0;
        while i < self.active.len()
            invariant
                unique_cids(self.active@),
                i <= self.active@.len(),
                forall|j: int| 0 <= j < i ==> (#[trigger] self.active@[j]).1.dx != i32::MIN
                    && self.active@[j].1.dy != i32::MIN,
            decreases self.active@.len() - i,
        {
            let g = self.active[i].1;
            if g.dx == i32::MIN || g.dy == i32::MIN {
                proof {
                    lemma_gesture_map_at(self.active@, i as int);
                    assert(self@.contains_key(self.active@[i as int].0));
                }
                return false;
            }
            i = i + 1;
        }
        assert forall|c: u16| #[trigger] self@.contains_key(c) implies self@[c].dx != i32::MIN
            && self@[c].dy != i32::MIN by {
            lemma_gesture_map_contains(self.active@, c);
            let j = choose|j: int| 0 <= j < self.active@.len() && self.active@[j].0 == c;
            lemma_gesture_map_at(self.active@, j);
        }
        true
    }

    /// Whether a rawXY event can be added to every held gesture without
    /// leaving the `i32` range.
    pub fn accepts_xy(&self, dx: i16, dy: i16) -> (b: bool)
        ensures
            b == (forall|c: u16| #[trigger] self@.contains_key(c) ==> xy_fits(self@[c], dx, dy)),
    {
        proof {
            use_type_invariant(self);
        }
        let mut i: usize = 0;
        while i < self.active.len()
            invariant
                unique_cids(self.active@),
                i <= self.active@.len(),
                forall|j: int| 0 <= j < i ==> xy_fits((#[trigger] self.active@[j]).1, dx, dy),
            decreases self.active@.len() - i,
        {
            let g = self.active[i].1;
            if g.first_xy_discarded {
                let nx: i64 = g.dx as i64 + dx as i64;
                let ny: i64 = g.dy as i64 + dy as i64;
                if nx < i32::MIN as i64 || nx > i32::MAX as i64 || ny < i32::MIN as i64 || ny
                    > i32::MAX as i64 {
                    proof {
                        lemma_gesture_map_at(self.active@, i as int);
                        assert(self@.contains_key(self.active@[i as int].0));
                    }
                    return false;
                }
            }
            i = i + 1;
        }
        assert forall|c: u16| #[trigger] self@.contains_key(c) implies xy_fits(self@[c], dx, dy) by {
            lemma_gesture_map_contains(self.active@, c);
            let j = choose|j: int| 0 <= j < self.active@.len() && self.active@[j].0 == c;
            lemma_gesture_map_at(self.active@, j);
        }
        true
    }

    /// Called when a gesture-configured button is pressed: tracking of
    /// that button starts over.
    pub fn button_pressed(&mut self, cid: u16)
        ensures
            final(self)@ == old(self)@.insert(cid, fresh_gesture()),
    {
        proof {
            use_type_invariant(&*self);
        }
        let fresh = ActiveGesture { dx: 0, dy: 0, first_xy_discarded: false };
        let found = self.find(cid);
        let mut active = Vec::new();
        std::mem::swap(&mut active, &mut self.active);
        match found {
            Some(i) => {
                proof {
                    lemma_gesture_map_update(active@, i as int, fresh);
                }
                active.set(i, (cid, fresh));
            },
            None => {
                let ghost before = active@;
                proof {
                    lemma_gesture_map_contains(before, cid);
                }
                active.push((cid, fresh));
                assert(active@.drop_last() =~= before);
                assert(unique_cids(active@)) by {
                    assert forall|a: int, b: int|
                        0 <= a < active@.len() && 0 <= b < active@.len() && a != b implies active@[a].0
                        != active@[b].0 by {
                        if a < before.len() {
                            assert(active@[a] == before[a]);
                        }
                        if b < before.len() {
                            assert(active@[b] == before[b]);
                        }
                    }
                }
            },
        }
        self.active = active;
    }

    /// Called when a gesture-configured button is released: `None` if the
    /// button was not tracked, else the resolved gesture; tracking of the
    /// button ends.
    pub fn button_released(&mut self, cid: u16, threshold: i32) -> (r: Option<GestureResult>)
        requires
            old(self)@.contains_key(cid) ==> old(self)@[cid].dx != i32::MIN && old(self)@[cid].dy
                != i32::MIN,
        ensures
            final(self)@ == old(self)@.remove(cid),
            r == released_gesture(old(self)@, cid, threshold),
    {
        proof {
            use_type_invariant(&*self);
            lemma_gesture_map_contains(self.active@, cid);
        }
        let i = match self.find(cid) {
            Some(i) => i,
            None => {
                assert(self@.remove(cid) =~= self@);
                return None;
            },
        };
        proof {
            lemma_gesture_map_at(self.active@, i as int);
            lemma_gesture_map_remove(self.active@, i as int);
        }
        let mut active = Vec::new();
        std::mem::swap(&mut active, &mut self.active);
        let (_, gesture) = active.remove(i);
        self.active = active;

        let abs_dx: i32 = if gesture.dx < 0 {
            -gesture.dx
        } else {
            gesture.dx
        };
        let abs_dy: i32 = if gesture.dy < 0 {
            -gesture.dy
        } else {
            gesture.dy
        };
        let magnitude = if abs_dx >= abs_dy {
            abs_dx
        } else {
            abs_dy
        };

        if magnitude < threshold {
            return Some(GestureResult::Tap);
        }
        let direction = if abs_dx > abs_dy {
            if gesture.dx > 0 {
                GestureDirection::Right
            } else {
                GestureDirection::Left
            }
        } else if gesture.dy > 0 {
            GestureDirection::Down
        } else {
            GestureDirection::Up
        };
        Some(GestureResult::Direction(direction))
    }

    /// Feed a rawXY event into every held gesture; `true` if some gesture
    /// button is held (the event is consumed).
    ///
    /// The first event after a press is the phantom sensor flush and only
    /// marks itself discarded; later events add their displacement.
    pub fn feed_raw_xy(&mut self, dx: i16, dy: i16) -> (consumed: bool)
        requires
            forall|c: u16| old(self)@.contains_key(c) ==> xy_fits(#[trigger] old(self)@[c], dx, dy),
        ensures
            consumed == !old(self)@.is_empty(),
            final(self)@ == held_after_xy(old(self)@, dx, dy),
            final(self)@.dom() == old(self)@.dom(),
            forall|c: u16| #[trigger] old(self)@.contains_key(c) ==> final(self)@[c] == gesture_after_xy(old(self)@[c], dx, dy),
    {
        proof {
            use_type_invariant(&*self);
            lemma_gesture_map_len(self.active@);
        }
        if self.active.len() == 0 {
            assert(self@.dom() =~= Set::<u16>::empty());
            return false;
        }
        assert(self@.dom().contains(self.active@[0].0)) by {
            lemma_gesture_map_at(self.active@, 0);
        }
        let ghost start = self.active@;
        let mut active = Vec::new();
        std::mem::swap(&mut active, &mut self.active);
        let mut i: usize = 0;
        while i < active.len()
            invariant
                unique_cids(active@),
                unique_cids(start),
                active@.len() == start.len(),
                i <= start.len(),
                forall|c: u16| gesture_map(start).contains_key(c) ==> xy_fits(#[trigger] gesture_map(start)[c], dx, dy),
                forall|j: int| 0 <= j < start.len() ==> #[trigger] active@[j].0 == start[j].0,
                forall|j: int| 0 <= j < i ==> #[trigger] active@[j].1 == gesture_after_xy(start[j].1, dx, dy),
                forall|j: int| i <= j < start.len() ==> #[trigger] active@[j].1 == start[j].1,
            decreases start.len() - i,
        {
            let (cid, g) = active[i];
            proof {
                lemma_gesture_map_at(start, i as int);
            }
            let next = if !g.first_xy_discarded {
                ActiveGesture { dx: g.dx, dy: g.dy, first_xy_discarded: true }
            } else {
                ActiveGesture {
                    dx: g.dx + dx as i32,
                    dy: g.dy + dy as i32,
                    first_xy_discarded: true,
                }
            };
            proof {
                lemma_gesture_map_update(active@, i as int, next);
            }
            active.set(i, (cid, next));
            i = i + 1;
        }
        assert forall|c: u16| #[trigger] gesture_map(start).contains_key(c) implies gesture_map(active@).contains_key(c)
            && gesture_map(active@)[c] == gesture_after_xy(gesture_map(start)[c], dx, dy) by {
            lemma_gesture_map_contains(start, c);
            let j = choose|j: int| 0 <= j < start.len() && start[j].0 == c;
            lemma_gesture_map_at(start, j);
            lemma_gesture_map_at(active@, j);
        }
        assert forall|c: u16| #[trigger] gesture_map(active@).contains_key(c) implies gesture_map(start).contains_key(c) by {
            lemma_gesture_map_contains(start, c);
            lemma_gesture_map_contains(active@, c);
            let j = choose|j: int| 0 <= j < active@.len() && active@[j].0 == c;
            assert(start[j].0 == c);
        }
        self.active = active;
        assert(self@.dom() =~= gesture_map(start).dom());
        assert(self@ =~= held_after_xy(gesture_map(start), dx, dy));
        true
    }
}

/// A press followed by a release with no rawXY event in between is a tap,
/// whatever else is held, for any positive threshold.
pub proof fn lemma_press_release_is_tap(held: Map<u16, ActiveGesture>, cid: u16, threshold: i32)
    requires
        threshold > 0,
    ensures
        held.insert(cid, fresh_gesture()).contains_key(cid),
        resolve_gesture(
            held.insert(cid, fresh_gesture())[cid].dx,
            held.insert(cid, fresh_gesture())[cid].dy,
            threshold,
        ) == GestureResult::Tap,
{
}

/// The first rawXY event after a press is the phantom sensor flush: it
/// adds no displacement, and every later event adds its own.
pub proof fn lemma_phantom_discarded(dx1: i16, dy1: i16, dx2: i16, dy2: i16)
    ensures
        gesture_after_xy(fresh_gesture(), dx1, dy1) == (ActiveGesture {
            dx: 0,
            dy: 0,
            first_xy_discarded: true,
        }),
        gesture_after_xy(gesture_after_xy(fresh_gesture(), dx1, dy1), dx2, dy2) == (ActiveGesture {
            dx: dx2 as i32,
            dy: dy2 as i32,
            first_xy_discarded: true,
        }),
{
}

/// A gesture resolves to a swipe exactly when its larger displacement
/// reaches the threshold, and the swipe follows the sign of the dominant
/// axis.
pub proof fn lemma_resolve_direction(dx: i32, dy: i32, threshold: i32)
    ensures
        (resolve_gesture(dx, dy, threshold) == GestureResult::Tap) <==> (abs_i32(dx) < threshold
            && abs_i32(dy) < threshold),
        resolve_gesture(dx, dy, threshold) == GestureResult::Direction(GestureDirection::Right)
            <==> (abs_i32(dx) >= threshold && abs_i32(dx) > abs_i32(dy) && dx > 0),
        resolve_gesture(dx, dy, threshold) == GestureResult::Direction(GestureDirection::Left)
            <==> (abs_i32(dx) >= threshold && abs_i32(dx) > abs_i32(dy) && dx <= 0),
        resolve_gesture(dx, dy, threshold) == GestureResult::Direction(GestureDirection::Down)
            <==> (abs_i32(dy) >= threshold && abs_i32(dy) >= abs_i32(dx) && dy > 0),
        resolve_gesture(dx, dy, threshold) == GestureResult::Direction(GestureDirection::Up)
            <==> (abs_i32(dy) >= threshold && abs_i32(dy) >= abs_i32(dx) && dy <= 0),
{
}

/// A release ends the tracking of its button: a second release of the
/// same button resolves nothing.
pub proof fn lemma_release_ends_tracking(held: Map<u16, ActiveGesture>, cid: u16)
    ensures
        !held.remove(cid).contains_key(cid),
{
}

/// Pressing a gesture button starts its tracking afresh, whatever it held
/// before, and leaves every other held button as it was.
pub proof fn lemma_press_restarts(held: Map<u16, ActiveGesture>, cid: u16, other: u16)
    requires
        other != cid,
    ensures
        held_after(held, GestureEvent::Pressed(cid)).contains_key(cid),
        held_after(held, GestureEvent::Pressed(cid))[cid] == fresh_gesture(),
        held_after(held, GestureEvent::Pressed(cid)).contains_key(other) == held.contains_key(
            other,
        ),
        held.contains_key(other) ==> held_after(held, GestureEvent::Pressed(cid))[other]
            == held[other],
{
}

proof fn lemma_moves_fit_prefix(moves: Seq<(i16, i16)>, p: (i16, i16))
    requires
        moves_fit(moves.push(p)),
    ensures
        moves_fit(moves),
{
    assert forall|k: int| 0 <= k <= moves.len() implies i32::MIN <= #[trigger] sum_dx(moves.take(k))
        <= i32::MAX && i32::MIN <= sum_dy(moves.take(k)) <= i32::MAX by {
        assert(moves.push(p).take(k) =~= moves.take(k));
    }
}

/// From the press of a gesture button on, through any events that do not
/// press or release that button again (other buttons may come and go),
/// the button is held and its gesture is the running total of every
/// rawXY displacement but the first (the phantom flush), provided those
/// totals stay in the `i32` range. Its release then resolves that total
/// against the threshold.
pub proof fn lemma_gesture_history(
    held: Map<u16, ActiveGesture>,
    cid: u16,
    events: Seq<GestureEvent>,
    threshold: i32,
)
    requires
        forall|i: int|
            0 <= i < events.len() ==> !(#[trigger] events[i] matches GestureEvent::Pressed(c)
                && c == cid) && !(events[i] matches GestureEvent::Released(c) && c == cid),
        moves_fit(after_phantom(raw_xy_moves(events))),
    ensures
        held_after_all(held.insert(cid, fresh_gesture()), events).contains_key(cid),
        held_after_all(held.insert(cid, fresh_gesture()), events)[cid] == (ActiveGesture {
            dx: sum_dx(after_phantom(raw_xy_moves(events))) as i32,
            dy: sum_dy(after_phantom(raw_xy_moves(events))) as i32,
            first_xy_discarded: raw_xy_moves(events).len() > 0,
        }),
        released_gesture(held_after_all(held.insert(cid, fresh_gesture()), events), cid, threshold)
            == Some(
            resolve_gesture(
                sum_dx(after_phantom(raw_xy_moves(events))) as i32,
                sum_dy(after_phantom(raw_xy_moves(events))) as i32,
                threshold,
            ),
        ),
        !held_after(
            held_after_all(held.insert(cid, fresh_gesture()), events),
            GestureEvent::Released(cid),
        ).contains_key(cid),
    decreases events.len(),
{
    let start = held.insert(cid, fresh_gesture());
    let moves = raw_xy_moves(events);
    if events.len() == 0 {
    } else {
        let init = events.drop_last();
        let last = events.last();
        let init_moves = raw_xy_moves(init);
        assert forall|i: int| 0 <= i < init.len() implies !(#[trigger] init[i] matches GestureEvent::Pressed(
            c,
        ) && c == cid) && !(init[i] matches GestureEvent::Released(c) && c == cid) by {
            assert(init[i] == events[i]);
        }
        assert(!(events[events.len() - 1] matches GestureEvent::Pressed(c) && c == cid));
        assert(!(events[events.len() - 1] matches GestureEvent::Released(c) && c == cid));
        match last {
            GestureEvent::RawXy(dx, dy) => {
                assert(moves == init_moves.push((dx, dy)));
                if init_moves.len() > 0 {
                    assert(after_phantom(moves) =~= init_moves.skip(1).push((dx, dy)));
                    lemma_moves_fit_prefix(init_moves.skip(1), (dx, dy));
                } else {
                    assert(after_phantom(moves) =~= Seq::<(i16, i16)>::empty());
                }
            },
            _ => {
                assert(moves == init_moves);
            },
        }
        lemma_gesture_history(held, cid, init, threshold);
        let before = held_after_all(start, init);
        match last {
            GestureEvent::RawXy(dx, dy) => {
                if init_moves.len() > 0 {
                    let s = init_moves.skip(1);
                    let full = s.push((dx, dy));
                    assert(full.take(full.len() as int) =~= full);
                    assert(full.take(s.len() as int) =~= s);
                    assert(full.drop_last() =~= s);
                }
            },
            _ => {},
        }
        assert(held_after_all(start, events) == held_after(before, last));
    }
}

/// After a press, whatever the button held before, a release right away
/// is a tap for any positive threshold; after two moves, the release
/// depends on the second move and the threshold alone (the first is the
/// phantom flush), and every other held button keeps its gesture.
pub proof fn lemma_press_then_two_moves(
    held: Map<u16, ActiveGesture>,
    cid: u16,
    p: i16,
    q: i16,
    x: i16,
    y: i16,
    threshold: i32,
)
    ensures
        threshold >= 1 ==> released_gesture(held.insert(cid, fresh_gesture()), cid, threshold)
            == Some(GestureResult::Tap),
        released_gesture(
            held_after_xy(held_after_xy(held.insert(cid, fresh_gesture()), p, q), x, y),
            cid,
            threshold,
        ) == Some(resolve_gesture(x as i32, y as i32, threshold)),
        forall|other: u16|
            other != cid ==> (#[trigger] held.insert(cid, fresh_gesture()).contains_key(other)
                == held.contains_key(other)) && (held.contains_key(other) ==> held.insert(
                cid,
                fresh_gesture(),
            )[other] == held[other]),
{
    let h1 = held_after_xy(held.insert(cid, fresh_gesture()), p, q);
    assert(h1.contains_key(cid));
    assert(h1[cid] == (ActiveGesture { dx: 0, dy: 0, first_xy_discarded: true }));
    let h2 = held_after_xy(h1, x, y);
    assert(h2.contains_key(cid));
    assert(h2[cid] == (ActiveGesture { dx: x as i32, dy: y as i32, first_xy_discarded: true }));
}

} // verus!
