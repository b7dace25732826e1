use hidpp::daemon::gesture::{GestureDirection, GestureResult, GestureTracker};

#[test]
fn tap_no_movement() {
    let mut t = GestureTracker::new();
    t.button_pressed(195);
    let r = t.button_released(195, 50);
    assert_eq!(r, Some(GestureResult::Tap));
}

#[test]
fn swipe_right() {
    let mut t = GestureTracker::new();
    t.button_pressed(195);
    t.feed_raw_xy(100, 0);
    t.feed_raw_xy(30, 5);
    t.feed_raw_xy(30, 5);
    let r = t.button_released(195, 50);
    assert_eq!(r, Some(GestureResult::Direction(GestureDirection::Right)));
}

#[test]
fn swipe_left() {
    let mut t = GestureTracker::new();
    t.button_pressed(195);
    t.feed_raw_xy(0, 0);
    t.feed_raw_xy(-40, 5);
    t.feed_raw_xy(-40, 5);
    let r = t.button_released(195, 50);
    assert_eq!(r, Some(GestureResult::Direction(GestureDirection::Left)));
}

#[test]
fn swipe_up() {
    let mut t = GestureTracker::new();
    t.button_pressed(195);
    t.feed_raw_xy(0, 0);
    t.feed_raw_xy(5, -60);
    let r = t.button_released(195, 50);
    assert_eq!(r, Some(GestureResult::Direction(GestureDirection::Up)));
}

#[test]
fn swipe_down() {
    let mut t = GestureTracker::new();
    t.button_pressed(195);
    t.feed_raw_xy(0, 0);
    t.feed_raw_xy(-3, 80);
    let r = t.button_released(195, 50);
    assert_eq!(r, Some(GestureResult::Direction(GestureDirection::Down)));
}

#[test]
fn phantom_event_discarded() {
    let mut t = GestureTracker::new();
    t.button_pressed(195);
    t.feed_raw_xy(500, 500);
    t.feed_raw_xy(0, 0);
    let r = t.button_released(195, 50);
    assert_eq!(r, Some(GestureResult::Tap));
}

#[test]
fn below_threshold_is_tap() {
    let mut t = GestureTracker::new();
    t.button_pressed(195);
    t.feed_raw_xy(5, 5);
    t.feed_raw_xy(10, 10);
    let r = t.button_released(195, 50);
    assert_eq!(r, Some(GestureResult::Tap));
}

#[test]
fn release_without_press_returns_none() {
    let mut t = GestureTracker::new();
    let r = t.button_released(195, 50);
    assert_eq!(r, None);
}

#[test]
fn feed_xy_without_active_gesture() {
    let mut t = GestureTracker::new();
    assert!(!t.feed_raw_xy(10, 10));
}

#[test]
fn threshold_boundary() {
    let mut t = GestureTracker::new();
    t.button_pressed(195);
    t.feed_raw_xy(0, 0);
    t.feed_raw_xy(49, 0);
    let r = t.button_released(195, 50);
    assert_eq!(r, Some(GestureResult::Tap));

    t.button_pressed(195);
    t.feed_raw_xy(0, 0);
    t.feed_raw_xy(50, 0);
    let r = t.button_released(195, 50);
    assert_eq!(r, Some(GestureResult::Direction(GestureDirection::Right)));
}

#[test]
fn second_release_resolves_nothing() {
    let mut t = GestureTracker::new();
    t.button_pressed(195);
    assert_eq!(t.button_released(195, 50), Some(GestureResult::Tap));
    assert_eq!(t.button_released(195, 50), None);
}

#[test]
fn press_restarts_gesture() {
    let mut t = GestureTracker::new();
    t.button_pressed(195);
    t.feed_raw_xy(0, 0);
    t.feed_raw_xy(100, 0);
    t.button_pressed(195);
    assert_eq!(t.held(195).map(|g| (g.dx, g.dy, g.first_xy_discarded)), Some((0, 0, false)));
    assert_eq!(t.button_released(195, 50), Some(GestureResult::Tap));
}

#[test]
fn vertical_wins_on_tie() {
    let mut t = GestureTracker::new();
    t.button_pressed(195);
    t.feed_raw_xy(0, 0);
    t.feed_raw_xy(60, -60);
    assert_eq!(t.button_released(195, 50), Some(GestureResult::Direction(GestureDirection::Up)));
}

#[test]
fn two_buttons_tracked_separately() {
    let mut t = GestureTracker::new();
    t.button_pressed(195);
    t.button_pressed(196);
    t.feed_raw_xy(0, 0);
    t.feed_raw_xy(0, 70);
    assert_eq!(t.button_released(196, 50), Some(GestureResult::Direction(GestureDirection::Down)));
    assert_eq!(t.button_released(195, 50), Some(GestureResult::Direction(GestureDirection::Down)));
}

#[test]
fn releasable_and_accepts_xy() {
    let mut t = GestureTracker::new();
    assert!(t.releasable());
    assert!(t.accepts_xy(i16::MAX, i16::MIN));
    t.button_pressed(195);
    t.feed_raw_xy(0, 0);
    assert!(t.accepts_xy(100, -100));
    assert!(t.releasable());
}
