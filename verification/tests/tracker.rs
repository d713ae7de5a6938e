use keypress_race::key_tracker::KeyTracker;

#[test]
fn distinct_press_cycle() {
    let mut t = KeyTracker::new();
    assert!(t.on_key_down("a".to_string(), false).is_some());
    // held: waiting for the release, a second down does not count
    assert!(t.on_key_down("a".to_string(), false).is_none());
    t.on_key_up(&"a".to_string());
    assert!(t.on_key_down("a".to_string(), false).is_some());
}

#[test]
fn repeat_events_never_count() {
    let mut t = KeyTracker::new();
    assert!(t.on_key_down("a".to_string(), true).is_none());
    // the repeat did not mark the key as held
    assert!(t.on_key_down("a".to_string(), false).is_some());
    // repeats while held are ignored too
    assert!(t.on_key_down("a".to_string(), true).is_none());
}

#[test]
fn blur_then_down_emits_without_keyup() {
    let mut t = KeyTracker::new();
    assert!(t.on_key_down("k".to_string(), false).is_some());
    // no key-up for "k" ever arrives; blur forcibly clears the held state
    t.on_blur();
    assert!(t.on_key_down("k".to_string(), false).is_some());
}

#[test]
fn keyup_of_unheld_key_is_noop() {
    let mut t = KeyTracker::new();
    t.on_key_up(&"x".to_string());
    assert!(t.on_key_down("x".to_string(), false).is_some());
}

#[test]
fn chord_counts_each_key_once() {
    let mut t = KeyTracker::new();
    assert!(t.on_key_down("a".to_string(), false).is_some());
    assert!(t.on_key_down("b".to_string(), false).is_some());
    assert!(t.on_key_down("c".to_string(), false).is_some());
    assert!(t.on_key_down("a".to_string(), false).is_none());
    assert!(t.on_key_down("b".to_string(), false).is_none());
}

#[test]
fn clear_behaves_like_blur() {
    let mut t = KeyTracker::new();
    assert!(t.on_key_down("a".to_string(), false).is_some());
    t.clear();
    assert!(t.on_key_down("a".to_string(), false).is_some());
}

#[test]
fn emitted_count_matches_qualifying_downs() {
    // down(a), repeat(a), down(a) while held, up(a), down(a): two of the
    // three non-repeat downs find the key unheld, so two presses count
    let mut t = KeyTracker::new();
    let mut emitted = 0;
    if t.on_key_down("a".to_string(), false).is_some() {
        emitted += 1;
    }
    if t.on_key_down("a".to_string(), true).is_some() {
        emitted += 1;
    }
    if t.on_key_down("a".to_string(), false).is_some() {
        emitted += 1;
    }
    t.on_key_up(&"a".to_string());
    if t.on_key_down("a".to_string(), false).is_some() {
        emitted += 1;
    }
    assert_eq!(emitted, 2);
}
