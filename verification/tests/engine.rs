use keypress_race::race_engine::{RaceEngine, RaceState, RenderEvent};

#[test]
fn race_to_target_three() {
    let mut e = RaceEngine::new(3);
    e.start();
    // first counted press starts the clock
    assert_eq!(
        e.on_key_down("A".to_string(), false, 100),
        Some(RenderEvent::Progress)
    );
    // auto-repeat of the held key is ignored
    assert_eq!(e.on_key_down("A".to_string(), true, 150), None);
    e.on_key_up(&"A".to_string());
    assert_eq!(
        e.on_key_down("A".to_string(), false, 200),
        Some(RenderEvent::Progress)
    );
    assert_eq!(
        e.on_key_down("B".to_string(), false, 300),
        Some(RenderEvent::Finished { total_ms: 200 })
    );
    assert_eq!(e.current_state(), RaceState::Finished);
    assert_eq!(e.stats_snapshot(300).count, 3);
}

#[test]
fn presses_after_finish_are_dropped() {
    let mut e = RaceEngine::new(3);
    e.start();
    for now in [100, 200, 300] {
        e.on_key_down(format!("k{now}"), false, now);
    }
    assert_eq!(e.current_state(), RaceState::Finished);
    assert_eq!(e.record_distinct_press(400), None);
    assert_eq!(e.on_key_down("Z".to_string(), false, 500), None);
    let snap = e.stats_snapshot(600);
    assert_eq!(snap.count, 3);
    assert_eq!(e.current_state(), RaceState::Finished);
}

#[test]
fn presses_while_idle_are_dropped() {
    let mut e = RaceEngine::new(3);
    assert_eq!(e.record_distinct_press(100), None);
    assert_eq!(e.on_key_down("A".to_string(), false, 100), None);
    let snap = e.stats_snapshot(200);
    assert_eq!(snap.count, 0);
    assert_eq!(snap.elapsed_ms, 0);
    assert_eq!(e.current_state(), RaceState::Idle);
}

#[test]
fn direct_press_while_running_counts() {
    let mut e = RaceEngine::new(3);
    e.start();
    assert_eq!(e.record_distinct_press(250), Some(RenderEvent::Progress));
    let snap = e.stats_snapshot(250);
    assert_eq!(snap.count, 1);
    assert_eq!(snap.elapsed_ms, 0);
}

#[test]
fn fresh_stats_are_all_zero() {
    let mut e = RaceEngine::new(1000);
    e.start();
    let snap = e.stats_snapshot(12345);
    assert_eq!(snap.count, 0);
    assert_eq!(snap.target, 1000);
    assert_eq!(snap.percent_hundredths, 0);
    assert_eq!(snap.elapsed_ms, 0);
    assert_eq!(snap.rate_millis, 0);
    assert!(!snap.finished);
}

#[test]
fn second_start_is_a_noop() {
    let mut e = RaceEngine::new(5);
    e.start();
    assert_eq!(
        e.on_key_down("a".to_string(), false, 1000),
        Some(RenderEvent::Progress)
    );
    // the race is running: a second start must not clear anything
    e.start();
    assert_eq!(e.current_state(), RaceState::Running);
    let snap = e.stats_snapshot(1000);
    assert_eq!(snap.count, 1);
    // the key is still held, too
    assert_eq!(e.on_key_down("a".to_string(), false, 1100), None);
}

#[test]
fn reset_keeps_last_finish_duration() {
    let mut e = RaceEngine::new(2);
    e.start();
    e.on_key_down("a".to_string(), false, 1000);
    assert_eq!(
        e.on_key_down("b".to_string(), false, 1500),
        Some(RenderEvent::Finished { total_ms: 500 })
    );
    assert_eq!(e.last_finish_ms(), 500);
    e.reset();
    assert_eq!(e.current_state(), RaceState::Idle);
    assert_eq!(e.stats_snapshot(2000).count, 0);
    assert_eq!(e.last_finish_ms(), 500);
}

#[test]
fn start_after_finish_clears_the_race() {
    let mut e = RaceEngine::new(1);
    e.start();
    e.on_key_down("a".to_string(), false, 1000);
    assert_eq!(e.current_state(), RaceState::Finished);
    e.start();
    assert_eq!(e.current_state(), RaceState::Running);
    let snap = e.stats_snapshot(1000);
    assert_eq!(snap.count, 0);
    assert_eq!(snap.elapsed_ms, 0);
    // the held key was cleared, so it counts again
    assert!(e.on_key_down("a".to_string(), false, 2000).is_some());
}

#[test]
fn elapsed_is_clamped_at_zero() {
    let mut e = RaceEngine::new(2);
    e.start();
    e.on_key_down("a".to_string(), false, 1000);
    assert_eq!(e.elapsed_ms(500), 0);
    assert_eq!(e.elapsed_ms(1700), 700);
}

#[test]
fn instant_finish_uses_epsilon_floor() {
    let mut e = RaceEngine::new(1);
    e.start();
    // the only press both starts the clock and finishes: total is 0 ms
    assert_eq!(
        e.on_key_down("a".to_string(), false, 1000),
        Some(RenderEvent::Finished { total_ms: 0 })
    );
    let snap = e.stats_snapshot(9999);
    assert!(snap.finished);
    assert_eq!(snap.elapsed_ms, 0);
    // rate = target / max(total, 1 ms): one press per millisecond
    assert_eq!(snap.rate_millis, 1_000_000);
    assert_eq!(snap.percent_hundredths, 10000);
}

#[test]
fn live_stats_formulas_are_exact() {
    let mut e = RaceEngine::new(4);
    e.start();
    e.on_key_down("a".to_string(), false, 1000);
    e.on_key_down("b".to_string(), false, 1000);
    let snap = e.stats_snapshot(5000);
    assert_eq!(snap.count, 2);
    assert_eq!(snap.target, 4);
    // 2 of 4 presses: 50.00%
    assert_eq!(snap.percent_hundredths, 5000);
    assert_eq!(snap.elapsed_ms, 4000);
    // 2 presses in 4 s: 0.5 presses per second
    assert_eq!(snap.rate_millis, 500);
    assert!(!snap.finished);
}

#[test]
fn frozen_stats_after_finish() {
    let mut e = RaceEngine::new(2);
    e.start();
    e.on_key_down("a".to_string(), false, 1000);
    e.on_key_down("b".to_string(), false, 3000);
    // the snapshot no longer follows the clock once finished
    let snap = e.stats_snapshot(50000);
    assert!(snap.finished);
    assert_eq!(snap.elapsed_ms, 2000);
    assert_eq!(snap.rate_millis, 1000);
}

#[test]
fn blur_mid_race_keeps_count_and_unblocks_key() {
    let mut e = RaceEngine::new(5);
    e.start();
    e.on_key_down("a".to_string(), false, 1000);
    e.on_blur();
    let snap = e.stats_snapshot(1000);
    assert_eq!(snap.count, 1);
    assert_eq!(e.current_state(), RaceState::Running);
    // no key-up for "a" arrived, yet it counts again after the blur
    assert!(e.on_key_down("a".to_string(), false, 2000).is_some());
}

#[test]
fn default_target_is_one_thousand() {
    let e = RaceEngine::new_default();
    assert_eq!(e.stats_snapshot(0).target, 1000);
}
