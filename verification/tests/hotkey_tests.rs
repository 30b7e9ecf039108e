use dictation_core::hotkey::{
    gesture_mode_of_settings, DoubleTap, GestureMode, HotkeyManager, KeyEvent, KeyEventKind,
    PressAndHold, TapPhase, TriggerIntent,
};
use dictation_core::models::AppSettings;

fn down(at_ms: u64) -> KeyEvent {
    KeyEvent { kind: KeyEventKind::Down, at_ms }
}

fn up(at_ms: u64) -> KeyEvent {
    KeyEvent { kind: KeyEventKind::Up, at_ms }
}

#[test]
fn press_and_hold_starts_on_key_down() {
    let mut r = PressAndHold::new(300);
    assert_eq!(r.on_event(down(0)), Some(TriggerIntent::Start));
    assert_eq!(r.held_since, Some(0));
}

#[test]
fn press_and_hold_long_hold_stops() {
    let mut r = PressAndHold::new(300);
    assert_eq!(r.on_event(down(0)), Some(TriggerIntent::Start));
    assert_eq!(r.on_event(up(1200)), Some(TriggerIntent::Stop));
    assert_eq!(r.held_since, None);
}

#[test]
fn press_and_hold_short_hold_cancels() {
    // key-up at 100 ms, below the 300 ms debounce: Cancel, not Stop
    let mut r = PressAndHold::new(300);
    assert_eq!(r.on_event(down(0)), Some(TriggerIntent::Start));
    assert_eq!(r.on_event(up(100)), Some(TriggerIntent::Cancel));
}

#[test]
fn press_and_hold_boundary_is_a_stop() {
    let mut r = PressAndHold::new(300);
    assert_eq!(r.on_event(down(0)), Some(TriggerIntent::Start));
    assert_eq!(r.on_event(up(300)), Some(TriggerIntent::Stop));
}

#[test]
fn press_and_hold_ignores_key_repeat_and_stray_up() {
    let mut r = PressAndHold::new(300);
    assert_eq!(r.on_event(up(5)), None);
    assert_eq!(r.on_event(down(10)), Some(TriggerIntent::Start));
    assert_eq!(r.on_event(down(20)), None);
    assert_eq!(r.on_event(up(500)), Some(TriggerIntent::Stop));
    assert_eq!(r.on_event(up(600)), None);
}

#[test]
fn double_tap_two_taps_within_window_start() {
    let mut r = DoubleTap::new(400);
    assert_eq!(r.on_event(down(0)), None);
    assert_eq!(r.on_event(up(50)), None);
    // second key-down 150 ms after the first key-up: within the window
    assert_eq!(r.on_event(down(200)), Some(TriggerIntent::Start));
    assert!(r.active);
}

#[test]
fn double_tap_third_tap_within_window_ignored() {
    let mut r = DoubleTap::new(400);
    assert_eq!(r.on_event(down(0)), None);
    assert_eq!(r.on_event(up(50)), None);
    assert_eq!(r.on_event(down(200)), Some(TriggerIntent::Start));
    assert_eq!(r.on_event(up(250)), None);
    // a third tap within the window after the Start is a no-op
    assert_eq!(r.on_event(down(300)), None);
    assert_eq!(r.phase, TapPhase::Cooling { emitted_at: 200 });
    assert_eq!(r.on_event(up(350)), None);
    assert_eq!(r.on_event(down(500)), None);
    assert!(r.active);
}

#[test]
fn double_tap_late_tap_starts_fresh_sequence() {
    let mut r = DoubleTap::new(400);
    assert_eq!(r.on_event(down(0)), None);
    assert_eq!(r.on_event(up(50)), None);
    // 500 ms after the key-up: outside the window, a fresh sequence begins
    assert_eq!(r.on_event(down(550)), None);
    assert_eq!(r.phase, TapPhase::FirstDown { down_at: 550 });
    assert_eq!(r.on_event(up(600)), None);
    assert_eq!(r.on_event(down(700)), Some(TriggerIntent::Start));
}

#[test]
fn double_tap_stops_while_active() {
    let mut r = DoubleTap::new(400);
    assert_eq!(r.on_event(down(0)), None);
    assert_eq!(r.on_event(up(50)), None);
    assert_eq!(r.on_event(down(200)), Some(TriggerIntent::Start));
    assert_eq!(r.on_event(up(250)), None);
    // next qualifying tap sequence, well past the window: emits Stop
    assert_eq!(r.on_event(down(2000)), None);
    assert_eq!(r.on_event(up(2050)), None);
    assert_eq!(r.on_event(down(2200)), Some(TriggerIntent::Stop));
    assert!(!r.active);
}

#[test]
fn settings_select_the_recognizer() {
    let tap = AppSettings {
        recording_hotkey: String::from("double_tap"),
        language: String::from("en"),
    };
    assert_eq!(gesture_mode_of_settings(&tap), GestureMode::DoubleTap);
    let hold = AppSettings {
        recording_hotkey: String::from("press_and_hold"),
        language: String::from("en"),
    };
    assert_eq!(gesture_mode_of_settings(&hold), GestureMode::PressAndHold);
}

#[test]
fn manager_routes_to_configured_recognizer() {
    let mut m = HotkeyManager::new(GestureMode::PressAndHold, 300, 400);
    assert_eq!(m.on_key_event(down(0)), Some(TriggerIntent::Start));
    assert_eq!(m.tap.phase, TapPhase::Rest);

    let mut m2 = HotkeyManager::new(GestureMode::DoubleTap, 300, 400);
    assert_eq!(m2.on_key_event(down(0)), None);
    assert_eq!(m2.hold.held_since, None);
    assert_eq!(m2.on_key_event(up(50)), None);
    assert_eq!(m2.on_key_event(down(200)), Some(TriggerIntent::Start));
}
