use rae_app::keyboard::ElementState;
use rae_app::keyboard::KeyboardState;

#[test]
fn key_state_defaults_to_released() {
    let mut kb = KeyboardState::new();
    assert_eq!(kb.key_state(Some(1), 2, 3), ElementState::Released);
    assert_eq!(kb.key_state(None, 2, 3), ElementState::Released);
    assert_eq!(kb.key_state(Some(1), 2, 127), ElementState::Released);
}

#[test]
fn first_press_is_not_repeat() {
    let mut kb = KeyboardState::new();
    let repeat = kb.transition(Some(1), 2, 30, ElementState::Pressed);
    assert!(!repeat);
    assert_eq!(kb.key_state(Some(1), 2, 30), ElementState::Pressed);
}

#[test]
fn held_press_is_repeat() {
    let mut kb = KeyboardState::new();
    assert!(!kb.transition(Some(1), 2, 30, ElementState::Pressed));
    assert!(kb.transition(Some(1), 2, 30, ElementState::Pressed));
    assert!(kb.transition(Some(1), 2, 30, ElementState::Pressed));
}

#[test]
fn release_after_press_is_not_repeat() {
    let mut kb = KeyboardState::new();
    assert!(!kb.transition(Some(1), 2, 30, ElementState::Pressed));
    assert!(!kb.transition(Some(1), 2, 30, ElementState::Released));
}

#[test]
fn duplicate_release_counts_as_repeat() {
    // A release that duplicates the stored release is flagged a repeat; the
    // event source's alternation of presses and releases keeps this case out
    // of ordinary streams.
    let mut kb = KeyboardState::new();
    assert!(!kb.transition(Some(1), 2, 30, ElementState::Pressed));
    assert!(!kb.transition(Some(1), 2, 30, ElementState::Released));
    assert!(kb.transition(Some(1), 2, 30, ElementState::Released));
}

#[test]
fn window_and_device_scopes_are_independent() {
    let mut kb = KeyboardState::new();
    assert!(!kb.transition(Some(1), 2, 30, ElementState::Pressed));
    // Same device and scan code, device-global scope: still unseen.
    assert!(!kb.transition(None, 2, 30, ElementState::Pressed));
    // Each scope now repeats independently.
    assert!(kb.transition(Some(1), 2, 30, ElementState::Pressed));
    assert!(kb.transition(None, 2, 30, ElementState::Pressed));
}

#[test]
fn distinct_windows_devices_and_keys_are_independent() {
    let mut kb = KeyboardState::new();
    assert!(!kb.transition(Some(1), 2, 30, ElementState::Pressed));
    assert!(!kb.transition(Some(9), 2, 30, ElementState::Pressed));
    assert!(!kb.transition(Some(1), 7, 30, ElementState::Pressed));
    assert!(!kb.transition(Some(1), 2, 31, ElementState::Pressed));
    assert_eq!(kb.key_state(Some(1), 2, 30), ElementState::Pressed);
    assert_eq!(kb.key_state(Some(9), 2, 30), ElementState::Pressed);
    assert_eq!(kb.key_state(Some(1), 7, 30), ElementState::Pressed);
    assert_eq!(kb.key_state(Some(1), 2, 31), ElementState::Pressed);
    assert_eq!(kb.key_state(Some(1), 2, 32), ElementState::Released);
}

#[test]
fn key_state_reads_do_not_disturb_repeat_detection() {
    let mut kb = KeyboardState::new();
    assert!(!kb.transition(Some(1), 2, 30, ElementState::Pressed));
    assert_eq!(kb.key_state(Some(1), 2, 30), ElementState::Pressed);
    assert!(kb.transition(Some(1), 2, 30, ElementState::Pressed));
}
