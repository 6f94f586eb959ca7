use chip_8_emulator::input::{InpuState, Key, KeyCode};

const KEYS: [Key; 16] = [
    Key::Zero, Key::One, Key::Two, Key::Three, Key::Four, Key::Five, Key::Six, Key::Seven,
    Key::Eight, Key::Nine, Key::A, Key::B, Key::C, Key::D, Key::E, Key::F,
];

#[test]
fn key_from_number() {
    for value in 0..16u8 {
        assert_eq!(Key::try_from(value), Ok(KEYS[value as usize]));
    }
}

#[test]
fn key_from_number_above_fifteen_fails() {
    assert_eq!(Key::try_from(16u8), Err(()));
    assert_eq!(Key::try_from(0x1Au8), Err(()));
    assert_eq!(Key::try_from(255u8), Err(()));
}

#[test]
fn key_into_number() {
    for value in 0..16u8 {
        assert_eq!(u8::from(KEYS[value as usize]), value);
        let through_into: u8 = KEYS[value as usize].into();
        assert_eq!(through_into, value);
    }
}

#[test]
fn key_from_key_code() {
    assert_eq!(Key::from_key_code(KeyCode::Numpad0), Some(Key::Zero));
    assert_eq!(Key::from_key_code(KeyCode::Numpad1), Some(Key::One));
    assert_eq!(Key::from_key_code(KeyCode::Numpad2), Some(Key::Two));
    assert_eq!(Key::from_key_code(KeyCode::Numpad3), Some(Key::Three));
    assert_eq!(Key::from_key_code(KeyCode::Numpad4), Some(Key::Four));
    assert_eq!(Key::from_key_code(KeyCode::Numpad5), Some(Key::Five));
    assert_eq!(Key::from_key_code(KeyCode::Numpad6), Some(Key::Six));
    assert_eq!(Key::from_key_code(KeyCode::Numpad7), Some(Key::Seven));
    assert_eq!(Key::from_key_code(KeyCode::Numpad8), Some(Key::Eight));
    assert_eq!(Key::from_key_code(KeyCode::Numpad9), Some(Key::Nine));
    assert_eq!(Key::from_key_code(KeyCode::KeyA), Some(Key::A));
    assert_eq!(Key::from_key_code(KeyCode::KeyB), Some(Key::B));
    assert_eq!(Key::from_key_code(KeyCode::KeyC), Some(Key::C));
    assert_eq!(Key::from_key_code(KeyCode::KeyD), Some(Key::D));
    assert_eq!(Key::from_key_code(KeyCode::KeyE), Some(Key::E));
    assert_eq!(Key::from_key_code(KeyCode::KeyF), Some(Key::F));
}

#[test]
fn key_code_outside_the_keypad_gives_no_key() {
    assert_eq!(Key::from_key_code(KeyCode::Other), None);
}

#[test]
fn new_input_state_holds_no_key() {
    let state = InpuState::new();
    for key in KEYS {
        assert!(!state.is_pressed(key));
    }
}

#[test]
fn press_then_release() {
    let mut state = InpuState::new();
    state.update(Key::Five, true);
    assert!(state.is_pressed(Key::Five));
    assert!(!state.is_pressed(Key::Six));
    state.update(Key::Five, false);
    assert!(!state.is_pressed(Key::Five));
}

#[test]
fn release_removes_every_copy_of_the_key() {
    let mut state = InpuState::new();
    state.update(Key::A, true);
    state.update(Key::B, true);
    state.update(Key::A, true);
    assert!(state.is_pressed(Key::A));
    state.update(Key::A, false);
    assert!(!state.is_pressed(Key::A));
    assert!(state.is_pressed(Key::B));
}

#[test]
fn release_of_a_key_not_held_changes_nothing() {
    let mut state = InpuState::new();
    state.update(Key::One, true);
    state.update(Key::Two, false);
    assert!(state.is_pressed(Key::One));
    assert!(!state.is_pressed(Key::Two));
}

#[test]
fn queued_transitions_wait_for_receive_keys() {
    let mut state = InpuState::new();
    state.enqueue(Key::C, true);
    assert!(!state.is_pressed(Key::C));
    state.receive_keys();
    assert!(state.is_pressed(Key::C));
}

#[test]
fn receive_keys_applies_in_arrival_order() {
    let mut state = InpuState::new();
    state.enqueue(Key::C, true);
    state.enqueue(Key::C, false);
    state.enqueue(Key::D, false);
    state.enqueue(Key::D, true);
    state.receive_keys();
    assert!(!state.is_pressed(Key::C));
    assert!(state.is_pressed(Key::D));
    // nothing is left to apply
    state.update(Key::D, false);
    state.receive_keys();
    assert!(!state.is_pressed(Key::D));
}

#[test]
fn wait_returns_first_of_two_presses() {
    let mut state = InpuState::new();
    state.enqueue(Key::A, true);
    state.enqueue(Key::B, true);
    assert_eq!(state.wait_for_key(), Some(Key::A));
    // the press of B was left alone
    assert!(state.is_pressed(Key::A));
    assert!(!state.is_pressed(Key::B));
    state.receive_keys();
    assert!(state.is_pressed(Key::B));
}

#[test]
fn wait_without_transitions_gives_nothing() {
    let mut state = InpuState::new();
    assert_eq!(state.wait_for_key(), None);
    state.enqueue(Key::Seven, true);
    assert_eq!(state.wait_for_key(), Some(Key::Seven));
}

#[test]
fn wait_ignores_a_press_behind_the_earliest_key() {
    let mut state = InpuState::new();
    state.update(Key::One, true);
    state.enqueue(Key::Two, true);
    assert_eq!(state.wait_for_key(), None);
    assert!(state.is_pressed(Key::Two));
    // once the earliest key goes up, the next one held is the earliest
    state.enqueue(Key::One, false);
    assert_eq!(state.wait_for_key(), Some(Key::Two));
}

#[test]
fn wait_ignores_releases_that_leave_no_key() {
    let mut state = InpuState::new();
    state.update(Key::One, true);
    state.enqueue(Key::One, false);
    assert_eq!(state.wait_for_key(), None);
    assert!(!state.is_pressed(Key::One));
}

#[test]
fn wait_keeps_comparing_with_the_key_held_at_its_start() {
    let mut state = InpuState::new();
    state.update(Key::One, true);
    state.enqueue(Key::One, false);
    assert_eq!(state.wait_for_key(), None);
    // the same key again is no new key for the wait that is still open
    state.enqueue(Key::One, true);
    assert_eq!(state.wait_for_key(), None);
    state.enqueue(Key::One, false);
    state.enqueue(Key::Nine, true);
    assert_eq!(state.wait_for_key(), Some(Key::Nine));
}

#[test]
fn a_new_wait_compares_with_the_key_held_now() {
    let mut state = InpuState::new();
    state.enqueue(Key::One, true);
    assert_eq!(state.wait_for_key(), Some(Key::One));
    // the first wait is over: One is now the key to differ from
    state.enqueue(Key::One, false);
    state.enqueue(Key::One, true);
    assert_eq!(state.wait_for_key(), None);
    state.enqueue(Key::One, false);
    state.enqueue(Key::Two, true);
    assert_eq!(state.wait_for_key(), Some(Key::Two));
}

#[test]
fn wait_stops_at_the_transition_that_ends_it() {
    let mut state = InpuState::new();
    state.enqueue(Key::E, false);
    state.enqueue(Key::F, true);
    state.enqueue(Key::F, false);
    assert_eq!(state.wait_for_key(), Some(Key::F));
    assert!(state.is_pressed(Key::F));
    state.receive_keys();
    assert!(!state.is_pressed(Key::F));
}
