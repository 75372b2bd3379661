use vtseat::keys::{
    KeyState, KEY_ESC, KEY_F1, KEY_F3, KEY_LEFTALT, KEY_LEFTCTRL, KEY_RIGHTALT, KEY_RIGHTCTRL,
};
use vtseat::modifiers::{KeyEvent, ModifierState};

#[test]
fn held_set_tracks_press_release_interleavings() {
    let mut mods = ModifierState::new();
    mods.update(KEY_LEFTCTRL, KeyState::Pressed);
    mods.update(KEY_F1, KeyState::Pressed);
    mods.update(KEY_LEFTCTRL, KeyState::Released);
    assert!(!mods.is_pressed(KEY_LEFTCTRL));
    assert!(mods.is_pressed(KEY_F1));
    mods.update(KEY_F1, KeyState::Released);
    assert!(!mods.is_pressed(KEY_F1));
}

#[test]
fn repress_after_release_counts_as_held() {
    let mut mods = ModifierState::new();
    mods.update(KEY_LEFTALT, KeyState::Pressed);
    mods.update(KEY_LEFTALT, KeyState::Released);
    mods.update(KEY_LEFTALT, KeyState::Pressed);
    assert!(mods.is_pressed(KEY_LEFTALT));
    assert!(mods.is_alt_pressed());
}

#[test]
fn release_without_press_is_harmless() {
    let mut mods = ModifierState::new();
    mods.update(KEY_ESC, KeyState::Released);
    assert!(!mods.is_pressed(KEY_ESC));
}

#[test]
fn replaying_a_sequence_matches_stepwise_updates() {
    let events = vec![
        KeyEvent { key: KEY_LEFTCTRL, state: KeyState::Pressed },
        KeyEvent { key: KEY_RIGHTALT, state: KeyState::Pressed },
        KeyEvent { key: KEY_F3, state: KeyState::Pressed },
        KeyEvent { key: KEY_F3, state: KeyState::Released },
        KeyEvent { key: KEY_RIGHTALT, state: KeyState::Released },
    ];
    let mut replayed = ModifierState::new();
    replayed.apply_events(&events);
    let mut stepped = ModifierState::new();
    for e in &events {
        stepped.update(e.key, e.state);
    }
    for key in [KEY_LEFTCTRL, KEY_RIGHTALT, KEY_F3] {
        assert_eq!(replayed.is_pressed(key), stepped.is_pressed(key));
    }
    assert!(replayed.is_pressed(KEY_LEFTCTRL));
    assert!(!replayed.is_pressed(KEY_RIGHTALT));
    assert!(!replayed.is_pressed(KEY_F3));
}

#[test]
fn reset_empties_the_held_set() {
    let mut mods = ModifierState::new();
    mods.update(KEY_LEFTCTRL, KeyState::Pressed);
    mods.update(KEY_RIGHTCTRL, KeyState::Pressed);
    mods.update(KEY_LEFTALT, KeyState::Pressed);
    assert!(mods.is_ctrl_alt_pressed());
    mods.reset();
    assert!(!mods.is_pressed(KEY_LEFTCTRL));
    assert!(!mods.is_pressed(KEY_RIGHTCTRL));
    assert!(!mods.is_pressed(KEY_LEFTALT));
    assert!(!mods.is_ctrl_pressed());
    assert!(!mods.is_alt_pressed());
    assert!(!mods.is_ctrl_alt_pressed());
}

#[test]
fn left_and_right_modifier_variants_are_equivalent() {
    let mut left = ModifierState::new();
    left.update(KEY_LEFTCTRL, KeyState::Pressed);
    left.update(KEY_LEFTALT, KeyState::Pressed);
    assert!(left.is_ctrl_pressed());
    assert!(left.is_alt_pressed());
    assert!(left.is_ctrl_alt_pressed());

    let mut right = ModifierState::new();
    right.update(KEY_RIGHTCTRL, KeyState::Pressed);
    right.update(KEY_RIGHTALT, KeyState::Pressed);
    assert!(right.is_ctrl_pressed());
    assert!(right.is_alt_pressed());
    assert!(right.is_ctrl_alt_pressed());
}

#[test]
fn ctrl_alone_is_not_the_combo() {
    let mut mods = ModifierState::new();
    mods.update(KEY_LEFTCTRL, KeyState::Pressed);
    assert!(mods.is_ctrl_pressed());
    assert!(!mods.is_alt_pressed());
    assert!(!mods.is_ctrl_alt_pressed());
}
