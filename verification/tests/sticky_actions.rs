use rmk::event::{KeyPos, KeyboardEvent, KeyboardEventPos};
use rmk::sticky_actions::StickyOutput;
use rmk::sticky_key::{
    LatchPhase, StickyKeyPolicy, StickyKeyState, DOUBLE_TAP, LAYER_CHANGE, NEVER, OTHER_KEY_PRESS,
};

const LCTRL: u8 = 0x01;
const LSHIFT: u8 = 0x02;

fn pos(col: u8) -> KeyboardEventPos {
    KeyboardEventPos::Key(KeyPos { row: 0, col })
}

fn press(col: u8) -> KeyboardEvent {
    KeyboardEvent::key(0, col, true)
}

fn release(col: u8) -> KeyboardEvent {
    KeyboardEvent::key(0, col, false)
}

fn policy(release_mode: u8) -> StickyKeyPolicy {
    StickyKeyPolicy { timeout: 1000, activate_on_keypress: false, release_on_keyup_after: None, max_repeat: 0, release_mode }
}

#[test]
fn sticky_modifier_tap_latches_and_times_out() {
    let mut s = StickyKeyState::default();
    let out = s.process_sticky_modifier(LCTRL, policy(OTHER_KEY_PRESS), press(0), 100);
    assert!(out.is_empty());
    assert_eq!(s.modifiers(true), LCTRL);
    let out = s.process_sticky_modifier(LCTRL, policy(OTHER_KEY_PRESS), release(0), 150);
    assert!(out.is_empty());
    let l = s.modifier.unwrap();
    assert_eq!(l.phase, LatchPhase::Latched);
    assert_eq!(s.deadline(), Some(1150));
    // not yet
    assert!(s.release_sticky_key_if_active_on_timeout(1149).is_empty());
    assert!(s.modifier.is_some());
    // timed out: never reported, so nothing to send
    assert!(s.release_sticky_key_if_active_on_timeout(1150).is_empty());
    assert!(s.modifier.is_none());
}

#[test]
fn sticky_modifier_reported_on_keypress() {
    let mut p = policy(OTHER_KEY_PRESS);
    p.activate_on_keypress = true;
    let mut s = StickyKeyState::default();
    let out = s.process_sticky_modifier(LSHIFT, p, press(0), 0);
    assert_eq!(out, vec![StickyOutput::Report(true)]);
    assert!(s.modifier.unwrap().value.host_visible);
    s.process_sticky_modifier(LSHIFT, p, release(0), 10);
    // released on timeout: the host saw it, so a release report is due
    assert_eq!(s.release_sticky_key_if_active_on_timeout(2000), vec![StickyOutput::Report(false)]);
}

#[test]
fn sticky_modifier_chord_and_double_tap() {
    let p = policy(OTHER_KEY_PRESS | DOUBLE_TAP);
    let mut s = StickyKeyState::default();
    s.process_sticky_modifier(LCTRL, p, press(0), 0);
    s.process_sticky_modifier(LSHIFT, p, press(1), 5);
    assert_eq!(s.modifiers(true), LCTRL | LSHIFT);
    s.process_sticky_modifier(LCTRL, p, release(0), 10);
    assert_eq!(s.modifier.unwrap().phase, LatchPhase::PressDeadlineInactive);
    s.process_sticky_modifier(LSHIFT, p, release(1), 20);
    assert_eq!(s.modifier.unwrap().phase, LatchPhase::Latched);
    // a second tap of the last key releases the latch
    let out = s.process_sticky_modifier(LSHIFT, p, press(1), 30);
    assert!(out.is_empty());
    assert!(s.modifier.is_none());
    // and its own release is swallowed
    let out = s.process_sticky_modifier(LSHIFT, p, release(1), 40);
    assert!(out.is_empty());
    assert!(s.modifier.is_none());
    assert!(s.canceled_modifier_releases.iter().all(|c| c.is_none()));
}

#[test]
fn sticky_modifier_press_releases_tap_key() {
    let mut s = StickyKeyState::default();
    s.process_sticky_tap_key(0x04, LCTRL, policy(OTHER_KEY_PRESS), press(2), 0);
    assert!(s.has_tap_key());
    let out = s.process_sticky_modifier(LSHIFT, policy(OTHER_KEY_PRESS), press(0), 10);
    // the tap key's key is still down: its release is processed
    assert_eq!(out, vec![StickyOutput::Key(0x04, release(2))]);
    assert!(!s.has_tap_key());
}

#[test]
fn sticky_layer_press_release_and_other_layer() {
    let p = policy(OTHER_KEY_PRESS);
    let mut s = StickyKeyState::default();
    let out = s.process_sticky_layer(1, p, 4, press(0), 0);
    assert_eq!(out, vec![StickyOutput::ActivateLayer(1)]);
    let out = s.process_sticky_layer(1, p, 4, release(0), 10);
    assert!(out.is_empty());
    assert_eq!(s.layer.unwrap().phase, LatchPhase::Latched);
    // another sticky layer replaces it
    let out = s.process_sticky_layer(2, p, 4, press(1), 20);
    assert_eq!(out, vec![StickyOutput::DeactivateLayer(1), StickyOutput::ActivateLayer(2)]);
    assert_eq!(s.layer.unwrap().value.layer, 2);
    // an invalid layer is only handed on
    let out = s.process_sticky_layer(9, p, 4, press(3), 30);
    assert_eq!(out, vec![StickyOutput::ActivateLayer(9)]);
    assert_eq!(s.layer.unwrap().value.layer, 2);
}

#[test]
fn sticky_layer_same_layer_and_double_tap() {
    let p = policy(OTHER_KEY_PRESS | DOUBLE_TAP);
    let mut s = StickyKeyState::default();
    s.process_sticky_layer(1, p, 4, press(0), 0);
    s.process_sticky_layer(1, p, 4, release(0), 10);
    // the same key again while latched: double tap
    let out = s.process_sticky_layer(1, p, 4, press(0), 20);
    assert_eq!(out, vec![StickyOutput::DeactivateLayer(1)]);
    assert!(s.layer.is_none());
    // another key for the same layer, while pressed: pressed again
    s.process_sticky_layer(1, p, 4, press(0), 30);
    let out = s.process_sticky_layer(1, p, 4, press(1), 40);
    assert_eq!(out, vec![StickyOutput::ActivateLayer(1)]);
    assert_eq!(s.layer.unwrap().source, pos(1));
}

#[test]
fn sticky_layer_held_past_other_key_releases_on_keyup() {
    let p = policy(OTHER_KEY_PRESS);
    let mut s = StickyKeyState::default();
    s.process_sticky_layer(1, p, 4, press(0), 0);
    s.update_sticky_key(press(5));
    assert_eq!(s.layer.unwrap().phase, LatchPhase::Held);
    let out = s.process_sticky_layer(1, p, 4, release(0), 50);
    assert_eq!(out, vec![StickyOutput::DeactivateLayer(1)]);
    assert!(s.layer.is_none());
}

#[test]
fn sticky_tap_key_repeats_up_to_maximum() {
    let mut p = policy(OTHER_KEY_PRESS);
    p.max_repeat = 2;
    let mut s = StickyKeyState::default();
    let out = s.process_sticky_tap_key(0x04, LCTRL, p, press(0), 0);
    assert_eq!(out, vec![StickyOutput::Key(0x04, press(0))]);
    assert_eq!(s.modifiers(true), LCTRL);
    let out = s.process_sticky_tap_key(0x04, LCTRL, p, release(0), 10);
    assert_eq!(out, vec![StickyOutput::Key(0x04, release(0))]);
    assert_eq!(s.tap_key.unwrap().phase, LatchPhase::Latched);
    let out = s.process_sticky_tap_key(0x04, LCTRL, p, press(0), 20);
    assert_eq!(out, vec![StickyOutput::Key(0x04, press(0))]);
    assert_eq!(s.tap_key.unwrap().repeat_count, 2);
    s.process_sticky_tap_key(0x04, LCTRL, p, release(0), 30);
    // third press is one too many: the tap key is released
    let out = s.process_sticky_tap_key(0x04, LCTRL, p, press(0), 40);
    assert_eq!(out, vec![StickyOutput::Report(false)]);
    assert!(!s.has_tap_key());
}

#[test]
fn sticky_tap_key_replaces_modifier_layer_and_other_tap_key() {
    let p = policy(OTHER_KEY_PRESS);
    let mut vis = p;
    vis.activate_on_keypress = true;
    let mut s = StickyKeyState::default();
    s.process_sticky_modifier(LSHIFT, vis, press(0), 0);
    s.process_sticky_layer(3, p, 4, press(1), 0);
    s.process_sticky_tap_key(0x05, LCTRL, p, press(2), 10);
    assert!(s.modifier.is_none());
    assert!(s.layer.is_none());
    s.process_sticky_tap_key(0x05, LCTRL, p, release(2), 20);
    let out = s.process_sticky_tap_key(0x06, 0, p, press(3), 30);
    assert_eq!(out, vec![StickyOutput::Report(false), StickyOutput::Key(0x06, press(3))]);
    assert_eq!(s.tap_key.unwrap().value.key, 0x06);
}

#[test]
fn sticky_tap_key_press_reports_released_effects() {
    let p = policy(OTHER_KEY_PRESS);
    let mut vis = p;
    vis.activate_on_keypress = true;
    let mut s = StickyKeyState::default();
    s.process_sticky_modifier(LSHIFT, vis, press(0), 0);
    s.process_sticky_layer(3, p, 4, press(1), 0);
    let out = s.process_sticky_tap_key(0x05, LCTRL, p, press(2), 10);
    assert_eq!(
        out,
        vec![StickyOutput::Report(false), StickyOutput::DeactivateLayer(3), StickyOutput::Key(0x05, press(2))]
    );
}

#[test]
fn sticky_layer_event_releases_matching_latches() {
    let with_layer = policy(OTHER_KEY_PRESS | LAYER_CHANGE);
    let without = policy(OTHER_KEY_PRESS);
    let mut s = StickyKeyState::default();
    s.process_sticky_modifier(LSHIFT, without, press(0), 0);
    s.process_sticky_layer(2, with_layer, 4, press(1), 0);
    let out = s.release_sticky_key_on_layer_event(LAYER_CHANGE);
    assert_eq!(out, vec![StickyOutput::DeactivateLayer(2)]);
    assert!(s.layer.is_none());
    assert!(s.modifier.is_some());
}

#[test]
fn sticky_never_timeout_keeps_latch() {
    let mut p = policy(OTHER_KEY_PRESS);
    p.timeout = NEVER;
    let mut s = StickyKeyState::default();
    s.process_sticky_layer(1, p, 4, press(0), 0);
    s.process_sticky_layer(1, p, 4, release(0), 10);
    assert_eq!(s.deadline(), None);
    assert!(s.release_sticky_key_if_active_on_timeout(u64::MAX).is_empty());
    assert!(s.layer.is_some());
}
