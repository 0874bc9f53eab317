use rmk::action::{BoundAction, KeyBinding};
use rmk::decision::MorseMode;
use rmk::event::KeyboardEvent;
use rmk::held_buffer::{HeldBuffer, HeldKey, KeyState, EMPTY_PATTERN};
use rmk::keycode::KeyUsage;
use rmk::morse::{
    fire_held_non_morse_keys, last_is_hold, starts_with, MorseConfig, MorseKey, MorseOutput, TapHoldConfig, HOLD, TAP,
};

fn key_a() -> BoundAction {
    BoundAction::Key(KeyUsage::Hid(4))
}

fn key_b() -> BoundAction {
    BoundAction::Key(KeyUsage::Hid(5))
}

fn key_c() -> BoundAction {
    BoundAction::Key(KeyUsage::Hid(6))
}

fn tap_hold() -> KeyBinding {
    KeyBinding::TapHold(key_a(), BoundAction::Modifier(2), 0)
}

fn config() -> MorseConfig {
    MorseConfig {
        morses: vec![
            MorseKey {
                hold_timeout_ms: Some(150),
                mode: Some(MorseMode::HoldOnOtherPress),
                unilateral_tap: None,
                // tap -> a, tap tap -> b, hold -> c
                actions: vec![(0b10, key_a()), (0b100, key_b()), (0b11, key_c())],
            },
            MorseKey { hold_timeout_ms: None, mode: None, unilateral_tap: Some(true), actions: vec![] },
        ],
        tap_hold: TapHoldConfig { timeout_ms: 250, mode: MorseMode::Normal, unilateral_tap: false },
    }
}

fn press(col: u8) -> KeyboardEvent {
    KeyboardEvent::key(0, col, true)
}

fn release(col: u8) -> KeyboardEvent {
    KeyboardEvent::key(0, col, false)
}

#[test]
fn morse_pattern_prefixes() {
    assert!(starts_with(0b101, 0b10));
    assert!(starts_with(0b101, 0b101));
    assert!(starts_with(0b101, EMPTY_PATTERN));
    assert!(!starts_with(0b101, 0b11));
    assert!(!starts_with(0b10, 0b101));
    assert!(last_is_hold(HOLD));
    assert!(last_is_hold(0b101));
    assert!(!last_is_hold(TAP));
    assert!(!last_is_hold(EMPTY_PATTERN));
}

#[test]
fn morse_action_from_pattern() {
    let c = config();
    assert_eq!(c.action_from_pattern(&tap_hold(), TAP), key_a());
    assert_eq!(c.action_from_pattern(&tap_hold(), HOLD), BoundAction::Modifier(2));
    assert_eq!(c.action_from_pattern(&tap_hold(), 0b100), BoundAction::No);
    assert_eq!(c.action_from_pattern(&KeyBinding::Morse(0), 0b100), key_b());
    assert_eq!(c.action_from_pattern(&KeyBinding::Morse(0), 0b101), BoundAction::No);
    assert_eq!(c.action_from_pattern(&KeyBinding::Morse(7), TAP), BoundAction::No);
    assert_eq!(c.action_from_pattern(&KeyBinding::Single(key_a()), TAP), BoundAction::No);
}

#[test]
fn morse_prediction() {
    let c = config();
    assert_eq!(c.try_predict_final_action(&tap_hold(), TAP), Some(key_a()));
    assert_eq!(c.try_predict_final_action(&tap_hold(), HOLD), Some(BoundAction::Modifier(2)));
    // a tap may still become a double tap
    assert_eq!(c.try_predict_final_action(&KeyBinding::Morse(0), TAP), None);
    assert_eq!(c.try_predict_final_action(&KeyBinding::Morse(0), 0b100), Some(key_b()));
    assert_eq!(c.try_predict_final_action(&KeyBinding::Morse(0), HOLD), Some(key_c()));
    assert_eq!(c.try_predict_final_action(&KeyBinding::Morse(0), 0b101), None);
    assert_eq!(c.try_predict_final_action(&KeyBinding::Morse(1), TAP), None);
    assert_eq!(c.try_predict_final_action(&KeyBinding::Single(key_a()), TAP), None);
}

#[test]
fn morse_timeouts_and_modes() {
    let c = config();
    assert_eq!(c.morse_timeout(&KeyBinding::Morse(0)), 150);
    assert_eq!(c.morse_timeout(&KeyBinding::Morse(1)), 250);
    assert_eq!(c.morse_timeout(&KeyBinding::Morse(9)), 250);
    assert_eq!(c.morse_timeout(&tap_hold()), 250);
    assert_eq!(c.tap_hold_mode(&KeyBinding::Morse(0)), (MorseMode::HoldOnOtherPress, false));
    assert_eq!(c.tap_hold_mode(&KeyBinding::Morse(1)), (MorseMode::Normal, true));
    assert_eq!(c.tap_hold_mode(&tap_hold()), (MorseMode::Normal, false));
}

#[test]
fn morse_press_enters_buffer() {
    let c = config();
    let mut b = HeldBuffer::new();
    let out = c.process_key_action_morse(&mut b, &tap_hold(), press(1), 100, 100);
    assert_eq!(out, MorseOutput::Nothing);
    assert_eq!(b.len(), 1);
    let k = b.get(0);
    assert_eq!(k.state, KeyState::Pressed(EMPTY_PATTERN));
    assert_eq!(k.press_time, 100);
    assert_eq!(k.timeout_time, 350);
}

#[test]
fn morse_quick_release_taps() {
    let c = config();
    let mut b = HeldBuffer::new();
    c.process_key_action_morse(&mut b, &tap_hold(), press(1), 100, 100);
    let out = c.process_key_action_morse(&mut b, &tap_hold(), release(1), 100, 200);
    assert_eq!(out, MorseOutput::Tap(key_a(), press(1)));
    assert!(b.is_empty());
}

#[test]
fn morse_late_release_holds() {
    let c = config();
    let mut b = HeldBuffer::new();
    c.process_key_action_morse(&mut b, &tap_hold(), press(1), 100, 100);
    let out = c.process_key_action_morse(&mut b, &tap_hold(), release(1), 100, 350);
    assert_eq!(out, MorseOutput::Tap(BoundAction::Modifier(2), press(1)));
    assert!(b.is_empty());
}

#[test]
fn morse_tap_waits_for_second_tap() {
    let c = config();
    let m = KeyBinding::Morse(0);
    let mut b = HeldBuffer::new();
    c.process_key_action_morse(&mut b, &m, press(2), 0, 0);
    assert_eq!(b.get(0).timeout_time, 150);
    let out = c.process_key_action_morse(&mut b, &m, release(2), 0, 50);
    assert_eq!(out, MorseOutput::Nothing);
    let k = b.get(0);
    assert_eq!(k.state, KeyState::Released(TAP));
    assert_eq!(k.press_time, 50);
    assert_eq!(k.timeout_time, 200);
    // second press continues the pattern
    c.process_key_action_morse(&mut b, &m, press(2), 80, 80);
    let k = b.get(0);
    assert_eq!(k.state, KeyState::Pressed(TAP));
    assert_eq!(k.timeout_time, 230);
    // second quick release completes the double tap
    let out = c.process_key_action_morse(&mut b, &m, release(2), 80, 100);
    assert_eq!(out, MorseOutput::Tap(key_b(), press(2)));
    assert!(b.is_empty());
}

#[test]
fn morse_release_of_unknown_key_does_nothing() {
    let c = config();
    let mut b = HeldBuffer::new();
    let out = c.process_key_action_morse(&mut b, &tap_hold(), release(3), 0, 10);
    assert_eq!(out, MorseOutput::Nothing);
    assert!(b.is_empty());
}

#[test]
fn morse_timeout_of_pressed_key_holds() {
    let c = config();
    let mut b = HeldBuffer::new();
    c.process_key_action_morse(&mut b, &tap_hold(), press(1), 0, 0);
    let k = b.get(0);
    let (out, fire) = c.handle_morse_timeout(&mut b, k);
    assert_eq!(out, MorseOutput::Normal(BoundAction::Modifier(2), press(1)));
    assert!(fire);
    assert_eq!(b.get(0).state, KeyState::ProcessedButReleaseNotReportedYet(BoundAction::Modifier(2)));
    // its release releases the action
    let out = c.process_key_action_morse(&mut b, &tap_hold(), release(1), 0, 400);
    assert_eq!(out, MorseOutput::Release(BoundAction::Modifier(2), release(1)));
    assert!(b.is_empty());
}

#[test]
fn morse_timeout_undecided_key_is_holding() {
    let c = config();
    // a table where a hold may be followed by a tap
    let c = MorseConfig {
        morses: vec![MorseKey {
            hold_timeout_ms: None,
            mode: None,
            unilateral_tap: None,
            actions: vec![(0b11, key_a()), (0b110, key_b())],
        }],
        ..c
    };
    let m = KeyBinding::Morse(0);
    let mut b = HeldBuffer::new();
    c.process_key_action_morse(&mut b, &m, press(4), 0, 0);
    let k = b.get(0);
    let (out, fire) = c.handle_morse_timeout(&mut b, k);
    assert_eq!(out, MorseOutput::Nothing);
    assert!(fire);
    assert_eq!(b.get(0).state, KeyState::Holding(HOLD));
    let out = c.process_key_action_morse(&mut b, &m, release(4), 0, 300);
    assert_eq!(out, MorseOutput::Nothing);
    let k = b.get(0);
    assert_eq!(k.state, KeyState::Released(HOLD));
    assert_eq!(k.timeout_time, 550);
}

#[test]
fn morse_timeout_of_released_key_taps() {
    let c = config();
    let m = KeyBinding::Morse(0);
    let mut b = HeldBuffer::new();
    c.process_key_action_morse(&mut b, &m, press(2), 0, 0);
    c.process_key_action_morse(&mut b, &m, release(2), 0, 50);
    let k = b.get(0);
    let (out, fire) = c.handle_morse_timeout(&mut b, k);
    assert_eq!(out, MorseOutput::Tap(key_a(), press(2)));
    assert!(fire);
    assert!(b.is_empty());
}

#[test]
fn morse_timeout_reports_pressed_morse_keys() {
    let c = config();
    let mut b = HeldBuffer::new();
    c.process_key_action_morse(&mut b, &tap_hold(), press(1), 0, 0);
    c.process_key_action_morse(&mut b, &KeyBinding::Morse(0), press(2), 10, 10);
    c.process_key_action_morse(&mut b, &KeyBinding::Morse(0), release(2), 10, 20);
    // key 2 is released, key 1 still pressed
    let released = b.find_pos(release(2).pos).unwrap();
    let (out, fire) = c.handle_morse_timeout(&mut b, released);
    assert_eq!(out, MorseOutput::Tap(key_a(), press(2)));
    assert!(!fire);
    assert_eq!(b.len(), 1);
}

#[test]
fn morse_fire_plain_keys_in_press_order() {
    let plain = |k: u8| KeyBinding::Single(BoundAction::Key(KeyUsage::Hid(k)));
    let mut b = HeldBuffer::new();
    b.push(HeldKey::new(press(0), tap_hold(), KeyState::Pressed(EMPTY_PATTERN), 0, 250));
    b.push(HeldKey::new(press(1), plain(7), KeyState::Pressed(EMPTY_PATTERN), 30, 100));
    b.push(HeldKey::new(press(2), plain(8), KeyState::Pressed(EMPTY_PATTERN), 20, 300));
    b.push(HeldKey::new(press(3), KeyBinding::Morse(0), KeyState::Pressed(EMPTY_PATTERN), 5, 50));
    let fired = fire_held_non_morse_keys(&mut b);
    assert_eq!(fired.len(), 2);
    assert_eq!(fired[0].event, press(2));
    assert_eq!(fired[1].event, press(1));
    assert_eq!(b.len(), 2);
    assert_eq!(b.get(0).event, press(3));
    assert_eq!(b.get(1).event, press(0));
}
