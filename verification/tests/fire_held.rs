use rmk::action::{BoundAction, KeyBinding};
use rmk::decision::{HeldKeyDecision, KeyBehaviorDecision, MorseMode};
use rmk::event::KeyboardEvent;
use rmk::fire_held::{buffered_key_wait, lookup_needed, BufferedWait, FireOutput};
use rmk::held_buffer::{HeldBuffer, HeldKey, KeyState, EMPTY_PATTERN};
use rmk::keycode::KeyUsage;
use rmk::morse::{MorseConfig, MorseKey, TapHoldConfig, TAP};

fn key_a() -> BoundAction {
    BoundAction::Key(KeyUsage::Hid(4))
}

fn key_b() -> BoundAction {
    BoundAction::Key(KeyUsage::Hid(5))
}

fn tap_hold() -> KeyBinding {
    KeyBinding::TapHold(key_a(), BoundAction::Modifier(2), 0)
}

fn config() -> MorseConfig {
    MorseConfig {
        morses: vec![MorseKey {
            hold_timeout_ms: None,
            mode: None,
            unilateral_tap: None,
            actions: vec![(0b10, key_a()), (0b100, key_b())],
        }],
        tap_hold: TapHoldConfig { timeout_ms: 200, mode: MorseMode::Normal, unilateral_tap: false },
    }
}

fn press(col: u8) -> KeyboardEvent {
    KeyboardEvent::key(0, col, true)
}

fn buffer_with(keys: &[HeldKey]) -> HeldBuffer {
    let mut b = HeldBuffer::new();
    for k in keys {
        b.push_without_sort(*k);
    }
    b
}

#[test]
fn fire_unilateral_tap_presses_tap_action() {
    let c = config();
    let mut b = buffer_with(&[HeldKey::new(press(1), tap_hold(), KeyState::Pressed(EMPTY_PATTERN), 0, 200)]);
    let r = c.fire_held_key(&mut b, press(1).pos, HeldKeyDecision::UnilateralTap, None, false, KeyBehaviorDecision::Buffer);
    assert_eq!(r, (FireOutput::Normal(key_a(), press(1)), false, KeyBehaviorDecision::Buffer));
    assert_eq!(b.len(), 1);
    assert_eq!(b.get(0).state, KeyState::ProcessedButReleaseNotReportedYet(key_a()));
}

#[test]
fn fire_flow_tap_of_released_key_taps() {
    let c = config();
    let mut released = HeldKey::new(press(2), KeyBinding::Morse(0), KeyState::Released(TAP), 0, 200);
    released.event.pressed = false;
    let mut b = buffer_with(&[released]);
    let r = c.fire_held_key(&mut b, press(2).pos, HeldKeyDecision::FlowTap, None, false, KeyBehaviorDecision::Buffer);
    assert_eq!(r.0, FireOutput::Tap(key_a(), press(2)));
    assert!(b.is_empty());
}

#[test]
fn fire_permissive_hold_presses_hold_action() {
    let c = config();
    let mut b = buffer_with(&[
        HeldKey::new(press(1), tap_hold(), KeyState::Pressed(EMPTY_PATTERN), 0, 200),
        HeldKey::new(press(3), KeyBinding::Single(key_b()), KeyState::Pressed(EMPTY_PATTERN), 10, 210),
    ]);
    assert!(lookup_needed(HeldKeyDecision::PermissiveHold, false, KeyBehaviorDecision::Buffer));
    let r = c.fire_held_key(
        &mut b,
        press(1).pos,
        HeldKeyDecision::PermissiveHold,
        Some(tap_hold()),
        false,
        KeyBehaviorDecision::Buffer,
    );
    assert_eq!(r, (FireOutput::Normal(BoundAction::Modifier(2), press(1)), true, KeyBehaviorDecision::Buffer));
    // the held key goes to the end of the buffer
    assert_eq!(b.get(0).event, press(3));
    assert_eq!(b.get(1).state, KeyState::ProcessedButReleaseNotReportedYet(BoundAction::Modifier(2)));
}

#[test]
fn fire_release_of_plain_key_cleans_buffer() {
    let c = config();
    let mut b = buffer_with(&[HeldKey::new(press(3), KeyBinding::Single(key_b()), KeyState::Pressed(EMPTY_PATTERN), 0, 200)]);
    let r = c.fire_held_key(&mut b, press(3).pos, HeldKeyDecision::Release, None, false, KeyBehaviorDecision::Buffer);
    assert_eq!(r, (FireOutput::Normal(key_b(), press(3)), false, KeyBehaviorDecision::CleanBuffer));
    assert!(b.is_empty());
    // a release decision for a key that is gone still cleans the buffer
    let r = c.fire_held_key(&mut b, press(3).pos, HeldKeyDecision::Release, None, false, KeyBehaviorDecision::Buffer);
    assert_eq!(r, (FireOutput::Nothing, false, KeyBehaviorDecision::CleanBuffer));
}

#[test]
fn fire_release_of_morse_key_predicts_tap() {
    let c = config();
    let mut b = buffer_with(&[HeldKey::new(press(1), tap_hold(), KeyState::Pressed(EMPTY_PATTERN), 0, 200)]);
    let r = c.fire_held_key(&mut b, press(1).pos, HeldKeyDecision::Release, None, false, KeyBehaviorDecision::Buffer);
    assert_eq!(r.0, FireOutput::Normal(key_a(), press(1)));
    assert_eq!(b.get(0).state, KeyState::ProcessedButReleaseNotReportedYet(key_a()));
    // an undecided morse pattern goes back unchanged
    let mut b = buffer_with(&[HeldKey::new(press(2), KeyBinding::Morse(0), KeyState::Pressed(EMPTY_PATTERN), 0, 200)]);
    let r = c.fire_held_key(&mut b, press(2).pos, HeldKeyDecision::Release, None, false, KeyBehaviorDecision::Buffer);
    assert_eq!(r.0, FireOutput::Nothing);
    assert_eq!(b.get(0).state, KeyState::Pressed(EMPTY_PATTERN));
}

#[test]
fn fire_normal_keys_only_on_clean_buffer() {
    let c = config();
    let plain = KeyBinding::Single(key_b());
    let mut b = buffer_with(&[HeldKey::new(press(3), plain, KeyState::Pressed(EMPTY_PATTERN), 0, 200)]);
    let r = c.fire_held_key(&mut b, press(3).pos, HeldKeyDecision::Normal, None, false, KeyBehaviorDecision::Buffer);
    assert_eq!(r.0, FireOutput::Nothing);
    assert_eq!(b.len(), 1);
    // after a hold changed the layers the binding is looked up again
    assert!(lookup_needed(HeldKeyDecision::Normal, true, KeyBehaviorDecision::CleanBuffer));
    let other = KeyBinding::Single(key_a());
    let r =
        c.fire_held_key(&mut b, press(3).pos, HeldKeyDecision::Normal, Some(other), true, KeyBehaviorDecision::CleanBuffer);
    assert_eq!(r, (FireOutput::Binding(other, press(3)), true, KeyBehaviorDecision::CleanBuffer));
    assert!(b.is_empty());
}

#[test]
fn fire_buffered_key_waits() {
    let plain = KeyBinding::Single(key_b());
    assert_eq!(
        buffered_key_wait(&HeldKey::new(press(1), plain, KeyState::WaitingCombo, 0, 40)),
        BufferedWait::Combo(40)
    );
    assert_eq!(
        buffered_key_wait(&HeldKey::new(press(1), tap_hold(), KeyState::Released(TAP), 0, 250)),
        BufferedWait::Morse(250)
    );
    assert_eq!(
        buffered_key_wait(&HeldKey::new(press(1), plain, KeyState::Pressed(EMPTY_PATTERN), 0, 250)),
        BufferedWait::Nothing
    );
}
