use rmk::action::{BoundAction, KeyBinding};
use rmk::event::KeyboardEvent;
use rmk::held_buffer::{
    followed_by_hold, followed_by_tap, is_morse, HeldBuffer, HeldKey, KeyFilter, KeyState, EMPTY_PATTERN,
};
use rmk::keycode::KeyUsage;

fn key(col: u8, action: KeyBinding, state: KeyState, press: u64, timeout: u64) -> HeldKey {
    HeldKey::new(KeyboardEvent::key(0, col, true), action, state, press, timeout)
}

fn tap_hold() -> KeyBinding {
    KeyBinding::TapHold(BoundAction::Key(KeyUsage::Hid(4)), BoundAction::Modifier(1), 0)
}

fn plain(k: u8) -> KeyBinding {
    KeyBinding::Single(BoundAction::Key(KeyUsage::Hid(k)))
}

#[test]
fn held_buffer_morse_patterns() {
    assert_eq!(followed_by_tap(EMPTY_PATTERN), 0b10);
    assert_eq!(followed_by_hold(EMPTY_PATTERN), 0b11);
    assert_eq!(followed_by_hold(0b10), 0b101);
    assert_eq!(followed_by_tap(0x8001), 0x0002);
    assert!(is_morse(&tap_hold()));
    assert!(is_morse(&KeyBinding::Morse(3)));
    assert!(!is_morse(&plain(4)));
}

#[test]
fn held_buffer_push_keeps_timeout_order() {
    let mut b = HeldBuffer::new();
    assert!(b.is_empty());
    b.push(key(0, tap_hold(), KeyState::Pressed(EMPTY_PATTERN), 0, 300));
    b.push(key(1, plain(5), KeyState::Pressed(EMPTY_PATTERN), 10, 100));
    b.push(key(2, plain(6), KeyState::Pressed(EMPTY_PATTERN), 20, 200));
    assert_eq!(b.len(), 3);
    assert_eq!(b.get(0).timeout_time, 100);
    assert_eq!(b.get(1).timeout_time, 200);
    assert_eq!(b.get(2).timeout_time, 300);

    b.push_without_sort(key(3, plain(7), KeyState::WaitingCombo, 30, 50));
    assert_eq!(b.get(3).timeout_time, 50);
    b.sort_by_press_time();
    assert_eq!(b.get(0).press_time, 0);
    assert_eq!(b.get(3).press_time, 30);
}

#[test]
fn held_buffer_is_bounded() {
    let mut b = HeldBuffer::new();
    for i in 0..20u8 {
        b.push_without_sort(key(i, plain(4), KeyState::Pressed(EMPTY_PATTERN), 0, i as u64));
    }
    assert_eq!(b.len(), 16);
    assert_eq!(b.get(15).event, KeyboardEvent::key(0, 15, true));
}

#[test]
fn held_buffer_find_and_remove() {
    let mut b = HeldBuffer::new();
    b.push(key(0, tap_hold(), KeyState::Pressed(EMPTY_PATTERN), 0, 300));
    b.push(key(1, plain(5), KeyState::Pressed(EMPTY_PATTERN), 10, 100));
    b.push(key(2, plain(6), KeyState::Released(0b10), 20, 200));

    let other_profile = KeyBinding::TapHold(BoundAction::Key(KeyUsage::Hid(4)), BoundAction::Modifier(1), 7);
    assert_eq!(b.find_action(&other_profile).map(|k| k.event), Some(KeyboardEvent::key(0, 0, true)));
    assert_eq!(b.find_pos(KeyboardEvent::key(0, 2, true).pos).map(|k| k.press_time), Some(20));
    assert_eq!(b.find_index(KeyFilter::Pos(KeyboardEvent::key(0, 9, true).pos)), None);

    let first_plain = b.remove_if(KeyFilter::NotMorse).unwrap();
    assert_eq!(first_plain.event, KeyboardEvent::key(0, 1, true));
    assert_eq!(b.len(), 2);
    assert_eq!(b.get(0).event, KeyboardEvent::key(0, 2, true));

    let next = b.next_buffered_key().unwrap();
    assert_eq!(next.event, KeyboardEvent::key(0, 2, true));
    assert_eq!(b.remove(KeyboardEvent::key(0, 2, true).pos).map(|k| k.press_time), Some(20));
    assert_eq!(b.next_buffered_key().map(|k| k.event), Some(KeyboardEvent::key(0, 0, true)));
    assert_eq!(b.remove(KeyboardEvent::key(0, 7, true).pos), None);
}

#[test]
fn held_buffer_cleans_processed_plain_keys_and_takes_combo_keys() {
    let mut b = HeldBuffer::new();
    b.push_without_sort(key(0, plain(4), KeyState::ProcessedButReleaseNotReportedYet(BoundAction::No), 0, 1));
    b.push_without_sort(key(1, tap_hold(), KeyState::ProcessedButReleaseNotReportedYet(BoundAction::No), 0, 2));
    b.push_without_sort(key(2, plain(5), KeyState::WaitingCombo, 0, 3));
    b.push_without_sort(key(3, plain(6), KeyState::Pressed(EMPTY_PATTERN), 0, 4));
    b.push_without_sort(key(4, plain(7), KeyState::WaitingCombo, 0, 5));
    b.clean_buffered_processed_keys();
    assert_eq!(b.len(), 4);
    assert_eq!(b.get(0).event, KeyboardEvent::key(0, 1, true));

    let taken = b.take_waiting_combo_keys();
    assert_eq!(taken.len(), 2);
    assert!(taken.iter().all(|k| k.state == KeyState::WaitingCombo));
    assert_eq!(b.len(), 2);
    let mut cols: Vec<u64> = (0..b.len()).map(|i| b.get(i).timeout_time).collect();
    cols.sort();
    assert_eq!(cols, vec![2, 4]);

    let mut replaced = b.get(0);
    replaced.state = KeyState::Holding(0b11);
    b.replace(0, replaced);
    assert_eq!(b.get(0).state, KeyState::Holding(0b11));
}
