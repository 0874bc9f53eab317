use rmk::caps_word::CapsWordState;
use rmk_types::keycode::HidKeyCode;

fn k(c: HidKeyCode) -> u8 {
    c as u8
}

#[test]
fn caps_word_shifts_letters_and_keeps_going_on_digits() {
    let mut s = CapsWordState::default();
    s.toggle(100);
    assert!(s.is_active(100));
    s.check(k(HidKeyCode::A), 200);
    assert!(s.is_shift_current());
    assert_eq!(s.shift_modifier(true, 200), 0x02);
    assert_eq!(s.shift_modifier(false, 200), 0);
    s.check(k(HidKeyCode::Kc5), 300);
    assert!(!s.is_shift_current());
    assert!(s.is_active(300));
    s.check(k(HidKeyCode::Minus), 400);
    assert!(s.is_shift_current());
    s.check(k(HidKeyCode::Backspace), 500);
    assert!(!s.is_shift_current());
    assert!(s.is_active(5499));
    assert!(!s.is_active(5500));
}

#[test]
fn caps_word_ends_on_other_keys_and_timeout() {
    let mut s = CapsWordState::default();
    s.activate(0);
    s.check(k(HidKeyCode::Space), 10);
    assert_eq!(s, CapsWordState::Deactivated);

    s.activate(0);
    s.check(k(HidKeyCode::A), 5000);
    assert_eq!(s, CapsWordState::Deactivated);

    s.activate(0);
    s.toggle(1);
    assert_eq!(s, CapsWordState::Deactivated);
    assert!(!s.is_active(1));
    s.check(k(HidKeyCode::A), 2);
    assert_eq!(s, CapsWordState::Deactivated);
}
