use rmk::action::{ControlAction, SpecialAction};
use rmk::caps_word::CapsWordState;
use rmk::event::KeyboardEvent;
use rmk::key_actions::{process_user, ControlOutcome, KeyProcessor, KeyRoute, UserKeyAction};
use rmk::keycode::KeyUsage;

fn press() -> KeyboardEvent {
    KeyboardEvent::key(0, 0, true)
}

fn release() -> KeyboardEvent {
    KeyboardEvent::key(0, 0, false)
}

#[test]
fn key_routes() {
    let mut p = KeyProcessor::new();
    // a letter goes to the keyboard report
    assert_eq!(p.process_action_key(KeyUsage::Hid(0x04), press(), 10), KeyRoute::Basic(0x04));
    // AudioMute is served as the consumer key Mute (0xE2)
    assert_eq!(p.process_action_key(KeyUsage::Hid(0xA8), press(), 20), KeyRoute::Consumer(0xE2));
    // AudioVolUp is VolumeIncrement (0xE9)
    assert_eq!(p.process_action_key(KeyUsage::Hid(0xA9), press(), 20), KeyRoute::Consumer(0xE9));
    // SystemSleep is the system-control key Sleep (0x82)
    assert_eq!(p.process_action_key(KeyUsage::Hid(0xA6), press(), 30), KeyRoute::SystemControl(0x82));
    // MouseUp goes to mouse keys
    assert_eq!(p.process_action_key(KeyUsage::Hid(0xCD), press(), 40), KeyRoute::Mouse(0xCD));
    assert_eq!(p.process_action_key(KeyUsage::Consumer(0xCD), press(), 50), KeyRoute::Consumer(0xCD));
    assert_eq!(p.process_action_key(KeyUsage::SystemControl(0x81), press(), 60), KeyRoute::SystemControl(0x81));
}

#[test]
fn key_again_replays_last_key() {
    let mut p = KeyProcessor::new();
    p.process_action_key(KeyUsage::Hid(0x05), press(), 10);
    assert_eq!(p.last_key_code, KeyUsage::Hid(0x05));
    assert_eq!(p.last_press_time, 10);
    // a release does not change the last key
    p.process_action_key(KeyUsage::Hid(0x06), release(), 20);
    assert_eq!(p.last_key_code, KeyUsage::Hid(0x05));
    assert_eq!(p.process_action_key(KeyUsage::Hid(0x79), press(), 30), KeyRoute::Basic(0x05));
    assert_eq!(p.last_key_code, KeyUsage::Hid(0x05));
    assert_eq!(p.last_press_time, 30);
    // a modifier is the last key but no simple key press
    p.process_action_key(KeyUsage::Hid(0xE1), press(), 40);
    assert_eq!(p.last_key_code, KeyUsage::Hid(0xE1));
    assert_eq!(p.last_press_time, 30);
}

#[test]
fn key_repeat_and_grave_escape() {
    let mut p = KeyProcessor::new();
    p.process_action_key(KeyUsage::Hid(0x07), press(), 10);
    assert_eq!(p.process_action_special(SpecialAction::Repeat, 0, press(), 20), KeyRoute::Basic(0x07));
    assert_eq!(p.last_press_time, 20);
    assert_eq!(p.process_action_special(SpecialAction::GraveEscape, 0, press(), 30), KeyRoute::Basic(0x29));
    assert_eq!(p.process_action_special(SpecialAction::GraveEscape, 0x02, press(), 30), KeyRoute::Basic(0x35));
    // Grave Escape does not become the last key
    assert_eq!(p.last_key_code, KeyUsage::Hid(0x07));
}

#[test]
fn key_caps_word_follows_keys() {
    let mut p = KeyProcessor::new();
    assert_eq!(p.process_action_keyboard_control(ControlAction::CapsWordToggle, press(), 100), ControlOutcome::Nothing);
    assert_eq!(p.caps_word, CapsWordState::Activated { timer: 100, shift_current: false });
    p.process_action_key(KeyUsage::Hid(0x04), press(), 200);
    assert_eq!(p.caps_word, CapsWordState::Activated { timer: 200, shift_current: true });
    p.process_action_key(KeyUsage::Hid(0x2C), press(), 300);
    assert_eq!(p.caps_word, CapsWordState::Deactivated);
    // a release of the toggle does nothing
    p.process_action_keyboard_control(ControlAction::CapsWordToggle, release(), 400);
    assert_eq!(p.caps_word, CapsWordState::Deactivated);
}

#[test]
fn key_keyboard_control() {
    let mut p = KeyProcessor::new();
    assert!(p.combo_on);
    p.process_action_keyboard_control(ControlAction::ComboOff, press(), 0);
    assert!(!p.combo_on);
    p.process_action_keyboard_control(ControlAction::ComboToggle, press(), 0);
    assert!(p.combo_on);
    p.process_action_keyboard_control(ControlAction::ComboOn, press(), 0);
    assert!(p.combo_on);
    assert_eq!(p.process_action_keyboard_control(ControlAction::Bootloader, press(), 0), ControlOutcome::Nothing);
    assert_eq!(
        p.process_action_keyboard_control(ControlAction::Bootloader, release(), 0),
        ControlOutcome::JumpToBootloader
    );
    assert_eq!(p.process_action_keyboard_control(ControlAction::Reboot, release(), 0), ControlOutcome::Reboot);
    assert_eq!(p.process_action_keyboard_control(ControlAction::OutputUsb, release(), 0), ControlOutcome::Nothing);
}

#[test]
fn key_user_keys_drive_profiles() {
    assert_eq!(process_user(2, release(), 8), Some(UserKeyAction::SwitchProfile(2)));
    assert_eq!(process_user(2, press(), 8), None);
    assert_eq!(process_user(8, release(), 8), Some(UserKeyAction::NextProfile));
    assert_eq!(process_user(9, release(), 8), Some(UserKeyAction::PreviousProfile));
    assert_eq!(process_user(10, release(), 8), Some(UserKeyAction::ClearProfile));
    assert_eq!(process_user(11, release(), 8), Some(UserKeyAction::ToggleConnection));
    assert_eq!(process_user(12, press(), 8), Some(UserKeyAction::ClearPeerWhenHeld));
    assert_eq!(process_user(12, release(), 8), None);
    assert_eq!(process_user(13, release(), 8), None);
}
