use rmk::action::{BoundAction, ControlAction, KeyBinding, SpecialAction};
use rmk::keycode::KeyUsage;
use rmk::via_keycode::{from_via_keycode, to_via_keycode};
use rmk_types::keycode::{from_ascii, to_ascii, ConsumerKey, HidKeyCode, SystemControlKey};
use rmk_types::modifier::ModifierCombination;

fn mods(right: bool, gui: bool, alt: bool, shift: bool, ctrl: bool) -> u8 {
    ModifierCombination::new_from(right, gui, alt, shift, ctrl).into_bits()
}
#[test]
fn test_convert_via_keycode_to_key_action() {
    // A
    let via_keycode = 0x04;
    assert_eq!(
        KeyBinding::Single(BoundAction::Key(KeyUsage::Hid(HidKeyCode::A as u8))),
        from_via_keycode(via_keycode)
    );

    // Right shift
    let via_keycode = 0xE5;
    assert_eq!(
        KeyBinding::Single(BoundAction::Key(KeyUsage::Hid(HidKeyCode::RShift as u8))),
        from_via_keycode(via_keycode)
    );

    // User0 (QK_KB_0)
    let via_keycode = 0x7E00;
    assert_eq!(KeyBinding::Single(BoundAction::User(0)), from_via_keycode(via_keycode));

    // User16 (QK_KB_16) — must not alias to User0
    let via_keycode = 0x7E10;
    assert_eq!(KeyBinding::Single(BoundAction::User(16)), from_via_keycode(via_keycode));

    // User31 (QK_KB_31)
    let via_keycode = 0x7E1F;
    assert_eq!(KeyBinding::Single(BoundAction::User(31)), from_via_keycode(via_keycode));

    // ClearEeprom (QK_CLEAR_EEPROM)
    let via_keycode = 0x7C03;
    assert_eq!(
        KeyBinding::Single(BoundAction::KeyboardControl(ControlAction::ClearEeprom)),
        from_via_keycode(via_keycode)
    );

    // Mo(3)
    let via_keycode = 0x5223;
    assert_eq!(KeyBinding::Single(BoundAction::LayerOn(3)), from_via_keycode(via_keycode));

    // OSL(3)
    let via_keycode = 0x5283;
    assert_eq!(
        KeyBinding::Single(BoundAction::OneShotLayer(3)),
        from_via_keycode(via_keycode)
    );

    // OSM RCtrl
    let via_keycode = 0x52B1;
    assert_eq!(
        KeyBinding::Single(BoundAction::OneShotModifier(mods(
            true, false, false, false, true
        ))),
        from_via_keycode(via_keycode)
    );

    // DF(3)
    let via_keycode = 0x5243;
    assert_eq!(
        KeyBinding::Single(BoundAction::DefaultLayer(3)),
        from_via_keycode(via_keycode)
    );

    // PDF(0)
    let via_keycode = 0x52E0;
    assert_eq!(
        KeyBinding::Single(BoundAction::PersistentDefaultLayer(0)),
        from_via_keycode(via_keycode)
    );

    // PDF(3)
    let via_keycode = 0x52E3;
    assert_eq!(
        KeyBinding::Single(BoundAction::PersistentDefaultLayer(3)),
        from_via_keycode(via_keycode)
    );

    // PDF(15)
    let via_keycode = 0x52EF;
    assert_eq!(
        KeyBinding::Single(BoundAction::PersistentDefaultLayer(15)),
        from_via_keycode(via_keycode)
    );

    // LCtrl(A) -> WithModifier(A)
    let via_keycode = 0x104;
    assert_eq!(
        KeyBinding::Single(BoundAction::KeyWithModifier(HidKeyCode::A as u8,
            mods(false, false, false, false, true)
        )),
        from_via_keycode(via_keycode)
    );

    // RCtrl(A) -> WithModifier(A)
    let via_keycode = 0x1104;
    assert_eq!(
        KeyBinding::Single(BoundAction::KeyWithModifier(HidKeyCode::A as u8,
            mods(true, false, false, false, true)
        )),
        from_via_keycode(via_keycode)
    );

    // Meh(A) -> WithModifier(A)
    let via_keycode = 0x704;
    assert_eq!(
        KeyBinding::Single(BoundAction::KeyWithModifier(HidKeyCode::A as u8,
            mods(false, false, true, true, true)
        )),
        from_via_keycode(via_keycode)
    );

    // Hypr(A) -> WithModifier(A)
    let via_keycode = 0xF04;
    assert_eq!(
        KeyBinding::Single(BoundAction::KeyWithModifier(HidKeyCode::A as u8,
            mods(false, true, true, true, true)
        )),
        from_via_keycode(via_keycode)
    );

    // LT0(A) -> LayerTapHold(A, 0)
    let via_keycode = 0x4004;
    assert_eq!(
        KeyBinding::TapHold(BoundAction::Key(KeyUsage::Hid(HidKeyCode::A as u8)), BoundAction::LayerOn(0), u8::MAX),
        from_via_keycode(via_keycode)
    );

    // LT3(A) -> LayerTapHold(A, 3)
    let via_keycode = 0x4304;
    assert_eq!(
        KeyBinding::TapHold(BoundAction::Key(KeyUsage::Hid(HidKeyCode::A as u8)), BoundAction::LayerOn(3), u8::MAX),
        from_via_keycode(via_keycode)
    );

    // LSA_T(A) ->
    let via_keycode = 0x2604;
    assert_eq!(
        KeyBinding::TapHold(
            BoundAction::Key(KeyUsage::Hid(HidKeyCode::A as u8)),
            BoundAction::Modifier(mods(false, false, true, true, false)),
            u8::MAX,
        ), //hrm
        from_via_keycode(via_keycode)
    );

    // RCAG_T(B) ->
    let via_keycode = 0x3D05;
    assert_eq!(
        KeyBinding::TapHold(
            BoundAction::Key(KeyUsage::Hid(HidKeyCode::B as u8)),
            BoundAction::Modifier(mods(true, true, true, false, true)),
            u8::MAX,
        ),
        from_via_keycode(via_keycode)
    );

    // ALL_T(A) ->
    let via_keycode: u16 = 0x2F04;
    assert_eq!(
        KeyBinding::TapHold(
            BoundAction::Key(KeyUsage::Hid(HidKeyCode::A as u8)),
            BoundAction::Modifier(mods(false, true, true, true, true)),
            u8::MAX,
        ), //hrm
        from_via_keycode(via_keycode)
    );

    // Meh_T(B) ->
    let via_keycode = 0x2705;
    assert_eq!(
        KeyBinding::TapHold(
            BoundAction::Key(KeyUsage::Hid(HidKeyCode::B as u8)),
            BoundAction::Modifier(mods(false, false, true, true, true)),
            u8::MAX,
        ),
        from_via_keycode(via_keycode)
    );

    // LM(1, LSHIFT)
    let via_keycode = 0x5022;
    assert_eq!(
        KeyBinding::Single(BoundAction::LayerOnWithModifier(1, ModifierCombination::LSHIFT.into_bits())),
        from_via_keycode(via_keycode)
    );

    // LM(15, RGUI | RCTRL)
    let via_keycode = 0x5039;
    assert_eq!(
        KeyBinding::Single(BoundAction::LayerOnWithModifier(
            1,
            ModifierCombination::new().with_right_gui(true).with_right_ctrl(true).into_bits()
        )),
        from_via_keycode(via_keycode)
    );

    // ComboOff
    let via_keycode = 0x7C51;
    assert_eq!(
        KeyBinding::Single(BoundAction::KeyboardControl(ControlAction::ComboOff)),
        from_via_keycode(via_keycode)
    );

    // GraveEscape
    let via_keycode = 0x7C16;
    assert_eq!(
        KeyBinding::Single(BoundAction::Special(SpecialAction::GraveEscape)),
        from_via_keycode(via_keycode)
    );

    // RepeatKey
    let via_keycode = 0x7C79;
    assert_eq!(
        KeyBinding::Single(BoundAction::Special(SpecialAction::Repeat)),
        from_via_keycode(via_keycode)
    );

    // Space Cadet LC( / KC_LCPO
    let via_keycode = 0x7C18;
    assert_eq!(
        KeyBinding::TapHold(
            BoundAction::KeyWithModifier(HidKeyCode::Kc9 as u8, ModifierCombination::LSHIFT.into_bits()),
            BoundAction::Modifier(ModifierCombination::LCTRL.into_bits()),
            u8::MAX,
        ),
        from_via_keycode(via_keycode)
    );

    // Space Cadet RC) / KC_RCPC
    let via_keycode = 0x7C19;
    assert_eq!(
        KeyBinding::TapHold(
            BoundAction::KeyWithModifier(HidKeyCode::Kc0 as u8, ModifierCombination::LSHIFT.into_bits()),
            BoundAction::Modifier(ModifierCombination::RCTRL.into_bits()),
            u8::MAX,
        ),
        from_via_keycode(via_keycode)
    );

    // Space Cadet LS( / KC_LSPO
    let via_keycode = 0x7C1A;
    assert_eq!(
        KeyBinding::TapHold(
            BoundAction::KeyWithModifier(HidKeyCode::Kc9 as u8, ModifierCombination::LSHIFT.into_bits()),
            BoundAction::Modifier(ModifierCombination::LSHIFT.into_bits()),
            u8::MAX,
        ),
        from_via_keycode(via_keycode)
    );

    // Space Cadet RS) / KC_RSPC
    let via_keycode = 0x7C1B;
    assert_eq!(
        KeyBinding::TapHold(
            BoundAction::KeyWithModifier(HidKeyCode::Kc0 as u8, ModifierCombination::LSHIFT.into_bits()),
            BoundAction::Modifier(ModifierCombination::RSHIFT.into_bits()),
            u8::MAX,
        ),
        from_via_keycode(via_keycode)
    );

    // Space Cadet LA( / KC_LAPO
    let via_keycode = 0x7C1C;
    assert_eq!(
        KeyBinding::TapHold(
            BoundAction::KeyWithModifier(HidKeyCode::Kc9 as u8, ModifierCombination::LSHIFT.into_bits()),
            BoundAction::Modifier(ModifierCombination::LALT.into_bits()),
            u8::MAX,
        ),
        from_via_keycode(via_keycode)
    );

    // Space Cadet RA) / KC_RAPC
    let via_keycode = 0x7C1D;
    assert_eq!(
        KeyBinding::TapHold(
            BoundAction::KeyWithModifier(HidKeyCode::Kc0 as u8, ModifierCombination::LSHIFT.into_bits()),
            BoundAction::Modifier(ModifierCombination::RALT.into_bits()),
            u8::MAX,
        ),
        from_via_keycode(via_keycode)
    );

    // Space Cadet RS Enter / KC_SENT (decode only)
    let via_keycode = 0x7C1E;
    assert_eq!(
        KeyBinding::TapHold(
            BoundAction::Key(KeyUsage::Hid(HidKeyCode::Enter as u8)),
            BoundAction::Modifier(ModifierCombination::RSHIFT.into_bits()),
            u8::MAX,
        ),
        from_via_keycode(via_keycode)
    );

    // Morse(0)
    let via_keycode = 0x5700;
    assert_eq!(KeyBinding::Morse(0), from_via_keycode(via_keycode));

    // Morse(5)
    let via_keycode = 0x5705;
    assert_eq!(KeyBinding::Morse(5), from_via_keycode(via_keycode));

    // Morse(255)
    let via_keycode = 0x57FF;
    assert_eq!(KeyBinding::Morse(255), from_via_keycode(via_keycode));
}

#[test]
fn test_convert_key_action_to_via_keycode() {

    // A
    let a = KeyBinding::Single(BoundAction::Key(KeyUsage::Hid(HidKeyCode::A as u8)));
    assert_eq!(0x04, to_via_keycode(a));

    // Right shift
    let a = KeyBinding::Single(BoundAction::Key(KeyUsage::Hid(HidKeyCode::RShift as u8)));
    assert_eq!(0xE5, to_via_keycode(a));

    // Mo(3)
    let a = KeyBinding::Single(BoundAction::LayerOn(3));
    assert_eq!(0x5223, to_via_keycode(a));

    // User0 (QK_KB_0)
    let a = KeyBinding::Single(BoundAction::User(0));
    assert_eq!(0x7E00, to_via_keycode(a));

    // User16 (QK_KB_16) — must not alias to User0's 0x7E00
    let a = KeyBinding::Single(BoundAction::User(16));
    assert_eq!(0x7E10, to_via_keycode(a));

    // User31 (QK_KB_31)
    let a = KeyBinding::Single(BoundAction::User(31));
    assert_eq!(0x7E1F, to_via_keycode(a));

    // ClearEeprom (QK_CLEAR_EEPROM)
    let a = KeyBinding::Single(BoundAction::KeyboardControl(ControlAction::ClearEeprom));
    assert_eq!(0x7C03, to_via_keycode(a));

    // OSL(3)
    let a = KeyBinding::Single(BoundAction::OneShotLayer(3));
    assert_eq!(0x5283, to_via_keycode(a));

    // OSM RCtrl
    let a = KeyBinding::Single(BoundAction::OneShotModifier(mods(
        true, false, false, false, true,
    )));
    assert_eq!(0x52B1, to_via_keycode(a));

    // DF(3)
    let a = KeyBinding::Single(BoundAction::DefaultLayer(3));
    assert_eq!(0x5243, to_via_keycode(a));

    // PDF(3)
    let a = KeyBinding::Single(BoundAction::PersistentDefaultLayer(3));
    assert_eq!(0x52E3, to_via_keycode(a));

    // PDF(15)
    let a = KeyBinding::Single(BoundAction::PersistentDefaultLayer(15));
    assert_eq!(0x52EF, to_via_keycode(a));

    // LCtrl(A) -> WithModifier(A)
    let a = KeyBinding::Single(BoundAction::KeyWithModifier(HidKeyCode::A as u8,
        mods(false, false, false, false, true),
    ));
    assert_eq!(0x104, to_via_keycode(a));

    // RCtrl(A) -> WithModifier(A)
    let a = KeyBinding::Single(BoundAction::KeyWithModifier(HidKeyCode::A as u8,
        mods(true, false, false, false, true),
    ));
    assert_eq!(0x1104, to_via_keycode(a));

    // Meh(A) -> WithModifier(A)
    let a = KeyBinding::Single(BoundAction::KeyWithModifier(HidKeyCode::A as u8,
        mods(false, false, true, true, true),
    ));
    assert_eq!(0x704, to_via_keycode(a));

    // Hypr(A) -> WithModifier(A)
    let a = KeyBinding::Single(BoundAction::KeyWithModifier(HidKeyCode::A as u8,
        mods(false, true, true, true, true),
    ));
    assert_eq!(0xF04, to_via_keycode(a));

    // LT0(A) -> LayerTapHold(A, 0)
    let a = KeyBinding::TapHold(BoundAction::Key(KeyUsage::Hid(HidKeyCode::A as u8)), BoundAction::LayerOn(0), u8::MAX);
    assert_eq!(0x4004, to_via_keycode(a));

    // LT3(A) -> LayerTapHold(A, 3)
    let a = KeyBinding::TapHold(BoundAction::Key(KeyUsage::Hid(HidKeyCode::A as u8)), BoundAction::LayerOn(3), u8::MAX);
    assert_eq!(0x4304, to_via_keycode(a));

    // LSA_T(A) ->
    let a = KeyBinding::TapHold(
        BoundAction::Key(KeyUsage::Hid(HidKeyCode::A as u8)),
        BoundAction::Modifier(mods(false, false, true, true, false)),
        u8::MAX,
    );
    assert_eq!(0x2604, to_via_keycode(a));

    // RCAG_T(A) ->
    let a = KeyBinding::TapHold(
        BoundAction::Key(KeyUsage::Hid(HidKeyCode::A as u8)),
        BoundAction::Modifier(mods(true, true, true, false, true)),
        u8::MAX,
    );
    assert_eq!(0x3D04, to_via_keycode(a));

    // ALL_T(A) ->
    let a = KeyBinding::TapHold(
        BoundAction::Key(KeyUsage::Hid(HidKeyCode::A as u8)),
        BoundAction::Modifier(mods(false, true, true, true, true)),
        u8::MAX,
    );
    assert_eq!(0x2F04, to_via_keycode(a));

    // Meh_T(A) ->
    let a = KeyBinding::TapHold(
        BoundAction::Key(KeyUsage::Hid(HidKeyCode::A as u8)),
        BoundAction::Modifier(mods(false, false, true, true, true)),
        u8::MAX,
    );
    assert_eq!(0x2704, to_via_keycode(a));

    // LM(1, LSHIFT)
    let a = KeyBinding::Single(BoundAction::LayerOnWithModifier(1, ModifierCombination::LSHIFT.into_bits()));
    assert_eq!(0x5022, to_via_keycode(a));

    // LM(15, RGUI | RCTRL)
    let a = KeyBinding::Single(BoundAction::LayerOnWithModifier(
        1,
        ModifierCombination::new().with_right_gui(true).with_right_ctrl(true).into_bits(),
    ));
    assert_eq!(0x5039, to_via_keycode(a));

    // ComboOff
    let a = KeyBinding::Single(BoundAction::KeyboardControl(ControlAction::ComboOff));
    assert_eq!(0x7C51, to_via_keycode(a));

    // GraveEscape
    let a = KeyBinding::Single(BoundAction::Special(SpecialAction::GraveEscape));
    assert_eq!(0x7C16, to_via_keycode(a));

    // RepeatKey
    let a = KeyBinding::Single(BoundAction::Special(SpecialAction::Repeat));
    assert_eq!(0x7C79, to_via_keycode(a));

    // Space Cadet LC( / KC_LCPO
    let a = KeyBinding::TapHold(
        BoundAction::KeyWithModifier(HidKeyCode::Kc9 as u8, ModifierCombination::LSHIFT.into_bits()),
        BoundAction::Modifier(ModifierCombination::LCTRL.into_bits()),
        u8::MAX,
    );
    assert_eq!(0x7C18, to_via_keycode(a));

    // Space Cadet RC) / KC_RCPC
    let a = KeyBinding::TapHold(
        BoundAction::KeyWithModifier(HidKeyCode::Kc0 as u8, ModifierCombination::LSHIFT.into_bits()),
        BoundAction::Modifier(ModifierCombination::RCTRL.into_bits()),
        u8::MAX,
    );
    assert_eq!(0x7C19, to_via_keycode(a));

    // Space Cadet LS( / KC_LSPO
    let a = KeyBinding::TapHold(
        BoundAction::KeyWithModifier(HidKeyCode::Kc9 as u8, ModifierCombination::LSHIFT.into_bits()),
        BoundAction::Modifier(ModifierCombination::LSHIFT.into_bits()),
        u8::MAX,
    );
    assert_eq!(0x7C1A, to_via_keycode(a));

    // Space Cadet RS) / KC_RSPC
    let a = KeyBinding::TapHold(
        BoundAction::KeyWithModifier(HidKeyCode::Kc0 as u8, ModifierCombination::LSHIFT.into_bits()),
        BoundAction::Modifier(ModifierCombination::RSHIFT.into_bits()),
        u8::MAX,
    );
    assert_eq!(0x7C1B, to_via_keycode(a));

    // Space Cadet LA( / KC_LAPO
    let a = KeyBinding::TapHold(
        BoundAction::KeyWithModifier(HidKeyCode::Kc9 as u8, ModifierCombination::LSHIFT.into_bits()),
        BoundAction::Modifier(ModifierCombination::LALT.into_bits()),
        u8::MAX,
    );
    assert_eq!(0x7C1C, to_via_keycode(a));

    // Space Cadet RA) / KC_RAPC
    let a = KeyBinding::TapHold(
        BoundAction::KeyWithModifier(HidKeyCode::Kc0 as u8, ModifierCombination::LSHIFT.into_bits()),
        BoundAction::Modifier(ModifierCombination::RALT.into_bits()),
        u8::MAX,
    );
    assert_eq!(0x7C1D, to_via_keycode(a));

    // RS Enter (SC_SENT) shares its internal action with RSFT_T(Enter), so it re-encodes to 0x3228.
    let a = KeyBinding::TapHold(
        BoundAction::Key(KeyUsage::Hid(HidKeyCode::Enter as u8)),
        BoundAction::Modifier(ModifierCombination::RSHIFT.into_bits()),
        u8::MAX,
    );
    assert_eq!(0x3228, to_via_keycode(a));

    // Morse
    let a = KeyBinding::Morse(0);
    assert_eq!(0x5700, to_via_keycode(a));

    let a = KeyBinding::Morse(5);
    assert_eq!(0x5705, to_via_keycode(a));

    let a = KeyBinding::Morse(255);
    assert_eq!(0x57FF, to_via_keycode(a));
}

#[test]
fn test_convert_consumer_system_keys_to_via() {

    // Test Consumer keys conversion
    // AudioMute (ConsumerKey::Mute) -> HidKeyCode::AudioMute (0xA8)
    let a = KeyBinding::Single(BoundAction::Key(KeyUsage::Consumer(u16::from(ConsumerKey::Mute))));
    assert_eq!(0xA8, to_via_keycode(a));

    // PlayPause (ConsumerKey::PlayPause) -> HidKeyCode::MediaPlayPause (0xAE)
    let a = KeyBinding::Single(BoundAction::Key(KeyUsage::Consumer(u16::from(ConsumerKey::PlayPause))));
    assert_eq!(0xAE, to_via_keycode(a));

    // VolumeIncrement (ConsumerKey::VolumeIncrement) -> HidKeyCode::AudioVolUp (0xA9)
    let a = KeyBinding::Single(BoundAction::Key(KeyUsage::Consumer(u16::from(ConsumerKey::VolumeIncrement))));
    assert_eq!(0xA9, to_via_keycode(a));

    // Test SystemControl keys conversion
    // PowerDown (SystemControlKey::PowerDown) -> HidKeyCode::SystemPower (0xA5)
    let a = KeyBinding::Single(BoundAction::Key(KeyUsage::SystemControl(SystemControlKey::PowerDown as u8)));
    assert_eq!(0xA5, to_via_keycode(a));

    // Sleep (SystemControlKey::Sleep) -> HidKeyCode::SystemSleep (0xA6)
    let a = KeyBinding::Single(BoundAction::Key(KeyUsage::SystemControl(SystemControlKey::Sleep as u8)));
    assert_eq!(0xA6, to_via_keycode(a));

    // WakeUp (SystemControlKey::WakeUp) -> HidKeyCode::SystemWake (0xA7)
    let a = KeyBinding::Single(BoundAction::Key(KeyUsage::SystemControl(SystemControlKey::WakeUp as u8)));
    assert_eq!(0xA7, to_via_keycode(a));
}

#[test]
fn test_convert_from_to_ascii_a() {

    let keycode = HidKeyCode::A;
    let shifted = false;
    let ascii = b'a';

    assert_eq!(to_ascii(keycode, shifted), ascii);
    assert_eq!(from_ascii(ascii), (keycode, shifted));
}
#[test]
fn test_convert_from_to_ascii_K() {

    let keycode = HidKeyCode::K;
    let shifted = true;
    let ascii = b'K';

    assert_eq!(to_ascii(keycode, shifted), ascii);
    assert_eq!(from_ascii(ascii), (keycode, shifted));
}

#[test]
fn via_undefined_hid_usage_decodes_to_no_key() {
    // 0xC5 is no HID keycode: it becomes `HidKeyCode::No`.
    assert_eq!(
        KeyBinding::Single(BoundAction::Key(KeyUsage::Hid(0))),
        from_via_keycode(0x00C5)
    );
    assert_eq!(0x0000, to_via_keycode(from_via_keycode(0x00C5)));
}

#[test]
fn via_unsupported_ranges_decode_to_no() {
    for k in [0x52C0u16, 0x52DF, 0x7000, 0x7800, 0x7C02, 0x7C5F, 0x7E20, 0xFFFF] {
        assert_eq!(KeyBinding::No, from_via_keycode(k));
    }
}

#[test]
fn via_decode_encode_round_trip() {
    for k in [
        0x0000u16, 0x0001, 0x0004, 0x00E5, 0x0104, 0x1104, 0x0F04, 0x2604, 0x3D05, 0x4304, 0x5022, 0x5039,
        0x5203, 0x5223, 0x5243, 0x5263, 0x5283, 0x52B1, 0x52EF, 0x5705, 0x7705, 0x7C00, 0x7C18, 0x7C1D,
        0x7E1F,
    ] {
        assert_eq!(k, to_via_keycode(from_via_keycode(k)), "keycode {:#X}", k);
    }
    // RShift-Enter shares its binding with RShift mod-tap Enter.
    assert_eq!(0x3228, to_via_keycode(from_via_keycode(0x7C1E)));
}

#[test]
fn via_encode_decode_round_trip() {
    let bindings = [
        KeyBinding::Single(BoundAction::LayerOnWithModifier(7, mods(true, true, false, false, true))),
        KeyBinding::Single(BoundAction::OneShotModifier(0)),
        KeyBinding::TapHold(
            BoundAction::Key(KeyUsage::Hid(HidKeyCode::Z as u8)),
            BoundAction::Modifier(mods(true, false, true, false, false)),
            u8::MAX,
        ),
        KeyBinding::Single(BoundAction::TriggerMacro(31)),
        KeyBinding::Morse(200),
    ];
    for b in bindings {
        assert_eq!(b, from_via_keycode(to_via_keycode(b)));
    }
}

#[test]
fn via_unencodable_bindings_give_zero() {
    assert_eq!(0, to_via_keycode(KeyBinding::Tap(BoundAction::LayerOn(1))));
    assert_eq!(0, to_via_keycode(KeyBinding::Single(BoundAction::OneShotLayer(16))));
    assert_eq!(0, to_via_keycode(KeyBinding::Single(BoundAction::KeyboardControl(ControlAction::OutputUsb))));
    assert_eq!(
        0,
        to_via_keycode(KeyBinding::Single(BoundAction::Key(KeyUsage::Consumer(u16::from(ConsumerKey::Copy)))))
    );
    assert_eq!(
        0,
        to_via_keycode(KeyBinding::TapHold(
            BoundAction::Key(KeyUsage::Hid(4)),
            BoundAction::LayerOn(17),
            u8::MAX
        ))
    );
}
