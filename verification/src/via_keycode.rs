//! The 16-bit keycodes of the VIA/Vial protocol and the key bindings they
//! stand for.
//!
//! Ranges (QMK layout): `0x00..=0xFF` basic keys, `0x0100..=0x1FFF` keys with
//! modifiers, `0x2000..=0x3FFF` mod-tap, `0x4000..=0x4FFF` layer-tap,
//! `0x5000..=0x51FF` layer with modifiers, `0x52xx` layer keys, one-shot
//! layer and one-shot modifier, `0x57xx` tap dance, `0x77xx` macros,
//! `0x7Cxx` keyboard controls and space-cadet keys, `0x7E00..=0x7E1F`
//! user keys. Modifiers travel in packed form (see
//! `spec_pack_modifiers`).

use vstd::prelude::*;

use crate::action::{BoundAction, ControlAction, KeyBinding, SpecialAction};
use crate::keycode::{
    consumer_hid_usage, consumer_key_hid_usage, hid_key_code, pack_modifiers, spec_hid_key_code,
    spec_pack_modifiers, spec_system_control_hid, spec_unpack_modifiers, system_control_hid,
    unpack_modifiers, KeyUsage,
};

verus! {

/// HID usage of `Kc9`.
pub const HID_KC9: u8 = 0x26;
/// HID usage of `Kc0`.
pub const HID_KC0: u8 = 0x27;
/// HID usage of `Enter`.
pub const HID_ENTER: u8 = 0x28;
/// Modifier byte of `LCtrl`.
pub const MOD_LCTRL: u8 = 0x01;
/// Modifier byte of `LShift`.
pub const MOD_LSHIFT: u8 = 0x02;
/// Modifier byte of `LAlt`.
pub const MOD_LALT: u8 = 0x04;
/// Modifier byte of `RCtrl`.
pub const MOD_RCTRL: u8 = 0x10;
/// Modifier byte of `RShift`.
pub const MOD_RSHIFT: u8 = 0x20;
/// Modifier byte of `RAlt`.
pub const MOD_RALT: u8 = 0x40;

/// VIA keycode of a keyboard control action (0 when VIA has none).
pub open spec fn spec_control_to_via(c: ControlAction) -> u16 {
    match c {
        ControlAction::Bootloader => 0x7c00,
        ControlAction::Reboot => 0x7c01,
        ControlAction::ClearEeprom => 0x7c03,
        ControlAction::ComboOn => 0x7c50,
        ControlAction::ComboOff => 0x7c51,
        ControlAction::ComboToggle => 0x7c52,
        ControlAction::CapsWordToggle => 0x7c73,
        _ => 0,
    }
}

/// VIA keycode of a single action (0 when VIA has none).
pub open spec fn spec_action_to_via(a: BoundAction) -> u16 {
    match a {
        BoundAction::Key(KeyUsage::Hid(h)) => h as u16,
        BoundAction::Key(KeyUsage::Consumer(c)) => match consumer_key_hid_usage(c) {
            Some(h) => h as u16,
            None => 0,
        },
        BoundAction::Key(KeyUsage::SystemControl(s)) => match spec_system_control_hid(s) {
            Some(h) => h as u16,
            None => 0,
        },
        BoundAction::KeyWithModifier(k, m) => (((spec_pack_modifiers(m) as u16) << 8u16) | (k as u16)) as u16,
        BoundAction::LayerToggleOnly(l) => (0x5200u16 | (l as u16)) as u16,
        BoundAction::LayerOn(l) => (0x5220u16 | (l as u16)) as u16,
        BoundAction::DefaultLayer(l) => (0x5240u16 | (l as u16)) as u16,
        BoundAction::PersistentDefaultLayer(l) => (0x52E0u16 | (l as u16)) as u16,
        BoundAction::LayerToggle(l) => (0x5260u16 | (l as u16)) as u16,
        BoundAction::TriLayerLower => 0x7c77,
        BoundAction::TriLayerUpper => 0x7c78,
        BoundAction::TriggerMacro(idx) => (0x7700 + idx) as u16,
        BoundAction::OneShotLayer(l) => if l < 16 {
            (0x5280u16 | (l as u16)) as u16
        } else {
            0
        },
        BoundAction::OneShotModifier(m) => (0x52A0u16 | (spec_pack_modifiers(m) as u16)) as u16,
        BoundAction::LayerOnWithModifier(l, m) => if l < 16 {
            (0x5000u16 | ((l as u16) << 5u16) | ((spec_pack_modifiers(m) & 0x1F) as u16)) as u16
        } else {
            0
        },
        BoundAction::KeyboardControl(c) => spec_control_to_via(c),
        BoundAction::Special(SpecialAction::GraveEscape) => 0x7c16,
        BoundAction::Special(SpecialAction::Repeat) => 0x7c79,
        BoundAction::User(id) => ((id as u16 & 0x1F) | 0x7E00u16) as u16,
        _ => 0,
    }
}

/// VIA keycode of a mod-tap key with tap action `tap` and hold modifiers
/// `m`: the space-cadet keys, or `0x2000 | packed << 8 | key`.
pub open spec fn spec_mod_tap_to_via(tap: BoundAction, m: u8) -> u16 {
    match tap {
        BoundAction::KeyWithModifier(k, sm) => if sm == MOD_LSHIFT {
            if k == HID_KC9 && m == MOD_LCTRL {
                0x7C18
            } else if k == HID_KC0 && m == MOD_RCTRL {
                0x7C19
            } else if k == HID_KC9 && m == MOD_LSHIFT {
                0x7C1A
            } else if k == HID_KC0 && m == MOD_RSHIFT {
                0x7C1B
            } else if k == HID_KC9 && m == MOD_LALT {
                0x7C1C
            } else if k == HID_KC0 && m == MOD_RALT {
                0x7C1D
            } else {
                0
            }
        } else {
            0
        },
        BoundAction::Key(KeyUsage::Hid(k)) => (0x2000u16 | ((spec_pack_modifiers(m) as u16) << 8u16) | (
        k as u16)) as u16,
        _ => 0,
    }
}

/// VIA keycode of a key binding (0 when VIA has none).
pub open spec fn spec_to_via(b: KeyBinding) -> u16 {
    match b {
        KeyBinding::No => 0x0000,
        KeyBinding::Transparent => 0x0001,
        KeyBinding::Single(a) => spec_action_to_via(a),
        KeyBinding::Tap(_) => 0,
        KeyBinding::TapHold(tap, hold, _) => match hold {
            BoundAction::LayerOn(l) => if l > 16 {
                0
            } else {
                let keycode: u16 = match tap {
                    BoundAction::Key(KeyUsage::Hid(k)) => k as u16,
                    _ => 0,
                };
                (0x4000u16 | ((l as u16) << 8u16) | keycode) as u16
            },
            BoundAction::Modifier(m) => spec_mod_tap_to_via(tap, m),
            _ => 0,
        },
        KeyBinding::Morse(i) => (0x5700u16 | (i as u16)) as u16,
    }
}

fn control_to_via(c: ControlAction) -> (r: u16)
    ensures
        r == spec_control_to_via(c),
{
    match c {
        ControlAction::Bootloader => 0x7c00,
        ControlAction::Reboot => 0x7c01,
        ControlAction::ClearEeprom => 0x7c03,
        ControlAction::ComboOn => 0x7c50,
        ControlAction::ComboOff => 0x7c51,
        ControlAction::ComboToggle => 0x7c52,
        ControlAction::CapsWordToggle => 0x7c73,
        _ => 0,
    }
}

fn action_to_via(a: BoundAction) -> (r: u16)
    ensures
        r == spec_action_to_via(a),
{
    match a {
        BoundAction::Key(KeyUsage::Hid(h)) => h as u16,
        BoundAction::Key(KeyUsage::Consumer(c)) => match consumer_hid_usage(c) {
            Some(h) => h as u16,
            None => 0,
        },
        BoundAction::Key(KeyUsage::SystemControl(s)) => match system_control_hid(s) {
            Some(h) => h as u16,
            None => 0,
        },
        BoundAction::KeyWithModifier(k, m) => ((pack_modifiers(m) as u16) << 8u16) | (k as u16),
        BoundAction::LayerToggleOnly(l) => 0x5200u16 | (l as u16),
        BoundAction::LayerOn(l) => 0x5220u16 | (l as u16),
        BoundAction::DefaultLayer(l) => 0x5240u16 | (l as u16),
        BoundAction::PersistentDefaultLayer(l) => 0x52E0u16 | (l as u16),
        BoundAction::LayerToggle(l) => 0x5260u16 | (l as u16),
        BoundAction::TriLayerLower => 0x7c77,
        BoundAction::TriLayerUpper => 0x7c78,
        BoundAction::TriggerMacro(idx) => 0x7700u16 + (idx as u16),
        BoundAction::OneShotLayer(l) => if l < 16 {
            0x5280u16 | (l as u16)
        } else {
            0
        },
        BoundAction::OneShotModifier(m) => 0x52A0u16 | (pack_modifiers(m) as u16),
        BoundAction::LayerOnWithModifier(l, m) => if l < 16 {
            0x5000u16 | ((l as u16) << 5u16) | ((pack_modifiers(m) & 0x1F) as u16)
        } else {
            0
        },
        BoundAction::KeyboardControl(c) => control_to_via(c),
        BoundAction::Special(SpecialAction::GraveEscape) => 0x7c16,
        BoundAction::Special(SpecialAction::Repeat) => 0x7c79,
        BoundAction::User(id) => (id as u16 & 0x1F) | 0x7E00u16,
        _ => 0,
    }
}

fn mod_tap_to_via(tap: BoundAction, m: u8) -> (r: u16)
    ensures
        r == spec_mod_tap_to_via(tap, m),
{
    match tap {
        BoundAction::KeyWithModifier(k, sm) => {
            if sm == MOD_LSHIFT {
                if k == HID_KC9 && m == MOD_LCTRL {
                    0x7C18
                } else if k == HID_KC0 && m == MOD_RCTRL {
                    0x7C19
                } else if k == HID_KC9 && m == MOD_LSHIFT {
                    0x7C1A
                } else if k == HID_KC0 && m == MOD_RSHIFT {
                    0x7C1B
                } else if k == HID_KC9 && m == MOD_LALT {
                    0x7C1C
                } else if k == HID_KC0 && m == MOD_RALT {
                    0x7C1D
                } else {
                    0
                }
            } else {
                0
            }
        },
        BoundAction::Key(KeyUsage::Hid(k)) => 0x2000u16 | ((pack_modifiers(m) as u16) << 8u16) | (k as u16),
        _ => 0,
    }
}

/// The VIA keycode of a key binding; 0 for a binding VIA cannot express.
pub fn to_via_keycode(key_action: KeyBinding) -> (r: u16)
    ensures
        r == spec_to_via(key_action),
{
    match key_action {
        KeyBinding::No => 0x0000,
        KeyBinding::Transparent => 0x0001,
        KeyBinding::Single(a) => action_to_via(a),
        KeyBinding::Tap(_) => 0,
        KeyBinding::TapHold(tap, hold, _) => match hold {
            BoundAction::LayerOn(l) => {
                if l > 16 {
                    0
                } else {
                    let keycode: u16 = match tap {
                        BoundAction::Key(KeyUsage::Hid(k)) => k as u16,
                        _ => 0,
                    };
                    0x4000u16 | ((l as u16) << 8u16) | keycode
                }
            },
            BoundAction::Modifier(m) => mod_tap_to_via(tap, m),
            _ => 0,
        },
        KeyBinding::Morse(index) => 0x5700u16 | (index as u16),
    }
}

/// The space-cadet binding: tap `key` with left shift, hold `hold_mods`.
pub open spec fn space_cadet(key: u8, hold_mods: u8) -> KeyBinding {
    KeyBinding::TapHold(BoundAction::KeyWithModifier(key, MOD_LSHIFT), BoundAction::Modifier(hold_mods), 255)
}

/// The key binding of a VIA keycode; `KeyBinding::No` for a keycode that
/// stands for nothing supported.
pub open spec fn spec_from_via(k: u16) -> KeyBinding {
    if k == 0x0000 {
        KeyBinding::No
    } else if k == 0x0001 {
        KeyBinding::Transparent
    } else if k <= 0x00FF {
        KeyBinding::Single(BoundAction::Key(KeyUsage::Hid(spec_hid_key_code(k as u8))))
    } else if k <= 0x1FFF {
        KeyBinding::Single(
            BoundAction::KeyWithModifier(spec_hid_key_code(k as u8), spec_unpack_modifiers((k >> 8u16) as u8)),
        )
    } else if k <= 0x3FFF {
        KeyBinding::TapHold(
            BoundAction::Key(KeyUsage::Hid(spec_hid_key_code(k as u8))),
            BoundAction::Modifier(spec_unpack_modifiers(((k >> 8u16) & 0x1F) as u8)),
            255,
        )
    } else if k <= 0x4FFF {
        KeyBinding::TapHold(
            BoundAction::Key(KeyUsage::Hid(spec_hid_key_code(k as u8))),
            BoundAction::LayerOn(((k >> 8u16) & 0xF) as u8),
            255,
        )
    } else if k <= 0x51FF {
        KeyBinding::Single(
            BoundAction::LayerOnWithModifier(((k >> 5u16) & 0xF) as u8, spec_unpack_modifiers((k & 0x1F) as u8)),
        )
    } else if k <= 0x521F {
        KeyBinding::Single(BoundAction::LayerToggleOnly((k as u8) & 0x0F))
    } else if k <= 0x523F {
        KeyBinding::Single(BoundAction::LayerOn((k as u8) & 0x0F))
    } else if k <= 0x525F {
        KeyBinding::Single(BoundAction::DefaultLayer((k as u8) & 0x0F))
    } else if k <= 0x527F {
        KeyBinding::Single(BoundAction::LayerToggle((k as u8) & 0x0F))
    } else if k <= 0x529F {
        KeyBinding::Single(BoundAction::OneShotLayer((k as u8) & 0x0F))
    } else if k <= 0x52BF {
        KeyBinding::Single(BoundAction::OneShotModifier(spec_unpack_modifiers((k & 0x1F) as u8)))
    } else if k <= 0x52DF {
        KeyBinding::No
    } else if k <= 0x52FF {
        KeyBinding::Single(BoundAction::PersistentDefaultLayer((k as u8) & 0x0F))
    } else if 0x5700 <= k <= 0x57FF {
        KeyBinding::Morse((k & 0xFF) as u8)
    } else if 0x7700 <= k <= 0x771F {
        KeyBinding::Single(BoundAction::TriggerMacro((k as u8) & 0x1F))
    } else if k == 0x7C00 {
        KeyBinding::Single(BoundAction::KeyboardControl(ControlAction::Bootloader))
    } else if k == 0x7C01 {
        KeyBinding::Single(BoundAction::KeyboardControl(ControlAction::Reboot))
    } else if k == 0x7C03 {
        KeyBinding::Single(BoundAction::KeyboardControl(ControlAction::ClearEeprom))
    } else if k == 0x7C50 {
        KeyBinding::Single(BoundAction::KeyboardControl(ControlAction::ComboOn))
    } else if k == 0x7C51 {
        KeyBinding::Single(BoundAction::KeyboardControl(ControlAction::ComboOff))
    } else if k == 0x7C52 {
        KeyBinding::Single(BoundAction::KeyboardControl(ControlAction::ComboToggle))
    } else if k == 0x7C16 {
        KeyBinding::Single(BoundAction::Special(SpecialAction::GraveEscape))
    } else if k == 0x7C73 {
        KeyBinding::Single(BoundAction::KeyboardControl(ControlAction::CapsWordToggle))
    } else if k == 0x7C77 {
        KeyBinding::Single(BoundAction::TriLayerLower)
    } else if k == 0x7C78 {
        KeyBinding::Single(BoundAction::TriLayerUpper)
    } else if k == 0x7C79 {
        KeyBinding::Single(BoundAction::Special(SpecialAction::Repeat))
    } else if k == 0x7C18 {
        space_cadet(HID_KC9, MOD_LCTRL)
    } else if k == 0x7C19 {
        space_cadet(HID_KC0, MOD_RCTRL)
    } else if k == 0x7C1A {
        space_cadet(HID_KC9, MOD_LSHIFT)
    } else if k == 0x7C1B {
        space_cadet(HID_KC0, MOD_RSHIFT)
    } else if k == 0x7C1C {
        space_cadet(HID_KC9, MOD_LALT)
    } else if k == 0x7C1D {
        space_cadet(HID_KC0, MOD_RALT)
    } else if k == 0x7C1E {
        KeyBinding::TapHold(
            BoundAction::Key(KeyUsage::Hid(HID_ENTER)),
            BoundAction::Modifier(MOD_RSHIFT),
            255,
        )
    } else if 0x7E00 <= k <= 0x7E1F {
        KeyBinding::Single(BoundAction::User((k as u8) & 0x1F))
    } else {
        KeyBinding::No
    }
}

fn space_cadet_binding(key: u8, hold_mods: u8) -> (r: KeyBinding)
    ensures
        r == space_cadet(key, hold_mods),
{
    KeyBinding::TapHold(BoundAction::KeyWithModifier(key, MOD_LSHIFT), BoundAction::Modifier(hold_mods), 255)
}

/// The key binding of a VIA keycode; `KeyBinding::No` for a keycode that
/// stands for nothing supported.
pub fn from_via_keycode(via_keycode: u16) -> (r: KeyBinding)
    ensures
        r == spec_from_via(via_keycode),
{
    let k = via_keycode;
    if k == 0x0000 {
        KeyBinding::No
    } else if k == 0x0001 {
        KeyBinding::Transparent
    } else if k <= 0x00FF {
        KeyBinding::Single(BoundAction::Key(KeyUsage::Hid(hid_key_code(k as u8))))
    } else if k <= 0x1FFF {
        let modifier = unpack_modifiers((k >> 8u16) as u8);
        KeyBinding::Single(BoundAction::KeyWithModifier(hid_key_code(k as u8), modifier))
    } else if k <= 0x3FFF {
        let keycode = hid_key_code(k as u8);
        let modifier = unpack_modifiers(((k >> 8u16) & 0x1F) as u8);
        KeyBinding::TapHold(BoundAction::Key(KeyUsage::Hid(keycode)), BoundAction::Modifier(modifier), 255)
    } else if k <= 0x4FFF {
        let layer = (k >> 8u16) & 0xF;
        let keycode = hid_key_code(k as u8);
        KeyBinding::TapHold(BoundAction::Key(KeyUsage::Hid(keycode)), BoundAction::LayerOn(layer as u8), 255)
    } else if k <= 0x51FF {
        let layer = (k >> 5u16) & 0xF;
        let modifier = unpack_modifiers((k & 0x1F) as u8);
        KeyBinding::Single(BoundAction::LayerOnWithModifier(layer as u8, modifier))
    } else if k <= 0x521F {
        KeyBinding::Single(BoundAction::LayerToggleOnly((k as u8) & 0x0F))
    } else if k <= 0x523F {
        KeyBinding::Single(BoundAction::LayerOn((k as u8) & 0x0F))
    } else if k <= 0x525F {
        KeyBinding::Single(BoundAction::DefaultLayer((k as u8) & 0x0F))
    } else if k <= 0x527F {
        KeyBinding::Single(BoundAction::LayerToggle((k as u8) & 0x0F))
    } else if k <= 0x529F {
        KeyBinding::Single(BoundAction::OneShotLayer((k as u8) & 0x0F))
    } else if k <= 0x52BF {
        KeyBinding::Single(BoundAction::OneShotModifier(unpack_modifiers((k & 0x1F) as u8)))
    } else if k <= 0x52DF {
        KeyBinding::No
    } else if k <= 0x52FF {
        KeyBinding::Single(BoundAction::PersistentDefaultLayer((k as u8) & 0x0F))
    } else if 0x5700 <= k && k <= 0x57FF {
        KeyBinding::Morse((k & 0xFF) as u8)
    } else if 0x7700 <= k && k <= 0x771F {
        KeyBinding::Single(BoundAction::TriggerMacro((k as u8) & 0x1F))
    } else if k == 0x7C00 {
        KeyBinding::Single(BoundAction::KeyboardControl(ControlAction::Bootloader))
    } else if k == 0x7C01 {
        KeyBinding::Single(BoundAction::KeyboardControl(ControlAction::Reboot))
    } else if k == 0x7C03 {
        KeyBinding::Single(BoundAction::KeyboardControl(ControlAction::ClearEeprom))
    } else if k == 0x7C50 {
        KeyBinding::Single(BoundAction::KeyboardControl(ControlAction::ComboOn))
    } else if k == 0x7C51 {
        KeyBinding::Single(BoundAction::KeyboardControl(ControlAction::ComboOff))
    } else if k == 0x7C52 {
        KeyBinding::Single(BoundAction::KeyboardControl(ControlAction::ComboToggle))
    } else if k == 0x7C16 {
        KeyBinding::Single(BoundAction::Special(SpecialAction::GraveEscape))
    } else if k == 0x7C73 {
        KeyBinding::Single(BoundAction::KeyboardControl(ControlAction::CapsWordToggle))
    } else if k == 0x7C77 {
        KeyBinding::Single(BoundAction::TriLayerLower)
    } else if k == 0x7C78 {
        KeyBinding::Single(BoundAction::TriLayerUpper)
    } else if k == 0x7C79 {
        KeyBinding::Single(BoundAction::Special(SpecialAction::Repeat))
    } else if k == 0x7C18 {
        space_cadet_binding(HID_KC9, MOD_LCTRL)
    } else if k == 0x7C19 {
        space_cadet_binding(HID_KC0, MOD_RCTRL)
    } else if k == 0x7C1A {
        space_cadet_binding(HID_KC9, MOD_LSHIFT)
    } else if k == 0x7C1B {
        space_cadet_binding(HID_KC0, MOD_RSHIFT)
    } else if k == 0x7C1C {
        space_cadet_binding(HID_KC9, MOD_LALT)
    } else if k == 0x7C1D {
        space_cadet_binding(HID_KC0, MOD_RALT)
    } else if k == 0x7C1E {
        KeyBinding::TapHold(BoundAction::Key(KeyUsage::Hid(HID_ENTER)), BoundAction::Modifier(MOD_RSHIFT), 255)
    } else if 0x7E00 <= k && k <= 0x7E1F {
        KeyBinding::Single(BoundAction::User((k as u8) & 0x1F))
    } else {
        KeyBinding::No
    }
}

/// Packed modifier forms that come back unchanged through unpacking and
/// packing: all but "right side, no modifier" (0x10).
pub open spec fn packed_canonical(b: u8) -> bool {
    b < 0x20 && b != 0x10
}

/// VIA keycodes that stand for a supported binding written in its one
/// canonical form: decoding and encoding again gives the keycode back.
/// Left out are keycodes whose HID usage is undefined, packed modifiers
/// "right side, no modifier", layer numbers past 15 in the 0x52xx layer
/// keys, the ranges decoded to nothing, and the RShift-Enter space-cadet key
/// (0x7C1E), which shares its binding with RShift mod-tap Enter (0x3228).
pub open spec fn via_canonical(k: u16) -> bool {
    let lo = k as u8;
    if k <= 0x0001 {
        true
    } else if k <= 0x00FF {
        spec_hid_key_code(lo) == lo
    } else if k <= 0x1FFF {
        spec_hid_key_code(lo) == lo && ((k >> 8u16) as u8) & 0x0F != 0
    } else if k <= 0x3FFF {
        spec_hid_key_code(lo) == lo && packed_canonical(((k >> 8u16) & 0x1F) as u8)
    } else if k <= 0x4FFF {
        spec_hid_key_code(lo) == lo
    } else if k <= 0x51FF {
        packed_canonical((k & 0x1F) as u8)
    } else if k <= 0x529F {
        k & 0x10 == 0
    } else if k <= 0x52BF {
        packed_canonical((k & 0x1F) as u8)
    } else if 0x52E0 <= k <= 0x52EF {
        true
    } else if 0x5700 <= k <= 0x57FF {
        true
    } else if 0x7700 <= k <= 0x771F {
        true
    } else if 0x7E00 <= k <= 0x7E1F {
        true
    } else {
        k == 0x7C00 || k == 0x7C01 || k == 0x7C03 || k == 0x7C50 || k == 0x7C51 || k == 0x7C52
            || k == 0x7C16 || k == 0x7C73 || k == 0x7C77 || k == 0x7C78 || k == 0x7C79 || (0x7C18
            <= k <= 0x7C1D)
    }
}

proof fn lemma_packed_round_trip(b: u8)
    requires
        packed_canonical(b),
    ensures
        spec_pack_modifiers(spec_unpack_modifiers(b)) == b,
{
    assert(b < 0x20 && b != 0x10 ==> spec_pack_modifiers(spec_unpack_modifiers(b)) == b) by (bit_vector);
}

proof fn lemma_layer_key_bits(base: u16, k: u16)
    requires
        base % 32 == 0,
        base <= k,
        k < base + 32,
        k & 0x10 == 0,
    ensures
        (base | (((k as u8) & 0x0F) as u16)) == k,
{
    assert(base % 32 == 0 && base <= k && k < base + 32 && k & 0x10 == 0 ==> (base | (((k as u8) & 0x0F) as u16)) == k)
        by (bit_vector);
}

proof fn lemma_layer_code(base: u16, l: u8)
    requires
        base % 32 == 0,
        base <= 0xFFE0,
        l < 16,
    ensures
        (base | (l as u16)) == base + l,
        ((base | (l as u16)) as u8) & 0x0F == l,
{
    assert(base % 32 == 0 && base <= 0xFFE0 && l < 16 ==> (base | (l as u16)) == base + l && ((base | (
    l as u16)) as u8) & 0x0F == l) by (bit_vector);
}

/// Decoding a canonical VIA keycode and encoding the binding again gives
/// the same keycode: what the host writes to a key is what it reads back.
pub proof fn lemma_via_decode_encode(k: u16)
    requires
        via_canonical(k),
    ensures
        spec_to_via(spec_from_via(k)) == k,
{
    let lo = k as u8;
    if k <= 0x0001 {
    } else if k <= 0x00FF {
        assert(k <= 0x00FF ==> (k as u8) as u16 == k) by (bit_vector);
    } else if k <= 0x1FFF {
        let hi = (k >> 8u16) as u8;
        assert(0x0100 <= k <= 0x1FFF && ((k >> 8u16) as u8) & 0x0F != 0 ==> ((k >> 8u16) as u8) < 0x20
            && ((k >> 8u16) as u8) != 0x10) by (bit_vector);
        lemma_packed_round_trip(hi);
        assert(0x0100 <= k <= 0x1FFF ==> (((((k >> 8u16) as u8) as u16) << 8u16) | ((k as u8) as u16)) == k)
            by (bit_vector);
    } else if k <= 0x3FFF {
        let b = ((k >> 8u16) & 0x1F) as u8;
        lemma_packed_round_trip(b);
        assert(0x2000 <= k <= 0x3FFF ==> (0x2000u16 | (((((k >> 8u16) & 0x1F) as u8) as u16) << 8u16) | ((
        k as u8) as u16)) == k) by (bit_vector);
    } else if k <= 0x4FFF {
        assert(0x4000 <= k <= 0x4FFF ==> ((k >> 8u16) & 0xF) as u8 <= 16 && (0x4000u16 | ((((k >> 8u16)
            & 0xF) as u8 as u16) << 8u16) | ((k as u8) as u16)) == k) by (bit_vector);
    } else if k <= 0x51FF {
        let b = (k & 0x1F) as u8;
        lemma_packed_round_trip(b);
        assert(0x5000 <= k <= 0x51FF ==> (((k >> 5u16) & 0xF) as u8) < 16 && (0x5000u16 | (((((k >> 5u16)
            & 0xF) as u8) as u16) << 5u16) | (((((k & 0x1F) as u8) & 0x1F) as u16))) == k) by (bit_vector);
    } else if k <= 0x521F {
        lemma_layer_key_bits(0x5200, k);
    } else if k <= 0x523F {
        lemma_layer_key_bits(0x5220, k);
    } else if k <= 0x525F {
        lemma_layer_key_bits(0x5240, k);
    } else if k <= 0x527F {
        lemma_layer_key_bits(0x5260, k);
    } else if k <= 0x529F {
        lemma_layer_key_bits(0x5280, k);
        assert((k as u8) & 0x0F < 16) by (bit_vector);
    } else if k <= 0x52BF {
        let b = (k & 0x1F) as u8;
        lemma_packed_round_trip(b);
        assert(0x52A0 <= k <= 0x52BF ==> (0x52A0u16 | (((k & 0x1F) as u8) as u16)) == k) by (bit_vector);
    } else if 0x52E0 <= k <= 0x52EF {
        assert(0x52E0 <= k <= 0x52EF ==> k & 0x10 == 0) by (bit_vector);
        lemma_layer_key_bits(0x52E0, k);
    } else if 0x5700 <= k <= 0x57FF {
        assert(0x5700 <= k <= 0x57FF ==> (0x5700u16 | (((k & 0xFF) as u8) as u16)) == k) by (bit_vector);
    } else if 0x7700 <= k <= 0x771F {
        assert(0x7700 <= k <= 0x771F ==> 0x7700 + (((k as u8) & 0x1F) as int) == k) by (bit_vector);
    } else if 0x7E00 <= k <= 0x7E1F {
        assert(0x7E00 <= k <= 0x7E1F ==> ((((((k as u8) & 0x1F) as u16) & 0x1F) | 0x7E00u16)) == k)
            by (bit_vector);
    } else {
    }
}

/// Modifier bytes whose modifiers are all on one side (left or right):
/// the ones the packed form can carry.
pub open spec fn one_sided(m: u8) -> bool {
    m & 0xF0 == 0 || m & 0x0F == 0
}

/// HID usages that are defined keycodes.
pub open spec fn defined_hid(h: u8) -> bool {
    spec_hid_key_code(h) == h
}

/// Single actions that VIA expresses.
pub open spec fn via_expressible_action(a: BoundAction) -> bool {
    match a {
        BoundAction::Key(KeyUsage::Hid(h)) => h >= 2 && defined_hid(h),
        BoundAction::KeyWithModifier(k, m) => defined_hid(k) && m != 0 && one_sided(m),
        BoundAction::LayerToggleOnly(l) => l < 16,
        BoundAction::LayerOn(l) => l < 16,
        BoundAction::DefaultLayer(l) => l < 16,
        BoundAction::LayerToggle(l) => l < 16,
        BoundAction::OneShotLayer(l) => l < 16,
        BoundAction::PersistentDefaultLayer(l) => l < 16,
        BoundAction::OneShotModifier(m) => one_sided(m),
        BoundAction::LayerOnWithModifier(l, m) => l < 16 && one_sided(m),
        BoundAction::TriLayerLower => true,
        BoundAction::TriLayerUpper => true,
        BoundAction::TriggerMacro(i) => i < 32,
        BoundAction::KeyboardControl(c) => spec_control_to_via(c) != 0,
        BoundAction::Special(_) => true,
        BoundAction::User(id) => id < 32,
        _ => false,
    }
}

/// Key bindings that VIA expresses: encoding them and decoding the
/// keycode gives them back. Consumer and system-control keys are sent as
/// their HID counterparts and come back as HID keys, so they are not here.
pub open spec fn via_expressible(b: KeyBinding) -> bool {
    match b {
        KeyBinding::No => true,
        KeyBinding::Transparent => true,
        KeyBinding::Single(a) => via_expressible_action(a),
        KeyBinding::TapHold(tap, hold, profile) => profile == 255 && match (tap, hold) {
            (BoundAction::Key(KeyUsage::Hid(k)), BoundAction::LayerOn(l)) => l < 16 && defined_hid(k),
            (BoundAction::Key(KeyUsage::Hid(k)), BoundAction::Modifier(m)) => defined_hid(k) && one_sided(m),
            (BoundAction::KeyWithModifier(k, sm), BoundAction::Modifier(m)) => sm == MOD_LSHIFT && (
            (k == HID_KC9 && (m == MOD_LCTRL || m == MOD_LSHIFT || m == MOD_LALT)) || (k == HID_KC0 && (m
                == MOD_RCTRL || m == MOD_RSHIFT || m == MOD_RALT))),
            _ => false,
        },
        KeyBinding::Morse(_) => true,
        _ => false,
    }
}

proof fn lemma_pack_one_sided(m: u8)
    requires
        one_sided(m),
    ensures
        spec_unpack_modifiers(spec_pack_modifiers(m)) == m,
        spec_pack_modifiers(m) < 0x20,
        m != 0 ==> spec_pack_modifiers(m) != 0,
{
    assert((m & 0xF0 == 0 || m & 0x0F == 0) ==> spec_unpack_modifiers(spec_pack_modifiers(m)) == m
        && spec_pack_modifiers(m) < 0x20 && (m != 0 ==> spec_pack_modifiers(m) != 0)) by (bit_vector);
}

/// Encoding a binding VIA expresses and decoding the keycode gives the
/// same binding: what the host reads of a key is what the key does.
pub proof fn lemma_via_encode_decode(b: KeyBinding)
    requires
        via_expressible(b),
    ensures
        spec_from_via(spec_to_via(b)) == b,
{
    match b {
        KeyBinding::Single(a) => {
            match a {
                BoundAction::Key(KeyUsage::Hid(h)) => {
                    assert((h as u16) as u8 == h) by (bit_vector);
                },
                BoundAction::KeyWithModifier(k, m) => {
                    lemma_pack_one_sided(m);
                    let p = spec_pack_modifiers(m);
                    assert(0 < p < 0x20 ==> 0x100 <= (((p as u16) << 8u16) | (k as u16)) <= 0x1FFF && ((((
                    p as u16) << 8u16) | (k as u16)) as u8) == k && (((((p as u16) << 8u16) | (k as u16))
                        >> 8u16) as u8) == p) by (bit_vector);
                },
                BoundAction::LayerToggleOnly(l) => {
                    lemma_layer_code(0x5200, l);
                },
                BoundAction::LayerOn(l) => {
                    lemma_layer_code(0x5220, l);
                },
                BoundAction::DefaultLayer(l) => {
                    lemma_layer_code(0x5240, l);
                },
                BoundAction::LayerToggle(l) => {
                    lemma_layer_code(0x5260, l);
                },
                BoundAction::OneShotLayer(l) => {
                    lemma_layer_code(0x5280, l);
                },
                BoundAction::PersistentDefaultLayer(l) => {
                    lemma_layer_code(0x52E0, l);
                },
                BoundAction::OneShotModifier(m) => {
                    lemma_pack_one_sided(m);
                    let p = spec_pack_modifiers(m);
                    assert(p < 0x20 ==> 0x52A0 <= (0x52A0u16 | (p as u16)) <= 0x52BF && (((0x52A0u16 | (
                    p as u16)) & 0x1F) as u8) == p) by (bit_vector);
                },
                BoundAction::LayerOnWithModifier(l, m) => {
                    lemma_pack_one_sided(m);
                    let p = spec_pack_modifiers(m);
                    assert(l < 16 && p < 0x20 ==> 0x5000 <= (0x5000u16 | ((l as u16) << 5u16) | ((p & 0x1F)
                        as u16)) <= 0x51FF && ((((0x5000u16 | ((l as u16) << 5u16) | ((p & 0x1F) as u16))
                        >> 5u16) & 0xF) as u8) == l && (((0x5000u16 | ((l as u16) << 5u16) | ((p & 0x1F)
                        as u16)) & 0x1F) as u8) == p) by (bit_vector);
                },
                BoundAction::TriggerMacro(i) => {
                    assert(i < 32 ==> (((0x7700 + i) as u16) as u8) & 0x1F == i) by (bit_vector);
                },
                BoundAction::User(id) => {
                    assert(id < 32 ==> 0x7E00 <= (((id as u16 & 0x1F) | 0x7E00u16) as u16) <= 0x7E1F && ((((
                    id as u16 & 0x1F) | 0x7E00u16) as u16) as u8) & 0x1F == id) by (bit_vector);
                },
                _ => {},
            }
        },
        KeyBinding::TapHold(tap, hold, _) => {
            match (tap, hold) {
                (BoundAction::Key(KeyUsage::Hid(k)), BoundAction::LayerOn(l)) => {
                    assert(l < 16 ==> 0x4000 <= (0x4000u16 | ((l as u16) << 8u16) | (k as u16)) <= 0x4FFF && ((
                    0x4000u16 | ((l as u16) << 8u16) | (k as u16)) as u8) == k && ((((0x4000u16 | ((
                    l as u16) << 8u16) | (k as u16)) >> 8u16) & 0xF) as u8) == l) by (bit_vector);
                },
                (BoundAction::Key(KeyUsage::Hid(k)), BoundAction::Modifier(m)) => {
                    lemma_pack_one_sided(m);
                    let p = spec_pack_modifiers(m);
                    assert(p < 0x20 ==> 0x2000 <= (0x2000u16 | ((p as u16) << 8u16) | (k as u16)) <= 0x3FFF && ((
                    0x2000u16 | ((p as u16) << 8u16) | (k as u16)) as u8) == k && ((((0x2000u16 | ((
                    p as u16) << 8u16) | (k as u16)) >> 8u16) & 0x1F) as u8) == p) by (bit_vector);
                },
                _ => {},
            }
        },
        KeyBinding::Morse(i) => {
            assert(0x5700 <= (0x5700u16 | (i as u16)) <= 0x57FF && (((0x5700u16 | (i as u16)) & 0xFF) as u8)
                == i) by (bit_vector);
        },
        _ => {},
    }
}

/// The fixed VIA keycodes of the keyboard-control, special and tri-layer
/// keys decode to their named actions and are what those actions encode
/// to: Bootloader 0x7C00, Reboot 0x7C01, ClearEeprom 0x7C03, ComboOn
/// 0x7C50, ComboOff 0x7C51, ComboToggle 0x7C52, GraveEscape 0x7C16,
/// CapsWordToggle 0x7C73, TriLayerLower 0x7C77, TriLayerUpper 0x7C78,
/// Repeat 0x7C79.
pub proof fn lemma_fixed_via_keycodes()
    ensures
        spec_from_via(0x7C00) == KeyBinding::Single(BoundAction::KeyboardControl(ControlAction::Bootloader)),
        spec_from_via(0x7C01) == KeyBinding::Single(BoundAction::KeyboardControl(ControlAction::Reboot)),
        spec_from_via(0x7C03) == KeyBinding::Single(BoundAction::KeyboardControl(ControlAction::ClearEeprom)),
        spec_from_via(0x7C50) == KeyBinding::Single(BoundAction::KeyboardControl(ControlAction::ComboOn)),
        spec_from_via(0x7C51) == KeyBinding::Single(BoundAction::KeyboardControl(ControlAction::ComboOff)),
        spec_from_via(0x7C52) == KeyBinding::Single(BoundAction::KeyboardControl(ControlAction::ComboToggle)),
        spec_from_via(0x7C16) == KeyBinding::Single(BoundAction::Special(SpecialAction::GraveEscape)),
        spec_from_via(0x7C73) == KeyBinding::Single(BoundAction::KeyboardControl(ControlAction::CapsWordToggle)),
        spec_from_via(0x7C77) == KeyBinding::Single(BoundAction::TriLayerLower),
        spec_from_via(0x7C78) == KeyBinding::Single(BoundAction::TriLayerUpper),
        spec_from_via(0x7C79) == KeyBinding::Single(BoundAction::Special(SpecialAction::Repeat)),
        spec_to_via(KeyBinding::Single(BoundAction::KeyboardControl(ControlAction::Bootloader))) == 0x7C00,
        spec_to_via(KeyBinding::Single(BoundAction::KeyboardControl(ControlAction::Reboot))) == 0x7C01,
        spec_to_via(KeyBinding::Single(BoundAction::KeyboardControl(ControlAction::ClearEeprom))) == 0x7C03,
        spec_to_via(KeyBinding::Single(BoundAction::KeyboardControl(ControlAction::ComboOn))) == 0x7C50,
        spec_to_via(KeyBinding::Single(BoundAction::KeyboardControl(ControlAction::ComboOff))) == 0x7C51,
        spec_to_via(KeyBinding::Single(BoundAction::KeyboardControl(ControlAction::ComboToggle))) == 0x7C52,
        spec_to_via(KeyBinding::Single(BoundAction::Special(SpecialAction::GraveEscape))) == 0x7C16,
        spec_to_via(KeyBinding::Single(BoundAction::KeyboardControl(ControlAction::CapsWordToggle))) == 0x7C73,
        spec_to_via(KeyBinding::Single(BoundAction::TriLayerLower)) == 0x7C77,
        spec_to_via(KeyBinding::Single(BoundAction::TriLayerUpper)) == 0x7C78,
        spec_to_via(KeyBinding::Single(BoundAction::Special(SpecialAction::Repeat))) == 0x7C79,
{
}

} // verus!
