//! Key codes as the logic reads them: HID usages, consumer usages and
//! system-control usages, with the keycode classifications of `rmk_types`.

use vstd::prelude::*;

verus! {

/// HID usage of the `Again` key.
pub const HID_AGAIN: u8 = 0x79;

/// A key code by its usage: HID keyboard page, consumer page or system
/// control.
#[derive(Clone, Copy, Debug, PartialEq, Eq, Structural)]
pub enum KeyUsage {
    Hid(u8),
    Consumer(u16),
    SystemControl(u8),
}

/// HID usages `MouseUp` (0xCD) through `MouseAccel2` (0xDF) are mouse keys.
pub open spec fn spec_is_mouse_key(hid: u8) -> bool {
    0xCD <= hid <= 0xDF
}

/// The modifier bit of a modifier usage (`LCtrl` 0xE0 is bit 0 through
/// `RGui` 0xE7 bit 7); 0 for any other usage.
pub open spec fn spec_hid_modifiers(hid: u8) -> u8 {
    if 0xE0 <= hid <= 0xE7 {
        (1u8 << ((hid - 0xE0) as u8)) as u8
    } else {
        0
    }
}

/// `rmk_types::keycode::HidKeyCode::is_mouse_key` of the keycode with this
/// usage: true exactly for `MouseUp..=MouseAccel2`. (A usage without a
/// keycode becomes `HidKeyCode::No`, which is no mouse key.)
#[verifier::external_body]
pub(crate) fn is_mouse_key(hid: u8) -> (r: bool)
    ensures
        r == spec_is_mouse_key(hid),
{
    rmk_types::keycode::HidKeyCode::from(hid).is_mouse_key()
}

/// HID usages `LCtrl` (0xE0) through `RGui` (0xE7) are modifier keys.
pub open spec fn spec_is_modifier(hid: u8) -> bool {
    0xE0 <= hid <= 0xE7
}

/// `rmk_types::keycode::HidKeyCode::is_modifier` of the keycode with this
/// usage: true exactly for `LCtrl..=RGui`.
#[verifier::external_body]
pub(crate) fn is_modifier(hid: u8) -> (r: bool)
    ensures
        r == spec_is_modifier(hid),
{
    rmk_types::keycode::HidKeyCode::from(hid).is_modifier()
}

/// `rmk_types::keycode::HidKeyCode::to_hid_modifiers` of the keycode with
/// this usage, as its bits: the one modifier bit of a modifier key, else 0.
#[verifier::external_body]
pub(crate) fn hid_modifiers(hid: u8) -> (r: u8)
    ensures
        r == spec_hid_modifiers(hid),
{
    rmk_types::keycode::HidKeyCode::from(hid).to_hid_modifiers().into_bits()
}

/// The usage of the `HidKeyCode` made from byte `b` (`HidKeyCode::from`):
/// `b` itself when it is a defined usage (0x00..=0xC2 or 0xCD..=0xE7),
/// else 0 (`HidKeyCode::No`).
pub open spec fn spec_hid_key_code(b: u8) -> u8 {
    if b <= 0xC2 || (0xCD <= b && b <= 0xE7) {
        b
    } else {
        0
    }
}

/// `rmk_types::keycode::HidKeyCode::from(u8)`, as a usage: the byte itself
/// when a keycode has that usage, else `HidKeyCode::No` (0).
#[verifier::external_body]
pub(crate) fn hid_key_code(b: u8) -> (r: u8)
    ensures
        r == spec_hid_key_code(b),
{
    rmk_types::keycode::HidKeyCode::from(b) as u8
}

/// The usage of the HID keycode that `ConsumerKey::to_hid_keycode` gives
/// for the consumer key with this usage id (`ConsumerKey::from(u16)`).
pub uninterp spec fn consumer_key_hid_usage(usage: u16) -> Option<u8>;

/// `rmk_types::keycode::ConsumerKey::to_hid_keycode` of the consumer key
/// with usage id `usage`, as a HID usage. What it returns is named, not
/// stated: a table of media and application keys.
#[verifier::external_body]
pub(crate) fn consumer_hid_usage(usage: u16) -> (r: Option<u8>)
    ensures
        r == consumer_key_hid_usage(usage),
{
    rmk_types::keycode::ConsumerKey::from(usage).to_hid_keycode().map(|h| h as u8)
}

/// The HID usage of a system-control key (`SystemControlKey::to_hid_keycode`):
/// `PowerDown` (0x81) is `SystemPower` (0xA5), `Sleep` (0x82) is
/// `SystemSleep` (0xA6), `WakeUp` (0x83) is `SystemWake` (0xA7); the others
/// have none.
pub open spec fn spec_system_control_hid(usage: u8) -> Option<u8> {
    if usage == 0x81 {
        Some(0xA5u8)
    } else if usage == 0x82 {
        Some(0xA6u8)
    } else if usage == 0x83 {
        Some(0xA7u8)
    } else {
        None
    }
}

/// The HID usage of the system-control key with usage `usage`, if any.
pub fn system_control_hid(usage: u8) -> (r: Option<u8>)
    ensures
        r == spec_system_control_hid(usage),
{
    if usage == 0x81 {
        Some(0xA5)
    } else if usage == 0x82 {
        Some(0xA6)
    } else if usage == 0x83 {
        Some(0xA7)
    } else {
        None
    }
}

/// Packed form of a modifier byte (`ModifierCombination::into_packed_bits`):
/// bits 0..4 are Ctrl, Shift, Alt, Gui and bit 4 says right side. The left
/// side wins when both sides hold modifiers.
pub open spec fn spec_pack_modifiers(m: u8) -> u8 {
    if m == 0 {
        0
    } else if m & 0x0F != 0 {
        m & 0x0F
    } else {
        (m >> 4) | 0x10
    }
}

/// Modifier byte of a packed form (`ModifierCombination::from_packed_bits`).
pub open spec fn spec_unpack_modifiers(b: u8) -> u8 {
    if b & 0x10 != 0 {
        ((b & 0x0F) << 4) as u8
    } else {
        b & 0x0F
    }
}

/// `rmk_types::modifier::ModifierCombination::into_packed_bits` of the
/// combination with bits `m`.
#[verifier::external_body]
pub(crate) fn pack_modifiers(m: u8) -> (r: u8)
    ensures
        r == spec_pack_modifiers(m),
{
    rmk_types::modifier::ModifierCombination::from_bits(m).into_packed_bits()
}

/// `rmk_types::modifier::ModifierCombination::from_packed_bits`, as bits.
#[verifier::external_body]
pub(crate) fn unpack_modifiers(b: u8) -> (r: u8)
    ensures
        r == spec_unpack_modifiers(b),
{
    rmk_types::modifier::ModifierCombination::from_packed_bits(b).into_bits()
}

#[verifier::external_type_specification]
#[verifier::external_body]
pub struct ExKeyCode(rmk_types::keycode::KeyCode);

/// An `rmk_types` key code by its usage: the usage id of the HID keycode,
/// of the consumer key (`u16::from`) or of the system-control key; `None`
/// for a kind of key code that has no counterpart here.
#[verifier::external_body]
pub(crate) fn key_code_of(kc: rmk_types::keycode::KeyCode) -> Option<KeyUsage> {
    match kc {
        rmk_types::keycode::KeyCode::Hid(h) => Some(KeyUsage::Hid(h as u8)),
        rmk_types::keycode::KeyCode::Consumer(c) => Some(KeyUsage::Consumer(u16::from(c))),
        rmk_types::keycode::KeyCode::SystemControl(s) => Some(KeyUsage::SystemControl(s as u8)),
        _ => None,
    }
}

/// A key code of `rmk_types` as the library reads it.
pub fn key_code(kc: rmk_types::keycode::KeyCode) -> Option<KeyUsage> {
    key_code_of(kc)
}

} // verus!
