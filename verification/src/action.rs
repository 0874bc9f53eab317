//! Key bindings: what a key of the keymap does, as plain values.
//!
//! Modifier sets are HID modifier bytes (bit 0 `LCtrl` through bit 7
//! `RGui`), key codes are usages (`KeyUsage`), layers are layer numbers.

use vstd::prelude::*;

use crate::keycode::KeyUsage;

verus! {

/// Keyboard control actions.
#[derive(Clone, Copy, Debug, PartialEq, Eq, Structural)]
pub enum ControlAction {
    Bootloader,
    Reboot,
    DebugToggle,
    ClearEeprom,
    OutputAuto,
    OutputUsb,
    OutputBluetooth,
    ComboOn,
    ComboOff,
    ComboToggle,
    CapsWordToggle,
    /// A keyboard action none of the above names.
    Other,
}

/// Special keys that are not in the HID usage tables.
#[derive(Clone, Copy, Debug, PartialEq, Eq, Structural)]
pub enum SpecialAction {
    GraveEscape,
    Repeat,
}

/// A single action of a key.
#[derive(Clone, Copy, Debug, PartialEq, Eq, Structural)]
pub enum BoundAction {
    No,
    /// Press a key.
    Key(KeyUsage),
    /// Hold modifiers (a modifier byte).
    Modifier(u8),
    /// A HID key with modifiers.
    KeyWithModifier(u8, u8),
    /// Activate a layer while held.
    LayerOn(u8),
    /// Activate a layer and modifiers while held.
    LayerOnWithModifier(u8, u8),
    LayerOff(u8),
    LayerToggle(u8),
    DefaultLayer(u8),
    /// Activate a layer and deactivate all others but the default layer.
    LayerToggleOnly(u8),
    TriLayerLower,
    TriLayerUpper,
    TriggerMacro(u8),
    OneShotLayer(u8),
    OneShotModifier(u8),
    OneShotKey(u8),
    KeyboardControl(ControlAction),
    Special(SpecialAction),
    User(u8),
    PersistentDefaultLayer(u8),
    /// An action of a kind the logic here does not read (lighting,
    /// stenography, ...).
    Other,
}

/// What a key of the keymap does.
#[derive(Clone, Copy, Debug, PartialEq, Eq, Structural)]
pub enum KeyBinding {
    /// Nothing.
    No,
    /// Fall through to the next active layer.
    Transparent,
    /// One action, for as long as the key is held.
    Single(BoundAction),
    /// One action, tapped on press.
    Tap(BoundAction),
    /// Tap action, hold action, and a behavior profile (255: default).
    TapHold(BoundAction, BoundAction, u8),
    /// Morse (tap dance) key with this index.
    Morse(u8),
}

} // verus!
