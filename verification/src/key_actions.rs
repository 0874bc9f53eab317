//! The keyboard's handling of plain key actions: `Again` and Repeat replay
//! the last key, a pressed HID key becomes the last key and goes through
//! Caps Word, and a key is routed to the consumer, system-control, mouse
//! or keyboard report. Also Grave Escape, the keyboard-control actions and
//! the user keys that drive the wireless profiles.

use vstd::prelude::*;

use crate::action::{ControlAction, SpecialAction};
use crate::caps_word::{spec_check, CapsWordState};
use crate::event::KeyboardEvent;
use crate::keycode::{is_mouse_key, spec_is_modifier, spec_is_mouse_key, KeyUsage, HID_AGAIN};

verus! {

/// HID usage of Escape.
pub const HID_ESCAPE: u8 = 0x29;
/// HID usage of Grave (`` ` ``).
pub const HID_GRAVE: u8 = 0x35;

/// The consumer usage id that `HidKeyCode::process_as_consumer` gives for
/// the HID keycode with this usage.
pub uninterp spec fn hid_consumer_usage(hid: u8) -> Option<u16>;

/// `rmk_types::keycode::HidKeyCode::process_as_consumer` of the keycode
/// with this usage, as the consumer key's usage id (`u16::from`). The
/// source maps exactly the media, browser and application keys
/// `AudioMute` (0xA8) through `Launchpad` (0xC2); which consumer key each
/// becomes is named, not stated.
#[verifier::external_body]
fn consumer_of_hid(hid: u8) -> (r: Option<u16>)
    ensures
        r == hid_consumer_usage(hid),
        r is Some <==> 0xA8 <= hid <= 0xC2,
{
    match rmk_types::keycode::HidKeyCode::from(hid).process_as_consumer() {
        Some(c) => Some(u16::from(c)),
        None => None,
    }
}

/// The system-control usage of a HID key: `SystemPower` (0xA5) is
/// `PowerDown` (0x81), `SystemSleep` (0xA6) `Sleep` (0x82), `SystemWake`
/// (0xA7) `WakeUp` (0x83).
pub open spec fn spec_system_of_hid(hid: u8) -> Option<u8> {
    if hid == 0xA5 {
        Some(0x81u8)
    } else if hid == 0xA6 {
        Some(0x82u8)
    } else if hid == 0xA7 {
        Some(0x83u8)
    } else {
        None
    }
}

/// `rmk_types::keycode::HidKeyCode::process_as_system_control` of the
/// keycode with this usage, as the system-control key's usage.
#[verifier::external_body]
fn system_of_hid(hid: u8) -> (r: Option<u8>)
    ensures
        r == spec_system_of_hid(hid),
{
    match rmk_types::keycode::HidKeyCode::from(hid).process_as_system_control() {
        Some(s) => Some(s as u8),
        None => None,
    }
}

/// `rmk_types::keycode::HidKeyCode::is_simple_key` of the keycode with
/// this usage: `No` (0) through `MouseAccel2` (0xDF), which leaves out the
/// modifiers (a byte without a keycode is `No`).
#[verifier::external_body]
fn is_simple_key(hid: u8) -> (r: bool)
    ensures
        r == !spec_is_modifier(hid),
{
    rmk_types::keycode::HidKeyCode::from(hid).is_simple_key()
}

/// Where a key goes.
#[derive(Clone, Copy, Debug, PartialEq, Eq, Structural)]
pub enum KeyRoute {
    /// The consumer report, with this usage id.
    Consumer(u16),
    /// The system-control report, with this usage.
    SystemControl(u8),
    /// Mouse keys.
    Mouse(u8),
    /// The keyboard report.
    Basic(u8),
}

/// What a keyboard-control action asks of the keyboard.
#[derive(Clone, Copy, Debug, PartialEq, Eq, Structural)]
pub enum ControlOutcome {
    Nothing,
    JumpToBootloader,
    Reboot,
}

/// The key state of the keyboard: the last key (for `Again` and Repeat),
/// the time of the last simple key press, Caps Word, and whether combos
/// are on.
#[derive(Clone, Copy, Debug, PartialEq, Eq, Structural)]
pub struct KeyProcessor {
    pub last_key_code: KeyUsage,
    pub last_press_time: u64,
    pub caps_word: CapsWordState,
    pub combo_on: bool,
}

/// Caps Word's timer is not after `now`.
pub open spec fn times_ok(s: KeyProcessor, now: u64) -> bool {
    s.caps_word matches CapsWordState::Activated { timer, .. } ==> timer <= now
}

/// Where a key goes: a HID key that the consumer or system-control page
/// serves goes there, a mouse key to mouse keys, any other to the keyboard
/// report.
pub open spec fn spec_route(k: KeyUsage) -> KeyRoute {
    match k {
        KeyUsage::Hid(h) => if 0xA8 <= h <= 0xC2 {
            KeyRoute::Consumer(hid_consumer_usage(h)->0)
        } else {
            match spec_system_of_hid(h) {
                Some(s) => KeyRoute::SystemControl(s),
                None => if spec_is_mouse_key(h) {
                    KeyRoute::Mouse(h)
                } else {
                    KeyRoute::Basic(h)
                },
            }
        },
        KeyUsage::Consumer(c) => KeyRoute::Consumer(c),
        KeyUsage::SystemControl(s) => KeyRoute::SystemControl(s),
    }
}

/// A key action at `now`: `Again` stands for the last key; a pressed HID
/// key records the press time (a simple key), becomes the last key (unless
/// it is `Again`) and goes through Caps Word.
pub open spec fn spec_key_step(s: KeyProcessor, key: KeyUsage, event: KeyboardEvent, now: u64) -> (
    KeyProcessor,
    KeyRoute,
) {
    let k = if key == KeyUsage::Hid(HID_AGAIN) {
        s.last_key_code
    } else {
        key
    };
    let s2 = match k {
        KeyUsage::Hid(h) => if event.pressed {
            KeyProcessor {
                last_press_time: if !spec_is_modifier(h) {
                    now
                } else {
                    s.last_press_time
                },
                last_key_code: if h != HID_AGAIN {
                    k
                } else {
                    s.last_key_code
                },
                caps_word: spec_check(s.caps_word, h, now),
                ..s
            }
        } else {
            s
        },
        _ => s,
    };
    (s2, spec_route(k))
}

/// A keyboard-control action: Caps Word toggles on a press, combos are
/// switched, and the bootloader or a reboot is asked for on a release.
pub open spec fn spec_control_step(s: KeyProcessor, c: ControlAction, event: KeyboardEvent, now: u64) -> (
    KeyProcessor,
    ControlOutcome,
) {
    match c {
        ControlAction::CapsWordToggle => if event.pressed {
            (
                KeyProcessor {
                    caps_word: if s.caps_word is Activated {
                        CapsWordState::Deactivated
                    } else {
                        CapsWordState::Activated { timer: now, shift_current: false }
                    },
                    ..s
                },
                ControlOutcome::Nothing,
            )
        } else {
            (s, ControlOutcome::Nothing)
        },
        ControlAction::ComboOn => (KeyProcessor { combo_on: true, ..s }, ControlOutcome::Nothing),
        ControlAction::ComboOff => (KeyProcessor { combo_on: false, ..s }, ControlOutcome::Nothing),
        ControlAction::ComboToggle => (KeyProcessor { combo_on: !s.combo_on, ..s }, ControlOutcome::Nothing),
        ControlAction::Bootloader => (s, if event.pressed {
            ControlOutcome::Nothing
        } else {
            ControlOutcome::JumpToBootloader
        }),
        ControlAction::Reboot => (s, if event.pressed {
            ControlOutcome::Nothing
        } else {
            ControlOutcome::Reboot
        }),
        _ => (s, ControlOutcome::Nothing),
    }
}

impl KeyProcessor {
    /// No last key, combos on, Caps Word off.
    pub fn new() -> (r: Self)
        ensures
            r == (KeyProcessor {
                last_key_code: KeyUsage::Hid(0),
                last_press_time: 0,
                caps_word: CapsWordState::Deactivated,
                combo_on: true,
            }),
    {
        KeyProcessor {
            last_key_code: KeyUsage::Hid(0),
            last_press_time: 0,
            caps_word: CapsWordState::Deactivated,
            combo_on: true,
        }
    }

    /// A key action at `now`, and where the key goes.
    pub fn process_action_key(&mut self, key: KeyUsage, event: KeyboardEvent, now: u64) -> (r: KeyRoute)
        requires
            times_ok(*old(self), now),
        ensures
            (*final(self), r) == spec_key_step(*old(self), key, event, now),
            times_ok(*final(self), now),
    {
        let k = if key == KeyUsage::Hid(HID_AGAIN) {
            self.last_key_code
        } else {
            key
        };
        if event.pressed {
            if let KeyUsage::Hid(h) = k {
                if is_simple_key(h) {
                    self.last_press_time = now;
                }
                if h != HID_AGAIN {
                    self.last_key_code = k;
                }
                self.caps_word.check(h, now);
            }
        }
        match k {
            KeyUsage::Hid(h) => {
                if let Some(c) = consumer_of_hid(h) {
                    KeyRoute::Consumer(c)
                } else if let Some(s) = system_of_hid(h) {
                    KeyRoute::SystemControl(s)
                } else if is_mouse_key(h) {
                    KeyRoute::Mouse(h)
                } else {
                    KeyRoute::Basic(h)
                }
            },
            KeyUsage::Consumer(c) => KeyRoute::Consumer(c),
            KeyUsage::SystemControl(s) => KeyRoute::SystemControl(s),
        }
    }

    /// A special key: Grave Escape is Escape without held modifiers and
    /// Grave with them; Repeat processes the last key again.
    pub fn process_action_special(
        &mut self,
        special: SpecialAction,
        held_modifiers: u8,
        event: KeyboardEvent,
        now: u64,
    ) -> (r: KeyRoute)
        requires
            times_ok(*old(self), now),
        ensures
            times_ok(*final(self), now),
            match special {
                SpecialAction::GraveEscape => *final(self) == *old(self) && r == KeyRoute::Basic(
                    if held_modifiers == 0 {
                        HID_ESCAPE
                    } else {
                        HID_GRAVE
                    },
                ),
                SpecialAction::Repeat => (*final(self), r) == spec_key_step(
                    *old(self),
                    old(self).last_key_code,
                    event,
                    now,
                ),
            },
    {
        match special {
            SpecialAction::GraveEscape => KeyRoute::Basic(
                if held_modifiers == 0 {
                    HID_ESCAPE
                } else {
                    HID_GRAVE
                },
            ),
            SpecialAction::Repeat => {
                let key = self.last_key_code;
                self.process_action_key(key, event, now)
            },
        }
    }

    /// A keyboard-control action at `now`.
    pub fn process_action_keyboard_control(&mut self, c: ControlAction, event: KeyboardEvent, now: u64) -> (r:
        ControlOutcome)
        ensures
            (*final(self), r) == spec_control_step(*old(self), c, event, now),
    {
        match c {
            ControlAction::CapsWordToggle => {
                if event.pressed {
                    self.caps_word.toggle(now);
                }
                ControlOutcome::Nothing
            },
            ControlAction::ComboOn => {
                self.combo_on = true;
                ControlOutcome::Nothing
            },
            ControlAction::ComboOff => {
                self.combo_on = false;
                ControlOutcome::Nothing
            },
            ControlAction::ComboToggle => {
                self.combo_on = !self.combo_on;
                ControlOutcome::Nothing
            },
            ControlAction::Bootloader => {
                if event.pressed {
                    ControlOutcome::Nothing
                } else {
                    ControlOutcome::JumpToBootloader
                }
            },
            ControlAction::Reboot => {
                if event.pressed {
                    ControlOutcome::Nothing
                } else {
                    ControlOutcome::Reboot
                }
            },
            _ => ControlOutcome::Nothing,
        }
    }
}

/// What a user key does to the wireless profiles.
#[derive(Clone, Copy, Debug, PartialEq, Eq, Structural)]
pub enum UserKeyAction {
    SwitchProfile(u8),
    NextProfile,
    PreviousProfile,
    ClearProfile,
    ToggleConnection,
    /// Clear the split peer if the key is still held after five seconds.
    ClearPeerWhenHeld,
}

/// User key `id` with `num_profiles` wireless profiles: on a release, keys
/// below `num_profiles` switch to that profile and the next four are next,
/// previous, clear and toggle connection; the one after those clears the
/// split peer when held, on its press.
pub open spec fn spec_user_key(id: u8, pressed: bool, num_profiles: u8) -> Option<UserKeyAction> {
    if pressed {
        if id == num_profiles + 4 {
            Some(UserKeyAction::ClearPeerWhenHeld)
        } else {
            None
        }
    } else if id < num_profiles {
        Some(UserKeyAction::SwitchProfile(id))
    } else if id == num_profiles {
        Some(UserKeyAction::NextProfile)
    } else if id == num_profiles + 1 {
        Some(UserKeyAction::PreviousProfile)
    } else if id == num_profiles + 2 {
        Some(UserKeyAction::ClearProfile)
    } else if id == num_profiles + 3 {
        Some(UserKeyAction::ToggleConnection)
    } else {
        None
    }
}

/// What user key `id` does, with `num_profiles` wireless profiles.
pub fn process_user(id: u8, event: KeyboardEvent, num_profiles: u8) -> (r: Option<UserKeyAction>)
    requires
        num_profiles <= 251,
    ensures
        r == spec_user_key(id, event.pressed, num_profiles),
{
    if event.pressed {
        if id == num_profiles + 4 {
            Some(UserKeyAction::ClearPeerWhenHeld)
        } else {
            None
        }
    } else if id < num_profiles {
        Some(UserKeyAction::SwitchProfile(id))
    } else if id == num_profiles {
        Some(UserKeyAction::NextProfile)
    } else if id == num_profiles + 1 {
        Some(UserKeyAction::PreviousProfile)
    } else if id == num_profiles + 2 {
        Some(UserKeyAction::ClearProfile)
    } else if id == num_profiles + 3 {
        Some(UserKeyAction::ToggleConnection)
    } else {
        None
    }
}

/// `Again` repeats the last pressed key: after a press of any HID key but
/// `Again` itself, an `Again` goes where that key went.
pub proof fn lemma_again_repeats_last_press(
    s: KeyProcessor,
    k: u8,
    first: KeyboardEvent,
    second: KeyboardEvent,
    t1: u64,
    t2: u64,
)
    requires
        k != HID_AGAIN,
        first.pressed,
    ensures
        spec_key_step(spec_key_step(s, KeyUsage::Hid(k), first, t1).0, KeyUsage::Hid(HID_AGAIN), second, t2).1
            == spec_key_step(s, KeyUsage::Hid(k), first, t1).1,
{
}

} // verus!
