//! Caps Word: while active, letters (and `-`) are shifted; digits,
//! Backspace and Delete keep it going; any other key, or five seconds
//! without a key, ends it. Times are milliseconds.

use vstd::prelude::*;

verus! {

/// How long Caps Word stays active without a key, in ms.
pub const CAPS_WORD_TIMEOUT_MS: u64 = 5000;

/// Keys that keep Caps Word active: `A..=Z` (0x04..=0x1D), `1..=0`
/// (0x1E..=0x27), `-` (0x2D), Backspace (0x2A) and Delete (0x4C).
pub open spec fn spec_continue_key(hid: u8) -> bool {
    (0x04 <= hid <= 0x27) || hid == 0x2D || hid == 0x2A || hid == 0x4C
}

/// Keys Caps Word shifts: `A..=Z` and `-`.
pub open spec fn spec_shifted_key(hid: u8) -> bool {
    (0x04 <= hid <= 0x1D) || hid == 0x2D
}

/// `rmk_types::keycode::HidKeyCode::is_caps_word_continue_key` of the
/// keycode with this usage: letters, digits, `-`, Backspace and Delete.
#[verifier::external_body]
fn is_caps_word_continue_key(hid: u8) -> (r: bool)
    ensures
        r == spec_continue_key(hid),
{
    rmk_types::keycode::HidKeyCode::from(hid).is_caps_word_continue_key()
}

/// `rmk_types::keycode::HidKeyCode::is_caps_word_shifted_key` of the
/// keycode with this usage: letters and `-`.
#[verifier::external_body]
fn is_caps_word_shifted_key(hid: u8) -> (r: bool)
    ensures
        r == spec_shifted_key(hid),
{
    rmk_types::keycode::HidKeyCode::from(hid).is_caps_word_shifted_key()
}

/// Caps Word state.
#[derive(Clone, Copy, Debug, PartialEq, Eq, Structural)]
pub enum CapsWordState {
    /// Activated (possibly timed out): the time of the last key, and
    /// whether the current key is shifted.
    Activated { timer: u64, shift_current: bool },
    Deactivated,
}

/// Caps Word after a key pressed at `now`: a continuing key within the
/// timeout restarts the timer and says whether it is shifted; any other
/// key, or a key after the timeout, deactivates it.
pub open spec fn spec_check(s: CapsWordState, key: u8, now: u64) -> CapsWordState {
    match s {
        CapsWordState::Activated { timer, .. } => if spec_continue_key(key) && now - timer < CAPS_WORD_TIMEOUT_MS {
            CapsWordState::Activated { timer: now, shift_current: spec_shifted_key(key) }
        } else {
            CapsWordState::Deactivated
        },
        CapsWordState::Deactivated => CapsWordState::Deactivated,
    }
}

impl Default for CapsWordState {
    fn default() -> (r: Self)
        ensures
            r == CapsWordState::Deactivated,
    {
        CapsWordState::Deactivated
    }
}

impl CapsWordState {
    /// Activate Caps Word at `now`.
    pub fn activate(&mut self, now: u64)
        ensures
            *final(self) == (CapsWordState::Activated { timer: now, shift_current: false }),
    {
        *self = CapsWordState::Activated { timer: now, shift_current: false };
    }

    /// Deactivate Caps Word.
    pub fn deactivate(&mut self)
        ensures
            *final(self) == CapsWordState::Deactivated,
    {
        *self = CapsWordState::Deactivated;
    }

    /// Toggle Caps Word at `now`.
    pub fn toggle(&mut self, now: u64)
        ensures
            *final(self) == (if *old(self) is Activated {
                CapsWordState::Deactivated
            } else {
                CapsWordState::Activated { timer: now, shift_current: false }
            }),
    {
        match self {
            CapsWordState::Activated { .. } => self.deactivate(),
            CapsWordState::Deactivated => self.activate(now),
        }
    }

    /// Whether Caps Word is active at `now`: activated less than five
    /// seconds after its last key.
    pub fn is_active(&self, now: u64) -> (r: bool)
        requires
            *self matches CapsWordState::Activated { timer, .. } ==> timer <= now,
        ensures
            r == (*self matches CapsWordState::Activated { timer, .. } && now - timer < CAPS_WORD_TIMEOUT_MS),
    {
        match self {
            CapsWordState::Activated { timer, .. } => now - *timer < CAPS_WORD_TIMEOUT_MS,
            CapsWordState::Deactivated => false,
        }
    }

    /// Whether the current key is shifted.
    pub fn is_shift_current(&self) -> (r: bool)
        ensures
            r == (*self matches CapsWordState::Activated { shift_current, .. } && shift_current),
    {
        match self {
            CapsWordState::Activated { shift_current, .. } => *shift_current,
            CapsWordState::Deactivated => false,
        }
    }

    /// A key pressed at `now` (not the Caps Word key itself): a continuing
    /// key within the timeout restarts the timer and says whether it is
    /// shifted; any other key, or a key after the timeout, deactivates.
    pub fn check(&mut self, key: u8, now: u64)
        requires
            *old(self) matches CapsWordState::Activated { timer, .. } ==> timer <= now,
        ensures
            *final(self) == spec_check(*old(self), key, now),
    {
        if let CapsWordState::Activated { timer, .. } = *self {
            if is_caps_word_continue_key(key) && now - timer < CAPS_WORD_TIMEOUT_MS {
                *self = CapsWordState::Activated { timer: now, shift_current: is_caps_word_shifted_key(key) };
            } else {
                self.deactivate();
            }
        }
    }

    /// The Left Shift bit Caps Word adds to a report: on a press while
    /// active and shifting the current key.
    pub fn shift_modifier(&self, pressed: bool, now: u64) -> (r: u8)
        requires
            *self matches CapsWordState::Activated { timer, .. } ==> timer <= now,
        ensures
            r == (if (*self matches CapsWordState::Activated { timer, shift_current } && now - timer
                < CAPS_WORD_TIMEOUT_MS && shift_current) && pressed {
                0x02u8
            } else {
                0u8
            }),
    {
        if self.is_active(now) && pressed && self.is_shift_current() {
            0x02
        } else {
            0
        }
    }
}

} // verus!
