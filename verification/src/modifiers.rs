//! The modifiers of a keyboard report: held modifier keys and one-shot
//! modifiers, the suppressions of triggered forks (unless a modifier key
//! pressed since keeps them), the modifiers of keys with modifiers, and
//! Caps Word's shift. A text macro types with its own capitalization only.
//! Modifier sets are HID modifier bytes.

use vstd::prelude::*;

use crate::caps_word::{CapsWordState, CAPS_WORD_TIMEOUT_MS};
use crate::oneshot::OneShotState;

verus! {

/// Left Shift's bit.
pub const LEFT_SHIFT: u8 = 0x02;

/// The union of a list of modifier sets.
pub open spec fn union_all(s: Seq<u8>) -> u8
    decreases s.len(),
{
    if s.len() == 0 {
        0
    } else {
        union_all(s.drop_last()) | s.last()
    }
}

/// What the report's modifiers are made of.
#[derive(Clone, Debug)]
pub struct ModifierSources {
    /// A text macro is typing.
    pub macro_texting: bool,
    /// The text macro's current character is capital.
    pub macro_caps: bool,
    /// Modifier keys held.
    pub held_modifiers: u8,
    pub osm_state: OneShotState<u8>,
    /// The modifiers each triggered fork suppresses.
    pub fork_suppressions: Vec<u8>,
    /// Suppressions canceled by modifier keys pressed since.
    pub fork_keep_mask: u8,
    /// Modifiers of keys with modifiers, while pressed.
    pub with_modifiers: u8,
    pub caps_word: CapsWordState,
}

/// Held modifiers and one-shot modifiers: an active one-shot modifier
/// decorates a press; on a release only a held one does.
pub open spec fn spec_explicit(s: ModifierSources, pressed: bool) -> u8 {
    let osm: u8 = if pressed {
        match s.osm_state.spec_value() {
            Some(m) => m,
            None => 0,
        }
    } else {
        match s.osm_state {
            OneShotState::Held(m) => m,
            _ => 0,
        }
    };
    s.held_modifiers | osm
}

/// The report's modifiers at `now`.
pub open spec fn spec_resolved(s: ModifierSources, pressed: bool, now: u64) -> u8 {
    if s.macro_texting {
        if s.macro_caps {
            LEFT_SHIFT
        } else {
            0
        }
    } else {
        let suppress = union_all(s.fork_suppressions@) & !s.fork_keep_mask;
        let shift: u8 = if pressed && (s.caps_word matches CapsWordState::Activated { timer, shift_current } && now
            - timer < CAPS_WORD_TIMEOUT_MS && shift_current) {
            LEFT_SHIFT
        } else {
            0
        };
        ((spec_explicit(s, pressed) & !suppress) | s.with_modifiers) | shift
    }
}

impl ModifierSources {
    /// Held modifiers and one-shot modifiers.
    pub fn resolve_explicit_modifiers(&self, pressed: bool) -> (r: u8)
        ensures
            r == spec_explicit(*self, pressed),
    {
        let mut result = self.held_modifiers;
        if pressed {
            match self.osm_state.value() {
                Some(osm) => {
                    result = result | *osm;
                },
                None => {
                    result = result | 0;
                },
            }
        } else {
            match self.osm_state {
                OneShotState::Held(osm) => {
                    result = result | osm;
                },
                _ => {
                    result = result | 0;
                },
            }
        }
        result
    }

    /// All the modifiers of the report at `now`.
    pub fn resolve_modifiers(&self, pressed: bool, now: u64) -> (r: u8)
        requires
            self.caps_word matches CapsWordState::Activated { timer, .. } ==> timer <= now,
        ensures
            r == spec_resolved(*self, pressed, now),
    {
        if self.macro_texting {
            if self.macro_caps {
                return LEFT_SHIFT;
            } else {
                return 0;
            }
        }
        let mut result = self.resolve_explicit_modifiers(pressed);
        let mut fork_suppress: u8 = 0;
        let mut i: usize = 0;
        while i < self.fork_suppressions.len()
            invariant
                i <= self.fork_suppressions@.len(),
                fork_suppress == union_all(self.fork_suppressions@.subrange(0, i as int)),
            decreases self.fork_suppressions@.len() - i,
        {
            proof {
                let s = self.fork_suppressions@.subrange(0, i as int + 1);
                assert(s.drop_last() =~= self.fork_suppressions@.subrange(0, i as int));
            }
            fork_suppress = fork_suppress | self.fork_suppressions[i];
            i = i + 1;
        }
        proof {
            assert(self.fork_suppressions@.subrange(0, i as int) =~= self.fork_suppressions@);
        }
        fork_suppress = fork_suppress & !self.fork_keep_mask;
        result = result & !fork_suppress;
        result = result | self.with_modifiers;
        result = result | self.caps_word.shift_modifier(pressed, now);
        result
    }
}

} // verus!
