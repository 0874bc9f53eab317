//! StickyMod: Alt+Tab-like switching. The first press holds the modifiers
//! and sends them with the key; releasing the key keeps the modifiers held,
//! so further presses send only the key. The modifiers go when another
//! kind of key is pressed, when the layer changes, or when the optional
//! timeout passes (counted from the last press).

use vstd::prelude::*;

use crate::sticky_key::NEVER;

verus! {

/// StickyMod state: inactive, or holding modifiers until an optional
/// deadline (ms).
#[derive(Clone, Copy, Debug, PartialEq, Eq, Structural)]
pub enum StickyModState {
    Inactive,
    Active { mods: u8, deadline: Option<u64> },
}

impl Default for StickyModState {
    fn default() -> (r: Self)
        ensures
            r == StickyModState::Inactive,
    {
        StickyModState::Inactive
    }
}

impl StickyModState {
    /// The held modifiers, if active.
    pub fn value(&self) -> (r: Option<u8>)
        ensures
            r == (match *self {
                StickyModState::Active { mods, .. } => Some(mods),
                StickyModState::Inactive => None,
            }),
    {
        match self {
            StickyModState::Active { mods, .. } => Some(*mods),
            StickyModState::Inactive => None,
        }
    }

    /// Whether StickyMod is active.
    pub fn is_active(&self) -> (r: bool)
        ensures
            r == (*self is Active),
    {
        match self {
            StickyModState::Active { .. } => true,
            StickyModState::Inactive => false,
        }
    }

    /// The auto-release deadline, if one is set.
    pub fn deadline(&self) -> (r: Option<u64>)
        ensures
            r == (match *self {
                StickyModState::Active { deadline, .. } => deadline,
                StickyModState::Inactive => None,
            }),
    {
        match self {
            StickyModState::Active { deadline, .. } => *deadline,
            StickyModState::Inactive => None,
        }
    }

    /// A press of a StickyMod key with `mods` at `now`, with a timeout
    /// (`NEVER`: none): the first press holds its modifiers; a later press
    /// keeps the held modifiers and restarts the deadline.
    pub fn on_press(&mut self, mods: u8, now: u64, timeout_ms: u64)
        requires
            timeout_ms == NEVER || now + timeout_ms <= u64::MAX,
        ensures
            ({
                let deadline = if timeout_ms == NEVER {
                    None
                } else {
                    Some((now + timeout_ms) as u64)
                };
                *final(self) == match *old(self) {
                    StickyModState::Inactive => StickyModState::Active { mods, deadline },
                    StickyModState::Active { mods: held, .. } => StickyModState::Active { mods: held, deadline },
                }
            }),
    {
        let deadline = if timeout_ms == NEVER {
            None
        } else {
            Some(now + timeout_ms)
        };
        match *self {
            StickyModState::Inactive => {
                *self = StickyModState::Active { mods, deadline };
            },
            StickyModState::Active { mods: held, .. } => {
                *self = StickyModState::Active { mods: held, deadline };
            },
        }
    }

    /// Releases the modifiers if active; returns whether it was, so that
    /// the caller sends a report without them.
    pub fn release_if_active(&mut self) -> (r: bool)
        ensures
            r == (*old(self) is Active),
            *final(self) == StickyModState::Inactive,
    {
        let was = self.is_active();
        *self = StickyModState::Inactive;
        was
    }

    /// Whether the deadline has passed at `now`.
    pub fn timed_out(&self, now: u64) -> (r: bool)
        ensures
            r == (*self matches StickyModState::Active { deadline: Some(d), .. } && d <= now),
    {
        match self.deadline() {
            Some(d) => d <= now,
            None => false,
        }
    }
}

} // verus!
