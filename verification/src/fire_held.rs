//! Firing the held keys that the tap-hold decisions settled: one decision
//! at a time, the key leaves the held buffer and its action is resolved
//! from its pattern. A morse key whose action is pressed goes back to the
//! buffer until its release is reported. The keyboard performs the output
//! and, after a hold changed the layers, looks the bindings up again.

use vstd::prelude::*;

use crate::action::{BoundAction, KeyBinding};
use crate::decision::{HeldKeyDecision, KeyBehaviorDecision};
use crate::event::{KeyboardEvent, KeyboardEventPos};
use crate::held_buffer::{
    first_passing, spec_followed_by_hold, spec_followed_by_tap, spec_is_morse, followed_by_hold, followed_by_tap,
    is_morse, HeldBuffer, HeldKey, KeyFilter, KeyState,
};
use crate::morse::{spec_action_from_pattern, spec_predict, MorseConfig};

verus! {

/// What the keyboard does for a fired key.
#[derive(Clone, Copy, Debug, PartialEq, Eq, Structural)]
pub enum FireOutput {
    Nothing,
    /// Process the action for the event.
    Normal(BoundAction, KeyboardEvent),
    /// Tap the action (press, then release) for the event.
    Tap(BoundAction, KeyboardEvent),
    /// Process the binding for the event.
    Binding(KeyBinding, KeyboardEvent),
}

/// Whether firing a key needs its binding looked up again: a hold
/// decision always does; a release, or a plain key fired by a clean
/// buffer, after a hold changed the layers.
pub open spec fn spec_lookup_needed(decision: HeldKeyDecision, updated: bool, current: KeyBehaviorDecision) -> bool {
    match decision {
        HeldKeyDecision::PermissiveHold | HeldKeyDecision::HoldOnOtherKeyPress => true,
        HeldKeyDecision::Release => updated,
        HeldKeyDecision::Normal => updated && current == KeyBehaviorDecision::CleanBuffer,
        _ => false,
    }
}

/// Whether firing a key needs its binding looked up again.
pub fn lookup_needed(decision: HeldKeyDecision, updated: bool, current: KeyBehaviorDecision) -> (r: bool)
    ensures
        r == spec_lookup_needed(decision, updated, current),
{
    match decision {
        HeldKeyDecision::PermissiveHold | HeldKeyDecision::HoldOnOtherKeyPress => true,
        HeldKeyDecision::Release => updated,
        HeldKeyDecision::Normal => updated && current == KeyBehaviorDecision::CleanBuffer,
        _ => false,
    }
}

/// A buffer with a key pushed at its end, unless it is full.
pub open spec fn pushed(s: Seq<HeldKey>, k: HeldKey) -> Seq<HeldKey> {
    if s.len() < 16 {
        s.push(k)
    } else {
        s
    }
}

/// A morse key `k` (taken out of the buffer, leaving `rest`) resolved with
/// binding `action`, its pending press turned into a hold or a tap: a
/// pressed or holding key's action is pressed and the key goes back to
/// wait for its release; a released key's action is tapped.
pub open spec fn resolve_morse(c: MorseConfig, rest: Seq<HeldKey>, k: HeldKey, action: KeyBinding, hold: bool) -> (
    Seq<HeldKey>,
    FireOutput,
) {
    match k.state {
        KeyState::Pressed(p) => {
            let a = spec_action_from_pattern(
                c,
                action,
                if hold {
                    spec_followed_by_hold(p)
                } else {
                    spec_followed_by_tap(p)
                },
            );
            (pushed(rest, HeldKey { state: KeyState::ProcessedButReleaseNotReportedYet(a), ..k }), FireOutput::Normal(
                a,
                k.event,
            ))
        },
        KeyState::Holding(p) => {
            let a = spec_action_from_pattern(c, action, p);
            (pushed(rest, HeldKey { state: KeyState::ProcessedButReleaseNotReportedYet(a), ..k }), FireOutput::Normal(
                a,
                k.event,
            ))
        },
        KeyState::Released(p) => (
            rest,
            FireOutput::Tap(spec_action_from_pattern(c, action, p), KeyboardEvent { pressed: true, ..k.event }),
        ),
        _ => (rest, FireOutput::Nothing),
    }
}

/// The binding a fired key goes on with: the one looked up again after a
/// layer change, else its own.
pub open spec fn current_binding(k: HeldKey, lookup: Option<KeyBinding>, updated: bool) -> KeyBinding {
    if updated {
        lookup->0
    } else {
        k.action
    }
}

/// Firing the key at `pos` on `decision`: the buffer after it, the output,
/// whether a hold changed the layers, and the decision for the current
/// key.
pub open spec fn spec_fire(
    c: MorseConfig,
    s: Seq<HeldKey>,
    pos: KeyboardEventPos,
    decision: HeldKeyDecision,
    lookup: Option<KeyBinding>,
    updated: bool,
    current: KeyBehaviorDecision,
) -> (Seq<HeldKey>, FireOutput, bool, KeyBehaviorDecision) {
    let found = first_passing(s, KeyFilter::Pos(pos), 0);
    match found {
        None => (s, FireOutput::Nothing, updated, if decision == HeldKeyDecision::Release {
            KeyBehaviorDecision::CleanBuffer
        } else {
            current
        }),
        Some(i) => {
            let k = s[i];
            let rest = s.remove(i);
            match decision {
                HeldKeyDecision::UnilateralTap | HeldKeyDecision::FlowTap => if spec_is_morse(k.action) {
                    let (b, out) = resolve_morse(c, rest, k, k.action, false);
                    (b, out, updated, current)
                } else {
                    (rest, FireOutput::Nothing, updated, current)
                },
                HeldKeyDecision::PermissiveHold | HeldKeyDecision::HoldOnOtherKeyPress => {
                    let fresh = lookup->0;
                    if spec_is_morse(fresh) {
                        let (b, out) = resolve_morse(c, rest, k, fresh, true);
                        (b, out, updated || k.state is Pressed || k.state is Holding, current)
                    } else {
                        (rest, FireOutput::Nothing, updated, current)
                    }
                },
                HeldKeyDecision::Release => {
                    let ka = current_binding(k, lookup, updated);
                    let (b, out) = if !spec_is_morse(ka) {
                        match ka {
                            KeyBinding::Single(a) => (rest, FireOutput::Normal(a, k.event)),
                            KeyBinding::Tap(a) => (rest, FireOutput::Tap(a, k.event)),
                            _ => (rest, FireOutput::Nothing),
                        }
                    } else {
                        let pattern = match k.state {
                            KeyState::Pressed(p) => Some(spec_followed_by_tap(p)),
                            KeyState::Holding(p) => Some(p),
                            _ => None,
                        };
                        match pattern {
                            Some(pt) => match spec_predict(c, ka, pt) {
                                Some(a) => (
                                    pushed(rest, HeldKey { state: KeyState::ProcessedButReleaseNotReportedYet(a), ..k }),
                                    FireOutput::Normal(a, k.event),
                                ),
                                None => (pushed(rest, k), FireOutput::Nothing),
                            },
                            None => (pushed(rest, k), FireOutput::Nothing),
                        }
                    };
                    (b, out, updated, KeyBehaviorDecision::CleanBuffer)
                },
                HeldKeyDecision::Normal => if current == KeyBehaviorDecision::CleanBuffer {
                    (rest, FireOutput::Binding(current_binding(k, lookup, updated), k.event), updated, current)
                } else {
                    (s, FireOutput::Nothing, updated, current)
                },
                _ => (s, FireOutput::Nothing, updated, current),
            }
        },
    }
}

/// The inputs on which firing is defined: a looked-up binding where one is
/// needed; a released key goes on as a single, tap or morse binding; a
/// plain key fired by a clean buffer is no morse key.
pub open spec fn fire_ok(
    s: Seq<HeldKey>,
    pos: KeyboardEventPos,
    decision: HeldKeyDecision,
    lookup: Option<KeyBinding>,
    updated: bool,
    current: KeyBehaviorDecision,
) -> bool {
    &&& spec_lookup_needed(decision, updated, current) ==> lookup is Some
    &&& first_passing(s, KeyFilter::Pos(pos), 0) matches Some(i) ==> {
        let ka = current_binding(s[i], lookup, updated);
        &&& decision == HeldKeyDecision::Release ==> (spec_is_morse(ka) || ka is Single || ka is Tap)
        &&& (decision == HeldKeyDecision::Normal && current == KeyBehaviorDecision::CleanBuffer) ==> !spec_is_morse(ka)
    }
}

impl MorseConfig {
    fn resolve_held_morse(&self, buffer: &mut HeldBuffer, k: HeldKey, action: &KeyBinding, hold: bool) -> (r:
        FireOutput)
        ensures
            (final(buffer)@, r) == resolve_morse(*self, old(buffer)@, k, *action, hold),
    {
        match k.state {
            KeyState::Pressed(p) | KeyState::Holding(p) => {
                let pattern = match k.state {
                    KeyState::Pressed(_) => if hold {
                        followed_by_hold(p)
                    } else {
                        followed_by_tap(p)
                    },
                    _ => p,
                };
                let a = self.action_from_pattern(action, pattern);
                buffer.push_without_sort(HeldKey { state: KeyState::ProcessedButReleaseNotReportedYet(a), ..k });
                FireOutput::Normal(a, k.event)
            },
            KeyState::Released(p) => {
                let a = self.action_from_pattern(action, p);
                FireOutput::Tap(a, KeyboardEvent { pressed: true, ..k.event })
            },
            _ => FireOutput::Nothing,
        }
    }

    /// Fires the key at `pos` on `decision`. `lookup` is its binding looked
    /// up again, where `lookup_needed` says so; `updated` says whether a
    /// hold fired before changed the layers; `current` is the decision for
    /// the current key. Returns the output, the new `updated` and the new
    /// decision for the current key: a release makes it a clean buffer,
    /// which fires the plain keys after it.
    pub fn fire_held_key(
        &self,
        buffer: &mut HeldBuffer,
        pos: KeyboardEventPos,
        decision: HeldKeyDecision,
        lookup: Option<KeyBinding>,
        updated: bool,
        current: KeyBehaviorDecision,
    ) -> (r: (FireOutput, bool, KeyBehaviorDecision))
        requires
            fire_ok(old(buffer)@, pos, decision, lookup, updated, current),
        ensures
            ({
                let (b, out, u, d) = spec_fire(*self, old(buffer)@, pos, decision, lookup, updated, current);
                final(buffer)@ == b && r == (out, u, d)
            }),
    {
        let next_current = if decision == HeldKeyDecision::Release {
            KeyBehaviorDecision::CleanBuffer
        } else {
            current
        };
        match decision {
            HeldKeyDecision::UnilateralTap | HeldKeyDecision::FlowTap => {
                match buffer.remove_if(KeyFilter::Pos(pos)) {
                    Some(k) => {
                        if is_morse(&k.action) {
                            let out = self.resolve_held_morse(buffer, k, &k.action, false);
                            (out, updated, current)
                        } else {
                            (FireOutput::Nothing, updated, current)
                        }
                    },
                    None => (FireOutput::Nothing, updated, current),
                }
            },
            HeldKeyDecision::PermissiveHold | HeldKeyDecision::HoldOnOtherKeyPress => {
                match buffer.remove_if(KeyFilter::Pos(pos)) {
                    Some(k) => {
                        let fresh = lookup.unwrap();
                        if is_morse(&fresh) {
                            let changes = matches!(k.state, KeyState::Pressed(_) | KeyState::Holding(_));
                            let out = self.resolve_held_morse(buffer, k, &fresh, true);
                            (out, updated || changes, current)
                        } else {
                            (FireOutput::Nothing, updated, current)
                        }
                    },
                    None => (FireOutput::Nothing, updated, current),
                }
            },
            HeldKeyDecision::Release => {
                match buffer.remove_if(KeyFilter::Pos(pos)) {
                    Some(k) => {
                        let ka = if updated {
                            lookup.unwrap()
                        } else {
                            k.action
                        };
                        let out = if !is_morse(&ka) {
                            match ka {
                                KeyBinding::Single(a) => FireOutput::Normal(a, k.event),
                                KeyBinding::Tap(a) => FireOutput::Tap(a, k.event),
                                _ => FireOutput::Nothing,
                            }
                        } else {
                            let pattern = match k.state {
                                KeyState::Pressed(p) => Some(followed_by_tap(p)),
                                KeyState::Holding(p) => Some(p),
                                _ => None,
                            };
                            let mut key = k;
                            let mut out = FireOutput::Nothing;
                            if let Some(pt) = pattern {
                                if let Some(a) = self.try_predict_final_action(&ka, pt) {
                                    key = HeldKey { state: KeyState::ProcessedButReleaseNotReportedYet(a), ..k };
                                    out = FireOutput::Normal(a, k.event);
                                }
                            }
                            buffer.push_without_sort(key);
                            out
                        };
                        (out, updated, next_current)
                    },
                    None => (FireOutput::Nothing, updated, next_current),
                }
            },
            HeldKeyDecision::Normal => {
                if current == KeyBehaviorDecision::CleanBuffer {
                    match buffer.remove_if(KeyFilter::Pos(pos)) {
                        Some(k) => {
                            let action = if updated {
                                lookup.unwrap()
                            } else {
                                k.action
                            };
                            (FireOutput::Binding(action, k.event), updated, current)
                        },
                        None => (FireOutput::Nothing, updated, current),
                    }
                } else {
                    (FireOutput::Nothing, updated, current)
                }
            },
            _ => (FireOutput::Nothing, updated, current),
        }
    }
}

/// What the keyboard waits for with a buffered key.
#[derive(Clone, Copy, Debug, PartialEq, Eq, Structural)]
pub enum BufferedWait {
    Nothing,
    /// A key waiting for a combo: the next event until the deadline, then
    /// the combos are dispatched.
    Combo(u64),
    /// A pressed or released morse key: the next event until the deadline,
    /// then the morse timeout is handled.
    Morse(u64),
}

/// What the keyboard waits for with the latest buffered key.
pub fn buffered_key_wait(key: &HeldKey) -> (r: BufferedWait)
    ensures
        r == (match key.state {
            KeyState::WaitingCombo => BufferedWait::Combo(key.timeout_time),
            KeyState::Pressed(_) | KeyState::Released(_) => if spec_is_morse(key.action) {
                BufferedWait::Morse(key.timeout_time)
            } else {
                BufferedWait::Nothing
            },
            _ => BufferedWait::Nothing,
        }),
{
    match key.state {
        KeyState::WaitingCombo => BufferedWait::Combo(key.timeout_time),
        KeyState::Pressed(_) | KeyState::Released(_) => {
            if is_morse(&key.action) {
                BufferedWait::Morse(key.timeout_time)
            } else {
                BufferedWait::Nothing
            }
        },
        _ => BufferedWait::Nothing,
    }
}

} // verus!
