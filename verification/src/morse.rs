//! Morse keys (tap dance and tap-hold): the action of a tap/hold pattern,
//! the early prediction of the final action, and the steps a morse key
//! goes through in the held buffer when it is pressed, released or times
//! out.
//!
//! A tap-hold binding has two patterns, a tap and a hold; a morse binding
//! names a morse key whose table maps patterns to actions. A pattern is
//! resolved as soon as no longer pattern of the key can still follow.

use vstd::prelude::*;

use crate::action::{BoundAction, KeyBinding};
use crate::decision::MorseMode;
use crate::event::KeyboardEvent;
use crate::held_buffer::{
    first_passing, passes, sorted_by_press_time, sorted_by_timeout, spec_followed_by_hold, spec_followed_by_tap,
    spec_is_morse, followed_by_hold, followed_by_tap, is_morse, HeldBuffer, HeldKey, KeyFilter, KeyState,
    EMPTY_PATTERN,
};

verus! {

/// A single tap.
pub const TAP: u16 = 0b10;
/// A single hold.
pub const HOLD: u16 = 0b11;
/// Largest timestamp the morse steps take, in ms.
pub const MAX_MORSE_TIME_MS: u64 = 0x3FFF_FFFF_FFFF_FFFF;

/// Number of bits of a pattern's encoding (16 minus its leading zeros).
pub open spec fn bit_len(v: nat) -> nat
    decreases v,
{
    if v == 0 {
        0
    } else {
        1 + bit_len(v / 2)
    }
}

/// `v` shifted right by `k` bits.
pub open spec fn halve(v: nat, k: nat) -> nat
    decreases k,
{
    if k == 0 {
        v
    } else {
        halve(v / 2, (k - 1) as nat)
    }
}

/// Whether pattern `p` begins with pattern `s`: `s` is `p` with its last
/// steps cut off.
pub open spec fn spec_starts_with(p: u16, s: u16) -> bool {
    bit_len(s as nat) <= bit_len(p as nat) && halve(p as nat, (bit_len(p as nat) - bit_len(s as nat)) as nat)
        == s
}

/// Whether the last step of a pattern is a hold (never for the empty one).
pub open spec fn spec_last_is_hold(p: u16) -> bool {
    p != EMPTY_PATTERN && p % 2 == 1
}

fn bit_length(v: u16) -> (r: u16)
    ensures
        r == bit_len(v as nat),
        r <= 16,
{
    let mut w = v;
    let mut n: u16 = 0;
    proof {
        lemma_bit_len_u16(v);
    }
    while w > 0
        invariant
            bit_len(v as nat) == n + bit_len(w as nat),
            n + bit_len(w as nat) <= 16,
        decreases w,
    {
        proof {
            lemma_bit_len_u16(w);
        }
        w = w / 2;
        n = n + 1;
    }
    n
}

/// `2^k`.
spec fn two_pow(k: nat) -> nat
    decreases k,
{
    if k == 0 {
        1
    } else {
        2 * two_pow((k - 1) as nat)
    }
}

proof fn lemma_bit_len_bound(v: nat, k: nat)
    requires
        v < two_pow(k),
    ensures
        bit_len(v) <= k,
    decreases k,
{
    if v > 0 {
        assert(k > 0);
        lemma_bit_len_bound(v / 2, (k - 1) as nat);
    }
}

proof fn lemma_bit_len_u16(w: u16)
    ensures
        bit_len(w as nat) <= 16,
{
    assert(two_pow(16) == 65536) by {
        reveal_with_fuel(two_pow, 17);
    }
    lemma_bit_len_bound(w as nat, 16);
}

/// Whether pattern `p` begins with pattern `s`.
pub fn starts_with(p: u16, s: u16) -> (r: bool)
    ensures
        r == spec_starts_with(p, s),
{
    let bp = bit_length(p);
    let bs = bit_length(s);
    if bs > bp {
        return false;
    }
    let mut q = p;
    let mut k = bp - bs;
    while k > 0
        invariant
            halve(p as nat, (bp - bs) as nat) == halve(q as nat, k as nat),
        decreases k,
    {
        q = q / 2;
        k = k - 1;
    }
    q == s
}

/// Whether the last step of a pattern is a hold.
pub fn last_is_hold(p: u16) -> (r: bool)
    ensures
        r == spec_last_is_hold(p),
{
    p != EMPTY_PATTERN && p % 2 == 1
}

/// A morse key: its timing and mode (each `None` when the global tap-hold
/// setting applies) and its pattern table.
#[derive(Clone, Debug)]
pub struct MorseKey {
    pub hold_timeout_ms: Option<u16>,
    pub mode: Option<MorseMode>,
    pub unilateral_tap: Option<bool>,
    pub actions: Vec<(u16, BoundAction)>,
}

/// Global tap-hold settings.
#[derive(Clone, Copy, Debug, PartialEq, Eq, Structural)]
pub struct TapHoldConfig {
    pub timeout_ms: u64,
    pub mode: MorseMode,
    pub unilateral_tap: bool,
}

/// The morse part of the behavior configuration.
#[derive(Clone, Debug)]
pub struct MorseConfig {
    pub morses: Vec<MorseKey>,
    pub tap_hold: TapHoldConfig,
}

/// Timeouts the steps can add to a time in range.
pub open spec fn config_ok(c: MorseConfig) -> bool {
    c.tap_hold.timeout_ms <= MAX_MORSE_TIME_MS
}

/// The action of the first entry, from `i` on, for a pattern.
pub open spec fn table_action(t: Seq<(u16, BoundAction)>, pattern: u16, i: int) -> Option<BoundAction>
    decreases t.len() - i,
{
    if i < 0 || i >= t.len() {
        None
    } else if t[i].0 == pattern {
        Some(t[i].1)
    } else {
        table_action(t, pattern, i + 1)
    }
}

/// The final action a morse table predicts for a pattern start: none
/// unless the pattern is in the table and no other pattern of the table
/// continues it.
pub open spec fn table_prediction(t: Seq<(u16, BoundAction)>, start: u16) -> Option<BoundAction> {
    if !(exists|i: int| 0 <= i < t.len() && #[trigger] t[i].0 == start) {
        None
    } else if exists|i: int| 0 <= i < t.len() && #[trigger] t[i].0 != start && spec_starts_with(t[i].0, start) {
        None
    } else {
        table_action(t, start, 0)
    }
}

fn lookup(t: &Vec<(u16, BoundAction)>, pattern: u16) -> (r: Option<BoundAction>)
    ensures
        r == table_action(t@, pattern, 0),
        r is None ==> !(exists|i: int| 0 <= i < t@.len() && #[trigger] t@[i].0 == pattern),
        r is Some ==> exists|i: int| 0 <= i < t@.len() && #[trigger] t@[i].0 == pattern,
{
    let mut i: usize = 0;
    while i < t.len()
        invariant
            i <= t@.len(),
            table_action(t@, pattern, 0) == table_action(t@, pattern, i as int),
            forall|k: int| 0 <= k < i ==> #[trigger] t@[k].0 != pattern,
        decreases t@.len() - i,
    {
        if t[i].0 == pattern {
            assert(t@[i as int].0 == pattern);
            return Some(t[i].1);
        }
        i = i + 1;
    }
    None
}

fn predict(t: &Vec<(u16, BoundAction)>, start: u16) -> (r: Option<BoundAction>)
    ensures
        r == table_prediction(t@, start),
{
    let found = lookup(t, start);
    if found.is_none() {
        return None;
    }
    let mut i: usize = 0;
    while i < t.len()
        invariant
            i <= t@.len(),
            forall|k: int| 0 <= k < i ==> !(#[trigger] t@[k].0 != start && spec_starts_with(t@[k].0, start)),
        decreases t@.len() - i,
    {
        if t[i].0 != start && starts_with(t[i].0, start) {
            return None;
        }
        i = i + 1;
    }
    found
}

/// The action of a pattern: a tap-hold binding's tap or hold, a morse
/// binding's table entry; `No` otherwise.
pub open spec fn spec_action_from_pattern(c: MorseConfig, b: KeyBinding, pattern: u16) -> BoundAction {
    match b {
        KeyBinding::TapHold(tap, hold, _) => if pattern == TAP {
            tap
        } else if pattern == HOLD {
            hold
        } else {
            BoundAction::No
        },
        KeyBinding::Morse(idx) => if (idx as int) < c.morses@.len() {
            match table_action(c.morses@[idx as int].actions@, pattern, 0) {
                Some(a) => a,
                None => BoundAction::No,
            }
        } else {
            BoundAction::No
        },
        _ => BoundAction::No,
    }
}

/// The final action predicted from a pattern start: a tap-hold binding's
/// hold after a hold and its tap otherwise; a morse binding's table
/// prediction.
pub open spec fn spec_predict(c: MorseConfig, b: KeyBinding, pattern: u16) -> Option<BoundAction> {
    match b {
        KeyBinding::TapHold(tap, hold, _) => if spec_last_is_hold(pattern) {
            Some(hold)
        } else {
            Some(tap)
        },
        KeyBinding::Morse(idx) => if (idx as int) < c.morses@.len() {
            table_prediction(c.morses@[idx as int].actions@, pattern)
        } else {
            None
        },
        _ => None,
    }
}

/// A binding's hold timeout: its morse key's when set, else the global
/// tap-hold timeout.
pub open spec fn spec_morse_timeout(c: MorseConfig, b: KeyBinding) -> u64 {
    match b {
        KeyBinding::Morse(idx) => if (idx as int) < c.morses@.len() {
            match c.morses@[idx as int].hold_timeout_ms {
                Some(t) => t as u64,
                None => c.tap_hold.timeout_ms,
            }
        } else {
            c.tap_hold.timeout_ms
        },
        _ => c.tap_hold.timeout_ms,
    }
}

impl MorseConfig {
    /// The action of a pattern of a binding.
    pub fn action_from_pattern(&self, binding: &KeyBinding, pattern: u16) -> (r: BoundAction)
        ensures
            r == spec_action_from_pattern(*self, *binding, pattern),
    {
        match binding {
            KeyBinding::TapHold(tap, hold, _) => {
                if pattern == TAP {
                    *tap
                } else if pattern == HOLD {
                    *hold
                } else {
                    BoundAction::No
                }
            },
            KeyBinding::Morse(idx) => {
                if (*idx as usize) < self.morses.len() {
                    match lookup(&self.morses[*idx as usize].actions, pattern) {
                        Some(a) => a,
                        None => BoundAction::No,
                    }
                } else {
                    BoundAction::No
                }
            },
            _ => BoundAction::No,
        }
    }

    /// The final action, if the pattern start already decides it.
    pub fn try_predict_final_action(&self, binding: &KeyBinding, pattern: u16) -> (r: Option<BoundAction>)
        ensures
            r == spec_predict(*self, *binding, pattern),
    {
        match binding {
            KeyBinding::TapHold(tap, hold, _) => {
                if last_is_hold(pattern) {
                    Some(*hold)
                } else {
                    Some(*tap)
                }
            },
            KeyBinding::Morse(idx) => {
                if (*idx as usize) < self.morses.len() {
                    predict(&self.morses[*idx as usize].actions, pattern)
                } else {
                    None
                }
            },
            _ => None,
        }
    }

    /// The hold timeout of a binding, in ms.
    pub fn morse_timeout(&self, binding: &KeyBinding) -> (r: u64)
        ensures
            r == spec_morse_timeout(*self, *binding),
    {
        match binding {
            KeyBinding::Morse(idx) => {
                if (*idx as usize) < self.morses.len() {
                    match self.morses[*idx as usize].hold_timeout_ms {
                        Some(t) => t as u64,
                        None => self.tap_hold.timeout_ms,
                    }
                } else {
                    self.tap_hold.timeout_ms
                }
            },
            _ => self.tap_hold.timeout_ms,
        }
    }

    /// The tap-hold mode and unilateral tap of a binding: its morse key's
    /// when set, else the global settings.
    pub fn tap_hold_mode(&self, binding: &KeyBinding) -> (r: (MorseMode, bool))
        ensures
            r == (match *binding {
                KeyBinding::Morse(idx) => if (idx as int) < self.morses@.len() {
                    (
                        match self.morses@[idx as int].mode {
                            Some(m) => m,
                            None => self.tap_hold.mode,
                        },
                        match self.morses@[idx as int].unilateral_tap {
                            Some(u) => u,
                            None => self.tap_hold.unilateral_tap,
                        },
                    )
                } else {
                    (self.tap_hold.mode, self.tap_hold.unilateral_tap)
                },
                _ => (self.tap_hold.mode, self.tap_hold.unilateral_tap),
            }),
    {
        match binding {
            KeyBinding::Morse(idx) => {
                if (*idx as usize) < self.morses.len() {
                    let m = &self.morses[*idx as usize];
                    (
                        match m.mode {
                            Some(mode) => mode,
                            None => self.tap_hold.mode,
                        },
                        match m.unilateral_tap {
                            Some(u) => u,
                            None => self.tap_hold.unilateral_tap,
                        },
                    )
                } else {
                    (self.tap_hold.mode, self.tap_hold.unilateral_tap)
                }
            },
            _ => (self.tap_hold.mode, self.tap_hold.unilateral_tap),
        }
    }
}

/// What the caller does after a morse step.
#[derive(Clone, Copy, Debug, PartialEq, Eq, Structural)]
pub enum MorseOutput {
    Nothing,
    /// Tap the action (press, then release) for the key's event.
    Tap(BoundAction, KeyboardEvent),
    /// Process the action for the event.
    Normal(BoundAction, KeyboardEvent),
    /// Process the action for the release and clear the key's timer.
    Release(BoundAction, KeyboardEvent),
}

/// A buffer without its first key at a position.
pub open spec fn without_pos(s: Seq<HeldKey>, pos: crate::event::KeyboardEventPos) -> Seq<HeldKey> {
    match first_passing(s, KeyFilter::Pos(pos), 0) {
        Some(i) => s.remove(i),
        None => s,
    }
}

/// Whether some key of a buffer is a pressed morse key.
pub open spec fn has_pressed_morse(s: Seq<HeldKey>) -> bool {
    exists|j: int| 0 <= j < s.len() && spec_is_morse((#[trigger] s[j]).action) && s[j].state is Pressed
}

/// The state a pattern state carries.
pub open spec fn pattern_of(state: KeyState) -> u16 {
    match state {
        KeyState::Pressed(p) => p,
        KeyState::Holding(p) => p,
        KeyState::Released(p) => p,
        KeyState::EarlyFired(p) => p,
        _ => EMPTY_PATTERN,
    }
}

proof fn lemma_remove_keeps_order(s: Seq<HeldKey>, i: int)
    requires
        0 <= i < s.len(),
        sorted_by_press_time(s),
    ensures
        sorted_by_press_time(s.remove(i)),
        forall|j: int| 0 <= j < s.remove(i).len() ==> #[trigger] s.remove(i)[j] == (if j < i {
            s[j]
        } else {
            s[j + 1]
        }),
{
    assert forall|j: int| 0 <= j < s.remove(i).len() implies #[trigger] s.remove(i)[j] == (if j < i {
        s[j]
    } else {
        s[j + 1]
    }) by {}
}

impl MorseConfig {
    /// A morse key's event at `now` (a press pressed at `pressed_time`):
    /// a new press enters the buffer as a pressed key with the binding's
    /// timeout, and a press of a released key continues its pattern. A
    /// release adds a tap (or a hold, at or after the timeout) to the
    /// pattern: when that decides the final action, the key leaves the
    /// buffer and the action is tapped; otherwise the key waits, released,
    /// for the pattern to continue. Releasing a key whose action was
    /// already pressed releases that action.
    pub fn process_key_action_morse(
        &self,
        buffer: &mut HeldBuffer,
        binding: &KeyBinding,
        event: KeyboardEvent,
        pressed_time: u64,
        now: u64,
    ) -> (r: MorseOutput)
        requires
            config_ok(*self),
            spec_is_morse(*binding),
            pressed_time <= MAX_MORSE_TIME_MS,
            now <= MAX_MORSE_TIME_MS,
        ensures
            event.pressed ==> r == MorseOutput::Nothing && match first_passing(old(buffer)@, KeyFilter::Pos(event.pos), 0) {
                Some(i) => final(buffer)@ == (match old(buffer)@[i].state {
                    KeyState::Released(p) => old(buffer)@.update(
                        i,
                        HeldKey {
                            state: KeyState::Pressed(p),
                            press_time: pressed_time,
                            timeout_time: (pressed_time + spec_morse_timeout(*self, *binding)) as u64,
                            ..old(buffer)@[i]
                        },
                    ),
                    _ => old(buffer)@,
                }),
                None => {
                    let key = HeldKey {
                        event,
                        action: *binding,
                        state: KeyState::Pressed(EMPTY_PATTERN),
                        press_time: pressed_time,
                        timeout_time: (pressed_time + spec_morse_timeout(*self, *binding)) as u64,
                    };
                    &&& final(buffer)@.to_multiset() == (if old(buffer)@.len() < 16 {
                        old(buffer)@.to_multiset().insert(key)
                    } else {
                        old(buffer)@.to_multiset()
                    })
                    &&& sorted_by_timeout(final(buffer)@)
                },
            },
            !event.pressed ==> match first_passing(old(buffer)@, KeyFilter::Pos(event.pos), 0) {
                None => r == MorseOutput::Nothing && final(buffer)@ == old(buffer)@,
                Some(i) => {
                    let k = old(buffer)@[i];
                    match k.state {
                        KeyState::Pressed(p) => {
                            let pattern = if now >= k.timeout_time {
                                spec_followed_by_hold(p)
                            } else {
                                spec_followed_by_tap(p)
                            };
                            match spec_predict(*self, k.action, pattern) {
                                Some(a) => r == MorseOutput::Tap(a, KeyboardEvent { pressed: true, ..event })
                                    && sorted_by_timeout(final(buffer)@) && exists|mid: Seq<HeldKey>|
                                    mid.to_multiset() == without_pos(old(buffer)@, event.pos).to_multiset()
                                    && final(buffer)@.to_multiset() == #[trigger] without_pos(
                                    mid,
                                    event.pos,
                                ).to_multiset(),
                                None => r == MorseOutput::Nothing && final(buffer)@ == old(buffer)@.update(
                                    i,
                                    HeldKey {
                                        state: KeyState::Released(pattern),
                                        press_time: now,
                                        timeout_time: (now + spec_morse_timeout(*self, k.action)) as u64,
                                        ..k
                                    },
                                ),
                            }
                        },
                        KeyState::Holding(p) => r == MorseOutput::Nothing && final(buffer)@ == old(buffer)@.update(
                            i,
                            HeldKey {
                                state: KeyState::Released(p),
                                press_time: now,
                                timeout_time: (now + spec_morse_timeout(*self, k.action)) as u64,
                                ..k
                            },
                        ),
                        KeyState::ProcessedButReleaseNotReportedYet(a) => r == MorseOutput::Release(a, event)
                            && final(buffer)@.to_multiset() == without_pos(old(buffer)@, event.pos).to_multiset()
                            && sorted_by_timeout(final(buffer)@),
                        _ => r == MorseOutput::Nothing && final(buffer)@ == old(buffer)@,
                    }
                },
            },
    {
        let found = buffer.find_index(KeyFilter::Pos(event.pos));
        if event.pressed {
            let timeout_time = pressed_time + self.morse_timeout(binding);
            match found {
                Some(i) => {
                    let k = buffer.get(i);
                    if let KeyState::Released(p) = k.state {
                        buffer.replace(
                            i,
                            HeldKey { state: KeyState::Pressed(p), press_time: pressed_time, timeout_time, ..k },
                        );
                    }
                },
                None => {
                    buffer.push(
                        HeldKey::new(event, *binding, KeyState::Pressed(EMPTY_PATTERN), pressed_time, timeout_time),
                    );
                },
            }
            return MorseOutput::Nothing;
        }
        let i = match found {
            Some(i) => i,
            None => {
                return MorseOutput::Nothing;
            },
        };
        let k = buffer.get(i);
        match k.state {
            KeyState::Pressed(p) => {
                let hold = now >= k.timeout_time;
                let pattern = if hold {
                    followed_by_hold(p)
                } else {
                    followed_by_tap(p)
                };
                match self.try_predict_final_action(&k.action, pattern) {
                    Some(action) => {
                        buffer.remove(event.pos);
                        let ghost mid = buffer@;
                        let press_event = KeyboardEvent { pressed: true, ..event };
                        buffer.remove(event.pos);
                        assert(buffer@.to_multiset() == without_pos(mid, event.pos).to_multiset());
                        MorseOutput::Tap(action, press_event)
                    },
                    None => {
                        let timeout_time = now + self.morse_timeout(&k.action);
                        buffer.replace(
                            i,
                            HeldKey { state: KeyState::Released(pattern), press_time: now, timeout_time, ..k },
                        );
                        MorseOutput::Nothing
                    },
                }
            },
            KeyState::Holding(p) => {
                let timeout_time = now + self.morse_timeout(&k.action);
                buffer.replace(i, HeldKey { state: KeyState::Released(p), press_time: now, timeout_time, ..k });
                MorseOutput::Nothing
            },
            KeyState::ProcessedButReleaseNotReportedYet(action) => {
                buffer.remove(event.pos);
                MorseOutput::Release(action, event)
            },
            _ => MorseOutput::Nothing,
        }
    }
}

impl MorseConfig {
    /// A morse key's timeout. A pressed key adds a hold to its pattern:
    /// when that decides the final action, the action is pressed and the
    /// key stays until its release is reported; otherwise the key is
    /// holding. A released key's pattern is complete: its action is tapped
    /// and the key leaves the buffer. Also says whether the plain keys in
    /// the buffer may fire now: when no pressed morse key is left.
    pub fn handle_morse_timeout(&self, buffer: &mut HeldBuffer, key: HeldKey) -> (r: (MorseOutput, bool))
        requires
            key.state is Pressed || key.state is Released,
            spec_is_morse(key.action),
        ensures
            r.1 == !has_pressed_morse(final(buffer)@),
            match key.state {
                KeyState::Pressed(p) => {
                    let pattern = spec_followed_by_hold(p);
                    let state = match spec_predict(*self, key.action, pattern) {
                        Some(a) => KeyState::ProcessedButReleaseNotReportedYet(a),
                        None => KeyState::Holding(pattern),
                    };
                    &&& r.0 == (match spec_predict(*self, key.action, pattern) {
                        Some(a) => MorseOutput::Normal(a, key.event),
                        None => MorseOutput::Nothing,
                    })
                    &&& final(buffer)@ == (match first_passing(old(buffer)@, KeyFilter::Pos(key.event.pos), 0) {
                        Some(i) => old(buffer)@.update(i, HeldKey { state, ..old(buffer)@[i] }),
                        None => old(buffer)@,
                    })
                },
                _ => {
                    &&& r.0 == MorseOutput::Tap(
                        spec_action_from_pattern(*self, key.action, pattern_of(key.state)),
                        key.event,
                    )
                    &&& final(buffer)@.to_multiset() == without_pos(old(buffer)@, key.event.pos).to_multiset()
                    &&& sorted_by_timeout(final(buffer)@)
                },
            },
    {
        let out = match key.state {
            KeyState::Pressed(p) => {
                let pattern = followed_by_hold(p);
                let (out, state) = match self.try_predict_final_action(&key.action, pattern) {
                    Some(action) => (
                        MorseOutput::Normal(action, key.event),
                        KeyState::ProcessedButReleaseNotReportedYet(action),
                    ),
                    None => (MorseOutput::Nothing, KeyState::Holding(pattern)),
                };
                if let Some(i) = buffer.find_index(KeyFilter::Pos(key.event.pos)) {
                    let k = buffer.get(i);
                    buffer.replace(i, HeldKey { state, ..k });
                }
                out
            },
            _ => {
                let p = match key.state {
                    KeyState::Released(p) => p,
                    _ => EMPTY_PATTERN,
                };
                let action = self.action_from_pattern(&key.action, p);
                buffer.remove(key.event.pos);
                MorseOutput::Tap(action, key.event)
            },
        };
        let fire = !any_pressed_morse(buffer);
        (out, fire)
    }
}

fn any_pressed_morse(buffer: &HeldBuffer) -> (r: bool)
    ensures
        r == has_pressed_morse(buffer@),
{
    let n = buffer.len();
    let mut j: usize = 0;
    while j < n
        invariant
            n == buffer@.len(),
            j <= n,
            forall|k: int| 0 <= k < j ==> !(spec_is_morse((#[trigger] buffer@[k]).action) && buffer@[k].state is Pressed),
        decreases n - j,
    {
        let k = buffer.get(j);
        if is_morse(&k.action) && matches!(k.state, KeyState::Pressed(_)) {
            assert(spec_is_morse(buffer@[j as int].action) && buffer@[j as int].state is Pressed);
            return true;
        }
        j = j + 1;
    }
    false
}

/// Takes the plain (non-morse) keys out of the buffer, in press order,
/// for the caller to fire; the morse keys stay, sorted by timeout.
pub fn fire_held_non_morse_keys(buffer: &mut HeldBuffer) -> (r: Vec<HeldKey>)
    ensures
        r@.to_multiset().add(final(buffer)@.to_multiset()) == old(buffer)@.to_multiset(),
        forall|i: int| 0 <= i < r@.len() ==> !spec_is_morse((#[trigger] r@[i]).action),
        forall|i: int| 0 <= i < final(buffer)@.len() ==> spec_is_morse((#[trigger] final(buffer)@[i]).action),
        sorted_by_press_time(r@),
        sorted_by_timeout(final(buffer)@),
{
    buffer.sort_by_press_time();
    let ghost start = buffer@;
    let mut out: Vec<HeldKey> = Vec::new();
    proof {
        broadcast use vstd::seq_lib::group_to_multiset_ensures;
        broadcast use vstd::multiset::group_multiset_properties;
        assert(out@.to_multiset().add(buffer@.to_multiset()) =~= start.to_multiset());
    }
    loop
        invariant
            out@.to_multiset().add(buffer@.to_multiset()) == start.to_multiset(),
            start.to_multiset() == old(buffer)@.to_multiset(),
            forall|i: int| 0 <= i < out@.len() ==> !spec_is_morse((#[trigger] out@[i]).action),
            sorted_by_press_time(out@),
            sorted_by_press_time(buffer@),
            forall|i: int, j: int|
                0 <= i < out@.len() && 0 <= j < buffer@.len() && !spec_is_morse(buffer@[j].action) ==> #[trigger] out@[i].press_time
                    <= #[trigger] buffer@[j].press_time,
        ensures
            out@.to_multiset().add(buffer@.to_multiset()) == old(buffer)@.to_multiset(),
            forall|i: int| 0 <= i < out@.len() ==> !spec_is_morse((#[trigger] out@[i]).action),
            forall|i: int| 0 <= i < buffer@.len() ==> spec_is_morse((#[trigger] buffer@[i]).action),
            sorted_by_press_time(out@),
        decreases buffer@.len(),
    {
        let ghost before = buffer@;
        let ghost idx = first_passing(before, KeyFilter::NotMorse, 0);
        proof {
            crate::held_buffer::lemma_first_passing_bounds(before, KeyFilter::NotMorse, 0);
        }
        match buffer.remove_if(KeyFilter::NotMorse) {
            Some(k) => {
                let ghost out_before = out@;
                proof {
                    let i = idx->0;
                    lemma_remove_keeps_order(before, i);
                    broadcast use vstd::seq_lib::group_to_multiset_ensures;
                    broadcast use vstd::multiset::group_multiset_properties;
                    vstd::seq_lib::to_multiset_remove(before, i);
                    assert(before.to_multiset().count(k) > 0) by {
                        vstd::seq_lib::to_multiset_contains(before, k);
                        assert(before[i] == k);
                    }
                }
                out.push(k);
                proof {
                    broadcast use vstd::seq_lib::group_to_multiset_ensures;
                    broadcast use vstd::multiset::group_multiset_properties;
                    vstd::seq_lib::to_multiset_build(out_before, k);
                    assert(out@.to_multiset().add(buffer@.to_multiset()) =~= start.to_multiset());
                    let i = idx->0;
                    assert forall|a: int, b: int|
                        0 <= a < out@.len() && 0 <= b < buffer@.len() && !spec_is_morse(
                            buffer@[b].action,
                        ) implies #[trigger] out@[a].press_time <= #[trigger] buffer@[b].press_time by {
                        if a < out_before.len() {
                            assert(buffer@[b] == (if b < i {
                                before[b]
                            } else {
                                before[b + 1]
                            }));
                        } else {
                            assert(out@[a] == before[i]);
                            if b < i {
                                assert(!passes(KeyFilter::NotMorse, before[b]));
                            }
                        }
                    }
                    assert forall|a: int, b: int| 0 <= a < b < out@.len() implies out@[a].press_time
                        <= out@[b].press_time by {
                        if b == out@.len() - 1 {
                            assert(out@[b] == before[i]);
                        }
                    }
                }
            },
            None => {
                break;
            },
        }
    }
    buffer.sort_by_timeout();
    proof {
        broadcast use vstd::seq_lib::group_to_multiset_ensures;
        broadcast use vstd::multiset::group_multiset_properties;
        assert forall|i: int| 0 <= i < buffer@.len() implies spec_is_morse((#[trigger] buffer@[i]).action) by {
            assert(buffer@.to_multiset().count(buffer@[i]) > 0) by {
                vstd::seq_lib::to_multiset_contains(buffer@, buffer@[i]);
                assert(buffer@.contains(buffer@[i]));
            }
        }
    }
    out
}

} // verus!
