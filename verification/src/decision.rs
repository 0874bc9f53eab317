//! Tap-hold decisions: what a key event means for the key itself and for
//! the morse (tap-hold) keys held in the buffer.
//!
//! When a key is pressed or released while morse keys wait in the held
//! buffer, each waiting key may be resolved early: as a tap (flow tap,
//! unilateral tap on the same hand) or as a hold (permissive hold,
//! hold-on-other-press); buffered plain keys are fired once the current
//! key lets the buffer go.

use vstd::prelude::*;

use crate::event::KeyboardEventPos;

verus! {

/// Capacity of the held buffer.
pub const HOLD_BUFFER_SIZE: usize = 16;

/// Decision for the key of the current event.
#[derive(Clone, Copy, Debug, PartialEq, Eq, Structural)]
pub enum KeyBehaviorDecision {
    /// Clean holding buffer due to permissive hold is triggered
    CleanBuffer,
    /// Skip key action processing and buffer key event
    Buffer,
    /// Continue processing as normal key event
    Ignore,
    /// Release current key
    Release,
    /// Flow tap of current key is triggered
    FlowTap,
}

/// Decision for a key waiting in the held buffer.
#[derive(Clone, Copy, Debug, PartialEq, Eq, Structural)]
pub enum HeldKeyDecision {
    /// Ignore it
    Ignore,
    /// Unilateral tap triggered
    UnilateralTap,
    /// Flow tap triggered, all held morse keys should be triggered as tapping
    FlowTap,
    /// Permissive hold triggered
    PermissiveHold,
    /// Hold on other key press triggered
    HoldOnOtherKeyPress,
    /// Used for the buffered key which is releasing now
    Release,
    /// Releasing a key that is pressed before any keys in the buffer
    NotInBuffer,
    /// The held key is a normal key; it is always added to the decision
    /// list, and the decision is made later
    Normal,
}

/// How a morse key decides between tap and hold.
#[derive(Clone, Copy, Debug, PartialEq, Eq, Structural)]
pub enum MorseMode {
    /// Hold when another key is pressed and released while it is held.
    PermissiveHold,
    /// Hold as soon as another key is pressed while it is held.
    HoldOnOtherPress,
    /// Decide on timeout only.
    Normal,
}

/// Which hand a key belongs to.
#[derive(Clone, Copy, Debug, PartialEq, Eq, Structural)]
pub enum Hand {
    Left,
    Right,
    Unknown,
}

/// The state of a held key, as far as decisions read it.
#[derive(Clone, Copy, Debug, PartialEq, Eq, Structural)]
pub enum HeldPhase {
    /// Pressed, not resolved yet.
    Pressed,
    /// Released, its pattern may still continue.
    Released,
    /// Holding, already fired, or waiting for a combo: no decision.
    Settled,
}

/// What the decisions read of a key in the held buffer.
#[derive(Clone, Copy, Debug, PartialEq, Eq, Structural)]
pub struct HeldKeyView {
    pub pos: KeyboardEventPos,
    pub phase: HeldPhase,
    /// Its binding is a morse (tap-hold) binding.
    pub is_morse: bool,
    /// Its binding is the binding of the current event's key.
    pub same_action: bool,
    /// The tap-hold mode of its binding.
    pub mode: MorseMode,
    /// Unilateral tap is enabled for its binding.
    pub unilateral_tap: bool,
    /// The hand of its position.
    pub hand: Hand,
    /// Press time, in milliseconds.
    pub press_time: u64,
}

/// What the decisions read of the current event.
#[derive(Clone, Copy, Debug, PartialEq, Eq, Structural)]
pub struct CurrentKey {
    pub pos: KeyboardEventPos,
    pub pressed: bool,
    /// Its binding is a morse binding.
    pub is_morse: bool,
    /// Flow tap is enabled.
    pub enable_flow_tap: bool,
    /// Milliseconds since the last key press.
    pub idle_ms: u64,
    /// Idle time under which a morse press is part of a typing streak.
    pub prior_idle_ms: u64,
    /// The hand of its position.
    pub hand: Hand,
}

/// Initial decision for the current key: flow tap when a morse key is
/// pressed within a typing streak.
pub open spec fn initial_decision(cur: CurrentKey) -> KeyBehaviorDecision {
    if cur.pressed && cur.enable_flow_tap && cur.is_morse && cur.idle_ms < cur.prior_idle_ms {
        KeyBehaviorDecision::FlowTap
    } else {
        KeyBehaviorDecision::Ignore
    }
}

/// Whether held keys are examined at all: on a press, or on the release of
/// a key whose binding is (first) found in the buffer still unresolved.
pub open spec fn check_held(cur: CurrentKey, keys: Seq<HeldKeyView>) -> bool {
    cur.pressed || match first_same_action(keys, 0) {
        Some(i) => keys[i].phase !is Settled,
        None => false,
    }
}

/// The first held key, from `i` on, with the current key's binding.
pub open spec fn first_same_action(keys: Seq<HeldKeyView>, i: int) -> Option<int>
    decreases keys.len() - i,
{
    if i < 0 || i >= keys.len() {
        None
    } else if keys[i].same_action {
        Some(i)
    } else {
        first_same_action(keys, i + 1)
    }
}

/// Decisions so far: for the current key and the held keys decided on.
pub type Decisions = (KeyBehaviorDecision, Seq<(KeyboardEventPos, HeldKeyDecision)>);

/// One held key's part in the decisions.
pub open spec fn decide_step(cur: CurrentKey, st: Decisions, k: HeldKeyView) -> Decisions {
    let (d, ds) = st;
    if k.phase is Settled {
        st
    } else if !cur.pressed && k.same_action {
        (KeyBehaviorDecision::Release, ds.push((k.pos, HeldKeyDecision::Release)))
    } else if !k.is_morse && k.phase is Pressed {
        (d, ds.push((k.pos, HeldKeyDecision::Normal)))
    } else if k.pos != cur.pos && k.is_morse {
        if cur.pressed {
            if d == KeyBehaviorDecision::FlowTap && k.phase is Pressed {
                (d, ds.push((k.pos, HeldKeyDecision::FlowTap)))
            } else {
                match k.mode {
                    MorseMode::PermissiveHold => (KeyBehaviorDecision::Buffer, ds),
                    MorseMode::HoldOnOtherPress => (
                        KeyBehaviorDecision::CleanBuffer,
                        ds.push((k.pos, HeldKeyDecision::HoldOnOtherKeyPress)),
                    ),
                    MorseMode::Normal => st,
                }
            }
        } else if k.unilateral_tap && d != KeyBehaviorDecision::Release && k.pos is Key && cur.pos is Key
            && k.hand == cur.hand && k.hand != Hand::Unknown {
            (d, ds.push((k.pos, HeldKeyDecision::UnilateralTap)))
        } else if d != KeyBehaviorDecision::Release && k.mode == MorseMode::PermissiveHold {
            (KeyBehaviorDecision::CleanBuffer, ds.push((k.pos, HeldKeyDecision::PermissiveHold)))
        } else {
            st
        }
    } else {
        st
    }
}

/// Decisions after the first `n` held keys, in order.
pub open spec fn decide_upto(cur: CurrentKey, keys: Seq<HeldKeyView>, n: int) -> Decisions
    decreases n,
{
    if n <= 0 {
        (initial_decision(cur), Seq::empty())
    } else {
        decide_step(cur, decide_upto(cur, keys, n - 1), keys[n - 1])
    }
}

/// Held keys in order of press time.
pub open spec fn sorted_by_press(keys: Seq<HeldKeyView>) -> bool {
    forall|i: int, j: int| 0 <= i < j < keys.len() ==> keys[i].press_time <= keys[j].press_time
}

proof fn lemma_swap_multiset(s: Seq<HeldKeyView>, i: int, j: int)
    requires
        0 <= i < s.len(),
        0 <= j < s.len(),
    ensures
        s.update(i, s[j]).update(j, s[i]).to_multiset() =~= s.to_multiset(),
{
    broadcast use vstd::seq_lib::to_multiset_update;
    broadcast use vstd::seq_lib::to_multiset_contains;
    broadcast use vstd::multiset::group_multiset_axioms;

    let m = s.to_multiset();
    let t = s.update(i, s[j]);
    let a = s[i];
    let b = s[j];
    assert(s.contains(a));
    assert(t.contains(b)) by {
        assert(t[i] == b);
    }
    let m1 = m.insert(b).remove(a);
    assert(t.to_multiset() == m1);
    assert(t[j] == b);
    let m2 = m1.insert(a).remove(b);
    assert(t.update(j, a).to_multiset() == m2);
    assert(m.count(a) > 0);
    assert forall|x: HeldKeyView| m2.count(x) == m.count(x) by {
        if x == a && x == b {
        } else if x == a {
        } else if x == b {
        } else {
        }
    }
    assert(m2 =~= m);
}

/// Sorts the held keys by press time (insertion sort: keys pressed at the
/// same time keep their order).
fn sort_by_press(keys: &mut Vec<HeldKeyView>)
    ensures
        final(keys)@.to_multiset() == old(keys)@.to_multiset(),
        final(keys)@.len() == old(keys)@.len(),
        sorted_by_press(final(keys)@),
{
    let n = keys.len();
    let mut i: usize = 1;
    while i < n
        invariant
            n == keys.len(),
            1 <= i,
            keys@.to_multiset() == old(keys)@.to_multiset(),
            i <= n || n == 0,
            forall|a: int, b: int| 0 <= a < b < i && b < n ==> keys@[a].press_time <= keys@[b].press_time,
        decreases n - i,
    {
        let mut j: usize = i;
        while j > 0 && keys[j - 1].press_time > keys[j].press_time
            invariant
                n == keys.len(),
                0 <= j <= i < n,
                keys@.to_multiset() == old(keys)@.to_multiset(),
                forall|a: int, b: int|
                    0 <= a < b <= i && a != j && b != j ==> keys@[a].press_time <= keys@[b].press_time,
                forall|b: int| j < b <= i ==> keys@[j as int].press_time < keys@[b].press_time,
            decreases j,
        {
            let x = keys[j - 1];
            let y = keys[j];
            proof {
                lemma_swap_multiset(keys@, j - 1, j as int);
            }
            keys.set(j - 1, y);
            keys.set(j, x);
            j = j - 1;
        }
        i = i + 1;
    }
}

fn first_same_action_exec(keys: &Vec<HeldKeyView>) -> (r: Option<usize>)
    ensures
        r matches Some(i) ==> i < keys.len() && first_same_action(keys@, 0) == Some(i as int),
        r is None ==> first_same_action(keys@, 0) is None,
{
    let mut i: usize = 0;
    while i < keys.len()
        invariant
            i <= keys.len(),
            first_same_action(keys@, 0) == first_same_action(keys@, i as int),
        decreases keys.len() - i,
    {
        if keys[i].same_action {
            return Some(i);
        }
        i = i + 1;
    }
    None
}

fn decide_step_exec(
    cur: &CurrentKey,
    d: KeyBehaviorDecision,
    ds: &mut Vec<(KeyboardEventPos, HeldKeyDecision)>,
    k: HeldKeyView,
) -> (r: KeyBehaviorDecision)
    ensures
        (r, final(ds)@) == decide_step(*cur, (d, old(ds)@), k),
{
    if let HeldPhase::Settled = k.phase {
        return d;
    }
    if !cur.pressed && k.same_action {
        ds.push((k.pos, HeldKeyDecision::Release));
        return KeyBehaviorDecision::Release;
    }
    let pressed_phase = match k.phase {
        HeldPhase::Pressed => true,
        _ => false,
    };
    if !k.is_morse && pressed_phase {
        ds.push((k.pos, HeldKeyDecision::Normal));
        return d;
    }
    if k.pos != cur.pos && k.is_morse {
        if cur.pressed {
            if d == KeyBehaviorDecision::FlowTap && pressed_phase {
                ds.push((k.pos, HeldKeyDecision::FlowTap));
                return d;
            }
            match k.mode {
                MorseMode::PermissiveHold => KeyBehaviorDecision::Buffer,
                MorseMode::HoldOnOtherPress => {
                    ds.push((k.pos, HeldKeyDecision::HoldOnOtherKeyPress));
                    KeyBehaviorDecision::CleanBuffer
                },
                MorseMode::Normal => d,
            }
        } else {
            let both_keys = match (k.pos, cur.pos) {
                (KeyboardEventPos::Key(_), KeyboardEventPos::Key(_)) => true,
                _ => false,
            };
            if k.unilateral_tap && d != KeyBehaviorDecision::Release && both_keys && k.hand == cur.hand
                && k.hand != Hand::Unknown {
                ds.push((k.pos, HeldKeyDecision::UnilateralTap));
                d
            } else if d != KeyBehaviorDecision::Release && k.mode == MorseMode::PermissiveHold {
                ds.push((k.pos, HeldKeyDecision::PermissiveHold));
                KeyBehaviorDecision::CleanBuffer
            } else {
                d
            }
        }
    } else {
        d
    }
}

/// Makes the decision for the current key and for each held key.
///
/// On a press, or on the release of a key found unresolved in the buffer,
/// the held keys are sorted by press time (the buffer keeps that order) and
/// each unresolved one is examined in turn (`decide_step`); otherwise the
/// buffer is left alone and only the flow-tap check applies.
pub fn make_decisions_for_keys(cur: &CurrentKey, keys: &mut Vec<HeldKeyView>) -> (r: (
    KeyBehaviorDecision,
    Vec<(KeyboardEventPos, HeldKeyDecision)>,
))
    ensures
        check_held(*cur, old(keys)@) ==> {
            &&& final(keys)@.to_multiset() == old(keys)@.to_multiset()
            &&& sorted_by_press(final(keys)@)
            &&& (r.0, r.1@) == decide_upto(*cur, final(keys)@, final(keys)@.len() as int)
        },
        !check_held(*cur, old(keys)@) ==> {
            &&& final(keys)@ == old(keys)@
            &&& r.0 == initial_decision(*cur)
            &&& r.1@.len() == 0
        },
{
    let mut d = if cur.pressed && cur.enable_flow_tap && cur.is_morse && cur.idle_ms < cur.prior_idle_ms {
        KeyBehaviorDecision::FlowTap
    } else {
        KeyBehaviorDecision::Ignore
    };
    let mut ds: Vec<(KeyboardEventPos, HeldKeyDecision)> = Vec::new();
    let check = cur.pressed || match first_same_action_exec(keys) {
        Some(i) => match keys[i].phase {
            HeldPhase::Settled => false,
            _ => true,
        },
        None => false,
    };
    if !check {
        return (d, ds);
    }
    sort_by_press(keys);
    let n = keys.len();
    let mut i: usize = 0;
    while i < n
        invariant
            n == keys.len(),
            i <= n,
            (d, ds@) == decide_upto(*cur, keys@, i as int),
        decreases n - i,
    {
        let k = keys[i];
        d = decide_step_exec(cur, d, &mut ds, k);
        i = i + 1;
    }
    (d, ds)
}

/// A release of a key found in the buffer always decides `Release` for the
/// current key and `Release` for the first unresolved held key with its
/// binding: a key waiting in the buffer is resolved when it is released.
pub proof fn lemma_release_of_held_key(cur: CurrentKey, keys: Seq<HeldKeyView>, n: int)
    requires
        !cur.pressed,
        0 < n <= keys.len(),
        keys[n - 1].same_action,
        keys[n - 1].phase !is Settled,
    ensures
        decide_upto(cur, keys, n).0 == KeyBehaviorDecision::Release,
        decide_upto(cur, keys, n).1.last() == (keys[n - 1].pos, HeldKeyDecision::Release),
{
}

/// Decisions only grow: each held key adds at most one decision, and the
/// decisions made for earlier keys stay as they were.
pub proof fn lemma_decisions_grow(cur: CurrentKey, keys: Seq<HeldKeyView>, m: int, n: int)
    requires
        0 <= m <= n <= keys.len(),
    ensures
        decide_upto(cur, keys, m).1.len() <= decide_upto(cur, keys, n).1.len() <= decide_upto(
            cur,
            keys,
            m,
        ).1.len() + (n - m),
        decide_upto(cur, keys, n).1.subrange(0, decide_upto(cur, keys, m).1.len() as int) =~= decide_upto(
            cur,
            keys,
            m,
        ).1,
    decreases n - m,
{
    if m < n {
        lemma_decisions_grow(cur, keys, m, n - 1);
        let prev = decide_upto(cur, keys, n - 1).1;
        let cur_ds = decide_upto(cur, keys, n).1;
        assert(cur_ds == prev || cur_ds == prev.push(cur_ds.last()));
        if cur_ds != prev {
            assert(cur_ds.subrange(0, prev.len() as int) =~= prev);
        }
    }
}

} // verus!
