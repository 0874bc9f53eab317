//! Auto mouse layer
//!
//! Activates a configured layer whenever cursor motion (relative X/Y) from a
//! pointing device is detected, and releases it on timeout or, for entries
//! that opt in, on key presses. Each entry gives a pointing device its own
//! target layer, threshold and timeout; the entry whose `device_id` matches
//! an event is selected first, otherwise the first entry without a
//! `device_id`.
//!
//! Times are milliseconds. The keymap is the caller's: it activates and
//! deactivates the layers that the steps here decide on.

use vstd::prelude::*;

use crate::bounded::{AUTO_MOUSE_LAYER_MAX_NUM, LayerList, layer_list_items};
use crate::event::{Axis, AxisValType, PointingEvent};
use crate::keycode::{
    key_code_of,
    HID_AGAIN,
    KeyUsage,
    hid_modifiers,
    is_mouse_key,
    spec_hid_modifiers,
    spec_is_mouse_key,
};

verus! {

/// Subscriber slots of the action event in this build.
pub const ACTION_EVENT_SUB_SIZE: usize = 0;

/// Configuration of one auto mouse layer entry.
#[derive(Clone, Copy, Debug)]
pub struct AutoMouseLayerConfig {
    /// The pointing device this entry handles; `None` handles devices that
    /// no other entry names.
    pub device_id: Option<u8>,
    /// The layer activated on motion.
    pub target_layer: u8,
    /// How long the layer stays active after the last motion.
    pub timeout_ms: u64,
    /// The smallest relative X or Y delta that counts as motion.
    pub threshold: u16,
    /// Release the layer when a non-mouse key is pressed.
    pub deactivate_on_key: bool,
    /// Keys that count as mouse keys for `deactivate_on_key`.
    pub extra_mouse_keys: &'static [KeyUsage],
    /// Extend the timeout on key presses.
    pub reset_timeout_on_key: bool,
}

/// Per-entry runtime state.
#[derive(Clone, Copy, Debug)]
pub struct EntryState {
    pub config: AutoMouseLayerConfig,
    /// `true` while this entry is holding the layer active. Multiple entries
    /// may hold the same layer simultaneously when they share `target_layer`.
    pub self_activated: bool,
    /// When the layer is released unless further motion pushes it forward.
    pub deadline: Option<u64>,
    /// Whether the overlap with a manually activated layer was reported.
    pub overlap_warned: bool,
}

/// What a key action means to the auto mouse layer.
#[derive(Clone, Copy, Debug, PartialEq, Eq, Structural)]
pub enum ActionKind {
    /// A plain key stroke.
    Key(KeyUsage),
    /// Modifiers only (e.g. a mod-tap hold), as modifier bits.
    Modifier(u8),
    /// A HID key with modifiers.
    KeyWithModifier(u8, u8),
    /// A one-shot HID key.
    OneShotKey(u8),
    /// Anything else (layer switches, macros, ...): unclassifiable.
    Other,
}

#[verifier::external_type_specification]
#[verifier::external_body]
pub struct ExAction(rmk_types::action::Action);

/// The parts of an `rmk_types` action that the auto mouse layer reads: key
/// strokes by key code, modifier-only actions, keys with modifiers and
/// one-shot keys by HID usage and modifier bits; every other action (and a
/// key code without counterpart) is `Other`.
#[verifier::external_body]
fn action_kind(action: rmk_types::action::Action) -> ActionKind {
    match action {
        rmk_types::action::Action::Key(kc) => match key_code_of(kc) {
            Some(k) => ActionKind::Key(k),
            None => ActionKind::Other,
        },
        rmk_types::action::Action::Modifier(m) => ActionKind::Modifier(m.into_bits()),
        rmk_types::action::Action::KeyWithModifier(h, m) => ActionKind::KeyWithModifier(h as u8, m.into_bits()),
        rmk_types::action::Action::OneShotKey(h) => ActionKind::OneShotKey(h as u8),
        _ => ActionKind::Other,
    }
}

/// An `rmk_types` action as the auto mouse layer reads it.
pub fn classify_action(action: rmk_types::action::Action) -> ActionKind {
    action_kind(action)
}

/// Outcome of motion on an entry.
#[derive(Debug, PartialEq, Eq, Clone, Copy, Structural)]
pub enum PointingOutcome {
    Holding,
    OverlapFirstSeen,
    Idle,
}

/// Some entry self-holds `layer`.
pub open spec fn spec_layer_still_held(entries: Seq<EntryState>, layer: u8) -> bool {
    exists|i: int| 0 <= i < entries.len() && entries[i].self_activated && #[trigger] entries[i].config.target_layer == layer
}

/// Some entry other than `idx` self-holds `layer`.
pub open spec fn spec_layer_shared_with_other(entries: Seq<EntryState>, idx: int, layer: u8) -> bool {
    exists|i: int|
        0 <= i < entries.len() && i != idx && entries[i].self_activated && #[trigger] entries[i].config.target_layer == layer
}

/// The entry for events of `device_id`: the first exact match, else the
/// first entry without a device id, else none.
pub open spec fn spec_match_entry(entries: Seq<EntryState>, device_id: u8) -> Option<int> {
    if exists|i: int| 0 <= i < entries.len() && #[trigger] entries[i].config.device_id == Some(device_id) {
        Some(
            choose|i: int|
                0 <= i < entries.len() && entries[i].config.device_id == Some(device_id) && forall|
                    j: int,
                | 0 <= j < i ==> #[trigger] entries[j].config.device_id != Some(device_id),
        )
    } else if exists|i: int| 0 <= i < entries.len() && #[trigger] entries[i].config.device_id == None::<u8> {
        Some(
            choose|i: int|
                0 <= i < entries.len() && entries[i].config.device_id == None::<u8> && forall|j: int|
                    0 <= j < i ==> #[trigger] entries[j].config.device_id != None::<u8>,
        )
    } else {
        None
    }
}

/// An entry whose deadline has come while it holds its layer.
pub open spec fn expired(e: EntryState, now: u64) -> bool {
    e.self_activated && (e.deadline matches Some(d) && d <= now)
}

/// An entry after it stopped holding its layer on timeout.
pub open spec fn timed_out(e: EntryState) -> EntryState {
    EntryState { self_activated: false, deadline: None, ..e }
}

/// The timeout step from entry `i` on, with the layers released so far:
/// each expired entry stops holding its layer, and the layer is released
/// when no entry holds it any more at that point.
pub open spec fn timeout_run(entries: Seq<EntryState>, now: u64, i: nat, released: Seq<u8>) -> (
    Seq<EntryState>,
    Seq<u8>,
)
    decreases entries.len() - i,
{
    if i >= entries.len() {
        (entries, released)
    } else if !expired(entries[i as int], now) {
        timeout_run(entries, now, i + 1, released)
    } else {
        let e2 = entries.update(i as int, timed_out(entries[i as int]));
        let layer = entries[i as int].config.target_layer;
        let r2 = if spec_layer_still_held(e2, layer) {
            released
        } else {
            released.push(layer)
        };
        timeout_run(e2, now, i + 1, r2)
    }
}

/// The entries after the timeout step at `now`: each expired entry stops
/// holding its layer; the others stay.
pub open spec fn after_timeout(entries: Seq<EntryState>, now: u64) -> Seq<EntryState> {
    Seq::new(
        entries.len(),
        |k: int|
            if expired(entries[k], now) {
                timed_out(entries[k])
            } else {
                entries[k]
            },
    )
}

/// The entries with the timeout step applied to those before `i`.
pub open spec fn timed_out_before(entries: Seq<EntryState>, now: u64, i: int) -> Seq<EntryState> {
    Seq::new(
        entries.len(),
        |k: int|
            if k < i && expired(entries[k], now) {
                timed_out(entries[k])
            } else {
                entries[k]
            },
    )
}

/// Some entry from `i` on expires at `now` and targets `layer`.
pub open spec fn expires_targeting(entries: Seq<EntryState>, now: u64, i: int, layer: u8) -> bool {
    exists|k: int| i <= k < entries.len() && expired(entries[k], now) && #[trigger] entries[k].config.target_layer == layer
}

proof fn lemma_timeout_run_from(orig: Seq<EntryState>, now: u64, i: nat, released: Seq<u8>)
    requires
        i <= orig.len(),
    ensures
        timeout_run(timed_out_before(orig, now, i as int), now, i, released).0 == after_timeout(orig, now),
        forall|l: u8|
            #[trigger] timeout_run(timed_out_before(orig, now, i as int), now, i, released).1.contains(l) <==> (
            released.contains(l) || (expires_targeting(orig, now, i as int, l) && !spec_layer_still_held(
                after_timeout(orig, now),
                l,
            ))),
    decreases orig.len() - i,
{
    let cur = timed_out_before(orig, now, i as int);
    let fin = after_timeout(orig, now);
    let res = timeout_run(cur, now, i, released);
    if i == orig.len() {
        assert(cur =~= fin);
        assert(res == (cur, released));
        assert forall|l: u8| #[trigger] res.1.contains(l) <==> (released.contains(l) || (expires_targeting(
            orig,
            now,
            i as int,
            l,
        ) && !spec_layer_still_held(fin, l))) by {
            if expires_targeting(orig, now, i as int, l) {
                let k = choose|k: int|
                    i <= k < orig.len() && expired(orig[k], now) && #[trigger] orig[k].config.target_layer == l;
            }
        }
    } else {
        let next = timed_out_before(orig, now, i as int + 1);
        let big_l = orig[i as int].config.target_layer;
        let r2 = if !expired(orig[i as int], now) {
            released
        } else if spec_layer_still_held(next, big_l) {
            released
        } else {
            released.push(big_l)
        };
        assert(cur[i as int] == orig[i as int]);
        if !expired(orig[i as int], now) {
            assert(cur =~= next);
        } else {
            assert(cur.update(i as int, timed_out(cur[i as int])) =~= next);
        }
        assert(res == timeout_run(next, now, i + 1, r2));
        lemma_timeout_run_from(orig, now, i + 1, r2);
        assert forall|l: u8| #[trigger] res.1.contains(l) <==> (released.contains(l) || (expires_targeting(
            orig,
            now,
            i as int,
            l,
        ) && !spec_layer_still_held(fin, l))) by {
            assert(res.1.contains(l) <==> (r2.contains(l) || (expires_targeting(orig, now, i as int + 1, l)
                && !spec_layer_still_held(fin, l))));
            // a later expiring target is one from i on
            if expires_targeting(orig, now, i as int + 1, l) {
                let k = choose|k: int|
                    i + 1 <= k < orig.len() && expired(orig[k], now) && #[trigger] orig[k].config.target_layer == l;
                assert(i <= k < orig.len() && expired(orig[k], now) && orig[k].config.target_layer == l);
            }
            if expires_targeting(orig, now, i as int, l) && !(expired(orig[i as int], now) && big_l == l) {
                let k = choose|k: int|
                    i <= k < orig.len() && expired(orig[k], now) && #[trigger] orig[k].config.target_layer == l;
                assert(k != i);
                assert(i + 1 <= k < orig.len() && expired(orig[k], now) && orig[k].config.target_layer == l);
            }
            if expired(orig[i as int], now) && l == big_l {
                assert(i <= i < orig.len() && expired(orig[i as int], now) && orig[i as int].config.target_layer
                    == l);
                // held at the end means held now
                if spec_layer_still_held(fin, l) {
                    let j = choose|j: int|
                        0 <= j < fin.len() && fin[j].self_activated && #[trigger] fin[j].config.target_layer == l;
                    assert(next[j] == fin[j]);
                    assert(0 <= j < next.len() && next[j].self_activated && next[j].config.target_layer == l);
                }
                // held now, not at the end: a later entry expires on it
                if spec_layer_still_held(next, l) && !spec_layer_still_held(fin, l) {
                    let j = choose|j: int|
                        0 <= j < next.len() && next[j].self_activated && #[trigger] next[j].config.target_layer == l;
                    assert(!fin[j].self_activated);
                    assert(j >= i + 1);
                    assert(i + 1 <= j < orig.len() && expired(orig[j], now) && orig[j].config.target_layer == l);
                }
                if !spec_layer_still_held(next, l) {
                    assert(r2 == released.push(big_l));
                    assert(r2.contains(l)) by {
                        assert(r2[r2.len() - 1] == l);
                    }
                }
            }
            if r2.contains(l) && !released.contains(l) {
                let m = choose|m: int| 0 <= m < r2.len() && r2[m] == l;
                assert(m == released.len());
            }
            if released.contains(l) {
                let m = choose|m: int| 0 <= m < released.len() && released[m] == l;
                assert(r2[m] == l);
            }
        }
    }
}

/// The timeout step, said directly: every expired entry stops holding its
/// layer, the other entries stay, and the layers released are those that
/// an expired entry targeted and no entry holds any more.
pub proof fn lemma_timeout_run_direct(entries: Seq<EntryState>, now: u64)
    ensures
        timeout_run(entries, now, 0, Seq::empty()).0 == after_timeout(entries, now),
        forall|l: u8|
            timeout_run(entries, now, 0, Seq::empty()).1.contains(l) <==> (expires_targeting(entries, now, 0, l)
                && !spec_layer_still_held(after_timeout(entries, now), l)),
{
    assert(timed_out_before(entries, now, 0) =~= entries);
    lemma_timeout_run_from(entries, now, 0, Seq::empty());
}

/// The modifier bits covered by the modifier keys among `keys`.
pub open spec fn covered_modifiers(keys: Seq<KeyUsage>) -> u8
    decreases keys.len(),
{
    if keys.len() == 0 {
        0
    } else {
        covered_modifiers(keys.drop_last()) | match keys.last() {
            KeyUsage::Hid(h) => spec_hid_modifiers(h),
            _ => 0u8,
        }
    }
}

/// Whether a key press with `action` makes an entry with `cfg` release its
/// layer: only for entries with `deactivate_on_key`, and only for key
/// strokes that are neither mouse keys nor listed in `extra_mouse_keys`
/// (`Again` and unclassifiable actions never count), or for modifiers not
/// all covered by listed modifier keys.
pub open spec fn causes_deactivation(cfg: AutoMouseLayerConfig, action: ActionKind) -> bool {
    cfg.deactivate_on_key && match action {
        ActionKind::Key(KeyUsage::Hid(h)) => h != HID_AGAIN && !spec_is_mouse_key(h)
            && !cfg.extra_mouse_keys@.contains(KeyUsage::Hid(h)),
        ActionKind::Key(kc) => !cfg.extra_mouse_keys@.contains(kc),
        ActionKind::KeyWithModifier(h, _) => !spec_is_mouse_key(h) && !cfg.extra_mouse_keys@.contains(
            KeyUsage::Hid(h),
        ),
        ActionKind::OneShotKey(h) => !spec_is_mouse_key(h) && !cfg.extra_mouse_keys@.contains(
            KeyUsage::Hid(h),
        ),
        ActionKind::Modifier(m) => (m & !covered_modifiers(cfg.extra_mouse_keys@)) != 0,
        ActionKind::Other => false,
    }
}

/// An entry released by a key press.
pub open spec fn key_released(e: EntryState) -> EntryState {
    EntryState { self_activated: false, deadline: None, overlap_warned: false, ..e }
}

/// `deadline` pushed to `new_deadline` unless it is already later.
pub open spec fn extended(deadline: Option<u64>, new_deadline: u64) -> Option<u64> {
    match deadline {
        Some(current) => if current >= new_deadline {
            deadline
        } else {
            Some(new_deadline)
        },
        None => Some(new_deadline),
    }
}

/// The key-press step from entry `i` on, with the layers released so far:
/// each self-activated entry for which the action causes deactivation
/// releases (its layer is released when no entry holds it any more);
/// otherwise an entry with `reset_timeout_on_key` extends its deadline.
pub open spec fn keypress_run(
    entries: Seq<EntryState>,
    action: ActionKind,
    now: u64,
    i: nat,
    released: Seq<u8>,
) -> (Seq<EntryState>, Seq<u8>)
    decreases entries.len() - i,
{
    if i >= entries.len() {
        (entries, released)
    } else if !entries[i as int].self_activated {
        keypress_run(entries, action, now, i + 1, released)
    } else if causes_deactivation(entries[i as int].config, action) {
        let e2 = entries.update(i as int, key_released(entries[i as int]));
        let layer = entries[i as int].config.target_layer;
        let r2 = if spec_layer_still_held(e2, layer) {
            released
        } else {
            released.push(layer)
        };
        keypress_run(e2, action, now, i + 1, r2)
    } else if entries[i as int].config.reset_timeout_on_key {
        let e = entries[i as int];
        let e2 = entries.update(
            i as int,
            EntryState {
                deadline: extended(e.deadline, (now + e.config.timeout_ms) as u64),
                ..e
            },
        );
        keypress_run(e2, action, now, i + 1, released)
    } else {
        keypress_run(entries, action, now, i + 1, released)
    }
}

/// An entry that a key press with `action` makes release its layer.
pub open spec fn deactivated_by(e: EntryState, action: ActionKind) -> bool {
    e.self_activated && causes_deactivation(e.config, action)
}

/// An entry after a key press with `action` at `now`: released when the
/// press deactivates it, its deadline extended when it holds its layer and
/// resets on keys, else unchanged.
pub open spec fn after_key(e: EntryState, action: ActionKind, now: u64) -> EntryState {
    if deactivated_by(e, action) {
        key_released(e)
    } else if e.self_activated && e.config.reset_timeout_on_key {
        EntryState { deadline: extended(e.deadline, (now + e.config.timeout_ms) as u64), ..e }
    } else {
        e
    }
}

/// The entries after a key press.
pub open spec fn after_keypress(entries: Seq<EntryState>, action: ActionKind, now: u64) -> Seq<EntryState> {
    Seq::new(entries.len(), |k: int| after_key(entries[k], action, now))
}

/// The entries with the key press applied to those before `i`.
pub open spec fn keyed_before(entries: Seq<EntryState>, action: ActionKind, now: u64, i: int) -> Seq<EntryState> {
    Seq::new(
        entries.len(),
        |k: int|
            if k < i {
                after_key(entries[k], action, now)
            } else {
                entries[k]
            },
    )
}

/// Some entry from `i` on is deactivated by the press and targets `layer`.
pub open spec fn deactivated_targeting(entries: Seq<EntryState>, action: ActionKind, i: int, layer: u8) -> bool {
    exists|k: int|
        i <= k < entries.len() && deactivated_by(entries[k], action) && #[trigger] entries[k].config.target_layer
            == layer
}

proof fn lemma_keypress_run_from(orig: Seq<EntryState>, action: ActionKind, now: u64, i: nat, released: Seq<u8>)
    requires
        i <= orig.len(),
    ensures
        keypress_run(keyed_before(orig, action, now, i as int), action, now, i, released).0 == after_keypress(
            orig,
            action,
            now,
        ),
        forall|l: u8|
            #[trigger] keypress_run(keyed_before(orig, action, now, i as int), action, now, i, released).1.contains(
                l,
            ) <==> (released.contains(l) || (deactivated_targeting(orig, action, i as int, l)
                && !spec_layer_still_held(after_keypress(orig, action, now), l))),
    decreases orig.len() - i,
{
    let cur = keyed_before(orig, action, now, i as int);
    let fin = after_keypress(orig, action, now);
    let res = keypress_run(cur, action, now, i, released);
    if i == orig.len() {
        assert(cur =~= fin);
        assert(res == (cur, released));
        assert forall|l: u8| #[trigger] res.1.contains(l) <==> (released.contains(l) || (deactivated_targeting(
            orig,
            action,
            i as int,
            l,
        ) && !spec_layer_still_held(fin, l))) by {
            if deactivated_targeting(orig, action, i as int, l) {
                let k = choose|k: int|
                    i <= k < orig.len() && deactivated_by(orig[k], action) && #[trigger] orig[k].config.target_layer
                        == l;
            }
        }
    } else {
        let next = keyed_before(orig, action, now, i as int + 1);
        let e = orig[i as int];
        let big_l = e.config.target_layer;
        let deact = deactivated_by(e, action);
        let r2 = if !deact {
            released
        } else if spec_layer_still_held(next, big_l) {
            released
        } else {
            released.push(big_l)
        };
        assert(cur[i as int] == e);
        if !e.self_activated {
            assert(cur =~= next);
        } else if deact {
            assert(cur.update(i as int, key_released(e)) =~= next);
        } else if e.config.reset_timeout_on_key {
            assert(cur.update(
                i as int,
                EntryState { deadline: extended(e.deadline, (now + e.config.timeout_ms) as u64), ..e },
            ) =~= next);
        } else {
            assert(cur =~= next);
        }
        assert(res == keypress_run(next, action, now, i + 1, r2));
        lemma_keypress_run_from(orig, action, now, i + 1, r2);
        assert forall|l: u8| #[trigger] res.1.contains(l) <==> (released.contains(l) || (deactivated_targeting(
            orig,
            action,
            i as int,
            l,
        ) && !spec_layer_still_held(fin, l))) by {
            assert(res.1.contains(l) <==> (r2.contains(l) || (deactivated_targeting(orig, action, i as int + 1, l)
                && !spec_layer_still_held(fin, l))));
            if deactivated_targeting(orig, action, i as int + 1, l) {
                let k = choose|k: int|
                    i + 1 <= k < orig.len() && deactivated_by(orig[k], action) && #[trigger] orig[k].config.target_layer
                        == l;
                assert(i <= k < orig.len() && deactivated_by(orig[k], action) && orig[k].config.target_layer == l);
            }
            if deactivated_targeting(orig, action, i as int, l) && !(deact && big_l == l) {
                let k = choose|k: int|
                    i <= k < orig.len() && deactivated_by(orig[k], action) && #[trigger] orig[k].config.target_layer
                        == l;
                assert(k != i);
                assert(i + 1 <= k < orig.len() && deactivated_by(orig[k], action) && orig[k].config.target_layer
                    == l);
            }
            if deact && l == big_l {
                assert(i <= i < orig.len() && deactivated_by(orig[i as int], action) && orig[i as int].config.target_layer
                    == l);
                if spec_layer_still_held(fin, l) {
                    let j = choose|j: int|
                        0 <= j < fin.len() && fin[j].self_activated && #[trigger] fin[j].config.target_layer == l;
                    assert(next[j].self_activated && next[j].config.target_layer == l);
                    assert(0 <= j < next.len() && next[j].self_activated && next[j].config.target_layer == l);
                }
                if spec_layer_still_held(next, l) && !spec_layer_still_held(fin, l) {
                    let j = choose|j: int|
                        0 <= j < next.len() && next[j].self_activated && #[trigger] next[j].config.target_layer == l;
                    assert(fin[j].config.target_layer == l);
                    if fin[j].self_activated {
                        assert(0 <= j < fin.len() && fin[j].self_activated && fin[j].config.target_layer == l);
                    }
                    assert(!fin[j].self_activated);
                    assert(j >= i + 1);
                    assert(i + 1 <= j < orig.len() && deactivated_by(orig[j], action) && orig[j].config.target_layer
                        == l);
                }
                if !spec_layer_still_held(next, l) {
                    assert(r2 == released.push(big_l));
                    assert(r2.contains(l)) by {
                        assert(r2[r2.len() - 1] == l);
                    }
                }
            }
            if r2.contains(l) && !released.contains(l) {
                let m = choose|m: int| 0 <= m < r2.len() && r2[m] == l;
                assert(m == released.len());
            }
            if released.contains(l) {
                let m = choose|m: int| 0 <= m < released.len() && released[m] == l;
                assert(r2[m] == l);
            }
        }
    }
}

/// The key-press step, said directly: every entry that holds its layer and
/// that the press deactivates releases it, every other entry that holds its
/// layer and resets on keys extends its deadline, the rest stay; the layers
/// released are those that a deactivated entry targeted and no entry holds
/// any more.
pub proof fn lemma_keypress_run_direct(entries: Seq<EntryState>, action: ActionKind, now: u64)
    ensures
        keypress_run(entries, action, now, 0, Seq::empty()).0 == after_keypress(entries, action, now),
        forall|l: u8|
            keypress_run(entries, action, now, 0, Seq::empty()).1.contains(l) <==> (deactivated_targeting(
                entries,
                action,
                0,
                l,
            ) && !spec_layer_still_held(after_keypress(entries, action, now), l)),
{
    assert(keyed_before(entries, action, now, 0) =~= entries);
    lemma_keypress_run_from(entries, action, now, 0, Seq::empty());
}

/// No entry's deadline arithmetic overflows at `now`.
pub open spec fn timeouts_fit(entries: Seq<EntryState>, now: u64) -> bool {
    forall|i: int| 0 <= i < entries.len() ==> now + #[trigger] entries[i].config.timeout_ms <= u64::MAX
}

/// Whether a relative X or Y delta of the event reaches the threshold.
/// Scroll axes and absolute positions do not count.
pub open spec fn spec_is_cursor_motion(event: PointingEvent, threshold: u16) -> bool {
    exists|k: int|
        0 <= k < 3 && (#[trigger] event.axes[k]).typ == AxisValType::Rel && (event.axes[k].axis
            == Axis::X || event.axes[k].axis == Axis::Y) && abs16(event.axes[k].value) >= threshold
}

/// Absolute value of an `i16` as an integer.
pub open spec fn abs16(v: i16) -> int {
    if v < 0 {
        -(v as int)
    } else {
        v as int
    }
}

/// Options that need action events cannot run without a subscriber slot.
pub fn assert_action_event_subscriber_available(any_action_event_configured: bool)
    requires
        !any_action_event_configured || ACTION_EVENT_SUB_SIZE >= 1,
{
}

/// The earliest deadline of all entries, if any.
pub fn earliest_deadline(entries: &Vec<EntryState>) -> (r: Option<u64>)
    ensures
        r is None <==> forall|i: int| 0 <= i < entries@.len() ==> (#[trigger] entries@[i]).deadline is None,
        r matches Some(d) ==> (exists|i: int| 0 <= i < entries@.len() && (#[trigger] entries@[i]).deadline == Some(d))
            && forall|i: int|
            0 <= i < entries@.len() ==> ((#[trigger] entries@[i]).deadline matches Some(e) ==> d <= e),
{
    let mut best: Option<u64> = None;
    let mut i: usize = 0;
    while i < entries.len()
        invariant
            i <= entries@.len(),
            best is None <==> forall|j: int| 0 <= j < i ==> (#[trigger] entries@[j]).deadline is None,
            best matches Some(d) ==> (exists|j: int| 0 <= j < i && (#[trigger] entries@[j]).deadline == Some(d))
                && forall|j: int| 0 <= j < i ==> ((#[trigger] entries@[j]).deadline matches Some(e) ==> d <= e),
        decreases entries.len() - i,
    {
        if let Some(d) = entries[i].deadline {
            best = match best {
                Some(b) => if d < b {
                    Some(d)
                } else {
                    Some(b)
                },
                None => Some(d),
            };
        }
        i = i + 1;
    }
    best
}

/// Find the entry that should handle an event from `device_id`: exact
/// `device_id` match wins; otherwise the first entry without a device id.
pub fn match_entry(entries: &Vec<EntryState>, device_id: u8) -> (r: Option<usize>)
    ensures
        r matches Some(i) ==> i < entries@.len() && spec_match_entry(entries@, device_id) == Some(i as int),
        r is None ==> spec_match_entry(entries@, device_id) is None,
{
    let mut i: usize = 0;
    while i < entries.len()
        invariant
            i <= entries@.len(),
            forall|j: int| 0 <= j < i ==> #[trigger] entries@[j].config.device_id != Some(device_id),
        decreases entries.len() - i,
    {
        if entries[i].config.device_id == Some(device_id) {
            proof {
                assert(entries@[i as int].config.device_id == Some(device_id));
                let c = choose|k: int|
                    0 <= k < entries@.len() && entries@[k].config.device_id == Some(device_id) && forall|j: int|
                        0 <= j < k ==> #[trigger] entries@[j].config.device_id != Some(device_id);
                if c < i {
                } else if c > i {
                    assert(entries@[i as int].config.device_id != Some(device_id));
                }
            }
            return Some(i);
        }
        i = i + 1;
    }
    let mut k: usize = 0;
    while k < entries.len()
        invariant
            k <= entries@.len(),
            forall|j: int| 0 <= j < entries@.len() ==> #[trigger] entries@[j].config.device_id != Some(device_id),
            forall|j: int| 0 <= j < k ==> #[trigger] entries@[j].config.device_id != None::<u8>,
        decreases entries.len() - k,
    {
        if entries[k].config.device_id.is_none() {
            proof {
                assert(entries@[k as int].config.device_id == None::<u8>);
                let c = choose|m: int|
                    0 <= m < entries@.len() && entries@[m].config.device_id == None::<u8> && forall|j: int|
                        0 <= j < m ==> #[trigger] entries@[j].config.device_id != None::<u8>;
                if c < k {
                } else if c > k {
                    assert(entries@[k as int].config.device_id != None::<u8>);
                }
            }
            return Some(k);
        }
        k = k + 1;
    }
    None
}

/// Whether some entry self-holds `layer`.
pub fn layer_still_held(entries: &Vec<EntryState>, layer: u8) -> (r: bool)
    ensures
        r == spec_layer_still_held(entries@, layer),
{
    let mut i: usize = 0;
    while i < entries.len()
        invariant
            i <= entries@.len(),
            forall|j: int|
                0 <= j < i ==> !(entries@[j].self_activated && #[trigger] entries@[j].config.target_layer
                    == layer),
        decreases entries.len() - i,
    {
        if entries[i].self_activated && entries[i].config.target_layer == layer {
            return true;
        }
        i = i + 1;
    }
    false
}

/// Whether some entry other than `idx` self-holds `layer`.
pub fn layer_shared_with_other(entries: &Vec<EntryState>, idx: usize, layer: u8) -> (r: bool)
    ensures
        r == spec_layer_shared_with_other(entries@, idx as int, layer),
{
    let mut i: usize = 0;
    while i < entries.len()
        invariant
            i <= entries@.len(),
            forall|j: int|
                0 <= j < i ==> !(j != idx && entries@[j].self_activated
                    && #[trigger] entries@[j].config.target_layer == layer),
        decreases entries.len() - i,
    {
        if i != idx && entries[i].self_activated && entries[i].config.target_layer == layer {
            return true;
        }
        i = i + 1;
    }
    false
}

/// Release every entry whose deadline has come (`deadline <= now`); returns
/// the layers that no entry holds any more, to be deactivated.
pub fn timeout_step(entries: &mut Vec<EntryState>, now: u64) -> (r: LayerList)
    requires
        old(entries)@.len() <= AUTO_MOUSE_LAYER_MAX_NUM,
    ensures
        (final(entries)@, layer_list_items(r)) == timeout_run(old(entries)@, now, 0, Seq::empty()),
        final(entries)@.len() == old(entries)@.len(),
{
    let mut released = LayerList::new();
    assert(layer_list_items(released) =~= Seq::<u8>::empty());
    let ghost orig = entries@;
    let mut i: usize = 0;
    while i < entries.len()
        invariant
            i <= entries@.len(),
            entries@.len() == orig.len(),
            orig.len() <= AUTO_MOUSE_LAYER_MAX_NUM,
            layer_list_items(released).len() <= i,
            timeout_run(orig, now, 0, Seq::empty()) == timeout_run(
                entries@,
                now,
                i as nat,
                layer_list_items(released),
            ),
        decreases entries.len() - i,
    {
        let is_expired = entries[i].self_activated && match entries[i].deadline {
            Some(d) => d <= now,
            None => false,
        };
        if is_expired {
            let ghost before = entries@;
            entries[i].self_activated = false;
            entries[i].deadline = None;
            assert(entries@ == before.update(i as int, timed_out(before[i as int])));
            let layer = entries[i].config.target_layer;
            if !layer_still_held(entries, layer) {
                let _ = released.push(layer);
            }
        }
        i = i + 1;
    }
    released
}

/// The entry after motion, and the outcome, given whether a sibling holds
/// its layer and whether its layer was just activated.
pub open spec fn pointing_entry(e: EntryState, shared_with_other: bool, now: u64, activated_by_us: bool) -> (
    EntryState,
    PointingOutcome,
) {
    let new_deadline = Some((now + e.config.timeout_ms) as u64);
    if activated_by_us || shared_with_other {
        (
            EntryState { self_activated: true, overlap_warned: false, deadline: new_deadline, ..e },
            PointingOutcome::Holding,
        )
    } else if e.self_activated {
        (EntryState { deadline: new_deadline, ..e }, PointingOutcome::Idle)
    } else if !e.overlap_warned {
        (EntryState { overlap_warned: true, ..e }, PointingOutcome::OverlapFirstSeen)
    } else {
        (e, PointingOutcome::Idle)
    }
}

/// Motion on entry `idx`: the entry holds its layer when it activated it
/// now or a sibling already holds it (deadline `now + timeout`); an entry
/// that already holds it extends its deadline; otherwise the layer is
/// driven by something else, reported once.
pub fn pointing_step(entries: &mut Vec<EntryState>, idx: usize, now: u64, activated_by_us: bool) -> (r:
    PointingOutcome)
    requires
        idx < old(entries)@.len(),
        now + old(entries)@[idx as int].config.timeout_ms <= u64::MAX,
    ensures
        final(entries)@.len() == old(entries)@.len(),
        forall|j: int| 0 <= j < old(entries)@.len() && j != idx ==> final(entries)@[j] == old(entries)@[j],
        (final(entries)@[idx as int], r) == pointing_entry(
            old(entries)@[idx as int],
            spec_layer_shared_with_other(
                old(entries)@,
                idx as int,
                old(entries)@[idx as int].config.target_layer,
            ),
            now,
            activated_by_us,
        ),
{
    let target_layer = entries[idx].config.target_layer;
    let shared_with_other = layer_shared_with_other(entries, idx, target_layer);
    let timeout = entries[idx].config.timeout_ms;
    if activated_by_us || shared_with_other {
        entries[idx].self_activated = true;
        entries[idx].overlap_warned = false;
        entries[idx].deadline = Some(now + timeout);
        PointingOutcome::Holding
    } else if entries[idx].self_activated {
        entries[idx].deadline = Some(now + timeout);
        PointingOutcome::Idle
    } else if !entries[idx].overlap_warned {
        entries[idx].overlap_warned = true;
        PointingOutcome::OverlapFirstSeen
    } else {
        PointingOutcome::Idle
    }
}

/// The modifier bits covered by the modifier keys among `keys`.
fn covered_modifiers_exec(keys: &[KeyUsage]) -> (r: u8)
    ensures
        r == covered_modifiers(keys@),
{
    let mut acc: u8 = 0;
    let mut i: usize = 0;
    while i < keys.len()
        invariant
            i <= keys@.len(),
            acc == covered_modifiers(keys@.subrange(0, i as int)),
        decreases keys.len() - i,
    {
        let add = match keys[i] {
            KeyUsage::Hid(h) => hid_modifiers(h),
            _ => 0u8,
        };
        assert(keys@.subrange(0, i + 1).drop_last() == keys@.subrange(0, i as int));
        acc = acc | add;
        i = i + 1;
    }
    assert(keys@.subrange(0, keys@.len() as int) == keys@);
    acc
}

/// Whether `keys` lists `kc`.
fn contains_key(keys: &[KeyUsage], kc: KeyUsage) -> (r: bool)
    ensures
        r == keys@.contains(kc),
{
    let mut i: usize = 0;
    while i < keys.len()
        invariant
            i <= keys@.len(),
            forall|j: int| 0 <= j < i ==> keys@[j] != kc,
        decreases keys.len() - i,
    {
        if keys[i] == kc {
            assert(keys@[i as int] == kc);
            return true;
        }
        i = i + 1;
    }
    false
}

/// Whether a key press with `action` makes an entry with `cfg` release its
/// layer (see `causes_deactivation`).
fn deactivates(cfg: &AutoMouseLayerConfig, action: ActionKind) -> (r: bool)
    ensures
        r == causes_deactivation(*cfg, action),
{
    if !cfg.deactivate_on_key {
        return false;
    }
    match action {
        // The repeated keycode is unknown; a repeated mouse key must not be
        // misclassified as non-mouse.
        ActionKind::Key(KeyUsage::Hid(h)) => {
            if h == HID_AGAIN || is_mouse_key(h) {
                false
            } else {
                !contains_key(cfg.extra_mouse_keys, KeyUsage::Hid(h))
            }
        },
        ActionKind::Key(kc) => !contains_key(cfg.extra_mouse_keys, kc),
        ActionKind::KeyWithModifier(h, _) | ActionKind::OneShotKey(h) => {
            if is_mouse_key(h) {
                false
            } else {
                !contains_key(cfg.extra_mouse_keys, KeyUsage::Hid(h))
            }
        },
        // A modifier-only action deactivates unless every contained modifier
        // is covered by a modifier keycode listed in `extra_mouse_keys`.
        ActionKind::Modifier(modifiers) => {
            let covered = covered_modifiers_exec(cfg.extra_mouse_keys);
            (modifiers & !covered) != 0
        },
        ActionKind::Other => false,
    }
}

/// Handle a key press for opt-in entries: release entries whose layer should
/// deactivate, or extend the deadline of entries opted into
/// `reset_timeout_on_key`. Returns the layers that no entry holds any more.
pub fn keypress_step(entries: &mut Vec<EntryState>, action: ActionKind, now: u64) -> (r: LayerList)
    requires
        old(entries)@.len() <= AUTO_MOUSE_LAYER_MAX_NUM,
        timeouts_fit(old(entries)@, now),
    ensures
        (final(entries)@, layer_list_items(r)) == keypress_run(old(entries)@, action, now, 0, Seq::empty()),
        final(entries)@.len() == old(entries)@.len(),
{
    let mut released = LayerList::new();
    assert(layer_list_items(released) =~= Seq::<u8>::empty());
    let ghost orig = entries@;
    let mut i: usize = 0;
    while i < entries.len()
        invariant
            i <= entries@.len(),
            entries@.len() == orig.len(),
            orig.len() <= AUTO_MOUSE_LAYER_MAX_NUM,
            layer_list_items(released).len() <= i,
            forall|j: int| 0 <= j < entries@.len() ==> (#[trigger] entries@[j]).config == orig[j].config,
            timeouts_fit(orig, now),
            keypress_run(orig, action, now, 0, Seq::empty()) == keypress_run(
                entries@,
                action,
                now,
                i as nat,
                layer_list_items(released),
            ),
        decreases entries.len() - i,
    {
        if entries[i].self_activated {
            let causes = deactivates(&entries[i].config, action);
            if causes {
                let ghost before = entries@;
                entries[i].self_activated = false;
                entries[i].deadline = None;
                entries[i].overlap_warned = false;
                assert(entries@ == before.update(i as int, key_released(before[i as int])));
                let layer = entries[i].config.target_layer;
                if !layer_still_held(entries, layer) {
                    let _ = released.push(layer);
                }
            } else if entries[i].config.reset_timeout_on_key {
                let ghost before = entries@;
                assert(now + orig[i as int].config.timeout_ms <= u64::MAX);
                let new_deadline = now + entries[i].config.timeout_ms;
                let ext = match entries[i].deadline {
                    Some(current) => current >= new_deadline,
                    None => false,
                };
                if !ext {
                    entries[i].deadline = Some(new_deadline);
                }
                assert(entries@ == before.update(
                    i as int,
                    EntryState {
                        deadline: extended(before[i as int].deadline, new_deadline),
                        ..before[i as int]
                    },
                ));
            }
        }
        i = i + 1;
    }
    released
}

/// Whether an event carries cursor motion: a relative X or Y delta whose
/// absolute value reaches the threshold. Scroll axes and absolute-position
/// axes do not count.
pub fn is_cursor_motion(event: &PointingEvent, threshold: u16) -> (r: bool)
    ensures
        r == spec_is_cursor_motion(*event, threshold),
{
    let mut k: usize = 0;
    while k < 3
        invariant
            k <= 3,
            forall|j: int|
                0 <= j < k ==> !((#[trigger] event.axes[j]).typ == AxisValType::Rel && (
                event.axes[j].axis == Axis::X || event.axes[j].axis == Axis::Y) && abs16(
                    event.axes[j].value,
                ) >= threshold),
        decreases 3 - k,
    {
        let a = event.axes[k];
        let mag: u16 = if a.value < 0 {
            (-(a.value as i32)) as u16
        } else {
            a.value as u16
        };
        if a.typ == AxisValType::Rel && (a.axis == Axis::X || a.axis == Axis::Y) && mag >= threshold {
            return true;
        }
        k = k + 1;
    }
    false
}

/// The entry a configuration gives: its threshold raised to at least 1, not
/// holding any layer.
pub open spec fn initial_entry(config: AutoMouseLayerConfig) -> EntryState {
    EntryState {
        config: AutoMouseLayerConfig {
            threshold: if config.threshold == 0 {
                1
            } else {
                config.threshold
            },
            ..config
        },
        self_activated: false,
        deadline: None,
        overlap_warned: false,
    }
}

/// The entries built from `configs` from position `i` on: configurations
/// whose layer is out of range are ignored, and entries beyond the capacity
/// are dropped.
pub open spec fn build_entries(
    num_layer: usize,
    configs: Seq<AutoMouseLayerConfig>,
    i: nat,
    acc: Seq<EntryState>,
) -> Seq<EntryState>
    decreases configs.len() - i,
{
    if i >= configs.len() {
        acc
    } else if configs[i as int].target_layer as int >= num_layer {
        build_entries(num_layer, configs, i + 1, acc)
    } else if acc.len() >= AUTO_MOUSE_LAYER_MAX_NUM {
        build_entries(num_layer, configs, i + 1, acc)
    } else {
        build_entries(num_layer, configs, i + 1, acc.push(initial_entry(configs[i as int])))
    }
}

/// Whether some configuration with a layer in range opts into key events.
pub open spec fn any_action_configured(num_layer: usize, configs: Seq<AutoMouseLayerConfig>) -> bool {
    exists|i: int|
        #![trigger configs[i]]
        0 <= i < configs.len() && configs[i].target_layer < num_layer && (configs[i].deactivate_on_key
            || configs[i].reset_timeout_on_key)
}

/// The auto mouse layer task's state: its entries, and whether any entry
/// inspects key events.
pub struct AutoMouseLayerRunner {
    entries: Vec<EntryState>,
    /// `true` if any entry has `deactivate_on_key` or `reset_timeout_on_key`
    /// set, so action events must be inspected.
    any_action_event_configured: bool,
}

impl AutoMouseLayerRunner {
    /// The entries.
    pub closed spec fn entries_spec(&self) -> Seq<EntryState> {
        self.entries@
    }

    /// Whether key events are inspected.
    pub closed spec fn action_events_spec(&self) -> bool {
        self.any_action_event_configured
    }

    #[verifier::type_invariant]
    closed spec fn inv(&self) -> bool {
        self.entries@.len() <= AUTO_MOUSE_LAYER_MAX_NUM
    }

    /// Build the runner from the configured entries for a keymap of
    /// `num_layer` layers.
    pub fn new(num_layer: usize, configs: &Vec<AutoMouseLayerConfig>) -> (r: Self)
        ensures
            r.entries_spec() == build_entries(num_layer, configs@, 0, Seq::empty()),
            r.action_events_spec() == any_action_configured(num_layer, configs@),
    {
        let mut entries: Vec<EntryState> = Vec::new();
        let mut any_action_event_configured = false;
        let mut i: usize = 0;
        while i < configs.len()
            invariant
                i <= configs@.len(),
                entries@.len() <= AUTO_MOUSE_LAYER_MAX_NUM,
                build_entries(num_layer, configs@, 0, Seq::empty()) == build_entries(
                    num_layer,
                    configs@,
                    i as nat,
                    entries@,
                ),
                any_action_event_configured == exists|j: int|
                    #![trigger configs@[j]]
                    0 <= j < i && configs@[j].target_layer < num_layer && (configs@[j].deactivate_on_key
                        || configs@[j].reset_timeout_on_key),
            decreases configs.len() - i,
        {
            let config = &configs[i];
            assert(configs@[i as int] == *config);
            if (config.target_layer as usize) < num_layer {
                // threshold == 0 would short-circuit motion detection.
                let threshold = if config.threshold == 0 { 1 } else { config.threshold };
                any_action_event_configured = any_action_event_configured || config.deactivate_on_key
                    || config.reset_timeout_on_key;
                if entries.len() < AUTO_MOUSE_LAYER_MAX_NUM {
                    let entry = EntryState {
                        config: AutoMouseLayerConfig {
                            device_id: config.device_id,
                            target_layer: config.target_layer,
                            timeout_ms: config.timeout_ms,
                            threshold,
                            deactivate_on_key: config.deactivate_on_key,
                            extra_mouse_keys: config.extra_mouse_keys,
                            reset_timeout_on_key: config.reset_timeout_on_key,
                        },
                        self_activated: false,
                        deadline: None,
                        overlap_warned: false,
                    };
                    assert(entry == initial_entry(configs@[i as int]));
                    entries.push(entry);
                }
            }
            i = i + 1;
        }
        AutoMouseLayerRunner { entries, any_action_event_configured }
    }

    /// The entries (a copy).
    pub fn entries(&self) -> (r: Vec<EntryState>)
        ensures
            r@ == self.entries_spec(),
    {
        let mut out: Vec<EntryState> = Vec::new();
        let mut i: usize = 0;
        while i < self.entries.len()
            invariant
                i <= self.entries@.len(),
                out@ == self.entries@.subrange(0, i as int),
            decreases self.entries.len() - i,
        {
            out.push(self.entries[i]);
            i = i + 1;
        }
        out
    }

    /// Whether key events are inspected.
    pub fn any_action_event_configured(&self) -> (r: bool)
        ensures
            r == self.action_events_spec(),
    {
        self.any_action_event_configured
    }

    /// The earliest deadline of all entries, if any.
    pub fn deadline(&self) -> (r: Option<u64>)
        ensures
            r is None <==> forall|i: int|
                0 <= i < self.entries_spec().len() ==> (#[trigger] self.entries_spec()[i]).deadline is None,
            r matches Some(d) ==> forall|i: int|
                0 <= i < self.entries_spec().len() ==> ((#[trigger] self.entries_spec()[i]).deadline matches Some(
                    e,
                ) ==> d <= e),
    {
        earliest_deadline(&self.entries)
    }

    /// For a pointing event: the entry that handles it and the layer to
    /// activate, when the event carries cursor motion for that entry.
    pub fn pointing_target(&self, event: &PointingEvent) -> (r: Option<(usize, u8)>)
        ensures
            match spec_match_entry(self.entries_spec(), event.device_id) {
                Some(i) => if spec_is_cursor_motion(*event, self.entries_spec()[i].config.threshold) {
                    r == Some((i as usize, self.entries_spec()[i].config.target_layer))
                } else {
                    r is None
                },
                None => r is None,
            },
    {
        let idx = match match_entry(&self.entries, event.device_id) {
            Some(i) => i,
            None => return None,
        };
        if !is_cursor_motion(event, self.entries[idx].config.threshold) {
            return None;
        }
        Some((idx, self.entries[idx].config.target_layer))
    }

    /// After the layer of entry `idx` was activated if inactive
    /// (`activated_by_us` tells whether this call turned it on).
    pub fn on_pointing_activation(&mut self, idx: usize, now: u64, activated_by_us: bool) -> (r:
        PointingOutcome)
        requires
            idx < old(self).entries_spec().len(),
            now + old(self).entries_spec()[idx as int].config.timeout_ms <= u64::MAX,
        ensures
            final(self).entries_spec().len() == old(self).entries_spec().len(),
            final(self).action_events_spec() == old(self).action_events_spec(),
            forall|j: int|
                0 <= j < old(self).entries_spec().len() && j != idx ==> final(self).entries_spec()[j]
                    == old(self).entries_spec()[j],
            (final(self).entries_spec()[idx as int], r) == pointing_entry(
                old(self).entries_spec()[idx as int],
                spec_layer_shared_with_other(
                    old(self).entries_spec(),
                    idx as int,
                    old(self).entries_spec()[idx as int].config.target_layer,
                ),
                now,
                activated_by_us,
            ),
    {
        proof {
            use_type_invariant(&*self);
        }
        let mut entries = Vec::new();
        std::mem::swap(&mut entries, &mut self.entries);
        let r = pointing_step(&mut entries, idx, now, activated_by_us);
        self.entries = entries;
        r
    }

    /// The layers were changed elsewhere: entries whose layer is no longer
    /// active stop holding it. `active_layers[l]` tells whether layer `l` is
    /// active; a layer beyond it counts as inactive.
    pub fn on_layer_change_event(&mut self, active_layers: &Vec<bool>)
        ensures
            final(self).entries_spec().len() == old(self).entries_spec().len(),
            final(self).action_events_spec() == old(self).action_events_spec(),
            forall|j: int|
                0 <= j < old(self).entries_spec().len() ==> {
                    let e = old(self).entries_spec()[j];
                    let l = e.config.target_layer as int;
                    let active = l < active_layers@.len() && active_layers@[l];
                    #[trigger] final(self).entries_spec()[j] == if e.self_activated && !active {
                        EntryState { self_activated: false, deadline: None, ..e }
                    } else {
                        e
                    }
                },
    {
        proof {
            use_type_invariant(&*self);
        }
        let ghost orig = self.entries@;
        let mut entries = Vec::new();
        std::mem::swap(&mut entries, &mut self.entries);
        let mut i: usize = 0;
        while i < entries.len()
            invariant
                i <= entries@.len(),
                entries@.len() == orig.len(),
                forall|j: int|
                    0 <= j < entries@.len() ==> {
                        let e = orig[j];
                        let l = e.config.target_layer as int;
                        let active = l < active_layers@.len() && active_layers@[l];
                        #[trigger] entries@[j] == if j < i && e.self_activated && !active {
                            EntryState { self_activated: false, deadline: None, ..e }
                        } else {
                            e
                        }
                    },
            decreases entries.len() - i,
        {
            let l = entries[i].config.target_layer as usize;
            let active = l < active_layers.len() && active_layers[l];
            if entries[i].self_activated && !active {
                entries[i].self_activated = false;
                entries[i].deadline = None;
            }
            i = i + 1;
        }
        self.entries = entries;
    }

    /// A key action resolved: for presses, when some entry inspects key
    /// events and holds its layer, run the key-press step. Returns the
    /// layers to deactivate.
    pub fn on_action_event(&mut self, pressed: bool, action: ActionKind, now: u64) -> (r: LayerList)
        requires
            timeouts_fit(old(self).entries_spec(), now),
        ensures
            !pressed || !old(self).action_events_spec() || !(exists|i: int|
                0 <= i < old(self).entries_spec().len()
                    && (#[trigger] old(self).entries_spec()[i]).self_activated) ==> layer_list_items(r)
                == Seq::<u8>::empty() && final(self).entries_spec() == old(self).entries_spec(),
            pressed && old(self).action_events_spec() && (exists|i: int|
                0 <= i < old(self).entries_spec().len()
                    && (#[trigger] old(self).entries_spec()[i]).self_activated) ==> (
                final(self).entries_spec(),
                layer_list_items(r),
            ) == keypress_run(old(self).entries_spec(), action, now, 0, Seq::empty()),
            final(self).action_events_spec() == old(self).action_events_spec(),
    {
        proof {
            use_type_invariant(&*self);
        }
        let empty = LayerList::new();
        assert(layer_list_items(empty) =~= Seq::<u8>::empty());
        if !pressed || !self.any_action_event_configured {
            return empty;
        }
        let mut any_active = false;
        let mut i: usize = 0;
        while i < self.entries.len()
            invariant
                i <= self.entries@.len(),
                any_active == exists|j: int| 0 <= j < i && (#[trigger] self.entries@[j]).self_activated,
            decreases self.entries.len() - i,
        {
            if self.entries[i].self_activated {
                any_active = true;
            }
            i = i + 1;
        }
        if !any_active {
            return empty;
        }
        let mut entries = Vec::new();
        std::mem::swap(&mut entries, &mut self.entries);
        let r = keypress_step(&mut entries, action, now);
        self.entries = entries;
        r
    }

    /// A deadline has come: release the expired entries. Returns the layers
    /// to deactivate.
    pub fn on_deadline(&mut self, now: u64) -> (r: LayerList)
        ensures
            (final(self).entries_spec(), layer_list_items(r)) == timeout_run(
                old(self).entries_spec(),
                now,
                0,
                Seq::empty(),
            ),
            final(self).action_events_spec() == old(self).action_events_spec(),
    {
        proof {
            use_type_invariant(&*self);
        }
        let mut entries = Vec::new();
        std::mem::swap(&mut entries, &mut self.entries);
        let r = timeout_step(&mut entries, now);
        self.entries = entries;
        r
    }
}

} // verus!
