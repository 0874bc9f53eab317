//! A key event passing through the combos: the combos it belongs to are
//! updated; a press that a combo is waiting for goes into the held buffer,
//! and triggers the largest combo it completes; the release of a key of a
//! triggered combo releases the combo's output once all its keys are up.
//! Any other event dispatches the keys waiting for combos. (On a release,
//! the keyboard first fires a delayed combo: `trigger_delayed_combo`.)

use vstd::prelude::*;

use crate::action::KeyBinding;
use crate::combo::{
    all_pressed, all_wf, combo_wf, first_ready, find_ready_combo, has_key, index_of, largest_delayed, max_updated,
    release_combos, release_outcome, reset_combo, same_config, spec_update, spec_update_released,
    trigger_delayed_combo, update_combos, Combo, ComboConfig,
};
use crate::event::KeyboardEvent;
use crate::held_buffer::{sorted_by_timeout, waiting_for, HeldBuffer, HeldKey, KeyState};

verus! {

/// What the keyboard does with a key event after the combos saw it.
#[derive(Clone, Copy, Debug, PartialEq, Eq, Structural)]
pub enum ComboOutcome {
    /// The key waits in the held buffer for the rest of a combo.
    Buffered,
    /// A combo triggered: process its output for the event.
    Triggered(KeyBinding),
    /// A key of a triggered combo was released: release the combo's
    /// output, once all its keys are up.
    ReleasedTriggered(Option<KeyBinding>),
    /// No combo takes the key: dispatch the keys waiting for combos, then
    /// process the key itself.
    Dispatch,
}

/// `b` is `a` with every combo updated for a key event.
pub open spec fn updated_combos(a: Seq<Combo>, b: Seq<Combo>, key: KeyBinding, pressed: bool, layer: u8) -> bool {
    &&& a.len() == b.len()
    &&& forall|i: int|
        0 <= i < a.len() ==> {
            &&& same_config(#[trigger] a[i], b[i])
            &&& (b[i].state, b[i].is_triggered) == (spec_update(a[i], key, pressed, layer).0, spec_update(
                a[i],
                key,
                pressed,
                layer,
            ).1)
        }
}

/// `b` is `a` with combo `i` triggered.
pub open spec fn triggered_at(a: Seq<Combo>, b: Seq<Combo>, i: int) -> bool {
    &&& a.len() == b.len()
    &&& 0 <= i < a.len()
    &&& b[i].is_triggered
    &&& same_config(a[i], b[i])
    &&& b[i].state == a[i].state
    &&& forall|k: int| 0 <= k < a.len() && k != i ==> b[k] == a[k]
}

/// `b` is `a` with the complete, untriggered combos of `key` reset (the
/// partial combos a trigger overrides).
pub open spec fn reset_for(a: Seq<Combo>, b: Seq<Combo>, key: KeyBinding) -> bool {
    &&& a.len() == b.len()
    &&& forall|i: int|
        0 <= i < a.len() ==> {
            &&& same_config(#[trigger] a[i], b[i])
            &&& if all_pressed(a[i]) && !a[i].is_triggered && has_key(a[i], key) {
                b[i].state == 0 && !b[i].is_triggered
            } else {
                b[i].state == a[i].state && b[i].is_triggered == a[i].is_triggered
            }
        }
}

/// `b` is `a` with `key` released in every combo that has it.
pub open spec fn released_in(a: Seq<Combo>, b: Seq<Combo>, key: KeyBinding) -> bool {
    &&& a.len() == b.len()
    &&& forall|i: int|
        0 <= i < a.len() ==> {
            &&& same_config(#[trigger] a[i], b[i])
            &&& has_key(a[i], key) ==> (b[i].state, b[i].is_triggered) == (
                spec_update_released(a[i], key).0,
                spec_update_released(a[i], key).1,
            )
            &&& !has_key(a[i], key) ==> b[i] == a[i]
        }
}

proof fn lemma_first_ready_in_range(cs: Seq<Combo>, size: int, n: int)
    ensures
        first_ready(cs, size, n) matches Some(i) ==> 0 <= i < n,
    decreases n,
{
    if n > 0 {
        lemma_first_ready_in_range(cs, size, n - 1);
    }
}

/// Whether every key of combo `a` is among `keys`.
pub open spec fn keys_within(a: Combo, keys: Seq<KeyBinding>) -> bool {
    forall|j: int| 0 <= j < a.config.actions@.len() ==> #[trigger] index_of(keys, a.config.actions@[j], 0) is Some
}

/// A combo delayed under a combo with `keys`: complete, not triggered,
/// and all its keys among them.
pub open spec fn delayed_under(a: Combo, keys: Seq<KeyBinding>) -> bool {
    all_pressed(a) && !a.is_triggered && keys_within(a, keys)
}

/// `b` is `a` with the combos delayed under `keys` cleared.
pub open spec fn cleared_under(a: Seq<Combo>, b: Seq<Combo>, keys: Seq<KeyBinding>) -> bool {
    &&& a.len() == b.len()
    &&& forall|i: int|
        0 <= i < a.len() ==> {
            &&& same_config(#[trigger] a[i], b[i])
            &&& if delayed_under(a[i], keys) {
                b[i].state == 0 && !b[i].is_triggered
            } else {
                b[i].state == a[i].state && b[i].is_triggered == a[i].is_triggered
            }
        }
}

fn copy_keys(keys: &Vec<KeyBinding>) -> (r: ComboConfig)
    ensures
        r.actions@ == keys@,
{
    let mut out: Vec<KeyBinding> = Vec::new();
    let mut i: usize = 0;
    while i < keys.len()
        invariant
            i <= keys@.len(),
            out@ == keys@.subrange(0, i as int),
        decreases keys@.len() - i,
    {
        out.push(keys[i]);
        i = i + 1;
        assert(out@ =~= keys@.subrange(0, i as int));
    }
    assert(out@ =~= keys@);
    ComboConfig { actions: out, output: KeyBinding::No, layer: None }
}

fn within(c: &Combo, keys: &ComboConfig) -> (r: bool)
    ensures
        r == keys_within(*c, keys.actions@),
{
    let mut j: usize = 0;
    while j < c.config.actions.len()
        invariant
            j <= c.config.actions@.len(),
            forall|k: int| 0 <= k < j ==> #[trigger] index_of(keys.actions@, c.config.actions@[k], 0) is Some,
        decreases c.config.actions@.len() - j,
    {
        if !keys.contains(&c.config.actions[j]) {
            return false;
        }
        j = j + 1;
    }
    true
}

/// Clears the combos delayed under a triggered combo with `keys`: they
/// will not trigger.
pub fn clear_delayed_under(combos: &mut Vec<Combo>, keys: &ComboConfig)
    requires
        all_wf(old(combos)@),
    ensures
        all_wf(final(combos)@),
        cleared_under(old(combos)@, final(combos)@, keys.actions@),
        forall|i: int| 0 <= i < final(combos)@.len() ==> !delayed_under(#[trigger] final(combos)@[i], keys.actions@),
{
    let n = combos.len();
    let mut i: usize = 0;
    while i < n
        invariant
            n == combos@.len(),
            n == old(combos)@.len(),
            i <= n,
            all_wf(combos@),
            forall|k: int| i <= k < n ==> #[trigger] combos@[k] == old(combos)@[k],
            forall|k: int|
                0 <= k < i ==> {
                    let a = #[trigger] old(combos)@[k];
                    let b = combos@[k];
                    &&& same_config(a, b)
                    &&& if delayed_under(a, keys.actions@) {
                        b.state == 0 && !b.is_triggered
                    } else {
                        b.state == a.state && b.is_triggered == a.is_triggered
                    }
                },
        decreases n - i,
    {
        let mut c = combos.remove(i);
        if c.is_all_pressed() && !c.is_triggered() && within(&c, keys) {
            c.reset();
        }
        combos.insert(i, c);
        i = i + 1;
    }
    proof {
        assert forall|k: int| 0 <= k < combos@.len() implies !delayed_under(#[trigger] combos@[k], keys.actions@) by {
            let a = old(combos)@[k];
            let b = combos@[k];
            if delayed_under(a, keys.actions@) {
                assert(b.config.actions@.len() > 0);
                lemma_no_bits(16);
            } else {
                assert(keys_within(b, keys.actions@) == keys_within(a, keys.actions@));
            }
        }
    }
}

fn ready_index(combos: &Vec<Combo>, size: usize) -> (r: Option<usize>)
    ensures
        r matches Some(i) ==> i < combos@.len() && first_ready(combos@, size as int, combos@.len() as int) == Some(
            i as int,
        ),
        r is None ==> first_ready(combos@, size as int, combos@.len() as int) is None,
{
    let mut i: usize = 0;
    while i < combos.len()
        invariant
            i <= combos@.len(),
            first_ready(combos@, size as int, i as int) is None,
        decreases combos@.len() - i,
    {
        if combos[i].is_all_pressed() && !combos[i].is_triggered() && combos[i].size() == size {
            proof {
                crate::combo::lemma_first_ready_stays(combos@, size as int, i as int + 1, combos@.len() as int);
            }
            return Some(i);
        }
        i = i + 1;
    }
    None
}

proof fn lemma_no_bits(n: nat)
    ensures
        crate::combo::bits_set(0u16, n) == 0,
    decreases n,
{
    if n > 0 {
        lemma_no_bits((n - 1) as nat);
        let k = (n - 1) as u16;
        assert((0u16 >> k) & 1u16 == 0u16) by (bit_vector);
    }
}

/// A key event through the combos (`active_layer`: the layer the combos
/// are checked against; the key waits until `pressed_time + timeout`).
pub fn process_combo(
    combos: &mut Vec<Combo>,
    buffer: &mut HeldBuffer,
    key_action: &KeyBinding,
    event: KeyboardEvent,
    active_layer: u8,
    pressed_time: u64,
    timeout: u64,
) -> (r: ComboOutcome)
    requires
        all_wf(old(combos)@),
        pressed_time + timeout <= u64::MAX,
    ensures
        all_wf(final(combos)@),
        final(combos)@.len() == old(combos)@.len(),
        exists|mid: Seq<Combo>|
            #[trigger] updated_combos(old(combos)@, mid, *key_action, event.pressed, active_layer) && {
                let max = max_updated(
                    old(combos)@,
                    *key_action,
                    event.pressed,
                    active_layer,
                    old(combos)@.len() as int,
                );
                if event.pressed && max > 0 {
                    let key = HeldKey {
                        event,
                        action: *key_action,
                        state: KeyState::WaitingCombo,
                        press_time: pressed_time,
                        timeout_time: (pressed_time + timeout) as u64,
                    };
                    match first_ready(mid, max, mid.len() as int) {
                        Some(i) => {
                            &&& r == ComboOutcome::Triggered(mid[i].config.output)
                            &&& exists|mid2: Seq<Combo>, mid3: Seq<Combo>|
                                #![trigger triggered_at(mid, mid2, i), reset_for(mid2, mid3, *key_action)]
                                triggered_at(mid, mid2, i) && reset_for(mid2, mid3, *key_action) && cleared_under(
                                    mid3,
                                    final(combos)@,
                                    mid[i].config.actions@,
                                )
                            &&& forall|j: int|
                                0 <= j < final(combos)@.len() ==> !delayed_under(
                                    #[trigger] final(combos)@[j],
                                    mid[i].config.actions@,
                                )
                            &&& forall|j: int|
                                0 <= j < final(buffer)@.len() ==> !((#[trigger] final(buffer)@[j]).state is WaitingCombo)
                            &&& forall|k: HeldKey|
                                !(k.state is WaitingCombo) ==> #[trigger] final(buffer)@.to_multiset().count(k)
                                    == old(buffer)@.to_multiset().count(k)
                        },
                        None => {
                            &&& r == ComboOutcome::Buffered
                            &&& final(combos)@ == mid
                            &&& final(buffer)@.to_multiset() == (if old(buffer)@.len() < 16 {
                                old(buffer)@.to_multiset().insert(key)
                            } else {
                                old(buffer)@.to_multiset()
                            })
                            &&& sorted_by_timeout(final(buffer)@)
                        },
                    }
                } else if !event.pressed {
                    let (out, releasing) = release_outcome(mid, *key_action, mid.len() as int);
                    &&& released_in(mid, final(combos)@, *key_action)
                    &&& final(buffer)@ == old(buffer)@
                    &&& r == (if releasing {
                        ComboOutcome::ReleasedTriggered(out)
                    } else {
                        ComboOutcome::Dispatch
                    })
                } else {
                    &&& final(combos)@ == mid
                    &&& final(buffer)@ == old(buffer)@
                    &&& r == ComboOutcome::Dispatch
                }
            },
{
    let max = update_combos(combos, key_action, event, active_layer);
    let ghost mid = combos@;
    assert(updated_combos(old(combos)@, mid, *key_action, event.pressed, active_layer));
    if event.pressed && max > 0 {
        let key = HeldKey::new(event, *key_action, KeyState::WaitingCombo, pressed_time, pressed_time + timeout);
        buffer.push(key);
        let ready = ready_index(combos, max);
        match find_ready_combo(combos, max) {
            Some(out) => {
                let i = ready.unwrap();
                let ghost mid2 = combos@;
                proof {
                    lemma_first_ready_in_range(mid, max as int, mid.len() as int);
                    assert(same_config(mid[i as int], mid2[i as int]));
                }
                let keys = copy_keys(&combos[i].config.actions);
                let ghost pushed = buffer@;
                let taken = buffer.take_waiting_combo_keys();
                reset_combo(combos, key_action);
                let ghost mid3 = combos@;
                clear_delayed_under(combos, &keys);
                proof {
                    let i = first_ready(mid, max as int, mid.len() as int)->0;
                    lemma_first_ready_in_range(mid, max as int, mid.len() as int);
                    assert(triggered_at(mid, mid2, i));
                    assert(reset_for(mid2, mid3, *key_action));
                    assert(keys.actions@ == mid[i].config.actions@);
                    assert(cleared_under(mid3, combos@, mid[i].config.actions@));
                    broadcast use vstd::multiset::group_multiset_properties;
                    assert forall|k: HeldKey| !(k.state is WaitingCombo) implies #[trigger] buffer@.to_multiset().count(k)
                        == old(buffer)@.to_multiset().count(k) by {
                        vstd::seq_lib::to_multiset_contains(taken@, k);
                        if taken@.contains(k) {
                            let j = choose|j: int| 0 <= j < taken@.len() && taken@[j] == k;
                            assert(taken@[j].state is WaitingCombo);
                        }
                        assert(taken@.to_multiset().count(k) == 0);
                        assert(pushed.to_multiset().count(k) == old(buffer)@.to_multiset().count(k));
                    }
                }
                ComboOutcome::Triggered(out)
            },
            None => ComboOutcome::Buffered,
        }
    } else {
        if !event.pressed {
            let (out, releasing) = release_combos(combos, key_action);
            if releasing {
                return ComboOutcome::ReleasedTriggered(out);
            }
        }
        ComboOutcome::Dispatch
    }
}

/// Fires the longest delayed combo (on a press any delayed combo, on a
/// release one with the released key): the presses of its keys waiting
/// in the buffer are consumed, and the combos with the key and the combos
/// delayed under the fired one are cleared. Returns the output to process,
/// for a press of the event's key.
pub fn trigger_delayed(combos: &mut Vec<Combo>, buffer: &mut HeldBuffer, key_action: &KeyBinding, pressed: bool) -> (r:
    Option<KeyBinding>)
    requires
        all_wf(old(combos)@),
    ensures
        all_wf(final(combos)@),
        final(combos)@.len() == old(combos)@.len(),
        match largest_delayed(old(combos)@, *key_action, pressed, old(combos)@.len() as int) {
            Some(i) => {
                let keys = old(combos)@[i].config.actions@;
                &&& r == Some(old(combos)@[i].config.output)
                &&& exists|mid2: Seq<Combo>, mid3: Seq<Combo>|
                    #![trigger triggered_at(old(combos)@, mid2, i), reset_for(mid2, mid3, *key_action)]
                    triggered_at(old(combos)@, mid2, i) && reset_for(mid2, mid3, *key_action) && cleared_under(
                        mid3,
                        final(combos)@,
                        keys,
                    )
                &&& forall|j: int| 0 <= j < final(combos)@.len() ==> !delayed_under(#[trigger] final(combos)@[j], keys)
                &&& forall|k: HeldKey| #[trigger]
                    final(buffer)@.to_multiset().count(k) == (if waiting_for(k, keys) {
                        0
                    } else {
                        old(buffer)@.to_multiset().count(k)
                    })
            },
            None => r is None && final(combos)@ == old(combos)@ && final(buffer)@ == old(buffer)@,
        },
{
    let ghost start = combos@;
    match trigger_delayed_combo(combos, key_action, pressed) {
        Some((out, keys_vec)) => {
            let ghost mid2 = combos@;
            let keys = copy_keys(&keys_vec);
            let taken = buffer.take_waiting_keys_of(&keys_vec);
            reset_combo(combos, key_action);
            let ghost mid3 = combos@;
            clear_delayed_under(combos, &keys);
            proof {
                let i = largest_delayed(start, *key_action, pressed, start.len() as int)->0;
                crate::combo::lemma_largest_delayed_ok(start, *key_action, pressed, start.len() as int);
                assert(triggered_at(start, mid2, i));
                assert(reset_for(mid2, mid3, *key_action));
                broadcast use vstd::multiset::group_multiset_properties;
                assert forall|k: HeldKey| #[trigger]
                    buffer@.to_multiset().count(k) == (if waiting_for(k, keys_vec@) {
                        0
                    } else {
                        old(buffer)@.to_multiset().count(k)
                    }) by {
                    vstd::seq_lib::to_multiset_contains(taken@, k);
                    vstd::seq_lib::to_multiset_contains(buffer@, k);
                    if taken@.contains(k) {
                        let j = choose|j: int| 0 <= j < taken@.len() && taken@[j] == k;
                        assert(waiting_for(taken@[j], keys_vec@));
                    }
                    if buffer@.contains(k) {
                        let j = choose|j: int| 0 <= j < buffer@.len() && buffer@[j] == k;
                        assert(!waiting_for(buffer@[j], keys_vec@));
                    }
                }
            }
            Some(out)
        },
        None => None,
    }
}

} // verus!
