//! Combos: an output binding fired when a set of keys is pressed together.
//!
//! A combo records which of its keys are pressed in a 16-bit state (so a
//! combo has at most 16 keys). When all are pressed it can be triggered;
//! once triggered, it stays so until all its keys are released again.
//! Keys are told apart by their binding, compared by identity: the tap
//! and hold actions, not the behavior profile.

use vstd::prelude::*;

use crate::action::KeyBinding;
use crate::event::KeyboardEvent;

verus! {

/// Largest number of keys a combo's state can track.
pub const COMBO_STATE_BITS: usize = 16;

/// `rmk_types::constants::COMBO_SIZE`: the capacity of a combo's key list
/// in the build. Nothing is stated of its value.
#[verifier::external_body]
fn combo_size() -> (r: usize) {
    rmk_types::constants::COMBO_SIZE
}

/// Two bindings are the same key for combos (and forks): equal but for the
/// tap-hold behavior profile.
pub open spec fn same_binding(a: KeyBinding, b: KeyBinding) -> bool {
    match (a, b) {
        (KeyBinding::No, KeyBinding::No) => true,
        (KeyBinding::Transparent, KeyBinding::Transparent) => true,
        (KeyBinding::Single(x), KeyBinding::Single(y)) => x == y,
        (KeyBinding::Tap(x), KeyBinding::Tap(y)) => x == y,
        (KeyBinding::TapHold(t1, h1, _), KeyBinding::TapHold(t2, h2, _)) => t1 == t2 && h1 == h2,
        (KeyBinding::Morse(x), KeyBinding::Morse(y)) => x == y,
        _ => false,
    }
}

/// Whether two bindings are the same key (`KeyAction`'s equality).
pub fn bindings_match(a: &KeyBinding, b: &KeyBinding) -> (r: bool)
    ensures
        r == same_binding(*a, *b),
{
    match (a, b) {
        (KeyBinding::No, KeyBinding::No) => true,
        (KeyBinding::Transparent, KeyBinding::Transparent) => true,
        (KeyBinding::Single(x), KeyBinding::Single(y)) => *x == *y,
        (KeyBinding::Tap(x), KeyBinding::Tap(y)) => *x == *y,
        (KeyBinding::TapHold(t1, h1, _), KeyBinding::TapHold(t2, h2, _)) => *t1 == *t2 && *h1 == *h2,
        (KeyBinding::Morse(x), KeyBinding::Morse(y)) => *x == *y,
        _ => false,
    }
}

/// The first position, from `i` on, of a binding that is the same key as
/// `b`.
pub open spec fn index_of(actions: Seq<KeyBinding>, b: KeyBinding, i: int) -> Option<int>
    decreases actions.len() - i,
{
    if i < 0 || i >= actions.len() {
        None
    } else if same_binding(actions[i], b) {
        Some(i)
    } else {
        index_of(actions, b, i + 1)
    }
}

/// Combo configuration: its keys, its output and the layer it is limited
/// to.
#[derive(Clone, Debug)]
pub struct ComboConfig {
    pub actions: Vec<KeyBinding>,
    pub output: KeyBinding,
    pub layer: Option<u8>,
}

/// The actions that are not `No`, in order.
pub open spec fn non_no(s: Seq<KeyBinding>) -> Seq<KeyBinding>
    decreases s.len(),
{
    if s.len() == 0 {
        seq![]
    } else if s.last() != KeyBinding::No {
        non_no(s.drop_last()).push(s.last())
    } else {
        non_no(s.drop_last())
    }
}

/// The keys a combo of `actions` keeps with room for `cap` of them (and at
/// most 16): the first of its actions that are not `No`, in order.
pub open spec fn kept_actions(actions: Seq<KeyBinding>, cap: nat) -> Seq<KeyBinding> {
    let room: nat = if cap < 16 {
        cap
    } else {
        16
    };
    let f = non_no(actions);
    if f.len() <= room {
        f
    } else {
        f.take(room as int)
    }
}

proof fn lemma_non_no_props(s: Seq<KeyBinding>)
    ensures
        non_no(s).len() <= s.len(),
        forall|k: int| 0 <= k < non_no(s).len() ==> non_no(s)[k] != KeyBinding::No,
    decreases s.len(),
{
    if s.len() > 0 {
        lemma_non_no_props(s.drop_last());
    }
}

/// The non-`No` actions of a prefix are a prefix of those of the whole.
proof fn lemma_non_no_prefix(s: Seq<KeyBinding>, n: int)
    requires
        0 <= n <= s.len(),
    ensures
        non_no(s.subrange(0, n)).len() <= non_no(s).len(),
        non_no(s).take(non_no(s.subrange(0, n)).len() as int) == non_no(s.subrange(0, n)),
    decreases s.len() - n,
{
    if n < s.len() {
        lemma_non_no_prefix(s, n + 1);
        let t = s.subrange(0, n + 1);
        assert(t.drop_last() =~= s.subrange(0, n));
        let a = non_no(s.subrange(0, n));
        let b = non_no(t);
        assert(non_no(s).take(a.len() as int) =~= b.take(a.len() as int));
        assert(b.take(a.len() as int) =~= a);
    } else {
        assert(s.subrange(0, n) =~= s);
    }
}

impl ComboConfig {
    /// A combo of `actions` without their `No` entries, at most as many as
    /// the capacity (`COMBO_SIZE`, and 16); extra actions are dropped.
    pub fn new(actions: Vec<KeyBinding>, output: KeyBinding, layer: Option<u8>) -> (r: Self)
        ensures
            r.output == output,
            r.layer == layer,
            r.actions@.len() <= COMBO_STATE_BITS,
            forall|i: int| 0 <= i < r.actions@.len() ==> r.actions@[i] != KeyBinding::No,
            exists|cap: nat| #[trigger] kept_actions(actions@, cap) == r.actions@,
    {
        let cap = combo_size();
        Self::with_capacity(actions, output, layer, cap)
    }

    /// A combo of `actions` with room for `cap` keys (and at most 16): the
    /// first of its actions that are not `No`, in order.
    pub fn with_capacity(actions: Vec<KeyBinding>, output: KeyBinding, layer: Option<u8>, cap: usize) -> (r: Self)
        ensures
            r.output == output,
            r.layer == layer,
            r.actions@ == kept_actions(actions@, cap as nat),
            r.actions@.len() <= COMBO_STATE_BITS,
            forall|i: int| 0 <= i < r.actions@.len() ==> r.actions@[i] != KeyBinding::No,
    {
        let cap = if cap < COMBO_STATE_BITS {
            cap
        } else {
            COMBO_STATE_BITS
        };
        let ghost f = non_no(actions@);
        let mut kept: Vec<KeyBinding> = Vec::new();
        let mut i: usize = 0;
        proof {
            lemma_non_no_props(actions@);
            assert(actions@.subrange(0, actions@.len() as int) =~= actions@);
        }
        while i < actions.len()
            invariant_except_break
                i <= actions@.len(),
                kept@ == non_no(actions@.subrange(0, i as int)),
                kept@.len() <= cap,
            invariant
                cap <= COMBO_STATE_BITS,
                f == non_no(actions@),
                actions@.subrange(0, actions@.len() as int) == actions@,
                forall|k: int| 0 <= k < kept@.len() ==> kept@[k] != KeyBinding::No,
                kept@.len() <= cap,
            ensures
                kept@ == (if f.len() <= cap {
                    f
                } else {
                    f.take(cap as int)
                }),
            decreases actions@.len() - i,
        {
            let a = actions[i];
            proof {
                let t = actions@.subrange(0, i as int + 1);
                assert(t.drop_last() =~= actions@.subrange(0, i as int));
                lemma_non_no_prefix(actions@, i as int + 1);
            }
            if !bindings_match(&a, &KeyBinding::No) {
                if kept.len() >= cap {
                    proof {
                        lemma_non_no_prefix(actions@, i as int);
                        lemma_non_no_props(actions@.subrange(0, i as int + 1));
                        assert(kept@ =~= f.take(cap as int));
                    }
                    break;
                }
                kept.push(a);
            }
            i = i + 1;
        }
        ComboConfig { actions: kept, output, layer }
    }

    /// An empty combo: no keys, no output.
    pub fn empty() -> (r: Self)
        ensures
            r.actions@.len() == 0,
            r.output == KeyBinding::No,
            r.layer is None,
    {
        ComboConfig { actions: Vec::new(), output: KeyBinding::No, layer: None }
    }

    /// Number of keys of the combo.
    pub fn size(&self) -> (r: usize)
        ensures
            r == self.actions@.len(),
    {
        self.actions.len()
    }

    /// Position of the key with binding `key_action` in the combo.
    pub fn find_key_action_index(&self, key_action: &KeyBinding) -> (r: Option<usize>)
        ensures
            r matches Some(i) ==> i < self.actions@.len() && index_of(self.actions@, *key_action, 0) == Some(
                i as int,
            ),
            r is None ==> index_of(self.actions@, *key_action, 0) is None,
    {
        let mut i: usize = 0;
        while i < self.actions.len()
            invariant
                i <= self.actions@.len(),
                index_of(self.actions@, *key_action, 0) == index_of(self.actions@, *key_action, i as int),
            decreases self.actions@.len() - i,
        {
            if bindings_match(&self.actions[i], key_action) {
                return Some(i);
            }
            i = i + 1;
        }
        None
    }

    /// Whether the combo has the key with binding `key_action`.
    pub fn contains(&self, key_action: &KeyBinding) -> (r: bool)
        ensures
            r == (index_of(self.actions@, *key_action, 0) is Some),
    {
        self.find_key_action_index(key_action).is_some()
    }
}

/// Number of set bits among the low `n` bits of `s`.
pub open spec fn bits_set(s: u16, n: nat) -> nat
    decreases n,
{
    if n == 0 {
        0
    } else {
        bits_set(s, (n - 1) as nat) + if (s >> ((n - 1) as u16)) & 1 == 1 {
            1nat
        } else {
            0nat
        }
    }
}

/// Runtime combo: configuration and the pressed-keys state.
#[derive(Clone, Debug)]
pub struct Combo {
    pub config: ComboConfig,
    /// Bit `i` is set while key `i` of the combo is pressed.
    pub state: u16,
    /// The combo's output has been fired and its keys are not all released.
    pub is_triggered: bool,
}

/// A combo is well formed when its keys fit in its state.
pub open spec fn combo_wf(c: Combo) -> bool {
    c.config.actions@.len() <= COMBO_STATE_BITS
}

/// All keys of the combo are pressed.
pub open spec fn all_pressed(c: Combo) -> bool {
    c.config.actions@.len() > 0 && bits_set(c.state, 16) == c.config.actions@.len()
}

/// The combo has the key with binding `b`.
pub open spec fn has_key(c: Combo, b: KeyBinding) -> bool {
    index_of(c.config.actions@, b, 0) is Some
}

/// State, trigger flag and result of `Combo::update`.
pub open spec fn spec_update(s: Combo, b: KeyBinding, pressed: bool, active_layer: u8) -> (u16, bool, bool) {
    let ignored = !pressed || s.config.actions@.len() == 0 || s.is_triggered || (s.config.layer matches Some(
        l,
    ) && l != active_layer);
    if ignored {
        (s.state, s.is_triggered, false)
    } else {
        match index_of(s.config.actions@, b, 0) {
            Some(i) => ((s.state | ((1u16 << (i as u16)) as u16)) as u16, s.is_triggered, true),
            None => if all_pressed(s) {
                (s.state, s.is_triggered, false)
            } else {
                (0u16, false, false)
            },
        }
    }
}

/// State, trigger flag and result of `Combo::update_released`.
pub open spec fn spec_update_released(s: Combo, b: KeyBinding) -> (u16, bool, bool) {
    let state = match index_of(s.config.actions@, b, 0) {
        Some(i) => (s.state & !((1u16 << (i as u16)) as u16)) as u16,
        None => s.state,
    };
    if state == 0 {
        (0u16, false, s.is_triggered)
    } else {
        (state, s.is_triggered, false)
    }
}

impl Combo {
    /// A combo with this configuration, no key pressed.
    pub fn new(config: ComboConfig) -> (r: Self)
        ensures
            r.config.actions@ == config.actions@,
            r.config.output == config.output,
            r.config.layer == config.layer,
            r.state == 0,
            !r.is_triggered,
    {
        Combo { config, state: 0, is_triggered: false }
    }

    /// A combo without keys.
    pub fn empty() -> (r: Self)
        ensures
            r.config.actions@.len() == 0,
            r.config.output == KeyBinding::No,
            r.config.layer is None,
            r.state == 0,
            !r.is_triggered,
    {
        Combo::new(ComboConfig::empty())
    }

    /// Number of the combo's keys pressed.
    pub fn keys_pressed(&self) -> (r: u32)
        ensures
            r == bits_set(self.state, 16),
    {
        let mut count: u32 = 0;
        let mut i: u16 = 0;
        while i < 16
            invariant
                i <= 16,
                count == bits_set(self.state, i as nat),
                count <= i,
            decreases 16 - i,
        {
            if (self.state >> i) & 1 == 1 {
                count = count + 1;
            }
            i = i + 1;
        }
        count
    }

    /// Number of keys of the combo.
    pub fn size(&self) -> (r: usize)
        ensures
            r == self.config.actions@.len(),
    {
        self.config.size()
    }

    /// All keys of the combo are pressed (the combo may not have fired yet).
    pub fn is_all_pressed(&self) -> (r: bool)
        ensures
            r == (self.config.actions@.len() > 0 && bits_set(self.state, 16) == self.config.actions@.len()),
    {
        let cnt = self.config.size();
        cnt > 0 && self.keys_pressed() as usize == cnt
    }

    /// Whether the combo's output has been fired.
    pub fn is_triggered(&self) -> (r: bool)
        ensures
            r == self.is_triggered,
    {
        self.is_triggered
    }

    /// Forget the pressed keys and the trigger.
    pub fn reset(&mut self)
        ensures
            final(self).state == 0,
            !final(self).is_triggered,
            final(self).config.actions@ == old(self).config.actions@,
            final(self).config.output == old(self).config.output,
            final(self).config.layer == old(self).config.layer,
    {
        self.state = 0;
        self.is_triggered = false;
    }

    /// Updates the combo on a key press with binding `key_action` while
    /// `active_layer` is active. Returns whether the key is one of the
    /// combo's: its bit is then set; a press of another key interrupts a
    /// combo that is not complete.
    pub fn update(&mut self, key_action: &KeyBinding, key_event: KeyboardEvent, active_layer: u8) -> (r: bool)
        requires
            combo_wf(*old(self)),
        ensures
            combo_wf(*final(self)),
            final(self).config.actions@ == old(self).config.actions@,
            final(self).config.output == old(self).config.output,
            final(self).config.layer == old(self).config.layer,
            (final(self).state, final(self).is_triggered, r) == spec_update(*old(self), *key_action, key_event.pressed, active_layer),
    {
        if !key_event.pressed || self.config.size() == 0 || self.is_triggered {
            return false;
        }
        if let Some(layer) = self.config.layer {
            if layer != active_layer {
                return false;
            }
        }
        match self.config.find_key_action_index(key_action) {
            Some(i) => {
                self.state = self.state | (1u16 << (i as u16));
                true
            },
            None => {
                if !self.is_all_pressed() {
                    self.reset();
                }
                false
            },
        }
    }

    /// Re-asserts a key of a triggered combo (a key released and pressed
    /// again while the others are held): its bit is set again. Returns
    /// whether the press belongs to the triggered combo and must be
    /// swallowed.
    pub fn reassert_if_triggered(&mut self, key_action: &KeyBinding) -> (r: bool)
        requires
            combo_wf(*old(self)),
        ensures
            combo_wf(*final(self)),
            final(self).config.actions@ == old(self).config.actions@,
            final(self).config.output == old(self).config.output,
            final(self).config.layer == old(self).config.layer,
            final(self).is_triggered == old(self).is_triggered,
            r == (old(self).is_triggered && index_of(old(self).config.actions@, *key_action, 0) is Some),
            r ==> final(self).state == old(self).state | ((1u16 << (index_of(
                old(self).config.actions@,
                *key_action,
                0,
            )->0 as u16)) as u16),
            !r ==> final(self).state == old(self).state,
    {
        if !self.is_triggered {
            return false;
        }
        if let Some(i) = self.config.find_key_action_index(key_action) {
            self.state = self.state | (1u16 << (i as u16));
            return true;
        }
        false
    }

    /// Updates the combo on a key release. Returns true when the combo was
    /// triggered and all its keys are now released; when all keys are
    /// released the combo is reset either way.
    pub fn update_released(&mut self, key_action: &KeyBinding) -> (r: bool)
        requires
            combo_wf(*old(self)),
        ensures
            combo_wf(*final(self)),
            final(self).config.actions@ == old(self).config.actions@,
            final(self).config.output == old(self).config.output,
            final(self).config.layer == old(self).config.layer,
            (final(self).state, final(self).is_triggered, r) == spec_update_released(*old(self), *key_action),
    {
        if let Some(i) = self.config.find_key_action_index(key_action) {
            self.state = self.state & !(1u16 << (i as u16));
        }
        if self.state == 0 {
            if self.is_triggered {
                self.reset();
                return true;
            }
            self.reset();
        }
        false
    }

    /// Marks the combo as triggered when all its keys are pressed, and
    /// returns its output.
    pub fn trigger(&mut self) -> (r: KeyBinding)
        ensures
            r == old(self).config.output,
            final(self).config.actions@ == old(self).config.actions@,
            final(self).config.output == old(self).config.output,
            final(self).config.layer == old(self).config.layer,
            final(self).state == old(self).state,
            final(self).is_triggered == (old(self).is_triggered || (old(self).config.actions@.len() > 0
                && bits_set(old(self).state, 16) == old(self).config.actions@.len())),
    {
        if self.is_triggered() {
            return self.config.output;
        }
        if self.is_all_pressed() {
            self.is_triggered = true;
        }
        self.config.output
    }
}

/// `b` is `a` with another state and trigger flag.
pub open spec fn same_config(a: Combo, b: Combo) -> bool {
    &&& a.config.actions@ == b.config.actions@
    &&& a.config.output == b.config.output
    &&& a.config.layer == b.config.layer
}

/// All combos are well formed.
pub open spec fn all_wf(cs: Seq<Combo>) -> bool {
    forall|i: int| 0 <= i < cs.len() ==> combo_wf(#[trigger] cs[i])
}

/// Resets the combos that have all their keys pressed, are not triggered
/// and have the key `key_action` (the partial combos a trigger overrides).
pub fn reset_combo(combos: &mut Vec<Combo>, key_action: &KeyBinding)
    requires
        all_wf(old(combos)@),
    ensures
        all_wf(final(combos)@),
        final(combos)@.len() == old(combos)@.len(),
        forall|i: int|
            0 <= i < old(combos)@.len() ==> {
                let a = #[trigger] old(combos)@[i];
                let b = final(combos)@[i];
                &&& same_config(a, b)
                &&& if all_pressed(a) && !a.is_triggered && has_key(a, *key_action) {
                    b.state == 0 && !b.is_triggered
                } else {
                    b.state == a.state && b.is_triggered == a.is_triggered
                }
            },
{
    let n = combos.len();
    let mut i: usize = 0;
    while i < n
        invariant
            n == combos@.len(),
            n == old(combos)@.len(),
            i <= n,
            all_wf(combos@),
            forall|k: int| i <= k < n ==> #[trigger] combos@[k] == old(combos)@[k],
            forall|k: int|
                0 <= k < i ==> {
                    let a = #[trigger] old(combos)@[k];
                    let b = combos@[k];
                    &&& same_config(a, b)
                    &&& if all_pressed(a) && !a.is_triggered && has_key(a, *key_action) {
                        b.state == 0 && !b.is_triggered
                    } else {
                        b.state == a.state && b.is_triggered == a.is_triggered
                    }
                },
        decreases n - i,
    {
        let mut c = combos.remove(i);
        if c.is_all_pressed() && !c.is_triggered() && c.config.contains(key_action) {
            c.reset();
        }
        combos.insert(i, c);
        i = i + 1;
    }
}

/// Resets every combo that is not triggered.
pub fn reset_untriggered(combos: &mut Vec<Combo>)
    requires
        all_wf(old(combos)@),
    ensures
        all_wf(final(combos)@),
        final(combos)@.len() == old(combos)@.len(),
        forall|i: int|
            0 <= i < old(combos)@.len() ==> {
                let a = #[trigger] old(combos)@[i];
                let b = final(combos)@[i];
                &&& same_config(a, b)
                &&& b.is_triggered == a.is_triggered
                &&& b.state == (if a.is_triggered {
                    a.state
                } else {
                    0
                })
            },
{
    let n = combos.len();
    let mut i: usize = 0;
    while i < n
        invariant
            n == combos@.len(),
            n == old(combos)@.len(),
            i <= n,
            all_wf(combos@),
            forall|k: int| i <= k < n ==> #[trigger] combos@[k] == old(combos)@[k],
            forall|k: int|
                0 <= k < i ==> {
                    let a = #[trigger] old(combos)@[k];
                    let b = combos@[k];
                    &&& same_config(a, b)
                    &&& b.is_triggered == a.is_triggered
                    &&& b.state == (if a.is_triggered {
                        a.state
                    } else {
                        0
                    })
                },
        decreases n - i,
    {
        let mut c = combos.remove(i);
        if !c.is_triggered() {
            c.reset();
        }
        combos.insert(i, c);
        i = i + 1;
    }
}

/// The largest size among the first `n` combos that a key press updates
/// (0 when none does).
pub open spec fn max_updated(cs: Seq<Combo>, b: KeyBinding, pressed: bool, layer: u8, n: int) -> int
    decreases n,
{
    if n <= 0 {
        0
    } else {
        let prev = max_updated(cs, b, pressed, layer, n - 1);
        let here = if spec_update(cs[n - 1], b, pressed, layer).2 {
            cs[n - 1].config.actions@.len() as int
        } else {
            0
        };
        if here > prev {
            here
        } else {
            prev
        }
    }
}

/// Updates every combo with a key event; returns the largest size of the
/// combos the key belongs to (0 when it belongs to none).
pub fn update_combos(combos: &mut Vec<Combo>, key_action: &KeyBinding, event: KeyboardEvent, active_layer: u8) -> (r: usize)
    requires
        all_wf(old(combos)@),
    ensures
        all_wf(final(combos)@),
        final(combos)@.len() == old(combos)@.len(),
        r == max_updated(old(combos)@, *key_action, event.pressed, active_layer, old(combos)@.len() as int),
        forall|i: int|
            0 <= i < old(combos)@.len() ==> {
                let a = #[trigger] old(combos)@[i];
                let b = final(combos)@[i];
                &&& same_config(a, b)
                &&& (b.state, b.is_triggered) == (
                    spec_update(a, *key_action, event.pressed, active_layer).0,
                    spec_update(a, *key_action, event.pressed, active_layer).1,
                )
            },
{
    let n = combos.len();
    let mut best: usize = 0;
    let mut i: usize = 0;
    while i < n
        invariant
            n == combos@.len(),
            n == old(combos)@.len(),
            i <= n,
            all_wf(combos@),
            best == max_updated(old(combos)@, *key_action, event.pressed, active_layer, i as int),
            forall|k: int| i <= k < n ==> #[trigger] combos@[k] == old(combos)@[k],
            forall|k: int|
                0 <= k < i ==> {
                    let a = #[trigger] old(combos)@[k];
                    let b = combos@[k];
                    &&& same_config(a, b)
                    &&& (b.state, b.is_triggered) == (
                        spec_update(a, *key_action, event.pressed, active_layer).0,
                        spec_update(a, *key_action, event.pressed, active_layer).1,
                    )
                },
        decreases n - i,
    {
        let mut c = combos.remove(i);
        let size = c.size();
        if c.update(key_action, event, active_layer) {
            if size > best {
                best = size;
            }
        }
        combos.insert(i, c);
        i = i + 1;
    }
    best
}

/// The first of the first `n` combos that is complete, not triggered and
/// of size `size`.
pub open spec fn first_ready(cs: Seq<Combo>, size: int, n: int) -> Option<int>
    decreases n,
{
    if n <= 0 {
        None
    } else {
        match first_ready(cs, size, n - 1) {
            Some(i) => Some(i),
            None => if all_pressed(cs[n - 1]) && !cs[n - 1].is_triggered && cs[n - 1].config.actions@.len()
                == size {
                Some(n - 1)
            } else {
                None
            },
        }
    }
}

/// Triggers the first complete, untriggered combo of size `max_size` and
/// returns its output.
pub fn find_ready_combo(combos: &mut Vec<Combo>, max_size: usize) -> (r: Option<KeyBinding>)
    requires
        all_wf(old(combos)@),
    ensures
        all_wf(final(combos)@),
        final(combos)@.len() == old(combos)@.len(),
        match first_ready(old(combos)@, max_size as int, old(combos)@.len() as int) {
            Some(i) => {
                &&& r == Some(old(combos)@[i].config.output)
                &&& final(combos)@[i].is_triggered
                &&& same_config(old(combos)@[i], final(combos)@[i])
                &&& final(combos)@[i].state == old(combos)@[i].state
                &&& forall|k: int| 0 <= k < old(combos)@.len() && k != i ==> final(combos)@[k] == old(combos)@[k]
            },
            None => r is None && final(combos)@ == old(combos)@,
        },
{
    let n = combos.len();
    let mut i: usize = 0;
    while i < n
        invariant
            n == combos@.len(),
            combos@ == old(combos)@,
            all_wf(old(combos)@),
            i <= n,
            first_ready(old(combos)@, max_size as int, i as int) is None,
        decreases n - i,
    {
        let ready = combos[i].is_all_pressed() && !combos[i].is_triggered() && combos[i].size() == max_size;
        if ready {
            let mut c = combos.remove(i);
            let out = c.trigger();
            combos.insert(i, c);
            proof {
                assert(combos@ =~= old(combos)@.update(i as int, c));
                assert forall|k: int| 0 <= k < combos@.len() implies combo_wf(#[trigger] combos@[k]) by {
                    if k != i {
                        assert(combos@[k] == old(combos)@[k]);
                    }
                }
                assert(first_ready(old(combos)@, max_size as int, i + 1) == Some(i as int));
                lemma_first_ready_stays(old(combos)@, max_size as int, i + 1, n as int);
            }
            return Some(out);
        }
        i = i + 1;
    }
    None
}

pub proof fn lemma_first_ready_stays(cs: Seq<Combo>, size: int, m: int, n: int)
    requires
        0 <= m <= n,
        first_ready(cs, size, m) is Some,
    ensures
        first_ready(cs, size, n) == first_ready(cs, size, m),
    decreases n - m,
{
    if m < n {
        lemma_first_ready_stays(cs, size, m, n - 1);
    }
}

/// What releasing a key does to the first `n` combos: the output of the
/// first one fully released from triggered, and whether a triggered combo
/// with the key was released.
pub open spec fn release_outcome(cs: Seq<Combo>, b: KeyBinding, n: int) -> (Option<KeyBinding>, bool)
    decreases n,
{
    if n <= 0 {
        (None, false)
    } else {
        let (out, releasing) = release_outcome(cs, b, n - 1);
        let c = cs[n - 1];
        if has_key(c, b) {
            (
                if out is None && spec_update_released(c, b).2 {
                    Some(c.config.output)
                } else {
                    out
                },
                releasing || c.is_triggered,
            )
        } else {
            (out, releasing)
        }
    }
}

/// Releases a key in every combo that has it. Returns the output of the
/// first combo fully released from triggered, and whether a triggered
/// combo was being released.
pub fn release_combos(combos: &mut Vec<Combo>, key_action: &KeyBinding) -> (r: (Option<KeyBinding>, bool))
    requires
        all_wf(old(combos)@),
    ensures
        all_wf(final(combos)@),
        final(combos)@.len() == old(combos)@.len(),
        r == release_outcome(old(combos)@, *key_action, old(combos)@.len() as int),
        forall|i: int|
            0 <= i < old(combos)@.len() ==> {
                let a = #[trigger] old(combos)@[i];
                let b = final(combos)@[i];
                &&& same_config(a, b)
                &&& has_key(a, *key_action) ==> (b.state, b.is_triggered) == (
                    spec_update_released(a, *key_action).0,
                    spec_update_released(a, *key_action).1,
                )
                &&& !has_key(a, *key_action) ==> b == a
            },
{
    let n = combos.len();
    let mut out: Option<KeyBinding> = None;
    let mut releasing = false;
    let mut i: usize = 0;
    while i < n
        invariant
            n == combos@.len(),
            n == old(combos)@.len(),
            i <= n,
            all_wf(combos@),
            (out, releasing) == release_outcome(old(combos)@, *key_action, i as int),
            forall|k: int| i <= k < n ==> #[trigger] combos@[k] == old(combos)@[k],
            forall|k: int|
                0 <= k < i ==> {
                    let a = #[trigger] old(combos)@[k];
                    let b = combos@[k];
                    &&& same_config(a, b)
                    &&& has_key(a, *key_action) ==> (b.state, b.is_triggered) == (
                        spec_update_released(a, *key_action).0,
                        spec_update_released(a, *key_action).1,
                    )
                    &&& !has_key(a, *key_action) ==> b == a
                },
        decreases n - i,
    {
        if combos[i].config.contains(key_action) {
            let mut c = combos.remove(i);
            releasing = releasing || c.is_triggered();
            let output = c.config.output;
            if c.update_released(key_action) {
                if out.is_none() {
                    out = Some(output);
                }
            }
            combos.insert(i, c);
        }
        i = i + 1;
    }
    (out, releasing)
}

/// Combos whose trigger was delayed and that an event settles: complete,
/// untriggered, and, on a release, having the released key.
pub open spec fn delayed(c: Combo, b: KeyBinding, pressed: bool) -> bool {
    all_pressed(c) && !c.is_triggered && (pressed || has_key(c, b))
}

/// The last of the largest delayed combos among the first `n`.
pub open spec fn largest_delayed(cs: Seq<Combo>, b: KeyBinding, pressed: bool, n: int) -> Option<int>
    decreases n,
{
    if n <= 0 {
        None
    } else {
        let prev = largest_delayed(cs, b, pressed, n - 1);
        if delayed(cs[n - 1], b, pressed) && (prev matches Some(p) ==> cs[n - 1].config.actions@.len()
            >= cs[p].config.actions@.len()) {
            Some(n - 1)
        } else {
            prev
        }
    }
}

pub proof fn lemma_largest_delayed_ok(cs: Seq<Combo>, b: KeyBinding, pressed: bool, n: int)
    requires
        0 <= n <= cs.len(),
    ensures
        largest_delayed(cs, b, pressed, n) matches Some(i) ==> 0 <= i < n && delayed(cs[i], b, pressed),
    decreases n,
{
    if n > 0 {
        lemma_largest_delayed_ok(cs, b, pressed, n - 1);
    }
}

fn copy_bindings(v: &Vec<KeyBinding>) -> (r: Vec<KeyBinding>)
    ensures
        r@ == v@,
{
    let mut out: Vec<KeyBinding> = Vec::new();
    let mut i: usize = 0;
    while i < v.len()
        invariant
            i <= v@.len(),
            out@ == v@.subrange(0, i as int),
        decreases v@.len() - i,
    {
        out.push(v[i]);
        i = i + 1;
    }
    assert(v@.subrange(0, v@.len() as int) =~= v@);
    out
}

/// Triggers the largest delayed combo (the last of them on a tie). Returns
/// its output and its keys.
pub fn trigger_delayed_combo(combos: &mut Vec<Combo>, key_action: &KeyBinding, pressed: bool) -> (r: Option<
    (KeyBinding, Vec<KeyBinding>),
>)
    requires
        all_wf(old(combos)@),
    ensures
        all_wf(final(combos)@),
        final(combos)@.len() == old(combos)@.len(),
        match largest_delayed(old(combos)@, *key_action, pressed, old(combos)@.len() as int) {
            Some(i) => {
                &&& r matches Some((out, keys)) && out == old(combos)@[i].config.output && keys@
                    == old(combos)@[i].config.actions@
                &&& final(combos)@[i].is_triggered
                &&& same_config(old(combos)@[i], final(combos)@[i])
                &&& final(combos)@[i].state == old(combos)@[i].state
                &&& forall|k: int| 0 <= k < old(combos)@.len() && k != i ==> final(combos)@[k] == old(combos)@[k]
            },
            None => r is None && final(combos)@ == old(combos)@,
        },
{
    let n = combos.len();
    let mut best: Option<usize> = None;
    let mut i: usize = 0;
    while i < n
        invariant
            n == combos@.len(),
            combos@ == old(combos)@,
            i <= n,
            best matches Some(b) ==> b < i,
            (match best {
                Some(b) => Some(b as int),
                None => None,
            }) == largest_delayed(old(combos)@, *key_action, pressed, i as int),
        decreases n - i,
    {
        let c = &combos[i];
        let is_delayed = c.is_all_pressed() && !c.is_triggered() && (pressed || c.config.contains(key_action));
        if is_delayed {
            let bigger = match best {
                Some(b) => combos[i].size() >= combos[b].size(),
                None => true,
            };
            if bigger {
                best = Some(i);
            }
        }
        i = i + 1;
    }
    proof {
        lemma_largest_delayed_ok(old(combos)@, *key_action, pressed, n as int);
    }
    match best {
        Some(b) => {
            let mut c = combos.remove(b);
            let out = c.trigger();
            let keys = copy_bindings(&c.config.actions);
            combos.insert(b, c);
            proof {
                assert(combos@ =~= old(combos)@.update(b as int, c));
                assert forall|k: int| 0 <= k < combos@.len() implies combo_wf(#[trigger] combos@[k]) by {
                    if k != b {
                        assert(combos@[k] == old(combos)@[k]);
                    }
                }
            }
            Some((out, keys))
        },
        None => None,
    }
}

} // verus!
