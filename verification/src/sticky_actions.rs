//! The keyboard's side of sticky keys: what a press or release of a sticky
//! modifier, layer or tap key, a layer event or a passed deadline does to
//! the latches, and what the keyboard has to do about it (send a report,
//! switch a layer, process a key), in order.

use vstd::prelude::*;

use crate::action::BoundAction;
use crate::event::KeyboardEvent;
use crate::sticky_key::{
    chord_start, exact_slot, latch_wf, modifier_slot, policy_ok, spec_deadline_disposition, spec_physical_release,
    spec_press_state, state_wf, with_producer, DeadlineDisposition, Latch, LatchPhase, ModifierProducer,
    PhysicalRelease, StickyKeyPolicy, StickyKeyState, StickyLayerEffect, StickyModifierEffect, TapKeyEffect,
    DOUBLE_TAP, MAX_TIME_MS,
};

verus! {

/// What the keyboard does after a sticky key step.
#[derive(Clone, Copy, Debug, PartialEq, Eq, Structural)]
pub enum StickyOutput {
    /// Send a keyboard report with the resolved modifiers, for a press or
    /// a release.
    Report(bool),
    ActivateLayer(u8),
    /// Deactivate the layer if it is active.
    DeactivateLayer(u8),
    /// Process a HID key for the event.
    Key(u8, KeyboardEvent),
}

/// Canceled producers after remembering those of `ps` from `i` on.
pub open spec fn remember_all(c: Seq<Option<ModifierProducer>>, ps: Seq<Option<ModifierProducer>>, i: int) -> Seq<
    Option<ModifierProducer>,
>
    decreases ps.len() - i,
{
    if i < 0 || i >= ps.len() {
        c
    } else {
        remember_all(
            match ps[i] {
                Some(p) => with_producer(c, p),
                None => c,
            },
            ps,
            i + 1,
        )
    }
}

/// Canceled producers after the sticky modifier is released: its
/// producers' late releases are to be swallowed.
pub open spec fn canceled_after_release(c: Seq<Option<ModifierProducer>>, m: Option<Latch<StickyModifierEffect>>) -> Seq<
    Option<ModifierProducer>,
> {
    match m {
        Some(l) => remember_all(c, l.value.producers@, 0),
        None => c,
    }
}

/// The outputs of releasing the sticky modifier: a release report when the
/// host saw it.
pub open spec fn modifier_release_outputs(m: Option<Latch<StickyModifierEffect>>) -> Seq<StickyOutput> {
    match m {
        Some(l) => if l.value.host_visible {
            seq![StickyOutput::Report(false)]
        } else {
            seq![]
        },
        None => seq![],
    }
}

/// The outputs of releasing the sticky layer.
pub open spec fn layer_release_outputs(l: Option<Latch<StickyLayerEffect>>) -> Seq<StickyOutput> {
    match l {
        Some(l) => seq![StickyOutput::DeactivateLayer(l.value.layer)],
        None => seq![],
    }
}

/// The outputs of releasing the sticky tap key: the key's release while
/// its key is down, else a release report.
pub open spec fn tap_key_release_outputs(t: Option<Latch<TapKeyEffect>>) -> Seq<StickyOutput> {
    match t {
        Some(l) => if l.phase == LatchPhase::Pressed || l.phase == LatchPhase::PressDeadlineInactive {
            seq![StickyOutput::Key(l.value.key, KeyboardEvent { pos: l.source, pressed: false })]
        } else {
            seq![StickyOutput::Report(false)]
        },
        None => seq![],
    }
}

/// Two latches alike but for their values.
pub open spec fn same_lifecycle<T, U>(a: Latch<T>, b: Latch<U>) -> bool {
    &&& a.source == b.source
    &&& a.policy == b.policy
    &&& a.phase == b.phase
    &&& a.repeat_count == b.repeat_count
    &&& a.timing_marker == b.timing_marker
    &&& a.buffered_claim == b.buffered_claim
}

impl StickyKeyState {
    /// Releases the sticky modifier; the late releases of its producers
    /// will be swallowed.
    pub fn release_sticky_modifier(&mut self) -> (r: Vec<StickyOutput>)
        requires
            state_wf(*old(self)),
        ensures
            state_wf(*final(self)),
            final(self).modifier is None,
            final(self).layer == old(self).layer,
            final(self).tap_key == old(self).tap_key,
            final(self).canceled_modifier_releases@ == canceled_after_release(
                old(self).canceled_modifier_releases@,
                old(self).modifier,
            ),
            r@ == modifier_release_outputs(old(self).modifier),
    {
        let mut out: Vec<StickyOutput> = Vec::new();
        if let Some(l) = self.modifier {
            self.modifier = None;
            let mut i: usize = 0;
            while i < 8
                invariant
                    i <= 8,
                    l.value.producers@.len() == 8,
                    old(self).modifier == Some(l),
                    self.modifier is None,
                    self.layer == old(self).layer,
                    self.tap_key == old(self).tap_key,
                    remember_all(self.canceled_modifier_releases@, l.value.producers@, i as int) == remember_all(
                        old(self).canceled_modifier_releases@,
                        l.value.producers@,
                        0,
                    ),
                decreases 8 - i,
            {
                if let Some(p) = l.value.producers[i] {
                    self.remember_canceled_modifier_release(p);
                }
                i = i + 1;
            }
            if l.value.host_visible {
                out.push(StickyOutput::Report(false));
            }
        }
        proof {
            assert(out@ =~= modifier_release_outputs(old(self).modifier));
        }
        out
    }

    /// Releases the sticky layer.
    pub fn release_sticky_layer(&mut self) -> (r: Vec<StickyOutput>)
        requires
            state_wf(*old(self)),
        ensures
            state_wf(*final(self)),
            final(self).layer is None,
            final(self).modifier == old(self).modifier,
            final(self).tap_key == old(self).tap_key,
            final(self).canceled_modifier_releases == old(self).canceled_modifier_releases,
            r@ == layer_release_outputs(old(self).layer),
    {
        let mut out: Vec<StickyOutput> = Vec::new();
        if let Some(l) = self.layer {
            self.layer = None;
            out.push(StickyOutput::DeactivateLayer(l.value.layer));
        }
        proof {
            assert(out@ =~= layer_release_outputs(old(self).layer));
        }
        out
    }

    /// Releases the sticky tap key.
    pub fn release_tap_key(&mut self) -> (r: Vec<StickyOutput>)
        requires
            state_wf(*old(self)),
        ensures
            state_wf(*final(self)),
            final(self).tap_key is None,
            final(self).modifier == old(self).modifier,
            final(self).layer == old(self).layer,
            final(self).canceled_modifier_releases == old(self).canceled_modifier_releases,
            r@ == tap_key_release_outputs(old(self).tap_key),
    {
        let mut out: Vec<StickyOutput> = Vec::new();
        if let Some(l) = self.tap_key {
            self.tap_key = None;
            match l.phase {
                LatchPhase::Pressed | LatchPhase::PressDeadlineInactive => {
                    out.push(StickyOutput::Key(l.value.key, KeyboardEvent { pos: l.source, pressed: false }));
                },
                _ => {
                    out.push(StickyOutput::Report(false));
                },
            }
        }
        proof {
            assert(out@ =~= tap_key_release_outputs(old(self).tap_key));
        }
        out
    }
}

/// A new latch of a key pressed at `now`.
pub open spec fn fresh_latch<T>(value: T, source: crate::event::KeyboardEventPos, policy: StickyKeyPolicy, now: u64) -> Latch<T> {
    Latch {
        value,
        source,
        policy,
        phase: spec_press_state(policy, now, now).0,
        timing_marker: spec_press_state(policy, now, now).1,
        repeat_count: 1,
        buffered_claim: false,
    }
}

/// A latch whose key is pressed again at `now`.
pub open spec fn pressed_again<T>(l: Latch<T>, source: crate::event::KeyboardEventPos, policy: StickyKeyPolicy, now: u64) -> Latch<T> {
    Latch {
        source,
        policy,
        phase: spec_press_state(policy, now, now).0,
        timing_marker: spec_press_state(policy, now, now).1,
        buffered_claim: false,
        ..l
    }
}

/// Whether a press at `source` is a double tap of a latch under `policy`.
pub open spec fn double_tap<T>(l: Latch<T>, source: crate::event::KeyboardEventPos, policy: StickyKeyPolicy) -> bool {
    l.phase == LatchPhase::Latched && l.source == source && policy.release_mode & DOUBLE_TAP != 0
}

impl StickyKeyState {
    /// A sticky layer key for `layer` (of `num_layers`) pressed or
    /// released at `now`. A press releases the tap key; an invalid layer
    /// is only handed to the keymap; a double tap releases the sticky
    /// layer; the same layer is pressed again; another sticky layer is
    /// released for the new one. A release of the key releases the layer
    /// when the latch says so.
    pub fn process_sticky_layer(
        &mut self,
        layer: u8,
        policy: StickyKeyPolicy,
        num_layers: usize,
        event: KeyboardEvent,
        now: u64,
    ) -> (r: Vec<StickyOutput>)
        requires
            state_wf(*old(self)),
            policy_ok(policy),
            now <= MAX_TIME_MS,
        ensures
            state_wf(*final(self)),
            final(self).modifier == old(self).modifier,
            final(self).canceled_modifier_releases == old(self).canceled_modifier_releases,
            event.pressed ==> ({
                let t_out = tap_key_release_outputs(old(self).tap_key);
                &&& final(self).tap_key is None
                &&& if layer >= num_layers {
                    final(self).layer == old(self).layer && r@ == t_out.push(StickyOutput::ActivateLayer(layer))
                } else {
                    match old(self).layer {
                        Some(l) => if double_tap(l, event.pos, policy) {
                            final(self).layer is None && r@ == t_out.push(StickyOutput::DeactivateLayer(l.value.layer))
                        } else if l.value.layer == layer {
                            final(self).layer == Some(pressed_again(l, event.pos, policy, now)) && r@ == t_out.push(
                                StickyOutput::ActivateLayer(layer),
                            )
                        } else {
                            final(self).layer == Some(
                                fresh_latch(StickyLayerEffect { layer }, event.pos, policy, now),
                            ) && r@ == t_out.push(StickyOutput::DeactivateLayer(l.value.layer)).push(
                                StickyOutput::ActivateLayer(layer),
                            )
                        },
                        None => final(self).layer == Some(fresh_latch(StickyLayerEffect { layer }, event.pos, policy, now))
                            && r@ == t_out.push(StickyOutput::ActivateLayer(layer)),
                    }
                }
            }),
            !event.pressed ==> final(self).tap_key == old(self).tap_key && match old(self).layer {
                Some(l) => {
                    let (l2, res) = spec_physical_release(l, Some(event.pos), now);
                    if res == PhysicalRelease::Released {
                        final(self).layer is None && r@ == seq![StickyOutput::DeactivateLayer(l.value.layer)]
                    } else {
                        final(self).layer == Some(l2) && r@ == Seq::<StickyOutput>::empty()
                    }
                },
                None => final(self).layer is None && r@ == Seq::<StickyOutput>::empty(),
            },
    {
        if event.pressed {
            let mut out = self.release_tap_key();
            if layer as usize >= num_layers {
                out.push(StickyOutput::ActivateLayer(layer));
                return out;
            }
            if let Some(l) = self.layer {
                if l.is_double_tap(event.pos, policy) {
                    let mut more = self.release_sticky_layer();
                    out.append(&mut more);
                    return out;
                }
                if l.value.layer == layer {
                    out.push(StickyOutput::ActivateLayer(layer));
                    let mut l2 = l;
                    l2.begin_press(event.pos, policy, now);
                    self.layer = Some(l2);
                    return out;
                }
                out.push(StickyOutput::DeactivateLayer(l.value.layer));
            }
            out.push(StickyOutput::ActivateLayer(layer));
            self.layer = Some(Latch::new(StickyLayerEffect { layer }, event.pos, policy, now));
            out
        } else {
            let mut out: Vec<StickyOutput> = Vec::new();
            if let Some(l) = self.layer {
                let mut l2 = l;
                let res = l2.on_physical_release(Some(event.pos), now);
                if res == PhysicalRelease::Released {
                    self.layer = None;
                    out.push(StickyOutput::DeactivateLayer(l2.value.layer));
                } else {
                    self.layer = Some(l2);
                }
            }
            out
        }
    }

    /// A sticky tap key (`key` with `modifiers`) pressed or released at
    /// `now`. A press releases the sticky modifier and layer; a double tap
    /// of the same tap key releases it; another tap key is released first.
    /// A repeat beyond the policy's maximum releases the tap key; else the
    /// key is pressed. The release of a tap key whose key is down releases
    /// the key.
    pub fn process_sticky_tap_key(
        &mut self,
        key: u8,
        modifiers: u8,
        policy: StickyKeyPolicy,
        event: KeyboardEvent,
        now: u64,
    ) -> (r: Vec<StickyOutput>)
        requires
            state_wf(*old(self)),
            policy_ok(policy),
            now <= MAX_TIME_MS,
        ensures
            state_wf(*final(self)),
            event.pressed ==> ({
                let effect = TapKeyEffect { key, modifiers };
                let head = modifier_release_outputs(old(self).modifier) + layer_release_outputs(old(self).layer);
                let same = old(self).tap_key matches Some(l) && l.source == event.pos && l.value == effect;
                &&& final(self).modifier is None
                &&& final(self).layer is None
                &&& final(self).canceled_modifier_releases@ == canceled_after_release(
                    old(self).canceled_modifier_releases@,
                    old(self).modifier,
                )
                &&& if same {
                    let l = old(self).tap_key->0;
                    let count: u16 = if l.repeat_count == 0xFFFF {
                        0xFFFF
                    } else {
                        (l.repeat_count + 1) as u16
                    };
                    if double_tap(l, event.pos, policy) {
                        final(self).tap_key is None && r@ == head + tap_key_release_outputs(old(self).tap_key)
                    } else if policy.max_repeat > 0 && count > policy.max_repeat {
                        final(self).tap_key is None && r@ == head + tap_key_release_outputs(
                            Some(Latch { repeat_count: count, ..l }),
                        )
                    } else {
                        final(self).tap_key == Some(
                            pressed_again(Latch { repeat_count: count, ..l }, event.pos, policy, now),
                        ) && r@ == head.push(StickyOutput::Key(key, event))
                    }
                } else {
                    final(self).tap_key == Some(fresh_latch(effect, event.pos, policy, now)) && r@ == (head
                        + tap_key_release_outputs(old(self).tap_key)).push(StickyOutput::Key(key, event))
                }
            }),
            !event.pressed ==> ({
                &&& final(self).modifier == old(self).modifier
                &&& final(self).layer == old(self).layer
                &&& final(self).canceled_modifier_releases == old(self).canceled_modifier_releases
                &&& match old(self).tap_key {
                    Some(l) => if l.source == event.pos && (l.phase == LatchPhase::Pressed || l.phase
                        == LatchPhase::PressDeadlineInactive) {
                        final(self).tap_key == Some(spec_physical_release(l, Some(event.pos), now).0) && r@ == seq![
                            StickyOutput::Key(key, event),
                        ]
                    } else {
                        final(self).tap_key == old(self).tap_key && r@ == Seq::<StickyOutput>::empty()
                    },
                    None => final(self).tap_key is None && r@ == Seq::<StickyOutput>::empty(),
                }
            }),
    {
        if event.pressed {
            let mut out = self.release_sticky_modifier();
            let mut more = self.release_sticky_layer();
            out.append(&mut more);
            let effect = TapKeyEffect { key, modifiers };
            let same = match self.tap_key {
                Some(l) => l.source == event.pos && l.value == effect,
                None => false,
            };
            if same {
                let l = self.tap_key.unwrap();
                if l.is_double_tap(event.pos, policy) {
                    let mut rel = self.release_tap_key();
                    out.append(&mut rel);
                    return out;
                }
                let mut l2 = l;
                l2.repeat_count = if l.repeat_count == 0xFFFF {
                    0xFFFF
                } else {
                    l.repeat_count + 1
                };
                if policy.max_repeat > 0 && l2.repeat_count > policy.max_repeat {
                    self.tap_key = Some(l2);
                    let mut rel = self.release_tap_key();
                    out.append(&mut rel);
                    return out;
                }
                l2.begin_press(event.pos, policy, now);
                self.tap_key = Some(l2);
            } else {
                let mut rel = self.release_tap_key();
                out.append(&mut rel);
                self.tap_key = Some(Latch::new(effect, event.pos, policy, now));
            }
            out.push(StickyOutput::Key(key, event));
            out
        } else {
            let mut out: Vec<StickyOutput> = Vec::new();
            if let Some(l) = self.tap_key {
                if l.source == event.pos && (l.phase == LatchPhase::Pressed || l.phase
                    == LatchPhase::PressDeadlineInactive) {
                    let mut l2 = l;
                    l2.on_physical_release(Some(event.pos), now);
                    self.tap_key = Some(l2);
                    out.push(StickyOutput::Key(key, event));
                }
            }
            out
        }
    }
}

/// No producer left in the slots.
pub open spec fn no_producer(ps: Seq<Option<ModifierProducer>>) -> bool {
    forall|k: int| 0 <= k < ps.len() ==> #[trigger] ps[k] is None
}

proof fn lemma_remember_none(c: Seq<Option<ModifierProducer>>, ps: Seq<Option<ModifierProducer>>, i: int)
    requires
        0 <= i,
        no_producer(ps),
    ensures
        remember_all(c, ps, i) == c,
    decreases ps.len() - i,
{
    if i < ps.len() {
        assert(ps[i] is None);
        lemma_remember_none(c, ps, i + 1);
    }
}

/// The release of the producer in slot `j` of latch `l`, from state `s`
/// to state `f` with outputs `r`: the slot is freed; after the last
/// producer the latch sees a physical release, which may release the
/// sticky modifier.
pub open spec fn producer_release(
    s: StickyKeyState,
    f: StickyKeyState,
    r: Seq<StickyOutput>,
    l: Latch<StickyModifierEffect>,
    j: int,
    now: u64,
) -> bool {
    let ps = l.value.producers@.update(j, None);
    let last = no_producer(ps);
    let (pl, res) = spec_physical_release(l, None, now);
    &&& f.canceled_modifier_releases@ == s.canceled_modifier_releases@
    &&& if last && res == PhysicalRelease::Released {
        f.modifier is None && r == modifier_release_outputs(Some(l))
    } else {
        &&& f.modifier matches Some(l2) && {
            &&& l2.value.producers@ == ps
            &&& l2.value.modifiers == l.value.modifiers
            &&& l2.value.host_visible == l.value.host_visible
            &&& same_lifecycle(
                l2,
                if last {
                    pl
                } else {
                    l
                },
            )
        }
        &&& r == Seq::<StickyOutput>::empty()
    }
}

impl StickyKeyState {
    fn release_producer(&mut self, slot_is_exact: bool, modifiers: u8, event: KeyboardEvent, now: u64) -> (r: Option<
        Vec<StickyOutput>,
    >)
        requires
            state_wf(*old(self)),
            now <= MAX_TIME_MS,
        ensures
            state_wf(*final(self)),
            final(self).layer == old(self).layer,
            final(self).tap_key == old(self).tap_key,
            ({
                let slot = match old(self).modifier {
                    Some(l) => if slot_is_exact {
                        exact_slot(l.value.producers@, ModifierProducer { source: event.pos, modifiers }, 0)
                    } else {
                        modifier_slot(l.value.producers@, modifiers, 0)
                    },
                    None => None,
                };
                match slot {
                    Some(j) => r matches Some(v) && producer_release(
                        *old(self),
                        *final(self),
                        v@,
                        old(self).modifier->0,
                        j,
                        now,
                    ),
                    None => r is None && *final(self) == *old(self),
                }
            }),
    {
        let l = match self.modifier {
            Some(l) => l,
            None => {
                return None;
            },
        };
        let mut l2 = l;
        let found = if slot_is_exact {
            l2.value.on_exact_release(modifiers, event.pos)
        } else {
            l2.value.on_combo_release(modifiers)
        };
        let last = match found {
            Some(last) => last,
            None => {
                return None;
            },
        };
        let ghost j = if slot_is_exact {
            exact_slot(l.value.producers@, ModifierProducer { source: event.pos, modifiers }, 0)->0
        } else {
            modifier_slot(l.value.producers@, modifiers, 0)->0
        };
        assert(no_producer(l2.value.producers@) == last);
        if last {
            let res = l2.on_physical_release(None, now);
            self.modifier = Some(l2);
            if res == PhysicalRelease::Released {
                proof {
                    lemma_remember_none(self.canceled_modifier_releases@, l2.value.producers@, 0);
                }
                let out = self.release_sticky_modifier();
                return Some(out);
            }
        } else {
            self.modifier = Some(l2);
        }
        Some(Vec::new())
    }

    /// A sticky modifier key pressed or released at `now`. A press releases
    /// the tap key; a double tap releases the sticky modifier (the press's
    /// own release will be swallowed); else the press joins the chord (or
    /// starts it), and is reported at once when the policy says so. A
    /// release of a canceled producer is swallowed; else it frees its
    /// producer, by position or, for a combo output, by modifiers; the
    /// last producer's release may release the sticky modifier.
    pub fn process_sticky_modifier(
        &mut self,
        modifiers: u8,
        policy: StickyKeyPolicy,
        event: KeyboardEvent,
        now: u64,
    ) -> (r: Vec<StickyOutput>)
        requires
            state_wf(*old(self)),
            policy_ok(policy),
            now <= MAX_TIME_MS,
        ensures
            state_wf(*final(self)),
            final(self).layer == old(self).layer,
            event.pressed ==> ({
                let t_out = tap_key_release_outputs(old(self).tap_key);
                let mp = ModifierProducer { source: event.pos, modifiers };
                let report: Seq<StickyOutput> = if policy.activate_on_keypress {
                    seq![StickyOutput::Report(true)]
                } else {
                    seq![]
                };
                &&& final(self).tap_key is None
                &&& match old(self).modifier {
                    Some(l) => if double_tap(l, event.pos, policy) {
                        &&& final(self).modifier is None
                        &&& final(self).canceled_modifier_releases@ == remember_all(
                            with_producer(old(self).canceled_modifier_releases@, mp),
                            l.value.producers@,
                            0,
                        )
                        &&& r@ == t_out + modifier_release_outputs(old(self).modifier)
                    } else {
                        &&& final(self).canceled_modifier_releases == old(self).canceled_modifier_releases
                        &&& final(self).modifier matches Some(l2) && {
                            &&& l2.value.modifiers == l.value.modifiers | modifiers
                            &&& l2.value.producers@ == with_producer(l.value.producers@, mp)
                            &&& l2.value.host_visible == (l.value.host_visible || policy.activate_on_keypress)
                            &&& l2.source == event.pos
                            &&& l2.policy == policy
                            &&& (l2.phase, l2.timing_marker) == spec_press_state(policy, chord_start(l, now), now)
                            &&& l2.repeat_count == l.repeat_count
                            &&& !l2.buffered_claim
                        }
                        &&& r@ == t_out + report
                    },
                    None => {
                        &&& final(self).canceled_modifier_releases == old(self).canceled_modifier_releases
                        &&& final(self).modifier matches Some(l2) && {
                            &&& l2.value.modifiers == modifiers
                            &&& l2.value.producers@ == seq![Some(mp)].add(Seq::new(7, |i: int| None::<ModifierProducer>))
                            &&& l2.value.host_visible == policy.activate_on_keypress
                            &&& same_lifecycle(l2, fresh_latch(mp, event.pos, policy, now))
                        }
                        &&& r@ == t_out + report
                    },
                }
            }),
            !event.pressed ==> ({
                let mp = ModifierProducer { source: event.pos, modifiers };
                let exact = match old(self).modifier {
                    Some(l) => exact_slot(l.value.producers@, mp, 0),
                    None => None,
                };
                let combo = match old(self).modifier {
                    Some(l) => modifier_slot(l.value.producers@, modifiers, 0),
                    None => None,
                };
                &&& final(self).tap_key == old(self).tap_key
                &&& match exact_slot(old(self).canceled_modifier_releases@, mp, 0) {
                    Some(i) => final(self).canceled_modifier_releases@ == old(
                        self,
                    ).canceled_modifier_releases@.update(i, None) && final(self).modifier == old(self).modifier
                        && r@ == Seq::<StickyOutput>::empty(),
                    None => match exact {
                        Some(j) => producer_release(*old(self), *final(self), r@, old(self).modifier->0, j, now),
                        None => match modifier_slot(old(self).canceled_modifier_releases@, modifiers, 0) {
                            Some(i) => final(self).canceled_modifier_releases@ == old(
                                self,
                            ).canceled_modifier_releases@.update(i, None) && final(self).modifier == old(
                                self,
                            ).modifier && r@ == Seq::<StickyOutput>::empty(),
                            None => match combo {
                                Some(j) => producer_release(
                                    *old(self),
                                    *final(self),
                                    r@,
                                    old(self).modifier->0,
                                    j,
                                    now,
                                ),
                                None => final(self).modifier == old(self).modifier
                                    && final(self).canceled_modifier_releases == old(
                                    self,
                                ).canceled_modifier_releases && r@ == Seq::<StickyOutput>::empty(),
                            },
                        },
                    },
                }
            }),
    {
        if event.pressed {
            let mut out = self.release_tap_key();
            let double = match self.modifier {
                Some(l) => l.is_double_tap(event.pos, policy),
                None => false,
            };
            if double {
                self.remember_canceled_modifier_release(ModifierProducer { source: event.pos, modifiers });
                let mut more = self.release_sticky_modifier();
                out.append(&mut more);
                return out;
            }
            match self.modifier {
                Some(l) => {
                    let mut l2 = l;
                    l2.value.begin_press(modifiers, event.pos);
                    l2.begin_modifier_press(event.pos, policy, now);
                    self.modifier = Some(l2);
                },
                None => {
                    self.modifier = Some(
                        Latch::new(StickyModifierEffect::new(modifiers, event.pos), event.pos, policy, now),
                    );
                },
            }
            if policy.activate_on_keypress {
                self.mark_modifier_host_visible();
                out.push(StickyOutput::Report(true));
            }
            return out;
        }
        if self.consume_exact_canceled_modifier_release(modifiers, event.pos) {
            return Vec::new();
        }
        if let Some(out) = self.release_producer(true, modifiers, event, now) {
            return out;
        }
        if self.consume_canceled_combo_release(modifiers) {
            return Vec::new();
        }
        match self.release_producer(false, modifiers, event, now) {
            Some(out) => out,
            None => Vec::new(),
        }
    }
}

/// Whether a latch's release mode includes one of `mode`'s bits.
pub open spec fn releases_on<T>(o: Option<Latch<T>>, mode: u8) -> bool {
    o matches Some(l) && l.policy.release_mode & mode != 0
}

/// Whether a latch times out at `now`.
pub open spec fn times_out<T>(o: Option<Latch<T>>, now: u64) -> bool {
    o matches Some(l) && spec_deadline_disposition(l, now).1 == DeadlineDisposition::Release
}

/// A latch after its deadline is checked at `now`, unless it timed out.
pub open spec fn after_deadline<T>(o: Option<Latch<T>>, now: u64) -> Option<Latch<T>> {
    match o {
        Some(l) => Some(spec_deadline_disposition(l, now).0),
        None => None,
    }
}

impl StickyKeyState {
    /// A layer event of kind `mode` (release mode bits): each sticky effect
    /// whose release mode includes it is released (modifier, layer, then
    /// tap key).
    pub fn release_sticky_key_on_layer_event(&mut self, mode: u8) -> (r: Vec<StickyOutput>)
        requires
            state_wf(*old(self)),
        ensures
            state_wf(*final(self)),
            final(self).modifier == (if releases_on(old(self).modifier, mode) {
                None
            } else {
                old(self).modifier
            }),
            final(self).canceled_modifier_releases@ == (if releases_on(old(self).modifier, mode) {
                canceled_after_release(old(self).canceled_modifier_releases@, old(self).modifier)
            } else {
                old(self).canceled_modifier_releases@
            }),
            final(self).layer == (if releases_on(old(self).layer, mode) {
                None
            } else {
                old(self).layer
            }),
            final(self).tap_key == (if releases_on(old(self).tap_key, mode) {
                None
            } else {
                old(self).tap_key
            }),
            r@ == (if releases_on(old(self).modifier, mode) {
                modifier_release_outputs(old(self).modifier)
            } else {
                seq![]
            }) + (if releases_on(old(self).layer, mode) {
                layer_release_outputs(old(self).layer)
            } else {
                seq![]
            }) + (if releases_on(old(self).tap_key, mode) {
                tap_key_release_outputs(old(self).tap_key)
            } else {
                seq![]
            }),
    {
        let mut out: Vec<StickyOutput> = Vec::new();
        let m = match self.modifier {
            Some(l) => l.policy.release_mode & mode != 0,
            None => false,
        };
        if m {
            let mut more = self.release_sticky_modifier();
            out.append(&mut more);
        }
        let ghost after_m = out@;
        let ly = match self.layer {
            Some(l) => l.policy.release_mode & mode != 0,
            None => false,
        };
        if ly {
            let mut more = self.release_sticky_layer();
            out.append(&mut more);
        }
        let ghost after_l = out@;
        let t = match self.tap_key {
            Some(l) => l.policy.release_mode & mode != 0,
            None => false,
        };
        if t {
            let mut more = self.release_tap_key();
            out.append(&mut more);
        }
        proof {
            assert(after_m =~= (if m {
                modifier_release_outputs(old(self).modifier)
            } else {
                seq![]
            }));
            assert(out@ =~= after_l + (if t {
                tap_key_release_outputs(old(self).tap_key)
            } else {
                seq![]
            }));
        }
        out
    }

    /// The deadlines checked at `now`: a passed press deadline defers the
    /// release to key-up; each sticky effect whose latch timed out is
    /// released (modifier, layer, then tap key).
    pub fn release_sticky_key_if_active_on_timeout(&mut self, now: u64) -> (r: Vec<StickyOutput>)
        requires
            state_wf(*old(self)),
        ensures
            state_wf(*final(self)),
            final(self).modifier == (if times_out(old(self).modifier, now) {
                None
            } else {
                after_deadline(old(self).modifier, now)
            }),
            final(self).canceled_modifier_releases@ == (if times_out(old(self).modifier, now) {
                canceled_after_release(old(self).canceled_modifier_releases@, old(self).modifier)
            } else {
                old(self).canceled_modifier_releases@
            }),
            final(self).layer == (if times_out(old(self).layer, now) {
                None
            } else {
                after_deadline(old(self).layer, now)
            }),
            final(self).tap_key == (if times_out(old(self).tap_key, now) {
                None
            } else {
                after_deadline(old(self).tap_key, now)
            }),
            r@ == (if times_out(old(self).modifier, now) {
                modifier_release_outputs(old(self).modifier)
            } else {
                seq![]
            }) + (if times_out(old(self).layer, now) {
                layer_release_outputs(old(self).layer)
            } else {
                seq![]
            }) + (if times_out(old(self).tap_key, now) {
                tap_key_release_outputs(old(self).tap_key)
            } else {
                seq![]
            }),
    {
        let mut out: Vec<StickyOutput> = Vec::new();
        let mut m = false;
        if let Some(l) = self.modifier {
            let mut l2 = l;
            m = l2.deadline_disposition(now) == DeadlineDisposition::Release;
            self.modifier = Some(l2);
        }
        if m {
            let mut more = self.release_sticky_modifier();
            out.append(&mut more);
        }
        let ghost after_m = out@;
        let mut ly = false;
        if let Some(l) = self.layer {
            let mut l2 = l;
            ly = l2.deadline_disposition(now) == DeadlineDisposition::Release;
            self.layer = Some(l2);
        }
        if ly {
            let mut more = self.release_sticky_layer();
            out.append(&mut more);
        }
        let ghost after_l = out@;
        let mut t = false;
        if let Some(l) = self.tap_key {
            let mut l2 = l;
            t = l2.deadline_disposition(now) == DeadlineDisposition::Release;
            self.tap_key = Some(l2);
        }
        if t {
            let mut more = self.release_tap_key();
            out.append(&mut more);
        }
        proof {
            assert(after_m =~= (if m {
                modifier_release_outputs(old(self).modifier)
            } else {
                seq![]
            }));
            assert(out@ =~= after_l + (if t {
                tap_key_release_outputs(old(self).tap_key)
            } else {
                seq![]
            }));
        }
        out
    }
}

/// A tap latches a sticky key: the release of a fresh latch's key before
/// its hold threshold (or without one) latches it with its timeout from
/// the release.
pub proof fn lemma_tap_latches<T>(
    value: T,
    source: crate::event::KeyboardEventPos,
    policy: StickyKeyPolicy,
    pressed_at: u64,
    released_at: u64,
)
    requires
        policy_ok(policy),
        pressed_at <= released_at <= MAX_TIME_MS,
        policy.release_on_keyup_after matches Some(h) ==> h == crate::sticky_key::NEVER || released_at < pressed_at + h,
    ensures
        spec_physical_release(fresh_latch(value, source, policy, pressed_at), Some(source), released_at) == (
            Latch {
                phase: LatchPhase::Latched,
                timing_marker: crate::sticky_key::deadline_from(released_at, policy.timeout),
                ..fresh_latch(value, source, policy, pressed_at)
            },
            PhysicalRelease::Latched,
        ),
{
}

} // verus!
